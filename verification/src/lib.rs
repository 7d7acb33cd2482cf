//! Verified core of the TopK command-line tools: dataset caches, upload
//! planning and reporting, search and answer rendering, authentication
//! decisions, and the benchmark's document handling.

pub mod auth;
pub mod bench;
pub mod cache;
pub mod client;
pub mod commands;
pub mod config;
pub mod data;
pub mod dataset_region_cache;
pub mod datasets;
pub mod digest;
pub mod endpoint;
pub mod files;
pub mod paint;
pub mod paths;
pub mod text;
pub mod units;
