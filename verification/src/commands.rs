//! What each command computes, separated from the I/O around it.

pub mod ask;
pub mod auth;
pub mod dataset;
pub mod delete;
pub mod import;
pub mod list;
pub mod login;
pub mod project;
pub mod region;
pub mod search;
pub mod upsert;
pub mod upload;
