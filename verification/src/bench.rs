//! The benchmark tool: its documents, queries and settings.

pub mod data;
pub mod query;
pub mod args;
pub mod settings;
pub mod providers;
pub mod runs;
