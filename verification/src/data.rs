//! The data client of the import tool.

pub mod client;
