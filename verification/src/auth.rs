//! Login sessions, access-token claims and where credentials are kept.

pub mod access;
pub mod callback;
pub mod claims;
pub mod client;
pub mod jwt;
pub mod session;
pub mod store;
