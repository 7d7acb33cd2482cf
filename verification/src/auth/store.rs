//! Where a login session is kept, and the check that a stored session
//! belongs to the current authentication configuration.

use vstd::prelude::*;
use crate::paths::{join_path, joined_path};
use crate::text::same_text;

verus! {

/// The files that hold a login session under one configuration directory.
pub struct SessionStore {
    pub oauth_config_key: String,
    pub config_file: String,
    pub credentials_file: String,
    pub lock_file: String,
}

impl SessionStore {
    /// The store for the configuration identified by `oauth_config_key`, kept in `config_dir`.
    pub fn new(oauth_config_key: String, config_dir: &str) -> (r: Self)
        ensures
            r.oauth_config_key == oauth_config_key,
            r.config_file@ == joined_path(config_dir@, "config.toml"@),
            r.credentials_file@ == joined_path(config_dir@, "credentials.toml"@),
            r.lock_file@ == joined_path(config_dir@, "session.lock"@),
    {
        SessionStore {
            oauth_config_key,
            config_file: join_path(config_dir, "config.toml"),
            credentials_file: join_path(config_dir, "credentials.toml"),
            lock_file: join_path(config_dir, "session.lock"),
        }
    }

    /// Accepts stored credentials only when they were saved under this
    /// store's configuration key.
    pub fn check_key(&self, stored_key: &str) -> (r: Result<(), String>)
        ensures
            r is Ok <==> stored_key@ == self.oauth_config_key@,
            r matches Err(m) ==> m@ == "authentication configuration mismatch"@,
    {
        if same_text(stored_key, self.oauth_config_key.as_str()) {
            Ok(())
        } else {
            Err("authentication configuration mismatch".to_owned())
        }
    }
}

} // verus!
