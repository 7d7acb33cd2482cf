//! The configuration directory: where the login session and the project
//! tokens minted with it are kept, one tenant directory per issuer.

use vstd::prelude::*;
use crate::digest::{hex_lower, sha256_digest, sha256_hex};
use crate::paths::{join_path, joined_path};
use crate::text::same_text;

verus! {

/// Where the tool keeps its files, and the authentication it uses.
pub struct Config {
    pub dir: String,
    /// The issuer's URL, as text.
    pub issuer: String,
    pub client_id: String,
    pub audience: String,
}

/// The project access tokens minted with a session, cached per project.
pub struct ProjectTokens {
    pub dir: String,
}

/// The tenant directory of a configuration: `<dir>/tenants/<issuer key>`.
pub open spec fn tenant_dir_of(dir: Seq<char>, key: Seq<char>) -> Seq<char> {
    joined_path(joined_path(dir, "tenants"@), key)
}

impl Config {
    /// The issuer's directory name: the lowercase hex SHA-256 of its URL.
    pub fn issuer_key(&self) -> (r: String)
        ensures
            r@ == hex_lower(sha256_digest(vstd::utf8::encode_utf8(self.issuer@))),
            r@.len() == 64,
    {
        sha256_hex(self.issuer.as_str())
    }

    /// `<dir>/config.toml`
    pub fn config_file(&self) -> (r: String)
        ensures
            r@ == joined_path(self.dir@, "config.toml"@),
    {
        join_path(self.dir.as_str(), "config.toml")
    }

    /// Everything scoped to this issuer's session lives here.
    pub fn tenant_dir(&self) -> (r: String)
        ensures
            r@ == tenant_dir_of(self.dir@, hex_lower(sha256_digest(vstd::utf8::encode_utf8(self.issuer@)))),
    {
        let tenants = join_path(self.dir.as_str(), "tenants");
        let key = self.issuer_key();
        join_path(tenants.as_str(), key.as_str())
    }

    /// `<tenant dir>/credentials.toml`
    pub fn credentials_file(&self) -> (r: String)
        ensures
            r@ == joined_path(tenant_dir_of(self.dir@, hex_lower(sha256_digest(vstd::utf8::encode_utf8(self.issuer@)))), "credentials.toml"@),
    {
        join_path(self.tenant_dir().as_str(), "credentials.toml")
    }

    /// `<tenant dir>/session.lock`
    pub fn session_lock_file(&self) -> (r: String)
        ensures
            r@ == joined_path(tenant_dir_of(self.dir@, hex_lower(sha256_digest(vstd::utf8::encode_utf8(self.issuer@)))), "session.lock"@),
    {
        join_path(self.tenant_dir().as_str(), "session.lock")
    }

    /// The project tokens of this session, under `<tenant dir>/projects`.
    pub fn project_tokens(&self) -> (r: ProjectTokens)
        ensures
            r.dir@ == joined_path(tenant_dir_of(self.dir@, hex_lower(sha256_digest(vstd::utf8::encode_utf8(self.issuer@)))), "projects"@),
    {
        ProjectTokens { dir: join_path(self.tenant_dir().as_str(), "projects") }
    }

    /// Accepts stored credentials only when they were made for this
    /// configuration's client and audience.
    pub fn check_credentials(&self, client_id: &str, audience: &str) -> (r: Result<(), String>)
        ensures
            r is Ok <==> (client_id@ == self.client_id@ && audience@ == self.audience@),
            r matches Err(m) ==> m@ == "authentication configuration mismatch"@,
    {
        if same_text(client_id, self.client_id.as_str()) && same_text(audience, self.audience.as_str()) {
            Ok(())
        } else {
            Err("authentication configuration mismatch".to_owned())
        }
    }
}

impl ProjectTokens {
    /// `<dir>/tokens`
    pub fn tokens_dir(&self) -> (r: String)
        ensures
            r@ == joined_path(self.dir@, "tokens"@),
    {
        join_path(self.dir.as_str(), "tokens")
    }

    /// `<dir>/tokens/<project id>.toml`
    pub fn token_file(&self, project_id: &str) -> (r: String)
        ensures
            r@ == joined_path(joined_path(self.dir@, "tokens"@), project_id@ + ".toml"@),
    {
        let mut name = project_id.to_owned();
        name.append(".toml");
        join_path(self.tokens_dir().as_str(), name.as_str())
    }

    /// `<dir>/locks/<project id>.lock`
    pub fn lock_file(&self, project_id: &str) -> (r: String)
        ensures
            r@ == joined_path(joined_path(self.dir@, "locks"@), project_id@ + ".lock"@),
    {
        let mut name = project_id.to_owned();
        name.append(".lock");
        let locks = join_path(self.dir.as_str(), "locks");
        join_path(locks.as_str(), name.as_str())
    }
}

} // verus!
