use topk_cli::config::{Config, ProjectTokens};
use topk_cli::endpoint::Host;
use topk_cli::client::{data_access, DataAccess};
use topk_cli::data::client::data_client_access;

fn config(issuer: &str) -> Config {
    Config {
        dir: "/home/u/.config/topk".to_string(),
        issuer: issuer.to_string(),
        client_id: "cid".to_string(),
        audience: "https://api.topk.io".to_string(),
    }
}

#[test]
fn issuer_key_is_the_hex_sha256_of_the_issuer() {
    assert_eq!(
        config("abc").issuer_key(),
        "ba7816bf8f01cfea414140de5dae2223b00361a396177a9cb410ff61f20015ad"
    );
    assert_eq!(config("https://topk-prod.us.auth0.com/").issuer_key().len(), 64);
}

#[test]
fn tenant_files_live_under_the_issuer_key() {
    let c = config("abc");
    let tenant = "/home/u/.config/topk/tenants/ba7816bf8f01cfea414140de5dae2223b00361a396177a9cb410ff61f20015ad";
    assert_eq!(c.tenant_dir(), tenant);
    assert_eq!(c.credentials_file(), format!("{tenant}/credentials.toml"));
    assert_eq!(c.session_lock_file(), format!("{tenant}/session.lock"));
    assert_eq!(c.project_tokens().dir, format!("{tenant}/projects"));
    assert_eq!(c.config_file(), "/home/u/.config/topk/config.toml");
}

#[test]
fn project_token_files_are_per_project() {
    let t = ProjectTokens { dir: "/t/projects".to_string() };
    assert_eq!(t.tokens_dir(), "/t/projects/tokens");
    assert_eq!(t.token_file("p1"), "/t/projects/tokens/p1.toml");
    assert_eq!(t.lock_file("p1"), "/t/projects/locks/p1.lock");
}

#[test]
fn credentials_must_match_the_configuration() {
    let c = config("abc");
    assert_eq!(c.check_credentials("cid", "https://api.topk.io"), Ok(()));
    assert_eq!(
        c.check_credentials("other", "https://api.topk.io"),
        Err("authentication configuration mismatch".to_string())
    );
}

#[test]
fn management_api_is_on_the_api_subdomain() {
    assert_eq!(Host { host: "topk.io".to_string(), https: true }.management_url(), "https://api.topk.io");
    assert_eq!(Host { host: "local".to_string(), https: false }.management_url(), "http://api.local");
}

fn some(s: &str) -> Option<String> {
    Some(s.to_string())
}

const REGION_REQUIRED: &str =
    "--region is required (or set TOPK_REGION). List available regions at https://docs.topk.io/regions";

#[test]
fn data_access_needs_a_region() {
    assert_eq!(data_access(some("k"), None, None), Err(REGION_REQUIRED.to_string()));
    assert_eq!(data_access(some("k"), None, some("")), Err(REGION_REQUIRED.to_string()));
}

#[test]
fn data_access_by_key_or_project() {
    assert_eq!(
        data_access(some("k"), None, some("r")),
        Ok(DataAccess::ApiKey { api_key: "k".to_string(), region: "r".to_string() })
    );
    assert_eq!(
        data_access(some(""), some("p"), some("r")),
        Ok(DataAccess::Project { project_id: "p".to_string(), region: "r".to_string() })
    );
}

#[test]
fn data_access_refuses_both_or_neither() {
    assert_eq!(
        data_access(some("k"), some("p"), some("r")),
        Err("--project-id cannot be combined with an API key (--api-key or TOPK_API_KEY). Unset TOPK_API_KEY to use your login, or drop --project-id to use the API key.".to_string())
    );
    assert_eq!(data_access(None, None, some("r")), Err("--project-id is required".to_string()));
}

#[test]
fn import_client_access() {
    assert_eq!(data_client_access(some("k"), None, None), Err(REGION_REQUIRED.to_string()));
    assert_eq!(
        data_client_access(some("k"), some("p"), some("r")),
        Err("--project-id cannot be combined with an API key".to_string())
    );
    assert_eq!(
        data_client_access(None, None, some("r")),
        Err("--api-key (or set TOPK_API_KEY) or --project-id is required".to_string())
    );
    assert_eq!(
        data_client_access(None, some("p"), some("r")),
        Ok(DataAccess::Project { project_id: "p".to_string(), region: "r".to_string() })
    );
}
