use topk_cli::auth::callback::{classify_callback, page, CallbackDecision, CallbackParams};
use topk_cli::auth::claims::{AccessTokenClaims, ClaimValue};
use topk_cli::auth::client::{classify_token_status, OAuthError, TokenError};
use topk_cli::auth::jwt::{jwt_payload, payload_part};
use topk_cli::auth::session::Session;
use topk_cli::auth::store::SessionStore;

const AUD: &str = "https://api.topk.io";

fn claims(extra: Vec<(&str, ClaimValue)>, org_id: Option<&str>) -> AccessTokenClaims {
    AccessTokenClaims::from_payload(
        "auth0|1".to_string(),
        100,
        org_id.map(str::to_string),
        extra.into_iter().map(|(k, v)| (k.to_string(), v)).collect(),
        AUD,
    )
}

fn text(s: &str) -> ClaimValue {
    ClaimValue::Text(s.to_string())
}

#[test]
fn custom_claims_are_read_under_the_audience() {
    let c = claims(
        vec![
            ("https://api.topk.io/email", text("ann@acme.io")),
            ("https://api.topk.io/name", text("Ann")),
            ("https://api.topk.io/permissions", ClaimValue::TextList(vec!["read".to_string()])),
            ("email", text("ignored@x")),
        ],
        None,
    );
    assert_eq!(c.email.as_deref(), Some("ann@acme.io"));
    assert_eq!(c.name.as_deref(), Some("Ann"));
    assert_eq!(c.permissions, vec!["read".to_string()]);
    assert_eq!(c.sub, "auth0|1");
    assert_eq!(c.exp, 100);
}

#[test]
fn username_prefers_email_then_name_then_subject() {
    let both = claims(vec![("https://api.topk.io/email", text("e")), ("https://api.topk.io/name", text("n"))], None);
    assert_eq!(both.username(), "e");
    let name = claims(vec![("https://api.topk.io/name", text("n"))], None);
    assert_eq!(name.username(), "n");
    let none = claims(vec![], None);
    assert_eq!(none.username(), "auth0|1");
}

#[test]
fn account_names_the_team_of_an_organization() {
    let org = claims(
        vec![("https://api.topk.io/email", text("e")), ("https://api.topk.io/org_display_name", text("Acme"))],
        Some("org_1"),
    );
    assert_eq!(org.team(), Some("Acme"));
    assert_eq!(org.account(), "e in Acme");
    let no_org = claims(vec![("https://api.topk.io/org_display_name", text("Acme"))], None);
    assert_eq!(no_org.team(), None);
    assert_eq!(no_org.account(), "auth0|1");
}

#[test]
fn the_payload_is_the_second_part_of_a_token() {
    assert_eq!(payload_part("a.b.c"), Some("b".to_string()));
    assert_eq!(payload_part("a.b"), Some("b".to_string()));
    assert_eq!(payload_part("a..c"), Some("".to_string()));
    assert_eq!(payload_part("abc"), None);
}

#[test]
fn the_payload_is_decoded_from_url_safe_base64() {
    assert_eq!(jwt_payload("h.eyJzdWIiOiJ4In0.s"), Some(b"{\"sub\":\"x\"}".to_vec()));
    assert_eq!(jwt_payload("h.!!!.s"), None);
    assert_eq!(jwt_payload("nodots"), None);
}

#[test]
fn sessions_are_renewed_a_minute_before_expiry() {
    let s = Session { access_token: "a".to_string(), refresh_token: None, expires_at: 1000 };
    assert!(!s.needs_refresh_at(939));
    assert!(s.needs_refresh_at(940));
    assert!(s.needs_refresh_at(2000));
    let never = Session { access_token: "a".to_string(), refresh_token: None, expires_at: u64::MAX };
    assert!(never.needs_refresh_at(u64::MAX - 10));
}

#[test]
fn a_new_session_keeps_the_old_refresh_token_when_none_comes() {
    let s = Session::from_response("t".to_string(), None, 3600, Some("r0".to_string()), 1000);
    assert_eq!(s.refresh_token.as_deref(), Some("r0"));
    assert_eq!(s.expires_at, 4600);
    let t = Session::from_response("t".to_string(), Some("r1".to_string()), u64::MAX, None, 5);
    assert_eq!(t.refresh_token.as_deref(), Some("r1"));
    assert_eq!(t.expires_at, u64::MAX);
}

fn params(state: &str, code: Option<&str>, error: Option<&str>, description: Option<&str>) -> CallbackParams {
    CallbackParams {
        state: state.to_string(),
        code: code.map(str::to_string),
        error: error.map(str::to_string),
        error_description: description.map(str::to_string),
    }
}

#[test]
fn callbacks_with_the_wrong_state_are_rejected() {
    assert!(matches!(classify_callback(params("x", Some("c"), None, None), "s"), CallbackDecision::Reject));
}

#[test]
fn callbacks_carry_a_code_or_an_error() {
    assert!(matches!(classify_callback(params("s", Some("c"), None, None), "s"), CallbackDecision::Code(c) if c == "c"));
    assert!(matches!(classify_callback(params("s", Some(""), None, None), "s"), CallbackDecision::Reject));
    assert!(matches!(
        classify_callback(params("s", None, Some("access_denied"), Some("no")), "s"),
        CallbackDecision::Failed(m) if m == "access_denied: no"
    ));
    assert!(matches!(classify_callback(params("s", None, None, None), "s"), CallbackDecision::Reject));
    assert!(matches!(classify_callback(params("s", Some("c"), Some("e"), None), "s"), CallbackDecision::Reject));
}

#[test]
fn callback_pages() {
    let ok = page(true);
    assert_eq!((ok.status, ok.title.as_str()), (200, "You're logged in"));
    let bad = page(false);
    assert_eq!((bad.status, bad.tone.as_str()), (400, "err"));
}

#[test]
fn token_answers_are_classified() {
    assert!(classify_token_status(200, None).is_ok());
    let e = OAuthError { error: "invalid_grant".to_string(), error_description: "expired".to_string() };
    assert_eq!(e.message(), "invalid_grant: expired");
    let r = classify_token_status(400, Some(e)).unwrap_err();
    assert!(r.is_invalid_grant());
    assert!(matches!(classify_token_status(503, None), Err(TokenError::Status(503))));
    assert!(!TokenError::Status(400).is_invalid_grant());
}

#[test]
fn session_store_files_and_key_check() {
    let s = SessionStore::new("key1".to_string(), "/c");
    assert_eq!(s.credentials_file, "/c/credentials.toml");
    assert_eq!(s.config_file, "/c/config.toml");
    assert_eq!(s.lock_file, "/c/session.lock");
    assert_eq!(s.check_key("key1"), Ok(()));
    assert_eq!(s.check_key("key2"), Err("authentication configuration mismatch".to_string()));
}

use topk_cli::auth::access::{after_refresh, session_from_response, token_step, TokenStep};

fn session(expires_at: u64, refresh: Option<&str>) -> Session {
    Session { access_token: "at".to_string(), refresh_token: refresh.map(str::to_string), expires_at }
}

#[test]
fn fresh_sessions_hand_out_their_token() {
    assert!(matches!(token_step(Some(session(1000, None)), 900), TokenStep::Use(t) if t == "at"));
}

#[test]
fn expiring_sessions_are_renewed_or_end() {
    assert!(matches!(token_step(Some(session(1000, Some("rt"))), 950), TokenStep::Refresh(t) if t == "rt"));
    assert!(matches!(
        token_step(Some(session(1000, None)), 950),
        TokenStep::Fail(m) if m == "session expired. Run `topk login`."
    ));
    assert!(matches!(token_step(None, 0), TokenStep::Fail(m) if m == "not logged in. Run `topk login`."));
}

#[test]
fn refused_renewals_end_the_session() {
    assert_eq!(after_refresh(None).err(), Some("session expired. Run `topk login`.".to_string()));
    assert!(after_refresh(Some(session(5, None))).is_ok());
}

#[test]
fn token_answers_need_an_expiry() {
    assert_eq!(
        session_from_response("a".to_string(), None, None, 10).err(),
        Some("token response is missing expires_in".to_string())
    );
    let s = session_from_response("a".to_string(), Some("r".to_string()), Some(60), 10).unwrap();
    assert_eq!((s.expires_at, s.refresh_token.as_deref()), (70, Some("r")));
}

#[test]
fn a_new_session_is_fresh_and_later_due_sessions_stay_due() {
    let s = Session::from_response("t".to_string(), None, 3600, None, 1_000);
    assert!(!s.needs_refresh_at(1_000));
    assert!(matches!(token_step(Some(s), 1_000), TokenStep::Use(_)));
    let short = session(1_030, None);
    assert!(short.needs_refresh_at(1_000));
    assert!(short.needs_refresh_at(5_000));
}
