use topk_cli::commands::auth::{
    api_key_url, entered_key, menu_choice, required_key, resolve_step, trim, KeyStep, LogoutResult,
    MenuChoice,
};

#[test]
fn logout_reports_the_removed_file() {
    let r = LogoutResult { removed: true, path: "/c/config.toml".to_string(), env_var_still_set: false };
    assert_eq!(r.render(), "Logged out. Removed \"/c/config.toml\".");
}

#[test]
fn logout_without_file_and_with_environment_key() {
    let r = LogoutResult { removed: false, path: "/c/config.toml".to_string(), env_var_still_set: true };
    assert_eq!(
        r.render(),
        "No API key file to remove at \"/c/config.toml\". You are already logged out.\n\
         Note: TOPK_API_KEY is still set in your environment; unset it to fully log out."
    );
}

#[test]
fn provided_key_comes_first() {
    match resolve_step(Some("k1".to_string()), Some("k2".to_string()), false, false) {
        KeyStep::Use(k) => assert_eq!(k, "k1"),
        _ => panic!("expected the provided key"),
    }
}

#[test]
fn stored_key_is_used_next() {
    match resolve_step(None, Some("k2".to_string()), false, false) {
        KeyStep::Use(k) => assert_eq!(k, "k2"),
        _ => panic!("expected the stored key"),
    }
}

#[test]
fn without_key_and_terminal_it_fails() {
    match resolve_step(None, None, false, false) {
        KeyStep::Fail(m) => assert_eq!(m, "API key not set. Set TOPK_API_KEY environment variable or run: topk auth"),
        _ => panic!("expected an error"),
    }
}

#[test]
fn without_key_on_a_terminal_the_menu_is_shown() {
    assert!(matches!(resolve_step(None, None, true, false), KeyStep::MenuRequired));
    assert!(matches!(resolve_step(Some("k".to_string()), None, true, true), KeyStep::MenuExplicit));
}

#[test]
fn skipping_a_required_key_is_an_error() {
    assert_eq!(required_key(Some("k".to_string())), Ok("k".to_string()));
    assert_eq!(
        required_key(None),
        Err("API key not set. Run `topk auth` to configure one".to_string())
    );
}

#[test]
fn menu_options_map_to_choices() {
    assert_eq!(menu_choice(0), MenuChoice::CreateNew);
    assert_eq!(menu_choice(1), MenuChoice::UseExisting);
    assert_eq!(menu_choice(2), MenuChoice::Skip);
}

#[test]
fn api_key_page_follows_host_and_scheme() {
    assert_eq!(api_key_url("topk.io", true), "https://console.topk.io/api-key");
    assert_eq!(api_key_url("localhost:8080", false), "http://console.localhost:8080/api-key");
}

#[test]
fn trim_removes_surrounding_white_space() {
    assert_eq!(trim("  key \n"), "key");
    assert_eq!(trim("\u{3000}a b\t"), "a b");
    assert_eq!(trim("   "), "");
    assert_eq!(trim(""), "");
    let s = " \t x y \u{a0}";
    assert_eq!(trim(s), s.trim());
}

#[test]
fn entered_key_must_not_be_blank() {
    assert_eq!(entered_key(" sk-1 "), Ok("sk-1".to_string()));
    assert_eq!(entered_key(" \n "), Err("no API key provided".to_string()));
}
