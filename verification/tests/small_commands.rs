use topk_cli::commands::login::{login_notice, logged_in_line};
use topk_cli::commands::upsert::UpsertResult;

#[test]
fn login_notice_with_and_without_browser() {
    assert_eq!(login_notice(true, "https://x/a"), "Open this URL in your browser to log in:\n\nhttps://x/a\n");
    assert_eq!(
        login_notice(false, "https://x/a"),
        "Opening your browser to log in. If it doesn't open, visit:\n\nhttps://x/a\n"
    );
}

#[test]
fn logged_in_line_names_the_account() {
    colored::control::set_override(false);
    assert_eq!(logged_in_line(Some("ann@acme")), "\u{2713} Logged in as ann@acme");
    assert_eq!(logged_in_line(None), "\u{2713} Logged in.");
}

#[test]
fn upsert_result_reads_as_uploaded() {
    let r = UpsertResult { handle: "h".to_string(), processed: true, metadata: vec![] };
    assert_eq!(r.render(), "Uploaded and processed.");
    let d = UpsertResult::dry_run(vec![("title".to_string(), "\"T\"".to_string())]);
    assert_eq!(d.handle, "dry-run");
    assert!(!d.processed);
    assert_eq!(d.metadata.len(), 1);
    assert_eq!(d.render(), "Uploaded.");
}
