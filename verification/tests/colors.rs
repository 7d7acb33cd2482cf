use topk_cli::commands::ask::{AskResult, Fact};
use topk_cli::commands::list::render_status;
use topk_cli::commands::login::logged_in_line;

fn colours_on() {
    colored::control::set_override(true);
}

#[test]
fn ready_status_is_green() {
    colours_on();
    assert_eq!(render_status("ready", None), "\u{1b}[32mReady\u{1b}[0m");
}

#[test]
fn pending_status_is_yellow_and_error_red() {
    colours_on();
    assert_eq!(render_status("pending", None), "\u{1b}[33mPending\u{1b}[0m");
    assert_eq!(render_status("error", Some("x")), "\u{1b}[31mError (x)\u{1b}[0m");
}

#[test]
fn unknown_status_stays_plain() {
    colours_on();
    assert_eq!(render_status("other", None), "other");
}

#[test]
fn ref_tags_are_blue() {
    colours_on();
    let a = AskResult {
        facts: vec![Fact { fact: "F.".to_string(), ref_ids: vec!["1".to_string()] }],
        refs: vec![],
        show_refs: true,
    };
    assert_eq!(a.render(), "F. \u{1b}[34m[1]\u{1b}[0m");
}

#[test]
fn login_check_mark_is_green() {
    colours_on();
    assert_eq!(logged_in_line(None), "\u{1b}[32m\u{2713}\u{1b}[0m Logged in.");
}

#[test]
fn resets_inside_styled_text_set_the_style_again() {
    colours_on();
    assert_eq!(
        render_status("error", Some("a\u{1b}[0mb")),
        "\u{1b}[31mError (a\u{1b}[0m\u{1b}[31mb)\u{1b}[0m"
    );
}
