//! `topk login`: the words around a browser login.

use vstd::prelude::*;
use crate::paint::{green, green_code, shows};

verus! {

/// The arguments of `topk login`.
pub struct LoginArgs {
    /// Print the login URL instead of opening a browser.
    pub no_browser: bool,
}

/// What is printed before waiting for the login: the URL to open, and
/// whether the tool opens it itself.
pub fn login_notice(no_browser: bool, url: &str) -> (r: String)
    ensures
        r@ == (if no_browser {
            "Open this URL in your browser to log in:\n\n"@
        } else {
            "Opening your browser to log in. If it doesn't open, visit:\n\n"@
        }) + url@ + "\n"@,
{
    let mut out = if no_browser {
        "Open this URL in your browser to log in:\n\n".to_owned()
    } else {
        "Opening your browser to log in. If it doesn't open, visit:\n\n".to_owned()
    };
    out.append(url);
    out.append("\n");
    out
}

/// The line printed once logged in: a green check mark, then the account
/// when the token names one.
pub fn logged_in_line(account: Option<&str>) -> (r: String)
    ensures
        exists|check: Seq<char>| #[trigger] shows(green_code(), "\u{2713}"@, check) && r@ == check + match account {
            Some(a) => " Logged in as "@ + a@,
            None => " Logged in."@,
        },
{
    let check = green("\u{2713}");
    let mut out = check.clone();
    match account {
        Some(a) => {
            out.append(" Logged in as ");
            out.append(a);
        },
        None => {
            out.append(" Logged in.");
        },
    }
    assert(shows(green_code(), "\u{2713}"@, check@));
    out
}

} // verus!
