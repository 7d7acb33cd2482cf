//! Judging the browser's return to the local login callback, and the page
//! shown in answer.

use vstd::prelude::*;
use crate::text::{owned, same_text};

verus! {

/// The query parameters of a login callback.
pub struct CallbackParams {
    pub state: String,
    pub code: Option<String>,
    pub error: Option<String>,
    pub error_description: Option<String>,
}

/// What a callback request amounts to.
pub enum CallbackDecision {
    /// Answer 400: wrong state, or neither a code nor an error.
    Reject,
    /// The authorization code to exchange.
    Code(String),
    /// The identity provider reported an error; the login fails with this message.
    Failed(String),
}

/// The message for an error reported by the identity provider.
pub open spec fn provider_error(error: Seq<char>, description: Option<String>) -> Seq<char> {
    error + ": "@ + match description {
        Some(d) => d@,
        None => Seq::empty(),
    }
}

/// Judges a callback against the `state` the login was started with.
pub fn classify_callback(params: CallbackParams, expected_state: &str) -> (r: CallbackDecision)
    ensures
        params.state@ != expected_state@ ==> r is Reject,
        params.state@ == expected_state@ ==> match (params.code, params.error) {
            (Some(code), None) => if code@.len() > 0 { r == CallbackDecision::Code(code) } else { r is Reject },
            (None, Some(error)) => r matches CallbackDecision::Failed(m)
                && m@ == provider_error(error@, params.error_description),
            _ => r is Reject,
        },
{
    if !same_text(params.state.as_str(), expected_state) {
        return CallbackDecision::Reject;
    }
    match (params.code, params.error) {
        (Some(code), None) => {
            if code.unicode_len() > 0 { CallbackDecision::Code(code) } else { CallbackDecision::Reject }
        },
        (None, Some(error)) => {
            let mut m = owned(error.as_str());
            m.append(": ");
            match &params.error_description {
                Some(d) => m.append(d.as_str()),
                None => {},
            }
            CallbackDecision::Failed(m)
        },
        _ => CallbackDecision::Reject,
    }
}

/// The parts of the page the browser is shown after the callback.
pub struct Page {
    pub status: u16,
    pub title: String,
    pub tone: String,
    pub body: String,
}

/// The page for a login that succeeded (`ok`) or failed.
pub fn page(ok: bool) -> (r: Page)
    ensures
        ok ==> r.status == 200 && r.title@ == "You're logged in"@ && r.tone@ == "fg"@
            && r.body@ == "You can close this tab and return to the terminal."@,
        !ok ==> r.status == 400 && r.title@ == "Login failed"@ && r.tone@ == "err"@
            && r.body@ == "Could not complete login. Return to the terminal for more information."@,
{
    if ok {
        Page {
            status: 200,
            title: "You're logged in".to_owned(),
            tone: "fg".to_owned(),
            body: "You can close this tab and return to the terminal.".to_owned(),
        }
    } else {
        Page {
            status: 400,
            title: "Login failed".to_owned(),
            tone: "err".to_owned(),
            body: "Could not complete login. Return to the terminal for more information.".to_owned(),
        }
    }
}

} // verus!
