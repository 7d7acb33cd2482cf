//! Classifying the token endpoint's answers.

use vstd::prelude::*;
use crate::text::same_text;

verus! {

/// An OAuth error body: `{"error": ..., "error_description": ...}`.
pub struct OAuthError {
    pub error: String,
    pub error_description: String,
}

/// Why a token request failed.
pub enum TokenError {
    /// The request did not get an answer; the text says why.
    Transport(String),
    /// The endpoint answered `status` with an OAuth error body.
    OAuth { status: u16, error: OAuthError },
    /// The endpoint answered `status` with a body that is not an OAuth error.
    Status(u16),
}

impl OAuthError {
    /// `"<error>: <error_description>"`.
    pub fn message(&self) -> (r: String)
        ensures
            r@ == self.error@ + ": "@ + self.error_description@,
    {
        let mut m = self.error.clone();
        m.append(": ");
        m.append(self.error_description.as_str());
        m
    }
}

impl TokenError {
    /// Whether the endpoint refused the grant (an expired or revoked refresh token).
    pub fn is_invalid_grant(&self) -> (r: bool)
        ensures
            r == (self matches TokenError::OAuth { error, .. } && error.error@ == "invalid_grant"@),
    {
        match self {
            TokenError::OAuth { error, .. } => same_text(error.error.as_str(), "invalid_grant"),
            _ => false,
        }
    }
}

/// Judges an answer with HTTP `status`: success for 2xx; otherwise the OAuth
/// error the body held, if it held one, else the bare status.
pub fn classify_token_status(status: u16, body_error: Option<OAuthError>) -> (r: Result<(), TokenError>)
    ensures
        200 <= status <= 299 ==> r is Ok,
        !(200 <= status <= 299) ==> match body_error {
            Some(e) => r == Err::<(), TokenError>(TokenError::OAuth { status, error: e }),
            None => r == Err::<(), TokenError>(TokenError::Status(status)),
        },
{
    if 200 <= status && status <= 299 {
        Ok(())
    } else {
        match body_error {
            Some(error) => Err(TokenError::OAuth { status, error }),
            None => Err(TokenError::Status(status)),
        }
    }
}

} // verus!
