//! A login session: the access token, how to renew it, and when it expires.

use vstd::prelude::*;

verus! {

/// How long before expiry a session is renewed, in seconds.
pub const REFRESH_EARLY_SECS: u64 = 60;

/// A login session.
pub struct Session {
    pub access_token: String,
    pub refresh_token: Option<String>,
    pub expires_at: u64,
}

/// The current time as `chrono::Utc::now().timestamp()`, in Unix seconds.
/// Nothing is promised of the value: it is the time.
#[verifier::external_body]
fn utc_now_timestamp() -> (r: i64) {
    chrono::Utc::now().timestamp()
}

/// The session is renewed from `REFRESH_EARLY_SECS` before its expiry on.
pub open spec fn due_for_refresh(expires_at: u64, now: u64) -> bool {
    expires_at <= if now + REFRESH_EARLY_SECS <= u64::MAX { (now + REFRESH_EARLY_SECS) as u64 } else { u64::MAX }
}

/// The expiry time of a token valid for `expires_in` seconds from `now`, saturating.
pub open spec fn expiry(expires_in: u64, now: u64) -> u64 {
    if expires_in + now <= u64::MAX { (expires_in + now) as u64 } else { u64::MAX }
}

impl Session {
    /// A session from a token response received at `now`: a response
    /// without a refresh token keeps the previous one.
    pub fn from_response(access_token: String, refresh_token: Option<String>, expires_in: u64,
        previous_refresh_token: Option<String>, now: u64) -> (r: Self)
        ensures
            r.access_token == access_token,
            r.refresh_token == (if refresh_token is Some { refresh_token } else { previous_refresh_token }),
            r.expires_at == expiry(expires_in, now),
    {
        let refresh_token = match refresh_token {
            Some(t) => Some(t),
            None => previous_refresh_token,
        };
        Session { access_token, refresh_token, expires_at: expires_in.saturating_add(now) }
    }

    /// Whether the session should be renewed at `now`.
    pub fn needs_refresh_at(&self, now: u64) -> (r: bool)
        ensures
            r == due_for_refresh(self.expires_at, now),
    {
        self.expires_at <= now.saturating_add(REFRESH_EARLY_SECS)
    }

    /// Whether the session should be renewed now.
    pub fn needs_refresh(&self) -> (r: bool)
        ensures
            exists|now: u64| r == due_for_refresh(self.expires_at, now),
    {
        let now = utc_now_timestamp() as u64;
        self.needs_refresh_at(now)
    }
}

} // verus!
