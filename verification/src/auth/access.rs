//! Getting an access token from the stored session: using it while it is
//! fresh, renewing it when it is about to expire.

use vstd::prelude::*;
use super::session::{Session, REFRESH_EARLY_SECS, due_for_refresh, expiry};

verus! {

/// The message when the session can no longer be renewed.
pub open spec fn session_expired() -> Seq<char> {
    "session expired. Run `topk login`."@
}

/// The next step towards an access token.
pub enum TokenStep {
    /// Use this access token.
    Use(String),
    /// Stop with this error.
    Fail(String),
    /// Renew the session with this refresh token.
    Refresh(String),
}

/// The first step towards an access token at `now`: without a session, an
/// error; with a fresh one, its token; else a renewal, when there is a
/// refresh token, and an error when there is none.
pub fn token_step(session: Option<Session>, now: u64) -> (r: TokenStep)
    ensures
        match session {
            None => r matches TokenStep::Fail(m) && m@ == "not logged in. Run `topk login`."@,
            Some(s) => if !due_for_refresh(s.expires_at, now) {
                r == TokenStep::Use(s.access_token)
            } else {
                match s.refresh_token {
                    Some(t) => r == TokenStep::Refresh(t),
                    None => r matches TokenStep::Fail(m) && m@ == session_expired(),
                }
            },
        },
{
    match session {
        None => TokenStep::Fail("not logged in. Run `topk login`.".to_owned()),
        Some(s) => {
            if !s.needs_refresh_at(now) {
                TokenStep::Use(s.access_token)
            } else {
                match s.refresh_token {
                    Some(t) => TokenStep::Refresh(t),
                    None => TokenStep::Fail("session expired. Run `topk login`.".to_owned()),
                }
            }
        },
    }
}

/// What a renewal gave: the new session (to store, its token to use), or,
/// when the grant was refused, the error that ends the session.
pub fn after_refresh(renewed: Option<Session>) -> (r: Result<Session, String>)
    ensures
        renewed matches Some(s) ==> r == Ok::<Session, String>(s),
        renewed is None ==> (r matches Err(m) && m@ == session_expired()),
{
    match renewed {
        Some(s) => Ok(s),
        None => Err("session expired. Run `topk login`.".to_owned()),
    }
}

/// A session from a token response received at `now`; an answer without
/// an expiry is an error.
pub fn session_from_response(access_token: String, refresh_token: Option<String>, expires_in: Option<u64>, now: u64) -> (r: Result<Session, String>)
    ensures
        expires_in is None ==> (r matches Err(m) && m@ == "token response is missing expires_in"@),
        expires_in matches Some(secs) ==> (r matches Ok(s) && s.access_token == access_token
            && s.refresh_token == refresh_token && s.expires_at == expiry(secs, now)),
{
    match expires_in {
        Some(secs) => Ok(Session::from_response(access_token, refresh_token, secs, None, now)),
        None => Err("token response is missing expires_in".to_owned()),
    }
}


/// A session made from a token that lasts longer than the renewal margin is
/// not due for renewal when it is made.
pub proof fn law_new_session_is_fresh(expires_in: u64, now: u64)
    requires
        expires_in > REFRESH_EARLY_SECS,
        now + REFRESH_EARLY_SECS < u64::MAX,
    ensures
        !due_for_refresh(expiry(expires_in, now), now),
{
}

/// Once a session is due for renewal it stays due as time goes on.
pub proof fn law_due_stays_due(expires_at: u64, now: u64, later: u64)
    requires
        now <= later,
        due_for_refresh(expires_at, now),
    ensures
        due_for_refresh(expires_at, later),
{
}

} // verus!
