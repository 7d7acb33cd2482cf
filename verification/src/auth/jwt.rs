//! Reading the payload of a JSON Web Token (without checking its signature).

use vstd::prelude::*;
use base64::Engine;
use crate::text::{chars_of, string_of};

verus! {

/// The index of the first `'.'` at or after `k`, or the length when there is none.
pub open spec fn dot_from(s: Seq<char>, k: int) -> int
    decreases s.len() - k,
{
    if k < 0 || k >= s.len() {
        s.len() as int
    } else if s[k] == '.' {
        k
    } else {
        dot_from(s, k + 1)
    }
}

/// The second `'.'`-separated part of `token`, if the token has one.
pub open spec fn second_part(token: Seq<char>) -> Option<Seq<char>> {
    let d = dot_from(token, 0);
    if d >= token.len() {
        None
    } else {
        Some(token.subrange(d + 1, dot_from(token, d + 1)))
    }
}

fn find_dot(s: &Vec<char>, start: usize) -> (r: usize)
    requires
        start <= s@.len(),
    ensures
        r == dot_from(s@, start as int),
        start <= r <= s@.len(),
{
    let mut i = start;
    while i < s.len() && s[i] != '.'
        invariant
            start <= i <= s@.len(),
            dot_from(s@, start as int) == dot_from(s@, i as int),
        decreases s.len() - i,
    {
        i = i + 1;
    }
    i
}

/// The second `'.'`-separated part of `token` (the payload of a JWT).
pub fn payload_part(token: &str) -> (r: Option<String>)
    ensures
        match r {
            Some(p) => second_part(token@) == Some(p@),
            None => second_part(token@) is None,
        },
{
    let cs = chars_of(token);
    let d = find_dot(&cs, 0);
    if d >= cs.len() {
        return None;
    }
    let e = find_dot(&cs, d + 1);
    let mut part: Vec<char> = Vec::new();
    let mut i = d + 1;
    while i < e
        invariant
            d + 1 <= i <= e <= cs@.len(),
            part@ =~= cs@.subrange(d + 1, i as int),
        decreases e - i,
    {
        part.push(cs[i]);
        i = i + 1;
    }
    Some(string_of(&part))
}

/// The bytes that unpadded URL-safe base64 text decodes to, if it is valid.
pub uninterp spec fn base64_url_decoded(text: Seq<char>) -> Option<Seq<u8>>;

/// Decodes `text` with `base64::engine::general_purpose::URL_SAFE_NO_PAD`;
/// `None` when the engine rejects it. The contract names the outcome.
#[verifier::external_body]
pub(crate) fn base64_url_decode(text: &str) -> (r: Option<Vec<u8>>)
    ensures
        match r {
            Some(b) => base64_url_decoded(text@) == Some(b@),
            None => base64_url_decoded(text@) is None,
        },
{
    base64::engine::general_purpose::URL_SAFE_NO_PAD.decode(text).ok()
}

/// The decoded payload bytes of a JWT, before they are read as JSON.
pub fn jwt_payload(token: &str) -> (r: Option<Vec<u8>>)
    ensures
        match second_part(token@) {
            None => r is None,
            Some(p) => match base64_url_decoded(p) {
                Some(b) => r matches Some(v) && v@ == b,
                None => r is None,
            },
        },
{
    match payload_part(token) {
        None => None,
        Some(p) => base64_url_decode(p.as_str()),
    }
}

} // verus!
