//! What an access token says about the person it was issued to.

use vstd::prelude::*;
use crate::text::{owned, same_text};

verus! {

/// A value of one of the token's extra claims, as far as the claims read it.
pub enum ClaimValue {
    /// A JSON string.
    Text(String),
    /// A JSON array of strings.
    TextList(Vec<String>),
    /// Any other JSON value.
    Other,
}

/// The claims of an access token.
pub struct AccessTokenClaims {
    pub sub: String,
    /// Unix seconds.
    pub exp: u64,
    pub name: Option<String>,
    pub email: Option<String>,
    /// Auth0 organization
    pub org_id: Option<String>,
    pub org_display_name: Option<String>,
    pub role: Option<String>,
    pub permissions: Vec<String>,
}

/// The first extra claim stored under `key`.
pub open spec fn claim_named(extra: Seq<(String, ClaimValue)>, key: Seq<char>) -> Option<ClaimValue>
    decreases extra.len(),
{
    if extra.len() == 0 {
        None
    } else if extra[0].0@ == key {
        Some(extra[0].1)
    } else {
        claim_named(extra.drop_first(), key)
    }
}

/// The text of the claim under `key`, when it is a string.
pub open spec fn text_claim(extra: Seq<(String, ClaimValue)>, key: Seq<char>) -> Option<Seq<char>> {
    match claim_named(extra, key) {
        Some(ClaimValue::Text(s)) => Some(s@),
        _ => None,
    }
}

/// The strings of the claim under `key`, when it is a list of strings; empty otherwise.
pub open spec fn list_claim(extra: Seq<(String, ClaimValue)>, key: Seq<char>) -> Seq<Seq<char>> {
    match claim_named(extra, key) {
        Some(ClaimValue::TextList(l)) => l@.map_values(|s: String| s@),
        _ => Seq::empty(),
    }
}

/// The namespaced key `"<audience>/<name>"` of a custom claim.
pub open spec fn custom_key(audience: Seq<char>, name: Seq<char>) -> Seq<char> {
    audience + "/"@ + name
}

/// The view of an optional string.
pub open spec fn opt_view(o: Option<String>) -> Option<Seq<char>> {
    match o {
        Some(s) => Some(s@),
        None => None,
    }
}

fn find_claim<'a>(extra: &'a Vec<(String, ClaimValue)>, key: &str) -> (r: Option<&'a ClaimValue>)
    ensures
        match r {
            Some(v) => claim_named(extra@, key@) == Some(*v),
            None => claim_named(extra@, key@) is None,
        },
{
    let mut i: usize = 0;
    assert(extra@.skip(0) =~= extra@);
    while i < extra.len()
        invariant
            i <= extra@.len(),
            claim_named(extra@, key@) == claim_named(extra@.skip(i as int), key@),
        decreases extra.len() - i,
    {
        assert(extra@.skip(i as int).drop_first() =~= extra@.skip(i + 1));
        if same_text(extra[i].0.as_str(), key) {
            return Some(&extra[i].1);
        }
        i = i + 1;
    }
    None
}

fn custom_key_of(audience: &str, name: &str) -> (r: String)
    ensures
        r@ == custom_key(audience@, name@),
{
    let mut k = owned(audience);
    k.append("/");
    k.append(name);
    k
}

fn text_claim_of(extra: &Vec<(String, ClaimValue)>, audience: &str, name: &str) -> (r: Option<String>)
    ensures
        opt_view(r) == text_claim(extra@, custom_key(audience@, name@)),
{
    let key = custom_key_of(audience, name);
    match find_claim(extra, key.as_str()) {
        Some(ClaimValue::Text(s)) => Some(s.clone()),
        _ => None,
    }
}

impl AccessTokenClaims {
    /// The claims from a decoded token payload: its `sub`, `exp` and
    /// `org_id`, and its other claims, read under the `audience` namespace.
    pub fn from_payload(sub: String, exp: u64, org_id: Option<String>, extra: Vec<(String, ClaimValue)>, audience: &str) -> (r: Self)
        ensures
            r.sub == sub,
            r.exp == exp,
            r.org_id == org_id,
            opt_view(r.name) == text_claim(extra@, custom_key(audience@, "name"@)),
            opt_view(r.email) == text_claim(extra@, custom_key(audience@, "email"@)),
            opt_view(r.role) == text_claim(extra@, custom_key(audience@, "role"@)),
            opt_view(r.org_display_name) == text_claim(extra@, custom_key(audience@, "org_display_name"@)),
            r.permissions@.map_values(|s: String| s@) == list_claim(extra@, custom_key(audience@, "permissions"@)),
    {
        let name = text_claim_of(&extra, audience, "name");
        let email = text_claim_of(&extra, audience, "email");
        let role = text_claim_of(&extra, audience, "role");
        let org_display_name = text_claim_of(&extra, audience, "org_display_name");
        let key = custom_key_of(audience, "permissions");
        let permissions = match find_claim(&extra, key.as_str()) {
            Some(ClaimValue::TextList(l)) => l.clone(),
            _ => Vec::new(),
        };
        assert(Seq::<String>::empty().map_values(|s: String| s@) =~= Seq::<Seq<char>>::empty());
        AccessTokenClaims { sub, exp, name, email, org_id, org_display_name, role, permissions }
    }

    /// How the person is called: their email, else their name, else the subject.
    pub open spec fn username_spec(&self) -> Seq<char> {
        match (self.email, self.name) {
            (Some(email), _) => email@,
            (None, Some(name)) => name@,
            (None, None) => self.sub@,
        }
    }

    /// The organization's display name, when the token is tied to an organization.
    pub open spec fn team_spec(&self) -> Option<Seq<char>> {
        match self.org_id {
            Some(_) => opt_view(self.org_display_name),
            None => None,
        }
    }

    /// `"<username> in <team>"`, or the username when there is no team.
    pub open spec fn account_spec(&self) -> Seq<char> {
        match self.team_spec() {
            Some(org) => self.username_spec() + " in "@ + org,
            None => self.username_spec(),
        }
    }

    /// How the person is called: their email, else their name, else the subject.
    pub fn username(&self) -> (r: String)
        ensures
            r@ == self.username_spec(),
    {
        match (&self.email, &self.name) {
            (Some(email), _) => email.clone(),
            (None, Some(name)) => name.clone(),
            (None, None) => self.sub.clone(),
        }
    }

    /// The organization's display name, when the token is tied to an organization.
    pub fn team(&self) -> (r: Option<&str>)
        ensures
            match r {
                Some(t) => self.team_spec() == Some(t@),
                None => self.team_spec() is None,
            },
    {
        match &self.org_id {
            Some(_) => match &self.org_display_name {
                Some(n) => Some(n.as_str()),
                None => None,
            },
            None => None,
        }
    }

    /// `"<username> in <team>"`, or the username when there is no team.
    pub fn account(&self) -> (r: String)
        ensures
            r@ == self.account_spec(),
    {
        match self.team() {
            Some(org) => {
                let mut s = self.username();
                s.append(" in ");
                s.append(org);
                s
            },
            None => self.username(),
        }
    }
}

} // verus!
