//! `topk auth`: finding, entering and removing the API key.

use vstd::prelude::*;
use crate::text::{chars_of, string_of};

verus! {

/// What `topk auth` does.
#[derive(PartialEq, Eq, Structural, Clone, Copy, Debug)]
pub enum AuthAction {
    /// Log in by entering your API key
    Login,
    /// Remove the stored API key
    Logout,
}

/// What logging out did.
pub struct LogoutResult {
    pub removed: bool,
    pub path: String,
    pub env_var_still_set: bool,
}

/// The text of a logout: what happened to the key file, and a note when
/// the key is still set in the environment.
pub open spec fn logout_text(r: LogoutResult) -> Seq<char> {
    let first = if r.removed {
        "Logged out. Removed \""@ + r.path@ + "\"."@
    } else {
        "No API key file to remove at \""@ + r.path@ + "\". You are already logged out."@
    };
    if r.env_var_still_set {
        first + "\n"@ + "Note: TOPK_API_KEY is still set in your environment; unset it to fully log out."@
    } else {
        first
    }
}

impl LogoutResult {
    /// What happened to the key file, and a note when the key is still set
    /// in the environment.
    pub fn render(&self) -> (r: String)
        ensures
            r@ == logout_text(*self),
    {
        let mut s = if self.removed {
            let mut s = "Logged out. Removed \"".to_owned();
            s.append(self.path.as_str());
            s.append("\".");
            s
        } else {
            let mut s = "No API key file to remove at \"".to_owned();
            s.append(self.path.as_str());
            s.append("\". You are already logged out.");
            s
        };
        if self.env_var_still_set {
            s.append("\n");
            s.append("Note: TOPK_API_KEY is still set in your environment; unset it to fully log out.");
        }
        s
    }
}

/// The next step in finding the API key.
pub enum KeyStep {
    /// Use this key.
    Use(String),
    /// Stop with this error.
    Fail(String),
    /// Say that no key was found and show the menu; skipping there is an error.
    MenuRequired,
    /// Show the key's status, then the menu; skipping there leaves no key.
    MenuExplicit,
}

/// The first step of finding the API key. Without `explicit`: the key given
/// (flag or environment), else the stored one, else the menu on a terminal
/// and an error elsewhere. With `explicit` (`topk auth`): always the menu.
pub fn resolve_step(provided: Option<String>, stored: Option<String>, stderr_is_terminal: bool, explicit: bool) -> (r: KeyStep)
    ensures
        explicit ==> r is MenuExplicit,
        !explicit && provided is Some ==> (r matches KeyStep::Use(k) && k == provided->0),
        !explicit && provided is None && stored is Some ==> (r matches KeyStep::Use(k) && k == stored->0),
        !explicit && provided is None && stored is None && !stderr_is_terminal ==> (r matches KeyStep::Fail(m)
            && m@ == "API key not set. Set TOPK_API_KEY environment variable or run: topk auth"@),
        !explicit && provided is None && stored is None && stderr_is_terminal ==> r is MenuRequired,
{
    if explicit {
        return KeyStep::MenuExplicit;
    }
    match provided {
        Some(key) => KeyStep::Use(key),
        None => match stored {
            Some(key) => KeyStep::Use(key),
            None => if !stderr_is_terminal {
                KeyStep::Fail("API key not set. Set TOPK_API_KEY environment variable or run: topk auth".to_owned())
            } else {
                KeyStep::MenuRequired
            },
        },
    }
}

/// The key the menu gave when one is required: skipping is an error.
pub fn required_key(chosen: Option<String>) -> (r: Result<String, String>)
    ensures
        chosen is Some ==> (r matches Ok(k) && k == chosen->0),
        chosen is None ==> (r matches Err(m) && m@ == "API key not set. Run `topk auth` to configure one"@),
{
    match chosen {
        Some(key) => Ok(key),
        None => Err("API key not set. Run `topk auth` to configure one".to_owned()),
    }
}

/// The three ways the menu offers to get a key.
#[derive(PartialEq, Eq, Structural, Clone, Copy, Debug)]
pub enum MenuChoice {
    /// Open the console to create a key, then enter it.
    CreateNew,
    /// Enter a key you already have.
    UseExisting,
    /// Go on without a key.
    Skip,
}

/// The choice behind the menu's option `index` (0: create, 1: existing, else skip).
pub fn menu_choice(index: usize) -> (r: MenuChoice)
    ensures
        r == (if index == 0 { MenuChoice::CreateNew } else if index == 1 { MenuChoice::UseExisting } else { MenuChoice::Skip }),
{
    if index == 0 {
        MenuChoice::CreateNew
    } else if index == 1 {
        MenuChoice::UseExisting
    } else {
        MenuChoice::Skip
    }
}

/// The console page where API keys are made.
pub open spec fn api_key_url_of(host: Seq<char>, https: bool) -> Seq<char> {
    (if https { "https"@ } else { "http"@ }) + "://console."@ + host + "/api-key"@
}

/// The console page where API keys are made, on `host`.
pub fn api_key_url(host: &str, https: bool) -> (r: String)
    ensures
        r@ == api_key_url_of(host@, https),
{
    let mut s = if https { "https".to_owned() } else { "http".to_owned() };
    s.append("://console.");
    s.append(host);
    s.append("/api-key");
    s
}

/// Whether `c` is white space in Unicode's sense (std's `char::is_whitespace`).
pub open spec fn is_space(c: char) -> bool {
    let n = c as u32;
    ||| 9 <= n <= 13
    ||| n == 32
    ||| n == 0x85
    ||| n == 0xA0
    ||| n == 0x1680
    ||| 0x2000 <= n <= 0x200A
    ||| n == 0x2028
    ||| n == 0x2029
    ||| n == 0x202F
    ||| n == 0x205F
    ||| n == 0x3000
}

/// `s` without its leading white space.
pub open spec fn trim_left(s: Seq<char>) -> Seq<char>
    decreases s.len(),
{
    if s.len() > 0 && is_space(s[0]) {
        trim_left(s.drop_first())
    } else {
        s
    }
}

/// `s` without its trailing white space.
pub open spec fn trim_right(s: Seq<char>) -> Seq<char>
    decreases s.len(),
{
    if s.len() > 0 && is_space(s.last()) {
        trim_right(s.drop_last())
    } else {
        s
    }
}

/// `s` without leading and trailing white space (std's `str::trim`).
pub open spec fn trimmed(s: Seq<char>) -> Seq<char> {
    trim_right(trim_left(s))
}

fn space_char(c: char) -> (r: bool)
    ensures
        r == is_space(c),
{
    let n = c as u32;
    (9 <= n && n <= 13) || n == 32 || n == 0x85 || n == 0xA0 || n == 0x1680
        || (0x2000 <= n && n <= 0x200A) || n == 0x2028 || n == 0x2029 || n == 0x202F
        || n == 0x205F || n == 0x3000
}

/// `s` without leading and trailing white space.
pub fn trim(s: &str) -> (r: String)
    ensures
        r@ == trimmed(s@),
{
    let cs = chars_of(s);
    let n = cs.len();
    let mut i: usize = 0;
    assert(cs@.skip(0) =~= cs@);
    while i < n && space_char(cs[i])
        invariant
            n == cs@.len(),
            cs@ == s@,
            i <= n,
            trim_left(s@) == trim_left(cs@.skip(i as int)),
        decreases n - i,
    {
        assert(cs@.skip(i as int).drop_first() =~= cs@.skip(i + 1));
        i = i + 1;
    }
    let ghost left = cs@.skip(i as int);
    assert(trim_left(left) == left);
    assert(cs@.subrange(i as int, n as int) =~= left);
    let mut j: usize = n;
    while j > i && space_char(cs[j - 1])
        invariant
            n == cs@.len(),
            i <= j <= n,
            trim_right(left) == trim_right(cs@.subrange(i as int, j as int)),
        decreases j - i,
    {
        assert(cs@.subrange(i as int, j as int).drop_last() =~= cs@.subrange(i as int, j - 1));
        j = j - 1;
    }
    let ghost kept = cs@.subrange(i as int, j as int);
    assert(trim_right(kept) == kept);
    let mut out: Vec<char> = Vec::new();
    let mut k: usize = i;
    while k < j
        invariant
            n == cs@.len(),
            i <= k <= j <= n,
            out@ =~= cs@.subrange(i as int, k as int),
        decreases j - k,
    {
        out.push(cs[k]);
        k = k + 1;
    }
    string_of(&out)
}

/// The key as entered, without surrounding white space; an error when
/// nothing is left.
pub fn entered_key(raw: &str) -> (r: Result<String, String>)
    ensures
        trimmed(raw@).len() > 0 ==> (r matches Ok(k) && k@ == trimmed(raw@)),
        trimmed(raw@).len() == 0 ==> (r matches Err(m) && m@ == "no API key provided"@),
{
    let key = trim(raw);
    if key.unicode_len() == 0 {
        Err("no API key provided".to_owned())
    } else {
        Ok(key)
    }
}

} // verus!
