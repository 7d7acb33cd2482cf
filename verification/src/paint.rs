//! Terminal colours and styles, through the `colored` crate.
//!
//! Whether `colored` adds escape codes depends on the environment
//! (`CLICOLOR`, `NO_COLOR`, `CLICOLOR_FORCE` and whether stdout is a
//! terminal), so each call may print the text plain or wrapped in the
//! style's escape sequences; the contracts say exactly that.

use vstd::prelude::*;
use colored::Colorize;

verus! {

/// `s` wrapped in the ANSI sequence that sets `code` and the one that resets it.
pub open spec fn styled(code: Seq<char>, s: Seq<char>) -> Seq<char> {
    seq!['\x1b', '['] + code + seq!['m'] + s + seq!['\x1b', '[', '0', 'm']
}

/// The escape sequence that sets style `code`.
pub open spec fn style_of(code: Seq<char>) -> Seq<char> {
    seq!['\x1b', '['] + code + seq!['m']
}

/// The reset sequence `ESC [ 0 m`.
pub open spec fn reset() -> Seq<char> {
    seq!['\x1b', '[', '0', 'm']
}

/// `s` with the style `code` set again after every reset sequence in it,
/// taking the resets from left to right.
pub open spec fn escape_resets(code: Seq<char>, s: Seq<char>) -> Seq<char>
    decreases s.len(),
{
    if s.len() >= 4 && s.take(4) == reset() {
        reset() + style_of(code) + escape_resets(code, s.skip(4))
    } else if s.len() > 0 {
        seq![s[0]] + escape_resets(code, s.skip(1))
    } else {
        s
    }
}

/// `r` is `s` as `colored` prints it with style `code`: plain when colours
/// are off, else the style, `s` with the style set again after each reset
/// in it, and a reset.
pub open spec fn shows(code: Seq<char>, s: Seq<char>, r: Seq<char>) -> bool {
    r == s || r == styled(code, escape_resets(code, s))
}

/// `s` holds no escape character.
pub open spec fn no_escape(s: Seq<char>) -> bool {
    !s.contains('\x1b')
}

/// The codes of the styles the tools use.
pub open spec fn blue_code() -> Seq<char> { seq!['3', '4'] }
pub open spec fn green_code() -> Seq<char> { seq!['3', '2'] }
pub open spec fn yellow_code() -> Seq<char> { seq!['3', '3'] }
pub open spec fn red_code() -> Seq<char> { seq!['3', '1'] }
pub open spec fn bold_code() -> Seq<char> { seq!['1'] }
pub open spec fn dimmed_code() -> Seq<char> { seq!['2'] }

/// `colored::Colorize::blue`, printed: `s` plain or in blue (code 34).
#[verifier::external_body]
pub(crate) fn blue(s: &str) -> (r: String)
    ensures
        shows(blue_code(), s@, r@),
{
    s.blue().to_string()
}

/// `colored::Colorize::green`, printed: `s` plain or in green (code 32).
#[verifier::external_body]
pub(crate) fn green(s: &str) -> (r: String)
    ensures
        shows(green_code(), s@, r@),
{
    s.green().to_string()
}

/// `colored::Colorize::yellow`, printed: `s` plain or in yellow (code 33).
#[verifier::external_body]
pub(crate) fn yellow(s: &str) -> (r: String)
    ensures
        shows(yellow_code(), s@, r@),
{
    s.yellow().to_string()
}

/// `colored::Colorize::red`, printed: `s` plain or in red (code 31).
#[verifier::external_body]
pub(crate) fn red(s: &str) -> (r: String)
    ensures
        shows(red_code(), s@, r@),
{
    s.red().to_string()
}

/// `colored::Colorize::bold`, printed: `s` plain or bold (code 1).
#[verifier::external_body]
pub(crate) fn bold(s: &str) -> (r: String)
    ensures
        shows(bold_code(), s@, r@),
{
    s.bold().to_string()
}

/// `colored::Colorize::dimmed`, printed: `s` plain or dimmed (code 2).
#[verifier::external_body]
pub(crate) fn dimmed(s: &str) -> (r: String)
    ensures
        shows(dimmed_code(), s@, r@),
{
    s.dimmed().to_string()
}


/// Text without an escape character splits into parts without one.
pub proof fn lemma_no_escape_parts()
    ensures
        forall|a: Seq<char>, b: Seq<char>| #[trigger] no_escape(a + b) ==> no_escape(a) && no_escape(b),
{
    assert forall|a: Seq<char>, b: Seq<char>| #[trigger] no_escape(a + b) implies no_escape(a) && no_escape(b) by {
        assert forall|i: int| 0 <= i < a.len() implies a[i] != '\x1b' by {
            assert((a + b)[i] == a[i]);
        }
        assert forall|i: int| 0 <= i < b.len() implies b[i] != '\x1b' by {
            assert((a + b)[a.len() + i] == b[i]);
        }
    }
}

/// Styled text starts with an escape character.
pub proof fn lemma_styled_escapes(code: Seq<char>, s: Seq<char>)
    ensures
        !no_escape(styled(code, s)),
{
    assert(styled(code, s)[0] == '\x1b');
}

/// Text printed in a style without any escape character was printed plain.
pub proof fn lemma_plain_when_no_escape(code: Seq<char>, s: Seq<char>, r: Seq<char>)
    requires
        shows(code, s, r),
        no_escape(r),
    ensures
        r == s,
{
    lemma_styled_escapes(code, escape_resets(code, s));
}

} // verus!
