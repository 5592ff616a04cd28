//! Regular-expression matching, done by the `regex` crate.
//!
//! Each operation compiles its pattern and applies it to the haystack.  What
//! the engine answers is named here and not restated: the names are functions
//! of the pattern text and the haystack alone.  A pattern that does not
//! compile behaves as one that never matches.

use vstd::prelude::*;

verus! {

/// Whether `pattern` matches somewhere in `haystack` (`Regex::is_match`).
pub uninterp spec fn regex_is_match(pattern: Seq<char>, haystack: Seq<char>) -> bool;

/// `haystack` with every non-overlapping match of `pattern` replaced by
/// `replacement`, where `$name` / `${name}` expand to capture groups
/// (`Regex::replace_all`).
pub uninterp spec fn regex_replace_all(
    pattern: Seq<char>,
    haystack: Seq<char>,
    replacement: Seq<char>,
) -> Seq<char>;

/// The leftmost-first match of `pattern` in `haystack` (`Regex::captures`):
/// `None` when there is none; otherwise the text of capture group `group`,
/// `None` inside when that group took no part in the match.
pub uninterp spec fn regex_capture(pattern: Seq<char>, haystack: Seq<char>, group: usize) -> Option<
    Option<Seq<char>>,
>;

/// `Regex::new(pattern)` then `is_match(haystack)`; `false` when the pattern
/// does not compile.  The contract claims only that the answer is the name
/// `regex_is_match` of the two texts.
#[verifier::external_body]
pub(crate) fn is_match(pattern: &str, haystack: &str) -> (r: bool)
    ensures
        r == regex_is_match(pattern@, haystack@),
{
    match regex::Regex::new(pattern) {
        Ok(re) => re.is_match(haystack),
        Err(_) => false,
    }
}

/// `Regex::new(pattern)` then `replace_all(haystack, replacement)`; the
/// haystack unchanged when the pattern does not compile.  The contract claims
/// only that the result is the name `regex_replace_all` of the three texts.
#[verifier::external_body]
pub(crate) fn replace_all(pattern: &str, haystack: &str, replacement: &str) -> (r: String)
    ensures
        r@ == regex_replace_all(pattern@, haystack@, replacement@),
{
    match regex::Regex::new(pattern) {
        Ok(re) => re.replace_all(haystack, replacement).into_owned(),
        Err(_) => haystack.to_string(),
    }
}

/// `Regex::new(pattern)` then `captures(haystack)` and `get(group)`; `None`
/// when the pattern does not compile.  The contract claims only that the
/// result is the name `regex_capture` of its arguments.
#[verifier::external_body]
pub(crate) fn capture(pattern: &str, haystack: &str, group: usize) -> (r: Option<Option<String>>)
    ensures
        match r {
            None => regex_capture(pattern@, haystack@, group) is None,
            Some(None) => regex_capture(pattern@, haystack@, group) == Some(None::<Seq<char>>),
            Some(Some(m)) => regex_capture(pattern@, haystack@, group) == Some(Some(m@)),
        },
{
    let re = match regex::Regex::new(pattern) {
        Ok(re) => re,
        Err(_) => return None,
    };
    match re.captures(haystack) {
        None => None,
        Some(caps) => match caps.get(group) {
            None => Some(None),
            Some(m) => Some(Some(m.as_str().to_string())),
        },
    }
}

} // verus!
