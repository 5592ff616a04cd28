//! Recognising a movie number in a raw filename, and telling uncensored
//! studios' numbers apart.

use vstd::prelude::*;
use crate::pattern::{capture, is_match, regex_capture, regex_is_match, regex_replace_all, replace_all};
use crate::text::{
    chars_of, ends_with, law_trim_idempotent, no_outer_white_space, slice_ends_with, string_of,
    trim_whitespace, whitespace_trimmed,
};
use vstd::utf8::encode_utf8;

verus! {

/// A trailing file extension of at most seven letters or digits.
pub const EXT_PATTERN: &'static str = r"(?i)\.[a-z\d]{1,7}$";

/// A site domain embedded in the name, such as `[98t.tv]`.
pub const DOMAIN_PATTERN: &'static str = r"(?i)([a-z\d]+\.(?:com|net|top|xyz|tv))(?:[^a-z\d]|$)";

/// A number written with dashes or underscores, such as `ABP-030`.
pub const NUM_DASH_PATTERN: &'static str = r"(?i)([a-z\d]+(?:[-_][a-z\d]{2,})+)";

/// A number written as letters and digits run together, such as `n9110`.
pub const NUM_ALPHA_PATTERN: &'static str = r"(?i)((?:[a-z]+\d|\d+[a-z])[a-z\d]+)";

/// A leading quality prefix such as `HD_` or `FHD-`.
pub const PREFIX_PATTERN: &'static str = r"(?i)^(?:f?hd|sd)[-_](.*$)";

/// Release tags such as `-C`, `.mp4`, `-1080p` or `_uncensored`.
pub const TAGS_PATTERN: &'static str = r"(?i)[-_.](dvd|iso|mkv|mp4|c?avi|\d*fps|whole|(f|hhb)?hd\d*|sd\d*|(?:360|480|720|1080|2160)[pi]|X1080X|uncensored|leak|[2468]ks?|[xh]26[45])+";

/// A studio name in front of (or after) the number, keeping the number.
pub const MAKER_PATTERN: &'static str = r"(?i)(^|[-_\s]+)(carib(b?ean)?(com)?(pr)?|1?Pond?o?|10mu(sume)?|paco(paco)?(mama)?|mura(mura)?|Tokyo[-_\s]?Hot)([-_\s]+(?P<pattern>\d{4,}[-_]\d{2,}|[a-z]{1,4}\d{2,4})|$)";

/// The `FC2-PPV-` / `FC2PPV-` prefix, written `FC2-`.
pub const FC2_PREFIX_PATTERN: &'static str = r"^(?i)\s*(FC2[-_]?PPV)[-_]";

/// Trailing part and subtitle markers such as `-C`, `-UC`, `ch`, `-cd1`.
pub const SUFFIX_PATTERN: &'static str = r"(?i)([-_](c|uc|ch|cd\d{1,2})|hhb\d*|ch|A|B|C|D)\s*$";

/// Numbers of uncensored studios.
pub const UNCENSORED_PATTERN: &'static str = r"^(?i)(\d{4,6}[-_]\d{2,3}|(cz|gedo|k|n|kb|se)\d{2,4}|(heyzo|xxx-av|heydouga|kin8)[-_].+)|([hc]0930|h4610|av9898|1000giri)[-_][a-z\d]+$";

/// `s` without the extension that the extension pattern found: the match is
/// removed when it is a suffix of `s` of at most seven UTF-8 bytes.
pub open spec fn without_extension(s: Seq<char>, found: Option<Option<Seq<char>>>) -> Seq<char> {
    match found {
        Some(Some(ext)) => if encode_utf8(ext).len() <= 7 && ends_with(s, ext) {
            s.take(s.len() - ext.len())
        } else {
            s
        },
        _ => s,
    }
}

/// The candidate number picked out of `s`: capture group 1 of the dashed
/// pattern when it matches, otherwise of the run-together pattern, otherwise
/// `s` itself.
pub open spec fn picked_number(s: Seq<char>) -> Seq<char> {
    match regex_capture(NUM_DASH_PATTERN@, s, 1) {
        Some(group) => match group {
            Some(m) => m,
            None => s,
        },
        None => match regex_capture(NUM_ALPHA_PATTERN@, s, 1) {
            Some(Some(m)) => m,
            _ => s,
        },
    }
}

/// Removes trailing markers while the suffix pattern still matches; every
/// round removes all of its matches.  Every match is at least one character,
/// so a round always shortens the text; a round that would not is not taken.
pub open spec fn without_suffixes(s: Seq<char>) -> Seq<char>
    decreases s.len(),
{
    if regex_is_match(SUFFIX_PATTERN@, s) {
        let t = regex_replace_all(SUFFIX_PATTERN@, s, ""@);
        if t.len() < s.len() {
            without_suffixes(t)
        } else {
            s
        }
    } else {
        s
    }
}

/// No part or subtitle marker is left at the end of the stripped text:
/// either the suffix pattern no longer matches it, or another round would
/// not shorten it.
pub proof fn law_no_suffix_left(s: Seq<char>)
    ensures
        !regex_is_match(SUFFIX_PATTERN@, without_suffixes(s)) || regex_replace_all(
            SUFFIX_PATTERN@,
            without_suffixes(s),
            ""@,
        ).len() >= without_suffixes(s).len(),
    decreases s.len(),
{
    if regex_is_match(SUFFIX_PATTERN@, s) {
        let t = regex_replace_all(SUFFIX_PATTERN@, s, ""@);
        if t.len() < s.len() {
            law_no_suffix_left(t);
        }
    }
}

/// The movie number that `trim` extracts from a raw filename.
pub open spec fn trimmed_number(s: Seq<char>) -> Seq<char> {
    let a = without_extension(s, regex_capture(EXT_PATTERN@, s, 0));
    let b = regex_replace_all(DOMAIN_PATTERN@, a, ""@);
    let c = picked_number(b);
    let d = regex_replace_all(PREFIX_PATTERN@, c, "${1}"@);
    let e = regex_replace_all(TAGS_PATTERN@, d, ""@);
    let f = regex_replace_all(MAKER_PATTERN@, e, "${pattern}"@);
    let g = regex_replace_all(FC2_PREFIX_PATTERN@, f, "FC2-"@);
    whitespace_trimmed(without_suffixes(g))
}

/// A recognised movie number never starts or ends with white space.
pub proof fn law_trimmed_number_has_no_outer_white_space(s: Seq<char>)
    ensures
        no_outer_white_space(trimmed_number(s)),
{
    let a = without_extension(s, regex_capture(EXT_PATTERN@, s, 0));
    let b = regex_replace_all(DOMAIN_PATTERN@, a, ""@);
    let c = picked_number(b);
    let d = regex_replace_all(PREFIX_PATTERN@, c, "${1}"@);
    let e = regex_replace_all(TAGS_PATTERN@, d, ""@);
    let f = regex_replace_all(MAKER_PATTERN@, e, "${pattern}"@);
    let g = regex_replace_all(FC2_PREFIX_PATTERN@, f, "FC2-"@);
    law_trim_idempotent(without_suffixes(g));
}

/// Removes from `s` the extension `ext` found at its end, when `ext` is at
/// most seven UTF-8 bytes long and really ends `s`.
pub fn drop_extension(s: &str, ext: &str) -> (r: String)
    ensures
        r@ == without_extension(s@, Some(Some(ext@))),
{
    let cs = chars_of(s);
    let es = chars_of(ext);
    if ext.as_bytes().len() <= 7 && slice_ends_with(cs.as_slice(), es.as_slice()) {
        let keep = cs.len() - es.len();
        let mut out: Vec<char> = Vec::new();
        let mut i: usize = 0;
        while i < keep
            invariant
                keep <= cs@.len(),
                i <= keep,
                out@ == cs@.take(i as int),
            decreases keep - i,
        {
            out.push(cs[i]);
            i = i + 1;
            assert(out@ =~= cs@.take(i as int));
        }
        string_of(out.as_slice())
    } else {
        string_of(cs.as_slice())
    }
}

/// Removes the suffix markers round by round, as `without_suffixes` states.
pub fn strip_suffixes(s: &str) -> (r: String)
    ensures
        r@ == without_suffixes(s@),
{
    let mut cur = string_of(chars_of(s).as_slice());
    loop
        invariant
            without_suffixes(cur@) == without_suffixes(s@),
        decreases cur@.len(),
    {
        if !is_match(SUFFIX_PATTERN, cur.as_str()) {
            return cur;
        }
        let next = replace_all(SUFFIX_PATTERN, cur.as_str(), "");
        let shorter = next.as_str().unicode_len() < cur.as_str().unicode_len();
        if !shorter {
            return cur;
        }
        cur = next;
    }
}

/// Extracts a movie number from a raw filename: drops the extension, embedded
/// site domains, quality prefixes, release tags, studio names, the `FC2-PPV`
/// spelling and trailing part/subtitle markers.
pub fn trim(s: &str) -> (r: String)
    ensures
        r@ == trimmed_number(s@),
{
    let a = match capture(EXT_PATTERN, s, 0) {
        Some(Some(ext)) => drop_extension(s, ext.as_str()),
        _ => string_of(chars_of(s).as_slice()),
    };
    let b = replace_all(DOMAIN_PATTERN, a.as_str(), "");
    let c = match capture(NUM_DASH_PATTERN, b.as_str(), 1) {
        Some(group) => match group {
            Some(m) => m,
            None => b,
        },
        None => match capture(NUM_ALPHA_PATTERN, b.as_str(), 1) {
            Some(Some(m)) => m,
            _ => b,
        },
    };
    let d = replace_all(PREFIX_PATTERN, c.as_str(), "${1}");
    let e = replace_all(TAGS_PATTERN, d.as_str(), "");
    let f = replace_all(MAKER_PATTERN, e.as_str(), "${pattern}");
    let g = replace_all(FC2_PREFIX_PATTERN, f.as_str(), "FC2-");
    let h = strip_suffixes(g.as_str());
    string_of(chars_of(trim_whitespace(h.as_str())).as_slice())
}

/// Whether the number belongs to an uncensored studio.
pub fn is_uncensored(s: &str) -> (r: bool)
    ensures
        r == regex_is_match(UNCENSORED_PATTERN@, s@),
{
    is_match(UNCENSORED_PATTERN, s)
}

} // verus!
