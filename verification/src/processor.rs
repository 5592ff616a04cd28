//! The rules of organising one video: recognising its number, naming and
//! grouping the result, recording failures and deciding which archived
//! failures to retry.

use vstd::prelude::*;
use std::hash::{Hash, Hasher};
use crate::digits::{
    all_digits, decimal, digit_char, digits_value, hex16, hex_digits, is_lower_hex, lemma_hex_digits_chars,
    lemma_hex_digits_len,
};
use crate::error::{error_type_name, message_text, retryable, ProcessError};
use crate::number::{is_uncensored, trim, trimmed_number, UNCENSORED_PATTERN};
use crate::pattern::regex_is_match;
use crate::text::{
    chars_of, join, lowercase, occurs_at, push_all, push_char, seq_contains, str_contains, str_eq,
    string_of, to_lowercase,
};

verus! {

/// What is written next to an archived failed video, and read back to decide
/// whether to retry it.
#[derive(Debug, Clone)]
pub struct FailedRecord {
    pub error_type: String,
    pub reason: String,
    pub number: Option<String>,
    pub file_path: String,
    pub timestamp: String,
}

/// The digits part of a decimal number: the text after an optional `+`.
pub open spec fn unsigned_digits(s: Seq<char>) -> Seq<char> {
    if s.len() > 0 && s[0] == '+' {
        s.drop_first()
    } else {
        s
    }
}

/// What `str::parse::<u16>` gives: an optional `+`, then one or more ASCII
/// digits whose value fits in 16 bits.
pub open spec fn parsed_u16(s: Seq<char>) -> Option<u16> {
    let d = unsigned_digits(s);
    if d.len() == 0 || !all_digits(d) || digits_value(d) > 65535 {
        None
    } else {
        Some(digits_value(d) as u16)
    }
}

/// Whether an archived failure should be moved back and tried again:
/// transport, client set-up and missing-file failures always; API failures
/// when the reason is a 5xx code (or, when it is not a number, mentions 500,
/// 502 or 503); I/O failures for permission or disk space; moves refused for
/// permission or across devices.  Unknown types are never retried.
pub open spec fn retry_wanted(error_type: Seq<char>, reason: Seq<char>) -> bool {
    if error_type == "Http"@ || error_type == "ClientInit"@ || error_type == "FileNotFound"@ {
        true
    } else if error_type == "Api"@ {
        match parsed_u16(reason) {
            Some(code) => code >= 500,
            None => seq_contains(reason, "500"@) || seq_contains(reason, "502"@) || seq_contains(
                reason,
                "503"@,
            ),
        }
    } else if error_type == "Io"@ {
        let r = lowercase(reason);
        seq_contains(r, "permission denied"@) || seq_contains(r, "access is denied"@)
            || seq_contains(r, "no space"@)
    } else if error_type == "MoveFailed"@ {
        let r = lowercase(reason);
        seq_contains(r, "permission denied"@) || seq_contains(r, "access is denied"@)
            || seq_contains(r, "cross-device"@) || seq_contains(r, "not same device"@)
    } else {
        false
    }
}

/// Parses an unsigned 16-bit decimal number as `str::parse::<u16>` does.
pub fn parse_u16(s: &str) -> (r: Option<u16>)
    ensures
        r == parsed_u16(s@),
{
    let cs = chars_of(s);
    let start: usize = if cs.len() > 0 && cs[0] == '+' {
        1
    } else {
        0
    };
    let ghost d = unsigned_digits(s@);
    assert(d =~= cs@.subrange(start as int, cs@.len() as int));
    if start >= cs.len() {
        return None;
    }
    let mut value: u32 = 0;
    let mut i: usize = start;
    while i < cs.len()
        invariant
            cs@ == s@,
            start <= i <= cs@.len(),
            d == cs@.subrange(start as int, cs@.len() as int),
            d == unsigned_digits(s@),
            all_digits(cs@.subrange(start as int, i as int)),
            value as nat == digits_value(cs@.subrange(start as int, i as int)),
            value <= 65535,
        decreases cs@.len() - i,
    {
        let c = cs[i];
        let ghost pre = cs@.subrange(start as int, i as int);
        let ghost next = cs@.subrange(start as int, i + 1);
        assert(next.drop_last() =~= pre);
        if c < '0' || c > '9' {
            assert(d[i - start] == c);
            assert(!all_digits(d));
            return None;
        }
        let dv = (c as u32) - 48;
        let nv = value * 10 + dv;
        assert(all_digits(next));
        assert(digits_value(next) == digits_value(pre) * 10 + dv);
        if nv > 65535 {
            proof {
                if all_digits(d) {
                    lemma_digits_value_prefix_bound(d, next.len() as int);
                    assert(d.subrange(0, next.len() as int) =~= next);
                }
            }
            return None;
        }
        value = nv;
        i = i + 1;
    }
    assert(cs@.subrange(start as int, cs@.len() as int) =~= d);
    Some(value as u16)
}

/// A prefix of a run of digits never denotes more than the whole run.
pub proof fn lemma_digits_value_prefix_bound(s: Seq<char>, k: int)
    requires
        0 <= k <= s.len(),
        all_digits(s),
    ensures
        digits_value(s.subrange(0, k)) <= digits_value(s),
    decreases s.len() - k,
{
    if k < s.len() {
        lemma_digits_value_prefix_bound(s, k + 1);
        let a = s.subrange(0, k);
        let b = s.subrange(0, k + 1);
        assert(b.drop_last() =~= a);
        assert('0' <= b.last() <= '9');
        assert(k + 1 <= s.len());
    } else {
        assert(s.subrange(0, k) =~= s);
    }
}

/// An API record whose reason is not a bare status code is retried whenever
/// the reason mentions 500, 502 or 503; one whose reason is a bare code is
/// retried exactly for server errors (5xx).
pub proof fn law_api_reason_retry(reason: Seq<char>)
    ensures
        parsed_u16(reason) is None && (seq_contains(reason, "500"@) || seq_contains(reason, "502"@)
            || seq_contains(reason, "503"@)) ==> retry_wanted("Api"@, reason),
        parsed_u16(reason) matches Some(code) ==> (retry_wanted("Api"@, reason) <==> code >= 500),
{
    reveal_strlit("Api");
    reveal_strlit("Http");
    reveal_strlit("ClientInit");
    reveal_strlit("FileNotFound");
    assert("Api"@.len() != "Http"@.len());
    assert("Api"@.len() != "ClientInit"@.len());
    assert("Api"@.len() != "FileNotFound"@.len());
}

/// The message of an API error with status 500, 502 or 503, recorded for an
/// archived file, has the record retried, as the error itself is retryable.
pub proof fn law_api_5xx_message_retried(code: u16, message: String)
    requires
        code == 500 || code == 502 || code == 503,
    ensures
        retry_wanted(
            error_type_name(ProcessError::Api { code, message }),
            message_text(ProcessError::Api { code, message }),
        ),
        retryable(ProcessError::Api { code, message }),
{
    let e = ProcessError::Api { code, message };
    let t = message_text(e);
    let head = "API error ("@;
    reveal_strlit("API error (");
    reveal_strlit("): ");
    let digits = decimal(code as nat);
    assert(digits == seq![digit_char(5), digit_char(0), digit_char((code % 10) as nat)]) by {
        assert(decimal(code as nat) == decimal((code / 10) as nat).push(digit_char((code % 10) as nat)));
        assert(decimal((code / 10) as nat) == decimal((code / 100) as nat).push(digit_char(((code / 10) % 10) as nat)));
        assert(decimal((code / 100) as nat) == seq![digit_char(5)]);
        assert((code / 10) % 10 == 0);
    }
    assert(t == head + digits + "): "@ + message@);
    assert(t.len() > 0 && t[0] == 'A');
    assert(unsigned_digits(t) == t);
    assert(!('0' <= t[0] <= '9'));
    assert(!all_digits(t));
    assert(parsed_u16(t) is None);
    let needle = if code == 500 {
        "500"@
    } else if code == 502 {
        "502"@
    } else {
        "503"@
    };
    reveal_strlit("500");
    reveal_strlit("502");
    reveal_strlit("503");
    assert(t.subrange(11, 14) =~= needle);
    assert(occurs_at(t, needle, 11));
    assert(seq_contains(t, needle));
    law_api_reason_retry(t);
    reveal_strlit("Api");
}

/// Decides whether an archived failure should be retried.
pub fn should_retry_record(record: &FailedRecord) -> (r: bool)
    ensures
        r == retry_wanted(record.error_type@, record.reason@),
{
    let t = record.error_type.as_str();
    let reason = record.reason.as_str();
    if str_eq(t, "Http") || str_eq(t, "ClientInit") || str_eq(t, "FileNotFound") {
        true
    } else if str_eq(t, "Api") {
        match parse_u16(reason) {
            Some(code) => code >= 500,
            None => str_contains(reason, "500") || str_contains(reason, "502") || str_contains(
                reason,
                "503",
            ),
        }
    } else if str_eq(t, "Io") {
        let l = to_lowercase(reason);
        str_contains(l.as_str(), "permission denied") || str_contains(
            l.as_str(),
            "access is denied",
        ) || str_contains(l.as_str(), "no space")
    } else if str_eq(t, "MoveFailed") {
        let l = to_lowercase(reason);
        str_contains(l.as_str(), "permission denied") || str_contains(
            l.as_str(),
            "access is denied",
        ) || str_contains(l.as_str(), "cross-device") || str_contains(
            l.as_str(),
            "not same device",
        )
    } else {
        false
    }
}

/// The hash that `DefaultHasher::new()` gives a string.
pub uninterp spec fn default_hash(s: Seq<char>) -> u64;

/// `str::hash` into a fresh `DefaultHasher`, then `finish`.  Instances made
/// by `DefaultHasher::new` share their keys, so the contract claims only that
/// the result is the name `default_hash` of the text.
#[verifier::external_body]
fn hash_str(s: &str) -> (h: u64)
    ensures
        h == default_hash(s@),
{
    let mut hasher = std::collections::hash_map::DefaultHasher::new();
    s.hash(&mut hasher);
    hasher.finish()
}

/// The archive sub-directory for a failed video: its number when known,
/// otherwise sixteen hex digits of the hash of its filename.
pub open spec fn subdir_name(filename: Seq<char>, number: Option<Seq<char>>) -> Seq<char> {
    match number {
        Some(n) => n,
        None => hex_digits(default_hash(filename) as nat, 16),
    }
}

/// Names the archive sub-directory for a failed video.
pub fn make_subdir_name(filename: &str, number: Option<&str>) -> (r: String)
    ensures
        r@ == subdir_name(
            filename@,
            match number {
                Some(n) => Some(n@),
                None => None,
            },
        ),
{
    match number {
        Some(n) => string_of(chars_of(n).as_slice()),
        None => hex16(hash_str(filename)),
    }
}

/// The views of a list of strings.
pub open spec fn views(v: Seq<String>) -> Seq<Seq<char>> {
    v.map_values(|s: String| s@)
}

/// The group directory of a video: its actresses joined by `,`, or the
/// unknown-actress directory when there are none.
pub open spec fn group_dir(actresses: Seq<Seq<char>>, unknown_dir: Seq<char>) -> Seq<char> {
    if actresses.len() == 0 {
        unknown_dir
    } else {
        join(actresses, ","@)
    }
}

/// Names the group directory of a video from its actresses.
pub fn actress_group_dir(actresses: &[String], unknown_dir: &str) -> (r: String)
    ensures
        r@ == group_dir(views(actresses@), unknown_dir@),
{
    if actresses.len() == 0 {
        return string_of(chars_of(unknown_dir).as_slice());
    }
    let ghost parts = views(actresses@);
    let mut s = string_of(chars_of(actresses[0].as_str()).as_slice());
    assert(parts.take(1) =~= seq![parts[0]]);
    let mut i: usize = 1;
    while i < actresses.len()
        invariant
            parts == views(actresses@),
            1 <= i <= actresses@.len(),
            s@ == join(parts.take(i as int), ","@),
        decreases actresses@.len() - i,
    {
        push_all(&mut s, ",");
        push_all(&mut s, actresses[i].as_str());
        assert(parts.take(i + 1).drop_last() =~= parts.take(i as int));
        i = i + 1;
    }
    assert(parts.take(actresses@.len() as int) =~= parts);
    s
}

/// The extension that `Path::extension` finds in a file path on the
/// platform the library is built for.
pub uninterp spec fn path_extension(path: Seq<char>) -> Option<Seq<char>>;

/// `Path::new(path).extension()` as text.  The contract claims only that the
/// result is the name `path_extension` of the path.
#[verifier::external_body]
fn extension_of(path: &str) -> (r: Option<String>)
    ensures
        match r {
            None => path_extension(path@) is None,
            Some(e) => path_extension(path@) == Some(e@),
        },
{
    match std::path::Path::new(path).extension() {
        Some(e) => match e.to_str() {
            Some(t) => Some(t.to_string()),
            None => None,
        },
        None => None,
    }
}

/// The standardised filename `{number}-{UC|C}.{ext}`: `UC` for uncensored
/// studios, the original extension or `mp4` when there is none.
pub open spec fn standard_name(movie_number: Seq<char>, original: Seq<char>) -> Seq<char> {
    let suffix = if regex_is_match(UNCENSORED_PATTERN@, movie_number) {
        "UC"@
    } else {
        "C"@
    };
    let ext = match path_extension(original) {
        Some(e) => e,
        None => "mp4"@,
    };
    movie_number + "-"@ + suffix + "."@ + ext
}

/// Builds the standardised filename of a video.
pub fn standard_filename(movie_number: &str, original_filename: &str) -> (r: String)
    ensures
        r@ == standard_name(movie_number@, original_filename@),
{
    let uncensored = is_uncensored(movie_number);
    let mut s = string_of(chars_of(movie_number).as_slice());
    push_char(&mut s, '-');
    if uncensored {
        push_all(&mut s, "UC");
    } else {
        push_all(&mut s, "C");
    }
    push_char(&mut s, '.');
    match extension_of(original_filename) {
        Some(e) => push_all(&mut s, e.as_str()),
        None => push_all(&mut s, "mp4"),
    }
    assert(s@ =~= standard_name(movie_number@, original_filename@)) by {
        reveal_strlit("-");
        reveal_strlit(".");
    }
    s
}


/// The movie number recognised in a filename, or an extraction error when
/// nothing is left of it.
pub fn recognize_number(filename: &str) -> (r: Result<String, ProcessError>)
    ensures
        trimmed_number(filename@).len() > 0 ==> (r matches Ok(n) && n@ == trimmed_number(
            filename@,
        )),
        trimmed_number(filename@).len() == 0 ==> (r matches Err(ProcessError::IdExtraction(f))
            && f@ == filename@),
{
    let id = trim(filename);
    if id.as_str().unicode_len() == 0 {
        Err(ProcessError::IdExtraction(string_of(chars_of(filename).as_slice())))
    } else {
        Ok(id)
    }
}

/// Where an organised video goes, below the output directory: its group
/// directory, its movie directory and its file name.
#[derive(Debug, Clone)]
pub struct Destination {
    pub group_dir: String,
    pub movie_dir: String,
    pub file_name: String,
}

/// Plans the destination of a video: grouped by actresses (or the unknown
/// directory), then by movie number, under its standardised name.
pub fn plan_destination(
    actresses: &[String],
    unknown_dir: &str,
    movie_number: &str,
    original_filename: &str,
) -> (r: Destination)
    ensures
        r.group_dir@ == group_dir(views(actresses@), unknown_dir@),
        r.movie_dir@ == movie_number@,
        r.file_name@ == standard_name(movie_number@, original_filename@),
{
    Destination {
        group_dir: actress_group_dir(actresses, unknown_dir),
        movie_dir: string_of(chars_of(movie_number).as_slice()),
        file_name: standard_filename(movie_number, original_filename),
    }
}

/// Whether a failed rename should fall back to copy and delete: its error
/// says the two paths are on different devices.
pub open spec fn copy_fallback_wanted(message: Seq<char>) -> bool {
    let m = lowercase(message);
    seq_contains(m, "cross-device"@) || seq_contains(m, "not same device"@)
}

/// Decides from a rename error's message whether to copy and delete instead.
pub fn needs_copy_fallback(rename_error: &str) -> (r: bool)
    ensures
        r == copy_fallback_wanted(rename_error@),
{
    let m = to_lowercase(rename_error);
    str_contains(m.as_str(), "cross-device") || str_contains(m.as_str(), "not same device")
}

/// The type name and reason recorded for a failure: those of the processing
/// error when there is one, else `Unknown` and the given description.
pub fn describe_failure(error: Option<&ProcessError>, description: &str) -> (r: (String, String))
    ensures
        match error {
            Some(e) => r.0@ == error_type_name(*e) && r.1@ == message_text(*e),
            None => r.0@ == "Unknown"@ && r.1@ == description@,
        },
{
    match error {
        Some(e) => (string_of(chars_of(e.error_type()).as_slice()), e.message()),
        None => (
            string_of(chars_of("Unknown").as_slice()),
            string_of(chars_of(description).as_slice()),
        ),
    }
}

/// Whether a failed file is archived: never in a dry run, and only while it
/// is still in the download directory.
pub fn archive_wanted(dry_run: bool, still_present: bool) -> (r: bool)
    ensures
        r == (!dry_run && still_present),
{
    !dry_run && still_present
}

/// The number recorded for a failed file: its recognised number, if any.
pub open spec fn recorded_number(filename: Seq<char>) -> Option<Seq<char>> {
    if trimmed_number(filename).len() == 0 {
        None
    } else {
        Some(trimmed_number(filename))
    }
}

/// The archive sub-directory and the record of a failed file.
pub fn failure_record(
    filename: &str,
    error_type: &str,
    reason: &str,
    file_path: &str,
    timestamp: &str,
) -> (r: (String, FailedRecord))
    ensures
        r.0@ == subdir_name(filename@, recorded_number(filename@)),
        r.1.error_type@ == error_type@,
        r.1.reason@ == reason@,
        match r.1.number {
            Some(n) => recorded_number(filename@) == Some(n@),
            None => recorded_number(filename@) is None,
        },
        r.1.file_path@ == file_path@,
        r.1.timestamp@ == timestamp@,
{
    let number = trim(filename);
    let empty = number.as_str().unicode_len() == 0;
    let subdir = if empty {
        make_subdir_name(filename, None)
    } else {
        make_subdir_name(filename, Some(number.as_str()))
    };
    let record = FailedRecord {
        error_type: string_of(chars_of(error_type).as_slice()),
        reason: string_of(chars_of(reason).as_slice()),
        number: if empty {
            None
        } else {
            Some(number)
        },
        file_path: string_of(chars_of(file_path).as_slice()),
        timestamp: string_of(chars_of(timestamp).as_slice()),
    };
    (subdir, record)
}

/// A failed file without a recognisable number is archived under a name of
/// exactly sixteen lowercase hexadecimal digits.
pub proof fn law_hashed_subdir_is_hex16(filename: Seq<char>)
    requires
        recorded_number(filename) is None,
    ensures
        subdir_name(filename, recorded_number(filename)).len() == 16,
        forall|i: int|
            0 <= i < 16 ==> is_lower_hex(
                #[trigger] subdir_name(filename, recorded_number(filename))[i],
            ),
{
    lemma_hex_digits_len(default_hash(filename) as nat, 16);
    lemma_hex_digits_chars(default_hash(filename) as nat, 16);
}

/// A record of an error is retried exactly when the error is retryable,
/// for the types whose reason decides nothing further.
pub proof fn law_retry_agrees_for_fixed_types(e: ProcessError, reason: Seq<char>)
    requires
        e is Http || e is ClientInit || e is FileNotFound || e is NoResults || e is NoMovieInfo
            || e is IdExtraction,
    ensures
        retry_wanted(error_type_name(e), reason) == retryable(e),
{
    reveal_strlit("Http");
    reveal_strlit("ClientInit");
    reveal_strlit("FileNotFound");
    reveal_strlit("Api");
    reveal_strlit("Io");
    reveal_strlit("MoveFailed");
    reveal_strlit("NoResults");
    reveal_strlit("NoMovieInfo");
    reveal_strlit("IdExtraction");
    let t = error_type_name(e);
    if e is NoResults || e is NoMovieInfo || e is IdExtraction {
        assert(t.len() >= 9);
        assert(t != "Http"@ && t != "Api"@ && t != "Io"@);
        assert(t != "ClientInit"@) by {
            assert(t[0] != 'C');
        }
        assert(t != "FileNotFound"@) by {
            assert(t[0] != 'F');
        }
        assert(t != "MoveFailed"@) by {
            assert(t[0] != 'M');
        }
    }
}
} // verus!
