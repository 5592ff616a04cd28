//! The backend API's data, request paths and headers, how a response is
//! interpreted, and when a failed request is retried.

use vstd::prelude::*;
use vstd::utf8::encode_utf8;
use crate::error::ProcessError;
use crate::text::{chars_of, push_all, string_of};

verus! {

/// A movie's details (`model.MovieInfo`).
#[derive(Debug, Clone)]
pub struct MovieInfo {
    pub id: String,
    pub number: String,
    pub title: String,
    pub provider: String,
    pub homepage: String,
    pub actors: Vec<String>,
    pub genres: Vec<String>,
    pub maker: Option<String>,
    pub label: Option<String>,
    pub series: Option<String>,
}

/// An actor's details (`model.ActorInfo`).
#[derive(Debug, Clone)]
pub struct ActorInfo {
    pub id: String,
    pub name: String,
    pub provider: String,
    pub homepage: String,
    pub aliases: Vec<String>,
    pub images: Vec<String>,
}

/// The error object of an API response.
#[derive(Debug, Clone)]
pub struct ApiErrorBody {
    pub code: u16,
    pub message: String,
}

/// An API response envelope.
#[derive(Debug)]
pub struct ApiResponse<T> {
    pub data: Option<T>,
    pub error: Option<ApiErrorBody>,
}

/// `s` without any trailing `/`.
pub open spec fn without_trailing_slashes(s: Seq<char>) -> Seq<char>
    decreases s.len(),
{
    if s.len() > 0 && s.last() == '/' {
        without_trailing_slashes(s.drop_last())
    } else {
        s
    }
}

/// Removes every trailing `/` from the server address.
pub fn normalize_base_url(base_url: &str) -> (r: String)
    ensures
        r@ == without_trailing_slashes(base_url@),
{
    let cs = chars_of(base_url);
    let mut n = cs.len();
    assert(cs@.take(n as int) =~= cs@);
    while n > 0 && cs[n - 1] == '/'
        invariant
            cs@ == base_url@,
            n <= cs@.len(),
            without_trailing_slashes(cs@.take(n as int)) == without_trailing_slashes(base_url@),
        decreases n,
    {
        assert(cs@.take(n as int).drop_last() =~= cs@.take(n - 1));
        n = n - 1;
    }
    let mut out: Vec<char> = Vec::new();
    let mut i: usize = 0;
    while i < n
        invariant
            cs@ == base_url@,
            n <= cs@.len(),
            i <= n,
            out@ == cs@.take(i as int),
        decreases n - i,
    {
        out.push(cs[i]);
        i = i + 1;
        assert(out@ =~= cs@.take(i as int));
    }
    assert(cs@.take(n as int) =~= out@);
    string_of(out.as_slice())
}

/// Whether a byte is left as it is by percent-encoding: ASCII letters and
/// digits, `-`, `.`, `_` and `~`.
pub open spec fn unreserved(b: u8) -> bool {
    (48 <= b <= 57) || (65 <= b <= 90) || (97 <= b <= 122) || b == 45 || b == 46 || b == 95
        || b == 126
}

/// The uppercase hex digit of a value below 16.
pub open spec fn upper_hex(d: u8) -> char {
    if d < 10 {
        (48 + d) as char
    } else {
        (55 + d) as char
    }
}

/// Percent-encoding of a byte sequence: unreserved bytes as themselves,
/// every other byte as `%` and two uppercase hex digits.
pub open spec fn percent_encoded(bytes: Seq<u8>) -> Seq<char>
    decreases bytes.len(),
{
    if bytes.len() == 0 {
        Seq::empty()
    } else {
        let b = bytes[0];
        (if unreserved(b) {
            seq![b as char]
        } else {
            seq!['%', upper_hex(b / 16), upper_hex(b % 16)]
        }) + percent_encoded(bytes.drop_first())
    }
}

/// `urlencoding::encode`: percent-encodes the UTF-8 bytes of the text,
/// keeping ASCII letters, digits and `-._~`, writing every other byte as
/// `%XX` in uppercase hex (as the crate's source does).
#[verifier::external_body]
fn url_encode(s: &str) -> (r: String)
    ensures
        r@ == percent_encoded(encode_utf8(s@)),
{
    urlencoding::encode(s).into_owned()
}

/// The search request path for a keyword.
pub open spec fn search_path_text(keyword: Seq<char>) -> Seq<char> {
    "/v1/movies/search?q="@ + percent_encoded(encode_utf8(keyword)) + "&fallback=true"@
}

/// The detail request path for a movie of a provider.
pub open spec fn movie_info_path_text(provider: Seq<char>, id: Seq<char>) -> Seq<char> {
    "/v1/movies/"@ + percent_encoded(encode_utf8(provider)) + "/"@ + percent_encoded(
        encode_utf8(id),
    ) + "?lazy=false"@
}

/// The actor-name lookup path.
pub open spec fn actor_path_text(name: Seq<char>) -> Seq<char> {
    "/v1/actors/gfriends/"@ + percent_encoded(encode_utf8(name))
}

/// Builds the search request path.
pub fn search_path(keyword: &str) -> (r: String)
    ensures
        r@ == search_path_text(keyword@),
{
    let mut s = String::new();
    push_all(&mut s, "/v1/movies/search?q=");
    let e = url_encode(keyword);
    push_all(&mut s, e.as_str());
    push_all(&mut s, "&fallback=true");
    assert(s@ =~= search_path_text(keyword@));
    s
}

/// Builds the detail request path.
pub fn movie_info_path(provider: &str, id: &str) -> (r: String)
    ensures
        r@ == movie_info_path_text(provider@, id@),
{
    let mut s = String::new();
    push_all(&mut s, "/v1/movies/");
    let p = url_encode(provider);
    push_all(&mut s, p.as_str());
    push_all(&mut s, "/");
    let i = url_encode(id);
    push_all(&mut s, i.as_str());
    push_all(&mut s, "?lazy=false");
    assert(s@ =~= movie_info_path_text(provider@, id@));
    s
}

/// Builds the actor-name lookup path.
pub fn actor_path(name: &str) -> (r: String)
    ensures
        r@ == actor_path_text(name@),
{
    let mut s = String::new();
    push_all(&mut s, "/v1/actors/gfriends/");
    let n = url_encode(name);
    push_all(&mut s, n.as_str());
    assert(s@ =~= actor_path_text(name@));
    s
}

/// The full URL of a request: the server address followed by the path.
pub fn request_url(base_url: &str, path: &str) -> (r: String)
    ensures
        r@ == base_url@ + path@,
{
    let mut s = string_of(chars_of(base_url).as_slice());
    push_all(&mut s, path);
    s
}

/// The `Authorization` header value for a token: `Bearer {token}`.
pub fn auth_header(token: &Option<String>) -> (r: Option<String>)
    ensures
        match token {
            Some(t) => (r matches Some(h) && h@ == "Bearer "@ + t@),
            None => r is None,
        },
{
    match token {
        Some(t) => {
            let mut s = String::new();
            push_all(&mut s, "Bearer ");
            push_all(&mut s, t.as_str());
            Some(s)
        },
        None => None,
    }
}

/// How a response is read.  A failed status gives the API error of the body
/// when the body carries one, else an API error of the status; a successful
/// status gives the decoding error as a transport error, the body's API
/// error, the data, or (without data) an API error 500 "empty data".
pub open spec fn response_outcome<T>(
    ok: bool,
    status_code: u16,
    status_text: Seq<char>,
    body: Result<ApiResponse<T>, String>,
) -> Result<T, (u16, Seq<char>)> {
    if !ok {
        match body {
            Ok(b) => match b.error {
                Some(e) => Err((e.code, e.message@)),
                None => Err((status_code, status_text)),
            },
            Err(_) => Err((status_code, status_text)),
        }
    } else {
        match body {
            Err(_) => Err((0, Seq::empty())),
            Ok(b) => match b.error {
                Some(e) => Err((e.code, e.message@)),
                None => match b.data {
                    Some(d) => Ok(d),
                    None => Err((500, "empty data"@)),
                },
            },
        }
    }
}

/// Reads a response: its status, the status's text, and the decoded body
/// (or the decoding error's message).
pub fn interpret_response<T>(
    ok: bool,
    status_code: u16,
    status_text: String,
    body: Result<ApiResponse<T>, String>,
) -> (r: Result<T, ProcessError>)
    ensures
        ok && body is Err ==> (r matches Err(ProcessError::Http(m)) && m@ == body->Err_0@),
        !(ok && body is Err) ==> match response_outcome(ok, status_code, status_text@, body) {
            Ok(d) => r == Ok::<T, ProcessError>(d),
            Err((c, m)) => (r matches Err(ProcessError::Api { code, message }) && code == c
                && message@ == m),
        },
{
    if !ok {
        match body {
            Ok(b) => match b.error {
                Some(e) => Err(ProcessError::Api { code: e.code, message: e.message }),
                None => Err(ProcessError::Api { code: status_code, message: status_text }),
            },
            Err(_) => Err(ProcessError::Api { code: status_code, message: status_text }),
        }
    } else {
        match body {
            Err(m) => Err(ProcessError::Http(m)),
            Ok(b) => match b.error {
                Some(e) => Err(ProcessError::Api { code: e.code, message: e.message }),
                None => match b.data {
                    Some(d) => Ok(d),
                    None => Err(
                        ProcessError::Api {
                            code: 500,
                            message: string_of(chars_of("empty data").as_slice()),
                        },
                    ),
                },
            },
        }
    }
}

/// The first search result, or "no results" for the keyword.
pub fn first_result<T>(results: Vec<T>, keyword: &str) -> (r: Result<T, ProcessError>)
    ensures
        results@.len() > 0 ==> r == Ok::<T, ProcessError>(results@[0]),
        results@.len() == 0 ==> (r matches Err(ProcessError::NoResults(k)) && k@ == keyword@),
{
    let mut v = results;
    if v.len() == 0 {
        Err(ProcessError::NoResults(string_of(chars_of(keyword).as_slice())))
    } else {
        Ok(v.swap_remove(0))
    }
}

/// The number of attempts a request gets.
pub const MAX_ATTEMPTS: u32 = 3;

/// The wait before retrying a failed request, in seconds: only transport
/// failures are retried, after 1 then 2 seconds, so a request is tried at
/// most three times.
pub open spec fn retry_wait(error: ProcessError, attempt: u32) -> Option<u64> {
    if error is Http && attempt + 1 < MAX_ATTEMPTS {
        Some(if attempt == 0 {
            1
        } else {
            2
        })
    } else {
        None
    }
}

/// Decides whether (and after how long) a failed attempt is retried.
pub fn retry_delay(error: &ProcessError, attempt: u32) -> (r: Option<u64>)
    ensures
        r == retry_wait(*error, attempt),
{
    match error {
        ProcessError::Http(_) => {
            if attempt >= 2 {
                None
            } else {
                let d = 1u64 << attempt;
                assert(attempt < 2 ==> (1u64 << attempt) == if attempt == 0 {
                    1u64
                } else {
                    2u64
                }) by (bit_vector);
                Some(d)
            }
        },
        _ => None,
    }
}

/// Only transport failures are ever retried, and never after the third
/// attempt.
pub proof fn law_retry_bounded(error: ProcessError, attempt: u32)
    ensures
        retry_wait(error, attempt) is Some ==> error is Http && attempt + 1 < MAX_ATTEMPTS,
        attempt + 1 >= MAX_ATTEMPTS ==> retry_wait(error, attempt) is None,
{
}

} // verus!
