//! Decisions of the shared HTTP transport: the response-body size cap, body decoding and the
//! empty-body check, and the slash handling of endpoint URLs. The I/O around them (reading the
//! body stream, sending requests) happens at the edge.
use vstd::prelude::*;

use crate::error::{ProviderError, TransportError};
use crate::text::{is_white_space, lemma_white_space_trims_away, trim, trimmed};
use crate::types::message::opt_str_view;
use vstd::utf8::{decode_utf8, encode_utf8, valid_utf8};

verus! {

/// Hard cap on a buffered (non-streaming) response body: 8 MiB. Keeps a misbehaving server or
/// hostile proxy from exhausting memory.
pub const MAX_BODY_BYTES: usize = 8388608;

/// Appends `chunk` to `buf` unless that would grow it past `limit` bytes; an overflowing chunk
/// is rejected with `BodyTooLarge` and not appended. Reaching the limit exactly is allowed.
///
/// The one input left out is a chunk that would take the buffer past the address space under
/// the largest possible limit: there appending it overflows the vector's capacity and panics.
pub fn append_capped(buf: &mut Vec<u8>, chunk: &[u8], limit: usize) -> (r: Result<(), TransportError>)
    requires
        old(buf)@.len() + chunk@.len() <= usize::MAX || limit < usize::MAX,
    ensures
        r is Ok <==> old(buf)@.len() + chunk@.len() <= limit,
        r is Ok ==> final(buf)@ == old(buf)@ + chunk@,
        old(buf)@.len() <= limit ==> final(buf)@.len() <= limit,
        r matches Err(e) ==> e == (TransportError::BodyTooLarge { limit }) && final(buf)@ == old(buf)@,
{
    if buf.len().saturating_add(chunk.len()) > limit {
        return Err(TransportError::BodyTooLarge { limit });
    }
    let ghost before = buf@;
    buf.extend_from_slice(chunk);
    proof {
        assert forall|i: int| 0 <= i < buf@.len() implies #[trigger] buf@[i] == (before + chunk@)[i] by {
            if i >= before.len() {
                assert(cloned::<u8>(chunk@[i - before.len()], buf@[i]));
            }
        }
        assert(buf@ =~= before + chunk@);
    }
    Ok(())
}

/// The text that `bytes` encode as UTF-8; `None` when they are not valid UTF-8.
pub open spec fn utf8_text(bytes: Seq<u8>) -> Option<Seq<char>> {
    if valid_utf8(bytes) {
        Some(decode_utf8(bytes))
    } else {
        None
    }
}

/// Calls `String::from_utf8`.
///
/// Trusted: an error exactly when the bytes are not valid UTF-8, and otherwise the text they
/// encode, as std documents `String::from_utf8`.
#[verifier::external_body]
fn from_utf8(bytes: Vec<u8>) -> (r: Result<String, std::string::FromUtf8Error>)
    ensures
        r matches Ok(s) ==> utf8_text(bytes@) == Some(s@),
        r is Err ==> utf8_text(bytes@) is None,
{
    String::from_utf8(bytes)
}

/// Whether an HTTP status is a success (the 2xx class, as `StatusCode::is_success` decides).
/// A response with any other status is turned into an `HttpStatus` error carrying its body
/// instead of being handed to a body consumer.
pub fn is_success_status(status: u16) -> (r: bool)
    ensures
        r <==> 200 <= status <= 299,
{
    200 <= status && status <= 299
}

/// Decodes a buffered response body as UTF-8 text.
pub fn decode_body(buf: Vec<u8>) -> (r: Result<String, TransportError>)
    ensures
        r matches Ok(s) ==> utf8_text(buf@) == Some(s@),
        r is Err ==> utf8_text(buf@) is None,
        r matches Err(e) ==> e is Utf8,
{
    match from_utf8(buf) {
        Ok(s) => Ok(s),
        Err(e) => Err(TransportError::Utf8(e)),
    }
}

/// Checks that a response body has something to parse: an empty or whitespace-only body is an
/// invalid response (not a deserialization failure); any other body is handed back unchanged.
pub fn check_body(body: String) -> (r: Result<String, ProviderError>)
    ensures
        r is Err <==> trimmed(body@).len() == 0,
        r matches Ok(b) ==> b@ == body@,
        r matches Err(e) ==> e matches ProviderError::Transport(TransportError::InvalidResponse(_)),
{
    if trim(body.as_str()).unicode_len() == 0 {
        return Err(ProviderError::Transport(TransportError::InvalidResponse(String::from_str("empty response body"))));
    }
    Ok(body)
}

/// The outcome of deserializing a checked response body: the parsed value, or a `Deserialize`
/// error that carries the parser's error and the whole body verbatim, for diagnostics.
pub fn deserialized_body<T>(body: String, parsed: Result<T, serde_json::Error>) -> (r: Result<T, ProviderError>)
    ensures
        parsed matches Ok(v) ==> r == Ok::<T, ProviderError>(v),
        parsed matches Err(e) ==> r matches Err(ProviderError::Deserialize { source, body: b }) && source == e
            && b@ == body@,
{
    match parsed {
        Ok(value) => Ok(value),
        Err(source) => Err(ProviderError::Deserialize { source, body }),
    }
}

/// An empty or whitespace-only body is what `check_body` refuses: it trims to nothing.
pub proof fn law_blank_body_is_refused(body: Seq<char>)
    requires
        forall|i: int| 0 <= i < body.len() ==> is_white_space(#[trigger] body[i]),
    ensures
        trimmed(body).len() == 0,
{
    lemma_white_space_trims_away(body);
}

/// `path` with a `/` appended unless it already ends with one.
pub open spec fn slash_terminated(path: Seq<char>) -> Seq<char> {
    if path.len() > 0 && path.last() == '/' {
        path
    } else {
        path.push('/')
    }
}

/// Ensures a base URL's path ends with `/`, so that resolving a relative endpoint path against
/// it keeps every existing path segment (URL resolution treats the last segment of a path
/// without a trailing slash as a file and replaces it).
pub fn with_trailing_slash(path: &str) -> (r: String)
    ensures
        r@ == slash_terminated(path@),
{
    let n = path.unicode_len();
    if n > 0 && path.get_char(n - 1) == '/' {
        path.to_owned()
    } else {
        let mut s = path.to_owned();
        s.append("/");
        proof {
            reveal_strlit("/");
        }
        assert(s@ =~= path@.push('/'));
        s
    }
}

/// The number of leading `/` characters of `path`.
pub open spec fn leading_slashes(path: Seq<char>) -> nat
    decreases path.len(),
{
    if path.len() > 0 && path[0] == '/' {
        1 + leading_slashes(path.drop_first())
    } else {
        0
    }
}

/// `path` without its leading `/` characters, so it resolves relative to a base URL.
pub fn without_leading_slashes(path: &str) -> (r: &str)
    ensures
        r@ == path@.skip(leading_slashes(path@) as int),
{
    let n = path.unicode_len();
    let mut i: usize = 0;
    while i < n && path.get_char(i) == '/'
        invariant
            i <= n,
            n == path@.len(),
            forall|j: int| 0 <= j < i ==> path@[j] == '/',
        decreases n - i,
    {
        i = i + 1;
    }
    proof {
        lemma_leading_slashes(path@, i as int);
    }
    path.substring_char(i, n)
}

/// The leading-slash count of `s` is `i` when its first `i` characters are slashes and the
/// next one (if any) is not.
proof fn lemma_leading_slashes(s: Seq<char>, i: int)
    requires
        0 <= i <= s.len(),
        forall|j: int| 0 <= j < i ==> s[j] == '/',
        i == s.len() || s[i] != '/',
    ensures
        leading_slashes(s) == i,
    decreases i,
{
    if i > 0 {
        let t = s.drop_first();
        assert forall|j: int| 0 <= j < i - 1 implies t[j] == '/' by {
            assert(t[j] == s[j + 1]);
        }
        if i - 1 < t.len() {
            assert(t[i - 1] == s[i]);
        }
        lemma_leading_slashes(t, i - 1);
    }
}

/// The path of `base` parsed as an absolute URL (WHATWG URL Standard); `None` when `base` is
/// not a valid absolute URL.
pub uninterp spec fn url_path_of(base: Seq<char>) -> Option<Seq<char>>;

/// `base` parsed as an absolute URL, with its path replaced by `dir`, then `rel` resolved
/// against it (WHATWG URL Standard) and serialized; `None` when either step fails.
pub uninterp spec fn url_resolved(base: Seq<char>, dir: Seq<char>, rel: Seq<char>) -> Option<Seq<char>>;

/// `base` parsed as an absolute URL, then `rel` resolved against it and serialized; `None`
/// when either step fails.
pub uninterp spec fn url_joined(base: Seq<char>, rel: Seq<char>) -> Option<Seq<char>>;

/// Calls `Url::parse` (the `url` crate, through `reqwest::Url`) and `Url::path`.
///
/// Trusted: the result is the named `url_path_of` of `base`; the URL grammar is left to the
/// `url` crate.
#[verifier::external_body]
fn parsed_url_path(base: &str) -> (r: Option<String>)
    ensures
        opt_str_view(r) == url_path_of(base@),
{
    match reqwest::Url::parse(base) {
        Ok(url) => Some(url.path().to_owned()),
        Err(_) => None,
    }
}

/// Calls `Url::parse`, `Url::set_path` and `Url::join` (the `url` crate, through
/// `reqwest::Url`), then serializes the result.
///
/// Trusted: the result is the named `url_resolved` of the three arguments.
#[verifier::external_body]
fn resolve_url(base: &str, dir: &str, rel: &str) -> (r: Option<String>)
    ensures
        opt_str_view(r) == url_resolved(base@, dir@, rel@),
{
    match reqwest::Url::parse(base) {
        Ok(mut url) => {
            url.set_path(dir);
            match url.join(rel) {
                Ok(full) => Some(String::from(full)),
                Err(_) => None,
            }
        },
        Err(_) => None,
    }
}

/// Calls `Url::parse` and `Url::join` (the `url` crate, through `reqwest::Url`), then
/// serializes the result.
///
/// Trusted: the result is the named `url_joined` of the two arguments.
#[verifier::external_body]
fn join_url(base: &str, rel: &str) -> (r: Option<String>)
    ensures
        opt_str_view(r) == url_joined(base@, rel@),
{
    match reqwest::Url::parse(base) {
        Ok(url) => match url.join(rel) {
            Ok(full) => Some(String::from(full)),
            Err(_) => None,
        },
        Err(_) => None,
    }
}

/// The endpoint that `path` names under a base URL whose parsed path is `base_path`: the
/// path's leading slashes are dropped, and when the base path lacks a trailing slash one is
/// added first, so that every segment of the base path is kept.
pub open spec fn endpoint_target(base: Seq<char>, base_path: Seq<char>, path: Seq<char>) -> Option<Seq<char>> {
    let rel = path.skip(leading_slashes(path) as int);
    if base_path.len() > 0 && base_path.last() == '/' {
        url_joined(base, rel)
    } else {
        url_resolved(base, slash_terminated(base_path), rel)
    }
}

/// Joins a base URL and an endpoint path with standard URL resolution, keeping every path
/// segment of the base: `https://api.example.com/v1` and `chat/completions` (or
/// `/chat/completions`) give `https://api.example.com/v1/chat/completions`.
///
/// A base that is not a valid absolute URL is refused with `InvalidConfig("invalid base URL")`;
/// a path that does not resolve, with `InvalidConfig("invalid endpoint path")`.
pub fn endpoint_url(base_url: &str, path: &str) -> (r: Result<String, TransportError>)
    ensures
        match url_path_of(base_url@) {
            None => r matches Err(TransportError::InvalidConfig(m)) && m@ == "invalid base URL"@,
            Some(p) => match endpoint_target(base_url@, p, path@) {
                Some(u) => r matches Ok(s) && s@ == u,
                None => r matches Err(TransportError::InvalidConfig(m)) && m@ == "invalid endpoint path"@,
            },
        },
{
    let base_path = match parsed_url_path(base_url) {
        Some(p) => p,
        None => return Err(TransportError::InvalidConfig("invalid base URL")),
    };
    let rel = without_leading_slashes(path);
    let n = base_path.as_str().unicode_len();
    let full = if n > 0 && base_path.as_str().get_char(n - 1) == '/' {
        join_url(base_url, rel)
    } else {
        let dir = with_trailing_slash(base_path.as_str());
        resolve_url(base_url, dir.as_str(), rel)
    };
    match full {
        Some(s) => Ok(s),
        None => Err(TransportError::InvalidConfig("invalid endpoint path")),
    }
}

/// Whether `b` may stand in an HTTP header value: a visible ASCII byte, a space, a tab, or any
/// byte of 128 and above (the rule of the `http` crate's `HeaderValue::from_str`).
pub open spec fn header_value_byte(b: u8) -> bool {
    (b >= 32 && b != 127) || b == 9
}

/// The `Authorization` header value that carries `api_key` as a bearer token.
pub open spec fn bearer_value(api_key: Seq<char>) -> Seq<char> {
    "Bearer "@ + api_key
}

/// Whether every UTF-8 byte of `text` may stand in an HTTP header value.
pub open spec fn valid_header_text(text: Seq<char>) -> bool {
    forall|i: int| 0 <= i < encode_utf8(text).len() ==> #[trigger] header_value_byte(encode_utf8(text)[i])
}

/// Builds the `Authorization` header value `Bearer <api_key>`, refusing a key that would put
/// a byte into it that a header value cannot hold (a control character such as a newline),
/// with `InvalidConfig("api key contains invalid header characters")`.
pub fn bearer_authorization(api_key: &str) -> (r: Result<String, TransportError>)
    ensures
        r is Ok <==> valid_header_text(bearer_value(api_key@)),
        r matches Ok(v) ==> v@ == bearer_value(api_key@),
        r matches Err(e) ==> e matches TransportError::InvalidConfig(m)
            && m@ == "api key contains invalid header characters"@,
{
    let mut value = String::from_str("Bearer ");
    value.append(api_key);
    let bytes = value.as_str().as_bytes();
    let ghost text = bearer_value(api_key@);
    assert(value@ == text);
    assert(bytes@ == encode_utf8(text));
    let n = bytes.len();
    let mut i: usize = 0;
    while i < n
        invariant
            n == bytes@.len(),
            text == bearer_value(api_key@),
            bytes@ == encode_utf8(text),
            i <= n,
            forall|j: int| 0 <= j < i ==> #[trigger] header_value_byte(bytes@[j]),
        decreases n - i,
    {
        let b = bytes[i];
        if !((b >= 32 && b != 127) || b == 9) {
            assert(b == encode_utf8(text)[i as int]);
            assert(!header_value_byte(encode_utf8(text)[i as int]));
            assert(!valid_header_text(text));
            return Err(TransportError::InvalidConfig("api key contains invalid header characters"));
        }
        i = i + 1;
    }
    Ok(value)
}

} // verus!
