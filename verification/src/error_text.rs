//! Rendered messages of the error types.
//!
//! Each error renders a one-line message; a captured response body is never part of it (it is
//! recovered with [`crate::error::captured_body`]). Messages that embed an outside error
//! (a JSON, HTTP or UTF-8 failure) end with that error's own rendering.
use vstd::prelude::*;

use crate::error::{
    capability_label, BackendConstructError, BackendError, CapabilityError, ErrorSource, ProviderError,
    TransportError,
};

verus! {

/// The decimal digit character of `d` (below ten).
pub open spec fn digit_char(d: nat) -> char {
    if d == 0 {
        '0'
    } else if d == 1 {
        '1'
    } else if d == 2 {
        '2'
    } else if d == 3 {
        '3'
    } else if d == 4 {
        '4'
    } else if d == 5 {
        '5'
    } else if d == 6 {
        '6'
    } else if d == 7 {
        '7'
    } else if d == 8 {
        '8'
    } else {
        '9'
    }
}

/// The decimal rendering of `n`, without leading zeros.
pub open spec fn decimal(n: nat) -> Seq<char>
    decreases n,
{
    if n < 10 {
        seq![digit_char(n)]
    } else {
        decimal(n / 10).push(digit_char(n % 10))
    }
}

/// The one-character text of a decimal digit.
fn digit_text(d: u64) -> (r: &'static str)
    requires
        d < 10,
    ensures
        r@ == seq![digit_char(d as nat)],
{
    proof {
        reveal_strlit("0");
        reveal_strlit("1");
        reveal_strlit("2");
        reveal_strlit("3");
        reveal_strlit("4");
        reveal_strlit("5");
        reveal_strlit("6");
        reveal_strlit("7");
        reveal_strlit("8");
        reveal_strlit("9");
    }
    let r = if d == 0 {
        "0"
    } else if d == 1 {
        "1"
    } else if d == 2 {
        "2"
    } else if d == 3 {
        "3"
    } else if d == 4 {
        "4"
    } else if d == 5 {
        "5"
    } else if d == 6 {
        "6"
    } else if d == 7 {
        "7"
    } else if d == 8 {
        "8"
    } else {
        "9"
    };
    assert(r@ =~= seq![digit_char(d as nat)]);
    r
}

/// Renders `n` in decimal.
pub fn decimal_text(n: u64) -> (r: String)
    ensures
        r@ == decimal(n as nat),
    decreases n,
{
    if n < 10 {
        digit_text(n).to_owned()
    } else {
        let mut s = decimal_text(n / 10);
        s.append(digit_text(n % 10));
        s
    }
}

/// The reason phrase registered for an HTTP status, if any.
pub uninterp spec fn reason_phrase(status: u16) -> Option<Seq<char>>;

/// Calls `reqwest::StatusCode::from_u16` and `StatusCode::canonical_reason`.
///
/// Trusted: the result is the named `reason_phrase` of the status, and there is none outside
/// `100..=999` (where `from_u16` refuses the code); which statuses have a phrase is left to the
/// `http` crate's table.
#[verifier::external_body]
fn canonical_reason(status: u16) -> (r: Option<&'static str>)
    ensures
        match r {
            Some(s) => Some(s@),
            None => None,
        } == reason_phrase(status),
        !(100 <= status <= 999) ==> r is None,
{
    match reqwest::StatusCode::from_u16(status) {
        Ok(code) => code.canonical_reason(),
        Err(_) => None,
    }
}

/// The text of a status as HTTP renders it: the code, a space, and its reason phrase (or
/// `<unknown status code>`).
pub open spec fn status_line(status: u16) -> Seq<char> {
    decimal(status as nat) + " "@ + match reason_phrase(status) {
        Some(p) => p,
        None => "<unknown status code>"@,
    }
}

/// Renders a status as HTTP does.
pub fn status_text(status: u16) -> (r: String)
    ensures
        r@ == status_line(status),
{
    let mut s = decimal_text(status as u64);
    s.append(" ");
    match canonical_reason(status) {
        Some(p) => s.append(p),
        None => s.append("<unknown status code>"),
    }
    s
}

/// Renders a JSON failure with `serde_json::Error`'s `Display`.
///
/// Trusted: nothing is stated of the text.
#[verifier::external_body]
fn json_error_text(e: &serde_json::Error) -> String {
    e.to_string()
}

/// Renders an HTTP failure with `reqwest::Error`'s `Display`.
///
/// Trusted: nothing is stated of the text.
#[verifier::external_body]
fn http_error_text(e: &reqwest::Error) -> String {
    e.to_string()
}

/// Renders a UTF-8 failure with `FromUtf8Error`'s `Display`.
///
/// Trusted: nothing is stated of the text.
#[verifier::external_body]
fn utf8_error_text(e: &std::string::FromUtf8Error) -> String {
    e.to_string()
}

/// `prefix` followed by `rest`.
fn joined(prefix: &str, rest: &str) -> (r: String)
    ensures
        r@ == prefix@ + rest@,
{
    let mut s = prefix.to_owned();
    s.append(rest);
    s
}

/// The message of a transport error whose text is the library's own; `None` for the variants
/// that end with an outside error's rendering.
pub open spec fn transport_text(e: TransportError) -> Option<Seq<char>> {
    match e {
        TransportError::InvalidConfig(s) => Some("invalid configuration: "@ + s@),
        TransportError::HttpStatus { status, .. } => Some("api returned "@ + status_line(status)),
        TransportError::BodyTooLarge { limit } => Some(
            "response body exceeded "@ + decimal(limit as nat) + "-byte limit"@,
        ),
        TransportError::InvalidResponse(s) => Some("invalid response: "@ + s@),
        _ => None,
    }
}

/// The fixed beginning of a transport error's message.
pub open spec fn transport_prefix(e: TransportError) -> Seq<char> {
    match e {
        TransportError::InvalidConfig(_) => "invalid configuration: "@,
        TransportError::BuildClient(_) => "failed to build http client: "@,
        TransportError::Transport(_) => "request failed: "@,
        TransportError::HttpStatus { .. } => "api returned "@,
        TransportError::Deserialize { .. } => "failed to deserialize response body: "@,
        TransportError::Utf8(_) => "failed to decode streamed response as UTF-8: "@,
        TransportError::BodyTooLarge { .. } => "response body exceeded "@,
        TransportError::InvalidResponse(_) => "invalid response: "@,
    }
}

impl TransportError {
    /// The error's message. A captured body is never part of it.
    pub fn message(&self) -> (r: String)
        ensures
            transport_text(*self) matches Some(t) ==> r@ == t,
            r@.len() >= transport_prefix(*self).len() && r@.take(transport_prefix(*self).len() as int)
                == transport_prefix(*self),
    {
        let r = match self {
            TransportError::InvalidConfig(s) => joined("invalid configuration: ", s),
            TransportError::BuildClient(e) => joined("failed to build http client: ", http_error_text(e).as_str()),
            TransportError::Transport(e) => joined("request failed: ", http_error_text(e).as_str()),
            TransportError::HttpStatus { status, .. } => joined("api returned ", status_text(*status).as_str()),
            TransportError::Deserialize { source, .. } => joined(
                "failed to deserialize response body: ",
                json_error_text(source).as_str(),
            ),
            TransportError::Utf8(e) => joined(
                "failed to decode streamed response as UTF-8: ",
                utf8_error_text(e).as_str(),
            ),
            TransportError::BodyTooLarge { limit } => {
                let mut s = joined("response body exceeded ", decimal_text(*limit as u64).as_str());
                s.append("-byte limit");
                s
            },
            TransportError::InvalidResponse(s) => joined("invalid response: ", s.as_str()),
        };
        proof {
            let p = transport_prefix(*self);
            assert((p + (r@.skip(p.len() as int))).take(p.len() as int) =~= p);
            assert(r@ =~= p + r@.skip(p.len() as int));
        }
        r
    }
}

/// The message of a provider error whose text is the library's own, if it is.
pub open spec fn provider_text(e: ProviderError) -> Option<Seq<char>> {
    match e {
        ProviderError::Transport(t) => match transport_text(t) {
            Some(m) => Some("transport error: "@ + m),
            None => None,
        },
        ProviderError::InvalidRequest(s) => Some("invalid request: "@ + s@),
        _ => None,
    }
}

/// Whether `text` begins with `prefix`.
pub open spec fn starts_with(text: Seq<char>, prefix: Seq<char>) -> bool {
    text.len() >= prefix.len() && text.take(prefix.len() as int) == prefix
}

/// A text that begins with `prefix`, put after `head`, begins with `head` then `prefix`.
proof fn lemma_starts_with_after(head: Seq<char>, text: Seq<char>, prefix: Seq<char>)
    requires
        starts_with(text, prefix),
    ensures
        starts_with(head + text, head + prefix),
{
    assert((head + text).take((head + prefix).len() as int) =~= head + prefix);
}

/// Any text put after `head` begins with `head`.
proof fn lemma_starts_with_head(head: Seq<char>, text: Seq<char>)
    ensures
        starts_with(head + text, head),
{
    assert((head + text).take(head.len() as int) =~= head);
}

/// The fixed beginning of a provider error's message.
pub open spec fn provider_prefix(e: ProviderError) -> Seq<char> {
    match e {
        ProviderError::Transport(t) => "transport error: "@ + transport_prefix(t),
        ProviderError::InvalidRequest(_) => "invalid request: "@,
        ProviderError::Serialize(_) => "serialization failed: "@,
        ProviderError::Deserialize { .. } => "failed to deserialize response body: "@,
    }
}

impl ProviderError {
    /// The error's message. A captured body is never part of it.
    pub fn message(&self) -> (r: String)
        ensures
            provider_text(*self) matches Some(t) ==> r@ == t,
            starts_with(r@, provider_prefix(*self)),
    {
        match self {
            ProviderError::Transport(t) => {
                let inner = t.message();
                let r = joined("transport error: ", inner.as_str());
                proof {
                    lemma_starts_with_after("transport error: "@, inner@, transport_prefix(*t));
                }
                r
            },
            ProviderError::InvalidRequest(s) => {
                let r = joined("invalid request: ", s.as_str());
                proof {
                    lemma_starts_with_head("invalid request: "@, s@);
                }
                r
            },
            ProviderError::Serialize(e) => {
                let inner = json_error_text(e);
                let r = joined("serialization failed: ", inner.as_str());
                proof {
                    lemma_starts_with_head("serialization failed: "@, inner@);
                }
                r
            },
            ProviderError::Deserialize { source, .. } => {
                let inner = json_error_text(source);
                let r = joined("failed to deserialize response body: ", inner.as_str());
                proof {
                    lemma_starts_with_head("failed to deserialize response body: "@, inner@);
                }
                r
            },
        }
    }
}

/// The message of a cause whose text is the library's own, if it is.
pub open spec fn source_text(s: ErrorSource) -> Option<Seq<char>> {
    match s {
        ErrorSource::Provider(p) => provider_text(p),
        ErrorSource::Transport(t) => transport_text(t),
        ErrorSource::Described(d) => Some(d@),
    }
}

/// The fixed beginning of a cause's message; a described cause is its own text.
pub open spec fn source_prefix(s: ErrorSource) -> Seq<char> {
    match s {
        ErrorSource::Provider(p) => provider_prefix(p),
        ErrorSource::Transport(t) => transport_prefix(t),
        ErrorSource::Described(d) => d@,
    }
}

impl ErrorSource {
    /// The cause's message.
    pub fn message(&self) -> (r: String)
        ensures
            source_text(*self) matches Some(t) ==> r@ == t,
            starts_with(r@, source_prefix(*self)),
    {
        match self {
            ErrorSource::Provider(p) => p.message(),
            ErrorSource::Transport(t) => t.message(),
            ErrorSource::Described(d) => {
                let r = d.clone();
                assert(r@.take(r@.len() as int) =~= r@);
                r
            },
        }
    }
}

impl BackendConstructError {
    /// The error's message.
    pub fn message(&self) -> (r: String)
        ensures
            self matches BackendConstructError::UnknownFamily { family } ==> r@ == "no backend registered for family '"@
                + family@ + "'"@,
            self matches BackendConstructError::Provider { family, source } ==> (source_text(*source) matches Some(
                t,
            ) ==> r@ == "failed to build "@ + family@ + " backend: "@ + t),
            self matches BackendConstructError::Provider { family, source } ==> starts_with(
                r@,
                "failed to build "@ + family@ + " backend: "@ + source_prefix(*source),
            ),
    {
        match self {
            BackendConstructError::UnknownFamily { family } => {
                let mut s = joined("no backend registered for family '", family.as_str());
                s.append("'");
                s
            },
            BackendConstructError::Provider { family, source } => {
                let mut s = joined("failed to build ", family);
                s.append(" backend: ");
                let ghost head = s@;
                let inner = source.message();
                s.append(inner.as_str());
                proof {
                    lemma_starts_with_after(head, inner@, source_prefix(*source));
                    assert(head + source_prefix(*source) =~= "failed to build "@ + family@ + " backend: "@
                        + source_prefix(*source));
                }
                s
            },
        }
    }
}

impl CapabilityError {
    /// The error's message.
    pub fn message(&self) -> (r: String)
        ensures
            r@ == match *self {
                CapabilityError::Unsupported { family, capability } => family@ + " does not support "@
                    + capability_label(capability),
                CapabilityError::Unimplemented { family, capability } => family@ + " has not implemented "@
                    + capability_label(capability),
                CapabilityError::Unavailable { family, capability, message } => family@
                    + " cannot currently provide "@ + capability_label(capability) + ": "@ + message@,
            },
    {
        match self {
            CapabilityError::Unsupported { family, capability } => {
                let mut s = joined(family, " does not support ");
                s.append(capability.label());
                s
            },
            CapabilityError::Unimplemented { family, capability } => {
                let mut s = joined(family, " has not implemented ");
                s.append(capability.label());
                s
            },
            CapabilityError::Unavailable { family, capability, message } => {
                let mut s = joined(family, " cannot currently provide ");
                s.append(capability.label());
                s.append(": ");
                s.append(message.as_str());
                s
            },
        }
    }
}

impl BackendError {
    /// The error's message. A captured body is never part of it.
    pub fn message(&self) -> (r: String)
        ensures
            self matches BackendError::InvalidRequest(m) ==> r@ == "invalid request: "@ + m@,
            self matches BackendError::Provider { family, source } ==> (source_text(*source) matches Some(t)
                ==> r@ == family@ + " backend error: "@ + t),
            self matches BackendError::Unserializable { family, message } ==> r@
                == "request cannot be serialized for "@ + family@ + ": "@ + message@,
            self matches BackendError::Serialization { .. } ==> starts_with(r@, "serialization error: "@),
            self matches BackendError::Provider { family, source } ==> starts_with(
                r@,
                family@ + " backend error: "@ + source_prefix(*source),
            ),
    {
        match self {
            BackendError::InvalidRequest(m) => joined("invalid request: ", m.as_str()),
            BackendError::Serialization { source } => {
                let inner = json_error_text(source);
                let r = joined("serialization error: ", inner.as_str());
                proof {
                    lemma_starts_with_head("serialization error: "@, inner@);
                }
                r
            },
            BackendError::Provider { family, source } => {
                let mut s = joined(family, " backend error: ");
                let ghost head = s@;
                let inner = source.message();
                s.append(inner.as_str());
                proof {
                    lemma_starts_with_after(head, inner@, source_prefix(*source));
                    assert(head + source_prefix(*source) =~= family@ + " backend error: "@ + source_prefix(*source));
                }
                s
            },
            BackendError::Unserializable { family, message } => {
                let mut s = joined("request cannot be serialized for ", family);
                s.append(": ");
                s.append(message.as_str());
                s
            },
        }
    }
}

} // verus!
