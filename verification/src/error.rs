//! Error taxonomy, partitioned by failure nature.
//!
//! - [`TransportError`] / [`ProviderError`]: failures of the shared HTTP layer and of a provider
//!   client.
//! - [`BackendConstructError`]: constructing a backend failed.
//! - [`CapabilityError`]: a backend statically does not offer a capability.
//! - [`BackendError`]: operating an already-constructed backend failed.
//!
//! Response bodies captured on errors are not part of any rendered message; they are recovered
//! with [`captured_body`].
use vstd::prelude::*;

use crate::json::json_string_at;

verus! {

#[verifier::external_type_specification]
#[verifier::external_body]
pub struct ExJsonError(serde_json::Error);

#[verifier::external_type_specification]
#[verifier::external_body]
pub struct ExHttpError(reqwest::Error);

#[verifier::external_type_specification]
#[verifier::external_body]
pub struct ExUtf8Error(std::string::FromUtf8Error);

/// Errors produced by the shared HTTP/SSE transport layer.
#[derive(Debug)]
pub enum TransportError {
    InvalidConfig(&'static str),
    BuildClient(reqwest::Error),
    Transport(reqwest::Error),
    /// A non-success HTTP status, with the full response body captured on `body`.
    HttpStatus { status: u16, body: String },
    /// A streamed response chunk could not be deserialized; `body` is the chunk payload.
    Deserialize { source: serde_json::Error, body: String },
    Utf8(std::string::FromUtf8Error),
    /// A non-streaming response body exceeded the size cap and was not buffered.
    BodyTooLarge { limit: usize },
    InvalidResponse(String),
}

/// Errors of a provider client built on the shared transport.
#[derive(Debug)]
pub enum ProviderError {
    Transport(TransportError),
    InvalidRequest(String),
    Serialize(serde_json::Error),
    /// Failed to deserialize a full response body; `body` is that body.
    Deserialize { source: serde_json::Error, body: String },
}

/// The cause carried by a provider failure.
///
/// Built-in backends carry the structured [`ProviderError`] or [`TransportError`]; custom
/// backends carry a description of their own error.
#[derive(Debug)]
pub enum ErrorSource {
    Provider(ProviderError),
    Transport(TransportError),
    Described(String),
}

/// Capability names used in client-level unsupported or unavailable errors.
#[derive(Clone, Copy, Debug, PartialEq, Eq, Structural)]
pub enum Capability {
    ModelCatalog,
    Balance,
}

impl Capability {
    /// The human-readable label of the capability.
    pub fn label(&self) -> (r: &'static str)
        ensures
            r@ == capability_label(*self),
    {
        proof {
            reveal_strlit("model catalog");
            reveal_strlit("balance");
        }
        match self {
            Capability::ModelCatalog => "model catalog",
            Capability::Balance => "balance",
        }
    }
}

/// The label of a capability.
pub open spec fn capability_label(c: Capability) -> Seq<char> {
    match c {
        Capability::ModelCatalog => "model catalog"@,
        Capability::Balance => "balance"@,
    }
}

/// Constructing a backend failed: a precondition or setup failure.
#[derive(Debug)]
pub enum BackendConstructError {
    /// No constructor is registered for the requested family.
    UnknownFamily { family: String },
    /// The provider client could not be built.
    Provider { family: &'static str, source: ErrorSource },
}

impl BackendConstructError {
    /// Creates an unknown-family error (factory dispatch miss).
    pub fn unknown_family(family: &str) -> (r: Self)
        ensures
            r matches BackendConstructError::UnknownFamily { family: f } && f@ == family@,
    {
        BackendConstructError::UnknownFamily { family: family.to_owned() }
    }

    /// Wraps a provider build failure for the given backend family.
    pub fn provider(family: &'static str, source: ErrorSource) -> (r: Self)
        ensures
            r == (BackendConstructError::Provider { family, source }),
    {
        BackendConstructError::Provider { family, source }
    }
}

/// Static capability gating failure.
#[derive(Debug)]
pub enum CapabilityError {
    /// The backend never offers the requested capability.
    Unsupported { family: &'static str, capability: Capability },
    /// The backend is expected to offer the capability but has not implemented it yet.
    Unimplemented { family: &'static str, capability: Capability },
    /// The backend can offer the capability in principle, but not in the current state.
    Unavailable { family: &'static str, capability: Capability, message: String },
}

impl CapabilityError {
    /// Creates an unsupported-capability error for the given backend.
    pub fn unsupported(family: &'static str, capability: Capability) -> (r: Self)
        ensures
            r == (CapabilityError::Unsupported { family, capability }),
    {
        CapabilityError::Unsupported { family, capability }
    }

    /// Creates an unimplemented-capability error for the given backend.
    pub fn unimplemented(family: &'static str, capability: Capability) -> (r: Self)
        ensures
            r == (CapabilityError::Unimplemented { family, capability }),
    {
        CapabilityError::Unimplemented { family, capability }
    }

    /// Creates an unavailable-capability error for the given backend.
    pub fn unavailable(family: &'static str, capability: Capability, message: &str) -> (r: Self)
        ensures
            r matches CapabilityError::Unavailable { family: f, capability: c, message: m } && f
                == family && c == capability && m@ == message@,
    {
        CapabilityError::Unavailable { family, capability, message: message.to_owned() }
    }
}

/// Operating an already-constructed backend failed: a runtime execution failure.
#[derive(Debug)]
pub enum BackendError {
    /// The request was invalid before it reached the provider.
    InvalidRequest(String),
    /// Failed to serialize a request payload or render provider-specific types.
    Serialization { source: serde_json::Error },
    /// The underlying provider client returned an error.
    Provider { family: &'static str, source: ErrorSource },
    /// The request cannot be represented on this provider's wire (pre-flight; no IO).
    Unserializable { family: &'static str, message: String },
}

impl BackendError {
    /// Creates an invalid-request error with a stable, user-facing message.
    pub fn invalid_request(message: &str) -> (r: Self)
        ensures
            r matches BackendError::InvalidRequest(m) && m@ == message@,
    {
        BackendError::InvalidRequest(message.to_owned())
    }

    /// Creates a serialization error wrapping a `serde_json` failure.
    pub fn serialization(source: serde_json::Error) -> (r: Self)
        ensures
            r == (BackendError::Serialization { source }),
    {
        BackendError::Serialization { source }
    }

    /// Wraps a provider-specific source error for the given backend family.
    pub fn provider(family: &'static str, source: ErrorSource) -> (r: Self)
        ensures
            r == (BackendError::Provider { family, source }),
    {
        BackendError::Provider { family, source }
    }

    /// Creates a wire-unrepresentable-request error (pre-flight; no IO).
    pub fn unserializable(family: &'static str, message: &str) -> (r: Self)
        ensures
            r matches BackendError::Unserializable { family: f, message: m } && f == family && m@
                == message@,
    {
        BackendError::Unserializable { family, message: message.to_owned() }
    }
}

// ---------------------------------------------------------------------------
// Captured bodies and provider rejections
// ---------------------------------------------------------------------------

/// The body captured by a transport error, if it carries one.
pub open spec fn transport_body(e: TransportError) -> Option<Seq<char>> {
    match e {
        TransportError::HttpStatus { body, .. } => Some(body@),
        TransportError::Deserialize { body, .. } => Some(body@),
        _ => None,
    }
}

/// The first body captured along a provider error's cause chain.
pub open spec fn provider_body(e: ProviderError) -> Option<Seq<char>> {
    match e {
        ProviderError::Deserialize { body, .. } => Some(body@),
        ProviderError::Transport(t) => transport_body(t),
        _ => None,
    }
}

/// The first body captured along a cause.
pub open spec fn source_body(s: ErrorSource) -> Option<Seq<char>> {
    match s {
        ErrorSource::Provider(p) => provider_body(p),
        ErrorSource::Transport(t) => transport_body(t),
        ErrorSource::Described(_) => None,
    }
}

/// The first body captured along a backend error's cause chain.
pub open spec fn backend_body(e: BackendError) -> Option<Seq<char>> {
    match e {
        BackendError::Provider { source, .. } => source_body(source),
        _ => None,
    }
}

impl TransportError {
    /// The captured response or chunk body carried by this error, if any.
    pub fn captured_body(&self) -> (r: Option<&str>)
        ensures
            r matches Some(s) ==> transport_body(*self) == Some(s@),
            r is None ==> transport_body(*self) is None,
    {
        match self {
            TransportError::HttpStatus { body, .. } => Some(body.as_str()),
            TransportError::Deserialize { body, .. } => Some(body.as_str()),
            _ => None,
        }
    }
}

impl ProviderError {
    /// The first body captured along this error's cause chain, if any.
    pub fn captured_body(&self) -> (r: Option<&str>)
        ensures
            r matches Some(s) ==> provider_body(*self) == Some(s@),
            r is None ==> provider_body(*self) is None,
    {
        match self {
            ProviderError::Deserialize { body, .. } => Some(body.as_str()),
            ProviderError::Transport(t) => t.captured_body(),
            _ => None,
        }
    }
}

impl ErrorSource {
    /// The first body captured along this cause, if any.
    pub fn captured_body(&self) -> (r: Option<&str>)
        ensures
            r matches Some(s) ==> source_body(*self) == Some(s@),
            r is None ==> source_body(*self) is None,
    {
        match self {
            ErrorSource::Provider(p) => p.captured_body(),
            ErrorSource::Transport(t) => t.captured_body(),
            ErrorSource::Described(_) => None,
        }
    }
}

/// Walks a backend error's cause chain and returns the first captured diagnostic body: an
/// HTTP error-response body, a full response body that failed to parse, or a streamed chunk
/// that failed to parse. Returns `None` if no body-carrying error is reachable.
pub fn captured_body(error: &BackendError) -> (r: Option<&str>)
    ensures
        r matches Some(s) ==> backend_body(*error) == Some(s@),
        r is None ==> backend_body(*error) is None,
{
    match error {
        BackendError::Provider { source, .. } => source.captured_body(),
        _ => None,
    }
}

/// A provider-side rejection lifted from an HTTP error response.
#[derive(Debug, PartialEq)]
pub struct ProviderRejection {
    /// HTTP status the provider answered with.
    pub status: u16,
    /// Provider-native error code (`error.code`), when present.
    pub code: Option<String>,
    /// Provider-native error type (`error.type`), when present.
    pub error_type: Option<String>,
}

/// The HTTP status and body of the first HTTP rejection along a cause chain.
pub open spec fn transport_rejection(e: TransportError) -> Option<(u16, Seq<char>)> {
    match e {
        TransportError::HttpStatus { status, body } => Some((status, body@)),
        _ => None,
    }
}

/// The HTTP status and body of the first HTTP rejection along a backend error's cause chain.
pub open spec fn backend_rejection(e: BackendError) -> Option<(u16, Seq<char>)> {
    match e {
        BackendError::Provider { source, .. } => match source {
            ErrorSource::Provider(ProviderError::Transport(t)) => transport_rejection(t),
            ErrorSource::Transport(t) => transport_rejection(t),
            _ => None,
        },
        _ => None,
    }
}

/// JSON pointer of the provider's error code in a wrapped error body.
pub open spec fn error_code_pointer() -> Seq<char> {
    "/error/code"@
}

/// JSON pointer of the provider's error type in a wrapped error body.
pub open spec fn error_type_pointer() -> Seq<char> {
    "/error/type"@
}

/// Extracts `error.code` / `error.type` from a JSON error body; `None` for a field when the
/// body is not JSON of that shape.
pub fn lift_provider_error_fields(body: &str) -> (r: (Option<String>, Option<String>))
    ensures
        crate::types::message::opt_str_view(r.0) == json_string_at(body@, error_code_pointer()),
        crate::types::message::opt_str_view(r.1) == json_string_at(body@, error_type_pointer()),
{
    proof {
        reveal_strlit("/error/code");
        reveal_strlit("/error/type");
    }
    let code = crate::json::string_at(body, "/error/code");
    let error_type = crate::json::string_at(body, "/error/type");
    (code, error_type)
}

/// Walks `error`'s cause chain to the captured HTTP status of a provider error response and
/// lifts the provider's own `error.code` / `error.type` out of the body when it is JSON of the
/// common wrapped shape. Returns `None` when no HTTP status is reachable, i.e. the error did
/// not originate from a provider response.
pub fn provider_rejection(error: &BackendError) -> (r: Option<ProviderRejection>)
    ensures
        backend_rejection(*error) is None ==> r is None,
        backend_rejection(*error) matches Some((status, body)) ==> r matches Some(rej) && rej.status
            == status && crate::types::message::opt_str_view(rej.code) == json_string_at(
            body,
            error_code_pointer(),
        ) && crate::types::message::opt_str_view(rej.error_type) == json_string_at(
            body,
            error_type_pointer(),
        ),
{
    let t = match error {
        BackendError::Provider { source, .. } => match source {
            ErrorSource::Provider(ProviderError::Transport(t)) => t,
            ErrorSource::Transport(t) => t,
            _ => return None,
        },
        _ => return None,
    };
    match t {
        TransportError::HttpStatus { status, body } => {
            let (code, error_type) = lift_provider_error_fields(body.as_str());
            Some(ProviderRejection { status: *status, code, error_type })
        },
        _ => None,
    }
}

} // verus!
