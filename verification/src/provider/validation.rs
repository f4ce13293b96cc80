//! Request validation shared by backends: the non-streaming entry points refuse a request
//! flagged for streaming, and the streaming entry points promote the flag.
use vstd::prelude::*;

use crate::error::BackendError;
use crate::types::request::{GenerationRequest, GenerationRequestView};

verus! {

/// Checks a request for a non-streaming entry point (`operation`): a request flagged for
/// streaming is refused as invalid, naming the streaming entry point to use instead.
pub fn validate_non_streaming_request(
    request: &GenerationRequest,
    operation: &str,
    streaming_operation: &str,
) -> (r: Result<(), BackendError>)
    ensures
        r is Err <==> request@.stream == Some(true),
        r matches Err(e) ==> e is InvalidRequest,
{
    if let Some(true) = request.stream {
        let mut message = operation.to_owned();
        message.append(" does not accept streaming requests; use ");
        message.append(streaming_operation);
        return Err(BackendError::InvalidRequest(message));
    }
    Ok(())
}

/// Prepares a request for a streaming entry point (`_operation`): the stream flag is forced
/// on and nothing else changes.
pub fn into_validated_streaming_request(
    request: GenerationRequest,
    _operation: &str,
) -> (r: Result<GenerationRequest, BackendError>)
    ensures
        r matches Ok(q) && q@ == (GenerationRequestView { stream: Some(true), ..request@ }),
{
    let mut request = request;
    request.stream = Some(true);
    Ok(request)
}

} // verus!
