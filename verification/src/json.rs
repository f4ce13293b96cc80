//! JSON document queries answered by `serde_json`.
use vstd::prelude::*;

use crate::types::message::opt_str_view;

verus! {

/// The string found at JSON pointer `pointer` in the JSON document `text`: `None` when `text`
/// does not parse as JSON, when nothing is at the pointer, or when the value there is not a
/// string. It names the result of two `serde_json` functions applied in turn: `from_str` into a
/// `Value`, then `Value::pointer` on it.
pub uninterp spec fn json_string_at(text: Seq<char>, pointer: Seq<char>) -> Option<Seq<char>>;

/// Whether `text` parses as a JSON document.
pub uninterp spec fn json_parses(text: Seq<char>) -> bool;

/// Looks up a string value by JSON pointer (RFC 6901) after parsing `text` with
/// `serde_json::from_str` into a `serde_json::Value` and querying it with
/// `serde_json::Value::pointer`.
///
/// Trusted: the result is the named `json_string_at` of the two arguments; nothing is claimed
/// about which documents parse.
#[verifier::external_body]
pub(crate) fn string_at(text: &str, pointer: &str) -> (r: Option<String>)
    ensures
        opt_str_view(r) == json_string_at(text@, pointer@),
{
    let value: serde_json::Value = match serde_json::from_str(text) {
        Ok(value) => value,
        Err(_) => return None,
    };
    match value.pointer(pointer) {
        Some(serde_json::Value::String(s)) => Some(s.clone()),
        _ => None,
    }
}

/// Whether `text` parses as a JSON document, per `serde_json::from_str::<serde_json::Value>`.
///
/// Trusted: the result is the named `json_parses` of the text; which texts parse is left to
/// `serde_json`.
#[verifier::external_body]
pub(crate) fn parses(text: &str) -> (r: bool)
    ensures
        r == json_parses(text@),
{
    serde_json::from_str::<serde_json::Value>(text).is_ok()
}

} // verus!
