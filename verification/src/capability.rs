//! Backend identity.
use vstd::prelude::*;

verus! {

/// A backend that reports which family it belongs to, for error attribution and capability
/// negotiation.
pub trait Identifiable: Send + Sync {
    /// The backend family (one of [`crate::family`]'s identifiers for the built-in backends).
    fn family(&self) -> &'static str;
}

} // verus!
