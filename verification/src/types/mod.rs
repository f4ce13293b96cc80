//! Normalized client-facing generation types.
pub mod message;
pub mod shared;
pub mod request;
pub mod response;
pub mod stream;
