//! Provider-neutral LLM client core: normalized generation types, request construction,
//! stateful conversation continuation, provider wire mappings and the error taxonomy.
pub mod capability;
pub mod client;
pub mod error;
pub mod error_text;
pub mod family;
pub mod json;
pub mod provider;
pub mod sse;
pub mod text;
pub mod tools;
pub mod transport;
pub mod types;
pub mod wire;
