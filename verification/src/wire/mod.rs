//! Provider wire shapes.
pub mod anthropic;
pub mod chat;
pub mod responses;
