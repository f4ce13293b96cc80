//! Conversation continuation and client defaults.
pub mod conversation;
pub mod families;
pub mod options;
