//! Mappings between the normalized types and each provider's wire shapes.
pub mod anthropic;
pub mod openai_compat;
pub mod openai_responses;
pub mod validation;
