//! Built-in backend family identifiers: the stable strings used for error attribution,
//! factory lookup and diagnostics.
use vstd::prelude::*;

verus! {

/// DeepSeek backend family.
pub const DEEPSEEK: &'static str = "deepseek";

/// OpenAI-compatible backend family.
pub const OPENAI_COMPATIBLE: &'static str = "openai-compatible";

/// OpenAI Responses backend family.
pub const OPENAI_RESPONSES: &'static str = "openai-responses";

/// Anthropic backend family.
pub const ANTHROPIC: &'static str = "anthropic";

} // verus!
