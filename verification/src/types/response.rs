//! Protocol-neutral generation response.
use vstd::prelude::*;

use crate::types::message::{
    calls_view, opt_str_view, AssistantMessage, AssistantMessageView, Reasoning, ToolCall,
};
use crate::types::shared::{FinishReason, Usage};

verus! {

/// Normalized non-streaming generation response: one assistant message.
#[derive(Debug, PartialEq)]
pub struct GenerationResponse {
    pub id: String,
    pub model: String,
    pub message: AssistantMessage,
    pub finish_reason: Option<FinishReason>,
    pub usage: Option<Usage>,
}

pub struct GenerationResponseView {
    pub id: Seq<char>,
    pub model: Seq<char>,
    pub message: AssistantMessageView,
    pub finish_reason: Option<FinishReason>,
    pub usage: Option<Usage>,
}

impl View for GenerationResponse {
    type V = GenerationResponseView;

    open spec fn view(&self) -> GenerationResponseView {
        GenerationResponseView {
            id: self.id@,
            model: self.model@,
            message: self.message@,
            finish_reason: self.finish_reason,
            usage: self.usage,
        }
    }
}

impl GenerationResponse {
    /// Returns the response's text content when present.
    pub fn text(&self) -> (r: Option<&str>)
        ensures
            r matches Some(s) ==> self@.message.content == Some(s@),
            r is None ==> self@.message.content is None,
    {
        match &self.message.content {
            Some(c) => Some(c.as_str()),
            None => None,
        }
    }

    /// Returns the model's tool invocations.
    pub fn tool_calls(&self) -> (r: &[ToolCall])
        ensures
            calls_view(r@) == self@.message.tool_calls,
    {
        self.message.tool_calls.as_slice()
    }

    /// Returns the model's reasoning when present.
    pub fn reasoning(&self) -> (r: Option<&Reasoning>)
        ensures
            r matches Some(x) ==> self@.message.reasoning == Some(x@),
            r is None ==> self@.message.reasoning is None,
    {
        match &self.message.reasoning {
            Some(x) => Some(x),
            None => None,
        }
    }
}

} // verus!
