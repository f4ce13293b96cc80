//! Protocol-neutral streaming generation events.
use vstd::prelude::*;

use crate::types::message::opt_str_view;
use crate::types::shared::{FinishReason, Usage};

verus! {

/// Incremental tool-call payload emitted during streaming.
///
/// `arguments`, when present, is an incremental fragment appended to the running value of the
/// tool call identified by `index`.
#[derive(Debug, PartialEq)]
pub struct ToolCallDelta {
    pub index: Option<u32>,
    pub id: Option<String>,
    pub name: Option<String>,
    pub arguments: Option<String>,
}

/// One streaming generation event.
#[derive(Debug, PartialEq)]
pub enum GenerationEvent {
    Text { delta: String },
    Reasoning { delta: String },
    ToolCall { delta: ToolCallDelta },
    Usage { usage: Usage },
    End { finish_reason: Option<FinishReason>, response_id: Option<String> },
}

pub struct ToolCallDeltaView {
    pub index: Option<u32>,
    pub id: Option<Seq<char>>,
    pub name: Option<Seq<char>>,
    pub arguments: Option<Seq<char>>,
}

pub enum GenerationEventView {
    Text { delta: Seq<char> },
    Reasoning { delta: Seq<char> },
    ToolCall { delta: ToolCallDeltaView },
    Usage { usage: Usage },
    End { finish_reason: Option<FinishReason>, response_id: Option<Seq<char>> },
}

impl View for ToolCallDelta {
    type V = ToolCallDeltaView;

    open spec fn view(&self) -> ToolCallDeltaView {
        ToolCallDeltaView {
            index: self.index,
            id: opt_str_view(self.id),
            name: opt_str_view(self.name),
            arguments: opt_str_view(self.arguments),
        }
    }
}

impl View for GenerationEvent {
    type V = GenerationEventView;

    open spec fn view(&self) -> GenerationEventView {
        match self {
            GenerationEvent::Text { delta } => GenerationEventView::Text { delta: delta@ },
            GenerationEvent::Reasoning { delta } => GenerationEventView::Reasoning { delta: delta@ },
            GenerationEvent::ToolCall { delta } => GenerationEventView::ToolCall { delta: delta@ },
            GenerationEvent::Usage { usage } => GenerationEventView::Usage { usage: *usage },
            GenerationEvent::End { finish_reason, response_id } => GenerationEventView::End {
                finish_reason: *finish_reason,
                response_id: opt_str_view(*response_id),
            },
        }
    }
}

/// Views a sequence of events.
pub open spec fn events_view(s: Seq<GenerationEvent>) -> Seq<GenerationEventView> {
    s.map_values(|e: GenerationEvent| e@)
}

impl GenerationEvent {
    /// Returns the finish reason for an `End` event.
    pub fn finish_reason(&self) -> (r: Option<&FinishReason>)
        ensures
            r matches Some(f) ==> self@ matches GenerationEventView::End { finish_reason, .. }
                && finish_reason == Some(*f),
            r is None ==> !(self@ matches GenerationEventView::End { finish_reason, .. }
                && finish_reason is Some),
    {
        match self {
            GenerationEvent::End { finish_reason, .. } => match finish_reason {
                Some(f) => Some(f),
                None => None,
            },
            _ => None,
        }
    }
}

} // verus!
