//! Chat-completions wire shapes (OpenAI-compatible providers).
//!
//! Each type mirrors the fields of the chat-completions protocol that the normalized layer
//! reads or writes; JSON (de)serialization of these shapes happens at the I/O edge.
use vstd::prelude::*;

use crate::types::message::opt_str_view;
use crate::types::shared::{
    opt_choice_view, opt_stop_view, opt_tools_view, FloatBits, ResponseFormat, StopSequence,
    StopSequenceView, ToolChoice, ToolChoiceView, ToolDefinition, ToolDefinitionView,
};

verus! {

/// Chat message content: a plain string or content parts.
#[derive(Debug, PartialEq)]
pub enum ChatContent {
    Text(String),
    Parts(Vec<ChatContentPart>),
}

/// One chat content part.
#[derive(Debug, PartialEq)]
pub enum ChatContentPart {
    Text { text: String },
    ImageUrl { url: String, detail: Option<String> },
}

/// Tool type tag on a chat tool call; unknown tags are preserved as `Unknown`.
#[derive(Clone, Copy, Debug, PartialEq, Eq, Structural)]
pub enum ChatToolType {
    Function,
    Unknown,
}

/// A tool call in a chat message.
#[derive(Debug, PartialEq)]
pub struct ChatToolCall {
    pub id: String,
    pub kind: ChatToolType,
    pub name: String,
    pub arguments: String,
}

/// A chat request message.
#[derive(Debug, PartialEq)]
pub enum ChatMessage {
    /// A `{role, content}` message (system, user, or assistant without tool calls).
    Message { role: String, content: ChatContent, reasoning_content: Option<String> },
    /// An assistant message carrying tool calls.
    ToolCalls { content: Option<String>, tool_calls: Vec<ChatToolCall>, reasoning_content: Option<String> },
    /// A tool result.
    ToolResult { content: String, tool_call_id: String },
}

/// A chat-completions request body.
///
/// `include_usage` is the `stream_options.include_usage` flag.
#[derive(Debug)]
pub struct ChatCompletionRequest {
    pub model: String,
    pub messages: Vec<ChatMessage>,
    pub frequency_penalty: Option<FloatBits>,
    pub max_tokens: Option<u32>,
    pub presence_penalty: Option<FloatBits>,
    pub response_format: Option<ResponseFormat>,
    pub stop: Option<StopSequence>,
    pub stream: Option<bool>,
    pub include_usage: Option<bool>,
    pub temperature: Option<FloatBits>,
    pub top_p: Option<FloatBits>,
    pub tools: Option<Vec<ToolDefinition>>,
    pub tool_choice: Option<ToolChoice>,
    pub logprobs: Option<bool>,
    pub top_logprobs: Option<u8>,
    pub reasoning_effort: Option<String>,
}

/// Role of a chat response message.
#[derive(Clone, Copy, Debug, PartialEq, Eq, Structural)]
pub enum ChatRole {
    Assistant,
    Unknown,
}

/// The assistant message of a chat response choice.
#[derive(Debug)]
pub struct ChatAssistantMessage {
    pub content: Option<String>,
    pub reasoning_content: Option<String>,
    pub tool_calls: Option<Vec<ChatToolCall>>,
    pub role: ChatRole,
}

/// A chat finish reason; unrecognized values are `Unknown`.
#[derive(Clone, Copy, Debug, PartialEq, Eq, Structural)]
pub enum ChatFinishReason {
    Stop,
    Length,
    ContentFilter,
    ToolCalls,
    Unknown,
}

/// Chat token usage.
#[derive(Clone, Copy, Debug, PartialEq, Eq, Structural)]
pub struct ChatUsage {
    pub completion_tokens: u32,
    pub prompt_tokens: u32,
    pub total_tokens: u32,
    /// `prompt_tokens_details`, present when reported: its `cached_tokens`.
    pub prompt_tokens_details: Option<Option<u32>>,
    /// `completion_tokens_details`, present when reported: its `reasoning_tokens`.
    pub completion_tokens_details: Option<Option<u32>>,
}

/// One choice of a chat response.
#[derive(Debug)]
pub struct ChatChoice {
    pub message: ChatAssistantMessage,
    pub finish_reason: Option<ChatFinishReason>,
}

/// A chat-completions response body.
#[derive(Debug)]
pub struct ChatCompletion {
    pub id: String,
    pub model: String,
    pub choices: Vec<ChatChoice>,
    pub usage: Option<ChatUsage>,
}

/// The function part of a streamed tool-call delta.
#[derive(Debug)]
pub struct ChunkFunction {
    pub name: Option<String>,
    pub arguments: Option<String>,
}

/// A streamed tool-call delta.
#[derive(Debug)]
pub struct ChunkToolCall {
    pub index: Option<u32>,
    pub id: Option<String>,
    pub function: Option<ChunkFunction>,
}

/// The delta of a streamed choice.
#[derive(Debug)]
pub struct ChunkDelta {
    pub content: Option<String>,
    pub reasoning_content: Option<String>,
    pub tool_calls: Option<Vec<ChunkToolCall>>,
}

/// A streamed choice.
#[derive(Debug)]
pub struct ChunkChoice {
    pub delta: ChunkDelta,
    pub finish_reason: Option<ChatFinishReason>,
}

/// One streamed chat-completions chunk.
#[derive(Debug)]
pub struct ChatCompletionChunk {
    pub choices: Vec<ChunkChoice>,
    pub usage: Option<ChatUsage>,
}

// ---------------------------------------------------------------------------
// Views
// ---------------------------------------------------------------------------

pub enum ChatContentView {
    Text(Seq<char>),
    Parts(Seq<ChatContentPartView>),
}

pub enum ChatContentPartView {
    Text { text: Seq<char> },
    ImageUrl { url: Seq<char>, detail: Option<Seq<char>> },
}

pub struct ChatToolCallView {
    pub id: Seq<char>,
    pub kind: ChatToolType,
    pub name: Seq<char>,
    pub arguments: Seq<char>,
}

pub enum ChatMessageView {
    Message { role: Seq<char>, content: ChatContentView, reasoning_content: Option<Seq<char>> },
    ToolCalls {
        content: Option<Seq<char>>,
        tool_calls: Seq<ChatToolCallView>,
        reasoning_content: Option<Seq<char>>,
    },
    ToolResult { content: Seq<char>, tool_call_id: Seq<char> },
}

pub struct ChatCompletionRequestView {
    pub model: Seq<char>,
    pub messages: Seq<ChatMessageView>,
    pub frequency_penalty: Option<FloatBits>,
    pub max_tokens: Option<u32>,
    pub presence_penalty: Option<FloatBits>,
    pub response_format: Option<ResponseFormat>,
    pub stop: Option<StopSequenceView>,
    pub stream: Option<bool>,
    pub include_usage: Option<bool>,
    pub temperature: Option<FloatBits>,
    pub top_p: Option<FloatBits>,
    pub tools: Option<Seq<ToolDefinitionView>>,
    pub tool_choice: Option<ToolChoiceView>,
    pub logprobs: Option<bool>,
    pub top_logprobs: Option<u8>,
    pub reasoning_effort: Option<Seq<char>>,
}

impl View for ChatContentPart {
    type V = ChatContentPartView;

    open spec fn view(&self) -> ChatContentPartView {
        match self {
            ChatContentPart::Text { text } => ChatContentPartView::Text { text: text@ },
            ChatContentPart::ImageUrl { url, detail } => ChatContentPartView::ImageUrl {
                url: url@,
                detail: opt_str_view(*detail),
            },
        }
    }
}

/// Views a sequence of chat content parts.
pub open spec fn chat_parts_view(s: Seq<ChatContentPart>) -> Seq<ChatContentPartView> {
    s.map_values(|p: ChatContentPart| p@)
}

impl View for ChatContent {
    type V = ChatContentView;

    open spec fn view(&self) -> ChatContentView {
        match self {
            ChatContent::Text(s) => ChatContentView::Text(s@),
            ChatContent::Parts(p) => ChatContentView::Parts(chat_parts_view(p@)),
        }
    }
}

impl View for ChatToolCall {
    type V = ChatToolCallView;

    open spec fn view(&self) -> ChatToolCallView {
        ChatToolCallView { id: self.id@, kind: self.kind, name: self.name@, arguments: self.arguments@ }
    }
}

/// Views a sequence of chat tool calls.
pub open spec fn chat_calls_view(s: Seq<ChatToolCall>) -> Seq<ChatToolCallView> {
    s.map_values(|c: ChatToolCall| c@)
}

impl View for ChatMessage {
    type V = ChatMessageView;

    open spec fn view(&self) -> ChatMessageView {
        match self {
            ChatMessage::Message { role, content, reasoning_content } => ChatMessageView::Message {
                role: role@,
                content: content@,
                reasoning_content: opt_str_view(*reasoning_content),
            },
            ChatMessage::ToolCalls { content, tool_calls, reasoning_content } => ChatMessageView::ToolCalls {
                content: opt_str_view(*content),
                tool_calls: chat_calls_view(tool_calls@),
                reasoning_content: opt_str_view(*reasoning_content),
            },
            ChatMessage::ToolResult { content, tool_call_id } => ChatMessageView::ToolResult {
                content: content@,
                tool_call_id: tool_call_id@,
            },
        }
    }
}

/// Views a sequence of chat messages.
pub open spec fn chat_messages_view(s: Seq<ChatMessage>) -> Seq<ChatMessageView> {
    s.map_values(|m: ChatMessage| m@)
}

impl View for ChatCompletionRequest {
    type V = ChatCompletionRequestView;

    open spec fn view(&self) -> ChatCompletionRequestView {
        ChatCompletionRequestView {
            model: self.model@,
            messages: chat_messages_view(self.messages@),
            frequency_penalty: self.frequency_penalty,
            max_tokens: self.max_tokens,
            presence_penalty: self.presence_penalty,
            response_format: self.response_format,
            stop: opt_stop_view(self.stop),
            stream: self.stream,
            include_usage: self.include_usage,
            temperature: self.temperature,
            top_p: self.top_p,
            tools: opt_tools_view(self.tools),
            tool_choice: opt_choice_view(self.tool_choice),
            logprobs: self.logprobs,
            top_logprobs: self.top_logprobs,
            reasoning_effort: opt_str_view(self.reasoning_effort),
        }
    }
}

pub struct ChatAssistantMessageView {
    pub content: Option<Seq<char>>,
    pub reasoning_content: Option<Seq<char>>,
    pub tool_calls: Option<Seq<ChatToolCallView>>,
    pub role: ChatRole,
}

impl View for ChatAssistantMessage {
    type V = ChatAssistantMessageView;

    open spec fn view(&self) -> ChatAssistantMessageView {
        ChatAssistantMessageView {
            content: opt_str_view(self.content),
            reasoning_content: opt_str_view(self.reasoning_content),
            tool_calls: match self.tool_calls {
                Some(v) => Some(chat_calls_view(v@)),
                None => None,
            },
            role: self.role,
        }
    }
}

pub struct ChatChoiceView {
    pub message: ChatAssistantMessageView,
    pub finish_reason: Option<ChatFinishReason>,
}

impl View for ChatChoice {
    type V = ChatChoiceView;

    open spec fn view(&self) -> ChatChoiceView {
        ChatChoiceView { message: self.message@, finish_reason: self.finish_reason }
    }
}

pub struct ChatCompletionView {
    pub id: Seq<char>,
    pub model: Seq<char>,
    pub choices: Seq<ChatChoiceView>,
    pub usage: Option<ChatUsage>,
}

impl View for ChatCompletion {
    type V = ChatCompletionView;

    open spec fn view(&self) -> ChatCompletionView {
        ChatCompletionView {
            id: self.id@,
            model: self.model@,
            choices: self.choices@.map_values(|c: ChatChoice| c@),
            usage: self.usage,
        }
    }
}

pub struct ChunkToolCallView {
    pub index: Option<u32>,
    pub id: Option<Seq<char>>,
    pub name: Option<Seq<char>>,
    pub arguments: Option<Seq<char>>,
    pub has_function: bool,
}

impl View for ChunkToolCall {
    type V = ChunkToolCallView;

    open spec fn view(&self) -> ChunkToolCallView {
        ChunkToolCallView {
            index: self.index,
            id: opt_str_view(self.id),
            name: match self.function {
                Some(f) => opt_str_view(f.name),
                None => None,
            },
            arguments: match self.function {
                Some(f) => opt_str_view(f.arguments),
                None => None,
            },
            has_function: self.function is Some,
        }
    }
}

pub struct ChunkChoiceView {
    pub content: Option<Seq<char>>,
    pub reasoning_content: Option<Seq<char>>,
    pub tool_calls: Option<Seq<ChunkToolCallView>>,
    pub finish_reason: Option<ChatFinishReason>,
}

impl View for ChunkChoice {
    type V = ChunkChoiceView;

    open spec fn view(&self) -> ChunkChoiceView {
        ChunkChoiceView {
            content: opt_str_view(self.delta.content),
            reasoning_content: opt_str_view(self.delta.reasoning_content),
            tool_calls: match self.delta.tool_calls {
                Some(v) => Some(v@.map_values(|c: ChunkToolCall| c@)),
                None => None,
            },
            finish_reason: self.finish_reason,
        }
    }
}

pub struct ChatCompletionChunkView {
    pub choices: Seq<ChunkChoiceView>,
    pub usage: Option<ChatUsage>,
}

impl View for ChatCompletionChunk {
    type V = ChatCompletionChunkView;

    open spec fn view(&self) -> ChatCompletionChunkView {
        ChatCompletionChunkView { choices: self.choices@.map_values(|c: ChunkChoice| c@), usage: self.usage }
    }
}

} // verus!
