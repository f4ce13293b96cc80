//! Anthropic Messages wire shapes.
//!
//! JSON-valued fields (a tool's input schema, a tool call's input) are carried as JSON text.
//! The request side carries views, which the conversion contracts speak of; the response side
//! is read field by field by spec functions over the values themselves.
use vstd::prelude::*;

use crate::types::message::opt_str_view;
use crate::types::shared::{strings_view, FloatBits, ReasoningEffort};

verus! {

// ---------------------------------------------------------------------------
// Request direction
// ---------------------------------------------------------------------------

/// Media type of a base64 image; values outside the known set are preserved verbatim.
#[derive(Debug, PartialEq)]
pub enum ImageMediaType {
    Jpeg,
    Png,
    Gif,
    Webp,
    Unknown(String),
}

/// Where an image block's pixels come from.
#[derive(Debug, PartialEq)]
pub enum AnthropicImageSource {
    Url { url: String },
    Base64 { data: String, media_type: ImageMediaType },
    File { file_id: String },
}

/// One content block of a request message.
///
/// A tool result's content is always plain text; a tool use's input is JSON text.
#[derive(Debug, PartialEq)]
pub enum BlockParam {
    Text { text: String },
    Image { source: AnthropicImageSource },
    Thinking { thinking: String, signature: String },
    RedactedThinking { data: String },
    ToolUse { id: String, name: String, input: String },
    ToolResult { tool_use_id: String, content: String },
}

/// Request message content: a plain string or content blocks.
#[derive(Debug, PartialEq)]
pub enum AnthropicContent {
    Text(String),
    Blocks(Vec<BlockParam>),
}

/// Role of a request message.
#[derive(Clone, Copy, Debug, PartialEq, Eq, Structural)]
pub enum AnthropicRole {
    User,
    Assistant,
}

/// One request message.
#[derive(Debug, PartialEq)]
pub struct MessageParam {
    pub role: AnthropicRole,
    pub content: AnthropicContent,
}

/// The top-level `system` parameter: a plain string, or text blocks.
#[derive(Debug, PartialEq)]
pub enum SystemParam {
    Text(String),
    Blocks(Vec<String>),
}

/// Anthropic tool choice. `Any` forces tool use.
#[derive(Debug, PartialEq)]
pub enum AnthropicToolChoice {
    /// The model must not call tools (wire value `none`).
    Disabled,
    Auto,
    Any,
    Tool { name: String },
}

/// A tool offered to the model; `input_schema` is JSON text.
#[derive(Debug, PartialEq)]
pub struct AnthropicTool {
    pub name: String,
    pub description: String,
    pub input_schema: String,
}

/// A Messages request body. `effort` is `output_config.effort`.
#[derive(Debug)]
pub struct CreateMessageRequest {
    pub model: String,
    pub messages: Vec<MessageParam>,
    pub max_tokens: u32,
    pub system: Option<SystemParam>,
    pub temperature: Option<FloatBits>,
    pub top_p: Option<FloatBits>,
    pub top_k: Option<u32>,
    pub stop_sequences: Option<Vec<String>>,
    pub stream: Option<bool>,
    pub tool_choice: Option<AnthropicToolChoice>,
    pub tools: Option<Vec<AnthropicTool>>,
    pub effort: Option<ReasoningEffort>,
}

pub enum ImageMediaTypeView {
    Jpeg,
    Png,
    Gif,
    Webp,
    Unknown(Seq<char>),
}

pub enum AnthropicImageSourceView {
    Url { url: Seq<char> },
    Base64 { data: Seq<char>, media_type: ImageMediaTypeView },
    File { file_id: Seq<char> },
}

pub enum BlockParamView {
    Text { text: Seq<char> },
    Image { source: AnthropicImageSourceView },
    Thinking { thinking: Seq<char>, signature: Seq<char> },
    RedactedThinking { data: Seq<char> },
    ToolUse { id: Seq<char>, name: Seq<char>, input: Seq<char> },
    ToolResult { tool_use_id: Seq<char>, content: Seq<char> },
}

pub enum AnthropicContentView {
    Text(Seq<char>),
    Blocks(Seq<BlockParamView>),
}

pub struct MessageParamView {
    pub role: AnthropicRole,
    pub content: AnthropicContentView,
}

pub enum SystemParamView {
    Text(Seq<char>),
    Blocks(Seq<Seq<char>>),
}

pub enum AnthropicToolChoiceView {
    Disabled,
    Auto,
    Any,
    Tool { name: Seq<char> },
}

pub struct AnthropicToolView {
    pub name: Seq<char>,
    pub description: Seq<char>,
    pub input_schema: Seq<char>,
}

pub struct CreateMessageRequestView {
    pub model: Seq<char>,
    pub messages: Seq<MessageParamView>,
    pub max_tokens: u32,
    pub system: Option<SystemParamView>,
    pub temperature: Option<FloatBits>,
    pub top_p: Option<FloatBits>,
    pub top_k: Option<u32>,
    pub stop_sequences: Option<Seq<Seq<char>>>,
    pub stream: Option<bool>,
    pub tool_choice: Option<AnthropicToolChoiceView>,
    pub tools: Option<Seq<AnthropicToolView>>,
    pub effort: Option<ReasoningEffort>,
}

impl View for ImageMediaType {
    type V = ImageMediaTypeView;

    open spec fn view(&self) -> ImageMediaTypeView {
        match self {
            ImageMediaType::Jpeg => ImageMediaTypeView::Jpeg,
            ImageMediaType::Png => ImageMediaTypeView::Png,
            ImageMediaType::Gif => ImageMediaTypeView::Gif,
            ImageMediaType::Webp => ImageMediaTypeView::Webp,
            ImageMediaType::Unknown(s) => ImageMediaTypeView::Unknown(s@),
        }
    }
}

impl View for AnthropicImageSource {
    type V = AnthropicImageSourceView;

    open spec fn view(&self) -> AnthropicImageSourceView {
        match self {
            AnthropicImageSource::Url { url } => AnthropicImageSourceView::Url { url: url@ },
            AnthropicImageSource::Base64 { data, media_type } => AnthropicImageSourceView::Base64 {
                data: data@,
                media_type: media_type@,
            },
            AnthropicImageSource::File { file_id } => AnthropicImageSourceView::File { file_id: file_id@ },
        }
    }
}

impl View for BlockParam {
    type V = BlockParamView;

    open spec fn view(&self) -> BlockParamView {
        match self {
            BlockParam::Text { text } => BlockParamView::Text { text: text@ },
            BlockParam::Image { source } => BlockParamView::Image { source: source@ },
            BlockParam::Thinking { thinking, signature } => BlockParamView::Thinking {
                thinking: thinking@,
                signature: signature@,
            },
            BlockParam::RedactedThinking { data } => BlockParamView::RedactedThinking { data: data@ },
            BlockParam::ToolUse { id, name, input } => BlockParamView::ToolUse {
                id: id@,
                name: name@,
                input: input@,
            },
            BlockParam::ToolResult { tool_use_id, content } => BlockParamView::ToolResult {
                tool_use_id: tool_use_id@,
                content: content@,
            },
        }
    }
}

/// Views a sequence of content blocks.
pub open spec fn blocks_view(s: Seq<BlockParam>) -> Seq<BlockParamView> {
    s.map_values(|b: BlockParam| b@)
}

impl View for AnthropicContent {
    type V = AnthropicContentView;

    open spec fn view(&self) -> AnthropicContentView {
        match self {
            AnthropicContent::Text(t) => AnthropicContentView::Text(t@),
            AnthropicContent::Blocks(b) => AnthropicContentView::Blocks(blocks_view(b@)),
        }
    }
}

impl View for MessageParam {
    type V = MessageParamView;

    open spec fn view(&self) -> MessageParamView {
        MessageParamView { role: self.role, content: self.content@ }
    }
}

/// Views a sequence of request messages.
pub open spec fn params_view(s: Seq<MessageParam>) -> Seq<MessageParamView> {
    s.map_values(|m: MessageParam| m@)
}

impl View for SystemParam {
    type V = SystemParamView;

    open spec fn view(&self) -> SystemParamView {
        match self {
            SystemParam::Text(t) => SystemParamView::Text(t@),
            SystemParam::Blocks(b) => SystemParamView::Blocks(strings_view(b@)),
        }
    }
}

/// Views an optional system parameter.
pub open spec fn opt_system_view(o: Option<SystemParam>) -> Option<SystemParamView> {
    match o {
        Some(s) => Some(s@),
        None => None,
    }
}

impl View for AnthropicToolChoice {
    type V = AnthropicToolChoiceView;

    open spec fn view(&self) -> AnthropicToolChoiceView {
        match self {
            AnthropicToolChoice::Disabled => AnthropicToolChoiceView::Disabled,
            AnthropicToolChoice::Auto => AnthropicToolChoiceView::Auto,
            AnthropicToolChoice::Any => AnthropicToolChoiceView::Any,
            AnthropicToolChoice::Tool { name } => AnthropicToolChoiceView::Tool { name: name@ },
        }
    }
}

impl View for AnthropicTool {
    type V = AnthropicToolView;

    open spec fn view(&self) -> AnthropicToolView {
        AnthropicToolView { name: self.name@, description: self.description@, input_schema: self.input_schema@ }
    }
}

impl View for CreateMessageRequest {
    type V = CreateMessageRequestView;

    open spec fn view(&self) -> CreateMessageRequestView {
        CreateMessageRequestView {
            model: self.model@,
            messages: params_view(self.messages@),
            max_tokens: self.max_tokens,
            system: opt_system_view(self.system),
            temperature: self.temperature,
            top_p: self.top_p,
            top_k: self.top_k,
            stop_sequences: match self.stop_sequences {
                Some(v) => Some(strings_view(v@)),
                None => None,
            },
            stream: self.stream,
            tool_choice: match self.tool_choice {
                Some(c) => Some(c@),
                None => None,
            },
            tools: match self.tools {
                Some(v) => Some(v@.map_values(|t: AnthropicTool| t@)),
                None => None,
            },
            effort: self.effort,
        }
    }
}

// ---------------------------------------------------------------------------
// Response direction
// ---------------------------------------------------------------------------

/// Why the model stopped; unrecognized values are `Unknown`.
#[derive(Clone, Copy, Debug, PartialEq, Eq, Structural)]
pub enum StopReason {
    EndTurn,
    MaxTokens,
    StopSequence,
    ToolUse,
    PauseTurn,
    Refusal,
    ModelContextWindowExceeded,
    Unknown,
}

/// One content block of a response message; a tool use's input is compact JSON text, and
/// unrecognized blocks are `Unknown`.
#[derive(Debug, PartialEq)]
pub enum ContentBlock {
    Text { text: String },
    Thinking { thinking: String, signature: String },
    RedactedThinking { data: String },
    ToolUse { id: String, name: String, input: String },
    Unknown,
}

/// Messages token usage.
#[derive(Clone, Copy, Debug, PartialEq, Eq, Structural)]
pub struct AnthropicUsage {
    pub input_tokens: u64,
    pub output_tokens: u64,
    pub cache_read_input_tokens: Option<u64>,
    pub cache_creation_input_tokens: Option<u64>,
    /// `output_tokens_details`, present when reported: its `thinking_tokens`.
    pub output_tokens_details: Option<Option<u64>>,
}

/// A Messages response body.
#[derive(Debug)]
pub struct AnthropicMessage {
    pub id: String,
    pub model: String,
    pub content: Vec<ContentBlock>,
    pub stop_reason: Option<StopReason>,
    pub usage: AnthropicUsage,
}

/// The delta of a `content_block_delta` event; other deltas (signatures) are `Other`.
#[derive(Debug, PartialEq)]
pub enum BlockDelta {
    TextDelta { text: String },
    ThinkingDelta { thinking: String },
    InputJsonDelta { partial_json: String },
    Other,
}

/// The usage carried by a `message_delta` event.
#[derive(Clone, Copy, Debug, PartialEq, Eq, Structural)]
pub struct DeltaUsage {
    pub output_tokens: u64,
    pub cache_read_input_tokens: Option<u64>,
    pub cache_creation_input_tokens: Option<u64>,
}

/// One Messages streaming event; events the library does not read are `Other`.
///
/// `MessageStart` carries the `usage.input_tokens` of the started message.
#[derive(Debug)]
pub enum AnthropicStreamEvent {
    MessageStart { input_tokens: u64 },
    ContentBlockStart { index: u64, content_block: ContentBlock },
    ContentBlockDelta { index: u64, delta: BlockDelta },
    MessageDelta { stop_reason: Option<StopReason>, usage: Option<DeltaUsage> },
    Other,
}

} // verus!
