//! OpenAI Responses wire shapes.
//!
//! The request side carries views, which the conversion contracts speak of; the response side
//! is read field by field by spec functions over the values themselves.
use vstd::prelude::*;

use crate::types::message::opt_str_view;
use crate::types::shared::{FloatBits, ReasoningEffort, ToolChoiceMode};

verus! {

// ---------------------------------------------------------------------------
// Request direction
// ---------------------------------------------------------------------------

/// One part of Responses input content.
#[derive(Debug, PartialEq)]
pub enum InputContentPart {
    InputText { text: String },
    InputImage { detail: Option<String>, image_url: Option<String>, file_id: Option<String> },
}

/// Responses message content: a plain string or input parts.
#[derive(Debug, PartialEq)]
pub enum InputContent {
    Text(String),
    Parts(Vec<InputContentPart>),
}

/// Role of a Responses input message.
#[derive(Clone, Copy, Debug, PartialEq, Eq, Structural)]
pub enum InputRole {
    User,
    Assistant,
}

/// A reasoning summary entry; entries of any other kind are `Other`.
#[derive(Debug, PartialEq)]
pub enum SummaryText {
    Summary { text: String },
    Other,
}

/// A `reasoning` item, carried both in output and (for round-trips) in input.
#[derive(Debug, PartialEq)]
pub struct ReasoningItem {
    pub id: String,
    pub summary: Vec<SummaryText>,
    pub encrypted_content: Option<String>,
}

/// One Responses input item.
#[derive(Debug, PartialEq)]
pub enum InputItem {
    Message { role: InputRole, content: InputContent },
    FunctionCall { call_id: String, name: String, arguments: String },
    FunctionCallOutput { call_id: String, output: String },
    Reasoning(ReasoningItem),
}

/// A function tool offered to the model.
#[derive(Debug, PartialEq)]
pub struct ResponseTool {
    pub name: String,
    pub description: Option<String>,
    pub parameters: Option<String>,
    pub strict: Option<bool>,
}

/// Responses tool choice: a mode, or a named function.
#[derive(Debug, PartialEq)]
pub enum ResponseToolChoice {
    Mode(ToolChoiceMode),
    Function { name: String },
}

/// The `text.format` of a Responses request.
#[derive(Clone, Copy, Debug, PartialEq, Eq, Structural)]
pub enum TextFormat {
    Text,
    JsonObject,
}

/// Extra output a Responses request asks for.
#[derive(Clone, Copy, Debug, PartialEq, Eq, Structural)]
pub enum ResponseIncludable {
    ReasoningEncryptedContent,
}

/// A Responses request body.
///
/// `text_format` is `text.format`; `reasoning_effort` is `reasoning.effort`; `extra_output`
/// lists the extra output asked for.
#[derive(Debug)]
pub struct CreateResponseRequest {
    pub model: String,
    pub input: Vec<InputItem>,
    pub instructions: Option<String>,
    pub tools: Option<Vec<ResponseTool>>,
    pub tool_choice: Option<ResponseToolChoice>,
    pub previous_response_id: Option<String>,
    pub store: Option<bool>,
    pub stream: Option<bool>,
    pub temperature: Option<FloatBits>,
    pub top_p: Option<FloatBits>,
    pub top_logprobs: Option<u8>,
    pub max_output_tokens: Option<u32>,
    pub text_format: Option<TextFormat>,
    pub reasoning_effort: Option<ReasoningEffort>,
    pub extra_output: Option<Vec<ResponseIncludable>>,
}

pub enum InputContentPartView {
    InputText { text: Seq<char> },
    InputImage {
        detail: Option<Seq<char>>,
        image_url: Option<Seq<char>>,
        file_id: Option<Seq<char>>,
    },
}

pub enum InputContentView {
    Text(Seq<char>),
    Parts(Seq<InputContentPartView>),
}

pub enum SummaryTextView {
    Summary { text: Seq<char> },
    Other,
}

pub struct ReasoningItemView {
    pub id: Seq<char>,
    pub summary: Seq<SummaryTextView>,
    pub encrypted_content: Option<Seq<char>>,
}

pub enum InputItemView {
    Message { role: InputRole, content: InputContentView },
    FunctionCall { call_id: Seq<char>, name: Seq<char>, arguments: Seq<char> },
    FunctionCallOutput { call_id: Seq<char>, output: Seq<char> },
    Reasoning(ReasoningItemView),
}

pub struct ResponseToolView {
    pub name: Seq<char>,
    pub description: Option<Seq<char>>,
    pub parameters: Option<Seq<char>>,
    pub strict: Option<bool>,
}

pub enum ResponseToolChoiceView {
    Mode(ToolChoiceMode),
    Function { name: Seq<char> },
}

pub struct CreateResponseRequestView {
    pub model: Seq<char>,
    pub input: Seq<InputItemView>,
    pub instructions: Option<Seq<char>>,
    pub tools: Option<Seq<ResponseToolView>>,
    pub tool_choice: Option<ResponseToolChoiceView>,
    pub previous_response_id: Option<Seq<char>>,
    pub store: Option<bool>,
    pub stream: Option<bool>,
    pub temperature: Option<FloatBits>,
    pub top_p: Option<FloatBits>,
    pub top_logprobs: Option<u8>,
    pub max_output_tokens: Option<u32>,
    pub text_format: Option<TextFormat>,
    pub reasoning_effort: Option<ReasoningEffort>,
    pub extra_output: Option<Seq<ResponseIncludable>>,
}

impl View for InputContentPart {
    type V = InputContentPartView;

    open spec fn view(&self) -> InputContentPartView {
        match self {
            InputContentPart::InputText { text } => InputContentPartView::InputText { text: text@ },
            InputContentPart::InputImage { detail, image_url, file_id } => InputContentPartView::InputImage {
                detail: opt_str_view(*detail),
                image_url: opt_str_view(*image_url),
                file_id: opt_str_view(*file_id),
            },
        }
    }
}

/// Views a sequence of input parts.
pub open spec fn input_parts_view(s: Seq<InputContentPart>) -> Seq<InputContentPartView> {
    s.map_values(|p: InputContentPart| p@)
}

impl View for InputContent {
    type V = InputContentView;

    open spec fn view(&self) -> InputContentView {
        match self {
            InputContent::Text(t) => InputContentView::Text(t@),
            InputContent::Parts(p) => InputContentView::Parts(input_parts_view(p@)),
        }
    }
}

impl View for SummaryText {
    type V = SummaryTextView;

    open spec fn view(&self) -> SummaryTextView {
        match self {
            SummaryText::Summary { text } => SummaryTextView::Summary { text: text@ },
            SummaryText::Other => SummaryTextView::Other,
        }
    }
}

/// Views a sequence of summary entries.
pub open spec fn summary_view(s: Seq<SummaryText>) -> Seq<SummaryTextView> {
    s.map_values(|t: SummaryText| t@)
}

impl View for ReasoningItem {
    type V = ReasoningItemView;

    open spec fn view(&self) -> ReasoningItemView {
        ReasoningItemView {
            id: self.id@,
            summary: summary_view(self.summary@),
            encrypted_content: opt_str_view(self.encrypted_content),
        }
    }
}

impl View for InputItem {
    type V = InputItemView;

    open spec fn view(&self) -> InputItemView {
        match self {
            InputItem::Message { role, content } => InputItemView::Message { role: *role, content: content@ },
            InputItem::FunctionCall { call_id, name, arguments } => InputItemView::FunctionCall {
                call_id: call_id@,
                name: name@,
                arguments: arguments@,
            },
            InputItem::FunctionCallOutput { call_id, output } => InputItemView::FunctionCallOutput {
                call_id: call_id@,
                output: output@,
            },
            InputItem::Reasoning(item) => InputItemView::Reasoning(item@),
        }
    }
}

/// Views a sequence of input items.
pub open spec fn input_items_view(s: Seq<InputItem>) -> Seq<InputItemView> {
    s.map_values(|i: InputItem| i@)
}

impl View for ResponseTool {
    type V = ResponseToolView;

    open spec fn view(&self) -> ResponseToolView {
        ResponseToolView {
            name: self.name@,
            description: opt_str_view(self.description),
            parameters: opt_str_view(self.parameters),
            strict: self.strict,
        }
    }
}

/// Views an optional tool list.
pub open spec fn opt_response_tools_view(o: Option<Vec<ResponseTool>>) -> Option<Seq<ResponseToolView>> {
    match o {
        Some(v) => Some(v@.map_values(|t: ResponseTool| t@)),
        None => None,
    }
}

impl View for ResponseToolChoice {
    type V = ResponseToolChoiceView;

    open spec fn view(&self) -> ResponseToolChoiceView {
        match self {
            ResponseToolChoice::Mode(m) => ResponseToolChoiceView::Mode(*m),
            ResponseToolChoice::Function { name } => ResponseToolChoiceView::Function { name: name@ },
        }
    }
}

/// Views an optional tool choice.
pub open spec fn opt_response_choice_view(o: Option<ResponseToolChoice>) -> Option<ResponseToolChoiceView> {
    match o {
        Some(c) => Some(c@),
        None => None,
    }
}

impl View for CreateResponseRequest {
    type V = CreateResponseRequestView;

    open spec fn view(&self) -> CreateResponseRequestView {
        CreateResponseRequestView {
            model: self.model@,
            input: input_items_view(self.input@),
            instructions: opt_str_view(self.instructions),
            tools: opt_response_tools_view(self.tools),
            tool_choice: opt_response_choice_view(self.tool_choice),
            previous_response_id: opt_str_view(self.previous_response_id),
            store: self.store,
            stream: self.stream,
            temperature: self.temperature,
            top_p: self.top_p,
            top_logprobs: self.top_logprobs,
            max_output_tokens: self.max_output_tokens,
            text_format: self.text_format,
            reasoning_effort: self.reasoning_effort,
            extra_output: match self.extra_output {
                Some(v) => Some(v@),
                None => None,
            },
        }
    }
}

// ---------------------------------------------------------------------------
// Response direction
// ---------------------------------------------------------------------------

/// Lifecycle status of a response; statuses the library does not distinguish are `Other`.
#[derive(Clone, Copy, Debug, PartialEq, Eq, Structural)]
pub enum ResponseStatus {
    Completed,
    Incomplete,
    Failed,
    Other,
}

/// Why a response is incomplete; other reasons are `Other`.
#[derive(Clone, Copy, Debug, PartialEq, Eq, Structural)]
pub enum IncompleteReason {
    MaxOutputTokens,
    ContentFilter,
    Other,
}

/// One part of an output message; parts other than output text are `Other`.
#[derive(Debug, PartialEq)]
pub enum OutputContentPart {
    OutputText { text: String },
    Other,
}

/// One output item of a response; items the library does not read are `Other`.
#[derive(Debug, PartialEq)]
pub enum OutputItem {
    Message { content: Vec<OutputContentPart> },
    FunctionCall { call_id: String, name: String, arguments: String },
    Reasoning(ReasoningItem),
    Other,
}

/// Responses token usage, with the nested detail counters flattened.
#[derive(Clone, Copy, Debug, PartialEq, Eq, Structural)]
pub struct ResponseUsage {
    pub input_tokens: u64,
    pub output_tokens: u64,
    pub total_tokens: u64,
    /// `input_tokens_details.cached_tokens`.
    pub cached_tokens: u64,
    /// `input_tokens_details.cache_write_tokens`.
    pub cache_write_tokens: u64,
    /// `output_tokens_details.reasoning_tokens`.
    pub reasoning_tokens: u64,
}

/// A Responses response body.
///
/// `incomplete_reason` is `incomplete_details.reason`.
#[derive(Debug)]
pub struct Response {
    pub id: String,
    pub model: String,
    pub status: ResponseStatus,
    pub incomplete_reason: Option<IncompleteReason>,
    pub output: Vec<OutputItem>,
    pub usage: Option<ResponseUsage>,
}

/// One Responses streaming event; events the library does not read are `Other`.
#[derive(Debug)]
pub enum ResponsesStreamEvent {
    OutputTextDelta { delta: String },
    ReasoningTextDelta { delta: String },
    ReasoningSummaryTextDelta { delta: String },
    OutputItemAdded { output_index: u32, item: OutputItem },
    FunctionCallArgumentsDelta { output_index: u32, delta: String },
    Completed { response: Response },
    Incomplete { response: Response },
    Failed { response: Response },
    Other,
}

} // verus!
