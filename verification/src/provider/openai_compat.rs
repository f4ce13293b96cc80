//! OpenAI-compatible chat-completions <-> normalized conversions.
//!
//! Request-side conversions are fallible: `top_k` and stateful continuation fields have no
//! chat-completions representation and surface as invalid-request errors, as do file-id image
//! sources, which the chat wire cannot carry. Multimodal parts are passed through.
use vstd::prelude::*;

use crate::error::BackendError;
use crate::types::message::{
    calls_view, messages_view, opt_str_view, AssistantMessage, AssistantMessageView, ContentPart,
    ContentPartView, ImageDetail, ImageDetailView, ImageSource, ImageSourceView, Message,
    MessageContent, MessageContentView, MessageView, Reasoning, ReasoningView, ToolCall,
    ToolCallView,
};
use crate::types::request::{GenerationRequest, GenerationRequestView};
use crate::types::response::{GenerationResponse, GenerationResponseView};
use crate::types::shared::{
    clone_tools, CompletionTokensDetails, FinishReason, ReasoningEffort, ToolChoice, Usage,
};
use crate::types::stream::{GenerationEvent, GenerationEventView, ToolCallDeltaView};
use crate::wire::chat::{
    chat_calls_view, chat_messages_view, chat_parts_view, ChatAssistantMessage, ChatChoice,
    ChatCompletion, ChatCompletionChunk, ChatCompletionRequest, ChatCompletionRequestView,
    ChatContent, ChatContentPart, ChatContentPartView, ChatContentView, ChatFinishReason,
    ChatMessage, ChatMessageView, ChatRole, ChatToolCall, ChatToolCallView, ChatToolType,
    ChatUsage, ChatAssistantMessageView, ChatChoiceView, ChatCompletionView, ChatCompletionChunkView,
    ChunkChoiceView, ChunkToolCallView, ChunkToolCall, ChunkChoice,
};

verus! {

// ---------------------------------------------------------------------------
// Request direction
// ---------------------------------------------------------------------------

/// The wire text of an image detail hint; unknown values pass through verbatim.
pub open spec fn detail_text(d: Option<ImageDetailView>) -> Option<Seq<char>> {
    match d {
        None => None,
        Some(ImageDetailView::Auto) => Some("auto"@),
        Some(ImageDetailView::Low) => Some("low"@),
        Some(ImageDetailView::High) => Some("high"@),
        Some(ImageDetailView::Original) => Some("original"@),
        Some(ImageDetailView::Unknown(v)) => Some(v),
    }
}

/// Maps a detail hint to the wire's free-string detail field; unknown values pass through.
pub fn detail_to_wire(detail: &Option<ImageDetail>) -> (r: Option<String>)
    ensures
        opt_str_view(r) == detail_text(crate::types::message::opt_detail_view(*detail)),
{
    match detail {
        None => None,
        Some(ImageDetail::Auto) => Some(String::from_str("auto")),
        Some(ImageDetail::Low) => Some(String::from_str("low")),
        Some(ImageDetail::High) => Some(String::from_str("high")),
        Some(ImageDetail::Original) => Some(String::from_str("original")),
        Some(ImageDetail::Unknown(value)) => Some(value.clone()),
    }
}

/// The wire text of a reasoning effort.
pub open spec fn effort_text(e: ReasoningEffort) -> Seq<char> {
    match e {
        ReasoningEffort::Low => "low"@,
        ReasoningEffort::Medium => "medium"@,
        ReasoningEffort::High => "high"@,
        ReasoningEffort::Xhigh => "xhigh"@,
        ReasoningEffort::Max => "max"@,
    }
}

/// The wire text of a reasoning effort.
pub fn reasoning_effort_string(effort: &ReasoningEffort) -> (r: &'static str)
    ensures
        r@ == effort_text(*effort),
{
    match effort {
        ReasoningEffort::Low => "low",
        ReasoningEffort::Medium => "medium",
        ReasoningEffort::High => "high",
        ReasoningEffort::Xhigh => "xhigh",
        ReasoningEffort::Max => "max",
    }
}

/// The `data:` URI carrying base64 image data.
pub open spec fn data_uri(media_type: Seq<char>, data: Seq<char>) -> Seq<char> {
    "data:"@ + media_type + ";base64,"@ + data
}

/// Builds the `data:` URI carrying base64 image data.
pub fn build_data_uri(media_type: &String, data: &String) -> (r: String)
    ensures
        r@ == data_uri(media_type@, data@),
{
    let mut uri = String::from_str("data:");
    uri.append(media_type.as_str());
    uri.append(";base64,");
    uri.append(data.as_str());
    uri
}

/// The chat wire part for a content part; `None` for a file-id image, which chat completions
/// cannot represent.
pub open spec fn chat_part(p: ContentPartView) -> Option<ChatContentPartView> {
    match p {
        ContentPartView::Text { text } => Some(ChatContentPartView::Text { text }),
        ContentPartView::Image { source, detail } => match source {
            ImageSourceView::Url { url } => Some(
                ChatContentPartView::ImageUrl { url, detail: detail_text(detail) },
            ),
            ImageSourceView::Base64 { data, media_type } => Some(
                ChatContentPartView::ImageUrl {
                    url: data_uri(media_type, data),
                    detail: detail_text(detail),
                },
            ),
            ImageSourceView::FileId { .. } => None,
        },
    }
}

/// The chat wire content for message content; `None` when a part cannot be represented.
pub open spec fn chat_content(c: MessageContentView) -> Option<ChatContentView> {
    match c {
        MessageContentView::Text(t) => Some(ChatContentView::Text(t)),
        MessageContentView::Parts(parts) => if forall|i: int|
            0 <= i < parts.len() ==> #[trigger] chat_part(parts[i]) is Some {
            Some(ChatContentView::Parts(Seq::new(parts.len(), |i: int| chat_part(parts[i])->0)))
        } else {
            None
        },
    }
}

/// Converts semantic content into chat wire content; base64 images become data URIs and
/// file-id images are refused as an invalid request, before any I/O.
pub fn content_to_wire(content: &MessageContent) -> (r: Result<ChatContent, BackendError>)
    ensures
        r matches Ok(w) ==> chat_content(content@) == Some(w@),
        r is Err ==> chat_content(content@) is None,
        r matches Err(e) ==> e matches BackendError::InvalidRequest(m)
            && m@ == "file-id image sources have no chat-completions representation"@,
{
    match content {
        MessageContent::Text(text) => Ok(ChatContent::Text(text.clone())),
        MessageContent::Parts(parts) => {
            let ghost pv = crate::types::message::parts_view(parts@);
            let mut wire_parts: Vec<ChatContentPart> = Vec::new();
            let mut i: usize = 0;
            while i < parts.len()
                invariant
                    i <= parts.len(),
                    pv == crate::types::message::parts_view(parts@),
                    content@ == MessageContentView::Parts(pv),
                    wire_parts@.len() == i,
                    forall|j: int| 0 <= j < i ==> chat_part(#[trigger] pv[j]) == Some(wire_parts@[j]@),
                decreases parts.len() - i,
            {
                proof {
                    assert(pv[i as int] == parts@[i as int]@);
                }
                match &parts[i] {
                    ContentPart::Text { text } => {
                        wire_parts.push(ChatContentPart::Text { text: text.clone() });
                    },
                    ContentPart::Image { source, detail } => {
                        let url = match source {
                            ImageSource::Url { url } => url.clone(),
                            ImageSource::Base64 { data, media_type } => build_data_uri(media_type, data),
                            ImageSource::FileId { .. } => {
                                assert(chat_part(pv[i as int]) is None);
                                return Err(
                                    BackendError::invalid_request(
                                        "file-id image sources have no chat-completions representation",
                                    ),
                                );
                            },
                        };
                        wire_parts.push(ChatContentPart::ImageUrl { url, detail: detail_to_wire(detail) });
                    },
                }
                i = i + 1;
            }
            proof {
                assert(chat_parts_view(wire_parts@) =~= Seq::new(pv.len(), |j: int| chat_part(pv[j])->0));
            }
            Ok(ChatContent::Parts(wire_parts))
        },
    }
}

/// The chat wire tool call for a tool call.
pub open spec fn chat_call(c: ToolCallView) -> ChatToolCallView {
    ChatToolCallView { id: c.id, kind: ChatToolType::Function, name: c.name, arguments: c.arguments }
}

/// The chat wire message for a message; `None` when its content cannot be represented.
pub open spec fn chat_message(m: MessageView) -> Option<ChatMessageView> {
    match m {
        MessageView::System { content } => match chat_content(content) {
            Some(c) => Some(ChatMessageView::Message { role: "system"@, content: c, reasoning_content: None }),
            None => None,
        },
        MessageView::User { content } => match chat_content(content) {
            Some(c) => Some(ChatMessageView::Message { role: "user"@, content: c, reasoning_content: None }),
            None => None,
        },
        MessageView::Assistant(a) => {
            let reasoning_content = match a.reasoning {
                Some(r) => r.text,
                None => None,
            };
            if a.tool_calls.len() == 0 {
                Some(
                    ChatMessageView::Message {
                        role: "assistant"@,
                        content: ChatContentView::Text(
                            match a.content {
                                Some(t) => t,
                                None => Seq::empty(),
                            },
                        ),
                        reasoning_content,
                    },
                )
            } else {
                Some(
                    ChatMessageView::ToolCalls {
                        content: a.content,
                        tool_calls: a.tool_calls.map_values(|c: ToolCallView| chat_call(c)),
                        reasoning_content,
                    },
                )
            }
        },
        MessageView::Tool { tool_call_id, content } => Some(ChatMessageView::ToolResult { content, tool_call_id }),
    }
}

/// Converts one tool call to its chat wire shape.
pub fn chat_tool_call_from(call: &ToolCall) -> (r: ChatToolCall)
    ensures
        r@ == chat_call(call@),
{
    ChatToolCall {
        id: call.id.clone(),
        kind: ChatToolType::Function,
        name: call.name.clone(),
        arguments: call.arguments.clone(),
    }
}

impl ChatMessage {
    /// Converts one semantic message into a chat wire message.
    pub fn try_from_message(message: &Message) -> (r: Result<ChatMessage, BackendError>)
        ensures
            r matches Ok(w) ==> chat_message(message@) == Some(w@),
            r is Err ==> chat_message(message@) is None,
            r matches Err(e) ==> e matches BackendError::InvalidRequest(m)
                && m@ == "file-id image sources have no chat-completions representation"@,
    {
        match message {
            Message::System { content } => {
                let c = content_to_wire(content)?;
                Ok(ChatMessage::Message { role: String::from_str("system"), content: c, reasoning_content: None })
            },
            Message::User { content } => {
                let c = content_to_wire(content)?;
                Ok(ChatMessage::Message { role: String::from_str("user"), content: c, reasoning_content: None })
            },
            Message::Assistant(a) => {
                let reasoning_content = match &a.reasoning {
                    Some(r) => crate::types::message::clone_opt_str(&r.text),
                    None => None,
                };
                if a.tool_calls.len() == 0 {
                    let text = match &a.content {
                        Some(t) => t.clone(),
                        None => String::new(),
                    };
                    Ok(
                        ChatMessage::Message {
                            role: String::from_str("assistant"),
                            content: ChatContent::Text(text),
                            reasoning_content,
                        },
                    )
                } else {
                    let ghost cv = calls_view(a.tool_calls@);
                    let mut calls: Vec<ChatToolCall> = Vec::new();
                    let mut i: usize = 0;
                    while i < a.tool_calls.len()
                        invariant
                            i <= a.tool_calls.len(),
                            cv == calls_view(a.tool_calls@),
                            calls@.len() == i,
                            forall|j: int| 0 <= j < i ==> #[trigger] calls@[j]@ == chat_call(cv[j]),
                        decreases a.tool_calls.len() - i,
                    {
                        calls.push(chat_tool_call_from(&a.tool_calls[i]));
                        i = i + 1;
                    }
                    proof {
                        assert(chat_calls_view(calls@) =~= cv.map_values(|c: ToolCallView| chat_call(c)));
                    }
                    Ok(
                        ChatMessage::ToolCalls {
                            content: crate::types::message::clone_opt_str(&a.content),
                            tool_calls: calls,
                            reasoning_content,
                        },
                    )
                }
            },
            Message::Tool { content, tool_call_id } => Ok(
                ChatMessage::ToolResult { content: content.clone(), tool_call_id: tool_call_id.clone() },
            ),
        }
    }
}

/// The chat wire messages for a message list; `None` when any message cannot be represented.
pub open spec fn chat_messages(s: Seq<MessageView>) -> Option<Seq<ChatMessageView>> {
    if forall|i: int| 0 <= i < s.len() ==> #[trigger] chat_message(s[i]) is Some {
        Some(Seq::new(s.len(), |i: int| chat_message(s[i])->0))
    } else {
        None
    }
}

/// Converts a message list into chat wire messages.
pub fn chat_messages_from(messages: &Vec<Message>) -> (r: Result<Vec<ChatMessage>, BackendError>)
    ensures
        r matches Ok(w) ==> chat_messages(messages_view(messages@)) == Some(chat_messages_view(w@)),
        r is Err ==> chat_messages(messages_view(messages@)) is None,
        r matches Err(e) ==> e matches BackendError::InvalidRequest(m)
            && m@ == "file-id image sources have no chat-completions representation"@,
{
    let ghost mv = messages_view(messages@);
    let mut out: Vec<ChatMessage> = Vec::new();
    let mut i: usize = 0;
    while i < messages.len()
        invariant
            i <= messages.len(),
            mv == messages_view(messages@),
            out@.len() == i,
            forall|j: int| 0 <= j < i ==> chat_message(#[trigger] mv[j]) == Some(out@[j]@),
        decreases messages.len() - i,
    {
        proof {
            assert(mv[i as int] == messages@[i as int]@);
        }
        let m = ChatMessage::try_from_message(&messages[i])?;
        out.push(m);
        i = i + 1;
    }
    proof {
        assert(chat_messages_view(out@) =~= Seq::new(mv.len(), |j: int| chat_message(mv[j])->0));
    }
    Ok(out)
}

/// Why a request cannot be sent to a chat-completions provider.
pub enum ChatRequestFailure {
    /// The request sets a field chat completions do not support.
    Invalid,
    /// A message cannot be represented on the chat wire.
    Unrepresentable,
}

/// The chat-completions request body for a normalized request.
pub open spec fn chat_request(r: GenerationRequestView) -> Result<ChatCompletionRequestView, ChatRequestFailure> {
    if r.top_k is Some {
        Err(ChatRequestFailure::Invalid)
    } else if r.previous_response_id is Some || r.store is Some {
        Err(ChatRequestFailure::Invalid)
    } else {
        match chat_messages(r.messages) {
            None => Err(ChatRequestFailure::Unrepresentable),
            Some(messages) => Ok(
                ChatCompletionRequestView {
                    model: r.model,
                    messages,
                    frequency_penalty: r.frequency_penalty,
                    max_tokens: r.max_tokens,
                    presence_penalty: r.presence_penalty,
                    response_format: r.response_format,
                    stop: r.stop,
                    stream: r.stream,
                    include_usage: Some(true),
                    temperature: r.temperature,
                    top_p: r.top_p,
                    tools: r.tools,
                    tool_choice: r.tool_choice,
                    logprobs: r.logprobs,
                    top_logprobs: r.top_logprobs,
                    reasoning_effort: match r.reasoning_effort {
                        Some(e) => Some(effort_text(e)),
                        None => None,
                    },
                },
            ),
        }
    }
}

impl ChatCompletionRequest {
    /// Converts a normalized request into a chat-completions request body.
    ///
    /// Streaming usage is always requested (`stream_options.include_usage`) so the normalized
    /// usage event can fire.
    pub fn try_from_request(request: &GenerationRequest) -> (r: Result<ChatCompletionRequest, BackendError>)
        ensures
            r matches Ok(w) ==> chat_request(request@) == Ok::<ChatCompletionRequestView, ChatRequestFailure>(w@),
            r matches Err(e) ==> match chat_request(request@) {
                Err(ChatRequestFailure::Invalid) => e is InvalidRequest,
                Err(ChatRequestFailure::Unrepresentable) => e matches BackendError::InvalidRequest(m)
                    && m@ == "file-id image sources have no chat-completions representation"@,
                Ok(_) => false,
            },
    {
        if request.top_k.is_some() {
            return Err(BackendError::invalid_request("OpenAI-compatible providers do not support top_k"));
        }
        if request.previous_response_id.is_some() || request.store.is_some() {
            return Err(
                BackendError::invalid_request(
                    "OpenAI-compatible providers do not support stateful conversation (previous_response_id/store)",
                ),
            );
        }
        let messages = chat_messages_from(&request.messages)?;
        let stop = match &request.stop {
            Some(s) => Some(s.clone()),
            None => None,
        };
        let tools = match &request.tools {
            Some(t) => Some(clone_tools(t)),
            None => None,
        };
        let tool_choice = match &request.tool_choice {
            Some(c) => Some(c.clone()),
            None => None,
        };
        let reasoning_effort = match &request.reasoning_effort {
            Some(e) => Some(String::from_str(reasoning_effort_string(e))),
            None => None,
        };
        Ok(
            ChatCompletionRequest {
                model: request.model.clone(),
                messages,
                frequency_penalty: request.frequency_penalty,
                max_tokens: request.max_tokens,
                presence_penalty: request.presence_penalty,
                response_format: request.response_format,
                stop,
                stream: request.stream,
                include_usage: Some(true),
                temperature: request.temperature,
                top_p: request.top_p,
                tools,
                tool_choice,
                logprobs: request.logprobs,
                top_logprobs: request.top_logprobs,
                reasoning_effort,
            },
        )
    }
}

// ---------------------------------------------------------------------------
// Response direction
// ---------------------------------------------------------------------------

/// The normalized finish reason for a chat finish reason; an unknown reason reads as a stop.
pub open spec fn chat_finish(f: ChatFinishReason) -> FinishReason {
    match f {
        ChatFinishReason::Stop => FinishReason::Stop,
        ChatFinishReason::Length => FinishReason::Length,
        ChatFinishReason::ContentFilter => FinishReason::ContentFilter,
        ChatFinishReason::ToolCalls => FinishReason::ToolCalls,
        ChatFinishReason::Unknown => FinishReason::Stop,
    }
}

/// Maps a chat finish reason to the normalized one; an unknown reason normalizes to `Stop`.
pub fn finish_reason_from_chat(reason: ChatFinishReason) -> (r: FinishReason)
    ensures
        r == chat_finish(reason),
{
    match reason {
        ChatFinishReason::Stop => FinishReason::Stop,
        ChatFinishReason::Length => FinishReason::Length,
        ChatFinishReason::ContentFilter => FinishReason::ContentFilter,
        ChatFinishReason::ToolCalls => FinishReason::ToolCalls,
        ChatFinishReason::Unknown => FinishReason::Stop,
    }
}

/// The normalized usage for chat usage: cached prompt tokens read as cache reads; chat
/// completions report no cache writes.
pub open spec fn chat_usage(u: ChatUsage) -> Usage {
    Usage {
        completion_tokens: u.completion_tokens,
        prompt_tokens: u.prompt_tokens,
        cache_read_tokens: match u.prompt_tokens_details {
            Some(cached) => cached,
            None => None,
        },
        cache_write_tokens: None,
        total_tokens: u.total_tokens,
        completion_tokens_details: match u.completion_tokens_details {
            Some(reasoning_tokens) => Some(CompletionTokensDetails { reasoning_tokens }),
            None => None,
        },
    }
}

/// Maps chat usage to normalized usage.
pub fn usage_from_chat(usage: ChatUsage) -> (r: Usage)
    ensures
        r == chat_usage(usage),
{
    Usage {
        completion_tokens: usage.completion_tokens,
        prompt_tokens: usage.prompt_tokens,
        cache_read_tokens: match usage.prompt_tokens_details {
            Some(cached) => cached,
            None => None,
        },
        cache_write_tokens: None,
        total_tokens: usage.total_tokens,
        completion_tokens_details: match usage.completion_tokens_details {
            Some(reasoning_tokens) => Some(CompletionTokensDetails { reasoning_tokens }),
            None => None,
        },
    }
}

/// The normalized tool call for a chat tool call (the tool type tag is not carried).
pub open spec fn call_from_chat(c: ChatToolCallView) -> ToolCallView {
    ToolCallView { id: c.id, name: c.name, arguments: c.arguments }
}

/// Maps a chat tool call to a normalized tool call, regardless of its tool type.
pub fn tool_call_from_chat(call: &ChatToolCall) -> (r: ToolCall)
    ensures
        r@ == call_from_chat(call@),
{
    ToolCall { id: call.id.clone(), name: call.name.clone(), arguments: call.arguments.clone() }
}

/// The normalized assistant message for a chat response message.
///
/// An unknown role is a protocol anomaly: its content is not attributed to the assistant. An
/// empty content string reads as no content.
pub open spec fn chat_assistant(m: ChatAssistantMessageView) -> AssistantMessageView {
    match m.role {
        ChatRole::Assistant => AssistantMessageView {
            content: match m.content {
                Some(c) => if c.len() == 0 { None } else { Some(c) },
                None => None,
            },
            tool_calls: match m.tool_calls {
                Some(calls) => calls.map_values(|c: ChatToolCallView| call_from_chat(c)),
                None => Seq::empty(),
            },
            reasoning: match m.reasoning_content {
                Some(t) => Some(
                    ReasoningView { text: Some(t), id: None, encrypted: None, signature: None, redacted: None },
                ),
                None => None,
            },
        },
        ChatRole::Unknown => AssistantMessageView { content: None, tool_calls: Seq::empty(), reasoning: None },
    }
}

/// Maps a chat response message to a normalized assistant message.
pub fn assistant_from_chat(message: &ChatAssistantMessage) -> (r: AssistantMessage)
    ensures
        r@ == chat_assistant(message@),
{
    match message.role {
        ChatRole::Assistant => {
            let content = match &message.content {
                Some(c) => if c.as_str().is_empty() {
                    None
                } else {
                    Some(c.clone())
                },
                None => None,
            };
            let mut calls: Vec<ToolCall> = Vec::new();
            match &message.tool_calls {
                Some(v) => {
                    let ghost cv = chat_calls_view(v@);
                    let mut i: usize = 0;
                    while i < v.len()
                        invariant
                            i <= v.len(),
                            cv == chat_calls_view(v@),
                            calls@.len() == i,
                            forall|j: int| 0 <= j < i ==> #[trigger] calls@[j]@ == call_from_chat(cv[j]),
                        decreases v.len() - i,
                    {
                        calls.push(tool_call_from_chat(&v[i]));
                        i = i + 1;
                    }
                    proof {
                        assert(calls_view(calls@) =~= cv.map_values(|c: ChatToolCallView| call_from_chat(c)));
                    }
                },
                None => {
                    assert(calls_view(calls@) =~= Seq::<ToolCallView>::empty());
                },
            }
            let reasoning = match &message.reasoning_content {
                Some(t) => Some(
                    Reasoning { text: Some(t.clone()), id: None, encrypted: None, signature: None, redacted: None },
                ),
                None => None,
            };
            AssistantMessage { content, tool_calls: calls, reasoning }
        },
        ChatRole::Unknown => {
            let calls: Vec<ToolCall> = Vec::new();
            assert(calls_view(calls@) =~= Seq::<ToolCallView>::empty());
            AssistantMessage { content: None, tool_calls: calls, reasoning: None }
        },
    }
}

/// The normalized response for a chat completion: the first choice's message and finish
/// reason, or an empty message with no finish reason when there is no choice.
pub open spec fn chat_response(c: ChatCompletionView) -> GenerationResponseView {
    let usage = match c.usage {
        Some(u) => Some(chat_usage(u)),
        None => None,
    };
    if c.choices.len() > 0 {
        GenerationResponseView {
            id: c.id,
            model: c.model,
            message: chat_assistant(c.choices[0].message),
            finish_reason: match c.choices[0].finish_reason {
                Some(f) => Some(chat_finish(f)),
                None => None,
            },
            usage,
        }
    } else {
        GenerationResponseView {
            id: c.id,
            model: c.model,
            message: AssistantMessageView { content: None, tool_calls: Seq::empty(), reasoning: None },
            finish_reason: None,
            usage,
        }
    }
}

/// Maps a chat completion to a normalized response.
pub fn response_from_chat(response: &ChatCompletion) -> (r: GenerationResponse)
    ensures
        r@ == chat_response(response@),
{
    let usage = match response.usage {
        Some(u) => Some(usage_from_chat(u)),
        None => None,
    };
    if response.choices.len() > 0 {
        let choice = &response.choices[0];
        let finish_reason = match choice.finish_reason {
            Some(f) => Some(finish_reason_from_chat(f)),
            None => None,
        };
        GenerationResponse {
            id: response.id.clone(),
            model: response.model.clone(),
            message: assistant_from_chat(&choice.message),
            finish_reason,
            usage,
        }
    } else {
        let calls: Vec<ToolCall> = Vec::new();
        assert(calls_view(calls@) =~= Seq::<ToolCallView>::empty());
        GenerationResponse {
            id: response.id.clone(),
            model: response.model.clone(),
            message: AssistantMessage { content: None, tool_calls: calls, reasoning: None },
            finish_reason: None,
            usage,
        }
    }
}

// ---------------------------------------------------------------------------
// Streaming
// ---------------------------------------------------------------------------

/// The tool-call delta event for a streamed chat tool call.
pub open spec fn chunk_call_event(c: ChunkToolCallView) -> GenerationEventView {
    GenerationEventView::ToolCall {
        delta: ToolCallDeltaView { index: c.index, id: c.id, name: c.name, arguments: c.arguments },
    }
}

/// The events one streamed choice yields, in order: text, reasoning, tool-call deltas, end.
pub open spec fn choice_events(c: ChunkChoiceView) -> Seq<GenerationEventView> {
    let text = match c.content {
        Some(d) => seq![GenerationEventView::Text { delta: d }],
        None => Seq::empty(),
    };
    let reasoning = match c.reasoning_content {
        Some(d) => seq![GenerationEventView::Reasoning { delta: d }],
        None => Seq::empty(),
    };
    let calls = match c.tool_calls {
        Some(v) => v.map_values(|t: ChunkToolCallView| chunk_call_event(t)),
        None => Seq::empty(),
    };
    let end = match c.finish_reason {
        Some(f) => seq![GenerationEventView::End { finish_reason: Some(chat_finish(f)), response_id: None }],
        None => Seq::empty(),
    };
    text + reasoning + calls + end
}

/// The events of a sequence of streamed choices, choice by choice.
pub open spec fn choices_events(cs: Seq<ChunkChoiceView>) -> Seq<GenerationEventView>
    decreases cs.len(),
{
    if cs.len() == 0 {
        Seq::empty()
    } else {
        choices_events(cs.drop_last()) + choice_events(cs.last())
    }
}

/// The events a streamed chunk yields: each choice's events, then a usage event when the
/// chunk carries cumulative usage.
pub open spec fn chunk_events(c: ChatCompletionChunkView) -> Seq<GenerationEventView> {
    choices_events(c.choices) + match c.usage {
        Some(u) => seq![GenerationEventView::Usage { usage: chat_usage(u) }],
        None => Seq::empty(),
    }
}

/// Appends the events of one streamed choice.
fn push_choice_events(events: &mut Vec<GenerationEvent>, choice: &ChunkChoice)
    ensures
        crate::types::stream::events_view(final(events)@) == crate::types::stream::events_view(old(events)@)
            + choice_events(choice@),
{
    let ghost start = crate::types::stream::events_view(events@);
    match &choice.delta.content {
        Some(content) => {
            events.push(GenerationEvent::Text { delta: content.clone() });
        },
        None => {},
    }
    match &choice.delta.reasoning_content {
        Some(reasoning) => {
            events.push(GenerationEvent::Reasoning { delta: reasoning.clone() });
        },
        None => {},
    }
    let ghost mid = crate::types::stream::events_view(events@);
    proof {
        let text = match choice@.content {
            Some(d) => seq![GenerationEventView::Text { delta: d }],
            None => Seq::<GenerationEventView>::empty(),
        };
        let reasoning = match choice@.reasoning_content {
            Some(d) => seq![GenerationEventView::Reasoning { delta: d }],
            None => Seq::<GenerationEventView>::empty(),
        };
        assert(mid =~= start + text + reasoning);
    }
    match &choice.delta.tool_calls {
        Some(calls) => {
            let ghost cv = calls@.map_values(|c: ChunkToolCall| c@);
            let mut i: usize = 0;
            while i < calls.len()
                invariant
                    i <= calls.len(),
                    cv == calls@.map_values(|c: ChunkToolCall| c@),
                    crate::types::stream::events_view(events@) == mid + cv.subrange(0, i as int).map_values(
                        |t: ChunkToolCallView| chunk_call_event(t),
                    ),
                decreases calls.len() - i,
            {
                let call = &calls[i];
                let (name, arguments) = match &call.function {
                    Some(f) => (crate::types::message::clone_opt_str(&f.name), crate::types::message::clone_opt_str(&f.arguments)),
                    None => (None, None),
                };
                let ghost before = crate::types::stream::events_view(events@);
                events.push(
                    GenerationEvent::ToolCall {
                        delta: crate::types::stream::ToolCallDelta {
                            index: call.index,
                            id: crate::types::message::clone_opt_str(&call.id),
                            name,
                            arguments,
                        },
                    },
                );
                proof {
                    assert(cv[i as int] == call@);
                    assert(cv.subrange(0, i as int + 1).map_values(|t: ChunkToolCallView| chunk_call_event(t))
                        =~= cv.subrange(0, i as int).map_values(|t: ChunkToolCallView| chunk_call_event(t)).push(
                        chunk_call_event(cv[i as int]),
                    ));
                    assert(crate::types::stream::events_view(events@) =~= before.push(chunk_call_event(cv[i as int])));
                }
                i = i + 1;
            }
            proof {
                assert(cv.subrange(0, cv.len() as int) =~= cv);
            }
        },
        None => {
            assert(mid + Seq::<GenerationEventView>::empty() =~= mid);
        },
    }
    let ghost after_calls = crate::types::stream::events_view(events@);
    match choice.finish_reason {
        Some(f) => {
            events.push(GenerationEvent::End { finish_reason: Some(finish_reason_from_chat(f)), response_id: None });
        },
        None => {},
    }
    proof {
        let end = match choice@.finish_reason {
            Some(f) => seq![GenerationEventView::End { finish_reason: Some(chat_finish(f)), response_id: None }],
            None => Seq::<GenerationEventView>::empty(),
        };
        assert(crate::types::stream::events_view(events@) =~= after_calls + end);
        let text = match choice@.content {
            Some(d) => seq![GenerationEventView::Text { delta: d }],
            None => Seq::<GenerationEventView>::empty(),
        };
        let reasoning = match choice@.reasoning_content {
            Some(d) => seq![GenerationEventView::Reasoning { delta: d }],
            None => Seq::<GenerationEventView>::empty(),
        };
        let calls = match choice@.tool_calls {
            Some(v) => v.map_values(|t: ChunkToolCallView| chunk_call_event(t)),
            None => Seq::<GenerationEventView>::empty(),
        };
        assert(after_calls =~= mid + calls);
        assert(crate::types::stream::events_view(events@) =~= start + (text + reasoning + calls + end));
    }
}

/// Flattens a streamed chat chunk into normalized generation events: per choice a text delta,
/// a reasoning delta, tool-call deltas and an end event as present, then cumulative usage.
pub fn chunk_to_events(chunk: &ChatCompletionChunk) -> (r: Vec<GenerationEvent>)
    ensures
        crate::types::stream::events_view(r@) == chunk_events(chunk@),
{
    let ghost cs = chunk@.choices;
    let mut events: Vec<GenerationEvent> = Vec::new();
    let mut i: usize = 0;
    assert(crate::types::stream::events_view(events@) =~= Seq::<GenerationEventView>::empty());
    while i < chunk.choices.len()
        invariant
            i <= chunk.choices.len(),
            cs == chunk@.choices,
            cs.len() == chunk.choices@.len(),
            crate::types::stream::events_view(events@) == choices_events(cs.subrange(0, i as int)),
        decreases chunk.choices.len() - i,
    {
        push_choice_events(&mut events, &chunk.choices[i]);
        proof {
            assert(cs[i as int] == chunk.choices@[i as int]@);
            assert(cs.subrange(0, i as int + 1).drop_last() =~= cs.subrange(0, i as int));
        }
        i = i + 1;
    }
    proof {
        assert(cs.subrange(0, cs.len() as int) =~= cs);
    }
    let ghost before = crate::types::stream::events_view(events@);
    match chunk.usage {
        Some(u) => {
            events.push(GenerationEvent::Usage { usage: usage_from_chat(u) });
            assert(crate::types::stream::events_view(events@) =~= before + seq![
                GenerationEventView::Usage { usage: chat_usage(u) },
            ]);
        },
        None => {
            assert(before + Seq::<GenerationEventView>::empty() =~= before);
        },
    }
    events
}

} // verus!
