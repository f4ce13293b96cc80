//! OpenAI Responses <-> normalized conversions.
//!
//! The Responses API differs structurally from chat completions: system instructions live in a
//! top-level `instructions` field, tool results are `function_call_output` input items, and
//! reasoning round-trips through `reasoning` items carrying `id`/`encrypted_content`.
//! Request-side conversions are fallible: semantic fields Responses cannot express (`top_k`,
//! `stop`, penalties) surface as an explicit invalid-request error.
use vstd::prelude::*;

use crate::error::BackendError;
use crate::provider::openai_compat::{build_data_uri, data_uri, detail_text, detail_to_wire};
use crate::types::message::{
    calls_view, messages_view, opt_str_view, AssistantMessage, AssistantMessageView, ContentPart,
    ContentPartView, Reasoning,
    ImageSource, ImageSourceView, Message, MessageContent, MessageContentView, MessageView,
    ReasoningView, ToolCall, ToolCallView,
};
use crate::types::request::{
    lemma_leading_system_count, lemma_leading_system_prefix, leading_system_count,
    GenerationRequest, GenerationRequestView,
};
use crate::types::response::{GenerationResponse, GenerationResponseView};
use crate::types::stream::{events_view, GenerationEvent, GenerationEventView, ToolCallDelta, ToolCallDeltaView};
use crate::types::shared::{
    CompletionTokensDetails, FinishReason, ResponseFormat, ResponseFormatType, ToolChoice, ToolChoiceView,
    ToolDefinition, ToolDefinitionView, Usage,
};
use crate::wire::responses::{
    input_items_view, input_parts_view, CreateResponseRequest, CreateResponseRequestView,
    InputContent, InputContentPart, InputContentPartView, InputContentView, InputItem,
    InputItemView, InputRole, IncompleteReason, OutputContentPart, OutputItem, ReasoningItem,
    ReasoningItemView, Response, ResponseIncludable, ResponseStatus, ResponseTool,
    ResponseToolChoice, ResponseToolChoiceView, ResponseToolView, ResponseUsage, ResponsesStreamEvent, SummaryText,
    SummaryTextView, TextFormat,
};

verus! {

// ---------------------------------------------------------------------------
// Request direction
// ---------------------------------------------------------------------------

/// The texts of `s` joined with `sep` between consecutive entries.
pub open spec fn join_with(s: Seq<Seq<char>>, sep: Seq<char>) -> Seq<char>
    decreases s.len(),
{
    if s.len() == 0 {
        Seq::empty()
    } else if s.len() == 1 {
        s[0]
    } else {
        join_with(s.drop_last(), sep) + sep + s.last()
    }
}

/// The text of a plain-text system message; `None` for anything else.
pub open spec fn system_text(m: MessageView) -> Option<Seq<char>> {
    match m {
        MessageView::System { content: MessageContentView::Text(t) } => Some(t),
        _ => None,
    }
}

/// The instructions and remaining messages for a message list: the leading system block,
/// joined by blank lines, becomes the instructions. `None` when a leading system message
/// carries content parts.
pub open spec fn instructions_split(s: Seq<MessageView>) -> Option<(Option<Seq<char>>, Seq<MessageView>)> {
    let k = leading_system_count(s);
    if k == 0 {
        Some((None, s))
    } else if forall|i: int| 0 <= i < k ==> #[trigger] system_text(s[i]) is Some {
        Some((Some(join_with(Seq::new(k, |i: int| system_text(s[i])->0), "\n\n"@)), s.skip(k as int)))
    } else {
        None
    }
}

/// Extracts leading system messages into an `instructions` string (Responses carries the
/// system prompt as a top-level string), returning the remaining messages for `input`.
pub fn extract_instructions(messages: Vec<Message>) -> (r: Result<(Option<String>, Vec<Message>), BackendError>)
    ensures
        r matches Ok((i, rest)) ==> instructions_split(messages_view(messages@)) == Some(
            (opt_str_view(i), messages_view(rest@)),
        ),
        r is Err ==> instructions_split(messages_view(messages@)) is None,
        r matches Err(e) ==> e is InvalidRequest,
{
    let ghost mv = messages_view(messages@);
    let mut split: usize = 0;
    while split < messages.len() && messages[split].is_system()
        invariant
            split <= messages@.len(),
            mv == messages_view(messages@),
            forall|j: int| 0 <= j < split ==> #[trigger] mv[j] is System,
        decreases messages@.len() - split,
    {
        proof {
            assert(mv[split as int] == messages@[split as int]@);
        }
        split = split + 1;
    }
    proof {
        if split < mv.len() {
            assert(mv[split as int] == messages@[split as int]@);
        }
        lemma_leading_system_count(mv, split as int);
    }
    if split == 0 {
        return Ok((None, messages));
    }
    let ghost texts = Seq::new(split as nat, |i: int| system_text(mv[i])->0);
    let mut joined = String::new();
    let mut i: usize = 0;
    while i < split
        invariant
            0 < split <= messages@.len(),
            i <= split,
            mv == messages_view(messages@),
            split == leading_system_count(mv),
            texts == Seq::new(split as nat, |i: int| system_text(mv[i])->0),
            forall|j: int| 0 <= j < i ==> #[trigger] system_text(mv[j]) is Some,
            joined@ == join_with(texts.take(i as int), "\n\n"@),
        decreases split - i,
    {
        proof {
            assert(mv[i as int] == messages@[i as int]@);
        }
        match &messages[i] {
            Message::System { content: MessageContent::Text(text) } => {
                if i > 0 {
                    joined.append("\n\n");
                }
                joined.append(text.as_str());
                proof {
                    let t = texts.take(i as int + 1);
                    assert(t.drop_last() =~= texts.take(i as int));
                    assert(t.last() == text@);
                }
            },
            _ => {
                proof {
                    lemma_leading_system_prefix(mv);
                    assert(system_text(mv[i as int]) is None);
                }
                return Err(BackendError::invalid_request(
                    "Responses instructions require plain-text system content",
                ));
            },
        }
        i = i + 1;
    }
    let mut head = messages;
    let rest = head.split_off(split);
    proof {
        assert(texts.take(split as int) =~= texts);
        assert(messages_view(rest@) =~= mv.skip(split as int));
    }
    Ok((Some(joined), rest))
}

/// The Responses input part for a content part: URL and base64 images become an `image_url`
/// (base64 as a `data:` URI), file-id images a `file_id`; the detail hint passes through.
pub open spec fn input_part(p: ContentPartView) -> InputContentPartView {
    match p {
        ContentPartView::Text { text } => InputContentPartView::InputText { text },
        ContentPartView::Image { source, detail } => match source {
            ImageSourceView::Url { url } => InputContentPartView::InputImage {
                detail: detail_text(detail),
                image_url: Some(url),
                file_id: None,
            },
            ImageSourceView::Base64 { data, media_type } => InputContentPartView::InputImage {
                detail: detail_text(detail),
                image_url: Some(data_uri(media_type, data)),
                file_id: None,
            },
            ImageSourceView::FileId { file_id } => InputContentPartView::InputImage {
                detail: detail_text(detail),
                image_url: None,
                file_id: Some(file_id),
            },
        },
    }
}

/// The Responses input content for message content.
pub open spec fn input_content(c: MessageContentView) -> InputContentView {
    match c {
        MessageContentView::Text(t) => InputContentView::Text(t),
        MessageContentView::Parts(parts) => InputContentView::Parts(
            parts.map_values(|p: ContentPartView| input_part(p)),
        ),
    }
}

/// Converts one content part into its Responses input part.
fn input_part_from(part: &ContentPart) -> (r: InputContentPart)
    ensures
        r@ == input_part(part@),
{
    match part {
        ContentPart::Text { text } => InputContentPart::InputText { text: text.clone() },
        ContentPart::Image { source, detail } => {
            let detail = detail_to_wire(detail);
            match source {
                ImageSource::Url { url } => InputContentPart::InputImage {
                    detail,
                    image_url: Some(url.clone()),
                    file_id: None,
                },
                ImageSource::Base64 { data, media_type } => InputContentPart::InputImage {
                    detail,
                    image_url: Some(build_data_uri(media_type, data)),
                    file_id: None,
                },
                ImageSource::FileId { file_id } => InputContentPart::InputImage {
                    detail,
                    image_url: None,
                    file_id: Some(file_id.clone()),
                },
            }
        },
    }
}

/// Converts semantic content into Responses input content.
pub fn message_content_to_wire(content: &MessageContent) -> (r: InputContent)
    ensures
        r@ == input_content(content@),
{
    match content {
        MessageContent::Text(text) => InputContent::Text(text.clone()),
        MessageContent::Parts(parts) => {
            let ghost pv = crate::types::message::parts_view(parts@);
            let mut out: Vec<InputContentPart> = Vec::new();
            let mut i: usize = 0;
            while i < parts.len()
                invariant
                    i <= parts.len(),
                    pv == crate::types::message::parts_view(parts@),
                    out@.len() == i,
                    forall|j: int| 0 <= j < i ==> #[trigger] out@[j]@ == input_part(pv[j]),
                decreases parts.len() - i,
            {
                proof {
                    assert(pv[i as int] == parts@[i as int]@);
                }
                out.push(input_part_from(&parts[i]));
                i = i + 1;
            }
            proof {
                assert(input_parts_view(out@) =~= pv.map_values(|p: ContentPartView| input_part(p)));
            }
            InputContent::Parts(out)
        },
    }
}

/// The `function_call` input item for a tool call.
pub open spec fn call_item(c: ToolCallView) -> InputItemView {
    InputItemView::FunctionCall { call_id: c.id, name: c.name, arguments: c.arguments }
}

/// The input items for an assistant message: its text as an assistant message, one
/// `function_call` per tool call, and a `reasoning` item when the reasoning carries an id.
pub open spec fn assistant_items(a: AssistantMessageView) -> Seq<InputItemView> {
    let text_items = match a.content {
        Some(t) => seq![InputItemView::Message { role: InputRole::Assistant, content: InputContentView::Text(t) }],
        None => Seq::empty(),
    };
    let reasoning_items = match a.reasoning {
        Some(r) => match r.id {
            Some(id) => seq![
                InputItemView::Reasoning(
                    ReasoningItemView {
                        id,
                        summary: match r.text {
                            Some(t) => seq![SummaryTextView::Summary { text: t }],
                            None => Seq::empty(),
                        },
                        encrypted_content: r.encrypted,
                    },
                ),
            ],
            None => Seq::empty(),
        },
        None => Seq::empty(),
    };
    text_items + a.tool_calls.map_values(|c: ToolCallView| call_item(c)) + reasoning_items
}

/// The input items for one message; `None` for a system message, which must have been
/// extracted into the instructions.
pub open spec fn input_items_of(m: MessageView) -> Option<Seq<InputItemView>> {
    match m {
        MessageView::System { .. } => None,
        MessageView::User { content } => Some(
            seq![InputItemView::Message { role: InputRole::User, content: input_content(content) }],
        ),
        MessageView::Assistant(a) => Some(assistant_items(a)),
        MessageView::Tool { tool_call_id, content } => Some(
            seq![InputItemView::FunctionCallOutput { call_id: tool_call_id, output: content }],
        ),
    }
}

/// Converts one semantic message into the corresponding Responses input items.
pub fn message_to_input_items(message: &Message) -> (r: Result<Vec<InputItem>, BackendError>)
    ensures
        r matches Ok(items) ==> input_items_of(message@) == Some(input_items_view(items@)),
        r is Err ==> input_items_of(message@) is None,
        r matches Err(e) ==> e is InvalidRequest,
{
    match message {
        Message::System { .. } => Err(BackendError::invalid_request(
            "system messages must be extracted before input conversion",
        )),
        Message::User { content } => {
            let item = InputItem::Message { role: InputRole::User, content: message_content_to_wire(content) };
            let items = vec![item];
            proof {
                assert(input_items_view(items@) =~= input_items_of(message@)->0);
            }
            Ok(items)
        },
        Message::Assistant(a) => {
            let mut items: Vec<InputItem> = Vec::new();
            if let Some(content) = &a.content {
                items.push(InputItem::Message { role: InputRole::Assistant, content: InputContent::Text(content.clone()) });
            }
            let ghost start = items@.len();
            let ghost cv = calls_view(a.tool_calls@);
            let mut i: usize = 0;
            while i < a.tool_calls.len()
                invariant
                    i <= a.tool_calls.len(),
                    cv == calls_view(a.tool_calls@),
                    start <= 1,
                    start == (if a.content is Some { 1int } else { 0int }),
                    items@.len() == start + i,
                    a.content matches Some(t) ==> items@[0]@ == (InputItemView::Message {
                        role: InputRole::Assistant,
                        content: InputContentView::Text(t@),
                    }),
                    forall|j: int| 0 <= j < i ==> #[trigger] items@[start + j]@ == call_item(cv[j]),
                decreases a.tool_calls.len() - i,
            {
                let call: &ToolCall = &a.tool_calls[i];
                items.push(InputItem::FunctionCall {
                    call_id: call.id.clone(),
                    name: call.name.clone(),
                    arguments: call.arguments.clone(),
                });
                i = i + 1;
            }
            let ghost av = a@;
            let ghost text_items = match av.content {
                Some(t) => seq![InputItemView::Message { role: InputRole::Assistant, content: InputContentView::Text(t) }],
                None => Seq::<InputItemView>::empty(),
            };
            proof {
                let head = text_items + av.tool_calls.map_values(|c: ToolCallView| call_item(c));
                assert(av.tool_calls == cv);
                assert forall|j: int| 0 <= j < head.len() implies #[trigger] input_items_view(items@)[j] == head[j] by {
                    if j >= start {
                        assert(items@[start + (j - start)]@ == call_item(cv[j - start]));
                    }
                }
                assert(input_items_view(items@) =~= head);
            }
            if let Some(reasoning) = &a.reasoning {
                if let Some(id) = &reasoning.id {
                    let summary = match &reasoning.text {
                        Some(text) => vec![SummaryText::Summary { text: text.clone() }],
                        None => Vec::new(),
                    };
                    proof {
                        assert(crate::wire::responses::summary_view(summary@) =~= match reasoning@.text {
                            Some(t) => seq![SummaryTextView::Summary { text: t }],
                            None => Seq::<SummaryTextView>::empty(),
                        });
                    }
                    items.push(InputItem::Reasoning(ReasoningItem {
                        id: id.clone(),
                        summary,
                        encrypted_content: crate::types::message::clone_opt_str(&reasoning.encrypted),
                    }));
                }
            }
            proof {
                assert(input_items_view(items@) =~= assistant_items(a@));
            }
            Ok(items)
        },
        Message::Tool { tool_call_id, content } => {
            let items = vec![InputItem::FunctionCallOutput { call_id: tool_call_id.clone(), output: content.clone() }];
            proof {
                assert(input_items_view(items@) =~= input_items_of(message@)->0);
            }
            Ok(items)
        },
    }
}

/// The input items for a message list, in order; `None` when any message is a system message.
pub open spec fn input_items_all(s: Seq<MessageView>) -> Option<Seq<InputItemView>>
    decreases s.len(),
{
    if s.len() == 0 {
        Some(Seq::empty())
    } else {
        match (input_items_all(s.drop_last()), input_items_of(s.last())) {
            (Some(a), Some(b)) => Some(a + b),
            _ => None,
        }
    }
}

/// A message list whose prefix has no input items has none either.
proof fn lemma_items_all_none(s: Seq<MessageView>, k: int)
    requires
        0 <= k <= s.len(),
        input_items_all(s.take(k)) is None,
    ensures
        input_items_all(s) is None,
    decreases s.len() - k,
{
    if k == s.len() {
        assert(s.take(k) =~= s);
    } else {
        assert(s.take(k + 1).drop_last() =~= s.take(k));
        lemma_items_all_none(s, k + 1);
    }
}

/// Converts each message of a list into its input items and concatenates them.
fn input_items_from(messages: &Vec<Message>) -> (r: Result<Vec<InputItem>, BackendError>)
    ensures
        r matches Ok(items) ==> input_items_all(messages_view(messages@)) == Some(input_items_view(items@)),
        r is Err ==> input_items_all(messages_view(messages@)) is None,
        r matches Err(e) ==> e is InvalidRequest,
{
    let ghost mv = messages_view(messages@);
    let mut out: Vec<InputItem> = Vec::new();
    let mut i: usize = 0;
    proof {
        assert(mv.take(0) =~= Seq::<MessageView>::empty());
    }
    while i < messages.len()
        invariant
            i <= messages.len(),
            mv == messages_view(messages@),
            input_items_all(mv.take(i as int)) == Some(input_items_view(out@)),
        decreases messages.len() - i,
    {
        proof {
            assert(mv[i as int] == messages@[i as int]@);
            assert(mv.take(i as int + 1).drop_last() =~= mv.take(i as int));
            assert(mv.take(i as int + 1).last() == mv[i as int]);
        }
        match message_to_input_items(&messages[i]) {
            Ok(mut items) => {
                let ghost before = out@;
                out.append(&mut items);
                proof {
                    assert(input_items_view(out@) =~= input_items_view(before) + input_items_view(
                        out@.subrange(before.len() as int, out@.len() as int),
                    ));
                }
            },
            Err(e) => {
                proof {
                    lemma_items_all_none(mv, i as int + 1);
                }
                return Err(e);
            },
        }
        i = i + 1;
    }
    proof {
        assert(mv.take(i as int) =~= mv);
    }
    Ok(out)
}

/// The Responses function tool for a tool definition.
pub open spec fn responses_tool(t: ToolDefinitionView) -> ResponseToolView {
    ResponseToolView {
        name: t.function.name,
        description: t.function.description,
        parameters: t.function.parameters,
        strict: t.function.strict,
    }
}

/// Converts a tool definition into a Responses function tool.
pub fn wire_tool(tool: &ToolDefinition) -> (r: ResponseTool)
    ensures
        r@ == responses_tool(tool@),
{
    ResponseTool {
        name: tool.function.name.clone(),
        description: crate::types::message::clone_opt_str(&tool.function.description),
        parameters: crate::types::message::clone_opt_str(&tool.function.parameters),
        strict: tool.function.strict,
    }
}

/// Converts tool definitions into Responses function tools, in order.
pub fn wire_tools(tools: &Vec<ToolDefinition>) -> (r: Vec<ResponseTool>)
    ensures
        r@.map_values(|t: ResponseTool| t@) == crate::types::shared::tools_view(tools@).map_values(
            |d: ToolDefinitionView| responses_tool(d),
        ),
{
    let ghost tv = crate::types::shared::tools_view(tools@);
    let mut out: Vec<ResponseTool> = Vec::new();
    let mut i: usize = 0;
    while i < tools.len()
        invariant
            i <= tools.len(),
            tv == crate::types::shared::tools_view(tools@),
            out@.len() == i,
            forall|j: int| 0 <= j < i ==> #[trigger] out@[j]@ == responses_tool(tv[j]),
        decreases tools.len() - i,
    {
        out.push(wire_tool(&tools[i]));
        i = i + 1;
    }
    proof {
        assert(out@.map_values(|t: ResponseTool| t@) =~= tv.map_values(|d: ToolDefinitionView| responses_tool(d)));
    }
    out
}

/// The input items a message list renders to: the messages after the leading system block
/// (which becomes the instructions), converted in order.
pub open spec fn rendered_input(s: Seq<MessageView>) -> Option<Seq<InputItemView>> {
    match instructions_split(s) {
        None => None,
        Some((_, rest)) => input_items_all(rest),
    }
}

/// Renders a message list to the Responses `input` items it would be sent as; the
/// instructions extracted from the leading system block are not part of it.
pub fn render_input(messages: &Vec<Message>) -> (r: Result<Vec<InputItem>, BackendError>)
    ensures
        r matches Ok(items) ==> rendered_input(messages_view(messages@)) == Some(input_items_view(items@)),
        r is Err ==> rendered_input(messages_view(messages@)) is None,
        r matches Err(e) ==> e is InvalidRequest,
{
    let (_, rest) = extract_instructions(crate::types::message::clone_messages(messages))?;
    input_items_from(&rest)
}

/// The Responses tool choice for a tool choice: a named tool becomes a named function.
pub open spec fn responses_choice(c: ToolChoiceView) -> ResponseToolChoiceView {
    match c {
        ToolChoiceView::Mode(m) => ResponseToolChoiceView::Mode(m),
        ToolChoiceView::Named { name, .. } => ResponseToolChoiceView::Function { name },
    }
}

/// Converts a tool choice into its Responses shape.
pub fn wire_tool_choice(choice: &ToolChoice) -> (r: ResponseToolChoice)
    ensures
        r@ == responses_choice(choice@),
{
    match choice {
        ToolChoice::Mode(m) => ResponseToolChoice::Mode(*m),
        ToolChoice::Named(n) => ResponseToolChoice::Function { name: n.function.name.clone() },
    }
}

/// The `text.format` for a response format: a JSON object stays a JSON object, anything else
/// is plain text.
pub fn wire_text_format(format: &ResponseFormat) -> (r: TextFormat)
    ensures
        r == (if format.kind == ResponseFormatType::JsonObject {
            TextFormat::JsonObject
        } else {
            TextFormat::Text
        }),
{
    match format.kind {
        ResponseFormatType::JsonObject => TextFormat::JsonObject,
        _ => TextFormat::Text,
    }
}

/// The Responses request body for a normalized request; `None` when the request sets a field
/// the Responses API cannot express (`top_k`, `stop`, a penalty), a leading system message
/// carries content parts, or a system message stands after the leading block.
///
/// On continuation (`previous_response_id` set) the system prompt is carried by the stored
/// conversation, so the instructions are dropped, and storage defaults to on. Encrypted
/// reasoning is asked for whenever a reasoning effort is set.
pub open spec fn responses_request(r: GenerationRequestView) -> Option<CreateResponseRequestView> {
    if r.top_k is Some || r.stop is Some || r.frequency_penalty is Some || r.presence_penalty is Some {
        None
    } else {
        match instructions_split(r.messages) {
            None => None,
            Some((instructions, rest)) => match input_items_all(rest) {
                None => None,
                Some(input) => Some(
                    CreateResponseRequestView {
                        model: r.model,
                        input,
                        instructions: if r.previous_response_id is Some {
                            None
                        } else {
                            instructions
                        },
                        tools: match r.tools {
                            Some(t) => Some(t.map_values(|d: ToolDefinitionView| responses_tool(d))),
                            None => None,
                        },
                        tool_choice: match r.tool_choice {
                            Some(c) => Some(responses_choice(c)),
                            None => None,
                        },
                        previous_response_id: r.previous_response_id,
                        store: if r.previous_response_id is Some {
                            match r.store {
                                Some(b) => Some(b),
                                None => Some(true),
                            }
                        } else {
                            r.store
                        },
                        stream: r.stream,
                        temperature: r.temperature,
                        top_p: r.top_p,
                        top_logprobs: r.top_logprobs,
                        max_output_tokens: r.max_tokens,
                        text_format: match r.response_format {
                            Some(f) => Some(
                                if f.kind == ResponseFormatType::JsonObject {
                                    TextFormat::JsonObject
                                } else {
                                    TextFormat::Text
                                },
                            ),
                            None => None,
                        },
                        reasoning_effort: r.reasoning_effort,
                        extra_output: match r.reasoning_effort {
                            Some(_) => Some(seq![ResponseIncludable::ReasoningEncryptedContent]),
                            None => None,
                        },
                    },
                ),
            },
        }
    }
}

impl CreateResponseRequest {
    /// Converts a normalized request into a Responses request body.
    pub fn try_from_request(request: &GenerationRequest) -> (r: Result<CreateResponseRequest, BackendError>)
        ensures
            r matches Ok(w) ==> responses_request(request@) == Some(w@),
            r is Err ==> responses_request(request@) is None,
            r matches Err(e) ==> e is InvalidRequest,
    {
        if request.top_k.is_some() {
            return Err(BackendError::invalid_request("the Responses API does not support top_k"));
        }
        if request.stop.is_some() {
            return Err(BackendError::invalid_request("the Responses API does not support stop sequences"));
        }
        if request.frequency_penalty.is_some() || request.presence_penalty.is_some() {
            return Err(
                BackendError::invalid_request(
                    "the Responses API does not support frequency_penalty or presence_penalty",
                ),
            );
        }
        let (extracted, messages) = extract_instructions(crate::types::message::clone_messages(&request.messages))?;
        let input = input_items_from(&messages)?;
        let continuing = request.previous_response_id.is_some();
        let instructions = if continuing {
            None
        } else {
            extracted
        };
        let store = if continuing {
            match request.store {
                Some(b) => Some(b),
                None => Some(true),
            }
        } else {
            request.store
        };
        let tools = match &request.tools {
            Some(defs) => Some(wire_tools(defs)),
            None => None,
        };
        let tool_choice = match &request.tool_choice {
            Some(c) => Some(wire_tool_choice(c)),
            None => None,
        };
        let text_format = match &request.response_format {
            Some(f) => Some(wire_text_format(f)),
            None => None,
        };
        let extra_output = match request.reasoning_effort {
            Some(_) => Some(vec![ResponseIncludable::ReasoningEncryptedContent]),
            None => None,
        };
        let w = CreateResponseRequest {
            model: request.model.clone(),
            input,
            instructions,
            tools,
            tool_choice,
            previous_response_id: crate::types::message::clone_opt_str(&request.previous_response_id),
            store,
            stream: request.stream,
            temperature: request.temperature,
            top_p: request.top_p,
            top_logprobs: request.top_logprobs,
            max_output_tokens: request.max_tokens,
            text_format,
            reasoning_effort: request.reasoning_effort,
            extra_output,
        };
        assert(w.extra_output matches Some(v) ==> v@ =~= seq![ResponseIncludable::ReasoningEncryptedContent]);
        Ok(w)
    }
}

// ---------------------------------------------------------------------------
// Response direction
// ---------------------------------------------------------------------------

/// Whether any output item is a function call.
pub open spec fn has_function_call(items: Seq<OutputItem>) -> bool {
    exists|i: int| 0 <= i < items.len() && #[trigger] items[i] is FunctionCall
}

/// The normalized finish reason of a response. The Responses API has no finish reason; it is
/// reconstructed from the items (any function call means tool calls) and from the status and
/// incomplete reason.
pub open spec fn response_finish(r: Response) -> Option<FinishReason> {
    if has_function_call(r.output@) {
        Some(FinishReason::ToolCalls)
    } else {
        match r.status {
            ResponseStatus::Completed => Some(FinishReason::Stop),
            ResponseStatus::Incomplete => match r.incomplete_reason {
                Some(IncompleteReason::MaxOutputTokens) => Some(FinishReason::Length),
                Some(IncompleteReason::ContentFilter) => Some(FinishReason::ContentFilter),
                _ => None,
            },
            _ => None,
        }
    }
}

/// Derives the normalized finish reason from a response.
pub fn finish_reason(response: &Response) -> (r: Option<FinishReason>)
    ensures
        r == response_finish(*response),
{
    let mut i: usize = 0;
    while i < response.output.len()
        invariant
            i <= response.output@.len(),
            forall|j: int| 0 <= j < i ==> !(#[trigger] response.output@[j] is FunctionCall),
        decreases response.output@.len() - i,
    {
        if let OutputItem::FunctionCall { .. } = &response.output[i] {
            return Some(FinishReason::ToolCalls);
        }
        i = i + 1;
    }
    match response.status {
        ResponseStatus::Completed => Some(FinishReason::Stop),
        ResponseStatus::Incomplete => match response.incomplete_reason {
            Some(IncompleteReason::MaxOutputTokens) => Some(FinishReason::Length),
            Some(IncompleteReason::ContentFilter) => Some(FinishReason::ContentFilter),
            _ => None,
        },
        _ => None,
    }
}

/// The normalized usage for Responses usage: cached input tokens are cache reads, cache-write
/// tokens cache writes, and reasoning tokens the completion detail; each counter is truncated
/// to 32 bits.
pub open spec fn responses_usage(u: ResponseUsage) -> Usage {
    Usage {
        completion_tokens: u.output_tokens as u32,
        prompt_tokens: u.input_tokens as u32,
        cache_read_tokens: Some(u.cached_tokens as u32),
        cache_write_tokens: Some(u.cache_write_tokens as u32),
        total_tokens: u.total_tokens as u32,
        completion_tokens_details: Some(CompletionTokensDetails { reasoning_tokens: Some(u.reasoning_tokens as u32) }),
    }
}

/// Maps Responses usage to normalized usage.
pub fn usage_from_responses(usage: ResponseUsage) -> (r: Usage)
    ensures
        r == responses_usage(usage),
{
    Usage {
        completion_tokens: usage.output_tokens as u32,
        prompt_tokens: usage.input_tokens as u32,
        cache_read_tokens: Some(usage.cached_tokens as u32),
        cache_write_tokens: Some(usage.cache_write_tokens as u32),
        total_tokens: usage.total_tokens as u32,
        completion_tokens_details: Some(
            CompletionTokensDetails { reasoning_tokens: Some(usage.reasoning_tokens as u32) },
        ),
    }
}

/// The output text of message parts, concatenated in order.
pub open spec fn parts_text(p: Seq<OutputContentPart>) -> Seq<char>
    decreases p.len(),
{
    if p.len() == 0 {
        Seq::empty()
    } else {
        parts_text(p.drop_last()) + match p.last() {
            OutputContentPart::OutputText { text } => text@,
            OutputContentPart::Other => Seq::empty(),
        }
    }
}

/// The output text of all message items, concatenated in order.
pub open spec fn output_text(items: Seq<OutputItem>) -> Seq<char>
    decreases items.len(),
{
    if items.len() == 0 {
        Seq::empty()
    } else {
        output_text(items.drop_last()) + match items.last() {
            OutputItem::Message { content } => parts_text(content@),
            _ => Seq::empty(),
        }
    }
}

/// The function calls among the output items, in order, as normalized tool calls.
pub open spec fn output_calls(items: Seq<OutputItem>) -> Seq<ToolCallView>
    decreases items.len(),
{
    if items.len() == 0 {
        Seq::empty()
    } else {
        match items.last() {
            OutputItem::FunctionCall { call_id, name, arguments } => output_calls(items.drop_last()).push(
                ToolCallView { id: call_id@, name: name@, arguments: arguments@ },
            ),
            _ => output_calls(items.drop_last()),
        }
    }
}

/// The summary texts of a reasoning item, concatenated in order.
pub open spec fn summary_text(s: Seq<SummaryText>) -> Seq<char>
    decreases s.len(),
{
    if s.len() == 0 {
        Seq::empty()
    } else {
        summary_text(s.drop_last()) + match s.last() {
            SummaryText::Summary { text } => text@,
            SummaryText::Other => Seq::empty(),
        }
    }
}

/// The normalized reasoning for a reasoning item: the concatenated summary (none when empty),
/// the item id and the encrypted content.
pub open spec fn item_reasoning(item: ReasoningItem) -> ReasoningView {
    ReasoningView {
        text: if summary_text(item.summary@).len() == 0 {
            None
        } else {
            Some(summary_text(item.summary@))
        },
        id: Some(item.id@),
        encrypted: opt_str_view(item.encrypted_content),
        signature: None,
        redacted: None,
    }
}

/// The reasoning of the last reasoning item among the output items, if any.
pub open spec fn output_reasoning(items: Seq<OutputItem>) -> Option<ReasoningView>
    decreases items.len(),
{
    if items.len() == 0 {
        None
    } else {
        match items.last() {
            OutputItem::Reasoning(item) => Some(item_reasoning(item)),
            _ => output_reasoning(items.drop_last()),
        }
    }
}

/// The normalized response for a Responses response body.
pub open spec fn responses_generation(r: Response) -> GenerationResponseView {
    GenerationResponseView {
        id: r.id@,
        model: r.model@,
        message: AssistantMessageView {
            content: if output_text(r.output@).len() == 0 {
                None
            } else {
                Some(output_text(r.output@))
            },
            tool_calls: output_calls(r.output@),
            reasoning: output_reasoning(r.output@),
        },
        finish_reason: response_finish(r),
        usage: match r.usage {
            Some(u) => Some(responses_usage(u)),
            None => None,
        },
    }
}

/// Concatenates the summary texts of a reasoning item.
fn summary_from(summary: &Vec<SummaryText>) -> (r: String)
    ensures
        r@ == summary_text(summary@),
{
    let mut out = String::new();
    let mut i: usize = 0;
    while i < summary.len()
        invariant
            i <= summary@.len(),
            out@ == summary_text(summary@.take(i as int)),
        decreases summary@.len() - i,
    {
        proof {
            assert(summary@.take(i as int + 1).drop_last() =~= summary@.take(i as int));
        }
        if let SummaryText::Summary { text } = &summary[i] {
            out.append(text.as_str());
        }
        i = i + 1;
    }
    proof {
        assert(summary@.take(i as int) =~= summary@);
    }
    out
}

/// Converts a reasoning item into normalized reasoning.
fn reasoning_from_item(item: &ReasoningItem) -> (r: Reasoning)
    ensures
        r@ == item_reasoning(*item),
{
    let summary = summary_from(&item.summary);
    let text = if summary.as_str().unicode_len() == 0 {
        None
    } else {
        Some(summary)
    };
    Reasoning {
        text,
        id: Some(item.id.clone()),
        encrypted: crate::types::message::clone_opt_str(&item.encrypted_content),
        signature: None,
        redacted: None,
    }
}

/// Concatenates the output text of message parts.
fn text_of_parts(parts: &Vec<OutputContentPart>, out: &mut String)
    ensures
        final(out)@ == old(out)@ + parts_text(parts@),
{
    let ghost start = out@;
    let mut i: usize = 0;
    while i < parts.len()
        invariant
            i <= parts@.len(),
            out@ == start + parts_text(parts@.take(i as int)),
        decreases parts@.len() - i,
    {
        proof {
            assert(parts@.take(i as int + 1).drop_last() =~= parts@.take(i as int));
        }
        if let OutputContentPart::OutputText { text } = &parts[i] {
            out.append(text.as_str());
        }
        proof {
            assert(out@ =~= start + parts_text(parts@.take(i as int + 1)));
        }
        i = i + 1;
    }
    proof {
        assert(parts@.take(i as int) =~= parts@);
    }
}

/// Converts a Responses response body into a normalized response: output text is
/// concatenated, function calls become tool calls, and the last reasoning item becomes the
/// reasoning.
pub fn generation_from_response(response: &Response) -> (r: GenerationResponse)
    ensures
        r@ == responses_generation(*response),
{
    let finish = finish_reason(response);
    let usage = match response.usage {
        Some(u) => Some(usage_from_responses(u)),
        None => None,
    };
    let items = &response.output;
    let mut content = String::new();
    let mut tool_calls: Vec<ToolCall> = Vec::new();
    let mut reasoning: Option<Reasoning> = None;
    let mut i: usize = 0;
    while i < items.len()
        invariant
            i <= items@.len(),
            items@ == response.output@,
            content@ == output_text(items@.take(i as int)),
            calls_view(tool_calls@) == output_calls(items@.take(i as int)),
            crate::types::message::opt_reasoning_view(reasoning) == output_reasoning(items@.take(i as int)),
        decreases items@.len() - i,
    {
        proof {
            assert(items@.take(i as int + 1).drop_last() =~= items@.take(i as int));
        }
        match &items[i] {
            OutputItem::Message { content: parts } => {
                text_of_parts(parts, &mut content);
            },
            OutputItem::FunctionCall { call_id, name, arguments } => {
                let ghost before = tool_calls@;
                tool_calls.push(ToolCall { id: call_id.clone(), name: name.clone(), arguments: arguments.clone() });
                proof {
                    assert(calls_view(tool_calls@) =~= calls_view(before).push(tool_calls@.last()@));
                }
            },
            OutputItem::Reasoning(item) => {
                reasoning = Some(reasoning_from_item(item));
            },
            OutputItem::Other => {},
        }
        i = i + 1;
    }
    proof {
        assert(items@.take(i as int) =~= items@);
    }
    let text = if content.as_str().unicode_len() == 0 {
        None
    } else {
        Some(content)
    };
    GenerationResponse {
        id: response.id.clone(),
        model: response.model.clone(),
        message: AssistantMessage { content: text, tool_calls, reasoning },
        finish_reason: finish,
        usage,
    }
}

/// The normalized events for one Responses streaming event: text and reasoning deltas pass
/// through, an added function-call item opens a tool call at its output index, argument deltas
/// extend it, and a terminal response ends the stream (a completed one also reports usage).
pub open spec fn responses_events(e: ResponsesStreamEvent) -> Seq<GenerationEventView> {
    match e {
        ResponsesStreamEvent::OutputTextDelta { delta } => seq![GenerationEventView::Text { delta: delta@ }],
        ResponsesStreamEvent::ReasoningTextDelta { delta } => seq![GenerationEventView::Reasoning { delta: delta@ }],
        ResponsesStreamEvent::ReasoningSummaryTextDelta { delta } => seq![
            GenerationEventView::Reasoning { delta: delta@ },
        ],
        ResponsesStreamEvent::OutputItemAdded { output_index, item } => match item {
            OutputItem::FunctionCall { call_id, name, .. } => seq![
                GenerationEventView::ToolCall {
                    delta: ToolCallDeltaView {
                        index: Some(output_index),
                        id: Some(call_id@),
                        name: Some(name@),
                        arguments: None,
                    },
                },
            ],
            _ => Seq::empty(),
        },
        ResponsesStreamEvent::FunctionCallArgumentsDelta { output_index, delta } => seq![
            GenerationEventView::ToolCall {
                delta: ToolCallDeltaView { index: Some(output_index), id: None, name: None, arguments: Some(delta@) },
            },
        ],
        ResponsesStreamEvent::Completed { response } => {
            let end = seq![
                GenerationEventView::End { finish_reason: response_finish(response), response_id: Some(response.id@) },
            ];
            match response.usage {
                Some(u) => end.push(GenerationEventView::Usage { usage: responses_usage(u) }),
                None => end,
            }
        },
        ResponsesStreamEvent::Incomplete { response } => seq![
            GenerationEventView::End { finish_reason: response_finish(response), response_id: Some(response.id@) },
        ],
        ResponsesStreamEvent::Failed { response } => seq![
            GenerationEventView::End { finish_reason: response_finish(response), response_id: Some(response.id@) },
        ],
        ResponsesStreamEvent::Other => Seq::empty(),
    }
}

/// Maps a streaming Responses event to normalized generation events (zero or more per event).
pub fn event_to_generation_events(event: ResponsesStreamEvent) -> (r: Vec<GenerationEvent>)
    ensures
        events_view(r@) == responses_events(event),
{
    let ghost e = event;
    let out = match event {
        ResponsesStreamEvent::OutputTextDelta { delta } => vec![GenerationEvent::Text { delta }],
        ResponsesStreamEvent::ReasoningTextDelta { delta } => vec![GenerationEvent::Reasoning { delta }],
        ResponsesStreamEvent::ReasoningSummaryTextDelta { delta } => vec![GenerationEvent::Reasoning { delta }],
        ResponsesStreamEvent::OutputItemAdded { output_index, item } => match item {
            OutputItem::FunctionCall { call_id, name, .. } => vec![
                GenerationEvent::ToolCall {
                    delta: ToolCallDelta { index: Some(output_index), id: Some(call_id), name: Some(name), arguments: None },
                },
            ],
            _ => Vec::new(),
        },
        ResponsesStreamEvent::FunctionCallArgumentsDelta { output_index, delta } => vec![
            GenerationEvent::ToolCall {
                delta: ToolCallDelta { index: Some(output_index), id: None, name: None, arguments: Some(delta) },
            },
        ],
        ResponsesStreamEvent::Completed { response } => {
            let finish = finish_reason(&response);
            let mut events = vec![GenerationEvent::End { finish_reason: finish, response_id: Some(response.id.clone()) }];
            if let Some(u) = response.usage {
                events.push(GenerationEvent::Usage { usage: usage_from_responses(u) });
            }
            events
        },
        ResponsesStreamEvent::Incomplete { response } => {
            let finish = finish_reason(&response);
            vec![GenerationEvent::End { finish_reason: finish, response_id: Some(response.id.clone()) }]
        },
        ResponsesStreamEvent::Failed { response } => {
            let finish = finish_reason(&response);
            vec![GenerationEvent::End { finish_reason: finish, response_id: Some(response.id.clone()) }]
        },
        ResponsesStreamEvent::Other => Vec::new(),
    };
    proof {
        assert(events_view(out@) =~= responses_events(e));
    }
    out
}

// ---------------------------------------------------------------------------
// Laws
// ---------------------------------------------------------------------------

/// A converted Responses request carries the caller's model, token limit (as
/// `max_output_tokens`), sampling values, log-probability count and streaming flag unchanged.
pub proof fn law_limits_and_sampling_carry_over(r: GenerationRequestView)
    requires
        responses_request(r) is Some,
    ensures
        responses_request(r)->0.max_output_tokens == r.max_tokens,
        responses_request(r)->0.model == r.model,
        responses_request(r)->0.temperature == r.temperature,
        responses_request(r)->0.top_p == r.top_p,
        responses_request(r)->0.top_logprobs == r.top_logprobs,
        responses_request(r)->0.stream == r.stream,
        responses_request(r)->0.reasoning_effort == r.reasoning_effort,
{
}

/// A continuation request (one naming a previous response) carries no instructions (the
/// stored conversation owns the system prompt), is stored unless the caller opted out, and
/// names the previous response it continues.
pub proof fn law_continuation_drops_instructions_and_stores(r: GenerationRequestView)
    requires
        r.previous_response_id is Some,
        responses_request(r) is Some,
    ensures
        responses_request(r)->0.instructions is None,
        responses_request(r)->0.store == Some(
            match r.store {
                Some(b) => b,
                None => true,
            },
        ),
        responses_request(r)->0.previous_response_id == r.previous_response_id,
{
}

/// Encrypted reasoning is asked for exactly when a reasoning effort is set.
pub proof fn law_encrypted_reasoning_follows_effort(r: GenerationRequestView)
    requires
        responses_request(r) is Some,
    ensures
        responses_request(r)->0.extra_output is Some <==> r.reasoning_effort is Some,
{
}

/// Whether a summary is a single nonempty summary text.
pub open spec fn single_nonempty_summary(s: Seq<SummaryText>) -> bool {
    s.len() == 1 && match s[0] {
        SummaryText::Summary { text } => text@.len() > 0,
        SummaryText::Other => false,
    }
}

/// Reasoning read from a Responses reasoning item and sent back on the assistant message
/// becomes a reasoning input item with the same id and encrypted content, its summary the
/// concatenated summary text; an item whose summary is one nonempty summary text round-trips
/// exactly.
pub proof fn law_reasoning_item_round_trips(item: ReasoningItem, content: Option<Seq<char>>, calls: Seq<ToolCallView>)
    ensures
        ({
            let items = assistant_items(
                AssistantMessageView { content, tool_calls: calls, reasoning: Some(item_reasoning(item)) },
            );
            let text = summary_text(item.summary@);
            &&& items.len() > 0
            &&& items.last() == InputItemView::Reasoning(
                ReasoningItemView {
                    id: item.id@,
                    summary: if text.len() == 0 {
                        Seq::empty()
                    } else {
                        seq![SummaryTextView::Summary { text }]
                    },
                    encrypted_content: opt_str_view(item.encrypted_content),
                },
            )
            &&& single_nonempty_summary(item.summary@) ==> items.last() == InputItemView::Reasoning(item@)
        }),
{
    let s = item.summary@;
    let a = AssistantMessageView { content, tool_calls: calls, reasoning: Some(item_reasoning(item)) };
    let text_items = match a.content {
        Some(t) => seq![InputItemView::Message { role: InputRole::Assistant, content: InputContentView::Text(t) }],
        None => Seq::<InputItemView>::empty(),
    };
    let text = summary_text(s);
    let last = InputItemView::Reasoning(
        ReasoningItemView {
            id: item.id@,
            summary: if text.len() == 0 {
                Seq::empty()
            } else {
                seq![SummaryTextView::Summary { text }]
            },
            encrypted_content: opt_str_view(item.encrypted_content),
        },
    );
    assert(assistant_items(a) =~= (text_items + a.tool_calls.map_values(|c: ToolCallView| call_item(c))).push(last));
    if single_nonempty_summary(s) {
        assert(s.drop_last() =~= Seq::<SummaryText>::empty());
        assert(crate::wire::responses::summary_view(s) =~= seq![s[0]@]);
        assert(s.last() == s[0]);
        assert(summary_text(s.drop_last()) =~= Seq::<char>::empty());
        if let SummaryText::Summary { text: t } = s[0] {
            assert(text =~= t@);
        }
    }
}

} // verus!
