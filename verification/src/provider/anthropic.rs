//! Anthropic Messages <-> normalized conversions.
//!
//! The Messages API differs structurally from chat completions: the system prompt is a
//! top-level `system` parameter, tool results are `tool_result` blocks embedded in `user`
//! messages, and extended thinking round-trips through `thinking`/`redacted_thinking` blocks
//! carrying a `signature`. Request-side conversions are fallible: semantic fields Anthropic
//! cannot express (penalties, logprobs, a JSON-object response format) surface as an explicit
//! invalid-request error.
use vstd::prelude::*;

use crate::error::BackendError;
use crate::json::{json_parses, parses};
use crate::text::{trim, trim_end, trimmed, trimmed_end};
use crate::types::message::{
    calls_view, messages_view, opt_reasoning_view, AssistantMessage, AssistantMessageView,
    ContentPart, ContentPartView, ImageSource, ImageSourceView, Message, MessageContent,
    MessageContentView, MessageView, Reasoning, ReasoningView, ToolCall, ToolCallView,
};
use crate::types::response::{GenerationResponse, GenerationResponseView};
use crate::types::stream::{events_view, GenerationEvent, GenerationEventView, ToolCallDelta, ToolCallDeltaView};
use crate::types::request::{
    lemma_leading_system_count, lemma_leading_system_prefix, leading_system_count,
    GenerationRequest, GenerationRequestView,
};
use crate::types::shared::{
    strings_view, CompletionTokensDetails, FinishReason, ResponseFormatType, StopSequence, StopSequenceView, ToolChoice, ToolChoiceMode,
    ToolChoiceView, ToolDefinition, ToolDefinitionView, Usage,
};
use crate::wire::anthropic::{
    blocks_view, params_view, AnthropicContent, AnthropicContentView, AnthropicImageSource,
    AnthropicImageSourceView, AnthropicRole, AnthropicTool, AnthropicToolChoice,
    AnthropicToolChoiceView, AnthropicToolView, BlockParam, BlockParamView, CreateMessageRequest,
    CreateMessageRequestView, ImageMediaType, ImageMediaTypeView, MessageParam, MessageParamView,
    SystemParam, SystemParamView, AnthropicMessage, AnthropicStreamEvent, AnthropicUsage,
    BlockDelta, ContentBlock, DeltaUsage, StopReason,
};

verus! {

// ---------------------------------------------------------------------------
// Request direction
// ---------------------------------------------------------------------------

/// The text blocks of one leading system message; `None` when it carries an image.
pub open spec fn system_blocks(m: MessageView) -> Option<Seq<Seq<char>>> {
    match m {
        MessageView::System { content: MessageContentView::Text(t) } => Some(seq![t]),
        MessageView::System { content: MessageContentView::Parts(p) } => if forall|i: int|
            0 <= i < p.len() ==> #[trigger] p[i] is Text {
            Some(p.map_values(|q: ContentPartView| q->Text_text))
        } else {
            None
        },
        _ => None,
    }
}

/// The text blocks of a block of system messages, in order; `None` when any carries an image.
pub open spec fn block_texts(b: Seq<MessageView>) -> Option<Seq<Seq<char>>>
    decreases b.len(),
{
    if b.len() == 0 {
        Some(Seq::empty())
    } else {
        match (block_texts(b.drop_last()), system_blocks(b.last())) {
            (Some(a), Some(x)) => Some(a + x),
            _ => None,
        }
    }
}

/// The texts, each followed by a newline.
pub open spec fn lines(texts: Seq<Seq<char>>) -> Seq<char>
    decreases texts.len(),
{
    if texts.len() == 0 {
        Seq::empty()
    } else {
        lines(texts.drop_last()) + texts.last() + "\n"@
    }
}

/// The `system` parameter and remaining messages for a message list. A single text block
/// becomes a plain string (its trailing whitespace trimmed); several become text blocks.
/// `None` when a leading system message carries an image.
pub open spec fn system_split(s: Seq<MessageView>) -> Option<(Option<SystemParamView>, Seq<MessageView>)> {
    let k = leading_system_count(s);
    if k == 0 {
        Some((None, s))
    } else {
        match block_texts(s.take(k as int)) {
            None => None,
            Some(texts) => Some(
                (
                    Some(
                        if texts.len() == 1 {
                            SystemParamView::Text(trimmed_end(lines(texts)))
                        } else {
                            SystemParamView::Blocks(texts)
                        },
                    ),
                    s.skip(k as int),
                ),
            ),
        }
    }
}

/// A block of system messages whose prefix carries an image carries one too.
proof fn lemma_block_texts_none(b: Seq<MessageView>, k: int)
    requires
        0 <= k <= b.len(),
        block_texts(b.take(k)) is None,
    ensures
        block_texts(b) is None,
    decreases b.len() - k,
{
    if k == b.len() {
        assert(b.take(k) =~= b);
    } else {
        assert(b.take(k + 1).drop_last() =~= b.take(k));
        lemma_block_texts_none(b, k + 1);
    }
}

/// Extracts leading system messages into a top-level `system` parameter (Anthropic carries the
/// system prompt outside the `messages` array), returning the remaining messages.
pub fn extract_system(messages: Vec<Message>) -> (r: Result<(Option<SystemParam>, Vec<Message>), BackendError>)
    ensures
        r matches Ok((sys, rest)) ==> system_split(messages_view(messages@)) == Some(
            (crate::wire::anthropic::opt_system_view(sys), messages_view(rest@)),
        ),
        r is Err ==> system_split(messages_view(messages@)) is None,
        r matches Err(e) ==> e is Unserializable,
{
    let ghost mv = messages_view(messages@);
    let mut split: usize = 0;
    while split < messages.len() && messages[split].is_system()
        invariant
            split <= messages@.len(),
            mv == messages_view(messages@),
            forall|j: int| 0 <= j < split ==> #[trigger] mv[j] is System,
        decreases messages@.len() - split,
    {
        proof {
            assert(mv[split as int] == messages@[split as int]@);
        }
        split = split + 1;
    }
    proof {
        if split < mv.len() {
            assert(mv[split as int] == messages@[split as int]@);
        }
        lemma_leading_system_count(mv, split as int);
    }
    if split == 0 {
        return Ok((None, messages));
    }
    let ghost head = mv.take(split as int);
    let mut blocks: Vec<String> = Vec::new();
    let mut all_text = String::new();
    let mut i: usize = 0;
    proof {
        assert(head.take(0) =~= Seq::<MessageView>::empty());
    }
    while i < split
        invariant
            0 < split <= messages@.len(),
            i <= split,
            mv == messages_view(messages@),
            head == mv.take(split as int),
            split == leading_system_count(mv),
            block_texts(head.take(i as int)) == Some(strings_view(blocks@)),
            all_text@ == lines(strings_view(blocks@)),
        decreases split - i,
    {
        proof {
            assert(mv[i as int] == messages@[i as int]@);
            assert(head.take(i as int + 1).drop_last() =~= head.take(i as int));
            assert(head.take(i as int + 1).last() == mv[i as int]);
        }
        let ghost before = strings_view(blocks@);
        match &messages[i] {
            Message::System { content: MessageContent::Text(text) } => {
                blocks.push(text.clone());
                all_text.append(text.as_str());
                all_text.append("\n");
                proof {
                    assert(strings_view(blocks@) =~= before + seq![text@]);
                    assert(strings_view(blocks@).drop_last() =~= before);
                }
            },
            Message::System { content: MessageContent::Parts(parts) } => {
                let ghost pv = crate::types::message::parts_view(parts@);
                let mut j: usize = 0;
                while j < parts.len()
                    invariant
                        i < split <= messages@.len(),
                        mv == messages_view(messages@),
                        head == mv.take(split as int),
                        mv[i as int] == (MessageView::System { content: MessageContentView::Parts(pv) }),
                        split == leading_system_count(mv),
                        head.take(i as int + 1).last() == mv[i as int],
                        head.take(i as int + 1).drop_last() == head.take(i as int),
                        j <= parts@.len(),
                        pv == crate::types::message::parts_view(parts@),
                        forall|q: int| 0 <= q < j ==> #[trigger] pv[q] is Text,
                        strings_view(blocks@) =~= before + pv.take(j as int).map_values(
                            |p: ContentPartView| p->Text_text,
                        ),
                        all_text@ == lines(strings_view(blocks@)),
                    decreases parts@.len() - j,
                {
                    proof {
                        assert(pv[j as int] == parts@[j as int]@);
                    }
                    match &parts[j] {
                        ContentPart::Text { text } => {
                            let ghost b0 = strings_view(blocks@);
                            blocks.push(text.clone());
                            all_text.append(text.as_str());
                            all_text.append("\n");
                            proof {
                                assert(strings_view(blocks@) =~= b0.push(text@));
                                assert(strings_view(blocks@).drop_last() =~= b0);
                                assert(pv.take(j as int + 1) =~= pv.take(j as int).push(pv[j as int]));
                            }
                        },
                        ContentPart::Image { .. } => {
                            proof {
                                assert(!(pv[j as int] is Text));
                                assert(system_blocks(mv[i as int]) is None);
                                lemma_block_texts_none(head, i as int + 1);
                                assert(mv.take(split as int) == head);
                            }
                            return Err(BackendError::unserializable(
                                crate::family::ANTHROPIC,
                                "system prompts must be plain text",
                            ));
                        },
                    }
                    j = j + 1;
                }
                proof {
                    assert(pv.take(j as int) =~= pv);
                }
            },
            _ => {
                proof {
                    lemma_leading_system_prefix(mv);
                    assert(mv[i as int] is System);
                }
                assert(false);
                return Err(BackendError::unserializable(crate::family::ANTHROPIC, "system prompts must be plain text"));
            },
        }
        i = i + 1;
    }
    proof {
        assert(head.take(i as int) =~= head);
    }
    let system = if blocks.len() == 1 {
        SystemParam::Text(trim_end(all_text.as_str()).to_owned())
    } else {
        SystemParam::Blocks(blocks)
    };
    let mut rest_head = messages;
    let rest = rest_head.split_off(split);
    proof {
        assert(messages_view(rest@) =~= mv.skip(split as int));
    }
    Ok((Some(system), rest))
}

/// The wire media type for a media-type string; values outside the known set pass through.
pub open spec fn media_type_of(m: Seq<char>) -> ImageMediaTypeView {
    if m == "image/jpeg"@ {
        ImageMediaTypeView::Jpeg
    } else if m == "image/png"@ {
        ImageMediaTypeView::Png
    } else if m == "image/gif"@ {
        ImageMediaTypeView::Gif
    } else if m == "image/webp"@ {
        ImageMediaTypeView::Webp
    } else {
        ImageMediaTypeView::Unknown(m)
    }
}

/// Maps a semantic media-type string to the wire enum; unknown values are preserved verbatim
/// for the provider to judge.
pub fn media_type_to_wire(media_type: &String) -> (r: ImageMediaType)
    ensures
        r@ == media_type_of(media_type@),
{
    if *media_type == String::from_str("image/jpeg") {
        ImageMediaType::Jpeg
    } else if *media_type == String::from_str("image/png") {
        ImageMediaType::Png
    } else if *media_type == String::from_str("image/gif") {
        ImageMediaType::Gif
    } else if *media_type == String::from_str("image/webp") {
        ImageMediaType::Webp
    } else {
        ImageMediaType::Unknown(media_type.clone())
    }
}

/// The wire block for a content part; the image detail hint has no Messages representation
/// and is dropped.
pub open spec fn part_block(p: ContentPartView) -> BlockParamView {
    match p {
        ContentPartView::Text { text } => BlockParamView::Text { text },
        ContentPartView::Image { source, .. } => BlockParamView::Image {
            source: match source {
                ImageSourceView::Url { url } => AnthropicImageSourceView::Url { url },
                ImageSourceView::Base64 { data, media_type } => AnthropicImageSourceView::Base64 {
                    data,
                    media_type: media_type_of(media_type),
                },
                ImageSourceView::FileId { file_id } => AnthropicImageSourceView::File { file_id },
            },
        },
    }
}

/// The wire content for message content.
pub open spec fn anthropic_content(c: MessageContentView) -> AnthropicContentView {
    match c {
        MessageContentView::Text(t) => AnthropicContentView::Text(t),
        MessageContentView::Parts(p) => AnthropicContentView::Blocks(p.map_values(|q: ContentPartView| part_block(q))),
    }
}

/// Converts one content part into its wire block.
fn block_from_part(part: &ContentPart) -> (r: BlockParam)
    ensures
        r@ == part_block(part@),
{
    match part {
        ContentPart::Text { text } => BlockParam::Text { text: text.clone() },
        ContentPart::Image { source, .. } => {
            let source = match source {
                ImageSource::Url { url } => AnthropicImageSource::Url { url: url.clone() },
                ImageSource::Base64 { data, media_type } => AnthropicImageSource::Base64 {
                    data: data.clone(),
                    media_type: media_type_to_wire(media_type),
                },
                ImageSource::FileId { file_id } => AnthropicImageSource::File { file_id: file_id.clone() },
            };
            BlockParam::Image { source }
        },
    }
}

/// Converts semantic content into wire content blocks.
pub fn content_to_wire(content: &MessageContent) -> (r: AnthropicContent)
    ensures
        r@ == anthropic_content(content@),
{
    match content {
        MessageContent::Text(text) => AnthropicContent::Text(text.clone()),
        MessageContent::Parts(parts) => {
            let ghost pv = crate::types::message::parts_view(parts@);
            let mut out: Vec<BlockParam> = Vec::new();
            let mut i: usize = 0;
            while i < parts.len()
                invariant
                    i <= parts.len(),
                    pv == crate::types::message::parts_view(parts@),
                    out@.len() == i,
                    forall|j: int| 0 <= j < i ==> #[trigger] out@[j]@ == part_block(pv[j]),
                decreases parts.len() - i,
            {
                proof {
                    assert(pv[i as int] == parts@[i as int]@);
                }
                out.push(block_from_part(&parts[i]));
                i = i + 1;
            }
            proof {
                assert(blocks_view(out@) =~= pv.map_values(|q: ContentPartView| part_block(q)));
            }
            AnthropicContent::Blocks(out)
        },
    }
}

/// The tool-use input for a tool call's arguments: blank arguments (a no-argument call) become
/// `{}`, JSON arguments pass through, anything else is `None`.
pub open spec fn arguments_input(arguments: Seq<char>) -> Option<Seq<char>> {
    if trimmed(arguments).len() == 0 {
        Some("{}"@)
    } else if json_parses(arguments) {
        Some(arguments)
    } else {
        None
    }
}

/// Converts a tool call's arguments string into the JSON text of a tool-use input.
pub fn arguments_to_input(arguments: &str) -> (r: Result<String, BackendError>)
    ensures
        r matches Ok(t) ==> arguments_input(arguments@) == Some(t@),
        r is Err ==> arguments_input(arguments@) is None,
        r matches Err(e) ==> e matches BackendError::InvalidRequest(m)
            && m@ == "tool call arguments are not valid JSON for Anthropic: "@ + arguments@,
{
    if trim(arguments).unicode_len() == 0 {
        return Ok(String::from_str("{}"));
    }
    if parses(arguments) {
        Ok(arguments.to_owned())
    } else {
        let mut message = String::from_str("tool call arguments are not valid JSON for Anthropic: ");
        message.append(arguments);
        Err(BackendError::InvalidRequest(message))
    }
}

/// The thinking block an assistant's reasoning becomes: its text with the signature (empty when
/// absent), or else its redacted payload, or nothing.
pub open spec fn reasoning_blocks(a: AssistantMessageView) -> Seq<BlockParamView> {
    match a.reasoning {
        Some(r) => match r.text {
            Some(t) => seq![
                BlockParamView::Thinking {
                    thinking: t,
                    signature: match r.signature {
                        Some(s) => s,
                        None => Seq::empty(),
                    },
                },
            ],
            None => match r.redacted {
                Some(d) => seq![BlockParamView::RedactedThinking { data: d }],
                None => Seq::empty(),
            },
        },
        None => Seq::empty(),
    }
}

/// The tool-use block for a tool call whose arguments have an input.
pub open spec fn call_block(c: ToolCallView) -> BlockParamView {
    BlockParamView::ToolUse { id: c.id, name: c.name, input: arguments_input(c.arguments)->0 }
}

/// The wire message for a message; `None` for a system message (which must have been
/// extracted) and for an assistant message whose tool-call arguments are not JSON.
pub open spec fn anthropic_param(m: MessageView) -> Option<MessageParamView> {
    match m {
        MessageView::System { .. } => None,
        MessageView::User { content } => Some(
            MessageParamView { role: AnthropicRole::User, content: anthropic_content(content) },
        ),
        MessageView::Assistant(a) => if forall|i: int|
            0 <= i < a.tool_calls.len() ==> #[trigger] arguments_input(a.tool_calls[i].arguments) is Some {
            Some(
                MessageParamView {
                    role: AnthropicRole::Assistant,
                    content: AnthropicContentView::Blocks(
                        match a.content {
                            Some(t) => seq![BlockParamView::Text { text: t }],
                            None => Seq::empty(),
                        } + reasoning_blocks(a) + a.tool_calls.map_values(|c: ToolCallView| call_block(c)),
                    ),
                },
            )
        } else {
            None
        },
        MessageView::Tool { tool_call_id, content } => Some(
            MessageParamView {
                role: AnthropicRole::User,
                content: AnthropicContentView::Blocks(
                    seq![BlockParamView::ToolResult { tool_use_id: tool_call_id, content }],
                ),
            },
        ),
    }
}

/// Converts one semantic message into a wire message param.
pub fn message_to_param(message: &Message) -> (r: Result<MessageParam, BackendError>)
    ensures
        r matches Ok(p) ==> anthropic_param(message@) == Some(p@),
        r is Err ==> anthropic_param(message@) is None,
        r matches Err(e) ==> e is InvalidRequest,
{
    match message {
        Message::System { .. } => Err(BackendError::invalid_request(
            "system messages must be extracted before message conversion",
        )),
        Message::User { content } => Ok(MessageParam { role: AnthropicRole::User, content: content_to_wire(content) }),
        Message::Assistant(a) => {
            let ghost av = a@;
            let mut blocks: Vec<BlockParam> = Vec::new();
            if let Some(content) = &a.content {
                blocks.push(BlockParam::Text { text: content.clone() });
            }
            if let Some(reasoning) = &a.reasoning {
                if let Some(text) = &reasoning.text {
                    let signature = match &reasoning.signature {
                        Some(s) => s.clone(),
                        None => String::new(),
                    };
                    blocks.push(BlockParam::Thinking { thinking: text.clone(), signature });
                } else if let Some(redacted) = &reasoning.redacted {
                    blocks.push(BlockParam::RedactedThinking { data: redacted.clone() });
                }
            }
            let ghost head = blocks_view(blocks@);
            proof {
                assert(head =~= match av.content {
                    Some(t) => seq![BlockParamView::Text { text: t }],
                    None => Seq::<BlockParamView>::empty(),
                } + reasoning_blocks(av));
            }
            let ghost start = blocks@.len();
            let ghost cv = calls_view(a.tool_calls@);
            let mut i: usize = 0;
            while i < a.tool_calls.len()
                invariant
                    i <= a.tool_calls.len(),
                    cv == calls_view(a.tool_calls@),
                    av == a@,
                    message@ == MessageView::Assistant(av),
                    blocks@.len() == start + i,
                    forall|j: int| 0 <= j < start ==> #[trigger] blocks@[j]@ == head[j],
                    head.len() == start,
                    forall|j: int| 0 <= j < i ==> #[trigger] arguments_input(cv[j].arguments) is Some,
                    forall|j: int| 0 <= j < i ==> #[trigger] blocks@[start + j]@ == call_block(cv[j]),
                decreases a.tool_calls.len() - i,
            {
                proof {
                    assert(cv[i as int] == a.tool_calls@[i as int]@);
                }
                let call = &a.tool_calls[i];
                let input = match arguments_to_input(call.arguments.as_str()) {
                    Ok(t) => t,
                    Err(e) => {
                        proof {
                            assert(av.tool_calls[i as int].arguments == call.arguments@);
                        }
                        return Err(e);
                    },
                };
                blocks.push(BlockParam::ToolUse { id: call.id.clone(), name: call.name.clone(), input });
                i = i + 1;
            }
            proof {
                let want = head + cv.map_values(|c: ToolCallView| call_block(c));
                assert forall|j: int| 0 <= j < want.len() implies #[trigger] blocks_view(blocks@)[j] == want[j] by {
                    if j >= start {
                        assert(blocks@[start + (j - start)]@ == call_block(cv[j - start]));
                    }
                }
                assert(blocks_view(blocks@) =~= want);
            }
            Ok(MessageParam { role: AnthropicRole::Assistant, content: AnthropicContent::Blocks(blocks) })
        },
        Message::Tool { content, tool_call_id } => {
            let blocks = vec![BlockParam::ToolResult { tool_use_id: tool_call_id.clone(), content: content.clone() }];
            proof {
                assert(blocks_view(blocks@) =~= seq![
                    BlockParamView::ToolResult { tool_use_id: tool_call_id@, content: content@ },
                ]);
            }
            Ok(MessageParam { role: AnthropicRole::User, content: AnthropicContent::Blocks(blocks) })
        },
    }
}

/// The wire messages for a message list; `None` when any message has none.
pub open spec fn anthropic_params(s: Seq<MessageView>) -> Option<Seq<MessageParamView>> {
    if forall|i: int| 0 <= i < s.len() ==> #[trigger] anthropic_param(s[i]) is Some {
        Some(Seq::new(s.len(), |i: int| anthropic_param(s[i])->0))
    } else {
        None
    }
}

/// Converts each message of a list into a wire message.
fn params_from(messages: &Vec<Message>) -> (r: Result<Vec<MessageParam>, BackendError>)
    ensures
        r matches Ok(w) ==> anthropic_params(messages_view(messages@)) == Some(params_view(w@)),
        r is Err ==> anthropic_params(messages_view(messages@)) is None,
        r matches Err(e) ==> e is InvalidRequest,
{
    let ghost mv = messages_view(messages@);
    let mut out: Vec<MessageParam> = Vec::new();
    let mut i: usize = 0;
    while i < messages.len()
        invariant
            i <= messages.len(),
            mv == messages_view(messages@),
            out@.len() == i,
            forall|j: int| 0 <= j < i ==> anthropic_param(#[trigger] mv[j]) == Some(out@[j]@),
        decreases messages.len() - i,
    {
        proof {
            assert(mv[i as int] == messages@[i as int]@);
        }
        let p = message_to_param(&messages[i])?;
        out.push(p);
        i = i + 1;
    }
    proof {
        assert(params_view(out@) =~= Seq::new(mv.len(), |j: int| anthropic_param(mv[j])->0));
    }
    Ok(out)
}

/// The wire tool choice for a tool choice: `required` becomes `any`, the closest equivalent.
pub open spec fn anthropic_choice(c: ToolChoiceView) -> AnthropicToolChoiceView {
    match c {
        ToolChoiceView::Mode(ToolChoiceMode::Disabled) => AnthropicToolChoiceView::Disabled,
        ToolChoiceView::Mode(ToolChoiceMode::Auto) => AnthropicToolChoiceView::Auto,
        ToolChoiceView::Mode(ToolChoiceMode::Required) => AnthropicToolChoiceView::Any,
        ToolChoiceView::Named { name, .. } => AnthropicToolChoiceView::Tool { name },
    }
}

/// Converts a tool choice into its wire shape.
pub fn wire_tool_choice(choice: &ToolChoice) -> (r: AnthropicToolChoice)
    ensures
        r@ == anthropic_choice(choice@),
{
    match choice {
        ToolChoice::Mode(ToolChoiceMode::Disabled) => AnthropicToolChoice::Disabled,
        ToolChoice::Mode(ToolChoiceMode::Auto) => AnthropicToolChoice::Auto,
        ToolChoice::Mode(ToolChoiceMode::Required) => AnthropicToolChoice::Any,
        ToolChoice::Named(n) => AnthropicToolChoice::Tool { name: n.function.name.clone() },
    }
}

/// The wire tool for a tool definition: a missing description is empty and a missing schema
/// is JSON `null`.
pub open spec fn anthropic_tool(t: ToolDefinitionView) -> AnthropicToolView {
    AnthropicToolView {
        name: t.function.name,
        description: match t.function.description {
            Some(d) => d,
            None => Seq::empty(),
        },
        input_schema: match t.function.parameters {
            Some(p) => p,
            None => "null"@,
        },
    }
}

/// Converts a tool definition into a wire tool.
pub fn wire_tool(tool: &ToolDefinition) -> (r: AnthropicTool)
    ensures
        r@ == anthropic_tool(tool@),
{
    AnthropicTool {
        name: tool.function.name.clone(),
        description: match &tool.function.description {
            Some(d) => d.clone(),
            None => String::new(),
        },
        input_schema: match &tool.function.parameters {
            Some(p) => p.clone(),
            None => String::from_str("null"),
        },
    }
}

/// The stop sequences for a stop configuration.
pub open spec fn stop_list(s: StopSequenceView) -> Seq<Seq<char>> {
    match s {
        StopSequenceView::Single(x) => seq![x],
        StopSequenceView::Multiple(v) => v,
    }
}

/// Converts tool definitions into wire tools, in order.
pub fn wire_tools(tools: &Vec<ToolDefinition>) -> (r: Vec<AnthropicTool>)
    ensures
        r@.map_values(|t: AnthropicTool| t@) == crate::types::shared::tools_view(tools@).map_values(
            |d: ToolDefinitionView| anthropic_tool(d),
        ),
{
    let ghost tv = crate::types::shared::tools_view(tools@);
    let mut out: Vec<AnthropicTool> = Vec::new();
    let mut i: usize = 0;
    while i < tools.len()
        invariant
            i <= tools.len(),
            tv == crate::types::shared::tools_view(tools@),
            out@.len() == i,
            forall|j: int| 0 <= j < i ==> #[trigger] out@[j]@ == anthropic_tool(tv[j]),
        decreases tools.len() - i,
    {
        out.push(wire_tool(&tools[i]));
        i = i + 1;
    }
    proof {
        assert(out@.map_values(|t: AnthropicTool| t@) =~= tv.map_values(|d: ToolDefinitionView| anthropic_tool(d)));
    }
    out
}

/// The wire messages a message list renders to: the messages after the leading system block
/// (which becomes the `system` parameter), converted in order.
pub open spec fn rendered_params(s: Seq<MessageView>) -> Option<Seq<MessageParamView>> {
    match system_split(s) {
        None => None,
        Some((_, rest)) => anthropic_params(rest),
    }
}

/// Renders a message list to the `messages` array it would be sent as; the `system` parameter
/// extracted from the leading system block is not part of it.
pub fn render_params(messages: &Vec<Message>) -> (r: Result<Vec<MessageParam>, BackendError>)
    ensures
        r matches Ok(w) ==> rendered_params(messages_view(messages@)) == Some(params_view(w@)),
        r is Err ==> rendered_params(messages_view(messages@)) is None,
        r matches Err(e) ==> if system_split(messages_view(messages@)) is None {
            e is Unserializable
        } else {
            e is InvalidRequest
        },
{
    let (_, rest) = extract_system(crate::types::message::clone_messages(messages))?;
    params_from(&rest)
}

/// Why a request cannot be sent to Anthropic.
pub enum MessagesRequestFailure {
    /// The request sets a field Anthropic does not support, omits `max_tokens`, or holds a
    /// message that cannot be converted.
    Invalid,
    /// A system prompt carries an image.
    Unrepresentable,
}

/// The Messages request body for a normalized request.
pub open spec fn anthropic_request(r: GenerationRequestView) -> Result<CreateMessageRequestView, MessagesRequestFailure> {
    if r.frequency_penalty is Some || r.presence_penalty is Some {
        Err(MessagesRequestFailure::Invalid)
    } else if r.previous_response_id is Some || r.store is Some {
        Err(MessagesRequestFailure::Invalid)
    } else if r.logprobs is Some || r.top_logprobs is Some {
        Err(MessagesRequestFailure::Invalid)
    } else if r.response_format matches Some(f) && f.kind == ResponseFormatType::JsonObject {
        Err(MessagesRequestFailure::Invalid)
    } else if r.max_tokens is None {
        Err(MessagesRequestFailure::Invalid)
    } else {
        match system_split(r.messages) {
            None => Err(MessagesRequestFailure::Unrepresentable),
            Some((system, rest)) => match anthropic_params(rest) {
                None => Err(MessagesRequestFailure::Invalid),
                Some(messages) => Ok(
                    CreateMessageRequestView {
                        model: r.model,
                        messages,
                        max_tokens: r.max_tokens->0,
                        system,
                        temperature: r.temperature,
                        top_p: r.top_p,
                        top_k: r.top_k,
                        stop_sequences: match r.stop {
                            Some(s) => Some(stop_list(s)),
                            None => None,
                        },
                        stream: r.stream,
                        tool_choice: match r.tool_choice {
                            Some(c) => Some(anthropic_choice(c)),
                            None => None,
                        },
                        tools: match r.tools {
                            Some(t) => Some(t.map_values(|d: ToolDefinitionView| anthropic_tool(d))),
                            None => None,
                        },
                        effort: r.reasoning_effort,
                    },
                ),
            },
        }
    }
}

impl CreateMessageRequest {
    /// Converts a normalized request into a Messages request body.
    pub fn try_from_request(request: &GenerationRequest) -> (r: Result<CreateMessageRequest, BackendError>)
        ensures
            r matches Ok(w) ==> anthropic_request(request@) == Ok::<CreateMessageRequestView, MessagesRequestFailure>(w@),
            r matches Err(e) ==> match anthropic_request(request@) {
                Err(MessagesRequestFailure::Invalid) => e is InvalidRequest,
                Err(MessagesRequestFailure::Unrepresentable) => e is Unserializable,
                Ok(_) => false,
            },
    {
        if request.frequency_penalty.is_some() || request.presence_penalty.is_some() {
            return Err(BackendError::invalid_request("Anthropic does not support frequency_penalty or presence_penalty"));
        }
        if request.previous_response_id.is_some() || request.store.is_some() {
            return Err(
                BackendError::invalid_request(
                    "Anthropic does not support stateful conversation (previous_response_id/store)",
                ),
            );
        }
        if request.logprobs.is_some() || request.top_logprobs.is_some() {
            return Err(BackendError::invalid_request("Anthropic does not support logprobs"));
        }
        if let Some(f) = request.response_format {
            if let ResponseFormatType::JsonObject = f.kind {
                return Err(
                    BackendError::invalid_request(
                        "Anthropic structured output requires a JSON schema, which the normalized layer does not carry",
                    ),
                );
            }
        }
        let max_tokens = match request.max_tokens {
            Some(m) => m,
            None => return Err(BackendError::invalid_request("Anthropic requires max_tokens to be set")),
        };
        let (system, rest) = extract_system(crate::types::message::clone_messages(&request.messages))?;
        let messages = params_from(&rest)?;
        let stop_sequences = match &request.stop {
            Some(StopSequence::Single(x)) => {
                let v = vec![x.clone()];
                assert(strings_view(v@) =~= seq![x@]);
                Some(v)
            },
            Some(StopSequence::Multiple(v)) => Some(crate::types::shared::clone_strings(v)),
            None => None,
        };
        let tools = match &request.tools {
            Some(defs) => Some(wire_tools(defs)),
            None => None,
        };
        let tool_choice = match &request.tool_choice {
            Some(c) => Some(wire_tool_choice(c)),
            None => None,
        };
        Ok(
            CreateMessageRequest {
                model: request.model.clone(),
                messages,
                max_tokens,
                system,
                temperature: request.temperature,
                top_p: request.top_p,
                top_k: request.top_k,
                stop_sequences,
                stream: request.stream,
                tool_choice,
                tools,
                effort: request.reasoning_effort,
            },
        )
    }
}

// ---------------------------------------------------------------------------
// Response direction
// ---------------------------------------------------------------------------

/// The 32-bit total of two token counts: their sum, truncated to 32 bits.
pub open spec fn token_total(a: u64, b: u64) -> u32 {
    (a + b) as u32
}

/// Adds two token counts, keeping the low 32 bits of the sum.
fn total_tokens(a: u64, b: u64) -> (r: u32)
    ensures
        r == token_total(a, b),
{
    let r = a.wrapping_add(b) as u32;
    assert(a.wrapping_add(b) as u32 == (a + b) as u32) by (bit_vector);
    r
}

/// The normalized usage for Messages usage: the total is input plus output tokens, and each
/// counter is truncated to 32 bits.
pub open spec fn anthropic_usage(u: AnthropicUsage) -> Usage {
    Usage {
        completion_tokens: u.output_tokens as u32,
        prompt_tokens: u.input_tokens as u32,
        cache_read_tokens: match u.cache_read_input_tokens {
            Some(t) => Some(t as u32),
            None => None,
        },
        cache_write_tokens: match u.cache_creation_input_tokens {
            Some(t) => Some(t as u32),
            None => None,
        },
        total_tokens: token_total(u.input_tokens, u.output_tokens),
        completion_tokens_details: match u.output_tokens_details {
            Some(thinking) => Some(
                CompletionTokensDetails {
                    reasoning_tokens: match thinking {
                        Some(t) => Some(t as u32),
                        None => None,
                    },
                },
            ),
            None => None,
        },
    }
}

/// Maps Messages usage to normalized usage.
pub fn usage_from_anthropic(usage: AnthropicUsage) -> (r: Usage)
    ensures
        r == anthropic_usage(usage),
{
    Usage {
        completion_tokens: usage.output_tokens as u32,
        prompt_tokens: usage.input_tokens as u32,
        cache_read_tokens: match usage.cache_read_input_tokens {
            Some(t) => Some(t as u32),
            None => None,
        },
        cache_write_tokens: match usage.cache_creation_input_tokens {
            Some(t) => Some(t as u32),
            None => None,
        },
        total_tokens: total_tokens(usage.input_tokens, usage.output_tokens),
        completion_tokens_details: match usage.output_tokens_details {
            Some(thinking) => Some(
                CompletionTokensDetails {
                    reasoning_tokens: match thinking {
                        Some(t) => Some(t as u32),
                        None => None,
                    },
                },
            ),
            None => None,
        },
    }
}

/// The normalized finish reason for a stop reason; unknown reasons read as a stop.
pub open spec fn anthropic_finish(r: Option<StopReason>) -> Option<FinishReason> {
    match r {
        None => None,
        Some(StopReason::EndTurn) => Some(FinishReason::Stop),
        Some(StopReason::MaxTokens) => Some(FinishReason::Length),
        Some(StopReason::StopSequence) => Some(FinishReason::Stop),
        Some(StopReason::ToolUse) => Some(FinishReason::ToolCalls),
        Some(StopReason::PauseTurn) => Some(FinishReason::PauseTurn),
        Some(StopReason::Refusal) => Some(FinishReason::Refusal),
        Some(StopReason::ModelContextWindowExceeded) => Some(FinishReason::ModelContextWindowExceeded),
        Some(StopReason::Unknown) => Some(FinishReason::Stop),
    }
}

/// Maps a stop reason to the normalized finish reason.
pub fn wire_finish_reason(reason: Option<StopReason>) -> (r: Option<FinishReason>)
    ensures
        r == anthropic_finish(reason),
{
    match reason {
        None => None,
        Some(StopReason::EndTurn) => Some(FinishReason::Stop),
        Some(StopReason::MaxTokens) => Some(FinishReason::Length),
        Some(StopReason::StopSequence) => Some(FinishReason::Stop),
        Some(StopReason::ToolUse) => Some(FinishReason::ToolCalls),
        Some(StopReason::PauseTurn) => Some(FinishReason::PauseTurn),
        Some(StopReason::Refusal) => Some(FinishReason::Refusal),
        Some(StopReason::ModelContextWindowExceeded) => Some(FinishReason::ModelContextWindowExceeded),
        Some(StopReason::Unknown) => Some(FinishReason::Stop),
    }
}

/// Reasoning with every carrier empty.
pub open spec fn empty_reasoning() -> ReasoningView {
    ReasoningView { text: None, id: None, encrypted: None, signature: None, redacted: None }
}

/// The reasoning after one more content block: a thinking block sets the text and signature
/// where they are nonempty, a redacted block sets the redacted payload; other blocks leave it.
pub open spec fn block_reasoning(prev: Option<ReasoningView>, b: ContentBlock) -> Option<ReasoningView> {
    let e = match prev {
        Some(r) => r,
        None => empty_reasoning(),
    };
    match b {
        ContentBlock::Thinking { thinking, signature } => Some(
            ReasoningView {
                text: if thinking@.len() > 0 {
                    Some(thinking@)
                } else {
                    e.text
                },
                signature: if signature@.len() > 0 {
                    Some(signature@)
                } else {
                    e.signature
                },
                ..e
            },
        ),
        ContentBlock::RedactedThinking { data } => Some(ReasoningView { redacted: Some(data@), ..e }),
        _ => prev,
    }
}

/// The reasoning carried by a sequence of content blocks.
pub open spec fn blocks_reasoning(s: Seq<ContentBlock>) -> Option<ReasoningView>
    decreases s.len(),
{
    if s.len() == 0 {
        None
    } else {
        block_reasoning(blocks_reasoning(s.drop_last()), s.last())
    }
}

/// The text of a sequence of content blocks, concatenated in order.
pub open spec fn blocks_text(s: Seq<ContentBlock>) -> Seq<char>
    decreases s.len(),
{
    if s.len() == 0 {
        Seq::empty()
    } else {
        blocks_text(s.drop_last()) + match s.last() {
            ContentBlock::Text { text } => text@,
            _ => Seq::empty(),
        }
    }
}

/// The tool calls of a sequence of content blocks, in order.
pub open spec fn blocks_calls(s: Seq<ContentBlock>) -> Seq<ToolCallView>
    decreases s.len(),
{
    if s.len() == 0 {
        Seq::empty()
    } else {
        match s.last() {
            ContentBlock::ToolUse { id, name, input } => blocks_calls(s.drop_last()).push(
                ToolCallView { id: id@, name: name@, arguments: input@ },
            ),
            _ => blocks_calls(s.drop_last()),
        }
    }
}

/// The normalized response for a Messages response body; unknown blocks are dropped.
pub open spec fn anthropic_generation(m: AnthropicMessage) -> GenerationResponseView {
    GenerationResponseView {
        id: m.id@,
        model: m.model@,
        message: AssistantMessageView {
            content: if blocks_text(m.content@).len() == 0 {
                None
            } else {
                Some(blocks_text(m.content@))
            },
            tool_calls: blocks_calls(m.content@),
            reasoning: blocks_reasoning(m.content@),
        },
        finish_reason: anthropic_finish(m.stop_reason),
        usage: Some(anthropic_usage(m.usage)),
    }
}

/// Folds one thinking or redacted block into the reasoning.
fn fold_reasoning(prev: Option<Reasoning>, block: &ContentBlock) -> (r: Option<Reasoning>)
    ensures
        opt_reasoning_view(r) == block_reasoning(opt_reasoning_view(prev), *block),
{
    match block {
        ContentBlock::Thinking { thinking, signature } => {
            let mut entry = match prev {
                Some(r) => r,
                None => Reasoning { text: None, id: None, encrypted: None, signature: None, redacted: None },
            };
            if thinking.as_str().unicode_len() > 0 {
                entry.text = Some(thinking.clone());
            }
            if signature.as_str().unicode_len() > 0 {
                entry.signature = Some(signature.clone());
            }
            Some(entry)
        },
        ContentBlock::RedactedThinking { data } => {
            let mut entry = match prev {
                Some(r) => r,
                None => Reasoning { text: None, id: None, encrypted: None, signature: None, redacted: None },
            };
            entry.redacted = Some(data.clone());
            Some(entry)
        },
        _ => prev,
    }
}

/// Converts a Messages response body into a normalized response: text blocks are
/// concatenated, tool-use blocks become tool calls, and thinking blocks become the reasoning.
pub fn generation_from_message(message: &AnthropicMessage) -> (r: GenerationResponse)
    ensures
        r@ == anthropic_generation(*message),
{
    let blocks = &message.content;
    let mut content = String::new();
    let mut tool_calls: Vec<ToolCall> = Vec::new();
    let mut reasoning: Option<Reasoning> = None;
    let mut i: usize = 0;
    while i < blocks.len()
        invariant
            i <= blocks@.len(),
            blocks@ == message.content@,
            content@ == blocks_text(blocks@.take(i as int)),
            calls_view(tool_calls@) == blocks_calls(blocks@.take(i as int)),
            opt_reasoning_view(reasoning) == blocks_reasoning(blocks@.take(i as int)),
        decreases blocks@.len() - i,
    {
        proof {
            assert(blocks@.take(i as int + 1).drop_last() =~= blocks@.take(i as int));
        }
        match &blocks[i] {
            ContentBlock::Text { text } => {
                content.append(text.as_str());
            },
            ContentBlock::ToolUse { id, name, input } => {
                let ghost before = tool_calls@;
                tool_calls.push(ToolCall { id: id.clone(), name: name.clone(), arguments: input.clone() });
                proof {
                    assert(calls_view(tool_calls@) =~= calls_view(before).push(tool_calls@.last()@));
                }
            },
            _ => {},
        }
        reasoning = fold_reasoning(reasoning, &blocks[i]);
        i = i + 1;
    }
    proof {
        assert(blocks@.take(i as int) =~= blocks@);
    }
    let text = if content.as_str().unicode_len() == 0 {
        None
    } else {
        Some(content)
    };
    GenerationResponse {
        id: message.id.clone(),
        model: message.model.clone(),
        message: AssistantMessage { content: text, tool_calls, reasoning },
        finish_reason: wire_finish_reason(message.stop_reason),
        usage: Some(usage_from_anthropic(message.usage)),
    }
}

/// The normalized events for a content-block event: a tool-use block start opens a tool call
/// at the block index, text and thinking deltas pass through, and input-JSON deltas extend the
/// tool call. Other events (message-level ones, signature deltas, block stops) carry none.
pub open spec fn block_events(e: AnthropicStreamEvent) -> Seq<GenerationEventView> {
    match e {
        AnthropicStreamEvent::ContentBlockStart { index, content_block } => match content_block {
            ContentBlock::ToolUse { id, name, .. } => seq![
                GenerationEventView::ToolCall {
                    delta: ToolCallDeltaView {
                        index: Some(index as u32),
                        id: Some(id@),
                        name: Some(name@),
                        arguments: None,
                    },
                },
            ],
            _ => Seq::empty(),
        },
        AnthropicStreamEvent::ContentBlockDelta { index, delta } => match delta {
            BlockDelta::TextDelta { text } => seq![GenerationEventView::Text { delta: text@ }],
            BlockDelta::ThinkingDelta { thinking } => seq![GenerationEventView::Reasoning { delta: thinking@ }],
            BlockDelta::InputJsonDelta { partial_json } => seq![
                GenerationEventView::ToolCall {
                    delta: ToolCallDeltaView {
                        index: Some(index as u32),
                        id: None,
                        name: None,
                        arguments: Some(partial_json@),
                    },
                },
            ],
            BlockDelta::Other => Seq::empty(),
        },
        _ => Seq::empty(),
    }
}

/// Maps a content-block streaming event to normalized generation events (zero or more).
pub fn event_to_generation_events(event: AnthropicStreamEvent) -> (r: Vec<GenerationEvent>)
    ensures
        events_view(r@) == block_events(event),
{
    let ghost e = event;
    let out = match event {
        AnthropicStreamEvent::ContentBlockStart { index, content_block } => match content_block {
            ContentBlock::ToolUse { id, name, .. } => vec![
                GenerationEvent::ToolCall {
                    delta: ToolCallDelta { index: Some(index as u32), id: Some(id), name: Some(name), arguments: None },
                },
            ],
            _ => Vec::new(),
        },
        AnthropicStreamEvent::ContentBlockDelta { index, delta } => match delta {
            BlockDelta::TextDelta { text } => vec![GenerationEvent::Text { delta: text }],
            BlockDelta::ThinkingDelta { thinking } => vec![GenerationEvent::Reasoning { delta: thinking }],
            BlockDelta::InputJsonDelta { partial_json } => vec![
                GenerationEvent::ToolCall {
                    delta: ToolCallDelta { index: Some(index as u32), id: None, name: None, arguments: Some(partial_json) },
                },
            ],
            BlockDelta::Other => Vec::new(),
        },
        _ => Vec::new(),
    };
    proof {
        assert(events_view(out@) =~= block_events(e));
    }
    out
}

/// The usage reported at the end of a stream: the output and cache counts of the final
/// `message_delta`, with the input count remembered from `message_start`.
pub open spec fn stream_usage(input: u64, u: DeltaUsage) -> Usage {
    Usage {
        completion_tokens: u.output_tokens as u32,
        prompt_tokens: input as u32,
        cache_read_tokens: match u.cache_read_input_tokens {
            Some(t) => Some(t as u32),
            None => None,
        },
        cache_write_tokens: match u.cache_creation_input_tokens {
            Some(t) => Some(t as u32),
            None => None,
        },
        total_tokens: token_total(input, u.output_tokens),
        completion_tokens_details: None,
    }
}

/// One step of the stream scan: the remembered input-token count after the event, and the
/// normalized events it yields. `message_start` remembers its input tokens; `message_delta`
/// ends the stream with its finish reason, merges its usage (when present) with the remembered
/// input tokens (zero when none were seen), and forgets them; other events map one by one.
pub open spec fn scan_step(state: Option<u64>, e: AnthropicStreamEvent) -> (Option<u64>, Seq<GenerationEventView>) {
    match e {
        AnthropicStreamEvent::MessageStart { input_tokens } => (Some(input_tokens), Seq::empty()),
        AnthropicStreamEvent::MessageDelta { stop_reason, usage } => {
            let input: u64 = match state {
                Some(t) => t,
                None => 0,
            };
            let end = seq![GenerationEventView::End { finish_reason: anthropic_finish(stop_reason), response_id: None }];
            (
                None,
                match usage {
                    Some(u) => end.push(GenerationEventView::Usage { usage: stream_usage(input, u) }),
                    None => end,
                },
            )
        },
        _ => (state, block_events(e)),
    }
}

/// The stream scan of a Messages stream. Anthropic splits usage across events: `message_start`
/// carries the input-side count and `message_delta` the final output count; the scan
/// remembers the former and merges it into the usage reported with the end of the stream.
pub struct MessagesStreamScan {
    input_tokens: Option<u64>,
}

impl View for MessagesStreamScan {
    type V = Option<u64>;

    closed spec fn view(&self) -> Option<u64> {
        self.input_tokens
    }
}

impl MessagesStreamScan {
    /// A scan that has seen no event.
    pub fn new() -> (r: Self)
        ensures
            r@ is None,
    {
        MessagesStreamScan { input_tokens: None }
    }

    /// Feeds one event to the scan and returns the normalized events it yields.
    pub fn observe(&mut self, event: AnthropicStreamEvent) -> (r: Vec<GenerationEvent>)
        ensures
            (final(self)@, events_view(r@)) == scan_step(old(self)@, event),
    {
        let ghost e = event;
        match event {
            AnthropicStreamEvent::MessageStart { input_tokens } => {
                self.input_tokens = Some(input_tokens);
                let out: Vec<GenerationEvent> = Vec::new();
                proof {
                    assert(events_view(out@) =~= Seq::<GenerationEventView>::empty());
                }
                out
            },
            AnthropicStreamEvent::MessageDelta { stop_reason, usage } => {
                let input: u64 = match self.input_tokens {
                    Some(t) => t,
                    None => 0,
                };
                self.input_tokens = None;
                let mut out = vec![GenerationEvent::End { finish_reason: wire_finish_reason(stop_reason), response_id: None }];
                if let Some(u) = usage {
                    out.push(
                        GenerationEvent::Usage {
                            usage: Usage {
                                completion_tokens: u.output_tokens as u32,
                                prompt_tokens: input as u32,
                                cache_read_tokens: match u.cache_read_input_tokens {
                                    Some(t) => Some(t as u32),
                                    None => None,
                                },
                                cache_write_tokens: match u.cache_creation_input_tokens {
                                    Some(t) => Some(t as u32),
                                    None => None,
                                },
                                total_tokens: total_tokens(input, u.output_tokens),
                                completion_tokens_details: None,
                            },
                        },
                    );
                }
                proof {
                    assert(events_view(out@) =~= scan_step(old(self)@, e).1);
                }
                out
            },
            other => event_to_generation_events(other),
        }
    }
}

// ---------------------------------------------------------------------------
// Laws
// ---------------------------------------------------------------------------

/// A converted Messages request keeps the meaning of the caller's tool choice: a required
/// tool call forces tool use (`any`), `auto` stays optional, `none` disables tools, and a named
/// tool is forced by name; no tool choice sends none.
pub proof fn law_tool_choice_keeps_its_meaning(r: GenerationRequestView)
    requires
        anthropic_request(r) is Ok,
    ensures
        ({
            let w = anthropic_request(r)->Ok_0;
            match r.tool_choice {
                None => w.tool_choice is None,
                Some(ToolChoiceView::Mode(ToolChoiceMode::Required)) => w.tool_choice == Some(AnthropicToolChoiceView::Any),
                Some(ToolChoiceView::Mode(ToolChoiceMode::Auto)) => w.tool_choice == Some(AnthropicToolChoiceView::Auto),
                Some(ToolChoiceView::Mode(ToolChoiceMode::Disabled)) => w.tool_choice == Some(
                    AnthropicToolChoiceView::Disabled,
                ),
                Some(ToolChoiceView::Named { name, .. }) => w.tool_choice == Some(AnthropicToolChoiceView::Tool { name }),
            }
        }),
{
}

/// A converted Messages request carries the caller's model, token limit (which Anthropic
/// requires) and sampling values unchanged.
pub proof fn law_limits_and_sampling_carry_over(r: GenerationRequestView)
    requires
        anthropic_request(r) is Ok,
    ensures
        r.max_tokens == Some(anthropic_request(r)->Ok_0.max_tokens),
        anthropic_request(r)->Ok_0.model == r.model,
        anthropic_request(r)->Ok_0.temperature == r.temperature,
        anthropic_request(r)->Ok_0.top_p == r.top_p,
        anthropic_request(r)->Ok_0.top_k == r.top_k,
        anthropic_request(r)->Ok_0.stream == r.stream,
{
}

/// Only a stop for the token limit is reported as a `Length` finish, in a full response and at
/// the end of a stream alike; every other stop reason is reported otherwise.
pub proof fn law_length_finish_means_token_limit(m: AnthropicMessage, state: Option<u64>, e: AnthropicStreamEvent)
    ensures
        forall|reason: Option<StopReason>|
            (#[trigger] anthropic_finish(reason) == Some(FinishReason::Length)) <==> reason == Some(StopReason::MaxTokens),
        anthropic_generation(m).finish_reason == Some(FinishReason::Length) <==> m.stop_reason == Some(
            StopReason::MaxTokens,
        ),
        e matches AnthropicStreamEvent::MessageDelta { stop_reason, .. } ==> (scan_step(state, e).1[0]
            == GenerationEventView::End { finish_reason: anthropic_finish(stop_reason), response_id: None }
            && (anthropic_finish(stop_reason) == Some(FinishReason::Length) <==> stop_reason == Some(StopReason::MaxTokens))),
{
}

/// A single system prompt becomes the plain `system` text with only its own trailing
/// whitespace trimmed: the newline that joins system texts adds nothing.
pub proof fn law_single_system_prompt_is_trimmed_text(text: Seq<char>)
    ensures
        trimmed_end(lines(seq![text])) == trimmed_end(text),
{
    reveal_strlit("\n");
    let t = seq![text];
    assert(t.drop_last() =~= Seq::<Seq<char>>::empty());
    assert(t.last() == text);
    assert(lines(Seq::<Seq<char>>::empty()) =~= Seq::<char>::empty());
    let joined = lines(t);
    assert(joined =~= text + "\n"@);
    assert(joined.last() == '\n');
    assert(joined.drop_last() =~= text);
}

/// A thinking block read from a response and sent back on the assistant message becomes the
/// same thinking block (text and signature); a redacted block becomes the same redacted block.
pub proof fn law_thinking_round_trips(block: ContentBlock, content: Option<Seq<char>>, calls: Seq<ToolCallView>)
    ensures
        ({
            let back = reasoning_blocks(
                AssistantMessageView { content, tool_calls: calls, reasoning: block_reasoning(None, block) },
            );
            match block {
                ContentBlock::Thinking { thinking, signature } => thinking@.len() > 0 ==> back == seq![
                    BlockParamView::Thinking { thinking: thinking@, signature: signature@ },
                ],
                ContentBlock::RedactedThinking { data } => back == seq![BlockParamView::RedactedThinking { data: data@ }],
                _ => true,
            }
        }),
{
    if let ContentBlock::Thinking { thinking, signature } = block {
        if signature@.len() == 0 {
            assert(signature@ =~= Seq::<char>::empty());
        }
    }
}

/// The usage that ends a stream reports the input tokens of the `message_start` that opened it
/// and the output tokens of the closing `message_delta`, and the scan forgets the input count
/// afterwards.
pub proof fn law_stream_usage_merges_start_and_delta(
    state: Option<u64>,
    input_tokens: u64,
    stop_reason: Option<StopReason>,
    usage: DeltaUsage,
)
    ensures
        ({
            let after_start = scan_step(state, AnthropicStreamEvent::MessageStart { input_tokens });
            let after_delta = scan_step(
                after_start.0,
                AnthropicStreamEvent::MessageDelta { stop_reason, usage: Some(usage) },
            );
            &&& after_start.1.len() == 0
            &&& after_delta.0 is None
            &&& after_delta.1 == seq![
                GenerationEventView::End { finish_reason: anthropic_finish(stop_reason), response_id: None },
                GenerationEventView::Usage { usage: stream_usage(input_tokens, usage) },
            ]
            &&& stream_usage(input_tokens, usage).prompt_tokens == input_tokens as u32
            &&& stream_usage(input_tokens, usage).completion_tokens == usage.output_tokens as u32
        }),
{
    let end = seq![
        GenerationEventView::End { finish_reason: anthropic_finish(stop_reason), response_id: None },
    ];
    assert(end.push(GenerationEventView::Usage { usage: stream_usage(input_tokens, usage) }) =~= seq![
        GenerationEventView::End { finish_reason: anthropic_finish(stop_reason), response_id: None },
        GenerationEventView::Usage { usage: stream_usage(input_tokens, usage) },
    ]);
}

} // verus!
