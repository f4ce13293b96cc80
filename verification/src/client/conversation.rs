//! Stateful conversation continuation for Responses-family backends.
//!
//! [`Conversation`] is a continuation injector, not a history manager: the caller owns the
//! conversation and passes the full logical message list on every turn. The conversation only
//! remembers enough to decide what the wire payload should be:
//!
//! - On a stateless backend it passes the caller's list through unchanged.
//! - On a Responses-family backend it detects whether the caller's list is a pure append to the
//!   previous turn (`last_input ++ [last_assistant] ++ delta`) and, when it is, sends only
//!   `delta` plus `previous_response_id` and `store: true`.
//!
//! Any divergence (trimming, rewriting, a changed generation setting, an unknown anchor) makes
//! the append detection fail conservatively and the request goes out as a full stateless send.
//!
//! This module holds the decisions; the caller performs each turn's backend call and reports
//! its outcome back ([`Conversation::complete_turn`] / [`Conversation::fail_turn`]), and feeds
//! streamed events through a [`StreamState`].
use vstd::prelude::*;

use crate::error::{BackendError, TransportError};
use crate::types::message::{
    calls_view, clone_messages, messages_view, opt_str_view, AssistantMessage,
    AssistantMessageView, Message, MessageView, Reasoning, ReasoningView, ToolCall, ToolCallView,
};
use crate::types::request::{GenerationRequest, GenerationRequestView};
use crate::types::response::GenerationResponse;
use crate::types::shared::{
    clone_tools, strings_view, opt_choice_view, opt_f32_eq, opt_float_eq, opt_stop_view, opt_tools_view,
    tools_eq, FloatBits, ReasoningEffort, ResponseFormat, StopSequence, StopSequenceView,
    ToolChoice, ToolChoiceView, ToolDefinition, ToolDefinitionView,
};
use crate::types::stream::{GenerationEvent, GenerationEventView};

verus! {

// ---------------------------------------------------------------------------
// Settings
// ---------------------------------------------------------------------------

/// Generation settings that must stay constant across a stateful chain.
///
/// Excludes `messages` (the payload), `stream` (per-call), and the conversation-managed
/// `previous_response_id` / `store`.
#[derive(Debug)]
pub struct Settings {
    pub model: String,
    pub tools: Option<Vec<ToolDefinition>>,
    pub tool_choice: Option<ToolChoice>,
    pub temperature: Option<FloatBits>,
    pub top_p: Option<FloatBits>,
    pub top_k: Option<u32>,
    pub max_tokens: Option<u32>,
    pub stop: Option<StopSequence>,
    pub frequency_penalty: Option<FloatBits>,
    pub presence_penalty: Option<FloatBits>,
    pub response_format: Option<ResponseFormat>,
    pub logprobs: Option<bool>,
    pub top_logprobs: Option<u8>,
    pub reasoning_effort: Option<ReasoningEffort>,
}

pub struct SettingsView {
    pub model: Seq<char>,
    pub tools: Option<Seq<ToolDefinitionView>>,
    pub tool_choice: Option<ToolChoiceView>,
    pub temperature: Option<FloatBits>,
    pub top_p: Option<FloatBits>,
    pub top_k: Option<u32>,
    pub max_tokens: Option<u32>,
    pub stop: Option<StopSequenceView>,
    pub frequency_penalty: Option<FloatBits>,
    pub presence_penalty: Option<FloatBits>,
    pub response_format: Option<ResponseFormat>,
    pub logprobs: Option<bool>,
    pub top_logprobs: Option<u8>,
    pub reasoning_effort: Option<ReasoningEffort>,
}

impl View for Settings {
    type V = SettingsView;

    open spec fn view(&self) -> SettingsView {
        SettingsView {
            model: self.model@,
            tools: opt_tools_view(self.tools),
            tool_choice: opt_choice_view(self.tool_choice),
            temperature: self.temperature,
            top_p: self.top_p,
            top_k: self.top_k,
            max_tokens: self.max_tokens,
            stop: opt_stop_view(self.stop),
            frequency_penalty: self.frequency_penalty,
            presence_penalty: self.presence_penalty,
            response_format: self.response_format,
            logprobs: self.logprobs,
            top_logprobs: self.top_logprobs,
            reasoning_effort: self.reasoning_effort,
        }
    }
}

/// The generation settings of a request.
pub open spec fn settings_of(r: GenerationRequestView) -> SettingsView {
    SettingsView {
        model: r.model,
        tools: r.tools,
        tool_choice: r.tool_choice,
        temperature: r.temperature,
        top_p: r.top_p,
        top_k: r.top_k,
        max_tokens: r.max_tokens,
        stop: r.stop,
        frequency_penalty: r.frequency_penalty,
        presence_penalty: r.presence_penalty,
        response_format: r.response_format,
        logprobs: r.logprobs,
        top_logprobs: r.top_logprobs,
        reasoning_effort: r.reasoning_effort,
    }
}

/// Whether two settings are equal; float settings compare with IEEE equality.
pub open spec fn settings_match(a: SettingsView, b: SettingsView) -> bool {
    &&& a.model == b.model
    &&& a.tools == b.tools
    &&& a.tool_choice == b.tool_choice
    &&& opt_f32_eq(a.temperature, b.temperature)
    &&& opt_f32_eq(a.top_p, b.top_p)
    &&& a.top_k == b.top_k
    &&& a.max_tokens == b.max_tokens
    &&& a.stop == b.stop
    &&& opt_f32_eq(a.frequency_penalty, b.frequency_penalty)
    &&& opt_f32_eq(a.presence_penalty, b.presence_penalty)
    &&& a.response_format == b.response_format
    &&& a.logprobs == b.logprobs
    &&& a.top_logprobs == b.top_logprobs
    &&& a.reasoning_effort == b.reasoning_effort
}

impl Settings {
    /// Captures the generation settings of a request.
    pub fn from_request(request: &GenerationRequest) -> (r: Self)
        ensures
            r@ == settings_of(request@),
    {
        let tools = match &request.tools {
            Some(t) => Some(clone_tools(t)),
            None => None,
        };
        let tool_choice = match &request.tool_choice {
            Some(c) => Some(c.clone()),
            None => None,
        };
        let stop = match &request.stop {
            Some(s) => Some(s.clone()),
            None => None,
        };
        Settings {
            model: request.model.clone(),
            tools,
            tool_choice,
            temperature: request.temperature,
            top_p: request.top_p,
            top_k: request.top_k,
            max_tokens: request.max_tokens,
            stop,
            frequency_penalty: request.frequency_penalty,
            presence_penalty: request.presence_penalty,
            response_format: request.response_format,
            logprobs: request.logprobs,
            top_logprobs: request.top_logprobs,
            reasoning_effort: request.reasoning_effort,
        }
    }

    /// Copies these settings.
    pub fn duplicate(&self) -> (r: Self)
        ensures
            r@ == self@,
    {
        let tools = match &self.tools {
            Some(t) => Some(clone_tools(t)),
            None => None,
        };
        let tool_choice = match &self.tool_choice {
            Some(c) => Some(c.clone()),
            None => None,
        };
        let stop = match &self.stop {
            Some(s) => Some(s.clone()),
            None => None,
        };
        Settings {
            model: self.model.clone(),
            tools,
            tool_choice,
            temperature: self.temperature,
            top_p: self.top_p,
            top_k: self.top_k,
            max_tokens: self.max_tokens,
            stop,
            frequency_penalty: self.frequency_penalty,
            presence_penalty: self.presence_penalty,
            response_format: self.response_format,
            logprobs: self.logprobs,
            top_logprobs: self.top_logprobs,
            reasoning_effort: self.reasoning_effort,
        }
    }

    /// Whether a request carries exactly these settings.
    pub fn matches_request(&self, request: &GenerationRequest) -> (r: bool)
        ensures
            r == settings_match(self@, settings_of(request@)),
    {
        let tools = match (&self.tools, &request.tools) {
            (Some(a), Some(b)) => tools_eq(a, b),
            (None, None) => true,
            _ => false,
        };
        let tool_choice = match (&self.tool_choice, &request.tool_choice) {
            (Some(a), Some(b)) => a.same_as(b),
            (None, None) => true,
            _ => false,
        };
        let stop = match (&self.stop, &request.stop) {
            (Some(a), Some(b)) => a.same_as(b),
            (None, None) => true,
            _ => false,
        };
        self.model == request.model && tools && tool_choice && opt_float_eq(
            &self.temperature,
            &request.temperature,
        ) && opt_float_eq(&self.top_p, &request.top_p) && self.top_k == request.top_k
            && self.max_tokens == request.max_tokens && stop && opt_float_eq(
            &self.frequency_penalty,
            &request.frequency_penalty,
        ) && opt_float_eq(&self.presence_penalty, &request.presence_penalty)
            && self.response_format == request.response_format && self.logprobs
            == request.logprobs && self.top_logprobs == request.top_logprobs
            && self.reasoning_effort == request.reasoning_effort
    }
}

// ---------------------------------------------------------------------------
// Tool-result validation
// ---------------------------------------------------------------------------

/// The tool-call id a tool result message answers (empty for other roles).
pub open spec fn answered_id(m: MessageView) -> Seq<char> {
    match m {
        MessageView::Tool { tool_call_id, .. } => tool_call_id,
        _ => Seq::empty(),
    }
}

/// Whether an assistant message among the first `i` messages issued a tool call with `id`.
pub open spec fn issued_before(msgs: Seq<MessageView>, i: int, id: Seq<char>) -> bool {
    exists|j: int, k: int|
        0 <= j < i && #[trigger] msgs[j] is Assistant && 0 <= k < msgs[j]->Assistant_0.tool_calls.len()
            && #[trigger] msgs[j]->Assistant_0.tool_calls[k].id == id
}

/// Whether every tool result in a message list answers a tool call issued earlier in the list.
pub open spec fn tool_results_answered(msgs: Seq<MessageView>) -> bool {
    forall|i: int| 0 <= i < msgs.len() && #[trigger] msgs[i] is Tool ==> issued_before(msgs, i, answered_id(msgs[i]))
}

/// Whether `calls` holds a call with identifier `id`.
pub open spec fn calls_have_id(calls: Seq<ToolCallView>, id: Seq<char>) -> bool {
    exists|k: int| 0 <= k < calls.len() && #[trigger] calls[k].id == id
}

/// Whether a tool-call vector holds a call with identifier `id`.
fn has_call_id(calls: &Vec<ToolCall>, id: &String) -> (r: bool)
    ensures
        r == calls_have_id(calls_view(calls@), id@),
{
    let ghost v = calls_view(calls@);
    let mut k: usize = 0;
    while k < calls.len()
        invariant
            k <= calls.len(),
            v == calls_view(calls@),
            forall|u: int| 0 <= u < k ==> v[u].id != id@,
        decreases calls.len() - k,
    {
        if calls[k].id == *id {
            assert(v[k as int].id == id@);
            return true;
        }
        k = k + 1;
    }
    false
}

/// Whether an assistant message before position `i` issued a tool call with identifier `id`.
fn issued_before_exec(messages: &Vec<Message>, i: usize, id: &String) -> (r: bool)
    requires
        i <= messages.len(),
    ensures
        r == issued_before(messages_view(messages@), i as int, id@),
{
    let ghost msgs = messages_view(messages@);
    let mut j: usize = 0;
    while j < i
        invariant
            j <= i <= messages.len(),
            msgs == messages_view(messages@),
            !issued_before(msgs, j as int, id@),
        decreases i - j,
    {
        proof {
            assert(msgs[j as int] == messages@[j as int]@);
        }
        match &messages[j] {
            Message::Assistant(assistant) => {
                if has_call_id(&assistant.tool_calls, id) {
                    proof {
                        let k = choose|k: int| 0 <= k < calls_view(assistant.tool_calls@).len() && #[trigger] calls_view(assistant.tool_calls@)[k].id == id@;
                        assert(msgs[j as int]->Assistant_0.tool_calls[k].id == id@);
                    }
                    return true;
                }
            },
            _ => {},
        }
        proof {
            assert forall|jj: int, k: int|
                0 <= jj < j + 1 && #[trigger] msgs[jj] is Assistant && 0 <= k < msgs[jj]->Assistant_0.tool_calls.len()
                    implies #[trigger] msgs[jj]->Assistant_0.tool_calls[k].id != id@ by {
                if jj < j {
                    if msgs[jj]->Assistant_0.tool_calls[k].id == id@ {
                        assert(issued_before(msgs, j as int, id@));
                    }
                } else {
                    assert(calls_view(messages@[j as int]->Assistant_0.tool_calls@)[k] == msgs[jj]->Assistant_0.tool_calls[k]);
                }
            }
        }
        j = j + 1;
    }
    false
}

/// Builds the error message for a tool result that answers no known call.
fn dangling_message(id: &String, tail: &str) -> (r: String)
    ensures
        r@ == "tool result "@ + id@ + tail@,
{
    let mut m = String::from_str("tool result ");
    m.append(id.as_str());
    m.append(tail);
    m
}

/// Ensures every tool result in a message list answers a tool call issued earlier in the list.
///
/// A tool message whose id matches no preceding assistant tool call is malformed on every wire
/// protocol, so it fails fast with an invalid-request error.
pub fn validate_tool_results(messages: &Vec<Message>) -> (r: Result<(), BackendError>)
    ensures
        r is Ok <==> tool_results_answered(messages_view(messages@)),
        r matches Err(e) ==> e is InvalidRequest,
{
    let ghost msgs = messages_view(messages@);
    let mut i: usize = 0;
    while i < messages.len()
        invariant
            i <= messages.len(),
            msgs == messages_view(messages@),
            forall|q: int| 0 <= q < i && #[trigger] msgs[q] is Tool ==> issued_before(msgs, q, answered_id(msgs[q])),
        decreases messages.len() - i,
    {
        proof {
            assert(msgs[i as int] == messages@[i as int]@);
        }
        match &messages[i] {
            Message::Tool { tool_call_id, .. } => {
                if !issued_before_exec(messages, i, tool_call_id) {
                    return Err(
                        BackendError::InvalidRequest(
                            dangling_message(
                                tool_call_id,
                                " has no preceding assistant tool call in the message list",
                            ),
                        ),
                    );
                }
            },
            _ => {},
        }
        i = i + 1;
    }
    Ok(())
}

// ---------------------------------------------------------------------------
// Anchors and stream captures
// ---------------------------------------------------------------------------

/// Anchor recorded after a completed turn: `last_input ++ [last_assistant]` is the server-side
/// conversation the caller's next full list is compared against.
#[derive(Debug)]
pub struct Anchor {
    pub settings: Settings,
    pub last_input: Vec<Message>,
    pub last_assistant: AssistantMessage,
    pub previous_response_id: String,
}

pub struct AnchorView {
    pub settings: SettingsView,
    pub last_input: Seq<MessageView>,
    pub last_assistant: AssistantMessageView,
    pub previous_response_id: Seq<char>,
}

impl View for Anchor {
    type V = AnchorView;

    open spec fn view(&self) -> AnchorView {
        AnchorView {
            settings: self.settings@,
            last_input: messages_view(self.last_input@),
            last_assistant: self.last_assistant@,
            previous_response_id: self.previous_response_id@,
        }
    }
}

/// Capture written by a completed stream and adopted on the next turn.
///
/// `response_id` is `None` on stateless backends; such captures surface the assembled message
/// through [`Conversation::last_message`] but are never adopted as an anchor.
#[derive(Debug)]
pub struct StreamCapture {
    pub settings: Settings,
    pub messages: Vec<Message>,
    pub assistant: AssistantMessage,
    pub response_id: Option<String>,
}

pub struct StreamCaptureView {
    pub settings: SettingsView,
    pub messages: Seq<MessageView>,
    pub assistant: AssistantMessageView,
    pub response_id: Option<Seq<char>>,
}

impl View for StreamCapture {
    type V = StreamCaptureView;

    open spec fn view(&self) -> StreamCaptureView {
        StreamCaptureView {
            settings: self.settings@,
            messages: messages_view(self.messages@),
            assistant: self.assistant@,
            response_id: opt_str_view(self.response_id),
        }
    }
}

/// Views an optional anchor.
pub open spec fn opt_anchor_view(o: Option<Anchor>) -> Option<AnchorView> {
    match o {
        Some(a) => Some(a@),
        None => None,
    }
}

/// Views an optional capture.
pub open spec fn opt_capture_view(o: Option<StreamCapture>) -> Option<StreamCaptureView> {
    match o {
        Some(c) => Some(c@),
        None => None,
    }
}

// ---------------------------------------------------------------------------
// The continuation decision
// ---------------------------------------------------------------------------

/// Whether every tool result in `delta` answers a tool call of `last`.
pub open spec fn append_answers(delta: Seq<MessageView>, last: AssistantMessageView) -> bool {
    forall|i: int|
        0 <= i < delta.len() && #[trigger] delta[i] is Tool ==> calls_have_id(
            last.tool_calls,
            answered_id(delta[i]),
        )
}

/// Whether `msgs` starts with the anchored conversation `last_input ++ [last_assistant]` and
/// continues past it.
pub open spec fn extends_anchor(a: AnchorView, msgs: Seq<MessageView>) -> bool {
    &&& msgs.len() > a.last_input.len()
    &&& msgs.subrange(0, a.last_input.len() as int) == a.last_input
    &&& msgs[a.last_input.len() as int] == MessageView::Assistant(a.last_assistant)
}

/// The messages a caller appended after the anchored conversation.
pub open spec fn append_delta(a: AnchorView, msgs: Seq<MessageView>) -> Seq<MessageView> {
    msgs.subrange(a.last_input.len() as int + 1, msgs.len() as int)
}

/// Whether a request is a pure continuation of the anchor: same settings, the full anchored
/// conversation as prefix, and at least one new message after it.
pub open spec fn continues_anchor(a: AnchorView, r: GenerationRequestView) -> bool {
    &&& settings_match(a.settings, settings_of(r))
    &&& extends_anchor(a, r.messages)
    &&& r.messages.len() > a.last_input.len() + 1
}

/// The wire request for a turn, or `Err` when a continuation's new tool results do not answer
/// the previous assistant turn.
pub open spec fn wire_plan(stateful: bool, anchor: Option<AnchorView>, r: GenerationRequestView)
    -> Result<GenerationRequestView, ()> {
    if !stateful {
        Ok(GenerationRequestView { previous_response_id: None, store: None, ..r })
    } else {
        let stored = GenerationRequestView { store: Some(true), ..r };
        match anchor {
            None => Ok(stored),
            Some(a) => if !continues_anchor(a, r) {
                Ok(GenerationRequestView { previous_response_id: None, ..stored })
            } else if !append_answers(append_delta(a, r.messages), a.last_assistant) {
                Err(())
            } else {
                Ok(
                    GenerationRequestView {
                        messages: append_delta(a, r.messages),
                        tools: None,
                        tool_choice: None,
                        previous_response_id: Some(a.previous_response_id),
                        ..stored
                    },
                )
            },
        }
    }
}

/// Ensures the delta of an append answers exactly the previous assistant turn's tool calls.
pub fn validate_append_tools(delta: &Vec<Message>, last_assistant: &AssistantMessage) -> (r: Result<
    (),
    BackendError,
>)
    ensures
        r is Ok <==> append_answers(messages_view(delta@), last_assistant@),
        r matches Err(e) ==> e is InvalidRequest,
{
    let ghost d = messages_view(delta@);
    let mut i: usize = 0;
    while i < delta.len()
        invariant
            i <= delta.len(),
            d == messages_view(delta@),
            forall|q: int|
                0 <= q < i && #[trigger] d[q] is Tool ==> calls_have_id(
                    last_assistant@.tool_calls,
                    answered_id(d[q]),
                ),
        decreases delta.len() - i,
    {
        proof {
            assert(d[i as int] == delta@[i as int]@);
        }
        match &delta[i] {
            Message::Tool { tool_call_id, .. } => {
                if !has_call_id(&last_assistant.tool_calls, tool_call_id) {
                    return Err(
                        BackendError::InvalidRequest(
                            dangling_message(
                                tool_call_id,
                                " does not answer any tool call of the previous assistant turn",
                            ),
                        ),
                    );
                }
            },
            _ => {},
        }
        i = i + 1;
    }
    Ok(())
}

/// Whether `msgs` starts with `prefix` (compared by views).
fn starts_with(msgs: &Vec<Message>, prefix: &Vec<Message>) -> (r: bool)
    requires
        prefix.len() <= msgs.len(),
    ensures
        r == (messages_view(msgs@).subrange(0, prefix@.len() as int) == messages_view(prefix@)),
{
    let ghost a = messages_view(msgs@).subrange(0, prefix@.len() as int);
    let ghost b = messages_view(prefix@);
    let mut i: usize = 0;
    while i < prefix.len()
        invariant
            i <= prefix.len() <= msgs.len(),
            a == messages_view(msgs@).subrange(0, prefix@.len() as int),
            b == messages_view(prefix@),
            forall|j: int| 0 <= j < i ==> a[j] == b[j],
        decreases prefix.len() - i,
    {
        if !msgs[i].same_as(&prefix[i]) {
            assert(a[i as int] == msgs@[i as int]@);
            assert(b[i as int] == prefix@[i as int]@);
            return false;
        }
        assert(a[i as int] == msgs@[i as int]@);
        assert(b[i as int] == prefix@[i as int]@);
        i = i + 1;
    }
    assert(a =~= b);
    true
}

/// Everything a caller needs to run one turn: the wire request to send, and the settings and
/// full input recorded as the next anchor when the turn completes.
#[derive(Debug)]
pub struct Turn {
    pub wire: GenerationRequest,
    pub settings: Settings,
    pub last_input: Vec<Message>,
}

/// Stateful conversation continuation on Responses-family backends.
///
/// The caller owns the message list and passes the full logical context each turn.
#[derive(Debug)]
pub struct Conversation {
    store: bool,
    backend_stateful: bool,
    anchor: Option<Anchor>,
    pending: Option<StreamCapture>,
}

pub struct ConversationView {
    pub store: bool,
    pub backend_stateful: bool,
    pub anchor: Option<AnchorView>,
    pub pending: Option<StreamCaptureView>,
}

impl View for Conversation {
    type V = ConversationView;

    closed spec fn view(&self) -> ConversationView {
        ConversationView {
            store: self.store,
            backend_stateful: self.backend_stateful,
            anchor: opt_anchor_view(self.anchor),
            pending: opt_capture_view(self.pending),
        }
    }
}

/// Whether a conversation attempts stateful continuation.
pub open spec fn stateful(c: ConversationView) -> bool {
    c.store && c.backend_stateful
}

/// The anchor after adopting a completed stream: a capture with a response id becomes the
/// anchor; one without (a stateless backend) is discarded and the anchor stays.
pub open spec fn adopted_anchor(c: ConversationView) -> Option<AnchorView> {
    match c.pending {
        Some(cap) => match cap.response_id {
            Some(id) => Some(
                AnchorView {
                    settings: cap.settings,
                    last_input: cap.messages,
                    last_assistant: cap.assistant,
                    previous_response_id: id,
                },
            ),
            None => c.anchor,
        },
        None => c.anchor,
    }
}

/// The assistant message of the last completed turn, as [`Conversation::last_message`] reports it.
pub open spec fn last_message_of(c: ConversationView) -> Option<MessageView> {
    match c.pending {
        Some(cap) => Some(MessageView::Assistant(cap.assistant)),
        None => match c.anchor {
            Some(a) => Some(MessageView::Assistant(a.last_assistant)),
            None => None,
        },
    }
}

impl Conversation {
    /// Creates a conversation for a backend that does (`true`) or does not support stateful
    /// continuation, with server-side storage enabled.
    pub fn new(backend_stateful: bool) -> (r: Self)
        ensures
            r@ == (ConversationView { store: true, backend_stateful, anchor: None, pending: None }),
    {
        Conversation { store: true, backend_stateful, anchor: None, pending: None }
    }

    /// Sets whether server-side storage is enabled; `false` makes every turn a plain stateless
    /// send.
    pub fn with_store(self, store: bool) -> (r: Self)
        ensures
            r@ == (ConversationView { store, ..self@ }),
    {
        let mut s = self;
        s.store = store;
        s
    }

    /// Whether this conversation will attempt stateful continuation.
    pub fn is_stateful(&self) -> (r: bool)
        ensures
            r == stateful(self@),
    {
        self.store && self.backend_stateful
    }

    /// The assistant message of the last completed turn: a completed but not yet adopted
    /// stream's assembled message first, else the anchored turn's message.
    pub fn last_message(&self) -> (r: Option<Message>)
        ensures
            r matches Some(m) ==> last_message_of(self@) == Some(m@),
            r is None ==> last_message_of(self@) is None,
    {
        match &self.pending {
            Some(capture) => Some(Message::Assistant(capture.assistant.clone())),
            None => match &self.anchor {
                Some(anchor) => Some(Message::Assistant(anchor.last_assistant.clone())),
                None => None,
            },
        }
    }

    /// Records what a stream wrote on its terminal `End` event.
    pub fn record_stream_capture(&mut self, capture: StreamCapture)
        ensures
            final(self)@ == (ConversationView { pending: Some(capture@), ..old(self)@ }),
    {
        self.pending = Some(capture);
    }

    /// Adopts a completed streamed turn as the anchor.
    fn adopt_pending_stream(&mut self)
        ensures
            final(self)@ == (ConversationView {
                anchor: adopted_anchor(old(self)@),
                pending: None,
                ..old(self)@
            }),
    {
        let pending = self.pending.take();
        match pending {
            Some(capture) => {
                match capture.response_id {
                    Some(response_id) => {
                        self.anchor = Some(
                            Anchor {
                                settings: capture.settings,
                                last_input: capture.messages,
                                last_assistant: capture.assistant,
                                previous_response_id: response_id,
                            },
                        );
                    },
                    None => {},
                }
            },
            None => {},
        }
    }

    /// Builds the wire request: a full send, a delta continuation, or a stateless re-anchor.
    pub fn wire_request(&self, request: GenerationRequest) -> (r: Result<GenerationRequest, BackendError>)
        ensures
            r matches Ok(w) ==> wire_plan(stateful(self@), self@.anchor, request@) == Ok::<GenerationRequestView, ()>(w@),
            r matches Err(e) ==> wire_plan(stateful(self@), self@.anchor, request@) is Err && e is InvalidRequest,
            wire_plan(stateful(self@), self@.anchor, request@) is Err ==> r is Err,
    {
        let mut request = request;
        if !self.is_stateful() {
            request.previous_response_id = None;
            request.store = None;
            return Ok(request);
        }
        request.store = Some(true);
        let anchor = match &self.anchor {
            Some(a) => a,
            None => return Ok(request),
        };
        if !anchor.settings.matches_request(&request) {
            request.previous_response_id = None;
            return Ok(request);
        }
        let split = anchor.last_input.len();
        let extends = request.messages.len() > split && starts_with(&request.messages, &anchor.last_input)
            && match &request.messages[split] {
            Message::Assistant(a) => a.same_as(&anchor.last_assistant),
            _ => false,
        };
        proof {
            if request.messages.len() > split {
                assert(messages_view(request.messages@)[split as int] == request.messages@[split as int]@);
            }
        }
        if !extends || request.messages.len() == split + 1 {
            request.previous_response_id = None;
            return Ok(request);
        }
        let ghost before = messages_view(request.messages@);
        let delta = request.messages.split_off(split + 1);
        proof {
            assert(messages_view(delta@) =~= before.subrange(split + 1, before.len() as int));
        }
        match validate_append_tools(&delta, &anchor.last_assistant) {
            Ok(()) => {},
            Err(e) => return Err(e),
        }
        request.messages = delta;
        request.tools = None;
        request.tool_choice = None;
        request.previous_response_id = Some(anchor.previous_response_id.clone());
        Ok(request)
    }

    /// Starts a turn: adopts a completed stream, rejects tool results that answer no earlier
    /// tool call, and builds the wire request.
    pub fn begin_turn(&mut self, request: GenerationRequest) -> (r: Result<Turn, BackendError>)
        ensures
            final(self)@ == (ConversationView {
                anchor: adopted_anchor(old(self)@),
                pending: None,
                ..old(self)@
            }),
            !tool_results_answered(request@.messages) ==> (r matches Err(e) && e is InvalidRequest),
            tool_results_answered(request@.messages) ==> match r {
                Ok(t) => {
                    &&& wire_plan(stateful(final(self)@), final(self)@.anchor, request@) == Ok::<GenerationRequestView, ()>(t.wire@)
                    &&& t.settings@ == settings_of(request@)
                    &&& messages_view(t.last_input@) == request@.messages
                },
                Err(e) => wire_plan(stateful(final(self)@), final(self)@.anchor, request@) is Err && e is InvalidRequest,
            },
    {
        self.adopt_pending_stream();
        match validate_tool_results(&request.messages) {
            Ok(()) => {},
            Err(e) => return Err(e),
        }
        let settings = Settings::from_request(&request);
        let last_input = clone_messages(&request.messages);
        let wire = match self.wire_request(request) {
            Ok(w) => w,
            Err(e) => return Err(e),
        };
        Ok(Turn { wire, settings, last_input })
    }

    /// Records a completed non-streaming turn as the new anchor.
    pub fn complete_turn(&mut self, settings: Settings, last_input: Vec<Message>, response: &GenerationResponse)
        ensures
            final(self)@ == (ConversationView {
                anchor: Some(
                    AnchorView {
                        settings: settings@,
                        last_input: messages_view(last_input@),
                        last_assistant: response@.message,
                        previous_response_id: response@.id,
                    },
                ),
                ..old(self)@
            }),
    {
        self.anchor = Some(
            Anchor {
                settings,
                last_input,
                last_assistant: response.message.clone(),
                previous_response_id: response.id.clone(),
            },
        );
    }

    /// Forgets the anchor after a failed turn: the next turn is a full re-anchoring send.
    pub fn fail_turn(&mut self)
        ensures
            final(self)@ == (ConversationView { anchor: None, ..old(self)@ }),
    {
        self.anchor = None;
    }
}

// ---------------------------------------------------------------------------
// Stream assembly
// ---------------------------------------------------------------------------

/// A single in-flight tool call being assembled from `ToolCall` deltas.
#[derive(Debug)]
pub struct AccumulatingCall {
    pub id: Option<String>,
    pub name: Option<String>,
    pub arguments: String,
}

pub struct AccumulatingCallView {
    pub id: Option<Seq<char>>,
    pub name: Option<Seq<char>>,
    pub arguments: Seq<char>,
}

impl View for AccumulatingCall {
    type V = AccumulatingCallView;

    open spec fn view(&self) -> AccumulatingCallView {
        AccumulatingCallView {
            id: opt_str_view(self.id),
            name: opt_str_view(self.name),
            arguments: self.arguments@,
        }
    }
}

/// Views a sequence of accumulating calls.
pub open spec fn acc_view(s: Seq<AccumulatingCall>) -> Seq<AccumulatingCallView> {
    s.map_values(|c: AccumulatingCall| c@)
}

/// A call slot with nothing accumulated yet.
pub open spec fn empty_call() -> AccumulatingCallView {
    AccumulatingCallView { id: None, name: None, arguments: Seq::empty() }
}

/// The call slot index a delta addresses (protocols without an index address slot 0).
pub open spec fn delta_slot(d: crate::types::stream::ToolCallDeltaView) -> int {
    match d.index {
        Some(i) => i as int,
        None => 0,
    }
}

/// Grows `calls` with empty slots until slot `idx` exists.
pub open spec fn grow_calls(calls: Seq<AccumulatingCallView>, idx: int) -> Seq<AccumulatingCallView> {
    if calls.len() > idx {
        calls
    } else {
        calls + Seq::new((idx + 1 - calls.len()) as nat, |_i: int| empty_call())
    }
}

/// The call slots after applying one tool-call delta: `id`/`name` overwrite when present and
/// the arguments fragment is appended.
pub open spec fn apply_call_delta(
    calls: Seq<AccumulatingCallView>,
    d: crate::types::stream::ToolCallDeltaView,
) -> Seq<AccumulatingCallView> {
    let idx = delta_slot(d);
    let g = grow_calls(calls, idx);
    let c = g[idx];
    g.update(
        idx,
        AccumulatingCallView {
            id: if d.id is Some { d.id } else { c.id },
            name: if d.name is Some { d.name } else { c.name },
            arguments: match d.arguments {
                Some(a) => c.arguments + a,
                None => c.arguments,
            },
        },
    )
}

/// The tool calls whose id and name both arrived, in slot order.
pub open spec fn complete_calls(s: Seq<AccumulatingCallView>) -> Seq<ToolCallView>
    decreases s.len(),
{
    if s.len() == 0 {
        Seq::empty()
    } else {
        let prev = complete_calls(s.drop_last());
        let c = s.last();
        if c.id is Some && c.name is Some {
            prev.push(ToolCallView { id: c.id->0, name: c.name->0, arguments: c.arguments })
        } else {
            prev
        }
    }
}

/// Whether a streamed tool-call slot received both its id and its name.
pub open spec fn slot_complete(c: AccumulatingCallView) -> bool {
    c.id is Some && c.name is Some
}

/// The tool call a complete slot stands for.
pub open spec fn slot_call(c: AccumulatingCallView) -> ToolCallView {
    ToolCallView { id: c.id->0, name: c.name->0, arguments: c.arguments }
}

/// The tool calls of an assembled stream are exactly its complete slots, in slot order: a slot
/// that never received an id or a name is dropped.
pub proof fn law_stream_keeps_complete_tool_calls_in_order(s: Seq<AccumulatingCallView>)
    ensures
        complete_calls(s) == s.filter(|c: AccumulatingCallView| slot_complete(c)).map_values(
            |c: AccumulatingCallView| slot_call(c),
        ),
    decreases s.len(),
{
    reveal(Seq::filter);
    let p = |c: AccumulatingCallView| slot_complete(c);
    let f = |c: AccumulatingCallView| slot_call(c);
    if s.len() == 0 {
        assert(s.filter(p) =~= Seq::<AccumulatingCallView>::empty());
        assert(s.filter(p).map_values(f) =~= Seq::<ToolCallView>::empty());
    } else {
        law_stream_keeps_complete_tool_calls_in_order(s.drop_last());
        let prev = s.drop_last().filter(p);
        if p(s.last()) {
            assert(s.filter(p) == prev.push(s.last()));
            assert(prev.push(s.last()).map_values(f) =~= prev.map_values(f).push(f(s.last())));
        } else {
            assert(s.filter(p) == prev);
        }
    }
}

/// The assistant message assembled from streamed text, reasoning and tool-call slots.
pub open spec fn assembled(content: Seq<char>, reasoning: Seq<char>, calls: Seq<AccumulatingCallView>)
    -> AssistantMessageView {
    AssistantMessageView {
        content: if content.len() == 0 { None } else { Some(content) },
        tool_calls: complete_calls(calls),
        reasoning: if reasoning.len() == 0 {
            None
        } else {
            Some(
                ReasoningView {
                    text: Some(reasoning),
                    id: None,
                    encrypted: None,
                    signature: None,
                    redacted: None,
                },
            )
        },
    }
}

/// Stream-side accumulation of the assistant message from normalized events.
#[derive(Debug)]
pub struct StreamState {
    settings: Settings,
    messages: Vec<Message>,
    content: String,
    reasoning: String,
    tool_calls: Vec<AccumulatingCall>,
}

pub struct StreamStateView {
    pub settings: SettingsView,
    pub messages: Seq<MessageView>,
    pub content: Seq<char>,
    pub reasoning: Seq<char>,
    pub tool_calls: Seq<AccumulatingCallView>,
}

impl View for StreamState {
    type V = StreamStateView;

    closed spec fn view(&self) -> StreamStateView {
        StreamStateView {
            settings: self.settings@,
            messages: messages_view(self.messages@),
            content: self.content@,
            reasoning: self.reasoning@,
            tool_calls: acc_view(self.tool_calls@),
        }
    }
}

/// The stream state after observing one event.
pub open spec fn observe_state(s: StreamStateView, e: GenerationEventView) -> StreamStateView {
    match e {
        GenerationEventView::Text { delta } => StreamStateView { content: s.content + delta, ..s },
        GenerationEventView::Reasoning { delta } => StreamStateView {
            reasoning: s.reasoning + delta,
            ..s
        },
        GenerationEventView::ToolCall { delta } => StreamStateView {
            tool_calls: apply_call_delta(s.tool_calls, delta),
            ..s
        },
        _ => s,
    }
}

/// The capture a stream records on an `End` event, if the event is one.
pub open spec fn observe_capture(s: StreamStateView, e: GenerationEventView) -> Option<StreamCaptureView> {
    match e {
        GenerationEventView::End { response_id, .. } => Some(
            StreamCaptureView {
                settings: s.settings,
                messages: s.messages,
                assistant: assembled(s.content, s.reasoning, s.tool_calls),
                response_id,
            },
        ),
        _ => None,
    }
}

/// Assembles the tool calls whose id and name both arrived.
fn build_calls(calls: &Vec<AccumulatingCall>) -> (r: Vec<ToolCall>)
    ensures
        calls_view(r@) == complete_calls(acc_view(calls@)),
{
    let mut out: Vec<ToolCall> = Vec::new();
    let mut i: usize = 0;
    while i < calls.len()
        invariant
            i <= calls.len(),
            calls_view(out@) == complete_calls(acc_view(calls@).subrange(0, i as int)),
        decreases calls.len() - i,
    {
        let ghost pre = out@;
        proof {
            let t = acc_view(calls@).subrange(0, i as int + 1);
            assert(t.drop_last() =~= acc_view(calls@).subrange(0, i as int));
            assert(t.last() == calls@[i as int]@);
        }
        match (&calls[i].id, &calls[i].name) {
            (Some(id), Some(name)) => {
                out.push(ToolCall { id: id.clone(), name: name.clone(), arguments: calls[i].arguments.clone() });
                proof {
                    assert(calls_view(out@) =~= calls_view(pre).push(out@[i as int - (i as int - pre.len())]@));
                }
            },
            _ => {},
        }
        i = i + 1;
    }
    assert(acc_view(calls@).subrange(0, calls@.len() as int) =~= acc_view(calls@));
    out
}

/// Assembles the assistant message from the accumulated stream state.
fn build_assistant(content: &String, reasoning: &String, calls: &Vec<AccumulatingCall>) -> (r: AssistantMessage)
    ensures
        r@ == assembled(content@, reasoning@, acc_view(calls@)),
{
    let tool_calls = build_calls(calls);
    let reasoning = if reasoning.as_str().is_empty() {
        None
    } else {
        Some(
            Reasoning {
                text: Some(reasoning.clone()),
                id: None,
                encrypted: None,
                signature: None,
                redacted: None,
            },
        )
    };
    let content = if content.as_str().is_empty() {
        None
    } else {
        Some(content.clone())
    };
    AssistantMessage { content, tool_calls, reasoning }
}

impl StreamState {
    /// Starts assembling a streamed turn for the given settings and full input.
    pub fn new(settings: Settings, messages: Vec<Message>) -> (r: Self)
        ensures
            r@ == (StreamStateView {
                settings: settings@,
                messages: messages_view(messages@),
                content: Seq::empty(),
                reasoning: Seq::empty(),
                tool_calls: Seq::empty(),
            }),
    {
        let calls: Vec<AccumulatingCall> = Vec::new();
        assert(acc_view(calls@) =~= Seq::<AccumulatingCallView>::empty());
        StreamState { settings, messages, content: String::new(), reasoning: String::new(), tool_calls: calls }
    }

    /// Applies one tool-call delta to the call slots.
    fn apply_delta(&mut self, delta: &crate::types::stream::ToolCallDelta)
        ensures
            final(self)@ == (StreamStateView {
                tool_calls: apply_call_delta(old(self)@.tool_calls, delta@),
                ..old(self)@
            }),
    {
        let index: usize = match delta.index {
            Some(i) => i as usize,
            None => 0,
        };
        let ghost start = acc_view(self.tool_calls@);
        while self.tool_calls.len() <= index
            invariant
                acc_view(self.tool_calls@) == grow_calls(start, index as int).subrange(0, self.tool_calls@.len() as int),
                start.len() <= self.tool_calls@.len() || self.tool_calls@.len() == start.len(),
                self.tool_calls@.len() >= start.len(),
                self.tool_calls@.len() <= grow_calls(start, index as int).len(),
                self.settings == old(self).settings,
                self.messages == old(self).messages,
                self.content == old(self).content,
                self.reasoning == old(self).reasoning,
            decreases index + 1 - self.tool_calls@.len(),
        {
            let ghost pre = self.tool_calls@;
            self.tool_calls.push(AccumulatingCall { id: None, name: None, arguments: String::new() });
            proof {
                let g = grow_calls(start, index as int);
                assert(acc_view(self.tool_calls@) =~= g.subrange(0, self.tool_calls@.len() as int));
            }
        }
        proof {
            let g = grow_calls(start, index as int);
            assert(acc_view(self.tool_calls@) =~= g);
        }
        let ghost g = acc_view(self.tool_calls@);
        let mut slot = AccumulatingCall { id: None, name: None, arguments: String::new() };
        std::mem::swap(&mut slot, &mut self.tool_calls[index]);
        match &delta.id {
            Some(id) => {
                slot.id = Some(id.clone());
            },
            None => {},
        }
        match &delta.name {
            Some(name) => {
                slot.name = Some(name.clone());
            },
            None => {},
        }
        match &delta.arguments {
            Some(arguments) => {
                slot.arguments.append(arguments.as_str());
            },
            None => {},
        }
        self.tool_calls.set(index, slot);
        proof {
            assert(acc_view(self.tool_calls@) =~= apply_call_delta(start, delta@));
        }
    }

    /// Passes one item of the backend's stream through unchanged (errors and the stream's end
    /// included), observing it when it is an event; returns the capture to record when the event
    /// is the terminal `End`.
    pub fn forward(&mut self, item: Option<Result<GenerationEvent, TransportError>>) -> (r: (
        Option<Result<GenerationEvent, TransportError>>,
        Option<StreamCapture>,
    ))
        ensures
            r.0 == item,
            item matches Some(Ok(e)) ==> final(self)@ == observe_state(old(self)@, e@) && (r.1 matches Some(c)
                ==> observe_capture(old(self)@, e@) == Some(c@)) && (r.1 is None ==> observe_capture(
                old(self)@,
                e@,
            ) is None),
            !(item matches Some(Ok(_))) ==> final(self)@ == old(self)@ && r.1 is None,
    {
        let capture = match &item {
            Some(Ok(event)) => self.observe(event),
            _ => None,
        };
        (item, capture)
    }

    /// Observes one forwarded event: text, reasoning and tool-call deltas accumulate; an `End`
    /// event yields the capture to record (assembled message plus the event's response id).
    pub fn observe(&mut self, event: &GenerationEvent) -> (r: Option<StreamCapture>)
        ensures
            final(self)@ == observe_state(old(self)@, event@),
            r matches Some(c) ==> observe_capture(old(self)@, event@) == Some(c@),
            r is None ==> observe_capture(old(self)@, event@) is None,
    {
        match event {
            GenerationEvent::Text { delta } => {
                self.content.append(delta.as_str());
                None
            },
            GenerationEvent::Reasoning { delta } => {
                self.reasoning.append(delta.as_str());
                None
            },
            GenerationEvent::ToolCall { delta } => {
                self.apply_delta(delta);
                None
            },
            GenerationEvent::End { response_id, .. } => {
                let assistant = build_assistant(&self.content, &self.reasoning, &self.tool_calls);
                Some(
                    StreamCapture {
                        settings: self.settings.duplicate(),
                        messages: clone_messages(&self.messages),
                        assistant,
                        response_id: crate::types::message::clone_opt_str(response_id),
                    },
                )
            },
            _ => None,
        }
    }
}

// ---------------------------------------------------------------------------
// Laws
// ---------------------------------------------------------------------------

/// On a stateless backend, or with storage disabled, every turn passes the caller's full list
/// through unchanged and carries neither `previous_response_id` nor `store`.
pub proof fn law_stateless_passes_through(c: ConversationView, r: GenerationRequestView)
    requires
        !stateful(c),
    ensures
        wire_plan(stateful(c), c.anchor, r) == Ok::<GenerationRequestView, ()>(
            GenerationRequestView { previous_response_id: None, store: None, ..r },
        ),
{
}

/// The first turn of a stateful conversation (no anchor yet) is a full send with storage on.
pub proof fn law_first_turn_is_stored(c: ConversationView, r: GenerationRequestView)
    requires
        stateful(c),
        c.anchor is None,
    ensures
        wire_plan(stateful(c), c.anchor, r) == Ok::<GenerationRequestView, ()>(
            GenerationRequestView { store: Some(true), ..r },
        ),
{
}

/// Any divergence from the anchored conversation (a changed setting, a trimmed or rewritten
/// history, a missing mirror of the last assistant turn, or a regenerate of the identical
/// list) goes out as a full stateless send: the caller's full list, storage on, no
/// `previous_response_id`.
pub proof fn law_divergence_goes_stateless(c: ConversationView, a: AnchorView, r: GenerationRequestView)
    requires
        stateful(c),
        c.anchor == Some(a),
        !continues_anchor(a, r),
    ensures
        wire_plan(stateful(c), c.anchor, r) == Ok::<GenerationRequestView, ()>(
            GenerationRequestView { previous_response_id: None, store: Some(true), ..r },
        ),
{
}

/// A pure append to the anchored conversation sends only the appended messages, chained to the
/// stored response by `previous_response_id`, with storage on and tools omitted.
pub proof fn law_pure_append_sends_delta(
    c: ConversationView,
    a: AnchorView,
    r: GenerationRequestView,
    delta: Seq<MessageView>,
)
    requires
        stateful(c),
        c.anchor == Some(a),
        settings_match(a.settings, settings_of(r)),
        r.messages == a.last_input.push(MessageView::Assistant(a.last_assistant)) + delta,
        delta.len() > 0,
        append_answers(delta, a.last_assistant),
    ensures
        wire_plan(stateful(c), c.anchor, r) == Ok::<GenerationRequestView, ()>(
            GenerationRequestView {
                messages: delta,
                tools: None,
                tool_choice: None,
                previous_response_id: Some(a.previous_response_id),
                store: Some(true),
                ..r
            },
        ),
{
    let k = a.last_input.len() as int;
    assert(r.messages.subrange(0, k) =~= a.last_input);
    assert(r.messages[k] == MessageView::Assistant(a.last_assistant));
    assert(append_delta(a, r.messages) =~= delta);
}

/// A continuation whose new tool results do not all answer the previous assistant turn's tool
/// calls is rejected.
pub proof fn law_unanswered_tool_result_rejected(
    c: ConversationView,
    a: AnchorView,
    r: GenerationRequestView,
)
    requires
        stateful(c),
        c.anchor == Some(a),
        continues_anchor(a, r),
        !append_answers(append_delta(a, r.messages), a.last_assistant),
    ensures
        wire_plan(stateful(c), c.anchor, r) is Err,
{
}

/// Whether no float setting is NaN.
pub open spec fn settings_without_nan(s: SettingsView) -> bool {
    &&& (s.temperature matches Some(t) ==> !crate::types::shared::f32_is_nan(t.bits))
    &&& (s.top_p matches Some(t) ==> !crate::types::shared::f32_is_nan(t.bits))
    &&& (s.frequency_penalty matches Some(t) ==> !crate::types::shared::f32_is_nan(t.bits))
    &&& (s.presence_penalty matches Some(t) ==> !crate::types::shared::f32_is_nan(t.bits))
}

/// Completing a turn and then mirroring its answer: when a stateful conversation completes a
/// turn for request `r1` with response `(id, assistant)`, a next request with the same
/// settings whose list is `r1`'s list, the mirrored assistant message and at least one new
/// message (whose tool results answer that assistant's calls) is sent as just the new messages,
/// chained to `id`. Float settings must not be NaN (NaN equals nothing, so such a chain always
/// re-anchors).
pub proof fn law_completed_turn_chains_next_append(
    c: ConversationView,
    r1: GenerationRequestView,
    id: Seq<char>,
    assistant: AssistantMessageView,
    r2: GenerationRequestView,
    delta: Seq<MessageView>,
)
    requires
        stateful(c),
        settings_of(r2) == settings_of(r1),
        settings_without_nan(settings_of(r1)),
        r2.messages == r1.messages.push(MessageView::Assistant(assistant)) + delta,
        delta.len() > 0,
        append_answers(delta, assistant),
    ensures
        ({
            let after = ConversationView {
                anchor: Some(
                    AnchorView {
                        settings: settings_of(r1),
                        last_input: r1.messages,
                        last_assistant: assistant,
                        previous_response_id: id,
                    },
                ),
                ..c
            };
            wire_plan(stateful(after), after.anchor, r2) == Ok::<GenerationRequestView, ()>(
                GenerationRequestView {
                    messages: delta,
                    tools: None,
                    tool_choice: None,
                    previous_response_id: Some(id),
                    store: Some(true),
                    ..r2
                },
            )
        }),
{
    let a = AnchorView {
        settings: settings_of(r1),
        last_input: r1.messages,
        last_assistant: assistant,
        previous_response_id: id,
    };
    let after = ConversationView { anchor: Some(a), ..c };
    assert(settings_match(a.settings, settings_of(r2)));
    law_pure_append_sends_delta(after, a, r2, delta);
}

/// A completed stream whose `End` event carried a response id becomes the anchor on the next
/// turn; one without a response id (stateless backend) leaves the previous anchor in place.
pub proof fn law_stream_capture_adoption(c: ConversationView, cap: StreamCaptureView)
    requires
        c.pending == Some(cap),
    ensures
        cap.response_id matches Some(id) ==> adopted_anchor(c) == Some(
            AnchorView {
                settings: cap.settings,
                last_input: cap.messages,
                last_assistant: cap.assistant,
                previous_response_id: id,
            },
        ),
        cap.response_id is None ==> adopted_anchor(c) == c.anchor,
        last_message_of(c) == Some(MessageView::Assistant(cap.assistant)),
{
}

/// The stream state after observing a sequence of events in order.
pub open spec fn observe_all(s: StreamStateView, events: Seq<GenerationEventView>) -> StreamStateView
    decreases events.len(),
{
    if events.len() == 0 {
        s
    } else {
        observe_state(observe_all(s, events.drop_last()), events.last())
    }
}

/// The concatenation of the text deltas among a sequence of events.
pub open spec fn text_of_events(events: Seq<GenerationEventView>) -> Seq<char>
    decreases events.len(),
{
    if events.len() == 0 {
        Seq::empty()
    } else {
        let prev = text_of_events(events.drop_last());
        match events.last() {
            GenerationEventView::Text { delta } => prev + delta,
            _ => prev,
        }
    }
}

/// The concatenation of the reasoning deltas among a sequence of events.
pub open spec fn reasoning_of_events(events: Seq<GenerationEventView>) -> Seq<char>
    decreases events.len(),
{
    if events.len() == 0 {
        Seq::empty()
    } else {
        let prev = reasoning_of_events(events.drop_last());
        match events.last() {
            GenerationEventView::Reasoning { delta } => prev + delta,
            _ => prev,
        }
    }
}

/// A streamed turn's assembled text is the concatenation of its text deltas in order, and its
/// reasoning the concatenation of its reasoning deltas; the turn's settings and input are kept.
pub proof fn law_stream_text_is_concatenation(s: StreamStateView, events: Seq<GenerationEventView>)
    ensures
        observe_all(s, events).content == s.content + text_of_events(events),
        observe_all(s, events).reasoning == s.reasoning + reasoning_of_events(events),
        observe_all(s, events).settings == s.settings,
        observe_all(s, events).messages == s.messages,
    decreases events.len(),
{
    if events.len() > 0 {
        law_stream_text_is_concatenation(s, events.drop_last());
        let prev = observe_all(s, events.drop_last());
        match events.last() {
            GenerationEventView::Text { delta } => {
                assert(s.content + text_of_events(events.drop_last()) + delta =~= s.content + (
                text_of_events(events.drop_last()) + delta));
            },
            GenerationEventView::Reasoning { delta } => {
                assert(s.reasoning + reasoning_of_events(events.drop_last()) + delta =~= s.reasoning
                    + (reasoning_of_events(events.drop_last()) + delta));
            },
            _ => {},
        }
    } else {
        assert(s.content + Seq::<char>::empty() =~= s.content);
        assert(s.reasoning + Seq::<char>::empty() =~= s.reasoning);
    }
}

/// A streamed turn, from a fresh stream state: on its `End` event the conversation remembers
/// the assistant message assembled from the text and reasoning deltas seen before it (each the
/// concatenation of its deltas, in order), and the next turn adopts it as the anchor exactly
/// when the event carried a response id. A stream that never ends records nothing, and then
/// the anchor stays as it was.
pub proof fn law_streamed_turn_is_remembered(
    c: ConversationView,
    s: StreamStateView,
    before_end: Seq<GenerationEventView>,
    end: GenerationEventView,
)
    requires
        s.content.len() == 0,
        s.reasoning.len() == 0,
        end is End,
    ensures
        ({
            let st = observe_all(s, before_end);
            let text = text_of_events(before_end);
            let reasoning = reasoning_of_events(before_end);
            let assistant = assembled(text, reasoning, st.tool_calls);
            &&& observe_capture(st, end) matches Some(cap)
            &&& cap.assistant == assistant
            &&& cap.settings == s.settings
            &&& cap.messages == s.messages
            &&& cap.response_id == end->response_id
            &&& last_message_of(ConversationView { pending: Some(cap), ..c }) == Some(MessageView::Assistant(assistant))
            &&& (end->response_id matches Some(id) ==> adopted_anchor(ConversationView { pending: Some(cap), ..c })
                == Some(AnchorView {
                    settings: s.settings,
                    last_input: s.messages,
                    last_assistant: assistant,
                    previous_response_id: id,
                }))
            &&& (end->response_id is None ==> adopted_anchor(ConversationView { pending: Some(cap), ..c }) == c.anchor)
        }),
        c.pending is None ==> adopted_anchor(c) == c.anchor,
{
    law_stream_text_is_concatenation(s, before_end);
    assert(Seq::<char>::empty() + text_of_events(before_end) =~= text_of_events(before_end));
    assert(Seq::<char>::empty() + reasoning_of_events(before_end) =~= reasoning_of_events(before_end));
    assert(s.content =~= Seq::<char>::empty());
    assert(s.reasoning =~= Seq::<char>::empty());
    let st = observe_all(s, before_end);
    let cap = observe_capture(st, end)->0;
    law_stream_capture_adoption(ConversationView { pending: Some(cap), ..c }, cap);
}

/// At an `End` event the assistant message is built from the stream state: its text if any
/// arrived (else none), its reasoning as a reasoning text with nothing else set if any arrived
/// (else none), and the tool calls of the slots that received both an id and a name, in slot
/// order; slots missing either are dropped.
pub proof fn law_end_event_assembles_assistant(s: StreamStateView, end: GenerationEventView)
    requires
        end is End,
    ensures
        observe_capture(s, end) matches Some(cap) && cap.assistant == (AssistantMessageView {
            content: if s.content.len() == 0 { None } else { Some(s.content) },
            reasoning: if s.reasoning.len() == 0 {
                None
            } else {
                Some(ReasoningView { text: Some(s.reasoning), id: None, encrypted: None, signature: None, redacted: None })
            },
            tool_calls: s.tool_calls.filter(|c: AccumulatingCallView| slot_complete(c)).map_values(
                |c: AccumulatingCallView| slot_call(c),
            ),
        }),
{
    law_stream_keeps_complete_tool_calls_in_order(s.tool_calls);
}

/// A turn whose model differs from the anchored turn's model goes out as a full stateless send:
/// the caller's whole message list, storage on, no `previous_response_id`.
pub proof fn law_changed_model_goes_stateless(c: ConversationView, a: AnchorView, r: GenerationRequestView)
    requires
        stateful(c),
        c.anchor == Some(a),
        r.model != a.settings.model,
    ensures
        wire_plan(stateful(c), c.anchor, r) == Ok::<GenerationRequestView, ()>(
            GenerationRequestView { previous_response_id: None, store: Some(true), ..r },
        ),
{
}

/// A turn is chained onto the anchored response only when every generation setting of the
/// request equals the anchored turn's: the same model, tools, tool choice, sampling values,
/// token limits, stop sequences, response format, log-probability options and reasoning effort.
pub proof fn law_chained_turn_keeps_every_setting(
    c: ConversationView,
    a: AnchorView,
    r: GenerationRequestView,
    w: GenerationRequestView,
)
    requires
        stateful(c),
        c.anchor == Some(a),
        wire_plan(stateful(c), c.anchor, r) == Ok::<GenerationRequestView, ()>(w),
        w.previous_response_id is Some,
    ensures
        r.model == a.settings.model,
        r.tools == a.settings.tools,
        r.tool_choice == a.settings.tool_choice,
        opt_f32_eq(a.settings.temperature, r.temperature),
        opt_f32_eq(a.settings.top_p, r.top_p),
        r.top_k == a.settings.top_k,
        r.max_tokens == a.settings.max_tokens,
        r.stop == a.settings.stop,
        opt_f32_eq(a.settings.frequency_penalty, r.frequency_penalty),
        opt_f32_eq(a.settings.presence_penalty, r.presence_penalty),
        r.response_format == a.settings.response_format,
        r.logprobs == a.settings.logprobs,
        r.top_logprobs == a.settings.top_logprobs,
        r.reasoning_effort == a.settings.reasoning_effort,
        w.previous_response_id == Some(a.previous_response_id),
{
}

/// The argument fragments streamed for a tool-call slot, concatenated in order.
pub open spec fn slot_fragments(events: Seq<GenerationEventView>, slot: int) -> Seq<char>
    decreases events.len(),
{
    if events.len() == 0 {
        Seq::empty()
    } else {
        let prev = slot_fragments(events.drop_last(), slot);
        match events.last() {
            GenerationEventView::ToolCall { delta } => if delta.index.unwrap_or(0) as int == slot {
                match delta.arguments {
                    Some(a) => prev + a,
                    None => prev,
                }
            } else {
                prev
            },
            _ => prev,
        }
    }
}

/// A streamed tool call's arguments are the concatenation, in order, of every argument
/// fragment addressed to its slot (after what the slot already held); a slot that no delta
/// has reached yet has received no fragment, and slots are never removed.
pub proof fn law_tool_call_arguments_concatenate(s: StreamStateView, events: Seq<GenerationEventView>)
    ensures
        observe_all(s, events).tool_calls.len() >= s.tool_calls.len(),
        forall|i: int|
            0 <= i < observe_all(s, events).tool_calls.len() ==> #[trigger] observe_all(s, events).tool_calls[i].arguments
                == (if i < s.tool_calls.len() {
                s.tool_calls[i].arguments
            } else {
                Seq::<char>::empty()
            }) + slot_fragments(events, i),
        forall|i: int|
            i >= observe_all(s, events).tool_calls.len() ==> #[trigger] slot_fragments(events, i) == Seq::<char>::empty(),
    decreases events.len(),
{
    if events.len() == 0 {
        assert forall|i: int| 0 <= i < s.tool_calls.len() implies #[trigger] s.tool_calls[i].arguments == s.tool_calls[i].arguments
            + slot_fragments(events, i) by {
            assert(s.tool_calls[i].arguments + Seq::<char>::empty() =~= s.tool_calls[i].arguments);
        }
    } else {
        let before = events.drop_last();
        law_tool_call_arguments_concatenate(s, before);
        let prev = observe_all(s, before);
        let cur = observe_all(s, events);
        match events.last() {
            GenerationEventView::ToolCall { delta } => {
                let idx = delta_slot(delta);
                let g = grow_calls(prev.tool_calls, idx);
                assert(cur.tool_calls == apply_call_delta(prev.tool_calls, delta));
                assert forall|i: int| 0 <= i < cur.tool_calls.len() implies #[trigger] cur.tool_calls[i].arguments == (if i
                    < s.tool_calls.len() {
                    s.tool_calls[i].arguments
                } else {
                    Seq::<char>::empty()
                }) + slot_fragments(events, i) by {
                    let base = if i < s.tool_calls.len() {
                        s.tool_calls[i].arguments
                    } else {
                        Seq::<char>::empty()
                    };
                    if i < prev.tool_calls.len() {
                        assert(g[i] == prev.tool_calls[i]);
                        assert(prev.tool_calls[i].arguments == base + slot_fragments(before, i));
                    } else {
                        assert(g[i] == empty_call());
                        assert(slot_fragments(before, i) == Seq::<char>::empty());
                        assert(base + slot_fragments(before, i) =~= Seq::<char>::empty());
                    }
                    if i == idx {
                        match delta.arguments {
                            Some(a) => {
                                assert(base + slot_fragments(before, i) + a =~= base + (slot_fragments(before, i) + a));
                            },
                            None => {},
                        }
                    }
                }
                assert forall|i: int| i >= cur.tool_calls.len() implies #[trigger] slot_fragments(events, i)
                    == Seq::<char>::empty() by {
                    assert(slot_fragments(before, i) == Seq::<char>::empty());
                }
            },
            _ => {
                assert forall|i: int| 0 <= i < cur.tool_calls.len() implies #[trigger] cur.tool_calls[i].arguments == (if i
                    < s.tool_calls.len() {
                    s.tool_calls[i].arguments
                } else {
                    Seq::<char>::empty()
                }) + slot_fragments(events, i) by {
                    assert(prev.tool_calls[i].arguments == (if i < s.tool_calls.len() {
                        s.tool_calls[i].arguments
                    } else {
                        Seq::<char>::empty()
                    }) + slot_fragments(before, i));
                }
                assert forall|i: int| i >= cur.tool_calls.len() implies #[trigger] slot_fragments(events, i)
                    == Seq::<char>::empty() by {
                    assert(slot_fragments(before, i) == Seq::<char>::empty());
                }
            },
        }
    }
}

} // verus!
