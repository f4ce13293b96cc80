//! Protocol-neutral generation request.
use vstd::prelude::*;

use crate::types::message::{
    messages_view, opt_str_view, Message, MessageContentView, MessageView,
};
use crate::types::shared::{
    opt_choice_view, opt_stop_view, opt_tools_view, tools_view, FloatBits, ReasoningEffort,
    ResponseFormat, StopSequence, StopSequenceView, ToolChoice, ToolChoiceView, ToolDefinition,
    ToolDefinitionView,
};

verus! {

/// Normalized generation request understood by LLM client backends.
///
/// The field set is the protocol-neutral common core shared across chat completions, the
/// Responses API, and Anthropic Messages. `previous_response_id` and `store` carry stateful
/// continuation on Responses-family backends.
#[derive(Debug, PartialEq)]
pub struct GenerationRequest {
    pub model: String,
    pub messages: Vec<Message>,
    pub tools: Option<Vec<ToolDefinition>>,
    pub tool_choice: Option<ToolChoice>,
    pub temperature: Option<FloatBits>,
    pub top_p: Option<FloatBits>,
    pub top_k: Option<u32>,
    pub max_tokens: Option<u32>,
    pub stream: Option<bool>,
    pub stop: Option<StopSequence>,
    pub frequency_penalty: Option<FloatBits>,
    pub presence_penalty: Option<FloatBits>,
    pub response_format: Option<ResponseFormat>,
    pub logprobs: Option<bool>,
    pub top_logprobs: Option<u8>,
    pub reasoning_effort: Option<ReasoningEffort>,
    pub previous_response_id: Option<String>,
    pub store: Option<bool>,
}

pub struct GenerationRequestView {
    pub model: Seq<char>,
    pub messages: Seq<MessageView>,
    pub tools: Option<Seq<ToolDefinitionView>>,
    pub tool_choice: Option<ToolChoiceView>,
    pub temperature: Option<FloatBits>,
    pub top_p: Option<FloatBits>,
    pub top_k: Option<u32>,
    pub max_tokens: Option<u32>,
    pub stream: Option<bool>,
    pub stop: Option<StopSequenceView>,
    pub frequency_penalty: Option<FloatBits>,
    pub presence_penalty: Option<FloatBits>,
    pub response_format: Option<ResponseFormat>,
    pub logprobs: Option<bool>,
    pub top_logprobs: Option<u8>,
    pub reasoning_effort: Option<ReasoningEffort>,
    pub previous_response_id: Option<Seq<char>>,
    pub store: Option<bool>,
}

impl View for GenerationRequest {
    type V = GenerationRequestView;

    open spec fn view(&self) -> GenerationRequestView {
        GenerationRequestView {
            model: self.model@,
            messages: messages_view(self.messages@),
            tools: opt_tools_view(self.tools),
            tool_choice: opt_choice_view(self.tool_choice),
            temperature: self.temperature,
            top_p: self.top_p,
            top_k: self.top_k,
            max_tokens: self.max_tokens,
            stream: self.stream,
            stop: opt_stop_view(self.stop),
            frequency_penalty: self.frequency_penalty,
            presence_penalty: self.presence_penalty,
            response_format: self.response_format,
            logprobs: self.logprobs,
            top_logprobs: self.top_logprobs,
            reasoning_effort: self.reasoning_effort,
            previous_response_id: opt_str_view(self.previous_response_id),
            store: self.store,
        }
    }
}

/// Number of messages in the leading block of system messages.
pub open spec fn leading_system_count(s: Seq<MessageView>) -> nat
    decreases s.len(),
{
    if s.len() == 0 {
        0
    } else if s[0] is System {
        1 + leading_system_count(s.drop_first())
    } else {
        0
    }
}

/// The leading system block of `s` has exactly `i` messages when the first `i` are system
/// messages and the message at `i` (if any) is not.
pub proof fn lemma_leading_system_count(s: Seq<MessageView>, i: int)
    requires
        0 <= i <= s.len(),
        forall|j: int| 0 <= j < i ==> #[trigger] s[j] is System,
        i == s.len() || !(s[i] is System),
    ensures
        leading_system_count(s) == i,
    decreases i,
{
    if i > 0 {
        let t = s.drop_first();
        assert forall|j: int| 0 <= j < i - 1 implies #[trigger] t[j] is System by {
            assert(t[j] == s[j + 1]);
        }
        if i - 1 < t.len() {
            assert(t[i - 1] == s[i]);
        }
        lemma_leading_system_count(t, i - 1);
    } else if s.len() > 0 {
        assert(!(s[0] is System));
    }
}

/// Every message before the leading-system count is a system message, and the count never
/// exceeds the length.
pub proof fn lemma_leading_system_prefix(s: Seq<MessageView>)
    ensures
        leading_system_count(s) <= s.len(),
        forall|j: int| 0 <= j < leading_system_count(s) ==> #[trigger] s[j] is System,
        leading_system_count(s) < s.len() ==> !(s[leading_system_count(s) as int] is System),
    decreases s.len(),
{
    if s.len() > 0 && s[0] is System {
        let t = s.drop_first();
        lemma_leading_system_prefix(t);
        assert forall|j: int| 0 <= j < leading_system_count(s) implies #[trigger] s[j] is System by {
            if j > 0 {
                assert(s[j] == t[j - 1]);
            }
        }
        if leading_system_count(s) < s.len() {
            assert(s[leading_system_count(s) as int] == t[leading_system_count(t) as int]);
        }
    }
}

/// Inserting a system message at the end of the leading system block grows that block by one
/// and leaves every other message in place, in order: repeated system-prompt injection keeps
/// the system messages grouped at the front in the order they were injected.
pub proof fn law_system_prompt_joins_leading_block(s: Seq<MessageView>, m: MessageView)
    requires
        m is System,
    ensures
        leading_system_count(s.insert(leading_system_count(s) as int, m)) == leading_system_count(s)
            + 1,
        s.insert(leading_system_count(s) as int, m)[leading_system_count(s) as int] == m,
        s.insert(leading_system_count(s) as int, m).len() == s.len() + 1,
        forall|j: int|
            0 <= j < leading_system_count(s) ==> #[trigger] s.insert(
                leading_system_count(s) as int,
                m,
            )[j] == s[j],
        forall|j: int|
            leading_system_count(s) <= j < s.len() ==> s.insert(leading_system_count(s) as int, m)[j
                + 1] == #[trigger] s[j],
{
    lemma_leading_system_prefix(s);
    let k = leading_system_count(s) as int;
    let t = s.insert(k, m);
    assert forall|j: int| 0 <= j < k + 1 implies #[trigger] t[j] is System by {
        if j < k {
            assert(t[j] == s[j]);
        }
    }
    if k + 1 < t.len() {
        assert(t[k + 1] == s[k]);
    }
    lemma_leading_system_count(t, k + 1);
}

impl GenerationRequest {
    /// Creates a minimal request with provider-neutral defaults.
    pub fn new(model: &str, messages: Vec<Message>) -> (r: Self)
        ensures
            r@ == (GenerationRequestView {
                model: model@,
                messages: messages_view(messages@),
                tools: None,
                tool_choice: None,
                temperature: None,
                top_p: None,
                top_k: None,
                max_tokens: None,
                stream: None,
                stop: None,
                frequency_penalty: None,
                presence_penalty: None,
                response_format: None,
                logprobs: None,
                top_logprobs: None,
                reasoning_effort: None,
                previous_response_id: None,
                store: None,
            }),
    {
        GenerationRequest {
            model: model.to_owned(),
            messages,
            tools: None,
            tool_choice: None,
            temperature: None,
            top_p: None,
            top_k: None,
            max_tokens: None,
            stream: None,
            stop: None,
            frequency_penalty: None,
            presence_penalty: None,
            response_format: None,
            logprobs: None,
            top_logprobs: None,
            reasoning_effort: None,
            previous_response_id: None,
            store: None,
        }
    }

    /// Sets the configured tools for the request.
    pub fn with_tools(self, tools: Vec<ToolDefinition>) -> (r: Self)
        ensures
            r@ == (GenerationRequestView { tools: Some(tools_view(tools@)), ..self@ }),
    {
        let mut s = self;
        s.tools = Some(tools);
        s
    }

    /// Sets the tool-choice behavior for the request.
    pub fn with_tool_choice(self, tool_choice: ToolChoice) -> (r: Self)
        ensures
            r@ == (GenerationRequestView { tool_choice: Some(tool_choice@), ..self@ }),
    {
        let mut s = self;
        s.tool_choice = Some(tool_choice);
        s
    }

    /// Sets the sampling temperature for the request.
    pub fn with_temperature(self, temperature: FloatBits) -> (r: Self)
        ensures
            r@ == (GenerationRequestView { temperature: Some(temperature), ..self@ }),
    {
        let mut s = self;
        s.temperature = Some(temperature);
        s
    }

    /// Sets the nucleus-sampling cutoff for the request.
    pub fn with_top_p(self, top_p: FloatBits) -> (r: Self)
        ensures
            r@ == (GenerationRequestView { top_p: Some(top_p), ..self@ }),
    {
        let mut s = self;
        s.top_p = Some(top_p);
        s
    }

    /// Restricts sampling to the top-K tokens.
    pub fn with_top_k(self, top_k: u32) -> (r: Self)
        ensures
            r@ == (GenerationRequestView { top_k: Some(top_k), ..self@ }),
    {
        let mut s = self;
        s.top_k = Some(top_k);
        s
    }

    /// Sets the maximum generated-token count for the request.
    pub fn with_max_tokens(self, max_tokens: u32) -> (r: Self)
        ensures
            r@ == (GenerationRequestView { max_tokens: Some(max_tokens), ..self@ }),
    {
        let mut s = self;
        s.max_tokens = Some(max_tokens);
        s
    }

    /// Sets custom stop sequences for the request.
    pub fn with_stop_sequences(self, stop: StopSequence) -> (r: Self)
        ensures
            r@ == (GenerationRequestView { stop: Some(stop@), ..self@ }),
    {
        let mut s = self;
        s.stop = Some(stop);
        s
    }

    /// Sets the frequency penalty for the request.
    pub fn with_frequency_penalty(self, frequency_penalty: FloatBits) -> (r: Self)
        ensures
            r@ == (GenerationRequestView { frequency_penalty: Some(frequency_penalty), ..self@ }),
    {
        let mut s = self;
        s.frequency_penalty = Some(frequency_penalty);
        s
    }

    /// Sets the presence penalty for the request.
    pub fn with_presence_penalty(self, presence_penalty: FloatBits) -> (r: Self)
        ensures
            r@ == (GenerationRequestView { presence_penalty: Some(presence_penalty), ..self@ }),
    {
        let mut s = self;
        s.presence_penalty = Some(presence_penalty);
        s
    }

    /// Sets the response-format hint for the request.
    pub fn with_response_format(self, response_format: ResponseFormat) -> (r: Self)
        ensures
            r@ == (GenerationRequestView { response_format: Some(response_format), ..self@ }),
    {
        let mut s = self;
        s.response_format = Some(response_format);
        s
    }

    /// Requests logprobs for the generated tokens.
    pub fn with_logprobs(self, logprobs: bool) -> (r: Self)
        ensures
            r@ == (GenerationRequestView { logprobs: Some(logprobs), ..self@ }),
    {
        let mut s = self;
        s.logprobs = Some(logprobs);
        s
    }

    /// Sets how many top logprobs to return per token.
    pub fn with_top_logprobs(self, top_logprobs: u8) -> (r: Self)
        ensures
            r@ == (GenerationRequestView { top_logprobs: Some(top_logprobs), ..self@ }),
    {
        let mut s = self;
        s.top_logprobs = Some(top_logprobs);
        s
    }

    /// Sets the requested reasoning effort.
    pub fn with_reasoning_effort(self, reasoning_effort: ReasoningEffort) -> (r: Self)
        ensures
            r@ == (GenerationRequestView { reasoning_effort: Some(reasoning_effort), ..self@ }),
    {
        let mut s = self;
        s.reasoning_effort = Some(reasoning_effort);
        s
    }

    /// Continues a stored Responses-family conversation from `previous_response_id`.
    pub fn with_previous_response_id(self, previous_response_id: &str) -> (r: Self)
        ensures
            r@ == (GenerationRequestView {
                previous_response_id: Some(previous_response_id@),
                ..self@
            }),
    {
        let mut s = self;
        s.previous_response_id = Some(previous_response_id.to_owned());
        s
    }

    /// Sets whether the provider stores the response for later continuation.
    pub fn with_store(self, store: bool) -> (r: Self)
        ensures
            r@ == (GenerationRequestView { store: Some(store), ..self@ }),
    {
        let mut s = self;
        s.store = Some(store);
        s
    }

    /// Inserts a system message at the end of the leading system-message block.
    ///
    /// Repeated calls preserve the order they are invoked while keeping system messages grouped
    /// at the front of the request.
    pub fn with_system_prompt(self, content: &str) -> (r: Self)
        ensures
            r@ == (GenerationRequestView {
                messages: self@.messages.insert(
                    leading_system_count(self@.messages) as int,
                    MessageView::System { content: MessageContentView::Text(content@) },
                ),
                ..self@
            }),
    {
        self.prepend_system_message(content)
    }

    /// Inserts a system message at the end of the leading system-message block.
    pub fn prepend_system_message(self, content: &str) -> (r: Self)
        ensures
            r@ == (GenerationRequestView {
                messages: self@.messages.insert(
                    leading_system_count(self@.messages) as int,
                    MessageView::System { content: MessageContentView::Text(content@) },
                ),
                ..self@
            }),
    {
        let mut s = self;
        let mut i: usize = 0;
        while i < s.messages.len() && s.messages[i].is_system()
            invariant
                i <= s.messages@.len(),
                forall|j: int| 0 <= j < i ==> #[trigger] s.messages@[j]@ is System,
            decreases s.messages@.len() - i,
        {
            i = i + 1;
        }
        proof {
            let mv = messages_view(s.messages@);
            assert forall|j: int| 0 <= j < i implies #[trigger] mv[j] is System by {
                assert(mv[j] == s.messages@[j]@);
            }
            if i < mv.len() {
                assert(mv[i as int] == s.messages@[i as int]@);
            }
            lemma_leading_system_count(mv, i as int);
        }
        let ghost old_msgs = s.messages@;
        let m = Message::system(content);
        s.messages.insert(i, m);
        proof {
            assert(messages_view(s.messages@) =~= messages_view(old_msgs).insert(i as int, m@));
        }
        s
    }

    /// Prepends a message to the request.
    pub fn prepend_message(self, message: Message) -> (r: Self)
        ensures
            r@ == (GenerationRequestView { messages: self@.messages.insert(0, message@), ..self@ }),
    {
        let mut s = self;
        let ghost old_msgs = s.messages@;
        s.messages.insert(0, message);
        proof {
            assert(messages_view(s.messages@) =~= messages_view(old_msgs).insert(0, message@));
        }
        s
    }
}

} // verus!
