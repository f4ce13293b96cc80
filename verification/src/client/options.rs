//! Per-call request defaults.
use vstd::prelude::*;

use crate::types::message::{opt_str_view, Message, MessageContentView, MessageView};
use crate::types::request::{leading_system_count, GenerationRequest, GenerationRequestView};

verus! {

/// Per-call defaults for constructing a generation client: a default model and an optional
/// default system prompt.
#[derive(Clone, Debug, PartialEq, Eq)]
pub struct GenerationClientOptions {
    model: String,
    system_prompt: Option<String>,
}

pub struct GenerationClientOptionsView {
    pub model: Seq<char>,
    pub system_prompt: Option<Seq<char>>,
}

impl View for GenerationClientOptions {
    type V = GenerationClientOptionsView;

    closed spec fn view(&self) -> GenerationClientOptionsView {
        GenerationClientOptionsView { model: self.model@, system_prompt: opt_str_view(self.system_prompt) }
    }
}

/// The request a client with these defaults builds for `messages`: the default model, and the
/// default system prompt (if any) inserted at the end of the leading system block.
pub open spec fn default_request(o: GenerationClientOptionsView, messages: Seq<MessageView>) -> GenerationRequestView {
    let msgs = match o.system_prompt {
        Some(p) => messages.insert(
            leading_system_count(messages) as int,
            MessageView::System { content: MessageContentView::Text(p) },
        ),
        None => messages,
    };
    GenerationRequestView {
        model: o.model,
        messages: msgs,
        tools: None,
        tool_choice: None,
        temperature: None,
        top_p: None,
        top_k: None,
        max_tokens: None,
        stream: None,
        stop: None,
        frequency_penalty: None,
        presence_penalty: None,
        response_format: None,
        logprobs: None,
        top_logprobs: None,
        reasoning_effort: None,
        previous_response_id: None,
        store: None,
    }
}

impl GenerationClientOptions {
    /// Creates options with a required default model.
    pub fn new(model: &str) -> (r: Self)
        ensures
            r@ == (GenerationClientOptionsView { model: model@, system_prompt: None }),
    {
        GenerationClientOptions { model: model.to_owned(), system_prompt: None }
    }

    /// Adds a default system prompt injected into requests built from these defaults.
    pub fn with_system_prompt(self, system_prompt: &str) -> (r: Self)
        ensures
            r@ == (GenerationClientOptionsView { system_prompt: Some(system_prompt@), ..self@ }),
    {
        let mut s = self;
        s.system_prompt = Some(system_prompt.to_owned());
        s
    }

    /// Replaces the default model.
    pub fn with_model(self, model: &str) -> (r: Self)
        ensures
            r@ == (GenerationClientOptionsView { model: model@, ..self@ }),
    {
        let mut s = self;
        s.model = model.to_owned();
        s
    }

    /// Removes the default system prompt.
    pub fn clear_system_prompt(self) -> (r: Self)
        ensures
            r@ == (GenerationClientOptionsView { system_prompt: None, ..self@ }),
    {
        let mut s = self;
        s.system_prompt = None;
        s
    }

    /// Returns the configured default model.
    pub fn model(&self) -> (r: &str)
        ensures
            r@ == self@.model,
    {
        self.model.as_str()
    }

    /// Returns the configured default system prompt.
    pub fn system_prompt(&self) -> (r: Option<&str>)
        ensures
            r matches Some(s) ==> self@.system_prompt == Some(s@),
            r is None ==> self@.system_prompt is None,
    {
        match &self.system_prompt {
            Some(s) => Some(s.as_str()),
            None => None,
        }
    }

    /// Creates a request pre-filled with the default model and system prompt.
    pub fn create_request(&self, messages: Vec<Message>) -> (r: GenerationRequest)
        ensures
            r@ == default_request(self@, crate::types::message::messages_view(messages@)),
    {
        let request = GenerationRequest::new(self.model.as_str(), messages);
        match &self.system_prompt {
            Some(p) => request.with_system_prompt(p.as_str()),
            None => request,
        }
    }
}

} // verus!
