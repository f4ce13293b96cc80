use just_llm_client::client::conversation::{Conversation, StreamState};
use just_llm_client::error::{BackendError, TransportError};
use just_llm_client::types::message::{AssistantMessage, Message, ToolCall};
use just_llm_client::types::request::GenerationRequest;
use just_llm_client::types::response::GenerationResponse;
use just_llm_client::types::shared::{FinishReason, FloatBits};
use just_llm_client::types::stream::{GenerationEvent, ToolCallDelta};

fn response(id: &str, message: AssistantMessage) -> GenerationResponse {
    GenerationResponse {
        id: id.to_owned(),
        model: "mock".to_owned(),
        message,
        finish_reason: Some(FinishReason::Stop),
        usage: None,
    }
}

fn assistant(text: &str) -> AssistantMessage {
    AssistantMessage { content: Some(text.to_owned()), tool_calls: Vec::new(), reasoning: None }
}

/// Runs one non-streaming turn against a canned response; returns the request that went out.
fn turn(conv: &mut Conversation, request: GenerationRequest, reply: GenerationResponse) -> GenerationRequest {
    let t = conv.begin_turn(request).unwrap();
    conv.complete_turn(t.settings, t.last_input, &reply);
    t.wire
}

/// Runs one streamed turn over canned events; returns the request that went out.
fn streamed_turn(conv: &mut Conversation, request: GenerationRequest, events: &[GenerationEvent]) -> GenerationRequest {
    let t = conv.begin_turn(request).unwrap();
    let mut state = StreamState::new(t.settings, t.last_input);
    for event in events {
        if let Some(capture) = state.observe(event) {
            conv.record_stream_capture(capture);
            break;
        }
    }
    t.wire
}

fn mirror(conv: &Conversation) -> Message {
    conv.last_message().unwrap()
}

#[test]
fn stateless_backend_replays_full_requests() {
    let mut conv = Conversation::new(false);
    assert!(!conv.is_stateful());
    let r1 = turn(&mut conv, GenerationRequest::new("mock", vec![Message::user("q1")]), response("r1", assistant("a1")));
    let m2 = vec![Message::user("q1"), Message::assistant("a1"), Message::user("q2")];
    let r2 = turn(&mut conv, GenerationRequest::new("mock", m2), response("r2", assistant("a2")));
    assert!(r1.previous_response_id.is_none());
    assert!(r1.store.is_none());
    assert_eq!(r1.messages, vec![Message::user("q1")]);
    assert!(r2.previous_response_id.is_none());
    assert!(r2.store.is_none());
    assert_eq!(r2.messages, vec![Message::user("q1"), Message::assistant("a1"), Message::user("q2")]);
}

#[test]
fn stateful_first_turn_stores_then_append_sends_delta() {
    let mut conv = Conversation::new(true);
    assert!(conv.is_stateful());
    let r1 = turn(&mut conv, GenerationRequest::new("mock", vec![Message::user("q1")]), response("r1", assistant("a1")));
    let m2 = vec![Message::user("q1"), mirror(&conv), Message::user("q2")];
    let r2 = turn(&mut conv, GenerationRequest::new("mock", m2), response("r2", assistant("a2")));
    assert_eq!(r1.previous_response_id, None);
    assert_eq!(r1.store, Some(true));
    assert_eq!(r1.messages, vec![Message::user("q1")]);
    assert_eq!(r2.previous_response_id.as_deref(), Some("r1"));
    assert_eq!(r2.store, Some(true));
    assert_eq!(r2.messages, vec![Message::user("q2")]);
}

#[test]
fn append_without_mirror_falls_back_to_stateless() {
    let mut conv = Conversation::new(true);
    turn(&mut conv, GenerationRequest::new("mock", vec![Message::user("q1")]), response("r1", assistant("a1")));
    let m2 = vec![Message::user("q1"), Message::user("q2")];
    let r2 = turn(&mut conv, GenerationRequest::new("mock", m2), response("r2", assistant("a2")));
    assert!(r2.previous_response_id.is_none());
    assert_eq!(r2.messages, vec![Message::user("q1"), Message::user("q2")]);
}

#[test]
fn trimmed_context_falls_back_to_stateless() {
    let mut conv = Conversation::new(true);
    turn(&mut conv, GenerationRequest::new("mock", vec![Message::user("q1")]), response("r1", assistant("a1")));
    let m2 = vec![Message::system("new rules"), Message::user("q2")];
    let r2 = turn(&mut conv, GenerationRequest::new("mock", m2), response("r2", assistant("a2")));
    assert!(r2.previous_response_id.is_none());
    assert_eq!(r2.messages, vec![Message::system("new rules"), Message::user("q2")]);
}

#[test]
fn settings_change_forces_stateless() {
    let mut conv = Conversation::new(true);
    turn(
        &mut conv,
        GenerationRequest::new("mock", vec![Message::user("q1")]).with_temperature(FloatBits::from_bits(0.2f32.to_bits())),
        response("r1", assistant("a1")),
    );
    let m2 = vec![Message::user("q1"), mirror(&conv), Message::user("q2")];
    let r2 = turn(
        &mut conv,
        GenerationRequest::new("mock", m2).with_temperature(FloatBits::from_bits(0.8f32.to_bits())),
        response("r2", assistant("a2")),
    );
    assert!(r2.previous_response_id.is_none());
    assert_eq!(r2.messages.len(), 3);
}

#[test]
fn identical_list_regenerates_stateless() {
    let mut conv = Conversation::new(true);
    turn(&mut conv, GenerationRequest::new("mock", vec![Message::user("q1")]), response("r1", assistant("a1")));
    let r2 = turn(&mut conv, GenerationRequest::new("mock", vec![Message::user("q1")]), response("r2", assistant("a2")));
    assert!(r2.previous_response_id.is_none());
    assert_eq!(r2.messages, vec![Message::user("q1")]);
}

#[test]
fn store_disabled_never_chains() {
    let mut conv = Conversation::new(true).with_store(false);
    assert!(!conv.is_stateful());
    let r1 = turn(&mut conv, GenerationRequest::new("mock", vec![Message::user("q1")]), response("r1", assistant("a1")));
    let r2 = turn(
        &mut conv,
        GenerationRequest::new("mock", vec![Message::user("q1"), Message::assistant("a1"), Message::user("q2")]),
        response("r2", assistant("a2")),
    );
    assert!([&r1, &r2].iter().all(|r| r.previous_response_id.is_none()));
    assert!([&r1, &r2].iter().all(|r| r.store.is_none()));
}

#[test]
fn dangling_tool_result_is_rejected() {
    let mut conv = Conversation::new(true);
    let error = conv
        .begin_turn(GenerationRequest::new("mock", vec![Message::tool("25C", "call_missing")]))
        .unwrap_err();
    assert!(matches!(error, BackendError::InvalidRequest(_)));
}

fn weather_call(arguments: &str) -> AssistantMessage {
    AssistantMessage {
        content: None,
        tool_calls: vec![ToolCall { id: "call_1".to_owned(), name: "get_weather".to_owned(), arguments: arguments.to_owned() }],
        reasoning: None,
    }
}

#[test]
fn tool_loop_appends_results_against_previous_assistant() {
    let mut conv = Conversation::new(true);
    turn(
        &mut conv,
        GenerationRequest::new("mock", vec![Message::user("weather?")]),
        response("r1", weather_call(r#"{"city":"Paris"}"#)),
    );
    let m2 = vec![Message::user("weather?"), mirror(&conv), Message::tool("25C", "call_1")];
    let r2 = turn(&mut conv, GenerationRequest::new("mock", m2), response("r2", assistant("25C")));
    assert_eq!(r2.previous_response_id.as_deref(), Some("r1"));
    assert_eq!(r2.messages, vec![Message::tool("25C", "call_1")]);
}

#[test]
fn tool_loop_rejects_unrelated_tool_result_in_delta() {
    let mut conv = Conversation::new(true);
    turn(&mut conv, GenerationRequest::new("mock", vec![Message::user("weather?")]), response("r1", weather_call("{}")));
    let m2 = vec![Message::user("weather?"), mirror(&conv), Message::tool("25C", "call_other")];
    let error = conv.begin_turn(GenerationRequest::new("mock", m2)).unwrap_err();
    assert!(matches!(error, BackendError::InvalidRequest(_)));
}

#[test]
fn error_clears_anchor_and_next_turn_reanchors() {
    let mut conv = Conversation::new(true);
    turn(&mut conv, GenerationRequest::new("mock", vec![Message::user("q1")]), response("r1", assistant("a1")));
    let failed = conv
        .begin_turn(GenerationRequest::new("mock", vec![Message::user("q1"), mirror(&conv), Message::user("q2")]))
        .unwrap();
    assert!(failed.wire.previous_response_id.is_some());
    conv.fail_turn();
    let m3 = vec![Message::user("q1"), Message::assistant("a1"), Message::user("q3")];
    let r3 = turn(&mut conv, GenerationRequest::new("mock", m3), response("r3", assistant("a3")));
    assert!(r3.previous_response_id.is_none());
    assert_eq!(r3.messages, vec![Message::user("q1"), Message::assistant("a1"), Message::user("q3")]);
}

#[test]
fn streamed_turn_assembles_and_is_adopted_next() {
    let mut conv = Conversation::new(true);
    let events = vec![
        GenerationEvent::Text { delta: "The answer is ".to_owned() },
        GenerationEvent::Text { delta: "42.".to_owned() },
        GenerationEvent::ToolCall {
            delta: ToolCallDelta { index: Some(0), id: Some("call_1".to_owned()), name: Some("get_weather".to_owned()), arguments: None },
        },
        GenerationEvent::ToolCall {
            delta: ToolCallDelta { index: Some(0), id: None, name: None, arguments: Some(r#"{"city":"Paris"}"#.to_owned()) },
        },
        GenerationEvent::End { finish_reason: Some(FinishReason::Stop), response_id: Some("rs_1".to_owned()) },
    ];
    let r1 = streamed_turn(&mut conv, GenerationRequest::new("mock", vec![Message::user("q1")]), &events);

    let m = mirror(&conv);
    assert_eq!(m.content(), Some("The answer is 42."));
    assert_eq!(m.tool_calls().len(), 1);
    assert_eq!(m.tool_calls()[0].name, "get_weather");
    assert_eq!(m.tool_calls()[0].arguments, r#"{"city":"Paris"}"#);

    let r2 = turn(
        &mut conv,
        GenerationRequest::new("mock", vec![Message::user("q1"), m, Message::user("q2")]),
        response("r2", assistant("a2")),
    );
    assert_eq!(r1.previous_response_id, None);
    assert_eq!(r1.store, Some(true));
    assert_eq!(r2.previous_response_id.as_deref(), Some("rs_1"));
    assert_eq!(r2.messages, vec![Message::user("q2")]);
}

#[test]
fn abandoned_stream_does_not_corrupt_anchor() {
    let mut conv = Conversation::new(true);
    turn(&mut conv, GenerationRequest::new("mock", vec![Message::user("q1")]), response("r1", assistant("a1")));
    // The stream is started but never polled to its terminal event.
    let r2 = streamed_turn(&mut conv, GenerationRequest::new("mock", vec![Message::user("q2")]), &[]);
    let m3 = vec![Message::user("q1"), Message::assistant("a1"), Message::user("q3")];
    let r3 = turn(&mut conv, GenerationRequest::new("mock", m3), response("r3", assistant("a3")));
    assert_eq!(r2.previous_response_id, None);
    assert_eq!(r2.store, Some(true));
    assert_eq!(r2.messages, vec![Message::user("q2")]);
    assert_eq!(r3.previous_response_id.as_deref(), Some("r1"));
    assert_eq!(r3.messages, vec![Message::user("q3")]);
}

#[test]
fn last_message_reflects_last_completed_turn() {
    let mut conv = Conversation::new(true);
    assert!(conv.last_message().is_none());
    turn(&mut conv, GenerationRequest::new("mock", vec![Message::user("q1")]), response("r1", assistant("a1")));
    assert_eq!(conv.last_message().unwrap().content(), Some("a1"));
}

#[test]
fn streamed_last_message_works_on_stateless_backend() {
    let mut conv = Conversation::new(false);
    let events = vec![
        GenerationEvent::Text { delta: "hi".to_owned() },
        GenerationEvent::End { finish_reason: Some(FinishReason::Stop), response_id: None },
    ];
    streamed_turn(&mut conv, GenerationRequest::new("mock", vec![Message::user("q1")]), &events);
    assert_eq!(conv.last_message().unwrap().content(), Some("hi"));
}

#[test]
fn stream_forward_passes_items_through_and_captures_on_end() {
    let mut conv = Conversation::new(true);
    let t = conv.begin_turn(GenerationRequest::new("mock", vec![Message::user("q1")])).unwrap();
    let mut state = StreamState::new(t.settings, t.last_input);
    let (item, capture) = state.forward(Some(Ok(GenerationEvent::Text { delta: "Hel".to_owned() })));
    assert!(matches!(item, Some(Ok(GenerationEvent::Text { ref delta })) if delta == "Hel"));
    assert!(capture.is_none());
    let (item, capture) = state.forward(Some(Err(TransportError::InvalidResponse("cut".to_owned()))));
    assert!(matches!(item, Some(Err(TransportError::InvalidResponse(ref m))) if m == "cut"));
    assert!(capture.is_none());
    let (_, capture) = state.forward(Some(Ok(GenerationEvent::Text { delta: "lo".to_owned() })));
    assert!(capture.is_none());
    let end = GenerationEvent::End { finish_reason: Some(FinishReason::Stop), response_id: Some("r1".to_owned()) };
    let (item, capture) = state.forward(Some(Ok(end)));
    assert!(matches!(item, Some(Ok(GenerationEvent::End { .. }))));
    conv.record_stream_capture(capture.expect("End yields a capture"));
    assert_eq!(conv.last_message(), Some(Message::assistant("Hello")));
    let (item, capture) = state.forward(None);
    assert!(item.is_none() && capture.is_none());
}
