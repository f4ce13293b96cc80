use just_llm_client::types::message::{AssistantMessage, ContentPart, ImageSource, Message, Reasoning, ToolCall};
use just_llm_client::types::request::GenerationRequest;
use just_llm_client::types::response::GenerationResponse;
use just_llm_client::types::shared::{
    FinishReason, FloatBits, ReasoningEffort, ResponseFormat, ResponseFormatType, ToolChoice, ToolChoiceMode,
};
use just_llm_client::types::stream::GenerationEvent;

#[test]
fn response_accessors_expose_text_tool_calls_and_reasoning() {
    let response = GenerationResponse {
        id: "gen-1".to_owned(),
        model: "gpt-4.1-mini".to_owned(),
        message: AssistantMessage {
            content: Some("hello".to_owned()),
            tool_calls: vec![ToolCall {
                id: "call_1".to_owned(),
                name: "get_weather".to_owned(),
                arguments: "{\"city\":\"Paris\"}".to_owned(),
            }],
            reasoning: Some(Reasoning {
                text: Some("Let me think this through.".to_owned()),
                id: None,
                encrypted: None,
                signature: None,
                redacted: None,
            }),
        },
        finish_reason: Some(FinishReason::Stop),
        usage: None,
    };

    assert_eq!(response.text(), Some("hello"));
    assert_eq!(response.tool_calls()[0].name, "get_weather");
    assert_eq!(
        response.reasoning().and_then(|r| r.text.as_deref()),
        Some("Let me think this through.")
    );
}

#[test]
fn message_accessors_cover_all_variants() {
    let system = Message::system("Be brief.");
    let user = Message::user("hello");
    let assistant = Message::assistant_tool_calls(
        Some("Calling the weather tool.".to_owned()),
        vec![ToolCall {
            id: "call_1".to_owned(),
            name: "get_weather".to_owned(),
            arguments: "{\"city\":\"Shanghai\"}".to_owned(),
        }],
        Some(Reasoning {
            text: Some("reasoned".to_owned()),
            id: None,
            encrypted: None,
            signature: None,
            redacted: None,
        }),
    );
    let tool = Message::tool("{\"temperature\":26}", "call_1");

    assert_eq!(system.role(), "system");
    assert_eq!(system.content(), Some("Be brief."));
    assert_eq!(user.role(), "user");
    assert_eq!(user.content(), Some("hello"));

    assert_eq!(assistant.role(), "assistant");
    assert_eq!(assistant.content(), Some("Calling the weather tool."));
    assert_eq!(assistant.tool_calls().len(), 1);
    assert_eq!(assistant.tool_calls()[0].name, "get_weather");
    assert_eq!(
        assistant.reasoning().and_then(|r| r.text.as_deref()),
        Some("reasoned")
    );

    assert_eq!(tool.role(), "tool");
    assert_eq!(tool.tool_call_id(), Some("call_1"));
    assert_eq!(tool.content(), Some("{\"temperature\":26}"));
    assert!(tool.tool_calls().is_empty());
}

#[test]
fn request_helpers_preserve_explicit_request_shape() {
    let request = GenerationRequest::new(
        "gpt-4.1-mini",
        vec![Message::user("Say hello in one sentence.")],
    )
    .with_temperature(FloatBits::from_bits(0.2f32.to_bits()))
    .with_max_tokens(64)
    .with_tool_choice(ToolChoice::Mode(ToolChoiceMode::Auto))
    .with_response_format(ResponseFormat {
        kind: ResponseFormatType::Text,
    })
    .with_system_prompt("You are a concise assistant.")
    .with_reasoning_effort(ReasoningEffort::High);

    assert_eq!(request.messages[0].role(), "system");
    assert_eq!(
        request.messages[0].content(),
        Some("You are a concise assistant.")
    );
    assert_eq!(request.messages[1].role(), "user");
    assert_eq!(request.temperature.map(|t| f32::from_bits(t.bits)), Some(0.2));
    assert_eq!(request.max_tokens, Some(64));
    assert_eq!(
        request.tool_choice,
        Some(ToolChoice::Mode(ToolChoiceMode::Auto))
    );
    assert_eq!(request.reasoning_effort, Some(ReasoningEffort::High));
}

#[test]
fn repeated_system_prompt_helpers_preserve_insertion_order() {
    let request = GenerationRequest::new(
        "gpt-4.1-mini",
        vec![
            Message::system("Existing system prompt."),
            Message::user("Say hello in one sentence."),
        ],
    )
    .with_system_prompt("First injected prompt.")
    .with_system_prompt("Second injected prompt.");

    assert_eq!(
        request
            .messages
            .iter()
            .map(|message| message.content().unwrap_or_default())
            .collect::<Vec<_>>(),
        vec![
            "Existing system prompt.",
            "First injected prompt.",
            "Second injected prompt.",
            "Say hello in one sentence.",
        ]
    );
}

#[test]
fn multimodal_user_message_exposes_parts_but_no_text() {
    let message = Message::user_parts(vec![
        ContentPart::Text {
            text: "What is this?".to_owned(),
        },
        ContentPart::Image {
            source: ImageSource::Url {
                url: "https://example.com/cat.png".to_owned(),
            },
            detail: None,
        },
    ]);
    assert!(matches!(message.content_parts(), Some(parts) if parts.len() == 2));
    assert_eq!(message.content(), None);
    assert_eq!(message.role(), "user");
}

#[test]
fn prepend_message_puts_message_first() {
    let request = GenerationRequest::new("m", vec![Message::user("a")]).prepend_message(Message::assistant("b"));
    assert_eq!(request.messages[0].role(), "assistant");
    assert_eq!(request.messages[1].content(), Some("a"));
}

#[test]
fn end_event_exposes_finish_reason() {
    let end = GenerationEvent::End {
        finish_reason: Some(FinishReason::Length),
        response_id: Some("resp_1".to_owned()),
    };
    assert_eq!(end.finish_reason(), Some(&FinishReason::Length));
    let text = GenerationEvent::Text { delta: "x".to_owned() };
    assert_eq!(text.finish_reason(), None);
}
