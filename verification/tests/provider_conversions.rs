use just_llm_client::error::BackendError;
use just_llm_client::provider::anthropic::{
    arguments_to_input, extract_system, generation_from_message, render_params, MessagesStreamScan,
};
use just_llm_client::provider::openai_compat::{
    assistant_from_chat, chat_messages_from, chunk_to_events, finish_reason_from_chat, reasoning_effort_string,
    response_from_chat, tool_call_from_chat,
};
use just_llm_client::provider::openai_responses::{event_to_generation_events, generation_from_response, render_input};
use just_llm_client::provider::validation::{into_validated_streaming_request, validate_non_streaming_request};
use just_llm_client::types::message::{ContentPart, ImageDetail, ImageSource, Message, Reasoning, ToolCall};
use just_llm_client::types::request::GenerationRequest;
use just_llm_client::types::shared::{FinishReason, ReasoningEffort, ResponseFormat, ResponseFormatType, StopSequence};
use just_llm_client::types::stream::GenerationEvent;
use just_llm_client::wire::anthropic::{
    AnthropicContent, AnthropicImageSource, AnthropicMessage, AnthropicRole, AnthropicStreamEvent, AnthropicUsage,
    BlockDelta, BlockParam, ContentBlock, CreateMessageRequest, DeltaUsage, ImageMediaType, StopReason, SystemParam,
};
use just_llm_client::wire::chat::{
    ChatAssistantMessage, ChatChoice, ChatCompletion, ChatCompletionChunk, ChatCompletionRequest, ChatContent,
    ChatFinishReason, ChatMessage, ChatRole, ChatToolCall, ChatToolType, ChatUsage, ChunkChoice, ChunkDelta,
    ChunkFunction, ChunkToolCall,
};
use just_llm_client::wire::responses::{
    CreateResponseRequest, InputContent, InputContentPart, InputItem, InputRole, OutputContentPart, OutputItem,
    ReasoningItem, Response, ResponseIncludable, ResponseStatus, ResponseUsage, ResponsesStreamEvent, SummaryText,
};

// --- chat completions ---

#[test]
fn unknown_finish_reason_normalizes_to_stop() {
    assert_eq!(finish_reason_from_chat(ChatFinishReason::Unknown), FinishReason::Stop);
    assert_eq!(finish_reason_from_chat(ChatFinishReason::Length), FinishReason::Length);
}

#[test]
fn unknown_role_message_converts_without_attribution() {
    let message = ChatAssistantMessage {
        content: Some("leaked".to_owned()),
        reasoning_content: None,
        tool_calls: None,
        role: ChatRole::Unknown,
    };
    let converted = assistant_from_chat(&message);
    assert_eq!(converted.content, None);
    assert!(converted.tool_calls.is_empty());
    assert_eq!(converted.reasoning, None);
}

#[test]
fn tool_call_fields_map_regardless_of_tool_type() {
    let call = ChatToolCall {
        id: "call_1".to_owned(),
        kind: ChatToolType::Unknown,
        name: "lookup_weather".to_owned(),
        arguments: "{}".to_owned(),
    };
    let converted = tool_call_from_chat(&call);
    assert_eq!(converted.id, "call_1");
    assert_eq!(converted.name, "lookup_weather");
    assert_eq!(converted.arguments, "{}");
}

#[test]
fn openai_compat_prepare_rejects_stateful_fields() {
    let request = GenerationRequest::new("gpt-4.1-mini", vec![Message::user("x")]).with_previous_response_id("resp_1");
    assert!(matches!(ChatCompletionRequest::try_from_request(&request), Err(BackendError::InvalidRequest(_))));
    let request = GenerationRequest::new("gpt-4.1-mini", vec![Message::user("x")]).with_store(true);
    assert!(matches!(ChatCompletionRequest::try_from_request(&request), Err(BackendError::InvalidRequest(_))));
}

#[test]
fn openai_compat_prepare_maps_xhigh_effort() {
    let request = GenerationRequest::new("gpt-4.1-mini", vec![Message::user("x")])
        .with_reasoning_effort(ReasoningEffort::Xhigh);
    let wire = ChatCompletionRequest::try_from_request(&request).unwrap();
    assert_eq!(wire.reasoning_effort.as_deref(), Some("xhigh"));
    assert_eq!(wire.include_usage, Some(true));
}

#[test]
fn openai_compat_prepare_rejects_file_id_image_source() {
    let request = GenerationRequest::new(
        "gpt-4.1-mini",
        vec![Message::user_parts(vec![ContentPart::Image {
            source: ImageSource::FileId { file_id: "file-abc".to_owned() },
            detail: None,
        }])],
    );
    assert!(matches!(
        ChatCompletionRequest::try_from_request(&request),
        Err(BackendError::InvalidRequest(_))
    ));
}

#[test]
fn generate_rejects_streaming_requests() {
    let mut request = GenerationRequest::new("gpt-4.1-mini", vec![Message::user("x")]);
    request.stream = Some(true);
    let error = validate_non_streaming_request(&request, "generate", "stream_generate").unwrap_err();
    assert!(matches!(error, BackendError::InvalidRequest(_)));
    request.stream = Some(false);
    assert!(validate_non_streaming_request(&request, "generate", "stream_generate").is_ok());
}

#[test]
fn stream_generate_promotes_stream_flag() {
    let request = GenerationRequest::new("gpt-4.1-mini", vec![Message::user("stream please")]);
    let promoted = into_validated_streaming_request(request, "stream_generate").unwrap();
    assert_eq!(promoted.stream, Some(true));
    assert_eq!(promoted.model, "gpt-4.1-mini");
}

#[test]
fn effort_wire_names() {
    assert_eq!(reasoning_effort_string(&ReasoningEffort::Low), "low");
    assert_eq!(reasoning_effort_string(&ReasoningEffort::Medium), "medium");
    assert_eq!(reasoning_effort_string(&ReasoningEffort::High), "high");
    assert_eq!(reasoning_effort_string(&ReasoningEffort::Xhigh), "xhigh");
    assert_eq!(reasoning_effort_string(&ReasoningEffort::Max), "max");
}

// --- Responses ---

fn tool_call(id: &str, name: &str, arguments: &str) -> ToolCall {
    ToolCall { id: id.to_owned(), name: name.to_owned(), arguments: arguments.to_owned() }
}

#[test]
fn responses_prepare_extracts_instructions_and_input_items() {
    let request = GenerationRequest::new(
        "gpt-5.6",
        vec![
            Message::system("You are concise."),
            Message::user("What is the weather?"),
            Message::assistant_tool_calls(None, vec![tool_call("call_1", "get_weather", "{\"city\":\"Paris\"}")], None),
            Message::tool("25C", "call_1"),
        ],
    );
    let wire = CreateResponseRequest::try_from_request(&request).unwrap();
    assert_eq!(wire.instructions.as_deref(), Some("You are concise."));
    assert!(matches!(&wire.input[0], InputItem::Message { role: InputRole::User, .. }));
    assert!(matches!(&wire.input[1], InputItem::FunctionCall { call_id, name, .. } if call_id == "call_1" && name == "get_weather"));
    assert!(matches!(&wire.input[2], InputItem::FunctionCallOutput { call_id, output } if call_id == "call_1" && output == "25C"));
    assert_eq!(wire.input.len(), 3);
}

#[test]
fn responses_prepare_rejects_unsupported_fields() {
    let request = GenerationRequest::new("gpt-5.6", vec![Message::user("x")]).with_top_k(10);
    assert!(matches!(CreateResponseRequest::try_from_request(&request), Err(BackendError::InvalidRequest(_))));
    let request = GenerationRequest::new("gpt-5.6", vec![Message::user("x")])
        .with_stop_sequences(StopSequence::Single("END".to_owned()));
    assert!(matches!(CreateResponseRequest::try_from_request(&request), Err(BackendError::InvalidRequest(_))));
}

#[test]
fn responses_prepare_maps_stateful_continuation() {
    let request = GenerationRequest::new(
        "gpt-5.6",
        vec![Message::system("You are concise."), Message::user("And now?")],
    )
    .with_previous_response_id("resp_1")
    .with_reasoning_effort(ReasoningEffort::High);
    let wire = CreateResponseRequest::try_from_request(&request).unwrap();
    assert_eq!(wire.previous_response_id.as_deref(), Some("resp_1"));
    assert_eq!(wire.store, Some(true));
    assert!(wire.instructions.is_none());
    assert_eq!(wire.extra_output, Some(vec![ResponseIncludable::ReasoningEncryptedContent]));
}

#[test]
fn responses_prepare_maps_xhigh_effort() {
    let request =
        GenerationRequest::new("gpt-5.6", vec![Message::user("x")]).with_reasoning_effort(ReasoningEffort::Xhigh);
    let wire = CreateResponseRequest::try_from_request(&request).unwrap();
    assert_eq!(wire.reasoning_effort, Some(ReasoningEffort::Xhigh));
}

#[test]
fn responses_prepare_maps_image_fields_and_passes_detail_through() {
    let request = GenerationRequest::new(
        "gpt-5.6",
        vec![Message::user_parts(vec![
            ContentPart::Text { text: "describe".to_string() },
            ContentPart::Image {
                source: ImageSource::Url { url: "https://example.com/cat.png".to_string() },
                detail: Some(ImageDetail::High),
            },
            ContentPart::Image {
                source: ImageSource::Base64 { data: "aGVsbG8=".to_string(), media_type: "image/jpeg".to_string() },
                detail: None,
            },
            ContentPart::Image {
                source: ImageSource::FileId { file_id: "file-abc".to_string() },
                detail: Some(ImageDetail::Unknown("hd".to_string())),
            },
        ])],
    );
    let wire = CreateResponseRequest::try_from_request(&request).unwrap();
    let parts = match &wire.input[0] {
        InputItem::Message { content: InputContent::Parts(parts), .. } => parts,
        other => panic!("unexpected input item: {other:?}"),
    };
    assert!(matches!(&parts[0], InputContentPart::InputText { text } if text == "describe"));
    assert_eq!(
        parts[1],
        InputContentPart::InputImage {
            detail: Some("high".to_owned()),
            image_url: Some("https://example.com/cat.png".to_owned()),
            file_id: None
        }
    );
    assert_eq!(
        parts[2],
        InputContentPart::InputImage {
            detail: None,
            image_url: Some("data:image/jpeg;base64,aGVsbG8=".to_owned()),
            file_id: None
        }
    );
    assert_eq!(
        parts[3],
        InputContentPart::InputImage { detail: Some("hd".to_owned()), image_url: None, file_id: Some("file-abc".to_owned()) }
    );
}

#[test]
fn responses_joins_system_block_and_rejects_parts_instructions() {
    let request = GenerationRequest::new(
        "gpt-5.6",
        vec![Message::system("A."), Message::system("B."), Message::user("x")],
    );
    let wire = CreateResponseRequest::try_from_request(&request).unwrap();
    assert_eq!(wire.instructions.as_deref(), Some("A.\n\nB."));

    let request = GenerationRequest::new(
        "gpt-5.6",
        vec![
            Message::System { content: just_llm_client::types::message::MessageContent::Parts(vec![]) },
            Message::user("x"),
        ],
    );
    assert!(matches!(CreateResponseRequest::try_from_request(&request), Err(BackendError::InvalidRequest(_))));

    // A system message after the leading block cannot be an input item.
    let request = GenerationRequest::new("gpt-5.6", vec![Message::user("x"), Message::system("late")]);
    assert!(matches!(CreateResponseRequest::try_from_request(&request), Err(BackendError::InvalidRequest(_))));
}

#[test]
fn responses_render_input_excludes_instructions() {
    let items = render_input(&vec![Message::system("sys"), Message::user("hi")]).unwrap();
    assert_eq!(items.len(), 1);
    assert!(matches!(&items[0], InputItem::Message { role: InputRole::User, content: InputContent::Text(t) } if t == "hi"));
}

#[test]
fn responses_reasoning_round_trips_as_input_item() {
    let reasoning = Reasoning {
        text: Some("checked forecast".to_owned()),
        id: Some("rs_1".to_owned()),
        encrypted: Some("encrypted==".to_owned()),
        signature: None,
        redacted: None,
    };
    let request = GenerationRequest::new(
        "gpt-5.6",
        vec![Message::user("q"), Message::assistant_tool_calls(Some("a".to_owned()), vec![], Some(reasoning))],
    );
    let wire = CreateResponseRequest::try_from_request(&request).unwrap();
    assert_eq!(
        wire.input[2],
        InputItem::Reasoning(ReasoningItem {
            id: "rs_1".to_owned(),
            summary: vec![SummaryText::Summary { text: "checked forecast".to_owned() }],
            encrypted_content: Some("encrypted==".to_owned()),
        })
    );
}

fn responses_fixture() -> Response {
    Response {
        id: "resp_1".to_owned(),
        model: "gpt-5.6".to_owned(),
        status: ResponseStatus::Completed,
        incomplete_reason: None,
        output: vec![
            OutputItem::Message {
                content: vec![OutputContentPart::OutputText { text: "Checking the weather.".to_owned() }],
            },
            OutputItem::Reasoning(ReasoningItem {
                id: "rs_1".to_owned(),
                summary: vec![SummaryText::Summary { text: "checked forecast".to_owned() }],
                encrypted_content: Some("encrypted==".to_owned()),
            }),
            OutputItem::FunctionCall {
                call_id: "call_1".to_owned(),
                name: "get_weather".to_owned(),
                arguments: "{\"city\":\"Paris\"}".to_owned(),
            },
        ],
        usage: Some(ResponseUsage {
            input_tokens: 10,
            output_tokens: 5,
            total_tokens: 15,
            cached_tokens: 512,
            cache_write_tokens: 128,
            reasoning_tokens: 2,
        }),
    }
}

#[test]
fn responses_adapter_maps_generation_with_tools_and_reasoning() {
    let response = generation_from_response(&responses_fixture());
    assert_eq!(response.text(), Some("Checking the weather."));
    assert_eq!(response.finish_reason, Some(FinishReason::ToolCalls));
    assert_eq!(response.tool_calls().len(), 1);
    assert_eq!(response.tool_calls()[0].name, "get_weather");
    assert_eq!(response.tool_calls()[0].arguments, "{\"city\":\"Paris\"}");
    let reasoning = response.reasoning().expect("reasoning should be present");
    assert_eq!(reasoning.id.as_deref(), Some("rs_1"));
    assert_eq!(reasoning.encrypted.as_deref(), Some("encrypted=="));
    assert_eq!(reasoning.text.as_deref(), Some("checked forecast"));
    let usage = response.usage.as_ref().unwrap();
    assert_eq!(usage.completion_tokens_details.as_ref().unwrap().reasoning_tokens, Some(2));
    assert_eq!(usage.cache_read_tokens, Some(512));
    assert_eq!(usage.cache_write_tokens, Some(128));
    assert_eq!(usage.total_tokens, 15);
}

#[test]
fn responses_usage_truncates_to_32_bits() {
    let mut response = responses_fixture();
    response.usage = Some(ResponseUsage {
        input_tokens: (1u64 << 32) + 7,
        output_tokens: 1,
        total_tokens: 8,
        cached_tokens: 0,
        cache_write_tokens: 0,
        reasoning_tokens: 0,
    });
    let usage = generation_from_response(&response).usage.unwrap();
    assert_eq!(usage.prompt_tokens, 7);
}

#[test]
fn responses_incomplete_maps_length_and_plain_text_stops() {
    let mut response = responses_fixture();
    response.output = vec![];
    response.status = ResponseStatus::Incomplete;
    response.incomplete_reason = Some(just_llm_client::wire::responses::IncompleteReason::MaxOutputTokens);
    let mapped = generation_from_response(&response);
    assert_eq!(mapped.finish_reason, Some(FinishReason::Length));
    assert_eq!(mapped.text(), None);
    assert!(mapped.reasoning().is_none());
}

#[test]
fn responses_adapter_streams_events() {
    let first = event_to_generation_events(ResponsesStreamEvent::OutputTextDelta { delta: "Hel".to_owned() });
    assert!(matches!(&first[..], [GenerationEvent::Text { delta }] if delta == "Hel"));
    let second = event_to_generation_events(ResponsesStreamEvent::OutputTextDelta { delta: "lo".to_owned() });
    assert!(matches!(&second[..], [GenerationEvent::Text { delta }] if delta == "lo"));
    let mut done = responses_fixture();
    done.output = vec![];
    done.usage = None;
    let end = event_to_generation_events(ResponsesStreamEvent::Completed { response: done });
    assert_eq!(end.len(), 1);
    assert!(matches!(
        &end[0],
        GenerationEvent::End { finish_reason: Some(FinishReason::Stop), response_id: Some(id) } if id == "resp_1"
    ));
    assert!(event_to_generation_events(ResponsesStreamEvent::Other).is_empty());
}

#[test]
fn responses_stream_opens_and_extends_tool_calls() {
    let open = event_to_generation_events(ResponsesStreamEvent::OutputItemAdded {
        output_index: 2,
        item: OutputItem::FunctionCall { call_id: "call_1".to_owned(), name: "f".to_owned(), arguments: String::new() },
    });
    assert!(matches!(
        &open[..],
        [GenerationEvent::ToolCall { delta }] if delta.index == Some(2) && delta.id.as_deref() == Some("call_1") && delta.arguments.is_none()
    ));
    let args = event_to_generation_events(ResponsesStreamEvent::FunctionCallArgumentsDelta {
        output_index: 2,
        delta: "{}".to_owned(),
    });
    assert!(matches!(&args[..], [GenerationEvent::ToolCall { delta }] if delta.arguments.as_deref() == Some("{}") && delta.id.is_none()));
    let completed = event_to_generation_events(ResponsesStreamEvent::Completed { response: responses_fixture() });
    assert_eq!(completed.len(), 2);
    assert!(matches!(&completed[1], GenerationEvent::Usage { usage } if usage.prompt_tokens == 10));
}

// --- Anthropic ---

#[test]
fn anthropic_prepare_extracts_system_and_requires_max_tokens() {
    let request = GenerationRequest::new(
        "messages-model-5",
        vec![Message::system("You are concise."), Message::user("Hi")],
    )
    .with_max_tokens(256);
    let wire = CreateMessageRequest::try_from_request(&request).unwrap();
    assert_eq!(wire.system, Some(SystemParam::Text("You are concise.".to_owned())));
    assert_eq!(wire.max_tokens, 256);
    assert_eq!(wire.messages[0].role, AnthropicRole::User);
    assert_eq!(wire.messages[0].content, AnthropicContent::Text("Hi".to_owned()));

    let request = GenerationRequest::new("messages-model-5", vec![Message::user("Hi")]);
    assert!(matches!(CreateMessageRequest::try_from_request(&request), Err(BackendError::InvalidRequest(_))));
}

#[test]
fn anthropic_prepare_maps_tool_result_to_user_message() {
    let request = GenerationRequest::new(
        "messages-model-5",
        vec![
            Message::assistant_tool_calls(None, vec![tool_call("toolu_1", "get_weather", r#"{"city":"Paris"}"#)], None),
            Message::tool("25C", "toolu_1"),
        ],
    )
    .with_max_tokens(256);
    let wire = CreateMessageRequest::try_from_request(&request).unwrap();
    assert_eq!(wire.messages[0].role, AnthropicRole::Assistant);
    assert_eq!(
        wire.messages[0].content,
        AnthropicContent::Blocks(vec![BlockParam::ToolUse {
            id: "toolu_1".to_owned(),
            name: "get_weather".to_owned(),
            input: r#"{"city":"Paris"}"#.to_owned(),
        }])
    );
    let input: serde_json::Value = match &wire.messages[0].content {
        AnthropicContent::Blocks(blocks) => match &blocks[0] {
            BlockParam::ToolUse { input, .. } => serde_json::from_str(input).unwrap(),
            other => panic!("unexpected block: {other:?}"),
        },
        other => panic!("unexpected content: {other:?}"),
    };
    assert_eq!(input["city"], "Paris");
    assert_eq!(wire.messages[1].role, AnthropicRole::User);
    assert_eq!(
        wire.messages[1].content,
        AnthropicContent::Blocks(vec![BlockParam::ToolResult {
            tool_use_id: "toolu_1".to_owned(),
            content: "25C".to_owned(),
        }])
    );
}

#[test]
fn anthropic_prepare_rejects_stateful_fields() {
    let request = GenerationRequest::new("messages-model-5", vec![Message::user("x")]).with_max_tokens(256).with_store(true);
    assert!(matches!(CreateMessageRequest::try_from_request(&request), Err(BackendError::InvalidRequest(_))));
}

#[test]
fn anthropic_prepare_maps_all_effort_levels() {
    for effort in [ReasoningEffort::Low, ReasoningEffort::Medium, ReasoningEffort::High, ReasoningEffort::Xhigh, ReasoningEffort::Max] {
        let request = GenerationRequest::new("messages-model-5", vec![Message::user("x")])
            .with_max_tokens(256)
            .with_reasoning_effort(effort);
        let wire = CreateMessageRequest::try_from_request(&request).unwrap();
        assert_eq!(wire.effort, Some(effort));
    }
    let request = GenerationRequest::new("messages-model-5", vec![Message::user("x")]).with_max_tokens(256);
    assert_eq!(CreateMessageRequest::try_from_request(&request).unwrap().effort, None);
}

#[test]
fn anthropic_rejects_json_object_format_and_bad_arguments() {
    let request = GenerationRequest::new("messages-model-5", vec![Message::user("x")])
        .with_max_tokens(256)
        .with_response_format(ResponseFormat { kind: ResponseFormatType::JsonObject });
    assert!(matches!(CreateMessageRequest::try_from_request(&request), Err(BackendError::InvalidRequest(_))));

    let request = GenerationRequest::new(
        "messages-model-5",
        vec![Message::assistant_tool_calls(None, vec![tool_call("t", "f", "not json")], None)],
    )
    .with_max_tokens(256);
    assert!(matches!(CreateMessageRequest::try_from_request(&request), Err(BackendError::InvalidRequest(_))));

    // Blank arguments are a no-argument call.
    let request = GenerationRequest::new(
        "messages-model-5",
        vec![Message::assistant_tool_calls(None, vec![tool_call("t", "f", "  ")], None)],
    )
    .with_max_tokens(256);
    let wire = CreateMessageRequest::try_from_request(&request).unwrap();
    assert_eq!(
        wire.messages[0].content,
        AnthropicContent::Blocks(vec![BlockParam::ToolUse { id: "t".to_owned(), name: "f".to_owned(), input: "{}".to_owned() }])
    );
}

#[test]
fn anthropic_system_blocks_and_images() {
    let request = GenerationRequest::new(
        "messages-model-5",
        vec![Message::system("One.  \n"), Message::user("x")],
    )
    .with_max_tokens(8);
    let wire = CreateMessageRequest::try_from_request(&request).unwrap();
    assert_eq!(wire.system, Some(SystemParam::Text("One.".to_owned())));

    let request = GenerationRequest::new(
        "messages-model-5",
        vec![Message::system("One."), Message::system("Two."), Message::user("x")],
    )
    .with_max_tokens(8);
    let wire = CreateMessageRequest::try_from_request(&request).unwrap();
    assert_eq!(wire.system, Some(SystemParam::Blocks(vec!["One.".to_owned(), "Two.".to_owned()])));

    let request = GenerationRequest::new(
        "messages-model-5",
        vec![
            Message::System {
                content: just_llm_client::types::message::MessageContent::Parts(vec![ContentPart::Image {
                    source: ImageSource::Url { url: "u".to_owned() },
                    detail: None,
                }]),
            },
            Message::user("x"),
        ],
    )
    .with_max_tokens(8);
    assert!(matches!(CreateMessageRequest::try_from_request(&request), Err(BackendError::Unserializable { .. })));
}

#[test]
fn anthropic_prepare_maps_image_sources_and_drops_detail() {
    let request = GenerationRequest::new(
        "messages-model-5",
        vec![Message::user_parts(vec![
            ContentPart::Text { text: "what is this?".to_string() },
            ContentPart::Image {
                source: ImageSource::Url { url: "https://example.com/cat.png".to_string() },
                detail: Some(ImageDetail::High),
            },
            ContentPart::Image {
                source: ImageSource::Base64 { data: "aGVsbG8=".to_string(), media_type: "image/png".to_string() },
                detail: None,
            },
            ContentPart::Image {
                source: ImageSource::FileId { file_id: "file_123".to_string() },
                detail: Some(ImageDetail::Low),
            },
        ])],
    )
    .with_max_tokens(256);
    let wire = CreateMessageRequest::try_from_request(&request).unwrap();
    assert_eq!(
        wire.messages[0].content,
        AnthropicContent::Blocks(vec![
            BlockParam::Text { text: "what is this?".to_owned() },
            BlockParam::Image { source: AnthropicImageSource::Url { url: "https://example.com/cat.png".to_owned() } },
            BlockParam::Image {
                source: AnthropicImageSource::Base64 { data: "aGVsbG8=".to_owned(), media_type: ImageMediaType::Png }
            },
            BlockParam::Image { source: AnthropicImageSource::File { file_id: "file_123".to_owned() } },
        ])
    );
}

#[test]
fn anthropic_render_params_excludes_system() {
    let params = render_params(&vec![Message::system("s"), Message::user("u")]).unwrap();
    assert_eq!(params.len(), 1);
    assert_eq!(params[0].role, AnthropicRole::User);
}

fn anthropic_fixture() -> AnthropicMessage {
    AnthropicMessage {
        id: "msg_1".to_owned(),
        model: "messages-model-5".to_owned(),
        content: vec![
            ContentBlock::Thinking { thinking: "need the weather".to_owned(), signature: "sig_1".to_owned() },
            ContentBlock::Text { text: "Checking the weather.".to_owned() },
            ContentBlock::ToolUse { id: "toolu_1".to_owned(), name: "get_weather".to_owned(), input: r#"{"city":"Paris"}"#.to_owned() },
        ],
        stop_reason: Some(StopReason::ToolUse),
        usage: AnthropicUsage {
            input_tokens: 10,
            output_tokens: 8,
            cache_read_input_tokens: Some(2048),
            cache_creation_input_tokens: Some(512),
            output_tokens_details: Some(Some(3)),
        },
    }
}

#[test]
fn anthropic_adapter_maps_generation_with_tools_and_thinking() {
    let response = generation_from_message(&anthropic_fixture());
    assert_eq!(response.text(), Some("Checking the weather."));
    assert_eq!(response.finish_reason, Some(FinishReason::ToolCalls));
    assert_eq!(response.tool_calls().len(), 1);
    assert_eq!(response.tool_calls()[0].id, "toolu_1");
    assert_eq!(response.tool_calls()[0].name, "get_weather");
    assert_eq!(response.tool_calls()[0].arguments, r#"{"city":"Paris"}"#);
    let reasoning = response.reasoning().expect("thinking should be present");
    assert_eq!(reasoning.text.as_deref(), Some("need the weather"));
    assert_eq!(reasoning.signature.as_deref(), Some("sig_1"));
    let usage = response.usage.as_ref().unwrap();
    assert_eq!(usage.completion_tokens_details.as_ref().unwrap().reasoning_tokens, Some(3));
    assert_eq!(usage.cache_read_tokens, Some(2048));
    assert_eq!(usage.cache_write_tokens, Some(512));
    assert_eq!(usage.total_tokens, 18);
}

#[test]
fn anthropic_adapter_maps_usage_without_cache_fields() {
    let mut message = anthropic_fixture();
    message.usage = AnthropicUsage {
        input_tokens: 10,
        output_tokens: 8,
        cache_read_input_tokens: None,
        cache_creation_input_tokens: None,
        output_tokens_details: None,
    };
    let usage = generation_from_message(&message).usage.expect("usage should be present");
    assert_eq!(usage.cache_read_tokens, None);
    assert_eq!(usage.cache_write_tokens, None);
    assert_eq!(usage.completion_tokens_details, None);
}

#[test]
fn anthropic_redacted_thinking_and_empty_signature() {
    let mut message = anthropic_fixture();
    message.content = vec![
        ContentBlock::RedactedThinking { data: "opaque".to_owned() },
        ContentBlock::Thinking { thinking: String::new(), signature: String::new() },
        ContentBlock::Unknown,
    ];
    let response = generation_from_message(&message);
    let reasoning = response.reasoning().unwrap();
    assert_eq!(reasoning.redacted.as_deref(), Some("opaque"));
    assert_eq!(reasoning.text, None);
    assert_eq!(reasoning.signature, None);
    assert_eq!(response.text(), None);
}

#[test]
fn anthropic_adapter_streams_events() {
    let mut scan = MessagesStreamScan::new();
    assert!(scan.observe(AnthropicStreamEvent::MessageStart { input_tokens: 10 }).is_empty());
    let tool_start = scan.observe(AnthropicStreamEvent::ContentBlockStart {
        index: 0,
        content_block: ContentBlock::ToolUse { id: "toolu_1".to_owned(), name: "get_weather".to_owned(), input: "{}".to_owned() },
    });
    assert!(matches!(
        &tool_start[..],
        [GenerationEvent::ToolCall { delta }] if delta.index == Some(0) && delta.id.as_deref() == Some("toolu_1") && delta.name.as_deref() == Some("get_weather")
    ));
    let args = scan.observe(AnthropicStreamEvent::ContentBlockDelta {
        index: 0,
        delta: BlockDelta::InputJsonDelta { partial_json: "{\"city\":\"Paris\"}".to_owned() },
    });
    assert!(matches!(&args[..], [GenerationEvent::ToolCall { delta }] if delta.arguments.as_deref() == Some("{\"city\":\"Paris\"}")));
    assert!(scan.observe(AnthropicStreamEvent::Other).is_empty());
    let end = scan.observe(AnthropicStreamEvent::MessageDelta {
        stop_reason: Some(StopReason::ToolUse),
        usage: Some(DeltaUsage { output_tokens: 5, cache_read_input_tokens: None, cache_creation_input_tokens: None }),
    });
    assert_eq!(end.len(), 2);
    assert!(matches!(&end[0], GenerationEvent::End { finish_reason: Some(FinishReason::ToolCalls), .. }));
    assert!(matches!(&end[1], GenerationEvent::Usage { usage } if usage.prompt_tokens == 10 && usage.completion_tokens == 5 && usage.total_tokens == 15));
}

#[test]
fn anthropic_stream_surfaces_cache_fields_from_message_delta_usage() {
    let mut scan = MessagesStreamScan::new();
    scan.observe(AnthropicStreamEvent::MessageStart { input_tokens: 10 });
    let end = scan.observe(AnthropicStreamEvent::MessageDelta {
        stop_reason: Some(StopReason::EndTurn),
        usage: Some(DeltaUsage { output_tokens: 5, cache_read_input_tokens: Some(2048), cache_creation_input_tokens: Some(512) }),
    });
    assert!(matches!(&end[0], GenerationEvent::End { finish_reason: Some(FinishReason::Stop), .. }));
    assert!(matches!(
        &end[1],
        GenerationEvent::Usage { usage } if usage.prompt_tokens == 10 && usage.completion_tokens == 5
            && usage.cache_read_tokens == Some(2048) && usage.cache_write_tokens == Some(512)
    ));
    assert_eq!(end.len(), 2);
}

#[test]
fn anthropic_stream_omits_usage_event_without_stream_usage() {
    let mut scan = MessagesStreamScan::new();
    scan.observe(AnthropicStreamEvent::MessageStart { input_tokens: 10 });
    let end = scan.observe(AnthropicStreamEvent::MessageDelta { stop_reason: Some(StopReason::EndTurn), usage: None });
    assert_eq!(end.len(), 1);
    assert!(matches!(&end[0], GenerationEvent::End { finish_reason: Some(FinishReason::Stop), response_id: None }));
}

#[test]
fn anthropic_stream_usage_without_start_counts_zero_input() {
    let mut scan = MessagesStreamScan::new();
    let end = scan.observe(AnthropicStreamEvent::MessageDelta {
        stop_reason: None,
        usage: Some(DeltaUsage { output_tokens: 4, cache_read_input_tokens: None, cache_creation_input_tokens: None }),
    });
    assert!(matches!(&end[1], GenerationEvent::Usage { usage } if usage.prompt_tokens == 0 && usage.total_tokens == 4));
}

#[test]
fn responses_encrypted_reasoning_only_with_effort() {
    let request = GenerationRequest::new("gpt-5.6", vec![Message::user("x")]);
    let wire = CreateResponseRequest::try_from_request(&request).unwrap();
    assert_eq!(wire.extra_output, None);
    assert_eq!(wire.reasoning_effort, None);
    assert_eq!(wire.store, None);
}

#[test]
fn anthropic_thinking_round_trips_through_the_next_request() {
    let response = generation_from_message(&anthropic_fixture());
    let request = GenerationRequest::new(
        "messages-model-5",
        vec![
            Message::user("weather?"),
            Message::Assistant(response.message.clone()),
            Message::tool("25C", "toolu_1"),
        ],
    )
    .with_max_tokens(64);
    let wire = CreateMessageRequest::try_from_request(&request).unwrap();
    assert_eq!(
        wire.messages[1].content,
        AnthropicContent::Blocks(vec![
            BlockParam::Text { text: "Checking the weather.".to_owned() },
            BlockParam::Thinking { thinking: "need the weather".to_owned(), signature: "sig_1".to_owned() },
            BlockParam::ToolUse {
                id: "toolu_1".to_owned(),
                name: "get_weather".to_owned(),
                input: r#"{"city":"Paris"}"#.to_owned(),
            },
        ])
    );
}


#[test]
fn openai_compat_render_messages_produces_provider_json() {
    let wire = chat_messages_from(&vec![Message::system("You are helpful."), Message::user("Hello")]).unwrap();
    assert_eq!(wire.len(), 2);
    assert_eq!(
        wire[0],
        ChatMessage::Message {
            role: "system".to_owned(),
            content: ChatContent::Text("You are helpful.".to_owned()),
            reasoning_content: None
        }
    );
    assert_eq!(
        wire[1],
        ChatMessage::Message { role: "user".to_owned(), content: ChatContent::Text("Hello".to_owned()), reasoning_content: None }
    );
}

#[test]
fn openai_compat_render_messages_empty_slice_returns_empty_array() {
    assert!(chat_messages_from(&vec![]).unwrap().is_empty());
}

#[test]
fn openai_compat_render_messages_with_tool_calls() {
    let wire = chat_messages_from(&vec![Message::assistant_tool_calls(
        None,
        vec![tool_call("call_1", "get_weather", "{\"city\":\"Shanghai\"}")],
        None,
    )])
    .unwrap();
    assert_eq!(
        wire[0],
        ChatMessage::ToolCalls {
            content: None,
            tool_calls: vec![ChatToolCall {
                id: "call_1".to_owned(),
                kind: ChatToolType::Function,
                name: "get_weather".to_owned(),
                arguments: "{\"city\":\"Shanghai\"}".to_owned(),
            }],
            reasoning_content: None,
        }
    );
}

#[test]
fn openai_compat_render_messages_with_tool_result() {
    let wire = chat_messages_from(&vec![Message::tool("{\"temperature\":26}", "call_1")]).unwrap();
    assert_eq!(
        wire[0],
        ChatMessage::ToolResult { content: "{\"temperature\":26}".to_owned(), tool_call_id: "call_1".to_owned() }
    );
}

fn chat_completion(content: &str, usage: Option<ChatUsage>) -> ChatCompletion {
    ChatCompletion {
        id: "chatcmpl-4".to_owned(),
        model: "gpt-4.1-mini".to_owned(),
        choices: vec![ChatChoice {
            message: ChatAssistantMessage {
                content: Some(content.to_owned()),
                reasoning_content: None,
                tool_calls: None,
                role: ChatRole::Assistant,
            },
            finish_reason: Some(ChatFinishReason::Stop),
        }],
        usage,
    }
}

#[test]
fn prepare_send_parse_roundtrips_normalized_response() {
    let generation = response_from_chat(&chat_completion("hi", None));
    assert_eq!(generation.text(), Some("hi"));
    assert_eq!(generation.id, "chatcmpl-4");
    assert_eq!(generation.finish_reason, Some(FinishReason::Stop));
    assert!(generation.usage.is_none());
}

#[test]
fn openai_compat_adapter_leaves_unknown_cache_usage_empty() {
    let usage = ChatUsage {
        completion_tokens: 1,
        prompt_tokens: 2,
        total_tokens: 3,
        prompt_tokens_details: None,
        completion_tokens_details: None,
    };
    let response = response_from_chat(&chat_completion("hello", Some(usage)));
    let usage = response.usage.expect("usage should be present");
    assert_eq!(usage.cache_read_tokens, None);
    assert_eq!(usage.cache_write_tokens, None);
    assert_eq!(usage.total_tokens, 3);
}

#[test]
fn openai_compat_adapter_maps_streaming_tool_call_deltas() {
    let first = chunk_to_events(&ChatCompletionChunk {
        choices: vec![ChunkChoice {
            delta: ChunkDelta {
                content: None,
                reasoning_content: None,
                tool_calls: Some(vec![ChunkToolCall {
                    index: Some(0),
                    id: Some("call_1".to_owned()),
                    function: Some(ChunkFunction { name: Some("lookup_weather".to_owned()), arguments: Some(String::new()) }),
                }]),
            },
            finish_reason: None,
        }],
        usage: None,
    });
    let second = chunk_to_events(&ChatCompletionChunk {
        choices: vec![ChunkChoice {
            delta: ChunkDelta {
                content: None,
                reasoning_content: None,
                tool_calls: Some(vec![ChunkToolCall {
                    index: Some(0),
                    id: None,
                    function: Some(ChunkFunction { name: None, arguments: Some("{\"city\":\"Shanghai\"}".to_owned()) }),
                }]),
            },
            finish_reason: Some(ChatFinishReason::ToolCalls),
        }],
        usage: None,
    });
    assert_eq!(first.len(), 1);
    let GenerationEvent::ToolCall { delta: first_delta } = &first[0] else {
        panic!("expected ToolCall event, got {:?}", first[0]);
    };
    assert_eq!(first_delta.id.as_deref(), Some("call_1"));
    assert_eq!(first_delta.name.as_deref(), Some("lookup_weather"));
    assert_eq!(first_delta.arguments.as_deref(), Some(""));
    assert_eq!(second.len(), 2);
    let GenerationEvent::ToolCall { delta: second_delta } = &second[0] else {
        panic!("expected ToolCall event, got {:?}", second[0]);
    };
    assert_eq!(second_delta.name, None);
    assert_eq!(second_delta.arguments.as_deref(), Some("{\"city\":\"Shanghai\"}"));
    assert!(matches!(&second[1], GenerationEvent::End { finish_reason: Some(FinishReason::ToolCalls), .. }));
}

#[test]
fn parse_streaming_yields_normalized_events() {
    let events = chunk_to_events(&ChatCompletionChunk {
        choices: vec![ChunkChoice {
            delta: ChunkDelta { content: Some("hi".to_owned()), reasoning_content: None, tool_calls: None },
            finish_reason: None,
        }],
        usage: None,
    });
    assert!(matches!(&events[..], [GenerationEvent::Text { delta }] if delta == "hi"));
}

#[test]
fn anthropic_invalid_arguments_error_names_the_arguments() {
    let error = arguments_to_input("{not json").unwrap_err();
    match error {
        BackendError::InvalidRequest(message) => {
            assert_eq!(message, "tool call arguments are not valid JSON for Anthropic: {not json");
        }
        other => panic!("expected InvalidRequest, got {other:?}"),
    }
}

#[test]
fn anthropic_blank_arguments_become_empty_object() {
    assert_eq!(arguments_to_input(" \n\t").unwrap(), "{}");
    assert_eq!(arguments_to_input("{\"a\":1}").unwrap(), "{\"a\":1}");
}

#[test]
fn anthropic_single_system_prompt_is_trimmed_text() {
    let (system, rest) =
        extract_system(vec![Message::system("You are concise.  \n"), Message::user("Hi")]).unwrap();
    assert_eq!(system, Some(SystemParam::Text("You are concise.".to_owned())));
    assert_eq!(rest.len(), 1);
}

#[test]
fn image_detail_wire_text_round_trips() {
    assert_eq!(ImageDetail::High.wire_text(), "high");
    assert_eq!(ImageDetail::from_wire_text("low".to_owned()), ImageDetail::Low);
    let unknown = ImageDetail::from_wire_text("ultra".to_owned());
    assert_eq!(unknown, ImageDetail::Unknown("ultra".to_owned()));
    assert_eq!(unknown.wire_text(), "ultra");
}
