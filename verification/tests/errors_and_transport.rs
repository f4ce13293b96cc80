use just_llm_client::error::{
    captured_body, provider_rejection, BackendConstructError, BackendError, Capability, CapabilityError, ErrorSource,
    ProviderError, TransportError,
};
use just_llm_client::error_text::decimal_text;
use just_llm_client::sse::SseDecoder;
use just_llm_client::transport::{
    append_capped, bearer_authorization, check_body, decode_body, deserialized_body, endpoint_url, is_success_status, with_trailing_slash,
    without_leading_slashes, MAX_BODY_BYTES,
};

fn bad_json() -> serde_json::Error {
    serde_json::from_str::<serde_json::Value>("bad json").unwrap_err()
}

#[test]
fn captured_body_finds_http_status() {
    let body = r#"{"error":"bad request"}"#;
    let te = TransportError::HttpStatus { status: 400, body: body.into() };
    assert_eq!(te.captured_body(), Some(body));
    let pe = ProviderError::Transport(te);
    assert_eq!(pe.captured_body(), Some(body));
}

#[test]
fn captured_body_finds_transport_deserialize() {
    let payload = "data: not-json";
    let te = TransportError::Deserialize { source: bad_json(), body: payload.into() };
    assert_eq!(te.captured_body(), Some(payload));
    let pe = ProviderError::Transport(te);
    assert_eq!(pe.captured_body(), Some(payload));
}

#[test]
fn captured_body_finds_provider_deserialize() {
    let body = r#"{"not":"valid for schema"}"#;
    let pe = ProviderError::Deserialize { source: bad_json(), body: body.into() };
    assert_eq!(pe.captured_body(), Some(body));
}

#[test]
fn captured_body_none_when_absent() {
    let config = TransportError::InvalidConfig("missing base url");
    assert_eq!(config.captured_body(), None);

    let too_large = TransportError::BodyTooLarge { limit: 8 * 1024 * 1024 };
    assert_eq!(too_large.captured_body(), None);

    let utf8 = TransportError::Utf8(String::from_utf8(vec![0xff, 0xfe]).unwrap_err());
    assert_eq!(utf8.captured_body(), None);

    let invalid = TransportError::InvalidResponse("malformed structure".into());
    assert_eq!(invalid.captured_body(), None);
}

#[test]
fn captured_body_traverses_backend_error() {
    let te = TransportError::HttpStatus {
        status: 400,
        body: r#"{"error":"context_length_exceeded"}"#.into(),
    };
    let be = BackendError::provider("openai-compatible", ErrorSource::Provider(ProviderError::Transport(te)));
    assert_eq!(captured_body(&be), Some(r#"{"error":"context_length_exceeded"}"#));
}

#[test]
fn provider_rejection_lifts_status_code_and_error_type() {
    let te = TransportError::HttpStatus {
        status: 400,
        body: r#"{"error":{"code":"image_invalid","type":"invalid_request_error"}}"#.into(),
    };
    let be = BackendError::provider("openai-compatible", ErrorSource::Provider(ProviderError::Transport(te)));

    let rejection = provider_rejection(&be).expect("http rejection must be reachable");
    assert_eq!(rejection.status, 400);
    assert_eq!(rejection.code.as_deref(), Some("image_invalid"));
    assert_eq!(rejection.error_type.as_deref(), Some("invalid_request_error"));
    assert_eq!(
        captured_body(&be),
        Some(r#"{"error":{"code":"image_invalid","type":"invalid_request_error"}}"#)
    );
}

#[test]
fn provider_rejection_without_json_body_yields_status_only() {
    let te = TransportError::HttpStatus { status: 503, body: "gateway exploded".into() };
    let be = BackendError::provider("openai-compatible", ErrorSource::Provider(ProviderError::Transport(te)));

    let rejection = provider_rejection(&be).expect("http rejection must be reachable");
    assert_eq!(rejection.status, 503);
    assert_eq!(rejection.code, None);
    assert_eq!(rejection.error_type, None);
}

#[test]
fn provider_rejection_absent_for_pre_flight_errors() {
    let be = BackendError::unserializable("deepseek", "file-id image source");
    assert!(provider_rejection(&be).is_none());
    assert!(matches!(be, BackendError::Unserializable { .. }));
}

#[test]
fn provider_rejection_reaches_bare_transport_source() {
    let te = TransportError::HttpStatus { status: 429, body: r#"{"error":{"type":"rate_limit"}}"#.into() };
    let be = BackendError::provider("anthropic", ErrorSource::Transport(te));
    let rejection = provider_rejection(&be).unwrap();
    assert_eq!(rejection.status, 429);
    assert_eq!(rejection.code, None);
    assert_eq!(rejection.error_type.as_deref(), Some("rate_limit"));
}

#[test]
fn append_capped_accepts_up_to_limit() {
    let mut buf = Vec::new();
    let fill = vec![0u8; 16];
    append_capped(&mut buf, &fill, 16).unwrap();
    assert_eq!(buf.len(), 16);
}

#[test]
fn append_capped_rejects_overflow_without_appending() {
    let mut buf = Vec::new();
    let limit = 16;
    let fill = vec![0u8; limit];
    append_capped(&mut buf, &fill, limit).unwrap();
    let err = append_capped(&mut buf, &[1], limit).unwrap_err();
    assert!(
        matches!(err, TransportError::BodyTooLarge { limit: 16 }),
        "overflow must surface as BodyTooLarge, got {err:?}"
    );
    assert_eq!(buf.len(), limit);
    assert!(!buf.contains(&1));
}

#[test]
fn append_capped_rejects_single_oversized_chunk() {
    let mut buf = Vec::new();
    let oversized = vec![0u8; 17];
    let err = append_capped(&mut buf, &oversized, 16).unwrap_err();
    assert!(
        matches!(err, TransportError::BodyTooLarge { limit: 16 }),
        "first-chunk overflow must surface as BodyTooLarge, got {err:?}"
    );
    assert!(buf.is_empty(), "buffer must stay empty when the first chunk overflows");
}

#[test]
fn append_capped_concatenates_chunks() {
    let mut buf = vec![1u8, 2];
    append_capped(&mut buf, &[3, 4], MAX_BODY_BYTES).unwrap();
    assert_eq!(buf, vec![1, 2, 3, 4]);
    assert_eq!(MAX_BODY_BYTES, 8 * 1024 * 1024);
}

#[test]
fn parse_body_rejects_empty_body() {
    let err = check_body(String::new()).unwrap_err();
    assert!(
        matches!(err, ProviderError::Transport(TransportError::InvalidResponse(_))),
        "empty body must surface as InvalidResponse, got {err:?}"
    );
    let err = check_body("   \n\t ".to_owned()).unwrap_err();
    assert!(
        matches!(err, ProviderError::Transport(TransportError::InvalidResponse(_))),
        "whitespace-only body must surface as InvalidResponse, got {err:?}"
    );
}

#[test]
fn parse_body_maps_malformed_to_deserialize() {
    let body = check_body("not valid json".to_owned()).unwrap();
    let parsed = serde_json::from_str::<serde_json::Value>(&body);
    let err = deserialized_body(body, parsed).unwrap_err();
    assert!(
        matches!(err, ProviderError::Deserialize { ref body, .. } if body == "not valid json"),
        "malformed body must surface as Deserialize, got {err:?}"
    );
}

#[test]
fn parse_body_deserializes_valid_json() {
    let body = check_body(r#"{"x":7}"#.to_owned()).unwrap();
    let parsed = serde_json::from_str::<serde_json::Value>(&body);
    let value = deserialized_body(body, parsed).unwrap();
    assert_eq!(value["x"], 7);
}

#[test]
fn decode_body_accepts_utf8_and_rejects_invalid_bytes() {
    assert_eq!(decode_body("héllo".as_bytes().to_vec()).unwrap(), "héllo");
    assert!(matches!(decode_body(vec![0xff, 0xfe]), Err(TransportError::Utf8(_))));
}

#[test]
fn endpoint_path_helpers_keep_segments() {
    assert_eq!(with_trailing_slash("/v1"), "/v1/");
    assert_eq!(with_trailing_slash("/v1/"), "/v1/");
    assert_eq!(with_trailing_slash(""), "/");
    assert_eq!(without_leading_slashes("/chat/completions"), "chat/completions");
    assert_eq!(without_leading_slashes("//x"), "x");
    assert_eq!(without_leading_slashes("chat/completions"), "chat/completions");
    assert_eq!(without_leading_slashes("///"), "");
}

#[test]
fn sse_decoder_hands_out_event_payloads_until_done() {
    let mut decoder = SseDecoder::new();
    let first = decoder.feed("data: {\"type\":\"a\"}\n\nevent: ping\ndata: {\"type\":");
    assert_eq!(first, vec!["{\"type\":\"a\"}".to_owned()]);
    let second = decoder.feed("\"b\"}\r\n\r\ndata:line1\ndata: line2\n\n: comment\n\ndata: [DONE]\n\ndata: late\n\n");
    assert_eq!(second, vec!["{\"type\":\"b\"}".to_owned(), "line1\nline2".to_owned()]);
    assert!(decoder.is_done());
    assert!(decoder.feed("data: more\n\n").is_empty());
}

#[test]
fn error_messages_render_without_bodies() {
    let te = TransportError::HttpStatus { status: 429, body: "secret body".into() };
    assert_eq!(te.message(), "api returned 429 Too Many Requests");
    let be = BackendError::provider("anthropic", ErrorSource::Provider(ProviderError::Transport(te)));
    assert_eq!(be.message(), "anthropic backend error: transport error: api returned 429 Too Many Requests");
    assert_eq!(
        TransportError::HttpStatus { status: 42, body: String::new() }.message(),
        "api returned 42 <unknown status code>"
    );
    assert_eq!(
        TransportError::BodyTooLarge { limit: 8388608 }.message(),
        "response body exceeded 8388608-byte limit"
    );
    assert_eq!(BackendError::invalid_request("no").message(), "invalid request: no");
    assert_eq!(
        BackendError::unserializable("deepseek", "file-id image source").message(),
        "request cannot be serialized for deepseek: file-id image source"
    );
    assert_eq!(
        BackendConstructError::unknown_family("mystery").message(),
        "no backend registered for family 'mystery'"
    );
    assert_eq!(
        CapabilityError::unsupported("anthropic", Capability::Balance).message(),
        "anthropic does not support balance"
    );
    assert_eq!(
        CapabilityError::unavailable("deepseek", Capability::ModelCatalog, "offline").message(),
        "deepseek cannot currently provide model catalog: offline"
    );
    assert!(BackendError::serialization(bad_json()).message().starts_with("serialization error: "));
}

#[test]
fn decimal_rendering() {
    assert_eq!(decimal_text(0), "0");
    assert_eq!(decimal_text(7), "7");
    assert_eq!(decimal_text(1005), "1005");
    assert_eq!(decimal_text(u64::MAX), "18446744073709551615");
}

#[test]
fn sse_chunk_boundaries_do_not_matter() {
    let stream = "event: a\ndata: one\n\ndata: two\ndata: three\n\ndata: [DONE]\n\n";
    let mut whole = SseDecoder::new();
    let all_at_once = whole.feed(stream);
    let mut pieces = SseDecoder::new();
    let mut piecewise = Vec::new();
    for piece in ["ev", "ent: a\nda", "ta: one\n", "\nd", "ata: two\ndata: thr", "ee\n\ndata: [DO", "NE]\n\n"] {
        piecewise.extend(pieces.feed(piece));
    }
    assert_eq!(all_at_once, vec!["one".to_owned(), "two\nthree".to_owned()]);
    assert_eq!(piecewise, all_at_once);
    assert!(whole.is_done() && pieces.is_done());
}

#[test]
fn endpoint_url_resolves_paths_correctly() {
    let cases = [
        ("https://api.example.com/v1", "chat/completions", "https://api.example.com/v1/chat/completions"),
        ("https://api.example.com/v1/", "chat/completions", "https://api.example.com/v1/chat/completions"),
        ("https://api.example.com/v1", "/chat/completions", "https://api.example.com/v1/chat/completions"),
        ("https://api.deepseek.com", "chat/completions", "https://api.deepseek.com/chat/completions"),
        (
            "https://proxy.example.com/openai/v1",
            "chat/completions",
            "https://proxy.example.com/openai/v1/chat/completions",
        ),
    ];
    for (base, path, expected) in cases {
        assert_eq!(endpoint_url(base, path).unwrap(), expected, "endpoint_url({base:?}, {path:?})");
    }
}

#[test]
fn endpoint_url_rejects_invalid_base() {
    assert!(endpoint_url("not a url", "chat/completions").is_err());
}

#[test]
fn endpoint_url_names_the_invalid_base() {
    let err = endpoint_url("not a url", "chat/completions").unwrap_err();
    assert!(matches!(err, TransportError::InvalidConfig("invalid base URL")));
}

#[test]
fn endpoint_url_strips_every_leading_slash() {
    assert_eq!(
        endpoint_url("https://api.example.com/v1/", "///messages").unwrap(),
        "https://api.example.com/v1/messages"
    );
}

#[test]
fn build_client_rejects_invalid_key_header_chars() {
    let err = bearer_authorization("bad\nkey").unwrap_err();
    assert!(matches!(err, TransportError::InvalidConfig(_)));
}

#[test]
fn bearer_authorization_prefixes_the_key() {
    assert_eq!(bearer_authorization("sk-test\tkey").unwrap(), "Bearer sk-test\tkey");
    assert_eq!(bearer_authorization("clé").unwrap(), "Bearer clé");
}

#[test]
fn bearer_authorization_names_the_invalid_key() {
    let err = bearer_authorization("key\u{7f}").unwrap_err();
    assert!(matches!(err, TransportError::InvalidConfig("api key contains invalid header characters")));
}

#[test]
fn outside_error_messages_keep_their_fixed_prefixes() {
    let be = BackendError::Serialization { source: bad_json() };
    assert!(be.message().starts_with("serialization error: "));
    let pe = ProviderError::Serialize(bad_json());
    assert!(pe.message().starts_with("serialization failed: "));
    let wrapped = BackendError::Provider {
        family: "openai",
        source: ErrorSource::Provider(ProviderError::Deserialize { source: bad_json(), body: "x".to_owned() }),
    };
    assert!(wrapped.message().starts_with("openai backend error: failed to deserialize response body: "));
}

#[test]
fn whitespace_only_and_empty_bodies_are_refused() {
    assert!(check_body(String::new()).is_err());
    assert!(check_body("\u{3000}\u{a0}\r\n".to_owned()).is_err());
    assert_eq!(check_body(" {} ".to_owned()).unwrap(), " {} ");
}

#[test]
fn only_2xx_statuses_are_successes() {
    assert!(is_success_status(200));
    assert!(is_success_status(204));
    assert!(is_success_status(299));
    assert!(!is_success_status(199));
    assert!(!is_success_status(300));
    assert!(!is_success_status(429));
}
