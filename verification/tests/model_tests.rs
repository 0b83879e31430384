use ai_agent::agent::validate_request;
use ai_agent::codec::{decode_conversation, encode_conversation};
use ai_agent::errors::{
    AgentError, AiError, NetworkError, ProviderError, SerializationError, ToolError,
    ToolExecutionError, ValidationError,
};
use ai_agent::json::JsonValue;
use ai_agent::messages::{
    check_correlated, AssistantContent, ImageContent, Message, ToolCall, ToolResult, UserContent,
};
use ai_agent::text::u64_to_string;
use ai_agent::types::{ChatRequest, ChatResponse, FinishReason};

use ai_agent::agent::ChatTextGeneration;

#[test]
fn message_builders_respect_roles() {
    let m = Message::system("be brief").add_text("always");
    match &m {
        Message::System { content, .. } => assert_eq!(content.len(), 2),
        other => panic!("expected a system message, got {:?}", other),
    }
    assert_eq!(m.role(), "system");

    let m = Message::user("hello").add_image(ImageContent {
        url: None,
        base64: Some("aGk=".to_string()),
        mime_type: Some("image/png".to_string()),
    });
    match &m {
        Message::User { content, .. } => {
            assert_eq!(content.len(), 2);
            assert!(matches!(&content[1], UserContent::Image { .. }));
        }
        other => panic!("expected a user message, got {:?}", other),
    }
    assert_eq!(m.role(), "user");

    // Adding a text part to an assistant message this way is a no-op, and
    // adding an image to a system message is a no-op: the role keeps its
    // permitted content parts.
    let m = Message::assistant("hi").add_text("ignored");
    match &m {
        Message::Assistant { content, .. } => assert_eq!(content.len(), 1),
        other => panic!("expected an assistant message, got {:?}", other),
    }
    assert_eq!(m.role(), "assistant");

    let m = Message::system("rules").add_image(ImageContent {
        url: None,
        base64: None,
        mime_type: None,
    });
    match &m {
        Message::System { content, .. } => assert_eq!(content.len(), 1),
        other => panic!("expected a system message, got {:?}", other),
    }

    let m = Message::tool(ToolResult {
        tool_call_id: "c".to_string(),
        result: JsonValue::Null,
        is_error: false,
    });
    assert_eq!(m.role(), "tool");
}

#[test]
fn correlation_invariant_is_decided() {
    let correlated = vec![
        Message::user("divide ten by two"),
        Message::assistant("").add_tool_call(ToolCall {
            id: "call-1".to_string(),
            name: "divide".to_string(),
            arguments: JsonValue::empty_object(),
        }),
        Message::tool(ToolResult {
            tool_call_id: "call-1".to_string(),
            result: JsonValue::Int(5),
            is_error: false,
        }),
    ];
    assert!(check_correlated(&correlated));

    // Appending a result whose identifier matches no prior call violates
    // the invariant.
    let mut broken = correlated;
    broken.push(Message::tool(ToolResult {
        tool_call_id: "call-2".to_string(),
        result: JsonValue::Null,
        is_error: false,
    }));
    assert!(!check_correlated(&broken));

    // A tool result before any assistant message violates it too.
    let orphan = vec![Message::tool(ToolResult {
        tool_call_id: "call-1".to_string(),
        result: JsonValue::Null,
        is_error: false,
    })];
    assert!(!check_correlated(&orphan));
}

#[test]
fn conversation_round_trip_preserves_correlation() {
    let conversation = vec![
        Message::system("be helpful").add_text("and brief"),
        Message::user("divide ten by two"),
        Message::assistant("using the divide tool").add_tool_call(ToolCall {
            id: "call-1".to_string(),
            name: "divide".to_string(),
            arguments: JsonValue::Obj(vec![
                ("a".to_string(), JsonValue::Int(10)),
                ("b".to_string(), JsonValue::Int(2)),
            ]),
        }),
        Message::tool(ToolResult {
            tool_call_id: "call-1".to_string(),
            result: JsonValue::Int(5),
            is_error: false,
        }),
        Message::assistant("the answer is 5"),
    ];
    assert!(check_correlated(&conversation));

    let encoded = encode_conversation(&conversation);
    let decoded = decode_conversation(&encoded).expect("an encoded conversation decodes");

    // The round trip returns the conversation unchanged: re-encoding gives
    // the same JSON, and every tool result still correlates to a preceding
    // assistant tool call.
    let re_encoded = encode_conversation(&decoded);
    assert!(encoded.deep_eq(&re_encoded));
    assert_eq!(decoded.len(), conversation.len());
    assert!(check_correlated(&decoded));

    // A conversation whose tool result answers no prior call still fails
    // the invariant after a round trip.
    let mut broken = decoded;
    broken.push(Message::tool(ToolResult {
        tool_call_id: "call-9".to_string(),
        result: JsonValue::Null,
        is_error: false,
    }));
    let round_tripped =
        decode_conversation(&encode_conversation(&broken)).expect("decodes back");
    assert!(!check_correlated(&round_tripped));
}

#[test]
fn json_deep_eq_and_lookup() {
    let a = JsonValue::Obj(vec![
        ("k".to_string(), JsonValue::Arr(vec![JsonValue::Int(1), JsonValue::Bool(true)])),
        ("s".to_string(), JsonValue::Str("x".to_string())),
    ]);
    let b = a.deep_clone();
    assert!(a.deep_eq(&b));

    let c = JsonValue::Obj(vec![
        ("k".to_string(), JsonValue::Arr(vec![JsonValue::Int(2), JsonValue::Bool(true)])),
        ("s".to_string(), JsonValue::Str("x".to_string())),
    ]);
    assert!(!a.deep_eq(&c));

    match a.get(&"s".to_string()) {
        Some(JsonValue::Str(s)) => assert_eq!(s, "x"),
        other => panic!("expected a string member, got {:?}", other),
    }
    assert!(a.get(&"missing".to_string()).is_none());
    assert!(JsonValue::Null.get(&"s".to_string()).is_none());
}

#[test]
fn error_messages_render_exactly() {
    let e = AiError::Provider(ProviderError::ApiError {
        provider: "anthropic".to_string(),
        status: 404,
        message: "no such model".to_string(),
    });
    assert_eq!(
        e.message(),
        "Provider error: API error from anthropic (HTTP 404): no such model"
    );

    let e = ProviderError::RateLimit {
        provider: "anthropic".to_string(),
        retry_after: Some(30),
        message: "busy".to_string(),
    };
    assert_eq!(
        e.message(),
        "Rate limit exceeded for anthropic (retry after 30 seconds): busy"
    );

    let e = ToolError::NotFound {
        name: "calc".to_string(),
    };
    assert_eq!(e.message(), "Tool 'calc' not found");

    let e = AgentError::MaxStepsExceeded { steps: 7, max: 5 };
    assert_eq!(
        e.message(),
        "Maximum steps exceeded: 7 steps taken, 5 allowed"
    );

    let e = NetworkError::Timeout { seconds: 60 };
    assert_eq!(e.message(), "Request timeout after 60 seconds");

    let e = SerializationError::TypeMismatch {
        expected: "object".to_string(),
        found: "array".to_string(),
    };
    assert_eq!(e.message(), "Type mismatch: expected object, found array");

    let e = ValidationError::MissingField {
        field: "model".to_string(),
    };
    assert_eq!(e.message(), "Missing required field: model");

    let e = ToolExecutionError::Unauthorized("nope".to_string());
    assert_eq!(e.message(), "Unauthorized: nope");
}

#[test]
fn with_context_wraps_api_errors_only() {
    let e = AiError::Provider(ProviderError::ApiError {
        provider: "anthropic".to_string(),
        status: 500,
        message: "boom".to_string(),
    });
    let e = e.with_context("while generating");
    match e {
        AiError::Provider(ProviderError::ApiError { message, .. }) => {
            assert_eq!(message, "while generating: boom");
        }
        other => panic!("expected an API error, got {:?}", other),
    }

    let e = AiError::Network(NetworkError::DnsError {
        message: "no host".to_string(),
    });
    let e = e.with_context("while connecting");
    match e {
        AiError::Network(NetworkError::DnsError { message }) => assert_eq!(message, "no host"),
        other => panic!("expected a DNS error, got {:?}", other),
    }
}

#[test]
fn decimal_rendering() {
    assert_eq!(u64_to_string(0), "0");
    assert_eq!(u64_to_string(7), "7");
    assert_eq!(u64_to_string(120), "120");
    assert_eq!(u64_to_string(4294967295), "4294967295");
    assert_eq!(u64_to_string(18446744073709551615), "18446744073709551615");
}

struct NoVisionProvider;

impl ChatTextGeneration for NoVisionProvider {
    fn name(&self) -> &str {
        "plain"
    }

    fn model(&self) -> &str {
        "text-only"
    }

    fn supports_tools(&self) -> bool {
        false
    }

    fn supports_vision(&self) -> bool {
        false
    }

    fn supports_system_messages(&self) -> bool {
        true
    }

    fn max_tokens(&self) -> Option<u32> {
        Some(1000)
    }

    fn generate(&self, _request: &ChatRequest) -> Result<ChatResponse, AiError> {
        Ok(ChatResponse {
            id: "r".to_string(),
            message: Message::assistant("ok"),
            finish_reason: FinishReason::Stop,
            usage: None,
            metadata: None,
        })
    }
}

#[test]
fn validation_rejects_unsupported_features() {
    let provider = NoVisionProvider;

    let request = ChatRequest::new().user("hello");
    assert!(validate_request(&provider, &request).is_ok());

    let with_image = ChatRequest::new().message(Message::user("look").add_image(ImageContent {
        url: None,
        base64: Some("aGk=".to_string()),
        mime_type: None,
    }));
    match validate_request(&provider, &with_image) {
        Err(AiError::Provider(ProviderError::UnsupportedFeature { provider, feature })) => {
            assert_eq!(provider, "plain");
            assert_eq!(feature, "vision");
        }
        other => panic!("expected an unsupported-feature error, got {:?}", other),
    }

    let with_tool_call = ChatRequest::new().message(Message::assistant("").add_tool_call(
        ToolCall {
            id: "c".to_string(),
            name: "calc".to_string(),
            arguments: JsonValue::empty_object(),
        },
    ));
    match validate_request(&provider, &with_tool_call) {
        Err(AiError::Provider(ProviderError::UnsupportedFeature { feature, .. })) => {
            assert_eq!(feature, "tools");
        }
        other => panic!("expected an unsupported-feature error, got {:?}", other),
    }
}

#[test]
fn chat_request_builder_accumulates() {
    let request = ChatRequest::new()
        .system("be brief")
        .user("hi")
        .assistant("hello")
        .temperature(700)
        .max_tokens(50);
    assert_eq!(request.messages.len(), 3);
    assert_eq!(request.messages[0].role(), "system");
    assert_eq!(request.messages[1].role(), "user");
    assert_eq!(request.messages[2].role(), "assistant");
    assert_eq!(request.settings.temperature, Some(700));
    assert_eq!(request.settings.max_tokens, Some(50));
    assert!(request.tools.is_none());

    let more = vec![Message::user("one"), Message::user("two")];
    let request = request.messages(more);
    assert_eq!(request.messages.len(), 5);
}
