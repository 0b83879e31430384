use ai_agent::anthropic::{
    chunk_visible, classify_http_failure, convert_messages, handle_stream_event, map_stop_reason,
    parse_response, parse_stream_event, AnthropicConfig, AnthropicContent, AnthropicResponse,
    AnthropicStreamEvent, AnthropicUsage,
};
use ai_agent::errors::{AiError, ProviderError};
use ai_agent::json::JsonValue;
use ai_agent::messages::{AssistantContent, Message, ToolCall};
use ai_agent::stream::{StreamConfig, StreamControl, StreamSession};
use ai_agent::strategy::MaxSteps;
use ai_agent::types::{ChatStreamChunk, FinishReason, MessageDelta};

use std::cell::Cell;

use ai_agent::agent::{generate_text, ChatTextGeneration, GenerateConfig};
use ai_agent::types::{ChatRequest, ChatResponse};

struct OneShotProvider {
    text: &'static str,
    cursor: Cell<usize>,
}

impl ChatTextGeneration for OneShotProvider {
    fn name(&self) -> &str {
        "oneshot"
    }

    fn model(&self) -> &str {
        "test-model"
    }

    fn supports_tools(&self) -> bool {
        false
    }

    fn supports_vision(&self) -> bool {
        false
    }

    fn supports_system_messages(&self) -> bool {
        true
    }

    fn max_tokens(&self) -> Option<u32> {
        None
    }

    fn generate(&self, _request: &ChatRequest) -> Result<ChatResponse, AiError> {
        self.cursor.set(self.cursor.get() + 1);
        Ok(ChatResponse {
            id: "resp".to_string(),
            message: Message::assistant(self.text),
            finish_reason: FinishReason::Stop,
            usage: None,
            metadata: None,
        })
    }
}

fn text_chunk(text: &str) -> ChatStreamChunk {
    ChatStreamChunk {
        id: "stream".to_string(),
        delta: MessageDelta::Assistant {
            content: Some(AssistantContent::Text {
                text: text.to_string(),
            }),
        },
        finish_reason: None,
        usage: None,
    }
}

fn terminal_chunk() -> ChatStreamChunk {
    ChatStreamChunk {
        id: "stream".to_string(),
        delta: MessageDelta::Assistant { content: None },
        finish_reason: Some(FinishReason::Stop),
        usage: None,
    }
}

#[test]
fn streaming_reconstruction_matches_single_shot() {
    // Streaming: the step's text deltas are "Hel" and "lo".
    let provider = OneShotProvider {
        text: "Hello",
        cursor: Cell::new(0),
    };
    let config = StreamConfig::new(provider).run_until(MaxSteps::new(1));
    let mut session = StreamSession::new(config);

    let c1 = session.on_chunk(text_chunk("Hel"));
    assert_eq!(c1.step, 0);
    assert!(!c1.is_final);
    let c2 = session.on_chunk(text_chunk("lo"));
    assert!(!c2.is_final);
    let c3 = session.on_chunk(terminal_chunk());
    assert!(c3.is_final);
    let control = session.finish_step();
    assert_eq!(control, StreamControl::Finished);
    assert!(session.is_done());

    let streamed_text = match &session.request().messages[0] {
        Message::Assistant { content, .. } => content
            .iter()
            .map(|p| match p {
                AssistantContent::Text { text } => text.clone(),
                _ => String::new(),
            })
            .collect::<Vec<_>>()
            .join(""),
        other => panic!("expected an assistant message, got {:?}", other),
    };

    // Single shot: an equivalent deterministic provider returns the same
    // text in one response.
    let provider = OneShotProvider {
        text: "Hello",
        cursor: Cell::new(0),
    };
    let config = GenerateConfig::new(provider).run_until(MaxSteps::new(1));
    let out = generate_text(config).expect("loop should succeed");
    let single_text = match &out.final_message {
        Message::Assistant { content, .. } => match &content[0] {
            AssistantContent::Text { text } => text.clone(),
            other => panic!("expected text, got {:?}", other),
        },
        other => panic!("expected an assistant message, got {:?}", other),
    };

    assert_eq!(streamed_text, single_text);
}

#[test]
fn unknown_event_types_are_invisible_not_errors() {
    let event_json = JsonValue::Obj(vec![(
        "type".to_string(),
        JsonValue::Str("brand_new_event".to_string()),
    )]);
    let event = parse_stream_event(&event_json);
    assert!(matches!(event, AnthropicStreamEvent::Unknown));
    let chunk = handle_stream_event(event).expect("unknown events must not error");
    assert!(!chunk_visible(&chunk));

    let ping_json = JsonValue::Obj(vec![(
        "type".to_string(),
        JsonValue::Str("ping".to_string()),
    )]);
    let ping = parse_stream_event(&ping_json);
    assert!(matches!(ping, AnthropicStreamEvent::Ping));
    let chunk = handle_stream_event(ping).expect("ping events must not error");
    assert!(!chunk_visible(&chunk));
}

#[test]
fn text_delta_events_become_visible_chunks() {
    let event_json = JsonValue::Obj(vec![
        (
            "type".to_string(),
            JsonValue::Str("content_block_delta".to_string()),
        ),
        ("index".to_string(), JsonValue::Int(0)),
        (
            "delta".to_string(),
            JsonValue::Obj(vec![
                ("type".to_string(), JsonValue::Str("text_delta".to_string())),
                ("text".to_string(), JsonValue::Str("Hi".to_string())),
            ]),
        ),
    ]);
    let event = parse_stream_event(&event_json);
    let chunk = handle_stream_event(event).expect("text deltas must not error");
    assert!(chunk_visible(&chunk));
    match &chunk.delta {
        MessageDelta::Assistant {
            content: Some(AssistantContent::Text { text }),
        } => assert_eq!(text, "Hi"),
        other => panic!("expected an assistant text delta, got {:?}", other),
    }
}

#[test]
fn message_delta_carries_finish_reason_and_usage() {
    let event_json = JsonValue::Obj(vec![
        (
            "type".to_string(),
            JsonValue::Str("message_delta".to_string()),
        ),
        (
            "delta".to_string(),
            JsonValue::Obj(vec![(
                "stop_reason".to_string(),
                JsonValue::Str("max_tokens".to_string()),
            )]),
        ),
        (
            "usage".to_string(),
            JsonValue::Obj(vec![
                ("input_tokens".to_string(), JsonValue::Int(3)),
                ("output_tokens".to_string(), JsonValue::Int(4)),
            ]),
        ),
    ]);
    let event = parse_stream_event(&event_json);
    let chunk = handle_stream_event(event).expect("message deltas must not error");
    assert!(matches!(chunk.finish_reason, Some(FinishReason::Length)));
    let usage = chunk.usage.expect("usage should be carried");
    assert_eq!(usage.prompt_tokens, 3);
    assert_eq!(usage.completion_tokens, 4);
    assert_eq!(usage.total_tokens, 7);
}

#[test]
fn error_events_terminate_with_api_error() {
    let event_json = JsonValue::Obj(vec![
        ("type".to_string(), JsonValue::Str("error".to_string())),
        (
            "error".to_string(),
            JsonValue::Obj(vec![
                (
                    "type".to_string(),
                    JsonValue::Str("overloaded_error".to_string()),
                ),
                (
                    "message".to_string(),
                    JsonValue::Str("overloaded".to_string()),
                ),
            ]),
        ),
    ]);
    let event = parse_stream_event(&event_json);
    match handle_stream_event(event) {
        Err(AiError::Provider(ProviderError::ApiError {
            provider,
            status,
            message,
        })) => {
            assert_eq!(provider, "anthropic");
            assert_eq!(status, 500);
            assert_eq!(message, "overloaded");
        }
        other => panic!("expected an API error, got {:?}", other),
    }
}

#[test]
fn stop_codes_map_with_fallback() {
    assert!(matches!(
        map_stop_reason(&Some("end_turn".to_string())),
        FinishReason::Stop
    ));
    assert!(matches!(
        map_stop_reason(&Some("max_tokens".to_string())),
        FinishReason::Length
    ));
    assert!(matches!(
        map_stop_reason(&Some("tool_use".to_string())),
        FinishReason::ToolCalls
    ));
    assert!(matches!(
        map_stop_reason(&Some("something_new".to_string())),
        FinishReason::Stop
    ));
    assert!(matches!(map_stop_reason(&None), FinishReason::Stop));
}

#[test]
fn http_failures_classify_by_status() {
    match classify_http_failure(401, "denied".to_string()) {
        AiError::Provider(ProviderError::Authentication { provider, message }) => {
            assert_eq!(provider, "anthropic");
            assert_eq!(message, "denied");
        }
        other => panic!("expected an authentication error, got {:?}", other),
    }
    match classify_http_failure(429, "slow down".to_string()) {
        AiError::Provider(ProviderError::RateLimit {
            retry_after,
            message,
            ..
        }) => {
            assert!(retry_after.is_none());
            assert_eq!(message, "slow down");
        }
        other => panic!("expected a rate limit error, got {:?}", other),
    }
    match classify_http_failure(503, "unavailable".to_string()) {
        AiError::Provider(ProviderError::ApiError {
            status, message, ..
        }) => {
            assert_eq!(status, 503);
            assert_eq!(message, "unavailable");
        }
        other => panic!("expected an API error, got {:?}", other),
    }
}

#[test]
fn system_text_is_concatenated_space_joined() {
    let messages = vec![
        Message::system("You are terse.").add_text("Very terse."),
        Message::user("Hi"),
        Message::system("Second prompt."),
    ];
    let (system, wire) = convert_messages(&messages).expect("conversion should succeed");
    assert_eq!(
        system.expect("system text should be present"),
        "You are terse. Very terse. Second prompt."
    );
    assert_eq!(wire.len(), 1);
    assert_eq!(wire[0].role, "user");
}

#[test]
fn tool_results_become_user_messages() {
    let messages = vec![
        Message::assistant("").add_tool_call(ToolCall {
            id: "call-9".to_string(),
            name: "divide".to_string(),
            arguments: JsonValue::empty_object(),
        }),
        Message::tool(ai_agent::messages::ToolResult {
            tool_call_id: "call-9".to_string(),
            result: JsonValue::Int(5),
            is_error: false,
        }),
    ];
    let (system, wire) = convert_messages(&messages).expect("conversion should succeed");
    assert!(system.is_none());
    assert_eq!(wire.len(), 2);
    assert_eq!(wire[0].role, "assistant");
    match &wire[0].content[0] {
        AnthropicContent::ToolUse { id, name, .. } => {
            assert_eq!(id, "call-9");
            assert_eq!(name, "divide");
        }
        other => panic!("expected a tool-use block, got {:?}", other),
    }
    assert_eq!(wire[1].role, "user");
    match &wire[1].content[0] {
        AnthropicContent::ToolResult {
            tool_use_id,
            is_error,
            ..
        } => {
            assert_eq!(tool_use_id, "call-9");
            assert_eq!(*is_error, Some(false));
        }
        other => panic!("expected a tool-result block, got {:?}", other),
    }
}

#[test]
fn image_without_base64_is_rejected() {
    let messages = vec![Message::user("look").add_image(ai_agent::messages::ImageContent {
        url: Some("https://example.com/cat.png".to_string()),
        base64: None,
        mime_type: None,
    })];
    match convert_messages(&messages) {
        Err(AiError::Validation(e)) => {
            assert!(e.message().contains("base64"));
        }
        other => panic!("expected a validation error, got {:?}", other),
    }
}

#[test]
fn response_parses_to_assistant_message() {
    let resp = AnthropicResponse {
        id: "msg-1".to_string(),
        content: vec![
            AnthropicContent::Text {
                text: "Answer:".to_string(),
            },
            AnthropicContent::ToolUse {
                id: "call-1".to_string(),
                name: "calc".to_string(),
                input: JsonValue::empty_object(),
            },
        ],
        stop_reason: Some("tool_use".to_string()),
        usage: Some(AnthropicUsage {
            input_tokens: 11,
            output_tokens: 6,
        }),
    };
    let parsed = parse_response(resp);
    assert_eq!(parsed.id, "msg-1");
    assert!(matches!(parsed.finish_reason, FinishReason::ToolCalls));
    let usage = parsed.usage.expect("usage should be mapped");
    assert_eq!(usage.total_tokens, 17);
    match &parsed.message {
        Message::Assistant { content, .. } => {
            assert_eq!(content.len(), 2);
            assert!(matches!(&content[0], AssistantContent::Text { text } if text == "Answer:"));
            assert!(
                matches!(&content[1], AssistantContent::ToolCall { tool_call } if tool_call.name == "calc")
            );
        }
        other => panic!("expected an assistant message, got {:?}", other),
    }
}

#[test]
fn anthropic_config_defaults() {
    let config = AnthropicConfig::new("k-test".to_string(), "test-model".to_string())
        .with_timeout(30)
        .with_max_retries(1);
    assert_eq!(config.base_url, "https://api.anthropic.com");
    assert_eq!(config.model, "test-model");
    assert_eq!(config.timeout_seconds, 30);
    assert_eq!(config.max_retries, 1);
    let config = config.with_base_url("http://localhost:8080".to_string());
    assert_eq!(config.base_url, "http://localhost:8080");
}

struct SquareHandler;

impl ai_agent::tools::ToolHandler<()> for SquareHandler {
    fn call(
        &self,
        _state: &(),
        input: &JsonValue,
    ) -> Result<JsonValue, ai_agent::errors::ToolExecutionError> {
        match input.get(&"n".to_string()) {
            Some(JsonValue::Int(n)) => Ok(JsonValue::Int(n * n)),
            _ => Err(ai_agent::errors::ToolExecutionError::InvalidInput(
                "missing n".to_string(),
            )),
        }
    }
}

fn tool_call_chunk(id: &str, name: &str, args: JsonValue) -> ChatStreamChunk {
    ChatStreamChunk {
        id: "stream".to_string(),
        delta: MessageDelta::Assistant {
            content: Some(AssistantContent::ToolCall {
                tool_call: ToolCall {
                    id: id.to_string(),
                    name: name.to_string(),
                    arguments: args,
                },
            }),
        },
        finish_reason: None,
        usage: None,
    }
}

#[test]
fn streaming_executes_tool_calls_between_steps() {
    let provider = OneShotProvider {
        text: "unused",
        cursor: Cell::new(0),
    };
    let router = ai_agent::tools::ToolRouter::new()
        .register("square".to_string(), None, None, SquareHandler)
        .with_state(());
    let config = StreamConfig::new(provider)
        .run_until(MaxSteps::new(2))
        .tools(router);
    let mut session = StreamSession::new(config);

    session.on_chunk(tool_call_chunk(
        "call-7",
        "square",
        JsonValue::Obj(vec![("n".to_string(), JsonValue::Int(6))]),
    ));
    let terminal = session.on_chunk(ChatStreamChunk {
        id: "stream".to_string(),
        delta: MessageDelta::Assistant { content: None },
        finish_reason: Some(FinishReason::ToolCalls),
        usage: None,
    });
    assert!(terminal.is_final);
    let control = session.finish_step();
    assert_eq!(control, StreamControl::NextStep);
    assert!(!session.is_done());

    let messages = &session.request().messages;
    assert_eq!(messages.len(), 2);
    match &messages[1] {
        Message::Tool { tool_results, .. } => {
            assert_eq!(tool_results.len(), 1);
            assert_eq!(tool_results[0].tool_call_id, "call-7");
            assert!(tool_results[0].result.deep_eq(&JsonValue::Int(36)));
        }
        other => panic!("expected a tool message, got {:?}", other),
    }
}

#[test]
fn streaming_stops_silently_on_unhandled_tool() {
    let provider = OneShotProvider {
        text: "unused",
        cursor: Cell::new(0),
    };
    let router = ai_agent::tools::ToolRouter::<SquareHandler>::new()
        .register_definition("client_side".to_string(), None, None)
        .with_state(());
    let config = StreamConfig::new(provider)
        .run_until(MaxSteps::new(5))
        .tools(router);
    let mut session = StreamSession::new(config);

    session.on_chunk(tool_call_chunk(
        "call-1",
        "client_side",
        JsonValue::empty_object(),
    ));
    session.on_chunk(ChatStreamChunk {
        id: "stream".to_string(),
        delta: MessageDelta::Assistant { content: None },
        finish_reason: Some(FinishReason::ToolCalls),
        usage: None,
    });
    let control = session.finish_step();
    assert_eq!(control, StreamControl::Finished);
    assert!(session.is_done());
    // The assistant message stays; no tool message was appended.
    assert_eq!(session.request().messages.len(), 1);
}
