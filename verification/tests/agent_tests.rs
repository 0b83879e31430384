use std::cell::Cell;

use ai_agent::agent::{generate_text, ChatTextGeneration, GenerateConfig};
use ai_agent::errors::{AiError, ProviderError, ToolExecutionError};
use ai_agent::json::JsonValue;
use ai_agent::messages::{AssistantContent, Message, ToolCall};
use ai_agent::strategy::{MaxSteps, RunUntilFirst, StopOnReason};
use ai_agent::tools::{ToolHandler, ToolRouter};
use ai_agent::types::{ChatRequest, ChatResponse, FinishReason, Usage};

/// What the scripted provider answers on one step.
enum Step {
    Text(&'static str, FinishReason, Option<Usage>),
    Call(&'static str, &'static str, JsonValue, FinishReason),
    Fail,
}

/// A deterministic provider that replays a fixed script, one entry per
/// step; past the end it keeps answering a plain "done" with `Stop`.
struct ScriptedProvider {
    script: Vec<Step>,
    cursor: Cell<usize>,
}

impl ScriptedProvider {
    fn new(script: Vec<Step>) -> Self {
        ScriptedProvider {
            script,
            cursor: Cell::new(0),
        }
    }
}

impl ChatTextGeneration for ScriptedProvider {
    fn name(&self) -> &str {
        "scripted"
    }

    fn model(&self) -> &str {
        "test-model"
    }

    fn supports_tools(&self) -> bool {
        true
    }

    fn supports_vision(&self) -> bool {
        false
    }

    fn supports_system_messages(&self) -> bool {
        true
    }

    fn max_tokens(&self) -> Option<u32> {
        Some(4096)
    }

    fn generate(&self, _request: &ChatRequest) -> Result<ChatResponse, AiError> {
        let i = self.cursor.get();
        self.cursor.set(i + 1);
        let step = self.script.get(i);
        match step {
            Some(Step::Text(text, reason, usage)) => Ok(ChatResponse {
                id: format!("resp-{}", i),
                message: Message::assistant(text),
                finish_reason: *reason,
                usage: *usage,
                metadata: None,
            }),
            Some(Step::Call(id, name, args, reason)) => Ok(ChatResponse {
                id: format!("resp-{}", i),
                message: Message::assistant("").add_tool_call(ToolCall {
                    id: id.to_string(),
                    name: name.to_string(),
                    arguments: args.deep_clone(),
                }),
                finish_reason: *reason,
                usage: None,
                metadata: None,
            }),
            Some(Step::Fail) => Err(AiError::Provider(ProviderError::Authentication {
                provider: "scripted".to_string(),
                message: "bad key".to_string(),
            })),
            None => Ok(ChatResponse {
                id: format!("resp-{}", i),
                message: Message::assistant("done"),
                finish_reason: FinishReason::Stop,
                usage: None,
                metadata: None,
            }),
        }
    }
}

fn endless_text() -> ScriptedProvider {
    ScriptedProvider::new(vec![
        Step::Text("a", FinishReason::ToolCalls, None),
        Step::Text("b", FinishReason::ToolCalls, None),
        Step::Text("c", FinishReason::ToolCalls, None),
        Step::Text("d", FinishReason::ToolCalls, None),
        Step::Text("e", FinishReason::ToolCalls, None),
        Step::Text("f", FinishReason::ToolCalls, None),
        Step::Text("g", FinishReason::ToolCalls, None),
    ])
}

#[test]
fn max_steps_runs_exactly_n_steps() {
    for n in 1u32..=4 {
        let config = GenerateConfig::new(endless_text()).run_until(MaxSteps::new(n));
        let out = generate_text(config).expect("loop should succeed");
        assert_eq!(out.steps, n);
        assert_eq!(out.messages.len(), n as usize);
    }
}

#[test]
fn max_steps_zero_still_runs_one_step() {
    let config = GenerateConfig::new(endless_text()).run_until(MaxSteps::new(0));
    let out = generate_text(config).expect("loop should succeed");
    assert_eq!(out.steps, 1);
}

#[test]
fn stop_on_reason_halts_on_first_stop() {
    let provider = ScriptedProvider::new(vec![
        Step::Text("a", FinishReason::Length, None),
        Step::Text("b", FinishReason::Length, None),
        Step::Text("c", FinishReason::Stop, None),
        Step::Text("d", FinishReason::Stop, None),
    ]);
    let config = GenerateConfig::new(provider).run_until(StopOnReason::stop_on_finish());
    let out = generate_text(config).expect("loop should succeed");
    assert_eq!(out.steps, 3);
    assert!(matches!(out.finish_reason, FinishReason::Stop));
}

#[test]
fn combined_first_halts_at_earlier_bound() {
    // The step bound wins: no Stop within five steps.
    let config = GenerateConfig::new(endless_text()).run_until(RunUntilFirst::new(
        MaxSteps::new(5),
        StopOnReason::stop_on_finish(),
    ));
    let out = generate_text(config).expect("loop should succeed");
    assert_eq!(out.steps, 5);

    // The stop reason wins: Stop on the second step.
    let provider = ScriptedProvider::new(vec![
        Step::Text("a", FinishReason::Length, None),
        Step::Text("b", FinishReason::Stop, None),
        Step::Text("c", FinishReason::Length, None),
    ]);
    let config = GenerateConfig::new(provider).run_until(RunUntilFirst::new(
        MaxSteps::new(5),
        StopOnReason::stop_on_finish(),
    ));
    let out = generate_text(config).expect("loop should succeed");
    assert_eq!(out.steps, 2);
}

struct DivideHandler;

impl ToolHandler<()> for DivideHandler {
    fn call(&self, _state: &(), input: &JsonValue) -> Result<JsonValue, ToolExecutionError> {
        let a = match input.get(&"a".to_string()) {
            Some(JsonValue::Int(a)) => *a,
            _ => return Err(ToolExecutionError::InvalidInput("missing a".to_string())),
        };
        let b = match input.get(&"b".to_string()) {
            Some(JsonValue::Int(b)) => *b,
            _ => return Err(ToolExecutionError::InvalidInput("missing b".to_string())),
        };
        if b == 0 {
            Err(ToolExecutionError::ExecutionError(
                "division by zero".to_string(),
            ))
        } else {
            Ok(JsonValue::Int(a / b))
        }
    }
}

#[test]
fn tool_loop_appends_results_in_call_order() {
    let args = JsonValue::Obj(vec![
        ("a".to_string(), JsonValue::Int(10)),
        ("b".to_string(), JsonValue::Int(2)),
    ]);
    let provider = ScriptedProvider::new(vec![
        Step::Call("call-1", "divide", args, FinishReason::ToolCalls),
        Step::Text("the answer is 5", FinishReason::Stop, None),
    ]);
    let router = ToolRouter::new()
        .register("divide".to_string(), None, None, DivideHandler)
        .with_state(());
    let config = GenerateConfig::new(provider)
        .run_until(StopOnReason::stop_on_finish())
        .tools(router);
    let out = generate_text(config).expect("loop should succeed");

    assert_eq!(out.steps, 2);
    assert_eq!(out.messages.len(), 3);
    match &out.messages[1] {
        Message::Tool { tool_results, .. } => {
            assert_eq!(tool_results.len(), 1);
            assert_eq!(tool_results[0].tool_call_id, "call-1");
            assert!(!tool_results[0].is_error);
            assert!(tool_results[0].result.deep_eq(&JsonValue::Int(5)));
        }
        other => panic!("expected a tool message, got {:?}", other),
    }
    match &out.final_message {
        Message::Assistant { content, .. } => match &content[0] {
            AssistantContent::Text { text } => assert_eq!(text, "the answer is 5"),
            other => panic!("expected text content, got {:?}", other),
        },
        other => panic!("expected an assistant message, got {:?}", other),
    }
}

#[test]
fn failed_tool_call_becomes_error_result() {
    let args = JsonValue::Obj(vec![
        ("a".to_string(), JsonValue::Int(10)),
        ("b".to_string(), JsonValue::Int(0)),
    ]);
    let provider = ScriptedProvider::new(vec![
        Step::Call("call-1", "divide", args, FinishReason::ToolCalls),
        Step::Text("could not divide", FinishReason::Stop, None),
    ]);
    let router = ToolRouter::new()
        .register("divide".to_string(), None, None, DivideHandler)
        .with_state(());
    let config = GenerateConfig::new(provider)
        .run_until(StopOnReason::stop_on_finish())
        .tools(router);
    let out = generate_text(config).expect("loop should succeed");

    match &out.messages[1] {
        Message::Tool { tool_results, .. } => {
            assert!(tool_results[0].is_error);
            match tool_results[0].result.get(&"error".to_string()) {
                Some(JsonValue::Str(msg)) => assert!(msg.contains("division by zero")),
                other => panic!("expected an error message, got {:?}", other),
            }
        }
        other => panic!("expected a tool message, got {:?}", other),
    }
}

#[test]
fn unknown_tool_name_is_error_result_not_abort() {
    let provider = ScriptedProvider::new(vec![
        Step::Call(
            "call-1",
            "no_such_tool",
            JsonValue::empty_object(),
            FinishReason::ToolCalls,
        ),
        Step::Text("recovered", FinishReason::Stop, None),
    ]);
    let router = ToolRouter::new()
        .register("divide".to_string(), None, None, DivideHandler)
        .with_state(());
    let config = GenerateConfig::new(provider)
        .run_until(StopOnReason::stop_on_finish())
        .tools(router);
    let out = generate_text(config).expect("loop should succeed");

    assert_eq!(out.steps, 2);
    match &out.messages[1] {
        Message::Tool { tool_results, .. } => {
            assert!(tool_results[0].is_error);
            match tool_results[0].result.get(&"error".to_string()) {
                Some(JsonValue::Str(msg)) => {
                    assert!(msg.contains("Tool 'no_such_tool' not found"));
                }
                other => panic!("expected an error message, got {:?}", other),
            }
        }
        other => panic!("expected a tool message, got {:?}", other),
    }
}

#[test]
fn no_handler_tool_aborts_after_one_step() {
    let provider = ScriptedProvider::new(vec![
        Step::Call(
            "call-1",
            "client_tool",
            JsonValue::empty_object(),
            FinishReason::ToolCalls,
        ),
        Step::Text("should never be reached", FinishReason::Stop, None),
    ]);
    let router = ToolRouter::<ai_agent::agent::NoTool>::new()
        .register_definition("client_tool".to_string(), None, None)
        .with_state(());
    let config = GenerateConfig::new(provider)
        .run_until(MaxSteps::new(5))
        .tools(router);
    let out = generate_text(config).expect("loop should succeed");

    assert_eq!(out.steps, 1);
    assert!(matches!(out.finish_reason, FinishReason::ToolCalls));
    // The assistant message with the call is the last message: no tool
    // message was appended before the loop returned control.
    assert_eq!(out.messages.len(), 1);
    match &out.final_message {
        Message::Assistant { content, .. } => {
            assert!(content
                .iter()
                .any(|p| matches!(p, AssistantContent::ToolCall { tool_call } if tool_call.name == "client_tool")));
        }
        other => panic!("expected an assistant message, got {:?}", other),
    }
}

#[test]
fn usage_accumulates_when_reported() {
    let provider = ScriptedProvider::new(vec![
        Step::Text(
            "a",
            FinishReason::Length,
            Some(Usage {
                prompt_tokens: 10,
                completion_tokens: 5,
                total_tokens: 15,
            }),
        ),
        Step::Text(
            "b",
            FinishReason::Stop,
            Some(Usage {
                prompt_tokens: 20,
                completion_tokens: 7,
                total_tokens: 27,
            }),
        ),
    ]);
    let config = GenerateConfig::new(provider).run_until(StopOnReason::stop_on_finish());
    let out = generate_text(config).expect("loop should succeed");
    let usage = out.total_usage.expect("usage should be reported");
    assert_eq!(usage.prompt_tokens, 30);
    assert_eq!(usage.completion_tokens, 12);
    assert_eq!(usage.total_tokens, 42);

    let config = GenerateConfig::new(endless_text()).run_until(MaxSteps::new(2));
    let out = generate_text(config).expect("loop should succeed");
    assert!(out.total_usage.is_none());
}

#[test]
fn provider_errors_are_forwarded_not_retried() {
    let provider = ScriptedProvider::new(vec![Step::Fail]);
    let config = GenerateConfig::new(provider).run_until(MaxSteps::new(3));
    let err = generate_text(config).err().expect("the provider error must be forwarded");
    match err {
        AiError::Provider(ProviderError::Authentication { provider, message }) => {
            assert_eq!(provider, "scripted");
            assert_eq!(message, "bad key");
        }
        other => panic!("expected an authentication error, got {:?}", other),
    }
}

#[test]
fn default_config_runs_one_step() {
    // Without an explicit strategy the configuration bounds the run to a
    // single step.
    let config = GenerateConfig::new(endless_text());
    let out = generate_text(config).expect("loop should succeed");
    assert_eq!(out.steps, 1);
}
