use ai_agent::errors::ToolExecutionError;
use ai_agent::json::JsonValue;
use ai_agent::tools::{ExecuteOutcome, ToolHandler, ToolRouter};

#[derive(Clone)]
struct MyState {
    value: u64,
}

/// A handler that reads the "message" string of its input and echoes it,
/// optionally prefixed by the shared state's value.
enum EchoHandler {
    InputOnly,
    WithState,
}

impl ToolHandler<MyState> for EchoHandler {
    fn call(&self, state: &MyState, input: &JsonValue) -> Result<JsonValue, ToolExecutionError> {
        let message = match input.get(&"message".to_string()) {
            Some(JsonValue::Str(s)) => s.clone(),
            _ => return Err(ToolExecutionError::InvalidInput("missing message".to_string())),
        };
        match self {
            EchoHandler::InputOnly => Ok(JsonValue::Str(format!("Input: {}", message))),
            EchoHandler::WithState => Ok(JsonValue::Str(format!(
                "State: {}, Input: {}",
                state.value, message
            ))),
        }
    }
}

fn message_schema() -> JsonValue {
    JsonValue::Obj(vec![
        ("type".to_string(), JsonValue::Str("object".to_string())),
        (
            "properties".to_string(),
            JsonValue::Obj(vec![(
                "message".to_string(),
                JsonValue::Obj(vec![(
                    "type".to_string(),
                    JsonValue::Str("string".to_string()),
                )]),
            )]),
        ),
    ])
}

#[test]
fn test_registry_creation() {
    let registry = ToolRouter::new()
        .register(
            "handler_with_input".to_string(),
            None,
            Some(message_schema()),
            EchoHandler::WithState,
        )
        .register(
            "handler_input_only".to_string(),
            None,
            Some(message_schema()),
            EchoHandler::InputOnly,
        )
        .with_state(MyState { value: 42 });

    assert_eq!(registry.state().value, 42);
}

#[test]
fn test_tool_execution_by_name() {
    let registry = ToolRouter::new()
        .register("test_tool".to_string(), None, None, EchoHandler::InputOnly)
        .with_state(MyState { value: 42 });

    let input = JsonValue::Obj(vec![(
        "message".to_string(),
        JsonValue::Str("Hello".to_string()),
    )]);
    let result = registry.execute_tool(&"test_tool".to_string(), &input);
    match result {
        ExecuteOutcome::Executed(Ok(v)) => {
            let expected = JsonValue::Str("Input: Hello".to_string());
            assert!(v.deep_eq(&expected));
        }
        other => panic!("expected a successful execution, got {:?}", other),
    }

    let result = registry.execute_tool(&"non_existent".to_string(), &input);
    match result {
        ExecuteOutcome::NotFound(msg) => {
            assert!(msg.contains("Tool 'non_existent' not found"));
        }
        other => panic!("expected NotFound, got {:?}", other),
    }
}

#[test]
fn test_get_tool_definitions() {
    let registry = ToolRouter::new()
        .register(
            "tool1".to_string(),
            Some("First tool".to_string()),
            Some(message_schema()),
            EchoHandler::InputOnly,
        )
        .register(
            "tool2".to_string(),
            None,
            Some(message_schema()),
            EchoHandler::WithState,
        )
        .with_state(MyState { value: 42 });

    let definitions = registry.get_tool_definitions();
    assert_eq!(definitions.len(), 2);

    let tool1 = definitions.iter().find(|d| d.name == "tool1").unwrap();
    assert_eq!(tool1.description, "First tool");
    match &tool1.parameters {
        JsonValue::Obj(_) => {}
        other => panic!("expected an object schema, got {:?}", other),
    }
    match tool1.parameters.get(&"properties".to_string()) {
        Some(JsonValue::Obj(_)) => {}
        other => panic!("expected object properties, got {:?}", other),
    }
    match tool1.parameters.get(&"properties".to_string()) {
        Some(props) => match props.get(&"message".to_string()) {
            Some(JsonValue::Obj(_)) => {}
            other => panic!("expected a message property object, got {:?}", other),
        },
        None => panic!("expected properties"),
    }

    let tool2 = definitions.iter().find(|d| d.name == "tool2").unwrap();
    assert_eq!(tool2.description, "");
    match &tool2.parameters {
        JsonValue::Obj(_) => {}
        other => panic!("expected an object schema, got {:?}", other),
    }
}

/// A divide(a, b) tool that reports an execution error on division by zero.
struct DivideHandler;

impl ToolHandler<()> for DivideHandler {
    fn call(&self, _state: &(), input: &JsonValue) -> Result<JsonValue, ToolExecutionError> {
        let a = match input.get(&"a".to_string()) {
            Some(JsonValue::Int(a)) => *a,
            _ => return Err(ToolExecutionError::InvalidInput("missing a".to_string())),
        };
        let b = match input.get(&"b".to_string()) {
            Some(JsonValue::Int(b)) => *b,
            _ => return Err(ToolExecutionError::InvalidInput("missing b".to_string())),
        };
        if b == 0 {
            Err(ToolExecutionError::ExecutionError(
                "division by zero".to_string(),
            ))
        } else {
            Ok(JsonValue::Int(a / b))
        }
    }
}

#[test]
fn three_way_execute_outcome() {
    let registry = ToolRouter::new()
        .register("real_tool".to_string(), None, None, EchoHandler::InputOnly)
        .register_definition("definition_only_tool".to_string(), None, None)
        .with_state(MyState { value: 7 });

    let empty = JsonValue::empty_object();

    match registry.execute_tool(&"unregistered_tool".to_string(), &empty) {
        ExecuteOutcome::NotFound(msg) => assert!(msg.contains("unregistered_tool")),
        other => panic!("expected NotFound, got {:?}", other),
    }

    match registry.execute_tool(&"definition_only_tool".to_string(), &empty) {
        ExecuteOutcome::NoHandler => {}
        other => panic!("expected NoHandler, got {:?}", other),
    }

    let valid_input = JsonValue::Obj(vec![(
        "message".to_string(),
        JsonValue::Str("hi".to_string()),
    )]);
    match registry.execute_tool(&"real_tool".to_string(), &valid_input) {
        ExecuteOutcome::Executed(Ok(v)) => {
            assert!(v.deep_eq(&JsonValue::Str("Input: hi".to_string())));
        }
        other => panic!("expected Executed(Ok), got {:?}", other),
    }
}

#[test]
fn divide_tool_outcomes() {
    let registry = ToolRouter::new()
        .register("divide".to_string(), None, None, DivideHandler)
        .with_state(());

    let by_zero = JsonValue::Obj(vec![
        ("a".to_string(), JsonValue::Int(10)),
        ("b".to_string(), JsonValue::Int(0)),
    ]);
    match registry.execute_tool(&"divide".to_string(), &by_zero) {
        ExecuteOutcome::Executed(Err(e)) => {
            assert!(e.message().contains("division by zero"));
        }
        other => panic!("expected Executed(Err), got {:?}", other),
    }

    let ok = JsonValue::Obj(vec![
        ("a".to_string(), JsonValue::Int(10)),
        ("b".to_string(), JsonValue::Int(2)),
    ]);
    match registry.execute_tool(&"divide".to_string(), &ok) {
        ExecuteOutcome::Executed(Ok(v)) => {
            assert!(v.deep_eq(&JsonValue::Int(5)));
        }
        other => panic!("expected Executed(Ok), got {:?}", other),
    }
}

#[test]
fn registration_replaces_by_name() {
    let registry = ToolRouter::new()
        .register("echo".to_string(), Some("old".to_string()), None, EchoHandler::InputOnly)
        .register("echo".to_string(), Some("new".to_string()), None, EchoHandler::WithState)
        .with_state(MyState { value: 9 });

    let definitions = registry.get_tool_definitions();
    assert_eq!(definitions.len(), 1);
    assert_eq!(definitions[0].description, "new");

    let names = registry.tool_names();
    assert_eq!(names.len(), 1);
    assert_eq!(*names[0], "echo".to_string());

    let meta = registry.tool_metadata(&"echo".to_string()).unwrap();
    assert_eq!(meta.name, "echo");
    assert!(registry.tool_metadata(&"missing".to_string()).is_none());
    assert_eq!(registry.all_tool_metadata().len(), 1);
}
