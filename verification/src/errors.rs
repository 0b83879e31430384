//! Error taxonomy.
//!
//! Callers always receive a typed, discriminated error value, never an
//! opaque string: provider failures, tool failures, agent failures,
//! network failures, serialization failures and validation failures each
//! have their own shape. Every error renders a human-readable message
//! through a verified `message` method.

use vstd::prelude::*;
use vstd::string::StringExecFns;

use crate::text::{concat2, concat3, spec_dec_str, u64_to_string};

verus! {

/// Core error type: one variant per failure family.
#[derive(Debug)]
pub enum AiError {
    /// Provider-related errors.
    Provider(ProviderError),
    /// Tool-related errors.
    Tool(ToolError),
    /// Agent execution errors.
    Agent(AgentError),
    /// Network and transport errors.
    Network(NetworkError),
    /// Serialization and deserialization errors.
    Serialization(SerializationError),
    /// Configuration and validation errors.
    Validation(ValidationError),
}

/// Provider-specific errors.
#[derive(Debug)]
pub enum ProviderError {
    /// Authentication failed for a provider.
    Authentication { provider: String, message: String },
    /// Rate limit exceeded; `retry_after` is in seconds when the backend says.
    RateLimit { provider: String, retry_after: Option<u64>, message: String },
    /// Model not found or not available.
    ModelNotFound { provider: String, model: String },
    /// Feature not supported by the provider.
    UnsupportedFeature { provider: String, feature: String },
    /// Generic API error from the provider.
    ApiError { provider: String, status: u16, message: String },
}

/// Tool dispatch errors.
#[derive(Debug)]
pub enum ToolError {
    /// Tool not found in the registry.
    NotFound { name: String },
    /// Tool execution failed.
    ExecutionFailed { name: String, error: String },
    /// Invalid input provided to a tool.
    InvalidInput { name: String, expected: String, received: String },
    /// State mismatch or corruption.
    StateMismatch { message: String },
    /// Tool has no handler: control returns to the external caller.
    NoHandler { name: String },
    /// Tool serialization or deserialization error.
    SerializationError { name: String, error: String },
}

/// Agent-specific errors.
#[derive(Debug)]
pub enum AgentError {
    /// Maximum steps exceeded.
    MaxStepsExceeded { steps: u32, max: u32 },
    /// Invalid message sequence.
    InvalidMessageSequence { message: String },
    /// Streaming error occurred.
    StreamingError { message: String },
    /// Agent state error.
    StateError { message: String },
}

/// Network and transport errors.
#[derive(Debug)]
pub enum NetworkError {
    /// Connection failed.
    ConnectionFailed { message: String },
    /// Request timed out after the given number of seconds.
    Timeout { seconds: u64 },
    /// HTTP error.
    HttpError { status: u16, message: String },
    /// DNS resolution failed.
    DnsError { message: String },
}

/// Serialization and deserialization errors.
#[derive(Debug)]
pub enum SerializationError {
    /// JSON parsing failed.
    JsonError { message: String },
    /// Schema validation failed.
    SchemaValidation { message: String },
    /// Type mismatch.
    TypeMismatch { expected: String, found: String },
}

/// Configuration and validation errors.
#[derive(Debug)]
pub enum ValidationError {
    /// Missing required field.
    MissingField { field: String },
    /// Invalid value provided.
    InvalidValue { field: String, message: String },
    /// Configuration error.
    ConfigError { message: String },
}

/// Errors scoped to a single tool invocation.
#[derive(Debug)]
pub enum ToolExecutionError {
    /// Input validation failed.
    InvalidInput(String),
    /// State-related errors.
    StateError(String),
    /// Business logic errors.
    ExecutionError(String),
    /// External service errors.
    ExternalServiceError { service: String, error: String },
    /// Permission or authorization errors.
    Unauthorized(String),
    /// Resource not found.
    NotFound(String),
}

impl ProviderError {
    /// The rendered message of this error.
    pub open spec fn spec_message(&self) -> Seq<char> {
        match self {
            ProviderError::Authentication { provider, message } => "Authentication failed for "@
                + provider@ + ": "@ + message@,
            ProviderError::RateLimit { provider, retry_after, message } => match retry_after {
                Some(secs) => "Rate limit exceeded for "@ + provider@ + " (retry after "@
                    + spec_dec_str(*secs as nat) + " seconds): "@ + message@,
                None => "Rate limit exceeded for "@ + provider@ + ": "@ + message@,
            },
            ProviderError::ModelNotFound { provider, model } => "Model '"@ + model@
                + "' not found for provider "@ + provider@,
            ProviderError::UnsupportedFeature { provider, feature } => "Feature '"@ + feature@
                + "' not supported by provider "@ + provider@,
            ProviderError::ApiError { provider, status, message } => "API error from "@ + provider@
                + " (HTTP "@ + spec_dec_str(*status as nat) + "): "@ + message@,
        }
    }

    /// Renders the error as text.
    pub fn message(&self) -> (r: String)
        ensures
            r@ == self.spec_message(),
    {
        match self {
            ProviderError::Authentication { provider, message } => {
                let mut s = "Authentication failed for ".to_owned();
                s.append(provider.as_str());
                s.append(": ");
                s.append(message.as_str());
                s
            },
            ProviderError::RateLimit { provider, retry_after, message } => match retry_after {
                Some(secs) => {
                    let n = u64_to_string(*secs);
                    let mut s = "Rate limit exceeded for ".to_owned();
                    s.append(provider.as_str());
                    s.append(" (retry after ");
                    s.append(n.as_str());
                    s.append(" seconds): ");
                    s.append(message.as_str());
                    s
                },
                None => {
                    let mut s = "Rate limit exceeded for ".to_owned();
                    s.append(provider.as_str());
                    s.append(": ");
                    s.append(message.as_str());
                    s
                },
            },
            ProviderError::ModelNotFound { provider, model } => {
                let mut s = "Model '".to_owned();
                s.append(model.as_str());
                s.append("' not found for provider ");
                s.append(provider.as_str());
                s
            },
            ProviderError::UnsupportedFeature { provider, feature } => {
                let mut s = "Feature '".to_owned();
                s.append(feature.as_str());
                s.append("' not supported by provider ");
                s.append(provider.as_str());
                s
            },
            ProviderError::ApiError { provider, status, message } => {
                let n = u64_to_string(*status as u64);
                let mut s = "API error from ".to_owned();
                s.append(provider.as_str());
                s.append(" (HTTP ");
                s.append(n.as_str());
                s.append("): ");
                s.append(message.as_str());
                s
            },
        }
    }
}

impl ToolError {
    /// The rendered message of this error.
    pub open spec fn spec_message(&self) -> Seq<char> {
        match self {
            ToolError::NotFound { name } => "Tool '"@ + name@ + "' not found"@,
            ToolError::ExecutionFailed { name, error } => "Tool '"@ + name@
                + "' execution failed: "@ + error@,
            ToolError::InvalidInput { name, expected, received } => "Invalid input for tool '"@
                + name@ + "': expected "@ + expected@ + ", received "@ + received@,
            ToolError::StateMismatch { message } => "Tool state mismatch: "@ + message@,
            ToolError::NoHandler { name } => "Tool '"@ + name@
                + "' has no handler (client-side handling required)"@,
            ToolError::SerializationError { name, error } => "Tool '"@ + name@
                + "' serialization error: "@ + error@,
        }
    }

    /// Renders the error as text.
    pub fn message(&self) -> (r: String)
        ensures
            r@ == self.spec_message(),
    {
        match self {
            ToolError::NotFound { name } => {
                let mut s = "Tool '".to_owned();
                s.append(name.as_str());
                s.append("' not found");
                s
            },
            ToolError::ExecutionFailed { name, error } => {
                let mut s = "Tool '".to_owned();
                s.append(name.as_str());
                s.append("' execution failed: ");
                s.append(error.as_str());
                s
            },
            ToolError::InvalidInput { name, expected, received } => {
                let mut s = "Invalid input for tool '".to_owned();
                s.append(name.as_str());
                s.append("': expected ");
                s.append(expected.as_str());
                s.append(", received ");
                s.append(received.as_str());
                s
            },
            ToolError::StateMismatch { message } => concat2(
                "Tool state mismatch: ",
                message.as_str(),
            ),
            ToolError::NoHandler { name } => {
                let mut s = "Tool '".to_owned();
                s.append(name.as_str());
                s.append("' has no handler (client-side handling required)");
                s
            },
            ToolError::SerializationError { name, error } => {
                let mut s = "Tool '".to_owned();
                s.append(name.as_str());
                s.append("' serialization error: ");
                s.append(error.as_str());
                s
            },
        }
    }
}

impl AgentError {
    /// The rendered message of this error.
    pub open spec fn spec_message(&self) -> Seq<char> {
        match self {
            AgentError::MaxStepsExceeded { steps, max } => "Maximum steps exceeded: "@
                + spec_dec_str(*steps as nat) + " steps taken, "@ + spec_dec_str(*max as nat)
                + " allowed"@,
            AgentError::InvalidMessageSequence { message } => "Invalid message sequence: "@
                + message@,
            AgentError::StreamingError { message } => "Streaming error: "@ + message@,
            AgentError::StateError { message } => "Agent state error: "@ + message@,
        }
    }

    /// Renders the error as text.
    pub fn message(&self) -> (r: String)
        ensures
            r@ == self.spec_message(),
    {
        match self {
            AgentError::MaxStepsExceeded { steps, max } => {
                let a = u64_to_string(*steps as u64);
                let b = u64_to_string(*max as u64);
                let mut s = "Maximum steps exceeded: ".to_owned();
                s.append(a.as_str());
                s.append(" steps taken, ");
                s.append(b.as_str());
                s.append(" allowed");
                s
            },
            AgentError::InvalidMessageSequence { message } => concat2(
                "Invalid message sequence: ",
                message.as_str(),
            ),
            AgentError::StreamingError { message } => concat2(
                "Streaming error: ",
                message.as_str(),
            ),
            AgentError::StateError { message } => concat2(
                "Agent state error: ",
                message.as_str(),
            ),
        }
    }
}

impl NetworkError {
    /// The rendered message of this error.
    pub open spec fn spec_message(&self) -> Seq<char> {
        match self {
            NetworkError::ConnectionFailed { message } => "Connection failed: "@ + message@,
            NetworkError::Timeout { seconds } => "Request timeout after "@ + spec_dec_str(
                *seconds as nat,
            ) + " seconds"@,
            NetworkError::HttpError { status, message } => "HTTP error "@ + spec_dec_str(
                *status as nat,
            ) + ": "@ + message@,
            NetworkError::DnsError { message } => "DNS resolution failed: "@ + message@,
        }
    }

    /// Renders the error as text.
    pub fn message(&self) -> (r: String)
        ensures
            r@ == self.spec_message(),
    {
        match self {
            NetworkError::ConnectionFailed { message } => concat2(
                "Connection failed: ",
                message.as_str(),
            ),
            NetworkError::Timeout { seconds } => {
                let n = u64_to_string(*seconds);
                let mut s = "Request timeout after ".to_owned();
                s.append(n.as_str());
                s.append(" seconds");
                s
            },
            NetworkError::HttpError { status, message } => {
                let n = u64_to_string(*status as u64);
                let mut s = "HTTP error ".to_owned();
                s.append(n.as_str());
                s.append(": ");
                s.append(message.as_str());
                s
            },
            NetworkError::DnsError { message } => concat2(
                "DNS resolution failed: ",
                message.as_str(),
            ),
        }
    }
}

impl SerializationError {
    /// The rendered message of this error.
    pub open spec fn spec_message(&self) -> Seq<char> {
        match self {
            SerializationError::JsonError { message } => "JSON parsing error: "@ + message@,
            SerializationError::SchemaValidation { message } => "Schema validation failed: "@
                + message@,
            SerializationError::TypeMismatch { expected, found } => "Type mismatch: expected "@
                + expected@ + ", found "@ + found@,
        }
    }

    /// Renders the error as text.
    pub fn message(&self) -> (r: String)
        ensures
            r@ == self.spec_message(),
    {
        match self {
            SerializationError::JsonError { message } => concat2(
                "JSON parsing error: ",
                message.as_str(),
            ),
            SerializationError::SchemaValidation { message } => concat2(
                "Schema validation failed: ",
                message.as_str(),
            ),
            SerializationError::TypeMismatch { expected, found } => {
                let mut s = "Type mismatch: expected ".to_owned();
                s.append(expected.as_str());
                s.append(", found ");
                s.append(found.as_str());
                s
            },
        }
    }
}

impl ValidationError {
    /// The rendered message of this error.
    pub open spec fn spec_message(&self) -> Seq<char> {
        match self {
            ValidationError::MissingField { field } => "Missing required field: "@ + field@,
            ValidationError::InvalidValue { field, message } => "Invalid value for field '"@
                + field@ + "': "@ + message@,
            ValidationError::ConfigError { message } => "Configuration error: "@ + message@,
        }
    }

    /// Renders the error as text.
    pub fn message(&self) -> (r: String)
        ensures
            r@ == self.spec_message(),
    {
        match self {
            ValidationError::MissingField { field } => concat2(
                "Missing required field: ",
                field.as_str(),
            ),
            ValidationError::InvalidValue { field, message } => {
                let mut s = "Invalid value for field '".to_owned();
                s.append(field.as_str());
                s.append("': ");
                s.append(message.as_str());
                s
            },
            ValidationError::ConfigError { message } => concat2(
                "Configuration error: ",
                message.as_str(),
            ),
        }
    }
}

impl ToolExecutionError {
    /// The rendered message of this error.
    pub open spec fn spec_message(&self) -> Seq<char> {
        match self {
            ToolExecutionError::InvalidInput(msg) => "Invalid input: "@ + msg@,
            ToolExecutionError::StateError(msg) => "State error: "@ + msg@,
            ToolExecutionError::ExecutionError(msg) => "Execution error: "@ + msg@,
            ToolExecutionError::ExternalServiceError { service, error } => "External service '"@
                + service@ + "' error: "@ + error@,
            ToolExecutionError::Unauthorized(msg) => "Unauthorized: "@ + msg@,
            ToolExecutionError::NotFound(msg) => "Not found: "@ + msg@,
        }
    }

    /// Renders the error as text.
    pub fn message(&self) -> (r: String)
        ensures
            r@ == self.spec_message(),
    {
        match self {
            ToolExecutionError::InvalidInput(msg) => concat2("Invalid input: ", msg.as_str()),
            ToolExecutionError::StateError(msg) => concat2("State error: ", msg.as_str()),
            ToolExecutionError::ExecutionError(msg) => concat2("Execution error: ", msg.as_str()),
            ToolExecutionError::ExternalServiceError { service, error } => {
                let mut s = "External service '".to_owned();
                s.append(service.as_str());
                s.append("' error: ");
                s.append(error.as_str());
                s
            },
            ToolExecutionError::Unauthorized(msg) => concat2("Unauthorized: ", msg.as_str()),
            ToolExecutionError::NotFound(msg) => concat2("Not found: ", msg.as_str()),
        }
    }
}

impl AiError {
    /// The rendered message of this error.
    pub open spec fn spec_message(&self) -> Seq<char> {
        match self {
            AiError::Provider(e) => "Provider error: "@ + e.spec_message(),
            AiError::Tool(e) => "Tool error: "@ + e.spec_message(),
            AiError::Agent(e) => "Agent error: "@ + e.spec_message(),
            AiError::Network(e) => "Network error: "@ + e.spec_message(),
            AiError::Serialization(e) => "Serialization error: "@ + e.spec_message(),
            AiError::Validation(e) => "Validation error: "@ + e.spec_message(),
        }
    }

    /// Renders the error as text.
    pub fn message(&self) -> (r: String)
        ensures
            r@ == self.spec_message(),
    {
        match self {
            AiError::Provider(e) => {
                let m = e.message();
                concat2("Provider error: ", m.as_str())
            },
            AiError::Tool(e) => {
                let m = e.message();
                concat2("Tool error: ", m.as_str())
            },
            AiError::Agent(e) => {
                let m = e.message();
                concat2("Agent error: ", m.as_str())
            },
            AiError::Network(e) => {
                let m = e.message();
                concat2("Network error: ", m.as_str())
            },
            AiError::Serialization(e) => {
                let m = e.message();
                concat2("Serialization error: ", m.as_str())
            },
            AiError::Validation(e) => {
                let m = e.message();
                concat2("Validation error: ", m.as_str())
            },
        }
    }

    /// Adds context to a provider API error; every other variant is returned
    /// unchanged.
    pub fn with_context(self, context: &str) -> (r: AiError)
        ensures
            match self {
                AiError::Provider(
                    ProviderError::ApiError { provider, status, message },
                ) => (r matches AiError::Provider(
                    ProviderError::ApiError { provider: p2, status: s2, message: m2 },
                ) && p2 == provider && s2 == status && m2@ == context@ + ": "@ + message@),
                _ => r == self,
            },
    {
        match self {
            AiError::Provider(pe) => match pe {
                ProviderError::ApiError { provider, status, message } => {
                    let m = concat3(context, ": ", message.as_str());
                    AiError::Provider(
                        ProviderError::ApiError { provider, status, message: m },
                    )
                },
                other => AiError::Provider(other),
            },
            other => other,
        }
    }
}

/// Result of a single tool invocation.
pub type ToolOutput = Result<crate::json::JsonValue, ToolExecutionError>;

impl ToolError {
    /// Wraps a per-invocation tool failure, as the dispatch layer reports it.
    pub fn from_execution(err: &ToolExecutionError) -> (r: ToolError)
        ensures
            (r matches ToolError::ExecutionFailed { name, error } && name@ == Seq::<
                char,
            >::empty() && error@ == err.spec_message()),
    {
        let e = err.message();
        ToolError::ExecutionFailed { name: String::new(), error: e }
    }
}

} // verus!
