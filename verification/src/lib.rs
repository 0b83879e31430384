//! Client-side orchestration for multi-turn, tool-augmented conversations
//! with a remote language-model provider.
//!
//! The crate is organised around three cooperating parts: an agent execution
//! loop driving bounded request/response exchanges, a tool routing system
//! dispatching model-issued tool calls to registered handlers, and a
//! streaming adapter normalising a backend's event stream into a uniform
//! chunked representation.

pub mod agent;
pub mod anthropic;
pub mod codec;
pub mod errors;
pub mod json;
pub mod messages;
pub mod strategy;
pub mod stream;
pub mod text;
pub mod tools;
pub mod types;

pub use json::JsonValue;
