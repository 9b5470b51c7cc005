//! Data exchanged with plugins across the WASM boundary.

use vstd::prelude::*;

verus! {

/// Log level of a message a plugin emits.
#[derive(Debug, Clone, Copy, PartialEq, Eq, Hash, Structural)]
pub enum LogLevel {
    /// Finest-grained diagnostics.
    Trace,
    /// Debugging detail.
    Debug,
    /// Normal operation.
    Info,
    /// Something unexpected but recoverable.
    Warn,
    /// A failure.
    Error,
}

/// A key and its value, such as an HTTP header.
#[derive(Debug, Clone, PartialEq, Eq)]
pub struct KeyValuePair {
    /// The key.
    pub key: String,
    /// The value.
    pub value: String,
}

/// What a plugin is told about the event it handles.
#[derive(Debug, Clone, PartialEq, Eq)]
pub struct PluginContext {
    /// The event name.
    pub event: String,
    /// The session the event belongs to.
    pub session_id: String,
    /// The user, when known.
    pub user_id: Option<String>,
    /// Event data as JSON text.
    pub data: Option<String>,
}

/// What a plugin answers to an event.
#[derive(Debug, Clone, PartialEq, Eq)]
pub struct PluginResult {
    /// The action to take, such as `"continue"` or `"modify"`.
    pub action: String,
    /// Data for the action as JSON text.
    pub data: Option<String>,
}

/// A tool call handed to a plugin.
#[derive(Debug, Clone, PartialEq, Eq)]
pub struct ToolInput {
    /// The tool's name.
    pub name: String,
    /// The arguments as JSON text.
    pub arguments: String,
}

/// What a plugin's tool returned.
#[derive(Debug, Clone, PartialEq, Eq)]
pub struct ToolOutput {
    /// The content.
    pub content: String,
    /// Whether the content describes an error.
    pub is_error: bool,
}

/// A tool a plugin offers.
#[derive(Debug, Clone, PartialEq, Eq)]
pub struct ToolDefinition {
    /// The tool's name.
    pub name: String,
    /// What the tool does.
    pub description: String,
    /// The input's JSON schema, as text.
    pub input_schema: String,
}

/// The response to an HTTP request a plugin made through the host.
#[derive(Debug, Clone, PartialEq, Eq)]
pub struct HttpResponse {
    /// Status code.
    pub status: u16,
    /// Headers.
    pub headers: Vec<KeyValuePair>,
    /// Body text.
    pub body: String,
}

} // verus!
