//! Core data model shared by the session, provider and storage layers.
use vstd::prelude::*;

verus! {

/// Who authored a message.
#[derive(Debug, Clone, Copy, PartialEq, Eq, Structural)]
pub enum MessageRole {
    System,
    User,
    Assistant,
    Tool,
}

/// A message exchanged with a model provider.
#[derive(Debug, Clone, PartialEq, Eq)]
pub struct Message {
    pub id: String,
    pub role: MessageRole,
    pub content: String,
    pub timestamp: u64,
}

/// Metadata of a persisted session.
#[derive(Debug, Clone, PartialEq, Eq)]
pub struct SessionMeta {
    pub session_id: String,
    pub created_at: u64,
    pub updated_at: u64,
    pub model: String,
}

/// A tool invocation requested by a model.
#[derive(Debug, Clone, PartialEq, Eq)]
pub struct ToolCall {
    pub id: String,
    pub name: String,
    pub args: Vec<String>,
}

/// The outcome of running a tool.
#[derive(Debug, Clone, PartialEq, Eq)]
pub struct ToolResult {
    pub call_id: String,
    pub output: String,
    pub error: Option<String>,
    pub truncated: bool,
    pub success: bool,
}

/// Events streamed by a model provider during a turn.
#[derive(Debug, Clone, PartialEq, Eq)]
pub enum ProviderEvent {
    TextDelta(String),
    ToolCallRequested(ToolCall),
    Completed,
    Cancelled,
    Error(String),
}

} // verus!
