//! Message roles and tool call types, in the OpenAI function calling format.
use vstd::prelude::*;

verus! {

/// Message role, matching the `role` column values.
#[derive(Debug, Clone, PartialEq, Eq, Structural)]
pub enum Role {
    System,
    User,
    Assistant,
    Tool,
}

/// A tool call issued by the assistant, in OpenAI function calling format.
///
/// Stored as JSON in the `tool_calls` column of the `messages` table.
#[derive(Debug, Clone, PartialEq, Eq)]
pub struct ToolCall {
    pub id: String,
    /// Written as `type` on the wire.
    pub call_type: String,
    pub function: ToolFunction,
}

/// Function details within a [`ToolCall`].
#[derive(Debug, Clone, PartialEq, Eq)]
pub struct ToolFunction {
    pub name: String,
    /// JSON-encoded arguments string (not parsed).
    pub arguments: String,
}

} // verus!
