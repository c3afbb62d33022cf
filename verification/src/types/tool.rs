//! Tool schema and registry entry types, in the OpenAI function calling format.
use vstd::prelude::*;

verus! {

/// OpenAI function calling schema for a tool: the format sent to the model in
/// the `tools` array of API requests.
#[derive(Debug, Clone)]
pub struct ToolSchema {
    /// Always "function"; written as `type` on the wire.
    pub schema_type: String,
    /// Function details.
    pub function: ToolSchemaFunction,
}

/// Function details within a [`ToolSchema`].
#[derive(Debug, Clone)]
pub struct ToolSchemaFunction {
    pub name: String,
    pub description: String,
    /// JSON Schema for the function parameters.
    pub parameters: serde_json::Value,
}

/// Where a tool comes from.
#[derive(Debug, Clone, PartialEq, Eq)]
pub enum ToolSource {
    /// Built-in tool (e.g., terminal, file_tools).
    Builtin,
    /// Dynamically discovered via an MCP server.
    Mcp { server: String },
    /// Loaded from a WASM component.
    Wasm,
}

/// A registered tool entry in the registry.
#[derive(Debug, Clone)]
pub struct ToolEntry {
    /// Tool name (unique identifier).
    pub name: String,
    /// Which toolset this tool belongs to (e.g., "web", "terminal").
    pub toolset: String,
    /// OpenAI function schema.
    pub schema: ToolSchema,
    /// Where this tool comes from.
    pub source: ToolSource,
    /// Human-readable description.
    pub description: String,
    /// Emoji indicator for UI display.
    pub emoji: String,
}

} // verus!
