use hermes_rs::state::counters::tool_call_increment;
use hermes_rs::types::message::{Role, ToolCall, ToolFunction};
use hermes_rs::types::tool::{ToolEntry, ToolSchema, ToolSchemaFunction, ToolSource};

fn call(id: &str) -> ToolCall {
    ToolCall {
        id: id.into(),
        call_type: "function".into(),
        function: ToolFunction {
            name: "terminal".into(),
            arguments: r#"{"cmd":"ls"}"#.into(),
        },
    }
}

#[test]
fn tool_call_increment_counts_calls() {
    assert_eq!(tool_call_increment(&None), 0);
    assert_eq!(tool_call_increment(&Some(vec![])), 0);
    assert_eq!(tool_call_increment(&Some(vec![call("call_1")])), 1);
    assert_eq!(
        tool_call_increment(&Some(vec![call("a"), call("b"), call("c")])),
        3
    );
}

#[test]
fn roles_compare_by_variant() {
    assert_eq!(Role::User, Role::User);
    assert_ne!(Role::User, Role::Assistant);
    assert_eq!(Role::Tool.clone(), Role::Tool);
}

#[test]
fn tool_call_clone_is_equal() {
    let tc = call("call_abc123");
    assert_eq!(tc.clone(), tc);
    assert_eq!(tc.function.name, "terminal");
}

#[test]
fn tool_entry_holds_its_schema() {
    let entry = ToolEntry {
        name: "web_search".into(),
        toolset: "web".into(),
        schema: ToolSchema {
            schema_type: "function".into(),
            function: ToolSchemaFunction {
                name: "web_search".into(),
                description: "Search the web".into(),
                parameters: serde_json::Value::Null,
            },
        },
        source: ToolSource::Mcp {
            server: "github".into(),
        },
        description: "Search the web".into(),
        emoji: "🔍".into(),
    };
    let copy = entry.clone();
    assert_eq!(copy.schema.function.name, "web_search");
    assert_eq!(copy.source, ToolSource::Mcp { server: "github".into() });
    assert_ne!(copy.source, ToolSource::Builtin);
}
