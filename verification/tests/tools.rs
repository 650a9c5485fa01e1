use agentic::protocol::{ToolExecutionKind, ToolRisk};
use agentic::tools::{
    approval_required, coding_agent_preamble, descriptors, local_tool_names, registry,
    sanitized_error, sanitized_output, sanitized_tool_value, spec, stream_summary, DELETE_DIRECTORY,
    DELETE_FILE, EDIT_FILE, GET_CURRENT_WEATHER, LIST_FILES, READ_FILE, SEARCH_FILES, WRITE_FILE,
};
use serde_json::Value;

fn object(entries: &[(&str, Value)]) -> Value {
    let mut m = serde_json::Map::new();
    for (k, v) in entries {
        m.insert((*k).to_owned(), v.clone());
    }
    Value::Object(m)
}

fn text(s: &str) -> Value {
    Value::String(s.to_owned())
}

#[test]
fn registry_has_unique_names_and_valid_schemas() {
    let mut names = std::collections::HashSet::new();
    for tool in registry() {
        assert!(names.insert(tool.name), "duplicate tool name: {}", tool.name);
        let schema = tool.parameters.to_value();
        assert_eq!(schema.get("type").and_then(Value::as_str), Some("object"));
    }
    for name in [
        LIST_FILES,
        READ_FILE,
        SEARCH_FILES,
        WRITE_FILE,
        EDIT_FILE,
        DELETE_FILE,
        DELETE_DIRECTORY,
    ] {
        assert!(local_tool_names().iter().any(|tool_name| *tool_name == name));
    }
}

#[test]
fn weather_is_the_only_server_tool() {
    let tools = registry();
    assert_eq!(tools.len(), 8);
    assert_eq!(tools[0].name, GET_CURRENT_WEATHER);
    assert!(!local_tool_names().contains(&GET_CURRENT_WEATHER));
    assert_eq!(local_tool_names().len(), 7);
    let ds = descriptors();
    assert_eq!(ds.len(), 8);
    assert_eq!(ds[0].execution, ToolExecutionKind::ServerNative);
    assert!(!ds[0].approval_required);
    assert_eq!(ds[0].risk, ToolRisk::Network);
}

#[test]
fn approval_follows_mutating_tools() {
    assert!(approval_required(WRITE_FILE));
    assert!(approval_required(EDIT_FILE));
    assert!(approval_required(DELETE_FILE));
    assert!(approval_required(DELETE_DIRECTORY));
    assert!(!approval_required(READ_FILE));
    assert!(!approval_required(LIST_FILES));
    assert!(!approval_required(SEARCH_FILES));
    assert!(!approval_required(GET_CURRENT_WEATHER));
    assert!(!approval_required("no_such_tool"));
    assert!(spec("no_such_tool").is_none());
    assert_eq!(spec(READ_FILE).map(|t| t.name), Some(READ_FILE));
}

#[test]
fn stream_summaries_describe_the_call() {
    let input = object(&[("path", text("src/main.rs")), ("query", text("fn main"))]);
    assert_eq!(stream_summary(READ_FILE, &input), "Read src/main.rs");
    assert_eq!(stream_summary(SEARCH_FILES, &input), "Search src/main.rs for 'fn main'");
    assert_eq!(stream_summary(LIST_FILES, &object(&[])), "List files under .");
    assert_eq!(stream_summary(DELETE_DIRECTORY, &input), "Delete directory src/main.rs");
    assert_eq!(stream_summary("custom", &input), "Run custom");
}

#[test]
fn sanitized_values_keep_only_summaries() {
    let output = object(&[
        ("summary", text("Read 2 lines")),
        ("path", text("a.txt")),
        ("content", text("secret")),
    ]);
    assert_eq!(
        sanitized_output(READ_FILE, &output),
        object(&[("summary", text("Read 2 lines")), ("path", text("a.txt")), ("tool", text(READ_FILE))])
    );
    assert_eq!(
        sanitized_output(READ_FILE, &object(&[])),
        object(&[("summary", text("Tool completed")), ("tool", text(READ_FILE))])
    );
    assert_eq!(
        sanitized_error(WRITE_FILE, "denied"),
        object(&[("summary", text("denied")), ("tool", text(WRITE_FILE))])
    );
    assert_eq!(
        sanitized_tool_value(&output),
        object(&[("summary", text("Read 2 lines")), ("path", text("a.txt"))])
    );
    assert_eq!(
        sanitized_tool_value(&object(&[("content", text("x"))])),
        object(&[("summary", text("Tool event"))])
    );
}

#[test]
fn preamble_mentions_approval() {
    assert!(coding_agent_preamble().contains("require user approval"));
}

#[test]
fn descriptors_agree_with_approval_and_local_names() {
    let names = local_tool_names();
    for d in descriptors() {
        assert_eq!(d.approval_required, approval_required(&d.name));
        assert_eq!(
            d.execution == ToolExecutionKind::LocalProxy,
            names.iter().any(|n| *n == d.name)
        );
        assert_eq!(spec(&d.name).map(|t| t.name), Some(d.name.as_str()));
    }
}

#[test]
fn schemas_are_objects() {
    for t in registry() {
        let v = t.parameters.to_value();
        assert_eq!(v.get("type").and_then(Value::as_str), Some("object"));
        assert!(v.get("properties").map(Value::is_object).unwrap_or(false));
    }
}
