use agentic::json::{get_str, json_str, summary_object};
use agentic::protocol::{
    AuthorRequest, ChatStreamEvent, RpcRequest, ToolExecutionKind, ToolOutputPolicy, ToolRisk,
    ToolState, RPC_HEALTH_CHECK, RPC_SESSIONS_GET, RPC_TOOLS_RESULT,
};
use agentic::server::{
    active_tool_descriptor, assistant_content_to_chat_event, build_author_prompt, debug_events,
    health_response, id_param, local_call_plan, plan_rpc, sanitize_event_for_persistence,
    sanitize_local_tool_result_for_ui, tier2_summary, tool_result_event, tool_result_output,
    tool_result_text_value, AssistantChunk, RpcCall, SERVICE_NAME, plan_chat, check_author_request,
    is_assistant_role, stream_opening, author_outcome, AuthorSubmission, ChatStart, TurnRecorder, served_tools, reply, ActiveTool,
};
use agentic::protocol::{ToolScriptLanguage, UiPart, UiRole};
use serde_json::Value;

fn object(entries: &[(&str, Value)]) -> Value {
    let mut m = serde_json::Map::new();
    for (k, v) in entries {
        m.insert((*k).to_owned(), v.clone());
    }
    Value::Object(m)
}

fn text(s: &str) -> Value {
    Value::String(s.to_owned())
}

fn failure_code(r: Result<RpcCall, agentic::protocol::RpcResponse<Value>>) -> i64 {
    match r {
        Ok(_) => panic!("expected a failure"),
        Err(f) => f.error.expect("error").code,
    }
}

#[test]
fn rpc_requests_are_routed() {
    assert!(matches!(plan_rpc(&RpcRequest::method(1, RPC_HEALTH_CHECK.to_owned())), Ok(RpcCall::Health)));
    let mut bad = RpcRequest::method(2, RPC_HEALTH_CHECK.to_owned());
    bad.jsonrpc = "1.0".to_owned();
    assert_eq!(failure_code(plan_rpc(&bad)), -32600);
    assert_eq!(failure_code(plan_rpc(&RpcRequest::method(3, "nope".to_owned()))), -32601);
    assert_eq!(failure_code(plan_rpc(&RpcRequest::method(4, RPC_TOOLS_RESULT.to_owned()))), -32600);
    assert_eq!(failure_code(plan_rpc(&RpcRequest::method(5, RPC_SESSIONS_GET.to_owned()))), -32600);
    let get = RpcRequest::method(6, RPC_SESSIONS_GET.to_owned()).with_params(object(&[("id", text("abc"))]));
    match plan_rpc(&get) {
        Ok(RpcCall::SessionsGet { id }) => assert_eq!(id, "abc"),
        _ => panic!("expected sessions.get"),
    }
    let result = RpcRequest::method(7, RPC_TOOLS_RESULT.to_owned()).with_params(Value::Null);
    assert!(matches!(plan_rpc(&result), Ok(RpcCall::ToolResult { params: Value::Null })));
    let h = health_response();
    assert_eq!(h.service, SERVICE_NAME);
    assert_eq!(h.status, "ok");
}

#[test]
fn uuid_parameters() {
    assert_eq!(
        id_param(1, "00000000-0000-0000-0000-00000000002a").ok(),
        Some(42)
    );
    match id_param(9, "not-a-uuid") {
        Err(f) => {
            assert_eq!(f.id, 9);
            assert_eq!(f.error.map(|e| e.code), Some(-32600));
        }
        Ok(_) => panic!("expected a failure"),
    }
}

#[test]
fn authored_tools_are_offered_as_local_tools() {
    let d = active_tool_descriptor("adder".to_owned(), "adds".to_owned(), "read_only", Value::Null);
    assert_eq!(d.execution, ToolExecutionKind::LocalProxy);
    assert!(!d.approval_required);
    assert_eq!(d.output_policy, ToolOutputPolicy::SummaryOnly);
    let d = active_tool_descriptor("rm".to_owned(), "removes".to_owned(), "deletes_files", Value::Null);
    assert!(d.approval_required);
    assert_eq!(d.risk, ToolRisk::DeletesFiles);
    assert_eq!(tier2_summary("adder"), "Run adder");
}

#[test]
fn local_calls_are_planned_from_the_registry() {
    let input = object(&[("path", text("a.txt"))]);
    assert_eq!(local_call_plan("write_file", &input), Ok((true, "Write a.txt".to_owned())));
    assert_eq!(local_call_plan("read_file", &input), Ok((false, "Read a.txt".to_owned())));
    assert_eq!(
        local_call_plan("get_current_weather", &input),
        Err("'get_current_weather' is not a local proxy tool".to_owned())
    );
    assert_eq!(local_call_plan("nope", &input), Err("unknown local tool 'nope'".to_owned()));
}

#[test]
fn model_output_becomes_stream_events() {
    assert!(assistant_content_to_chat_event(AssistantChunk::Text(String::new())).is_none());
    match assistant_content_to_chat_event(AssistantChunk::Text("hi".to_owned())) {
        Some(ChatStreamEvent::TextDelta { text }) => assert_eq!(text, "hi"),
        _ => panic!("expected text"),
    }
    match assistant_content_to_chat_event(AssistantChunk::ToolCall {
        id: "c".to_owned(),
        name: "read_file".to_owned(),
        arguments: Value::Null,
    }) {
        Some(ChatStreamEvent::ToolUpdate { state, input, .. }) => {
            assert_eq!(state, ToolState::Calling);
            assert_eq!(input, Some(Value::Null));
        }
        _ => panic!("expected a tool update"),
    }
    assert!(assistant_content_to_chat_event(AssistantChunk::Final).is_none());
}

#[test]
fn tool_results_are_shown_without_file_contents() {
    let file = object(&[("summary", text("Read 1 lines")), ("path", text("a")), ("content", text("x"))]);
    assert_eq!(
        sanitize_local_tool_result_for_ui(file.clone()),
        object(&[
            ("summary", text("Read 1 lines")),
            ("path", text("a")),
            ("tool", text("local_file_tool")),
        ])
    );
    let other = object(&[("value", Value::Bool(true))]);
    assert_eq!(sanitize_local_tool_result_for_ui(other.clone()), other);
    match tool_result_event("t".to_owned(), text("failed badly")) {
        ChatStreamEvent::ToolUpdate { state, error, output, .. } => {
            assert_eq!(state, ToolState::Failed);
            assert_eq!(error.as_deref(), Some("failed badly"));
            assert!(output.is_none());
        }
        _ => panic!("expected a tool update"),
    }
    match tool_result_event("t".to_owned(), other.clone()) {
        ChatStreamEvent::ToolUpdate { state, output, .. } => {
            assert_eq!(state, ToolState::Complete);
            assert_eq!(output, Some(other.clone()));
        }
        _ => panic!("expected a tool update"),
    }
    assert_eq!(tool_result_output(vec![Value::Null]), Value::Null);
    assert_eq!(
        tool_result_output(vec![Value::Null, Value::Bool(false)]),
        Value::Array(vec![Value::Null, Value::Bool(false)])
    );
    assert_eq!(tool_result_text_value("{\"a\":1}".to_owned()), object(&[("a", Value::from(1))]));
    assert_eq!(tool_result_text_value("plain".to_owned()), text("plain"));
}

#[test]
fn stored_events_drop_file_contents() {
    let event = ChatStreamEvent::ToolUpdate {
        id: "t".to_owned(),
        name: "read_file".to_owned(),
        state: ToolState::Complete,
        input: Some(object(&[("path", text("a"))])),
        output: Some(object(&[("summary", text("s")), ("content", text("secret"))])),
        error: None,
    };
    match sanitize_event_for_persistence(&event) {
        ChatStreamEvent::ToolUpdate { output, input, .. } => {
            assert_eq!(output, Some(object(&[("summary", text("s"))])));
            assert_eq!(input, Some(object(&[("path", text("a"))])));
        }
        _ => panic!("expected a tool update"),
    }
}

#[test]
fn author_prompts_include_the_hints() {
    let req = AuthorRequest {
        description: "  add two numbers ".to_owned(),
        input_hint: Some("{x, y}".to_owned()),
        output_hint: Some("   ".to_owned()),
    };
    let p = build_author_prompt(&req);
    assert!(p.starts_with("User description:\nadd two numbers\n"));
    assert!(p.contains("\nExpected input shape:\n{x, y}\n"));
    assert!(!p.contains("Expected output shape"));
}

#[test]
fn the_sample_stream_covers_every_event() {
    let events = debug_events();
    assert_eq!(events.len(), 10);
    assert!(matches!(events[0], ChatStreamEvent::MessageStart { .. }));
    assert!(matches!(events[9], ChatStreamEvent::MessageDone));
    match &events[5] {
        ChatStreamEvent::ToolUpdate { state, error, .. } => {
            assert_eq!(*state, ToolState::Failed);
            assert_eq!(error.as_deref(), Some("DNS lookup failed"));
        }
        _ => panic!("expected the failing tool"),
    }
    match &events[4] {
        ChatStreamEvent::ToolUpdate { output, .. } => {
            let o = output.as_ref().expect("output");
            assert_eq!(o.get("loaded"), Some(&Value::Bool(true)));
        }
        _ => panic!("expected the completed tool"),
    }
}

#[test]
fn json_helpers() {
    let v = object(&[("name", text("x")), ("n", Value::from(3))]);
    assert_eq!(get_str(&v, "name"), Some("x".to_owned()));
    assert_eq!(get_str(&v, "n"), None);
    assert_eq!(get_str(&v, "missing"), None);
    assert_eq!(json_str("hi"), text("hi"));
    assert_eq!(summary_object("done".to_owned()), object(&[("summary", text("done"))]));
}

#[test]
fn chat_requests_are_checked() {
    assert_eq!(plan_chat("").err(), Some("message must not be empty".to_owned()));
    assert!(matches!(plan_chat("debug:tool-stream"), Ok(ChatStart::Debug)));
    match plan_chat(&"w".repeat(70)) {
        Ok(ChatStart::Agent { title }) => assert_eq!(title, "w".repeat(60)),
        _ => panic!("expected an agent turn"),
    }
    assert_eq!(check_author_request("  \n").err(), Some("description must not be empty".to_owned()));
    assert!(check_author_request("adds").is_ok());
    assert!(is_assistant_role("assistant"));
    assert!(!is_assistant_role("user"));
    let opening = stream_opening("s".to_owned(), "k".to_owned());
    assert!(matches!(&opening[0], ChatStreamEvent::StreamReady { stream_id, .. } if stream_id == "s"));
    assert!(matches!(opening[1], ChatStreamEvent::MessageStart { role: UiRole::Assistant }));
}

#[test]
fn author_streams_end_with_the_tool_or_a_failure() {
    let done = author_outcome(Some(AuthorSubmission {
        version_id: "v".to_owned(),
        language: ToolScriptLanguage::Python,
        script: "print(1)".to_owned(),
        args_schema: Value::Null,
        name: Some("adder".to_owned()),
        description: Some("adds".to_owned()),
    }));
    assert!(matches!(done, ChatStreamEvent::AuthorDone { ref name, .. } if name == "adder"));
    match author_outcome(None) {
        ChatStreamEvent::Error { message } => {
            assert_eq!(message, "Tool author did not converge. Refine the description and try again.")
        }
        _ => panic!("expected a failure"),
    }
}

#[test]
fn stored_turns_keep_summaries_only() {
    let mut rec = TurnRecorder::new();
    assert!(!rec.record(&ChatStreamEvent::TextDelta { text: "hi".to_owned() }));
    assert!(!rec.record(&ChatStreamEvent::ToolUpdate {
        id: "t".to_owned(),
        name: "read_file".to_owned(),
        state: ToolState::Complete,
        input: None,
        output: Some(object(&[("summary", text("s")), ("content", text("secret"))])),
        error: None,
    }));
    assert!(rec.record(&ChatStreamEvent::MessageDone));
    assert!(!rec.record(&ChatStreamEvent::TextDelta { text: "late".to_owned() }));
    assert_eq!(rec.message.parts.len(), 2);
    match &rec.message.parts[1] {
        UiPart::Tool { output, .. } => assert_eq!(output, &Some(object(&[("summary", text("s"))]))),
        _ => panic!("expected the tool"),
    }
}

#[test]
fn served_tools_follow_the_registry() {
    let tools = served_tools(vec![ActiveTool {
        name: "adder".to_owned(),
        description: "adds".to_owned(),
        risk: "network".to_owned(),
        args_schema: Value::Null,
    }]);
    assert_eq!(tools.len(), 9);
    assert_eq!(tools[0].name, "get_current_weather");
    assert_eq!(tools[8].name, "adder");
    assert!(tools[8].approval_required);
    assert_eq!(tools[8].risk, ToolRisk::Network);
    let ok = reply(4, Ok(Value::Bool(true)));
    assert_eq!(ok.result, Some(Value::Bool(true)));
    let bad = reply(5, Err("db down".to_owned()));
    let e = bad.error.expect("error");
    assert_eq!(e.code, -32603);
    assert_eq!(e.message, "db down");
}

fn failure_message(r: Result<RpcCall, agentic::protocol::RpcResponse<Value>>) -> (u64, String, String) {
    match r {
        Ok(_) => panic!("expected a failure"),
        Err(f) => (f.id, f.jsonrpc, f.error.expect("error").message),
    }
}

#[test]
fn invalid_requests_name_the_error() {
    let mut bad = RpcRequest::method(7, RPC_HEALTH_CHECK.to_owned());
    bad.jsonrpc = "1.0".to_owned();
    assert_eq!(
        failure_message(plan_rpc(&bad)),
        (7, "2.0".to_owned(), "invalid JSON-RPC request".to_owned())
    );
    let no_params = RpcRequest::method(8, RPC_TOOLS_RESULT.to_owned());
    assert_eq!(failure_message(plan_rpc(&no_params)).2, "invalid JSON-RPC request");
    let no_id = RpcRequest::method(9, RPC_SESSIONS_GET.to_owned()).with_params(object(&[("id", text(""))]));
    assert_eq!(failure_message(plan_rpc(&no_id)).2, "invalid JSON-RPC request");
    assert_eq!(
        failure_message(plan_rpc(&RpcRequest::method(10, "nope".to_owned()))).2,
        "method not found: nope"
    );
    match id_param(11, "not-a-uuid") {
        Ok(_) => panic!("expected a failure"),
        Err(f) => assert_eq!(f.error.expect("error").message, "invalid JSON-RPC request"),
    }
}
