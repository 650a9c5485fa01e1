use agentic::protocol::{
    append_reasoning_to, append_text_to, upsert_tool_in, AgentMode, ChatStreamEvent,
    HealthResponse, RpcError, RpcRequest, RpcResponse, ToolRisk, ToolScriptLanguage, ToolState,
    ToolVersionStatus, UiMessage, UiPart, UiRole,
};
use agentic::session::{hex16_string, Session};
use agentic::store::{
    check_version_deletable, history_message, language_from_str, language_to_str,
    next_version_number, risk_from_str, risk_to_str, session_summary, status_from_str,
    text_content, to_tool_row, to_version_row, ui_message, ToolModel, VersionModel, promote_statuses,
};
use serde_json::Value;

fn text_of(part: &UiPart) -> Option<&str> {
    match part {
        UiPart::Text { content } => Some(content.as_str()),
        _ => None,
    }
}

#[test]
fn text_deltas_concatenate_into_one_part() {
    let mut parts: Vec<UiPart> = Vec::new();
    append_text_to(&mut parts, "Hel");
    append_text_to(&mut parts, "lo");
    assert_eq!(parts.len(), 1);
    assert_eq!(text_of(&parts[0]), Some("Hello"));
    append_reasoning_to(&mut parts, "think");
    append_text_to(&mut parts, "!");
    assert_eq!(parts.len(), 3);
    assert_eq!(text_of(&parts[2]), Some("!"));
}

#[test]
fn tool_updates_keep_one_part_per_id() {
    let mut parts: Vec<UiPart> = Vec::new();
    let input = Value::String("in".to_owned());
    upsert_tool_in(&mut parts, "t1".to_owned(), "read_file".to_owned(), ToolState::Streaming,
        Some(input.clone()), None, None, true);
    upsert_tool_in(&mut parts, "t1".to_owned(), String::new(), ToolState::Complete,
        None, Some(Value::Bool(true)), None, true);
    assert_eq!(parts.len(), 1);
    match &parts[0] {
        UiPart::Tool { id, name, state, input: i, output, error } => {
            assert_eq!(id, "t1");
            assert_eq!(name, "read_file");
            assert_eq!(*state, ToolState::Complete);
            assert_eq!(i.as_ref(), Some(&input));
            assert_eq!(output.as_ref(), Some(&Value::Bool(true)));
            assert!(error.is_none());
        }
        _ => panic!("expected a tool part"),
    }
    upsert_tool_in(&mut parts, "t2".to_owned(), "x".to_owned(), ToolState::Failed,
        None, None, Some("boom".to_owned()), true);
    assert_eq!(parts.len(), 2);
}

#[test]
fn stream_events_fill_an_assistant_message() {
    let mut m = UiMessage::assistant();
    m.apply_stream_event(&ChatStreamEvent::TextDelta { text: "a".to_owned() });
    m.apply_stream_event(&ChatStreamEvent::TextDelta { text: "b".to_owned() });
    m.apply_stream_event(&ChatStreamEvent::Error { message: "bad".to_owned() });
    m.apply_stream_event(&ChatStreamEvent::MessageDone);
    assert_eq!(m.role, UiRole::Assistant);
    assert_eq!(m.parts.len(), 2);
    assert_eq!(text_of(&m.parts[0]), Some("ab"));
    match &m.parts[1] {
        UiPart::Error { message } => assert_eq!(message, "bad"),
        _ => panic!("expected an error part"),
    }
    let u = UiMessage::user_text("hi".to_owned());
    assert_eq!(u.role, UiRole::User);
    assert_eq!(text_of(&u.parts[0]), Some("hi"));
}

#[test]
fn agent_modes_alternate() {
    assert_eq!(AgentMode::Build.next(), AgentMode::Plan);
    assert_eq!(AgentMode::Plan.next(), AgentMode::Build);
    assert_eq!(AgentMode::Build.label(), "build");
    assert_eq!(AgentMode::Plan.label(), "plan");
    assert_eq!(AgentMode::default(), AgentMode::Build);
}

#[test]
fn rpc_envelopes() {
    let req = RpcRequest::method(7, "sessions.list".to_owned());
    assert_eq!(req.jsonrpc, "2.0");
    assert!(req.params.is_none());
    let req = req.with_params(Value::Null);
    assert_eq!(req.params, Some(Value::Null));
    let e = RpcError::method_not_found("x.y".to_owned());
    assert_eq!(e.code, -32601);
    assert_eq!(e.message, "method not found: x.y");
    assert_eq!(RpcError::invalid_request().code, -32600);
    assert_eq!(RpcError::internal_error("oops".to_owned()).message, "oops");
    let ok: RpcResponse<Value> = RpcResponse::success(3, Value::Bool(true));
    assert_eq!(ok.id, 3);
    assert!(ok.error.is_none());
    let bad: RpcResponse<Value> = RpcResponse::failure(4, RpcError::invalid_request());
    assert!(bad.result.is_none());
    let h = HealthResponse::ok("agentic-server".to_owned());
    assert_eq!(h.status, "ok");
}

#[test]
fn stored_codes_round_trip() {
    for risk in [
        ToolRisk::ReadOnly,
        ToolRisk::WritesFiles,
        ToolRisk::DeletesFiles,
        ToolRisk::DeletesDirectories,
        ToolRisk::Network,
        ToolRisk::ExternalProcess,
    ] {
        assert_eq!(risk_from_str(risk_to_str(&risk)), risk);
    }
    for lang in [ToolScriptLanguage::Python, ToolScriptLanguage::Shell] {
        assert_eq!(language_from_str(language_to_str(lang)), lang);
    }
    assert_eq!(risk_from_str("unknown"), ToolRisk::ExternalProcess);
    assert_eq!(language_from_str("ruby"), ToolScriptLanguage::Python);
    assert_eq!(status_from_str("active"), ToolVersionStatus::Active);
    assert_eq!(status_from_str("deprecated"), ToolVersionStatus::Deprecated);
    assert_eq!(status_from_str("whatever"), ToolVersionStatus::Draft);
}

#[test]
fn stored_rows_become_protocol_rows() {
    let v = VersionModel {
        id: 0x0123456789abcdef0123456789abcdef,
        tool_id: 1,
        version: 3,
        language: "shell".to_owned(),
        script: "echo hi".to_owned(),
        args_schema: Value::Null,
        output_schema: None,
        tests: Value::Null,
        status: "active".to_owned(),
        risk: "network".to_owned(),
        timeout_ms: 5000,
        description: "d".to_owned(),
        created_at_secs: 10,
    };
    let row = to_version_row(&v, Vec::new());
    assert_eq!(row.id, "01234567-89ab-cdef-0123-456789abcdef");
    assert_eq!(row.tool_id, "00000000-0000-0000-0000-000000000001");
    assert_eq!(row.language, ToolScriptLanguage::Shell);
    assert_eq!(row.risk, ToolRisk::Network);
    assert_eq!(row.status, ToolVersionStatus::Active);
    assert_eq!(row.created_at_secs, 10);
    let t = ToolModel {
        id: 2,
        name: "echo".to_owned(),
        current_version_id: Some(v.id),
        owner: None,
        updated_at_secs: 20,
    };
    let tr = to_tool_row(&t, vec![row]);
    assert_eq!(tr.id, "00000000-0000-0000-0000-000000000002");
    assert_eq!(tr.current_version_id.as_deref(), Some("01234567-89ab-cdef-0123-456789abcdef"));
    assert_eq!(tr.versions.len(), 1);
}

#[test]
fn versions_and_deletion_rules() {
    assert_eq!(next_version_number(None), 1);
    assert_eq!(next_version_number(Some(4)), 5);
    assert_eq!(
        check_version_deletable(5, Some(5)),
        Err("cannot delete the currently active version".to_owned())
    );
    assert_eq!(check_version_deletable(5, Some(6)), Ok(()));
    assert_eq!(check_version_deletable(5, None), Ok(()));
}

#[test]
fn stored_messages_become_history() {
    let parts = vec![
        UiPart::Text { content: "a".to_owned() },
        UiPart::Reasoning { content: "r".to_owned() },
        UiPart::Text { content: String::new() },
        UiPart::Text { content: "b".to_owned() },
    ];
    assert_eq!(text_content(&parts), "a\nb");
    let m = history_message("user".to_owned(), Some(parts)).expect("has text");
    assert_eq!(m.role, "user");
    assert_eq!(m.content, "a\nb");
    assert!(history_message("assistant".to_owned(), Some(Vec::new())).is_none());
    assert!(history_message("assistant".to_owned(), None).is_none());
    assert_eq!(ui_message("user", Vec::new()).role, UiRole::User);
    assert_eq!(ui_message("tool", Vec::new()).role, UiRole::Assistant);
    let s = session_summary("id".to_owned(), "t".to_owned(), 5, 2);
    assert_eq!(s.updated_at_secs, 5);
    assert_eq!(s.message_count, 2);
}

#[test]
fn sessions_are_named_by_their_start_time() {
    assert_eq!(hex16_string(0), "0000000000000000");
    assert_eq!(hex16_string(0x1a2b), "0000000000001a2b");
    assert_eq!(hex16_string(u128::MAX), format!("{:016x}", u128::MAX));
    let long = "x".repeat(70);
    let s = Session::new(&long, 255);
    assert_eq!(s.id, "00000000000000ff");
    assert_eq!(s.title.chars().count(), 60);
    assert!(s.messages.is_empty());
    assert_eq!(Session::new("hi", 1).title, "hi");
}

#[test]
fn promotion_leaves_one_active_version() {
    let (dep, act, dra) = (ToolVersionStatus::Deprecated, ToolVersionStatus::Active, ToolVersionStatus::Draft);
    let before = vec![dep, act, dra, dra];
    assert_eq!(promote_statuses(&before, 3), vec![dep, dep, dra, act]);
    assert_eq!(promote_statuses(&before, 1), vec![dep, act, dra, dra]);
    let after = promote_statuses(&vec![dra], 0);
    assert_eq!(after, vec![act]);
}

#[test]
fn tool_ids_stay_distinct_across_updates() {
    let mut m = UiMessage::assistant();
    let update = |id: &str, state: ToolState| ChatStreamEvent::ToolUpdate {
        id: id.to_owned(),
        name: "read_file".to_owned(),
        state,
        input: None,
        output: None,
        error: None,
    };
    m.apply_stream_event(&update("t1", ToolState::Calling));
    m.apply_stream_event(&update("t2", ToolState::Calling));
    m.apply_stream_event(&update("t1", ToolState::Complete));
    m.apply_stream_event(&ChatStreamEvent::TextDelta { text: "x".to_owned() });
    m.apply_stream_event(&update("t2", ToolState::Complete));
    let ids: Vec<&str> = m
        .parts
        .iter()
        .filter_map(|p| match p {
            UiPart::Tool { id, .. } => Some(id.as_str()),
            _ => None,
        })
        .collect();
    assert_eq!(ids, vec!["t1", "t2"]);
    assert_eq!(m.parts.len(), 3);
}
