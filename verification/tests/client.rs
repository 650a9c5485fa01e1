use agentic::app::{
    App, ChatStream, GenerationState, Route, ToolEditorResult, ToolEditorResultKind,
    ToolEditorSnapshot,
};
use agentic::cli_loop::{delete_tool_event, EditorEvent, InFlight};
use agentic::client_flow::{
    approval_summary, author_request, editor_run_request, register_target, save_draft_params,
    short_id, tier2_outcome, tier2_request, ApprovalFollowUp,
};
use agentic::config::{server_addr_text, DEFAULT_SERVER_ADDR, SERVER_ADDR_ENV};
use agentic::protocol::{
    LocalToolScript, SessionSummary, ToolRisk, ToolScriptLanguage, ToolVersionRow,
    ToolVersionStatus,
};
use agentic::sandbox::{SandboxRunKind, SandboxRunResult, SandboxStatus};
use serde_json::Value;

fn snapshot() -> ToolEditorSnapshot {
    ToolEditorSnapshot {
        name: "adder".to_owned(),
        language: ToolScriptLanguage::Python,
        script: "print(1)".to_owned(),
        args: "{\"x\":2}".to_owned(),
        last_draft_version_id: None,
        description: "adds".to_owned(),
        input_hint: String::new(),
        output_hint: "a number".to_owned(),
    }
}

fn version_row(id: &str, tool_id: &str, version: i32) -> ToolVersionRow {
    ToolVersionRow {
        id: id.to_owned(),
        tool_id: tool_id.to_owned(),
        version,
        language: ToolScriptLanguage::Shell,
        script: "echo".to_owned(),
        args_schema: Value::Null,
        output_schema: None,
        tests: Vec::new(),
        status: ToolVersionStatus::Draft,
        risk: ToolRisk::ReadOnly,
        timeout_ms: 1000,
        description: String::new(),
        created_at_secs: 0,
    }
}

fn run(exit_code: Option<i32>, timed_out: bool, stdout: &str, stderr: &str) -> SandboxRunResult {
    SandboxRunResult {
        job_id: "job".to_owned(),
        status: SandboxStatus::Succeeded,
        cwd: "/w".to_owned(),
        stdout: stdout.to_owned(),
        stderr: stderr.to_owned(),
        exit_code,
        duration_ms: 42,
        timed_out,
        stdout_truncated: false,
        stderr_truncated: false,
    }
}

#[test]
fn approval_questions_name_the_target() {
    assert_eq!(approval_summary("write_file", Some("a.txt".to_owned()), None), "Write a.txt?");
    assert_eq!(
        approval_summary("write_file", Some("a.txt".to_owned()), Some(("src/a.txt".to_owned(), true))),
        "Overwrite src/a.txt?"
    );
    assert_eq!(approval_summary("write_file", None, None), "Approve write_file?");
    assert_eq!(approval_summary("edit_file", Some("b".to_owned()), None), "Edit b?");
    assert_eq!(approval_summary("delete_file", Some("c".to_owned()), None), "Delete c permanently?");
    assert_eq!(
        approval_summary("delete_directory", Some("d".to_owned()), None),
        "Delete empty directory d permanently?"
    );
    assert_eq!(approval_summary("other", None, None), "Approve other?");
    assert_eq!(short_id("0123456789abcdef"), "01234567");
    assert_eq!(short_id("abc"), "abc");
}

#[test]
fn refused_approvals_are_reported() {
    let mut app = App::default();
    app.stream_id = Some("s".to_owned());
    app.stream_secret = Some("k".to_owned());
    let approval = agentic::app::PendingToolApproval {
        invocation_id: "i".to_owned(),
        name: "write_file".to_owned(),
        input: Value::Null,
        script: None,
    };
    match app.decide_approval(approval, false) {
        Some(ApprovalFollowUp::Report(rep)) => {
            assert_eq!(rep.error.as_deref(), Some("User rejected the file operation"));
            assert!(rep.output.is_none());
            assert!(rep.render_ui);
        }
        _ => panic!("expected a report"),
    }
}

#[test]
fn authored_scripts_run_in_the_sandbox() {
    let script = LocalToolScript {
        language: ToolScriptLanguage::Shell,
        script: "echo hi".to_owned(),
        timeout_ms: 5,
    };
    let req = tier2_request(&Value::Null, script);
    assert_eq!(req.kind, SandboxRunKind::ShellScript);
    assert_eq!(req.args_json, "null");
    assert_eq!(req.timeout_ms, 100);
    let ok = tier2_outcome(run(Some(0), false, "{\"sum\": 5}", "")).expect("success");
    assert_eq!(ok.get("output").and_then(|o| o.get("sum")).and_then(Value::as_i64), Some(5));
    assert_eq!(ok.get("summary").and_then(Value::as_str), Some("Script exit 0 in 42ms"));
    assert_eq!(ok.get("exit_code").and_then(Value::as_i64), Some(0));
    let plain = tier2_outcome(run(Some(0), false, "hi\n", "")).expect("success");
    assert_eq!(plain.get("output").and_then(Value::as_str), Some("hi\n"));
    assert_eq!(
        tier2_outcome(run(Some(3), false, "out", "")).err(),
        Some("Script exited with code 3: out".to_owned())
    );
    assert_eq!(
        tier2_outcome(run(None, false, "out", "err")).err(),
        Some("Script exited with code -1: err".to_owned())
    );
    assert_eq!(
        tier2_outcome(run(None, true, "", "")).err(),
        Some("Script timed out after 42ms".to_owned())
    );
}

#[test]
fn editor_requests_are_checked() {
    let s = snapshot();
    let (args, script) = editor_run_request(&s).expect("runnable");
    assert_eq!(args.get("x").and_then(Value::as_i64), Some(2));
    assert_eq!(script.timeout_ms, 10_000);
    let mut blank = snapshot();
    blank.script = "  \n".to_owned();
    assert_eq!(editor_run_request(&blank).err(), Some("Script is empty.".to_owned()));
    let draft = save_draft_params(&s).expect("draft");
    assert_eq!(draft.description, "Tier-2 tool 'adder'");
    assert_eq!(draft.owner, "scratchpad");
    assert_eq!(draft.risk, ToolRisk::ReadOnly);
    let mut unnamed = snapshot();
    unnamed.name = String::new();
    assert_eq!(save_draft_params(&unnamed).err(), Some("Tool name is required.".to_owned()));
    assert_eq!(
        register_target(&s),
        Err("Save a draft first (Ctrl+S), then publish.".to_owned())
    );
    let mut saved = snapshot();
    saved.last_draft_version_id = Some("v1".to_owned());
    assert_eq!(register_target(&saved), Ok("v1".to_owned()));
    let q = author_request(&s).expect("described");
    assert!(q.input_hint.is_none());
    assert_eq!(q.output_hint.as_deref(), Some("a number"));
    let mut undescribed = snapshot();
    undescribed.description = String::new();
    assert_eq!(author_request(&undescribed).err(), Some("Describe the tool first.".to_owned()));
}

#[test]
fn due_work_follows_the_page() {
    let mut app = App::default();
    let idle = InFlight { sessions: false, tools: false, open_session: false };
    let w = app.due_work(&idle);
    assert!(!w.load_sessions && !w.load_tools && w.open_session.is_none() && w.chat.is_none());
    app.route = Route::Sessions;
    assert!(app.due_work(&idle).load_sessions);
    let busy = InFlight { sessions: true, tools: false, open_session: false };
    assert!(!app.due_work(&busy).load_sessions);
    app.apply_sessions_loaded(Ok(vec![SessionSummary {
        id: "a".to_owned(),
        title: "A".to_owned(),
        updated_at_secs: 0,
        message_count: 1,
    }]));
    assert!(app.sessions_loaded);
    assert!(!app.due_work(&idle).load_sessions);
    app.sessions_open_pending = Some("a".to_owned());
    assert_eq!(app.due_work(&idle).open_session.as_deref(), Some("a"));
    app.apply_session_opened(Err("gone".to_owned()));
    assert!(app.sessions_open_pending.is_none());
    app.route = Route::Tools;
    assert!(app.due_work(&idle).load_tools);
    app.apply_tools_loaded(Err("offline".to_owned()));
    assert!(app.tools_loaded);
    assert_eq!(app.tools_notice.as_deref(), Some("Server tool registry unavailable: offline"));
    assert_eq!(app.tools.len(), 7 + 1);
    app.route = Route::Chat;
    app.chat_stream = ChatStream::Pending("hello".to_owned());
    let w = app.due_work(&idle);
    assert_eq!(w.chat, Some((String::new(), "hello".to_owned())));
    assert!(matches!(app.chat_stream, ChatStream::Streaming { .. }));
}

#[test]
fn editor_events_update_the_editor() {
    let mut app = App::default();
    let result = ToolEditorResult {
        kind: ToolEditorResultKind::Success,
        message: "ran".to_owned(),
        stdout: String::new(),
        stderr: String::new(),
        exit_code: Some(0),
        duration_ms: 3,
    };
    assert!(!app.apply_editor_event(EditorEvent::RunResult(result)));
    assert_eq!(app.tool_editor.last_result.as_ref().map(|r| r.message.as_str()), Some("ran"));
    assert!(!app.apply_editor_event(EditorEvent::DraftSaved { row: version_row("v-9", "t", 2) }));
    assert_eq!(app.tool_editor.last_draft_version_id.as_deref(), Some("v-9"));
    assert_eq!(
        app.tool_editor.last_result.as_ref().map(|r| r.message.as_str()),
        Some("Saved draft v2 (v-9)")
    );
    assert!(app.apply_editor_event(EditorEvent::Registered {
        row: version_row("v", "0123456789abcdef", 4),
    }));
    assert_eq!(
        app.tool_editor.last_result.as_ref().map(|r| r.message.as_str()),
        Some("Registered '01234567' v4 as active")
    );
    assert!(!app.apply_editor_event(EditorEvent::Error("bad".to_owned())));
    assert_eq!(
        app.tool_editor.last_result.as_ref().map(|r| r.kind),
        Some(ToolEditorResultKind::Failure)
    );
    assert!(app.apply_editor_event(delete_tool_event("echo".to_owned(), Ok(true))));
    assert_eq!(app.tools_notice.as_deref(), Some("Deleted tool 'echo'."));
    assert!(!app.tools_loaded);
    assert!(!app.apply_editor_event(delete_tool_event("echo".to_owned(), Ok(false))));
    assert_eq!(app.tools_notice.as_deref(), Some("Delete 'echo' failed: Tool not found on server"));
    assert!(!app.apply_editor_event(EditorEvent::GenerationStarted));
    assert!(matches!(app.tool_editor.generation, GenerationState::Generating));
    assert_eq!(app.tool_editor.generation_log, vec!["Author agent started. Working...".to_owned()]);
    assert!(!app.apply_editor_event(EditorEvent::GenerationProgress { line: "step".to_owned() }));
    assert_eq!(app.tool_editor.generation_log.len(), 2);
    assert!(!app.apply_editor_event(EditorEvent::GenerationDone {
        version_id: "abcdefghijk".to_owned(),
        name: "adder".to_owned(),
        language: ToolScriptLanguage::Python,
        script: "print(3)".to_owned(),
        args_schema: Value::Null,
    }));
    assert!(matches!(app.tool_editor.generation, GenerationState::Generated));
    assert_eq!(app.tool_editor.name.as_str(), "adder");
    assert_eq!(app.tool_editor.args.as_str(), "{}");
    assert_eq!(
        app.tool_editor.generation_log.last().map(|s| s.as_str()),
        Some("Generated draft v_id=abcdefgh for tool 'adder'. Press Ctrl+P to publish.")
    );
    assert!(!app.apply_editor_event(EditorEvent::GenerationFailed("no".to_owned())));
    assert!(matches!(&app.tool_editor.generation, GenerationState::Failed(r) if r == "no"));
    assert_eq!(
        app.tool_editor.generation_log.last().map(|s| s.as_str()),
        Some("Generation failed: no")
    );
}

#[test]
fn generation_log_keeps_the_last_eighty_lines() {
    let mut app = App::default();
    for i in 0..100 {
        app.push_generation_log(format!("line {i}"));
    }
    app.push_generation_log(String::new());
    assert_eq!(app.tool_editor.generation_log.len(), 80);
    assert_eq!(app.tool_editor.generation_log[0], "line 20");
    assert_eq!(app.tool_editor.generation_log[79], "line 99");
}

#[test]
fn server_address_comes_from_the_environment() {
    assert_eq!(SERVER_ADDR_ENV, "APS_SERVER_ADDR");
    assert_eq!(server_addr_text(None), DEFAULT_SERVER_ADDR);
    assert_eq!(server_addr_text(Some("0.0.0.0:8080".to_owned())), "0.0.0.0:8080");
}

#[test]
fn authored_script_success_lists_its_members() {
    let mut r = run(Some(0), false, "[1]", "warn");
    r.stdout_truncated = true;
    let ok = tier2_outcome(r).expect("success");
    assert_eq!(ok.get("job_id").and_then(Value::as_str), Some("job"));
    assert_eq!(ok.get("output"), Some(&Value::Array(vec![Value::from(1i64)])));
    assert_eq!(ok.get("stdout").and_then(Value::as_str), Some("[1]"));
    assert_eq!(ok.get("stderr").and_then(Value::as_str), Some("warn"));
    assert_eq!(ok.get("duration_ms").and_then(Value::as_u64), Some(42));
    assert_eq!(ok.get("stdout_truncated"), Some(&Value::Bool(true)));
    assert_eq!(ok.get("stderr_truncated"), Some(&Value::Bool(false)));
}
