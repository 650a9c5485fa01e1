use agentic::app::{App, ChatStream, ToolAvailability};
use agentic::author_flow::{short_args, AuthorAction, AuthorFlow};
use agentic::chat_view::{
    chat_input_caret, chat_input_lines, content_lines, history_lines, history_title, labeled_lines, message_lines, part_lines,
    prompt_lines_text, tool_state_label, StyledLine, Tone,
};
use agentic::dashboard::{dashboard_items, tool_contract_matches};
use agentic::protocol::{
    ChatStreamEvent, LocalToolScript, ToolDescriptor, ToolExecutionKind, ToolOutputPolicy,
    ToolRisk, ToolRow, ToolScriptLanguage, ToolState, ToolVersionRow, ToolVersionStatus,
    UiMessage, UiPart,
};
use agentic::session::Session;
use agentic::tools::descriptors;
use serde_json::Value;

fn joined(line: &StyledLine) -> String {
    line.spans.iter().map(|s| s.text.as_str()).collect()
}

fn all(lines: &[StyledLine]) -> Vec<String> {
    lines.iter().map(joined).collect()
}

#[test]
fn text_parts_show_each_line() {
    let lines = content_lines("  ", "one\ntwo", Tone::Plain, false);
    assert_eq!(all(&lines), vec!["  one".to_owned(), "  two".to_owned()]);
    let live = content_lines("  ", "one", Tone::Plain, true);
    assert_eq!(all(&live), vec!["  one\u{258c}".to_owned()]);
    let empty = content_lines("  ", "", Tone::Cyan, false);
    assert_eq!(all(&empty), vec!["  \u{258c}".to_owned()]);
    let labeled = labeled_lines("error >", "a\nb", Tone::Red, false);
    assert_eq!(all(&labeled), vec!["  error > a".to_owned(), "          b".to_owned()]);
    assert_eq!(tool_state_label(ToolState::AwaitingApproval), "awaiting approval");
}

#[test]
fn tool_parts_show_state_and_approval() {
    let part = UiPart::Tool {
        id: "t".to_owned(),
        name: "write_file".to_owned(),
        state: ToolState::AwaitingApproval,
        input: None,
        output: None,
        error: Some("oops".to_owned()),
    };
    let lines = part_lines(&part, false);
    assert_eq!(
        all(&lines),
        vec![
            "  tool > write_file awaiting approval".to_owned(),
            "  tool error > oops".to_owned(),
            "  approval > Press Y to approve or N to reject".to_owned(),
        ]
    );
    let failed = UiPart::Tool {
        id: "t".to_owned(),
        name: "x".to_owned(),
        state: ToolState::Failed,
        input: None,
        output: None,
        error: None,
    };
    assert_eq!(part_lines(&failed, false)[0].spans[4].tone, Tone::Red);
}

#[test]
fn messages_and_history() {
    let m = UiMessage::user_text("hi".to_owned());
    assert_eq!(all(&message_lines(&m, false)), vec!["You".to_owned(), "  hi".to_owned(), String::new()]);
    let a = UiMessage::assistant();
    assert_eq!(
        all(&message_lines(&a, true)),
        vec!["Faaido".to_owned(), "  \u{258c}".to_owned(), String::new()]
    );
    let app = App::default();
    assert_eq!(
        all(&history_lines(&app)),
        vec!["Start a conversation from home or type a message here.".to_owned()]
    );
    assert_eq!(history_title(&app), " Chat ");
    let mut app = App::default();
    let mut s = Session::new(&"t".repeat(50), 1);
    s.messages.push(UiMessage::user_text("q".to_owned()));
    app.active_session = Some(s);
    app.chat_stream = ChatStream::Streaming {
        user_msg: "next".to_owned(),
        assistant: UiMessage::assistant(),
    };
    let h = all(&history_lines(&app));
    assert_eq!(h[0], "You");
    assert_eq!(h[1], "  q");
    assert_eq!(h[3], "You");
    assert_eq!(h[4], "  next");
    assert_eq!(h[6], "Faaido");
    assert_eq!(history_title(&app), format!(" {} ", "t".repeat(40)));
    assert_eq!(prompt_lines_text("a\nb"), "> a\n> b");
}

fn row_with_draft() -> ToolRow {
    ToolRow {
        id: "tool-1".to_owned(),
        name: "adder".to_owned(),
        current_version_id: None,
        owner: None,
        updated_at_secs: 0,
        versions: vec![ToolVersionRow {
            id: "v1".to_owned(),
            tool_id: "tool-1".to_owned(),
            version: 1,
            language: ToolScriptLanguage::Python,
            script: "print(1)".to_owned(),
            args_schema: Value::Null,
            output_schema: None,
            tests: Vec::new(),
            status: ToolVersionStatus::Draft,
            risk: ToolRisk::Network,
            timeout_ms: 1000,
            description: "adds".to_owned(),
            created_at_secs: 0,
        }],
    }
}

#[test]
fn dashboard_rows_combine_server_client_and_drafts() {
    let local = descriptors();
    let weather = local[0].duplicate();
    assert!(tool_contract_matches(&weather, &local[0]));
    let authored = ToolDescriptor {
        name: "adder".to_owned(),
        description: "adds".to_owned(),
        execution: ToolExecutionKind::LocalProxy,
        approval_required: true,
        risk: ToolRisk::Network,
        output_policy: ToolOutputPolicy::SummaryOnly,
        parameters: Value::Null,
    };
    let items = dashboard_items(&vec![weather, authored], &local, &vec![row_with_draft()]);
    assert_eq!(items.len(), 10);
    assert_eq!(items[0].descriptor.name, "adder");
    assert_eq!(items[0].availability, ToolAvailability::MissingLocally);
    assert_eq!(items[0].tool_id.as_deref(), Some("tool-1"));
    let names: Vec<&str> = items[..9].iter().map(|i| i.descriptor.name.as_str()).collect();
    let mut sorted = names.clone();
    sorted.sort();
    assert_eq!(names, sorted);
    let weather_row = items.iter().find(|i| i.descriptor.name == "get_current_weather").expect("weather");
    assert_eq!(weather_row.availability, ToolAvailability::Active);
    let read_row = items.iter().find(|i| i.descriptor.name == "read_file").expect("read_file");
    assert_eq!(read_row.availability, ToolAvailability::MissingRemotely);
    let draft = &items[9];
    assert_eq!(draft.availability, ToolAvailability::Draft);
    assert_eq!(draft.version_id.as_deref(), Some("v1"));
    assert_eq!(draft.draft_script.as_deref(), Some("print(1)"));
    assert!(draft.descriptor.approval_required);
}

#[test]
fn authoring_stream_steps() {
    let mut flow = AuthorFlow::new();
    assert!(matches!(
        flow.step(ChatStreamEvent::StreamReady { stream_id: "s".to_owned(), stream_secret: "k".to_owned() }),
        AuthorAction::Nothing
    ));
    assert_eq!(flow.stream_id, "s");
    match flow.step(ChatStreamEvent::TextDelta { text: "  thinking \n".to_owned() }) {
        AuthorAction::Progress(l) => assert_eq!(l, "agent: thinking"),
        _ => panic!("expected progress"),
    }
    assert!(matches!(flow.step(ChatStreamEvent::TextDelta { text: "  ".to_owned() }), AuthorAction::Nothing));
    match flow.step(ChatStreamEvent::LocalToolRequest {
        invocation_id: "i".to_owned(),
        name: "read_file".to_owned(),
        input: Value::Null,
        approval_required: false,
        summary: String::new(),
        script: None,
    }) {
        AuthorAction::Refuse(p) => {
            assert_eq!(p.stream_secret, "k");
            assert_eq!(
                p.error.as_deref(),
                Some("Tier-1 tool 'read_file' is not available during tool authoring")
            );
        }
        _ => panic!("expected a refusal"),
    }
    match flow.step(ChatStreamEvent::LocalToolRequest {
        invocation_id: "j".to_owned(),
        name: "sandbox_run".to_owned(),
        input: Value::Bool(true),
        approval_required: false,
        summary: String::new(),
        script: Some(LocalToolScript {
            language: ToolScriptLanguage::Shell,
            script: "echo".to_owned(),
            timeout_ms: 100,
        }),
    }) {
        AuthorAction::RunSandbox { invocation_id, progress, .. } => {
            assert_eq!(invocation_id, "j");
            assert_eq!(progress.as_deref(), Some("sandbox_run: true"));
        }
        _ => panic!("expected a sandbox run"),
    }
    assert!(matches!(
        flow.step(ChatStreamEvent::Error { message: "bad".to_owned() }),
        AuthorAction::Failed(m) if m == "bad"
    ));
    assert!(flow.finished);
}

#[test]
fn progress_arguments_are_cut() {
    assert_eq!(short_args(&Value::Bool(false)), Some("false".to_owned()));
    let long = Value::String("z".repeat(100));
    let cut = short_args(&long).expect("ascii cuts cleanly");
    assert_eq!(cut, format!("\"{}\u{2026}", "z".repeat(62)));
}

#[test]
fn chat_message_box() {
    let mut app = App::default();
    assert_eq!(all(&chat_input_lines(&app, 20)), vec!["> Type a message...".to_owned()]);
    assert_eq!(chat_input_caret(&app, 20), Some((2, 0)));
    app.input = agentic::text::TextField::from_initial("abcdefgh\nxy".to_owned());
    assert_eq!(all(&chat_input_lines(&app, 6)), vec!["> abcd".to_owned(), "efgh".to_owned(), "> xy".to_owned()]);
    assert_eq!(chat_input_caret(&app, 6), Some((4, 2)));
    assert_eq!(app.input.head(), "abcdefgh\nxy");
    app.chat_stream = ChatStream::Pending("q".to_owned());
    assert_eq!(all(&chat_input_lines(&app, 6)), vec!["waiting for response...".to_owned()]);
    assert_eq!(chat_input_caret(&app, 6), None);
    let footer = agentic::pages::chat_footer(agentic::protocol::AgentMode::Build);
    assert_eq!(joined(&footer), " CHAT   MODE build  \u{2191}\u{2193} scroll SHIFT+TAB mode /sessions history debug:tool-stream demo ESC quit");
}
