use agentic::app::{
    App, ChatStream, KeyCode, KeyInput, PendingToolApproval, Route, MOD_ALT, MOD_CONTROL,
    MOD_NONE,
};
use agentic::protocol::{AgentMode, ChatStreamEvent, SessionSummary, UiPart};
use serde_json::Value;

fn key(code: KeyCode) -> KeyInput {
    KeyInput { code, modifiers: MOD_NONE }
}

fn type_text(app: &mut App, text: &str) {
    for c in text.chars() {
        assert!(!app.handle_key(key(KeyCode::Char(c)), 1));
    }
}

#[test]
fn typing_and_submitting_starts_a_session() {
    let mut app = App::default();
    assert!(matches!(app.route(), Route::Home));
    type_text(&mut app, "  hello  ");
    assert_eq!(app.input(), "  hello  ");
    assert!(!app.handle_key(key(KeyCode::Enter), 0x1234));
    assert!(matches!(app.route(), Route::Chat));
    assert_eq!(app.input(), "");
    assert_eq!(app.chat_stream().pending_prompt(), Some("hello"));
    let session = app.active_session.as_ref().expect("new session");
    assert_eq!(session.id, "0000000000001234");
    assert_eq!(session.title, "hello");
    assert_eq!(app.chat_scroll(), u16::MAX);
}

#[test]
fn newline_keys_insert_instead_of_sending() {
    let mut app = App::default();
    type_text(&mut app, "a");
    app.handle_key(KeyInput { code: KeyCode::Enter, modifiers: MOD_CONTROL }, 0);
    app.handle_key(KeyInput { code: KeyCode::Enter, modifiers: MOD_ALT }, 0);
    type_text(&mut app, "b");
    assert_eq!(app.input(), "a\n\nb");
    app.handle_key(key(KeyCode::Backspace), 0);
    assert_eq!(app.input(), "a\n\n");
    assert_eq!(app.text_area_key_bindings_hint(), "return: send  Ctrl+return/Alt+return: newline");
}

#[test]
fn route_commands_change_pages() {
    let mut app = App::default();
    type_text(&mut app, "/Sessions/");
    app.handle_key(key(KeyCode::Enter), 0);
    assert!(matches!(app.route(), Route::Sessions));
    assert!(app.active_session.is_none());
    assert!(!app.handle_key(key(KeyCode::Esc), 0));
    assert!(matches!(app.route(), Route::Home));
    type_text(&mut app, "/tools");
    app.handle_key(key(KeyCode::Enter), 0);
    assert!(matches!(app.route(), Route::Tools));
    assert!(!app.handle_key(key(KeyCode::Esc), 0));
    assert!(matches!(app.route(), Route::Home));
    type_text(&mut app, "/nowhere");
    app.handle_key(key(KeyCode::Enter), 0);
    match app.route() {
        Route::Missing(path) => assert_eq!(path, "/nowhere"),
        _ => panic!("expected the missing page"),
    }
    type_text(&mut app, "/home");
    app.handle_key(key(KeyCode::Enter), 0);
    assert!(matches!(app.route(), Route::Home));
}

#[test]
fn quitting_keys() {
    let mut app = App::default();
    assert!(app.handle_key(key(KeyCode::Esc), 0));
    let mut app = App::default();
    assert!(app.handle_key(KeyInput { code: KeyCode::Char('c'), modifiers: MOD_CONTROL }, 0));
    let mut app = App::default();
    assert!(!app.handle_key(key(KeyCode::Char('c')), 0));
}

#[test]
fn back_tab_toggles_the_mode_when_idle() {
    let mut app = App::default();
    assert_eq!(app.active_mode(), AgentMode::Build);
    app.handle_key(key(KeyCode::BackTab), 0);
    assert_eq!(app.active_mode(), AgentMode::Plan);
    app.toggle_mode();
    assert_eq!(app.active_mode(), AgentMode::Build);
}

#[test]
fn sessions_cursor_stays_in_the_list() {
    let mut app = App::default();
    app.route = Route::Sessions;
    app.sessions_list = (0..3)
        .map(|i| SessionSummary {
            id: format!("s{i}"),
            title: format!("t{i}"),
            updated_at_secs: 0,
            message_count: 0,
        })
        .collect();
    app.sessions_loaded = true;
    app.handle_key(key(KeyCode::Up), 0);
    assert_eq!(app.sessions_cursor, 0);
    for _ in 0..5 {
        app.handle_key(key(KeyCode::Down), 0);
    }
    assert_eq!(app.sessions_cursor, 2);
    app.handle_key(key(KeyCode::Enter), 0);
    assert_eq!(app.sessions_open_pending.as_deref(), Some("s2"));
    app.open_loaded_session("s2", Vec::new());
    assert!(matches!(app.route(), Route::Chat));
    assert_eq!(app.active_session.as_ref().map(|s| s.title.as_str()), Some("t2"));
}

#[test]
fn streaming_fills_the_turn_and_finishing_saves_it() {
    let mut app = App::default();
    type_text(&mut app, "question");
    app.handle_key(key(KeyCode::Enter), 5);
    app.start_chat_stream();
    assert!(matches!(app.chat_stream(), ChatStream::Streaming { .. }));
    assert_eq!(app.stream_mode(), Some(AgentMode::Build));
    app.apply_chat_stream_event(ChatStreamEvent::StreamReady {
        stream_id: "sid".to_owned(),
        stream_secret: "sec".to_owned(),
    });
    assert_eq!(app.stream_auth(), Some(("sid".to_owned(), "sec".to_owned())));
    app.apply_chat_stream_event(ChatStreamEvent::TextDelta { text: "ans".to_owned() });
    app.apply_chat_stream_event(ChatStreamEvent::TextDelta { text: "wer".to_owned() });
    app.finish_chat_stream();
    assert!(matches!(app.chat_stream(), ChatStream::Idle));
    assert!(app.stream_auth().is_none());
    let session = app.active_session.as_ref().expect("session");
    assert_eq!(session.messages.len(), 2);
    match &session.messages[1].parts[0] {
        UiPart::Text { content } => assert_eq!(content, "answer"),
        _ => panic!("expected the answer text"),
    }
}

#[test]
fn errors_end_the_turn() {
    let mut app = App::default();
    type_text(&mut app, "q");
    app.handle_key(key(KeyCode::Enter), 5);
    app.start_chat_stream();
    app.set_chat_error("network down".to_owned());
    assert!(matches!(app.chat_stream(), ChatStream::Idle));
    let session = app.active_session.as_ref().expect("session");
    assert!(!session.messages.is_empty());
}

#[test]
fn approvals_are_answered_by_keys() {
    let mut app = App::default();
    app.route = Route::Chat;
    app.set_pending_tool_approval(PendingToolApproval {
        invocation_id: "inv".to_owned(),
        name: "write_file".to_owned(),
        input: Value::Null,
        script: None,
    });
    assert!(app.has_pending_tool_approval());
    app.handle_key(key(KeyCode::Char('n')), 0);
    assert!(!app.has_pending_tool_approval());
    let (approval, approved) = app.take_tool_approval_decision().expect("decided");
    assert_eq!(approval.invocation_id, "inv");
    assert!(!approved);
    assert!(app.take_tool_approval_decision().is_none());
    app.set_pending_tool_approval(PendingToolApproval {
        invocation_id: "inv2".to_owned(),
        name: "write_file".to_owned(),
        input: Value::Null,
        script: None,
    });
    app.handle_key(key(KeyCode::Char('Y')), 0);
    let (_, approved) = app.take_tool_approval_decision().expect("decided");
    assert!(approved);
}

#[test]
fn chat_scrolling() {
    let mut app = App::default();
    app.route = Route::Chat;
    app.set_chat_scroll(10);
    app.handle_key(key(KeyCode::Up), 0);
    assert_eq!(app.chat_scroll(), 9);
    app.handle_key(key(KeyCode::Down), 0);
    app.handle_key(key(KeyCode::Down), 0);
    assert_eq!(app.chat_scroll(), 11);
    app.set_chat_scroll(0);
    app.scroll_chat_up();
    assert_eq!(app.chat_scroll(), 0);
}
