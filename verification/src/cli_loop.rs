//! The decisions of the client's main loop: which background work is due on
//! a pass, and what each finished piece of work does to the state. The loop
//! itself (channels, the runtime, the terminal) is the caller's.
use vstd::prelude::*;
use vstd::string::*;
use serde_json::Value;
use crate::app::{
    bounded_log, clamped_cursor, is_registry, listed_title, ToolAvailability, editor_language, example_text, App, ChatStream, GenerationState, Route, ToolEditor,
    ToolEditorField, ToolEditorResult, ToolEditorResultKind,
};
use crate::client_flow::{short_id, short_id_of};
use crate::dashboard::is_dashboard;
use crate::tools::{describes, registry_spec};
use crate::protocol::{SessionSummary, ToolDescriptor, ToolRow, ToolScriptLanguage, ToolVersionRow, UiMessage};
use crate::text::{i64_to_string, signed_decimal};

verus! {

/// What is already under way when the loop looks for work.
pub struct InFlight {
    pub sessions: bool,
    pub tools: bool,
    pub open_session: bool,
}

/// The background work the loop starts on this pass.
pub struct DueWork {
    pub load_sessions: bool,
    pub load_tools: bool,
    /// The session whose messages to fetch.
    pub open_session: Option<String>,
    /// The session id (empty when none is open) and the prompt of the turn
    /// to stream; the state has moved the turn to streaming.
    pub chat: Option<(String, String)>,
}

/// A finished piece of the tool editor's background work.
pub enum EditorEvent {
    RunResult(ToolEditorResult),
    DraftSaved { row: ToolVersionRow },
    Registered { row: ToolVersionRow },
    Error(String),
    ToolDeleted { name: String },
    ToolDeleteFailed { name: String, error: String },
    GenerationStarted,
    GenerationProgress { line: String },
    GenerationDone {
        version_id: String,
        name: String,
        language: ToolScriptLanguage,
        script: String,
        args_schema: Value,
    },
    GenerationFailed(String),
}

/// The session id a streamed turn is sent under: the open session's, or
/// empty.
pub open spec fn session_id_for(app: App) -> Seq<char> {
    match app.active_session {
        Some(s) => s.id@,
        None => Seq::empty(),
    }
}

/// A result with only a kind and a message.
pub open spec fn is_plain_result(r: ToolEditorResult, kind: ToolEditorResultKind, message: Seq<char>) -> bool {
    &&& r.kind == kind
    &&& r.message@ == message
    &&& r.stdout@.len() == 0
    &&& r.stderr@.len() == 0
    &&& r.exit_code is None
    &&& r.duration_ms == 0
}

/// The message shown once a draft is saved.
pub open spec fn draft_saved_text(version: i32, id: Seq<char>) -> Seq<char> {
    "Saved draft v"@ + signed_decimal(version as int) + " ("@ + id + ")"@
}

/// The message shown once a tool version is registered.
pub open spec fn registered_text(tool_id: Seq<char>, version: i32) -> Seq<char> {
    "Registered '"@ + short_id_of(tool_id) + "' v"@ + signed_decimal(version as int) + " as active"@
}

/// The log line written once the author agent has produced a draft.
pub open spec fn generated_text(version_id: Seq<char>, name: Seq<char>) -> Seq<char> {
    "Generated draft v_id="@ + short_id_of(version_id) + " for tool '"@ + name
        + "'. Press Ctrl+P to publish."@
}

/// The state with only the editor's last result replaced.
pub open spec fn with_result(app: App, r: ToolEditorResult) -> App {
    App { tool_editor: ToolEditor { last_result: Some(r), ..app.tool_editor }, ..app }
}

fn plain_result(kind: ToolEditorResultKind, message: String) -> (r: ToolEditorResult)
    ensures
        is_plain_result(r, kind, message@),
{
    ToolEditorResult {
        kind,
        message,
        stdout: String::new(),
        stderr: String::new(),
        exit_code: None,
        duration_ms: 0,
    }
}

impl App {
    /// Starts what the current page needs: the sessions list on the
    /// sessions page and the tools registry on the tools page, each once
    /// until loaded; a chosen session's messages; and a waiting prompt on the
    /// chat page, which moves to streaming.
    pub fn due_work(&mut self, in_flight: &InFlight) -> (r: DueWork)
        ensures
            r.load_sessions == (old(self).route is Sessions && !old(self).sessions_loaded
                && !in_flight.sessions),
            r.load_tools == (old(self).route is Tools && !old(self).tools_loaded
                && !in_flight.tools),
            in_flight.open_session ==> r.open_session is None,
            !in_flight.open_session ==> match old(self).sessions_open_pending {
                Some(id) => r.open_session matches Some(x) && x@ == id@,
                None => r.open_session is None,
            },
            (old(self).route is Chat && old(self).chat_stream is Pending) ==> {
                &&& r.chat matches Some((sid, msg))
                &&& sid@ == session_id_for(*old(self))
                &&& old(self).chat_stream matches ChatStream::Pending(p)
                &&& msg@ == p@
                &&& final(self).chat_stream matches ChatStream::Streaming { user_msg, assistant }
                &&& user_msg == p
                &&& *final(self) == (App {
                    stream_id: None,
                    stream_secret: None,
                    stream_mode: Some(old(self).active_mode),
                    pending_tool_approval: None,
                    approval_decision: None,
                    chat_stream: final(self).chat_stream,
                    ..*old(self)
                })
            },
            !(old(self).route is Chat && old(self).chat_stream is Pending) ==> {
                &&& r.chat is None
                &&& *final(self) == *old(self)
            },
    {
        let load_sessions = matches!(self.route, Route::Sessions) && !self.sessions_loaded && !in_flight.sessions;
        let load_tools = matches!(self.route, Route::Tools) && !self.tools_loaded && !in_flight.tools;
        let open_session = if in_flight.open_session {
            None
        } else {
            match &self.sessions_open_pending {
                Some(id) => Some(id.clone()),
                None => None,
            }
        };
        let mut chat: Option<(String, String)> = None;
        if matches!(self.route, Route::Chat) && self.chat_stream.is_pending() {
            let session_id = match &self.active_session {
                Some(s) => s.id.clone(),
                None => String::new(),
            };
            let message = match self.chat_stream.pending_prompt() {
                Some(p) => p.to_owned(),
                None => String::new(),
            };
            self.start_chat_stream();
            chat = Some((session_id, message));
        }
        DueWork { load_sessions, load_tools, open_session, chat }
    }

    /// The sessions list arrived (or failed: then it is asked for again on
    /// the next visit).
    pub fn apply_sessions_loaded(&mut self, result: Result<Vec<SessionSummary>, String>)
        ensures
            match result {
                Ok(list) => *final(self) == (App {
                    sessions_list: list,
                    sessions_loaded: true,
                    ..*old(self)
                }),
                Err(_) => *final(self) == *old(self),
            },
    {
        match result {
            Ok(list) => {
                self.sessions_list = list;
                self.sessions_loaded = true;
            },
            Err(_) => {},
        }
    }

    /// A chosen session's messages arrived (or failed: then the choice is
    /// dropped).
    pub fn apply_session_opened(&mut self, result: Result<(String, Vec<UiMessage>), String>)
        ensures
            match result {
                Ok((id, messages)) => {
                    &&& *final(self) == (App {
                        active_session: final(self).active_session,
                        chat_stream: ChatStream::Idle,
                        stream_id: None,
                        stream_secret: None,
                        stream_mode: None,
                        pending_tool_approval: None,
                        approval_decision: None,
                        chat_scroll: u16::MAX,
                        route: Route::Chat,
                        sessions_open_pending: None,
                        ..*old(self)
                    })
                    &&& final(self).active_session matches Some(s)
                    &&& s.id@ == id@
                    &&& s.title@ == listed_title(old(self).sessions_list@, id@)
                    &&& s.messages == messages
                },
                Err(_) => *final(self) == (App { sessions_open_pending: None, ..*old(self) }),
            },
    {
        match result {
            Ok((id, messages)) => self.open_loaded_session(id.as_str(), messages),
            Err(_) => {
                self.sessions_open_pending = None;
            },
        }
    }

    /// The server's tool registry and management list arrived, or the
    /// error that kept them away.
    pub fn apply_tools_loaded(&mut self, result: Result<(Vec<ToolDescriptor>, Vec<ToolRow>), String>)
        ensures
            match result {
                Ok((server_tools, management)) => {
                    &&& *final(self) == (App {
                        tools: final(self).tools,
                        tools_cursor: clamped_cursor(old(self).tools_cursor, final(self).tools@.len()),
                        tools_loaded: true,
                        ..*old(self)
                    })
                    &&& exists|local: Seq<ToolDescriptor>|
                        #![trigger is_dashboard(final(self).tools@, server_tools@, local, management@)]
                        is_registry(local) && is_dashboard(
                            final(self).tools@,
                            server_tools@,
                            local,
                            management@,
                        )
                },
                Err(e) => {
                    &&& *final(self) == (App {
                        tools: final(self).tools,
                        tools_loaded: true,
                        tools_notice: final(self).tools_notice,
                        ..*old(self)
                    })
                    &&& final(self).tools_notice matches Some(n)
                    &&& n@ == "Server tool registry unavailable: "@ + e@
                    &&& final(self).tools@.len() == registry_spec().len()
                    &&& forall|i: int| 0 <= i < final(self).tools@.len() ==> {
                        let item = #[trigger] final(self).tools@[i];
                        &&& describes(item.descriptor, registry_spec()[i])
                        &&& item.availability == ToolAvailability::MissingRemotely
                        &&& item.tool_id is None
                        &&& item.version_id is None
                        &&& item.draft_script is None
                        &&& item.draft_language is None
                    }
                },
            },
    {
        match result {
            Ok((list, management)) => self.set_tools_from_server(list, management),
            Err(error) => {
                let mut m = "Server tool registry unavailable: ".to_owned();
                m.append(error.as_str());
                self.set_tools_error(m);
            },
        }
    }

    /// What a finished piece of editor work does to the state; `true` when
    /// the tools list is to be fetched again.
    pub fn apply_editor_event(&mut self, event: EditorEvent) -> (reload_tools: bool)
        ensures
            match event {
                EditorEvent::RunResult(res) => {
                    &&& *final(self) == with_result(*old(self), res)
                    &&& !reload_tools
                },
                EditorEvent::DraftSaved { row } => {
                    &&& final(self).tool_editor.last_result matches Some(res) && is_plain_result(
                        res,
                        ToolEditorResultKind::Success,
                        draft_saved_text(row.version, row.id@),
                    )
                    &&& *final(self) == (App {
                        tool_editor: ToolEditor {
                            last_draft_version_id: Some(row.id),
                            last_result: final(self).tool_editor.last_result,
                            ..old(self).tool_editor
                        },
                        ..*old(self)
                    })
                    &&& !reload_tools
                },
                EditorEvent::Registered { row } => {
                    &&& final(self).tool_editor.last_result matches Some(res) && is_plain_result(
                        res,
                        ToolEditorResultKind::Success,
                        registered_text(row.tool_id@, row.version),
                    )
                    &&& *final(self) == with_result(*old(self), final(self).tool_editor.last_result->0)
                    &&& reload_tools
                },
                EditorEvent::Error(message) => {
                    &&& final(self).tool_editor.last_result matches Some(res) && is_plain_result(
                        res,
                        ToolEditorResultKind::Failure,
                        message@,
                    )
                    &&& *final(self) == with_result(*old(self), final(self).tool_editor.last_result->0)
                    &&& !reload_tools
                },
                EditorEvent::ToolDeleted { name } => {
                    &&& final(self).tools_notice matches Some(n) && n@ == "Deleted tool '"@ + name@ + "'."@
                    &&& *final(self) == (App {
                        tools_notice: final(self).tools_notice,
                        tools_loaded: false,
                        ..*old(self)
                    })
                    &&& reload_tools
                },
                EditorEvent::ToolDeleteFailed { name, error } => {
                    &&& final(self).tools_notice matches Some(n) && n@ == "Delete '"@ + name@
                        + "' failed: "@ + error@
                    &&& *final(self) == (App { tools_notice: final(self).tools_notice, ..*old(self) })
                    &&& !reload_tools
                },
                EditorEvent::GenerationStarted => {
                    &&& final(self).tool_editor.generation == GenerationState::Generating
                    &&& final(self).tool_editor.generation_log@.len() == 1
                    &&& final(self).tool_editor.generation_log@[0]@ == "Author agent started. Working..."@
                    &&& *final(self) == (App {
                        tool_editor: ToolEditor {
                            generation: GenerationState::Generating,
                            generation_log: final(self).tool_editor.generation_log,
                            ..old(self).tool_editor
                        },
                        ..*old(self)
                    })
                    &&& !reload_tools
                },
                EditorEvent::GenerationProgress { line } => {
                    &&& line@.len() == 0 ==> *final(self) == *old(self)
                    &&& line@.len() > 0 ==> *final(self) == (App {
                        tool_editor: ToolEditor {
                            generation_log: final(self).tool_editor.generation_log,
                            ..old(self).tool_editor
                        },
                        ..*old(self)
                    }) && final(self).tool_editor.generation_log@ == bounded_log(
                        old(self).tool_editor.generation_log@.push(line),
                    )
                    &&& !reload_tools
                },
                EditorEvent::GenerationDone { version_id, name, language, script, args_schema } => {
                    &&& *final(self) == (App {
                        tool_editor: ToolEditor {
                            name: final(self).tool_editor.name,
                            script: final(self).tool_editor.script,
                            args: final(self).tool_editor.args,
                            language: editor_language(language),
                            last_draft_version_id: Some(version_id),
                            generation: GenerationState::Generated,
                            field: Some(ToolEditorField::Script),
                            generation_log: final(self).tool_editor.generation_log,
                            ..old(self).tool_editor
                        },
                        ..*old(self)
                    })
                    &&& final(self).tool_editor.name@ == (name@, name@.len())
                    &&& final(self).tool_editor.script@ == (script@, script@.len())
                    &&& final(self).tool_editor.args@ == (
                        example_text(args_schema),
                        example_text(args_schema).len(),
                    )
                    &&& final(self).tool_editor.generation_log@.len() > 0
                    &&& final(self).tool_editor.generation_log@ == bounded_log(
                        old(self).tool_editor.generation_log@.push(
                            final(self).tool_editor.generation_log@.last(),
                        ),
                    )
                    &&& final(self).tool_editor.generation_log@.last()@ == generated_text(
                        version_id@,
                        name@,
                    )
                    &&& !reload_tools
                },
                EditorEvent::GenerationFailed(reason) => {
                    &&& final(self).tool_editor.generation == GenerationState::Failed(reason)
                    &&& final(self).tool_editor.generation_log@.len() > 0
                    &&& final(self).tool_editor.generation_log@.last()@ == "Generation failed: "@
                        + reason@
                    &&& *final(self) == (App {
                        tool_editor: ToolEditor {
                            generation: GenerationState::Failed(reason),
                            generation_log: final(self).tool_editor.generation_log,
                            ..old(self).tool_editor
                        },
                        ..*old(self)
                    })
                    &&& !reload_tools
                },
            },
    {
        match event {
            EditorEvent::RunResult(result) => {
                self.set_editor_result(result);
                false
            },
            EditorEvent::DraftSaved { row } => {
                self.set_last_draft_version_id(row.id.clone());
                let mut m = "Saved draft v".to_owned();
                m.append(i64_to_string(row.version as i64).as_str());
                m.append(" (");
                m.append(row.id.as_str());
                m.append(")");
                self.set_editor_result(plain_result(ToolEditorResultKind::Success, m));
                false
            },
            EditorEvent::Registered { row } => {
                let mut m = "Registered '".to_owned();
                m.append(short_id(row.tool_id.as_str()).as_str());
                m.append("' v");
                m.append(i64_to_string(row.version as i64).as_str());
                m.append(" as active");
                self.set_editor_result(plain_result(ToolEditorResultKind::Success, m));
                true
            },
            EditorEvent::Error(message) => {
                self.set_editor_result(plain_result(ToolEditorResultKind::Failure, message));
                false
            },
            EditorEvent::ToolDeleted { name } => {
                let mut m = "Deleted tool '".to_owned();
                m.append(name.as_str());
                m.append("'.");
                self.tools_notice = Some(m);
                self.tools_loaded = false;
                true
            },
            EditorEvent::ToolDeleteFailed { name, error } => {
                let mut m = "Delete '".to_owned();
                m.append(name.as_str());
                m.append("' failed: ");
                m.append(error.as_str());
                self.tools_notice = Some(m);
                false
            },
            EditorEvent::GenerationStarted => {
                self.clear_generation_log();
                self.set_generation_state(GenerationState::Generating);
                let line = "Author agent started. Working...".to_owned();
                proof {
                    reveal_strlit("Author agent started. Working...");
                }
                let ghost before = self.tool_editor.generation_log@;
                self.push_generation_log(line);
                proof {
                    assert(before.push(line).len() == 1);
                }
                false
            },
            EditorEvent::GenerationProgress { line } => {
                self.push_generation_log(line);
                false
            },
            EditorEvent::GenerationDone { version_id, name, language, script, args_schema } => {
                let mut m = "Generated draft v_id=".to_owned();
                m.append(short_id(version_id.as_str()).as_str());
                m.append(" for tool '");
                m.append(name.as_str());
                m.append("'. Press Ctrl+P to publish.");
                proof {
                    reveal_strlit("Generated draft v_id=");
                }
                self.push_generation_log(m);
                self.apply_author_done(version_id, name, language, script, args_schema);
                false
            },
            EditorEvent::GenerationFailed(reason) => {
                let mut m = "Generation failed: ".to_owned();
                m.append(reason.as_str());
                proof {
                    reveal_strlit("Generation failed: ");
                }
                self.push_generation_log(m);
                self.set_generation_state(GenerationState::Failed(reason));
                false
            },
        }
    }
}

/// The editor event a tool deletion ends in: deleted, refused as unknown
/// to the server, or the request's error.
pub fn delete_tool_event(name: String, outcome: Result<bool, String>) -> (r: EditorEvent)
    ensures
        match outcome {
            Ok(true) => r matches EditorEvent::ToolDeleted { name: n } && n == name,
            Ok(false) => r matches EditorEvent::ToolDeleteFailed { name: n, error }
                && n == name && error@ == "Tool not found on server"@,
            Err(e) => r matches EditorEvent::ToolDeleteFailed { name: n, error }
                && n == name && error == e,
        },
{
    match outcome {
        Ok(true) => EditorEvent::ToolDeleted { name },
        Ok(false) => EditorEvent::ToolDeleteFailed { name, error: "Tool not found on server".to_owned() },
        Err(error) => EditorEvent::ToolDeleteFailed { name, error },
    }
}

/// The editor event a save of a draft ends in.
pub fn draft_saved_event(outcome: Result<ToolVersionRow, String>) -> (r: EditorEvent)
    ensures
        match outcome {
            Ok(row) => r == EditorEvent::DraftSaved { row },
            Err(e) => r matches EditorEvent::Error(m) && m@ == "Save draft failed: "@ + e@,
        },
{
    match outcome {
        Ok(row) => EditorEvent::DraftSaved { row },
        Err(e) => {
            let mut m = "Save draft failed: ".to_owned();
            m.append(e.as_str());
            EditorEvent::Error(m)
        },
    }
}

/// The editor event a registration ends in.
pub fn registered_event(outcome: Result<ToolVersionRow, String>) -> (r: EditorEvent)
    ensures
        match outcome {
            Ok(row) => r == EditorEvent::Registered { row },
            Err(e) => r matches EditorEvent::Error(m) && m@ == "Register failed: "@ + e@,
        },
{
    match outcome {
        Ok(row) => EditorEvent::Registered { row },
        Err(e) => {
            let mut m = "Register failed: ".to_owned();
            m.append(e.as_str());
            EditorEvent::Error(m)
        },
    }
}

} // verus!
