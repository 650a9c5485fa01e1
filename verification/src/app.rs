//! The state of the terminal client and how keys and stream events change it.
use vstd::prelude::*;
use vstd::string::*;
use serde_json::Value;
use vstd::utf8::encode_utf8;
use crate::dashboard::{dashboard_items, is_dashboard};
use crate::json::{
    json_field, json_member, json_object, json_object_value, json_text, json_to_string,
    summary_object, summary_value,
};
use crate::tools::{describes, descriptors, registry_spec};
use crate::protocol::{
    append_reasoning, append_text, clone_opt_string, append_reasoning_to, append_text_to, next_mode, opt_chars,
    part_views, upsert_tool, upsert_tool_in, AgentMode, ChatStreamEvent, LocalToolScript,
    PartView, SessionSummary, ToolDescriptor, ToolRow, ToolScriptLanguage, ToolState, UiMessage,
    UiPart,
    UiRole,
};
use crate::guard::{trim_str, trimmed};
use crate::session::{hex16, title_of, Session};
use crate::text::{from_chars, line_end, line_start, spec_insert, str_eq, string_views, to_chars, TextField};

verus! {

/// The keys the client tells apart.
#[derive(Clone, Copy, Debug, PartialEq, Eq, Structural)]
pub enum KeyCode {
    Backspace,
    Enter,
    Left,
    Right,
    Up,
    Down,
    Home,
    End,
    PageUp,
    PageDown,
    Tab,
    BackTab,
    Delete,
    Insert,
    F(u8),
    Char(char),
    Esc,
    Other,
}

/// No modifier key held.
pub const MOD_NONE: u8 = 0;
/// Shift held.
pub const MOD_SHIFT: u8 = 1;
/// Control held.
pub const MOD_CONTROL: u8 = 2;
/// Alt held.
pub const MOD_ALT: u8 = 4;

/// A key press: the key and the set of modifiers held, one bit each.
#[derive(Clone, Copy, Debug, PartialEq, Eq, Structural)]
pub struct KeyInput {
    pub code: KeyCode,
    pub modifiers: u8,
}

/// Whether Control is among the modifiers.
pub open spec fn has_control(m: u8) -> bool {
    m & MOD_CONTROL != 0
}

/// The page the client shows.
pub enum Route {
    Home,
    Chat,
    Sessions,
    Tools,
    Missing(String),
}

impl Default for Route {
    fn default() -> (r: Self)
        ensures
            r is Home,
    {
        Route::Home
    }
}

impl Route {
    pub fn label(&self) -> (r: &'static str)
        ensures
            r@ == (match self {
                Route::Home => "home"@,
                Route::Chat => "chat"@,
                Route::Sessions => "sessions"@,
                Route::Tools => "tools"@,
                Route::Missing(_) => "missing"@,
            }),
    {
        match self {
            Route::Home => "home",
            Route::Chat => "chat",
            Route::Sessions => "sessions",
            Route::Tools => "tools",
            Route::Missing(_) => "missing",
        }
    }
}

/// The chat turn in progress, if any.
pub enum ChatStream {
    Idle,
    /// A prompt that is not sent yet.
    Pending(String),
    /// A turn whose answer is streaming in.
    Streaming { user_msg: String, assistant: UiMessage },
}

impl Default for ChatStream {
    fn default() -> (r: Self)
        ensures
            r is Idle,
    {
        ChatStream::Idle
    }
}

impl ChatStream {
    pub fn is_pending(&self) -> (r: bool)
        ensures
            r == (self is Pending),
    {
        match self {
            ChatStream::Pending(_) => true,
            _ => false,
        }
    }

    pub fn pending_prompt(&self) -> (r: Option<&str>)
        ensures
            self matches ChatStream::Pending(p) ==> r matches Some(s) && s@ == p@,
            !(self is Pending) ==> r is None,
    {
        match self {
            ChatStream::Pending(p) => Some(p.as_str()),
            _ => None,
        }
    }
}

/// A local tool call that waits for the user's approval.
pub struct PendingToolApproval {
    pub invocation_id: String,
    pub name: String,
    pub input: Value,
    /// The script to run on approval, for a tool authored at run time.
    pub script: Option<LocalToolScript>,
}

/// Whether a tool can be used, as the dashboard shows it.
#[derive(Clone, Copy, Debug, PartialEq, Eq, Structural)]
pub enum ToolAvailability {
    Active,
    Draft,
    MissingLocally,
    MissingRemotely,
}

/// One row of the tools dashboard.
pub struct ToolDashboardItem {
    pub descriptor: ToolDescriptor,
    pub availability: ToolAvailability,
    /// Set for tools kept by the server (active or draft).
    pub tool_id: Option<String>,
    /// Set only for drafts, so that the draft can be reopened.
    pub version_id: Option<String>,
    /// Set only for drafts: the script and its language.
    pub draft_script: Option<String>,
    pub draft_language: Option<ToolScriptLanguage>,
}

impl ToolDashboardItem {
    pub fn duplicate(&self) -> (r: Self)
        ensures
            r == *self,
    {
        ToolDashboardItem {
            descriptor: self.descriptor.duplicate(),
            availability: self.availability,
            tool_id: clone_opt_string(&self.tool_id),
            version_id: clone_opt_string(&self.version_id),
            draft_script: clone_opt_string(&self.draft_script),
            draft_language: self.draft_language,
        }
    }
}

/// A deletion that waits for the user's confirmation.
pub struct PendingToolDelete {
    pub tool_id: String,
    pub name: String,
    pub is_draft: bool,
}

/// The input fields of the tool editor.
#[derive(Clone, Copy, Debug, PartialEq, Eq, Structural)]
pub enum ToolEditorField {
    Description,
    InputHint,
    OutputHint,
    Name,
    Script,
    Args,
}

/// Where the generation of a tool by the model stands.
pub enum GenerationState {
    Idle,
    Generating,
    Generated,
    Failed(String),
}

impl Default for GenerationState {
    fn default() -> (r: Self)
        ensures
            r is Idle,
    {
        GenerationState::Idle
    }
}

#[derive(Clone, Copy, Debug, PartialEq, Eq, Structural)]
pub enum ToolEditorResultKind {
    Success,
    Failure,
}

/// The outcome of the editor's last run or save.
pub struct ToolEditorResult {
    pub kind: ToolEditorResultKind,
    pub message: String,
    pub stdout: String,
    pub stderr: String,
    pub exit_code: Option<i32>,
    pub duration_ms: u64,
}

/// The script language chosen in the editor.
#[derive(Clone, Copy, Debug, PartialEq, Eq, Structural)]
pub enum ToolEditorLanguage {
    Python,
    Shell,
}

impl Default for ToolEditorLanguage {
    fn default() -> (r: Self)
        ensures
            r == ToolEditorLanguage::Python,
    {
        ToolEditorLanguage::Python
    }
}

impl ToolEditorLanguage {
    /// The other language.
    pub open spec fn toggled(self) -> Self {
        match self {
            ToolEditorLanguage::Python => ToolEditorLanguage::Shell,
            ToolEditorLanguage::Shell => ToolEditorLanguage::Python,
        }
    }

    pub fn label(self) -> (r: &'static str)
        ensures
            r@ == (match self {
                ToolEditorLanguage::Python => "python"@,
                ToolEditorLanguage::Shell => "shell"@,
            }),
    {
        match self {
            ToolEditorLanguage::Python => "python",
            ToolEditorLanguage::Shell => "shell",
        }
    }

    pub fn toggle(self) -> (r: Self)
        ensures
            r == self.toggled(),
    {
        match self {
            ToolEditorLanguage::Python => ToolEditorLanguage::Shell,
            ToolEditorLanguage::Shell => ToolEditorLanguage::Python,
        }
    }

    /// The script language this stands for.
    pub open spec fn to_protocol_spec(self) -> ToolScriptLanguage {
        match self {
            ToolEditorLanguage::Python => ToolScriptLanguage::Python,
            ToolEditorLanguage::Shell => ToolScriptLanguage::Shell,
        }
    }

    pub fn to_protocol(self) -> (r: ToolScriptLanguage)
        ensures
            r == self.to_protocol_spec(),
    {
        match self {
            ToolEditorLanguage::Python => ToolScriptLanguage::Python,
            ToolEditorLanguage::Shell => ToolScriptLanguage::Shell,
        }
    }
}

/// The editor's language for a script language.
pub open spec fn editor_language(l: ToolScriptLanguage) -> ToolEditorLanguage {
    match l {
        ToolScriptLanguage::Python => ToolEditorLanguage::Python,
        ToolScriptLanguage::Shell => ToolEditorLanguage::Shell,
    }
}

pub fn editor_language_of(l: ToolScriptLanguage) -> (r: ToolEditorLanguage)
    ensures
        r == editor_language(l),
{
    match l {
        ToolScriptLanguage::Python => ToolEditorLanguage::Python,
        ToolScriptLanguage::Shell => ToolEditorLanguage::Shell,
    }
}

/// What the user asked the editor to do; the caller carries it out.
#[derive(Clone, Copy, Debug, PartialEq, Eq, Structural)]
pub enum ToolEditorAction {
    Generate,
    Run,
    SaveDraft,
    Register,
}

/// The editor's contents, as handed to the server.
pub struct ToolEditorSnapshot {
    pub name: String,
    pub language: ToolScriptLanguage,
    pub script: String,
    pub args: String,
    pub last_draft_version_id: Option<String>,
    pub description: String,
    pub input_hint: String,
    pub output_hint: String,
}

/// The tool editor of the tools page.
pub struct ToolEditor {
    pub open: bool,
    pub field: Option<ToolEditorField>,
    pub description: TextField,
    pub input_hint: TextField,
    pub output_hint: TextField,
    pub name: TextField,
    pub language: ToolEditorLanguage,
    pub script: TextField,
    pub args: TextField,
    pub last_draft_version_id: Option<String>,
    pub last_result: Option<ToolEditorResult>,
    pub generation: GenerationState,
    pub generation_log: Vec<String>,
}

impl Default for ToolEditor {
    fn default() -> (r: Self)
        ensures
            !r.open,
            r.field is None,
            r.description@.0.len() == 0,
            r.input_hint@.0.len() == 0,
            r.output_hint@.0.len() == 0,
            r.name@.0.len() == 0,
            r.language == ToolEditorLanguage::Python,
            r.script@.0.len() == 0,
            r.args@.0.len() == 0,
            r.last_draft_version_id is None,
            r.last_result is None,
            r.generation is Idle,
            r.generation_log@.len() == 0,
    {
        ToolEditor {
            open: false,
            field: None,
            description: TextField::default(),
            input_hint: TextField::default(),
            output_hint: TextField::default(),
            name: TextField::default(),
            language: ToolEditorLanguage::Python,
            script: TextField::default(),
            args: TextField::default(),
            last_draft_version_id: None,
            last_result: None,
            generation: GenerationState::Idle,
            generation_log: Vec::new(),
        }
    }
}

/// Everything the terminal client shows and remembers.
pub struct App {
    pub route: Route,
    pub input: TextField,
    pub active_mode: AgentMode,
    pub active_session: Option<Session>,
    pub chat_stream: ChatStream,
    pub stream_mode: Option<AgentMode>,
    pub chat_scroll: u16,
    pub stream_id: Option<String>,
    pub stream_secret: Option<String>,
    pub pending_tool_approval: Option<PendingToolApproval>,
    pub approval_decision: Option<(PendingToolApproval, bool)>,
    pub sessions_list: Vec<SessionSummary>,
    pub sessions_loaded: bool,
    pub sessions_cursor: usize,
    pub sessions_scroll: u16,
    pub sessions_open_pending: Option<String>,
    pub tools: Vec<ToolDashboardItem>,
    pub tools_loaded: bool,
    pub tools_cursor: usize,
    pub tools_notice: Option<String>,
    pub tool_editor: ToolEditor,
    pub pending_editor_action: Option<ToolEditorAction>,
    pub pending_tool_delete: Option<PendingToolDelete>,
    pub tool_delete_decision: Option<(PendingToolDelete, bool)>,
    pub pending_reopen_draft: Option<ToolDashboardItem>,
}

impl App {
    pub fn route(&self) -> (r: &Route)
        ensures
            *r == self.route,
    {
        &self.route
    }

    pub fn input(&self) -> (r: &str)
        ensures
            r@ == self.input@.0,
    {
        self.input.as_str()
    }

    /// Length of the prompt in UTF-8 bytes.
    pub fn input_len(&self) -> (r: usize)
        ensures
            r == encode_utf8(self.input@.0).len() as usize,
    {
        self.input.byte_len()
    }

    /// Byte offset of the caret in the prompt.
    pub fn input_caret(&self) -> (r: usize)
        ensures
            r == encode_utf8(self.input@.0.take(self.input@.1 as int)).len() as usize,
    {
        self.input.caret_byte()
    }

    pub fn active_mode(&self) -> (r: AgentMode)
        ensures
            r == self.active_mode,
    {
        self.active_mode
    }

    pub fn stream_mode(&self) -> (r: Option<AgentMode>)
        ensures
            r == self.stream_mode,
    {
        self.stream_mode
    }

    pub fn toggle_mode(&mut self)
        ensures
            *final(self) == (App { active_mode: next_mode(old(self).active_mode), ..*old(self) }),
    {
        self.active_mode = self.active_mode.next();
    }

    pub fn chat_stream(&self) -> (r: &ChatStream)
        ensures
            *r == self.chat_stream,
    {
        &self.chat_stream
    }

    /// A prompt is waiting to be sent or an answer is streaming in.
    fn chat_is_busy(&self) -> (r: bool)
        ensures
            r == !(self.chat_stream is Idle),
    {
        match self.chat_stream {
            ChatStream::Idle => false,
            _ => true,
        }
    }

    pub fn chat_scroll(&self) -> (r: u16)
        ensures
            r == self.chat_scroll,
    {
        self.chat_scroll
    }

    pub fn set_chat_scroll(&mut self, v: u16)
        ensures
            *final(self) == (App { chat_scroll: v, ..*old(self) }),
    {
        self.chat_scroll = v;
    }

    pub fn scroll_chat_up(&mut self)
        ensures
            *final(self) == (App { chat_scroll: scrolled_up(old(self).chat_scroll), ..*old(self) }),
    {
        self.chat_scroll = if self.chat_scroll == 0 { 0 } else { self.chat_scroll - 1 };
    }

    pub fn scroll_chat_down(&mut self)
        ensures
            *final(self) == (App { chat_scroll: scrolled_down(old(self).chat_scroll), ..*old(self) }),
    {
        self.chat_scroll = if self.chat_scroll == u16::MAX { u16::MAX } else { self.chat_scroll + 1 };
    }

    pub fn scroll_chat_to_bottom(&mut self)
        ensures
            *final(self) == (App { chat_scroll: u16::MAX, ..*old(self) }),
    {
        self.chat_scroll = u16::MAX;
    }

    /// Turns the pending prompt into a streaming turn (the caller has sent
    /// it); in any other state the turn is dropped.
    pub fn start_chat_stream(&mut self)
        ensures
            old(self).chat_stream matches ChatStream::Pending(p) ==> {
                &&& *final(self) == (App {
                    stream_id: None,
                    stream_secret: None,
                    stream_mode: Some(old(self).active_mode),
                    pending_tool_approval: None,
                    approval_decision: None,
                    chat_stream: final(self).chat_stream,
                    ..*old(self)
                })
                &&& final(self).chat_stream matches ChatStream::Streaming { user_msg, assistant }
                &&& user_msg == p
                &&& assistant@ == (UiRole::Assistant, Seq::<PartView>::empty())
            },
            !(old(self).chat_stream is Pending) ==> *final(self) == (App {
                chat_stream: ChatStream::Idle,
                ..*old(self)
            }),
    {
        let mut taken = ChatStream::Idle;
        std::mem::swap(&mut taken, &mut self.chat_stream);
        if let ChatStream::Pending(user_msg) = taken {
            self.stream_id = None;
            self.stream_secret = None;
            self.stream_mode = Some(self.active_mode);
            self.pending_tool_approval = None;
            self.approval_decision = None;
            self.chat_stream = ChatStream::Streaming { user_msg, assistant: UiMessage::assistant() };
        }
    }

    /// Folds one event of the streaming turn into the answer being built.
    pub fn apply_chat_stream_event(&mut self, event: ChatStreamEvent)
        ensures
            chat_event_effect(*old(self), *final(self), event),
    {
        let mut taken = ChatStream::Idle;
        std::mem::swap(&mut taken, &mut self.chat_stream);
        match taken {
            ChatStream::Streaming { user_msg, mut assistant } => {
                match event {
                    ChatStreamEvent::StreamReady { stream_id, stream_secret } => {
                        self.chat_stream = ChatStream::Streaming { user_msg, assistant };
                        self.stream_id = Some(stream_id);
                        self.stream_secret = Some(stream_secret);
                        return;
                    },
                    ChatStreamEvent::MessageStart { role } => {
                        if role == UiRole::Assistant && assistant.role != UiRole::Assistant {
                            assistant.role = UiRole::Assistant;
                        }
                    },
                    ChatStreamEvent::TextDelta { text } => {
                        append_text_to(&mut assistant.parts, text.as_str());
                    },
                    ChatStreamEvent::ReasoningDelta { text } => {
                        append_reasoning_to(&mut assistant.parts, text.as_str());
                    },
                    ChatStreamEvent::ToolUpdate { id, name, state, input, output, error } => {
                        upsert_tool_in(&mut assistant.parts, id, name, state, input, output, error, true);
                    },
                    ChatStreamEvent::LocalToolRequest {
                        invocation_id,
                        name,
                        approval_required,
                        summary,
                        ..
                    } => {
                        let state = if approval_required {
                            ToolState::AwaitingApproval
                        } else {
                            ToolState::Calling
                        };
                        let input = summary_object(summary);
                        upsert_tool_in(
                            &mut assistant.parts,
                            invocation_id,
                            name,
                            state,
                            Some(input),
                            None,
                            None,
                            true,
                        );
                    },
                    ChatStreamEvent::Error { message } => {
                        let ghost before = assistant.parts@;
                        let part = UiPart::Error { message };
                        assistant.parts.push(part);
                        assert(part_views(assistant.parts@) =~= part_views(before).push(part@));
                    },
                    _ => {},
                }
                self.chat_stream = ChatStream::Streaming { user_msg, assistant };
            },
            other => {
                self.chat_stream = other;
            },
        }
    }

    /// Saves the finished turn into the open session (the server has
    /// already stored it) and forgets the stream.
    pub fn finish_chat_stream(&mut self)
        ensures
            *final(self) == (App {
                chat_stream: ChatStream::Idle,
                stream_id: None,
                stream_secret: None,
                stream_mode: None,
                pending_tool_approval: None,
                approval_decision: None,
                active_session: final(self).active_session,
                ..*old(self)
            }),
            turn_saved(old(self).chat_stream, old(self).active_session, final(self).active_session),
    {
        let mut taken = ChatStream::Idle;
        std::mem::swap(&mut taken, &mut self.chat_stream);
        if let ChatStream::Streaming { user_msg, assistant } = taken {
            let mut session_slot: Option<Session> = None;
            std::mem::swap(&mut session_slot, &mut self.active_session);
            if let Some(mut session) = session_slot {
                let ghost before = session.messages@;
                let user = UiMessage::user_text(user_msg);
                session.messages.push(user);
                session.messages.push(assistant);
                assert(message_views(session.messages@) =~= message_views(before).push(user@).push(
                    assistant@,
                ));
                self.active_session = Some(session);
            }
        }
        self.stream_id = None;
        self.stream_secret = None;
        self.stream_mode = None;
        self.pending_tool_approval = None;
        self.approval_decision = None;
    }

    /// Ends the turn with an error shown in the open session.
    pub fn set_chat_error(&mut self, error: String)
        ensures
            *final(self) == (App {
                chat_stream: ChatStream::Idle,
                stream_mode: None,
                active_session: final(self).active_session,
                ..*old(self)
            }),
            error_saved(
                old(self).chat_stream,
                error@,
                old(self).active_session,
                final(self).active_session,
            ),
    {
        let mut session_slot: Option<Session> = None;
        std::mem::swap(&mut session_slot, &mut self.active_session);
        if let Some(mut session) = session_slot {
            let mut taken = ChatStream::Idle;
            std::mem::swap(&mut taken, &mut self.chat_stream);
            let (user_msg, mut assistant) = match taken {
                ChatStream::Streaming { user_msg, assistant } => (user_msg, assistant),
                ChatStream::Pending(user_msg) => (user_msg, UiMessage::assistant()),
                ChatStream::Idle => (String::new(), UiMessage::assistant()),
            };
            let ghost a0 = assistant@;
            let ghost u0 = user_msg@;
            let ghost parts0 = assistant.parts@;
            let ghost ev = error@;
            let part = UiPart::Error { message: error };
            assistant.parts.push(part);
            assert(part_views(assistant.parts@) =~= part_views(parts0).push(part@));
            assert(assistant@ == (a0.0, a0.1.push(PartView::Error(ev))));
            let ghost before = session.messages@;
            if !user_msg.as_str().is_empty() {
                let user = UiMessage::user_text(user_msg);
                session.messages.push(user);
                assert(message_views(session.messages@) =~= message_views(before) + user_turn(u0));
            } else {
                assert(message_views(session.messages@) =~= message_views(before) + user_turn(u0));
            }
            let ghost mid = session.messages@;
            session.messages.push(assistant);
            assert(message_views(session.messages@) =~= message_views(mid).push(assistant@));
            assert(message_views(session.messages@) =~= message_views(before) + user_turn(u0)
                + seq![(a0.0, a0.1.push(PartView::Error(ev)))]);
            self.active_session = Some(session);
        }
        self.chat_stream = ChatStream::Idle;
        self.stream_mode = None;
    }

    pub fn set_pending_tool_approval(&mut self, approval: PendingToolApproval)
        ensures
            *final(self) == (App { pending_tool_approval: Some(approval), ..*old(self) }),
    {
        self.pending_tool_approval = Some(approval);
    }

    pub fn has_pending_tool_approval(&self) -> (r: bool)
        ensures
            r == (self.pending_tool_approval is Some),
    {
        self.pending_tool_approval.is_some()
    }

    /// The user's answer to an approval request, handed out once.
    pub fn take_tool_approval_decision(&mut self) -> (r: Option<(PendingToolApproval, bool)>)
        ensures
            r == old(self).approval_decision,
            *final(self) == (App { approval_decision: None, ..*old(self) }),
    {
        self.approval_decision.take()
    }

    /// Shows a local tool call as finished: failed when there is an error.
    pub fn local_tool_finished(
        &mut self,
        invocation_id: String,
        name: String,
        output: Option<Value>,
        error: Option<String>,
    )
        ensures
            *final(self) == (App { chat_stream: final(self).chat_stream, ..*old(self) }),
            stream_tool_update(
                old(self).chat_stream,
                final(self).chat_stream,
                invocation_id@,
                name@,
                if error is Some { ToolState::Failed } else { ToolState::Complete },
                output,
                opt_chars(error),
            ),
    {
        let state = if error.is_some() { ToolState::Failed } else { ToolState::Complete };
        self.update_stream_tool(invocation_id, name, state, output, error);
    }

    /// Shows a local tool call as running.
    pub fn local_tool_started(&mut self, invocation_id: String, name: String)
        ensures
            *final(self) == (App { chat_stream: final(self).chat_stream, ..*old(self) }),
            stream_tool_update(
                old(self).chat_stream,
                final(self).chat_stream,
                invocation_id@,
                name@,
                ToolState::Calling,
                None,
                None,
            ),
    {
        self.update_stream_tool(invocation_id, name, ToolState::Calling, None, None);
    }

    fn update_stream_tool(
        &mut self,
        id: String,
        name: String,
        state: ToolState,
        output: Option<Value>,
        error: Option<String>,
    )
        ensures
            *final(self) == (App { chat_stream: final(self).chat_stream, ..*old(self) }),
            stream_tool_update(
                old(self).chat_stream,
                final(self).chat_stream,
                id@,
                name@,
                state,
                output,
                opt_chars(error),
            ),
    {
        let mut taken = ChatStream::Idle;
        std::mem::swap(&mut taken, &mut self.chat_stream);
        match taken {
            ChatStream::Streaming { user_msg, mut assistant } => {
                upsert_tool_in(&mut assistant.parts, id, name, state, None, output, error, true);
                self.chat_stream = ChatStream::Streaming { user_msg, assistant };
            },
            other => {
                self.chat_stream = other;
            },
        }
    }

    /// Carries out a `/command` typed at the prompt; `false` when the text is
    /// no command.
    fn handle_route_command(&mut self, prompt: &str) -> (r: bool)
        ensures
            r == is_command(prompt@),
            !r ==> *final(self) == *old(self),
            r ==> route_command_effect(*old(self), *final(self), prompt@),
            final(self).input == old(self).input,
    {
        let chars = to_chars(prompt);
        if chars.len() == 0 || chars[0] != '/' {
            return false;
        }
        let mut end: usize = chars.len();
        let ghost command = prompt@.drop_first();
        assert(command.take(command.len() as int) =~= command);
        while end > 1 && chars[end - 1] == '/'
            invariant
                chars@ == prompt@,
                command == prompt@.drop_first(),
                1 <= end <= chars.len(),
                trim_end_char(command, '/') == trim_end_char(command.take(end - 1), '/'),
            decreases end,
        {
            assert(command.take(end - 1).drop_last() =~= command.take(end - 2));
            end = end - 1;
        }
        let mut lowered: Vec<char> = Vec::new();
        let mut i: usize = 1;
        while i < end
            invariant
                chars@ == prompt@,
                command == prompt@.drop_first(),
                1 <= i <= end <= chars.len(),
                lowered@ == lower_ascii(command.take(i - 1)),
            decreases end - i,
        {
            lowered.push(to_ascii_lower(chars[i]));
            i = i + 1;
            assert(lowered@ =~= lower_ascii(command.take(i - 1)));
        }
        let normalized = from_chars(&lowered);
        if str_eq(normalized.as_str(), "home") {
            self.route = Route::Home;
        } else if str_eq(normalized.as_str(), "sessions") {
            self.sessions_cursor = 0;
            self.sessions_scroll = 0;
            self.route = Route::Sessions;
        } else if str_eq(normalized.as_str(), "tools") {
            self.tools_cursor = 0;
            self.close_tool_editor();
            self.route = Route::Tools;
        } else {
            self.route = Route::Missing(prompt.to_owned());
        }
        true
    }

    pub fn close_tool_editor(&mut self)
        ensures
            *final(self) == (App {
                tool_editor: ToolEditor { open: false, field: None, ..old(self).tool_editor },
                ..*old(self)
            }),
    {
        self.tool_editor.open = false;
        self.tool_editor.field = None;
    }

    /// Sends what was typed at the prompt: a `/command` changes the page; a
    /// prompt starts a turn, in the open chat or in a new session made at
    /// `now_ms`. Nothing is sent while a turn is under way.
    fn submit_prompt(&mut self, now_ms: u128)
        ensures
            submit_effect(*old(self), *final(self), now_ms),
    {
        let prompt = trim_str(self.input.as_str());
        if prompt.as_str().is_empty() {
            return;
        }
        if self.handle_route_command(prompt.as_str()) {
            self.input.clear();
            return;
        }
        if self.chat_is_busy() {
            self.input.clear();
            return;
        }
        match self.route {
            Route::Chat => {
                self.chat_stream = ChatStream::Pending(prompt);
                self.scroll_chat_to_bottom();
            },
            _ => {
                let session = Session::new(prompt.as_str(), now_ms);
                self.active_session = Some(session);
                self.chat_stream = ChatStream::Pending(prompt);
                self.route = Route::Chat;
                self.chat_scroll = 0;
                self.scroll_chat_to_bottom();
            },
        }
        self.input.clear();
    }

    /// Shows the key bindings of the prompt, as in
    /// `return: send  Ctrl+return/Alt+return: newline`.
    pub fn text_area_key_bindings_hint(&self) -> (r: String)
        ensures
            r@ == join_names(binding_names(TextAreaAction::Submit), "/"@) + ": send  "@
                + join_names(binding_names(TextAreaAction::InsertNewline), "/"@) + ": newline"@,
    {
        let submit = join_strings(&key_binding_names(TextAreaAction::Submit), "/");
        let newline = join_strings(&key_binding_names(TextAreaAction::InsertNewline), "/");
        let mut r = submit;
        r.append(": send  ");
        r.append(newline.as_str());
        r.append(": newline");
        r
    }

    /// Handles a key press at `now_ms`; `true` when the client should quit.
    pub fn handle_key(&mut self, key: KeyInput, now_ms: u128) -> (quit: bool)
        ensures
            quit == (key_action(*old(self), key) is Quit),
            key_effect(*old(self), *final(self), key_action(*old(self), key), key, now_ms),
    {
        let action = self.dispatch_key(key);
        match action {
            KeyAction::GoHome => {
                self.route = Route::Home;
            },
            KeyAction::CancelDelete => {
                self.pending_tool_delete = None;
            },
            KeyAction::CloseEditor => {
                self.close_tool_editor();
            },
            KeyAction::Quit => {
                return true;
            },
            KeyAction::DecideDelete(yes) => {
                if let Some(target) = self.pending_tool_delete.take() {
                    self.tool_delete_decision = Some((target, yes));
                }
            },
            KeyAction::DecideApproval(yes) => {
                if let Some(approval) = self.pending_tool_approval.take() {
                    let invocation_id = approval.invocation_id.clone();
                    let name = approval.name.clone();
                    if yes {
                        self.local_tool_started(invocation_id, name);
                    } else {
                        self.local_tool_finished(
                            invocation_id,
                            name,
                            None,
                            Some("User rejected the file operation".to_owned()),
                        );
                    }
                    self.approval_decision = Some((approval, yes));
                }
            },
            KeyAction::SessionsUp => {
                self.sessions_cursor = cursor_up(self.sessions_cursor);
            },
            KeyAction::SessionsDown => {
                self.sessions_cursor = cursor_down(self.sessions_cursor, self.sessions_list.len());
            },
            KeyAction::OpenSession => {
                self.open_selected_session();
            },
            KeyAction::ToggleMode => {
                self.toggle_mode();
            },
            KeyAction::EditorKey => {
                self.handle_tool_editor_key(key);
            },
            KeyAction::ToolsUp => {
                self.tools_cursor = cursor_up(self.tools_cursor);
            },
            KeyAction::ToolsDown => {
                self.tools_cursor = cursor_down(self.tools_cursor, self.tools.len());
            },
            KeyAction::OpenEditor => {
                self.open_tool_editor();
            },
            KeyAction::RequestDelete => {
                self.request_tool_delete();
            },
            KeyAction::ReopenDraft => {
                self.request_reopen_draft();
            },
            KeyAction::ChatUp => {
                self.scroll_chat_up();
            },
            KeyAction::ChatDown => {
                self.scroll_chat_down();
            },
            KeyAction::EditPrompt(code) => {
                edit_text(&mut self.input, code);
            },
            KeyAction::TextArea(TextAreaAction::Submit) => {
                self.submit_prompt(now_ms);
            },
            KeyAction::TextArea(TextAreaAction::InsertNewline) => {
                self.input.insert_char('\n');
            },
            KeyAction::TextArea(TextAreaAction::Backspace) => {
                self.input.backspace();
            },
            KeyAction::Ignore => {},
        }
        false
    }

    /// Which branch a key press takes.
    fn dispatch_key(&self, key: KeyInput) -> (r: KeyAction)
        ensures
            r == key_action(*self, key),
    {
        let code = key.code;
        let sessions = match self.route {
            Route::Sessions => true,
            _ => false,
        };
        let tools = match self.route {
            Route::Tools => true,
            _ => false,
        };
        let chat = match self.route {
            Route::Chat => true,
            _ => false,
        };
        let home = match self.route {
            Route::Home => true,
            _ => false,
        };
        let yes = code == KeyCode::Char('y') || code == KeyCode::Char('Y');
        let no = code == KeyCode::Char('n') || code == KeyCode::Char('N');
        let deleting = self.pending_tool_delete.is_some();
        let approving = self.pending_tool_approval.is_some();
        if code == KeyCode::Esc && sessions {
            KeyAction::GoHome
        } else if code == KeyCode::Esc && deleting {
            KeyAction::CancelDelete
        } else if code == KeyCode::Esc && tools && self.tool_editor.open {
            KeyAction::CloseEditor
        } else if code == KeyCode::Esc && tools {
            KeyAction::GoHome
        } else if code == KeyCode::Esc {
            KeyAction::Quit
        } else if code == KeyCode::Char('c') && key.modifiers & MOD_CONTROL != 0 {
            KeyAction::Quit
        } else if yes && deleting {
            KeyAction::DecideDelete(true)
        } else if no && deleting {
            KeyAction::DecideDelete(false)
        } else if yes && approving {
            KeyAction::DecideApproval(true)
        } else if no && approving {
            KeyAction::DecideApproval(false)
        } else if code == KeyCode::Up && sessions {
            KeyAction::SessionsUp
        } else if code == KeyCode::Down && sessions {
            KeyAction::SessionsDown
        } else if code == KeyCode::Enter && sessions {
            KeyAction::OpenSession
        } else if code == KeyCode::BackTab && (home || chat) && !self.chat_is_busy() {
            KeyAction::ToggleMode
        } else if tools && self.tool_editor.open {
            KeyAction::EditorKey
        } else if code == KeyCode::Up && tools {
            KeyAction::ToolsUp
        } else if code == KeyCode::Down && tools {
            KeyAction::ToolsDown
        } else if no && tools {
            KeyAction::OpenEditor
        } else if (code == KeyCode::Char('d') || code == KeyCode::Char('D') || code
            == KeyCode::Delete) && tools {
            KeyAction::RequestDelete
        } else if code == KeyCode::Enter && tools {
            KeyAction::ReopenDraft
        } else if code == KeyCode::Up && chat {
            KeyAction::ChatUp
        } else if code == KeyCode::Down && chat {
            KeyAction::ChatDown
        } else if sessions || tools {
            KeyAction::Ignore
        } else if code == KeyCode::Left || code == KeyCode::Right || code == KeyCode::Home || code
            == KeyCode::End || code == KeyCode::Delete {
            KeyAction::EditPrompt(code)
        } else {
            match find_binding(key) {
                Some(a) => KeyAction::TextArea(a),
                None => match code {
                    KeyCode::Char(_) => KeyAction::EditPrompt(code),
                    _ => KeyAction::Ignore,
                },
            }
        }
    }

    /// Asks to load the session under the cursor.
    fn open_selected_session(&mut self)
        ensures
            open_session_effect(*old(self), *final(self)),
    {
        if self.sessions_cursor < self.sessions_list.len() {
            let id = self.sessions_list[self.sessions_cursor].id.clone();
            self.sessions_open_pending = Some(id);
        }
    }

    /// Asks to delete the tool under the cursor; built-in tools cannot be.
    fn request_tool_delete(&mut self)
        ensures
            request_delete_effect(*old(self), *final(self)),
    {
        if self.tools_cursor >= self.tools.len() {
            return;
        }
        let item = &self.tools[self.tools_cursor];
        match &item.tool_id {
            None => {
                self.tools_notice = Some(
                    "Built-in tools can't be deleted (compile-time only).".to_owned(),
                );
            },
            Some(id) => {
                let target = PendingToolDelete {
                    tool_id: id.clone(),
                    name: item.descriptor.name.clone(),
                    is_draft: item.availability == ToolAvailability::Draft,
                };
                self.pending_tool_delete = Some(target);
            },
        }
    }

    /// The user's answer to a deletion request, handed out once.
    pub fn take_tool_delete_decision(&mut self) -> (r: Option<(PendingToolDelete, bool)>)
        ensures
            r == old(self).tool_delete_decision,
            *final(self) == (App { tool_delete_decision: None, ..*old(self) }),
    {
        self.tool_delete_decision.take()
    }

    /// Asks to reopen the draft under the cursor.
    fn request_reopen_draft(&mut self)
        ensures
            reopen_request_effect(*old(self), *final(self)),
    {
        if self.tools_cursor >= self.tools.len() {
            return;
        }
        if self.tools[self.tools_cursor].availability != ToolAvailability::Draft {
            return;
        }
        let item = self.tools[self.tools_cursor].duplicate();
        self.pending_reopen_draft = Some(item);
    }

    /// The draft to reopen, handed out once.
    pub fn take_pending_reopen_draft(&mut self) -> (r: Option<ToolDashboardItem>)
        ensures
            r == old(self).pending_reopen_draft,
            *final(self) == (App { pending_reopen_draft: None, ..*old(self) }),
    {
        self.pending_reopen_draft.take()
    }

    /// Opens the tool editor on the description field; an empty argument
    /// field gets `{}` so that its shape shows.
    fn open_tool_editor(&mut self)
        ensures
            open_editor_effect(*old(self), *final(self)),
    {
        self.tools_notice = None;
        self.tool_editor.open = true;
        self.tool_editor.field = Some(ToolEditorField::Description);
        if self.tool_editor.args.is_empty() {
            proof {
                reveal_strlit("{}");
            }
            self.tool_editor.args = TextField::from_initial("{}".to_owned());
        }
    }

    /// The editor action the user asked for, handed out once.
    pub fn take_pending_editor_action(&mut self) -> (r: Option<ToolEditorAction>)
        ensures
            r == old(self).pending_editor_action,
            *final(self) == (App { pending_editor_action: None, ..*old(self) }),
    {
        self.pending_editor_action.take()
    }

    /// A key press while the tool editor is open.
    fn handle_tool_editor_key(&mut self, key: KeyInput)
        ensures
            editor_key_effect(*old(self), *final(self), key),
    {
        if let Some(a) = control_action(key) {
            self.pending_editor_action = Some(a);
            return;
        }
        match key.code {
            KeyCode::Tab => {
                let cycle = self.editor_field_cycle();
                self.tool_editor.field = Some(focus_next(&cycle, self.tool_editor.field));
            },
            KeyCode::BackTab => {
                let cycle = self.editor_field_cycle();
                self.tool_editor.field = Some(focus_prev(&cycle, self.tool_editor.field));
            },
            KeyCode::F(2) => {
                self.tool_editor.language = self.tool_editor.language.toggle();
            },
            KeyCode::Enter => {
                match self.tool_editor.field {
                    Some(ToolEditorField::Script) => self.tool_editor.script.insert_char('\n'),
                    Some(ToolEditorField::Description) => {
                        self.tool_editor.description.insert_char('\n')
                    },
                    _ => {},
                }
            },
            _ => {
                self.editor_field_key(key.code);
            },
        }
    }

    /// The fields that Tab moves through, which depend on where generation
    /// stands.
    fn editor_field_cycle(&self) -> (r: Vec<ToolEditorField>)
        ensures
            r@ == field_cycle(self.tool_editor.generation),
            r@.len() > 0,
    {
        let mut v: Vec<ToolEditorField> = Vec::new();
        match self.tool_editor.generation {
            GenerationState::Idle | GenerationState::Failed(_) => {
                v.push(ToolEditorField::Description);
                v.push(ToolEditorField::InputHint);
                v.push(ToolEditorField::OutputHint);
            },
            GenerationState::Generating => {
                v.push(ToolEditorField::Description);
            },
            GenerationState::Generated => {
                v.push(ToolEditorField::Name);
                v.push(ToolEditorField::Script);
                v.push(ToolEditorField::Args);
            },
        }
        assert(v@ =~= field_cycle(self.tool_editor.generation));
        v
    }

    /// An editing key for the focused field of the editor.
    fn editor_field_key(&mut self, code: KeyCode)
        ensures
            match old(self).tool_editor.field {
                Some(f) => field_edited(*old(self), *final(self), f, code),
                None => *final(self) == *old(self),
            },
    {
        match self.tool_editor.field {
            Some(ToolEditorField::Description) => edit_text(&mut self.tool_editor.description, code),
            Some(ToolEditorField::InputHint) => edit_text(&mut self.tool_editor.input_hint, code),
            Some(ToolEditorField::OutputHint) => edit_text(&mut self.tool_editor.output_hint, code),
            Some(ToolEditorField::Name) => edit_text(&mut self.tool_editor.name, code),
            Some(ToolEditorField::Script) => edit_text(&mut self.tool_editor.script, code),
            Some(ToolEditorField::Args) => edit_text(&mut self.tool_editor.args, code),
            None => {},
        }
    }

    /// Fills the tools dashboard from what the server offers and keeps;
    /// what the client can run comes from its own registry.
    pub fn set_tools_from_server(&mut self, server_tools: Vec<ToolDescriptor>, management: Vec<ToolRow>)
        ensures
            *final(self) == (App {
                tools: final(self).tools,
                tools_cursor: clamped_cursor(old(self).tools_cursor, final(self).tools@.len()),
                tools_loaded: true,
                ..*old(self)
            }),
            exists|local: Seq<ToolDescriptor>|
                #![trigger is_dashboard(final(self).tools@, server_tools@, local, management@)]
                is_registry(local) && is_dashboard(final(self).tools@, server_tools@, local, management@),
    {
        let local = descriptors();
        let items = dashboard_items(&server_tools, &local, &management);
        self.tools = items;
        let last = if self.tools.len() == 0 { 0 } else { self.tools.len() - 1 };
        if self.tools_cursor > last {
            self.tools_cursor = last;
        }
        self.tools_loaded = true;
    }

    /// Shows the client's own tools, none of them known to the server, with
    /// the error that kept the server's list away.
    pub fn set_tools_error(&mut self, message: String)
        ensures
            *final(self) == (App {
                tools: final(self).tools,
                tools_loaded: true,
                tools_notice: Some(message),
                ..*old(self)
            }),
            final(self).tools@.len() == registry_spec().len(),
            forall|i: int| 0 <= i < final(self).tools@.len() ==> {
                let item = #[trigger] final(self).tools@[i];
                &&& describes(item.descriptor, registry_spec()[i])
                &&& item.availability == ToolAvailability::MissingRemotely
                &&& item.tool_id is None
                &&& item.version_id is None
                &&& item.draft_script is None
                &&& item.draft_language is None
            },
    {
        let local = descriptors();
        let mut items: Vec<ToolDashboardItem> = Vec::new();
        let mut i: usize = 0;
        while i < local.len()
            invariant
                local@.len() == registry_spec().len(),
                forall|j: int| 0 <= j < local@.len() ==> describes(#[trigger] local@[j], registry_spec()[j]),
                i <= local.len(),
                items@.len() == i,
                forall|j: int| 0 <= j < i ==> {
                    let item = #[trigger] items@[j];
                    &&& describes(item.descriptor, registry_spec()[j])
                    &&& item.availability == ToolAvailability::MissingRemotely
                    &&& item.tool_id is None
                    &&& item.version_id is None
                    &&& item.draft_script is None
                    &&& item.draft_language is None
                },
            decreases local.len() - i,
        {
            items.push(ToolDashboardItem {
                descriptor: local[i].duplicate(),
                availability: ToolAvailability::MissingRemotely,
                tool_id: None,
                version_id: None,
                draft_script: None,
                draft_language: None,
            });
            i = i + 1;
        }
        self.tools = items;
        self.tools_loaded = true;
        self.tools_notice = Some(message);
    }

    /// Opens a draft in the editor, ready to be reviewed and registered; an
    /// item that is no draft changes nothing.
    pub fn reopen_draft(&mut self, item: ToolDashboardItem)
        ensures
            match (item.version_id, item.draft_script, item.draft_language) {
                (Some(v), Some(script), Some(language)) => {
                    let e = final(self).tool_editor;
                    &&& *final(self) == (App {
                        tools_notice: None,
                        tool_editor: ToolEditor {
                            open: true,
                            field: Some(ToolEditorField::Script),
                            language: editor_language(language),
                            last_draft_version_id: Some(v),
                            last_result: None,
                            generation: GenerationState::Generated,
                            description: e.description,
                            input_hint: e.input_hint,
                            output_hint: e.output_hint,
                            name: e.name,
                            script: e.script,
                            args: e.args,
                            generation_log: e.generation_log,
                            ..old(self).tool_editor
                        },
                        ..*old(self)
                    })
                    &&& e.description@ == (Seq::<char>::empty(), 0nat)
                    &&& e.input_hint@ == (Seq::<char>::empty(), 0nat)
                    &&& e.output_hint@ == (Seq::<char>::empty(), 0nat)
                    &&& e.name@ == (item.descriptor.name@, item.descriptor.name@.len())
                    &&& e.script@ == (script@, script@.len())
                    &&& e.args@ == ("{}"@, 2nat)
                    &&& e.generation_log@.len() == 0
                },
                _ => *final(self) == *old(self),
            },
    {
        match (item.version_id, item.draft_script, item.draft_language) {
            (Some(version_id), Some(script), Some(language)) => {
                proof {
                    reveal_strlit("{}");
                }
                self.tools_notice = None;
                self.tool_editor.open = true;
                self.tool_editor.description = TextField::default();
                self.tool_editor.input_hint = TextField::default();
                self.tool_editor.output_hint = TextField::default();
                self.tool_editor.name = TextField::from_initial(item.descriptor.name);
                self.tool_editor.script = TextField::from_initial(script);
                self.tool_editor.args = TextField::from_initial("{}".to_owned());
                self.tool_editor.language = editor_language_of(language);
                self.tool_editor.last_draft_version_id = Some(version_id);
                self.tool_editor.last_result = None;
                self.tool_editor.generation = GenerationState::Generated;
                self.tool_editor.generation_log.clear();
                self.tool_editor.field = Some(ToolEditorField::Script);
            },
            _ => {},
        }
    }

    pub fn set_editor_result(&mut self, result: ToolEditorResult)
        ensures
            *final(self) == (App {
                tool_editor: ToolEditor { last_result: Some(result), ..old(self).tool_editor },
                ..*old(self)
            }),
    {
        self.tool_editor.last_result = Some(result);
    }

    pub fn set_last_draft_version_id(&mut self, version_id: String)
        ensures
            *final(self) == (App {
                tool_editor: ToolEditor {
                    last_draft_version_id: Some(version_id),
                    ..old(self).tool_editor
                },
                ..*old(self)
            }),
    {
        self.tool_editor.last_draft_version_id = Some(version_id);
    }

    pub fn set_generation_state(&mut self, state: GenerationState)
        ensures
            *final(self) == (App {
                tool_editor: ToolEditor { generation: state, ..old(self).tool_editor },
                ..*old(self)
            }),
    {
        self.tool_editor.generation = state;
    }

    /// Adds a line to the generation log, which keeps the last 80 lines;
    /// an empty line is not added.
    pub fn push_generation_log(&mut self, line: String)
        ensures
            line@.len() == 0 ==> *final(self) == *old(self),
            line@.len() > 0 ==> {
                &&& *final(self) == (App {
                    tool_editor: ToolEditor {
                        generation_log: final(self).tool_editor.generation_log,
                        ..old(self).tool_editor
                    },
                    ..*old(self)
                })
                &&& final(self).tool_editor.generation_log@ == bounded_log(
                    old(self).tool_editor.generation_log@.push(line),
                )
            },
    {
        if line.as_str().is_empty() {
            return;
        }
        self.tool_editor.generation_log.push(line);
        let len = self.tool_editor.generation_log.len();
        if len > GENERATION_LOG_LINES {
            let overflow = len - GENERATION_LOG_LINES;
            let mut kept: Vec<String> = Vec::new();
            let mut i: usize = overflow;
            while i < len
                invariant
                    len == self.tool_editor.generation_log@.len(),
                    overflow <= i <= len,
                    kept@ == self.tool_editor.generation_log@.subrange(overflow as int, i as int),
                decreases len - i,
            {
                kept.push(self.tool_editor.generation_log[i].clone());
                i = i + 1;
                assert(kept@ =~= self.tool_editor.generation_log@.subrange(overflow as int, i as int));
            }
            assert(kept@ =~= self.tool_editor.generation_log@.skip(overflow as int));
            self.tool_editor.generation_log = kept;
        }
    }

    pub fn clear_generation_log(&mut self)
        ensures
            *final(self) == (App {
                tool_editor: ToolEditor {
                    generation_log: final(self).tool_editor.generation_log,
                    ..old(self).tool_editor
                },
                ..*old(self)
            }),
            final(self).tool_editor.generation_log@.len() == 0,
    {
        self.tool_editor.generation_log.clear();
    }

    /// Loads a tool that the model authored into the editor: its name,
    /// script and language, and as arguments the schema's example (or an
    /// empty object), written as JSON.
    pub fn apply_author_done(
        &mut self,
        version_id: String,
        name: String,
        language: ToolScriptLanguage,
        script: String,
        args_schema: Value,
    )
        ensures
            ({
                let e = final(self).tool_editor;
                &&& *final(self) == (App {
                    tool_editor: ToolEditor {
                        name: e.name,
                        script: e.script,
                        args: e.args,
                        language: editor_language(language),
                        last_draft_version_id: Some(version_id),
                        generation: GenerationState::Generated,
                        field: Some(ToolEditorField::Script),
                        ..old(self).tool_editor
                    },
                    ..*old(self)
                })
                &&& e.name@ == (name@, name@.len())
                &&& e.script@ == (script@, script@.len())
                &&& e.args@ == (example_text(args_schema), example_text(args_schema).len())
            }),
    {
        self.tool_editor.name = TextField::from_initial(name);
        self.tool_editor.script = TextField::from_initial(script);
        self.tool_editor.language = editor_language_of(language);
        let example = match json_field(&args_schema, "example") {
            Some(v) => v,
            None => json_object(Vec::new()),
        };
        proof {
            assert(crate::json::entry_views(Seq::<(String, Value)>::empty()) =~= Seq::<(Seq<char>, Value)>::empty());
        }
        let text = match json_to_string(&example) {
            Some(t) => t,
            None => "{}".to_owned(),
        };
        self.tool_editor.args = TextField::from_initial(text);
        self.tool_editor.last_draft_version_id = Some(version_id);
        self.tool_editor.generation = GenerationState::Generated;
        self.tool_editor.field = Some(ToolEditorField::Script);
    }

    /// The editor's contents as sent to the server: the name and the three
    /// request fields trimmed, the script and the arguments as typed.
    pub fn editor_snapshot(&self) -> (r: ToolEditorSnapshot)
        ensures
            r.name@ == trimmed(self.tool_editor.name@.0),
            r.language == self.tool_editor.language.to_protocol_spec(),
            r.script@ == self.tool_editor.script@.0,
            r.args@ == self.tool_editor.args@.0,
            r.last_draft_version_id == self.tool_editor.last_draft_version_id,
            r.description@ == trimmed(self.tool_editor.description@.0),
            r.input_hint@ == trimmed(self.tool_editor.input_hint@.0),
            r.output_hint@ == trimmed(self.tool_editor.output_hint@.0),
    {
        ToolEditorSnapshot {
            name: trim_str(self.tool_editor.name.as_str()),
            language: self.tool_editor.language.to_protocol(),
            script: self.tool_editor.script.as_str().to_owned(),
            args: self.tool_editor.args.as_str().to_owned(),
            last_draft_version_id: clone_opt_string(&self.tool_editor.last_draft_version_id),
            description: trim_str(self.tool_editor.description.as_str()),
            input_hint: trim_str(self.tool_editor.input_hint.as_str()),
            output_hint: trim_str(self.tool_editor.output_hint.as_str()),
        }
    }

    /// Shows a session whose messages the server sent, titled as in the
    /// sessions list.
    pub fn open_loaded_session(&mut self, id: &str, messages: Vec<UiMessage>)
        ensures
            *final(self) == (App {
                active_session: final(self).active_session,
                chat_stream: ChatStream::Idle,
                stream_id: None,
                stream_secret: None,
                stream_mode: None,
                pending_tool_approval: None,
                approval_decision: None,
                chat_scroll: u16::MAX,
                route: Route::Chat,
                sessions_open_pending: None,
                ..*old(self)
            }),
            final(self).active_session matches Some(s) && s.id@ == id@ && s.title@ == listed_title(
                old(self).sessions_list@,
                id@,
            ) && s.messages == messages,
    {
        let title = find_title(&self.sessions_list, id);
        self.active_session = Some(Session { id: id.to_owned(), title, messages });
        self.chat_stream = ChatStream::Idle;
        self.stream_id = None;
        self.stream_secret = None;
        self.stream_mode = None;
        self.pending_tool_approval = None;
        self.approval_decision = None;
        self.chat_scroll = u16::MAX;
        self.route = Route::Chat;
        self.sessions_open_pending = None;
    }
}

impl Default for App {
    fn default() -> (r: Self)
        ensures
            r.route is Home,
            r.input@ == (Seq::<char>::empty(), 0nat),
            r.active_mode == AgentMode::Build,
            r.active_session is None,
            r.chat_stream is Idle,
            r.stream_mode is None,
            r.chat_scroll == 0,
            r.stream_id is None,
            r.stream_secret is None,
            r.pending_tool_approval is None,
            r.approval_decision is None,
            r.sessions_list@.len() == 0,
            !r.sessions_loaded,
            r.sessions_cursor == 0,
            r.sessions_scroll == 0,
            r.sessions_open_pending is None,
            r.tools@.len() == 0,
            !r.tools_loaded,
            r.tools_cursor == 0,
            r.tools_notice is None,
            !r.tool_editor.open,
            r.tool_editor.field is None,
            r.tool_editor.args@.0.len() == 0,
            r.tool_editor.generation is Idle,
            r.tool_editor.generation_log@.len() == 0,
            r.pending_editor_action is None,
            r.pending_tool_delete is None,
            r.tool_delete_decision is None,
            r.pending_reopen_draft is None,
    {
        App {
            route: Route::Home,
            input: TextField::default(),
            active_mode: AgentMode::Build,
            active_session: None,
            chat_stream: ChatStream::Idle,
            stream_mode: None,
            chat_scroll: 0,
            stream_id: None,
            stream_secret: None,
            pending_tool_approval: None,
            approval_decision: None,
            sessions_list: Vec::new(),
            sessions_loaded: false,
            sessions_cursor: 0,
            sessions_scroll: 0,
            sessions_open_pending: None,
            tools: Vec::new(),
            tools_loaded: false,
            tools_cursor: 0,
            tools_notice: None,
            tool_editor: ToolEditor::default(),
            pending_editor_action: None,
            pending_tool_delete: None,
            tool_delete_decision: None,
            pending_reopen_draft: None,
        }
    }
}

/// The most lines the generation log keeps.
pub const GENERATION_LOG_LINES: usize = 80;

/// The last `GENERATION_LOG_LINES` lines of a log.
pub open spec fn bounded_log(log: Seq<String>) -> Seq<String> {
    if log.len() > GENERATION_LOG_LINES {
        log.skip(log.len() - GENERATION_LOG_LINES)
    } else {
        log
    }
}

/// The list cursor kept within a list of `len` rows.
pub open spec fn clamped_cursor(c: usize, len: nat) -> usize {
    let last: int = if len == 0 { 0 } else { len - 1 };
    if c > last { last as usize } else { c }
}

/// `local` is what the client's tool registry describes, one descriptor per
/// registered tool in order.
pub open spec fn is_registry(local: Seq<ToolDescriptor>) -> bool {
    &&& local.len() == registry_spec().len()
    &&& forall|i: int| 0 <= i < local.len() ==> describes(#[trigger] local[i], registry_spec()[i])
}

/// The arguments the editor starts from for an authored tool: the JSON text
/// of the schema's `example` member, or of an empty object; `{}` should
/// writing fail.
pub open spec fn example_text(schema: Value) -> Seq<char> {
    let v = match json_member(schema, "example"@) {
        Some(e) => e,
        None => json_object_value(Seq::empty()),
    };
    match json_text(v) {
        Some(t) => t,
        None => "{}"@,
    }
}

fn find_title(list: &Vec<SessionSummary>, id: &str) -> (r: String)
    ensures
        r@ == listed_title(list@, id@),
{
    let mut i: usize = 0;
    assert(list@.skip(0) =~= list@);
    while i < list.len()
        invariant
            i <= list@.len(),
            listed_title(list@, id@) == listed_title(list@.skip(i as int), id@),
        decreases list.len() - i,
    {
        assert(list@.skip(i as int)[0] == list@[i as int]);
        if str_eq(list[i].id.as_str(), id) {
            return list[i].title.clone();
        }
        assert(list@.skip(i as int).drop_first() =~= list@.skip(i + 1));
        i = i + 1;
    }
    String::new()
}

/// The title of the first listed session with the given id, or nothing.
pub open spec fn listed_title(list: Seq<SessionSummary>, id: Seq<char>) -> Seq<char>
    decreases list.len(),
{
    if list.len() == 0 {
        Seq::empty()
    } else if list[0].id@ == id {
        list[0].title@
    } else {
        listed_title(list.drop_first(), id)
    }
}

/// Whether a prompt is a `/command`.
pub open spec fn is_command(prompt: Seq<char>) -> bool {
    prompt.len() > 0 && prompt[0] == '/'
}

/// `s` without the copies of `c` at its end.
pub open spec fn trim_end_char(s: Seq<char>, c: char) -> Seq<char>
    decreases s.len(),
{
    if s.len() > 0 && s.last() == c {
        trim_end_char(s.drop_last(), c)
    } else {
        s
    }
}

/// `char::to_ascii_lowercase`.
pub open spec fn ascii_lower(c: char) -> char {
    if 'A' <= c <= 'Z' {
        ((c as u32) + 32) as char
    } else {
        c
    }
}

/// `str::to_ascii_lowercase`.
pub open spec fn lower_ascii(s: Seq<char>) -> Seq<char> {
    s.map_values(|c: char| ascii_lower(c))
}

/// `char::to_ascii_lowercase`.
pub fn to_ascii_lower(c: char) -> (r: char)
    ensures
        r == ascii_lower(c),
{
    if 'A' <= c && c <= 'Z' {
        let b: u8 = c as u8;
        (b + 32) as char
    } else {
        c
    }
}

/// The word a `/command` names: what follows the `/`, without trailing
/// slashes, in lowercase.
pub open spec fn command_word(prompt: Seq<char>) -> Seq<char> {
    lower_ascii(trim_end_char(prompt.drop_first(), '/'))
}

/// What a `/command` does: `/home`, `/sessions` and `/tools` open their
/// page (the list at its top, the editor closed); any other command shows
/// the missing page for it. The prompt input is left as it is.
pub open spec fn route_command_effect(old: App, new: App, prompt: Seq<char>) -> bool {
    let word = command_word(prompt);
    if word == "home"@ {
        new == (App { route: Route::Home, input: new.input, ..old })
    } else if word == "sessions"@ {
        new == (App {
            sessions_cursor: 0,
            sessions_scroll: 0,
            route: Route::Sessions,
            input: new.input,
            ..old
        })
    } else if word == "tools"@ {
        new == (App {
            tools_cursor: 0,
            tool_editor: ToolEditor { open: false, field: None, ..old.tool_editor },
            route: Route::Tools,
            input: new.input,
            ..old
        })
    } else {
        &&& new == (App { route: new.route, input: new.input, ..old })
        &&& new.route matches Route::Missing(m)
        &&& m@ == prompt
    }
}

/// What sending the prompt does, with `now_ms` the time of sending.
pub open spec fn submit_effect(old: App, new: App, now_ms: u128) -> bool {
    let prompt = trimmed(old.input@.0);
    if prompt.len() == 0 {
        new == old
    } else if is_command(prompt) {
        route_command_effect(old, new, prompt) && new.input@ == (Seq::<char>::empty(), 0nat)
    } else if !(old.chat_stream is Idle) {
        new == (App { input: new.input, ..old }) && new.input@ == (Seq::<char>::empty(), 0nat)
    } else if old.route is Chat {
        &&& new == (App { chat_stream: new.chat_stream, chat_scroll: u16::MAX, input: new.input, ..old })
        &&& new.chat_stream matches ChatStream::Pending(p)
        &&& p@ == prompt
        &&& new.input@ == (Seq::<char>::empty(), 0nat)
    } else {
        &&& new == (App {
            active_session: new.active_session,
            chat_stream: new.chat_stream,
            route: Route::Chat,
            chat_scroll: u16::MAX,
            input: new.input,
            ..old
        })
        &&& new.active_session matches Some(s)
        &&& s.id@ == hex16(now_ms as nat)
        &&& s.title@ == title_of(prompt)
        &&& s.messages@.len() == 0
        &&& new.chat_stream matches ChatStream::Pending(p)
        &&& p@ == prompt
        &&& new.input@ == (Seq::<char>::empty(), 0nat)
    }
}

/// What a key bound in the prompt does.
#[derive(Clone, Copy, Debug, PartialEq, Eq, Structural)]
pub enum TextAreaAction {
    Submit,
    InsertNewline,
    Backspace,
}

/// A key of the prompt and what it does.
pub struct TextAreaKeyBinding {
    pub name: &'static str,
    pub code: KeyCode,
    pub modifiers: u8,
    pub action: TextAreaAction,
}

pub open spec fn binding_view(b: TextAreaKeyBinding) -> (Seq<char>, KeyCode, u8, TextAreaAction) {
    (b.name@, b.code, b.modifiers, b.action)
}

/// The prompt's key bindings, in the order they are tried: return sends,
/// Ctrl+return and Alt+return start a new line, backspace deletes.
pub open spec fn binding_table() -> Seq<(Seq<char>, KeyCode, u8, TextAreaAction)> {
    seq![
        ("return"@, KeyCode::Enter, MOD_NONE, TextAreaAction::Submit),
        ("return"@, KeyCode::Enter, MOD_CONTROL, TextAreaAction::InsertNewline),
        ("return"@, KeyCode::Enter, MOD_ALT, TextAreaAction::InsertNewline),
        ("backspace"@, KeyCode::Backspace, MOD_NONE, TextAreaAction::Backspace),
    ]
}

pub fn text_area_bindings() -> (r: Vec<TextAreaKeyBinding>)
    ensures
        r@.map_values(|b: TextAreaKeyBinding| binding_view(b)) == binding_table(),
{
    let mut v: Vec<TextAreaKeyBinding> = Vec::new();
    v.push(TextAreaKeyBinding { name: "return", code: KeyCode::Enter, modifiers: MOD_NONE, action: TextAreaAction::Submit });
    v.push(TextAreaKeyBinding { name: "return", code: KeyCode::Enter, modifiers: MOD_CONTROL, action: TextAreaAction::InsertNewline });
    v.push(TextAreaKeyBinding { name: "return", code: KeyCode::Enter, modifiers: MOD_ALT, action: TextAreaAction::InsertNewline });
    v.push(TextAreaKeyBinding { name: "backspace", code: KeyCode::Backspace, modifiers: MOD_NONE, action: TextAreaAction::Backspace });
    assert(v@.map_values(|b: TextAreaKeyBinding| binding_view(b)) =~= binding_table());
    v
}

/// The action of the first binding that the key matches exactly (same key,
/// same modifiers).
pub open spec fn first_binding(t: Seq<(Seq<char>, KeyCode, u8, TextAreaAction)>, key: KeyInput) -> Option<TextAreaAction>
    decreases t.len(),
{
    if t.len() == 0 {
        None
    } else if t[0].1 == key.code && t[0].2 == key.modifiers {
        Some(t[0].3)
    } else {
        first_binding(t.drop_first(), key)
    }
}

/// What a key does in the prompt, if it is bound there.
pub open spec fn binding_action(key: KeyInput) -> Option<TextAreaAction> {
    first_binding(binding_table(), key)
}

fn find_binding(key: KeyInput) -> (r: Option<TextAreaAction>)
    ensures
        r == binding_action(key),
{
    let table = text_area_bindings();
    let ghost t = binding_table();
    let mut i: usize = 0;
    assert(t.skip(0) =~= t);
    while i < table.len()
        invariant
            table@.map_values(|b: TextAreaKeyBinding| binding_view(b)) == t,
            t == binding_table(),
            i <= table.len(),
            first_binding(t, key) == first_binding(t.skip(i as int), key),
        decreases table.len() - i,
    {
        assert(binding_view(table@[i as int]) == t[i as int]);
        assert(t.skip(i as int)[0] == t[i as int]);
        if table[i].code == key.code && table[i].modifiers == key.modifiers {
            return Some(table[i].action);
        }
        assert(t.skip(i as int).drop_first() =~= t.skip(i + 1));
        i = i + 1;
    }
    None
}

/// How a binding is named: `Ctrl+` or `Alt+` before the key's name when
/// that modifier is its whole set.
pub open spec fn display_name(name: Seq<char>, modifiers: u8) -> Seq<char> {
    if modifiers == MOD_CONTROL {
        "Ctrl+"@ + name
    } else if modifiers == MOD_ALT {
        "Alt+"@ + name
    } else {
        name
    }
}

/// The names of the bindings of the first `n` rows that do `action`.
pub open spec fn names_in(t: Seq<(Seq<char>, KeyCode, u8, TextAreaAction)>, action: TextAreaAction) -> Seq<Seq<char>>
    decreases t.len(),
{
    if t.len() == 0 {
        Seq::empty()
    } else {
        let before = names_in(t.drop_last(), action);
        if t.last().3 == action {
            before.push(display_name(t.last().0, t.last().2))
        } else {
            before
        }
    }
}

/// The names of the keys bound to `action`, in table order.
pub open spec fn binding_names(action: TextAreaAction) -> Seq<Seq<char>> {
    names_in(binding_table(), action)
}

pub fn key_binding_names(action: TextAreaAction) -> (r: Vec<String>)
    ensures
        string_views(r@) == binding_names(action),
{
    let table = text_area_bindings();
    let ghost t = binding_table();
    let mut out: Vec<String> = Vec::new();
    let mut i: usize = 0;
    assert(t.take(0) =~= Seq::<(Seq<char>, KeyCode, u8, TextAreaAction)>::empty());
    while i < table.len()
        invariant
            table@.map_values(|b: TextAreaKeyBinding| binding_view(b)) == t,
            i <= table.len(),
            string_views(out@) == names_in(t.take(i as int), action),
        decreases table.len() - i,
    {
        assert(binding_view(table@[i as int]) == t[i as int]);
        assert(t.take(i + 1).drop_last() =~= t.take(i as int));
        if table[i].action == action {
            let name = binding_display_name(&table[i]);
            let ghost before = out@;
            out.push(name);
            assert(string_views(out@) =~= string_views(before).push(name@));
        }
        i = i + 1;
    }
    assert(t.take(table.len() as int) =~= t);
    out
}

fn binding_display_name(b: &TextAreaKeyBinding) -> (r: String)
    ensures
        r@ == display_name(b.name@, b.modifiers),
{
    if b.modifiers == MOD_CONTROL {
        let mut r = "Ctrl+".to_owned();
        r.append(b.name);
        r
    } else if b.modifiers == MOD_ALT {
        let mut r = "Alt+".to_owned();
        r.append(b.name);
        r
    } else {
        b.name.to_owned()
    }
}

/// The strings put end to end with `sep` between them.
pub open spec fn join_names(parts: Seq<Seq<char>>, sep: Seq<char>) -> Seq<char>
    decreases parts.len(),
{
    if parts.len() == 0 {
        Seq::empty()
    } else if parts.len() == 1 {
        parts[0]
    } else {
        join_names(parts.drop_last(), sep) + sep + parts.last()
    }
}

/// `slice::join` on strings.
pub fn join_strings(parts: &Vec<String>, sep: &str) -> (r: String)
    ensures
        r@ == join_names(string_views(parts@), sep@),
{
    let mut out = String::new();
    let mut i: usize = 0;
    while i < parts.len()
        invariant
            i <= parts.len(),
            out@ == join_names(string_views(parts@.take(i as int)), sep@),
        decreases parts.len() - i,
    {
        assert(string_views(parts@.take(i + 1)).drop_last() =~= string_views(parts@.take(i as int)));
        if i > 0 {
            out.append(sep);
        } else {
            assert(string_views(parts@.take(1)) =~= seq![parts@[0]@]);
        }
        out.append(parts[i].as_str());
        i = i + 1;
    }
    assert(parts@.take(parts.len() as int) =~= parts@);
    out
}

/// What a key press does, before it is done.
#[derive(Clone, Copy, Debug, PartialEq, Eq, Structural)]
pub enum KeyAction {
    GoHome,
    CancelDelete,
    CloseEditor,
    Quit,
    DecideDelete(bool),
    DecideApproval(bool),
    SessionsUp,
    SessionsDown,
    OpenSession,
    ToggleMode,
    EditorKey,
    ToolsUp,
    ToolsDown,
    OpenEditor,
    RequestDelete,
    ReopenDraft,
    ChatUp,
    ChatDown,
    EditPrompt(KeyCode),
    TextArea(TextAreaAction),
    Ignore,
}

/// Which branch a key press takes, tried in order: Esc backs out of the
/// sessions page, a pending deletion, the editor and the tools page, and
/// quits elsewhere; Ctrl+C quits; y and n answer a pending deletion, then a
/// pending approval; the arrows and Enter work the sessions and tools lists
/// and scroll the chat; Shift+Tab switches the mode when no turn is under
/// way; the open editor takes every other key on the tools page; on the
/// pages with a prompt the remaining keys edit it.
pub open spec fn key_action(app: App, key: KeyInput) -> KeyAction {
    let code = key.code;
    let sessions = app.route is Sessions;
    let tools = app.route is Tools;
    let chat = app.route is Chat;
    let home = app.route is Home;
    let yes = code == KeyCode::Char('y') || code == KeyCode::Char('Y');
    let no = code == KeyCode::Char('n') || code == KeyCode::Char('N');
    let deleting = app.pending_tool_delete is Some;
    let approving = app.pending_tool_approval is Some;
    if code == KeyCode::Esc && sessions {
        KeyAction::GoHome
    } else if code == KeyCode::Esc && deleting {
        KeyAction::CancelDelete
    } else if code == KeyCode::Esc && tools && app.tool_editor.open {
        KeyAction::CloseEditor
    } else if code == KeyCode::Esc && tools {
        KeyAction::GoHome
    } else if code == KeyCode::Esc {
        KeyAction::Quit
    } else if code == KeyCode::Char('c') && has_control(key.modifiers) {
        KeyAction::Quit
    } else if yes && deleting {
        KeyAction::DecideDelete(true)
    } else if no && deleting {
        KeyAction::DecideDelete(false)
    } else if yes && approving {
        KeyAction::DecideApproval(true)
    } else if no && approving {
        KeyAction::DecideApproval(false)
    } else if code == KeyCode::Up && sessions {
        KeyAction::SessionsUp
    } else if code == KeyCode::Down && sessions {
        KeyAction::SessionsDown
    } else if code == KeyCode::Enter && sessions {
        KeyAction::OpenSession
    } else if code == KeyCode::BackTab && (home || chat) && app.chat_stream is Idle {
        KeyAction::ToggleMode
    } else if tools && app.tool_editor.open {
        KeyAction::EditorKey
    } else if code == KeyCode::Up && tools {
        KeyAction::ToolsUp
    } else if code == KeyCode::Down && tools {
        KeyAction::ToolsDown
    } else if no && tools {
        KeyAction::OpenEditor
    } else if (code == KeyCode::Char('d') || code == KeyCode::Char('D') || code == KeyCode::Delete)
        && tools {
        KeyAction::RequestDelete
    } else if code == KeyCode::Enter && tools {
        KeyAction::ReopenDraft
    } else if code == KeyCode::Up && chat {
        KeyAction::ChatUp
    } else if code == KeyCode::Down && chat {
        KeyAction::ChatDown
    } else if sessions || tools {
        KeyAction::Ignore
    } else if code == KeyCode::Left || code == KeyCode::Right || code == KeyCode::Home || code
        == KeyCode::End || code == KeyCode::Delete {
        KeyAction::EditPrompt(code)
    } else {
        match binding_action(key) {
            Some(a) => KeyAction::TextArea(a),
            None => if code is Char {
                KeyAction::EditPrompt(code)
            } else {
                KeyAction::Ignore
            },
        }
    }
}

/// A list cursor moved up, stopping at the top.
pub open spec fn cursor_moved_up(c: usize) -> usize {
    if c == 0 { 0 } else { (c - 1) as usize }
}

/// A list cursor moved down in a list of `len` rows, stopping at the last
/// row (or at the top of an empty list).
pub open spec fn cursor_moved_down(c: usize, len: nat) -> usize {
    let last: int = if len == 0 { 0 } else { len - 1 };
    if c + 1 <= last { (c + 1) as usize } else { last as usize }
}

fn cursor_up(c: usize) -> (r: usize)
    ensures
        r == cursor_moved_up(c),
{
    if c == 0 { 0 } else { c - 1 }
}

fn cursor_down(c: usize, len: usize) -> (r: usize)
    ensures
        r == cursor_moved_down(c, len as nat),
{
    let last: usize = if len == 0 { 0 } else { len - 1 };
    if c < last { c + 1 } else { last }
}

/// A text field after an editing key.
pub open spec fn edited(t: (Seq<char>, nat), code: KeyCode) -> (Seq<char>, nat) {
    match code {
        KeyCode::Backspace => if t.1 == 0 { t } else { (t.0.remove(t.1 - 1), (t.1 - 1) as nat) },
        KeyCode::Delete => if t.1 >= t.0.len() { t } else { (t.0.remove(t.1 as int), t.1) },
        KeyCode::Left => (t.0, if t.1 == 0 { 0 } else { (t.1 - 1) as nat }),
        KeyCode::Right => (t.0, if t.1 >= t.0.len() { t.1 } else { t.1 + 1 }),
        KeyCode::Home => (t.0, line_start(t.0, t.1 as int) as nat),
        KeyCode::End => (t.0, line_end(t.0, t.1 as int) as nat),
        KeyCode::Char(c) => (spec_insert(t.0, t.1 as int, c), t.1 + 1),
        _ => t,
    }
}

fn edit_text(t: &mut TextField, code: KeyCode)
    ensures
        final(t)@ == edited(old(t)@, code),
{
    match code {
        KeyCode::Backspace => t.backspace(),
        KeyCode::Delete => t.delete_forward(),
        KeyCode::Left => t.move_left(),
        KeyCode::Right => t.move_right(),
        KeyCode::Home => t.move_home(),
        KeyCode::End => t.move_end(),
        KeyCode::Char(c) => t.insert_char(c),
        _ => {},
    }
}

/// The text of one field of the editor.
pub open spec fn field_text(e: ToolEditor, f: ToolEditorField) -> TextField {
    match f {
        ToolEditorField::Description => e.description,
        ToolEditorField::InputHint => e.input_hint,
        ToolEditorField::OutputHint => e.output_hint,
        ToolEditorField::Name => e.name,
        ToolEditorField::Script => e.script,
        ToolEditorField::Args => e.args,
    }
}

/// The editor with one field's text replaced.
pub open spec fn with_field_text(e: ToolEditor, f: ToolEditorField, t: TextField) -> ToolEditor {
    match f {
        ToolEditorField::Description => ToolEditor { description: t, ..e },
        ToolEditorField::InputHint => ToolEditor { input_hint: t, ..e },
        ToolEditorField::OutputHint => ToolEditor { output_hint: t, ..e },
        ToolEditorField::Name => ToolEditor { name: t, ..e },
        ToolEditorField::Script => ToolEditor { script: t, ..e },
        ToolEditorField::Args => ToolEditor { args: t, ..e },
    }
}

/// Only the text of field `f` changed, by the editing key `code`.
pub open spec fn field_edited(old: App, new: App, f: ToolEditorField, code: KeyCode) -> bool {
    &&& new == (App {
        tool_editor: with_field_text(old.tool_editor, f, field_text(new.tool_editor, f)),
        ..old
    })
    &&& field_text(new.tool_editor, f)@ == edited(field_text(old.tool_editor, f)@, code)
}

/// The fields Tab moves through: the request's fields before a tool is
/// generated, only the description while it is, the tool's fields after.
pub open spec fn field_cycle(g: GenerationState) -> Seq<ToolEditorField> {
    match g {
        GenerationState::Idle | GenerationState::Failed(_) => seq![
            ToolEditorField::Description,
            ToolEditorField::InputHint,
            ToolEditorField::OutputHint,
        ],
        GenerationState::Generating => seq![ToolEditorField::Description],
        GenerationState::Generated => seq![
            ToolEditorField::Name,
            ToolEditorField::Script,
            ToolEditorField::Args,
        ],
    }
}

/// Index of the first `f` in `cycle`, or its length.
pub open spec fn position_of(cycle: Seq<ToolEditorField>, f: ToolEditorField) -> int
    decreases cycle.len(),
{
    if cycle.len() == 0 {
        0
    } else if cycle[0] == f {
        0
    } else {
        1 + position_of(cycle.drop_first(), f)
    }
}

/// The field after `cur` in the cycle, going round from the last to the
/// first; the first field when `cur` is not in it.
pub open spec fn next_field(cycle: Seq<ToolEditorField>, cur: Option<ToolEditorField>) -> ToolEditorField {
    match cur {
        Some(f) => {
            let i = position_of(cycle, f);
            if i + 1 < cycle.len() { cycle[i + 1] } else { cycle[0] }
        },
        None => cycle[0],
    }
}

/// The field before `cur` in the cycle, going round from the first to the
/// last; the last field when `cur` is not in it.
pub open spec fn prev_field(cycle: Seq<ToolEditorField>, cur: Option<ToolEditorField>) -> ToolEditorField {
    match cur {
        Some(f) => {
            let i = position_of(cycle, f);
            if 0 < i < cycle.len() {
                cycle[i - 1]
            } else {
                cycle[cycle.len() - 1]
            }
        },
        None => cycle[cycle.len() - 1],
    }
}

proof fn lemma_position_bound(cycle: Seq<ToolEditorField>, f: ToolEditorField)
    ensures
        0 <= position_of(cycle, f) <= cycle.len(),
        position_of(cycle, f) < cycle.len() ==> cycle[position_of(cycle, f)] == f,
        forall|j: int| 0 <= j < position_of(cycle, f) ==> cycle[j] != f,
    decreases cycle.len(),
{
    if cycle.len() > 0 && cycle[0] != f {
        lemma_position_bound(cycle.drop_first(), f);
        assert forall|j: int| 0 <= j < position_of(cycle, f) implies cycle[j] != f by {
            if j > 0 {
                assert(cycle[j] == cycle.drop_first()[j - 1]);
            }
        }
    }
}

fn position_in(cycle: &Vec<ToolEditorField>, f: ToolEditorField) -> (r: usize)
    ensures
        r == position_of(cycle@, f),
{
    proof {
        lemma_position_bound(cycle@, f);
    }
    let mut i: usize = 0;
    while i < cycle.len()
        invariant
            i <= cycle.len(),
            i <= position_of(cycle@, f),
            0 <= position_of(cycle@, f) <= cycle@.len(),
            position_of(cycle@, f) < cycle@.len() ==> cycle@[position_of(cycle@, f)] == f,
            forall|j: int| 0 <= j < position_of(cycle@, f) ==> cycle@[j] != f,
        decreases cycle.len() - i,
    {
        if cycle[i] == f {
            return i;
        }
        i = i + 1;
    }
    i
}

fn focus_next(cycle: &Vec<ToolEditorField>, cur: Option<ToolEditorField>) -> (r: ToolEditorField)
    requires
        cycle@.len() > 0,
    ensures
        r == next_field(cycle@, cur),
{
    match cur {
        Some(f) => {
            let i = position_in(cycle, f);
            if i < cycle.len() && i + 1 < cycle.len() {
                cycle[i + 1]
            } else {
                cycle[0]
            }
        },
        None => cycle[0],
    }
}

fn focus_prev(cycle: &Vec<ToolEditorField>, cur: Option<ToolEditorField>) -> (r: ToolEditorField)
    requires
        cycle@.len() > 0,
    ensures
        r == prev_field(cycle@, cur),
{
    let len = cycle.len();
    match cur {
        Some(f) => {
            let i = position_in(cycle, f);
            if 0 < i && i < len {
                cycle[i - 1]
            } else {
                cycle[len - 1]
            }
        },
        None => cycle[len - 1],
    }
}

/// The editor action that a Control key asks for: Ctrl+G generates, Ctrl+R
/// runs, Ctrl+S saves a draft and Ctrl+P registers (either case).
pub open spec fn control_action_of(key: KeyInput) -> Option<ToolEditorAction> {
    if !has_control(key.modifiers) {
        None
    } else {
        match key.code {
            KeyCode::Char(c) => if c == 'g' || c == 'G' {
                Some(ToolEditorAction::Generate)
            } else if c == 'r' || c == 'R' {
                Some(ToolEditorAction::Run)
            } else if c == 's' || c == 'S' {
                Some(ToolEditorAction::SaveDraft)
            } else if c == 'p' || c == 'P' {
                Some(ToolEditorAction::Register)
            } else {
                None
            },
            _ => None,
        }
    }
}

fn control_action(key: KeyInput) -> (r: Option<ToolEditorAction>)
    ensures
        r == control_action_of(key),
{
    if key.modifiers & MOD_CONTROL == 0 {
        return None;
    }
    match key.code {
        KeyCode::Char(c) => if c == 'g' || c == 'G' {
            Some(ToolEditorAction::Generate)
        } else if c == 'r' || c == 'R' {
            Some(ToolEditorAction::Run)
        } else if c == 's' || c == 'S' {
            Some(ToolEditorAction::SaveDraft)
        } else if c == 'p' || c == 'P' {
            Some(ToolEditorAction::Register)
        } else {
            None
        },
        _ => None,
    }
}

/// What a key does while the tool editor is open: a Control shortcut asks
/// for an action; Tab and Shift+Tab move between fields; F2 switches the
/// language; Enter starts a new line in the script or the description;
/// other keys edit the focused field.
pub open spec fn editor_key_effect(old: App, new: App, key: KeyInput) -> bool {
    let e = old.tool_editor;
    match control_action_of(key) {
        Some(a) => new == (App { pending_editor_action: Some(a), ..old }),
        None => match key.code {
            KeyCode::Tab => new == (App {
                tool_editor: ToolEditor {
                    field: Some(next_field(field_cycle(e.generation), e.field)),
                    ..e
                },
                ..old
            }),
            KeyCode::BackTab => new == (App {
                tool_editor: ToolEditor {
                    field: Some(prev_field(field_cycle(e.generation), e.field)),
                    ..e
                },
                ..old
            }),
            KeyCode::F(n) => if n == 2 {
                new == (App { tool_editor: ToolEditor { language: e.language.toggled(), ..e }, ..old })
            } else {
                match e.field {
                    Some(f) => field_edited(old, new, f, key.code),
                    None => new == old,
                }
            },
            KeyCode::Enter => match e.field {
                Some(f) => if f == ToolEditorField::Script || f == ToolEditorField::Description {
                    field_edited(old, new, f, KeyCode::Char('\n'))
                } else {
                    new == old
                },
                None => new == old,
            },
            _ => match e.field {
                Some(f) => field_edited(old, new, f, key.code),
                None => new == old,
            },
        },
    }
}

/// Asking to load the session under the cursor, if there is one.
pub open spec fn open_session_effect(old: App, new: App) -> bool {
    if old.sessions_cursor < old.sessions_list@.len() {
        new == (App {
            sessions_open_pending: Some(old.sessions_list@[old.sessions_cursor as int].id),
            ..old
        })
    } else {
        new == old
    }
}

/// Asking to delete the tool under the cursor: a kept tool waits for the
/// user's confirmation; a built-in one is refused with a notice.
pub open spec fn request_delete_effect(old: App, new: App) -> bool {
    if old.tools_cursor < old.tools@.len() {
        let item = old.tools@[old.tools_cursor as int];
        match item.tool_id {
            Some(id) => new == (App {
                pending_tool_delete: Some(
                    PendingToolDelete {
                        tool_id: id,
                        name: item.descriptor.name,
                        is_draft: item.availability == ToolAvailability::Draft,
                    },
                ),
                ..old
            }),
            None => {
                &&& new == (App { tools_notice: new.tools_notice, ..old })
                &&& new.tools_notice matches Some(m)
                &&& m@ == "Built-in tools can't be deleted (compile-time only)."@
            },
        }
    } else {
        new == old
    }
}

/// Asking to reopen the draft under the cursor, if it is a draft.
pub open spec fn reopen_request_effect(old: App, new: App) -> bool {
    if old.tools_cursor < old.tools@.len() && old.tools@[old.tools_cursor as int].availability
        == ToolAvailability::Draft {
        new == (App { pending_reopen_draft: Some(old.tools@[old.tools_cursor as int]), ..old })
    } else {
        new == old
    }
}

/// Opening the tool editor on its description field.
pub open spec fn open_editor_effect(old: App, new: App) -> bool {
    let e = old.tool_editor;
    &&& new == (App {
        tools_notice: None,
        tool_editor: ToolEditor {
            open: true,
            field: Some(ToolEditorField::Description),
            args: new.tool_editor.args,
            ..e
        },
        ..old
    })
    &&& if e.args@.0.len() == 0 {
        new.tool_editor.args@ == ("{}"@, 2nat)
    } else {
        new.tool_editor.args == e.args
    }
}

/// The user's answer to the pending approval: the tool shows as running,
/// or as failed when it was refused.
pub open spec fn approval_effect(old: App, new: App, yes: bool) -> bool {
    match old.pending_tool_approval {
        Some(a) => {
            &&& new == (App {
                pending_tool_approval: None,
                approval_decision: Some((a, yes)),
                chat_stream: new.chat_stream,
                ..old
            })
            &&& stream_tool_update(
                old.chat_stream,
                new.chat_stream,
                a.invocation_id@,
                a.name@,
                if yes { ToolState::Calling } else { ToolState::Failed },
                None,
                if yes { None } else { Some("User rejected the file operation"@) },
            )
        },
        None => new == old,
    }
}

/// What a key press does to the client, by the branch it takes.
pub open spec fn key_effect(old: App, new: App, action: KeyAction, key: KeyInput, now_ms: u128) -> bool {
    match action {
        KeyAction::GoHome => new == (App { route: Route::Home, ..old }),
        KeyAction::CancelDelete => new == (App { pending_tool_delete: None, ..old }),
        KeyAction::CloseEditor => new == (App {
            tool_editor: ToolEditor { open: false, field: None, ..old.tool_editor },
            ..old
        }),
        KeyAction::Quit => new == old,
        KeyAction::DecideDelete(yes) => match old.pending_tool_delete {
            Some(t) => new == (App {
                pending_tool_delete: None,
                tool_delete_decision: Some((t, yes)),
                ..old
            }),
            None => new == old,
        },
        KeyAction::DecideApproval(yes) => approval_effect(old, new, yes),
        KeyAction::SessionsUp => new == (App {
            sessions_cursor: cursor_moved_up(old.sessions_cursor),
            ..old
        }),
        KeyAction::SessionsDown => new == (App {
            sessions_cursor: cursor_moved_down(old.sessions_cursor, old.sessions_list@.len()),
            ..old
        }),
        KeyAction::OpenSession => open_session_effect(old, new),
        KeyAction::ToggleMode => new == (App { active_mode: next_mode(old.active_mode), ..old }),
        KeyAction::EditorKey => editor_key_effect(old, new, key),
        KeyAction::ToolsUp => new == (App { tools_cursor: cursor_moved_up(old.tools_cursor), ..old }),
        KeyAction::ToolsDown => new == (App {
            tools_cursor: cursor_moved_down(old.tools_cursor, old.tools@.len()),
            ..old
        }),
        KeyAction::OpenEditor => open_editor_effect(old, new),
        KeyAction::RequestDelete => request_delete_effect(old, new),
        KeyAction::ReopenDraft => reopen_request_effect(old, new),
        KeyAction::ChatUp => new == (App { chat_scroll: scrolled_up(old.chat_scroll), ..old }),
        KeyAction::ChatDown => new == (App { chat_scroll: scrolled_down(old.chat_scroll), ..old }),
        KeyAction::EditPrompt(code) => new == (App { input: new.input, ..old }) && new.input@
            == edited(old.input@, code),
        KeyAction::TextArea(TextAreaAction::Submit) => submit_effect(old, new, now_ms),
        KeyAction::TextArea(TextAreaAction::InsertNewline) => new == (App { input: new.input, ..old })
            && new.input@ == edited(old.input@, KeyCode::Char('\n')),
        KeyAction::TextArea(TextAreaAction::Backspace) => new == (App { input: new.input, ..old })
            && new.input@ == edited(old.input@, KeyCode::Backspace),
        KeyAction::Ignore => new == old,
    }
}

/// The views of a list of messages.
pub open spec fn message_views(v: Seq<UiMessage>) -> Seq<(UiRole, Seq<PartView>)> {
    v.map_values(|m: UiMessage| m@)
}

/// The message a user's prompt becomes.
pub open spec fn user_message(text: Seq<char>) -> (UiRole, Seq<PartView>) {
    (UiRole::User, seq![PartView::Text(text)])
}

/// The user's message of a turn, or none for an empty prompt.
pub open spec fn user_turn(text: Seq<char>) -> Seq<(UiRole, Seq<PartView>)> {
    if text.len() == 0 {
        Seq::empty()
    } else {
        seq![user_message(text)]
    }
}

/// `after` is the open session once a finished turn is saved to it: the
/// prompt and the answer are added when a turn was streaming into an open
/// session; otherwise nothing changes.
pub open spec fn turn_saved(cs: ChatStream, before: Option<Session>, after: Option<Session>) -> bool {
    match (cs, before) {
        (ChatStream::Streaming { user_msg, assistant }, Some(s)) => after matches Some(t)
            && t.id == s.id && t.title == s.title && message_views(t.messages@) == message_views(
            s.messages@,
        ).push(user_message(user_msg@)).push(assistant@),
        _ => after == before,
    }
}

/// `after` is the open session once a turn ends in `error`: the prompt (when
/// there was one) and an answer ending in the error are added.
pub open spec fn error_saved(
    cs: ChatStream,
    error: Seq<char>,
    before: Option<Session>,
    after: Option<Session>,
) -> bool {
    let (prompt, answer) = match cs {
        ChatStream::Streaming { user_msg, assistant } => (user_msg@, assistant@),
        ChatStream::Pending(p) => (p@, (UiRole::Assistant, Seq::<PartView>::empty())),
        ChatStream::Idle => (Seq::<char>::empty(), (UiRole::Assistant, Seq::<PartView>::empty())),
    };
    match before {
        Some(s) => after matches Some(t) && t.id == s.id && t.title == s.title && message_views(
            t.messages@,
        ) == message_views(s.messages@) + user_turn(prompt) + seq![
            (answer.0, answer.1.push(PartView::Error(error))),
        ],
        None => after is None,
    }
}

/// A tool update applied to the turn being streamed, if there is one.
pub open spec fn stream_tool_update(
    before: ChatStream,
    after: ChatStream,
    id: Seq<char>,
    name: Seq<char>,
    state: ToolState,
    output: Option<Value>,
    error: Option<Seq<char>>,
) -> bool {
    match before {
        ChatStream::Streaming { user_msg, assistant } => after matches ChatStream::Streaming {
            user_msg: u2,
            assistant: a2,
        } && u2 == user_msg && a2@ == (
            assistant@.0,
            upsert_tool(assistant@.1, id, name, state, None, output, error, true),
        ),
        _ => after == before,
    }
}

/// `v - 1`, but not below zero.
pub open spec fn scrolled_up(v: u16) -> u16 {
    if v == 0 { 0 } else { (v - 1) as u16 }
}

/// `v + 1`, but not above the largest `u16`.
pub open spec fn scrolled_down(v: u16) -> u16 {
    if v == u16::MAX { u16::MAX } else { (v + 1) as u16 }
}

/// What a stream event does to the client while a turn streams in: a
/// stream's id and secret are kept; other events change the answer being
/// built as `client_event_effect` says. With no turn streaming nothing
/// changes.
pub open spec fn chat_event_effect(old: App, new: App, event: ChatStreamEvent) -> bool {
    match old.chat_stream {
        ChatStream::Streaming { user_msg, assistant } => match event {
            ChatStreamEvent::StreamReady { stream_id, stream_secret } => new == (App {
                stream_id: Some(stream_id),
                stream_secret: Some(stream_secret),
                ..old
            }),
            _ => {
                &&& new == (App { chat_stream: new.chat_stream, ..old })
                &&& new.chat_stream matches ChatStream::Streaming { user_msg: u2, assistant: a2 }
                &&& u2 == user_msg
                &&& a2@ == client_event_effect(assistant@, event)
            },
        },
        _ => new == old,
    }
}

/// What one stream event does to the answer being built, as the client
/// applies it: tool updates rename the tool when a name is given, a local
/// tool request shows as a tool part holding the request's summary, and a
/// message start makes the answer the assistant's.
pub open spec fn client_event_effect(m: (UiRole, Seq<PartView>), event: ChatStreamEvent) -> (UiRole, Seq<PartView>) {
    match event {
        ChatStreamEvent::MessageStart { role } => (
            if role == UiRole::Assistant { UiRole::Assistant } else { m.0 },
            m.1,
        ),
        ChatStreamEvent::TextDelta { text } => (m.0, append_text(m.1, text@)),
        ChatStreamEvent::ReasoningDelta { text } => (m.0, append_reasoning(m.1, text@)),
        ChatStreamEvent::ToolUpdate { id, name, state, input, output, error } => (
            m.0,
            upsert_tool(m.1, id@, name@, state, input, output, opt_chars(error), true),
        ),
        ChatStreamEvent::LocalToolRequest { invocation_id, name, approval_required, summary, .. } => (
            m.0,
            upsert_tool(
                m.1,
                invocation_id@,
                name@,
                if approval_required { ToolState::AwaitingApproval } else { ToolState::Calling },
                Some(summary_value(summary@)),
                None,
                None,
                true,
            ),
        ),
        ChatStreamEvent::Error { message } => (m.0, m.1.push(PartView::Error(message@))),
        _ => m,
    }
}

} // verus!
