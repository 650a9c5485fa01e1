//! Shared messages and records exchanged between the server and its clients.
use vstd::prelude::*;
use serde_json::Value;
use vstd::string::*;

verus! {

pub const RPC_PATH: &'static str = "/rpc";
pub const RPC_HEALTH_CHECK: &'static str = "health.check";
pub const RPC_LLM_GENERATE: &'static str = "llm.generate";
pub const RPC_SESSIONS_LIST: &'static str = "sessions.list";
pub const RPC_SESSIONS_GET: &'static str = "sessions.get";
pub const CHAT_STREAM_PATH: &'static str = "/chat/stream";
pub const LLM_PREAMBLE: &'static str = "You are usful assistance.";
pub const RPC_TOOLS_LIST: &'static str = "tools.list";
pub const RPC_TOOLS_MANAGEMENT: &'static str = "tools.management";
pub const RPC_TOOLS_SAVE_DRAFT: &'static str = "tools.save_draft";
pub const RPC_TOOLS_REGISTER: &'static str = "tools.register";
pub const RPC_TOOLS_DELETE_VERSION: &'static str = "tools.delete_version";
pub const RPC_TOOLS_DELETE_TOOL: &'static str = "tools.delete_tool";
pub const RPC_TOOLS_RESULT: &'static str = "tools.result";
pub const AUTHOR_STREAM_PATH: &'static str = "/tools/author/stream";

/// A JSON document; the library carries it through without looking inside.
#[verifier::external_type_specification]
#[verifier::external_body]
pub struct ExValue(serde_json::Value);

/// `<serde_json::Value as Clone>::clone`. The type derives `Clone`, so the
/// copy is the same document.
#[verifier::external_body]
pub(crate) fn clone_value(v: &Value) -> (r: Value)
    ensures
        r == *v,
{
    v.clone()
}

pub fn clone_opt_value(v: &Option<Value>) -> (r: Option<Value>)
    ensures
        r == *v,
{
    match v {
        Some(x) => Some(clone_value(x)),
        None => None,
    }
}

pub fn clone_opt_string(v: &Option<String>) -> (r: Option<String>)
    ensures
        r == *v,
{
    match v {
        Some(x) => Some(x.clone()),
        None => None,
    }
}

pub struct ChatMessage {
    pub role: String,
    pub content: String,
}

pub struct ChatRequest {
    pub session_id: String,
    pub message: String,
}

pub struct SessionSummary {
    pub id: String,
    pub title: String,
    pub updated_at_secs: u64,
    pub message_count: u64,
}

impl SessionSummary {
    pub fn duplicate(&self) -> (r: Self)
        ensures
            r == *self,
    {
        SessionSummary {
            id: self.id.clone(),
            title: self.title.clone(),
            updated_at_secs: self.updated_at_secs,
            message_count: self.message_count,
        }
    }
}

#[derive(Clone, Copy, Debug, PartialEq, Eq, Structural)]
pub enum UiRole {
    User,
    Assistant,
}

#[derive(Clone, Copy, Debug, PartialEq, Eq, Structural)]
pub enum ToolState {
    Streaming,
    Calling,
    AwaitingApproval,
    Complete,
    Failed,
}

pub enum UiPart {
    Text { content: String },
    Reasoning { content: String },
    Tool {
        id: String,
        name: String,
        state: ToolState,
        input: Option<Value>,
        output: Option<Value>,
        error: Option<String>,
    },
    Error { message: String },
}

impl UiPart {
    pub fn duplicate(&self) -> (r: Self)
        ensures
            r == *self,
    {
        match self {
            UiPart::Text { content } => UiPart::Text { content: content.clone() },
            UiPart::Reasoning { content } => UiPart::Reasoning { content: content.clone() },
            UiPart::Tool { id, name, state, input, output, error } => UiPart::Tool {
                id: id.clone(),
                name: name.clone(),
                state: *state,
                input: clone_opt_value(input),
                output: clone_opt_value(output),
                error: clone_opt_string(error),
            },
            UiPart::Error { message } => UiPart::Error { message: message.clone() },
        }
    }
}

pub struct UiMessage {
    pub role: UiRole,
    pub parts: Vec<UiPart>,
}

#[derive(Clone, Copy, Debug, PartialEq, Eq, Structural)]
pub enum ToolScriptLanguage {
    Python,
    Shell,
}

#[derive(Clone, Copy, Debug, PartialEq, Eq, Structural)]
pub enum ToolRisk {
    ReadOnly,
    WritesFiles,
    DeletesFiles,
    DeletesDirectories,
    Network,
    ExternalProcess,
}

#[derive(Clone, Copy, Debug, PartialEq, Eq, Structural)]
pub enum ToolExecutionKind {
    ServerNative,
    LocalProxy,
}

#[derive(Clone, Copy, Debug, PartialEq, Eq, Structural)]
pub enum ToolOutputPolicy {
    FullToModelSummaryToUi,
    SummaryOnly,
    FullAllowed,
}

#[derive(Clone, Copy, Debug, PartialEq, Eq, Structural)]
pub enum ToolVersionStatus {
    Draft,
    Active,
    Deprecated,
}

/// The agent's working mode; the CLI cycles through them.
#[derive(Clone, Copy, Debug, PartialEq, Eq, Structural)]
pub enum AgentMode {
    Build,
    Plan,
}

/// The mode that follows `m` in the cycle.
pub open spec fn next_mode(m: AgentMode) -> AgentMode {
    match m {
        AgentMode::Build => AgentMode::Plan,
        AgentMode::Plan => AgentMode::Build,
    }
}

impl AgentMode {
    /// The mode's name as the client shows it.
    pub fn label(self) -> (r: &'static str)
        ensures
            self == AgentMode::Build ==> r@ == "build"@,
            self == AgentMode::Plan ==> r@ == "plan"@,
    {
        match self {
            AgentMode::Build => "build",
            AgentMode::Plan => "plan",
        }
    }

    pub fn next(self) -> (r: AgentMode)
        ensures
            r == next_mode(self),
    {
        match self {
            AgentMode::Build => AgentMode::Plan,
            AgentMode::Plan => AgentMode::Build,
        }
    }
}

impl Default for AgentMode {
    fn default() -> (r: Self)
        ensures
            r == AgentMode::Build,
    {
        AgentMode::Build
    }
}

/// What a client shows of a tool and how the tool is run.
pub struct ToolDescriptor {
    pub name: String,
    pub description: String,
    pub execution: ToolExecutionKind,
    pub approval_required: bool,
    pub risk: ToolRisk,
    pub output_policy: ToolOutputPolicy,
    pub parameters: Value,
}

impl ToolDescriptor {
    pub fn duplicate(&self) -> (r: Self)
        ensures
            r == *self,
    {
        ToolDescriptor {
            name: self.name.clone(),
            description: self.description.clone(),
            execution: self.execution,
            approval_required: self.approval_required,
            risk: self.risk,
            output_policy: self.output_policy,
            parameters: clone_value(&self.parameters),
        }
    }
}

/// A script that the client runs for a tool authored at run time.
pub struct LocalToolScript {
    pub language: ToolScriptLanguage,
    pub script: String,
    pub timeout_ms: u64,
}

/// One test case stored with an authored tool version.
pub struct ToolTestCase {
    pub name: String,
    pub args: Value,
}

pub struct ToolVersionRow {
    pub id: String,
    pub tool_id: String,
    pub version: i32,
    pub language: ToolScriptLanguage,
    pub script: String,
    pub args_schema: Value,
    pub output_schema: Option<Value>,
    pub tests: Vec<ToolTestCase>,
    pub status: ToolVersionStatus,
    pub risk: ToolRisk,
    pub timeout_ms: i32,
    pub description: String,
    pub created_at_secs: u64,
}

pub struct ToolRow {
    pub id: String,
    pub name: String,
    pub current_version_id: Option<String>,
    pub owner: Option<String>,
    pub updated_at_secs: u64,
    pub versions: Vec<ToolVersionRow>,
}

pub struct ToolResultParams {
    pub stream_id: String,
    pub stream_secret: String,
    pub invocation_id: String,
    pub output: Option<Value>,
    pub error: Option<String>,
}

pub struct ToolResultAck {
    pub accepted: bool,
}

#[allow(inconsistent_fields)]
pub enum ChatStreamEvent {
    StreamReady { stream_id: String, stream_secret: String },
    MessageStart { role: UiRole },
    TextDelta { text: String },
    ReasoningDelta { text: String },
    ToolUpdate {
        id: String,
        name: String,
        state: ToolState,
        input: Option<Value>,
        output: Option<Value>,
        error: Option<String>,
    },
    LocalToolRequest {
        invocation_id: String,
        name: String,
        input: Value,
        approval_required: bool,
        summary: String,
        script: Option<LocalToolScript>,
    },
    Error { message: String },
    AuthorDone {
        version_id: String,
        name: String,
        language: ToolScriptLanguage,
        script: String,
        args_schema: Value,
        description: String,
    },
    MessageDone,
}

/// The content of a message part, with strings taken as their characters.
pub enum PartView {
    Text(Seq<char>),
    Reasoning(Seq<char>),
    Tool {
        id: Seq<char>,
        name: Seq<char>,
        state: ToolState,
        input: Option<Value>,
        output: Option<Value>,
        error: Option<Seq<char>>,
    },
    Error(Seq<char>),
}

pub open spec fn opt_chars(s: Option<String>) -> Option<Seq<char>> {
    match s {
        Some(x) => Some(x@),
        None => None,
    }
}

impl View for UiPart {
    type V = PartView;

    open spec fn view(&self) -> PartView {
        match self {
            UiPart::Text { content } => PartView::Text(content@),
            UiPart::Reasoning { content } => PartView::Reasoning(content@),
            UiPart::Tool { id, name, state, input, output, error } => PartView::Tool {
                id: id@,
                name: name@,
                state: *state,
                input: *input,
                output: *output,
                error: opt_chars(*error),
            },
            UiPart::Error { message } => PartView::Error(message@),
        }
    }
}

pub open spec fn part_views(parts: Seq<UiPart>) -> Seq<PartView> {
    parts.map_values(|p: UiPart| p@)
}

impl View for UiMessage {
    type V = (UiRole, Seq<PartView>);

    open spec fn view(&self) -> (UiRole, Seq<PartView>) {
        (self.role, part_views(self.parts@))
    }
}

/// True when `p` is a tool part with the given invocation id.
pub open spec fn is_tool_with_id(p: PartView, id: Seq<char>) -> bool {
    p matches PartView::Tool { id: pid, .. } && pid == id
}

/// Index of the first tool part with the given id, or the number of parts
/// when there is none.
pub open spec fn find_tool(parts: Seq<PartView>, id: Seq<char>) -> int
    decreases parts.len(),
{
    if parts.len() == 0 {
        0
    } else {
        let f = find_tool(parts.drop_last(), id);
        if f < parts.len() - 1 {
            f
        } else if is_tool_with_id(parts.last(), id) {
            parts.len() - 1
        } else {
            parts.len() as int
        }
    }
}

/// The parts after a text fragment arrives: it extends a trailing text part,
/// or starts a new one.
pub open spec fn append_text(parts: Seq<PartView>, text: Seq<char>) -> Seq<PartView> {
    if parts.len() > 0 && parts.last() is Text {
        parts.update(parts.len() - 1, PartView::Text(parts.last()->Text_0 + text))
    } else {
        parts.push(PartView::Text(text))
    }
}

/// The parts after a reasoning fragment arrives.
pub open spec fn append_reasoning(parts: Seq<PartView>, text: Seq<char>) -> Seq<PartView> {
    if parts.len() > 0 && parts.last() is Reasoning {
        parts.update(parts.len() - 1, PartView::Reasoning(parts.last()->Reasoning_0 + text))
    } else {
        parts.push(PartView::Reasoning(text))
    }
}

/// `new` where it is given, else `old`.
pub open spec fn keep_or<T>(old: Option<T>, new: Option<T>) -> Option<T> {
    if new is Some { new } else { old }
}

/// The parts after a tool update: the first tool part with that id takes the
/// new state and whichever of input, output and error are given (and the new
/// name, when `rename` is set and the name is not empty); with no such part a
/// new tool part is added at the end.
pub open spec fn upsert_tool(
    parts: Seq<PartView>,
    id: Seq<char>,
    name: Seq<char>,
    state: ToolState,
    input: Option<Value>,
    output: Option<Value>,
    error: Option<Seq<char>>,
    rename: bool,
) -> Seq<PartView> {
    let i = find_tool(parts, id);
    if i < parts.len() {
        let p = parts[i];
        parts.update(
            i,
            PartView::Tool {
                id: p->Tool_id,
                name: if rename && name.len() > 0 { name } else { p->Tool_name },
                state: state,
                input: keep_or(p->Tool_input, input),
                output: keep_or(p->Tool_output, output),
                error: keep_or(p->Tool_error, error),
            },
        )
    } else {
        parts.push(PartView::Tool { id, name, state, input, output, error })
    }
}

/// What one stream event does to the parts of the message being streamed.
pub open spec fn event_effect(parts: Seq<PartView>, event: ChatStreamEvent) -> Seq<PartView> {
    match event {
        ChatStreamEvent::TextDelta { text } => append_text(parts, text@),
        ChatStreamEvent::ReasoningDelta { text } => append_reasoning(parts, text@),
        ChatStreamEvent::ToolUpdate { id, name, state, input, output, error } => upsert_tool(
            parts,
            id@,
            name@,
            state,
            input,
            output,
            opt_chars(error),
            false,
        ),
        ChatStreamEvent::Error { message } => parts.push(PartView::Error(message@)),
        _ => parts,
    }
}

proof fn lemma_find_tool(v: Seq<PartView>, id: Seq<char>)
    ensures
        0 <= find_tool(v, id) <= v.len(),
        find_tool(v, id) < v.len() ==> is_tool_with_id(v[find_tool(v, id)], id),
        forall|j: int| 0 <= j < find_tool(v, id) ==> !is_tool_with_id(#[trigger] v[j], id),
    decreases v.len(),
{
    if v.len() > 0 {
        lemma_find_tool(v.drop_last(), id);
        assert forall|j: int| 0 <= j < v.len() - 1 implies v.drop_last()[j] == v[j] by {}
    }
}

/// Index of the first tool part with the given id, or the number of parts.
fn find_tool_index(parts: &Vec<UiPart>, id: &String) -> (r: usize)
    ensures
        r == find_tool(part_views(parts@), id@),
{
    let ghost v = part_views(parts@);
    proof {
        lemma_find_tool(v, id@);
    }
    let mut i: usize = 0;
    while i < parts.len()
        invariant
            v == part_views(parts@),
            i <= parts.len(),
            forall|j: int| 0 <= j < i ==> !is_tool_with_id(#[trigger] v[j], id@),
            i <= find_tool(v, id@),
            0 <= find_tool(v, id@) <= v.len(),
            find_tool(v, id@) < v.len() ==> is_tool_with_id(v[find_tool(v, id@)], id@),
            forall|j: int| 0 <= j < find_tool(v, id@) ==> !is_tool_with_id(#[trigger] v[j], id@),
        decreases parts.len() - i,
    {
        let found = match &parts[i] {
            UiPart::Tool { id: tid, .. } => *tid == *id,
            _ => false,
        };
        assert(v[i as int] == parts@[i as int]@);
        if found {
            assert(is_tool_with_id(v[i as int], id@));
            return i;
        }
        i = i + 1;
    }
    i
}

/// Adds a text fragment to the parts of a message.
pub fn append_text_to(parts: &mut Vec<UiPart>, text: &str)
    ensures
        part_views(final(parts)@) == append_text(part_views(old(parts)@), text@),
        old(parts)@.len() > 0 && old(parts)@.last() is Text ==> final(parts)@.len()
            == old(parts)@.len(),
        final(parts)@.len() > 0 && final(parts)@.last() is Text,
{
    let n = parts.len();
    if n > 0 {
        let extended = match &parts[n - 1] {
            UiPart::Text { content } => {
                let mut c = content.clone();
                c.append(text);
                Some(c)
            }
            _ => None,
        };
        if let Some(c) = extended {
            let ghost before = parts@;
            parts.set(n - 1, UiPart::Text { content: c });
            assert(part_views(parts@) =~= part_views(before).update(n - 1, PartView::Text(c@)));
            return;
        }
    }
    let ghost before = parts@;
    parts.push(UiPart::Text { content: text.to_owned() });
    assert(part_views(parts@) =~= part_views(before).push(PartView::Text(text@)));
}

/// Adds a reasoning fragment to the parts of a message.
pub fn append_reasoning_to(parts: &mut Vec<UiPart>, text: &str)
    ensures
        part_views(final(parts)@) == append_reasoning(part_views(old(parts)@), text@),
        old(parts)@.len() > 0 && old(parts)@.last() is Reasoning ==> final(parts)@.len()
            == old(parts)@.len(),
        final(parts)@.len() > 0 && final(parts)@.last() is Reasoning,
{
    let n = parts.len();
    if n > 0 {
        let extended = match &parts[n - 1] {
            UiPart::Reasoning { content } => {
                let mut c = content.clone();
                c.append(text);
                Some(c)
            }
            _ => None,
        };
        if let Some(c) = extended {
            let ghost before = parts@;
            parts.set(n - 1, UiPart::Reasoning { content: c });
            assert(part_views(parts@) =~= part_views(before).update(
                n - 1,
                PartView::Reasoning(c@),
            ));
            return;
        }
    }
    let ghost before = parts@;
    parts.push(UiPart::Reasoning { content: text.to_owned() });
    assert(part_views(parts@) =~= part_views(before).push(PartView::Reasoning(text@)));
}

/// Updates the tool part with the given id, or adds one.
pub fn upsert_tool_in(
    parts: &mut Vec<UiPart>,
    id: String,
    name: String,
    state: ToolState,
    input: Option<Value>,
    output: Option<Value>,
    error: Option<String>,
    rename: bool,
)
    ensures
        part_views(final(parts)@) == upsert_tool(
            part_views(old(parts)@),
            id@,
            name@,
            state,
            input,
            output,
            opt_chars(error),
            rename,
        ),
{
    let idx = find_tool_index(parts, &id);
    let ghost before = parts@;
    if idx < parts.len() {
        let updated = match &parts[idx] {
            UiPart::Tool {
                id: old_id,
                name: old_name,
                input: old_input,
                output: old_output,
                error: old_error,
                ..
            } => {
                let new_name = if rename && !name.as_str().is_empty() {
                    name
                } else {
                    old_name.clone()
                };
                let new_input = if input.is_some() { input } else { clone_opt_value(old_input) };
                let new_output = if output.is_some() { output } else { clone_opt_value(old_output) };
                let new_error = if error.is_some() { error } else { clone_opt_string(old_error) };
                UiPart::Tool {
                    id: old_id.clone(),
                    name: new_name,
                    state,
                    input: new_input,
                    output: new_output,
                    error: new_error,
                }
            },
            _ => {
                proof {
                    lemma_find_tool(part_views(before), id@);
                    assert(part_views(before)[idx as int] == before[idx as int]@);
                    assert(false);
                }
                return;
            },
        };
        parts.set(idx, updated);
        assert(part_views(parts@) =~= upsert_tool(
            part_views(before),
            id@,
            name@,
            state,
            input,
            output,
            opt_chars(error),
            rename,
        ));
    } else {
        let new_part = UiPart::Tool { id, name, state, input, output, error };
        parts.push(new_part);
        assert(part_views(parts@) =~= part_views(before).push(new_part@));
    }
}

impl UiMessage {
    pub fn user_text(content: String) -> (r: Self)
        ensures
            r@ == (UiRole::User, seq![PartView::Text(content@)]),
    {
        let mut parts: Vec<UiPart> = Vec::new();
        parts.push(UiPart::Text { content });
        let r = UiMessage { role: UiRole::User, parts };
        assert(r@.1 =~= seq![PartView::Text(content@)]);
        r
    }

    pub fn assistant() -> (r: Self)
        ensures
            r@ == (UiRole::Assistant, Seq::<PartView>::empty()),
    {
        let r = UiMessage { role: UiRole::Assistant, parts: Vec::new() };
        assert(r@.1 =~= Seq::<PartView>::empty());
        r
    }

    /// Folds one stream event into the message as it is being streamed.
    pub fn apply_stream_event(&mut self, event: &ChatStreamEvent)
        ensures
            final(self)@ == (old(self)@.0, event_effect(old(self)@.1, *event)),
            tool_ids_distinct(old(self)@.1) ==> tool_ids_distinct(final(self)@.1),
    {
        proof {
            if tool_ids_distinct(self@.1) {
                law_tool_ids_stay_distinct(self@.1, *event);
            }
        }
        match event {
            ChatStreamEvent::TextDelta { text } => append_text_to(&mut self.parts, text.as_str()),
            ChatStreamEvent::ReasoningDelta { text } => {
                append_reasoning_to(&mut self.parts, text.as_str())
            },
            ChatStreamEvent::ToolUpdate { id, name, state, input, output, error } => {
                upsert_tool_in(
                    &mut self.parts,
                    id.clone(),
                    name.clone(),
                    *state,
                    clone_opt_value(input),
                    clone_opt_value(output),
                    clone_opt_string(error),
                    false,
                );
            },
            ChatStreamEvent::Error { message } => {
                let ghost before = self.parts@;
                let part = UiPart::Error { message: message.clone() };
                self.parts.push(part);
                assert(part_views(self.parts@) =~= part_views(before).push(part@));
            },
            _ => {},
        }
    }
}

/// Two text fragments streamed one after the other leave the message as one
/// fragment holding both would.
pub proof fn law_text_deltas_concatenate(parts: Seq<PartView>, a: Seq<char>, b: Seq<char>)
    ensures
        append_text(append_text(parts, a), b) == append_text(parts, a + b),
{
    if parts.len() > 0 && parts.last() is Text {
        assert(parts.last()->Text_0 + a + b =~= parts.last()->Text_0 + (a + b));
        assert(append_text(append_text(parts, a), b) =~= append_text(parts, a + b));
    } else {
        assert(append_text(append_text(parts, a), b) =~= append_text(parts, a + b));
    }
}

/// Two reasoning fragments streamed one after the other leave the message
/// as one fragment holding both would; a fragment that follows a reasoning
/// part extends it, so the number of parts stays, and the last part then
/// holds the earlier reasoning followed by the fragment.
pub proof fn law_reasoning_deltas_concatenate(parts: Seq<PartView>, a: Seq<char>, b: Seq<char>)
    ensures
        append_reasoning(append_reasoning(parts, a), b) == append_reasoning(parts, a + b),
        parts.len() > 0 && parts.last() is Reasoning ==> {
            &&& append_reasoning(parts, a).len() == parts.len()
            &&& append_reasoning(parts, a).last() == PartView::Reasoning(parts.last()->Reasoning_0 + a)
            &&& append_reasoning(parts, a).take(parts.len() - 1) == parts.take(parts.len() - 1)
        },
        !(parts.len() > 0 && parts.last() is Reasoning) ==> append_reasoning(parts, a) == parts.push(
            PartView::Reasoning(a),
        ),
{
    let once = append_reasoning(parts, a);
    if parts.len() > 0 && parts.last() is Reasoning {
        assert(parts.last()->Reasoning_0 + a + b =~= parts.last()->Reasoning_0 + (a + b));
        assert(once.take(parts.len() - 1) =~= parts.take(parts.len() - 1));
    }
    assert(append_reasoning(once, b) =~= append_reasoning(parts, a + b));
}

/// A text fragment that follows a text part extends that part and adds no
/// part; after any other part, or none, it starts a new text part at the
/// end.
pub proof fn law_text_fragment_extends_last_part(parts: Seq<PartView>, a: Seq<char>)
    ensures
        parts.len() > 0 && parts.last() is Text ==> {
            &&& append_text(parts, a).len() == parts.len()
            &&& append_text(parts, a).last() == PartView::Text(parts.last()->Text_0 + a)
        },
        !(parts.len() > 0 && parts.last() is Text) ==> append_text(parts, a) == parts.push(
            PartView::Text(a),
        ),
{
}

/// A tool update for an id that a tool part of the message already has
/// changes that part alone: the number of parts stays, the part keeps its
/// id and (unless renaming to a non-empty name) its name, takes the new
/// state, and takes each of input, output and error that the update gives
/// while keeping those it does not. An update for an id that no tool part
/// has adds a tool part with exactly the update's fields at the end.
pub proof fn law_tool_update_fields(
    parts: Seq<PartView>,
    id: Seq<char>,
    name: Seq<char>,
    state: ToolState,
    input: Option<Value>,
    output: Option<Value>,
    error: Option<Seq<char>>,
    rename: bool,
    i: int,
)
    requires
        tool_ids_distinct(parts),
    ensures
        ({
            let after = upsert_tool(parts, id, name, state, input, output, error, rename);
            (0 <= i < parts.len() && is_tool_with_id(parts[i], id)) ==> {
                &&& after.len() == parts.len()
                &&& forall|j: int| 0 <= j < parts.len() && j != i ==> #[trigger] after[j] == parts[j]
                &&& after[i] is Tool
                &&& after[i]->Tool_id == id
                &&& after[i]->Tool_state == state
                &&& (!rename || name.len() == 0) ==> after[i]->Tool_name == parts[i]->Tool_name
                &&& (rename && name.len() > 0) ==> after[i]->Tool_name == name
                &&& (input is Some ==> after[i]->Tool_input == input)
                &&& (input is None ==> after[i]->Tool_input == parts[i]->Tool_input)
                &&& (output is Some ==> after[i]->Tool_output == output)
                &&& (output is None ==> after[i]->Tool_output == parts[i]->Tool_output)
                &&& (error is Some ==> after[i]->Tool_error == error)
                &&& (error is None ==> after[i]->Tool_error == parts[i]->Tool_error)
            }
        }),
        (forall|j: int| 0 <= j < parts.len() ==> !is_tool_with_id(#[trigger] parts[j], id))
            ==> upsert_tool(parts, id, name, state, input, output, error, rename) == parts.push(
            PartView::Tool { id, name, state, input, output, error },
        ),
{
    lemma_find_tool(parts, id);
    let f = find_tool(parts, id);
    if 0 <= i < parts.len() && is_tool_with_id(parts[i], id) {
        assert(f <= i);
        if f < i {
            assert(is_tool_with_id(parts[f], id));
            assert(parts[f]->Tool_id != parts[i]->Tool_id);
        }
    }
    if forall|j: int| 0 <= j < parts.len() ==> !is_tool_with_id(#[trigger] parts[j], id) {
        if f < parts.len() {
            assert(is_tool_with_id(parts[f], id));
        }
    }
}

/// Toggling the agent's mode always changes it, and toggling twice brings
/// it back.
pub proof fn law_mode_toggle_alternates(m: AgentMode)
    ensures
        next_mode(m) != m,
        next_mode(next_mode(m)) == m,
{
}

/// A message never holds two parts for one tool invocation: once a tool
/// update has been applied, the id is found, and further updates for it
/// change that part in place.
pub proof fn law_tool_update_keeps_one_part(
    parts: Seq<PartView>,
    id: Seq<char>,
    name: Seq<char>,
    state: ToolState,
    input: Option<Value>,
    output: Option<Value>,
    error: Option<Seq<char>>,
    rename: bool,
    state2: ToolState,
    input2: Option<Value>,
    output2: Option<Value>,
    error2: Option<Seq<char>>,
)
    ensures
        ({
            let once = upsert_tool(parts, id, name, state, input, output, error, rename);
            let twice = upsert_tool(once, id, name, state2, input2, output2, error2, rename);
            &&& find_tool(once, id) < once.len()
            &&& twice.len() == once.len()
            &&& twice[find_tool(once, id)] is Tool
            &&& twice[find_tool(once, id)]->Tool_state == state2
        }),
{
    lemma_find_tool(parts, id);
    let once = upsert_tool(parts, id, name, state, input, output, error, rename);
    let i = find_tool(parts, id);
    lemma_find_tool(once, id);
    if i < parts.len() {
        assert(is_tool_with_id(once[i], id));
        assert forall|j: int| 0 <= j < i implies !is_tool_with_id(#[trigger] once[j], id) by {
            assert(once[j] == parts[j]);
        }
    } else {
        assert(is_tool_with_id(once[parts.len() as int], id));
        assert forall|j: int| 0 <= j < parts.len() implies !is_tool_with_id(#[trigger] once[j], id) by {
            assert(once[j] == parts[j]);
        }
    }
    assert(find_tool(once, id) == i);
}

/// No two tool parts share an id.
pub open spec fn tool_ids_distinct(parts: Seq<PartView>) -> bool {
    forall|i: int, j: int|
        0 <= i < j < parts.len() && parts[i] is Tool && parts[j] is Tool ==> (#[trigger] parts[i])->Tool_id
            != (#[trigger] parts[j])->Tool_id
}

proof fn lemma_upsert_keeps_ids_distinct(
    parts: Seq<PartView>,
    id: Seq<char>,
    name: Seq<char>,
    state: ToolState,
    input: Option<Value>,
    output: Option<Value>,
    error: Option<Seq<char>>,
    rename: bool,
)
    requires
        tool_ids_distinct(parts),
    ensures
        tool_ids_distinct(upsert_tool(parts, id, name, state, input, output, error, rename)),
{
    lemma_find_tool(parts, id);
    let i = find_tool(parts, id);
    let after = upsert_tool(parts, id, name, state, input, output, error, rename);
    if i < parts.len() {
        assert forall|a: int, b: int|
            0 <= a < b < after.len() && after[a] is Tool && after[b] is Tool implies (#[trigger] after[a])->Tool_id
                != (#[trigger] after[b])->Tool_id by {
            assert(parts[a] is Tool && parts[b] is Tool);
            assert(after[a]->Tool_id == parts[a]->Tool_id);
            assert(after[b]->Tool_id == parts[b]->Tool_id);
        }
    } else {
        assert forall|a: int, b: int|
            0 <= a < b < after.len() && after[a] is Tool && after[b] is Tool implies (#[trigger] after[a])->Tool_id
                != (#[trigger] after[b])->Tool_id by {
            if b == parts.len() {
                assert(after[a] == parts[a]);
                assert(!is_tool_with_id(parts[a], id));
            } else {
                assert(after[a] == parts[a] && after[b] == parts[b]);
            }
        }
    }
}

/// Whatever event arrives, a message whose tool parts have distinct ids
/// keeps them distinct: an update for a known id changes that part in
/// place, and one for a new id adds its part at the end.
pub proof fn law_tool_ids_stay_distinct(parts: Seq<PartView>, event: ChatStreamEvent)
    requires
        tool_ids_distinct(parts),
    ensures
        tool_ids_distinct(event_effect(parts, event)),
{
    let after = event_effect(parts, event);
    match event {
        ChatStreamEvent::ToolUpdate { id, name, state, input, output, error } => {
            lemma_upsert_keeps_ids_distinct(parts, id@, name@, state, input, output, opt_chars(error), false);
        },
        _ => {
            assert forall|a: int, b: int|
                0 <= a < b < after.len() && after[a] is Tool && after[b] is Tool implies (#[trigger] after[a])->Tool_id
                    != (#[trigger] after[b])->Tool_id by {
                assert(after[a] == parts[a]);
                if b < parts.len() {
                    assert(after[b] == parts[b]);
                }
            }
        },
    }
}

pub struct LlmChunk {
    pub text: String,
}

pub struct HealthResponse {
    pub status: String,
    pub service: String,
}

impl HealthResponse {
    pub fn ok(service: String) -> (r: Self)
        ensures
            r.status@ == "ok"@,
            r.service@ == service@,
    {
        HealthResponse { status: "ok".to_owned(), service }
    }
}

pub struct LlmResponse {
    pub output: String,
}

impl LlmResponse {
    pub fn new(output: String) -> (r: Self)
        ensures
            r.output@ == output@,
    {
        LlmResponse { output }
    }
}

pub struct RpcRequest {
    pub jsonrpc: String,
    pub method: String,
    pub params: Option<Value>,
    pub id: u64,
}

impl RpcRequest {
    pub fn method(id: u64, method: String) -> (r: Self)
        ensures
            r.jsonrpc@ == "2.0"@,
            r.method@ == method@,
            r.params is None,
            r.id == id,
    {
        RpcRequest { jsonrpc: "2.0".to_owned(), method, params: None, id }
    }

    pub fn with_params(self, params: Value) -> (r: Self)
        ensures
            r.jsonrpc == self.jsonrpc,
            r.method == self.method,
            r.params == Some(params),
            r.id == self.id,
    {
        let mut r = self;
        r.params = Some(params);
        r
    }
}

pub struct RpcError {
    pub code: i64,
    pub message: String,
}

impl RpcError {
    pub fn invalid_request() -> (r: Self)
        ensures
            r.code == -32600,
            r.message@ == "invalid JSON-RPC request"@,
    {
        RpcError { code: -32600, message: "invalid JSON-RPC request".to_owned() }
    }

    pub fn method_not_found(method: String) -> (r: Self)
        ensures
            r.code == -32601,
            r.message@ == "method not found: "@ + method@,
    {
        let mut message = "method not found: ".to_owned();
        message.append(method.as_str());
        RpcError { code: -32601, message }
    }

    pub fn internal_error(error: String) -> (r: Self)
        ensures
            r.code == -32603,
            r.message@ == error@,
    {
        RpcError { code: -32603, message: error }
    }
}

pub struct RpcResponse<T> {
    pub jsonrpc: String,
    pub result: Option<T>,
    pub error: Option<RpcError>,
    pub id: u64,
}

impl<T> RpcResponse<T> {
    pub fn success(id: u64, result: T) -> (r: Self)
        ensures
            r.jsonrpc@ == "2.0"@,
            r.result == Some(result),
            r.error is None,
            r.id == id,
    {
        RpcResponse { jsonrpc: "2.0".to_owned(), result: Some(result), error: None, id }
    }

    pub fn failure(id: u64, error: RpcError) -> (r: Self)
        ensures
            r.jsonrpc@ == "2.0"@,
            r.result is None,
            r.error == Some(error),
            r.id == id,
    {
        RpcResponse { jsonrpc: "2.0".to_owned(), result: None, error: Some(error), id }
    }
}

/// A request to have the model author a tool.
pub struct AuthorRequest {
    pub description: String,
    pub input_hint: Option<String>,
    pub output_hint: Option<String>,
}

/// A new draft version of an authored tool.
pub struct SaveDraftParams {
    pub name: String,
    pub description: String,
    pub language: ToolScriptLanguage,
    pub script: String,
    pub args_schema: Value,
    pub output_schema: Option<Value>,
    pub tests: Vec<ToolTestCase>,
    pub risk: ToolRisk,
    pub timeout_ms: i32,
    pub owner: String,
}

pub struct RegisterParams {
    pub version_id: String,
}

pub struct DeleteVersionParams {
    pub version_id: String,
}

pub struct DeleteToolParams {
    pub tool_id: String,
}

pub struct DeleteAck {
    pub deleted: bool,
}

pub struct ToolsListResponse {
    pub tools: Vec<ToolDescriptor>,
}

pub struct ToolsManagementResponse {
    pub tools: Vec<ToolRow>,
}

} // verus!
