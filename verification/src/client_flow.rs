//! What the terminal client decides around local tool calls: asking for
//! approval, handing a call on to be run, reporting its result, running an
//! authored script, and the tool editor's requests.
use vstd::prelude::*;
use vstd::string::*;
use serde_json::Value;
use crate::app::{
    chat_event_effect, stream_tool_update, App, ChatStream, PendingToolApproval, ToolEditorResult,
    ToolEditorResultKind, ToolEditorSnapshot,
};
use crate::guard::{blank, is_blank};
use crate::json::{
    json_as_i64, json_as_str, json_as_u64, json_bool, json_bool_value, json_field, json_i64,
    json_i64_of, json_i64_value, json_member, json_object, json_object_value, json_parse,
    json_parse_of, json_str_of, json_string, json_string_value, json_text, json_to_string,
    json_u64, json_u64_of, json_u64_value, entry_views, str_member, summary_value,
};
use crate::protocol::{
    opt_chars, upsert_tool, AuthorRequest, ChatStreamEvent, LocalToolScript, SaveDraftParams,
    ToolResultParams, ToolRisk, ToolScriptLanguage, ToolState, UiRole,
};
use crate::sandbox::{SandboxRunKind, SandboxRunRequest, SandboxRunResult};
use crate::text::{
    decimal, from_chars, i64_to_string, signed_decimal, str_eq, to_chars, u64_to_string,
};
use crate::tools::{
    sanitized_output, sanitized_output_value, DELETE_DIRECTORY, DELETE_FILE, EDIT_FILE, WRITE_FILE,
};

verus! {

/// How many characters of an id the client shows.
pub const SHORT_ID_CHARS: usize = 8;

pub open spec fn short_id_of(id: Seq<char>) -> Seq<char> {
    if id.len() <= SHORT_ID_CHARS {
        id
    } else {
        id.take(SHORT_ID_CHARS as int)
    }
}

/// The short form of an id is its opening: the whole id when it has at
/// most 8 characters, else its first 8.
pub proof fn law_short_id_is_opening(id: Seq<char>)
    ensures
        short_id_of(id).len() == (if id.len() <= 8 { id.len() } else { 8 }),
        short_id_of(id) == id.take(short_id_of(id).len() as int),
{
    assert(id.take(id.len() as int) =~= id);
}

/// The first characters of an id.
pub fn short_id(id: &str) -> (r: String)
    ensures
        r@ == short_id_of(id@),
{
    let chars = to_chars(id);
    let mut out: Vec<char> = Vec::new();
    let mut i: usize = 0;
    while i < chars.len() && i < SHORT_ID_CHARS
        invariant
            chars@ == id@,
            i <= chars.len(),
            i <= SHORT_ID_CHARS,
            out@ == id@.take(i as int),
        decreases chars.len() - i,
    {
        out.push(chars[i]);
        i = i + 1;
        assert(out@ =~= id@.take(i as int));
    }
    assert(id@.take(id@.len() as int) =~= id@);
    from_chars(&out)
}

/// The question asked before a local tool call runs. `path` is the path the
/// call's arguments name (when they read as the tool's arguments); for a
/// write, `write_target` is the path as shown once it passed the workspace
/// guard, and whether a file is there already.
pub open spec fn approval_text(
    name: Seq<char>,
    path: Option<Seq<char>>,
    write_target: Option<(Seq<char>, bool)>,
) -> Seq<char> {
    if name == WRITE_FILE@ {
        match path {
            Some(p) => match write_target {
                Some((shown, true)) => "Overwrite "@ + shown + "?"@,
                Some((shown, false)) => "Write "@ + shown + "?"@,
                None => "Write "@ + p + "?"@,
            },
            None => "Approve write_file?"@,
        }
    } else if name == EDIT_FILE@ {
        match path {
            Some(p) => "Edit "@ + p + "?"@,
            None => "Approve edit_file?"@,
        }
    } else if name == DELETE_FILE@ {
        match path {
            Some(p) => "Delete "@ + p + " permanently?"@,
            None => "Approve delete_file?"@,
        }
    } else if name == DELETE_DIRECTORY@ {
        match path {
            Some(p) => "Delete empty directory "@ + p + " permanently?"@,
            None => "Approve delete_directory?"@,
        }
    } else {
        "Approve "@ + name + "?"@
    }
}

pub fn approval_summary(name: &str, path: Option<String>, write_target: Option<(String, bool)>) -> (r: String)
    ensures
        r@ == approval_text(
            name@,
            opt_chars(path),
            match write_target {
                Some((s, e)) => Some((s@, e)),
                None => None,
            },
        ),
{
    let mut out;
    if str_eq(name, WRITE_FILE) {
        match path {
            Some(p) => match write_target {
                Some((shown, exists)) => {
                    out = if exists { "Overwrite ".to_owned() } else { "Write ".to_owned() };
                    out.append(shown.as_str());
                    out.append("?");
                },
                None => {
                    out = "Write ".to_owned();
                    out.append(p.as_str());
                    out.append("?");
                },
            },
            None => {
                out = "Approve write_file?".to_owned();
            },
        }
    } else if str_eq(name, EDIT_FILE) {
        match path {
            Some(p) => {
                out = "Edit ".to_owned();
                out.append(p.as_str());
                out.append("?");
            },
            None => {
                out = "Approve edit_file?".to_owned();
            },
        }
    } else if str_eq(name, DELETE_FILE) {
        match path {
            Some(p) => {
                out = "Delete ".to_owned();
                out.append(p.as_str());
                out.append(" permanently?");
            },
            None => {
                out = "Approve delete_file?".to_owned();
            },
        }
    } else if str_eq(name, DELETE_DIRECTORY) {
        match path {
            Some(p) => {
                out = "Delete empty directory ".to_owned();
                out.append(p.as_str());
                out.append(" permanently?");
            },
            None => {
                out = "Approve delete_directory?".to_owned();
            },
        }
    } else {
        out = "Approve ".to_owned();
        out.append(name);
        out.append("?");
    }
    out
}

/// A local tool call to carry out and report to the server.
pub struct ToolRun {
    pub stream_id: String,
    pub stream_secret: String,
    pub invocation_id: String,
    pub name: String,
    pub input: Value,
    /// The script of an authored tool; none for the client's own tools.
    pub script: Option<LocalToolScript>,
    /// Whether the result is also shown in the chat once reported.
    pub render_ui: bool,
}

/// A result to report to the server without running anything.
pub struct ToolReport {
    pub stream_id: String,
    pub stream_secret: String,
    pub invocation_id: String,
    pub name: String,
    pub output: Option<Value>,
    pub error: Option<String>,
    pub render_ui: bool,
}

/// What follows the user's answer to an approval request.
pub enum ApprovalFollowUp {
    Run(ToolRun),
    Report(ToolReport),
}

/// The question shown for a call that needs approval: an authored tool is
/// asked about by name.
pub open spec fn question_for(name: Seq<char>, script: Option<LocalToolScript>, approval_text: Seq<char>) -> Seq<char> {
    if script is Some {
        "Run "@ + name + "?"@
    } else {
        approval_text
    }
}

impl App {
    /// The current stream's id and secret, once both are known.
    pub fn stream_auth(&self) -> (r: Option<(String, String)>)
        ensures
            match (self.stream_id, self.stream_secret) {
                (Some(i), Some(s)) => r == Some((i, s)),
                _ => r is None,
            },
    {
        match (&self.stream_id, &self.stream_secret) {
            (Some(i), Some(s)) => Some((i.clone(), s.clone())),
            _ => None,
        }
    }

    /// Takes in one event of the streaming turn. A local tool call that
    /// needs approval is shown with `approval_text` (or, for an authored
    /// tool, by name) and waits for the user's answer; one that does not is
    /// handed out to be run, once the stream is known; other events change
    /// the turn as `chat_event_effect` says.
    pub fn receive_stream_event(&mut self, event: ChatStreamEvent, approval_text: String) -> (r: Option<ToolRun>)
        ensures
            match event {
                ChatStreamEvent::LocalToolRequest { invocation_id, name, input, approval_required, script, .. } => {
                    if approval_required {
                        &&& r is None
                        &&& final(self).pending_tool_approval == Some(
                            PendingToolApproval { invocation_id, name, input, script },
                        )
                        &&& *final(self) == (App {
                            pending_tool_approval: final(self).pending_tool_approval,
                            chat_stream: final(self).chat_stream,
                            ..*old(self)
                        })
                        &&& match old(self).chat_stream {
                            ChatStream::Streaming { user_msg, assistant } => final(self).chat_stream matches ChatStream::Streaming { user_msg: u2, assistant: a2 }
                                && u2 == user_msg && a2@ == (
                                assistant@.0,
                                upsert_tool(
                                    assistant@.1,
                                    invocation_id@,
                                    name@,
                                    ToolState::AwaitingApproval,
                                    Some(summary_value(question_for(name@, script, approval_text@))),
                                    None,
                                    None,
                                    true,
                                ),
                            ),
                            _ => final(self).chat_stream == old(self).chat_stream,
                        }
                    } else {
                        match (old(self).stream_id, old(self).stream_secret) {
                            (Some(sid), Some(secret)) => {
                                &&& *final(self) == *old(self)
                                &&& r == Some(
                                    ToolRun {
                                        stream_id: sid,
                                        stream_secret: secret,
                                        invocation_id,
                                        name,
                                        input,
                                        script,
                                        render_ui: false,
                                    },
                                )
                            },
                            _ => {
                                &&& r is None
                                &&& *final(self) == (App { chat_stream: final(self).chat_stream, ..*old(self) })
                                &&& stream_tool_update(
                                    old(self).chat_stream,
                                    final(self).chat_stream,
                                    invocation_id@,
                                    name@,
                                    ToolState::Failed,
                                    None,
                                    Some("Tool request arrived before stream authentication"@),
                                )
                            },
                        }
                    }
                },
                _ => r is None && chat_event_effect(*old(self), *final(self), event),
            },
    {
        match event {
            ChatStreamEvent::LocalToolRequest { invocation_id, name, input, approval_required, script, .. } => {
                if approval_required {
                    let summary = match &script {
                        Some(_) => {
                            let mut q = "Run ".to_owned();
                            q.append(name.as_str());
                            q.append("?");
                            q
                        },
                        None => approval_text,
                    };
                    self.apply_chat_stream_event(
                        ChatStreamEvent::LocalToolRequest {
                            invocation_id: invocation_id.clone(),
                            name: name.clone(),
                            input: crate::protocol::clone_value(&input),
                            approval_required,
                            summary,
                            script: None,
                        },
                    );
                    self.set_pending_tool_approval(PendingToolApproval { invocation_id, name, input, script });
                    return None;
                }
                match self.stream_auth() {
                    Some((stream_id, stream_secret)) => Some(
                        ToolRun {
                            stream_id,
                            stream_secret,
                            invocation_id,
                            name,
                            input,
                            script,
                            render_ui: false,
                        },
                    ),
                    None => {
                        self.local_tool_finished(
                            invocation_id,
                            name,
                            None,
                            Some("Tool request arrived before stream authentication".to_owned()),
                        );
                        None
                    },
                }
            },
            other => {
                self.apply_chat_stream_event(other);
                None
            },
        }
    }

    /// What follows the user's answer to an approval request: an approved
    /// call is run, a refused one is reported as refused; both are shown
    /// once reported. Before the stream is known the call fails in place.
    pub fn decide_approval(&mut self, approval: PendingToolApproval, approved: bool) -> (r: Option<ApprovalFollowUp>)
        ensures
            match (old(self).stream_id, old(self).stream_secret) {
                (Some(sid), Some(secret)) => {
                    &&& *final(self) == *old(self)
                    &&& if approved {
                        r == Some(
                            ApprovalFollowUp::Run(
                                ToolRun {
                                    stream_id: sid,
                                    stream_secret: secret,
                                    invocation_id: approval.invocation_id,
                                    name: approval.name,
                                    input: approval.input,
                                    script: approval.script,
                                    render_ui: true,
                                },
                            ),
                        )
                    } else {
                        r matches Some(ApprovalFollowUp::Report(rep)) && rep.stream_id == sid
                            && rep.stream_secret == secret && rep.invocation_id == approval.invocation_id
                            && rep.name == approval.name && rep.output is None && opt_chars(rep.error)
                            == Some("User rejected the file operation"@) && rep.render_ui
                    }
                },
                _ => {
                    &&& r is None
                    &&& *final(self) == (App { chat_stream: final(self).chat_stream, ..*old(self) })
                    &&& stream_tool_update(
                        old(self).chat_stream,
                        final(self).chat_stream,
                        approval.invocation_id@,
                        approval.name@,
                        ToolState::Failed,
                        None,
                        Some("Tool approval could not be sent before stream authentication"@),
                    )
                },
            },
    {
        match self.stream_auth() {
            None => {
                self.local_tool_finished(
                    approval.invocation_id,
                    approval.name,
                    None,
                    Some("Tool approval could not be sent before stream authentication".to_owned()),
                );
                None
            },
            Some((stream_id, stream_secret)) => {
                if approved {
                    Some(
                        ApprovalFollowUp::Run(
                            ToolRun {
                                stream_id,
                                stream_secret,
                                invocation_id: approval.invocation_id,
                                name: approval.name,
                                input: approval.input,
                                script: approval.script,
                                render_ui: true,
                            },
                        ),
                    )
                } else {
                    Some(
                        ApprovalFollowUp::Report(
                            ToolReport {
                                stream_id,
                                stream_secret,
                                invocation_id: approval.invocation_id,
                                name: approval.name,
                                output: None,
                                error: Some("User rejected the file operation".to_owned()),
                                render_ui: true,
                            },
                        ),
                    )
                }
            },
        }
    }
}

/// What is shown once a tool's result was posted to the server: nothing,
/// unless it is to be shown or the post failed; a failed post shows why,
/// and then no output.
pub open spec fn report_shown(
    name: Seq<char>,
    output: Option<Value>,
    error: Option<Seq<char>>,
    callback_error: Option<Seq<char>>,
    render_ui: bool,
) -> Option<(Option<Value>, Option<Seq<char>>)> {
    if render_ui || callback_error is Some {
        Some(
            (
                if callback_error is None {
                    match output {
                        Some(v) => Some(sanitized_output_value(name, v)),
                        None => None,
                    }
                } else {
                    None
                },
                match callback_error {
                    Some(e) => Some("Tool result callback failed: "@ + e),
                    None => error,
                },
            ),
        )
    } else {
        None
    }
}

pub fn report_outcome(
    name: &str,
    output: &Option<Value>,
    error: Option<String>,
    callback_error: Option<String>,
    render_ui: bool,
) -> (r: Option<(Option<Value>, Option<String>)>)
    ensures
        match (r, report_shown(name@, *output, opt_chars(error), opt_chars(callback_error), render_ui)) {
            (Some((o, e)), Some((o2, e2))) => o == o2 && opt_chars(e) == e2,
            (None, None) => true,
            _ => false,
        },
{
    if !render_ui && callback_error.is_none() {
        return None;
    }
    match callback_error {
        Some(e) => {
            let mut m = "Tool result callback failed: ".to_owned();
            m.append(e.as_str());
            Some((None, Some(m)))
        },
        None => {
            let shown = match output {
                Some(v) => Some(sanitized_output(name, v)),
                None => None,
            };
            Some((shown, error))
        },
    }
}

/// The shortest time an authored script may be given, in milliseconds.
pub const MIN_SCRIPT_TIMEOUT_MS: u64 = 100;

/// The arguments of an authored tool as the script gets them: the input's
/// JSON text, or `{}` should writing it fail.
pub open spec fn args_text(input: Value) -> Seq<char> {
    match json_text(input) {
        Some(t) => t,
        None => "{}"@,
    }
}

/// The sandbox run of an authored tool's script.
pub fn tier2_request(input: &Value, script: LocalToolScript) -> (r: SandboxRunRequest)
    ensures
        r.kind == (match script.language {
            ToolScriptLanguage::Python => SandboxRunKind::PythonScript,
            ToolScriptLanguage::Shell => SandboxRunKind::ShellScript,
        }),
        r.script == script.script,
        r.args_json@ == args_text(*input),
        r.timeout_ms == (if script.timeout_ms < MIN_SCRIPT_TIMEOUT_MS {
            MIN_SCRIPT_TIMEOUT_MS
        } else {
            script.timeout_ms
        }),
{
    let args_json = match json_to_string(input) {
        Some(t) => t,
        None => "{}".to_owned(),
    };
    let kind = match script.language {
        ToolScriptLanguage::Python => SandboxRunKind::PythonScript,
        ToolScriptLanguage::Shell => SandboxRunKind::ShellScript,
    };
    let timeout_ms = if script.timeout_ms < MIN_SCRIPT_TIMEOUT_MS {
        MIN_SCRIPT_TIMEOUT_MS
    } else {
        script.timeout_ms
    };
    SandboxRunRequest { kind, script: script.script, args_json, timeout_ms }
}

/// The exit code a run reports, or -1 when it has none.
pub open spec fn exit_of(code: Option<i32>) -> i32 {
    match code {
        Some(c) => c,
        None => -1i32,
    }
}

/// What a script printed, read as JSON where it is JSON.
pub open spec fn parsed_output(stdout: Seq<char>) -> Value {
    match json_parse_of(stdout) {
        Some(v) => v,
        None => json_string_value(stdout),
    }
}

/// The result of an authored tool from its sandbox run: a timeout or a
/// non-zero exit code is an error (with the error output, or the standard
/// output when that is empty); otherwise an object with the run's output
/// and a summary.
pub open spec fn tier2_result(r: SandboxRunResult) -> Result<Value, Seq<char>> {
    let exit = exit_of(r.exit_code);
    if r.timed_out {
        Err("Script timed out after "@ + decimal(r.duration_ms as nat) + "ms"@)
    } else if exit != 0 {
        Err(
            "Script exited with code "@ + signed_decimal(exit as int) + ": "@ + (if r.stderr@.len() == 0 {
                r.stdout@
            } else {
                r.stderr@
            }),
        )
    } else {
        Ok(
            json_object_value(
                seq![
                    ("job_id"@, json_string_value(r.job_id@)),
                    ("output"@, parsed_output(r.stdout@)),
                    ("stdout"@, json_string_value(r.stdout@)),
                    ("stderr"@, json_string_value(r.stderr@)),
                    ("exit_code"@, json_i64_value(exit as i64)),
                    ("duration_ms"@, json_u64_value(r.duration_ms)),
                    ("stdout_truncated"@, json_bool_value(r.stdout_truncated)),
                    ("stderr_truncated"@, json_bool_value(r.stderr_truncated)),
                    (
                        "summary"@,
                        json_string_value(
                            "Script exit "@ + signed_decimal(exit as int) + " in "@ + decimal(
                                r.duration_ms as nat,
                            ) + "ms"@,
                        ),
                    ),
                ],
            ),
        )
    }
}

/// The members of the object a successful run gives: the job's id, the
/// parsed output, both outputs as strings, exit code 0, the duration, the
/// two truncation flags and the summary.
pub open spec fn tier2_success_members(v: Value, r: SandboxRunResult) -> bool {
    &&& str_member(v, "job_id"@) == Some(r.job_id@)
    &&& json_member(v, "output"@) == Some(parsed_output(r.stdout@))
    &&& str_member(v, "stdout"@) == Some(r.stdout@)
    &&& str_member(v, "stderr"@) == Some(r.stderr@)
    &&& json_member(v, "exit_code"@) matches Some(c) && json_i64_of(c) == Some(0i64)
    &&& json_member(v, "duration_ms"@) matches Some(d) && json_u64_of(d) == Some(r.duration_ms)
    &&& json_member(v, "stdout_truncated"@) == Some(json_bool_value(r.stdout_truncated))
    &&& json_member(v, "stderr_truncated"@) == Some(json_bool_value(r.stderr_truncated))
    &&& str_member(v, "summary"@) == Some(
        "Script exit "@ + signed_decimal(0) + " in "@ + decimal(r.duration_ms as nat) + "ms"@,
    )
}

pub fn tier2_outcome(result: SandboxRunResult) -> (r: Result<Value, String>)
    ensures
        match (r, tier2_result(result)) {
            (Ok(v), Ok(v2)) => v == v2,
            (Err(e), Err(e2)) => e@ == e2,
            _ => false,
        },
        match r {
            Ok(v) => tier2_success_members(v, result),
            Err(_) => true,
        },
{
    if result.timed_out {
        let mut m = "Script timed out after ".to_owned();
        m.append(u64_to_string(result.duration_ms).as_str());
        m.append("ms");
        return Err(m);
    }
    let exit: i32 = match result.exit_code {
        Some(c) => c,
        None => -1,
    };
    if exit != 0 {
        let mut m = "Script exited with code ".to_owned();
        m.append(i64_to_string(exit as i64).as_str());
        m.append(": ");
        if result.stderr.as_str().is_empty() {
            m.append(result.stdout.as_str());
        } else {
            m.append(result.stderr.as_str());
        }
        return Err(m);
    }
    let parsed = match json_parse(result.stdout.as_str()) {
        Some(v) => v,
        None => json_string(result.stdout.clone()),
    };
    let mut summary = "Script exit ".to_owned();
    summary.append(i64_to_string(exit as i64).as_str());
    summary.append(" in ");
    summary.append(u64_to_string(result.duration_ms).as_str());
    summary.append("ms");
    let ghost job_v = result.job_id@;
    let ghost out_v = result.stdout@;
    let ghost err_v = result.stderr@;
    let ghost sum_v = summary@;
    let mut entries: Vec<(String, Value)> = Vec::new();
    entries.push(("job_id".to_owned(), json_string(result.job_id)));
    entries.push(("output".to_owned(), parsed));
    entries.push(("stdout".to_owned(), json_string(result.stdout)));
    entries.push(("stderr".to_owned(), json_string(result.stderr)));
    entries.push(("exit_code".to_owned(), json_i64(exit as i64)));
    entries.push(("duration_ms".to_owned(), json_u64(result.duration_ms)));
    entries.push(("stdout_truncated".to_owned(), json_bool(result.stdout_truncated)));
    entries.push(("stderr_truncated".to_owned(), json_bool(result.stderr_truncated)));
    entries.push(("summary".to_owned(), json_string(summary)));
    let ghost t = entries@;
    proof {
        reveal_strlit("job_id");
        reveal_strlit("output");
        reveal_strlit("stdout");
        reveal_strlit("stderr");
        reveal_strlit("exit_code");
        reveal_strlit("duration_ms");
        reveal_strlit("stdout_truncated");
        reveal_strlit("stderr_truncated");
        reveal_strlit("summary");
        assert forall|i: int, j: int| 0 <= i < t.len() && 0 <= j < t.len() && i != j implies (#[trigger] t[i]).0@
            != (#[trigger] t[j]).0@ by {
            assert(t[i].0@.len() != t[j].0@.len() || t[i].0@[0] != t[j].0@[0] || t[i].0@[3] != t[j].0@[3]);
        }
        assert(entry_views(entries@) =~= seq![
            ("job_id"@, json_string_value(job_v)),
            ("output"@, parsed_output(out_v)),
            ("stdout"@, json_string_value(out_v)),
            ("stderr"@, json_string_value(err_v)),
            ("exit_code"@, json_i64_value(exit as i64)),
            ("duration_ms"@, json_u64_value(result.duration_ms)),
            ("stdout_truncated"@, json_bool_value(result.stdout_truncated)),
            ("stderr_truncated"@, json_bool_value(result.stderr_truncated)),
            ("summary"@, json_string_value(sum_v)),
        ]);
    }
    let v = json_object(entries);
    proof {
        assert(json_member(v, t[0].0@) == Some(t[0].1));
        assert(json_member(v, t[1].0@) == Some(t[1].1));
        assert(json_member(v, t[2].0@) == Some(t[2].1));
        assert(json_member(v, t[3].0@) == Some(t[3].1));
        assert(json_member(v, t[4].0@) == Some(t[4].1));
        assert(json_member(v, t[5].0@) == Some(t[5].1));
        assert(json_member(v, t[6].0@) == Some(t[6].1));
        assert(json_member(v, t[7].0@) == Some(t[7].1));
        assert(json_member(v, t[8].0@) == Some(t[8].1));
    }
    Ok(v)
}

/// How long the editor's runs and drafts may run, in milliseconds.
pub const EDITOR_TIMEOUT_MS: u64 = 10_000;

/// The arguments the editor runs a script with: the argument field read as
/// JSON, or an empty object.
pub open spec fn editor_args(text: Seq<char>) -> Value {
    match json_parse_of(text) {
        Some(v) => v,
        None => json_object_value(Seq::empty()),
    }
}

/// A run of the editor's script: refused when the script is blank.
pub fn editor_run_request(snapshot: &ToolEditorSnapshot) -> (r: Result<(Value, LocalToolScript), String>)
    ensures
        is_blank(snapshot.script@) ==> (r matches Err(m) && m@ == "Script is empty."@),
        !is_blank(snapshot.script@) ==> (r matches Ok((args, script)) && args == editor_args(
            snapshot.args@,
        ) && script.language == snapshot.language && script.script == snapshot.script
            && script.timeout_ms == EDITOR_TIMEOUT_MS),
{
    if blank(snapshot.script.as_str()) {
        return Err("Script is empty.".to_owned());
    }
    let args = match json_parse(snapshot.args.as_str()) {
        Some(v) => v,
        None => {
            let r = json_object(Vec::new());
            proof {
                assert(entry_views(Seq::<(String, Value)>::empty()) =~= Seq::<(Seq<char>, Value)>::empty());
            }
            r
        },
    };
    Ok(
        (
            args,
            LocalToolScript {
                language: snapshot.language,
                script: snapshot.script.clone(),
                timeout_ms: EDITOR_TIMEOUT_MS,
            },
        ),
    )
}

/// The string member `key` of a run's result, or nothing.
pub open spec fn str_field_or_empty(v: Value, key: Seq<char>) -> Seq<char> {
    match str_member(v, key) {
        Some(s) => s,
        None => Seq::empty(),
    }
}

/// What the editor shows of a run of its script.
pub fn editor_run_result(outcome: Result<Value, String>) -> (r: ToolEditorResult)
    ensures
        match outcome {
            Ok(v) => {
                let d = match json_member(v, "duration_ms"@) {
                    Some(n) => match json_u64_of(n) {
                        Some(x) => x,
                        None => 0,
                    },
                    None => 0,
                };
                &&& r.kind == ToolEditorResultKind::Success
                &&& r.message@ == "Ran in "@ + decimal(d as nat) + "ms"@
                &&& r.stdout@ == str_field_or_empty(v, "stdout"@)
                &&& r.stderr@ == str_field_or_empty(v, "stderr"@)
                &&& r.exit_code == (match json_member(v, "exit_code"@) {
                    Some(n) => match json_i64_of(n) {
                        Some(x) => Some(x as i32),
                        None => None,
                    },
                    None => None,
                })
                &&& r.duration_ms == d
            },
            Err(e) => {
                &&& r.kind == ToolEditorResultKind::Failure
                &&& r.message == e
                &&& r.stdout@.len() == 0
                &&& r.stderr@.len() == 0
                &&& r.exit_code is None
                &&& r.duration_ms == 0
            },
        },
{
    match outcome {
        Ok(v) => {
            let stdout = match crate::json::get_str(&v, "stdout") {
                Some(s) => s,
                None => String::new(),
            };
            let stderr = match crate::json::get_str(&v, "stderr") {
                Some(s) => s,
                None => String::new(),
            };
            let exit_code = match json_field(&v, "exit_code") {
                Some(n) => match json_as_i64(&n) {
                    Some(x) => Some(x as i32),
                    None => None,
                },
                None => None,
            };
            let duration_ms: u64 = match json_field(&v, "duration_ms") {
                Some(n) => match json_as_u64(&n) {
                    Some(x) => x,
                    None => 0,
                },
                None => 0,
            };
            let mut message = "Ran in ".to_owned();
            message.append(u64_to_string(duration_ms).as_str());
            message.append("ms");
            ToolEditorResult {
                kind: ToolEditorResultKind::Success,
                message,
                stdout,
                stderr,
                exit_code,
                duration_ms,
            }
        },
        Err(e) => ToolEditorResult {
            kind: ToolEditorResultKind::Failure,
            message: e,
            stdout: String::new(),
            stderr: String::new(),
            exit_code: None,
            duration_ms: 0,
        },
    }
}

/// The schema a draft is saved with: the argument field read as JSON, or an
/// object schema.
pub open spec fn draft_schema(text: Seq<char>) -> Value {
    match json_parse_of(text) {
        Some(v) => v,
        None => json_object_value(seq![("type"@, json_string_value("object"@))]),
    }
}

/// A draft of the editor's tool: it needs a name and a script; it is saved
/// as a read-only tool of the scratchpad.
pub fn save_draft_params(snapshot: &ToolEditorSnapshot) -> (r: Result<SaveDraftParams, String>)
    ensures
        snapshot.name@.len() == 0 ==> (r matches Err(m) && m@ == "Tool name is required."@),
        snapshot.name@.len() > 0 && is_blank(snapshot.script@) ==> (r matches Err(m) && m@
            == "Script is empty."@),
        snapshot.name@.len() > 0 && !is_blank(snapshot.script@) ==> (r matches Ok(p) && p.name
            == snapshot.name && p.description@ == "Tier-2 tool '"@ + snapshot.name@ + "'"@ && p.language
            == snapshot.language && p.script == snapshot.script && p.args_schema == draft_schema(
            snapshot.args@,
        ) && p.output_schema is None && p.tests@.len() == 0 && p.risk == ToolRisk::ReadOnly
            && p.timeout_ms == 10_000 && p.owner@ == "scratchpad"@),
{
    if snapshot.name.as_str().is_empty() {
        return Err("Tool name is required.".to_owned());
    }
    if blank(snapshot.script.as_str()) {
        return Err("Script is empty.".to_owned());
    }
    let args_schema = match json_parse(snapshot.args.as_str()) {
        Some(v) => v,
        None => {
            let mut entries: Vec<(String, Value)> = Vec::new();
            entries.push(("type".to_owned(), json_string("object".to_owned())));
            let r = json_object(entries);
            proof {
                assert(entry_views(entries@) =~= seq![("type"@, json_string_value("object"@))]);
            }
            r
        },
    };
    let mut description = "Tier-2 tool '".to_owned();
    description.append(snapshot.name.as_str());
    description.append("'");
    Ok(
        SaveDraftParams {
            name: snapshot.name.clone(),
            description,
            language: snapshot.language,
            script: snapshot.script.clone(),
            args_schema,
            output_schema: None,
            tests: Vec::new(),
            risk: ToolRisk::ReadOnly,
            timeout_ms: 10_000,
            owner: "scratchpad".to_owned(),
        },
    )
}

/// The draft to publish: the last one saved.
pub fn register_target(snapshot: &ToolEditorSnapshot) -> (r: Result<String, String>)
    ensures
        match snapshot.last_draft_version_id {
            Some(v) => r == Ok::<String, String>(v),
            None => r matches Err(m) && m@ == "Save a draft first (Ctrl+S), then publish."@,
        },
{
    match &snapshot.last_draft_version_id {
        Some(v) => Ok(v.clone()),
        None => Err("Save a draft first (Ctrl+S), then publish.".to_owned()),
    }
}

/// The request to author a tool from the editor: it needs a description;
/// empty hints are left out.
pub fn author_request(snapshot: &ToolEditorSnapshot) -> (r: Result<AuthorRequest, String>)
    ensures
        snapshot.description@.len() == 0 ==> (r matches Err(m) && m@ == "Describe the tool first."@),
        snapshot.description@.len() > 0 ==> (r matches Ok(q) && q.description == snapshot.description
            && (if snapshot.input_hint@.len() == 0 {
            q.input_hint is None
        } else {
            q.input_hint == Some(snapshot.input_hint)
        }) && (if snapshot.output_hint@.len() == 0 {
            q.output_hint is None
        } else {
            q.output_hint == Some(snapshot.output_hint)
        })),
{
    if snapshot.description.as_str().is_empty() {
        return Err("Describe the tool first.".to_owned());
    }
    let input_hint = if snapshot.input_hint.as_str().is_empty() {
        None
    } else {
        Some(snapshot.input_hint.clone())
    };
    let output_hint = if snapshot.output_hint.as_str().is_empty() {
        None
    } else {
        Some(snapshot.output_hint.clone())
    };
    Ok(AuthorRequest { description: snapshot.description.clone(), input_hint, output_hint })
}

} // verus!
