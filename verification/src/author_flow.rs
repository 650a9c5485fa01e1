//! Following the server while it authors a tool for the editor: what each
//! event of the authoring stream asks the client to do.
use vstd::prelude::*;
use vstd::string::*;
use vstd::utf8::encode_utf8;
use serde_json::Value;
use crate::guard::{trim_str, trimmed};
use crate::json::{json_text, json_to_string};
use crate::protocol::{
    opt_chars, ChatStreamEvent, LocalToolScript, ToolResultParams, ToolScriptLanguage, ToolState,
};
use crate::text::{from_chars, to_chars};

verus! {

/// How a tool state is written in progress lines.
pub open spec fn state_text(s: ToolState) -> Seq<char> {
    match s {
        ToolState::Streaming => "Streaming"@,
        ToolState::Calling => "Calling"@,
        ToolState::AwaitingApproval => "AwaitingApproval"@,
        ToolState::Complete => "Complete"@,
        ToolState::Failed => "Failed"@,
    }
}

pub fn state_name(s: ToolState) -> (r: &'static str)
    ensures
        r@ == state_text(s),
{
    match s {
        ToolState::Streaming => "Streaming",
        ToolState::Calling => "Calling",
        ToolState::AwaitingApproval => "AwaitingApproval",
        ToolState::Complete => "Complete",
        ToolState::Failed => "Failed",
    }
}

/// How many UTF-8 bytes a character takes.
pub open spec fn char_bytes(c: char) -> nat {
    encode_utf8(seq![c]).len()
}

/// The first characters of `t` that take exactly `n` bytes, if a character
/// does not straddle that point.
pub open spec fn byte_prefix(t: Seq<char>, n: nat) -> Option<Seq<char>>
    decreases t.len(),
{
    if n == 0 {
        Some(Seq::empty())
    } else if t.len() == 0 {
        None
    } else if char_bytes(t[0]) > n {
        None
    } else {
        match byte_prefix(t.drop_first(), (n - char_bytes(t[0])) as nat) {
            Some(p) => Some(seq![t[0]] + p),
            None => None,
        }
    }
}

/// A text cut for a progress line: one of more than 64 bytes keeps its
/// first 63 bytes and an ellipsis; `None` where that cut would split a
/// character.
pub open spec fn short_text(t: Seq<char>) -> Option<Seq<char>> {
    if encode_utf8(t).len() > 64 {
        match byte_prefix(t, 63) {
            Some(p) => Some(p + seq!['\u{2026}']),
            None => None,
        }
    } else {
        Some(t)
    }
}

/// The arguments of a call as a progress line shows them: their JSON text,
/// cut as `short_text` says.
pub open spec fn short_args_of(v: Value) -> Option<Seq<char>> {
    match json_text(v) {
        Some(t) => short_text(t),
        None => None,
    }
}

proof fn lemma_encode_concat(a: Seq<char>, b: Seq<char>)
    ensures
        encode_utf8(a + b) == encode_utf8(a) + encode_utf8(b),
    decreases a.len(),
{
    if a.len() == 0 {
        assert(a + b =~= b);
        assert(encode_utf8(a) + encode_utf8(b) =~= encode_utf8(b));
    } else {
        lemma_encode_concat(a.drop_first(), b);
        assert((a + b).drop_first() =~= a.drop_first() + b);
        assert((a + b)[0] == a[0]);
        assert(encode_utf8(a + b) =~= encode_utf8(a) + encode_utf8(b));
    }
}

proof fn lemma_char_bytes(c: char)
    ensures
        1 <= char_bytes(c) <= 4,
{
    assert(seq![c].drop_first() =~= Seq::<char>::empty());
    assert(encode_utf8(seq![c]) == vstd::utf8::encode_scalar(c as u32) + encode_utf8(Seq::<char>::empty()));
}

fn char_width(c: char) -> (r: usize)
    ensures
        r == char_bytes(c),
{
    let mut v: Vec<char> = Vec::new();
    v.push(c);
    let s = from_chars(&v);
    assert(s@ =~= seq![c]);
    proof {
        lemma_char_bytes(c);
    }
    s.as_str().len()
}

pub fn short_args(value: &Value) -> (r: Option<String>)
    ensures
        opt_chars(r) == short_args_of(*value),
{
    let s = match json_to_string(value) {
        Some(s) => s,
        None => {
            return None;
        },
    };
    let t = to_chars(s.as_str());
    let mut bytes: usize = 0;
    let mut k: usize = 0;
    assert(t@.take(0) =~= Seq::<char>::empty());
    while k < t.len() && bytes <= 64
        invariant
            t@ == s@,
            k <= t@.len(),
            bytes <= 68,
            bytes == encode_utf8(t@.take(k as int)).len(),
        decreases t@.len() - k,
    {
        let w = char_width(t[k]);
        proof {
            lemma_char_bytes(t@[k as int]);
            assert(t@.take(k + 1) =~= t@.take(k as int) + seq![t@[k as int]]);
            lemma_encode_concat(t@.take(k as int), seq![t@[k as int]]);
        }
        bytes = bytes + w;
        k = k + 1;
    }
    proof {
        assert(t@ =~= t@.take(k as int) + t@.skip(k as int));
        lemma_encode_concat(t@.take(k as int), t@.skip(k as int));
    }
    if bytes <= 64 {
        assert(t@.skip(k as int) =~= Seq::<char>::empty());
        assert(encode_utf8(t@.skip(k as int)) =~= Seq::<u8>::empty());
        return Some(s);
    }
    let mut out: Vec<char> = Vec::new();
    let mut rem: usize = 63;
    let mut i: usize = 0;
    assert(t@.skip(0) =~= t@);
    assert(Seq::<char>::empty() + t@ =~= t@);
    while rem > 0
        invariant
            t@ == s@,
            encode_utf8(t@).len() > 64,
            opt_chars(Some(s)) == json_text(*value),
            i <= t@.len(),
            rem <= 63,
            byte_prefix(t@, 63) == match byte_prefix(t@.skip(i as int), rem as nat) {
                Some(p) => Some(out@ + p),
                None => None::<Seq<char>>,
            },
        decreases t@.len() - i,
    {
        if i >= t.len() {
            assert(t@.skip(i as int).len() == 0);
            return None;
        }
        let c = t[i];
        let w = char_width(c);
        assert(t@.skip(i as int)[0] == c);
        assert(t@.skip(i as int).drop_first() =~= t@.skip(i + 1));
        if w > rem {
            return None;
        }
        proof {
            let rest = byte_prefix(t@.skip(i + 1), (rem - w) as nat);
            if rest is Some {
                assert(out@ + (seq![c] + rest->0) =~= out@.push(c) + rest->0);
            }
        }
        out.push(c);
        rem = rem - w;
        i = i + 1;
    }
    assert(out@ + Seq::<char>::empty() =~= out@);
    out.push('\u{2026}');
    Some(from_chars(&out))
}

/// Where the following of an authoring stream stands: the stream's id and
/// secret once announced, and whether a result or an error has come.
pub struct AuthorFlow {
    pub stream_id: String,
    pub stream_secret: String,
    pub finished: bool,
}

/// What an event of the authoring stream asks the client to do.
#[allow(inconsistent_fields)]
pub enum AuthorAction {
    Nothing,
    /// Show a line of progress.
    Progress(String),
    /// Run the script in the sandbox and post its result; `progress` is the
    /// line to show first (none where cutting it would split a character).
    RunSandbox { invocation_id: String, input: Value, script: LocalToolScript, progress: Option<String> },
    /// Post this refusal of a call that authoring cannot serve.
    Refuse(ToolResultParams),
    /// The tool is authored.
    Done { version_id: String, name: String, language: ToolScriptLanguage, script: String, args_schema: Value },
    /// Authoring failed.
    Failed(String),
}

impl AuthorFlow {
    pub fn new() -> (r: Self)
        ensures
            r.stream_id@.len() == 0,
            r.stream_secret@.len() == 0,
            !r.finished,
    {
        AuthorFlow { stream_id: String::new(), stream_secret: String::new(), finished: false }
    }

    /// Takes in one event of the authoring stream.
    pub fn step(&mut self, event: ChatStreamEvent) -> (r: AuthorAction)
        ensures
            match event {
                ChatStreamEvent::StreamReady { stream_id, stream_secret } => {
                    &&& *final(self) == (AuthorFlow { stream_id, stream_secret, ..*old(self) })
                    &&& r is Nothing
                },
                ChatStreamEvent::ToolUpdate { name, state, .. } => {
                    &&& *final(self) == *old(self)
                    &&& r matches AuthorAction::Progress(l)
                    &&& l@ == "tool: "@ + name@ + " -> "@ + state_text(state)
                },
                ChatStreamEvent::TextDelta { text } => {
                    &&& *final(self) == *old(self)
                    &&& if trimmed(text@).len() > 0 {
                        &&& r matches AuthorAction::Progress(l)
                        &&& l@ == "agent: "@ + trimmed(text@)
                    } else {
                        r is Nothing
                    }
                },
                ChatStreamEvent::LocalToolRequest { invocation_id, name, input, script, .. } => {
                    &&& *final(self) == *old(self)
                    &&& match script {
                        Some(s) => {
                            &&& r matches AuthorAction::RunSandbox { invocation_id: i2, input: in2, script: s2, progress }
                            &&& i2 == invocation_id
                            &&& in2 == input
                            &&& s2 == s
                            &&& opt_chars(progress) == match short_args_of(input) {
                                Some(t) => Some("sandbox_run: "@ + t),
                                None => None,
                            }
                        },
                        None => {
                            &&& r matches AuthorAction::Refuse(p)
                            &&& p.stream_id == old(self).stream_id
                            &&& p.stream_secret == old(self).stream_secret
                            &&& p.invocation_id == invocation_id
                            &&& p.output is None
                            &&& opt_chars(p.error) == Some(
                                "Tier-1 tool '"@ + name@ + "' is not available during tool authoring"@,
                            )
                        },
                    }
                },
                ChatStreamEvent::AuthorDone { version_id, name, language, script, args_schema, .. } => {
                    &&& *final(self) == (AuthorFlow { finished: true, ..*old(self) })
                    &&& r == AuthorAction::Done { version_id, name, language, script, args_schema }
                },
                ChatStreamEvent::Error { message } => {
                    &&& *final(self) == (AuthorFlow { finished: true, ..*old(self) })
                    &&& r == AuthorAction::Failed(message)
                },
                _ => *final(self) == *old(self) && r is Nothing,
            },
    {
        match event {
            ChatStreamEvent::StreamReady { stream_id, stream_secret } => {
                self.stream_id = stream_id;
                self.stream_secret = stream_secret;
                AuthorAction::Nothing
            },
            ChatStreamEvent::ToolUpdate { name, state, .. } => {
                let mut l = "tool: ".to_owned();
                l.append(name.as_str());
                l.append(" -> ");
                l.append(state_name(state));
                AuthorAction::Progress(l)
            },
            ChatStreamEvent::TextDelta { text } => {
                let t = trim_str(text.as_str());
                if t.as_str().is_empty() {
                    AuthorAction::Nothing
                } else {
                    let mut l = "agent: ".to_owned();
                    l.append(t.as_str());
                    AuthorAction::Progress(l)
                }
            },
            ChatStreamEvent::LocalToolRequest { invocation_id, name, input, script, .. } => {
                match script {
                    Some(s) => {
                        let progress = match short_args(&input) {
                            Some(t) => {
                                let mut l = "sandbox_run: ".to_owned();
                                l.append(t.as_str());
                                Some(l)
                            },
                            None => None,
                        };
                        AuthorAction::RunSandbox { invocation_id, input, script: s, progress }
                    },
                    None => {
                        let mut m = "Tier-1 tool '".to_owned();
                        m.append(name.as_str());
                        m.append("' is not available during tool authoring");
                        AuthorAction::Refuse(
                            ToolResultParams {
                                stream_id: self.stream_id.clone(),
                                stream_secret: self.stream_secret.clone(),
                                invocation_id,
                                output: None,
                                error: Some(m),
                            },
                        )
                    },
                }
            },
            ChatStreamEvent::AuthorDone { version_id, name, language, script, args_schema, .. } => {
                self.finished = true;
                AuthorAction::Done { version_id, name, language, script, args_schema }
            },
            ChatStreamEvent::Error { message } => {
                self.finished = true;
                AuthorAction::Failed(message)
            },
            _ => AuthorAction::Nothing,
        }
    }

    /// The result of a sandbox run, posted back under the stream's id and
    /// secret.
    pub fn sandbox_report(&self, invocation_id: String, outcome: Result<Value, String>) -> (r: ToolResultParams)
        ensures
            r.stream_id == self.stream_id,
            r.stream_secret == self.stream_secret,
            r.invocation_id == invocation_id,
            match outcome {
                Ok(v) => r.output == Some(v) && r.error is None,
                Err(e) => r.output is None && r.error == Some(e),
            },
    {
        let (output, error) = match outcome {
            Ok(v) => (Some(v), None),
            Err(e) => (None, Some(e)),
        };
        ToolResultParams {
            stream_id: self.stream_id.clone(),
            stream_secret: self.stream_secret.clone(),
            invocation_id,
            output,
            error,
        }
    }

    /// The failure to report when the stream ended without a result.
    pub fn end(&self) -> (r: Option<String>)
        ensures
            self.finished ==> r is None,
            !self.finished ==> (r matches Some(m) && m@ == "Generation stream ended without a result."@),
    {
        if self.finished {
            None
        } else {
            Some("Generation stream ended without a result.".to_owned())
        }
    }
}

} // verus!
