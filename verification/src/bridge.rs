//! The server's side of local tool calls: each call waits, under the key of
//! its stream and invocation, for the client to post the result, which is
//! accepted only with the stream's secret.
use vstd::prelude::*;
use vstd::string::*;
use serde_json::Value;
use crate::ids::{random_uuid_string, uuid_text, v4_marks};
use crate::protocol::{ToolResultAck, ToolResultParams};
use crate::text::str_eq;

verus! {

/// How a stream is named and how the client proves it owns it.
pub struct StreamAuth {
    pub stream_id: String,
    pub stream_secret: String,
}

impl StreamAuth {
    pub fn duplicate(&self) -> (r: Self)
        ensures
            r == *self,
    {
        StreamAuth { stream_id: self.stream_id.clone(), stream_secret: self.stream_secret.clone() }
    }
}

/// A new stream: a fresh random id and secret, both UUIDs.
pub fn new_stream() -> (r: StreamAuth)
    ensures
        exists|u: u128| r.stream_id@ == uuid_text(u),
        exists|u: u128| r.stream_secret@ == uuid_text(u),
        v4_marks(r.stream_id@),
        v4_marks(r.stream_secret@),
{
    StreamAuth { stream_id: random_uuid_string(), stream_secret: random_uuid_string() }
}

/// Why a local tool call gave no result.
pub enum BridgeError {
    ClientDisconnected,
    TimedOut,
    Rejected(String),
}

impl BridgeError {
    pub open spec fn text(&self) -> Seq<char> {
        match self {
            BridgeError::ClientDisconnected => "local tool client disconnected"@,
            BridgeError::TimedOut => "local tool timed out"@,
            BridgeError::Rejected(m) => m@,
        }
    }

    pub fn message(&self) -> (r: String)
        ensures
            r@ == self.text(),
    {
        match self {
            BridgeError::ClientDisconnected => "local tool client disconnected".to_owned(),
            BridgeError::TimedOut => "local tool timed out".to_owned(),
            BridgeError::Rejected(m) => m.clone(),
        }
    }
}

/// How long the server waits for the client's result, in seconds.
pub const LOCAL_TOOL_TIMEOUT_SECS: u64 = 120;

/// What came of waiting for a local tool's result: the wait ran out, the
/// client went away, or the client answered.
pub enum Reply {
    TimedOut,
    Dropped,
    Answered(Result<Value, String>),
}

/// The outcome of a local tool call from what came of the wait.
pub fn settle_reply(reply: Reply) -> (r: Result<Value, BridgeError>)
    ensures
        reply is TimedOut ==> r matches Err(BridgeError::TimedOut),
        reply is Dropped ==> r matches Err(BridgeError::ClientDisconnected),
        reply matches Reply::Answered(Ok(v)) ==> r == Ok::<Value, BridgeError>(v),
        reply matches Reply::Answered(Err(m)) ==> (r matches Err(BridgeError::Rejected(e)) && e == m),
{
    match reply {
        Reply::TimedOut => Err(BridgeError::TimedOut),
        Reply::Dropped => Err(BridgeError::ClientDisconnected),
        Reply::Answered(Ok(v)) => Ok(v),
        Reply::Answered(Err(m)) => Err(BridgeError::Rejected(m)),
    }
}

/// A local tool call that waits for its result; `ticket` names the channel
/// its result goes to.
pub struct PendingCall {
    pub stream_id: String,
    pub invocation_id: String,
    pub stream_secret: String,
    pub ticket: u64,
}

/// The key and the content of a waiting call.
pub open spec fn call_key(c: PendingCall) -> (Seq<char>, Seq<char>) {
    (c.stream_id@, c.invocation_id@)
}

/// The waiting calls by key; a later call with the same key hides an
/// earlier one.
pub open spec fn calls_map(s: Seq<PendingCall>) -> Map<(Seq<char>, Seq<char>), (Seq<char>, u64)>
    decreases s.len(),
{
    if s.len() == 0 {
        Map::empty()
    } else {
        calls_map(s.drop_last()).insert(call_key(s.last()), (s.last().stream_secret@, s.last().ticket))
    }
}

pub open spec fn keys_distinct(s: Seq<PendingCall>) -> bool {
    forall|i: int, j: int| 0 <= i < j < s.len() ==> call_key(#[trigger] s[i]) != call_key(#[trigger] s[j])
}

proof fn lemma_calls_keys(s: Seq<PendingCall>, k: (Seq<char>, Seq<char>))
    ensures
        calls_map(s).contains_key(k) <==> exists|i: int| 0 <= i < s.len() && call_key(#[trigger] s[i]) == k,
    decreases s.len(),
{
    if s.len() > 0 {
        lemma_calls_keys(s.drop_last(), k);
        if calls_map(s.drop_last()).contains_key(k) {
            let i = choose|i: int| 0 <= i < s.drop_last().len() && call_key(#[trigger] s.drop_last()[i]) == k;
            assert(s[i] == s.drop_last()[i]);
        }
        if exists|i: int| 0 <= i < s.len() && call_key(#[trigger] s[i]) == k {
            let i = choose|i: int| 0 <= i < s.len() && call_key(#[trigger] s[i]) == k;
            if i < s.len() - 1 {
                assert(s.drop_last()[i] == s[i]);
            }
        }
    }
}

proof fn lemma_calls_index(s: Seq<PendingCall>, i: int)
    requires
        keys_distinct(s),
        0 <= i < s.len(),
    ensures
        calls_map(s).contains_key(call_key(s[i])),
        calls_map(s)[call_key(s[i])] == (s[i].stream_secret@, s[i].ticket),
    decreases s.len(),
{
    if i < s.len() - 1 {
        lemma_calls_index(s.drop_last(), i);
        assert(s.drop_last()[i] == s[i]);
    }
}

proof fn lemma_calls_remove(s: Seq<PendingCall>, i: int)
    requires
        keys_distinct(s),
        0 <= i < s.len(),
    ensures
        calls_map(s.remove(i)) == calls_map(s).remove(call_key(s[i])),
        keys_distinct(s.remove(i)),
    decreases s.len(),
{
    let t = s.remove(i);
    if i == s.len() - 1 {
        assert(t =~= s.drop_last());
        lemma_calls_keys(s.drop_last(), call_key(s[i]));
        if calls_map(s.drop_last()).contains_key(call_key(s[i])) {
            let j = choose|j: int| 0 <= j < s.drop_last().len() && call_key(#[trigger] s.drop_last()[j]) == call_key(s[i]);
            assert(s[j] == s.drop_last()[j]);
        }
        assert(calls_map(t) =~= calls_map(s).remove(call_key(s[i])));
    } else {
        lemma_calls_remove(s.drop_last(), i);
        assert(t.drop_last() =~= s.drop_last().remove(i));
        assert(t.last() == s.last());
        assert(call_key(s.last()) != call_key(s[i]));
        assert(calls_map(t) =~= calls_map(s).remove(call_key(s[i])));
    }
    assert forall|a: int, b: int| 0 <= a < b < t.len() implies call_key(#[trigger] t[a]) != call_key(
        #[trigger] t[b],
    ) by {
        let a2 = if a < i { a } else { a + 1 };
        let b2 = if b < i { b } else { b + 1 };
        assert(t[a] == s[a2] && t[b] == s[b2]);
    }
}

/// The local tool calls that wait for their results.
pub struct PendingCalls {
    calls: Vec<PendingCall>,
}

impl View for PendingCalls {
    type V = Map<(Seq<char>, Seq<char>), (Seq<char>, u64)>;

    closed spec fn view(&self) -> Map<(Seq<char>, Seq<char>), (Seq<char>, u64)> {
        calls_map(self.calls@)
    }
}

impl PendingCalls {
    #[verifier::type_invariant]
    closed spec fn distinct(self) -> bool {
        keys_distinct(self.calls@)
    }

    pub fn new() -> (r: Self)
        ensures
            r@ == Map::<(Seq<char>, Seq<char>), (Seq<char>, u64)>::empty(),
    {
        PendingCalls { calls: Vec::new() }
    }

    fn position(&self, stream_id: &str, invocation_id: &str) -> (r: Option<usize>)
        ensures
            match r {
                Some(i) => i < self.calls@.len() && call_key(self.calls@[i as int]) == (stream_id@, invocation_id@),
                None => !self@.contains_key((stream_id@, invocation_id@)),
            },
    {
        let mut i: usize = 0;
        while i < self.calls.len()
            invariant
                i <= self.calls@.len(),
                forall|j: int| 0 <= j < i ==> call_key(#[trigger] self.calls@[j]) != (stream_id@, invocation_id@),
            decreases self.calls.len() - i,
        {
            if str_eq(self.calls[i].stream_id.as_str(), stream_id) && str_eq(
                self.calls[i].invocation_id.as_str(),
                invocation_id,
            ) {
                return Some(i);
            }
            i = i + 1;
        }
        proof {
            lemma_calls_keys(self.calls@, (stream_id@, invocation_id@));
        }
        None
    }

    /// Takes the waiting call with the given key out of the table.
    pub fn remove(&mut self, stream_id: &str, invocation_id: &str) -> (r: Option<PendingCall>)
        ensures
            final(self)@ == old(self)@.remove((stream_id@, invocation_id@)),
            old(self)@.contains_key((stream_id@, invocation_id@)) ==> (r matches Some(c) && call_key(
                c,
            ) == (stream_id@, invocation_id@) && (c.stream_secret@, c.ticket) == old(
            self)@[(stream_id@, invocation_id@)]),
            !old(self)@.contains_key((stream_id@, invocation_id@)) ==> r is None,
    {
        proof {
            use_type_invariant(&*self);
        }
        match self.position(stream_id, invocation_id) {
            Some(i) => {
                proof {
                    lemma_calls_index(self.calls@, i as int);
                    lemma_calls_remove(self.calls@, i as int);
                }
                let mut calls = Vec::new();
                std::mem::swap(&mut calls, &mut self.calls);
                let c = calls.remove(i);
                self.calls = calls;
                Some(c)
            },
            None => {
                assert(old(self)@.remove((stream_id@, invocation_id@)) =~= old(self)@);
                None
            },
        }
    }

    /// Records a call that waits for its result (replacing one with the
    /// same key).
    pub fn insert(&mut self, call: PendingCall)
        ensures
            final(self)@ == old(self)@.insert(call_key(call), (call.stream_secret@, call.ticket)),
    {
        let ghost k = call_key(call);
        let _ = self.remove(call.stream_id.as_str(), call.invocation_id.as_str());
        proof {
            use_type_invariant(&*self);
        }
        let ghost before = self.calls@;
        proof {
            lemma_calls_keys(before, k);
        }
        let mut calls = Vec::new();
        std::mem::swap(&mut calls, &mut self.calls);
        calls.push(call);
        assert(calls@.drop_last() =~= before);
        assert forall|a: int, b: int| 0 <= a < b < calls@.len() implies call_key(#[trigger] calls@[a])
            != call_key(#[trigger] calls@[b]) by {
            assert(before[a] == calls@[a]);
            if b < calls@.len() - 1 {
                assert(before[b] == calls@[b]);
            }
        }
        self.calls = calls;
        assert(calls_map(self.calls@) =~= old(self)@.insert(k, (call.stream_secret@, call.ticket)));
    }
}

/// A call that was recorded is found again under its key, with its secret
/// and ticket, and is gone after being taken; the other calls stay.
pub proof fn law_taken_as_recorded(
    m: Map<(Seq<char>, Seq<char>), (Seq<char>, u64)>,
    key: (Seq<char>, Seq<char>),
    secret: Seq<char>,
    ticket: u64,
    other: (Seq<char>, Seq<char>),
)
    requires
        other != key,
    ensures
        m.insert(key, (secret, ticket)).contains_key(key),
        m.insert(key, (secret, ticket))[key] == (secret, ticket),
        !m.insert(key, (secret, ticket)).remove(key).contains_key(key),
        m.insert(key, (secret, ticket)).remove(key).contains_key(other) == m.contains_key(other),
{
}

/// What the client's posted result settles: the ticket of the waiting call
/// and the result it gets.
pub open spec fn completion(
    found: Option<(Seq<char>, u64)>,
    params: ToolResultParams,
) -> Result<(u64, Result<Value, Seq<char>>), Seq<char>> {
    match found {
        None => Err("unknown or expired tool invocation"@),
        Some((secret, ticket)) => if secret != params.stream_secret@ {
            Err("invalid stream secret"@)
        } else {
            Ok(
                (
                    ticket,
                    match (params.output, params.error) {
                        (Some(o), None) => Ok(o),
                        (_, Some(e)) => Err(e@),
                        (None, None) => Err("tool result did not include output or error"@),
                    },
                ),
            )
        },
    }
}

/// Settles the call that a posted result names: it is taken out of the
/// table whatever follows; with the right secret its waiting side gets the
/// output, or the error (which wins when both are given).
pub fn complete(calls: &mut PendingCalls, params: ToolResultParams) -> (r: Result<(u64, Result<Value, String>, ToolResultAck), String>)
    ensures
        final(calls)@ == old(calls)@.remove((params.stream_id@, params.invocation_id@)),
        ({
            let found = if old(calls)@.contains_key((params.stream_id@, params.invocation_id@)) {
                Some(old(calls)@[(params.stream_id@, params.invocation_id@)])
            } else {
                None
            };
            match (r, completion(found, params)) {
                (Ok((t, Ok(v), ack)), Ok((t2, Ok(v2)))) => t == t2 && v == v2 && ack.accepted,
                (Ok((t, Err(e), ack)), Ok((t2, Err(e2)))) => t == t2 && e@ == e2 && ack.accepted,
                (Err(e), Err(e2)) => e@ == e2,
                _ => false,
            }
        }),
{
    let taken = calls.remove(params.stream_id.as_str(), params.invocation_id.as_str());
    let call = match taken {
        None => {
            return Err("unknown or expired tool invocation".to_owned());
        },
        Some(c) => c,
    };
    if !str_eq(call.stream_secret.as_str(), params.stream_secret.as_str()) {
        return Err("invalid stream secret".to_owned());
    }
    let result = match (params.output, params.error) {
        (Some(o), None) => Ok(o),
        (_, Some(e)) => Err(e),
        (None, None) => Err("tool result did not include output or error".to_owned()),
    };
    Ok((call.ticket, result, ToolResultAck { accepted: true }))
}

} // verus!
