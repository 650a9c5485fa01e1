//! Reading the server's event streams: frames separated by a blank line,
//! each carrying its event as JSON on a `data: ` line; and what a JSON-RPC
//! reply gives the client.
use vstd::prelude::*;
use vstd::string::*;
use serde_json::Value;
use crate::protocol::{RpcError, RpcResponse};
use crate::search::text_lines;
use crate::text::{from_chars, i64_to_string, signed_decimal, to_chars};

verus! {

/// Index of the first blank line (`\n\n`) at or after `i`, if there is one.
pub open spec fn frame_end_from(s: Seq<char>, i: int) -> Option<int>
    decreases s.len() - i,
{
    if i < 0 || i + 1 >= s.len() {
        None
    } else if s[i] == '\n' && s[i + 1] == '\n' {
        Some(i)
    } else {
        frame_end_from(s, i + 1)
    }
}

/// What follows `data: ` on the first line that starts with it.
pub open spec fn first_data(lines: Seq<Seq<char>>) -> Option<Seq<char>>
    decreases lines.len(),
{
    if lines.len() == 0 {
        None
    } else if lines[0].len() >= 6 && lines[0].take(6) == "data: "@ {
        Some(lines[0].skip(6))
    } else {
        first_data(lines.drop_first())
    }
}

/// Text received from an event stream and not yet split into frames.
pub struct EventBuffer {
    buf: Vec<char>,
}

impl View for EventBuffer {
    type V = Seq<char>;

    closed spec fn view(&self) -> Seq<char> {
        self.buf@
    }
}

impl EventBuffer {
    pub fn new() -> (r: Self)
        ensures
            r@ == Seq::<char>::empty(),
    {
        EventBuffer { buf: Vec::new() }
    }

    /// Adds received text.
    pub fn push(&mut self, text: &str)
        ensures
            final(self)@ == old(self)@ + text@,
    {
        let chars = to_chars(text);
        let ghost start = self.buf@;
        let mut i: usize = 0;
        while i < chars.len()
            invariant
                chars@ == text@,
                i <= chars.len(),
                self.buf@ == start + text@.take(i as int),
            decreases chars.len() - i,
        {
            self.buf.push(chars[i]);
            i = i + 1;
            assert(self.buf@ =~= start + text@.take(i as int));
        }
        assert(text@.take(text@.len() as int) =~= text@);
    }

    /// Takes the next whole frame off the buffer: `None` while no frame is
    /// complete; otherwise the frame's data, if it has a `data: ` line (a
    /// frame's further lines are dropped with it).
    pub fn next_frame(&mut self) -> (r: Option<Option<String>>)
        ensures
            match frame_end_from(old(self)@, 0) {
                None => r is None && final(self)@ == old(self)@,
                Some(p) => {
                    &&& final(self)@ == old(self)@.skip(p + 2)
                    &&& r matches Some(d)
                    &&& match first_data(text_lines(old(self)@.take(p))) {
                        Some(x) => d matches Some(y) && y@ == x,
                        None => d is None,
                    }
                },
            },
    {
        let ghost s = self.buf@;
        let mut i: usize = 0;
        let n = self.buf.len();
        loop
            invariant
                s == self.buf@,
                s == old(self)@,
                n == s.len(),
                i <= n,
                frame_end_from(s, 0) == frame_end_from(s, i as int),
            ensures
                i + 1 < n,
                frame_end_from(s, 0) == Some(i as int),
            decreases n - i,
        {
            if i >= n || n - i < 2 {
                return None;
            }
            if self.buf[i] == '\n' && self.buf[i + 1] == '\n' {
                break;
            }
            i = i + 1;
        }
        let p = i;
        let mut block: Vec<char> = Vec::new();
        let mut j: usize = 0;
        while j < p
            invariant
                s == self.buf@,
                p + 1 < s.len(),
                j <= p,
                block@ == s.take(j as int),
            decreases p - j,
        {
            block.push(self.buf[j]);
            j = j + 1;
            assert(block@ =~= s.take(j as int));
        }
        let mut rest: Vec<char> = Vec::new();
        let mut k: usize = p + 2;
        while k < n
            invariant
                s == self.buf@,
                n == s.len(),
                p + 2 <= k <= n,
                rest@ == s.subrange(p + 2, k as int),
            decreases n - k,
        {
            rest.push(self.buf[k]);
            k = k + 1;
            assert(rest@ =~= s.subrange(p + 2, k as int));
        }
        assert(rest@ =~= s.skip(p + 2));
        self.buf = rest;
        let text = from_chars(&block);
        let lines = crate::search::lines_of(text.as_str());
        let ghost lv = crate::text::string_views(lines@);
        let mut m: usize = 0;
        assert(lv.skip(0) =~= lv);
        while m < lines.len()
            invariant
                lv == crate::text::string_views(lines@),
                lv == text_lines(s.take(p as int)),
                s == old(self)@,
                self.buf@ == s.skip(p + 2),
                frame_end_from(s, 0) == Some(p as int),
                m <= lines@.len(),
                first_data(lv) == first_data(lv.skip(m as int)),
            decreases lines.len() - m,
        {
            assert(lv.skip(m as int)[0] == lines@[m as int]@);
            assert(lv.skip(m as int).drop_first() =~= lv.skip(m + 1));
            if crate::text::starts_with(lines[m].as_str(), "data: ") {
                proof {
                    reveal_strlit("data: ");
                }
                let d = data_payload(lines[m].as_str());
                assert(lv.skip(m as int)[0] == lines@[m as int]@);
                assert(first_data(lv.skip(m as int)) == Some(lines@[m as int]@.skip(6)));
                assert(self.buf@ == s.skip(p + 2));
                assert(frame_end_from(s, 0) == Some(p as int));
                return Some(Some(d));
            }
            proof {
                reveal_strlit("data: ");
            }
            m = m + 1;
        }
        Some(None)
    }
}

/// What follows `data: ` on a line that starts with it.
fn data_payload(line: &str) -> (r: String)
    requires
        line@.len() >= 6,
    ensures
        r@ == line@.skip(6),
{
    let l = to_chars(line);
    let mut d: Vec<char> = Vec::new();
    let mut q: usize = 6;
    while q < l.len()
        invariant
            l@ == line@,
            6 <= q <= l@.len(),
            d@ == l@.subrange(6, q as int),
        decreases l.len() - q,
    {
        d.push(l[q]);
        q = q + 1;
        assert(d@ =~= l@.subrange(6, q as int));
    }
    assert(d@ =~= l@.skip(6));
    from_chars(&d)
}

/// Why a call to the server failed.
pub enum FetchError {
    Http(String),
    Rpc(RpcError),
    MissingResult,
    Decode(String),
}

impl FetchError {
    pub open spec fn text(&self) -> Seq<char> {
        match self {
            FetchError::Http(e) => "HTTP request failed: "@ + e@,
            FetchError::Rpc(e) => "RPC failed: "@ + e.message@ + " ("@ + signed_decimal(e.code as int) + ")"@,
            FetchError::MissingResult => "RPC response did not include a result"@,
            FetchError::Decode(e) => "response decode failed: "@ + e@,
        }
    }

    pub fn message(&self) -> (r: String)
        ensures
            r@ == self.text(),
    {
        match self {
            FetchError::Http(e) => {
                let mut m = "HTTP request failed: ".to_owned();
                m.append(e.as_str());
                m
            },
            FetchError::Rpc(e) => {
                let mut m = "RPC failed: ".to_owned();
                m.append(e.message.as_str());
                m.append(" (");
                m.append(i64_to_string(e.code).as_str());
                m.append(")");
                m
            },
            FetchError::MissingResult => "RPC response did not include a result".to_owned(),
            FetchError::Decode(e) => {
                let mut m = "response decode failed: ".to_owned();
                m.append(e.as_str());
                m
            },
        }
    }
}

/// What a JSON-RPC reply gives: its error, else its result, else the
/// complaint that it has neither.
pub fn rpc_result<T>(response: RpcResponse<T>) -> (r: Result<T, FetchError>)
    ensures
        match response.error {
            Some(e) => r matches Err(FetchError::Rpc(e2)) && e2 == e,
            None => match response.result {
                Some(v) => r matches Ok(v2) && v2 == v,
                None => r matches Err(FetchError::MissingResult),
            },
        },
{
    match response.error {
        Some(e) => Err(FetchError::Rpc(e)),
        None => match response.result {
            Some(v) => Ok(v),
            None => Err(FetchError::MissingResult),
        },
    }
}

/// The address of an endpoint of the server.
pub fn endpoint(base_url: &str, path: &str) -> (r: String)
    ensures
        r@ == base_url@ + path@,
{
    let mut r = base_url.to_owned();
    r.append(path);
    r
}

} // verus!
