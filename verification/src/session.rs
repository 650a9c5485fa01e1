//! A chat session held by the terminal client.
use vstd::prelude::*;
use crate::protocol::UiMessage;
use crate::text::{from_chars, to_chars};

verus! {

/// How many characters of the first prompt a session's title keeps.
pub const TITLE_CHARS: usize = 60;

/// The lowercase hexadecimal digit for `d` (below sixteen).
pub open spec fn hex_digit(d: nat) -> char {
    if d < 10 {
        ((d + 48) as u32) as char
    } else {
        ((d + 87) as u32) as char
    }
}

/// `n` in lowercase hexadecimal, without leading zeros.
pub open spec fn hex_text(n: nat) -> Seq<char>
    decreases n,
{
    if n < 16 {
        seq![hex_digit(n)]
    } else {
        hex_text(n / 16).push(hex_digit(n % 16))
    }
}

/// `n` in lowercase hexadecimal, padded with zeros to at least sixteen
/// digits (as `format!("{n:016x}")`).
pub open spec fn hex16(n: nat) -> Seq<char> {
    let h = hex_text(n);
    if h.len() >= 16 {
        h
    } else {
        Seq::new((16 - h.len()) as nat, |i: int| '0') + h
    }
}

/// The first `TITLE_CHARS` characters of a prompt.
pub open spec fn title_of(prompt: Seq<char>) -> Seq<char> {
    if prompt.len() <= TITLE_CHARS {
        prompt
    } else {
        prompt.take(TITLE_CHARS as int)
    }
}

/// A session's title is the opening of its first prompt: the whole prompt
/// when it has at most 60 characters, else its first 60.
pub proof fn law_title_is_prompt_opening(prompt: Seq<char>)
    ensures
        title_of(prompt).len() == (if prompt.len() <= 60 { prompt.len() } else { 60 }),
        title_of(prompt) == prompt.take(title_of(prompt).len() as int),
{
    assert(prompt.take(prompt.len() as int) =~= prompt);
}

fn hex_char(d: u128) -> (c: char)
    requires
        d < 16,
    ensures
        c == hex_digit(d as nat),
{
    let b: u8 = d as u8;
    if b < 10 {
        (b + 48) as char
    } else {
        (b + 87) as char
    }
}

/// `n` written as in `format!("{n:016x}")`.
pub fn hex16_string(n: u128) -> (r: String)
    ensures
        r@ == hex16(n as nat),
{
    let mut digits: Vec<char> = Vec::new();
    let mut m: u128 = n;
    while m >= 16
        invariant
            hex_text(n as nat) == hex_text(m as nat) + digits@.reverse(),
        decreases m,
    {
        let c = hex_char(m % 16);
        let ghost before = digits@;
        digits.push(c);
        assert(hex_text(m as nat) == hex_text((m / 16) as nat).push(c));
        assert(digits@.reverse() =~= seq![c] + before.reverse());
        assert(hex_text((m / 16) as nat).push(c) + before.reverse() =~= hex_text((m / 16) as nat)
            + digits@.reverse());
        m = m / 16;
    }
    let c0 = hex_char(m);
    assert(hex_text(m as nat) =~= seq![c0]);
    let mut out: Vec<char> = Vec::new();
    let need: usize = if digits.len() >= 15 { 0 } else { 15 - digits.len() };
    let mut pad: usize = 0;
    while pad < need
        invariant
            pad <= need,
            out@ == Seq::new(pad as nat, |i: int| '0'),
        decreases need - pad,
    {
        out.push('0');
        pad = pad + 1;
        assert(out@ =~= Seq::new(pad as nat, |i: int| '0'));
    }
    let ghost zeros = out@;
    out.push(c0);
    let mut k: usize = digits.len();
    while k > 0
        invariant
            k <= digits.len(),
            out@ == zeros + seq![c0] + digits@.skip(k as int).reverse(),
        decreases k,
    {
        k = k - 1;
        out.push(digits[k]);
        assert(digits@.skip(k as int).reverse() =~= digits@.skip(k + 1).reverse().push(
            digits@[k as int],
        ));
        assert(out@ =~= zeros + seq![c0] + digits@.skip(k as int).reverse());
    }
    assert(digits@.skip(0) =~= digits@);
    proof {
        let h = hex_text(n as nat);
        assert(h =~= seq![c0] + digits@.reverse());
        assert(h.len() == digits@.len() + 1);
        if h.len() >= 16 {
            assert(zeros =~= Seq::<char>::empty());
        }
        assert(out@ =~= hex16(n as nat));
    }
    from_chars(&out)
}

/// One conversation: its id, its title and its messages so far.
pub struct Session {
    pub id: String,
    pub title: String,
    pub messages: Vec<UiMessage>,
}

impl Session {
    /// A new session for a first prompt sent at `now_ms` milliseconds after
    /// the Unix epoch: the id is that time in hexadecimal and the title is
    /// the start of the prompt.
    pub fn new(first_prompt: &str, now_ms: u128) -> (r: Self)
        ensures
            r.id@ == hex16(now_ms as nat),
            r.title@ == title_of(first_prompt@),
            r.messages@.len() == 0,
    {
        let chars = to_chars(first_prompt);
        let mut kept: Vec<char> = Vec::new();
        let mut i: usize = 0;
        while i < chars.len() && i < TITLE_CHARS
            invariant
                chars@ == first_prompt@,
                i <= chars.len(),
                i <= TITLE_CHARS,
                kept@ == chars@.take(i as int),
            decreases chars.len() - i,
        {
            kept.push(chars[i]);
            i = i + 1;
            assert(kept@ =~= chars@.take(i as int));
        }
        assert(chars@.take(chars@.len() as int) =~= chars@);
        Session { id: hex16_string(now_ms), title: from_chars(&kept), messages: Vec::new() }
    }
}

} // verus!
