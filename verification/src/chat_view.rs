//! The lines the chat page shows of a conversation: each message under its
//! speaker, its parts one after another, tool calls with their state,
//! input, output and errors.
use vstd::prelude::*;
use vstd::string::*;
use serde_json::Value;
use crate::app::{App, ChatStream};
use crate::protocol::{part_views, PartView, ToolState, UiMessage, UiPart, UiRole};
use crate::search::{lines_of, text_lines};
use crate::text::{string_views, to_chars, from_chars};
use crate::json::{json_pretty, json_pretty_text};

verus! {

/// How a piece of a line is drawn.
#[derive(Clone, Copy, Debug, PartialEq, Eq, Structural)]
pub enum Tone {
    Plain,
    Dim,
    Red,
    Cyan,
    Yellow,
    GreenBold,
    CyanBold,
    Green,
    DarkGray,
    WhiteBold,
    MagentaBold,
    /// Bold on a dark gray background.
    Badge,
}

/// A piece of a line and how it is drawn.
pub struct Span {
    pub text: String,
    pub tone: Tone,
}

/// A line of the chat page.
pub struct StyledLine {
    pub spans: Vec<Span>,
}

pub open spec fn span_view(s: Span) -> (Seq<char>, Tone) {
    (s.text@, s.tone)
}

pub open spec fn line_view(l: StyledLine) -> Seq<(Seq<char>, Tone)> {
    l.spans@.map_values(|s: Span| span_view(s))
}

pub open spec fn lines_view(v: Seq<StyledLine>) -> Seq<Seq<(Seq<char>, Tone)>> {
    v.map_values(|l: StyledLine| line_view(l))
}

/// The mark that shows where an answer is still being written.
pub open spec fn cursor_mark() -> Seq<char> {
    seq!['\u{258c}']
}

fn mark() -> (r: String)
    ensures
        r@ == cursor_mark(),
{
    let mut v: Vec<char> = Vec::new();
    v.push('\u{258c}');
    let r = from_chars(&v);
    assert(v@ =~= cursor_mark());
    r
}

fn span(text: String, tone: Tone) -> (r: Span)
    ensures
        span_view(r) == (text@, tone),
{
    Span { text, tone }
}

fn line2(a: Span, b: Span) -> (r: StyledLine)
    ensures
        line_view(r) == seq![span_view(a), span_view(b)],
{
    let mut spans: Vec<Span> = Vec::new();
    spans.push(a);
    spans.push(b);
    let r = StyledLine { spans };
    assert(line_view(r) =~= seq![span_view(a), span_view(b)]);
    r
}

fn line1(a: Span) -> (r: StyledLine)
    ensures
        line_view(r) == seq![span_view(a)],
{
    let mut spans: Vec<Span> = Vec::new();
    spans.push(a);
    let r = StyledLine { spans };
    assert(line_view(r) =~= seq![span_view(a)]);
    r
}

/// A tool state as the chat shows it.
pub open spec fn state_label(s: ToolState) -> Seq<char> {
    match s {
        ToolState::Streaming => "streaming"@,
        ToolState::Calling => "calling"@,
        ToolState::AwaitingApproval => "awaiting approval"@,
        ToolState::Complete => "complete"@,
        ToolState::Failed => "failed"@,
    }
}

pub fn tool_state_label(state: ToolState) -> (r: &'static str)
    ensures
        r@ == state_label(state),
{
    match state {
        ToolState::Streaming => "streaming",
        ToolState::Calling => "calling",
        ToolState::AwaitingApproval => "awaiting approval",
        ToolState::Complete => "complete",
        ToolState::Failed => "failed",
    }
}

/// The mark after the last line of content still being written.
pub open spec fn suffix_at(streaming: bool, i: int, n: int) -> Seq<char> {
    if streaming && i == n - 1 {
        cursor_mark()
    } else {
        Seq::empty()
    }
}

/// The lines of a text: each line of it after `prefix`.
pub open spec fn content_view(prefix: Seq<char>, content: Seq<char>, tone: Tone, streaming: bool) -> Seq<Seq<(Seq<char>, Tone)>> {
    if content.len() == 0 {
        seq![seq![(prefix, Tone::Plain), (cursor_mark(), tone)]]
    } else {
        let ls = text_lines(content);
        Seq::new(
            ls.len(),
            |i: int| seq![(prefix, Tone::Plain), (ls[i] + suffix_at(streaming, i, ls.len() as int), tone)],
        )
    }
}

pub fn content_lines(prefix: &str, content: &str, tone: Tone, streaming: bool) -> (r: Vec<StyledLine>)
    ensures
        lines_view(r@) == content_view(prefix@, content@, tone, streaming),
{
    let mut out: Vec<StyledLine> = Vec::new();
    if content.is_empty() {
        out.push(line2(span(prefix.to_owned(), Tone::Plain), span(mark(), tone)));
        assert(lines_view(out@) =~= content_view(prefix@, content@, tone, streaming));
        return out;
    }
    let ls = lines_of(content);
    let ghost lv = string_views(ls@);
    let n = ls.len();
    let mut i: usize = 0;
    while i < n
        invariant
            lv == string_views(ls@),
            lv == text_lines(content@),
            content@.len() > 0,
            n == ls@.len(),
            i <= n,
            lines_view(out@) == content_view(prefix@, content@, tone, streaming).take(i as int),
        decreases n - i,
    {
        let mut text = ls[i].clone();
        if streaming && i + 1 == n {
            text.append(mark().as_str());
        }
        let ghost before = out@;
        let l = line2(span(prefix.to_owned(), Tone::Plain), span(text, tone));
        out.push(l);
        assert(lines_view(out@) =~= lines_view(before).push(line_view(l)));
        assert(ls@[i as int]@ + Seq::<char>::empty() =~= ls@[i as int]@);
        assert(content_view(prefix@, content@, tone, streaming).take(i + 1) =~= content_view(
            prefix@,
            content@,
            tone,
            streaming,
        ).take(i as int).push(line_view(l)));
        i = i + 1;
    }
    assert(content_view(prefix@, content@, tone, streaming).take(n as int) =~= content_view(
        prefix@,
        content@,
        tone,
        streaming,
    ));
    out
}

/// The lines of a labelled text: the label before its first line, the
/// further lines lined up under it.
pub open spec fn labeled_view(label: Seq<char>, content: Seq<char>, tone: Tone, streaming: bool) -> Seq<Seq<(Seq<char>, Tone)>> {
    let ls = text_lines(content);
    if ls.len() == 0 {
        seq![seq![("  "@, Tone::Plain), (label, tone)]]
    } else {
        Seq::new(
            ls.len(),
            |i: int| seq![
                (
                    if i == 0 {
                        "  "@ + label + " "@
                    } else {
                        "  "@ + Seq::new((label.len() + 1) as nat, |k: int| ' ')
                    },
                    tone,
                ),
                (ls[i] + suffix_at(streaming, i, ls.len() as int), tone),
            ],
        )
    }
}

fn spaces(n: usize) -> (r: String)
    ensures
        r@ == Seq::new(n as nat, |k: int| ' '),
{
    let mut v: Vec<char> = Vec::new();
    let mut i: usize = 0;
    while i < n
        invariant
            i <= n,
            v@ == Seq::new(i as nat, |k: int| ' '),
        decreases n - i,
    {
        v.push(' ');
        i = i + 1;
        assert(v@ =~= Seq::new(i as nat, |k: int| ' '));
    }
    from_chars(&v)
}

pub fn labeled_lines(label: &str, content: &str, tone: Tone, streaming: bool) -> (r: Vec<StyledLine>)
    ensures
        lines_view(r@) == labeled_view(label@, content@, tone, streaming),
{
    let ls = lines_of(content);
    let ghost lv = string_views(ls@);
    let mut out: Vec<StyledLine> = Vec::new();
    let n = ls.len();
    if n == 0 {
        out.push(line2(span("  ".to_owned(), Tone::Plain), span(label.to_owned(), tone)));
        assert(lines_view(out@) =~= labeled_view(label@, content@, tone, streaming));
        return out;
    }
    let width = to_chars(label).len();
    let mut first = "  ".to_owned();
    first.append(label);
    first.append(" ");
    let mut rest = "  ".to_owned();
    let pad = spaces(width);
    rest.append(pad.as_str());
    rest.append(" ");
    proof {
        reveal_strlit(" ");
        reveal_strlit("  ");
        assert(rest@ =~= "  "@ + Seq::new((label@.len() + 1) as nat, |k: int| ' '));
    }
    let mut i: usize = 0;
    while i < n
        invariant
            lv == string_views(ls@),
            lv == text_lines(content@),
            n == ls@.len(),
            n > 0,
            i <= n,
            width == label@.len(),
            rest@ == "  "@ + Seq::new((label@.len() + 1) as nat, |k: int| ' '),
            first@ == "  "@ + label@ + " "@,
            lines_view(out@) == labeled_view(label@, content@, tone, streaming).take(i as int),
        decreases n - i,
    {
        let mut text = ls[i].clone();
        if streaming && i + 1 == n {
            text.append(mark().as_str());
        }
        let prefix = if i == 0 { first.clone() } else { rest.clone() };
        let ghost before = out@;
        let l = line2(span(prefix, tone), span(text, tone));
        out.push(l);
        assert(lines_view(out@) =~= lines_view(before).push(line_view(l)));
        assert(ls@[i as int]@ + Seq::<char>::empty() =~= ls@[i as int]@);
        assert(labeled_view(label@, content@, tone, streaming).take(i + 1) =~= labeled_view(
            label@,
            content@,
            tone,
            streaming,
        ).take(i as int).push(line_view(l)));
        i = i + 1;
    }
    assert(labeled_view(label@, content@, tone, streaming).take(n as int) =~= labeled_view(
        label@,
        content@,
        tone,
        streaming,
    ));
    out
}

/// The lines of one part of a message.
pub open spec fn part_lines_view(p: PartView, streaming: bool) -> Seq<Seq<(Seq<char>, Tone)>> {
    match p {
        PartView::Text(c) => content_view("  "@, c, Tone::Plain, streaming),
        PartView::Reasoning(c) => labeled_view("thought >"@, c, Tone::Dim, false),
        PartView::Tool { name, state, input, output, error, .. } => seq![
            seq![
                ("  "@, Tone::Plain),
                ("tool > "@, Tone::Dim),
                (name, Tone::Plain),
                (" "@, Tone::Plain),
                (state_label(state), if state == ToolState::Failed { Tone::Red } else { Tone::Cyan }),
            ],
        ] + match input {
            Some(v) => labeled_view("input"@, json_pretty_text(v), Tone::Dim, false),
            None => Seq::empty(),
        } + match output {
            Some(v) => labeled_view("output"@, json_pretty_text(v), Tone::Dim, false),
            None => Seq::empty(),
        } + match error {
            Some(e) => labeled_view("tool error >"@, e, Tone::Red, false),
            None => Seq::empty(),
        } + if state == ToolState::AwaitingApproval {
            labeled_view("approval >"@, "Press Y to approve or N to reject"@, Tone::Yellow, false)
        } else {
            Seq::empty()
        },
        PartView::Error(m) => labeled_view("error >"@, m, Tone::Red, false),
    }
}

fn append_lines(out: &mut Vec<StyledLine>, more: Vec<StyledLine>)
    ensures
        lines_view(final(out)@) == lines_view(old(out)@) + lines_view(more@),
{
    let mut more = more;
    let ghost start = lines_view(out@);
    let ghost mv = lines_view(more@);
    let mut rev: Vec<StyledLine> = Vec::new();
    while more.len() > 0
        invariant
            lines_view(more@) + lines_view(rev@).reverse() == mv,
        decreases more.len(),
    {
        let ghost before_rev = lines_view(rev@);
        let ghost before_more = lines_view(more@);
        let l = more.pop().unwrap();
        rev.push(l);
        assert(before_more =~= lines_view(more@).push(line_view(l)));
        assert(lines_view(rev@) =~= before_rev.push(line_view(l)));
        assert(lines_view(rev@).reverse() =~= seq![line_view(l)] + before_rev.reverse());
        assert(lines_view(more@) + lines_view(rev@).reverse() =~= before_more + before_rev.reverse());
    }
    assert(lines_view(more@) =~= Seq::<Seq<(Seq<char>, Tone)>>::empty());
    assert(lines_view(rev@).reverse() =~= mv);
    while rev.len() > 0
        invariant
            lines_view(out@) + lines_view(rev@).reverse() == start + mv,
        decreases rev.len(),
    {
        let ghost before_out = lines_view(out@);
        let ghost before_rev = lines_view(rev@);
        let l = rev.pop().unwrap();
        out.push(l);
        assert(before_rev =~= lines_view(rev@).push(line_view(l)));
        assert(lines_view(out@) =~= before_out.push(line_view(l)));
        assert(before_rev.reverse() =~= seq![line_view(l)] + lines_view(rev@).reverse());
        assert(lines_view(out@) + lines_view(rev@).reverse() =~= before_out + before_rev.reverse());
    }
    assert(lines_view(rev@).reverse() =~= Seq::<Seq<(Seq<char>, Tone)>>::empty());
    assert(lines_view(out@) =~= start + mv);
}

pub fn part_lines(part: &UiPart, streaming: bool) -> (r: Vec<StyledLine>)
    ensures
        lines_view(r@) == part_lines_view(part@, streaming),
{
    match part {
        UiPart::Text { content } => content_lines("  ", content.as_str(), Tone::Plain, streaming),
        UiPart::Reasoning { content } => labeled_lines("thought >", content.as_str(), Tone::Dim, false),
        UiPart::Tool { name, state, input, output, error, .. } => {
            let mut spans: Vec<Span> = Vec::new();
            spans.push(span("  ".to_owned(), Tone::Plain));
            spans.push(span("tool > ".to_owned(), Tone::Dim));
            spans.push(span(name.clone(), Tone::Plain));
            spans.push(span(" ".to_owned(), Tone::Plain));
            let tone = if *state == ToolState::Failed { Tone::Red } else { Tone::Cyan };
            spans.push(span(tool_state_label(*state).to_owned(), tone));
            let head = StyledLine { spans };
            let ghost hv = line_view(head);
            let mut out: Vec<StyledLine> = Vec::new();
            out.push(head);
            let ghost v0 = lines_view(out@);
            assert(v0 =~= seq![hv]);
            if let Some(v) = input {
                let more = labeled_lines("input", json_pretty(v).as_str(), Tone::Dim, false);
                append_lines(&mut out, more);
            }
            let ghost v1 = lines_view(out@);
            if let Some(v) = output {
                let more = labeled_lines("output", json_pretty(v).as_str(), Tone::Dim, false);
                append_lines(&mut out, more);
            }
            let ghost v2 = lines_view(out@);
            if let Some(e) = error {
                let more = labeled_lines("tool error >", e.as_str(), Tone::Red, false);
                append_lines(&mut out, more);
            }
            let ghost v3 = lines_view(out@);
            if *state == ToolState::AwaitingApproval {
                let more = labeled_lines(
                    "approval >",
                    "Press Y to approve or N to reject",
                    Tone::Yellow,
                    false,
                );
                append_lines(&mut out, more);
            }
            proof {
                let p = part@;
                assert(hv =~= seq![
                    ("  "@, Tone::Plain),
                    ("tool > "@, Tone::Dim),
                    (name@, Tone::Plain),
                    (" "@, Tone::Plain),
                    (state_label(*state), tone),
                ]);
                if input is None {
                    assert(v1 =~= v0 + Seq::<Seq<(Seq<char>, Tone)>>::empty());
                }
                if output is None {
                    assert(v2 =~= v1 + Seq::<Seq<(Seq<char>, Tone)>>::empty());
                }
                if error is None {
                    assert(v3 =~= v2 + Seq::<Seq<(Seq<char>, Tone)>>::empty());
                }
                if *state != ToolState::AwaitingApproval {
                    assert(lines_view(out@) =~= v3 + Seq::<Seq<(Seq<char>, Tone)>>::empty());
                }
            }
            out
        },
        UiPart::Error { message } => labeled_lines("error >", message.as_str(), Tone::Red, false),
    }
}

/// The lines of the first `n` parts, the last part of all marked as still
/// being written when `streaming`.
pub open spec fn parts_lines_view(parts: Seq<PartView>, n: int, streaming: bool) -> Seq<Seq<(Seq<char>, Tone)>>
    decreases n,
{
    if n <= 0 {
        Seq::empty()
    } else {
        parts_lines_view(parts, n - 1, streaming) + part_lines_view(
            parts[n - 1],
            streaming && n - 1 == parts.len() - 1,
        )
    }
}

/// The lines of a message: its speaker, its parts, a mark when an answer
/// has no part yet, and a blank line.
pub open spec fn message_lines_view(m: (UiRole, Seq<PartView>), streaming: bool) -> Seq<Seq<(Seq<char>, Tone)>> {
    seq![
        if m.0 == UiRole::User {
            seq![("You"@, Tone::GreenBold)]
        } else {
            seq![("Faaido"@, Tone::CyanBold)]
        },
    ] + parts_lines_view(m.1, m.1.len() as int, streaming) + (if streaming && m.1.len() == 0 {
        seq![seq![("  "@ + cursor_mark(), Tone::Cyan)]]
    } else {
        Seq::empty()
    }) + seq![seq![(""@, Tone::Plain)]]
}

pub fn message_lines(message: &UiMessage, streaming: bool) -> (r: Vec<StyledLine>)
    ensures
        lines_view(r@) == message_lines_view(message@, streaming),
{
    let mut out: Vec<StyledLine> = Vec::new();
    let head = match message.role {
        UiRole::User => line1(span("You".to_owned(), Tone::GreenBold)),
        UiRole::Assistant => line1(span("Faaido".to_owned(), Tone::CyanBold)),
    };
    out.push(head);
    let ghost pv = part_views(message.parts@);
    let ghost hv = lines_view(out@);
    let n = message.parts.len();
    let mut i: usize = 0;
    assert(hv + parts_lines_view(pv, 0, streaming) =~= hv);
    while i < n
        invariant
            pv == part_views(message.parts@),
            n == message.parts@.len(),
            i <= n,
            lines_view(out@) == hv + parts_lines_view(pv, i as int, streaming),
        decreases n - i,
    {
        let last = i + 1 == n;
        let more = part_lines(&message.parts[i], streaming && last);
        assert(pv[i as int] == message.parts@[i as int]@);
        append_lines(&mut out, more);
        i = i + 1;
    }
    let ghost v = lines_view(out@);
    if streaming && n == 0 {
        let mut t = "  ".to_owned();
        t.append(mark().as_str());
        let ml = line1(span(t, Tone::Cyan));
        let ghost mv = line_view(ml);
        out.push(ml);
        assert(mv =~= seq![("  "@ + cursor_mark(), Tone::Cyan)]);
        assert(lines_view(out@) =~= v + seq![mv]);
    }
    let ghost w = lines_view(out@);
    let blank = line1(span("".to_owned(), Tone::Plain));
    let ghost bv = line_view(blank);
    out.push(blank);
    proof {
        reveal_strlit("");
        if !(streaming && n == 0) {
            assert(w =~= v + Seq::<Seq<(Seq<char>, Tone)>>::empty());
        }
        assert(pv.len() == n);
        assert(message@.1 == pv);
        assert(hv =~= seq![
            if message@.0 == UiRole::User {
                seq![("You"@, Tone::GreenBold)]
            } else {
                seq![("Faaido"@, Tone::CyanBold)]
            },
        ]);
        assert(bv =~= seq![(""@, Tone::Plain)]);
        assert(lines_view(out@) =~= w.push(bv));
        assert(lines_view(out@) =~= message_lines_view(message@, streaming));
    }
    out
}

/// The lines of finished messages, one after another.
pub open spec fn messages_lines_view(ms: Seq<(UiRole, Seq<PartView>)>) -> Seq<Seq<(Seq<char>, Tone)>>
    decreases ms.len(),
{
    if ms.len() == 0 {
        Seq::empty()
    } else {
        messages_lines_view(ms.drop_last()) + message_lines_view(ms.last(), false)
    }
}

/// What the chat page shows: the open session's messages, then the turn
/// being streamed (the prompt, and the answer marked as still being
/// written); a hint when there is nothing yet.
pub open spec fn history_view(app: App) -> Seq<Seq<(Seq<char>, Tone)>> {
    let base = match app.active_session {
        Some(s) => messages_lines_view(crate::app::message_views(s.messages@)),
        None => Seq::empty(),
    };
    let live = match app.chat_stream {
        ChatStream::Streaming { user_msg, assistant } => message_lines_view(
            crate::app::user_message(user_msg@),
            false,
        ) + message_lines_view(assistant@, true),
        _ => Seq::empty(),
    };
    if base.len() + live.len() == 0 {
        seq![seq![("Start a conversation from home or type a message here."@, Tone::Dim)]]
    } else {
        base + live
    }
}

pub fn history_lines(app: &App) -> (r: Vec<StyledLine>)
    ensures
        lines_view(r@) == history_view(*app),
{
    let mut out: Vec<StyledLine> = Vec::new();
    if let Some(session) = &app.active_session {
        let ghost ms = crate::app::message_views(session.messages@);
        let mut i: usize = 0;
        assert(ms.take(0) =~= Seq::<(UiRole, Seq<PartView>)>::empty());
        while i < session.messages.len()
            invariant
                ms == crate::app::message_views(session.messages@),
                i <= session.messages@.len(),
                lines_view(out@) == messages_lines_view(ms.take(i as int)),
            decreases session.messages.len() - i,
        {
            let more = message_lines(&session.messages[i], false);
            append_lines(&mut out, more);
            assert(ms.take(i + 1).drop_last() =~= ms.take(i as int));
            i = i + 1;
        }
        assert(ms.take(session.messages@.len() as int) =~= ms);
    }
    let ghost base = lines_view(out@);
    proof {
        if app.active_session is None {
            assert(base =~= Seq::<Seq<(Seq<char>, Tone)>>::empty());
        }
    }
    if let ChatStream::Streaming { user_msg, assistant } = &app.chat_stream {
        let user = UiMessage::user_text(user_msg.clone());
        assert(user@ == crate::app::user_message(user_msg@));
        append_lines(&mut out, message_lines(&user, false));
        append_lines(&mut out, message_lines(assistant, true));
        assert(lines_view(out@) =~= base + (message_lines_view(crate::app::user_message(user_msg@), false)
            + message_lines_view(assistant@, true)));
    } else {
        assert(lines_view(out@) =~= base + Seq::<Seq<(Seq<char>, Tone)>>::empty());
    }
    if out.len() == 0 {
        let hint = line1(span("Start a conversation from home or type a message here.".to_owned(), Tone::Dim));
        let ghost hv = line_view(hint);
        out.push(hint);
        assert(hv =~= seq![("Start a conversation from home or type a message here."@, Tone::Dim)]);
        assert(lines_view(out@) =~= seq![hv]);
    }
    out
}

/// The title of the chat box: the session's title cut to 40 characters,
/// or `Chat`, with a space on each side.
pub open spec fn history_title_view(app: App) -> Seq<char> {
    match app.active_session {
        Some(s) => " "@ + (if s.title@.len() <= 40 { s.title@ } else { s.title@.take(40) }) + " "@,
        None => " Chat "@,
    }
}

pub fn history_title(app: &App) -> (r: String)
    ensures
        r@ == history_title_view(*app),
{
    match &app.active_session {
        Some(s) => {
            let chars = to_chars(s.title.as_str());
            let mut kept: Vec<char> = Vec::new();
            let mut i: usize = 0;
            while i < chars.len() && i < 40
                invariant
                    chars@ == s.title@,
                    i <= chars.len(),
                    i <= 40,
                    kept@ == s.title@.take(i as int),
                decreases chars.len() - i,
            {
                kept.push(chars[i]);
                i = i + 1;
                assert(kept@ =~= s.title@.take(i as int));
            }
            assert(s.title@.take(s.title@.len() as int) =~= s.title@);
            let mut r = " ".to_owned();
            r.append(from_chars(&kept).as_str());
            r.append(" ");
            r
        },
        None => " Chat ".to_owned(),
    }
}

/// The prompt as its box shows it: each line after `> `.
pub open spec fn prompt_display(text: Seq<char>) -> Seq<char> {
    crate::app::join_names(
        crate::guard::split_on(text, '\n').map_values(|l: Seq<char>| "> "@ + l),
        "\n"@,
    )
}

pub fn prompt_lines_text(text: &str) -> (r: String)
    ensures
        r@ == prompt_display(text@),
{
    let parts = crate::guard::split_str(text, '\n');
    let mut shown: Vec<String> = Vec::new();
    let mut i: usize = 0;
    while i < parts.len()
        invariant
            i <= parts@.len(),
            string_views(shown@) == string_views(parts@).take(i as int).map_values(|l: Seq<char>| "> "@ + l),
        decreases parts.len() - i,
    {
        let mut l = "> ".to_owned();
        l.append(parts[i].as_str());
        let ghost before = shown@;
        shown.push(l);
        assert(string_views(shown@) =~= string_views(before).push("> "@ + parts@[i as int]@));
        assert(string_views(parts@).take(i + 1).map_values(|l: Seq<char>| "> "@ + l) =~= string_views(
            parts@,
        ).take(i as int).map_values(|l: Seq<char>| "> "@ + l).push("> "@ + parts@[i as int]@));
        i = i + 1;
    }
    assert(string_views(parts@).take(parts@.len() as int) =~= string_views(parts@));
    crate::app::join_strings(&shown, "\n")
}

/// What the chat page's message box shows: a note while a turn is under
/// way, a placeholder while it is empty, else the prompt with `> ` before
/// each line, hard-wrapped at `width`.
pub open spec fn chat_input_view(stream: ChatStream, input: Seq<char>, width: u16) -> Seq<Seq<(Seq<char>, Tone)>> {
    if !(stream is Idle) {
        seq![seq![("waiting for response..."@, Tone::Dim)]]
    } else if input.len() == 0 {
        seq![seq![("> Type a message..."@, Tone::Dim)]]
    } else if width == 0 {
        seq![seq![(prompt_display(input), Tone::Plain)]]
    } else {
        crate::layout::wrap_text(prompt_display(input), width as nat).map_values(
            |l: Seq<char>| seq![(l, Tone::Plain)],
        )
    }
}

pub fn chat_input_lines(app: &App, width: u16) -> (r: Vec<StyledLine>)
    ensures
        lines_view(r@) == chat_input_view(app.chat_stream, app.input@.0, width),
{
    let mut out: Vec<StyledLine> = Vec::new();
    match app.chat_stream {
        ChatStream::Idle => {},
        _ => {
            out.push(line1(span("waiting for response...".to_owned(), Tone::Dim)));
            assert(lines_view(out@) =~= chat_input_view(app.chat_stream, app.input@.0, width));
            return out;
        },
    }
    if app.input.is_empty() {
        out.push(line1(span("> Type a message...".to_owned(), Tone::Dim)));
        assert(lines_view(out@) =~= chat_input_view(app.chat_stream, app.input@.0, width));
        return out;
    }
    let shown = prompt_lines_text(app.input.as_str());
    let rows = crate::layout::wrap_chars(shown.as_str(), width);
    let ghost rv = string_views(rows@);
    let mut i: usize = 0;
    while i < rows.len()
        invariant
            rv == string_views(rows@),
            i <= rows@.len(),
            lines_view(out@) == rv.take(i as int).map_values(|l: Seq<char>| seq![(l, Tone::Plain)]),
        decreases rows.len() - i,
    {
        let ghost before = lines_view(out@);
        let l = line1(span(rows[i].clone(), Tone::Plain));
        out.push(l);
        assert(rv[i as int] == rows@[i as int]@);
        assert(lines_view(out@) =~= before.push(seq![(rv[i as int], Tone::Plain)]));
        assert(rv.take(i + 1).map_values(|l: Seq<char>| seq![(l, Tone::Plain)]) =~= rv.take(
            i as int,
        ).map_values(|l: Seq<char>| seq![(l, Tone::Plain)]).push(seq![(rv[i as int], Tone::Plain)]));
        i = i + 1;
    }
    assert(rv.take(rows@.len() as int) =~= rv);
    assert(lines_view(out@) =~= chat_input_view(app.chat_stream, app.input@.0, width));
    out
}

/// Where the cursor stands in the message box: after the shown text
/// before the caret; none while a turn is under way.
pub fn chat_input_caret(app: &App, width: u16) -> (r: Option<(u16, u16)>)
    ensures
        !(app.chat_stream is Idle) ==> r is None,
        app.chat_stream is Idle ==> r == Some(
            crate::layout::caret_at(prompt_display(app.input@.0.take(app.input@.1 as int)), width),
        ),
{
    match app.chat_stream {
        ChatStream::Idle => {},
        _ => {
            return None;
        },
    }
    let head = app.input.head();
    let shown = prompt_lines_text(head.as_str());
    Some(crate::layout::caret_xy(shown.as_str(), width))
}

} // verus!
