//! What the sessions and tools pages show: list rows, scrolling, ages,
//! labels and the detail of a tool, as styled text that a renderer draws.
use vstd::prelude::*;
use vstd::string::*;
use vstd::utf8::encode_utf8;
use crate::app::{ToolAvailability, ToolDashboardItem};
use crate::author_flow::{byte_prefix, char_bytes};
use crate::chat_view::{line_view, lines_view, span_view, Span, StyledLine, Tone};
use crate::guard::{split_on, split_str};
use crate::protocol::{opt_chars, AgentMode, SessionSummary, ToolDescriptor, ToolExecutionKind, ToolOutputPolicy, ToolRisk};
use crate::text::{decimal, from_chars, string_views, to_chars, u64_to_string, usize_to_string};

verus! {

/// The first row a list of `height` visible rows shows so that the row at
/// `cursor` is visible.
pub open spec fn scroll_of(cursor: nat, height: nat) -> nat {
    if cursor >= height {
        (cursor - height + 1) as nat
    } else {
        0
    }
}

pub fn list_scroll(cursor: usize, height: usize) -> (r: usize)
    requires
        height > 0 || cursor < usize::MAX,
    ensures
        r == scroll_of(cursor as nat, height as nat),
{
    if cursor >= height {
        cursor - height + 1
    } else {
        0
    }
}

/// With at least one visible row, the row under the cursor is visible.
pub proof fn law_cursor_row_visible(cursor: nat, height: nat)
    requires
        height > 0,
    ensures
        scroll_of(cursor, height) <= cursor < scroll_of(cursor, height) + height,
{
}

/// How long ago something happened, in the largest whole unit: just now
/// under a minute, then minutes, hours and days.
pub open spec fn age_text(now: u64, ts: u64) -> Seq<char> {
    let age: nat = if now >= ts { (now - ts) as nat } else { 0 };
    if age < 60 {
        "just now"@
    } else if age < 3600 {
        decimal(age / 60) + "m ago"@
    } else if age < 86400 {
        decimal(age / 3600) + "h ago"@
    } else {
        decimal(age / 86400) + "d ago"@
    }
}

/// How old a session looks: under a minute is "just now"; then whole
/// minutes, whole hours and whole days, counted down; a timestamp in the
/// future counts as now.
pub proof fn law_age_labels(now: u64, ts: u64)
    ensures
        now <= ts ==> age_text(now, ts) == "just now"@,
        now > ts && now - ts < 60 ==> age_text(now, ts) == "just now"@,
        now > ts && 60 <= now - ts < 3600 ==> age_text(now, ts) == decimal(((now - ts) / 60) as nat) + "m ago"@,
        now > ts && 3600 <= now - ts < 86400 ==> age_text(now, ts) == decimal(((now - ts) / 3600) as nat)
            + "h ago"@,
        now > ts && 86400 <= now - ts ==> age_text(now, ts) == decimal(((now - ts) / 86400) as nat) + "d ago"@,
{
}

/// The age of a timestamp (seconds since the epoch) as of `now`.
pub fn age_label(now: u64, ts: u64) -> (r: String)
    ensures
        r@ == age_text(now, ts),
{
    let age = if now >= ts { now - ts } else { 0 };
    let mut out: String;
    if age < 60 {
        return "just now".to_owned();
    } else if age < 3600 {
        out = u64_to_string(age / 60);
        out.append("m ago");
    } else if age < 86400 {
        out = u64_to_string(age / 3600);
        out.append("h ago");
    } else {
        out = u64_to_string(age / 86400);
        out.append("d ago");
    }
    out
}

/// How many bytes of a session title a row shows before an ellipsis.
pub const TITLE_BYTES: usize = 55;

/// Whether a title can be cut where a row cuts it: it is short enough, or
/// its first `TITLE_BYTES` bytes end between two characters.
pub open spec fn title_cuttable(t: Seq<char>) -> bool {
    encode_utf8(t).len() <= TITLE_BYTES || byte_prefix(t, TITLE_BYTES as nat) is Some
}

/// A title as a row shows it: one longer than `TITLE_BYTES` bytes keeps
/// that many bytes and gets `...`.
pub open spec fn shown_title(t: Seq<char>) -> Seq<char> {
    if encode_utf8(t).len() > TITLE_BYTES {
        byte_prefix(t, TITLE_BYTES as nat)->0 + "..."@
    } else {
        t
    }
}

proof fn lemma_encode_concat(a: Seq<char>, b: Seq<char>)
    ensures
        encode_utf8(a + b) == encode_utf8(a) + encode_utf8(b),
    decreases a.len(),
{
    if a.len() == 0 {
        assert(a + b =~= b);
        assert(encode_utf8(a) + encode_utf8(b) =~= encode_utf8(b));
    } else {
        lemma_encode_concat(a.drop_first(), b);
        assert((a + b).drop_first() =~= a.drop_first() + b);
        assert((a + b)[0] == a[0]);
        assert(encode_utf8(a + b) =~= encode_utf8(a) + encode_utf8(b));
    }
}

proof fn lemma_char_bytes(c: char)
    ensures
        1 <= char_bytes(c) <= 4,
{
    assert(seq![c].drop_first() =~= Seq::<char>::empty());
    assert(encode_utf8(seq![c]) == vstd::utf8::encode_scalar(c as u32) + encode_utf8(Seq::<char>::empty()));
}

fn char_width(c: char) -> (r: usize)
    ensures
        r == char_bytes(c),
{
    let mut v: Vec<char> = Vec::new();
    v.push(c);
    let s = from_chars(&v);
    assert(s@ =~= seq![c]);
    proof {
        lemma_char_bytes(c);
    }
    s.as_str().len()
}

/// The first characters of `t` that take exactly `n` bytes, if no
/// character straddles that point.
fn prefix_bytes(t: &Vec<char>, n: usize) -> (r: Option<Vec<char>>)
    ensures
        match r {
            Some(p) => byte_prefix(t@, n as nat) == Some(p@),
            None => byte_prefix(t@, n as nat) is None,
        },
{
    let mut out: Vec<char> = Vec::new();
    let mut rem: usize = n;
    let mut i: usize = 0;
    assert(t@.skip(0) =~= t@);
    assert(Seq::<char>::empty() + t@.skip(0) =~= t@);
    while rem > 0
        invariant
            i <= t@.len(),
            rem <= n,
            byte_prefix(t@, n as nat) == match byte_prefix(t@.skip(i as int), rem as nat) {
                Some(p) => Some(out@ + p),
                None => None::<Seq<char>>,
            },
        decreases t@.len() - i,
    {
        if i >= t.len() {
            assert(t@.skip(i as int).len() == 0);
            return None;
        }
        let c = t[i];
        let w = char_width(c);
        assert(t@.skip(i as int)[0] == c);
        assert(t@.skip(i as int).drop_first() =~= t@.skip(i + 1));
        if w > rem {
            return None;
        }
        proof {
            let rest = byte_prefix(t@.skip(i + 1), (rem - w) as nat);
            if rest is Some {
                assert(out@ + (seq![c] + rest->0) =~= out@.push(c) + rest->0);
            }
        }
        out.push(c);
        rem = rem - w;
        i = i + 1;
    }
    assert(out@ + Seq::<char>::empty() =~= out@);
    Some(out)
}

/// The title a session row shows.
pub fn row_title(title: &str) -> (r: String)
    requires
        title_cuttable(title@),
    ensures
        r@ == shown_title(title@),
{
    let chars = to_chars(title);
    let mut bytes: usize = 0;
    let mut k: usize = 0;
    assert(chars@.take(0) =~= Seq::<char>::empty());
    while k < chars.len() && bytes <= TITLE_BYTES
        invariant
            chars@ == title@,
            k <= chars@.len(),
            bytes <= TITLE_BYTES + 4,
            bytes == encode_utf8(chars@.take(k as int)).len(),
        decreases chars@.len() - k,
    {
        let w = char_width(chars[k]);
        proof {
            lemma_char_bytes(chars@[k as int]);
            assert(chars@.take(k + 1) =~= chars@.take(k as int) + seq![chars@[k as int]]);
            lemma_encode_concat(chars@.take(k as int), seq![chars@[k as int]]);
        }
        bytes = bytes + w;
        k = k + 1;
    }
    proof {
        assert(chars@ =~= chars@.take(k as int) + chars@.skip(k as int));
        lemma_encode_concat(chars@.take(k as int), chars@.skip(k as int));
    }
    if bytes <= TITLE_BYTES {
        assert(chars@.skip(k as int) =~= Seq::<char>::empty());
        assert(encode_utf8(chars@.skip(k as int)) =~= Seq::<u8>::empty());
        return title.to_owned();
    }
    match prefix_bytes(&chars, TITLE_BYTES) {
        Some(mut p) => {
            let ghost pv = p@;
            p.push('.');
            p.push('.');
            p.push('.');
            proof {
                reveal_strlit("...");
                assert(p@ =~= pv + "..."@);
            }
            from_chars(&p)
        },
        None => title.to_owned(),
    }
}

/// `n turn` or `n turns`.
pub open spec fn turns_text(n: nat) -> Seq<char> {
    decimal(n) + if n == 1 { " turn"@ } else { " turns"@ }
}

pub fn turns_label(n: u64) -> (r: String)
    ensures
        r@ == turns_text(n as nat),
{
    let mut out = u64_to_string(n);
    if n == 1 {
        out.append(" turn");
    } else {
        out.append(" turns");
    }
    out
}

fn span(text: String, tone: Tone) -> (r: Span)
    ensures
        span_view(r) == (text@, tone),
{
    Span { text, tone }
}

fn span_str(text: &str, tone: Tone) -> (r: Span)
    ensures
        span_view(r) == (text@, tone),
{
    Span { text: text.to_owned(), tone }
}

/// A row of the sessions list: its title, turn count and age, marked when
/// selected.
pub open spec fn session_row_view(title: Seq<char>, turns: Seq<char>, age: Seq<char>, selected: bool) -> Seq<(Seq<char>, Tone)> {
    if selected {
        seq![
            ("  \u{25b6} "@, Tone::CyanBold),
            (title, Tone::WhiteBold),
            ("  "@, Tone::Plain),
            (turns, Tone::DarkGray),
            ("  "@, Tone::Plain),
            (age, Tone::Dim),
        ]
    } else {
        seq![
            ("    "@, Tone::Plain),
            (title, Tone::Dim),
            ("  "@, Tone::Plain),
            (turns, Tone::DarkGray),
            ("  "@, Tone::Plain),
            (age, Tone::DarkGray),
        ]
    }
}

pub fn session_row(title: String, turns: String, age: String, selected: bool) -> (r: StyledLine)
    ensures
        line_view(r) == session_row_view(title@, turns@, age@, selected),
{
    let mut spans: Vec<Span> = Vec::new();
    if selected {
        spans.push(span_str("  \u{25b6} ", Tone::CyanBold));
        spans.push(span(title, Tone::WhiteBold));
        spans.push(span_str("  ", Tone::Plain));
        spans.push(span(turns, Tone::DarkGray));
        spans.push(span_str("  ", Tone::Plain));
        spans.push(span(age, Tone::Dim));
    } else {
        spans.push(span_str("    ", Tone::Plain));
        spans.push(span(title, Tone::Dim));
        spans.push(span_str("  ", Tone::Plain));
        spans.push(span(turns, Tone::DarkGray));
        spans.push(span_str("  ", Tone::Plain));
        spans.push(span(age, Tone::DarkGray));
    }
    let r = StyledLine { spans };
    assert(line_view(r) =~= session_row_view(title@, turns@, age@, selected));
    r
}

/// The heading of a list: its name and how many rows it has in all.
pub open spec fn list_heading_view(name: Seq<char>, total: nat) -> Seq<(Seq<char>, Tone)> {
    seq![(" "@, Tone::Plain), (name, Tone::CyanBold), ("  "@ + decimal(total) + " total "@, Tone::Dim)]
}

pub fn list_heading(name: &str, total: usize) -> (r: StyledLine)
    ensures
        line_view(r) == list_heading_view(name@, total as nat),
{
    let mut count = "  ".to_owned();
    count.append(usize_to_string(total).as_str());
    count.append(" total ");
    let mut spans: Vec<Span> = Vec::new();
    spans.push(span_str(" ", Tone::Plain));
    spans.push(span_str(name, Tone::CyanBold));
    spans.push(span(count, Tone::Dim));
    let r = StyledLine { spans };
    assert(line_view(r) =~= list_heading_view(name@, total as nat));
    r
}

/// `value` cut to `width` characters and padded with spaces to `width`
/// characters (as `format!("{:<width$}")` of the cut text).
pub open spec fn fixed_text(value: Seq<char>, width: nat) -> Seq<char> {
    let cut = if value.len() > width { value.take(width as int) } else { value };
    cut + Seq::new((width - cut.len()) as nat, |i: int| ' ')
}

pub fn fixed(value: &str, width: usize) -> (r: String)
    ensures
        r@ == fixed_text(value@, width as nat),
{
    let chars = to_chars(value);
    let mut out: Vec<char> = Vec::new();
    let mut i: usize = 0;
    while i < chars.len() && i < width
        invariant
            i <= chars.len(),
            i <= width,
            out@ == chars@.take(i as int),
        decreases width - i,
    {
        out.push(chars[i]);
        i = i + 1;
        assert(out@ =~= chars@.take(i as int));
    }
    let ghost cut = out@;
    assert(cut =~= if value@.len() > width { value@.take(width as int) } else { value@ });
    while i < width
        invariant
            cut.len() <= i <= width,
            out@ == cut + Seq::new((i - cut.len()) as nat, |j: int| ' '),
        decreases width - i,
    {
        out.push(' ');
        i = i + 1;
        assert(out@ =~= cut + Seq::new((i - cut.len()) as nat, |j: int| ' '));
    }
    from_chars(&out)
}

pub open spec fn execution_text(e: ToolExecutionKind) -> Seq<char> {
    match e {
        ToolExecutionKind::ServerNative => "Server"@,
        ToolExecutionKind::LocalProxy => "LocalProxy"@,
    }
}

pub fn execution_label(e: ToolExecutionKind) -> (r: &'static str)
    ensures
        r@ == execution_text(e),
{
    match e {
        ToolExecutionKind::ServerNative => "Server",
        ToolExecutionKind::LocalProxy => "LocalProxy",
    }
}

pub open spec fn risk_text(r: ToolRisk) -> Seq<char> {
    match r {
        ToolRisk::ReadOnly => "ReadOnly"@,
        ToolRisk::WritesFiles => "WritesFiles"@,
        ToolRisk::DeletesFiles => "DeletesFiles"@,
        ToolRisk::DeletesDirectories => "DeletesDirs"@,
        ToolRisk::Network => "Network"@,
        ToolRisk::ExternalProcess => "ExternalProc"@,
    }
}

pub fn risk_label(risk: ToolRisk) -> (r: &'static str)
    ensures
        r@ == risk_text(risk),
{
    match risk {
        ToolRisk::ReadOnly => "ReadOnly",
        ToolRisk::WritesFiles => "WritesFiles",
        ToolRisk::DeletesFiles => "DeletesFiles",
        ToolRisk::DeletesDirectories => "DeletesDirs",
        ToolRisk::Network => "Network",
        ToolRisk::ExternalProcess => "ExternalProc",
    }
}

/// How a risk is coloured: safe reads green, the network cyan, changes to
/// files yellow, other programs red.
pub open spec fn risk_tone(r: ToolRisk) -> Tone {
    match r {
        ToolRisk::ReadOnly => Tone::Green,
        ToolRisk::Network => Tone::Cyan,
        ToolRisk::WritesFiles | ToolRisk::DeletesFiles | ToolRisk::DeletesDirectories => Tone::Yellow,
        ToolRisk::ExternalProcess => Tone::Red,
    }
}

pub fn risk_style(risk: ToolRisk) -> (r: Tone)
    ensures
        r == risk_tone(risk),
{
    match risk {
        ToolRisk::ReadOnly => Tone::Green,
        ToolRisk::Network => Tone::Cyan,
        ToolRisk::WritesFiles | ToolRisk::DeletesFiles | ToolRisk::DeletesDirectories => Tone::Yellow,
        ToolRisk::ExternalProcess => Tone::Red,
    }
}

pub open spec fn output_policy_text(p: ToolOutputPolicy) -> Seq<char> {
    match p {
        ToolOutputPolicy::FullToModelSummaryToUi => "full to model, summary to UI"@,
        ToolOutputPolicy::SummaryOnly => "summary only"@,
        ToolOutputPolicy::FullAllowed => "full allowed"@,
    }
}

pub fn output_policy_label(p: ToolOutputPolicy) -> (r: &'static str)
    ensures
        r@ == output_policy_text(p),
{
    match p {
        ToolOutputPolicy::FullToModelSummaryToUi => "full to model, summary to UI",
        ToolOutputPolicy::SummaryOnly => "summary only",
        ToolOutputPolicy::FullAllowed => "full allowed",
    }
}

pub open spec fn status_text(s: ToolAvailability) -> Seq<char> {
    match s {
        ToolAvailability::Active => "Active"@,
        ToolAvailability::Draft => "Draft"@,
        ToolAvailability::MissingLocally => "Missing local"@,
        ToolAvailability::MissingRemotely => "Missing server"@,
    }
}

pub fn status_label(s: ToolAvailability) -> (r: &'static str)
    ensures
        r@ == status_text(s),
{
    match s {
        ToolAvailability::Active => "Active",
        ToolAvailability::Draft => "Draft",
        ToolAvailability::MissingLocally => "Missing local",
        ToolAvailability::MissingRemotely => "Missing server",
    }
}

/// How an availability is coloured: active green, drafts and tools missing
/// here yellow, tools missing on the server red.
pub open spec fn status_tone(s: ToolAvailability) -> Tone {
    match s {
        ToolAvailability::Active => Tone::Green,
        ToolAvailability::Draft => Tone::Yellow,
        ToolAvailability::MissingLocally => Tone::Yellow,
        ToolAvailability::MissingRemotely => Tone::Red,
    }
}

pub fn status_style(s: ToolAvailability) -> (r: Tone)
    ensures
        r == status_tone(s),
{
    match s {
        ToolAvailability::Active => Tone::Green,
        ToolAvailability::Draft => Tone::Yellow,
        ToolAvailability::MissingLocally => Tone::Yellow,
        ToolAvailability::MissingRemotely => Tone::Red,
    }
}

/// A row of the tools list: name, kind, risk and approval in fixed-width
/// columns, then the status.
pub open spec fn tool_row_view(d: ToolDescriptor, a: ToolAvailability, selected: bool) -> Seq<(Seq<char>, Tone)> {
    seq![
        (" "@ + (if selected { "\u{25b6}"@ } else { " "@ }) + " "@, Tone::Cyan),
        (fixed_text(d.name@, 20), if selected { Tone::CyanBold } else { Tone::Dim }),
        ("  "@, Tone::Plain),
        (fixed_text(execution_text(d.execution), 11), Tone::Plain),
        ("  "@, Tone::Plain),
        (fixed_text(risk_text(d.risk), 17), risk_tone(d.risk)),
        ("  "@, Tone::Plain),
        (
            fixed_text(if d.approval_required { "Yes"@ } else { "No"@ }, 8),
            if d.approval_required { Tone::Yellow } else { Tone::Green },
        ),
        ("  "@, Tone::Plain),
        (status_text(a), status_tone(a)),
    ]
}

pub fn tool_row(item: &ToolDashboardItem, selected: bool) -> (r: StyledLine)
    ensures
        line_view(r) == tool_row_view(item.descriptor, item.availability, selected),
{
    let d = &item.descriptor;
    let marker = if selected { " \u{25b6} " } else { "   " };
    proof {
        reveal_strlit(" \u{25b6} ");
        reveal_strlit("   ");
        reveal_strlit("\u{25b6}");
        reveal_strlit(" ");
        assert(" \u{25b6} "@ =~= " "@ + "\u{25b6}"@ + " "@);
        assert("   "@ =~= " "@ + " "@ + " "@);
    }
    let mut spans: Vec<Span> = Vec::new();
    spans.push(span_str(marker, Tone::Cyan));
    spans.push(span(fixed(d.name.as_str(), 20), if selected { Tone::CyanBold } else { Tone::Dim }));
    spans.push(span_str("  ", Tone::Plain));
    spans.push(span(fixed(execution_label(d.execution), 11), Tone::Plain));
    spans.push(span_str("  ", Tone::Plain));
    spans.push(span(fixed(risk_label(d.risk), 17), risk_style(d.risk)));
    spans.push(span_str("  ", Tone::Plain));
    spans.push(span(
        fixed(if d.approval_required { "Yes" } else { "No" }, 8),
        if d.approval_required { Tone::Yellow } else { Tone::Green },
    ));
    spans.push(span_str("  ", Tone::Plain));
    spans.push(span_str(status_label(item.availability), status_style(item.availability)));
    let r = StyledLine { spans };
    assert(line_view(r) =~= tool_row_view(item.descriptor, item.availability, selected));
    r
}

/// The lines the detail pane shows of a tool.
pub open spec fn descriptor_lines_view(d: ToolDescriptor, a: ToolAvailability) -> Seq<Seq<(Seq<char>, Tone)>> {
    seq![
        seq![(d.name@, Tone::CyanBold)],
        seq![(d.description@, Tone::Dim)],
        Seq::empty(),
        seq![("kind > "@, Tone::Green), (execution_text(d.execution), Tone::Plain)],
        seq![("risk > "@, Tone::Green), (risk_text(d.risk), Tone::Plain)],
        seq![
            ("approval > "@, Tone::Green),
            (if d.approval_required { "required"@ } else { "automatic"@ }, Tone::Plain),
        ],
        seq![("output > "@, Tone::Green), (output_policy_text(d.output_policy), Tone::Plain)],
        seq![("status > "@, Tone::Green), (status_text(a), status_tone(a))],
    ]
}

fn line_of(spans: Vec<Span>) -> (r: StyledLine)
    ensures
        r.spans == spans,
{
    StyledLine { spans }
}

fn pair(a: Span, b: Span) -> (r: StyledLine)
    ensures
        line_view(r) == seq![span_view(a), span_view(b)],
{
    let mut spans: Vec<Span> = Vec::new();
    spans.push(a);
    spans.push(b);
    let r = StyledLine { spans };
    assert(line_view(r) =~= seq![span_view(a), span_view(b)]);
    r
}

fn single(a: Span) -> (r: StyledLine)
    ensures
        line_view(r) == seq![span_view(a)],
{
    let mut spans: Vec<Span> = Vec::new();
    spans.push(a);
    let r = StyledLine { spans };
    assert(line_view(r) =~= seq![span_view(a)]);
    r
}

pub fn descriptor_lines(d: &ToolDescriptor, a: ToolAvailability) -> (r: Vec<StyledLine>)
    ensures
        lines_view(r@) == descriptor_lines_view(*d, a),
{
    let mut out: Vec<StyledLine> = Vec::new();
    out.push(single(span(d.name.clone(), Tone::CyanBold)));
    out.push(single(span(d.description.clone(), Tone::Dim)));
    let empty = line_of(Vec::new());
    assert(line_view(empty) =~= Seq::<(Seq<char>, Tone)>::empty());
    out.push(empty);
    out.push(pair(span_str("kind > ", Tone::Green), span_str(execution_label(d.execution), Tone::Plain)));
    out.push(pair(span_str("risk > ", Tone::Green), span_str(risk_label(d.risk), Tone::Plain)));
    out.push(pair(
        span_str("approval > ", Tone::Green),
        span_str(if d.approval_required { "required" } else { "automatic" }, Tone::Plain),
    ));
    out.push(pair(
        span_str("output > ", Tone::Green),
        span_str(output_policy_label(d.output_policy), Tone::Plain),
    ));
    out.push(pair(span_str("status > ", Tone::Green), span_str(status_label(a), status_style(a))));
    assert(lines_view(out@) =~= descriptor_lines_view(*d, a));
    out
}

/// How many rows a list of `len` rows shows from `scroll` in `height` rows.
pub open spec fn visible_count(len: nat, scroll: nat, height: nat) -> nat {
    if scroll >= len {
        0
    } else if len - scroll < height {
        (len - scroll) as nat
    } else {
        height
    }
}

/// The lines of the sessions list: the visible rows around the cursor
/// (titles cut, the count of messages and the age as of `now`), or a hint
/// when there are no sessions.
pub open spec fn sessions_lines_view(ss: Seq<SessionSummary>, cursor: nat, height: nat, now: u64) -> Seq<Seq<(Seq<char>, Tone)>> {
    if ss.len() == 0 {
        seq![seq![("No sessions yet. Start a conversation from the home screen."@, Tone::Dim)]]
    } else {
        let scroll = scroll_of(cursor, height);
        Seq::new(
            visible_count(ss.len(), scroll, height),
            |j: int| {
                let s = ss[scroll + j];
                session_row_view(
                    shown_title(s.title@),
                    turns_text(s.message_count as nat),
                    age_text(now, s.updated_at_secs),
                    scroll + j == cursor,
                )
            },
        )
    }
}

pub fn sessions_lines(sessions: &Vec<SessionSummary>, cursor: usize, height: usize, now: u64) -> (r: Vec<StyledLine>)
    requires
        height > 0 || cursor < usize::MAX,
        forall|i: int| 0 <= i < sessions@.len() ==> title_cuttable(#[trigger] sessions@[i].title@),
    ensures
        lines_view(r@) == sessions_lines_view(sessions@, cursor as nat, height as nat, now),
{
    let mut out: Vec<StyledLine> = Vec::new();
    if sessions.len() == 0 {
        out.push(single(span_str("No sessions yet. Start a conversation from the home screen.", Tone::Dim)));
        assert(lines_view(out@) =~= sessions_lines_view(sessions@, cursor as nat, height as nat, now));
        return out;
    }
    let scroll = list_scroll(cursor, height);
    let ghost count = visible_count(sessions@.len(), scroll as nat, height as nat);
    let mut i: usize = scroll;
    while i < sessions.len() && i - scroll < height
        invariant
            scroll == scroll_of(cursor as nat, height as nat),
            count == visible_count(sessions@.len(), scroll as nat, height as nat),
            sessions@.len() > 0,
            scroll <= i,
            i <= scroll + count,
            forall|k: int| 0 <= k < sessions@.len() ==> title_cuttable(#[trigger] sessions@[k].title@),
            out@.len() == i - scroll,
            forall|j: int| 0 <= j < out@.len() ==> line_view(#[trigger] out@[j]) == session_row_view(
                shown_title(sessions@[scroll + j].title@),
                turns_text(sessions@[scroll + j].message_count as nat),
                age_text(now, sessions@[scroll + j].updated_at_secs),
                scroll + j == cursor,
            ),
        decreases sessions.len() - i,
    {
        let s = &sessions[i];
        let row = session_row(
            row_title(s.title.as_str()),
            turns_label(s.message_count),
            age_label(now, s.updated_at_secs),
            i == cursor,
        );
        out.push(row);
        i = i + 1;
    }
    assert(out@.len() == count);
    assert(lines_view(out@) =~= sessions_lines_view(sessions@, cursor as nat, height as nat, now));
    out
}

/// The column heads of the tools list.
pub open spec fn tools_header_view() -> Seq<(Seq<char>, Tone)> {
    seq![
        ("Name"@, Tone::GreenBold),
        ("                 "@, Tone::Plain),
        ("Kind"@, Tone::GreenBold),
        ("        "@, Tone::Plain),
        ("Risk"@, Tone::GreenBold),
        ("              "@, Tone::Plain),
        ("Approval"@, Tone::GreenBold),
        ("  "@, Tone::Plain),
        ("Status"@, Tone::GreenBold),
    ]
}

/// The lines of the tools list: the column heads, then a note while the
/// list loads or when it is empty, else the visible rows around the cursor.
pub open spec fn tools_lines_view(items: Seq<ToolDashboardItem>, loaded: bool, cursor: nat, height: nat) -> Seq<Seq<(Seq<char>, Tone)>> {
    let head = seq![tools_header_view()];
    if !loaded {
        head.push(seq![("Loading tools..."@, Tone::Dim)])
    } else if items.len() == 0 {
        head.push(seq![("No tools reported by CLI or server."@, Tone::Dim)])
    } else {
        let scroll = scroll_of(cursor, height);
        head + Seq::new(
            visible_count(items.len(), scroll, height),
            |j: int| tool_row_view(items[scroll + j].descriptor, items[scroll + j].availability, scroll + j == cursor),
        )
    }
}

pub fn tools_lines(items: &Vec<ToolDashboardItem>, loaded: bool, cursor: usize, height: usize) -> (r: Vec<StyledLine>)
    requires
        height > 0 || cursor < usize::MAX,
    ensures
        lines_view(r@) == tools_lines_view(items@, loaded, cursor as nat, height as nat),
{
    let mut head: Vec<Span> = Vec::new();
    head.push(span_str("Name", Tone::GreenBold));
    head.push(span_str("                 ", Tone::Plain));
    head.push(span_str("Kind", Tone::GreenBold));
    head.push(span_str("        ", Tone::Plain));
    head.push(span_str("Risk", Tone::GreenBold));
    head.push(span_str("              ", Tone::Plain));
    head.push(span_str("Approval", Tone::GreenBold));
    head.push(span_str("  ", Tone::Plain));
    head.push(span_str("Status", Tone::GreenBold));
    let head_line = line_of(head);
    assert(line_view(head_line) =~= tools_header_view());
    let mut out: Vec<StyledLine> = Vec::new();
    out.push(head_line);
    if !loaded {
        out.push(single(span_str("Loading tools...", Tone::Dim)));
        assert(lines_view(out@) =~= tools_lines_view(items@, loaded, cursor as nat, height as nat));
        return out;
    }
    if items.len() == 0 {
        out.push(single(span_str("No tools reported by CLI or server.", Tone::Dim)));
        assert(lines_view(out@) =~= tools_lines_view(items@, loaded, cursor as nat, height as nat));
        return out;
    }
    let scroll = list_scroll(cursor, height);
    let ghost count = visible_count(items@.len(), scroll as nat, height as nat);
    let mut i: usize = scroll;
    while i < items.len() && i - scroll < height
        invariant
            scroll == scroll_of(cursor as nat, height as nat),
            count == visible_count(items@.len(), scroll as nat, height as nat),
            items@.len() > 0,
            scroll <= i,
            i <= scroll + count,
            out@.len() == 1 + (i - scroll),
            line_view(out@[0]) == tools_header_view(),
            forall|j: int| 1 <= j < out@.len() ==> line_view(#[trigger] out@[j]) == tool_row_view(
                items@[scroll + j - 1].descriptor,
                items@[scroll + j - 1].availability,
                scroll + j - 1 == cursor,
            ),
        decreases items.len() - i,
    {
        out.push(tool_row(&items[i], i == cursor));
        i = i + 1;
    }
    assert(lines_view(out@) =~= tools_lines_view(items@, loaded, cursor as nat, height as nat));
    out
}

/// The lines of the detail pane: the selected tool, or why there is none,
/// then the page's notice if there is one.
pub open spec fn tool_detail_view(selected: Option<ToolDashboardItem>, loaded: bool, notice: Option<Seq<char>>) -> Seq<Seq<(Seq<char>, Tone)>> {
    let body = match selected {
        Some(item) => descriptor_lines_view(item.descriptor, item.availability),
        None => if loaded {
            seq![seq![("No tool selected."@, Tone::Dim)]]
        } else {
            seq![seq![("Waiting for server registry..."@, Tone::Dim)]]
        },
    };
    match notice {
        Some(n) => body.push(Seq::empty()).push(seq![("notice > "@, Tone::Yellow), (n, Tone::Dim)]),
        None => body,
    }
}

pub fn tool_detail_lines(items: &Vec<ToolDashboardItem>, loaded: bool, cursor: usize, notice: &Option<String>) -> (r: Vec<StyledLine>)
    ensures
        lines_view(r@) == tool_detail_view(
            if cursor < items@.len() { Some(items@[cursor as int]) } else { None },
            loaded,
            opt_chars(*notice),
        ),
{
    let mut out: Vec<StyledLine>;
    if cursor < items.len() {
        out = descriptor_lines(&items[cursor].descriptor, items[cursor].availability);
    } else {
        out = Vec::new();
        if loaded {
            out.push(single(span_str("No tool selected.", Tone::Dim)));
        } else {
            out.push(single(span_str("Waiting for server registry...", Tone::Dim)));
        }
    }
    let ghost body = lines_view(out@);
    match notice {
        Some(n) => {
            let empty = line_of(Vec::new());
            assert(line_view(empty) =~= Seq::<(Seq<char>, Tone)>::empty());
            out.push(empty);
            out.push(pair(span_str("notice > ", Tone::Yellow), span(n.clone(), Tone::Dim)));
            assert(lines_view(out@) =~= body.push(Seq::empty()).push(seq![("notice > "@, Tone::Yellow), (n@, Tone::Dim)]));
        },
        None => {},
    }
    assert(lines_view(out@) =~= tool_detail_view(
        if cursor < items@.len() { Some(items@[cursor as int]) } else { None },
        loaded,
        opt_chars(*notice),
    ));
    out
}

/// What the home page's prompt box shows: a placeholder while it is
/// empty, else each line of the prompt in cyan.
pub open spec fn prompt_area_view(input: Seq<char>) -> Seq<Seq<(Seq<char>, Tone)>> {
    if input.len() == 0 {
        seq![seq![("Ask Faaido anything about your process..."@, Tone::Dim)]]
    } else {
        split_on(input, '\n').map_values(|l: Seq<char>| seq![(l, Tone::Cyan)])
    }
}

pub fn prompt_area_lines(input: &str) -> (r: Vec<StyledLine>)
    ensures
        lines_view(r@) == prompt_area_view(input@),
{
    let mut out: Vec<StyledLine> = Vec::new();
    if input.is_empty() {
        out.push(single(span_str("Ask Faaido anything about your process...", Tone::Dim)));
        assert(lines_view(out@) =~= prompt_area_view(input@));
        return out;
    }
    let parts = split_str(input, '\n');
    let ghost pv = string_views(parts@);
    let mut i: usize = 0;
    while i < parts.len()
        invariant
            pv == string_views(parts@),
            pv == split_on(input@, '\n'),
            i <= parts@.len(),
            lines_view(out@) == pv.take(i as int).map_values(|l: Seq<char>| seq![(l, Tone::Cyan)]),
        decreases parts.len() - i,
    {
        let ghost before = lines_view(out@);
        out.push(single(span(parts[i].clone(), Tone::Cyan)));
        assert(pv[i as int] == parts@[i as int]@);
        assert(lines_view(out@) =~= before.push(seq![(pv[i as int], Tone::Cyan)]));
        assert(pv.take(i + 1).map_values(|l: Seq<char>| seq![(l, Tone::Cyan)]) =~= pv.take(
            i as int,
        ).map_values(|l: Seq<char>| seq![(l, Tone::Cyan)]).push(seq![(pv[i as int], Tone::Cyan)]));
        i = i + 1;
    }
    assert(pv.take(parts@.len() as int) =~= pv);
    out
}

/// The name of an agent mode as the client shows it.
pub open spec fn mode_text(m: AgentMode) -> Seq<char> {
    match m {
        AgentMode::Build => "build"@,
        AgentMode::Plan => "plan"@,
    }
}

/// The status line under the home page's prompt: the prompt's length and
/// the agent mode among the key hints.
pub open spec fn home_footer_view(input_len: nat, mode: Seq<char>) -> Seq<(Seq<char>, Tone)> {
    seq![
        (" HOME "@, Tone::Badge),
        ("  "@, Tone::Plain),
        ("INPUT "@, Tone::GreenBold),
        (decimal(input_len) + " chars"@, Tone::Dim),
        ("  "@, Tone::Plain),
        ("ENTER "@, Tone::CyanBold),
        ("send "@, Tone::Dim),
        ("CTRL+ENTER "@, Tone::GreenBold),
        ("newline "@, Tone::Dim),
        ("  "@, Tone::Plain),
        ("SHIFT+TAB "@, Tone::CyanBold),
        ("mode "@, Tone::Dim),
        ("  "@, Tone::Plain),
        ("MODE "@, Tone::GreenBold),
        (mode, Tone::Dim),
        ("  "@, Tone::Plain),
        ("ESC "@, Tone::MagentaBold),
        ("quit"@, Tone::Dim),
    ]
}

pub fn home_footer(input_len: usize, mode: AgentMode) -> (r: StyledLine)
    ensures
        line_view(r) == home_footer_view(input_len as nat, mode_text(mode)),
{
    let mut count = usize_to_string(input_len);
    count.append(" chars");
    let mut spans: Vec<Span> = Vec::new();
    spans.push(span_str(" HOME ", Tone::Badge));
    spans.push(span_str("  ", Tone::Plain));
    spans.push(span_str("INPUT ", Tone::GreenBold));
    spans.push(span(count, Tone::Dim));
    spans.push(span_str("  ", Tone::Plain));
    spans.push(span_str("ENTER ", Tone::CyanBold));
    spans.push(span_str("send ", Tone::Dim));
    spans.push(span_str("CTRL+ENTER ", Tone::GreenBold));
    spans.push(span_str("newline ", Tone::Dim));
    spans.push(span_str("  ", Tone::Plain));
    spans.push(span_str("SHIFT+TAB ", Tone::CyanBold));
    spans.push(span_str("mode ", Tone::Dim));
    spans.push(span_str("  ", Tone::Plain));
    spans.push(span_str("MODE ", Tone::GreenBold));
    spans.push(span_str(mode.label(), Tone::Dim));
    spans.push(span_str("  ", Tone::Plain));
    spans.push(span_str("ESC ", Tone::MagentaBold));
    spans.push(span_str("quit", Tone::Dim));
    let r = StyledLine { spans };
    assert(line_view(r) =~= home_footer_view(input_len as nat, mode_text(mode)));
    r
}

/// The body of a simple page: its title, a summary, a detail and the
/// commands that lead elsewhere.
pub open spec fn page_shell_view(title: Seq<char>, summary: Seq<char>, detail: Seq<char>) -> Seq<Seq<(Seq<char>, Tone)>> {
    seq![
        seq![(title, Tone::CyanBold)],
        Seq::empty(),
        seq![(summary, Tone::Dim)],
        seq![(detail, Tone::DarkGray)],
        Seq::empty(),
        seq![("Commands"@, Tone::GreenBold), ("  /home  /about  /settings"@, Tone::Dim)],
    ]
}

pub fn page_shell_lines(title: &str, summary: &str, detail: &str) -> (r: Vec<StyledLine>)
    ensures
        lines_view(r@) == page_shell_view(title@, summary@, detail@),
{
    let mut out: Vec<StyledLine> = Vec::new();
    out.push(single(span_str(title, Tone::CyanBold)));
    let e1 = line_of(Vec::new());
    assert(line_view(e1) =~= Seq::<(Seq<char>, Tone)>::empty());
    out.push(e1);
    out.push(single(span_str(summary, Tone::Dim)));
    out.push(single(span_str(detail, Tone::DarkGray)));
    let e2 = line_of(Vec::new());
    assert(line_view(e2) =~= Seq::<(Seq<char>, Tone)>::empty());
    out.push(e2);
    out.push(pair(span_str("Commands", Tone::GreenBold), span_str("  /home  /about  /settings", Tone::Dim)));
    assert(lines_view(out@) =~= page_shell_view(title@, summary@, detail@));
    out
}

/// The page shown for a route that does not exist.
pub fn missing_page_lines(path: &str) -> (r: Vec<StyledLine>)
    ensures
        lines_view(r@) == page_shell_view(
            "Not Found"@,
            path@,
            "That page does not exist. Try /home, /about, or /settings."@,
        ),
{
    page_shell_lines("Not Found", path, "That page does not exist. Try /home, /about, or /settings.")
}

/// The settings page.
pub fn settings_page_lines() -> (r: Vec<StyledLine>)
    ensures
        lines_view(r@) == page_shell_view(
            "Settings"@,
            "Configuration controls will appear here."@,
            "Shared config should stay in agentic-config when both apps need it."@,
        ),
{
    page_shell_lines(
        "Settings",
        "Configuration controls will appear here.",
        "Shared config should stay in agentic-config when both apps need it.",
    )
}

/// What a page's command box shows: a placeholder while it is empty, else
/// the command typed so far.
pub open spec fn command_input_view(input: Seq<char>) -> Seq<(Seq<char>, Tone)> {
    if input.len() == 0 {
        seq![("Type /home, /about, or /settings..."@, Tone::Dim)]
    } else {
        seq![(input, Tone::Cyan)]
    }
}

pub fn command_input_line(input: &str) -> (r: StyledLine)
    ensures
        line_view(r) == command_input_view(input@),
{
    if input.is_empty() {
        single(span_str("Type /home, /about, or /settings...", Tone::Dim))
    } else {
        single(span_str(input, Tone::Cyan))
    }
}

/// The key hints under the chat page.
pub open spec fn chat_footer_view(mode: Seq<char>) -> Seq<(Seq<char>, Tone)> {
    seq![
        (" CHAT "@, Tone::Badge),
        ("  "@, Tone::Plain),
        ("MODE "@, Tone::GreenBold),
        (mode, Tone::Dim),
        ("  "@, Tone::Plain),
        ("\u{2191}\u{2193} "@, Tone::CyanBold),
        ("scroll "@, Tone::Dim),
        ("SHIFT+TAB "@, Tone::CyanBold),
        ("mode "@, Tone::Dim),
        ("/sessions "@, Tone::CyanBold),
        ("history "@, Tone::Dim),
        ("debug:tool-stream "@, Tone::CyanBold),
        ("demo "@, Tone::Dim),
        ("ESC "@, Tone::MagentaBold),
        ("quit"@, Tone::Dim),
    ]
}

pub fn chat_footer(mode: AgentMode) -> (r: StyledLine)
    ensures
        line_view(r) == chat_footer_view(mode_text(mode)),
{
    let mut spans: Vec<Span> = Vec::new();
    spans.push(span_str(" CHAT ", Tone::Badge));
    spans.push(span_str("  ", Tone::Plain));
    spans.push(span_str("MODE ", Tone::GreenBold));
    spans.push(span_str(mode.label(), Tone::Dim));
    spans.push(span_str("  ", Tone::Plain));
    spans.push(span_str("\u{2191}\u{2193} ", Tone::CyanBold));
    spans.push(span_str("scroll ", Tone::Dim));
    spans.push(span_str("SHIFT+TAB ", Tone::CyanBold));
    spans.push(span_str("mode ", Tone::Dim));
    spans.push(span_str("/sessions ", Tone::CyanBold));
    spans.push(span_str("history ", Tone::Dim));
    spans.push(span_str("debug:tool-stream ", Tone::CyanBold));
    spans.push(span_str("demo ", Tone::Dim));
    spans.push(span_str("ESC ", Tone::MagentaBold));
    spans.push(span_str("quit", Tone::Dim));
    let r = StyledLine { spans };
    assert(line_view(r) =~= chat_footer_view(mode_text(mode)));
    r
}

/// The tools page's labels and colours: server-run tools read `Server` and
/// client-run ones `LocalProxy`; risks read `ReadOnly`, `WritesFiles`,
/// `DeletesFiles`, `DeletesDirs`, `Network` and `ExternalProc`, green when
/// read-only, cyan for the network, yellow for writes and deletions and red
/// for external processes; output policies read `full to model, summary to
/// UI`, `summary only` and `full allowed`; availability reads `Active`
/// (green), `Draft` (yellow), `Missing local` (yellow) and `Missing server`
/// (red).
pub proof fn law_tool_labels()
    ensures
        execution_text(ToolExecutionKind::ServerNative) == "Server"@,
        execution_text(ToolExecutionKind::LocalProxy) == "LocalProxy"@,
        risk_text(ToolRisk::ReadOnly) == "ReadOnly"@,
        risk_text(ToolRisk::WritesFiles) == "WritesFiles"@,
        risk_text(ToolRisk::DeletesFiles) == "DeletesFiles"@,
        risk_text(ToolRisk::DeletesDirectories) == "DeletesDirs"@,
        risk_text(ToolRisk::Network) == "Network"@,
        risk_text(ToolRisk::ExternalProcess) == "ExternalProc"@,
        risk_tone(ToolRisk::ReadOnly) == Tone::Green,
        risk_tone(ToolRisk::Network) == Tone::Cyan,
        risk_tone(ToolRisk::WritesFiles) == Tone::Yellow,
        risk_tone(ToolRisk::DeletesFiles) == Tone::Yellow,
        risk_tone(ToolRisk::DeletesDirectories) == Tone::Yellow,
        risk_tone(ToolRisk::ExternalProcess) == Tone::Red,
        output_policy_text(ToolOutputPolicy::FullToModelSummaryToUi) == "full to model, summary to UI"@,
        output_policy_text(ToolOutputPolicy::SummaryOnly) == "summary only"@,
        output_policy_text(ToolOutputPolicy::FullAllowed) == "full allowed"@,
        status_text(ToolAvailability::Active) == "Active"@,
        status_text(ToolAvailability::Draft) == "Draft"@,
        status_text(ToolAvailability::MissingLocally) == "Missing local"@,
        status_text(ToolAvailability::MissingRemotely) == "Missing server"@,
        status_tone(ToolAvailability::Active) == Tone::Green,
        status_tone(ToolAvailability::Draft) == Tone::Yellow,
        status_tone(ToolAvailability::MissingLocally) == Tone::Yellow,
        status_tone(ToolAvailability::MissingRemotely) == Tone::Red,
{
}

} // verus!
