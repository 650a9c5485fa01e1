//! Keeps tool paths inside the workspace: relative paths are checked by
//! their text, and what the file system reports of them is checked against
//! the workspace root.
use vstd::prelude::*;
use vstd::string::*;
use crate::text::{ends_with, starts_with, str_eq, string_views, to_chars, from_chars};

verus! {

/// Whether `c` has the Unicode `White_Space` property (`char::is_whitespace`).
pub open spec fn is_ws(c: char) -> bool {
    let u = c as u32;
    ||| 0x09 <= u <= 0x0D
    ||| u == 0x20
    ||| u == 0x85
    ||| u == 0xA0
    ||| u == 0x1680
    ||| 0x2000 <= u <= 0x200A
    ||| u == 0x2028
    ||| u == 0x2029
    ||| u == 0x202F
    ||| u == 0x205F
    ||| u == 0x3000
}

pub fn char_is_whitespace(c: char) -> (r: bool)
    ensures
        r == is_ws(c),
{
    let u: u32 = c as u32;
    (0x09 <= u && u <= 0x0D) || u == 0x20 || u == 0x85 || u == 0xA0 || u == 0x1680 || (0x2000
        <= u && u <= 0x200A) || u == 0x2028 || u == 0x2029 || u == 0x202F || u == 0x205F || u
        == 0x3000
}

/// Whether the text is empty once surrounding whitespace is trimmed.
pub open spec fn is_blank(s: Seq<char>) -> bool {
    forall|i: int| 0 <= i < s.len() ==> is_ws(#[trigger] s[i])
}

pub fn blank(s: &str) -> (r: bool)
    ensures
        r == is_blank(s@),
{
    let chars = to_chars(s);
    let mut i: usize = 0;
    while i < chars.len()
        invariant
            chars@ == s@,
            i <= chars.len(),
            forall|j: int| 0 <= j < i ==> is_ws(#[trigger] s@[j]),
        decreases chars.len() - i,
    {
        if !char_is_whitespace(chars[i]) {
            return false;
        }
        i = i + 1;
    }
    true
}

/// The pieces of `s` between `sep` characters (as `str::split`).
pub open spec fn split_on(s: Seq<char>, sep: char) -> Seq<Seq<char>>
    decreases s.len(),
{
    if s.len() == 0 {
        seq![Seq::<char>::empty()]
    } else {
        let p = split_on(s.drop_last(), sep);
        if s.last() == sep {
            p.push(Seq::empty())
        } else {
            p.update(p.len() - 1, p.last().push(s.last()))
        }
    }
}

pub proof fn lemma_split_nonempty(s: Seq<char>, sep: char)
    ensures
        split_on(s, sep).len() >= 1,
    decreases s.len(),
{
    if s.len() > 0 {
        lemma_split_nonempty(s.drop_last(), sep);
    }
}


/// `s` without its leading whitespace.
pub open spec fn trim_start_ws(s: Seq<char>) -> Seq<char>
    decreases s.len(),
{
    if s.len() > 0 && is_ws(s[0]) {
        trim_start_ws(s.drop_first())
    } else {
        s
    }
}

/// `s` without its trailing whitespace.
pub open spec fn trim_end_ws(s: Seq<char>) -> Seq<char>
    decreases s.len(),
{
    if s.len() > 0 && is_ws(s.last()) {
        trim_end_ws(s.drop_last())
    } else {
        s
    }
}

/// `s` without surrounding whitespace (as `str::trim`).
pub open spec fn trimmed(s: Seq<char>) -> Seq<char> {
    trim_end_ws(trim_start_ws(s))
}

/// `str::trim`, as an owned string.
pub fn trim_str(s: &str) -> (r: String)
    ensures
        r@ == trimmed(s@),
{
    let chars = to_chars(s);
    let mut a: usize = 0;
    assert(s@.skip(0) =~= s@);
    while a < chars.len() && char_is_whitespace(chars[a])
        invariant
            chars@ == s@,
            a <= chars.len(),
            trim_start_ws(s@) == trim_start_ws(s@.skip(a as int)),
        decreases chars.len() - a,
    {
        assert(s@.skip(a as int).drop_first() =~= s@.skip(a + 1));
        a = a + 1;
    }
    assert(trim_start_ws(s@) == s@.skip(a as int));
    let ghost t = s@.skip(a as int);
    let mut b: usize = chars.len();
    assert(t.take(t.len() as int) =~= t);
    while b > a && char_is_whitespace(chars[b - 1])
        invariant
            chars@ == s@,
            t == s@.skip(a as int),
            a <= b <= chars.len(),
            trim_end_ws(t) == trim_end_ws(t.take(b - a)),
        decreases b,
    {
        assert(t.take(b - a).drop_last() =~= t.take(b - 1 - a));
        b = b - 1;
    }
    let mut out: Vec<char> = Vec::new();
    let mut i: usize = a;
    while i < b
        invariant
            chars@ == s@,
            a <= i <= b <= chars.len(),
            out@ == s@.subrange(a as int, i as int),
        decreases b - i,
    {
        out.push(chars[i]);
        i = i + 1;
        assert(out@ =~= s@.subrange(a as int, i as int));
    }
    assert(out@ =~= t.take(b - a));
    from_chars(&out)
}

/// Splits a string at every `sep`.
pub fn split_str(s: &str, sep: char) -> (r: Vec<String>)
    ensures
        string_views(r@) == split_on(s@, sep),
{
    let chars = to_chars(s);
    let mut out: Vec<String> = Vec::new();
    let mut cur: Vec<char> = Vec::new();
    let mut i: usize = 0;
    assert(s@.take(0) =~= Seq::<char>::empty());
    while i < chars.len()
        invariant
            chars@ == s@,
            i <= chars.len(),
            split_on(s@.take(i as int), sep).len() >= 1,
            string_views(out@) == split_on(s@.take(i as int), sep).drop_last(),
            cur@ == split_on(s@.take(i as int), sep).last(),
        decreases chars.len() - i,
    {
        let ghost p = s@.take(i as int);
        let ghost parts = split_on(p, sep);
        assert(s@.take(i + 1) =~= p.push(chars@[i as int]));
        assert(p.push(chars@[i as int]).drop_last() =~= p);
        if chars[i] == sep {
            let piece = from_chars(&cur);
            let ghost before = out@;
            out.push(piece);
            cur = Vec::new();
            assert(string_views(out@) =~= string_views(before).push(piece@));
            assert(parts.drop_last().push(parts.last()) =~= parts);
        } else {
            cur.push(chars[i]);
            let ghost np = split_on(s@.take(i + 1), sep);
            assert(np =~= parts.update(parts.len() - 1, parts.last().push(chars@[i as int])));
            assert(np.drop_last() =~= parts.drop_last());
        }
        i = i + 1;
    }
    let last = from_chars(&cur);
    let ghost before = out@;
    out.push(last);
    proof {
        assert(s@.take(chars.len() as int) =~= s@);
        let parts = split_on(s@, sep);
        assert(parts.drop_last().push(parts.last()) =~= parts);
        assert(string_views(out@) =~= string_views(before).push(last@));
    }
    out
}

/// The named components of a path: its `/`-separated pieces without empty
/// pieces and `.`.
pub open spec fn named(segs: Seq<Seq<char>>) -> Seq<Seq<char>>
    decreases segs.len(),
{
    if segs.len() == 0 {
        Seq::empty()
    } else {
        let rest = named(segs.drop_last());
        if segs.last().len() == 0 || segs.last() == "."@ {
            rest
        } else {
            rest.push(segs.last())
        }
    }
}

pub open spec fn path_components(path: Seq<char>) -> Seq<Seq<char>> {
    named(split_on(path, '/'))
}

pub fn components_of(path: &str) -> (r: Vec<String>)
    ensures
        string_views(r@) == path_components(path@),
{
    let segs = split_str(path, '/');
    let ghost sv = string_views(segs@);
    let mut out: Vec<String> = Vec::new();
    let mut i: usize = 0;
    while i < segs.len()
        invariant
            sv == string_views(segs@),
            sv == split_on(path@, '/'),
            i <= segs.len(),
            string_views(out@) == named(sv.take(i as int)),
        decreases segs.len() - i,
    {
        assert(sv.take(i + 1).drop_last() =~= sv.take(i as int));
        assert(sv.take(i + 1).last() == segs@[i as int]@);
        let seg = segs[i].as_str();
        if !(seg.is_empty() || str_eq(seg, ".")) {
            let ghost before = out@;
            let c = segs[i].clone();
            out.push(c);
            assert(string_views(out@) =~= string_views(before).push(c@));
        }
        i = i + 1;
    }
    assert(sv.take(segs.len() as int) =~= sv);
    out
}

/// Why a tool was refused or failed.
pub enum ToolError {
    Denied(String),
    InvalidInput(String),
    Io { context: &'static str, message: String },
    Json(String),
}

pub struct ToolErrorPayload {
    pub error: String,
}

impl ToolError {
    /// The text shown for this error.
    pub open spec fn text(&self) -> Seq<char> {
        match self {
            ToolError::Denied(m) => m@,
            ToolError::InvalidInput(m) => m@,
            ToolError::Io { context, message } => context@ + " failed: "@ + message@,
            ToolError::Json(m) => "invalid tool input: "@ + m@,
        }
    }

    /// The text shown for this error (what `Display` gives).
    pub fn message(&self) -> (r: String)
        ensures
            r@ == self.text(),
    {
        match self {
            ToolError::Denied(m) => m.clone(),
            ToolError::InvalidInput(m) => m.clone(),
            ToolError::Io { context, message } => {
                let mut s = (*context).to_owned();
                s.append(" failed: ");
                s.append(message.as_str());
                s
            },
            ToolError::Json(m) => {
                let mut s = "invalid tool input: ".to_owned();
                s.append(m.as_str());
                s
            },
        }
    }

    pub fn payload(&self) -> (r: ToolErrorPayload)
        ensures
            r.error@ == self.text(),
    {
        ToolErrorPayload { error: self.message() }
    }
}

pub open spec fn has_parent_dir(comps: Seq<Seq<char>>) -> bool {
    exists|i: int| 0 <= i < comps.len() && comps[i] == ".."@
}

/// What an error says, with strings taken as their characters.
pub enum ErrView {
    Denied(Seq<char>),
    InvalidInput(Seq<char>),
    Io(Seq<char>, Seq<char>),
    Json(Seq<char>),
}

impl View for ToolError {
    type V = ErrView;

    open spec fn view(&self) -> ErrView {
        match self {
            ToolError::Denied(m) => ErrView::Denied(m@),
            ToolError::InvalidInput(m) => ErrView::InvalidInput(m@),
            ToolError::Io { context, message } => ErrView::Io(context@, message@),
            ToolError::Json(m) => ErrView::Json(m@),
        }
    }
}

pub open spec fn comps_result(r: Result<Vec<String>, ToolError>) -> Result<Seq<Seq<char>>, ErrView> {
    match r {
        Ok(c) => Ok(string_views(c@)),
        Err(e) => Err(e@),
    }
}

/// The outcome of checking a tool path by its text.
pub open spec fn validated(path: Seq<char>) -> Result<Seq<Seq<char>>, ErrView> {
    if is_blank(path) {
        Err(ErrView::InvalidInput("path must not be empty"@))
    } else if path[0] == '/' {
        Err(ErrView::Denied("absolute paths are not allowed"@))
    } else if has_parent_dir(path_components(path)) {
        Err(ErrView::Denied("parent directory paths are not allowed"@))
    } else {
        Ok(path_components(path))
    }
}

/// A path given to a tool, checked by its text: not blank, not absolute, no
/// `..`; its named components otherwise.
pub fn validate_relative_path(path: &str) -> (r: Result<Vec<String>, ToolError>)
    ensures
        comps_result(r) == validated(path@),
{
    if blank(path) {
        return Err(ToolError::InvalidInput("path must not be empty".to_owned()));
    }
    assert(!is_blank(path@));
    if starts_with(path, "/") {
        proof {
            reveal_strlit("/");
            assert(path@.take(1)[0] == path@[0]);
        }
        assert(path@[0] == '/');
        return Err(ToolError::Denied("absolute paths are not allowed".to_owned()));
    }
    proof {
        reveal_strlit("/");
        assert(path@.len() > 0);
        assert(path@.take(1) =~= seq![path@[0]]);
        if path@[0] == '/' {
            assert(path@.take(1) =~= "/"@);
        }
    }
    assert(path@[0] != '/');
    let comps = components_of(path);
    let ghost cv = string_views(comps@);
    let mut i: usize = 0;
    while i < comps.len()
        invariant
            cv == string_views(comps@),
            cv == path_components(path@),
            i <= comps.len(),
            !is_blank(path@),
            path@.len() > 0,
            path@[0] != '/',
            forall|j: int| 0 <= j < i ==> cv[j] != ".."@,
        decreases comps.len() - i,
    {
        assert(cv[i as int] == comps@[i as int]@);
        if str_eq(comps[i].as_str(), "..") {
            assert(has_parent_dir(path_components(path@)));
            assert(path@[0] != '/');
            return Err(ToolError::Denied("parent directory paths are not allowed".to_owned()));
        }
        i = i + 1;
    }
    Ok(comps)
}

/// Names that tools may never touch.
pub open spec fn is_blocked_name(n: Seq<char>) -> bool {
    n == ".git"@ || n == "target"@ || n == ".agent-tools"@
}

/// Names of files that hold secrets.
pub open spec fn is_secret_name(n: Seq<char>) -> bool {
    ||| n == ".env"@
    ||| (".env."@.len() <= n.len() && n.take(".env."@.len() as int) == ".env."@)
    ||| (".pem"@.len() <= n.len() && n.skip(n.len() - ".pem"@.len()) == ".pem"@)
    ||| (".key"@.len() <= n.len() && n.skip(n.len() - ".key"@.len()) == ".key"@)
}

/// Index of the first component that tools may not access, or the number of
/// components.
pub open spec fn first_denied(comps: Seq<Seq<char>>) -> int
    decreases comps.len(),
{
    if comps.len() == 0 {
        0
    } else {
        let f = first_denied(comps.drop_last());
        if f < comps.len() - 1 {
            f
        } else if is_blocked_name(comps.last()) || is_secret_name(comps.last()) {
            comps.len() - 1
        } else {
            comps.len() as int
        }
    }
}

proof fn lemma_first_denied(c: Seq<Seq<char>>)
    ensures
        0 <= first_denied(c) <= c.len(),
        first_denied(c) < c.len() ==> is_blocked_name(c[first_denied(c)]) || is_secret_name(
            c[first_denied(c)],
        ),
        forall|j: int|
            0 <= j < first_denied(c) ==> !is_blocked_name(#[trigger] c[j]) && !is_secret_name(
                c[j],
            ),
    decreases c.len(),
{
    if c.len() > 0 {
        lemma_first_denied(c.drop_last());
        assert forall|j: int| 0 <= j < c.len() - 1 implies c.drop_last()[j] == c[j] by {}
    }
}

/// Why a path may not be accessed, if it may not.
pub open spec fn denial(c: Seq<Seq<char>>) -> Option<ErrView> {
    let f = first_denied(c);
    if f == c.len() {
        None
    } else if is_blocked_name(c[f]) {
        Some(ErrView::Denied("'"@ + c[f] + "' is not accessible to tools"@))
    } else {
        Some(ErrView::Denied("'"@ + c[f] + "' is sensitive and cannot be accessed"@))
    }
}

/// Refuses paths that reach version control, build output, the tools' own
/// files, or secrets.
pub fn deny_sensitive_path(comps: &Vec<String>) -> (r: Result<(), ToolError>)
    ensures
        match denial(string_views(comps@)) {
            None => r is Ok,
            Some(e) => r matches Err(x) && x@ == e,
        },
{
    let ghost c = string_views(comps@);
    proof {
        lemma_first_denied(c);
    }
    let mut i: usize = 0;
    while i < comps.len()
        invariant
            c == string_views(comps@),
            i <= comps.len(),
            i <= first_denied(c),
            0 <= first_denied(c) <= c.len(),
            first_denied(c) < c.len() ==> is_blocked_name(c[first_denied(c)]) || is_secret_name(
                c[first_denied(c)],
            ),
            forall|j: int|
                0 <= j < first_denied(c) ==> !is_blocked_name(#[trigger] c[j]) && !is_secret_name(
                    c[j],
                ),
        decreases comps.len() - i,
    {
        let name = comps[i].as_str();
        assert(c[i as int] == name@);
        if str_eq(name, ".git") || str_eq(name, "target") || str_eq(name, ".agent-tools") {
            let mut m = "'".to_owned();
            m.append(name);
            m.append("' is not accessible to tools");
            return Err(ToolError::Denied(m));
        }
        if str_eq(name, ".env") || starts_with(name, ".env.") || ends_with(name, ".pem")
            || ends_with(name, ".key") {
            let mut m = "'".to_owned();
            m.append(name);
            m.append("' is sensitive and cannot be accessed");
            return Err(ToolError::Denied(m));
        }
        i = i + 1;
    }
    Ok(())
}

/// Names skipped when listing or searching the workspace.
pub open spec fn is_ignored_name(n: Seq<char>) -> bool {
    n == ".git"@ || n == "target"@ || n == "node_modules"@ || n == ".agent-tools"@
}

pub fn is_ignored_component(comps: &Vec<String>) -> (r: bool)
    ensures
        r == exists|i: int| 0 <= i < comps@.len() && is_ignored_name(#[trigger] comps@[i]@),
        r == exists|i: int|
            0 <= i < comps@.len() && (#[trigger] comps@[i]@ == ".git"@ || comps@[i]@ == "target"@
                || comps@[i]@ == "node_modules"@ || comps@[i]@ == ".agent-tools"@),
{
    let mut i: usize = 0;
    while i < comps.len()
        invariant
            i <= comps.len(),
            forall|j: int| 0 <= j < i ==> !is_ignored_name(#[trigger] comps@[j]@),
        decreases comps.len() - i,
    {
        let name = comps[i].as_str();
        if str_eq(name, ".git") || str_eq(name, "target") || str_eq(name, "node_modules")
            || str_eq(name, ".agent-tools") {
            return true;
        }
        i = i + 1;
    }
    false
}

/// A list of path components is skipped in listings and searches exactly
/// when one of its components is `.git`, `target`, `node_modules` or
/// `.agent-tools`.
pub proof fn law_ignored_components(comps: Seq<Seq<char>>)
    ensures
        (exists|i: int| 0 <= i < comps.len() && is_ignored_name(#[trigger] comps[i])) <==> (exists|i: int|
            0 <= i < comps.len() && (#[trigger] comps[i] == ".git"@ || comps[i] == "target"@
                || comps[i] == "node_modules"@ || comps[i] == ".agent-tools"@)),
        forall|i: int|
            0 <= i < comps.len() && #[trigger] comps[i] == "node_modules"@ ==> is_ignored_name(comps[i]),
        forall|i: int|
            0 <= i < comps.len() && #[trigger] comps[i] == ".git"@ ==> is_ignored_name(comps[i]),
        forall|i: int|
            0 <= i < comps.len() && #[trigger] comps[i] == "target"@ ==> is_ignored_name(comps[i]),
        forall|i: int|
            0 <= i < comps.len() && #[trigger] comps[i] == ".agent-tools"@ ==> is_ignored_name(comps[i]),
{
}

/// Tools may reach a list of components exactly when none of them is
/// `.git`, `target` or `.agent-tools`, or names a secret: `.env`, a name
/// that starts with `.env.`, or one that ends in `.pem` or `.key`. The
/// first component that is one of these is named in the refusal.
pub proof fn law_denied_names(c: Seq<Seq<char>>)
    ensures
        denial(c) is None <==> forall|i: int|
            0 <= i < c.len() ==> !{
                ||| #[trigger] c[i] == ".git"@
                ||| c[i] == "target"@
                ||| c[i] == ".agent-tools"@
                ||| c[i] == ".env"@
                ||| (".env."@.len() <= c[i].len() && c[i].take(".env."@.len() as int) == ".env."@)
                ||| (".pem"@.len() <= c[i].len() && c[i].skip(c[i].len() - ".pem"@.len()) == ".pem"@)
                ||| (".key"@.len() <= c[i].len() && c[i].skip(c[i].len() - ".key"@.len()) == ".key"@)
            },
        denial(c) matches Some(e) ==> exists|i: int|
            0 <= i < c.len() && (e == ErrView::Denied("'"@ + #[trigger] c[i] + "' is not accessible to tools"@)
                || e == ErrView::Denied("'"@ + c[i] + "' is sensitive and cannot be accessed"@)),
{
    lemma_first_denied(c);
    let f = first_denied(c);
    if f < c.len() {
        assert(c[f] == c[f]);
    }
}

/// A path checked by its text and cleared of sensitive names.
pub open spec fn checked(path: Seq<char>) -> Result<Seq<Seq<char>>, ErrView> {
    match validated(path) {
        Ok(c) => match denial(c) {
            Some(e) => Err(e),
            None => Ok(c),
        },
        Err(e) => Err(e),
    }
}

pub fn check_path(path: &str) -> (r: Result<Vec<String>, ToolError>)
    ensures
        comps_result(r) == checked(path@),
{
    let rel = validate_relative_path(path)?;
    deny_sensitive_path(&rel)?;
    Ok(rel)
}

/// A path that passes the checks is relative, names no parent directory,
/// and reaches none of the names that tools may not touch.
pub proof fn law_checked_path_is_safe(path: Seq<char>)
    ensures
        checked(path) matches Ok(c) ==> {
            &&& !(path.len() > 0 && path[0] == '/')
            &&& !has_parent_dir(c)
            &&& forall|i: int|
                0 <= i < c.len() ==> !is_blocked_name(#[trigger] c[i]) && !is_secret_name(c[i])
        },
{
    lemma_first_denied(path_components(path));
}

proof fn lemma_slash_prefix(s: Seq<char>)
    ensures
        ("/"@.len() <= s.len() && s.take("/"@.len() as int) == "/"@) == (s.len() > 0 && s[0] == '/'),
{
    reveal_strlit("/");
    if s.len() > 0 {
        assert(s.take(1) =~= seq![s[0]]);
        if s[0] == '/' {
            assert(s.take(1) =~= "/"@);
        } else {
            assert(s.take(1)[0] != "/"@[0]);
        }
    }
}

/// Whether path `p` lies under `root`, comparing whole components (as
/// `Path::starts_with`).
pub open spec fn is_within(root: Seq<char>, p: Seq<char>) -> bool {
    let rc = path_components(root);
    let pc = path_components(p);
    &&& (root.len() > 0 && root[0] == '/') == (p.len() > 0 && p[0] == '/')
    &&& rc.len() <= pc.len()
    &&& pc.take(rc.len() as int) == rc
}

pub fn within(root: &str, p: &str) -> (r: bool)
    ensures
        r == is_within(root@, p@),
{
    let ra = starts_with(root, "/");
    let pa = starts_with(p, "/");
    proof {
        lemma_slash_prefix(root@);
        lemma_slash_prefix(p@);
    }
    assert(ra == (root@.len() > 0 && root@[0] == '/'));
    assert(pa == (p@.len() > 0 && p@[0] == '/'));
    if ra != pa {
        return false;
    }
    let rc = components_of(root);
    let pc = components_of(p);
    let ghost rv = string_views(rc@);
    let ghost pv = string_views(pc@);
    if rc.len() > pc.len() {
        return false;
    }
    let mut i: usize = 0;
    while i < rc.len()
        invariant
            rv == string_views(rc@),
            pv == string_views(pc@),
            rc.len() <= pc.len(),
            i <= rc.len(),
            rv == path_components(root@),
            pv == path_components(p@),
            ra == pa,
            ra == (root@.len() > 0 && root@[0] == '/'),
            pa == (p@.len() > 0 && p@[0] == '/'),
            forall|j: int| 0 <= j < i ==> rv[j] == pv[j],
        decreases rc.len() - i,
    {
        assert(rv[i as int] == rc@[i as int]@ && pv[i as int] == pc@[i as int]@);
        if !str_eq(rc[i].as_str(), pc[i].as_str()) {
            assert(pv.take(rv.len() as int)[i as int] != rv[i as int]);
            assert(pv.take(rv.len() as int) != rv);
            assert(rv == path_components(root@));
            assert(pv == path_components(p@));
            return false;
        }
        i = i + 1;
    }
    assert(pv.take(rv.len() as int) =~= rv);
    true
}

/// `base` with one more component (as `PathBuf::join` with a relative
/// component): a separator is put in unless `base` already ends in one.
pub open spec fn join_one(base: Seq<char>, part: Seq<char>) -> Seq<char> {
    if base.len() > 0 && base.last() == '/' {
        base + part
    } else {
        base + "/"@ + part
    }
}

pub open spec fn join_all(base: Seq<char>, parts: Seq<Seq<char>>) -> Seq<char>
    decreases parts.len(),
{
    if parts.len() == 0 {
        base
    } else {
        join_one(join_all(base, parts.drop_last()), parts.last())
    }
}

/// Where a checked relative path lies under `root`; the empty relative path
/// stands for `.`.
pub open spec fn full_join(root: Seq<char>, rel: Seq<Seq<char>>) -> Seq<char> {
    if rel.len() == 0 {
        join_one(root, "."@)
    } else {
        join_all(root, rel)
    }
}

/// `base` with one more path segment (as `Path::join` with a relative
/// segment).
pub fn join_segment(base: &str, part: &str) -> (r: String)
    ensures
        r@ == join_one(base@, part@),
{
    let mut out = base.to_owned();
    push_component(&mut out, part);
    out
}

fn push_component(base: &mut String, part: &str)
    ensures
        final(base)@ == join_one(old(base)@, part@),
{
    let chars = to_chars(base.as_str());
    let n = chars.len();
    if n > 0 && chars[n - 1] == '/' {
        base.append(part);
    } else {
        proof { reveal_strlit("/"); }
        base.append("/");
        base.append(part);
    }
}

pub fn join_path(root: &str, rel: &Vec<String>) -> (r: String)
    ensures
        r@ == full_join(root@, string_views(rel@)),
{
    let mut out = root.to_owned();
    if rel.len() == 0 {
        push_component(&mut out, ".");
        return out;
    }
    let ghost rv = string_views(rel@);
    let mut i: usize = 0;
    while i < rel.len()
        invariant
            rv == string_views(rel@),
            rel.len() > 0,
            i <= rel.len(),
            out@ == join_all(root@, rv.take(i as int)),
        decreases rel.len() - i,
    {
        assert(rv.take(i + 1).drop_last() =~= rv.take(i as int));
        assert(rv.take(i + 1).last() == rel@[i as int]@);
        push_component(&mut out, rel[i].as_str());
        i = i + 1;
    }
    assert(rv.take(rel.len() as int) =~= rv);
    out
}

/// A relative path as shown to users: components joined with `/` (any `\`
/// shown as `/` too), or `.` for the workspace itself.
pub open spec fn slash_text(rel: Seq<Seq<char>>) -> Seq<char> {
    if rel.len() == 0 {
        "."@
    } else {
        slash_join(rel).map_values(|c: char| if c == '\\' { '/' } else { c })
    }
}

pub open spec fn slash_join(rel: Seq<Seq<char>>) -> Seq<char>
    decreases rel.len(),
{
    if rel.len() == 0 {
        Seq::empty()
    } else if rel.len() == 1 {
        rel[0]
    } else {
        slash_join(rel.drop_last()) + "/"@ + rel.last()
    }
}

pub fn path_to_slash_string(rel: &Vec<String>) -> (r: String)
    ensures
        r@ == slash_text(string_views(rel@)),
{
    if rel.len() == 0 {
        return ".".to_owned();
    }
    let ghost rv = string_views(rel@);
    let mut joined: Vec<char> = Vec::new();
    let mut i: usize = 0;
    proof { reveal_strlit("/"); }
    while i < rel.len()
        invariant
            rv == string_views(rel@),
            i <= rel.len(),
            joined@ == slash_join(rv.take(i as int)),
        decreases rel.len() - i,
    {
        assert(rv.take(i + 1).drop_last() =~= rv.take(i as int));
        let part = to_chars(rel[i].as_str());
        let ghost before = joined@;
        proof { reveal_strlit("/"); }
        if i > 0 {
            joined.push('/');
            assert(joined@ =~= before + "/"@ + part@.take(0));
        } else {
            assert(joined@ =~= before + part@.take(0));
        }
        let mut k: usize = 0;
        while k < part.len()
            invariant
                k <= part.len(),
                i > 0 ==> joined@ == before + "/"@ + part@.take(k as int),
                i == 0 ==> joined@ == before + part@.take(k as int),
            decreases part.len() - k,
        {
            joined.push(part[k]);
            assert(part@.take(k + 1) =~= part@.take(k as int).push(part@[k as int]));
            k = k + 1;
        }
        assert(part@.take(part.len() as int) =~= part@);
        assert(part@ == rv[i as int]);
        if i == 0 {
            assert(rv.take(1) =~= seq![rv[0]]);
            assert(before =~= Seq::<char>::empty());
        }
        assert(joined@ =~= slash_join(rv.take(i + 1)));
        i = i + 1;
    }
    assert(rv.take(rel.len() as int) =~= rv);
    let mut shown: Vec<char> = Vec::new();
    let mut j: usize = 0;
    while j < joined.len()
        invariant
            j <= joined.len(),
            shown@ == joined@.take(j as int).map_values(|c: char| if c == '\\' { '/' } else { c }),
        decreases joined.len() - j,
    {
        let c = joined[j];
        shown.push(if c == '\\' { '/' } else { c });
        assert(joined@.take(j + 1) =~= joined@.take(j as int).push(c));
        assert(shown@ =~= joined@.take(j + 1).map_values(|c: char| if c == '\\' { '/' } else { c }));
        j = j + 1;
    }
    assert(joined@.take(joined.len() as int) =~= joined@);
    from_chars(&shown)
}

/// The components of a relative path's parent directory.
pub open spec fn parent_of(rel: Seq<Seq<char>>) -> Seq<Seq<char>> {
    if rel.len() == 0 { rel } else { rel.drop_last() }
}

pub fn parent_components(rel: &Vec<String>) -> (r: Vec<String>)
    ensures
        string_views(r@) == parent_of(string_views(rel@)),
{
    let mut out: Vec<String> = Vec::new();
    if rel.len() == 0 {
        assert(string_views(out@) =~= parent_of(string_views(rel@)));
        return out;
    }
    let mut i: usize = 0;
    while i + 1 < rel.len()
        invariant
            rel.len() > 0,
            i + 1 <= rel.len(),
            string_views(out@) == string_views(rel@).take(i as int),
        decreases rel.len() - i,
    {
        let ghost before = out@;
        let c = rel[i].clone();
        out.push(c);
        assert(out@ =~= before.push(c));
        assert(c@ == rel@[i as int]@);
        assert(string_views(out@) =~= string_views(before).push(c@));
        assert(string_views(rel@).take(i + 1) =~= string_views(rel@).take(i as int).push(rel@[i as int]@));
        i = i + 1;
    }
    assert(string_views(out@) =~= parent_of(string_views(rel@)));
    out
}

/// The deepest of `root`, `root/p0`, `root/p0/p1`, ... such that it and every
/// shorter one exist; `exists[i]` says whether the one with `i + 1`
/// components exists.
pub open spec fn nearest_existing(root: Seq<char>, parent: Seq<Seq<char>>, exists: Seq<bool>) -> Seq<char> {
    join_all(root, parent.take(leading_true(exists, parent.len() as int)))
}

/// How many of the first `n` flags are true before the first false one.
pub open spec fn leading_true(flags: Seq<bool>, n: int) -> int
    decreases n,
{
    if n <= 0 {
        0
    } else if leading_true(flags, n - 1) == n - 1 && n - 1 < flags.len() && flags[n - 1] {
        n
    } else {
        leading_true(flags, n - 1)
    }
}

pub fn nearest_existing_parent(root: &str, parent: &Vec<String>, exists: &Vec<bool>) -> (r: String)
    ensures
        r@ == nearest_existing(root@, string_views(parent@), exists@),
{
    let ghost pv = string_views(parent@);
    let mut current = root.to_owned();
    let mut i: usize = 0;
    while i < parent.len()
        invariant
            pv == string_views(parent@),
            i <= parent.len(),
            leading_true(exists@, i as int) == i,
            current@ == join_all(root@, pv.take(i as int)),
        decreases parent.len() - i,
    {
        if i < exists.len() && exists[i] {
            assert(pv.take(i + 1).drop_last() =~= pv.take(i as int));
            assert(pv.take(i + 1).last() == parent@[i as int]@);
            push_component(&mut current, parent[i].as_str());
            i = i + 1;
        } else {
            proof {
                lemma_leading_true_stops(exists@, i as int, parent.len() as int);
            }
            return current;
        }
    }
    current
}

proof fn lemma_leading_true_stops(flags: Seq<bool>, i: int, n: int)
    requires
        0 <= i < n,
        leading_true(flags, i) == i,
        !(i < flags.len() && flags[i]),
    ensures
        leading_true(flags, n) == i,
    decreases n - i,
{
    if n > i + 1 {
        lemma_leading_true_stops(flags, i, n - 1);
        assert(leading_true(flags, n - 1) == i);
    }
}

/// The workspace root that tools are kept inside.
pub struct WorkspaceGuard {
    root: String,
}

/// A relative path that passed the checks, and where it lies.
pub struct GuardedPath {
    rel_path: Vec<String>,
    full_path: String,
}

impl View for GuardedPath {
    type V = (Seq<Seq<char>>, Seq<char>);

    closed spec fn view(&self) -> (Seq<Seq<char>>, Seq<char>) {
        (string_views(self.rel_path@), self.full_path@)
    }
}

pub open spec fn guarded_result(r: Result<GuardedPath, ToolError>) -> Result<(Seq<Seq<char>>, Seq<char>), ErrView> {
    match r {
        Ok(g) => Ok(g@),
        Err(e) => Err(e@),
    }
}

/// What the file system reports of the path a write would go to.
pub struct WriteProbe {
    /// Whether the parent directory exists.
    pub parent_exists: bool,
    /// The canonical form of the parent directory when it exists, else of
    /// its nearest existing ancestor, or why that failed.
    pub parent_canonical: Result<String, String>,
    /// The canonical form of the target when it exists, or why that failed;
    /// `None` when it does not exist.
    pub target_canonical: Option<Result<String, String>>,
}

pub open spec fn str_result(r: Result<String, String>) -> Result<Seq<char>, Seq<char>> {
    match r {
        Ok(s) => Ok(s@),
        Err(e) => Err(e@),
    }
}

impl WorkspaceGuard {
    pub closed spec fn root_chars(&self) -> Seq<char> {
        self.root@
    }

    /// A guard for the workspace whose canonical root is given, or the
    /// error that finding it gave.
    pub fn new(canonical_root: Result<String, String>) -> (r: Result<Self, ToolError>)
        ensures
            canonical_root matches Ok(root) ==> (r matches Ok(g) && g.root_chars() == root@),
            canonical_root matches Err(m) ==> (r matches Err(e) && e@ == ErrView::Io(
                "canonicalize workspace root"@,
                m@,
            )),
    {
        match canonical_root {
            Ok(root) => Ok(WorkspaceGuard { root }),
            Err(message) => Err(ToolError::Io { context: "canonicalize workspace root", message }),
        }
    }

    pub fn root(&self) -> (r: &str)
        ensures
            r@ == self.root_chars(),
    {
        self.root.as_str()
    }

    /// The outcome for an existing path, given what canonicalizing
    /// `root/rel` gave.
    pub open spec fn existing_outcome(
        &self,
        path: Seq<char>,
        canonical: Result<Seq<char>, Seq<char>>,
    ) -> Result<(Seq<Seq<char>>, Seq<char>), ErrView> {
        match checked(path) {
            Err(e) => Err(e),
            Ok(rel) => match canonical {
                Err(m) => Err(ErrView::Io("canonicalize path"@, m)),
                Ok(c) => if is_within(self.root_chars(), c) {
                    Ok((rel, c))
                } else {
                    Err(ErrView::Denied("path escapes workspace root"@))
                },
            },
        }
    }

    /// Checks an existing path; `canonical` is what canonicalizing the
    /// checked path under the root gave.
    pub fn resolve_existing(&self, path: &str, canonical: Result<String, String>) -> (r: Result<GuardedPath, ToolError>)
        ensures
            guarded_result(r) == self.existing_outcome(path@, str_result(canonical)),
    {
        let rel_path = check_path(path)?;
        match canonical {
            Err(message) => Err(ToolError::Io { context: "canonicalize path", message }),
            Ok(full_path) => {
                if !within(self.root.as_str(), full_path.as_str()) {
                    return Err(ToolError::Denied("path escapes workspace root".to_owned()));
                }
                Ok(GuardedPath { rel_path, full_path })
            },
        }
    }

    /// Checks an existing file; `is_file` says whether the canonical path is
    /// a regular file.
    pub fn resolve_existing_file(&self, path: &str, canonical: Result<String, String>, is_file: bool) -> (r: Result<GuardedPath, ToolError>)
        ensures
            guarded_result(r) == (match self.existing_outcome(path@, str_result(canonical)) {
                Ok(g) => if is_file {
                    Ok(g)
                } else {
                    Err(ErrView::Denied("'"@ + path@ + "' is not a file"@))
                },
                Err(e) => Err(e),
            }),
    {
        let candidate = self.resolve_existing(path, canonical)?;
        if !is_file {
            let mut m = "'".to_owned();
            m.append(path);
            m.append("' is not a file");
            return Err(ToolError::Denied(m));
        }
        Ok(candidate)
    }

    /// Checks an existing directory; `is_dir` says whether the canonical
    /// path is a directory.
    pub fn resolve_existing_dir(&self, path: &str, canonical: Result<String, String>, is_dir: bool) -> (r: Result<GuardedPath, ToolError>)
        ensures
            guarded_result(r) == (match self.existing_outcome(path@, str_result(canonical)) {
                Ok(g) => if is_dir {
                    Ok(g)
                } else {
                    Err(ErrView::Denied("'"@ + path@ + "' is not a directory"@))
                },
                Err(e) => Err(e),
            }),
    {
        let candidate = self.resolve_existing(path, canonical)?;
        if !is_dir {
            let mut m = "'".to_owned();
            m.append(path);
            m.append("' is not a directory");
            return Err(ToolError::Denied(m));
        }
        Ok(candidate)
    }

    /// The outcome for a path to write, given what the file system reports.
    pub open spec fn write_outcome(
        &self,
        path: Seq<char>,
        parent_exists: bool,
        parent: Result<Seq<char>, Seq<char>>,
        target: Option<Result<Seq<char>, Seq<char>>>,
    ) -> Result<(Seq<Seq<char>>, Seq<char>), ErrView> {
        match checked(path) {
            Err(e) => Err(e),
            Ok(rel) => match parent {
                Err(m) => Err(ErrView::Io(
                    if parent_exists {
                        "canonicalize parent directory"@
                    } else {
                        "canonicalize nearest parent directory"@
                    },
                    m,
                )),
                Ok(pc) => if !is_within(self.root_chars(), pc) {
                    Err(ErrView::Denied("path escapes workspace root"@))
                } else {
                    match target {
                        Some(Err(m)) => Err(ErrView::Io("canonicalize target path"@, m)),
                        Some(Ok(tc)) => if !is_within(self.root_chars(), tc) {
                            Err(ErrView::Denied("path escapes workspace root"@))
                        } else {
                            Ok((rel, full_join(self.root_chars(), rel)))
                        },
                        None => Ok((rel, full_join(self.root_chars(), rel))),
                    }
                },
            },
        }
    }

    /// Checks a path that a tool will write.
    pub fn resolve_for_write(&self, path: &str, probe: WriteProbe) -> (r: Result<GuardedPath, ToolError>)
        ensures
            guarded_result(r) == self.write_outcome(
                path@,
                probe.parent_exists,
                str_result(probe.parent_canonical),
                match probe.target_canonical {
                    Some(t) => Some(str_result(t)),
                    None => None,
                },
            ),
    {
        let rel_path = check_path(path)?;
        match probe.parent_canonical {
            Err(message) => {
                let context = if probe.parent_exists {
                    "canonicalize parent directory"
                } else {
                    "canonicalize nearest parent directory"
                };
                return Err(ToolError::Io { context, message });
            },
            Ok(pc) => {
                if !within(self.root.as_str(), pc.as_str()) {
                    return Err(ToolError::Denied("path escapes workspace root".to_owned()));
                }
            },
        }
        match probe.target_canonical {
            Some(Err(message)) => {
                return Err(ToolError::Io { context: "canonicalize target path", message });
            },
            Some(Ok(tc)) => {
                if !within(self.root.as_str(), tc.as_str()) {
                    return Err(ToolError::Denied("path escapes workspace root".to_owned()));
                }
            },
            None => {},
        }
        let full_path = join_path(self.root.as_str(), &rel_path);
        Ok(GuardedPath { rel_path, full_path })
    }
}

impl GuardedPath {
    pub fn relative_display(&self) -> (r: String)
        ensures
            r@ == slash_text(self@.0),
    {
        path_to_slash_string(&self.rel_path)
    }

    pub fn full_path(&self) -> (r: &str)
        ensures
            r@ == self@.1,
    {
        self.full_path.as_str()
    }

    pub fn components(&self) -> (r: &Vec<String>)
        ensures
            string_views(r@) == self@.0,
    {
        &self.rel_path
    }
}

} // verus!
