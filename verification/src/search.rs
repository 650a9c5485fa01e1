//! Finding text in a file's lines, and the reports of the listing and
//! search tools.
use vstd::prelude::*;
use vstd::string::*;
use crate::edit::{occurs_at, occurs_at_exec};
use crate::file_tools::{ListFilesOutput, SearchFilesOutput, SearchMatch, MAX_SEARCH_FILE_BYTES};
use crate::guard::{lemma_split_nonempty, split_on, split_str, ToolError};
use crate::order::{is_sorted, sort_strings};
use crate::text::{decimal, from_chars, string_views, to_chars, usize_to_string};

verus! {

/// How many characters of a matching line a match shows.
pub const MATCH_TEXT_CHARS: usize = 240;

/// A line without the `\r` of a `\r\n` ending.
pub open spec fn strip_cr(l: Seq<char>) -> Seq<char> {
    if l.len() > 0 && l.last() == '\r' {
        l.drop_last()
    } else {
        l
    }
}

/// The lines of `s` as `str::lines` yields them: split at `\n`, a `\r`
/// before the `\n` dropped, and no empty line after a final `\n`.
pub open spec fn text_lines(s: Seq<char>) -> Seq<Seq<char>> {
    let segs = split_on(s, '\n');
    let body = segs.drop_last().map_values(|l: Seq<char>| strip_cr(l));
    if segs.last().len() == 0 {
        body
    } else {
        body.push(segs.last())
    }
}

/// `str::lines`, as owned strings.
pub fn lines_of(text: &str) -> (r: Vec<String>)
    ensures
        string_views(r@) == text_lines(text@),
{
    let segs = split_str(text, '\n');
    proof {
        lemma_split_nonempty(text@, '\n');
    }
    let ghost segv = split_on(text@, '\n');
    let n = segs.len();
    let mut out: Vec<String> = Vec::new();
    let mut i: usize = 0;
    assert(segv.drop_last().take(0).map_values(|l: Seq<char>| strip_cr(l)) =~= Seq::<Seq<char>>::empty());
    while i + 1 < n
        invariant
            string_views(segs@) == segv,
            n == segv.len(),
            n >= 1,
            i + 1 <= n,
            string_views(out@) == segv.drop_last().take(i as int).map_values(|l: Seq<char>| strip_cr(l)),
        decreases n - i,
    {
        let mut line = to_chars(segs[i].as_str());
        if line.len() > 0 && line[line.len() - 1] == '\r' {
            line.pop();
        }
        let l = from_chars(&line);
        let ghost before = out@;
        out.push(l);
        assert(string_views(out@) =~= string_views(before).push(strip_cr(segv[i as int])));
        assert(segv.drop_last().take(i + 1).map_values(|l: Seq<char>| strip_cr(l)) =~= segv.drop_last().take(
            i as int,
        ).map_values(|l: Seq<char>| strip_cr(l)).push(strip_cr(segv[i as int])));
        i = i + 1;
    }
    assert(segv.drop_last().take(i as int) =~= segv.drop_last());
    let last = to_chars(segs[n - 1].as_str());
    if last.len() > 0 {
        let l = from_chars(&last);
        let ghost before = out@;
        out.push(l);
        assert(string_views(out@) =~= string_views(before).push(segv.last()));
    }
    out
}

/// `q` occurs somewhere in `s` (as `str::contains`).
pub open spec fn contains_text(s: Seq<char>, q: Seq<char>) -> bool {
    exists|i: int| occurs_at(s, i, q)
}

/// The first `MATCH_TEXT_CHARS` characters of a line.
pub open spec fn clip(l: Seq<char>) -> Seq<char> {
    if l.len() <= MATCH_TEXT_CHARS {
        l
    } else {
        l.take(MATCH_TEXT_CHARS as int)
    }
}

/// The lines that hold `q`, in order: the line's number counted from 1,
/// and its shown text.
pub open spec fn line_hits(lines: Seq<Seq<char>>, q: Seq<char>) -> Seq<(int, Seq<char>)>
    decreases lines.len(),
{
    if lines.len() == 0 {
        Seq::empty()
    } else {
        let before = line_hits(lines.drop_last(), q);
        if contains_text(lines.last(), q) {
            before.push((lines.len() as int, clip(lines.last())))
        } else {
            before
        }
    }
}

pub open spec fn match_view(m: SearchMatch) -> (Seq<char>, int, Seq<char>) {
    (m.path@, m.line as int, m.text@)
}

pub open spec fn match_views(v: Seq<SearchMatch>) -> Seq<(Seq<char>, int, Seq<char>)> {
    v.map_values(|m: SearchMatch| match_view(m))
}

/// The hits of one file as matches of the file at `path`.
pub open spec fn hits_at(path: Seq<char>, h: Seq<(int, Seq<char>)>) -> Seq<(Seq<char>, int, Seq<char>)> {
    h.map_values(|p: (int, Seq<char>)| (path, p.0, p.1))
}

/// The matches after searching the file at `path`, whose text is `content`,
/// when `found` were found before and at most `max` are wanted in all.
pub open spec fn after_search(
    found: Seq<(Seq<char>, int, Seq<char>)>,
    path: Seq<char>,
    content: Seq<char>,
    q: Seq<char>,
    max: nat,
) -> Seq<(Seq<char>, int, Seq<char>)> {
    let h = hits_at(path, line_hits(text_lines(content), q));
    if found.len() >= max {
        found
    } else if h.len() <= max - found.len() {
        found + h
    } else {
        found + h.take(max - found.len())
    }
}

proof fn lemma_hits_prefix(lines: Seq<Seq<char>>, q: Seq<char>, i: int)
    requires
        0 <= i <= lines.len(),
    ensures
        line_hits(lines.take(i), q).len() <= line_hits(lines, q).len(),
        line_hits(lines, q).take(line_hits(lines.take(i), q).len() as int) == line_hits(lines.take(i), q),
    decreases lines.len(),
{
    if i < lines.len() {
        let d = lines.drop_last();
        assert(lines.take(i) =~= d.take(i));
        lemma_hits_prefix(d, q, i);
        let k = line_hits(lines.take(i), q).len() as int;
        assert(line_hits(lines, q).take(k) =~= line_hits(d, q).take(k));
    } else {
        assert(lines.take(i) =~= lines);
        assert(line_hits(lines, q).take(line_hits(lines, q).len() as int) =~= line_hits(lines, q));
    }
}

fn contains_chars(s: &Vec<char>, q: &Vec<char>) -> (r: bool)
    ensures
        r == contains_text(s@, q@),
{
    if q.len() > s.len() {
        return false;
    }
    let last = s.len() - q.len();
    let mut p: usize = 0;
    while p <= last
        invariant
            last == s.len() - q.len(),
            q.len() <= s.len(),
            forall|j: int| 0 <= j < p ==> !occurs_at(s@, j, q@),
        decreases last + 1 - p,
    {
        if occurs_at_exec(s, p, q) {
            return true;
        }
        if p == last {
            return false;
        }
        p = p + 1;
    }
    false
}

fn clip_chars(l: &Vec<char>) -> (r: String)
    ensures
        r@ == clip(l@),
{
    if l.len() <= MATCH_TEXT_CHARS {
        return from_chars(l);
    }
    let mut out: Vec<char> = Vec::new();
    let mut i: usize = 0;
    while i < MATCH_TEXT_CHARS
        invariant
            l.len() > MATCH_TEXT_CHARS,
            i <= MATCH_TEXT_CHARS,
            out@ == l@.take(i as int),
        decreases MATCH_TEXT_CHARS - i,
    {
        out.push(l[i]);
        i = i + 1;
        assert(out@ =~= l@.take(i as int));
    }
    from_chars(&out)
}

/// Whether a file is read for a search: only while matches are still
/// wanted, and only when it is no larger than the search limit.
pub fn should_search_file(found: usize, max_results: usize, size: u64) -> (r: bool)
    ensures
        r == (found < max_results && size <= MAX_SEARCH_FILE_BYTES),
{
    found < max_results && size <= MAX_SEARCH_FILE_BYTES as u64
}

/// Adds to `matches` the lines of `content` that hold `query`, for the file
/// shown as `path`, until `max_results` matches are there in all.
pub fn search_text(path: &str, content: &str, query: &str, max_results: usize, matches: &mut Vec<SearchMatch>)
    ensures
        match_views(final(matches)@) == after_search(
            match_views(old(matches)@),
            path@,
            content@,
            query@,
            max_results as nat,
        ),
{
    let ghost start = match_views(matches@);
    if matches.len() >= max_results {
        return;
    }
    let segs = split_str(content, '\n');
    proof {
        lemma_split_nonempty(content@, '\n');
    }
    let q = to_chars(query);
    let n = segs.len();
    let last_chars = to_chars(segs[n - 1].as_str());
    let line_count = if last_chars.len() == 0 { n - 1 } else { n };
    let ghost lines = text_lines(content@);
    let ghost segv = split_on(content@, '\n');
    assert(lines.len() == line_count);
    let mut i: usize = 0;
    assert(lines.take(0) =~= Seq::<Seq<char>>::empty());
    assert(start + hits_at(path@, Seq::empty()) =~= start);
    while i < line_count && matches.len() < max_results
        invariant
            string_views(segs@) == segv,
            segv == split_on(content@, '\n'),
            lines == text_lines(content@),
            n == segs@.len(),
            n >= 1,
            line_count == lines.len(),
            line_count <= n,
            q@ == query@,
            i <= line_count,
            start.len() < max_results,
            matches@.len() <= max_results,
            match_views(matches@) == start + hits_at(path@, line_hits(lines.take(i as int), q@)),
        decreases line_count - i,
    {
        let seg = to_chars(segs[i].as_str());
        let mut line = seg;
        if i + 1 < n && line.len() > 0 && line[line.len() - 1] == '\r' {
            line.pop();
        }
        assert(line@ == lines[i as int]);
        assert(lines.take(i + 1).drop_last() =~= lines.take(i as int));
        if contains_chars(&line, &q) {
            let text = clip_chars(&line);
            let ghost before = matches@;
            matches.push(SearchMatch { path: path.to_owned(), line: i + 1, text });
            assert(match_views(matches@) =~= match_views(before).push(
                (path@, (i + 1) as int, clip(line@)),
            ));
            assert(hits_at(path@, line_hits(lines.take(i + 1), q@)) =~= hits_at(
                path@,
                line_hits(lines.take(i as int), q@),
            ).push((path@, (i + 1) as int, clip(line@))));
        }
        i = i + 1;
    }
    proof {
        let h = line_hits(lines, q@);
        let hp = line_hits(lines.take(i as int), q@);
        lemma_hits_prefix(lines, q@, i as int);
        assert(hits_at(path@, hp) =~= hits_at(path@, h).take(hp.len() as int));
        if i == line_count {
            assert(lines.take(i as int) =~= lines);
        }
    }
}

/// Refuses a search for empty text.
pub fn check_search_query(query: &str) -> (r: Result<(), ToolError>)
    ensures
        query@.len() == 0 ==> (r matches Err(ToolError::InvalidInput(m)) && m@
            == "query must not be empty"@),
        query@.len() > 0 ==> r is Ok,
{
    if query.is_empty() {
        return Err(ToolError::InvalidInput("query must not be empty".to_owned()));
    }
    Ok(())
}

/// The report of a search that found `matches` with the given cap.
pub fn search_output(query: String, matches: Vec<SearchMatch>, max_results: usize) -> (r: SearchFilesOutput)
    ensures
        r.query@ == query@,
        r.matches@ == matches@,
        r.truncated == (matches@.len() >= max_results),
        r.summary@ == "Found "@ + decimal(matches@.len()) + " matches for '"@ + query@ + "'"@,
{
    let truncated = matches.len() >= max_results;
    let mut summary = "Found ".to_owned();
    summary.append(usize_to_string(matches.len()).as_str());
    summary.append(" matches for '");
    summary.append(query.as_str());
    summary.append("'");
    SearchFilesOutput { query, matches, truncated, summary }
}

/// The report of a listing that collected `files` (in any order) with the
/// given cap: the files sorted, and marked truncated when the cap was met.
pub fn list_output(shown: String, files: Vec<String>, max_results: usize) -> (r: ListFilesOutput)
    ensures
        r.path@ == shown@,
        is_sorted(string_views(r.files@)),
        r.files@.to_multiset() == files@.to_multiset(),
        r.truncated == (files@.len() >= max_results),
        r.summary@ == "Listed "@ + decimal(files@.len()) + " files"@,
{
    broadcast use vstd::seq_lib::group_to_multiset_ensures;

    let truncated = files.len() >= max_results;
    let count = files.len();
    let files = sort_strings(files);
    let mut summary = "Listed ".to_owned();
    summary.append(usize_to_string(count).as_str());
    summary.append(" files");
    ListFilesOutput { path: shown, files, truncated, summary }
}

/// The hits of a search over the lines of a file are exactly the lines that
/// hold the query, in order: each hit names a line by its number counted
/// from 1 and shows that line's first 240 characters, the line holds the
/// query somewhere, the numbers rise strictly, and no line that holds the
/// query is left out.
pub proof fn law_search_hits_are_the_matching_lines(lines: Seq<Seq<char>>, q: Seq<char>)
    ensures
        ({
            let h = line_hits(lines, q);
            &&& forall|k: int|
                0 <= k < h.len() ==> {
                    &&& 1 <= (#[trigger] h[k]).0 <= lines.len()
                    &&& exists|p: int| #[trigger] occurs_at(lines[h[k].0 - 1], p, q)
                    &&& h[k].1 == (if lines[h[k].0 - 1].len() <= 240 {
                        lines[h[k].0 - 1]
                    } else {
                        lines[h[k].0 - 1].take(240)
                    })
                }
            &&& forall|a: int, b: int| 0 <= a < b < h.len() ==> (#[trigger] h[a]).0 < (#[trigger] h[b]).0
            &&& forall|i: int|
                0 <= i < lines.len() && (exists|p: int| occurs_at(#[trigger] lines[i], p, q)) ==> exists|k: int|
                    0 <= k < h.len() && (#[trigger] h[k]).0 == i + 1
        }),
    decreases lines.len(),
{
    if lines.len() > 0 {
        let d = lines.drop_last();
        law_search_hits_are_the_matching_lines(d, q);
        let hd = line_hits(d, q);
        let h = line_hits(lines, q);
        assert forall|k: int| 0 <= k < hd.len() implies (#[trigger] hd[k]).0 <= d.len() by {}
        assert forall|k: int| 0 <= k < h.len() implies {
            &&& 1 <= (#[trigger] h[k]).0 <= lines.len()
            &&& exists|p: int| #[trigger] occurs_at(lines[h[k].0 - 1], p, q)
            &&& h[k].1 == (if lines[h[k].0 - 1].len() <= 240 {
                lines[h[k].0 - 1]
            } else {
                lines[h[k].0 - 1].take(240)
            })
        } by {
            if k < hd.len() {
                assert(h[k] == hd[k]);
                assert(lines[h[k].0 - 1] == d[h[k].0 - 1]);
            }
        }
        assert forall|a: int, b: int| 0 <= a < b < h.len() implies (#[trigger] h[a]).0 < (#[trigger] h[b]).0 by {
            assert(h[a] == hd[a]);
            if b < hd.len() {
                assert(h[b] == hd[b]);
            }
        }
        assert forall|i: int|
            0 <= i < lines.len() && (exists|p: int| occurs_at(#[trigger] lines[i], p, q)) implies exists|k: int|
                0 <= k < h.len() && (#[trigger] h[k]).0 == i + 1 by {
            if i < d.len() {
                assert(lines[i] == d[i]);
                let k = choose|k: int| 0 <= k < hd.len() && (#[trigger] hd[k]).0 == i + 1;
                assert(h[k] == hd[k]);
            } else {
                assert(h[hd.len() as int].0 == i + 1);
            }
        }
    }
}

} // verus!
