use vstd::prelude::*;
use crate::text::{from_chars, string_views, to_chars};

verus! {

/// The characters after the last newline of `s` (the line the text ends in).
pub open spec fn current_line(s: Seq<char>) -> Seq<char>
    decreases s.len(),
{
    if s.len() == 0 {
        Seq::empty()
    } else if s.last() == '\n' {
        Seq::empty()
    } else {
        current_line(s.drop_last()).push(s.last())
    }
}

/// Screen rows that a line of `n` characters takes at width `w`; an empty
/// line still takes one row.
pub open spec fn rows_for(n: nat, w: nat) -> nat {
    if n == 0 {
        1
    } else {
        ((n - 1) / (w as int) + 1) as nat
    }
}

/// Screen rows taken by all the lines of `s` that a newline has closed.
pub open spec fn closed_rows(s: Seq<char>, w: nat) -> nat
    decreases s.len(),
{
    if s.len() == 0 {
        0
    } else if s.last() == '\n' {
        closed_rows(s.drop_last(), w) + rows_for(current_line(s.drop_last()).len(), w)
    } else {
        closed_rows(s.drop_last(), w)
    }
}

/// A line cut into chunks of `w` characters; the last chunk may be shorter,
/// and an empty line gives one empty chunk.
pub open spec fn wrap_line(l: Seq<char>, w: nat) -> Seq<Seq<char>>
    decreases l.len(),
{
    if w == 0 || l.len() <= w {
        seq![l]
    } else {
        seq![l.take(w as int)] + wrap_line(l.skip(w as int), w)
    }
}

/// The visual rows of every line of `s` that a newline has closed.
pub open spec fn closed_wrapped(s: Seq<char>, w: nat) -> Seq<Seq<char>>
    decreases s.len(),
{
    if s.len() == 0 {
        Seq::empty()
    } else if s.last() == '\n' {
        closed_wrapped(s.drop_last(), w) + wrap_line(current_line(s.drop_last()), w)
    } else {
        closed_wrapped(s.drop_last(), w)
    }
}

/// All visual rows of `s` hard-wrapped at `w` characters.
pub open spec fn wrap_text(s: Seq<char>, w: nat) -> Seq<Seq<char>> {
    closed_wrapped(s, w) + wrap_line(current_line(s), w)
}


proof fn lemma_rows_bound(n: nat, w: nat)
    requires
        w >= 1,
    ensures
        rows_for(n, w) <= n + 1,
        n > 0 ==> rows_for(n, w) <= n,
{
    if n > 0 {
        assert((n - 1) / (w as int) <= n - 1) by (nonlinear_arith)
            requires
                n >= 1,
                w >= 1,
        ;
    }
}

proof fn lemma_current_line_len(s: Seq<char>, w: nat)
    requires
        w >= 1,
    ensures
        closed_rows(s, w) + current_line(s).len() <= s.len(),
    decreases s.len(),
{
    if s.len() > 0 {
        lemma_current_line_len(s.drop_last(), w);
        lemma_rows_bound(current_line(s.drop_last()).len(), w);
    }
}

proof fn lemma_div_le(n: nat, w: nat)
    requires
        w >= 1,
    ensures
        n / w <= n,
{
    assert(n / w <= n) by (nonlinear_arith)
        requires
            w >= 1,
    ;
}

/// The caret's column and row at the end of `t` in a text area `width`
/// characters wide (as `caret_xy` computes them).
pub open spec fn caret_at(t: Seq<char>, width: u16) -> (u16, u16) {
    if width == 0 {
        (0u16, 0u16)
    } else {
        (
            (current_line(t).len() % (width as nat)) as u16,
            (closed_rows(t, width as nat) + current_line(t).len() / (width as nat)) as u16,
        )
    }
}

/// Caret coordinates at the end of `text` in a text area of the given width
/// that hard-wraps every `width` characters: the column within the last
/// visual row and the row index. A width of zero gives the origin.
pub fn caret_xy(text: &str, width: u16) -> (r: (u16, u16))
    ensures
        r == caret_at(text@, width),
        width == 0 ==> r == (0u16, 0u16),
        width > 0 ==> r == (
            (current_line(text@).len() % (width as nat)) as u16,
            (closed_rows(text@, width as nat) + current_line(text@).len() / (width as nat)) as u16,
        ),
{
    if width == 0 {
        return (0, 0);
    }
    let w: usize = width as usize;
    let chars = to_chars(text);
    let ghost s = chars@;
    let mut y: usize = 0;
    let mut col: usize = 0;
    let mut i: usize = 0;
    while i < chars.len()
        invariant
            w >= 1,
            w == width as usize,
            chars@ == s,
            i <= s.len(),
            y == closed_rows(s.take(i as int), w as nat),
            col == current_line(s.take(i as int)).len(),
            y + col <= i,
        decreases chars.len() - i,
    {
        let ghost p = s.take(i as int);
        assert(s.take(i + 1).drop_last() =~= p);
        if chars[i] == '\n' {
            proof {
                lemma_rows_bound(col as nat, w as nat);
            }
            let rows: usize = if col == 0 { 1 } else { (col - 1) / w + 1 };
            y = y + rows;
            col = 0;
        } else {
            col = col + 1;
        }
        i = i + 1;
    }
    assert(s.take(chars.len() as int) =~= s);
    proof {
        lemma_div_le(col as nat, w as nat);
    }
    let x: u16 = (col % w) as u16;
    let total: usize = y + col / w;
    (x, total as u16)
}

proof fn lemma_wrap_line_shape(l: Seq<char>, w: nat)
    requires
        w >= 1,
    ensures
        wrap_line(l, w).len() >= 1,
        wrap_line(l, w).last().len() <= w,
        l.len() == 0 ==> wrap_line(l, w) == seq![Seq::<char>::empty()],
    decreases l.len(),
{
    if l.len() > w {
        lemma_wrap_line_shape(l.skip(w as int), w);
        let tail = wrap_line(l.skip(w as int), w);
        assert(wrap_line(l, w) =~= seq![l.take(w as int)] + tail);
        assert(wrap_line(l, w).last() == tail.last());
    } else {
        assert(wrap_line(l, w) =~= seq![l]);
        if l.len() == 0 {
            assert(l =~= Seq::<char>::empty());
        }
    }
}

/// Appending one character to a line either starts a new row (when the last
/// row is full) or extends the last row.
proof fn lemma_wrap_line_push(l: Seq<char>, c: char, w: nat)
    requires
        w >= 1,
    ensures
        ({
            let rows = wrap_line(l, w);
            if rows.last().len() == w {
                wrap_line(l.push(c), w) == rows.push(seq![c])
            } else {
                wrap_line(l.push(c), w) == rows.drop_last().push(rows.last().push(c))
            }
        }),
    decreases l.len(),
{
    let rows = wrap_line(l, w);
    let lc = l.push(c);
    if l.len() < w {
        assert(rows =~= seq![l]);
        assert(wrap_line(lc, w) =~= seq![lc]);
        assert(rows.drop_last().push(rows.last().push(c)) =~= seq![lc]);
    } else if l.len() == w {
        assert(rows =~= seq![l]);
        assert(lc.take(w as int) =~= l);
        assert(lc.skip(w as int) =~= seq![c]);
        assert(wrap_line(seq![c], w) =~= seq![seq![c]]);
        assert(wrap_line(lc, w) =~= seq![l] + seq![seq![c]]);
        assert(rows.push(seq![c]) =~= seq![l] + seq![seq![c]]);
    } else {
        let rest = l.skip(w as int);
        lemma_wrap_line_push(rest, c, w);
        lemma_wrap_line_shape(rest, w);
        assert(lc.take(w as int) =~= l.take(w as int));
        assert(lc.skip(w as int) =~= rest.push(c));
        let tail = wrap_line(rest, w);
        assert(rows =~= seq![l.take(w as int)] + tail);
        assert(wrap_line(lc, w) =~= seq![l.take(w as int)] + wrap_line(rest.push(c), w));
        assert(rows.last() == tail.last());
        if tail.last().len() == w {
            assert(seq![l.take(w as int)] + tail.push(seq![c]) =~= rows.push(seq![c]));
        } else {
            assert(seq![l.take(w as int)] + tail.drop_last().push(tail.last().push(c))
                =~= rows.drop_last().push(rows.last().push(c)));
        }
    }
}

/// Hard-wraps `text` at `width` characters, one string per visual row: every
/// newline-separated line is cut into chunks of `width` characters, and an
/// empty line gives one empty row. A width of zero gives the text unchanged.
pub fn wrap_chars(text: &str, width: u16) -> (r: Vec<String>)
    ensures
        width == 0 ==> string_views(r@) == seq![text@],
        width > 0 ==> string_views(r@) == wrap_text(text@, width as nat),
{
    if width == 0 {
        let whole = text.to_owned();
        let mut out: Vec<String> = Vec::new();
        out.push(whole);
        assert(string_views(out@) =~= seq![text@]);
        return out;
    }
    let w: usize = width as usize;
    let chars = to_chars(text);
    let ghost s = chars@;
    let mut out: Vec<String> = Vec::new();
    let mut buf: Vec<char> = Vec::new();
    let mut i: usize = 0;
    proof {
        lemma_wrap_line_shape(Seq::<char>::empty(), w as nat);
        assert(s.take(0) =~= Seq::<char>::empty());
    }
    while i < chars.len()
        invariant
            w >= 1,
            w == width as usize,
            chars@ == s,
            i <= s.len(),
            string_views(out@) == closed_wrapped(s.take(i as int), w as nat)
                + wrap_line(current_line(s.take(i as int)), w as nat).drop_last(),
            buf@ == wrap_line(current_line(s.take(i as int)), w as nat).last(),
        decreases chars.len() - i,
    {
        let ghost p = s.take(i as int);
        let ghost cur = current_line(p);
        let ghost rows = wrap_line(cur, w as nat);
        let c = chars[i];
        assert(s.take(i + 1) =~= p.push(c));
        assert(p.push(c).drop_last() =~= p);
        proof {
            lemma_wrap_line_shape(cur, w as nat);
        }
        if c == '\n' {
            let line = from_chars(&buf);
            let ghost before = out@;
            out.push(line);
            buf = Vec::new();
            proof {
                lemma_wrap_line_shape(Seq::<char>::empty(), w as nat);
                assert(rows.drop_last().push(rows.last()) =~= rows);
                assert(string_views(out@) =~= string_views(before).push(line@)) by {
                    assert(out@ =~= before.push(line));
                }
                assert(string_views(out@) =~= closed_wrapped(p.push(c), w as nat)
                    + wrap_line(current_line(p.push(c)), w as nat).drop_last());
            }
        } else {
            proof {
                lemma_wrap_line_push(cur, c, w as nat);
            }
            if buf.len() == w {
                let line = from_chars(&buf);
                let ghost before = out@;
                out.push(line);
                buf = Vec::new();
                proof {
                    assert(string_views(out@) =~= string_views(before).push(line@)) by {
                        assert(out@ =~= before.push(line));
                    }
                    assert(rows.push(seq![c]).drop_last() =~= rows);
                    assert(rows.drop_last().push(rows.last()) =~= rows);
                }
            }
            buf.push(c);
            proof {
                let nrows = wrap_line(current_line(p.push(c)), w as nat);
                assert(current_line(p.push(c)) =~= cur.push(c));
                assert(buf@ == nrows.last());
                assert(string_views(out@) =~= closed_wrapped(p.push(c), w as nat)
                    + nrows.drop_last());
            }
        }
        i = i + 1;
    }
    let last = from_chars(&buf);
    let ghost before = out@;
    out.push(last);
    proof {
        assert(s.take(chars.len() as int) =~= s);
        let rows = wrap_line(current_line(s), w as nat);
        lemma_wrap_line_shape(current_line(s), w as nat);
        assert(rows.drop_last().push(rows.last()) =~= rows);
        assert(string_views(out@) =~= string_views(before).push(last@)) by {
            assert(out@ =~= before.push(last));
        }
        assert(string_views(out@) =~= wrap_text(s, w as nat));
    }
    out
}

proof fn lemma_div_step(n: int, w: int)
    requires
        w >= 1,
        n > w,
    ensures
        (n - 1) / w == (n - w - 1) / w + 1,
        n % w == (n - w) % w,
{
    vstd::arithmetic::div_mod::lemma_div_plus_one(n - w - 1, w);
    vstd::arithmetic::div_mod::lemma_mod_sub_multiples_vanish(n, w);
}

proof fn lemma_wrap_line_count(l: Seq<char>, w: nat)
    requires
        w >= 1,
    ensures
        wrap_line(l, w).len() == rows_for(l.len(), w),
        wrap_line(l, w).last().len() == (if l.len() > 0 && l.len() % w == 0 {
            w as int
        } else {
            (l.len() % w) as int
        }),
    decreases l.len(),
{
    let n = l.len() as int;
    if l.len() > w {
        let rest = l.skip(w as int);
        lemma_wrap_line_count(rest, w);
        lemma_wrap_line_shape(rest, w);
        let tail = wrap_line(rest, w);
        assert(wrap_line(l, w) =~= seq![l.take(w as int)] + tail);
        assert(wrap_line(l, w).last() == tail.last());
        lemma_div_step(n, w as int);
    } else {
        assert(wrap_line(l, w) =~= seq![l]);
        if 0 < n < w {
            vstd::arithmetic::div_mod::lemma_small_mod(n as nat, w);
            vstd::arithmetic::div_mod::lemma_basic_div(n - 1, w as int);
        } else if n == w {
            vstd::arithmetic::div_mod::lemma_mod_self_0(w as int);
            vstd::arithmetic::div_mod::lemma_basic_div(n - 1, w as int);
        } else {
            vstd::arithmetic::div_mod::lemma_small_mod(0, w);
        }
    }
}

proof fn lemma_closed_wrapped_len(s: Seq<char>, w: nat)
    requires
        w >= 1,
    ensures
        closed_wrapped(s, w).len() == closed_rows(s, w),
    decreases s.len(),
{
    if s.len() > 0 {
        lemma_closed_wrapped_len(s.drop_last(), w);
        lemma_wrap_line_count(current_line(s.drop_last()), w);
    }
}

/// The caret that `caret_xy` reports for a text is where `wrap_chars` puts
/// the end of that text: in the column just past the last row, or, when
/// that row is exactly full, at the start of the row after it.
pub proof fn law_caret_matches_wrap(s: Seq<char>, w: nat)
    requires
        w >= 1,
    ensures
        ({
            let rows = wrap_text(s, w);
            let n = current_line(s).len();
            let x = n % w;
            let y = closed_rows(s, w) + n / w;
            if n > 0 && n % w == 0 {
                x == 0 && y == rows.len()
            } else {
                x == rows.last().len() && y == rows.len() - 1
            }
        }),
{
    let l = current_line(s);
    let n = l.len() as int;
    lemma_closed_wrapped_len(s, w);
    lemma_wrap_line_count(l, w);
    lemma_wrap_line_shape(l, w);
    let rows = wrap_text(s, w);
    assert(rows.last() == wrap_line(l, w).last());
    if n > 0 {
        vstd::arithmetic::div_mod::lemma_fundamental_div_mod(n, w as int);
        vstd::arithmetic::div_mod::lemma_fundamental_div_mod(n - 1, w as int);
        if n % (w as int) == 0 {
            assert((n - 1) / (w as int) + 1 == n / (w as int)) by (nonlinear_arith)
                requires
                    w >= 1,
                    n >= 1,
                    n == (w as int) * (n / (w as int)) + n % (w as int),
                    n - 1 == (w as int) * ((n - 1) / (w as int)) + (n - 1) % (w as int),
                    0 <= (n - 1) % (w as int) < w,
                    n % (w as int) == 0,
            ;
        } else {
            assert((n - 1) / (w as int) == n / (w as int)) by (nonlinear_arith)
                requires
                    w >= 1,
                    n >= 1,
                    n == (w as int) * (n / (w as int)) + n % (w as int),
                    n - 1 == (w as int) * ((n - 1) / (w as int)) + (n - 1) % (w as int),
                    0 <= (n - 1) % (w as int) < w,
                    0 < n % (w as int) < w,
            ;
        }
    } else {
        vstd::arithmetic::div_mod::lemma_small_mod(0, w);
        vstd::arithmetic::div_mod::lemma_basic_div(0, w as int);
    }
}

} // verus!
