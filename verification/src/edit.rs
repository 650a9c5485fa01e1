//! Finding and replacing exact text, scanning left to right without overlap.
use vstd::prelude::*;
use crate::text::{from_chars, to_chars};

verus! {

/// Whether `pat` occurs in `s` starting at position `i`.
pub open spec fn occurs_at(s: Seq<char>, i: int, pat: Seq<char>) -> bool {
    0 <= i && i + pat.len() <= s.len() && s.subrange(i, i + pat.len()) == pat
}

/// How many times `pat` occurs in `s` from position `i` on, taking each
/// occurrence whole and going on after it (as `str::matches(..).count()`).
pub open spec fn count_from(s: Seq<char>, pat: Seq<char>, i: int) -> nat
    decreases s.len() - i,
{
    if pat.len() == 0 || i < 0 || i + pat.len() > s.len() {
        0
    } else if occurs_at(s, i, pat) {
        1 + count_from(s, pat, i + pat.len())
    } else {
        count_from(s, pat, i + 1)
    }
}

/// `s` from position `i` on with every such occurrence of `pat` replaced by
/// `new` (as `str::replace`).
pub open spec fn replace_from(s: Seq<char>, pat: Seq<char>, new: Seq<char>, i: int) -> Seq<char>
    decreases s.len() - i,
{
    if pat.len() == 0 || i < 0 || i >= s.len() {
        s.skip(i)
    } else if occurs_at(s, i, pat) {
        new + replace_from(s, pat, new, i + pat.len())
    } else {
        seq![s[i]] + replace_from(s, pat, new, i + 1)
    }
}

/// Position of the first occurrence of `pat` at or after `i`, or the length
/// of `s` when there is none.
pub open spec fn first_from(s: Seq<char>, pat: Seq<char>, i: int) -> int
    decreases s.len() - i,
{
    if i < 0 || i + pat.len() > s.len() {
        s.len() as int
    } else if pat.len() == 0 || occurs_at(s, i, pat) {
        i
    } else {
        first_from(s, pat, i + 1)
    }
}

/// `s` with only the first occurrence of `pat` replaced (as `str::replacen`
/// with a count of one).
pub open spec fn replace_first(s: Seq<char>, pat: Seq<char>, new: Seq<char>) -> Seq<char> {
    let f = first_from(s, pat, 0);
    if f + pat.len() <= s.len() {
        s.take(f) + new + s.skip(f + pat.len())
    } else {
        s
    }
}

pub(crate) fn occurs_at_exec(s: &Vec<char>, i: usize, pat: &Vec<char>) -> (r: bool)
    requires
        i + pat.len() <= s.len(),
    ensures
        r == occurs_at(s@, i as int, pat@),
{
    let mut k: usize = 0;
    while k < pat.len()
        invariant
            i + pat.len() <= s.len(),
            k <= pat.len(),
            forall|j: int| 0 <= j < k ==> s@[i + j] == pat@[j],
        decreases pat.len() - k,
    {
        if s[i + k] != pat[k] {
            assert(s@.subrange(i as int, i + pat.len())[k as int] != pat@[k as int]);
            return false;
        }
        k = k + 1;
    }
    assert(s@.subrange(i as int, i + pat.len()) =~= pat@);
    true
}

fn extend(out: &mut Vec<char>, more: &Vec<char>)
    ensures
        final(out)@ == old(out)@ + more@,
{
    let mut k: usize = 0;
    while k < more.len()
        invariant
            k <= more.len(),
            out@ == old(out)@ + more@.take(k as int),
        decreases more.len() - k,
    {
        out.push(more[k]);
        assert(more@.take(k + 1) =~= more@.take(k as int).push(more@[k as int]));
        assert(out@ =~= old(out)@ + more@.take(k + 1));
        k = k + 1;
    }
    assert(more@.take(more.len() as int) =~= more@);
}

/// Replaces every occurrence of a non-empty `pat`, and counts them.
pub fn replace_all_counted(text: &str, pat: &str, new: &str) -> (r: (String, usize))
    requires
        pat@.len() > 0,
    ensures
        r.0@ == replace_from(text@, pat@, new@, 0),
        r.1 == count_from(text@, pat@, 0),
{
    let s = to_chars(text);
    let p = to_chars(pat);
    let n_chars = to_chars(new);
    let mut out: Vec<char> = Vec::new();
    let mut count: usize = 0;
    let mut i: usize = 0;
    while i < s.len()
        invariant
            s@ == text@,
            p@ == pat@,
            n_chars@ == new@,
            p@.len() > 0,
            i <= s.len(),
            count <= i,
            replace_from(s@, p@, n_chars@, 0) == out@ + replace_from(s@, p@, n_chars@, i as int),
            count_from(s@, p@, 0) == count + count_from(s@, p@, i as int),
        decreases s.len() - i,
    {
        if p.len() <= s.len() - i && occurs_at_exec(&s, i, &p) {
            let ghost before = out@;
            extend(&mut out, &n_chars);
            assert(before + replace_from(s@, p@, n_chars@, i as int) =~= out@ + replace_from(
                s@,
                p@,
                n_chars@,
                i + p@.len(),
            ));
            count = count + 1;
            i = i + p.len();
        } else {
            let ghost before = out@;
            out.push(s[i]);
            assert(before + replace_from(s@, p@, n_chars@, i as int) =~= out@ + replace_from(
                s@,
                p@,
                n_chars@,
                i + 1,
            ));
            i = i + 1;
        }
    }
    assert(replace_from(s@, p@, n_chars@, i as int) =~= Seq::<char>::empty());
    assert(out@ =~= replace_from(s@, p@, n_chars@, 0));
    (from_chars(&out), count)
}

/// Replaces the first occurrence of a non-empty `pat`, if there is one.
pub fn replace_first_occurrence(text: &str, pat: &str, new: &str) -> (r: String)
    requires
        pat@.len() > 0,
    ensures
        r@ == replace_first(text@, pat@, new@),
{
    let s = to_chars(text);
    let p = to_chars(pat);
    let n_chars = to_chars(new);
    let mut i: usize = 0;
    while i < s.len() && p.len() <= s.len() - i
        invariant
            s@ == text@,
            p@ == pat@,
            n_chars@ == new@,
            p@.len() > 0,
            i <= s.len(),
            first_from(s@, p@, 0) == first_from(s@, p@, i as int),
        decreases s.len() - i,
    {
        if occurs_at_exec(&s, i, &p) {
            let mut out: Vec<char> = Vec::new();
            let mut k: usize = 0;
            while k < i
                invariant
                    s@ == text@,
                    p@ == pat@,
                    n_chars@ == new@,
                    k <= i,
                    i <= s.len(),
                    out@ == s@.take(k as int),
                decreases i - k,
            {
                out.push(s[k]);
                assert(s@.take(k + 1) =~= s@.take(k as int).push(s@[k as int]));
                k = k + 1;
            }
            extend(&mut out, &n_chars);
            let mut j: usize = i + p.len();
            let ghost mid = out@;
            while j < s.len()
                invariant
                    s@ == text@,
                    p@ == pat@,
                    n_chars@ == new@,
                    i + p.len() <= j <= s.len(),
                    out@ == mid + s@.subrange(i + p.len(), j as int),
                decreases s.len() - j,
            {
                out.push(s[j]);
                assert(s@.subrange(i + p.len(), j + 1) =~= s@.subrange(i + p.len(), j as int).push(s@[j as int]));
                j = j + 1;
            }
            assert(s@.subrange(i + p.len(), s.len() as int) =~= s@.skip(i + p@.len()));
            assert(first_from(s@, p@, i as int) == i);
            assert(out@ =~= s@.take(i as int) + n_chars@ + s@.skip(i + p@.len()));
            return from_chars(&out);
        }
        i = i + 1;
    }
    assert(first_from(s@, p@, i as int) == s@.len());
    let r = from_chars(&s);
    r
}

proof fn lemma_no_match_identity(s: Seq<char>, pat: Seq<char>, new: Seq<char>, i: int)
    requires
        pat.len() > 0,
        0 <= i <= s.len(),
        count_from(s, pat, i) == 0,
    ensures
        replace_from(s, pat, new, i) == s.skip(i),
    decreases s.len() - i,
{
    if i < s.len() {
        if i + pat.len() > s.len() {
            lemma_tail_identity(s, pat, new, i);
        } else {
            lemma_no_match_identity(s, pat, new, i + 1);
            assert(seq![s[i]] + s.skip(i + 1) =~= s.skip(i));
        }
    }
}

proof fn lemma_tail_identity(s: Seq<char>, pat: Seq<char>, new: Seq<char>, i: int)
    requires
        pat.len() > 0,
        0 <= i <= s.len(),
        i + pat.len() > s.len(),
    ensures
        replace_from(s, pat, new, i) == s.skip(i),
    decreases s.len() - i,
{
    if i < s.len() {
        lemma_tail_identity(s, pat, new, i + 1);
        assert(seq![s[i]] + s.skip(i + 1) =~= s.skip(i));
    }
}

proof fn lemma_skip_to_first(s: Seq<char>, pat: Seq<char>, new: Seq<char>, i: int)
    requires
        pat.len() > 0,
        0 <= i <= s.len(),
        first_from(s, pat, i) + pat.len() <= s.len(),
    ensures
        i <= first_from(s, pat, i),
        occurs_at(s, first_from(s, pat, i), pat),
        replace_from(s, pat, new, i) == s.subrange(i, first_from(s, pat, i)) + replace_from(
            s,
            pat,
            new,
            first_from(s, pat, i),
        ),
        count_from(s, pat, i) == count_from(s, pat, first_from(s, pat, i)),
    decreases s.len() - i,
{
    if !occurs_at(s, i, pat) {
        lemma_skip_to_first(s, pat, new, i + 1);
        let f = first_from(s, pat, i);
        assert(seq![s[i]] + s.subrange(i + 1, f) =~= s.subrange(i, f));
    } else {
        assert(s.subrange(i, i) =~= Seq::<char>::empty());
    }
}

/// With exactly one occurrence, replacing the first one and replacing all
/// of them give the same text, so the two edit modes agree.
pub proof fn law_single_match_modes_agree(s: Seq<char>, pat: Seq<char>, new: Seq<char>)
    requires
        pat.len() > 0,
        count_from(s, pat, 0) == 1,
    ensures
        replace_first(s, pat, new) == replace_from(s, pat, new, 0),
{
    let f = first_from(s, pat, 0);
    if f + pat.len() <= s.len() {
        lemma_skip_to_first(s, pat, new, 0);
        assert(count_from(s, pat, f) == 1 + count_from(s, pat, f + pat.len()));
        lemma_no_match_identity(s, pat, new, f + pat.len());
        assert(s.subrange(0, f) =~= s.take(f));
        assert(replace_first(s, pat, new) =~= replace_from(s, pat, new, 0));
    } else {
        lemma_first_none_count(s, pat, 0);
    }
}

proof fn lemma_first_none_count(s: Seq<char>, pat: Seq<char>, i: int)
    requires
        pat.len() > 0,
        0 <= i,
        first_from(s, pat, i) + pat.len() > s.len(),
    ensures
        count_from(s, pat, i) == 0,
    decreases s.len() - i,
{
    if i + pat.len() <= s.len() {
        assert(!occurs_at(s, i, pat));
        lemma_first_none_count(s, pat, i + 1);
    }
}

proof fn lemma_count_zero(s: Seq<char>, pat: Seq<char>, i: int)
    requires
        pat.len() > 0,
        0 <= i,
    ensures
        count_from(s, pat, i) == 0 <==> forall|j: int| i <= j ==> !#[trigger] occurs_at(s, j, pat),
    decreases s.len() - i,
{
    if i + pat.len() <= s.len() {
        if !occurs_at(s, i, pat) {
            lemma_count_zero(s, pat, i + 1);
        }
    } else {
        assert forall|j: int| i <= j implies !#[trigger] occurs_at(s, j, pat) by {}
    }
}

/// The old text is counted as absent exactly when it occurs nowhere in the
/// file; and when it occurs exactly once, a single edit puts the new text
/// in place of that occurrence and leaves the text around it as it was.
pub proof fn law_edit_replaces_the_occurrence(s: Seq<char>, pat: Seq<char>, new: Seq<char>)
    requires
        pat.len() > 0,
    ensures
        count_from(s, pat, 0) == 0 <==> forall|j: int| !#[trigger] occurs_at(s, j, pat),
        count_from(s, pat, 0) == 1 ==> exists|f: int|
            #![trigger occurs_at(s, f, pat)]
            0 <= f && f + pat.len() <= s.len() && occurs_at(s, f, pat) && s.subrange(f, f + pat.len()) == pat
                && replace_first(s, pat, new) == s.take(f) + new + s.skip(f + pat.len())
                && s == s.take(f) + pat + s.skip(f + pat.len()),
{
    lemma_count_zero(s, pat, 0);
    assert((forall|j: int| 0 <= j ==> !#[trigger] occurs_at(s, j, pat)) <==> (forall|j: int|
        !#[trigger] occurs_at(s, j, pat)));
    if count_from(s, pat, 0) == 1 {
        let f = first_from(s, pat, 0);
        if f + pat.len() > s.len() {
            lemma_first_none_count(s, pat, 0);
        }
        lemma_skip_to_first(s, pat, new, 0);
        assert(s =~= s.take(f) + pat + s.skip(f + pat.len()));
        assert(occurs_at(s, f, pat));
    }
}

} // verus!
