//! Lexicographic order on strings, and sorting by it.
use vstd::prelude::*;
use crate::text::{str_eq, string_views, to_chars};

verus! {

/// `a` comes strictly before `b`: at the first position where they differ
/// `a` has the smaller character, or `a` is a proper prefix of `b`. For UTF-8
/// text this is the order that `String`'s `Ord` gives.
pub open spec fn lex_lt(a: Seq<char>, b: Seq<char>) -> bool
    decreases a.len(),
{
    if a.len() == 0 {
        b.len() > 0
    } else if b.len() == 0 {
        false
    } else if a[0] != b[0] {
        (a[0] as int) < (b[0] as int)
    } else {
        lex_lt(a.drop_first(), b.drop_first())
    }
}

pub proof fn lemma_lex_irreflexive(a: Seq<char>)
    ensures
        !lex_lt(a, a),
    decreases a.len(),
{
    if a.len() > 0 {
        lemma_lex_irreflexive(a.drop_first());
    }
}

pub proof fn lemma_lex_transitive(a: Seq<char>, b: Seq<char>, c: Seq<char>)
    requires
        lex_lt(a, b),
        lex_lt(b, c),
    ensures
        lex_lt(a, c),
    decreases a.len(),
{
    if a.len() > 0 && b.len() > 0 && c.len() > 0 {
        if a[0] == b[0] && b[0] == c[0] {
            lemma_lex_transitive(a.drop_first(), b.drop_first(), c.drop_first());
        }
    }
}

pub proof fn lemma_lex_total(a: Seq<char>, b: Seq<char>)
    ensures
        a == b || lex_lt(a, b) || lex_lt(b, a),
    decreases a.len(),
{
    if a.len() > 0 && b.len() > 0 {
        if a[0] == b[0] {
            lemma_lex_total(a.drop_first(), b.drop_first());
            if a.drop_first() == b.drop_first() {
                assert(a =~= seq![a[0]] + a.drop_first());
                assert(b =~= seq![b[0]] + b.drop_first());
            }
        } else {
            assert((a[0] as int) != (b[0] as int));
        }
    } else if a.len() == 0 && b.len() == 0 {
        assert(a =~= b);
    }
}

pub proof fn lemma_lex_asymmetric(a: Seq<char>, b: Seq<char>)
    requires
        lex_lt(a, b),
    ensures
        !lex_lt(b, a),
{
    if lex_lt(b, a) {
        lemma_lex_transitive(a, b, a);
        lemma_lex_irreflexive(a);
    }
}

/// Whether `a` sorts strictly before `b`.
pub fn str_lt(a: &str, b: &str) -> (r: bool)
    ensures
        r == lex_lt(a@, b@),
{
    let x = to_chars(a);
    let y = to_chars(b);
    let mut i: usize = 0;
    assert(a@.skip(0) =~= a@);
    assert(b@.skip(0) =~= b@);
    while i < x.len() && i < y.len()
        invariant
            x@ == a@,
            y@ == b@,
            i <= x.len(),
            i <= y.len(),
            lex_lt(a@, b@) == lex_lt(a@.skip(i as int), b@.skip(i as int)),
        decreases x.len() - i,
    {
        assert(a@.skip(i as int).drop_first() =~= a@.skip(i + 1));
        assert(b@.skip(i as int).drop_first() =~= b@.skip(i + 1));
        if x[i] != y[i] {
            return x[i] < y[i];
        }
        i = i + 1;
    }
    i < y.len()
}


/// Each string is not after the next one.
pub open spec fn is_sorted(s: Seq<Seq<char>>) -> bool {
    forall|i: int, j: int| 0 <= i < j < s.len() ==> !lex_lt(#[trigger] s[j], #[trigger] s[i])
}

/// Each string is strictly before the next one (so none repeats).
pub open spec fn is_strictly_sorted(s: Seq<Seq<char>>) -> bool {
    forall|i: int, j: int| 0 <= i < j < s.len() ==> lex_lt(#[trigger] s[i], #[trigger] s[j])
}

/// Sorts strings into ascending order (as `slice::sort` on `String`s);
/// equal strings are interchangeable, so stability is not observable.
pub fn sort_strings(v: Vec<String>) -> (r: Vec<String>)
    ensures
        is_sorted(string_views(r@)),
        r@.to_multiset() == v@.to_multiset(),
{
    broadcast use vstd::seq_lib::group_to_multiset_ensures;

    let mut rest = v;
    let mut out: Vec<String> = Vec::new();
    while rest.len() > 0
        invariant
            is_sorted(string_views(out@)),
            out@.to_multiset().add(rest@.to_multiset()) == v@.to_multiset(),
        decreases rest.len(),
    {
        let ghost before_rest = rest@;
        let x = rest.pop().unwrap();
        assert(before_rest == rest@.push(x));
        let mut j: usize = 0;
        while j < out.len() && !str_lt(x.as_str(), out[j].as_str())
            invariant
                j <= out.len(),
                is_sorted(string_views(out@)),
                forall|k: int| 0 <= k < j ==> !lex_lt(x@, #[trigger] out@[k]@),
            decreases out.len() - j,
        {
            j = j + 1;
        }
        let ghost old_out = out@;
        proof {
            assert forall|a: int, b: int|
                0 <= a < b < old_out.len() + 1 implies !lex_lt(
                #[trigger] string_views(old_out.insert(j as int, x))[b],
                #[trigger] string_views(old_out.insert(j as int, x))[a],
            ) by {
                let s = string_views(old_out);
                let t = string_views(old_out.insert(j as int, x));
                assert(t[a] == if a < j { s[a] } else if a == j { x@ } else { s[a - 1] });
                assert(t[b] == if b < j { s[b] } else if b == j { x@ } else { s[b - 1] });
                if b < j {
                } else if a > j {
                    assert(!lex_lt(s[b - 1], s[a - 1]));
                } else if a < j && b == j {
                    assert(!lex_lt(x@, old_out[a]@));
                } else if a < j {
                    // a < j < b: s[a] <= x < s[b - 1]
                    assert(!lex_lt(s[b - 1], s[a]));
                } else {
                    // a == j, x before old element b - 1 >= j
                    assert(j < old_out.len());
                    assert(lex_lt(x@, old_out[j as int]@));
                    if b - 1 == j {
                        lemma_lex_irreflexive(s[j as int]);
                    }
                    assert(!lex_lt(s[b - 1], s[j as int]));
                    lemma_lex_total(s[j as int], s[b - 1]);
                    if s[j as int] != s[b - 1] {
                        lemma_lex_transitive(x@, s[j as int], s[b - 1]);
                    }
                    lemma_lex_asymmetric(x@, s[b - 1]);
                }
            }
        }
        out.insert(j, x);
        proof {
            assert(out@ == old_out.insert(j as int, x));
            vstd::seq_lib::to_multiset_insert(old_out, j as int, x);
            assert(out@.to_multiset() == old_out.to_multiset().insert(x));
            vstd::seq_lib::to_multiset_build(rest@, x);
            assert(before_rest.to_multiset() == rest@.to_multiset().insert(x));
            assert(out@.to_multiset().add(rest@.to_multiset()) =~= old_out.to_multiset().add(
                before_rest.to_multiset(),
            ));
        }
    }
    out
}

proof fn lemma_same_multiset_same_names(a: Seq<String>, b: Seq<String>)
    requires
        a.to_multiset() == b.to_multiset(),
    ensures
        string_views(a).to_set() == string_views(b).to_set(),
{
    broadcast use vstd::seq_lib::group_to_multiset_ensures;

    assert forall|x: Seq<char>| string_views(a).to_set().contains(x) implies string_views(
        b,
    ).to_set().contains(x) by {
        let i = choose|i: int| 0 <= i < string_views(a).len() && string_views(a)[i] == x;
        assert(a.contains(a[i]));
        assert(a.to_multiset().count(a[i]) > 0);
        assert(b.to_multiset().count(a[i]) > 0);
        assert(b.contains(a[i]));
        let j = choose|j: int| 0 <= j < b.len() && b[j] == a[i];
        assert(string_views(b)[j] == x);
    }
    assert forall|x: Seq<char>| string_views(b).to_set().contains(x) implies string_views(
        a,
    ).to_set().contains(x) by {
        let i = choose|i: int| 0 <= i < string_views(b).len() && string_views(b)[i] == x;
        assert(b.contains(b[i]));
        assert(b.to_multiset().count(b[i]) > 0);
        assert(a.to_multiset().count(b[i]) > 0);
        assert(a.contains(b[i]));
        let j = choose|j: int| 0 <= j < a.len() && a[j] == b[i];
        assert(string_views(a)[j] == x);
    }
    assert(string_views(a).to_set() =~= string_views(b).to_set());
}

/// The distinct strings of `v` in ascending order (as collecting them into
/// a `BTreeSet`).
pub fn sorted_unique(v: Vec<String>) -> (r: Vec<String>)
    ensures
        is_strictly_sorted(string_views(r@)),
        string_views(r@).to_set() == string_views(v@).to_set(),
{
    let ghost orig = v@;
    let sorted = sort_strings(v);
    proof {
        lemma_same_multiset_same_names(sorted@, orig);
    }
    let ghost sv = string_views(sorted@);
    let mut out: Vec<String> = Vec::new();
    let mut i: usize = 0;
    assert(sv.take(0).to_set() =~= Set::<Seq<char>>::empty());
    assert(string_views(out@).to_set() =~= Set::<Seq<char>>::empty());
    while i < sorted.len()
        invariant
            sv == string_views(sorted@),
            is_sorted(sv),
            i <= sorted.len(),
            is_strictly_sorted(string_views(out@)),
            string_views(out@).to_set() == sv.take(i as int).to_set(),
            i > 0 ==> out@.len() > 0 && out@.last()@ == sv[i - 1],
            i == 0 ==> out@.len() == 0,
        decreases sorted.len() - i,
    {
        let ghost ov = string_views(out@);
        assert(sv.take(i + 1) =~= sv.take(i as int).push(sv[i as int]));
        let fresh = out.len() == 0 || !str_eq(out[out.len() - 1].as_str(), sorted[i].as_str());
        if fresh {
            let x = sorted[i].clone();
            out.push(x);
            assert(string_views(out@) =~= ov.push(sv[i as int]));
            proof {
                if i > 0 {
                    let last = sv[i - 1];
                    assert(!lex_lt(sv[i as int], last));
                    lemma_lex_total(last, sv[i as int]);
                    assert(lex_lt(last, sv[i as int]));
                    assert forall|a: int, b: int|
                        0 <= a < b < ov.len() + 1 implies lex_lt(
                        #[trigger] string_views(out@)[a],
                        #[trigger] string_views(out@)[b],
                    ) by {
                        if b == ov.len() {
                            if a < ov.len() - 1 {
                                lemma_lex_transitive(ov[a], ov[ov.len() - 1], sv[i as int]);
                            }
                        }
                    }
                }
            }
            proof {
                sv.take(i as int).lemma_push_to_set_commute(sv[i as int]);
                ov.lemma_push_to_set_commute(sv[i as int]);
            }
            assert(string_views(out@).to_set() =~= sv.take(i + 1).to_set());
        } else {
            assert(sv[i - 1] == sv[i as int]);
            assert(sv.take(i as int).contains(sv[i as int])) by {
                assert(sv.take(i as int)[i - 1] == sv[i - 1]);
            }
            proof {
                sv.take(i as int).lemma_push_to_set_commute(sv[i as int]);
            }
            assert(sv.take(i as int).to_set().insert(sv[i as int]) =~= sv.take(i as int).to_set());
            assert(string_views(out@).to_set() =~= sv.take(i + 1).to_set());
        }
        i = i + 1;
    }
    assert(sv.take(sorted.len() as int) =~= sv);
    out
}

} // verus!
