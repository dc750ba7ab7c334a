//! Lexicographic order on text, and sorting by it.

use vstd::prelude::*;
use vstd::relations::*;
use crate::text::views;

verus! {

/// `a` sorts before or equal to `b`, comparing characters by code point
/// (the order of `str`, whose UTF-8 bytes compare the same way).
pub open spec fn lex_le(a: Seq<char>, b: Seq<char>) -> bool
    decreases a.len(),
{
    if a.len() == 0 {
        true
    } else if b.len() == 0 {
        false
    } else if a[0] != b[0] {
        (a[0] as int) < (b[0] as int)
    } else {
        lex_le(a.drop_first(), b.drop_first())
    }
}

pub open spec fn lex_le_fn() -> spec_fn(Seq<char>, Seq<char>) -> bool {
    |a: Seq<char>, b: Seq<char>| lex_le(a, b)
}

proof fn lemma_lex_reflexive(a: Seq<char>)
    ensures
        lex_le(a, a),
    decreases a.len(),
{
    if a.len() > 0 {
        lemma_lex_reflexive(a.drop_first());
    }
}

proof fn lemma_lex_antisymmetric(a: Seq<char>, b: Seq<char>)
    requires
        lex_le(a, b),
        lex_le(b, a),
    ensures
        a == b,
    decreases a.len(),
{
    if a.len() > 0 && b.len() > 0 && a[0] == b[0] {
        lemma_lex_antisymmetric(a.drop_first(), b.drop_first());
        assert(a =~= seq![a[0]] + a.drop_first());
        assert(b =~= seq![b[0]] + b.drop_first());
    } else if a.len() > 0 && b.len() > 0 {
        assert((a[0] as int) != (b[0] as int));
    } else {
        assert(a.len() == 0 && b.len() == 0);
        assert(a =~= b);
    }
}

proof fn lemma_lex_transitive(a: Seq<char>, b: Seq<char>, c: Seq<char>)
    requires
        lex_le(a, b),
        lex_le(b, c),
    ensures
        lex_le(a, c),
    decreases a.len(),
{
    if a.len() > 0 && b.len() > 0 && c.len() > 0 && a[0] == b[0] && b[0] == c[0] {
        lemma_lex_transitive(a.drop_first(), b.drop_first(), c.drop_first());
    }
}

proof fn lemma_lex_total(a: Seq<char>, b: Seq<char>)
    ensures
        lex_le(a, b) || lex_le(b, a),
    decreases a.len(),
{
    if a.len() > 0 && b.len() > 0 && a[0] == b[0] {
        lemma_lex_total(a.drop_first(), b.drop_first());
    } else if a.len() > 0 && b.len() > 0 {
        assert((a[0] as int) != (b[0] as int));
    }
}

/// Lexicographic order is a total order.
pub proof fn lemma_lex_total_ordering()
    ensures
        total_ordering(lex_le_fn()),
{
    assert forall|a: Seq<char>| #[trigger] lex_le_fn()(a, a) by {
        lemma_lex_reflexive(a);
    }
    assert forall|a: Seq<char>, b: Seq<char>| #[trigger] lex_le_fn()(a, b) && #[trigger] lex_le_fn()(b, a) implies a == b by {
        lemma_lex_antisymmetric(a, b);
    }
    assert forall|a: Seq<char>, b: Seq<char>, c: Seq<char>| #[trigger] lex_le_fn()(a, b) && #[trigger] lex_le_fn()(b, c) implies lex_le_fn()(a, c) by {
        lemma_lex_transitive(a, b, c);
    }
    assert forall|a: Seq<char>, b: Seq<char>| #[trigger] lex_le_fn()(a, b) || #[trigger] lex_le_fn()(b, a) by {
        lemma_lex_total(a, b);
    }
}

/// Whether `a` sorts before or equal to `b`.
pub fn lex_less_eq(a: &[char], b: &[char]) -> (r: bool)
    ensures
        r == lex_le(a@, b@),
{
    let mut i: usize = 0;
    assert(a@.skip(0) =~= a@);
    assert(b@.skip(0) =~= b@);
    while i < a.len() && i < b.len()
        invariant
            i <= a@.len(),
            i <= b@.len(),
            lex_le(a@, b@) == lex_le(a@.skip(i as int), b@.skip(i as int)),
        decreases a@.len() - i,
    {
        if a[i] != b[i] {
            assert(a@.skip(i as int)[0] == a@[i as int]);
            assert(b@.skip(i as int)[0] == b@[i as int]);
            return a[i] < b[i];
        }
        assert(a@.skip(i as int).drop_first() =~= a@.skip(i + 1));
        assert(b@.skip(i as int).drop_first() =~= b@.skip(i + 1));
        i = i + 1;
    }
    i == a.len()
}

/// The texts in ascending order.
pub fn sort_texts(items: Vec<Vec<char>>) -> (r: Vec<Vec<char>>)
    ensures
        views(r@) == views(items@).sort_by(lex_le_fn()),
{
    proof {
        lemma_lex_total_ordering();
    }
    let mut out: Vec<Vec<char>> = Vec::new();
    let n = items.len();
    let mut rest = items;
    let ghost all = views(rest@);
    let mut k: usize = 0;
    assert(views(out@) =~= Seq::<Seq<char>>::empty());
    assert(all.take(0) =~= Seq::<Seq<char>>::empty());
    while k < n
        invariant
            n == rest@.len(),
            all == views(rest@),
            k <= n,
            total_ordering(lex_le_fn()),
            sorted_by(views(out@), lex_le_fn()),
            views(out@).to_multiset() == all.take(k as int).to_multiset(),
        decreases n - k,
    {
        let x = rest[k].clone();
        assert(x@ == all[k as int]);
        let mut p: usize = 0;
        while p < out.len() && lex_less_eq(&out[p], &x)
            invariant
                p <= out@.len(),
                forall|i: int| 0 <= i < p ==> lex_le(#[trigger] out@[i]@, x@),
            decreases out@.len() - p,
        {
            p = p + 1;
        }
        let ghost before = views(out@);
        out.insert(p, x);
        proof {
            assert(views(out@) =~= before.insert(p as int, x@));
            vstd::seq_lib::to_multiset_insert(before, p as int, x@);
            assert(all.take(k + 1) =~= all.take(k as int).push(x@));
            assert(all.take(k as int).push(x@).to_multiset() =~= all.take(k as int).to_multiset().insert(x@)) by {
                broadcast use vstd::seq_lib::group_to_multiset_ensures;
            }
            assert forall|i: int, j: int| 0 <= i < j < views(out@).len() implies #[trigger] lex_le_fn()(views(out@)[i], views(out@)[j]) by {
                let v = views(out@);
                if j < p {
                    assert(v[i] == before[i] && v[j] == before[j]);
                } else if j == p {
                    assert(v[i] == before[i]);
                    assert(lex_le(out@[i]@, x@));
                } else if i == p {
                    assert(v[j] == before[j - 1]);
                    if p < before.len() {
                        assert(!lex_le(before[p as int], x@));
                        lemma_lex_total(before[p as int], x@);
                        if j - 1 > p {
                            assert(lex_le_fn()(before[p as int], before[j - 1]));
                            lemma_lex_transitive(x@, before[p as int], before[j - 1]);
                        }
                    }
                } else if i < p {
                    assert(v[i] == before[i] && v[j] == before[j - 1]);
                } else {
                    assert(v[i] == before[i - 1] && v[j] == before[j - 1]);
                }
            }
        }
        k = k + 1;
    }
    proof {
        assert(all.take(n as int) =~= all);
        all.lemma_sort_by_ensures(lex_le_fn());
        vstd::seq_lib::lemma_sorted_unique(views(out@), all.sort_by(lex_le_fn()), lex_le_fn());
    }
    out
}

} // verus!
