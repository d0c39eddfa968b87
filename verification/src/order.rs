//! Lexicographic order on character sequences, and sorting of strings by it.

use vstd::prelude::*;
use crate::text::{chars_of, views};

verus! {

/// `a` comes before `b` or equals it, character by character; a proper prefix
/// comes first. On strings this is the order of `Ord for str`, since UTF-8
/// byte order agrees with code point order.
pub open spec fn lex_le(a: Seq<char>, b: Seq<char>) -> bool
    decreases a.len(),
{
    if a.len() == 0 {
        true
    } else if b.len() == 0 {
        false
    } else if a[0] != b[0] {
        a[0] < b[0]
    } else {
        lex_le(a.drop_first(), b.drop_first())
    }
}

/// The sequence is in non-decreasing lexicographic order.
pub open spec fn sorted(s: Seq<Seq<char>>) -> bool {
    forall|i: int, j: int| 0 <= i < j < s.len() ==> lex_le(#[trigger] s[i], #[trigger] s[j])
}

/// Any two sequences are ordered one way or the other.
pub proof fn lemma_lex_total(a: Seq<char>, b: Seq<char>)
    ensures
        lex_le(a, b) || lex_le(b, a),
    decreases a.len(),
{
    if a.len() > 0 && b.len() > 0 && a[0] == b[0] {
        lemma_lex_total(a.drop_first(), b.drop_first());
    }
}

/// The order is transitive.
pub proof fn lemma_lex_trans(a: Seq<char>, b: Seq<char>, c: Seq<char>)
    requires
        lex_le(a, b),
        lex_le(b, c),
    ensures
        lex_le(a, c),
    decreases a.len(),
{
    if a.len() > 0 && b.len() > 0 && c.len() > 0 && a[0] == b[0] && b[0] == c[0] {
        lemma_lex_trans(a.drop_first(), b.drop_first(), c.drop_first());
    }
}

/// The order is antisymmetric.
pub proof fn lemma_lex_antisym(a: Seq<char>, b: Seq<char>)
    requires
        lex_le(a, b),
        lex_le(b, a),
    ensures
        a == b,
    decreases a.len(),
{
    if a.len() == 0 {
        assert(b.len() == 0);
        assert(a =~= b);
    } else {
        assert(a[0] == b[0]);
        lemma_lex_antisym(a.drop_first(), b.drop_first());
        assert(a =~= seq![a[0]] + a.drop_first());
        assert(b =~= seq![b[0]] + b.drop_first());
    }
}

/// Whether `a` comes before `b` or equals it.
pub fn lex_le_exec(a: &str, b: &str) -> (r: bool)
    ensures
        r == lex_le(a@, b@),
{
    let av = chars_of(a);
    let bv = chars_of(b);
    let mut i: usize = 0;
    assert(av@.skip(0) =~= av@);
    assert(bv@.skip(0) =~= bv@);
    while i < av.len() && i < bv.len() && av[i] == bv[i]
        invariant
            i <= av@.len(),
            i <= bv@.len(),
            forall|j: int| 0 <= j < i ==> av@[j] == bv@[j],
            lex_le(av@, bv@) == lex_le(av@.skip(i as int), bv@.skip(i as int)),
        decreases av@.len() - i,
    {
        proof {
            let sa = av@.skip(i as int);
            let sb = bv@.skip(i as int);
            assert(sa.drop_first() =~= av@.skip(i + 1));
            assert(sb.drop_first() =~= bv@.skip(i + 1));
        }
        i = i + 1;
    }
    proof {
        let sa = av@.skip(i as int);
        let sb = bv@.skip(i as int);
        if i < av@.len() {
            assert(sa[0] == av@[i as int]);
        }
        if i < bv@.len() {
            assert(sb[0] == bv@[i as int]);
        }
    }
    if i == av.len() {
        true
    } else if i == bv.len() {
        false
    } else {
        av[i] < bv[i]
    }
}

/// The strings of `v`, sorted; the result holds the same strings as many
/// times each as `v` does.
pub fn sort_strings(v: Vec<String>) -> (r: Vec<String>)
    ensures
        sorted(views(r@)),
        views(r@).to_multiset() == views(v@).to_multiset(),
{
    let mut r: Vec<String> = Vec::new();
    let n = v.len();
    let mut i: usize = 0;
    let mut rest = v;
    let ghost orig = views(rest@);
    proof {
        assert(views(r@).to_multiset() =~= orig.take(0).to_multiset()) by {
            assert(views(r@) =~= orig.take(0));
        }
    }
    while i < n
        invariant
            n == orig.len(),
            i <= n,
            rest@.len() == n,
            views(rest@) == orig,
            sorted(views(r@)),
            views(r@).to_multiset() == orig.take(i as int).to_multiset(),
        decreases n - i,
    {
        let x = rest[i].clone();
        let mut p: usize = 0;
        while p < r.len() && lex_le_exec(r[p].as_str(), x.as_str())
            invariant
                p <= r@.len(),
                forall|k: int| 0 <= k < p ==> lex_le(#[trigger] views(r@)[k], x@),
            decreases r@.len() - p,
        {
            p = p + 1;
        }
        let ghost before = views(r@);
        r.insert(p, x);
        proof {
            assert(views(r@) =~= before.insert(p as int, x@));
            if p < before.len() {
                lemma_lex_total(before[p as int], x@);
            }
            assert forall|a: int, b: int| 0 <= a < b < views(r@).len() implies lex_le(
                #[trigger] views(r@)[a],
                #[trigger] views(r@)[b],
            ) by {
                let s = views(r@);
                if a < p && b < p {
                    assert(s[a] == before[a] && s[b] == before[b]);
                } else if a < p && b == p {
                    assert(s[a] == before[a]);
                } else if a < p && b > p {
                    assert(s[a] == before[a] && s[b] == before[b - 1]);
                    if b - 1 > a {
                        assert(lex_le(before[a], before[b - 1]));
                    }
                } else if a == p {
                    assert(s[b] == before[b - 1]);
                    if b - 1 > p {
                        assert(lex_le(before[p as int], before[b - 1]));
                        lemma_lex_trans(x@, before[p as int], before[b - 1]);
                    }
                } else {
                    assert(s[a] == before[a - 1] && s[b] == before[b - 1]);
                }
            }
            let ins = views(r@);
            assert(ins.remove(p as int) =~= before);
            ins.to_multiset_ensures();
            assert(ins.contains(x@)) by {
                assert(ins[p as int] == x@);
            }
            assert(ins.to_multiset() =~= before.to_multiset().insert(x@)) by {
                broadcast use vstd::multiset::group_multiset_axioms;
            }
            assert(x@ == orig[i as int]);
            assert(orig.take(i + 1) =~= orig.take(i as int).push(orig[i as int]));
            orig.take(i as int).to_multiset_ensures();
        }
        i = i + 1;
    }
    assert(orig.take(n as int) =~= orig);
    r
}

} // verus!
