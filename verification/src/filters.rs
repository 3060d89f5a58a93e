//! Rows picked from a table in table order, and what holds of such picks.

use vstd::prelude::*;

verus! {

/// The rows among the first `k` of `s` that meet `p`, in the order of `s`.
pub open spec fn keep_upto<T>(s: Seq<T>, p: spec_fn(T) -> bool, k: int) -> Seq<T>
    decreases k,
{
    if k <= 0 {
        Seq::empty()
    } else {
        let rest = keep_upto(s, p, k - 1);
        if p(s[k - 1]) {
            rest.push(s[k - 1])
        } else {
            rest
        }
    }
}

/// The rows of `s` that meet `p`, in the order of `s`.
pub open spec fn keep<T>(s: Seq<T>, p: spec_fn(T) -> bool) -> Seq<T> {
    keep_upto(s, p, s.len() as int)
}

/// A pick from the first `k` rows looks at those rows only.
pub proof fn lemma_keep_prefix<T>(a: Seq<T>, b: Seq<T>, p: spec_fn(T) -> bool, k: int)
    requires
        0 <= k <= a.len(),
    ensures
        keep_upto(a + b, p, k) == keep_upto(a, p, k),
    decreases k,
{
    if k > 0 {
        lemma_keep_prefix(a, b, p, k - 1);
        assert((a + b)[k - 1] == a[k - 1]);
    }
}

/// A pick from two tables in a row is the pick from the first, then the
/// pick from the second.
pub proof fn lemma_keep_append<T>(a: Seq<T>, b: Seq<T>, p: spec_fn(T) -> bool, k: int)
    requires
        0 <= k <= b.len(),
    ensures
        keep_upto(a + b, p, a.len() + k) == keep(a, p) + keep_upto(b, p, k),
    decreases k,
{
    if k > 0 {
        lemma_keep_append(a, b, p, k - 1);
        assert((a + b)[a.len() + k - 1] == b[k - 1]);
        assert((keep(a, p) + keep_upto(b, p, k - 1)).push(b[k - 1]) =~= keep(a, p) + keep_upto(
            b,
            p,
            k - 1,
        ).push(b[k - 1]));
    } else {
        lemma_keep_prefix(a, b, p, a.len() as int);
        assert(keep(a, p) + Seq::<T>::empty() =~= keep(a, p));
    }
}

/// Where no row meets `p`, nothing is picked.
pub proof fn lemma_keep_none<T>(s: Seq<T>, p: spec_fn(T) -> bool, k: int)
    requires
        0 <= k <= s.len(),
        forall|i: int| 0 <= i < k ==> !p(#[trigger] s[i]),
    ensures
        keep_upto(s, p, k) == Seq::<T>::empty(),
    decreases k,
{
    if k > 0 {
        lemma_keep_none(s, p, k - 1);
    }
}

/// Where every row meets `p`, every row is picked.
pub proof fn lemma_keep_all<T>(s: Seq<T>, p: spec_fn(T) -> bool, k: int)
    requires
        0 <= k <= s.len(),
        forall|i: int| 0 <= i < k ==> p(#[trigger] s[i]),
    ensures
        keep_upto(s, p, k) == s.take(k),
    decreases k,
{
    if k > 0 {
        lemma_keep_all(s, p, k - 1);
        assert(s.take(k - 1).push(s[k - 1]) =~= s.take(k));
    } else {
        assert(s.take(0) =~= Seq::<T>::empty());
    }
}

/// Every row of a pick meets `p` and is a row of the table.
pub proof fn lemma_keep_rows<T>(s: Seq<T>, p: spec_fn(T) -> bool, k: int)
    requires
        0 <= k <= s.len(),
    ensures
        keep_upto(s, p, k).len() <= k,
        forall|j: int|
            0 <= j < keep_upto(s, p, k).len() ==> p(#[trigger] keep_upto(s, p, k)[j]) && exists|
                i: int,
            |
                0 <= i < k && s[i] == keep_upto(s, p, k)[j],
    decreases k,
{
    if k > 0 {
        lemma_keep_rows(s, p, k - 1);
        let rest = keep_upto(s, p, k - 1);
        let all = keep_upto(s, p, k);
        assert forall|j: int| 0 <= j < all.len() implies p(#[trigger] all[j]) && exists|i: int|
            0 <= i < k && s[i] == all[j] by {
            if j < rest.len() {
                assert(all[j] == rest[j]);
                let i = choose|i: int| 0 <= i < k - 1 && s[i] == rest[j];
                assert(0 <= i < k && s[i] == all[j]);
            } else {
                assert(all[j] == s[k - 1]);
            }
        }
    }
}

/// A pick by `q` from a pick by `p`, where `q` asks for no less than `p`
/// does not already grant, is the pick by `q` from the table.
pub proof fn lemma_keep_of_keep<T>(s: Seq<T>, p: spec_fn(T) -> bool, q: spec_fn(T) -> bool, k: int)
    requires
        0 <= k <= s.len(),
        forall|x: T| #[trigger] q(x) ==> p(x),
    ensures
        keep(keep_upto(s, p, k), q) == keep_upto(s, q, k),
    decreases k,
{
    if k > 0 {
        lemma_keep_of_keep(s, p, q, k - 1);
        let rest = keep_upto(s, p, k - 1);
        if p(s[k - 1]) {
            let one = seq![s[k - 1]];
            assert(rest.push(s[k - 1]) =~= rest + one);
            lemma_keep_append(rest, one, q, 1);
            assert(keep_upto(one, q, 0) =~= Seq::<T>::empty());
            if q(s[k - 1]) {
                assert(keep(rest, q) + Seq::<T>::empty().push(s[k - 1]) =~= keep(rest, q).push(
                    s[k - 1],
                ));
            } else {
                assert(keep(rest, q) + Seq::<T>::empty() =~= keep(rest, q));
            }
        }
    }
}

} // verus!
