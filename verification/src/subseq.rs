//! Subsequence relation on sequences, with the constructions the link
//! proofs need: a subsequence witness is a strictly increasing index map.

use vstd::prelude::*;

verus! {

/// `f` maps the positions of `a` to positions of `b`, strictly
/// increasingly, matching elements.
pub open spec fn subseq_map<T>(f: spec_fn(int) -> int, a: Seq<T>, b: Seq<T>) -> bool {
    &&& forall|i: int|
        0 <= i < a.len() ==> 0 <= #[trigger] f(i) < b.len() && a[i] == b[f(i)]
    &&& forall|i: int, j: int| 0 <= i < j < a.len() ==> #[trigger] f(i) < #[trigger] f(j)
}

/// `a` is a subsequence of `b`: `a` can be obtained from `b` by deleting
/// elements without reordering the rest.
pub open spec fn is_subseq_of<T>(a: Seq<T>, b: Seq<T>) -> bool {
    exists|f: spec_fn(int) -> int| subseq_map(f, a, b)
}

/// Appending the same element to both sides preserves the relation.
pub proof fn lemma_subseq_push_both<T>(a: Seq<T>, b: Seq<T>, x: T)
    requires
        is_subseq_of(a, b),
    ensures
        is_subseq_of(a.push(x), b.push(x)),
{
    let f = choose|f: spec_fn(int) -> int| subseq_map(f, a, b);
    let g = |i: int|
        if i < a.len() {
            f(i)
        } else {
            b.len() as int
        };
    assert forall|i: int| 0 <= i < a.push(x).len() implies 0 <= #[trigger] g(i) < b.push(x).len()
        && a.push(x)[i] == b.push(x)[g(i)] by {
        if i < a.len() {
            assert(a.push(x)[i] == a[i]);
        }
    }
    assert(subseq_map(g, a.push(x), b.push(x)));
}

/// Growing only the right side preserves the relation.
pub proof fn lemma_subseq_grow_right<T>(a: Seq<T>, b: Seq<T>, x: T)
    requires
        is_subseq_of(a, b),
    ensures
        is_subseq_of(a, b.push(x)),
{
    let f = choose|f: spec_fn(int) -> int| subseq_map(f, a, b);
    assert forall|i: int| 0 <= i < a.len() implies 0 <= #[trigger] f(i) < b.push(x).len()
        && a[i] == b.push(x)[f(i)] by {
        assert(b.push(x)[f(i)] == b[f(i)]);
    }
    assert(subseq_map(f, a, b.push(x)));
}

/// A prefix of a subsequence of `b` is itself a subsequence of `b`.
pub proof fn lemma_subseq_take<T>(a: Seq<T>, b: Seq<T>, n: int)
    requires
        is_subseq_of(a, b),
        0 <= n <= a.len(),
    ensures
        is_subseq_of(a.take(n), b),
{
    let f = choose|f: spec_fn(int) -> int| subseq_map(f, a, b);
    assert forall|i: int| 0 <= i < a.take(n).len() implies 0 <= #[trigger] f(i) < b.len()
        && a.take(n)[i] == b[f(i)] by {
        assert(a.take(n)[i] == a[i]);
    }
    assert(subseq_map(f, a.take(n), b));
}

} // verus!
