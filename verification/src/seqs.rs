//! General lemmas about sequences that the store proofs share.

use vstd::prelude::*;

verus! {

/// An element is in a filtered sequence exactly when it is in the
/// original sequence and satisfies the predicate.
pub proof fn lemma_filter_contains_iff<A>(s: Seq<A>, p: spec_fn(A) -> bool, x: A)
    ensures
        s.filter(p).contains(x) <==> s.contains(x) && p(x),
{
    broadcast use Seq::lemma_filter_contains;
    broadcast use Seq::lemma_filter_contains_rev;
    broadcast use Seq::lemma_filter_pred;

    if s.filter(p).contains(x) {
        let i = choose|i: int| 0 <= i < s.filter(p).len() && s.filter(p)[i] == x;
        assert(p(s.filter(p)[i]));
    }
    if s.contains(x) && p(x) {
        let i = choose|i: int| 0 <= i < s.len() && s[i] == x;
        assert(s.filter(p).contains(s[i]));
    }
}

/// Filtering with a predicate every element satisfies keeps the sequence.
pub proof fn lemma_filter_all<A>(s: Seq<A>, p: spec_fn(A) -> bool)
    requires
        forall|i: int| 0 <= i < s.len() ==> p(s[i]),
    ensures
        s.filter(p) == s,
    decreases s.len(),
{
    reveal(Seq::filter);
    if s.len() == 0 {
        assert(s.filter(p) =~= s);
    } else {
        let rest = s.drop_last();
        lemma_filter_all(rest, p);
        assert(p(s.last()));
        assert(s.filter(p) =~= rest.push(s.last()));
        assert(rest.push(s.last()) =~= s);
    }
}

/// Filtering preserves freedom from duplicates.
pub proof fn lemma_filter_no_duplicates<A>(s: Seq<A>, p: spec_fn(A) -> bool)
    requires
        s.no_duplicates(),
    ensures
        s.filter(p).no_duplicates(),
    decreases s.len(),
{
    reveal(Seq::filter);
    if s.len() > 0 {
        let rest = s.drop_last();
        let last = s.last();
        assert(rest.no_duplicates());
        lemma_filter_no_duplicates(rest, p);
        if p(last) {
            assert(!rest.contains(last)) by {
                if rest.contains(last) {
                    let i = choose|i: int| 0 <= i < rest.len() && rest[i] == last;
                    assert(s[i] == s[s.len() - 1]);
                }
            }
            assert(!rest.filter(p).contains(last)) by {
                if rest.filter(p).contains(last) {
                    Seq::lemma_filter_contains_rev(rest, p, last);
                }
            }
            let out = rest.filter(p).push(last);
            assert(out.no_duplicates()) by {
                assert(forall|i: int|
                    0 <= i < out.len() - 1 ==> out[i] == rest.filter(p)[i]);
                assert(forall|i: int|
                    0 <= i < out.len() - 1 ==> out[i] != last) by {
                    if exists|i: int| 0 <= i < out.len() - 1 && out[i] == last {
                        let i = choose|i: int| 0 <= i < out.len() - 1 && out[i] == last;
                        assert(rest.filter(p).contains(rest.filter(p)[i]));
                    }
                }
            }
        }
    }
}

/// Removing the element at `i` and inserting another in its place is a
/// pointwise update.
pub proof fn lemma_remove_insert_update<A>(s: Seq<A>, i: int, x: A)
    requires
        0 <= i < s.len(),
    ensures
        s.remove(i).insert(i, x) == s.update(i, x),
{
    assert(s.remove(i).insert(i, x) =~= s.update(i, x));
}

} // verus!
