//! Splitting a collection in two, mapping each side as it goes.

use vstd::prelude::*;

verus! {

/// The positions `i` of `decisions` holding `want`, in increasing order.
pub open spec fn keep_indices(decisions: Seq<bool>, want: bool) -> Seq<int>
    decreases decisions.len(),
{
    if decisions.len() == 0 {
        Seq::empty()
    } else if decisions.last() == want {
        keep_indices(decisions.drop_last(), want).push(decisions.len() - 1)
    } else {
        keep_indices(decisions.drop_last(), want)
    }
}

/// `keep_indices` names exactly the positions holding `want`, each once, in
/// increasing order.
pub proof fn lemma_keep_indices(decisions: Seq<bool>, want: bool)
    ensures
        forall|k: int|
            0 <= k < keep_indices(decisions, want).len() ==> 0 <= #[trigger] keep_indices(
                decisions,
                want,
            )[k] < decisions.len() && decisions[keep_indices(decisions, want)[k]] == want,
        forall|k1: int, k2: int|
            0 <= k1 < k2 < keep_indices(decisions, want).len() ==> keep_indices(decisions, want)[k1]
                < keep_indices(decisions, want)[k2],
        forall|i: int|
            0 <= i < decisions.len() && decisions[i] == want ==> keep_indices(
                decisions,
                want,
            ).contains(i),
    decreases decisions.len(),
{
    if decisions.len() > 0 {
        lemma_keep_indices(decisions.drop_last(), want);
        let prefix = keep_indices(decisions.drop_last(), want);
        assert forall|i: int|
            0 <= i < decisions.len() && decisions[i] == want implies keep_indices(
            decisions,
            want,
        ).contains(i) by {
            if i < decisions.len() - 1 {
                assert(decisions.drop_last()[i] == decisions[i]);
                let k = choose|k: int| 0 <= k < prefix.len() && prefix[k] == i;
                if decisions.last() == want {
                    assert(keep_indices(decisions, want)[k] == i);
                } else {
                    assert(keep_indices(decisions, want)[k] == i);
                }
            } else {
                assert(keep_indices(decisions, want).last() == i);
            }
        }
    }
}

/// Consumes a vector, creating two vectors from it.
///
/// For all the elements for which `predicate` returned `true`, it calls
/// `left_map` and for all of the elements for which it returned `false`, it
/// calls `right_map`. The results of these mappings are then returned as a
/// pair, each side in the input's order: there is a sequence of decisions,
/// one per input element and each a possible answer of `predicate` on it,
/// such that the left vector maps exactly the elements decided `true` and
/// the right vector exactly those decided `false`.
pub fn partition_map<T, P, L, R, LT, RT>(
    items: Vec<T>,
    predicate: P,
    left_map: L,
    right_map: R,
) -> (r: (Vec<LT>, Vec<RT>)) where P: Fn(&T) -> bool, L: Fn(T) -> LT, R: Fn(T) -> RT
    requires
        forall|i: int| 0 <= i < items@.len() ==> call_requires(predicate, (&items@[i],)),
        forall|i: int|
            0 <= i < items@.len() && call_ensures(predicate, (&items@[i],), true)
                ==> call_requires(left_map, (items@[i],)),
        forall|i: int|
            0 <= i < items@.len() && call_ensures(predicate, (&items@[i],), false)
                ==> call_requires(right_map, (items@[i],)),
    ensures
        exists|decisions: Seq<bool>|
            {
                &&& decisions.len() == items@.len()
                &&& forall|i: int|
                    0 <= i < decisions.len() ==> call_ensures(
                        predicate,
                        (&items@[i],),
                        #[trigger] decisions[i],
                    )
                &&& r.0@.len() == keep_indices(decisions, true).len()
                &&& forall|k: int|
                    0 <= k < r.0@.len() ==> call_ensures(
                        left_map,
                        (items@[keep_indices(decisions, true)[k]],),
                        #[trigger] r.0@[k],
                    )
                &&& r.1@.len() == keep_indices(decisions, false).len()
                &&& forall|k: int|
                    0 <= k < r.1@.len() ==> call_ensures(
                        right_map,
                        (items@[keep_indices(decisions, false)[k]],),
                        #[trigger] r.1@[k],
                    )
            },
{
    let ghost orig = items@;
    let mut remaining = items;
    let total = remaining.len();
    let mut left: Vec<LT> = Vec::new();
    let mut right: Vec<RT> = Vec::new();
    let ghost mut decisions: Seq<bool> = Seq::empty();
    let mut i: usize = 0;
    while remaining.len() > 0
        invariant
            total == orig.len(),
            i == decisions.len(),
            i + remaining@.len() == orig.len(),
            remaining@ == orig.subrange(i as int, orig.len() as int),
            forall|j: int| 0 <= j < orig.len() ==> call_requires(predicate, (&orig[j],)),
            forall|j: int|
                0 <= j < orig.len() && call_ensures(predicate, (&orig[j],), true)
                    ==> call_requires(left_map, (orig[j],)),
            forall|j: int|
                0 <= j < orig.len() && call_ensures(predicate, (&orig[j],), false)
                    ==> call_requires(right_map, (orig[j],)),
            forall|j: int|
                0 <= j < decisions.len() ==> call_ensures(
                    predicate,
                    (&orig[j],),
                    #[trigger] decisions[j],
                ),
            left@.len() == keep_indices(decisions, true).len(),
            forall|k: int|
                0 <= k < left@.len() ==> call_ensures(
                    left_map,
                    (orig[keep_indices(decisions, true)[k]],),
                    #[trigger] left@[k],
                ),
            right@.len() == keep_indices(decisions, false).len(),
            forall|k: int|
                0 <= k < right@.len() ==> call_ensures(
                    right_map,
                    (orig[keep_indices(decisions, false)[k]],),
                    #[trigger] right@[k],
                ),
        decreases remaining@.len(),
    {
        let x = remaining.remove(0);
        assert(x == orig[i as int]);
        let b = predicate(&x);
        proof {
            let pre = decisions;
            decisions = decisions.push(b);
            assert(decisions.drop_last() =~= pre);
        }
        if b {
            left.push(left_map(x));
        } else {
            right.push(right_map(x));
        }
        i += 1;
        proof {
            assert(remaining@ =~= orig.subrange(i as int, orig.len() as int));
        }
    }
    (left, right)
}

} // verus!
