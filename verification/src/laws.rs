//! Proved laws of the worklist's production discipline.
//!
//! The abstract state of an [`crate::UnvisitedIterator`] is the pair
//! `(pending, produced)` exposed by its spec functions. Every method's
//! contract is stated over that pair: pushes prepend or append to
//! `pending`, and one production call is exactly [`crate::step`]. The
//! lemmas here state the library-wide guarantees that follow.

use vstd::prelude::*;

verus! {

use crate::production;
use crate::step;

/// One interaction with the worklist: a push at either end, or one
/// production call. Mirrors the contracts of `push_front`, `push_back`
/// and `next`.
pub enum Op {
    PushFront(u64),
    PushBack(u64),
    Produce,
}

/// The effect of one interaction on the abstract state, together with the
/// items it hands out (none for a push, at most one for a production call).
pub open spec fn apply_op(pending: Seq<u64>, produced: Set<u64>, op: Op) -> (
    Seq<u64>,
    Set<u64>,
    Seq<u64>,
) {
    match op {
        Op::PushFront(v) => (seq![v] + pending, produced, Seq::<u64>::empty()),
        Op::PushBack(v) => (pending.push(v), produced, Seq::<u64>::empty()),
        Op::Produce => {
            let (result, rest, after) = step(pending, produced);
            match result {
                Some(v) => (rest, after, seq![v]),
                None => (rest, after, Seq::<u64>::empty()),
            }
        },
    }
}

/// The state after a whole sequence of interactions, together with every
/// item handed out along the way, in order.
pub open spec fn run_ops(pending: Seq<u64>, produced: Set<u64>, ops: Seq<Op>) -> (
    Seq<u64>,
    Set<u64>,
    Seq<u64>,
)
    decreases ops.len(),
{
    if ops.len() == 0 {
        (pending, produced, Seq::<u64>::empty())
    } else {
        let (p1, s1, out1) = apply_op(pending, produced, ops[0]);
        let (p2, s2, out2) = run_ops(p1, s1, ops.skip(1));
        (p2, s2, out1 + out2)
    }
}

/// One production step only grows the produced set, any item it hands out
/// was not produced before, and that item is recorded at once.
pub proof fn lemma_step_effect(pending: Seq<u64>, produced: Set<u64>)
    ensures
        ({
            let (result, rest, after) = step(pending, produced);
            &&& produced.subset_of(after)
            &&& match result {
                Some(v) => !produced.contains(v) && after == produced.insert(v),
                None => after == produced,
            }
        }),
    decreases pending.len(),
{
    if pending.len() > 0 && produced.contains(pending[0]) {
        lemma_step_effect(pending.skip(1), produced);
    }
}

/// No-repeat: over any sequence of interactions, from any starting state,
/// the items handed out are pairwise distinct, none of them was in the
/// starting produced set, and each ends up recorded as produced.
pub proof fn lemma_no_repeat(pending: Seq<u64>, produced: Set<u64>, ops: Seq<Op>)
    ensures
        ({
            let (rest, after, out) = run_ops(pending, produced, ops);
            &&& produced.subset_of(after)
            &&& forall|i: int|
                0 <= i < out.len() ==> !produced.contains(out[i]) && after.contains(out[i])
            &&& forall|i: int, j: int| 0 <= i < j < out.len() ==> out[i] != out[j]
        }),
    decreases ops.len(),
{
    if ops.len() > 0 {
        let (p1, s1, out1) = apply_op(pending, produced, ops[0]);
        let (p2, s2, out2) = run_ops(p1, s1, ops.skip(1));
        lemma_step_effect(pending, produced);
        lemma_no_repeat(p1, s1, ops.skip(1));
        assert forall|i: int| 0 <= i < (out1 + out2).len() implies !produced.contains(
            (out1 + out2)[i],
        ) && s2.contains((out1 + out2)[i]) by {
            if i < out1.len() {
                assert(s1.contains(out1[i]));
            } else {
                assert(!s1.contains(out2[i - out1.len()]));
            }
        }
        assert forall|i: int, j: int| 0 <= i < j < (out1 + out2).len() implies (out1 + out2)[i] != (
        out1 + out2)[j] by {
            if i < out1.len() && out1.len() <= j {
                assert(s1.contains(out1[i]));
                assert(!s1.contains(out2[j - out1.len()]));
            }
        }
    }
}

/// Production of an all-fresh, internally distinct queue reproduces the
/// queue itself: nothing is skipped and nothing is reordered.
proof fn lemma_production_of_distinct(pending: Seq<u64>, produced: Set<u64>)
    requires
        forall|i: int, j: int| 0 <= i < j < pending.len() ==> pending[i] != pending[j],
        forall|i: int| 0 <= i < pending.len() ==> !produced.contains(pending[i]),
    ensures
        production(pending, produced) == pending,
    decreases pending.len(),
{
    if pending.len() > 0 {
        lemma_production_of_distinct(pending.skip(1), produced.insert(pending[0]));
        assert(seq![pending[0]] + pending.skip(1) =~= pending);
    }
}

/// Order preservation: a worklist built from a sequence with no internal
/// duplicates, and with nothing produced yet, produces exactly that
/// sequence, in order.
pub proof fn lemma_order_preserved(source: Seq<u64>)
    requires
        forall|i: int, j: int| 0 <= i < j < source.len() ==> source[i] != source[j],
    ensures
        production(source, Set::<u64>::empty()) == source,
{
    lemma_production_of_distinct(source, Set::<u64>::empty());
}

/// `production` is what repeated production steps hand out: one step peels
/// off exactly the head of `production`, and a step that signals end means
/// `production` is empty. This ties the contract of `next`, stated over
/// `step`, to the whole drain of the worklist.
pub proof fn lemma_production_step(pending: Seq<u64>, produced: Set<u64>)
    ensures
        ({
            let (result, rest, after) = step(pending, produced);
            match result {
                Some(v) => production(pending, produced) == seq![v] + production(rest, after),
                None => production(pending, produced) == Seq::<u64>::empty(),
            }
        }),
    decreases pending.len(),
{
    if pending.len() > 0 && produced.contains(pending[0]) {
        lemma_production_step(pending.skip(1), produced);
    }
}

/// Front/back insertion ordering: starting from a single pending value
/// `v0`, pushing `v1` at the front makes production yield `v1` before
/// `v0`; pushing it at the back instead yields `v0` before `v1`. (With
/// `v1 == v0` the second occurrence would be suppressed, so the law is
/// stated for distinct values.)
pub proof fn lemma_insertion_order(v0: u64, v1: u64)
    requires
        v0 != v1,
    ensures
        production(seq![v1] + seq![v0], Set::<u64>::empty()) == seq![v1, v0],
        production(seq![v0].push(v1), Set::<u64>::empty()) == seq![v0, v1],
{
    assert(seq![v1] + seq![v0] =~= seq![v1, v0]);
    assert(seq![v0].push(v1) =~= seq![v0, v1]);
    lemma_order_preserved(seq![v1, v0]);
    lemma_order_preserved(seq![v0, v1]);
}

/// Exhaustion and revival: with nothing pending, a production step signals
/// end and changes nothing; a push of a not-yet-produced value at either
/// end then makes the very next production step yield exactly that value.
pub proof fn lemma_exhaustion_and_revival(produced: Set<u64>, value: u64)
    requires
        !produced.contains(value),
    ensures
        step(Seq::<u64>::empty(), produced) == (None::<u64>, Seq::<u64>::empty(), produced),
        step(seq![value] + Seq::<u64>::empty(), produced).0 == Some(value),
        step(Seq::<u64>::empty().push(value), produced).0 == Some(value),
{
    assert(seq![value] + Seq::<u64>::empty() =~= seq![value]);
    assert(Seq::<u64>::empty().push(value) =~= seq![value]);
}

} // verus!
