//! A worklist that produces each distinct item at most once.
//!
//! `UnvisitedIterator` couples a double-ended pending queue with a permanent
//! record of everything it has already produced. Owners push candidate items
//! at either end (duplicates allowed); each production step pops from the
//! front, silently discarding anything produced before, and hands out the
//! first fresh item. This is the usual building block for breadth- or
//! depth-first frontier processing, where a node must never be visited twice.

use std::collections::HashSet;
use std::collections::VecDeque;
use vstd::prelude::*;

pub mod laws;

verus! {

broadcast use
    vstd::std_specs::vecdeque::group_vec_dequeue_axioms,
    vstd::std_specs::hash::group_hash_axioms,
;

/// One production step over the abstract state `(pending, produced)`.
///
/// Front elements already in `produced` are discarded; the first fresh
/// element, if any, is returned together with the remaining pending queue
/// and the enlarged produced set. When every pending element is stale the
/// result is `None` with the queue drained and `produced` unchanged.
pub open spec fn step(pending: Seq<u64>, produced: Set<u64>) -> (Option<u64>, Seq<u64>, Set<u64>)
    decreases pending.len(),
{
    if pending.len() == 0 {
        (None, pending, produced)
    } else if produced.contains(pending[0]) {
        step(pending.skip(1), produced)
    } else {
        (Some(pending[0]), pending.skip(1), produced.insert(pending[0]))
    }
}

/// The full sequence of items that repeated production steps will yield
/// from the abstract state `(pending, produced)` before signalling end.
pub open spec fn production(pending: Seq<u64>, produced: Set<u64>) -> Seq<u64>
    decreases pending.len(),
{
    if pending.len() == 0 {
        Seq::<u64>::empty()
    } else if produced.contains(pending[0]) {
        production(pending.skip(1), produced)
    } else {
        seq![pending[0]] + production(pending.skip(1), produced.insert(pending[0]))
    }
}

/// A double-ended queue of pending items together with the set of items
/// already produced. Items equal to an earlier production are never
/// produced again; duplicates inside the queue are tolerated and skipped
/// lazily, at production time.
pub struct UnvisitedIterator {
    visited: HashSet<u64>,
    inner: VecDeque<u64>,
}

impl UnvisitedIterator {
    /// The queue of items awaiting production, front first.
    pub closed spec fn pending(self) -> Seq<u64> {
        self.inner@
    }

    /// The set of items this instance has already produced.
    pub closed spec fn produced(self) -> Set<u64> {
        self.visited@
    }

    /// Starts a worklist holding exactly `value`, with nothing produced yet.
    pub fn from_value(value: u64) -> (r: Self)
        ensures
            r.pending() == seq![value],
            r.produced() == Set::<u64>::empty(),
    {
        let mut inner = VecDeque::new();
        inner.push_front(value);
        proof {
            assert(inner@ =~= seq![value]);
        }
        Self { visited: HashSet::new(), inner }
    }

    /// Drains `source` eagerly, in order, into the pending queue, with
    /// nothing produced yet. Duplicates inside `source` are kept here and
    /// suppressed later, at production time.
    pub fn from_iter(source: Vec<u64>) -> (r: Self)
        ensures
            r.pending() == source@,
            r.produced() == Set::<u64>::empty(),
    {
        let mut inner = VecDeque::new();
        let mut i: usize = 0;
        while i < source.len()
            invariant
                i <= source.len(),
                inner@ == source@.take(i as int),
            decreases source.len() - i,
        {
            inner.push_back(source[i]);
            proof {
                assert(inner@ =~= source@.take(i + 1));
            }
            i = i + 1;
        }
        proof {
            assert(source@.take(source@.len() as int) =~= source@);
        }
        Self { visited: HashSet::new(), inner }
    }

    /// Produces the next fresh item: pops front elements, discarding any
    /// already produced, until a fresh one is found (recorded as produced
    /// and returned) or the queue runs dry (`None`). The whole effect is
    /// `step` applied to the abstract state.
    pub fn next(&mut self) -> (r: Option<u64>)
        ensures
            ({
                let (result, pending, produced) = step(
                    old(self).pending(),
                    old(self).produced(),
                );
                &&& r == result
                &&& final(self).pending() == pending
                &&& final(self).produced() == produced
            }),
    {
        let ghost start_pending = self.pending();
        let ghost start_produced = self.produced();
        loop
            invariant
                start_pending == old(self).pending(),
                start_produced == old(self).produced(),
                self.produced() == start_produced,
                step(self.pending(), self.produced()) == step(start_pending, start_produced),
            decreases self.pending().len(),
        {
            match self.inner.pop_front() {
                None => {
                    return None;
                },
                Some(value) => {
                    if !self.visited.contains(&value) {
                        self.visited.insert(value);
                        return Some(value);
                    }
                },
            }
        }
    }

    /// Inserts `value` at the head of the pending queue. No duplicate check
    /// happens here; suppression is deferred to production time.
    pub fn push_front(&mut self, value: u64)
        ensures
            final(self).pending() == seq![value] + old(self).pending(),
            final(self).produced() == old(self).produced(),
    {
        self.inner.push_front(value);
    }

    /// Inserts `value` at the tail of the pending queue. No duplicate check
    /// happens here; suppression is deferred to production time.
    pub fn push_back(&mut self, value: u64)
        ensures
            final(self).pending() == old(self).pending().push(value),
            final(self).produced() == old(self).produced(),
    {
        self.inner.push_back(value);
    }

    /// How many items are awaiting production (stale duplicates included).
    pub fn pending_len(&self) -> (n: usize)
        ensures
            n == self.pending().len(),
    {
        self.inner.len()
    }

    /// Whether some pending entry equals `value`.
    pub fn pending_contains(&self, value: u64) -> (found: bool)
        ensures
            found == self.pending().contains(value),
    {
        let mut i: usize = 0;
        while i < self.inner.len()
            invariant
                i <= self.pending().len(),
                forall|j: int| 0 <= j < i ==> self.pending()[j] != value,
            decreases self.pending().len() - i,
        {
            if self.inner[i] == value {
                return true;
            }
            i = i + 1;
        }
        false
    }

    /// The head of the pending queue, if any, without consuming it.
    pub fn pending_front(&self) -> (r: Option<u64>)
        ensures
            match r {
                Some(v) => self.pending().len() > 0 && v == self.pending()[0],
                None => self.pending().len() == 0,
            },
    {
        if self.inner.len() == 0 {
            None
        } else {
            Some(self.inner[0])
        }
    }

    /// The tail of the pending queue, if any, without consuming it.
    pub fn pending_back(&self) -> (r: Option<u64>)
        ensures
            match r {
                Some(v) => self.pending().len() > 0 && v == self.pending().last(),
                None => self.pending().len() == 0,
            },
    {
        if self.inner.len() == 0 {
            None
        } else {
            Some(self.inner[self.inner.len() - 1])
        }
    }

    /// Whether nothing has been produced yet.
    pub fn produced_is_empty(&self) -> (empty: bool)
        ensures
            empty == self.produced().is_empty(),
    {
        self.visited.is_empty()
    }
}

/// Adaptation entry point: anything that can hand over a finite sequence of
/// items can be turned into an [`UnvisitedIterator`] over those items.
pub trait IntoUnvisitedIterator: Sized {
    /// The finite sequence of items this producer holds, in order.
    spec fn elements(self) -> Seq<u64>;

    /// Wraps this producer's items, in order, into a fresh worklist with
    /// nothing produced yet.
    fn skip_visited(self) -> (r: UnvisitedIterator)
        ensures
            r.pending() == self.elements(),
            r.produced() == Set::<u64>::empty(),
    ;
}

impl IntoUnvisitedIterator for Vec<u64> {
    open spec fn elements(self) -> Seq<u64> {
        self@
    }

    fn skip_visited(self) -> (r: UnvisitedIterator) {
        UnvisitedIterator::from_iter(self)
    }
}

} // verus!
