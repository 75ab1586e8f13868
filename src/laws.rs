//! Properties that relate the operations on shared pointers and their memo.
use crate::cache::{lookup, INVALID_GENERATION};
use crate::rc::{RcOc, RcOcHeap};
use vstd::prelude::*;

verus! {

/// A memo filled with `handle` in `generation` answers `handle` there and
/// nothing in any other generation; an empty memo answers nothing anywhere.
pub proof fn lemma_memo_hit_and_miss(generation: usize, handle: usize, other: usize)
    requires
        generation != INVALID_GENERATION,
        other != generation,
    ensures
        lookup(Some((generation, handle)), generation) == Some(handle),
        lookup(Some((generation, handle)), other) is None,
        lookup(None, generation) is None,
        lookup(None, other) is None,
{
}

/// A clone reads the same value as the pointer it was made from, and both
/// refer to one cell.
pub proof fn lemma_clone_reads_same<T>(
    prev: RcOcHeap<T>,
    next: RcOcHeap<T>,
    p: RcOc<T>,
    q: RcOc<T>,
)
    requires
        prev.wf(),
        prev.live(&p),
        RcOcHeap::shared(&prev, &next, &p, &q),
    ensures
        next.live(&p),
        next.live(&q),
        next.value(&q) == prev.value(&p),
        next.value(&p) == prev.value(&p),
        p.addr() == q.addr(),
{
}

/// Two pointers made one after the other by `new` refer to different cells,
/// even for equal values, and each reads its own value.
pub proof fn lemma_new_pointers_distinct<T>(
    h0: RcOcHeap<T>,
    h1: RcOcHeap<T>,
    h2: RcOcHeap<T>,
    p: RcOc<T>,
    q: RcOc<T>,
    v: T,
    w: T,
)
    requires
        RcOcHeap::allocated(&h0, &h1, &p, v),
        RcOcHeap::allocated(&h1, &h2, &q, w),
    ensures
        p.addr() != q.addr(),
        h2.live(&p),
        h2.value(&p) == v,
        h2.value(&q) == w,
{
}

/// Once write access was granted, the memo of the pointer answers nothing in
/// any generation, including the one it was filled in.
pub proof fn lemma_make_mut_invalidates<T>(
    prev: RcOcHeap<T>,
    next: RcOcHeap<T>,
    before: RcOc<T>,
    after: RcOc<T>,
    generation: usize,
)
    requires
        prev.wf(),
        prev.live(&before),
        RcOcHeap::made_unique(&prev, &next, &before, &after),
    ensures
        lookup(next.slot(&after), generation) is None,
{
}

/// Write access through one of two pointers to a shared cell moves that
/// pointer to a cell of its own: the other pointer keeps its cell, its value
/// and its memo, and the two no longer refer to the same cell.
pub proof fn lemma_copy_on_write_isolation<T>(
    prev: RcOcHeap<T>,
    next: RcOcHeap<T>,
    a: RcOc<T>,
    a_after: RcOc<T>,
    b: RcOc<T>,
)
    requires
        prev.wf(),
        prev.live(&a),
        a.addr() == b.addr(),
        prev.count(&a) > 1,
        RcOcHeap::made_unique(&prev, &next, &a, &a_after),
    ensures
        next.live(&b),
        next.value(&b) == prev.value(&b),
        next.slot(&b) == prev.slot(&b),
        a_after.addr() != b.addr(),
{
}

/// Write access to the value behind `after` leaves every other cell alone:
/// the value and memo of a pointer to any other cell stay as they were.
pub proof fn lemma_make_mut_frames_others<T>(
    prev: RcOcHeap<T>,
    next: RcOcHeap<T>,
    before: RcOc<T>,
    after: RcOc<T>,
    other: RcOc<T>,
)
    requires
        prev.wf(),
        prev.live(&before),
        prev.live(&other),
        other.addr() != before.addr(),
        RcOcHeap::made_unique(&prev, &next, &before, &after),
    ensures
        next.live(&other),
        next.value(&other) == prev.value(&other),
        next.slot(&other) == prev.slot(&other),
        after.addr() != other.addr(),
{
}

} // verus!
