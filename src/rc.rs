//! Shared pointers to cache cells, with owner counts kept by the heap that
//! holds the cells.
use crate::cache::{lookup, OcamlValueCache, INVALID_GENERATION};
use std::marker::PhantomData;
use vstd::std_specs::cmp::{OrdSpec, PartialEqSpec, PartialOrdSpec};
use vstd::prelude::*;

verus! {

/// One allocation: a cache cell and the number of pointers that share it.
pub struct RcBox<T> {
    pub cache: OcamlValueCache<T>,
    pub strong: usize,
}

/// The cells that `RcOc` pointers share. A cell is freed when the last
/// pointer to it is released, and its place is never handed out again.
pub struct RcOcHeap<T> {
    boxes: Vec<Option<RcBox<T>>>,
}

/// A pointer to a cell of an `RcOcHeap`.
pub struct RcOc<T> {
    ptr: usize,
    marker: PhantomData<T>,
}

impl<T> RcOc<T> {
    /// The place of the cell this pointer refers to.
    pub closed spec fn addr(&self) -> int {
        self.ptr as int
    }
}

impl<T> RcOcHeap<T> {
    /// Every place ever allocated, `None` once freed.
    pub closed spec fn cells(&self) -> Seq<Option<RcBox<T>>> {
        self.boxes@
    }

    /// Each live cell has a well-formed memo and at least one owner.
    pub open spec fn wf(&self) -> bool {
        forall|i: int|
            0 <= i < self.cells().len() && #[trigger] self.cells()[i] is Some ==> {
                &&& self.cells()[i].unwrap().cache.wf()
                &&& self.cells()[i].unwrap().strong > 0
            }
    }

    /// `p` refers to a cell of this heap that has not been freed.
    pub open spec fn live(&self, p: &RcOc<T>) -> bool {
        0 <= p.addr() < self.cells().len() && self.cells()[p.addr()] is Some
    }

    /// The cell `p` refers to.
    pub open spec fn cell(&self, p: &RcOc<T>) -> RcBox<T> {
        self.cells()[p.addr()].unwrap()
    }

    /// The value `p` points to.
    pub open spec fn value(&self, p: &RcOc<T>) -> T {
        self.cell(p).cache.value()
    }

    /// The memo of the cell `p` points to.
    pub open spec fn slot(&self, p: &RcOc<T>) -> Option<(usize, usize)> {
        self.cell(p).cache.slot()
    }

    /// How many pointers share the cell `p` points to.
    pub open spec fn count(&self, p: &RcOc<T>) -> nat {
        self.cell(p).strong as nat
    }

    /// `next` has every cell of `prev`, unchanged, but the one at `a`.
    pub open spec fn agrees_except(prev: &Self, next: &Self, a: int) -> bool {
        &&& prev.cells().len() <= next.cells().len()
        &&& forall|i: int|
            0 <= i < prev.cells().len() && i != a ==> #[trigger] next.cells()[i]
                == prev.cells()[i]
    }

    /// `next` is `prev` with one more cell, at the end, holding `v` with an
    /// empty memo and `p` as its one owner.
    pub open spec fn allocated(prev: &Self, next: &Self, p: &RcOc<T>, v: T) -> bool {
        &&& next.wf()
        &&& p.addr() == prev.cells().len()
        &&& next.cells().len() == prev.cells().len() + 1
        &&& Self::agrees_except(prev, next, p.addr())
        &&& next.live(p)
        &&& next.value(p) == v
        &&& next.slot(p) is None
        &&& next.count(p) == 1
    }

    /// `next` is `prev` once `before` was made the sole owner of a cell with
    /// an empty memo, `after`: in place when it owned its cell alone, else in
    /// a new cell at the end, its old cell losing one owner.
    pub open spec fn made_unique(
        prev: &Self,
        next: &Self,
        before: &RcOc<T>,
        after: &RcOc<T>,
    ) -> bool {
        &&& next.wf()
        &&& next.live(after)
        &&& next.count(after) == 1
        &&& next.slot(after) is None
        &&& Self::agrees_except(prev, next, before.addr())
        &&& prev.count(before) == 1 ==> {
            &&& after.addr() == before.addr()
            &&& next.cells().len() == prev.cells().len()
        }
        &&& prev.count(before) != 1 ==> {
            &&& after.addr() == prev.cells().len()
            &&& next.cells().len() == prev.cells().len() + 1
            &&& next.cells()[before.addr()] == Some(
                (RcBox {
                    cache: prev.cell(before).cache,
                    strong: (prev.count(before) - 1) as usize,
                }),
            )
        }
    }

    /// `next` is `prev` once `q` was made a second pointer to the cell of `p`,
    /// which gains an owner.
    pub open spec fn shared(prev: &Self, next: &Self, p: &RcOc<T>, q: &RcOc<T>) -> bool {
        &&& next.wf()
        &&& q.addr() == p.addr()
        &&& next.cells() == prev.cells().update(
            p.addr(),
            Some((RcBox { cache: prev.cell(p).cache, strong: (prev.count(p) + 1) as usize })),
        )
    }

    /// A heap with no cells.
    pub fn new() -> (r: Self)
        ensures
            r.wf(),
            r.cells().len() == 0,
    {
        RcOcHeap { boxes: Vec::new() }
    }

    fn box_ref(&self, p: &RcOc<T>) -> (r: &RcBox<T>)
        requires
            self.live(p),
        ensures
            *r == self.cell(p),
    {
        self.boxes[p.ptr].as_ref().unwrap()
    }

    fn box_mut(&mut self, p: &RcOc<T>) -> (r: &mut RcBox<T>)
        requires
            old(self).live(p),
        ensures
            *r == old(self).cell(p),
            final(self).cells() == old(self).cells().update(p.addr(), Some(*final(r))),
    {
        self.boxes[p.ptr].as_mut().unwrap()
    }
}

impl<T> RcOc<T> {
    /// Allocates a fresh cell holding `value`, with an empty memo and one owner.
    pub fn new(heap: &mut RcOcHeap<T>, value: T) -> (r: Self)
        requires
            old(heap).wf(),
            old(heap).cells().len() < usize::MAX,
        ensures
            RcOcHeap::allocated(old(heap), final(heap), &r, value),
    {
        let ptr = heap.boxes.len();
        heap.boxes.push(Some(RcBox { cache: OcamlValueCache::new(value), strong: 1 }));
        RcOc { ptr, marker: PhantomData }
    }

    /// Another pointer to the same cell; the cell gains an owner.
    pub fn clone(&self, heap: &mut RcOcHeap<T>) -> (r: Self)
        requires
            old(heap).wf(),
            old(heap).live(self),
            old(heap).count(self) < usize::MAX,
        ensures
            RcOcHeap::shared(old(heap), final(heap), self, &r),
    {
        let b = heap.box_mut(self);
        b.strong = b.strong + 1;
        RcOc { ptr: self.ptr, marker: PhantomData }
    }

    /// Gives up this pointer; the cell loses an owner and is freed, value
    /// included, when it had no other.
    pub fn release(self, heap: &mut RcOcHeap<T>)
        requires
            old(heap).wf(),
            old(heap).live(&self),
        ensures
            final(heap).wf(),
            final(heap).cells() == old(heap).cells().update(
                self.addr(),
                if old(heap).count(&self) == 1 {
                    None
                } else {
                    Some(
                        (RcBox {
                            cache: old(heap).cell(&self).cache,
                            strong: (old(heap).count(&self) - 1) as usize,
                        }),
                    )
                },
            ),
    {
        let last = heap.box_ref(&self).strong == 1;
        if last {
            heap.boxes.set(self.ptr, None);
        } else {
            let b = heap.box_mut(&self);
            b.strong = b.strong - 1;
        }
    }

    /// The value this pointer refers to; the memo is not touched.
    pub fn as_ref<'a>(&self, heap: &'a RcOcHeap<T>) -> (r: &'a T)
        requires
            heap.live(self),
        ensures
            *r == heap.value(self),
    {
        heap.box_ref(self).cache.value_ref()
    }

    /// The handle memoized for `generation` in the cell this pointer refers to.
    pub fn get_cached_value_in_generation(&self, heap: &RcOcHeap<T>, generation: usize) -> (r:
        Option<usize>)
        requires
            heap.wf(),
            heap.live(self),
        ensures
            r == lookup(heap.slot(self), generation),
    {
        heap.box_ref(self).cache.get_in_generation(generation)
    }

    /// Memoizes `value` as the handle produced in `generation`, for every
    /// pointer to this cell.
    pub fn set_cached_value(&self, heap: &mut RcOcHeap<T>, value: usize, generation: usize)
        requires
            old(heap).wf(),
            old(heap).live(self),
            generation != INVALID_GENERATION,
        ensures
            final(heap).wf(),
            final(heap).cells().len() == old(heap).cells().len(),
            RcOcHeap::agrees_except(old(heap), final(heap), self.addr()),
            final(heap).live(self),
            final(heap).value(self) == old(heap).value(self),
            final(heap).count(self) == old(heap).count(self),
            final(heap).slot(self) == Some((generation, value)),
    {
        heap.box_mut(self).cache.set(value, generation);
    }

    /// Empties the memo of the cell this pointer refers to.
    pub fn clear_cache(&self, heap: &mut RcOcHeap<T>)
        requires
            old(heap).wf(),
            old(heap).live(self),
        ensures
            final(heap).wf(),
            final(heap).cells().len() == old(heap).cells().len(),
            RcOcHeap::agrees_except(old(heap), final(heap), self.addr()),
            final(heap).live(self),
            final(heap).value(self) == old(heap).value(self),
            final(heap).count(self) == old(heap).count(self),
            final(heap).slot(self) is None,
    {
        heap.box_mut(self).cache.clear();
    }

    /// Whether the values of the two pointers are equal; the memos and the
    /// identity of the cells play no part.
    pub fn eq(this: &Self, other: &Self, heap: &RcOcHeap<T>) -> (r: bool) where T: PartialEq
        requires
            heap.live(this),
            heap.live(other),
        ensures
            T::obeys_eq_spec() ==> r == heap.value(this).eq_spec(&heap.value(other)),
    {
        this.as_ref(heap).eq(other.as_ref(heap))
    }

    /// How the values of the two pointers compare; the memos and the identity
    /// of the cells play no part.
    pub fn partial_cmp(this: &Self, other: &Self, heap: &RcOcHeap<T>) -> (r: Option<
        std::cmp::Ordering,
    >) where T: PartialOrd
        requires
            heap.live(this),
            heap.live(other),
        ensures
            T::obeys_partial_cmp_spec() ==> r == heap.value(this).partial_cmp_spec(
                &heap.value(other),
            ),
    {
        this.as_ref(heap).partial_cmp(other.as_ref(heap))
    }

    /// The total order of the values of the two pointers; the memos and the
    /// identity of the cells play no part.
    pub fn cmp(this: &Self, other: &Self, heap: &RcOcHeap<T>) -> (r: std::cmp::Ordering) where
        T: Ord,

        requires
            heap.live(this),
            heap.live(other),
        ensures
            T::obeys_cmp_spec() ==> r == heap.value(this).cmp_spec(&heap.value(other)),
    {
        this.as_ref(heap).cmp(other.as_ref(heap))
    }

    /// Whether the two pointers refer to the same cell (not merely to equal
    /// values).
    pub fn ptr_eq(this: &Self, other: &Self) -> (r: bool)
        ensures
            r == (this.addr() == other.addr()),
    {
        this.ptr == other.ptr
    }
    /// A fresh pointer, with no sharing, to a value decoded from an OCaml
    /// value; a decoding error is passed on.
    pub fn from_ocamlrep<E>(heap: &mut RcOcHeap<T>, decoded: Result<T, E>) -> (r: Result<Self, E>)
        requires
            old(heap).wf(),
            old(heap).cells().len() < usize::MAX,
        ensures
            final(heap).wf(),
            match decoded {
                Ok(v) => r is Ok && RcOcHeap::allocated(old(heap), final(heap), &r->Ok_0, v),
                Err(e) => r == Err::<Self, E>(e) && *final(heap) == *old(heap),
            },
    {
        match decoded {
            Ok(v) => Ok(RcOc::new(heap, v)),
            Err(e) => Err(e),
        }
    }

    /// Write access to the value, granted only to the sole owner of the cell;
    /// the memo is emptied first, since the value may be about to change.
    pub fn get_mut<'a>(this: &Self, heap: &'a mut RcOcHeap<T>) -> (r: Option<&'a mut T>)
        requires
            old(heap).wf(),
            old(heap).live(this),
        ensures
            r is Some <==> old(heap).count(this) == 1,
            r is None ==> *final(heap) == *old(heap),
            r is Some ==> {
                &&& *r.unwrap() == old(heap).value(this)
                &&& final(heap).wf()
                &&& final(heap).cells().len() == old(heap).cells().len()
                &&& RcOcHeap::agrees_except(old(heap), final(heap), this.addr())
                &&& final(heap).live(this)
                &&& final(heap).value(this) == *final(r.unwrap())
                &&& final(heap).count(this) == 1
                &&& final(heap).slot(this) is None
            },
    {
        if heap.box_ref(this).strong == 1 {
            let b = heap.box_mut(this);
            b.cache.clear();
            Some(b.cache.value_mut())
        } else {
            None
        }
    }
}

impl<T: Clone> RcOc<T> {
    /// Write access to the value. The sole owner of a cell mutates it in
    /// place, with its memo emptied; a shared cell is left to its other
    /// owners, and `this` is moved to a fresh cell holding a clone of the value.
    pub fn make_mut<'a>(this: &mut Self, heap: &'a mut RcOcHeap<T>) -> (r: &'a mut T)
        requires
            old(heap).wf(),
            old(heap).live(old(this)),
            old(heap).cells().len() < usize::MAX,
        ensures
            RcOcHeap::made_unique(old(heap), final(heap), old(this), final(this)),
            final(heap).value(final(this)) == *final(r),
            old(heap).count(old(this)) == 1 ==> *r == old(heap).value(old(this)),
            old(heap).count(old(this)) != 1 ==> cloned(old(heap).value(old(this)), *r),
    {
        if heap.box_ref(this).strong == 1 {
            let b = heap.box_mut(this);
            b.cache.clear();
            b.cache.value_mut()
        } else {
            let copy = heap.box_ref(this).cache.value_ref().clone();
            let b = heap.box_mut(this);
            b.strong = b.strong - 1;
            *this = RcOc::new(heap, copy);
            heap.box_mut(this).cache.value_mut()
        }
    }
    /// The handle of this value's conversion in `generation`. A memo filled in
    /// that generation answers at once; otherwise `convert` turns a clone of
    /// the value into the arena, and its handle is memoized for `generation`.
    pub fn into_ocamlrep<F: FnOnce(T) -> usize>(
        &self,
        heap: &mut RcOcHeap<T>,
        generation: usize,
        convert: F,
    ) -> (r: usize)
        requires
            old(heap).wf(),
            old(heap).live(self),
            generation != INVALID_GENERATION,
            forall|v: T| convert.requires((v,)),
        ensures
            final(heap).wf(),
            final(heap).cells().len() == old(heap).cells().len(),
            RcOcHeap::agrees_except(old(heap), final(heap), self.addr()),
            final(heap).live(self),
            final(heap).value(self) == old(heap).value(self),
            final(heap).count(self) == old(heap).count(self),
            final(heap).slot(self) == Some((generation, r)),
            match lookup(old(heap).slot(self), generation) {
                Some(h) => r == h && *final(heap) == *old(heap),
                None => exists|v: T| cloned(old(heap).value(self), v) && convert.ensures((v,), r),
            },
    {
        match self.get_cached_value_in_generation(heap, generation) {
            Some(h) => h,
            None => {
                let copy = self.as_ref(heap).clone();
                let ghost c = copy;
                let h = convert(copy);
                assert(cloned(old(heap).value(self), c) && convert.ensures((c,), h));
                self.set_cached_value(heap, h, generation);
                h
            },
        }
    }
}

} // verus!
