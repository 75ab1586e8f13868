//! A payload together with a one-slot memo of its conversion to an OCaml value.
use vstd::prelude::*;

verus! {

/// The OCaml encoding of the unit value: the immediate integer 0, tagged in
/// its lowest bit.
pub const UNIT: usize = 1;

/// The generation that marks the memo as holding nothing; no conversion
/// arena ever uses it as its own generation.
pub const INVALID_GENERATION: usize = usize::MAX;

/// What a lookup in `generation` finds in the memo `slot`.
pub open spec fn lookup(slot: Option<(usize, usize)>, generation: usize) -> Option<usize> {
    match slot {
        Some((g, h)) => if g == generation {
            Some(h)
        } else {
            None
        },
        None => None,
    }
}

/// A value, plus the handle of its last conversion and the generation in
/// which that handle was produced.
pub struct OcamlValueCache<T> {
    forward_pointer: usize,
    generation: usize,
    value: T,
}

impl<T> OcamlValueCache<T> {
    /// The owned payload.
    pub closed spec fn value(&self) -> T {
        self.value
    }

    /// The memo, as `(generation, handle)`, or `None` when it holds nothing.
    pub closed spec fn slot(&self) -> Option<(usize, usize)> {
        if self.generation == INVALID_GENERATION {
            None
        } else {
            Some((self.generation, self.forward_pointer))
        }
    }

    /// An empty memo keeps the unit value as its handle.
    pub closed spec fn wf(&self) -> bool {
        self.generation == INVALID_GENERATION ==> self.forward_pointer == UNIT
    }

    /// Wraps `value` with an empty memo.
    pub fn new(value: T) -> (r: Self)
        ensures
            r.wf(),
            r.value() == value,
            r.slot() is None,
    {
        OcamlValueCache { forward_pointer: UNIT, generation: INVALID_GENERATION, value }
    }

    /// The handle memoized for `generation`, if the memo was filled in it.
    pub fn get_in_generation(&self, generation: usize) -> (r: Option<usize>)
        requires
            self.wf(),
        ensures
            r == lookup(self.slot(), generation),
    {
        if generation != INVALID_GENERATION && generation == self.generation {
            Some(self.forward_pointer)
        } else {
            None
        }
    }

    /// Memoizes `value` as the handle produced in `generation`.
    pub fn set(&mut self, value: usize, generation: usize)
        requires
            old(self).wf(),
            generation != INVALID_GENERATION,
        ensures
            final(self).wf(),
            final(self).value() == old(self).value(),
            final(self).slot() == Some((generation, value)),
    {
        self.forward_pointer = value;
        self.generation = generation;
    }

    /// Empties the memo.
    pub fn clear(&mut self)
        ensures
            final(self).wf(),
            final(self).value() == old(self).value(),
            final(self).slot() is None,
    {
        self.forward_pointer = UNIT;
        self.generation = INVALID_GENERATION;
    }

    /// A copy of the payload with an empty memo: a handle belongs to the value
    /// it was made from, not to its copies.
    pub fn clone(&self) -> (r: Self) where T: Clone
        ensures
            r.wf(),
            cloned(self.value(), r.value()),
            r.slot() is None,
    {
        OcamlValueCache::new(self.value.clone())
    }

    /// Read access to the payload.
    pub fn value_ref(&self) -> (r: &T)
        ensures
            *r == self.value(),
    {
        &self.value
    }

    /// Write access to the payload; the memo stays as it is.
    pub fn value_mut(&mut self) -> (r: &mut T)
        ensures
            *r == old(self).value(),
            final(self).value() == *final(r),
            final(self).slot() == old(self).slot(),
            final(self).wf() == old(self).wf(),
    {
        &mut self.value
    }
}

} // verus!
