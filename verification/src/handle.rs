//! Handle lifecycle management.
//!
//! Every engine object that crosses the boundary lives in a slot of a
//! [`HandleTable`], and the caller holds only the slot's index.  A handle
//! is *live* while its slot is occupied.  Read-only operations borrow the
//! slot; mutating operations take the object out and put it back; the free
//! operation takes it out for good, after which the handle stays dead:
//! every later operation on it reports failure instead of touching memory.

use vstd::prelude::*;

verus! {

/// A table of heap-resident objects addressed by small integer handles.
pub struct HandleTable<T> {
    slots: Vec<Option<T>>,
}

impl<T> HandleTable<T> {
    /// The table's slots: `Some` for a live handle, `None` for a dead one.
    pub closed spec fn view(&self) -> Seq<Option<T>> {
        self.slots@
    }

    /// Whether `h` currently refers to an object.
    pub open spec fn live(&self, h: usize) -> bool {
        h < self@.len() && self@[h as int] is Some
    }

    /// A fresh table with no handles.
    pub fn new() -> (r: HandleTable<T>)
        ensures
            r@ == Seq::<Option<T>>::empty(),
    {
        HandleTable { slots: Vec::new() }
    }

    /// Stores `v` in a fresh slot and returns its handle.
    ///
    /// The new handle was not live before the call; every handle that was
    /// live before stays live with its object unchanged.
    pub fn insert(&mut self, v: T) -> (h: usize)
        ensures
            h == old(self)@.len(),
            !old(self).live(h),
            final(self)@ == old(self)@.push(Some(v)),
            final(self).live(h),
    {
        let h = self.slots.len();
        self.slots.push(Some(v));
        h
    }

    /// Borrows the object behind a live handle; yields nothing for a dead
    /// or out-of-range one.
    pub fn get(&self, h: usize) -> (r: Option<&T>)
        ensures
            match r {
                Some(v) => self.live(h) && self@[h as int] == Some(*v),
                None => !self.live(h),
            },
    {
        if h < self.slots.len() {
            match &self.slots[h] {
                Some(v) => Some(v),
                None => None,
            }
        } else {
            None
        }
    }

    /// Takes the object out of a live slot, leaving the handle dead until
    /// the object is put back with `restore`.
    pub fn take(&mut self, h: usize) -> (r: Option<T>)
        ensures
            match r {
                Some(v) => old(self).live(h) && old(self)@[h as int] == Some(v) && final(self)@
                    == old(self)@.update(h as int, None::<T>),
                None => !old(self).live(h) && final(self)@ == old(self)@,
            },
            !final(self).live(h),
    {
        if h < self.slots.len() {
            let r = self.slots[h].take();
            proof {
                if r is None {
                    assert(self@ =~= old(self)@);
                }
            }
            r
        } else {
            None
        }
    }

    /// Puts an object back into the slot it was taken from.
    pub fn restore(&mut self, h: usize, v: T)
        requires
            h < old(self)@.len(),
            old(self)@[h as int] is None,
        ensures
            final(self)@ == old(self)@.update(h as int, Some(v)),
            final(self).live(h),
    {
        self.slots[h] = Some(v);
    }

    /// Frees the handle: drops the object, if the handle was live, and
    /// reports whether anything was there to drop.
    pub fn free(&mut self, h: usize) -> (freed: bool)
        ensures
            freed == old(self).live(h),
            old(self).live(h) ==> final(self)@ == old(self)@.update(h as int, None::<T>),
            !old(self).live(h) ==> final(self)@ == old(self)@,
            !final(self).live(h),
    {
        match self.take(h) {
            Some(_) => true,
            None => false,
        }
    }
}

/// What one call of `free(h)` does to a table, stated over the views.
pub open spec fn free_step<T>(
    pre: Seq<Option<T>>,
    post: Seq<Option<T>>,
    h: usize,
    freed: bool,
) -> bool {
    &&& freed == (h < pre.len() && pre[h as int] is Some)
    &&& post == if freed {
        pre.update(h as int, None::<T>)
    } else {
        pre
    }
}

/// Freeing a live handle exactly once removes its object and leaves the
/// handle unusable: the free reports success, the slot is empty afterward,
/// and a second free of the same handle finds nothing and changes nothing.
pub proof fn lemma_free_exactly_once<T>(
    pre: Seq<Option<T>>,
    mid: Seq<Option<T>>,
    end: Seq<Option<T>>,
    h: usize,
    freed1: bool,
    freed2: bool,
)
    requires
        h < pre.len() && pre[h as int] is Some,
        free_step(pre, mid, h, freed1),
        free_step(mid, end, h, freed2),
    ensures
        freed1,
        mid[h as int] is None,
        !freed2,
        end == mid,
{
}

} // verus!
