//! Frame-scoped pooling of per-camera and per-cluster-configuration
//! resources.
//!
//! A pool is a fixed array of slots addressed by integer indices. `acquire`
//! hands out the next slot and returns a stable index that remains valid
//! until the next `reset`; iteration exposes only the currently occupied
//! slots, in ascending slot order. `reset` empties the pool but keeps the
//! underlying storage, so slots are reused from frame to frame rather than
//! freed.

use vstd::prelude::*;

verus! {

/// A fixed-capacity slot allocator whose entries live for a bounded span of
/// frames.
pub struct FramePool<T> {
    items: Vec<T>,
    used: usize,
}

impl<T> FramePool<T> {
    /// Well-formed pools never have more occupied slots than allocated
    /// storage. Every constructor establishes this and every method keeps it.
    pub closed spec fn wf(&self) -> bool {
        self.used <= self.items@.len()
    }

    /// The occupied slots, in ascending slot order.
    pub closed spec fn view(&self) -> Seq<T> {
        self.items@.take(self.used as int)
    }

    /// How many slots the pool has ever allocated; kept across `reset`.
    pub closed spec fn spec_storage_len(&self) -> int {
        self.items@.len() as int
    }

    /// An empty pool with no storage yet.
    pub fn new() -> (r: FramePool<T>)
        ensures
            r.wf(),
            r.view() == Seq::<T>::empty(),
            r.spec_storage_len() == 0,
    {
        let r = FramePool { items: Vec::new(), used: 0 };
        proof {
            assert(r.view() =~= Seq::<T>::empty());
        }
        r
    }

    /// The number of occupied slots.
    pub fn len(&self) -> (r: usize)
        requires
            self.wf(),
        ensures
            r == self.view().len(),
    {
        self.used
    }

    /// Stores `item` in the next slot and returns that slot's index, the
    /// handle under which the entry stays reachable until the next `reset`.
    /// Storage left over from an earlier frame is overwritten, not
    /// reallocated.
    pub fn acquire(&mut self, item: T) -> (ix: usize)
        requires
            old(self).wf(),
        ensures
            final(self).wf(),
            ix == old(self).view().len(),
            final(self).view() == old(self).view().push(item),
            final(self).spec_storage_len() >= old(self).spec_storage_len(),
    {
        let ix = self.used;
        if ix < self.items.len() {
            self.items.set(ix, item);
        } else {
            self.items.push(item);
        }
        let storage = self.items.len();
        assert(ix < storage);
        self.used = ix + 1;
        proof {
            assert(final(self).view() =~= old(self).view().push(item));
        }
        ix
    }

    /// The entry at an occupied slot.
    pub fn get(&self, ix: usize) -> (r: &T)
        requires
            self.wf(),
            ix < self.view().len(),
        ensures
            *r == self.view()[ix as int],
    {
        &self.items[ix]
    }

    /// The occupied slots, in ascending slot order.
    pub fn used_slice(&self) -> (r: &[T])
        requires
            self.wf(),
        ensures
            r@ == self.view(),
    {
        vstd::slice::slice_subrange(self.items.as_slice(), 0, self.used)
    }

    /// Empties the pool. The storage is kept for reuse; only the occupancy
    /// count falls back to zero.
    pub fn reset(&mut self)
        requires
            old(self).wf(),
        ensures
            final(self).wf(),
            final(self).view() == Seq::<T>::empty(),
            final(self).spec_storage_len() == old(self).spec_storage_len(),
    {
        self.used = 0;
        proof {
            assert(final(self).view() =~= Seq::<T>::empty());
        }
    }
}

/// Three values addressed round-robin: index `i` reaches slot `i mod 3`.
/// Used for resources cycled over a three-frame window.
#[derive(Debug, Copy, Clone, Eq, PartialEq, Structural)]
pub struct Ring3<T>([T; 3]);

impl<T> Ring3<T> {
    /// The three slots in order.
    pub closed spec fn view(&self) -> Seq<T> {
        self.0@
    }

    /// A ring of three values, slot by slot.
    pub fn new(items: [T; 3]) -> (r: Ring3<T>)
        ensures
            r.view() == items@,
    {
        Ring3(items)
    }

    /// The slot `ix` reaches, wrapping every three.
    pub fn index(&self, ix: usize) -> (r: &T)
        ensures
            *r == self.view()[ix as int % 3],
    {
        &self.0[ix % 3]
    }

    /// Replaces the slot `ix` reaches, wrapping every three.
    pub fn set(&mut self, ix: usize, value: T)
        ensures
            final(self).view() == old(self).view().update(ix as int % 3, value),
    {
        self.0[ix % 3] = value;
    }
}

} // verus!
