//! Capacity accounting for device-resident buffers.
//!
//! The device itself (buffer creation, reservation, invalidation) is an
//! external executor; this module owns the capacity policy: how many bytes a
//! buffer reserves, when it grows, when storage shrinks, and when contents
//! are merely invalidated. Each method returns the decision the caller must
//! carry out on the device.

use vstd::prelude::*;

verus! {

/// Largest byte capacity a caller may request. Keeps the growth arithmetic
/// (1.5x plus alignment padding) within `usize` on every target.
pub const MAX_BYTE_CAPACITY: usize = 0x4000_0000;

/// Round `n` up to the next multiple of 16; dynamic-buffer reservations are
/// made in 16-byte granules.
pub open spec fn spec_mult_16(n: int) -> int {
    ((n + 15) / 16) * 16
}

/// Round `n` up to the next multiple of 64; storage-buffer reservations are
/// made in 64-byte granules.
pub open spec fn spec_mult_64(n: int) -> int {
    ((n + 63) / 64) * 64
}

/// Round `n` up to the next multiple of 64.
pub fn make_mult_64_usize(n: usize) -> (r: usize)
    requires
        n + 63 <= usize::MAX,
    ensures
        r == spec_mult_64(n as int),
        n <= r < n + 64,
        r % 64 == 0,
{
    proof {
        lemma_round_up(n as int, 64);
    }
    ((n + 63) / 64) * 64
}

/// Round `n` up to the next multiple of 16.
fn make_mult_16_usize(n: usize) -> (r: usize)
    requires
        n + 15 <= usize::MAX,
    ensures
        r == spec_mult_16(n as int),
        n <= r < n + 16,
        r % 16 == 0,
{
    proof {
        lemma_round_up(n as int, 16);
    }
    ((n + 15) / 16) * 16
}

/// `((n + a - 1) / a) * a` is the least multiple of `a` at or above `n`.
proof fn lemma_round_up(n: int, a: int)
    requires
        n >= 0,
        a >= 1,
    ensures
        n <= ((n + a - 1) / a) * a < n + a,
        (((n + a - 1) / a) * a) % a == 0,
{
    let q = (n + a - 1) / a;
    vstd::arithmetic::div_mod::lemma_fundamental_div_mod(n + a - 1, a);
    vstd::arithmetic::div_mod::lemma_mod_bound(n + a - 1, a);
    assert(q * a == n + a - 1 - (n + a - 1) % a);
    vstd::arithmetic::div_mod::lemma_mod_multiples_basic(q, a);
}

/// How a buffer's contents are used, as handed to the device at reservation
/// time. The values are the device API's usage codes.
pub trait Variant {
    /// The device usage code this marker stands for.
    spec fn spec_value() -> u32;

    /// Returns the device usage code.
    fn value() -> (r: u32)
        ensures
            r == Self::spec_value(),
    ;
}

/// Contents written once and drawn many times.
pub struct Static;

/// Contents rewritten repeatedly and drawn many times.
pub struct Dynamic;

/// Contents rewritten for nearly every use.
pub struct Stream;

impl Variant for Static {
    open spec fn spec_value() -> u32 {
        0x88E4
    }

    fn value() -> (r: u32) {
        0x88E4
    }
}

impl Variant for Dynamic {
    open spec fn spec_value() -> u32 {
        0x88E8
    }

    fn value() -> (r: u32) {
        0x88E8
    }
}

impl Variant for Stream {
    open spec fn spec_value() -> u32 {
        0x88E0
    }

    fn value() -> (r: u32) {
        0x88E0
    }
}

/// Capacity ledger of a general dynamic device buffer.
///
/// The byte capacity only ever grows; writing more bytes than the current
/// capacity is a caller error, never an in-band condition. Growth reserves
/// `max(requested, old + old / 2)` bytes, rounded up to a 16-byte multiple.
pub struct Buffer<U> {
    byte_capacity: usize,
    usage: core::marker::PhantomData<U>,
}

/// A buffer for data rewritten repeatedly.
pub type DynamicBuffer = Buffer<Dynamic>;

/// A buffer for data written once.
pub type StaticBuffer = Buffer<Static>;

/// A buffer for data rewritten on nearly every use.
pub type StreamBuffer = Buffer<Stream>;

impl<U> Buffer<U> {
    /// Capacities stay 16-aligned and low enough that one more growth step
    /// cannot overflow.
    #[verifier::type_invariant]
    spec fn capacity_wf(self) -> bool {
        self.byte_capacity as int
            <= MAX_BYTE_CAPACITY as int + MAX_BYTE_CAPACITY as int / 2 + 16
    }

    /// Spec-level byte capacity.
    pub closed spec fn spec_byte_capacity(&self) -> int {
        self.byte_capacity as int
    }

    /// A fresh buffer reserves nothing.
    pub fn new() -> (r: Buffer<U>)
        ensures
            r.spec_byte_capacity() == 0,
    {
        Buffer { byte_capacity: 0, usage: core::marker::PhantomData }
    }

    /// The number of bytes currently reserved on the device.
    pub fn byte_capacity(&self) -> (r: usize)
        ensures
            r == self.spec_byte_capacity(),
    {
        self.byte_capacity
    }

    /// Whether the device should discard the buffer's contents: there is
    /// nothing to discard while nothing is reserved.
    pub fn invalidate(&self) -> (r: bool)
        ensures
            r == (self.spec_byte_capacity() > 0),
    {
        self.byte_capacity > 0
    }

    /// Grow-only capacity policy. Returns `None` when the request is already
    /// covered, and `Some(n)` when the device must reserve `n` fresh bytes:
    /// the requested size or one-and-a-half times the old capacity, whichever
    /// is larger, rounded up to a 16-byte multiple.
    pub fn ensure_capacity(&mut self, byte_capacity: usize) -> (r: Option<usize>)
        requires
            byte_capacity <= MAX_BYTE_CAPACITY,
        ensures
            final(self).spec_byte_capacity() >= old(self).spec_byte_capacity(),
            final(self).spec_byte_capacity() >= byte_capacity,
            old(self).spec_byte_capacity() >= byte_capacity ==> {
                &&& final(self).spec_byte_capacity() == old(self).spec_byte_capacity()
                &&& r is None
            },
            old(self).spec_byte_capacity() < byte_capacity ==> {
                let grown = old(self).spec_byte_capacity() + old(self).spec_byte_capacity() / 2;
                let target = if (byte_capacity as int) < grown {
                    grown
                } else {
                    byte_capacity as int
                };
                &&& final(self).spec_byte_capacity() == spec_mult_16(target)
                &&& final(self).spec_byte_capacity() >= grown
                &&& r matches Some(n) && n == final(self).spec_byte_capacity()
            },
    {
        proof {
            use_type_invariant(&*self);
        }
        if self.byte_capacity >= byte_capacity {
            return None;
        }

        let mut requested = byte_capacity;
        if requested < self.byte_capacity + self.byte_capacity / 2 {
            requested = self.byte_capacity + self.byte_capacity / 2;
        }

        let new_capacity = make_mult_16_usize(requested);
        self.byte_capacity = new_capacity;
        Some(new_capacity)
    }
}

/// The creation flags a storage-buffer kind reserves its storage with. The
/// values are the device API's storage flag bits.
pub trait StorageBufferKind {
    /// The device storage flags this kind stands for.
    spec fn spec_create_flags() -> u32;

    /// Returns the device storage flags.
    fn create_flags() -> (r: u32)
        ensures
            r == Self::spec_create_flags(),
    ;
}

/// Write-only storage: host writes, shaders read.
pub struct StorageBufferKindWO;

impl StorageBufferKind for StorageBufferKindWO {
    open spec fn spec_create_flags() -> u32 {
        0x0102
    }

    fn create_flags() -> (r: u32) {
        0x0102
    }
}

/// What the device must do after a storage buffer reconciled its capacity
/// against a requested size.
#[derive(PartialEq, Eq, Structural, Debug, Clone, Copy)]
pub enum StorageReconcileAction {
    /// The reservation is kept as is; when `invalidate` is set the buffer
    /// holds storage and its stale contents must be discarded.
    Keep { invalidate: bool },
    /// The storage is reallocated, destroying the old contents: when
    /// `recreate` is set the old allocation existed and must be destroyed
    /// first; when `reserve` is positive, that many fresh bytes are reserved.
    Resize { recreate: bool, reserve: usize },
}

/// Capacity ledger of a device-resident storage buffer with fixed creation
/// flags.
///
/// Unlike [`Buffer`], the reservation can shrink: a request well under the
/// current capacity reallocates at the requested size, while a request the
/// current capacity covers merely discards the stale contents.
pub struct StorageBuffer<K> {
    capacity: usize,
    kind: core::marker::PhantomData<K>,
}

/// A write-only storage buffer.
pub type StorageBufferWO = StorageBuffer<StorageBufferKindWO>;

impl<K> StorageBuffer<K> {
    /// Capacities stay low enough that one more growth step cannot overflow.
    #[verifier::type_invariant]
    spec fn capacity_wf(self) -> bool {
        self.capacity as int
            <= MAX_BYTE_CAPACITY as int + MAX_BYTE_CAPACITY as int / 2 + 64
    }

    /// Spec-level byte capacity.
    pub closed spec fn spec_capacity(&self) -> int {
        self.capacity as int
    }

    /// A fresh storage buffer reserves nothing.
    pub fn new() -> (r: StorageBuffer<K>)
        ensures
            r.spec_capacity() == 0,
    {
        StorageBuffer { capacity: 0, kind: core::marker::PhantomData }
    }

    /// The number of bytes currently reserved on the device.
    pub fn capacity(&self) -> (r: usize)
        ensures
            r == self.spec_capacity(),
    {
        self.capacity
    }

    /// Grow-or-shrink capacity policy; any resize destroys the old contents.
    ///
    /// A request above the current capacity grows it to `max(requested,
    /// old + old / 2)`; a request whose one-and-a-half-fold still falls under
    /// the current capacity shrinks it to the requested size; anything in
    /// between keeps the reservation and only discards its contents. All
    /// reservations are rounded up to a 64-byte multiple.
    pub fn reconcile(&mut self, capacity: usize) -> (r: StorageReconcileAction)
        requires
            capacity <= MAX_BYTE_CAPACITY,
        ensures
            old(self).spec_capacity() < capacity ==> {
                let grown = old(self).spec_capacity() + old(self).spec_capacity() / 2;
                let target = if (capacity as int) < grown {
                    grown
                } else {
                    capacity as int
                };
                &&& final(self).spec_capacity() == spec_mult_64(target)
                &&& final(self).spec_capacity() >= capacity
                &&& r matches StorageReconcileAction::Resize { recreate, reserve }
                    && recreate == (old(self).spec_capacity() > 0)
                    && reserve == final(self).spec_capacity()
            },
            capacity <= old(self).spec_capacity()
                && capacity + capacity / 2 < old(self).spec_capacity() ==> {
                &&& final(self).spec_capacity() == spec_mult_64(capacity as int)
                &&& r matches StorageReconcileAction::Resize { recreate, reserve }
                    && recreate
                    && reserve == final(self).spec_capacity()
            },
            capacity <= old(self).spec_capacity()
                && capacity + capacity / 2 >= old(self).spec_capacity() ==> {
                &&& *final(self) == *old(self)
                &&& r matches StorageReconcileAction::Keep { invalidate }
                    && invalidate == (old(self).spec_capacity() > 0)
            },
    {
        proof {
            use_type_invariant(&*self);
        }
        let target: usize = if capacity > self.capacity {
            let mut requested = capacity;
            if requested < self.capacity + self.capacity / 2 {
                requested = self.capacity + self.capacity / 2;
            }
            requested
        } else if capacity + capacity / 2 < self.capacity {
            capacity
        } else {
            return StorageReconcileAction::Keep { invalidate: self.capacity > 0 };
        };

        let new_capacity = make_mult_64_usize(target);
        let recreate = self.capacity > 0;
        self.capacity = new_capacity;
        StorageReconcileAction::Resize { recreate, reserve: new_capacity }
    }
}

} // verus!
