//! Byte ledger of a growable GPU buffer.
//!
//! A GPU buffer is filled by appending whole records and patched in place
//! at record offsets. The ledger decides where each write lands and how
//! large the device buffer must be; the caller performs the writes.

use vstd::prelude::*;

verus! {

/// Copies into GPU buffers must start and end on multiples of this many bytes.
pub const COPY_ALIGNMENT: u64 = 4;

/// `len` rounded up to the next multiple of [`COPY_ALIGNMENT`].
pub open spec fn padded(len: int) -> int {
    (len + 3) / 4 * 4
}

/// Where an append lands and whether the device buffer had to grow for it.
#[derive(Clone, Copy, Debug, PartialEq, Eq, Structural)]
pub struct AppendPlan {
    /// Byte offset at which the appended bytes are written.
    pub offset: u64,
    /// Number of bytes reserved for them (the length padded to the alignment).
    pub padded_len: u64,
    /// Whether the capacity grew; the caller then moves the first `offset`
    /// bytes into a new device buffer of the new capacity.
    pub grew: bool,
}

/// Bytes used and bytes allocated in one GPU buffer.
pub struct BufferLedger {
    bytes_used: u64,
    capacity: u64,
    last_append: AppendPlan,
}

impl BufferLedger {
    #[verifier::type_invariant]
    spec fn inv(self) -> bool {
        &&& self.bytes_used <= self.capacity
        &&& self.bytes_used % COPY_ALIGNMENT == 0
    }

    /// Bytes written so far.
    pub closed spec fn used(self) -> nat {
        self.bytes_used as nat
    }

    /// Bytes allocated in the device buffer.
    pub closed spec fn cap(self) -> nat {
        self.capacity as nat
    }

    /// The plan of the most recent append.
    pub closed spec fn last(self) -> AppendPlan {
        self.last_append
    }

    /// The byte counts of a ledger fit in a `u64`.
    pub proof fn lemma_fits_u64(self)
        ensures
            self.used() <= u64::MAX,
            self.cap() <= u64::MAX,
    {
    }

    /// What an append of `len` bytes to a ledger with `used` bytes used and
    /// `cap` bytes allocated does: it lands at `used`, reserves the padded
    /// length, and, when the bytes needed exceed the allocation, grows it to
    /// twice its size, or to the bytes needed where doubling would not hold
    /// them or would not fit in a `u64`.
    pub open spec fn spec_append(used: nat, cap: nat, len: nat) -> (nat, nat, AppendPlan) {
        let needed = used + padded(len as int);
        let grew = needed > cap;
        let new_cap: int = if !grew { cap as int } else if needed <= 2 * cap <= u64::MAX { (2 * cap) as int } else { needed };
        (needed as nat, new_cap as nat, AppendPlan { offset: used as u64, padded_len: padded(len as int) as u64, grew })
    }

    /// An empty ledger with nothing allocated.
    pub fn new() -> (r: BufferLedger)
        ensures
            r.used() == 0,
            r.cap() == 0,
            r.last() == (AppendPlan { offset: 0, padded_len: 0, grew: false }),
    {
        BufferLedger { bytes_used: 0, capacity: 0, last_append: AppendPlan { offset: 0, padded_len: 0, grew: false } }
    }

    /// Bytes written so far.
    pub fn bytes_used(&self) -> (r: u64)
        ensures
            r == self.used(),
            r <= self.cap(),
            r % COPY_ALIGNMENT == 0,
    {
        proof {
            use_type_invariant(self);
        }
        self.bytes_used
    }

    /// Bytes allocated in the device buffer.
    pub fn capacity(&self) -> (r: u64)
        ensures
            r == self.cap(),
    {
        self.capacity
    }

    /// The plan of the most recent append.
    pub fn last_append(&self) -> (r: AppendPlan)
        ensures
            r == self.last(),
    {
        self.last_append
    }

    /// Reserves room for `len` more bytes at the end of the used region.
    pub fn append(&mut self, len: u64) -> (plan: AppendPlan)
        requires
            old(self).used() + padded(len as int) <= u64::MAX,
        ensures
            ({
                let (u, c, p) = Self::spec_append(old(self).used(), old(self).cap(), len as nat);
                &&& final(self).used() == u
                &&& final(self).cap() == c
                &&& plan == p
                &&& final(self).last() == p
            }),
    {
        proof {
            use_type_invariant(&*self);
        }
        let pad: u64 = (len / 4 + if len % 4 == 0 { 0 } else { 1 }) * 4;
        assert(pad == padded(len as int));
        let offset: u64 = self.bytes_used;
        let needed: u64 = offset + pad;
        let grew: bool = needed > self.capacity;
        let new_cap: u64 = if !grew {
            self.capacity
        } else if self.capacity <= u64::MAX / 2 && 2 * self.capacity >= needed {
            2 * self.capacity
        } else {
            needed
        };
        let plan = AppendPlan { offset, padded_len: pad, grew };
        *self = BufferLedger { bytes_used: needed, capacity: new_cap, last_append: plan };
        plan
    }

    /// Checks an in-place write of `len` bytes at `offset`: it must start on
    /// the copy alignment and its padded length must stay inside the used
    /// region. Returns the padded length when it does.
    pub fn update_aligned(&self, offset: u64, len: u64) -> (r: Option<u64>)
        ensures
            r == (if offset % COPY_ALIGNMENT == 0 && offset + padded(len as int) <= self.used() {
                Some(padded(len as int) as u64)
            } else {
                None::<u64>
            }),
    {
        proof {
            use_type_invariant(self);
        }
        if offset % COPY_ALIGNMENT == 0 && offset <= self.bytes_used && len <= self.bytes_used - offset {
            // The room left is a multiple of the alignment, so it holds the
            // padded length exactly when it holds the length.
            let pad: u64 = (len / 4 + if len % 4 == 0 { 0 } else { 1 }) * 4;
            assert(pad == padded(len as int));
            Some(pad)
        } else {
            None
        }
    }
}

} // verus!

verus! {

/// An append on a ledger whose allocation covers its used bytes lands right
/// at the end of the used bytes, the used bytes then end right after the
/// reserved room, the allocation still covers them and never shrinks, and
/// the device buffer is replaced exactly when the allocation changes.
pub proof fn lemma_append_fits(used: nat, cap: nat, len: nat)
    requires
        used <= cap,
        cap <= u64::MAX,
        used + padded(len as int) <= u64::MAX,
    ensures
        ({
            let (u, c, p) = BufferLedger::spec_append(used, cap, len);
            &&& p.offset == used
            &&& p.padded_len >= len
            &&& p.padded_len % COPY_ALIGNMENT == 0
            &&& p.offset + p.padded_len == u
            &&& u <= c
            &&& cap <= c
            &&& p.grew <==> c != cap
        }),
{
}

} // verus!
