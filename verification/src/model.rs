//! The mathematical model of an arena: what it holds, and how each operation
//! changes it.
//!
//! The executable types state their contracts over [`ArenaState`] and its
//! transitions.

use vstd::prelude::*;

verus! {

/// Bytes that the capacity-pressure flag adds to the bytes in use: the size of
/// the arena's own record (capacity, base, top and length, a word of 64 bits
/// each).
pub const BOOKKEEPING_BYTES: usize = 32;

/// What an arena holds at one moment.
#[verifier::ext_equal]
pub struct ArenaState {
    /// Bytes reserved at creation; it never changes.
    pub capacity: nat,
    /// The buffers frozen so far, oldest first.
    pub frozen: Seq<Seq<u8>>,
    /// The buffer in progress: the bytes written since the last freeze.
    pub building: Seq<u8>,
}

/// The sum of the lengths of `buffers`.
pub open spec fn total_len(buffers: Seq<Seq<u8>>) -> nat
    decreases buffers.len(),
{
    if buffers.len() == 0 {
        0
    } else {
        total_len(buffers.drop_last()) + buffers.last().len()
    }
}

/// One more buffer adds its length to the sum.
pub proof fn lemma_total_len_push(buffers: Seq<Seq<u8>>, last: Seq<u8>)
    ensures
        total_len(buffers.push(last)) == total_len(buffers) + last.len(),
{
    assert(buffers.push(last).drop_last() == buffers);
}

impl ArenaState {
    /// A fresh arena of `capacity` bytes: nothing frozen, nothing in progress.
    pub open spec fn empty(capacity: nat) -> ArenaState {
        ArenaState { capacity, frozen: Seq::empty(), building: Seq::empty() }
    }

    /// Bytes committed by the freezes so far.
    pub open spec fn committed(self) -> nat {
        total_len(self.frozen)
    }

    /// Bytes in use: the committed ones and the buffer in progress.
    pub open spec fn used(self) -> nat {
        self.committed() + self.building.len()
    }

    /// Bytes that can still be appended.
    pub open spec fn spare(self) -> int {
        self.capacity - self.used()
    }

    /// The bytes in use fit in the reservation.
    pub open spec fn fits(self) -> bool {
        self.used() <= self.capacity
    }

    /// More than half of the reservation is taken, counting the bookkeeping
    /// overhead.
    pub open spec fn near_capacity(self) -> bool {
        self.used() + BOOKKEEPING_BYTES > self.capacity / 2
    }

    /// `bytes` appended to the buffer in progress.
    pub open spec fn append(self, bytes: Seq<u8>) -> ArenaState {
        ArenaState { building: self.building + bytes, ..self }
    }

    /// The bytes at `[start, end)` of the buffer in progress, as they are now,
    /// appended to it.
    pub open spec fn append_within(self, start: int, end: int) -> ArenaState {
        self.append(self.building.subrange(start, end))
    }

    /// The byte that `pop` hands out: the last one, or none from an empty
    /// buffer.
    pub open spec fn last_byte(self) -> Option<u8> {
        if self.building.len() == 0 {
            None
        } else {
            Some(self.building.last())
        }
    }

    /// The last byte removed; an empty buffer stays as it is.
    pub open spec fn pop(self) -> ArenaState {
        if self.building.len() == 0 {
            self
        } else {
            ArenaState { building: self.building.drop_last(), ..self }
        }
    }

    /// The buffer in progress cut to its first `len` bytes; a `len` beyond its
    /// length changes nothing.
    pub open spec fn truncate(self, len: nat) -> ArenaState {
        if len <= self.building.len() {
            ArenaState { building: self.building.take(len as int), ..self }
        } else {
            self
        }
    }

    /// The buffer in progress overwritten in place by `bytes`.
    pub open spec fn rewrite(self, bytes: Seq<u8>) -> ArenaState {
        ArenaState { building: bytes, ..self }
    }

    /// The buffer in progress committed: it becomes the newest frozen buffer,
    /// and a new, empty one begins.
    pub open spec fn freeze(self) -> ArenaState {
        ArenaState {
            frozen: self.frozen.push(self.building),
            building: Seq::empty(),
            ..self
        }
    }
}

} // verus!
