//! The arena itself: the owner of a reservation.

use crate::arena::BumpAllocRef;
use crate::model::ArenaState;
use vstd::arithmetic::power2::{lemma2_to64, pow2};
use vstd::bits::lemma_usize_shl_is_mul;
use vstd::prelude::*;

verus! {

/// Address bits of the default reservation: 2^32 bytes, about 4 GiB.
pub const DEFAULT_ADDRESS_BITS: u8 = 32;

/// A reservation of zeroed memory from which buffers are carved.
///
/// The memory comes zeroed from the allocator, which backs a large
/// reservation page by page, as each is first touched. Where the reservation
/// cannot be had, the allocator ends the process. The memory goes back when
/// the arena is dropped, and no handle or frozen slice outlives it.
pub struct BumpAlloc {
    /// Bytes reserved.
    address_space: usize,
    /// The reserved bytes.
    data: Vec<u8>,
}

/// The bytes that a reservation of `bits` address bits holds: 2^bits.
pub fn reservation_size(bits: u8) -> (size: usize)
    requires
        bits < usize::BITS,
    ensures
        size == pow2(bits as nat),
{
    proof {
        vstd::bits::lemma_usize_pow2_no_overflow(bits as nat);
        lemma_usize_shl_is_mul(1, bits as usize);
    }
    1usize << (bits as usize)
}

impl BumpAlloc {
    /// Bytes reserved.
    pub closed spec fn capacity(&self) -> nat {
        self.address_space as nat
    }

    /// An arena of the default size, 2^32 bytes. A machine with addresses of
    /// 32 bits cannot hold it: there an arena is made with an explicit size.
    pub fn new() -> (arena: Self)
        requires
            DEFAULT_ADDRESS_BITS < usize::BITS - 1,
        ensures
            arena.capacity() == pow2(DEFAULT_ADDRESS_BITS as nat),
            arena.capacity() == 0x1_0000_0000,
    {
        proof {
            lemma2_to64();
        }
        Self::new_with_address_space(DEFAULT_ADDRESS_BITS)
    }

    /// An arena of 2^`bits` bytes, as many as can be allocated at once: less
    /// than half of what the machine can address.
    pub fn new_with_address_space(bits: u8) -> (arena: Self)
        requires
            bits < usize::BITS - 1,
        ensures
            arena.capacity() == pow2(bits as nat),
    {
        let address_space: usize = reservation_size(bits);
        BumpAlloc { address_space, data: vec![0u8; address_space] }
    }

    /// The handle on the arena. It borrows the arena for `'data`, and so do
    /// the slices that it freezes: none of them outlives the reservation. The
    /// handle begins with an empty arena over all of it: whatever an earlier
    /// handle froze is gone with that handle.
    pub fn to_ref<'data>(&'data mut self) -> (handle: BumpAllocRef<'data>)
        ensures
            handle.wf(),
            handle@ == ArenaState::empty(old(self).capacity()),
            final(self).capacity() == old(self).capacity(),
    {
        // The region has the reserved size already, and this changes nothing:
        // slices that were lent out come back as long as they were.
        self.data.resize(self.address_space, 0);
        BumpAllocRef::over(self.data.as_mut_slice())
    }
}

} // verus!
