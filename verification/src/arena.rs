//! The handle that guards a reservation, and the view through which the
//! buffer in progress is built and frozen.

use crate::model::{lemma_total_len_push, total_len, ArenaState, BOOKKEEPING_BYTES};
use core::ops::Range;
use vstd::prelude::*;
use vstd::slice::slice_subrange;
use vstd::std_specs::iter::IteratorSpec;

verus! {

/// Exclusive access to an arena for the lifetime `'data` of its reservation.
///
/// The handle keeps the part of the reservation that is not frozen yet. A
/// freeze cuts the buffer in progress off its front and hands it out as a
/// slice that lives as long as the reservation does.
pub struct BumpAllocRef<'data> {
    /// Bytes reserved.
    address_space: usize,
    /// The reservation from the top on: the buffer in progress, then the
    /// bytes never written.
    tail: &'data mut [u8],
    /// Bytes frozen so far: the distance from the base to the top.
    committed: usize,
    /// Length of the buffer in progress.
    top_size: usize,
    /// The buffers frozen so far, as they were when frozen.
    frozen: Ghost<Seq<Seq<u8>>>,
}

impl<'data> BumpAllocRef<'data> {
    /// What the arena holds.
    pub closed spec fn view(&self) -> ArenaState {
        ArenaState {
            capacity: self.address_space as nat,
            frozen: self.frozen@,
            building: self.tail@.take(self.top_size as int),
        }
    }

    /// The counters agree with the memory that the handle keeps.
    pub closed spec fn wf(&self) -> bool {
        &&& self.committed + self.tail@.len() == self.address_space
        &&& self.top_size <= self.tail@.len()
        &&& self.committed == total_len(self.frozen@)
    }

    /// A well-formed arena never holds more than its reservation, and its
    /// reservation can be addressed.
    pub proof fn lemma_wf_fits(&self)
        requires
            self.wf(),
        ensures
            self@.fits(),
            self@.capacity <= usize::MAX,
    {
    }

    /// A handle on `region` as a fresh arena: all of it is spare. The region
    /// is any memory that the caller holds for `'data`, such as address space
    /// reserved from the operating system.
    pub fn over(region: &'data mut [u8]) -> (handle: Self)
        ensures
            handle.wf(),
            handle@ == ArenaState::empty(old(region)@.len()),
    {
        let address_space: usize = region.len();
        BumpAllocRef {
            address_space,
            tail: region,
            committed: 0,
            top_size: 0,
            frozen: Ghost(Seq::empty()),
        }
    }

    /// The view on the buffer in progress. While it lives, the handle cannot
    /// be used, so there is never a second one.
    pub fn top<'alloc>(&'alloc mut self) -> (buffer: LiquidVecRef<'alloc, 'data>)
        ensures
            *buffer.alloc == *old(self),
            *final(self) == *final(buffer.alloc),
    {
        LiquidVecRef { alloc: self }
    }

    /// The bytes in use: those frozen over the arena's lifetime and the
    /// buffer in progress.
    pub fn data_size(&self) -> (size: usize)
        requires
            self.wf(),
        ensures
            size == self@.used(),
    {
        self.committed + self.top_size
    }

    /// Whether more than half of the reservation is taken: the sign to stop
    /// growing this arena.
    pub fn dangerous(&self) -> (flag: bool)
        requires
            self.wf(),
        ensures
            flag == self@.near_capacity(),
    {
        match self.data_size().checked_add(BOOKKEEPING_BYTES) {
            Some(taken) => taken > self.address_space / 2,
            None => true,
        }
    }
}

/// The buffer in progress of an arena, borrowed from its handle for `'alloc`.
///
/// It grows and shrinks like a vector of bytes. `freeze` ends it.
///
/// Every operation that changes the buffer promises three things: the handle
/// stays well formed, the arena makes the transition that the operation
/// stands for, and the view still ends on the same handle, so that what the
/// handle holds once the view is gone is what the view left there.
pub struct LiquidVecRef<'alloc, 'data> {
    /// The handle that the view was taken from. It is public for the
    /// contracts to speak of it; all that it guards is private to the handle.
    pub alloc: &'alloc mut BumpAllocRef<'data>,
}

impl<'alloc, 'data> LiquidVecRef<'alloc, 'data> {
    /// The bytes of the buffer in progress.
    pub open spec fn view(&self) -> Seq<u8> {
        self.alloc@.building
    }

    /// What the arena behind the view holds.
    pub open spec fn arena(&self) -> ArenaState {
        self.alloc@
    }

    /// The handle behind the view is well formed.
    pub open spec fn wf(&self) -> bool {
        self.alloc.wf()
    }

    /// Commits the buffer in progress and hands it out: a slice of exactly
    /// its bytes, which stays valid while the reservation does. The arena
    /// begins a new, empty buffer behind it.
    #[inline(always)]
    pub fn freeze(self) -> (bytes: &'data mut [u8])
        requires
            old(self.alloc).wf(),
        ensures
            bytes@ == old(self.alloc)@.building,
            final(self.alloc).wf(),
            final(self.alloc)@ == old(self.alloc)@.freeze(),
    {
        let a = self.alloc;
        let size: usize = a.top_size;
        let mut region: &'data mut [u8] = &mut [];
        core::mem::swap(&mut a.tail, &mut region);
        let (bytes, rest) = region.split_at_mut(size);
        a.tail = rest;
        a.committed = a.committed + size;
        a.top_size = 0;
        proof {
            lemma_total_len_push(a.frozen@, bytes@);
        }
        a.frozen = Ghost(a.frozen@.push(bytes@));
        bytes
    }

    /// Appends one byte.
    #[inline(always)]
    pub fn extend_one(&mut self, item: u8)
        requires
            old(self).wf(),
            old(self).arena().spare() >= 1,
        ensures
            final(self).wf(),
            final(self).arena() == old(self).arena().append(seq![item]),
            *final(final(self).alloc) == *final(old(self).alloc),
    {
        let at: usize = self.alloc.top_size;
        self.alloc.tail[at] = item;
        self.alloc.top_size = at + 1;
    }

    /// Appends the bytes of `items`, in order.
    #[inline(always)]
    pub fn extend_from_slice(&mut self, items: &[u8])
        requires
            old(self).wf(),
            old(self).arena().spare() >= items@.len(),
        ensures
            final(self).wf(),
            final(self).arena() == old(self).arena().append(items@),
            *final(final(self).alloc) == *final(old(self).alloc),
    {
        let at: usize = self.alloc.top_size;
        let count: usize = items.len();
        let (_, spare) = self.alloc.tail.split_at_mut(at);
        let (target, _) = spare.split_at_mut(count);
        copy_bytes(target, items);
        self.alloc.top_size = at + count;
    }

    /// Appends a copy of the bytes at `src` of the buffer as it is before the
    /// call. The copy is read from what precedes the extension, never from
    /// what the call itself writes.
    #[inline(always)]
    pub fn extend_from_within(&mut self, src: Range<usize>)
        requires
            old(self).wf(),
            src.start <= src.end <= old(self)@.len(),
            old(self).arena().spare() >= src.end - src.start,
        ensures
            final(self).wf(),
            final(self).arena() == old(self).arena().append_within(
                src.start as int,
                src.end as int,
            ),
            *final(final(self).alloc) == *final(old(self).alloc),
    {
        let at: usize = self.alloc.top_size;
        let count: usize = src.end - src.start;
        let (written, spare) = self.alloc.tail.split_at_mut(at);
        let (target, _) = spare.split_at_mut(count);
        let source = slice_subrange(written, src.start, src.end);
        copy_bytes(target, source);
        self.alloc.top_size = at + count;
    }

    /// Appends the bytes that `iter` yields, in order, until it ends. The
    /// iterator is one that is known to end.
    #[inline(always)]
    pub fn extend<I: Iterator<Item = u8>>(&mut self, iter: I)
        requires
            old(self).wf(),
            iter.obeys_prophetic_iter_laws(),
            iter.decrease() is Some,
            iter.remaining().len() <= old(self).arena().spare(),
        ensures
            final(self).wf(),
            final(self).arena() == old(self).arena().append(iter.remaining()),
            *final(final(self).alloc) == *final(old(self).alloc),
    {
        let mut iter = iter;
        let ghost all: Seq<u8> = iter.remaining();
        let ghost mut done: int = 0;
        loop
            invariant
                self.wf(),
                iter.obeys_prophetic_iter_laws(),
                iter.decrease() is Some,
                0 <= done <= all.len(),
                iter.remaining() == all.skip(done),
                all.len() <= old(self).arena().spare(),
                self.arena() == old(self).arena().append(all.take(done)),
                *final(self.alloc) == *final(old(self).alloc),
            ensures
                self.wf(),
                self.arena() == old(self).arena().append(all),
                *final(self.alloc) == *final(old(self).alloc),
            decreases iter.decrease()->0,
        {
            match iter.next() {
                Some(item) => {
                    assert(all.take(done + 1) == all.take(done) + seq![item]);
                    assert(all.skip(done).drop_first() == all.skip(done + 1));
                    self.extend_one(item);
                    proof {
                        done = done + 1;
                    }
                },
                None => {
                    assert(all.take(done) == all);
                    break ;
                },
            }
        }
    }

    /// Removes the last byte and returns it; on an empty buffer there is
    /// none, and nothing changes.
    #[inline(always)]
    pub fn pop(&mut self) -> (byte: Option<u8>)
        requires
            old(self).wf(),
        ensures
            byte == old(self).arena().last_byte(),
            final(self).wf(),
            final(self).arena() == old(self).arena().pop(),
            *final(final(self).alloc) == *final(old(self).alloc),
    {
        if self.alloc.top_size == 0 {
            None
        } else {
            let at: usize = self.alloc.top_size - 1;
            self.alloc.top_size = at;
            Some(self.alloc.tail[at])
        }
    }

    /// Cuts the buffer to its first `len` bytes. It never grows: a `len`
    /// beyond the length changes nothing.
    #[inline(always)]
    pub fn truncate(&mut self, len: usize)
        requires
            old(self).wf(),
        ensures
            final(self).wf(),
            final(self).arena() == old(self).arena().truncate(len as nat),
            *final(final(self).alloc) == *final(old(self).alloc),
    {
        if len > self.alloc.top_size {
            return ;
        }
        self.alloc.top_size = len;
    }

    /// Where the next bytes will be written, for a hint to the operating
    /// system that `additional` bytes are about to follow: the offset of the
    /// first unwritten byte from the base of the reservation, and the number
    /// of bytes. The hint itself is left to the caller; the arena is the same
    /// with or without it.
    #[inline(always)]
    pub fn extend_reserve(&self, additional: usize) -> (window: (usize, usize))
        requires
            self.wf(),
        ensures
            window.0 == self.arena().used(),
            window.1 == additional,
    {
        (self.alloc.data_size(), additional)
    }

    /// The bytes of the buffer in progress.
    #[inline(always)]
    pub fn deref(&self) -> (bytes: &[u8])
        requires
            self.wf(),
        ensures
            bytes@ == self@,
    {
        let (bytes, _) = self.alloc.tail.split_at(self.alloc.top_size);
        bytes
    }

    /// The bytes of the buffer in progress, to read and to overwrite in
    /// place: what the slice holds when the borrow ends is what the buffer
    /// holds.
    ///
    /// A slice keeps its length for as long as it is borrowed. The clauses on
    /// the state after the borrow are stated for that case, which is the only
    /// one there is.
    #[inline(always)]
    pub fn deref_mut(&mut self) -> (bytes: &mut [u8])
        requires
            old(self).wf(),
        ensures
            bytes@ == old(self)@,
            final(bytes)@.len() == bytes@.len() ==> {
                &&& final(self).wf()
                &&& final(self).arena() == old(self).arena().rewrite(final(bytes)@)
                &&& *final(final(self).alloc) == *final(old(self).alloc)
            },
    {
        let (bytes, _) = self.alloc.tail.split_at_mut(self.alloc.top_size);
        bytes
    }

    /// The byte at `index` of the buffer in progress.
    #[inline(always)]
    pub fn index(&self, index: usize) -> (byte: &u8)
        requires
            self.wf(),
            index < self@.len(),
        ensures
            *byte == self@[index as int],
    {
        &self.alloc.tail[index]
    }

    /// The byte at `index` of the buffer in progress, to read and to
    /// overwrite: what it holds when the borrow ends is what the buffer holds
    /// there.
    #[inline(always)]
    pub fn index_mut(&mut self, index: usize) -> (byte: &mut u8)
        requires
            old(self).wf(),
            index < old(self)@.len(),
        ensures
            *byte == old(self)@[index as int],
            final(self).wf(),
            final(self).arena() == old(self).arena().rewrite(
                old(self)@.update(index as int, *final(byte)),
            ),
            *final(final(self).alloc) == *final(old(self).alloc),
    {
        &mut self.alloc.tail[index]
    }

    /// The length of the buffer in progress.
    #[inline(always)]
    pub fn len(&self) -> (len: usize)
        requires
            self.wf(),
        ensures
            len == self@.len(),
    {
        self.alloc.top_size
    }
}

/// Overwrites `target` with the bytes of `source`, which has the same length.
fn copy_bytes(target: &mut [u8], source: &[u8])
    requires
        old(target)@.len() == source@.len(),
    ensures
        final(target)@ == source@,
{
    let count: usize = source.len();
    let mut i: usize = 0;
    while i < count
        invariant
            i <= count,
            count == source@.len(),
            target@.len() == count,
            target@.take(i as int) == source@.take(i as int),
        decreases count - i,
    {
        target[i] = source[i];
        i = i + 1;
    }
    assert(target@ == target@.take(count as int));
    assert(source@ == source@.take(count as int));
}

} // verus!
