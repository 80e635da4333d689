//! The reusable byte buffer of one relay task.
//!
//! A buffer is allocated once, with the configured size, and then lent out
//! again and again: whole, to be filled by a read, and in part, to be drained
//! by a write. It is owned by exactly one relay task and never shared.

use vstd::prelude::*;

verus! {

/// A zero-initialised byte region of fixed size.
pub struct Buffer {
    bytes: Vec<u8>,
}

impl View for Buffer {
    type V = Seq<u8>;

    closed spec fn view(&self) -> Seq<u8> {
        self.bytes@
    }
}

/// The contents of a freshly allocated buffer of `size` bytes.
pub open spec fn zeroed(size: nat) -> Seq<u8> {
    Seq::new(size, |i: int| 0u8)
}

impl Buffer {
    /// Allocates a buffer of `size` zero bytes.
    pub fn new(size: usize) -> (buffer: Buffer)
        ensures
            buffer@ == zeroed(size as nat),
    {
        let bytes = vec![0u8; size];
        assert(bytes@ =~= zeroed(size as nat));
        Buffer { bytes }
    }

    /// The number of bytes the buffer holds.
    pub fn capacity(&self) -> (n: usize)
        ensures
            n == self@.len(),
    {
        self.bytes.len()
    }

    /// Lends the whole buffer out for writing. Whatever the borrower leaves in
    /// the slice is the buffer's contents afterwards.
    pub fn as_mut_slice(&mut self) -> (slice: &mut [u8])
        ensures
            slice@ == old(self)@,
            final(self)@ == final(slice)@,
    {
        self.bytes.as_mut_slice()
    }

    /// Lends out the bytes from `start` up to, not including, `end`.
    pub fn window(&self, start: usize, end: usize) -> (slice: &[u8])
        requires
            start <= end <= self@.len(),
        ensures
            slice@ == self@.subrange(start as int, end as int),
    {
        vstd::slice::slice_subrange(self.bytes.as_slice(), start, end)
    }
}

} // verus!
