//! The metrics payload: an ordered sequence of bytes with no structure
//! imposed by this crate. `Buffer` is the sequential core; the lock that
//! shares one `Buffer` between threads lives in [`crate::server`].

use vstd::prelude::*;

verus! {

/// What one wholesale update leaves in the buffer: exactly the new payload.
/// The previous contents are discarded, never merged.
pub open spec fn spec_after_update(current: Seq<u8>, data: Seq<u8>) -> Seq<u8> {
    data
}

/// A growable byte container holding the most recent metrics payload.
pub struct Buffer {
    bytes: Vec<u8>,
}

impl View for Buffer {
    type V = Seq<u8>;

    closed spec fn view(&self) -> Seq<u8> {
        self.bytes@
    }
}

impl Buffer {
    /// Creates an empty buffer. Does not allocate backing storage.
    pub fn empty() -> (b: Buffer)
        ensures
            b@ == Seq::<u8>::empty(),
    {
        Buffer { bytes: Vec::new() }
    }

    /// Replaces the stored payload wholesale with `data` and returns the
    /// new length in bytes.
    pub fn replace(&mut self, data: Vec<u8>) -> (n: usize)
        ensures
            final(self)@ == spec_after_update(old(self)@, data@),
            n == data@.len(),
    {
        let n = data.len();
        self.bytes = data;
        n
    }

    /// Returns a copy of the stored payload.
    pub fn contents(&self) -> (r: Vec<u8>)
        ensures
            r@ == self@,
    {
        let mut out: Vec<u8> = Vec::new();
        let mut i: usize = 0;
        while i < self.bytes.len()
            invariant
                i <= self.bytes@.len(),
                out@ == self.bytes@.subrange(0, i as int),
            decreases self.bytes@.len() - i,
        {
            out.push(self.bytes[i]);
            i = i + 1;
        }
        proof {
            assert(out@ =~= self.bytes@);
        }
        out
    }

    /// Returns the stored payload's length in bytes.
    pub fn len(&self) -> (n: usize)
        ensures
            n == self@.len(),
    {
        self.bytes.len()
    }
}

/// Law: after two successive updates the buffer holds exactly the second
/// payload, whatever it held before — last write wins, no merging.
pub proof fn lemma_last_write_wins(initial: Seq<u8>, d1: Seq<u8>, d2: Seq<u8>)
    ensures
        spec_after_update(spec_after_update(initial, d1), d2) == d2,
{
}

} // verus!
