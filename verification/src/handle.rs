//! The transferable form of an owned byte buffer.
//!
//! A [`Handle`] is the owning side of the boundary protocol: exactly one
//! party holds it at any instant. Acquire builds it from the bytes the
//! file-read collaborator produced and hands it to the caller; the caller
//! reads through it and finally gives it back to be freed. Because every
//! consuming operation takes the handle by value, releasing the same buffer
//! twice is unrepresentable.
use vstd::prelude::*;

verus! {

/// An owned, heap-allocated byte buffer, described to the caller as a base
/// plus an exact length. Its view is the byte sequence it owns.
pub struct Handle {
    buf: Vec<u8>,
}

impl View for Handle {
    type V = Seq<u8>;

    closed spec fn view(&self) -> Seq<u8> {
        self.buf@
    }
}

impl Handle {
    /// Every live handle can report its length through the signed status
    /// slot of the boundary protocol.
    #[verifier::type_invariant]
    spec fn wf(self) -> bool {
        self.buf@.len() <= i64::MAX
    }

    /// Takes ownership of the collaborator's bytes without copying them.
    pub fn from_bytes(buf: Vec<u8>) -> (h: Handle)
        requires
            buf@.len() <= i64::MAX,
        ensures
            h@ == buf@,
    {
        Handle { buf }
    }

    /// Exact length in bytes of the owned buffer.
    pub fn len(&self) -> (n: usize)
        ensures
            n == self@.len(),
    {
        self.buf.len()
    }

    /// The buffer's length as the signed status value written to the
    /// caller's output slot; always non-negative, never the failure
    /// sentinel.
    pub fn status(&self) -> (n: i64)
        ensures
            n == self@.len(),
    {
        proof {
            use_type_invariant(self);
        }
        self.buf.len() as i64
    }

    /// One byte of the buffer, as the caller reads it through the handle.
    pub fn byte_at(&self, i: usize) -> (b: u8)
        requires
            i < self@.len(),
        ensures
            b == self@[i as int],
    {
        self.buf[i]
    }

    /// Hands the owned bytes back out, consuming the handle; the buffer is
    /// not copied. Dropping the result is what finally frees it.
    pub fn into_bytes(self) -> (b: Vec<u8>)
        ensures
            b@ == self@,
    {
        self.buf
    }
}

} // verus!
