//! Byte sinks and the owned buffer for exported key material

use crate::error::{Error, ErrorKind};
use vstd::prelude::*;

verus! {

/// Whether `more` bytes fit into a target that holds `held` bytes and has
/// the given capacity. A target without a fixed capacity takes any number.
pub open spec fn fits(capacity: Option<nat>, held: nat, more: nat) -> bool {
    capacity matches Some(c) ==> held + more <= c
}

/// What one write of `data` does to a target: it appends all of `data` where
/// that fits, and otherwise fails with `ExceededBuffer` and appends nothing.
pub open spec fn write_outcome(
    capacity: Option<nat>,
    before: Seq<u8>,
    data: Seq<u8>,
    result: Result<(), Error>,
    after: Seq<u8>,
) -> bool {
    match result {
        Ok(_) => fits(capacity, before.len(), data.len()) && after == before + data,
        Err(e) => !fits(capacity, before.len(), data.len()) && e.kind == ErrorKind::ExceededBuffer
            && after == before,
    }
}

/// Support for writing to a byte buffer
pub trait WriteBuffer {
    /// The bytes written to the target so far. A target written in Verus
    /// states them here; otherwise they are left unspecified.
    open spec fn written(&self) -> Seq<u8> {
        arbitrary()
    }

    /// The number of bytes that the target can hold in all, or `None` for a
    /// target that grows as needed. A target written in Verus states it
    /// here; otherwise it is left unspecified.
    open spec fn capacity(&self) -> Option<nat> {
        arbitrary()
    }

    /// Append a slice to the buffer
    fn buffer_write(&mut self, data: &[u8]) -> (result: Result<(), Error>)
        ensures
            final(self).capacity() == old(self).capacity(),
            write_outcome(
                old(self).capacity(),
                old(self).written(),
                data@,
                result,
                final(self).written(),
            ),
    ;
}

/// A write target of fixed capacity: a borrowed slice that is filled from
/// its start
pub struct Writer<'w> {
    inner: &'w mut [u8],
    pos: usize,
}

impl<'w> View for Writer<'w> {
    type V = Seq<u8>;

    /// The bytes written so far.
    closed spec fn view(&self) -> Seq<u8> {
        self.inner@.subrange(0, self.pos as int)
    }
}

impl<'w> Writer<'w> {
    #[verifier::type_invariant]
    spec fn inv(&self) -> bool {
        self.pos <= self.inner@.len()
    }

    /// The length of the slice that the writer fills.
    pub closed spec fn limit(&self) -> nat {
        self.inner@.len()
    }

    /// Create a new writer that fills the given slice
    pub fn from_buffer(inner: &'w mut [u8]) -> (writer: Self)
        ensures
            writer@ == Seq::<u8>::empty(),
            writer.limit() == old(inner)@.len(),
    {
        Writer { inner, pos: 0 }
    }

    /// The bytes written so far
    pub fn as_slice(&self) -> (bytes: &[u8])
        ensures
            bytes@ == self@,
    {
        proof {
            use_type_invariant(self);
        }
        vstd::slice::slice_subrange(self.inner, 0, self.pos)
    }

    /// The number of bytes written so far
    pub fn position(&self) -> (n: usize)
        ensures
            n == self@.len(),
    {
        proof {
            use_type_invariant(self);
        }
        self.pos
    }
}

impl<'w> WriteBuffer for Writer<'w> {
    open spec fn written(&self) -> Seq<u8> {
        self@
    }

    open spec fn capacity(&self) -> Option<nat> {
        Some(self.limit())
    }

    fn buffer_write(&mut self, data: &[u8]) -> (result: Result<(), Error>) {
        proof {
            use_type_invariant(&*self);
        }
        let total = self.inner.len();
        let count = data.len();
        if count > total - self.pos {
            return Err(Error::from_kind(ErrorKind::ExceededBuffer));
        }
        let start = self.pos;
        let ghost before = self.inner@;
        let mut i: usize = 0;
        while i < count
            invariant
                i <= count,
                count == data@.len(),
                start + count <= total,
                total == self.inner@.len(),
                self.pos == start,
                self.inner@.len() == before.len(),
                self.inner@.subrange(0, start as int) == before.subrange(0, start as int),
                self.inner@.subrange(start as int, start + i) == data@.subrange(0, i as int),
            decreases count - i,
        {
            self.inner[start + i] = data[i];
            i += 1;
        }
        self.pos = start + count;
        proof {
            let filled = self.inner@.subrange(0, start + count);
            assert(data@.subrange(0, count as int) == data@);
            assert(filled == before.subrange(0, start as int) + data@) by {
                assert(filled.subrange(0, start as int) == self.inner@.subrange(0, start as int));
                assert(filled.subrange(start as int, start + count) == self.inner@.subrange(
                    start as int,
                    start + count,
                ));
                assert(filled == filled.subrange(0, start as int) + filled.subrange(
                    start as int,
                    start + count,
                ));
            }
        }
        Ok(())
    }
}

/// A heap-allocated byte buffer that grows as needed and overwrites its
/// bytes with zeros before it gives up the memory that holds them: when it
/// moves them to more room, when it is cleared and when it is dropped
pub struct SecretBytes {
    bytes: Vec<u8>,
    reserved: usize,
}

impl View for SecretBytes {
    type V = Seq<u8>;

    /// The bytes in the buffer.
    closed spec fn view(&self) -> Seq<u8> {
        self.bytes@
    }
}

impl SecretBytes {
    /// Create a new buffer with an initial capacity
    pub fn with_capacity(max_len: usize) -> (buf: Self)
        ensures
            buf@ == Seq::<u8>::empty(),
            buf.reserved() == max_len,
    {
        SecretBytes { bytes: Vec::with_capacity(max_len), reserved: max_len }
    }

    /// The number of bytes in the buffer
    pub fn len(&self) -> (n: usize)
        ensures
            n == self@.len(),
    {
        self.bytes.len()
    }

    /// The bytes in the buffer
    pub fn as_slice(&self) -> (bytes: &[u8])
        ensures
            bytes@ == self@,
    {
        self.bytes.as_slice()
    }

    /// Overwrite the bytes in the buffer with zeros and empty it
    pub fn clear(&mut self)
        ensures
            final(self)@ == Seq::<u8>::empty(),
            final(self).reserved() == old(self).reserved(),
    {
        wipe(&mut self.bytes);
    }

    /// Make room for `extra` more bytes: where the room is too small, move
    /// the bytes to new room, of the size `room_for` gives, and wipe the old.
    fn reserve(&mut self, extra: usize)
        ensures
            final(self)@ == old(self)@,
            final(self).reserved() == if old(self)@.len() + extra <= usize::MAX {
                room_for(old(self).reserved() as nat, old(self)@.len() + extra as nat)
            } else {
                old(self).reserved() as nat
            },
    {
        let len = self.bytes.len();
        if let Some(needed) = len.checked_add(extra) {
            if needed > self.reserved {
                let doubled = self.reserved.saturating_add(self.reserved);
                let target = if doubled >= needed && doubled <= isize::MAX as usize {
                    doubled
                } else {
                    needed
                };
                let mut grown: Vec<u8> = Vec::with_capacity(target);
                grown.extend_from_slice(self.bytes.as_slice());
                assert(grown@ == self.bytes@);
                core::mem::swap(&mut self.bytes, &mut grown);
                self.reserved = target;
                wipe(&mut grown);
            }
        }
    }

    /// The number of bytes for which the buffer has asked memory: it takes
    /// that many without moving them.
    pub closed spec fn spec_reserved(&self) -> usize {
        self.reserved
    }

    /// The number of bytes for which the buffer has asked memory
    #[verifier::when_used_as_spec(spec_reserved)]
    pub fn reserved(&self) -> (n: usize)
        ensures
            n == self.reserved(),
    {
        self.reserved
    }
}

/// The room of a buffer that had room for `reserved` bytes, once it has
/// made room for `needed` bytes: what it had where that is enough, else
/// twice as much where that is enough and no more than a vector may hold,
/// else just what is needed.
pub open spec fn room_for(reserved: nat, needed: nat) -> nat {
    if needed <= reserved {
        reserved
    } else if needed <= 2 * reserved && 2 * reserved <= isize::MAX {
        2 * reserved
    } else {
        needed
    }
}

impl Drop for SecretBytes {
    fn drop(&mut self)
        opens_invariants none
        no_unwind
    {
        wipe(&mut self.bytes);
    }
}

/// Calls `zeroize::Zeroize::zeroize` on the vector, which overwrites with
/// zeros what the vector has allocated beyond its elements, then the
/// elements themselves, by writes that the compiler may not remove, and then
/// sets the length to zero. Trusted: that the vector is empty afterwards, and
/// that the call opens no invariant and does not unwind.
#[verifier::external_body]
fn wipe(bytes: &mut Vec<u8>)
    ensures
        final(bytes)@ == Seq::<u8>::empty(),
    opens_invariants none
    no_unwind
{
    zeroize::Zeroize::zeroize(bytes);
}

impl WriteBuffer for SecretBytes {
    open spec fn written(&self) -> Seq<u8> {
        self@
    }

    /// The buffer grows as needed.
    open spec fn capacity(&self) -> Option<nat> {
        None
    }

    /// Appends the bytes, after it has made room for them: the buffer then
    /// has room for all that it holds, of the size `room_for` gives.
    fn buffer_write(&mut self, data: &[u8]) -> (result: Result<(), Error>)
        ensures
            final(self)@.len() <= final(self).reserved(),
            final(self).reserved() == room_for(
                old(self).reserved() as nat,
                old(self)@.len() + data@.len(),
            ),
    {
        self.reserve(data.len());
        self.bytes.extend_from_slice(data);
        assert(self.bytes@ == old(self).bytes@ + data@);
        assert(old(self)@.len() + data@.len() <= usize::MAX) by {
            assert(self.bytes.len() == old(self)@.len() + data@.len());
        }
        Ok(())
    }
}

} // verus!
