//! Decoders that own the reader they read from, and a reader limited to a
//! number of bytes. Reading itself is I/O and happens around them: they
//! decide how much may be read, and keep count.
use vstd::prelude::*;

verus! {

/// A decoder that owns the reader it reads from.
pub trait Decoder<R> {
    /// The reader the decoder reads from.
    spec fn spec_inner(&self) -> R;

    /// Moves the inner reader out of this decoder.
    fn into_inner(self) -> (r: R)
        where Self: Sized
        ensures
            r == self.spec_inner(),
    ;

    /// Returns a mutable reference to the inner reader.
    fn as_inner_mut(&mut self) -> (r: &mut R)
        ensures
            *r == old(self).spec_inner(),
            final(self).spec_inner() == *final(r),
    ;
}

/// A decoder for stored entries: what it reads is what its reader gives.
pub struct StoreDecoder<R> {
    inner: R,
}

impl<R> StoreDecoder<R> {
    /// A decoder reading from `inner`.
    pub fn new(inner: R) -> (r: Self)
        ensures
            r.spec_inner() == inner,
    {
        Self { inner }
    }
}

impl<R> Decoder<R> for StoreDecoder<R> {
    closed spec fn spec_inner(&self) -> R {
        self.inner
    }

    fn into_inner(self) -> (r: R) {
        self.inner
    }

    fn as_inner_mut(&mut self) -> (r: &mut R) {
        &mut self.inner
    }
}

/// Only allows reading a fixed number of bytes from a reader,
/// allowing to move the inner reader out afterwards.
pub struct LimitedReader<R> {
    remaining: u64,
    inner: R,
}

impl<R> LimitedReader<R> {
    /// How many more bytes may be read.
    pub closed spec fn spec_remaining(&self) -> u64 {
        self.remaining
    }

    /// The reader read from.
    pub closed spec fn spec_inner(&self) -> R {
        self.inner
    }

    /// A reader of at most `remaining` bytes of `inner`.
    pub fn new(inner: R, remaining: u64) -> (r: Self)
        ensures
            r.spec_inner() == inner,
            r.spec_remaining() == remaining,
    {
        Self { inner, remaining }
    }

    /// Moves the inner reader out.
    pub fn into_inner(self) -> (r: R)
        ensures
            r == self.spec_inner(),
    {
        self.inner
    }

    /// Returns a mutable reference to the inner reader.
    pub fn as_inner_mut(&mut self) -> (r: &mut R)
        ensures
            *r == old(self).spec_inner(),
            final(self).spec_inner() == *final(r),
            final(self).spec_remaining() == old(self).spec_remaining(),
    {
        &mut self.inner
    }

    /// How many more bytes may be read.
    pub fn remaining(&self) -> (r: u64)
        ensures
            r == self.spec_remaining(),
    {
        self.remaining
    }

    /// How many bytes a read into a buffer of `buf_len` bytes may ask for:
    /// the buffer's length, at most what remains.
    pub fn read_len(&self, buf_len: usize) -> (r: usize)
        ensures
            r == (if (buf_len as u64) < self.spec_remaining() {
                buf_len as int
            } else {
                self.spec_remaining() as int
            }),
    {
        if (buf_len as u64) < self.remaining {
            buf_len
        } else {
            self.remaining as usize
        }
    }

    /// Counts `n` bytes as read.
    pub fn consumed(&mut self, n: usize)
        requires
            n <= old(self).spec_remaining(),
        ensures
            final(self).spec_remaining() == old(self).spec_remaining() - n,
            final(self).spec_inner() == old(self).spec_inner(),
    {
        self.remaining = self.remaining - n as u64;
    }
}

/// Normalize EOF behavior for files on Windows (ie. makes it return Ok(0),
/// not an OS-level I/O error). Works for non-file readers, on non-Windows
/// OSes too.
pub struct EOFNormalizer<R> {
    inner: R,
}

impl<R> EOFNormalizer<R> {
    /// The reader read from.
    pub closed spec fn spec_inner(&self) -> R {
        self.inner
    }

    /// A normalizer reading from `inner`.
    pub fn new(inner: R) -> (r: Self)
        ensures
            r.spec_inner() == inner,
    {
        Self { inner }
    }

    /// Returns a mutable reference to the inner reader.
    pub fn as_inner_mut(&mut self) -> (r: &mut R)
        ensures
            *r == old(self).spec_inner(),
            final(self).spec_inner() == *final(r),
    {
        &mut self.inner
    }
}

} // verus!
