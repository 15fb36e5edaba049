//! A byte buffer that the state machines read their input from, and that
//! counts how many bytes were handed to it.
use vstd::prelude::*;

verus! {

/// `oval::Buffer`, a fixed-capacity byte buffer with a read position and an
/// end of data.
#[verifier::external_type_specification]
#[verifier::external_body]
pub struct ExOvalBuffer(oval::Buffer);

/// The bytes an `oval::Buffer` holds between its read position and the end
/// of its data (what its `data()` method returns).
pub uninterp spec fn oval_data(b: oval::Buffer) -> Seq<u8>;

/// The capacity an `oval::Buffer` was made with.
pub uninterp spec fn oval_capacity(b: oval::Buffer) -> nat;

/// The room an `oval::Buffer` has after the end of its data (its capacity
/// less its end of data: what its `available_space` method returns).
pub uninterp spec fn oval_room(b: oval::Buffer) -> nat;

/// Calls `oval::Buffer::with_capacity`: a buffer of `capacity` bytes that
/// holds no data.
#[verifier::external_body]
fn oval_with_capacity(capacity: usize) -> (b: oval::Buffer)
    ensures
        oval_data(b) == Seq::<u8>::empty(),
        oval_capacity(b) == capacity,
        oval_room(b) == capacity,
{
    oval::Buffer::with_capacity(capacity)
}

/// Calls `oval::Buffer::reset`, which moves the read position and the end of
/// data back to the start: the buffer then holds no data, and all of its
/// capacity is room.
#[verifier::external_body]
fn oval_reset(b: &mut oval::Buffer)
    ensures
        oval_data(*final(b)) == Seq::<u8>::empty(),
        oval_capacity(*final(b)) == oval_capacity(*old(b)),
        oval_room(*final(b)) == oval_capacity(*old(b)),
{
    b.reset()
}

/// Calls `oval::Buffer::data`: the bytes the buffer holds.
#[verifier::external_body]
fn oval_data_slice(b: &oval::Buffer) -> (r: &[u8])
    ensures
        r@ == oval_data(*b),
{
    b.data()
}

/// The room a buffer of `capacity` bytes has after a write of `r` bytes,
/// with `room` before and `len` bytes of data after: it moves its data to
/// the start of its memory when the room left is smaller than the data and
/// what was written together.
pub open spec fn room_after_fill(capacity: int, room: int, len: int, r: int) -> int {
    if room - r < len + r {
        capacity - len
    } else {
        room - r
    }
}

/// The room a buffer of `capacity` bytes has after data was consumed, with
/// `room` before and `len` bytes of data after: it moves its data to the
/// start of its memory when the read position (what neither the data nor
/// the room takes) passes half the capacity.
pub open spec fn room_after_consume(capacity: int, room: int, len: int) -> int {
    if capacity - room - len > capacity / 2 {
        capacity - len
    } else {
        room
    }
}

/// Calls `oval::Buffer::available_space`: the room left after the end of
/// data. The read position and the end of data never pass the capacity, so
/// the room and the data together take at most the capacity.
#[verifier::external_body]
fn oval_available_space(b: &oval::Buffer) -> (r: usize)
    ensures
        r == oval_room(*b),
        r + oval_data(*b).len() <= oval_capacity(*b),
{
    b.available_space()
}

/// Calls `oval::Buffer::shift`, which moves the data to the start of the
/// memory: the data and the capacity stay as they were, and the room is
/// what the data leaves of the capacity.
#[verifier::external_body]
fn oval_shift(b: &mut oval::Buffer)
    ensures
        oval_data(*final(b)) == oval_data(*old(b)),
        oval_capacity(*final(b)) == oval_capacity(*old(b)),
        oval_room(*final(b)) == oval_capacity(*old(b)) - oval_data(*old(b)).len(),
{
    b.shift()
}

/// Calls `oval::Buffer::consume`: drops `min(count, data length)` bytes from
/// the front of the data and returns that number. When the read position
/// passes half the capacity it also shifts, which leaves the data as it is
/// and makes the room what the data leaves of the capacity; else the room
/// stays as it was.
#[verifier::external_body]
fn oval_consume(b: &mut oval::Buffer, count: usize) -> (r: usize)
    ensures
        r == (if count <= oval_data(*old(b)).len() {
            count as int
        } else {
            oval_data(*old(b)).len() as int
        }),
        oval_data(*final(b)) == oval_data(*old(b)).subrange(r as int, oval_data(*old(b)).len() as int),
        oval_capacity(*final(b)) == oval_capacity(*old(b)),
        oval_room(*final(b)) == room_after_consume(
            oval_capacity(*old(b)) as int,
            oval_room(*old(b)) as int,
            oval_data(*final(b)).len() as int,
        ),
{
    b.consume(count)
}

/// Calls `std::io::Write::write` on an `oval::Buffer`: copies as much of
/// `input` as fits in the room after the end of data (writing to a slice
/// never fails), appends it to the data, and returns how many bytes that
/// was. It then shifts when the room left is smaller than the data and what
/// was written together, which makes the room what the data leaves of the
/// capacity; else the room shrinks by what was written.
#[verifier::external_body]
fn oval_write(b: &mut oval::Buffer, input: &[u8]) -> (r: usize)
    ensures
        r == (if input@.len() <= oval_room(*old(b)) {
            input@.len() as int
        } else {
            oval_room(*old(b)) as int
        }),
        oval_data(*final(b)) == oval_data(*old(b)) + input@.subrange(0, r as int),
        oval_data(*final(b)).len() <= oval_capacity(*final(b)),
        oval_capacity(*final(b)) == oval_capacity(*old(b)),
        oval_room(*final(b)) == room_after_fill(
            oval_capacity(*old(b)) as int,
            oval_room(*old(b)) as int,
            oval_data(*final(b)).len() as int,
            r as int,
        ),
{
    match std::io::Write::write(b, input) {
        Ok(n) => n,
        Err(_) => 0,
    }
}

/// A wrapper around [oval::Buffer] that keeps track of how many bytes we've
/// read since initialization or the last reset.
pub struct ReadBuffer {
    buffer: oval::Buffer,
    read_bytes: u64,
}

/// `a + b`, or `u64::MAX` when that does not fit.
pub open spec fn saturating_sum(a: u64, b: int) -> u64 {
    if a + b > u64::MAX {
        u64::MAX
    } else {
        (a + b) as u64
    }
}

impl ReadBuffer {
    /// The bytes the buffer holds, from the read position on.
    pub closed spec fn spec_data(&self) -> Seq<u8> {
        oval_data(self.buffer)
    }

    /// The number of bytes the buffer can hold.
    pub closed spec fn spec_capacity(&self) -> nat {
        oval_capacity(self.buffer)
    }

    /// The room after the data: how many bytes the next [Self::fill] takes
    /// at most.
    pub closed spec fn spec_room(&self) -> nat {
        oval_room(self.buffer)
    }

    /// How many bytes were handed to the buffer since it was made or last
    /// reset (saturating at `u64::MAX`).
    pub closed spec fn spec_read_bytes(&self) -> u64 {
        self.read_bytes
    }

    /// creates a new buffer with the specified capacity
    pub fn with_capacity(size: usize) -> (r: Self)
        ensures
            r.spec_data() == Seq::<u8>::empty(),
            r.spec_capacity() == size,
            r.spec_room() == size,
            r.spec_read_bytes() == 0,
    {
        ReadBuffer { buffer: oval_with_capacity(size), read_bytes: 0 }
    }

    /// resets the buffer (so that data() returns an empty slice,
    /// and space() returns the full capacity), along with the
    /// read bytes counter.
    pub fn reset(&mut self)
        ensures
            final(self).spec_data() == Seq::<u8>::empty(),
            final(self).spec_capacity() == old(self).spec_capacity(),
            final(self).spec_room() == old(self).spec_capacity(),
            final(self).spec_read_bytes() == 0,
    {
        self.read_bytes = 0;
        oval_reset(&mut self.buffer);
    }

    /// returns the number of read bytes since the last reset
    pub fn read_bytes(&self) -> (r: u64)
        ensures
            r == self.spec_read_bytes(),
    {
        self.read_bytes
    }

    /// returns a slice with all the available data
    pub fn data(&self) -> (r: &[u8])
        ensures
            r@ == self.spec_data(),
    {
        oval_data_slice(&self.buffer)
    }

    /// returns how much data can be read from the buffer
    pub fn available_data(&self) -> (r: usize)
        ensures
            r == self.spec_data().len(),
    {
        oval_data_slice(&self.buffer).len()
    }

    /// returns how much free space is available to write to
    pub fn available_space(&self) -> (r: usize)
        ensures
            r == self.spec_room(),
            r + self.spec_data().len() <= self.spec_capacity(),
    {
        oval_available_space(&self.buffer)
    }

    /// moves the data at the beginning of the buffer
    ///
    /// if the position was more than 0, it is now 0
    pub fn shift(&mut self)
        ensures
            final(self).spec_data() == old(self).spec_data(),
            final(self).spec_capacity() == old(self).spec_capacity(),
            final(self).spec_room() == old(self).spec_capacity() - old(self).spec_data().len(),
            final(self).spec_read_bytes() == old(self).spec_read_bytes(),
    {
        oval_shift(&mut self.buffer)
    }

    /// returns how many bytes can be written after the data: the length of
    /// the space that [Self::fill] copies into
    pub fn space(&self) -> (r: usize)
        ensures
            r == self.spec_room(),
            r + self.spec_data().len() <= self.spec_capacity(),
    {
        oval_available_space(&self.buffer)
    }

    /// Copies the start of `input` into the room after the data, as much as
    /// fits, and returns how many bytes that was. The count of read bytes
    /// grows by as much.
    pub fn fill(&mut self, input: &[u8]) -> (r: usize)
        ensures
            r == (if input@.len() <= old(self).spec_room() {
                input@.len() as int
            } else {
                old(self).spec_room() as int
            }),
            final(self).spec_room() == room_after_fill(
                old(self).spec_capacity() as int,
                old(self).spec_room() as int,
                final(self).spec_data().len() as int,
                r as int,
            ),
            final(self).spec_data() == old(self).spec_data() + input@.subrange(0, r as int),
            final(self).spec_data().len() <= final(self).spec_capacity(),
            final(self).spec_capacity() == old(self).spec_capacity(),
            final(self).spec_read_bytes() == saturating_sum(old(self).spec_read_bytes(), r as int),
    {
        let n = oval_write(&mut self.buffer, input);
        self.read_bytes = self.read_bytes.saturating_add(n as u64);
        n
    }

    /// advances the position tracker
    ///
    /// if the position gets past the buffer's half,
    /// this will call `shift()` to move the remaining data
    /// to the beginning of the buffer
    pub fn consume(&mut self, size: usize)
        requires
            size <= old(self).spec_data().len(),
        ensures
            final(self).spec_data() == old(self).spec_data().subrange(
                size as int,
                old(self).spec_data().len() as int,
            ),
            final(self).spec_capacity() == old(self).spec_capacity(),
            final(self).spec_room() == room_after_consume(
                old(self).spec_capacity() as int,
                old(self).spec_room() as int,
                final(self).spec_data().len() as int,
            ),
            final(self).spec_read_bytes() == old(self).spec_read_bytes(),
    {
        oval_consume(&mut self.buffer, size);
    }

    /// computes an absolute offset, given an offset relative
    /// to the current read position
    pub fn read_offset(&self, offset: u64) -> (r: u64)
        ensures
            r == saturating_sum(self.spec_read_bytes(), offset as int),
    {
        self.read_bytes.saturating_add(offset)
    }
}

} // verus!
