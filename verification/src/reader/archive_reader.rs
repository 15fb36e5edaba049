//! The archive reader: the archive state machine behind the interface of
//! a reader that is handed bytes read at the offsets it asks for.
use vstd::prelude::*;

use crate::error::Error;
use crate::fsm::archive::{
    spec_haystack_size, spec_step, spec_wants_read, state_buffer, with_buffer, State,
    DEFAULT_BUFFER_SIZE,
};
use crate::fsm::buffer::saturating_sum;
use crate::fsm::{ArchiveFsm, FsmResult};
use crate::parse::Archive;

verus! {

/// What a step of the archive reader gave.
pub enum ArchiveReaderResult {
    /// Indicates that [ArchiveReader] has work left, and the loop should continue.
    Continue,
    /// Indicates that [ArchiveReader] is done reading the central directory,
    /// contains an [Archive]. Calling any method after [ArchiveReader::process] has returned
    /// `Done` will panic.
    Done(Archive),
}

/// [ArchiveReader] parses a valid zip archive into an [Archive]. In particular, this struct finds
/// an end of central directory record, parses the entire central directory, detects text encoding,
/// and normalizes metadata.
pub struct ArchiveReader {
    fsm: ArchiveFsm,
}

impl ArchiveReader {
    /// The state machine that does the reading.
    pub closed spec fn spec_fsm(&self) -> ArchiveFsm {
        self.fsm
    }

    /// Create a new archive reader with a specified file size.
    pub fn new(size: u64) -> (r: Self)
        ensures
            r.spec_fsm().wf(),
            !r.spec_fsm().is_done(),
            r.spec_fsm().spec_size() == size,
            r.spec_fsm().spec_state() matches State::ReadEocd { buffer, haystack_size }
                && haystack_size == spec_haystack_size(size) && buffer.spec_data()
                == Seq::<u8>::empty() && buffer.spec_read_bytes() == 0 && buffer.spec_capacity()
                == DEFAULT_BUFFER_SIZE && buffer.spec_room() == DEFAULT_BUFFER_SIZE,
    {
        ArchiveReader { fsm: ArchiveFsm::new(size) }
    }

    /// Returns `Some(offset)`: the offset in the file the next bytes handed
    /// to [Self::fill] must be read from.
    pub fn wants_read(&self) -> (r: Option<u64>)
        requires
            self.spec_fsm().wf(),
            !self.spec_fsm().is_done(),
        ensures
            r == Some(spec_wants_read(self.spec_fsm().spec_size(), self.spec_fsm().spec_state())),
    {
        self.fsm.wants_read()
    }

    /// Hands bytes read at [Self::wants_read] to the reader, and returns how
    /// many it took.
    pub fn fill(&mut self, data: &[u8]) -> (r: usize)
        requires
            old(self).spec_fsm().wf(),
            !old(self).spec_fsm().is_done(),
        ensures
            final(self).spec_fsm().wf(),
            !final(self).spec_fsm().is_done(),
            final(self).spec_fsm().spec_size() == old(self).spec_fsm().spec_size(),
            r == (if data@.len() <= state_buffer(old(self).spec_fsm().spec_state()).spec_room() {
                data@.len() as int
            } else {
                state_buffer(old(self).spec_fsm().spec_state()).spec_room() as int
            }),
            with_buffer(
                old(self).spec_fsm().spec_state(),
                final(self).spec_fsm().spec_state(),
                state_buffer(final(self).spec_fsm().spec_state()),
            ),
            state_buffer(final(self).spec_fsm().spec_state()).spec_data() == state_buffer(
                old(self).spec_fsm().spec_state(),
            ).spec_data() + data@.subrange(0, r as int),
            state_buffer(final(self).spec_fsm().spec_state()).spec_read_bytes() == saturating_sum(
                state_buffer(old(self).spec_fsm().spec_state()).spec_read_bytes(),
                r as int,
            ),
            state_buffer(final(self).spec_fsm().spec_state()).spec_capacity() == state_buffer(
                old(self).spec_fsm().spec_state(),
            ).spec_capacity(),
            state_buffer(final(self).spec_fsm().spec_state()).spec_room() == crate::fsm::buffer::room_after_fill(
                state_buffer(old(self).spec_fsm().spec_state()).spec_capacity() as int,
                state_buffer(old(self).spec_fsm().spec_state()).spec_room() as int,
                state_buffer(final(self).spec_fsm().spec_state()).spec_data().len() as int,
                r as int,
            ),
    {
        self.fsm.fill(data)
    }

    /// Makes room if there is none, and returns how many bytes the next
    /// [Self::fill] can take.
    pub fn space(&mut self) -> (r: usize)
        requires
            old(self).spec_fsm().wf(),
            !old(self).spec_fsm().is_done(),
        ensures
            final(self).spec_fsm().wf(),
            !final(self).spec_fsm().is_done(),
            final(self).spec_fsm().spec_size() == old(self).spec_fsm().spec_size(),
            with_buffer(
                old(self).spec_fsm().spec_state(),
                final(self).spec_fsm().spec_state(),
                state_buffer(final(self).spec_fsm().spec_state()),
            ),
            state_buffer(final(self).spec_fsm().spec_state()).spec_data() == state_buffer(
                old(self).spec_fsm().spec_state(),
            ).spec_data(),
            state_buffer(final(self).spec_fsm().spec_state()).spec_read_bytes() == state_buffer(
                old(self).spec_fsm().spec_state(),
            ).spec_read_bytes(),
            r == state_buffer(final(self).spec_fsm().spec_state()).spec_room(),
            r + state_buffer(final(self).spec_fsm().spec_state()).spec_data().len() <= state_buffer(
                final(self).spec_fsm().spec_state(),
            ).spec_capacity(),
    {
        self.fsm.space()
    }

    /// Process buffered data: one step of the archive state machine.
    ///
    /// Errors returned from process() are caused by invalid zip archives,
    /// unsupported format quirks, or implementation bugs - never I/O errors.
    pub fn process(&mut self) -> (r: Result<ArchiveReaderResult, Error>)
        requires
            old(self).spec_fsm().wf(),
            !old(self).spec_fsm().is_done(),
        ensures
            final(self).spec_fsm().wf(),
            final(self).spec_fsm().spec_size() == old(self).spec_fsm().spec_size(),
            exists|fr: Result<FsmResult<(), Archive>, Error>|
                #[trigger] spec_step(
                    old(self).spec_fsm().spec_size(),
                    old(self).spec_fsm().spec_state(),
                    final(self).spec_fsm().spec_state(),
                    fr,
                ) && (match fr {
                    Ok(FsmResult::Continue(())) => r matches Ok(ArchiveReaderResult::Continue),
                    Ok(FsmResult::Done(a)) => r matches Ok(ArchiveReaderResult::Done(b)) && b == a,
                    Err(e) => r matches Err(e2) && e2 == e,
                }),
            final(self).spec_fsm().is_done() <==> !(r matches Ok(ArchiveReaderResult::Continue)),
    {
        let fr = self.fsm.process();
        match fr {
            Ok(FsmResult::Continue(())) => Ok(ArchiveReaderResult::Continue),
            Ok(FsmResult::Done(archive)) => Ok(ArchiveReaderResult::Done(archive)),
            Err(e) => Err(e),
        }
    }
}

} // verus!
