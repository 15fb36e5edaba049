//! Readers built on the state machines: the archive reader, and the
//! building blocks of entry readers (decoders that own the reader they
//! read from, and a reader limited to a number of bytes).
use vstd::prelude::*;

pub mod archive_reader;
pub mod decoder;

pub use archive_reader::{ArchiveReader, ArchiveReaderResult};
pub use decoder::{Decoder, EOFNormalizer, LimitedReader, StoreDecoder};

verus! {

/// Whether an entry reader has more to give.
#[derive(Debug, Clone, Copy, PartialEq, Eq, Structural)]
pub enum EntryReaderResult {
    /// more is to come
    Continue,
    /// the entry was read to its end
    Done,
}

} // verus!
