//! The state machine that finds and reads the central directory of an
//! archive.
use vstd::prelude::*;
use vstd::slice::slice_subrange;

use super::buffer::ReadBuffer;
use super::FsmResult;
use crate::encoding::{spec_choose_encoding, spec_decode, spec_is_entry_non_utf8, chardetng_guess, is_box_drawing, Encoding, EncodingGuess};
use crate::error::{Error, FormatError};
use crate::parse::central_directory_file_header::{central_header_sig, spec_central_header_len};
use crate::parse::{
    sig_conflict, Archive, CentralDirectoryFileHeader, EndOfCentralDirectory,
    EndOfCentralDirectory64Locator, EndOfCentralDirectory64Record, EndOfCentralDirectoryRecord,
    Entry, Located, ParseError,
};

verus! {

/// How far from the end of the file the end of central directory record is
/// looked for: 65 KiB, which covers the record and the longest comment.
pub const EOCD_HAYSTACK_SIZE: u64 = 66560;

/// The capacity of the buffer: this should be > 65KiB, because the section
/// at the end of the file that we check for end of central directory record
/// is 65KiB.
pub const DEFAULT_BUFFER_SIZE: usize = 262144;

/// How many bytes of names and comments are fed to the encoding detector at
/// most (it stops after the field that reaches this).
pub const MAX_DETECTOR_FEED: usize = 4096;

/// Where the archive reader is.
pub enum State {
    /// Finding and reading the end of central directory record
    ReadEocd { buffer: ReadBuffer, haystack_size: u64 },
    /// Reading the zip64 end of central directory locator.
    ReadEocd64Locator { buffer: ReadBuffer, eocdr: Located<EndOfCentralDirectoryRecord> },
    /// Reading the zip64 end of central directory record.
    ReadEocd64 {
        buffer: ReadBuffer,
        eocdr64_offset: u64,
        eocdr: Located<EndOfCentralDirectoryRecord>,
    },
    /// Reading all headers from the central directory
    ReadCentralDirectory {
        buffer: ReadBuffer,
        eocd: EndOfCentralDirectory,
        directory_headers: Vec<CentralDirectoryFileHeader>,
    },
    /// Done!
    Done,
}

/// [ArchiveFsm] parses a valid zip archive into an [Archive]. In particular, this struct finds
/// an end of central directory record, parses the entire central directory, detects text encoding,
/// and normalizes metadata.
pub struct ArchiveFsm {
    /// Size of the entire zip file
    size: u64,
    state: State,
}

/// `after` is `before` reset: no data, nothing read, same capacity, all of
/// it room.
pub open spec fn is_reset(after: ReadBuffer, before: ReadBuffer) -> bool {
    &&& after.spec_data() == Seq::<u8>::empty()
    &&& after.spec_read_bytes() == 0
    &&& after.spec_capacity() == before.spec_capacity()
    &&& after.spec_room() == before.spec_capacity()
}

/// `h` is a whole central directory header at the start of `s`.
#[verifier::opaque]
pub open spec fn header_at(s: Seq<u8>, h: CentralDirectoryFileHeader) -> bool {
    &&& !sig_conflict(s, central_header_sig())
    &&& s.len() >= spec_central_header_len(s)
    &&& h.spec_matches(s)
    &&& h.spec_wf()
}

/// Header `i` of `hs` starts at `offs[i]` in `s` and ends at `offs[i + 1]`.
pub open spec fn header_offset_ok(
    s: Seq<u8>,
    hs: Seq<CentralDirectoryFileHeader>,
    offs: Seq<int>,
    i: int,
) -> bool {
    &&& 0 <= offs[i] <= s.len()
    &&& header_at(s.subrange(offs[i], s.len() as int), hs[i])
    &&& offs[i + 1] == offs[i] + spec_central_header_len(s.subrange(offs[i], s.len() as int))
}

/// The headers `hs` follow one another from the start of `s`, header `i`
/// starting at `offs[i]`; `offs` ends with where the last one ends.
pub open spec fn header_offsets(s: Seq<u8>, hs: Seq<CentralDirectoryFileHeader>, offs: Seq<int>) -> bool {
    &&& offs.len() == hs.len() + 1
    &&& offs[0] == 0
    &&& 0 <= offs.last() <= s.len()
    &&& forall|i: int| 0 <= i < hs.len() ==> #[trigger] header_offset_ok(s, hs, offs, i)
}

/// The first `n` bytes of `s` are the headers `hs`, one after the other.
pub open spec fn headers_at(s: Seq<u8>, hs: Seq<CentralDirectoryFileHeader>, n: int) -> bool {
    exists|offs: Seq<int>| #[trigger] header_offsets(s, hs, offs) && offs.last() == n
}

/// No header can be read at the start of `s`: it starts with some other
/// signature, or it is too short to hold one.
pub open spec fn no_header_at(s: Seq<u8>) -> bool {
    sig_conflict(s, central_header_sig()) || s.len() < spec_central_header_len(s)
}

/// Whether the header's name or comment must be read in some other encoding
/// than UTF-8.
pub open spec fn header_non_utf8(h: CentralDirectoryFileHeader) -> bool {
    spec_is_entry_non_utf8(h.name@, h.comment@, h.flags)
}

/// The bytes fed to the encoding detector from `hs[i..]`, after `fed` was
/// fed: the name, then the comment, of each header that is not UTF-8,
/// stopping after the field that brings the total to 4096 bytes or more.
pub open spec fn spec_feed_from(hs: Seq<CentralDirectoryFileHeader>, i: int, fed: Seq<u8>) -> Seq<u8>
    decreases hs.len() - i,
{
    if i < 0 || i >= hs.len() {
        fed
    } else if !header_non_utf8(hs[i]) {
        spec_feed_from(hs, i + 1, fed)
    } else {
        let f1 = fed + hs[i].name@;
        if f1.len() >= 4096 {
            f1
        } else {
            let f2 = f1 + hs[i].comment@;
            if f2.len() >= 4096 {
                f2
            } else {
                spec_feed_from(hs, i + 1, f2)
            }
        }
    }
}

/// The bytes of the headers `hs` fed to the encoding detector.
pub open spec fn spec_detector_input(hs: Seq<CentralDirectoryFileHeader>) -> Seq<u8> {
    spec_feed_from(hs, 0, Seq::<u8>::empty())
}

/// The encoding the archive reader settles on for the headers `hs`.
pub open spec fn spec_archive_encoding(hs: Seq<CentralDirectoryFileHeader>) -> Encoding {
    let fed = spec_detector_input(hs);
    spec_choose_encoding(
        forall|i: int| 0 <= i < hs.len() ==> !header_non_utf8(#[trigger] hs[i]),
        chardetng_guess(fed, true),
        exists|k: int| 0 <= k < fed.len() && is_box_drawing(#[trigger] fed[k]),
    )
}

/// Nothing is fed to the encoding detector from headers that are all UTF-8.
pub proof fn lemma_feed_skips_utf8(hs: Seq<CentralDirectoryFileHeader>, i: int, fed: Seq<u8>)
    requires
        forall|j: int| 0 <= j < hs.len() ==> !header_non_utf8(#[trigger] hs[j]),
    ensures
        spec_feed_from(hs, i, fed) == fed,
    decreases hs.len() - i,
{
    if 0 <= i < hs.len() {
        assert(!header_non_utf8(hs[i]));
        lemma_feed_skips_utf8(hs, i + 1, fed);
    }
}

/// An archive whose entries are all UTF-8 is read as UTF-8, and the
/// detector is fed nothing.
pub proof fn lemma_all_utf8_archive(hs: Seq<CentralDirectoryFileHeader>)
    requires
        forall|j: int| 0 <= j < hs.len() ==> !header_non_utf8(#[trigger] hs[j]),
    ensures
        spec_archive_encoding(hs) == Encoding::Utf8,
        spec_detector_input(hs) == Seq::<u8>::empty(),
{
    lemma_feed_skips_utf8(hs, 0, Seq::<u8>::empty());
}

/// The detector is fed at most 4096 bytes and the two fields of the header
/// that reach that count.
pub proof fn lemma_feed_bounded(hs: Seq<CentralDirectoryFileHeader>, i: int, fed: Seq<u8>)
    requires
        fed.len() < 4096,
        headers_wf(hs),
    ensures
        spec_feed_from(hs, i, fed).len() < 4096 + 2 * 0xFFFF,
    decreases hs.len() - i,
{
    if 0 <= i < hs.len() {
        assert(hs[i].spec_wf());
        let f1 = fed + hs[i].name@;
        if header_non_utf8(hs[i]) && f1.len() < 4096 {
            let f2 = f1 + hs[i].comment@;
            if f2.len() < 4096 {
                lemma_feed_bounded(hs, i + 1, f2);
            }
        } else if !header_non_utf8(hs[i]) {
            lemma_feed_bounded(hs, i + 1, fed);
        }
    }
}

/// The comment of the archive, as read in `enc`: empty when the field is.
pub open spec fn spec_archive_comment(enc: Encoding, raw: Seq<u8>) -> Option<Seq<char>> {
    if raw.len() == 0 {
        Some(Seq::<char>::empty())
    } else {
        spec_decode(enc, raw)
    }
}

/// What the central directory gives, once all its headers `all` are read:
/// an error when their count differs (in 16 bits) from the one the records
/// give, or when a header or the comment cannot be converted (the first
/// header that cannot, then the comment); otherwise the archive.
pub open spec fn spec_finish(
    size: u64,
    eocd: EndOfCentralDirectory,
    all: Seq<CentralDirectoryFileHeader>,
    r: Result<FsmResult<(), Archive>, Error>,
) -> bool {
    let expected = all.len() as u16;
    let actual = eocd.spec_directory_records() as u16;
    let enc = spec_archive_encoding(all);
    let go = eocd.global_offset;
    if expected != actual {
        r == Err::<FsmResult<(), Archive>, Error>(
            Error::Format(FormatError::InvalidCentralRecord { expected, actual }),
        )
    } else if exists|i: int| 0 <= i < all.len() && !(#[trigger] all[i]).spec_entry_ok(enc, go) {
        exists|i: int|
            0 <= i < all.len() && !(#[trigger] all[i]).spec_entry_ok(enc, go) && (forall|j: int|
                0 <= j < i ==> all[j].spec_entry_ok(enc, go)) && (r matches Err(e)
                && all[i].spec_entry_err(enc, go, e))
    } else if spec_archive_comment(enc, eocd.dir.inner.comment@) is None {
        r matches Err(e) && e is Encoding
    } else {
        r matches Ok(FsmResult::Done(a)) && a.size == size && a.encoding == enc && a.entries@.len()
            == all.len() && (forall|i: int|
            0 <= i < all.len() ==> all[i].spec_is_entry(enc, go, #[trigger] a.entries@[i]))
            && Some(a.comment@) == spec_archive_comment(enc, eocd.dir.inner.comment@)
    }
}

/// The machine moves on to reading the central directory that the records
/// give, or stops at the error that coalescing them gives.
pub open spec fn spec_enter_directory(
    size: u64,
    before: ReadBuffer,
    dir: Located<EndOfCentralDirectoryRecord>,
    dir64: Option<Located<EndOfCentralDirectory64Record>>,
    post: State,
    r: Result<FsmResult<(), Archive>, Error>,
) -> bool {
    match EndOfCentralDirectory::spec_new(size, dir, dir64) {
        Ok(eocd) => {
            &&& r == Ok::<FsmResult<(), Archive>, Error>(FsmResult::Continue(()))
            &&& post matches State::ReadCentralDirectory { buffer, eocd: e, directory_headers }
            &&& e == eocd
            &&& directory_headers@ == Seq::<CentralDirectoryFileHeader>::empty()
            &&& is_reset(buffer, before)
        },
        Err(e) => r == Err::<FsmResult<(), Archive>, Error>(e) && post is Done,
    }
}

/// What reading the central directory gives when the buffer starts with the
/// headers `hs`, `n` bytes in all, and no header follows them: when more
/// data could make one, the headers are added to those read so far and
/// dropped from the buffer; otherwise the directory is over.
pub open spec fn spec_directory_outcome(
    size: u64,
    buffer: ReadBuffer,
    eocd: EndOfCentralDirectory,
    headers: Seq<CentralDirectoryFileHeader>,
    hs: Seq<CentralDirectoryFileHeader>,
    n: int,
    post: State,
    r: Result<FsmResult<(), Archive>, Error>,
) -> bool {
    let s = buffer.spec_data();
    let rest = s.subrange(n, s.len() as int);
    if !sig_conflict(rest, central_header_sig()) {
        // need more data to read the next header
        &&& r == Ok::<FsmResult<(), Archive>, Error>(FsmResult::Continue(()))
        &&& post matches State::ReadCentralDirectory { buffer: b, eocd: e, directory_headers: h }
        &&& e == eocd
        &&& h@ == headers + hs
        &&& b.spec_data() == rest
        &&& b.spec_capacity() == buffer.spec_capacity()
        &&& b.spec_read_bytes() == buffer.spec_read_bytes()
    } else {
        // this is the normal end condition when reading
        // the central directory
        spec_finish(size, eocd, headers + hs, r) && post is Done
    }
}

/// One step of reading the central directory: the headers at the start of
/// the buffer are read, up to the first place where none can be.
pub open spec fn spec_directory_step(
    size: u64,
    buffer: ReadBuffer,
    eocd: EndOfCentralDirectory,
    headers: Seq<CentralDirectoryFileHeader>,
    post: State,
    r: Result<FsmResult<(), Archive>, Error>,
) -> bool {
    let s = buffer.spec_data();
    exists|hs: Seq<CentralDirectoryFileHeader>, n: int|
        #[trigger] headers_at(s, hs, n) && no_header_at(s.subrange(n, s.len() as int))
            && spec_directory_outcome(size, buffer, eocd, headers, hs, n, post, r)
}

/// One step of the archive reader, from state `pre` to state `post`, with
/// result `r`.
pub open spec fn spec_step(
    size: u64,
    pre: State,
    post: State,
    r: Result<FsmResult<(), Archive>, Error>,
) -> bool {
    match pre {
        State::ReadEocd { buffer, haystack_size } => {
            if buffer.spec_read_bytes() < haystack_size {
                r == Ok::<FsmResult<(), Archive>, Error>(FsmResult::Continue(())) && post == pre
            } else {
                let hay = buffer.spec_data().subrange(0, haystack_size as int);
                if forall|j: int|
                    0 <= j <= hay.len() ==> !EndOfCentralDirectoryRecord::spec_parses(
                        #[trigger] hay.subrange(j, hay.len() as int),
                    ) {
                    r == Err::<FsmResult<(), Archive>, Error>(
                        Error::Format(FormatError::DirectoryEndSignatureNotFound),
                    ) && post is Done
                } else {
                    exists|i: int, rec: EndOfCentralDirectoryRecord|
                        #![trigger EndOfCentralDirectoryRecord::spec_last_match(hay, i), rec.spec_matches(hay.subrange(i, hay.len() as int))]
                        EndOfCentralDirectoryRecord::spec_last_match(hay, i) && rec.spec_matches(
                            hay.subrange(i, hay.len() as int),
                        ) && {
                            let offset = (i + size - haystack_size) as u64;
                            let eocdr = Located { offset, inner: rec };
                            if offset < 20 {
                                // no room for an EOCD64 locator, definitely not a zip64 file
                                spec_enter_directory(size, buffer, eocdr, None, post, r)
                            } else {
                                &&& r == Ok::<FsmResult<(), Archive>, Error>(FsmResult::Continue(()))
                                &&& post matches State::ReadEocd64Locator { buffer: b, eocdr: e }
                                &&& e == eocdr
                                &&& is_reset(b, buffer)
                            }
                        }
                }
            }
        },
        State::ReadEocd64Locator { buffer, eocdr } => {
            let s = buffer.spec_data();
            if sig_conflict(s, crate::parse::eocd::eocd64_locator_sig()) {
                // we don't have a zip64 end of central directory locator - that's ok!
                spec_enter_directory(size, buffer, eocdr, None, post, r)
            } else if s.len() < 20 {
                r == Ok::<FsmResult<(), Archive>, Error>(FsmResult::Continue(())) && post == pre
            } else {
                &&& r == Ok::<FsmResult<(), Archive>, Error>(FsmResult::Continue(()))
                &&& post matches State::ReadEocd64 { buffer: b, eocdr64_offset, eocdr: e }
                &&& eocdr64_offset == EndOfCentralDirectory64Locator::spec_at(s).directory_offset
                &&& e == eocdr
                &&& is_reset(b, buffer)
            }
        },
        State::ReadEocd64 { buffer, eocdr64_offset, eocdr } => {
            let s = buffer.spec_data();
            if sig_conflict(s, crate::parse::eocd::eocd64_record_sig()) {
                // at this point, we really expected to have a zip64 end
                // of central directory record
                r == Err::<FsmResult<(), Archive>, Error>(
                    Error::Format(FormatError::Directory64EndRecordInvalid),
                ) && post is Done
            } else if s.len() < 56 {
                r == Ok::<FsmResult<(), Archive>, Error>(FsmResult::Continue(())) && post == pre
            } else {
                spec_enter_directory(
                    size,
                    buffer,
                    eocdr,
                    Some(
                        Located {
                            offset: eocdr64_offset,
                            inner: EndOfCentralDirectory64Record::spec_at(s),
                        },
                    ),
                    post,
                    r,
                )
            }
        },
        State::ReadCentralDirectory { buffer, eocd, directory_headers } => spec_directory_step(
            size,
            buffer,
            eocd,
            directory_headers@,
            post,
            r,
        ),
        State::Done => false,
    }
}

/// The haystack size for a file of `size` bytes.
pub open spec fn spec_haystack_size(size: u64) -> u64 {
    if size < EOCD_HAYSTACK_SIZE {
        size
    } else {
        EOCD_HAYSTACK_SIZE
    }
}

/// The buffer of a state (any buffer for `Done`).
pub open spec fn state_buffer(s: State) -> ReadBuffer {
    match s {
        State::ReadEocd { buffer, .. } => buffer,
        State::ReadEocd64Locator { buffer, .. } => buffer,
        State::ReadEocd64 { buffer, .. } => buffer,
        State::ReadCentralDirectory { buffer, .. } => buffer,
        State::Done => arbitrary(),
    }
}

/// `post` is `pre` with its buffer replaced by `b`.
pub open spec fn with_buffer(pre: State, post: State, b: ReadBuffer) -> bool {
    match pre {
        State::ReadEocd { haystack_size, .. } => post == State::ReadEocd { buffer: b, haystack_size },
        State::ReadEocd64Locator { eocdr, .. } => post == State::ReadEocd64Locator { buffer: b, eocdr },
        State::ReadEocd64 { eocdr64_offset, eocdr, .. } => post == State::ReadEocd64 {
            buffer: b,
            eocdr64_offset,
            eocdr,
        },
        State::ReadCentralDirectory { eocd, directory_headers, .. } => post
            == State::ReadCentralDirectory { buffer: b, eocd, directory_headers },
        State::Done => post is Done,
    }
}

/// The offset in the file that the next bytes handed to the machine in
/// state `s` must come from.
pub open spec fn spec_wants_read(size: u64, s: State) -> u64 {
    match s {
        State::ReadEocd { buffer, haystack_size } => crate::fsm::buffer::saturating_sum(
            buffer.spec_read_bytes(),
            size - haystack_size,
        ),
        State::ReadEocd64Locator { buffer, eocdr } => crate::fsm::buffer::saturating_sum(
            buffer.spec_read_bytes(),
            eocdr.offset - 20,
        ),
        State::ReadEocd64 { buffer, eocdr64_offset, .. } => crate::fsm::buffer::saturating_sum(
            buffer.spec_read_bytes(),
            eocdr64_offset as int,
        ),
        State::ReadCentralDirectory { buffer, eocd, .. } => crate::fsm::buffer::saturating_sum(
            buffer.spec_read_bytes(),
            eocd.spec_directory_offset() as int,
        ),
        State::Done => 0,
    }
}

/// Every header of `hs` has a name and comment that fit the format.
pub open spec fn headers_wf(hs: Seq<CentralDirectoryFileHeader>) -> bool {
    forall|i: int| 0 <= i < hs.len() ==> (#[trigger] hs[i]).spec_wf()
}

/// The invariant of the archive reader in state `s`, for a file of `size`
/// bytes.
pub open spec fn spec_state_wf(size: u64, s: State) -> bool {
    match s {
        State::ReadEocd { buffer, haystack_size } => {
            &&& haystack_size == spec_haystack_size(size)
            &&& buffer.spec_data().len() == buffer.spec_read_bytes()
            &&& buffer.spec_capacity() == DEFAULT_BUFFER_SIZE
            &&& buffer.spec_data().len() <= buffer.spec_capacity()
        },
        State::ReadEocd64Locator { buffer, eocdr } => {
            &&& eocdr.offset >= 20
            &&& eocdr.inner.comment@.len() <= 0xFFFF
        },
        State::ReadEocd64 { buffer, eocdr, .. } => eocdr.inner.comment@.len() <= 0xFFFF,
        State::ReadCentralDirectory { buffer, eocd, directory_headers } => {
            &&& eocd.dir.inner.comment@.len() <= 0xFFFF
            &&& headers_wf(directory_headers@)
        },
        State::Done => true,
    }
}

proof fn lemma_headers_push(
    s: Seq<u8>,
    hs: Seq<CentralDirectoryFileHeader>,
    offs: Seq<int>,
    h: CentralDirectoryFileHeader,
)
    requires
        header_offsets(s, hs, offs),
        header_at(s.subrange(offs.last(), s.len() as int), h),
    ensures
        header_offsets(
            s,
            hs.push(h),
            offs.push(offs.last() + spec_central_header_len(s.subrange(offs.last(), s.len() as int))),
        ),
{
    let n = offs.last();
    let t = s.subrange(n, s.len() as int);
    assert(n + spec_central_header_len(t) <= s.len()) by {
        reveal(header_at);
    }
    let hs2 = hs.push(h);
    let offs2 = offs.push(n + spec_central_header_len(t));
    assert forall|i: int| 0 <= i < hs2.len() implies #[trigger] header_offset_ok(s, hs2, offs2, i) by {
        if i < hs.len() {
            assert(header_offset_ok(s, hs, offs, i));
            assert(hs2[i] == hs[i]);
            assert(offs2[i] == offs[i]);
            assert(offs2[i + 1] == offs[i + 1]);
        } else {
            assert(hs2[i] == h);
            assert(offs2[i] == n);
            assert(offs2[i + 1] == n + spec_central_header_len(t));
        }
    }
    assert(offs2[0] == offs[0]);
    assert(offs2.last() == n + spec_central_header_len(t));
}

impl ArchiveFsm {
    /// The size of the file being read.
    pub closed spec fn spec_size(&self) -> u64 {
        self.size
    }

    /// Where the reader is.
    pub closed spec fn spec_state(&self) -> State {
        self.state
    }

    /// The invariant of the reader.
    pub closed spec fn wf(&self) -> bool {
        spec_state_wf(self.size, self.state)
    }

    /// Whether the reader has finished (with an archive or an error): no
    /// method may be called on it any more.
    pub closed spec fn is_done(&self) -> bool {
        self.state is Done
    }

    /// While it looks for the end of central directory record, the reader
    /// searches the last `min(size, 66560)` bytes of the file, holds the
    /// bytes it was handed since it started, and asks for the bytes right
    /// after those: the offset it wants is where the searched tail starts,
    /// plus the bytes it holds (when that fits in a `u64`).
    pub proof fn lemma_eocd_read_offset(&self)
        requires
            self.wf(),
            self.spec_state() is ReadEocd,
        ensures
            self.spec_state() matches State::ReadEocd { buffer, haystack_size } && ({
                &&& haystack_size == spec_haystack_size(self.spec_size())
                &&& buffer.spec_read_bytes() == buffer.spec_data().len()
                &&& buffer.spec_capacity() == DEFAULT_BUFFER_SIZE
                &&& buffer.spec_data().len() <= buffer.spec_capacity()
                &&& (self.spec_size() - haystack_size + buffer.spec_data().len() <= u64::MAX ==> spec_wants_read(
                    self.spec_size(),
                    self.spec_state(),
                ) == self.spec_size() - haystack_size + buffer.spec_data().len())
            }),
    {
    }

    /// Create a new archive reader with a specified file size.
    ///
    /// Actual reading of the file is performed by calling
    /// [wants_read()](Self::wants_read()), [fill()](Self::fill()) and
    /// [process()](Self::process()) in a loop.
    pub fn new(size: u64) -> (r: Self)
        ensures
            r.wf(),
            !r.is_done(),
            r.spec_size() == size,
            r.spec_state() matches State::ReadEocd { buffer, haystack_size }
                && haystack_size == spec_haystack_size(size) && buffer.spec_data()
                == Seq::<u8>::empty() && buffer.spec_read_bytes() == 0 && buffer.spec_capacity()
                == DEFAULT_BUFFER_SIZE && buffer.spec_room() == DEFAULT_BUFFER_SIZE,
    {
        let haystack_size: u64 = if size < EOCD_HAYSTACK_SIZE {
            size
        } else {
            EOCD_HAYSTACK_SIZE
        };
        ArchiveFsm {
            size,
            state: State::ReadEocd {
                buffer: ReadBuffer::with_capacity(DEFAULT_BUFFER_SIZE),
                haystack_size,
            },
        }
    }

    /// Returns whether or not this reader needs more data to continue.
    ///
    /// Returns `Some(offset)` if this reader needs to read some data from `offset`.
    /// In this case, [fill()](Self::fill()) should be called with bytes read
    /// at that offset.
    pub fn wants_read(&self) -> (r: Option<u64>)
        requires
            self.wf(),
            !self.is_done(),
        ensures
            r == Some(spec_wants_read(self.spec_size(), self.spec_state())),
    {
        match &self.state {
            State::ReadEocd { buffer, haystack_size } => Some(
                buffer.read_offset(self.size - *haystack_size),
            ),
            State::ReadEocd64Locator { buffer, eocdr } => Some(buffer.read_offset(eocdr.offset - 20)),
            State::ReadEocd64 { buffer, eocdr64_offset, .. } => Some(
                buffer.read_offset(*eocdr64_offset),
            ),
            State::ReadCentralDirectory { buffer, eocd, .. } => Some(
                buffer.read_offset(eocd.directory_offset()),
            ),
            State::Done => None,
        }
    }

    /// Makes room in the buffer if there is none, and returns how many bytes
    /// the next [fill()](Self::fill()) can take.
    pub fn space(&mut self) -> (r: usize)
        requires
            old(self).wf(),
            !old(self).is_done(),
        ensures
            final(self).wf(),
            !final(self).is_done(),
            final(self).spec_size() == old(self).spec_size(),
            with_buffer(old(self).spec_state(), final(self).spec_state(), state_buffer(final(self).spec_state())),
            state_buffer(final(self).spec_state()).spec_data() == state_buffer(old(self).spec_state()).spec_data(),
            state_buffer(final(self).spec_state()).spec_read_bytes() == state_buffer(old(self).spec_state()).spec_read_bytes(),
            state_buffer(final(self).spec_state()).spec_capacity() == state_buffer(old(self).spec_state()).spec_capacity(),
            state_buffer(final(self).spec_state()).spec_room() == (if state_buffer(
                old(self).spec_state(),
            ).spec_room() == 0 {
                state_buffer(old(self).spec_state()).spec_capacity() - state_buffer(
                    old(self).spec_state(),
                ).spec_data().len()
            } else {
                state_buffer(old(self).spec_state()).spec_room() as int
            }),
            r == state_buffer(final(self).spec_state()).spec_room(),
            r + state_buffer(final(self).spec_state()).spec_data().len() <= state_buffer(
                final(self).spec_state(),
            ).spec_capacity(),
    {
        let mut state = State::Done;
        core::mem::swap(&mut state, &mut self.state);
        let (r, new_state) = match state {
            State::ReadEocd { mut buffer, haystack_size } => {
                if buffer.available_space() == 0 {
                    buffer.shift();
                }
                let r = buffer.space();
                (r, State::ReadEocd { buffer, haystack_size })
            },
            State::ReadEocd64Locator { mut buffer, eocdr } => {
                if buffer.available_space() == 0 {
                    buffer.shift();
                }
                let r = buffer.space();
                (r, State::ReadEocd64Locator { buffer, eocdr })
            },
            State::ReadEocd64 { mut buffer, eocdr64_offset, eocdr } => {
                if buffer.available_space() == 0 {
                    buffer.shift();
                }
                let r = buffer.space();
                (r, State::ReadEocd64 { buffer, eocdr64_offset, eocdr })
            },
            State::ReadCentralDirectory { mut buffer, eocd, directory_headers } => {
                if buffer.available_space() == 0 {
                    buffer.shift();
                }
                let r = buffer.space();
                (r, State::ReadCentralDirectory { buffer, eocd, directory_headers })
            },
            State::Done => (0, State::Done),
        };
        self.state = new_state;
        r
    }

    /// Hands bytes read at [wants_read()](Self::wants_read()) to the reader,
    /// and returns how many it took: the start of `data`, as much as fits.
    pub fn fill(&mut self, data: &[u8]) -> (r: usize)
        requires
            old(self).wf(),
            !old(self).is_done(),
        ensures
            final(self).wf(),
            !final(self).is_done(),
            final(self).spec_size() == old(self).spec_size(),
            r == (if data@.len() <= state_buffer(old(self).spec_state()).spec_room() {
                data@.len() as int
            } else {
                state_buffer(old(self).spec_state()).spec_room() as int
            }),
            with_buffer(old(self).spec_state(), final(self).spec_state(), state_buffer(final(self).spec_state())),
            state_buffer(final(self).spec_state()).spec_data() == state_buffer(old(self).spec_state()).spec_data() + data@.subrange(0, r as int),
            state_buffer(final(self).spec_state()).spec_read_bytes() == crate::fsm::buffer::saturating_sum(
                state_buffer(old(self).spec_state()).spec_read_bytes(),
                r as int,
            ),
            state_buffer(final(self).spec_state()).spec_capacity() == state_buffer(old(self).spec_state()).spec_capacity(),
            state_buffer(final(self).spec_state()).spec_room() == crate::fsm::buffer::room_after_fill(
                state_buffer(old(self).spec_state()).spec_capacity() as int,
                state_buffer(old(self).spec_state()).spec_room() as int,
                state_buffer(final(self).spec_state()).spec_data().len() as int,
                r as int,
            ),
    {
        let mut state = State::Done;
        core::mem::swap(&mut state, &mut self.state);
        let (r, new_state) = match state {
            State::ReadEocd { mut buffer, haystack_size } => {
                let r = buffer.fill(data);
                (r, State::ReadEocd { buffer, haystack_size })
            },
            State::ReadEocd64Locator { mut buffer, eocdr } => {
                let r = buffer.fill(data);
                (r, State::ReadEocd64Locator { buffer, eocdr })
            },
            State::ReadEocd64 { mut buffer, eocdr64_offset, eocdr } => {
                let r = buffer.fill(data);
                (r, State::ReadEocd64 { buffer, eocdr64_offset, eocdr })
            },
            State::ReadCentralDirectory { mut buffer, eocd, directory_headers } => {
                let r = buffer.fill(data);
                (r, State::ReadCentralDirectory { buffer, eocd, directory_headers })
            },
            State::Done => (0, State::Done),
        };
        self.state = new_state;
        r
    }
}

/// The machine moves on to reading the central directory that the records
/// give, with the buffer reset, or stops at the error that coalescing them
/// gives.
fn enter_directory(
    size: u64,
    buffer: ReadBuffer,
    Ghost(before): Ghost<ReadBuffer>,
    dir: Located<EndOfCentralDirectoryRecord>,
    dir64: Option<Located<EndOfCentralDirectory64Record>>,
) -> (res: (Result<FsmResult<(), Archive>, Error>, State))
    requires
        is_reset(buffer, before),
        dir.inner.comment@.len() <= 0xFFFF,
    ensures
        spec_enter_directory(size, before, dir, dir64, res.1, res.0),
        spec_state_wf(size, res.1),
        res.1 is Done <==> res.0 is Err,
{
    match EndOfCentralDirectory::new(size, dir, dir64) {
        Ok(eocd) => (
            Ok(FsmResult::Continue(())),
            State::ReadCentralDirectory { buffer, eocd, directory_headers: Vec::new() },
        ),
        Err(e) => (Err(e), State::Done),
    }
}

/// The comment of an end of central directory record at the start of `s`
/// is at most 0xFFFF bytes long.
proof fn lemma_eocdr_comment_len(rec: EndOfCentralDirectoryRecord, s: Seq<u8>)
    requires
        EndOfCentralDirectoryRecord::spec_parses(s),
        rec.spec_matches(s),
    ensures
        rec.comment@.len() <= 0xFFFF,
{
}

/// Finding and reading the end of central directory record.
fn process_read_eocd(size: u64, buffer: ReadBuffer, haystack_size: u64) -> (res: (
    Result<FsmResult<(), Archive>, Error>,
    State,
))
    requires
        spec_state_wf(size, State::ReadEocd { buffer, haystack_size }),
    ensures
        spec_step(size, State::ReadEocd { buffer, haystack_size }, res.1, res.0),
        spec_state_wf(size, res.1),
        res.1 is Done <==> res.0 is Err,
{
    if buffer.read_bytes() < haystack_size {
        return (Ok(FsmResult::Continue(())), State::ReadEocd { buffer, haystack_size });
    }
    let ghost hay = buffer.spec_data().subrange(0, haystack_size as int);
    let found = {
        let data = buffer.data();
        let haystack = slice_subrange(data, 0, haystack_size as usize);
        assert(haystack@ == hay);
        EndOfCentralDirectoryRecord::find_in_block(haystack)
    };
    match found {
        None => (
            Err(Error::Format(FormatError::DirectoryEndSignatureNotFound)),
            State::Done,
        ),
        Some(located) => {
            let ghost i = located.offset as int;
            proof {
                lemma_eocdr_comment_len(located.inner, hay.subrange(i, hay.len() as int));
            }
            let offset = located.offset + (size - haystack_size);
            let eocdr = Located { offset, inner: located.inner };
            let ghost before = buffer;
            let mut buffer = buffer;
            buffer.reset();
            let res = if offset < 20 {
                // no room for an EOCD64 locator, definitely not a zip64 file
                enter_directory(size, buffer, Ghost(before), eocdr, None)
            } else {
                (Ok(FsmResult::Continue(())), State::ReadEocd64Locator { buffer, eocdr })
            };
            assert(EndOfCentralDirectoryRecord::spec_last_match(hay, i) && located.inner.spec_matches(
                hay.subrange(i, hay.len() as int),
            ));
            res
        },
    }
}

/// Reading the zip64 end of central directory locator.
fn process_read_locator(
    size: u64,
    buffer: ReadBuffer,
    eocdr: Located<EndOfCentralDirectoryRecord>,
) -> (res: (Result<FsmResult<(), Archive>, Error>, State))
    requires
        spec_state_wf(size, State::ReadEocd64Locator { buffer, eocdr }),
    ensures
        spec_step(size, State::ReadEocd64Locator { buffer, eocdr }, res.1, res.0),
        spec_state_wf(size, res.1),
        res.1 is Done <==> res.0 is Err,
{
    let parsed = EndOfCentralDirectory64Locator::parser(buffer.data());
    let ghost before = buffer;
    match parsed {
        Err(ParseError::Incomplete) => (
            Ok(FsmResult::Continue(())),
            State::ReadEocd64Locator { buffer, eocdr },
        ),
        Err(ParseError::Invalid) => {
            // we don't have a zip64 end of central directory locator - that's ok!
            let mut buffer = buffer;
            buffer.reset();
            enter_directory(size, buffer, Ghost(before), eocdr, None)
        },
        Ok((_, locator)) => {
            let mut buffer = buffer;
            buffer.reset();
            (
                Ok(FsmResult::Continue(())),
                State::ReadEocd64 { buffer, eocdr64_offset: locator.directory_offset, eocdr },
            )
        },
    }
}

/// Reading the zip64 end of central directory record.
fn process_read_eocd64(
    size: u64,
    buffer: ReadBuffer,
    eocdr64_offset: u64,
    eocdr: Located<EndOfCentralDirectoryRecord>,
) -> (res: (Result<FsmResult<(), Archive>, Error>, State))
    requires
        spec_state_wf(size, State::ReadEocd64 { buffer, eocdr64_offset, eocdr }),
    ensures
        spec_step(size, State::ReadEocd64 { buffer, eocdr64_offset, eocdr }, res.1, res.0),
        spec_state_wf(size, res.1),
        res.1 is Done <==> res.0 is Err,
{
    let parsed = EndOfCentralDirectory64Record::parser(buffer.data());
    let ghost before = buffer;
    match parsed {
        Err(ParseError::Incomplete) => (
            Ok(FsmResult::Continue(())),
            State::ReadEocd64 { buffer, eocdr64_offset, eocdr },
        ),
        Err(ParseError::Invalid) => {
            // at this point, we really expected to have a zip64 end
            // of central directory record, so, we want to propagate
            // that error.
            (Err(Error::Format(FormatError::Directory64EndRecordInvalid)), State::Done)
        },
        Ok((_, eocdr64)) => {
            let mut buffer = buffer;
            buffer.reset();
            enter_directory(
                size,
                buffer,
                Ghost(before),
                eocdr,
                Some(Located { offset: eocdr64_offset, inner: eocdr64 }),
            )
        },
    }
}

/// Some byte of `s` is a box drawing character.
pub open spec fn has_box_drawing(s: Seq<u8>) -> bool {
    exists|k: int| 0 <= k < s.len() && is_box_drawing(#[trigger] s[k])
}

proof fn lemma_box_drawing_concat(a: Seq<u8>, b: Seq<u8>)
    ensures
        has_box_drawing(a + b) == (has_box_drawing(a) || has_box_drawing(b)),
{
    let c = a + b;
    if has_box_drawing(c) {
        let k = choose|k: int| 0 <= k < c.len() && is_box_drawing(#[trigger] c[k]);
        if k < a.len() {
            assert(a[k] == c[k]);
        } else {
            assert(b[k - a.len()] == c[k]);
        }
    }
    if has_box_drawing(a) {
        let k = choose|k: int| 0 <= k < a.len() && is_box_drawing(#[trigger] a[k]);
        assert(c[k] == a[k]);
    }
    if has_box_drawing(b) {
        let k = choose|k: int| 0 <= k < b.len() && is_box_drawing(#[trigger] b[k]);
        assert(c[k + a.len()] == b[k]);
    }
}

/// Detects the encoding of the names and comments of the headers `all`.
fn detect_encoding(all: &Vec<CentralDirectoryFileHeader>) -> (r: Encoding)
    requires
        forall|i: int| 0 <= i < all@.len() ==> (#[trigger] all@[i]).spec_wf(),
    ensures
        r == spec_archive_encoding(all@),
{
    let ghost hs = all@;
    let mut guess = EncodingGuess::new();
    let mut all_utf8 = true;
    let mut total_fed: usize = 0;
    let mut i: usize = 0;
    assert(guess.spec_fed() =~= Seq::<u8>::empty());
    while i < all.len()
        invariant_except_break
            spec_feed_from(hs, 0, Seq::<u8>::empty()) == spec_feed_from(hs, i as int, guess.spec_fed()),
            total_fed < MAX_DETECTOR_FEED,
            all_utf8 == (forall|j: int| 0 <= j < i ==> !header_non_utf8(#[trigger] hs[j])),
        invariant
            hs == all@,
            i <= all@.len(),
            forall|j: int| 0 <= j < all@.len() ==> (#[trigger] all@[j]).spec_wf(),
            total_fed == guess.spec_fed().len(),
            guess.spec_suspicious() == has_box_drawing(guess.spec_fed()),
        ensures
            spec_feed_from(hs, 0, Seq::<u8>::empty()) == guess.spec_fed(),
            guess.spec_suspicious() == has_box_drawing(guess.spec_fed()),
            all_utf8 == (forall|j: int| 0 <= j < hs.len() ==> !header_non_utf8(#[trigger] hs[j])),
        decreases all@.len() - i,
    {
        let h = &all[i];
        if h.is_non_utf8() {
            all_utf8 = false;
            let ghost fed0 = guess.spec_fed();
            let name = h.name.0.as_slice();
            proof {
                lemma_box_drawing_concat(fed0, name@);
            }
            guess.feed(name);
            total_fed = total_fed + name.len();
            if total_fed >= MAX_DETECTOR_FEED {
                assert(!(forall|j: int| 0 <= j < hs.len() ==> !header_non_utf8(#[trigger] hs[j])))
                    by {
                    assert(header_non_utf8(hs[i as int]));
                }
                break;
            }
            let ghost fed1 = guess.spec_fed();
            let comment = h.comment.0.as_slice();
            proof {
                lemma_box_drawing_concat(fed1, comment@);
            }
            guess.feed(comment);
            total_fed = total_fed + comment.len();
            if total_fed >= MAX_DETECTOR_FEED {
                assert(!(forall|j: int| 0 <= j < hs.len() ==> !header_non_utf8(#[trigger] hs[j])))
                    by {
                    assert(header_non_utf8(hs[i as int]));
                }
                break;
            }
        }
        i = i + 1;
    }
    guess.encoding(all_utf8)
}

/// Builds the archive once all headers of the central directory are read.
fn finish(size: u64, eocd: &EndOfCentralDirectory, all: &Vec<CentralDirectoryFileHeader>) -> (r:
    Result<FsmResult<(), Archive>, Error>)
    requires
        eocd.dir.inner.comment@.len() <= 0xFFFF,
        forall|i: int| 0 <= i < all@.len() ==> (#[trigger] all@[i]).spec_wf(),
    ensures
        spec_finish(size, *eocd, all@, r),
{
    // only compare 16 bits here
    let expected = all.len() as u16;
    let actual = eocd.directory_records() as u16;
    if expected != actual {
        // if we read the wrong number of directory entries,
        // error out.
        return Err(Error::Format(FormatError::InvalidCentralRecord { expected, actual }));
    }
    let encoding = detect_encoding(all);
    let global_offset = eocd.global_offset;
    let ghost hs = all@;
    let mut entries: Vec<Entry> = Vec::new();
    let mut i: usize = 0;
    while i < all.len()
        invariant
            hs == all@,
            i <= hs.len(),
            entries@.len() == i,
            forall|j: int| 0 <= j < hs.len() ==> (#[trigger] hs[j]).spec_wf(),
            forall|j: int| 0 <= j < i ==> (#[trigger] hs[j]).spec_entry_ok(encoding, global_offset),
            forall|j: int|
                0 <= j < i ==> hs[j].spec_is_entry(encoding, global_offset, #[trigger] entries@[j]),
            encoding == spec_archive_encoding(hs),
            global_offset == eocd.global_offset,
            expected == actual,
            expected == hs.len() as u16,
            actual == eocd.spec_directory_records() as u16,
        decreases hs.len() - i,
    {
        match all[i].as_entry(encoding, global_offset) {
            Ok(e) => {
                entries.push(e);
            },
            Err(e) => {
                assert(!hs[i as int].spec_entry_ok(encoding, global_offset));
                return Err(e);
            },
        }
        i = i + 1;
    }
    let raw = eocd.comment();
    let comment = if raw.0.len() == 0 {
        let c = String::new();
        assert(c@ =~= Seq::<char>::empty());
        c
    } else {
        match encoding.decode(raw.0.as_slice()) {
            Ok(c) => c,
            Err(e) => {
                return Err(Error::Encoding(e));
            },
        }
    };
    Ok(FsmResult::Done(Archive { size, encoding, entries, comment }))
}

/// Reading all headers from the central directory.
fn process_read_directory(
    size: u64,
    buffer: ReadBuffer,
    eocd: EndOfCentralDirectory,
    directory_headers: Vec<CentralDirectoryFileHeader>,
) -> (res: (Result<FsmResult<(), Archive>, Error>, State))
    requires
        spec_state_wf(size, State::ReadCentralDirectory { buffer, eocd, directory_headers }),
    ensures
        spec_step(size, State::ReadCentralDirectory { buffer, eocd, directory_headers }, res.1, res.0),
        spec_state_wf(size, res.1),
        res.1 is Done <==> (res.0 is Err || res.0 matches Ok(FsmResult::Done(_))),
{
    let ghost pre_headers = directory_headers@;
    let ghost s = buffer.spec_data();
    let ghost buffer0 = buffer;
    let ghost eocd0 = eocd;
    assert(headers_wf(directory_headers@));
    let mut headers = directory_headers;
    let ghost mut hs: Seq<CentralDirectoryFileHeader> = Seq::empty();
    let ghost mut offs: Seq<int> = seq![0int];
    let mut pos: usize = 0;
    let mut end_of_directory = false;
    {
        let data = buffer.data();
        let n = data.len();
        assert(header_offsets(s, hs, offs));
        assert(forall|i: int| 0 <= i < pre_headers.len() ==> (#[trigger] pre_headers[i]).spec_wf());
        assert(headers@ == pre_headers + hs);
        loop
            invariant_except_break
                !end_of_directory,
            invariant
                data@ == s,
                n == s.len(),
                pos <= n,
                header_offsets(s, hs, offs),
                offs.last() == pos,
                headers@ == pre_headers + hs,
                forall|i: int| 0 <= i < headers@.len() ==> (#[trigger] headers@[i]).spec_wf(),
                forall|i: int| 0 <= i < pre_headers.len() ==> (#[trigger] pre_headers[i]).spec_wf(),
            ensures
                no_header_at(s.subrange(pos as int, s.len() as int)),
                end_of_directory == sig_conflict(
                    s.subrange(pos as int, s.len() as int),
                    central_header_sig(),
                ),
            decreases n - pos,
        {
            let rest = slice_subrange(data, pos, n);
            assert(rest@ == s.subrange(pos as int, s.len() as int));
            let parsed = CentralDirectoryFileHeader::parser(rest);
            match parsed {
                Ok((len, h)) => {
                    proof {
                        assert(header_at(rest@, h)) by {
                            reveal(header_at);
                        }
                        lemma_headers_push(s, hs, offs, h);
                        hs = hs.push(h);
                        offs = offs.push(pos + len);
                        assert(headers@.push(h) == pre_headers + hs);
                    }
                    headers.push(h);
                    pos = pos + len;
                },
                Err(ParseError::Incomplete) => {
                    // need more data to read the full header
                    assert(!sig_conflict(rest@, central_header_sig()));
                    break;
                },
                Err(ParseError::Invalid) => {
                    // this is the normal end condition when reading
                    // the central directory (due to 65536-entries non-zip64 files)
                    end_of_directory = true;
                    assert(sig_conflict(rest@, central_header_sig()));
                    break;
                },
            }
        }
    }
    assert(headers_at(s, hs, pos as int));
    let res = if !end_of_directory {
        let mut buffer = buffer;
        buffer.consume(pos);
        (
            Ok(FsmResult::Continue(())),
            State::ReadCentralDirectory { buffer, eocd, directory_headers: headers },
        )
    } else {
        let r = finish(size, &eocd, &headers);
        (r, State::Done)
    };
    assert(spec_directory_outcome(size, buffer0, eocd0, pre_headers, hs, pos as int, res.1, res.0));
    assert(spec_directory_step(size, buffer0, eocd0, pre_headers, res.1, res.0));
    res
}

impl ArchiveFsm {
    /// Process buffered data
    ///
    /// Errors returned from process() are caused by invalid zip archives,
    /// unsupported format quirks, or implementation bugs - never I/O errors.
    ///
    /// A result of [FsmResult::Continue] indicates one should loop again,
    /// starting with [wants_read()](Self::wants_read()).
    ///
    /// A result of [FsmResult::Done] contains the [Archive], and indicates that no
    /// method should ever be called again on this reader; neither should one
    /// after an error.
    pub fn process(&mut self) -> (r: Result<FsmResult<(), Archive>, Error>)
        requires
            old(self).wf(),
            !old(self).is_done(),
        ensures
            final(self).wf(),
            final(self).spec_size() == old(self).spec_size(),
            spec_step(old(self).spec_size(), old(self).spec_state(), final(self).spec_state(), r),
            final(self).is_done() <==> (r is Err || r matches Ok(FsmResult::Done(_))),
    {
        let mut state = State::Done;
        core::mem::swap(&mut state, &mut self.state);
        let (r, post) = match state {
            State::ReadEocd { buffer, haystack_size } => process_read_eocd(
                self.size,
                buffer,
                haystack_size,
            ),
            State::ReadEocd64Locator { buffer, eocdr } => process_read_locator(
                self.size,
                buffer,
                eocdr,
            ),
            State::ReadEocd64 { buffer, eocdr64_offset, eocdr } => process_read_eocd64(
                self.size,
                buffer,
                eocdr64_offset,
                eocdr,
            ),
            State::ReadCentralDirectory { buffer, eocd, directory_headers } => process_read_directory(
                self.size,
                buffer,
                eocd,
                directory_headers,
            ),
            State::Done => (Ok(FsmResult::Continue(())), State::Done),
        };
        self.state = post;
        r
    }
}

} // verus!
