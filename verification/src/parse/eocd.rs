//! The end of central directory record, its zip64 counterparts, and the
//! location of the central directory they give (APPNOTE 4.3.14 to 4.3.16).
use vstd::prelude::*;

use super::{check_pk_sig, pk_sig, sig_conflict, ParseError, ZipString};
use super::raw::take_bytes;
use crate::error::{Error, FormatError};
use crate::le::{read_u16_le, read_u32_le, read_u64_le, spec_u16_le, spec_u32_le, spec_u64_le};

verus! {

/// A value, and the offset at which it was found.
#[derive(Debug, Clone, Copy, PartialEq, Eq, Structural)]
pub struct Located<T> {
    /// where the value starts
    pub offset: u64,
    /// the value
    pub inner: T,
}

/// 4.3.16  End of central directory record:
#[derive(Debug)]
pub struct EndOfCentralDirectoryRecord {
    /// number of this disk
    pub disk_nbr: u16,
    /// number of the disk with the start of the central directory
    pub dir_disk_nbr: u16,
    /// total number of entries in the central directory on this disk
    pub dir_records_this_disk: u16,
    /// total number of entries in the central directory
    pub directory_records: u16,
    /// size of the central directory
    pub directory_size: u32,
    /// offset of start of central directory with respect to the starting disk number
    pub directory_offset: u32,
    /// .ZIP file comment
    pub comment: ZipString,
}

/// The signature of an end of central directory record, `PK\x05\x06`.
pub open spec fn eocdr_sig() -> Seq<u8> {
    pk_sig(5, 6)
}

/// Length of an end of central directory record, without its comment length
/// and comment.
pub const EOCDR_MIN_LENGTH: usize = 20;

impl EndOfCentralDirectoryRecord {
    /// How many bytes the record at the start of `s` takes, as far as `s`
    /// tells.
    pub open spec fn spec_len(s: Seq<u8>) -> int {
        if s.len() < 22 {
            22
        } else {
            22 + spec_u16_le(s, 20)
        }
    }

    /// `s` starts with a whole end of central directory record.
    pub open spec fn spec_parses(s: Seq<u8>) -> bool {
        !sig_conflict(s, eocdr_sig()) && s.len() >= Self::spec_len(s)
    }

    /// The fields of `self` are those of the record at the start of `s`.
    pub open spec fn spec_matches(self, s: Seq<u8>) -> bool {
        &&& self.disk_nbr == spec_u16_le(s, 4)
        &&& self.dir_disk_nbr == spec_u16_le(s, 6)
        &&& self.dir_records_this_disk == spec_u16_le(s, 8)
        &&& self.directory_records == spec_u16_le(s, 10)
        &&& self.directory_size == spec_u32_le(s, 12)
        &&& self.directory_offset == spec_u32_le(s, 16)
        &&& self.comment@ == s.subrange(22, Self::spec_len(s))
    }

    /// Parser for the end of central directory record.
    pub fn parser(input: &[u8]) -> (r: Result<(usize, Self), ParseError>)
        ensures
            r == Err::<(usize, Self), ParseError>(ParseError::Invalid) <==> sig_conflict(
                input@,
                eocdr_sig(),
            ),
            r == Err::<(usize, Self), ParseError>(ParseError::Incomplete) <==> !sig_conflict(
                input@,
                eocdr_sig(),
            ) && input@.len() < Self::spec_len(input@),
            r is Ok <==> Self::spec_parses(input@),
            r matches Ok((n, d)) ==> n == Self::spec_len(input@) && d.spec_matches(input@),
    {
        match check_pk_sig(input, 5, 6) {
            Err(e) => {
                return Err(e);
            },
            Ok(()) => {},
        }
        if input.len() < 22 {
            return Err(ParseError::Incomplete);
        }
        let comment_len = read_u16_le(input, 20) as usize;
        if input.len() - 22 < comment_len {
            return Err(ParseError::Incomplete);
        }
        Ok(
            (
                22 + comment_len,
                EndOfCentralDirectoryRecord {
                    disk_nbr: read_u16_le(input, 4),
                    dir_disk_nbr: read_u16_le(input, 6),
                    dir_records_this_disk: read_u16_le(input, 8),
                    directory_records: read_u16_le(input, 10),
                    directory_size: read_u32_le(input, 12),
                    directory_offset: read_u32_le(input, 16),
                    comment: ZipString(take_bytes(input, 22, comment_len)),
                },
            ),
        )
    }

    /// `i` is the last offset of `b` at which a whole record starts.
    pub open spec fn spec_last_match(b: Seq<u8>, i: int) -> bool {
        &&& 0 <= i <= b.len()
        &&& Self::spec_parses(b.subrange(i, b.len() as int))
        &&& forall|j: int| i < j <= b.len() ==> !Self::spec_parses(#[trigger] b.subrange(j, b.len() as int))
    }

    /// Looks for the end of central directory record in `b`, from the end
    /// of the block backwards (a comment may follow the record).
    pub fn find_in_block(b: &[u8]) -> (r: Option<Located<Self>>)
        ensures
            r is None <==> forall|j: int| 0 <= j <= b@.len() ==> !Self::spec_parses(
                #[trigger] b@.subrange(j, b@.len() as int),
            ),
            r matches Some(l) ==> Self::spec_last_match(b@, l.offset as int) && l.inner.spec_matches(
                b@.subrange(l.offset as int, b@.len() as int),
            ),
    {
        let n = b.len();
        if n < EOCDR_MIN_LENGTH {
            proof {
                assert forall|j: int| 0 <= j <= b@.len() implies !Self::spec_parses(
                    #[trigger] b@.subrange(j, b@.len() as int),
                ) by {
                    assert(b@.subrange(j, b@.len() as int).len() < 22);
                }
            }
            return None;
        }
        proof {
            assert forall|j: int| n - EOCDR_MIN_LENGTH < j <= b@.len() implies !Self::spec_parses(
                #[trigger] b@.subrange(j, b@.len() as int),
            ) by {
                assert(b@.subrange(j, b@.len() as int).len() < 22);
            }
        }
        let mut i: usize = n - EOCDR_MIN_LENGTH + 1;
        while i > 0
            invariant
                n == b@.len(),
                i <= n - EOCDR_MIN_LENGTH + 1,
                forall|j: int| i <= j <= b@.len() ==> !Self::spec_parses(
                    #[trigger] b@.subrange(j, b@.len() as int),
                ),
            decreases i,
        {
            i = i - 1;
            let slice = vstd::slice::slice_subrange(b, i, n);
            match Self::parser(slice) {
                Ok((_, directory)) => {
                    return Some(Located { offset: i as u64, inner: directory });
                },
                Err(_) => {},
            }
        }
        None
    }
}

/// 4.3.15 Zip64 end of central directory locator
#[derive(Debug, Clone, Copy, PartialEq, Eq, Structural)]
pub struct EndOfCentralDirectory64Locator {
    /// number of the disk with the start of the zip64 end of central directory
    pub dir_disk_number: u32,
    /// relative offset of the zip64 end of central directory record
    pub directory_offset: u64,
    /// total number of disks
    pub total_disks: u32,
}

/// The signature of a zip64 end of central directory locator, `PK\x06\x07`.
pub open spec fn eocd64_locator_sig() -> Seq<u8> {
    pk_sig(6, 7)
}

/// Length of a zip64 end of central directory locator.
pub const EOCD64_LOCATOR_LENGTH: usize = 20;

impl EndOfCentralDirectory64Locator {
    /// The locator stored at the start of `s`.
    pub open spec fn spec_at(s: Seq<u8>) -> EndOfCentralDirectory64Locator {
        EndOfCentralDirectory64Locator {
            dir_disk_number: spec_u32_le(s, 4),
            directory_offset: spec_u64_le(s, 8),
            total_disks: spec_u32_le(s, 16),
        }
    }

    /// Parser for the zip64 end of central directory locator.
    pub fn parser(input: &[u8]) -> (r: Result<(usize, Self), ParseError>)
        ensures
            r == Err::<(usize, Self), ParseError>(ParseError::Invalid) <==> sig_conflict(
                input@,
                eocd64_locator_sig(),
            ),
            r == Err::<(usize, Self), ParseError>(ParseError::Incomplete) <==> !sig_conflict(
                input@,
                eocd64_locator_sig(),
            ) && input@.len() < 20,
            r matches Ok((n, l)) ==> n == 20 && l == Self::spec_at(input@),
    {
        match check_pk_sig(input, 6, 7) {
            Err(e) => {
                return Err(e);
            },
            Ok(()) => {},
        }
        if input.len() < EOCD64_LOCATOR_LENGTH {
            return Err(ParseError::Incomplete);
        }
        Ok(
            (
                EOCD64_LOCATOR_LENGTH,
                EndOfCentralDirectory64Locator {
                    dir_disk_number: read_u32_le(input, 4),
                    directory_offset: read_u64_le(input, 8),
                    total_disks: read_u32_le(input, 16),
                },
            ),
        )
    }
}

/// 4.3.14  Zip64 end of central directory record
#[derive(Debug, Clone, Copy, PartialEq, Eq, Structural)]
pub struct EndOfCentralDirectory64Record {
    /// size of zip64 end of central directory record
    pub record_size: u64,
    /// version made by
    pub creator_version: u16,
    /// version needed to extract
    pub reader_version: u16,
    /// number of this disk
    pub disk_nbr: u32,
    /// number of the disk with the start of the central directory
    pub dir_disk_nbr: u32,
    /// total number of entries in the central directory on this disk
    pub dir_records_this_disk: u64,
    /// total number of entries in the central directory
    pub directory_records: u64,
    /// size of the central directory
    pub directory_size: u64,
    /// offset of the start of central directory with respect to the
    /// starting disk number
    pub directory_offset: u64,
}

/// The signature of a zip64 end of central directory record, `PK\x06\x06`.
pub open spec fn eocd64_record_sig() -> Seq<u8> {
    pk_sig(6, 6)
}

/// Length of a zip64 end of central directory record.
pub const EOCD64_RECORD_LENGTH: usize = 56;

impl EndOfCentralDirectory64Record {
    /// The record stored at the start of `s`.
    pub open spec fn spec_at(s: Seq<u8>) -> EndOfCentralDirectory64Record {
        EndOfCentralDirectory64Record {
            record_size: spec_u64_le(s, 4),
            creator_version: spec_u16_le(s, 12),
            reader_version: spec_u16_le(s, 14),
            disk_nbr: spec_u32_le(s, 16),
            dir_disk_nbr: spec_u32_le(s, 20),
            dir_records_this_disk: spec_u64_le(s, 24),
            directory_records: spec_u64_le(s, 32),
            directory_size: spec_u64_le(s, 40),
            directory_offset: spec_u64_le(s, 48),
        }
    }

    /// Parser for the zip64 end of central directory record.
    pub fn parser(input: &[u8]) -> (r: Result<(usize, Self), ParseError>)
        ensures
            r == Err::<(usize, Self), ParseError>(ParseError::Invalid) <==> sig_conflict(
                input@,
                eocd64_record_sig(),
            ),
            r == Err::<(usize, Self), ParseError>(ParseError::Incomplete) <==> !sig_conflict(
                input@,
                eocd64_record_sig(),
            ) && input@.len() < 56,
            r matches Ok((n, d)) ==> n == 56 && d == Self::spec_at(input@),
    {
        match check_pk_sig(input, 6, 6) {
            Err(e) => {
                return Err(e);
            },
            Ok(()) => {},
        }
        if input.len() < EOCD64_RECORD_LENGTH {
            return Err(ParseError::Incomplete);
        }
        Ok(
            (
                EOCD64_RECORD_LENGTH,
                EndOfCentralDirectory64Record {
                    record_size: read_u64_le(input, 4),
                    creator_version: read_u16_le(input, 12),
                    reader_version: read_u16_le(input, 14),
                    disk_nbr: read_u32_le(input, 16),
                    dir_disk_nbr: read_u32_le(input, 20),
                    dir_records_this_disk: read_u64_le(input, 24),
                    directory_records: read_u64_le(input, 32),
                    directory_size: read_u64_le(input, 40),
                    directory_offset: read_u64_le(input, 48),
                },
            ),
        )
    }
}

/// Coalesces zip and zip64 "end of central directory" record info
#[derive(Debug)]
pub struct EndOfCentralDirectory {
    /// the end of central directory record
    pub dir: Located<EndOfCentralDirectoryRecord>,
    /// the zip64 end of central directory record, if any
    pub dir64: Option<Located<EndOfCentralDirectory64Record>>,
    /// how far the archive starts into the file: header offsets in the
    /// archive are relative to this point
    pub global_offset: i64,
}

impl EndOfCentralDirectory {
    /// Where the central directory starts, by the records.
    pub open spec fn spec_directory_offset(self) -> u64 {
        match self.dir64 {
            Some(d64) => d64.inner.directory_offset,
            None => self.dir.inner.directory_offset as u64,
        }
    }

    /// How many entries the central directory holds, by the records.
    pub open spec fn spec_directory_records(self) -> u64 {
        match self.dir64 {
            Some(d64) => d64.inner.directory_records,
            None => self.dir.inner.directory_records as u64,
        }
    }

    /// How many bytes the central directory takes, by the records.
    pub open spec fn spec_directory_size(self) -> u64 {
        match self.dir64 {
            Some(d64) => d64.inner.directory_size,
            None => self.dir.inner.directory_size as u64,
        }
    }

    /// Where the record that ends the central directory was found: the zip64
    /// record when there is one.
    pub open spec fn spec_located_directory_offset(self) -> u64 {
        match self.dir64 {
            Some(d64) => d64.offset,
            None => self.dir.offset,
        }
    }

    /// Where the central directory starts, by the records.
    pub fn directory_offset(&self) -> (r: u64)
        ensures
            r == self.spec_directory_offset(),
    {
        match &self.dir64 {
            Some(d64) => d64.inner.directory_offset,
            None => self.dir.inner.directory_offset as u64,
        }
    }

    /// How many entries the central directory holds, by the records.
    pub fn directory_records(&self) -> (r: u64)
        ensures
            r == self.spec_directory_records(),
    {
        match &self.dir64 {
            Some(d64) => d64.inner.directory_records,
            None => self.dir.inner.directory_records as u64,
        }
    }

    /// How many bytes the central directory takes, by the records.
    pub fn directory_size(&self) -> (r: u64)
        ensures
            r == self.spec_directory_size(),
    {
        match &self.dir64 {
            Some(d64) => d64.inner.directory_size,
            None => self.dir.inner.directory_size as u64,
        }
    }

    /// Where the record that ends the central directory was found.
    pub fn located_directory_offset(&self) -> (r: u64)
        ensures
            r == self.spec_located_directory_offset(),
    {
        match &self.dir64 {
            Some(d64) => d64.offset,
            None => self.dir.offset,
        }
    }

    /// `self` with `offset` recorded as the start of the central directory
    /// (truncated to 32 bits when there is no zip64 record).
    pub open spec fn spec_with_directory_offset(self, offset: u64) -> Self {
        match self.dir64 {
            Some(d64) => EndOfCentralDirectory {
                dir64: Some(
                    Located {
                        offset: d64.offset,
                        inner: EndOfCentralDirectory64Record { directory_offset: offset, ..d64.inner },
                    },
                ),
                ..self
            },
            None => EndOfCentralDirectory {
                dir: Located {
                    offset: self.dir.offset,
                    inner: EndOfCentralDirectoryRecord {
                        directory_offset: offset as u32,
                        ..self.dir.inner
                    },
                },
                ..self
            },
        }
    }

    /// Records `offset` as the start of the central directory (truncated to
    /// 32 bits when there is no zip64 record).
    pub fn set_directory_offset(&mut self, offset: u64)
        ensures
            *final(self) == old(self).spec_with_directory_offset(offset),
    {
        match &mut self.dir64 {
            Some(d64) => {
                d64.inner.directory_offset = offset;
            },
            None => {
                self.dir.inner.directory_offset = offset as u32;
            },
        }
    }

    /// The archive's comment.
    pub fn comment(&self) -> (r: &ZipString)
        ensures
            r@ == self.dir.inner.comment@,
    {
        &self.dir.inner.comment
    }

    /// Where the central directory must start for it to end right before
    /// the record that ends it, when that lies within the file.
    pub open spec fn spec_computed_offset(self, size: u64) -> Option<u64> {
        let located = self.spec_located_directory_offset();
        let dir_size = self.spec_directory_size();
        if located >= dir_size && located - dir_size < size {
            Some((located - dir_size) as u64)
        } else {
            None
        }
    }

    /// The outcome of [Self::new]: the records, with the central directory
    /// moved to where it must start to end right before the record that ends
    /// it when that place is inside the file and differs from the recorded
    /// one by a difference that fits in `i64` (which becomes the global
    /// offset); an error when the directory offset then lies outside the file.
    pub open spec fn spec_new(
        size: u64,
        dir: Located<EndOfCentralDirectoryRecord>,
        dir64: Option<Located<EndOfCentralDirectory64Record>>,
    ) -> Result<Self, Error> {
        let first = EndOfCentralDirectory { dir, dir64, global_offset: 0 };
        let recorded = first.spec_directory_offset();
        let res = match first.spec_computed_offset(size) {
            Some(c) => if c != recorded && i64::MIN <= c - recorded <= i64::MAX {
                EndOfCentralDirectory {
                    global_offset: (c - recorded) as i64,
                    ..first.spec_with_directory_offset(c)
                }
            } else {
                first
            },
            None => first,
        };
        if res.spec_directory_offset() < size {
            Ok(res)
        } else {
            Err(Error::Format(FormatError::DirectoryOffsetPointsOutsideFile))
        }
    }

    /// Coalesces the end of central directory records, and works out where
    /// the central directory really is.
    ///
    /// The central directory ends right before the record that ends it, so
    /// it starts `directory_size` bytes before that record. When that place
    /// is inside the file but differs from the offset the records give,
    /// data precedes (or is missing from) the start of the archive: the
    /// difference becomes the global offset, and the computed place the
    /// directory offset. A place before the start of the file, or a
    /// difference beyond the range of `i64`, is not used.
    ///
    /// Errors when the directory offset then lies outside the file.
    pub fn new(
        size: u64,
        dir: Located<EndOfCentralDirectoryRecord>,
        dir64: Option<Located<EndOfCentralDirectory64Record>>,
    ) -> (r: Result<Self, Error>)
        ensures
            r == Self::spec_new(size, dir, dir64),
    {
        let mut res = EndOfCentralDirectory { dir, dir64, global_offset: 0 };
        let located = res.located_directory_offset();
        let dir_size = res.directory_size();
        // did we find a valid offset?
        if located >= dir_size && located - dir_size < size {
            let computed = located - dir_size;
            let recorded = res.directory_offset();
            // that's different from the recorded one?
            if computed != recorded {
                let diff: i128 = computed as i128 - recorded as i128;
                if i64::MIN as i128 <= diff && diff <= i64::MAX as i128 {
                    // then assume the whole file is offset
                    res.set_directory_offset(computed);
                    res.global_offset = diff as i64;
                }
            }
        }
        // make sure directory_offset points to somewhere in our file
        if res.directory_offset() >= size {
            return Err(Error::Format(FormatError::DirectoryOffsetPointsOutsideFile));
        }
        Ok(res)
    }
}

/// Coalescing the records always gives a central directory that starts
/// inside the file, or an error.
pub proof fn lemma_directory_inside_file(
    size: u64,
    dir: Located<EndOfCentralDirectoryRecord>,
    dir64: Option<Located<EndOfCentralDirectory64Record>>,
)
    ensures
        EndOfCentralDirectory::spec_new(size, dir, dir64) matches Ok(e) ==> e.spec_directory_offset() < size,
        EndOfCentralDirectory::spec_new(size, dir, dir64) matches Ok(e) ==> e.dir.offset == dir.offset
            && e.dir64 is Some == dir64 is Some,
{
}

/// Records that place the central directory right before the record that
/// ends it are kept as they are, with no global offset.
pub proof fn lemma_consistent_records_kept(
    size: u64,
    dir: Located<EndOfCentralDirectoryRecord>,
    dir64: Option<Located<EndOfCentralDirectory64Record>>,
)
    requires
        ({
            let first = EndOfCentralDirectory { dir, dir64, global_offset: 0 };
            first.spec_located_directory_offset() - first.spec_directory_size() == first.spec_directory_offset()
                && first.spec_directory_offset() < size
        }),
    ensures
        EndOfCentralDirectory::spec_new(size, dir, dir64) == Ok::<EndOfCentralDirectory, Error>(
            EndOfCentralDirectory { dir, dir64, global_offset: 0 },
        ),
{
}

/// With zip64 records, the global offset is how far the central directory
/// was moved from where the records place it.
pub proof fn lemma_global_offset_is_shift(
    size: u64,
    dir: Located<EndOfCentralDirectoryRecord>,
    d64: Located<EndOfCentralDirectory64Record>,
)
    ensures
        EndOfCentralDirectory::spec_new(size, dir, Some(d64)) matches Ok(e) ==> e.spec_directory_offset()
            == d64.inner.directory_offset + e.global_offset,
{
}

} // verus!
