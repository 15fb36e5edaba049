//! Central directory file headers (APPNOTE 4.3.12), and their conversion
//! into archive entries.
use vstd::prelude::*;
use vstd::string::StrSliceExecFns;

use super::{
    check_pk_sig, pk_sig, sig_conflict, Entry, ExtraField, ExtraFieldSettings, HostSystem, Method,
    Mode, MsdosMode, MsdosTimestamp, ParseError, UnixMode, Version, ZipBytes, ZipString,
};
use super::archive::{spec_apply_extra_field, spec_apply_raw_extra_field, lemma_apply_parsed_extra_field, EntryMeta};
use super::date_time::{spec_zero_datetime, zero_datetime};
use super::extra_field::spec_extra_field_short;
use super::mode::{has_bits, lemma_msdos_mode, spec_mode_from_msdos, spec_mode_from_unix, MODE_DIR};
use super::raw::take_bytes;
use crate::encoding::{is_entry_non_utf8, spec_decode, spec_is_entry_non_utf8, Encoding};
use crate::error::{Error, FormatError};
use crate::fsm::entry::StoredEntryInner;
use crate::le::{read_u16_le, read_u32_le, spec_u16_le, spec_u32_le};

verus! {

/// 4.3.12 Central directory structure: File header
pub struct CentralDirectoryFileHeader {
    /// version made by
    pub creator_version: Version,
    /// version needed to extract
    pub reader_version: Version,
    /// general purpose bit flag
    pub flags: u16,
    /// compression method
    pub method: Method,
    /// last mod file datetime
    pub modified: MsdosTimestamp,
    /// crc32 hash
    pub crc32: u32,
    /// compressed size
    pub compressed_size: u32,
    /// uncompressed size
    pub uncompressed_size: u32,
    /// disk number start
    pub disk_nbr_start: u16,
    /// internal file attributes
    pub internal_attrs: u16,
    /// external file attributes
    pub external_attrs: u32,
    /// relative offset of local header
    pub header_offset: u32,
    /// name field
    pub name: ZipString,
    /// extra field
    pub extra: ZipBytes,
    /// comment field
    pub comment: ZipString,
}

/// Length of the fixed part of a central directory header, signature included.
pub const CENTRAL_HEADER_FIXED_LEN: usize = 46;

/// The signature of a central directory header, `PK\x01\x02`.
pub open spec fn central_header_sig() -> Seq<u8> {
    pk_sig(1, 2)
}

/// How many bytes the central directory header at the start of `s` takes, as
/// far as `s` tells: the fixed part, then the name, extra field and comment.
pub open spec fn spec_central_header_len(s: Seq<u8>) -> int {
    if s.len() < 46 {
        46
    } else {
        46 + spec_u16_le(s, 28) + spec_u16_le(s, 30) + spec_u16_le(s, 32)
    }
}

/// The extra fields in `s`, applied in order to `m`; `None` when one of
/// them is cut short.
pub open spec fn spec_apply_extra_fields(m: EntryMeta, s: Seq<u8>, settings: ExtraFieldSettings) -> Option<EntryMeta>
    decreases s.len(),
{
    if s.len() == 0 {
        Some(m)
    } else if s.len() < 4 || s.len() < 4 + spec_u16_le(s, 2) || spec_extra_field_short(s, settings) {
        None
    } else {
        spec_apply_extra_fields(
            spec_apply_raw_extra_field(m, s, settings),
            s.subrange(4 + spec_u16_le(s, 2), s.len() as int),
            settings,
        )
    }
}

/// The mode of an entry made on `host` with external attributes `attrs`:
/// Unix modes for Unix and OS X, MS-DOS attributes for MS-DOS, VFAT and
/// NTFS, nothing otherwise.
pub open spec fn spec_host_mode(host: HostSystem, attrs: u32) -> u32 {
    match host {
        HostSystem::Unix | HostSystem::Osx => spec_mode_from_unix(attrs >> 16),
        HostSystem::WindowsNtfs | HostSystem::Vfat | HostSystem::MsDos => spec_mode_from_msdos(attrs),
        _ => 0,
    }
}

/// The mode of an entry made on MS-DOS, VFAT or NTFS comes from its MS-DOS
/// attributes: a plain file (neither directory nor read-only) can be read
/// and written by all, a directory gets the directory bit and all
/// permissions, and a read-only one keeps only the write bits. An entry
/// made on Unix or OS X has the Unix mode of the upper half of its
/// attributes; one made anywhere else gets no mode bits.
pub proof fn lemma_host_mode(host: HostSystem, attrs: u32)
    ensures
        host is MsDos || host is Vfat || host is WindowsNtfs ==> ({
            let m = spec_host_mode(host, attrs);
            &&& m == spec_mode_from_msdos(attrs)
            &&& (attrs & 0x11 == 0 ==> m == 0o666)
            &&& (attrs & 0x11 == 0x10 ==> m == 0x8000_01ffu32)
            &&& (attrs & 0x01 != 0 ==> m == 0o222)
            &&& (has_bits(m, MODE_DIR) <==> (attrs & 0x10 != 0 && attrs & 0x01 == 0))
        }),
        host is Unix || host is Osx ==> spec_host_mode(host, attrs) == spec_mode_from_unix(attrs >> 16u32),
        !(host is MsDos || host is Vfat || host is WindowsNtfs || host is Unix || host is Osx) ==> spec_host_mode(
            host,
            attrs,
        ) == 0,
{
    lemma_msdos_mode(attrs);
}

/// Whether the last char of `s` is a slash.
pub open spec fn ends_with_slash(s: Seq<char>) -> bool {
    s.len() > 0 && s.last() == '/'
}

/// Whether `name` ends with a slash.
pub fn str_ends_with_slash(name: &str) -> (r: bool)
    ensures
        r == ends_with_slash(name@),
{
    let n = name.unicode_len();
    n > 0 && name.get_char(n - 1) == '/'
}

impl CentralDirectoryFileHeader {
    /// The name and comment fit the 16-bit lengths of the format, as they do
    /// in every header that [Self::parser] returns.
    pub open spec fn spec_wf(self) -> bool {
        self.name@.len() <= 0xFFFF && self.comment@.len() <= 0xFFFF
    }

    /// The fields of `self` are those of the header at the start of `s`.
    pub open spec fn spec_matches(self, s: Seq<u8>) -> bool {
        let name_end = 46 + spec_u16_le(s, 28);
        let extra_end = name_end + spec_u16_le(s, 30);
        &&& self.creator_version == Version::spec_at(s, 4)
        &&& self.reader_version == Version::spec_at(s, 6)
        &&& self.flags == spec_u16_le(s, 8)
        &&& self.method == Method::spec_at(s, 10)
        &&& self.modified == MsdosTimestamp::spec_at(s, 12)
        &&& self.crc32 == spec_u32_le(s, 16)
        &&& self.compressed_size == spec_u32_le(s, 20)
        &&& self.uncompressed_size == spec_u32_le(s, 24)
        &&& self.disk_nbr_start == spec_u16_le(s, 34)
        &&& self.internal_attrs == spec_u16_le(s, 36)
        &&& self.external_attrs == spec_u32_le(s, 38)
        &&& self.header_offset == spec_u32_le(s, 42)
        &&& self.name@ == s.subrange(46, name_end)
        &&& self.extra@ == s.subrange(name_end, extra_end)
        &&& self.comment@ == s.subrange(extra_end, spec_central_header_len(s))
    }

    /// Parser for the central directory file header
    pub fn parser(input: &[u8]) -> (r: Result<(usize, Self), ParseError>)
        ensures
            r == Err::<(usize, Self), ParseError>(ParseError::Invalid) <==> sig_conflict(
                input@,
                central_header_sig(),
            ),
            r == Err::<(usize, Self), ParseError>(ParseError::Incomplete) <==> !sig_conflict(
                input@,
                central_header_sig(),
            ) && input@.len() < spec_central_header_len(input@),
            r matches Ok((n, h)) ==> n == spec_central_header_len(input@) && h.spec_matches(input@)
                && h.spec_wf() && input@.subrange(0, 4) == central_header_sig(),
    {
        match check_pk_sig(input, 1, 2) {
            Err(e) => {
                return Err(e);
            },
            Ok(()) => {},
        }
        if input.len() < CENTRAL_HEADER_FIXED_LEN {
            return Err(ParseError::Incomplete);
        }
        let name_len = read_u16_le(input, 28) as usize;
        let extra_len = read_u16_le(input, 30) as usize;
        let comment_len = read_u16_le(input, 32) as usize;
        if input.len() - CENTRAL_HEADER_FIXED_LEN < name_len + extra_len + comment_len {
            return Err(ParseError::Incomplete);
        }
        let name_end = CENTRAL_HEADER_FIXED_LEN + name_len;
        let extra_end = name_end + extra_len;
        let header = CentralDirectoryFileHeader {
            creator_version: Version::read_at(input, 4),
            reader_version: Version::read_at(input, 6),
            flags: read_u16_le(input, 8),
            method: Method::from(read_u16_le(input, 10)),
            modified: MsdosTimestamp::read_at(input, 12),
            crc32: read_u32_le(input, 16),
            compressed_size: read_u32_le(input, 20),
            uncompressed_size: read_u32_le(input, 24),
            disk_nbr_start: read_u16_le(input, 34),
            internal_attrs: read_u16_le(input, 36),
            external_attrs: read_u32_le(input, 38),
            header_offset: read_u32_le(input, 42),
            name: ZipString(take_bytes(input, CENTRAL_HEADER_FIXED_LEN, name_len)),
            extra: ZipBytes(take_bytes(input, name_end, extra_len)),
            comment: ZipString(take_bytes(input, extra_end, comment_len)),
        };
        Ok((extra_end + comment_len, header))
    }

    /// Returns true if the name or comment is not valid UTF-8
    pub fn is_non_utf8(&self) -> (r: bool)
        ensures
            r == spec_is_entry_non_utf8(self.name@, self.comment@, self.flags),
    {
        is_entry_non_utf8(self.name.0.as_slice(), self.comment.0.as_slice(), self.flags)
    }

    /// Which zip64 fields this header's extra field must hold: those whose
    /// 32-bit field is 0xFFFFFFFF.
    pub open spec fn spec_settings(self) -> ExtraFieldSettings {
        ExtraFieldSettings {
            needs_uncompressed_size: self.uncompressed_size == 0xFFFF_FFFF,
            needs_compressed_size: self.compressed_size == 0xFFFF_FFFF,
            needs_header_offset: self.header_offset == 0xFFFF_FFFF,
        }
    }

    /// The metadata of the entry before its extra fields are applied.
    pub open spec fn spec_base_meta(self, global_offset: i64) -> EntryMeta {
        EntryMeta {
            modified: match self.modified.spec_to_datetime() {
                Some(d) => d,
                None => spec_zero_datetime(),
            },
            created: None,
            accessed: None,
            header_offset: (self.header_offset + global_offset) as u64,
            uid: None,
            gid: None,
            compressed_size: self.compressed_size as u64,
            uncompressed_size: self.uncompressed_size as u64,
        }
    }

    /// Whether the header converts into an entry: its name and comment
    /// decode, its header offset plus `global_offset` is not negative, and
    /// its extra fields are all whole.
    pub open spec fn spec_entry_ok(self, encoding: Encoding, global_offset: i64) -> bool {
        &&& spec_decode(encoding, self.name@) is Some
        &&& spec_decode(encoding, self.comment@) is Some
        &&& self.header_offset + global_offset >= 0
        &&& spec_apply_extra_fields(
            self.spec_base_meta(global_offset),
            self.extra@,
            self.spec_settings(),
        ) is Some
    }

    /// `e` is the error the conversion stops at: the first of the checks of
    /// [Self::spec_entry_ok], in that order, that fails.
    pub open spec fn spec_entry_err(self, encoding: Encoding, global_offset: i64, e: Error) -> bool {
        if spec_decode(encoding, self.name@) is None {
            e is Encoding
        } else if spec_decode(encoding, self.comment@) is None {
            e is Encoding
        } else if self.header_offset + global_offset < 0 {
            e == Error::Format(FormatError::InvalidHeaderOffset)
        } else {
            e == Error::Format(FormatError::InvalidExtraField)
        }
    }

    /// `e` is the entry the header converts into: decoded name and comment,
    /// the header's method, version, flags and checksum, the mode its host
    /// system gives (a directory when the name ends with a slash), and the
    /// metadata its extra fields give, applied in order.
    pub open spec fn spec_is_entry(self, encoding: Encoding, global_offset: i64, e: Entry) -> bool {
        &&& Some(e.name@) == spec_decode(encoding, self.name@)
        &&& Some(e.comment@) == spec_decode(encoding, self.comment@)
        &&& e.method == self.method
        &&& e.reader_version == self.reader_version
        &&& e.flags == self.flags
        &&& e.crc32 == self.crc32
        &&& e.mode.0 == (spec_host_mode(self.creator_version.host_system, self.external_attrs) | (
        if ends_with_slash(e.name@) {
            MODE_DIR
        } else {
            0
        }))
        &&& Some(e.meta()) == spec_apply_extra_fields(
            self.spec_base_meta(global_offset),
            self.extra@,
            self.spec_settings(),
        )
    }

    /// What an entry converted from a header holds: the header's decoded
    /// name and comment, method, versions, flags and checksum; its MS-DOS
    /// time as the modification time (the Unix epoch when that is no date);
    /// its header offset moved by `global_offset`; its sizes; no user or
    /// group id, creation or access time unless an extra field gives them;
    /// and the mode of its host system, with the directory bit when the
    /// name ends with a slash (so on MS-DOS, VFAT and NTFS a plain file can
    /// be read and written by all). Without extra fields that is all of it.
    pub proof fn lemma_entry_fields(self, encoding: Encoding, global_offset: i64, e: Entry)
        requires
            self.spec_entry_ok(encoding, global_offset),
            self.spec_is_entry(encoding, global_offset, e),
        ensures
            Some(e.name@) == spec_decode(encoding, self.name@),
            Some(e.comment@) == spec_decode(encoding, self.comment@),
            e.method == self.method,
            e.reader_version == self.reader_version,
            e.flags == self.flags,
            e.crc32 == self.crc32,
            ends_with_slash(e.name@) ==> has_bits(e.mode.0, MODE_DIR),
            !ends_with_slash(e.name@) ==> e.mode.0 == spec_host_mode(
                self.creator_version.host_system,
                self.external_attrs,
            ),
            !ends_with_slash(e.name@) && (self.creator_version.host_system is MsDos
                || self.creator_version.host_system is Vfat || self.creator_version.host_system is WindowsNtfs)
                && self.external_attrs & 0x11 == 0 ==> e.mode.0 == 0o666,
            self.extra@.len() == 0 ==> {
                &&& e.modified == (match self.modified.spec_to_datetime() {
                    Some(d) => d,
                    None => spec_zero_datetime(),
                })
                &&& e.created is None && e.accessed is None
                &&& e.uid is None && e.gid is None
                &&& e.header_offset == self.header_offset + global_offset
                &&& e.compressed_size == self.compressed_size
                &&& e.uncompressed_size == self.uncompressed_size
            },
    {
        if self.extra@.len() == 0 {
            assert(spec_apply_extra_fields(self.spec_base_meta(global_offset), self.extra@, self.spec_settings())
                == Some(self.spec_base_meta(global_offset)));
        }
        let h = spec_host_mode(self.creator_version.host_system, self.external_attrs);
        assert((h | 0x8000_0000u32) & 0x8000_0000u32 != 0 && h | 0u32 == h) by (bit_vector);
        lemma_host_mode(self.creator_version.host_system, self.external_attrs);
    }

    /// Converts the directory header into an entry: this involves
    /// parsing the extra fields and converting the timestamps.
    ///
    /// `global_offset` is added to the header offset, to account for data
    /// before the start of the archive (or data missing from it, when
    /// negative).
    pub fn as_entry(&self, encoding: Encoding, global_offset: i64) -> (r: Result<Entry, Error>)
        requires
            self.spec_wf(),
        ensures
            r is Ok <==> self.spec_entry_ok(encoding, global_offset),
            r matches Err(e) ==> self.spec_entry_err(encoding, global_offset, e),
            r matches Ok(e) ==> self.spec_is_entry(encoding, global_offset, e),
    {
        let name = match encoding.decode(self.name.0.as_slice()) {
            Ok(s) => s,
            Err(e) => {
                return Err(Error::Encoding(e));
            },
        };
        let comment = match encoding.decode(self.comment.0.as_slice()) {
            Ok(s) => s,
            Err(e) => {
                return Err(Error::Encoding(e));
            },
        };
        let header_offset: i128 = self.header_offset as i128 + global_offset as i128;
        if header_offset < 0 {
            return Err(Error::Format(FormatError::InvalidHeaderOffset));
        }
        let base_mode: u32 = match self.creator_version.host_system {
            HostSystem::Unix | HostSystem::Osx => Mode::from(UnixMode(self.external_attrs >> 16)).0,
            HostSystem::WindowsNtfs | HostSystem::Vfat | HostSystem::MsDos => Mode::from(
                MsdosMode(self.external_attrs),
            ).0,
            _ => 0,
        };
        // believe it or not, this is straight from the APPNOTE
        let dir_bit: u32 = if str_ends_with_slash(name.as_str()) {
            MODE_DIR
        } else {
            0
        };
        let mut entry = Entry {
            name,
            method: self.method,
            comment,
            modified: match self.modified.to_datetime() {
                Some(d) => d,
                None => zero_datetime(),
            },
            created: None,
            accessed: None,
            header_offset: header_offset as u64,
            reader_version: self.reader_version,
            flags: self.flags,
            uid: None,
            gid: None,
            crc32: self.crc32,
            compressed_size: self.compressed_size as u64,
            uncompressed_size: self.uncompressed_size as u64,
            mode: Mode(base_mode | dir_bit),
        };
        let settings = ExtraFieldSettings {
            needs_uncompressed_size: self.uncompressed_size == 0xFFFF_FFFFu32,
            needs_compressed_size: self.compressed_size == 0xFFFF_FFFFu32,
            needs_header_offset: self.header_offset == 0xFFFF_FFFFu32,
        };
        let extra = self.extra.0.as_slice();
        let n = extra.len();
        let mut pos: usize = 0;
        let ghost all = spec_apply_extra_fields(self.spec_base_meta(global_offset), extra@, settings);
        proof {
            assert(extra@.subrange(0, n as int) =~= extra@);
        }
        while pos < n
            invariant
                pos <= n,
                n == extra@.len(),
                extra@ == self.extra@,
                settings == self.spec_settings(),
                all == spec_apply_extra_fields(self.spec_base_meta(global_offset), extra@, settings),
                all == spec_apply_extra_fields(entry.meta(), extra@.subrange(pos as int, n as int), settings),
                self.header_offset + global_offset >= 0,
                Some(entry.name@) == spec_decode(encoding, self.name@),
                Some(entry.comment@) == spec_decode(encoding, self.comment@),
                entry.method == self.method,
                entry.reader_version == self.reader_version,
                entry.flags == self.flags,
                entry.crc32 == self.crc32,
                entry.mode.0 == (spec_host_mode(self.creator_version.host_system, self.external_attrs)
                    | (if ends_with_slash(entry.name@) {
                    MODE_DIR
                } else {
                    0
                })),
            decreases n - pos,
        {
            let ghost s = extra@.subrange(pos as int, n as int);
            let rest = vstd::slice::slice_subrange(extra, pos, n);
            match ExtraField::parse(rest, settings) {
                Ok((len, ef)) => {
                    proof {
                        lemma_apply_parsed_extra_field(entry.meta(), ef, s, settings);
                        assert(s.subrange(len as int, s.len() as int) =~= extra@.subrange(
                            pos + len,
                            n as int,
                        ));
                    }
                    entry.set_extra_field(&ef);
                    pos = pos + len;
                },
                Err(_) => {
                    return Err(Error::Format(FormatError::InvalidExtraField));
                },
            }
        }
        proof {
            assert(extra@.subrange(pos as int, n as int) =~= Seq::<u8>::empty());
        }
        Ok(entry)
    }
}

/// The central directory file header under the name the directory reader
/// gives it.
pub type DirectoryHeader = CentralDirectoryFileHeader;

impl CentralDirectoryFileHeader {
    /// Converts the header into an entry, along with what reading the entry
    /// needs from the central directory: its checksum, sizes, and whether the
    /// archive is zip64.
    pub fn as_stored_entry(&self, is_zip64: bool, encoding: Encoding, global_offset: i64) -> (r: Result<
        (Entry, StoredEntryInner),
        Error,
    >)
        requires
            self.spec_wf(),
        ensures
            r is Ok <==> self.spec_entry_ok(encoding, global_offset),
            r matches Err(e) ==> self.spec_entry_err(encoding, global_offset, e),
            r matches Ok((e, inner)) ==> self.spec_is_entry(encoding, global_offset, e) && inner == (
            StoredEntryInner {
                crc32: e.crc32,
                compressed_size: e.compressed_size,
                uncompressed_size: e.uncompressed_size,
                is_zip64,
            }),
    {
        match self.as_entry(encoding, global_offset) {
            Ok(e) => {
                let inner = StoredEntryInner {
                    crc32: e.crc32,
                    compressed_size: e.compressed_size,
                    uncompressed_size: e.uncompressed_size,
                    is_zip64,
                };
                Ok((e, inner))
            },
            Err(e) => Err(e),
        }
    }
}

} // verus!
