//! Extra fields of central directory headers: zip64 sizes and offsets,
//! timestamps, Unix ownership (APPNOTE 4.4.28, 4.5, and Info-ZIP's
//! `extrafld.txt`).
use vstd::prelude::*;

use super::{NtfsTimestamp, ParseError, ZipBytes};
use super::raw::take_bytes;
use crate::le::{read_u16_le, read_u32_le, read_u64_le, spec_u16_le, spec_u32_le, spec_u64_le};

verus! {

/// How a sub-parser of an extra field's payload ended.
pub enum PayloadParse<T> {
    /// The payload holds a value.
    Done(T),
    /// The payload is not of this kind: the field is kept as unknown.
    Mismatch,
    /// The payload ends before the value does.
    Short,
}

/// 4.4.28 extra field: (Variable)
pub struct ExtraFieldRecord<'a> {
    /// tag of the extra field
    pub tag: u16,
    /// the field's payload
    pub payload: &'a [u8],
}

impl<'a> ExtraFieldRecord<'a> {
    /// Parses a tag, a 16-bit length, and a payload of that length.
    pub fn parser(input: &'a [u8]) -> (r: Result<(usize, Self), ParseError>)
        ensures
            r is Err <==> input@.len() < 4 || input@.len() < 4 + spec_u16_le(input@, 2),
            r is Err ==> r == Err::<(usize, Self), ParseError>(ParseError::Incomplete),
            r matches Ok((n, rec)) ==> n == 4 + spec_u16_le(input@, 2) && rec.tag == spec_u16_le(
                input@,
                0,
            ) && rec.payload@ == input@.subrange(4, n as int),
    {
        if input.len() < 4 {
            return Err(ParseError::Incomplete);
        }
        let tag = read_u16_le(input, 0);
        let len = read_u16_le(input, 2) as usize;
        if input.len() - 4 < len {
            return Err(ParseError::Incomplete);
        }
        Ok((4 + len, ExtraFieldRecord { tag, payload: vstd::slice::slice_subrange(input, 4, 4 + len) }))
    }
}

/// Which fields a zip64 extended information extra field holds.
///
/// The order of the fields in the zip64 extended information record is
/// fixed, but the fields MUST only appear if the corresponding Local or
/// Central directory record field is set to 0xFFFF or 0xFFFFFFFF.
#[derive(Debug, Clone, Copy, PartialEq, Eq, Structural)]
pub struct ExtraFieldSettings {
    /// the header's uncompressed size is 0xFFFFFFFF
    pub needs_uncompressed_size: bool,
    /// the header's compressed size is 0xFFFFFFFF
    pub needs_compressed_size: bool,
    /// the header's local header offset is 0xFFFFFFFF
    pub needs_header_offset: bool,
}

/// Information stored in the central directory header `extra` field
///
/// This typically contains timestamps, file sizes and offsets, file mode, uid/gid, etc.
#[derive(Debug, Clone)]
pub enum ExtraField {
    /// Zip64 extended information extra field
    Zip64(ExtraZip64Field),
    /// Extended timestamp
    Timestamp(ExtraTimestampField),
    /// UNIX & Info-Zip UNIX
    Unix(ExtraUnixField),
    /// New UNIX extra field
    NewUnix(ExtraNewUnixField),
    /// NTFS (Win9x/WinNT FileTimes)
    Ntfs(ExtraNtfsField),
    /// Unknown extra field, with tag
    Unknown {
        /// tag of the extra field
        tag: u16,
    },
}

/// Tag of the zip64 extended information extra field.
pub const ZIP64_TAG: u16 = 0x0001;
/// Tag of the NTFS extra field.
pub const NTFS_TAG: u16 = 0x000a;
/// Tag of the UNIX extra field.
pub const UNIX_TAG: u16 = 0x000d;
/// Tag of the Info-ZIP UNIX extra field.
pub const UNIX_INFOZIP_TAG: u16 = 0x5855;
/// Tag of the extended timestamp extra field.
pub const TIMESTAMP_TAG: u16 = 0x5455;
/// Tag of the Info-ZIP new UNIX extra field.
pub const NEW_UNIX_TAG: u16 = 0x7875;

/// 4.5.3 -Zip64 Extended Information Extra Field (0x0001)
#[derive(Debug, Clone, Copy, PartialEq, Eq, Structural)]
pub struct ExtraZip64Field {
    /// 64-bit uncompressed size
    pub uncompressed_size: Option<u64>,
    /// 64-bit compressed size
    pub compressed_size: Option<u64>,
    /// 64-bit header offset
    pub header_offset: Option<u64>,
}

/// One 64-bit value at `s[i..i + 8]` when `present`.
pub open spec fn spec_cond_u64(present: bool, s: Seq<u8>, i: int) -> Option<u64> {
    if present {
        Some(spec_u64_le(s, i))
    } else {
        None
    }
}

impl ExtraZip64Field {
    /// How many bytes the fields that `settings` asks for take.
    pub open spec fn spec_len(settings: ExtraFieldSettings) -> int {
        (if settings.needs_uncompressed_size { 8int } else { 0int }) + (if settings.needs_compressed_size {
            8int
        } else {
            0int
        }) + (if settings.needs_header_offset { 8int } else { 0int })
    }

    /// The zip64 field in payload `p`.
    pub open spec fn spec_parse(p: Seq<u8>, settings: ExtraFieldSettings) -> PayloadParse<
        ExtraZip64Field,
    > {
        let u = if settings.needs_uncompressed_size { 8int } else { 0int };
        let c = if settings.needs_compressed_size { 8int } else { 0int };
        if p.len() < Self::spec_len(settings) {
            PayloadParse::Short
        } else {
            PayloadParse::Done(
                ExtraZip64Field {
                    uncompressed_size: spec_cond_u64(settings.needs_uncompressed_size, p, 0),
                    compressed_size: spec_cond_u64(settings.needs_compressed_size, p, u),
                    header_offset: spec_cond_u64(settings.needs_header_offset, p, u + c),
                },
            )
        }
    }

    /// Parses the fields that `settings` asks for, in order; the "disk start
    /// number" is ignored.
    pub fn parse(p: &[u8], settings: ExtraFieldSettings) -> (r: Option<Self>)
        ensures
            match Self::spec_parse(p@, settings) {
                PayloadParse::Done(z) => r == Some(z),
                _ => r is None,
            },
    {
        let mut pos: usize = 0;
        let mut uncompressed_size: Option<u64> = None;
        let mut compressed_size: Option<u64> = None;
        let mut header_offset: Option<u64> = None;
        if settings.needs_uncompressed_size {
            if p.len() - pos < 8 {
                return None;
            }
            uncompressed_size = Some(read_u64_le(p, pos));
            pos = pos + 8;
        }
        if settings.needs_compressed_size {
            if p.len() - pos < 8 {
                return None;
            }
            compressed_size = Some(read_u64_le(p, pos));
            pos = pos + 8;
        }
        if settings.needs_header_offset {
            if p.len() - pos < 8 {
                return None;
            }
            header_offset = Some(read_u64_le(p, pos));
        }
        Some(ExtraZip64Field { uncompressed_size, compressed_size, header_offset })
    }
}

/// Extended timestamp extra field
#[derive(Debug, Clone, Copy, PartialEq, Eq, Structural)]
pub struct ExtraTimestampField {
    /// number of seconds since epoch
    pub mtime: u32,
}

impl ExtraTimestampField {
    /// The extended timestamp in payload `p`: a flags byte whose bit 0 says
    /// that the modification time follows, then that time.
    pub open spec fn spec_parse(p: Seq<u8>) -> PayloadParse<ExtraTimestampField> {
        if p.len() < 1 {
            PayloadParse::Short
        } else if p[0] & 1 == 0 {
            PayloadParse::Mismatch
        } else if p.len() < 5 {
            PayloadParse::Short
        } else {
            PayloadParse::Done(ExtraTimestampField { mtime: spec_u32_le(p, 1) })
        }
    }

    /// Parses an extended timestamp payload.
    pub fn parse(p: &[u8]) -> (r: PayloadParse<Self>)
        ensures
            r == Self::spec_parse(p@),
    {
        if p.len() < 1 {
            return PayloadParse::Short;
        }
        // 1 byte of flags, if bit 0 is set, modification time is present
        if p[0] & 1 == 0 {
            return PayloadParse::Mismatch;
        }
        if p.len() < 5 {
            return PayloadParse::Short;
        }
        PayloadParse::Done(ExtraTimestampField { mtime: read_u32_le(p, 1) })
    }
}

/// 4.5.7 -UNIX Extra Field (0x000d):
#[derive(Debug, Clone)]
pub struct ExtraUnixField {
    /// file last access time
    pub atime: u32,
    /// file last modification time
    pub mtime: u32,
    /// file user id
    pub uid: u16,
    /// file group id
    pub gid: u16,
    /// variable length data field
    pub data: ZipBytes,
}

impl ExtraUnixField {
    /// The size field at the start of payload `p`.
    pub open spec fn spec_t_size(p: Seq<u8>) -> int {
        spec_u16_le(p, 0) as int
    }

    /// How payload `p` reads as a UNIX field: a 16-bit size `t`, then access
    /// and modification times, user and group ids, and `t - 12` bytes of
    /// data. A size below 12 leaves the field unknown.
    pub open spec fn spec_status(p: Seq<u8>) -> PayloadParse<()> {
        if p.len() < 2 {
            PayloadParse::Short
        } else if Self::spec_t_size(p) < 12 {
            PayloadParse::Mismatch
        } else if p.len() < Self::spec_t_size(p) + 2 {
            PayloadParse::Short
        } else {
            PayloadParse::Done(())
        }
    }

    /// The fields of `self` are those in payload `p`.
    pub open spec fn spec_matches(self, p: Seq<u8>) -> bool {
        &&& self.atime == spec_u32_le(p, 2)
        &&& self.mtime == spec_u32_le(p, 6)
        &&& self.uid == spec_u16_le(p, 10)
        &&& self.gid == spec_u16_le(p, 12)
        &&& self.data@ == p.subrange(14, Self::spec_t_size(p) + 2)
    }

    /// Parses a UNIX extra field payload.
    pub fn parse(p: &[u8]) -> (r: PayloadParse<Self>)
        ensures
            match Self::spec_status(p@) {
                PayloadParse::Done(_) => r matches PayloadParse::Done(f) && f.spec_matches(p@),
                PayloadParse::Mismatch => r is Mismatch,
                PayloadParse::Short => r is Short,
            },
    {
        if p.len() < 2 {
            return PayloadParse::Short;
        }
        let t_size = read_u16_le(p, 0) as usize;
        if t_size < 12 {
            return PayloadParse::Mismatch;
        }
        if p.len() - 2 < t_size {
            return PayloadParse::Short;
        }
        PayloadParse::Done(
            ExtraUnixField {
                atime: read_u32_le(p, 2),
                mtime: read_u32_le(p, 6),
                uid: read_u16_le(p, 10),
                gid: read_u16_le(p, 12),
                data: ZipBytes(take_bytes(p, 14, t_size - 12)),
            },
        )
    }
}

/// Info-ZIP New Unix Extra Field: a version byte (currently 1), then the
/// UID and the GID, each as a size byte followed by that many bytes of
/// little-endian integer. Stores Unix UIDs/GIDs up to 32 bits.
#[derive(Debug, Clone, Copy, PartialEq, Eq, Structural)]
pub struct ExtraNewUnixField {
    /// file user id
    pub uid: u64,
    /// file group id
    pub gid: u64,
}

/// The little-endian integer of `size` bytes at `s[i..i + size]`, for the
/// sizes that the new UNIX field allows (1, 2, 4 and 8).
pub open spec fn spec_var_int(s: Seq<u8>, i: int, size: int) -> u64 {
    if size == 1 {
        s[i] as u64
    } else if size == 2 {
        spec_u16_le(s, i) as u64
    } else if size == 4 {
        spec_u32_le(s, i) as u64
    } else {
        spec_u64_le(s, i)
    }
}

/// The tags of the extra fields that are read: zip64 0x0001, NTFS 0x000a,
/// UNIX 0x000d (and Info-ZIP's 0x5855), extended timestamp 0x5455, and new
/// UNIX 0x7875.
pub proof fn lemma_extra_field_tags()
    ensures
        ZIP64_TAG == 0x0001,
        NTFS_TAG == 0x000a,
        UNIX_TAG == 0x000d,
        UNIX_INFOZIP_TAG == 0x5855,
        TIMESTAMP_TAG == 0x5455,
        NEW_UNIX_TAG == 0x7875,
{
}

/// Where the fields of each extra field lie in its payload `p`: an extended
/// timestamp is a flags byte whose bit 0 says a modification time follows,
/// then that time; a zip64 field holds, in this order, the uncompressed
/// size, the compressed size and the header offset, 8 bytes each, only those
/// that the header left at 0xFFFFFFFF; a UNIX field is a 16-bit size, then
/// the access time, the modification time, the user id and the group id;
/// an NTFS attribute 1 holds the modification, access and creation times,
/// 8 bytes each, in this order.
pub proof fn lemma_extra_field_layouts(p: Seq<u8>, settings: ExtraFieldSettings, f: ExtraUnixField, i: int)
    ensures
        p.len() >= 5 && p[0] & 1 != 0 ==> ExtraTimestampField::spec_parse(p) == PayloadParse::Done(
            ExtraTimestampField { mtime: spec_u32_le(p, 1) },
        ),
        p.len() >= 1 && p[0] & 1 == 0 ==> ExtraTimestampField::spec_parse(p) is Mismatch,
        ({
            let u: int = if settings.needs_uncompressed_size { 8 } else { 0 };
            let c: int = if settings.needs_compressed_size { 8 } else { 0 };
            let o: int = if settings.needs_header_offset { 8 } else { 0 };
            p.len() >= u + c + o ==> ExtraZip64Field::spec_parse(p, settings) == PayloadParse::Done(
                ExtraZip64Field {
                    uncompressed_size: if settings.needs_uncompressed_size {
                        Some(spec_u64_le(p, 0))
                    } else {
                        None
                    },
                    compressed_size: if settings.needs_compressed_size {
                        Some(spec_u64_le(p, u))
                    } else {
                        None
                    },
                    header_offset: if settings.needs_header_offset {
                        Some(spec_u64_le(p, u + c))
                    } else {
                        None
                    },
                },
            )
        }),
        f.spec_matches(p) ==> f.atime == spec_u32_le(p, 2) && f.mtime == spec_u32_le(p, 6) && f.uid
            == spec_u16_le(p, 10) && f.gid == spec_u16_le(p, 12),
        NtfsAttr1::spec_at(p, i).mtime.timestamp == spec_u64_le(p, i),
        NtfsAttr1::spec_at(p, i).atime.timestamp == spec_u64_le(p, i + 8),
        NtfsAttr1::spec_at(p, i).ctime.timestamp == spec_u64_le(p, i + 16),
{
}

/// The attributes of an NTFS field follow one another, each a 16-bit tag, a
/// 16-bit size and that many bytes: an attribute 1 (tag 1) has at least 24
/// bytes and holds the times at their start; any other tag is kept as an
/// unknown attribute. A field (after its 4 reserved bytes) holding exactly
/// one attribute 1 of 24 bytes gives that attribute.
pub proof fn lemma_ntfs_attrs(s: Seq<u8>, p: Seq<u8>)
    ensures
        s.len() >= 4 && s.len() >= 4 + spec_u16_le(s, 2) && !(spec_u16_le(s, 0) == 1 && spec_u16_le(s, 2) < 24)
            ==> ({
            let rest = spec_ntfs_attrs(s.subrange(4 + spec_u16_le(s, 2), s.len() as int));
            let attr = if spec_u16_le(s, 0) == 1 {
                NtfsAttr::Attr1(NtfsAttr1::spec_at(s, 4))
            } else {
                NtfsAttr::Unknown { tag: spec_u16_le(s, 0) }
            };
            &&& rest is None ==> spec_ntfs_attrs(s) is None
            &&& rest matches Some(r) ==> spec_ntfs_attrs(s) == Some(seq![attr] + r)
        }),
        s.len() >= 4 && spec_u16_le(s, 0) == 1 && spec_u16_le(s, 2) < 24 ==> spec_ntfs_attrs(s) is None,
        p.len() == 32 && spec_u16_le(p, 4) == 1 && spec_u16_le(p, 6) == 24 ==> ExtraNtfsField::spec_parse(p)
            == Some(seq![NtfsAttr::Attr1(NtfsAttr1::spec_at(p, 8))]),
{
    if p.len() == 32 && spec_u16_le(p, 4) == 1 && spec_u16_le(p, 6) == 24 {
        let q = p.subrange(4, 32);
        assert(spec_u16_le(q, 0) == spec_u16_le(p, 4));
        assert(spec_u16_le(q, 2) == spec_u16_le(p, 6));
        assert(q.subrange(28, 28) =~= Seq::<u8>::empty());
        assert(spec_ntfs_attrs(q.subrange(28, 28)) == Some(Seq::<NtfsAttr>::empty()));
        assert(ExtraNtfsField::spec_parse(p) == spec_ntfs_attrs(q));
        assert(NtfsAttr1::spec_at(q, 4) == NtfsAttr1::spec_at(p, 8));
        assert(seq![NtfsAttr::Attr1(NtfsAttr1::spec_at(p, 8))] + Seq::<NtfsAttr>::empty() =~= seq![
            NtfsAttr::Attr1(NtfsAttr1::spec_at(p, 8)),
        ]);
        assert(spec_ntfs_attrs(q) == Some(seq![NtfsAttr::Attr1(NtfsAttr1::spec_at(q, 4))] + Seq::<NtfsAttr>::empty()));
    }
}

/// A variable-length integer of 1, 2, 4 or 8 bytes is little-endian: each
/// byte weighs 256 times the one before it.
pub proof fn lemma_var_int(s: Seq<u8>, i: int, size: int)
    requires
        0 <= i,
        i + size <= s.len(),
        size == 1 || size == 2 || size == 4 || size == 8,
    ensures
        size == 1 ==> spec_var_int(s, i, size) == s[i],
        size == 2 ==> spec_var_int(s, i, size) == s[i] + 0x100 * s[i + 1],
        size == 4 ==> spec_var_int(s, i, size) == s[i] + 0x100 * s[i + 1] + 0x1_0000 * s[i + 2] + 0x100_0000
            * s[i + 3],
        size == 8 ==> spec_var_int(s, i, size) == s[i] + 0x100 * s[i + 1] + 0x1_0000 * s[i + 2] + 0x100_0000
            * s[i + 3] + 0x1_0000_0000 * s[i + 4] + 0x100_0000_0000 * s[i + 5] + 0x1_0000_0000_0000 * s[i + 6]
            + 0x100_0000_0000_0000 * s[i + 7],
{
}

/// How the variable-length integer at `s[i..]` reads: its value and where
/// the next item starts.
pub open spec fn spec_parse_var_int(s: Seq<u8>, i: int) -> PayloadParse<(u64, int)> {
    if s.len() < i + 1 {
        PayloadParse::Short
    } else if s.len() < i + 1 + s[i] {
        PayloadParse::Short
    } else if !(s[i] == 1 || s[i] == 2 || s[i] == 4 || s[i] == 8) {
        PayloadParse::Mismatch
    } else {
        PayloadParse::Done((spec_var_int(s, i + 1, s[i] as int), i + 1 + s[i]))
    }
}

impl ExtraNewUnixField {
    /// The new UNIX field in payload `p`.
    pub open spec fn spec_parse(p: Seq<u8>) -> PayloadParse<ExtraNewUnixField> {
        if p.len() < 1 {
            PayloadParse::Short
        } else if p[0] != 1 {
            PayloadParse::Mismatch
        } else {
            match spec_parse_var_int(p, 1) {
                PayloadParse::Short => PayloadParse::Short,
                PayloadParse::Mismatch => PayloadParse::Mismatch,
                PayloadParse::Done((uid, next)) => match spec_parse_var_int(p, next) {
                    PayloadParse::Short => PayloadParse::Short,
                    PayloadParse::Mismatch => PayloadParse::Mismatch,
                    PayloadParse::Done((gid, _)) => PayloadParse::Done(
                        ExtraNewUnixField { uid, gid },
                    ),
                },
            }
        }
    }

    /// A new UNIX field is the version byte 1, then the user id, then the
    /// group id, each a size byte (1, 2, 4 or 8) followed by a little-endian
    /// integer of that many bytes: the uid is the integer right after the
    /// version byte, the gid the one after it.
    pub proof fn lemma_layout(p: Seq<u8>)
        requires
            p.len() >= 2,
            p[0] == 1,
            p[1] == 1 || p[1] == 2 || p[1] == 4 || p[1] == 8,
            p.len() >= 3 + p[1],
            p[2 + p[1]] == 1 || p[2 + p[1]] == 2 || p[2 + p[1]] == 4 || p[2 + p[1]] == 8,
            p.len() >= 3 + p[1] + p[2 + p[1]],
        ensures
            Self::spec_parse(p) == PayloadParse::Done(
                ExtraNewUnixField {
                    uid: spec_var_int(p, 2, p[1] as int),
                    gid: spec_var_int(p, 3 + p[1], p[2 + p[1]] as int),
                },
            ),
    {
    }

    /// Parses a variable-length integer at `p[i..]`.
    pub fn parse_variable_length_integer(p: &[u8], i: usize) -> (r: PayloadParse<(u64, usize)>)
        requires
            i <= p@.len(),
        ensures
            match spec_parse_var_int(p@, i as int) {
                PayloadParse::Done((v, next)) => r == PayloadParse::Done((v, next as usize))
                    && next <= p@.len(),
                PayloadParse::Mismatch => r is Mismatch,
                PayloadParse::Short => r is Short,
            },
    {
        if p.len() - i < 1 {
            return PayloadParse::Short;
        }
        let size = p[i] as usize;
        if p.len() - i - 1 < size {
            return PayloadParse::Short;
        }
        let start = i + 1;
        let v: u64 = if size == 1 {
            p[start] as u64
        } else if size == 2 {
            read_u16_le(p, start) as u64
        } else if size == 4 {
            read_u32_le(p, start) as u64
        } else if size == 8 {
            read_u64_le(p, start)
        } else {
            return PayloadParse::Mismatch;
        };
        PayloadParse::Done((v, start + size))
    }

    /// Parses a new UNIX extra field payload.
    pub fn parse(p: &[u8]) -> (r: PayloadParse<Self>)
        ensures
            r == Self::spec_parse(p@),
    {
        if p.len() < 1 {
            return PayloadParse::Short;
        }
        if p[0] != 1 {
            return PayloadParse::Mismatch;
        }
        let (uid, next) = match Self::parse_variable_length_integer(p, 1) {
            PayloadParse::Done(x) => x,
            PayloadParse::Mismatch => {
                return PayloadParse::Mismatch;
            },
            PayloadParse::Short => {
                return PayloadParse::Short;
            },
        };
        let (gid, _) = match Self::parse_variable_length_integer(p, next) {
            PayloadParse::Done(x) => x,
            PayloadParse::Mismatch => {
                return PayloadParse::Mismatch;
            },
            PayloadParse::Short => {
                return PayloadParse::Short;
            },
        };
        PayloadParse::Done(ExtraNewUnixField { uid, gid })
    }
}

/// NTFS attribute 1, which contains modified/accessed/created timestamps
#[derive(Debug, Clone, Copy, PartialEq, Eq, Structural)]
pub struct NtfsAttr1 {
    /// modified time
    pub mtime: NtfsTimestamp,
    /// accessed time
    pub atime: NtfsTimestamp,
    /// created time
    pub ctime: NtfsTimestamp,
}

impl NtfsAttr1 {
    /// The attribute stored at `s[i..i + 24]`.
    pub open spec fn spec_at(s: Seq<u8>, i: int) -> NtfsAttr1 {
        NtfsAttr1 {
            mtime: NtfsTimestamp::spec_at(s, i),
            atime: NtfsTimestamp::spec_at(s, i + 8),
            ctime: NtfsTimestamp::spec_at(s, i + 16),
        }
    }

    /// Parses the three timestamps of attribute 1.
    pub fn parse(p: &[u8], pos: usize) -> (r: Self)
        requires
            pos + 24 <= p.len(),
        ensures
            r == NtfsAttr1::spec_at(p@, pos as int),
    {
        NtfsAttr1 {
            mtime: NtfsTimestamp { timestamp: read_u64_le(p, pos) },
            atime: NtfsTimestamp { timestamp: read_u64_le(p, pos + 8) },
            ctime: NtfsTimestamp { timestamp: read_u64_le(p, pos + 16) },
        }
    }
}

/// NTFS attribute for zip entries (mostly timestamps)
#[derive(Debug, Clone, Copy, PartialEq, Eq, Structural)]
pub enum NtfsAttr {
    /// NTFS attribute 1, which contains modified/accessed/created timestamps
    Attr1(NtfsAttr1),
    /// Unknown NTFS attribute
    Unknown {
        /// tag of the attribute
        tag: u16,
    },
}

/// The NTFS attributes that fill `s` (a tag, a 16-bit size and a payload of
/// that size each), or `None` when `s` ends inside one, or an attribute 1
/// payload is shorter than its 24 bytes.
pub open spec fn spec_ntfs_attrs(s: Seq<u8>) -> Option<Seq<NtfsAttr>>
    decreases s.len(),
{
    if s.len() == 0 {
        Some(Seq::empty())
    } else if s.len() < 4 || s.len() < 4 + spec_u16_le(s, 2) {
        None
    } else {
        let tag = spec_u16_le(s, 0);
        let len = spec_u16_le(s, 2) as int;
        if tag == 1 && len < 24 {
            None
        } else {
            let attr = if tag == 1 {
                NtfsAttr::Attr1(NtfsAttr1::spec_at(s, 4))
            } else {
                NtfsAttr::Unknown { tag }
            };
            match spec_ntfs_attrs(s.subrange(4 + len, s.len() as int)) {
                Some(rest) => Some(seq![attr] + rest),
                None => None,
            }
        }
    }
}

/// 4.5.5 -NTFS Extra Field (0x000a):
#[derive(Debug, Clone)]
pub struct ExtraNtfsField {
    /// NTFS attributes
    pub attrs: Vec<NtfsAttr>,
}

impl ExtraNtfsField {
    /// The NTFS field in payload `p`: four reserved bytes, then attributes up
    /// to the end of the payload.
    pub open spec fn spec_parse(p: Seq<u8>) -> Option<Seq<NtfsAttr>> {
        if p.len() < 4 {
            None
        } else {
            spec_ntfs_attrs(p.subrange(4, p.len() as int))
        }
    }

    /// Parses an NTFS extra field payload; `None` when it is short.
    pub fn parse(p: &[u8]) -> (r: Option<Self>)
        ensures
            match Self::spec_parse(p@) {
                Some(attrs) => r matches Some(f) && f.attrs@ == attrs,
                None => r is None,
            },
    {
        if p.len() < 4 {
            return None;
        }
        let n = p.len();
        let mut pos: usize = 4;
        let mut attrs: Vec<NtfsAttr> = Vec::new();
        let ghost whole = p@.subrange(4, n as int);
        proof {
            assert(p@.subrange(4, n as int).subrange(0, n - 4) =~= p@.subrange(4, n as int));
        }
        while pos < n
            invariant
                4 <= pos <= n,
                n == p@.len(),
                whole == p@.subrange(4, n as int),
                match spec_ntfs_attrs(whole) {
                    Some(all) => match spec_ntfs_attrs(p@.subrange(pos as int, n as int)) {
                        Some(rest) => all == attrs@ + rest,
                        None => false,
                    },
                    None => spec_ntfs_attrs(p@.subrange(pos as int, n as int)) is None,
                },
            decreases n - pos,
        {
            let ghost s = p@.subrange(pos as int, n as int);
            if n - pos < 4 {
                return None;
            }
            let tag = read_u16_le(p, pos);
            let len = read_u16_le(p, pos + 2) as usize;
            proof {
                assert(spec_u16_le(s, 0) == spec_u16_le(p@, pos as int));
                assert(spec_u16_le(s, 2) == spec_u16_le(p@, pos + 2));
            }
            if n - pos - 4 < len {
                return None;
            }
            let attr = if tag == 1 {
                if len < 24 {
                    return None;
                }
                let a = NtfsAttr1::parse(p, pos + 4);
                proof {
                    assert(NtfsAttr1::spec_at(s, 4) == NtfsAttr1::spec_at(p@, pos + 4));
                }
                NtfsAttr::Attr1(a)
            } else {
                NtfsAttr::Unknown { tag }
            };
            let ghost old_attrs = attrs@;
            attrs.push(attr);
            proof {
                assert(s.subrange(4 + len, s.len() as int) =~= p@.subrange(
                    pos + 4 + len,
                    n as int,
                ));
                assert(attrs@ =~= old_attrs + seq![attr]);
                match spec_ntfs_attrs(whole) {
                    Some(all) => {
                        assert(all =~= attrs@ + spec_ntfs_attrs(
                            p@.subrange(pos + 4 + len, n as int),
                        ).unwrap());
                    },
                    None => {},
                }
            }
            pos = pos + 4 + len;
        }
        proof {
            assert(p@.subrange(pos as int, n as int) =~= Seq::<u8>::empty());
            assert(attrs@ =~= attrs@ + Seq::<NtfsAttr>::empty());
        }
        Some(ExtraNtfsField { attrs })
    }
}

/// The payload of the extra field at the start of `s`.
pub open spec fn spec_payload(s: Seq<u8>) -> Seq<u8> {
    s.subrange(4, 4 + spec_u16_le(s, 2))
}

/// The extra field at the start of `s` is complete but its payload is too
/// short for the kind of field its tag announces.
pub open spec fn spec_extra_field_short(s: Seq<u8>, settings: ExtraFieldSettings) -> bool {
    let tag = spec_u16_le(s, 0);
    let p = spec_payload(s);
    if tag == ZIP64_TAG {
        ExtraZip64Field::spec_parse(p, settings) is Short
    } else if tag == TIMESTAMP_TAG {
        ExtraTimestampField::spec_parse(p) is Short
    } else if tag == NTFS_TAG {
        ExtraNtfsField::spec_parse(p) is None
    } else if tag == UNIX_TAG || tag == UNIX_INFOZIP_TAG {
        ExtraUnixField::spec_status(p) is Short
    } else if tag == NEW_UNIX_TAG {
        ExtraNewUnixField::spec_parse(p) is Short
    } else {
        false
    }
}

impl ExtraField {
    /// `self` is what the extra field at the start of `s` holds: the kind
    /// its tag announces when the payload reads as that kind, and `Unknown`
    /// otherwise.
    pub open spec fn spec_matches(self, s: Seq<u8>, settings: ExtraFieldSettings) -> bool {
        let tag = spec_u16_le(s, 0);
        let p = spec_payload(s);
        if tag == ZIP64_TAG {
            ExtraZip64Field::spec_parse(p, settings) matches PayloadParse::Done(z) && self
                == ExtraField::Zip64(z)
        } else if tag == TIMESTAMP_TAG {
            match ExtraTimestampField::spec_parse(p) {
                PayloadParse::Done(t) => self == ExtraField::Timestamp(t),
                _ => self == (ExtraField::Unknown { tag }),
            }
        } else if tag == NTFS_TAG {
            ExtraNtfsField::spec_parse(p) matches Some(attrs) && self matches ExtraField::Ntfs(f)
                && f.attrs@ == attrs
        } else if tag == UNIX_TAG || tag == UNIX_INFOZIP_TAG {
            match ExtraUnixField::spec_status(p) {
                PayloadParse::Done(_) => self matches ExtraField::Unix(u) && u.spec_matches(p),
                _ => self == (ExtraField::Unknown { tag }),
            }
        } else if tag == NEW_UNIX_TAG {
            match ExtraNewUnixField::spec_parse(p) {
                PayloadParse::Done(u) => self == ExtraField::NewUnix(u),
                _ => self == (ExtraField::Unknown { tag }),
            }
        } else {
            self == (ExtraField::Unknown { tag })
        }
    }

    /// Parses one extra field from the start of `input`.
    ///
    /// A payload that does not read as the kind of field its tag announces
    /// leaves the field `Unknown`; a payload that is too short for it is an
    /// error, as is a field that `input` does not hold whole.
    pub fn parse(input: &[u8], settings: ExtraFieldSettings) -> (r: Result<(usize, Self), ParseError>)
        ensures
            r is Err ==> r == Err::<(usize, Self), ParseError>(ParseError::Incomplete),
            r is Err <==> input@.len() < 4 || input@.len() < 4 + spec_u16_le(input@, 2)
                || spec_extra_field_short(input@, settings),
            r matches Ok((n, ef)) ==> n == 4 + spec_u16_le(input@, 2) && ef.spec_matches(
                input@,
                settings,
            ),
    {
        let (n, rec) = match ExtraFieldRecord::parser(input) {
            Ok(x) => x,
            Err(e) => {
                return Err(e);
            },
        };
        let tag = rec.tag;
        let p = rec.payload;
        let variant = if tag == ZIP64_TAG {
            match ExtraZip64Field::parse(p, settings) {
                Some(z) => ExtraField::Zip64(z),
                None => {
                    return Err(ParseError::Incomplete);
                },
            }
        } else if tag == TIMESTAMP_TAG {
            match ExtraTimestampField::parse(p) {
                PayloadParse::Done(t) => ExtraField::Timestamp(t),
                PayloadParse::Mismatch => ExtraField::Unknown { tag },
                PayloadParse::Short => {
                    return Err(ParseError::Incomplete);
                },
            }
        } else if tag == NTFS_TAG {
            match ExtraNtfsField::parse(p) {
                Some(f) => ExtraField::Ntfs(f),
                None => {
                    return Err(ParseError::Incomplete);
                },
            }
        } else if tag == UNIX_TAG || tag == UNIX_INFOZIP_TAG {
            match ExtraUnixField::parse(p) {
                PayloadParse::Done(u) => ExtraField::Unix(u),
                PayloadParse::Mismatch => ExtraField::Unknown { tag },
                PayloadParse::Short => {
                    return Err(ParseError::Incomplete);
                },
            }
        } else if tag == NEW_UNIX_TAG {
            match ExtraNewUnixField::parse(p) {
                PayloadParse::Done(u) => ExtraField::NewUnix(u),
                PayloadParse::Mismatch => ExtraField::Unknown { tag },
                PayloadParse::Short => {
                    return Err(ParseError::Incomplete);
                },
            }
        } else {
            ExtraField::Unknown { tag }
        };
        Ok((n, variant))
    }
}

} // verus!
