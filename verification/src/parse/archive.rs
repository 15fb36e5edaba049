//! Archives, their entries, and the metadata that extra fields carry.
use vstd::prelude::*;
use vstd::string::StrSliceExecFns;
use vstd::string::StringSliceAdditionalSpecFns;
use vstd::utf8::encode_utf8_decode_utf8;

use super::{
    DateTimeUtc, ExtraField, ExtraFieldSettings, ExtraNewUnixField, ExtraNtfsField,
    ExtraTimestampField, ExtraUnixField, ExtraZip64Field, Method, Mode, NtfsAttr, NtfsAttr1,
    Version,
};
use super::date_time::{
    from_unix_secs, spec_from_unix_secs, spec_zero_datetime, zero_datetime,
};
use super::extra_field::{spec_payload, PayloadParse, NEW_UNIX_TAG, NTFS_TAG, TIMESTAMP_TAG, UNIX_INFOZIP_TAG, UNIX_TAG, ZIP64_TAG};
use super::mode::{has_bits, lemma_msdos_mode, lemma_unix_mode, spec_mode_from_msdos, spec_mode_from_unix, MODE_DIR, MODE_SYMLINK};
use crate::encoding::Encoding;
use crate::le::{spec_u16_le, spec_u32_le};

verus! {

/// Whether two strings hold the same text.
pub fn str_eq(a: &str, b: &str) -> (r: bool)
    ensures
        r == (a@ == b@),
{
    let x = a.as_bytes();
    let y = b.as_bytes();
    proof {
        encode_utf8_decode_utf8(a@);
        encode_utf8_decode_utf8(b@);
    }
    assert(a@ == b@ ==> x@ == y@);
    if x.len() != y.len() {
        return false;
    }
    let mut i: usize = 0;
    while i < x.len()
        invariant
            x@.len() == y@.len(),
            a@ == b@ ==> x@ == y@,
            i <= x@.len(),
            forall|k: int| 0 <= k < i ==> x@[k] == y@[k],
        decreases x@.len() - i,
    {
        if x[i] != y[i] {
            assert(x@ != y@);
            return false;
        }
        i = i + 1;
    }
    assert(x@ =~= y@);
    true
}

/// The chars of `s`, in a vector.
pub fn str_chars(s: &str) -> (v: Vec<char>)
    ensures
        v@ == s@,
{
    let mut v: Vec<char> = Vec::new();
    for c in it: s.chars()
        invariant
            it.seq() == s@,
            v@ == it.seq().subrange(0, it.index() as int),
    {
        v.push(c);
    }
    v
}

/// An Archive contains general information about a zip file, along with a list
/// of [entries][Entry].
///
/// It is obtained through a state machine like
/// [ArchiveFsm](crate::fsm::ArchiveFsm).
pub struct Archive {
    /// the size of the zip file, in bytes
    pub size: u64,
    /// the character encoding of names and comments
    pub encoding: Encoding,
    /// the entries, in central directory order
    pub entries: Vec<Entry>,
    /// the archive's comment
    pub comment: String,
}

impl Archive {
    /// The size of .zip file that was read, in bytes.
    pub fn size(&self) -> (r: u64)
        ensures
            r == self.size,
    {
        self.size
    }

    /// All files in this zip, read from the central directory.
    pub fn entries(&self) -> (r: &[Entry])
        ensures
            r@ == self.entries@,
    {
        self.entries.as_slice()
    }

    /// Attempts to look up an entry by name. This is usually a bad idea,
    /// as names aren't necessarily normalized in zip archives.
    ///
    /// Returns the first entry with that name.
    pub fn by_name(&self, name: &str) -> (r: Option<&Entry>)
        ensures
            r is None <==> forall|i: int| 0 <= i < self.entries@.len() ==> self.entries@[i].name@ != name@,
            r matches Some(e) ==> exists|i: int|
                0 <= i < self.entries@.len() && self.entries@[i] == *e && e.name@ == name@ && forall|
                    j: int,
                | 0 <= j < i ==> self.entries@[j].name@ != name@,
    {
        let mut i: usize = 0;
        while i < self.entries.len()
            invariant
                i <= self.entries@.len(),
                forall|j: int| 0 <= j < i ==> self.entries@[j].name@ != name@,
            decreases self.entries@.len() - i,
        {
            if str_eq(self.entries[i].name.as_str(), name) {
                return Some(&self.entries[i]);
            }
            i = i + 1;
        }
        None
    }

    /// Returns the detected character encoding for text fields
    /// (names, comments) inside this zip archive.
    pub fn encoding(&self) -> (r: Encoding)
        ensures
            r == self.encoding,
    {
        self.encoding
    }

    /// Returns the comment for this archive, empty when there is none.
    pub fn comment(&self) -> (r: &str)
        ensures
            r@ == self.comment@,
    {
        self.comment.as_str()
    }
}

/// Describes a zip archive entry (a file, a directory, a symlink)
pub struct Entry {
    /// Name of the file
    ///
    /// This should be a relative path, separated by `/`. However, there are zip
    /// files in the wild with all sorts of evil variants, so, be conservative
    /// in what you accept.
    ///
    /// See also [Self::sanitized_name], which returns a sanitized version of
    /// the name, working around zip slip vulnerabilities.
    pub name: String,
    /// Compression method: Store, Deflate, Bzip2, etc.
    pub method: Method,
    /// Comment is any arbitrary user-defined string shorter than 64KiB
    pub comment: String,
    /// This entry's "last modified" timestamp - with caveats
    ///
    /// Due to the history of the ZIP file format, this may be inaccurate. It may be offset
    /// by a few hours, if there is no extended timestamp information. It may have a resolution
    /// as low as two seconds, if only MSDOS timestamps are present. It may default to the Unix
    /// epoch, if something went really wrong.
    pub modified: DateTimeUtc,
    /// This entry's "created" timestamp, if available.
    pub created: Option<DateTimeUtc>,
    /// This entry's "last accessed" timestamp, if available.
    pub accessed: Option<DateTimeUtc>,
    /// Offset of the local file header in the zip file
    pub header_offset: u64,
    /// Version of zip needed to extract this archive.
    pub reader_version: Version,
    /// General purpose bit flag
    ///
    /// In the zip format, the most noteworthy flag (bit 11) is for UTF-8 names.
    /// Other flags can indicate: encryption (unsupported), various compression
    /// settings (depending on the [Method] used).
    ///
    /// For LZMA, general-purpose bit 1 denotes the EOS marker.
    pub flags: u16,
    /// Unix user ID
    ///
    /// Only present if a Unix extra field or New Unix extra field was found.
    pub uid: Option<u32>,
    /// Unix group ID
    ///
    /// Only present if a Unix extra field or New Unix extra field was found.
    pub gid: Option<u32>,
    /// CRC-32 hash as found in the central directory.
    ///
    /// Note that this may be zero, and the actual CRC32 might be in the local header, or (more
    /// commonly) in the data descriptor instead.
    pub crc32: u32,
    /// Size in bytes, after compression
    pub compressed_size: u64,
    /// Size in bytes, before compression
    ///
    /// This will be zero for directories.
    pub uncompressed_size: u64,
    /// File mode.
    pub mode: Mode,
}

/// The metadata of an entry that extra fields can change.
#[derive(Debug, Clone, Copy, PartialEq, Eq, Structural)]
pub struct EntryMeta {
    /// last modification time
    pub modified: DateTimeUtc,
    /// creation time
    pub created: Option<DateTimeUtc>,
    /// last access time
    pub accessed: Option<DateTimeUtc>,
    /// offset of the local file header
    pub header_offset: u64,
    /// Unix user ID
    pub uid: Option<u32>,
    /// Unix group ID
    pub gid: Option<u32>,
    /// size after compression
    pub compressed_size: u64,
    /// size before compression
    pub uncompressed_size: u64,
}

/// The point in time `secs` seconds after the Unix epoch, or the epoch itself
/// when that is out of range.
pub open spec fn spec_unix_or_zero(secs: u32) -> DateTimeUtc {
    match spec_from_unix_secs(secs as i64) {
        Some(d) => d,
        None => spec_zero_datetime(),
    }
}

/// A 32-bit Unix time always converts: to that many seconds after the Unix
/// epoch, with no fraction.
pub proof fn lemma_unix_or_zero(secs: u32)
    ensures
        spec_unix_or_zero(secs) == (DateTimeUtc { secs: secs as i64, nanos: 0 }),
{
}

/// The last NTFS attribute 1 among `attrs`.
pub open spec fn spec_last_attr1(attrs: Seq<NtfsAttr>) -> Option<NtfsAttr1>
    decreases attrs.len(),
{
    if attrs.len() == 0 {
        None
    } else {
        match attrs.last() {
            NtfsAttr::Attr1(a) => Some(a),
            NtfsAttr::Unknown { .. } => spec_last_attr1(attrs.drop_last()),
        }
    }
}

/// Applies the times of an NTFS attribute 1.
pub open spec fn spec_apply_attr1(m: EntryMeta, a: NtfsAttr1) -> EntryMeta {
    EntryMeta {
        modified: match a.mtime.spec_to_datetime() {
            Some(d) => d,
            None => spec_zero_datetime(),
        },
        created: a.ctime.spec_to_datetime(),
        accessed: a.atime.spec_to_datetime(),
        ..m
    }
}

/// Applies a zip64 field: each size or offset it holds replaces the one of
/// the entry.
pub open spec fn spec_apply_zip64(m: EntryMeta, z: ExtraZip64Field) -> EntryMeta {
    EntryMeta {
        uncompressed_size: match z.uncompressed_size {
            Some(n) => n,
            None => m.uncompressed_size,
        },
        compressed_size: match z.compressed_size {
            Some(n) => n,
            None => m.compressed_size,
        },
        header_offset: match z.header_offset {
            Some(n) => n,
            None => m.header_offset,
        },
        ..m
    }
}

/// Applies an extended timestamp: it sets the modification time.
pub open spec fn spec_apply_timestamp(m: EntryMeta, t: ExtraTimestampField) -> EntryMeta {
    EntryMeta { modified: spec_unix_or_zero(t.mtime), ..m }
}

/// Applies a UNIX field: it sets the modification time, and the user and
/// group ids when the entry has none yet.
pub open spec fn spec_apply_unix(m: EntryMeta, mtime: u32, uid: u16, gid: u16) -> EntryMeta {
    EntryMeta {
        modified: spec_unix_or_zero(mtime),
        uid: if m.uid is None {
            Some(uid as u32)
        } else {
            m.uid
        },
        gid: if m.gid is None {
            Some(gid as u32)
        } else {
            m.gid
        },
        ..m
    }
}

/// Applies a new UNIX field: it sets the user id and the group id to the
/// field's.
pub open spec fn spec_apply_new_unix(m: EntryMeta, u: ExtraNewUnixField) -> EntryMeta {
    EntryMeta { uid: Some(u.uid as u32), gid: Some(u.gid as u32), ..m }
}

/// Applies an NTFS field: its last attribute 1, if any, sets the times.
pub open spec fn spec_apply_ntfs(m: EntryMeta, attrs: Seq<NtfsAttr>) -> EntryMeta {
    match spec_last_attr1(attrs) {
        Some(a) => spec_apply_attr1(m, a),
        None => m,
    }
}

/// What applying extra field `ef` makes of metadata `m`.
pub open spec fn spec_apply_extra_field(m: EntryMeta, ef: ExtraField) -> EntryMeta {
    match ef {
        ExtraField::Zip64(z) => spec_apply_zip64(m, z),
        ExtraField::Timestamp(t) => spec_apply_timestamp(m, t),
        ExtraField::Ntfs(f) => spec_apply_ntfs(m, f.attrs@),
        ExtraField::Unix(u) => spec_apply_unix(m, u.mtime, u.uid, u.gid),
        ExtraField::NewUnix(u) => spec_apply_new_unix(m, u),
        ExtraField::Unknown { .. } => m,
    }
}

/// What applying the extra field at the start of `s` makes of `m`, read
/// straight from its bytes (assuming the field is whole and well-formed).
pub open spec fn spec_apply_raw_extra_field(m: EntryMeta, s: Seq<u8>, settings: ExtraFieldSettings) -> EntryMeta {
    let tag = spec_u16_le(s, 0);
    let p = spec_payload(s);
    if tag == ZIP64_TAG {
        match ExtraZip64Field::spec_parse(p, settings) {
            PayloadParse::Done(z) => spec_apply_zip64(m, z),
            _ => m,
        }
    } else if tag == TIMESTAMP_TAG {
        match ExtraTimestampField::spec_parse(p) {
            PayloadParse::Done(t) => spec_apply_timestamp(m, t),
            _ => m,
        }
    } else if tag == NTFS_TAG {
        match ExtraNtfsField::spec_parse(p) {
            Some(attrs) => spec_apply_ntfs(m, attrs),
            None => m,
        }
    } else if tag == UNIX_TAG || tag == UNIX_INFOZIP_TAG {
        match ExtraUnixField::spec_status(p) {
            PayloadParse::Done(_) => spec_apply_unix(
                m,
                spec_u32_le(p, 6),
                spec_u16_le(p, 10),
                spec_u16_le(p, 12),
            ),
            _ => m,
        }
    } else if tag == NEW_UNIX_TAG {
        match ExtraNewUnixField::spec_parse(p) {
            PayloadParse::Done(u) => spec_apply_new_unix(m, u),
            _ => m,
        }
    } else {
        m
    }
}

/// The NTFS attribute 1 whose times count is the last one: with none, there
/// is none; otherwise it is one of the attributes, and every attribute after
/// it is of another kind.
pub proof fn lemma_last_attr1(attrs: Seq<NtfsAttr>)
    ensures
        spec_last_attr1(attrs) is None <==> forall|i: int| 0 <= i < attrs.len() ==> !(#[trigger] attrs[i] is Attr1),
        spec_last_attr1(attrs) matches Some(a) ==> exists|i: int|
            0 <= i < attrs.len() && #[trigger] attrs[i] == NtfsAttr::Attr1(a) && forall|j: int|
                i < j < attrs.len() ==> !(#[trigger] attrs[j] is Attr1),
    decreases attrs.len(),
{
    if attrs.len() > 0 {
        let rest = attrs.drop_last();
        lemma_last_attr1(rest);
        let n = attrs.len() - 1;
        assert(forall|i: int| 0 <= i < n ==> attrs[i] == rest[i]);
        match attrs.last() {
            NtfsAttr::Attr1(a) => {
                assert(attrs[n] == NtfsAttr::Attr1(a));
            },
            NtfsAttr::Unknown { .. } => {
                if let Some(a) = spec_last_attr1(rest) {
                    let i = choose|i: int|
                        0 <= i < rest.len() && #[trigger] rest[i] == NtfsAttr::Attr1(a) && forall|j: int|
                            i < j < rest.len() ==> !(#[trigger] rest[j] is Attr1);
                    assert(attrs[i] == NtfsAttr::Attr1(a));
                    assert forall|j: int| i < j < attrs.len() implies !(#[trigger] attrs[j] is Attr1) by {
                        if j < n {
                            assert(attrs[j] == rest[j]);
                        }
                    }
                } else {
                    assert forall|i: int| 0 <= i < attrs.len() implies !(#[trigger] attrs[i] is Attr1) by {
                        if i < n {
                            assert(attrs[i] == rest[i]);
                        }
                    }
                }
            },
        }
    }
}

/// What each extra field does to an entry's metadata, field by field (what
/// is not named stays as it was): a zip64 field replaces each size and the
/// header offset it holds; an extended timestamp sets the modification time
/// from its mtime; a UNIX field sets the modification time from its mtime,
/// and the user and group ids from its own when the entry has none; a new
/// UNIX field sets the user id from its uid and the group id from its gid;
/// an NTFS field with an attribute 1 sets the modification, access and
/// creation times from its mtime, atime and ctime (the modification time is
/// the Unix epoch when its mtime has no date); an unknown field changes
/// nothing.
pub proof fn lemma_extra_field_effects(m: EntryMeta, ef: ExtraField)
    ensures
        ({
            let r = spec_apply_extra_field(m, ef);
            &&& (ef matches ExtraField::Zip64(z) ==> {
                &&& r.uncompressed_size == (match z.uncompressed_size {
                    Some(n) => n,
                    None => m.uncompressed_size,
                })
                &&& r.compressed_size == (match z.compressed_size {
                    Some(n) => n,
                    None => m.compressed_size,
                })
                &&& r.header_offset == (match z.header_offset {
                    Some(n) => n,
                    None => m.header_offset,
                })
                &&& r.modified == m.modified && r.created == m.created && r.accessed == m.accessed
                &&& r.uid == m.uid && r.gid == m.gid
            })
            &&& (ef matches ExtraField::Timestamp(t) ==> {
                &&& r.modified == spec_unix_or_zero(t.mtime)
                &&& r.created == m.created && r.accessed == m.accessed && r.header_offset == m.header_offset
                &&& r.uid == m.uid && r.gid == m.gid
                &&& r.compressed_size == m.compressed_size && r.uncompressed_size == m.uncompressed_size
            })
            &&& (ef matches ExtraField::Unix(u) ==> {
                &&& r.modified == spec_unix_or_zero(u.mtime)
                &&& r.uid == (match m.uid {
                    Some(x) => Some(x),
                    None => Some(u.uid as u32),
                })
                &&& r.gid == (match m.gid {
                    Some(x) => Some(x),
                    None => Some(u.gid as u32),
                })
                &&& r.created == m.created && r.accessed == m.accessed && r.header_offset == m.header_offset
                &&& r.compressed_size == m.compressed_size && r.uncompressed_size == m.uncompressed_size
            })
            &&& (ef matches ExtraField::NewUnix(u) ==> {
                &&& r.uid == Some(u.uid as u32)
                &&& r.gid == Some(u.gid as u32)
                &&& r.modified == m.modified && r.created == m.created && r.accessed == m.accessed
                &&& r.header_offset == m.header_offset
                &&& r.compressed_size == m.compressed_size && r.uncompressed_size == m.uncompressed_size
            })
            &&& (ef matches ExtraField::Ntfs(f) ==> match spec_last_attr1(f.attrs@) {
                Some(a) => {
                    &&& r.modified == (match a.mtime.spec_to_datetime() {
                        Some(d) => d,
                        None => spec_zero_datetime(),
                    })
                    &&& r.accessed == a.atime.spec_to_datetime()
                    &&& r.created == a.ctime.spec_to_datetime()
                    &&& r.header_offset == m.header_offset && r.uid == m.uid && r.gid == m.gid
                    &&& r.compressed_size == m.compressed_size && r.uncompressed_size == m.uncompressed_size
                },
                None => r == m,
            })
            &&& (ef is Unknown ==> r == m)
        }),
{
}

/// Applying a parsed extra field has the effect that its bytes describe.
pub proof fn lemma_apply_parsed_extra_field(
    m: EntryMeta,
    ef: ExtraField,
    s: Seq<u8>,
    settings: ExtraFieldSettings,
)
    requires
        ef.spec_matches(s, settings),
    ensures
        spec_apply_extra_field(m, ef) == spec_apply_raw_extra_field(m, s, settings),
{
}

/// The entry's file type: a directory, a file, or a symbolic link.
#[derive(Debug, Clone, Copy, PartialEq, Eq, Structural)]
pub enum EntryKind {
    /// The entry is a directory
    Directory,
    /// The entry is a file
    File,
    /// The entry is a symbolic link
    Symlink,
}

/// The kind of an entry with mode `mode`: a symbolic link when it has the
/// symlink bit, else a directory when it has the directory bit, else a file.
pub open spec fn spec_entry_kind(mode: u32) -> EntryKind {
    if has_bits(mode, MODE_SYMLINK) {
        EntryKind::Symlink
    } else if has_bits(mode, MODE_DIR) {
        EntryKind::Directory
    } else {
        EntryKind::File
    }
}

/// The kind of an entry follows its mode: a symlink bit (0x0800_0000) makes
/// a symbolic link, else a directory bit (0x8000_0000) a directory, else it
/// is a file. So with MS-DOS attributes, an entry is a directory exactly
/// when it has the directory attribute and not the read-only one, and a
/// file otherwise; with a Unix mode, a directory type makes a directory, a
/// symbolic link type a symbolic link, and a regular file type a file.
pub proof fn lemma_entry_kind(mode: u32, attrs: u32)
    ensures
        mode & 0x0800_0000 != 0 ==> spec_entry_kind(mode) == EntryKind::Symlink,
        mode & 0x0800_0000 == 0 && mode & 0x8000_0000 != 0 ==> spec_entry_kind(mode) == EntryKind::Directory,
        mode & 0x0800_0000 == 0 && mode & 0x8000_0000 == 0 ==> spec_entry_kind(mode) == EntryKind::File,
        spec_entry_kind(spec_mode_from_msdos(attrs)) == (if attrs & 0x11 == 0x10 {
            EntryKind::Directory
        } else {
            EntryKind::File
        }),
        attrs & 0xf000 == 0x4000 ==> spec_entry_kind(spec_mode_from_unix(attrs)) == EntryKind::Directory,
        attrs & 0xf000 == 0xa000 ==> spec_entry_kind(spec_mode_from_unix(attrs)) == EntryKind::Symlink,
        attrs & 0xf000 == 0x8000 ==> spec_entry_kind(spec_mode_from_unix(attrs)) == EntryKind::File,
{
    lemma_msdos_mode(attrs);
    lemma_unix_mode(attrs);
    let d = spec_mode_from_msdos(attrs);
    assert(attrs & 0x11 == 0 || attrs & 0x11 == 0x10 || (attrs & 0x01 != 0 && attrs & 0x11 != 0x10)) by (bit_vector);
    assert((d == 0x8000_01ffu32 ==> d & 0x8000_0000 != 0 && d & 0x0800_0000 == 0) && (d == 0o666u32
        ==> d & 0x8000_0000 == 0 && d & 0x0800_0000 == 0) && (d == 0o222u32 ==> d & 0x8000_0000 == 0 && d
        & 0x0800_0000 == 0)) by (bit_vector);
    assert(d & 0x0800_0000 == 0) by (bit_vector)
        requires
            d == 0o666u32 || d == 0x8000_01ffu32 || d == 0o222u32,
    ;
    let u = spec_mode_from_unix(attrs);
    assert((u & 0x8f20_0000 == 0x8000_0000 ==> u & 0x0800_0000 == 0 && u & 0x8000_0000 != 0) && (u
        & 0x8f20_0000 == 0x0800_0000 ==> u & 0x0800_0000 != 0) && (u & 0x8f20_0000 == 0 ==> u & 0x0800_0000
        == 0 && u & 0x8000_0000 == 0)) by (bit_vector);
}

/// Whether `s` holds dots at `i` and `i + 1`.
pub open spec fn dot_dot_at(s: Seq<char>, i: int) -> bool {
    0 <= i < s.len() - 1 && s[i] == '.' && s[i + 1] == '.'
}

/// Whether `s` holds two dots in a row.
pub open spec fn has_dot_dot(s: Seq<char>) -> bool {
    exists|i: int| #[trigger] dot_dot_at(s, i)
}

/// Whether `s` holds a colon followed by a backslash at `i`.
pub open spec fn colon_backslash_at(s: Seq<char>, i: int) -> bool {
    0 <= i < s.len() - 1 && s[i] == ':' && s[i + 1] == '\\'
}

/// Whether `s` names a path that Windows reads as absolute: it holds `:\`
/// (a drive), or starts with a backslash.
pub open spec fn windows_absolute(s: Seq<char>) -> bool {
    (exists|i: int| #[trigger] colon_backslash_at(s, i)) || (s.len() > 0 && s[0] == '\\')
}

/// `s` starts with exactly `k` slashes.
pub open spec fn leading_slashes(s: Seq<char>, k: int) -> bool {
    &&& 0 <= k <= s.len()
    &&& forall|i: int| 0 <= i < k ==> s[i] == '/'
    &&& (k == s.len() || s[k] != '/')
}

impl Entry {
    /// The metadata of this entry that extra fields can change.
    pub open spec fn meta(self) -> EntryMeta {
        EntryMeta {
            modified: self.modified,
            created: self.created,
            accessed: self.accessed,
            header_offset: self.header_offset,
            uid: self.uid,
            gid: self.gid,
            compressed_size: self.compressed_size,
            uncompressed_size: self.uncompressed_size,
        }
    }

    /// Returns a sanitized version of the entry's name, if it
    /// seems safe. In particular, if this method feels like the
    /// entry name is trying to do a zip slip (cf.
    /// <https://snyk.io/research/zip-slip-vulnerability>), it'll return
    /// None.
    ///
    /// Other than that, it will strip any leading slashes.
    pub fn sanitized_name(&self) -> (r: Option<&str>)
        ensures
            r is None <==> has_dot_dot(self.name@),
            r matches Some(s) ==> exists|k: int|
                leading_slashes(self.name@, k) && s@ == self.name@.subrange(k, self.name@.len() as int),
    {
        let name = self.name.as_str();
        let chars = str_chars(name);
        let n = chars.len();
        // refuse entries with traversed/absolute path to mitigate zip slip
        let mut i: usize = 0;
        while n > 0 && i < n - 1
            invariant
                chars@ == name@,
                name@ == self.name@,
                n == chars@.len(),
                forall|j: int| 0 <= j < i ==> !#[trigger] dot_dot_at(chars@, j),
            decreases n - i,
        {
            if chars[i] == '.' && chars[i + 1] == '.' {
                assert(dot_dot_at(self.name@, i as int));
                return None;
            }
            i = i + 1;
        }
        // strip absolute prefix on entries pointing to root path
        let mut k: usize = 0;
        while k < n && chars[k] == '/'
            invariant
                chars@ == name@,
                n == chars@.len(),
                k <= n,
                forall|j: int| 0 <= j < k ==> chars@[j] == '/',
            decreases n - k,
        {
            k = k + 1;
        }
        assert(leading_slashes(self.name@, k as int));
        Some(name.substring_char(k, n))
    }

    /// Returns the entry's name as it is to be used on Windows, refusing
    /// names that traverse up (hold `..`) or that Windows reads as absolute
    /// (hold `:\` or start with a backslash), to mitigate zip slip; other
    /// names are kept as they are.
    pub fn sanitized_name_windows(&self) -> (r: Option<&str>)
        ensures
            r is None <==> has_dot_dot(self.name@) || windows_absolute(self.name@),
            r matches Some(s) ==> s@ == self.name@,
    {
        let name = self.name.as_str();
        let chars = str_chars(name);
        let n = chars.len();
        let mut i: usize = 0;
        while n > 0 && i < n - 1
            invariant
                chars@ == name@,
                name@ == self.name@,
                n == chars@.len(),
                forall|j: int| 0 <= j < i ==> !#[trigger] dot_dot_at(chars@, j),
                forall|j: int| 0 <= j < i ==> !#[trigger] colon_backslash_at(chars@, j),
            decreases n - i,
        {
            if chars[i] == '.' && chars[i + 1] == '.' {
                assert(dot_dot_at(self.name@, i as int));
                return None;
            }
            if chars[i] == ':' && chars[i + 1] == '\\' {
                assert(colon_backslash_at(self.name@, i as int));
                return None;
            }
            i = i + 1;
        }
        if n > 0 && chars[0] == '\\' {
            return None;
        }
        Some(name)
    }

    /// Apply the extra field to the entry, updating its metadata.
    pub fn set_extra_field(&mut self, ef: &ExtraField)
        ensures
            final(self).meta() == spec_apply_extra_field(old(self).meta(), *ef),
            final(self).name == old(self).name,
            final(self).method == old(self).method,
            final(self).comment == old(self).comment,
            final(self).reader_version == old(self).reader_version,
            final(self).flags == old(self).flags,
            final(self).crc32 == old(self).crc32,
            final(self).mode == old(self).mode,
    {
        match ef {
            ExtraField::Zip64(z64) => {
                if let Some(n) = z64.uncompressed_size {
                    self.uncompressed_size = n;
                }
                if let Some(n) = z64.compressed_size {
                    self.compressed_size = n;
                }
                if let Some(n) = z64.header_offset {
                    self.header_offset = n;
                }
            },
            ExtraField::Timestamp(ts) => {
                self.modified = match from_unix_secs(ts.mtime as i64) {
                    Some(d) => d,
                    None => zero_datetime(),
                };
            },
            ExtraField::Ntfs(nf) => {
                let ghost m0 = self.meta();
                let mut i: usize = 0;
                while i < nf.attrs.len()
                    invariant
                        i <= nf.attrs@.len(),
                        self.meta() == spec_apply_ntfs(m0, nf.attrs@.subrange(0, i as int)),
                        self.name == old(self).name,
                        self.method == old(self).method,
                        self.comment == old(self).comment,
                        self.reader_version == old(self).reader_version,
                        self.flags == old(self).flags,
                        self.crc32 == old(self).crc32,
                        self.mode == old(self).mode,
                    decreases nf.attrs@.len() - i,
                {
                    proof {
                        assert(nf.attrs@.subrange(0, i + 1).drop_last() =~= nf.attrs@.subrange(
                            0,
                            i as int,
                        ));
                    }
                    // note: other attributes are unsupported
                    if let NtfsAttr::Attr1(attr) = &nf.attrs[i] {
                        self.modified = match attr.mtime.to_datetime() {
                            Some(d) => d,
                            None => zero_datetime(),
                        };
                        self.created = attr.ctime.to_datetime();
                        self.accessed = attr.atime.to_datetime();
                    }
                    i = i + 1;
                }
                proof {
                    assert(nf.attrs@.subrange(0, nf.attrs@.len() as int) =~= nf.attrs@);
                }
            },
            ExtraField::Unix(uf) => {
                self.modified = match from_unix_secs(uf.mtime as i64) {
                    Some(d) => d,
                    None => zero_datetime(),
                };
                if self.uid.is_none() {
                    self.uid = Some(uf.uid as u32);
                }
                if self.gid.is_none() {
                    self.gid = Some(uf.gid as u32);
                }
            },
            ExtraField::NewUnix(uf) => {
                self.uid = Some(uf.uid as u32);
                self.gid = Some(uf.gid as u32);
            },
            ExtraField::Unknown { .. } => {},
        }
    }

    /// Determine the kind of this entry based on its mode.
    pub fn kind(&self) -> (r: EntryKind)
        ensures
            r == spec_entry_kind(self.mode.0),
    {
        if self.mode.has(Mode(MODE_SYMLINK)) {
            EntryKind::Symlink
        } else if self.mode.has(Mode(MODE_DIR)) {
            EntryKind::Directory
        } else {
            EntryKind::File
        }
    }
}

/// A file of an archive, known by its name only; what the archive gives of
/// it is read elsewhere.
pub struct ZipEntry<'a> {
    name: &'a str,
}

impl<'a> ZipEntry<'a> {
    /// An entry named `name`.
    pub fn new(name: &'a str) -> (r: Self)
        ensures
            r.spec_name() == name@,
    {
        ZipEntry { name }
    }

    /// The entry's name.
    pub closed spec fn spec_name(&self) -> Seq<char> {
        self.name@
    }

    /// The entry's name.
    pub fn name(&self) -> (r: &'a str)
        ensures
            r@ == self.spec_name(),
    {
        self.name
    }
}

} // verus!
