//! File modes and permission bits, and their conversion from the Unix and
//! MS-DOS attributes stored in a zip archive.
use vstd::prelude::*;
use vstd::string::StringExecFns;

verus! {

/// Mode represents a file's mode and permission bits.
/// The bits have the same definition on all systems,
/// but not all bits apply to all systems.
///
/// It is modelled after Go's `os.FileMode`.
#[derive(Debug, Clone, Copy, PartialEq, Eq, Hash, Structural)]
pub struct Mode(pub u32);

/// d: is a directory
pub const MODE_DIR: u32 = 0x8000_0000;
/// a: append-only
pub const MODE_APPEND: u32 = 0x4000_0000;
/// l: exclusive use
pub const MODE_EXCLUSIVE: u32 = 0x2000_0000;
/// T: temporary file; Plan 9 only
pub const MODE_TEMPORARY: u32 = 0x1000_0000;
/// L: symbolic link
pub const MODE_SYMLINK: u32 = 0x0800_0000;
/// D: device file
pub const MODE_DEVICE: u32 = 0x0400_0000;
/// p: named pipe (FIFO)
pub const MODE_NAMED_PIPE: u32 = 0x0200_0000;
/// S: Unix domain socket
pub const MODE_SOCKET: u32 = 0x0100_0000;
/// u: setuid
pub const MODE_SETUID: u32 = 0x0080_0000;
/// g: setgid
pub const MODE_SETGID: u32 = 0x0040_0000;
/// c: Unix character device, when DEVICE is set
pub const MODE_CHAR_DEVICE: u32 = 0x0020_0000;
/// t: sticky
pub const MODE_STICKY: u32 = 0x0010_0000;
/// ?: non-regular file; nothing else is known
pub const MODE_IRREGULAR: u32 = 0x0008_0000;

/// Unix file attributes, as found in the upper half of the external
/// attributes of entries created on Unix.
#[derive(Debug, Clone, Copy, PartialEq, Eq, Hash, Structural)]
pub struct UnixMode(pub u32);

/// bit mask for the file type
pub const UNIX_IFMT: u32 = 0xf000;
/// socket
pub const UNIX_IFSOCK: u32 = 0xc000;
/// symbolic link
pub const UNIX_IFLNK: u32 = 0xa000;
/// regular file
pub const UNIX_IFREG: u32 = 0x8000;
/// block device
pub const UNIX_IFBLK: u32 = 0x6000;
/// directory
pub const UNIX_IFDIR: u32 = 0x4000;
/// character device
pub const UNIX_IFCHR: u32 = 0x2000;
/// FIFO
pub const UNIX_IFIFO: u32 = 0x1000;
/// set user id on execution
pub const UNIX_ISUID: u32 = 0x800;
/// set group id on execution
pub const UNIX_ISGID: u32 = 0x400;
/// sticky bit
pub const UNIX_ISVTX: u32 = 0x200;

/// MS-DOS file attributes, as found in the external attributes of entries
/// created on MS-DOS, VFAT or NTFS.
#[derive(Debug, Clone, Copy, PartialEq, Eq, Hash, Structural)]
pub struct MsdosMode(pub u32);

/// directory
pub const MSDOS_DIR: u32 = 0x10;
/// read-only
pub const MSDOS_READ_ONLY: u32 = 0x01;

/// Whether `bits` has at least one of the bits of `flag` set.
pub open spec fn has_bits(bits: u32, flag: u32) -> bool {
    bits & flag != 0
}

/// The mode bits of a Unix file mode: its permission bits, one bit for its
/// file type (both the device and character-device bits for a character
/// device), and the setuid, setgid and sticky bits.
pub open spec fn spec_mode_from_unix(u: u32) -> u32 {
    let t = u & UNIX_IFMT;
    let type_bit: u32 = if t == UNIX_IFBLK {
        MODE_DEVICE
    } else if t == UNIX_IFCHR {
        MODE_DEVICE | MODE_CHAR_DEVICE
    } else if t == UNIX_IFDIR {
        MODE_DIR
    } else if t == UNIX_IFIFO {
        MODE_NAMED_PIPE
    } else if t == UNIX_IFLNK {
        MODE_SYMLINK
    } else if t == UNIX_IFSOCK {
        MODE_SOCKET
    } else {
        0
    };
    (u & 0o777) | type_bit | (if has_bits(u, UNIX_ISGID) {
        MODE_SETGID
    } else {
        0
    }) | (if has_bits(u, UNIX_ISUID) {
        MODE_SETUID
    } else {
        0
    }) | (if has_bits(u, UNIX_ISVTX) {
        MODE_STICKY
    } else {
        0
    })
}

/// The mode bits of MS-DOS attributes: directories get the directory bit and
/// all permissions, other files read and write permissions; the read-only
/// attribute then keeps only the write permission bits (which also clears
/// the directory bit).
pub open spec fn spec_mode_from_msdos(u: u32) -> u32 {
    let base: u32 = if has_bits(u, MSDOS_DIR) {
        MODE_DIR | 0o777
    } else {
        0o666
    };
    if has_bits(u, MSDOS_READ_ONLY) {
        base & 0o222
    } else {
        base
    }
}

/// `text` when `m` has the bits of `flag`, nothing otherwise.
pub open spec fn text_if(m: u32, flag: u32, text: Seq<char>) -> Seq<char> {
    if has_bits(m, flag) {
        text
    } else {
        Seq::<char>::empty()
    }
}

/// `text` when `m` has the bits of `flag`, `-` otherwise.
pub open spec fn text_or_dash(m: u32, flag: u32, text: Seq<char>) -> Seq<char> {
    if has_bits(m, flag) {
        text
    } else {
        "-"@
    }
}

/// Whether `m` has none of the type and special bits that have a letter.
pub open spec fn no_type_letters(m: u32) -> bool {
    &&& !has_bits(m, MODE_DIR)
    &&& !has_bits(m, MODE_APPEND)
    &&& !has_bits(m, MODE_EXCLUSIVE)
    &&& !has_bits(m, MODE_TEMPORARY)
    &&& !has_bits(m, MODE_SYMLINK)
    &&& !has_bits(m, MODE_DEVICE)
    &&& !has_bits(m, MODE_NAMED_PIPE)
    &&& !has_bits(m, MODE_SOCKET)
    &&& !has_bits(m, MODE_SETUID)
    &&& !has_bits(m, MODE_SETGID)
    &&& !has_bits(m, MODE_CHAR_DEVICE)
    &&& !has_bits(m, MODE_STICKY)
    &&& !has_bits(m, MODE_IRREGULAR)
}

/// The letters of the type and special bits of `m`, in order, or `-` when it
/// has none.
pub open spec fn spec_type_letters(m: u32) -> Seq<char> {
    if no_type_letters(m) {
        "-"@
    } else {
        text_if(m, MODE_DIR, "d"@)
            + text_if(m, MODE_APPEND, "a"@)
            + text_if(m, MODE_EXCLUSIVE, "l"@)
            + text_if(m, MODE_TEMPORARY, "T"@)
            + text_if(m, MODE_SYMLINK, "L"@)
            + text_if(m, MODE_DEVICE, "D"@)
            + text_if(m, MODE_NAMED_PIPE, "p"@)
            + text_if(m, MODE_SOCKET, "S"@)
            + text_if(m, MODE_SETUID, "u"@)
            + text_if(m, MODE_SETGID, "g"@)
            + text_if(m, MODE_CHAR_DEVICE, "c"@)
            + text_if(m, MODE_STICKY, "t"@)
            + text_if(m, MODE_IRREGULAR, "?"@)
    }
}

/// The `rwxrwxrwx` permission letters of `m`, with `-` for each bit unset.
pub open spec fn spec_permission_letters(m: u32) -> Seq<char> {
    text_or_dash(m, 0o400, "r"@)
        + text_or_dash(m, 0o200, "w"@)
        + text_or_dash(m, 0o100, "x"@)
        + text_or_dash(m, 0o40, "r"@)
        + text_or_dash(m, 0o20, "w"@)
        + text_or_dash(m, 0o10, "x"@)
        + text_or_dash(m, 0o4, "r"@)
        + text_or_dash(m, 0o2, "w"@)
        + text_or_dash(m, 0o1, "x"@)
}

/// How a mode is written: its type letters, then its permission letters
/// (as in `drwxr-xr-x`).
pub open spec fn spec_mode_string(m: u32) -> Seq<char> {
    spec_type_letters(m) + spec_permission_letters(m)
}

/// Appends `text` to `s` when `m` has the bits of `flag`, and tells whether
/// it did.
fn push_if(s: &mut String, m: u32, flag: u32, text: &str) -> (r: bool)
    ensures
        final(s)@ == old(s)@ + text_if(m, flag, text@),
        r == has_bits(m, flag),
{
    if m & flag != 0 {
        s.append(text);
        true
    } else {
        assert(old(s)@ + Seq::<char>::empty() =~= old(s)@);
        false
    }
}

/// Appends `text` to `s` when `m` has the bits of `flag`, `-` otherwise.
fn push_or_dash(s: &mut String, m: u32, flag: u32, text: &str)
    ensures
        final(s)@ == old(s)@ + text_or_dash(m, flag, text@),
{
    if m & flag != 0 {
        s.append(text);
    } else {
        s.append("-");
    }
}

/// Unix modes keep their permission bits, Unix directories are
/// directories, and character devices are devices and character devices.
pub proof fn lemma_unix_mode_bits(u: u32)
    ensures
        spec_mode_from_unix(u) & 0o777 == u & 0o777,
        u & UNIX_IFMT == UNIX_IFDIR ==> has_bits(spec_mode_from_unix(u), MODE_DIR),
        u & UNIX_IFMT == UNIX_IFCHR ==> has_bits(spec_mode_from_unix(u), MODE_DEVICE) && has_bits(
            spec_mode_from_unix(u),
            MODE_CHAR_DEVICE,
        ),
{
    let t = u & UNIX_IFMT;
    let m = spec_mode_from_unix(u);
    assert(m & 0o777 == u & 0o777 && (t == 0x4000 ==> m & 0x8000_0000 != 0) && (t == 0x2000 ==> m
        & 0x0400_0000 != 0 && m & 0x0020_0000 != 0)) by (bit_vector)
        requires
            t == u & 0xf000,
            m == (u & 0o777) | (if t == 0x6000 {
                0x0400_0000u32
            } else if t == 0x2000 {
                0x0400_0000u32 | 0x0020_0000u32
            } else if t == 0x4000 {
                0x8000_0000u32
            } else if t == 0x1000 {
                0x0200_0000u32
            } else if t == 0xa000 {
                0x0800_0000u32
            } else if t == 0xc000 {
                0x0100_0000u32
            } else {
                0u32
            }) | (if u & 0x400 != 0 {
                0x0040_0000u32
            } else {
                0u32
            }) | (if u & 0x800 != 0 {
                0x0080_0000u32
            } else {
                0u32
            }) | (if u & 0x200 != 0 {
                0x0010_0000u32
            } else {
                0u32
            }),
    ;
}

/// What a Unix mode `u` makes of a mode: its permission bits stay; its file
/// type gives exactly one kind of type bits (a directory the directory bit,
/// a symbolic link the symlink bit, a block device the device bit, a
/// character device the device and character device bits, a FIFO the named
/// pipe bit, a socket the socket bit, and a regular file or an unknown type
/// none); setuid, setgid and sticky give their bits; and nothing else is
/// set.
pub proof fn lemma_unix_mode(u: u32)
    ensures
        ({
            let m = spec_mode_from_unix(u);
            let t = u & 0xf000;
            let ty = m & 0x8f20_0000;
            &&& m & 0o777 == u & 0o777
            &&& (t == 0x4000 ==> ty == 0x8000_0000)
            &&& (t == 0xa000 ==> ty == 0x0800_0000)
            &&& (t == 0x6000 ==> ty == 0x0400_0000)
            &&& (t == 0x2000 ==> ty == 0x0420_0000)
            &&& (t == 0x1000 ==> ty == 0x0200_0000)
            &&& (t == 0xc000 ==> ty == 0x0100_0000)
            &&& (t != 0x4000 && t != 0xa000 && t != 0x6000 && t != 0x2000 && t != 0x1000 && t != 0xc000
                ==> ty == 0)
            &&& (m & 0x0080_0000 != 0 <==> u & 0x800 != 0)
            &&& (m & 0x0040_0000 != 0 <==> u & 0x400 != 0)
            &&& (m & 0x0010_0000 != 0 <==> u & 0x200 != 0)
            &&& m & 0x700f_fe00 == 0
        }),
{
    let t = u & UNIX_IFMT;
    let m = spec_mode_from_unix(u);
    assert(MODE_DEVICE | MODE_CHAR_DEVICE == 0x0420_0000u32) by (bit_vector);
    assert({
        let ty = m & 0x8f20_0000;
        &&& m & 0o777 == u & 0o777
        &&& (t == 0x4000 ==> ty == 0x8000_0000)
        &&& (t == 0xa000 ==> ty == 0x0800_0000)
        &&& (t == 0x6000 ==> ty == 0x0400_0000)
        &&& (t == 0x2000 ==> ty == 0x0420_0000)
        &&& (t == 0x1000 ==> ty == 0x0200_0000)
        &&& (t == 0xc000 ==> ty == 0x0100_0000)
        &&& (t != 0x4000 && t != 0xa000 && t != 0x6000 && t != 0x2000 && t != 0x1000 && t != 0xc000 ==> ty
            == 0)
        &&& (m & 0x0080_0000 != 0 <==> u & 0x800 != 0)
        &&& (m & 0x0040_0000 != 0 <==> u & 0x400 != 0)
        &&& (m & 0x0010_0000 != 0 <==> u & 0x200 != 0)
        &&& m & 0x700f_fe00 == 0
    }) by (bit_vector)
        requires
            t == u & 0xf000,
            m == (u & 0o777) | (if t == 0x6000 {
                0x0400_0000u32
            } else if t == 0x2000 {
                0x0420_0000u32
            } else if t == 0x4000 {
                0x8000_0000u32
            } else if t == 0x1000 {
                0x0200_0000u32
            } else if t == 0xa000 {
                0x0800_0000u32
            } else if t == 0xc000 {
                0x0100_0000u32
            } else {
                0u32
            }) | (if u & 0x400 != 0 {
                0x0040_0000u32
            } else {
                0u32
            }) | (if u & 0x800 != 0 {
                0x0080_0000u32
            } else {
                0u32
            }) | (if u & 0x200 != 0 {
                0x0010_0000u32
            } else {
                0u32
            }),
    ;
}

/// The letter of the first type or special bit that `m` has, in the order
/// `dalTLDpSugct?`, or `-` when it has none.
pub open spec fn spec_first_type_letter(m: u32) -> char {
    if m & 0x8000_0000 != 0 {
        'd'
    } else if m & 0x4000_0000 != 0 {
        'a'
    } else if m & 0x2000_0000 != 0 {
        'l'
    } else if m & 0x1000_0000 != 0 {
        'T'
    } else if m & 0x0800_0000 != 0 {
        'L'
    } else if m & 0x0400_0000 != 0 {
        'D'
    } else if m & 0x0200_0000 != 0 {
        'p'
    } else if m & 0x0100_0000 != 0 {
        'S'
    } else if m & 0x0080_0000 != 0 {
        'u'
    } else if m & 0x0040_0000 != 0 {
        'g'
    } else if m & 0x0020_0000 != 0 {
        'c'
    } else if m & 0x0010_0000 != 0 {
        't'
    } else if m & 0x0008_0000 != 0 {
        '?'
    } else {
        '-'
    }
}

/// How many of the thirteen type and special bits (0x8000_0000 down to
/// 0x0008_0000) `m` has.
pub open spec fn spec_type_letter_count(m: u32) -> int {
    (if m & 0x8000_0000 != 0 { 1int } else { 0 }) + (if m & 0x4000_0000 != 0 { 1int } else { 0 }) + (if m
        & 0x2000_0000 != 0 { 1int } else { 0 }) + (if m & 0x1000_0000 != 0 { 1int } else { 0 }) + (if m
        & 0x0800_0000 != 0 { 1int } else { 0 }) + (if m & 0x0400_0000 != 0 { 1int } else { 0 }) + (if m
        & 0x0200_0000 != 0 { 1int } else { 0 }) + (if m & 0x0100_0000 != 0 { 1int } else { 0 }) + (if m
        & 0x0080_0000 != 0 { 1int } else { 0 }) + (if m & 0x0040_0000 != 0 { 1int } else { 0 }) + (if m
        & 0x0020_0000 != 0 { 1int } else { 0 }) + (if m & 0x0010_0000 != 0 { 1int } else { 0 }) + (if m
        & 0x0008_0000 != 0 { 1int } else { 0 })
}

/// The type letters of a mode that has some type or special bit: one
/// letter for each such bit.
proof fn lemma_type_letter_count(m: u32)
    requires
        !no_type_letters(m),
    ensures
        spec_type_letters(m).len() == spec_type_letter_count(m),
{
    reveal_strlit("d");
    reveal_strlit("a");
    reveal_strlit("l");
    reveal_strlit("T");
    reveal_strlit("L");
    reveal_strlit("D");
    reveal_strlit("p");
    reveal_strlit("S");
    reveal_strlit("u");
    reveal_strlit("g");
    reveal_strlit("c");
    reveal_strlit("t");
    reveal_strlit("?");
}

/// The first type letter of a mode: that of its first type or special bit
/// in the order `dalTLDpSugct?`, or `-` when it has none.
#[verifier::rlimit(40)]
proof fn lemma_first_type_letter(m: u32)
    ensures
        spec_type_letters(m)[0] == spec_first_type_letter(m),
{
    reveal_strlit("-");
    reveal_strlit("d");
    reveal_strlit("a");
    reveal_strlit("l");
    reveal_strlit("T");
    reveal_strlit("L");
    reveal_strlit("D");
    reveal_strlit("p");
    reveal_strlit("S");
    reveal_strlit("u");
    reveal_strlit("g");
    reveal_strlit("c");
    reveal_strlit("t");
    reveal_strlit("?");
    if m & 0x8000_0000 != 0 {
        assert(text_if(m, MODE_DIR, "d"@)[0] == 'd');
    } else if m & 0x4000_0000 != 0 {
        assert(text_if(m, MODE_DIR, "d"@) =~= Seq::<char>::empty());
        assert((text_if(m, MODE_DIR, "d"@) + text_if(m, MODE_APPEND, "a"@))[0] == 'a');
    } else if m & 0x2000_0000 != 0 {
        assert((text_if(m, MODE_DIR, "d"@) + text_if(m, MODE_APPEND, "a"@)) =~= Seq::<char>::empty());
        assert(((text_if(m, MODE_DIR, "d"@) + text_if(m, MODE_APPEND, "a"@)) + text_if(m, MODE_EXCLUSIVE, "l"@))[0] == 'l');
    } else if m & 0x1000_0000 != 0 {
        assert(((text_if(m, MODE_DIR, "d"@) + text_if(m, MODE_APPEND, "a"@)) + text_if(m, MODE_EXCLUSIVE, "l"@)) =~= Seq::<char>::empty());
        assert((((text_if(m, MODE_DIR, "d"@) + text_if(m, MODE_APPEND, "a"@)) + text_if(m, MODE_EXCLUSIVE, "l"@)) + text_if(m, MODE_TEMPORARY, "T"@))[0] == 'T');
    } else if m & 0x0800_0000 != 0 {
        assert((((text_if(m, MODE_DIR, "d"@) + text_if(m, MODE_APPEND, "a"@)) + text_if(m, MODE_EXCLUSIVE, "l"@)) + text_if(m, MODE_TEMPORARY, "T"@)) =~= Seq::<char>::empty());
        assert(((((text_if(m, MODE_DIR, "d"@) + text_if(m, MODE_APPEND, "a"@)) + text_if(m, MODE_EXCLUSIVE, "l"@)) + text_if(m, MODE_TEMPORARY, "T"@)) + text_if(m, MODE_SYMLINK, "L"@))[0] == 'L');
    } else if m & 0x0400_0000 != 0 {
        assert(((((text_if(m, MODE_DIR, "d"@) + text_if(m, MODE_APPEND, "a"@)) + text_if(m, MODE_EXCLUSIVE, "l"@)) + text_if(m, MODE_TEMPORARY, "T"@)) + text_if(m, MODE_SYMLINK, "L"@)) =~= Seq::<char>::empty());
        assert((((((text_if(m, MODE_DIR, "d"@) + text_if(m, MODE_APPEND, "a"@)) + text_if(m, MODE_EXCLUSIVE, "l"@)) + text_if(m, MODE_TEMPORARY, "T"@)) + text_if(m, MODE_SYMLINK, "L"@)) + text_if(m, MODE_DEVICE, "D"@))[0] == 'D');
    } else if m & 0x0200_0000 != 0 {
        assert((((((text_if(m, MODE_DIR, "d"@) + text_if(m, MODE_APPEND, "a"@)) + text_if(m, MODE_EXCLUSIVE, "l"@)) + text_if(m, MODE_TEMPORARY, "T"@)) + text_if(m, MODE_SYMLINK, "L"@)) + text_if(m, MODE_DEVICE, "D"@)) =~= Seq::<char>::empty());
        assert(((((((text_if(m, MODE_DIR, "d"@) + text_if(m, MODE_APPEND, "a"@)) + text_if(m, MODE_EXCLUSIVE, "l"@)) + text_if(m, MODE_TEMPORARY, "T"@)) + text_if(m, MODE_SYMLINK, "L"@)) + text_if(m, MODE_DEVICE, "D"@)) + text_if(m, MODE_NAMED_PIPE, "p"@))[0] == 'p');
    } else if m & 0x0100_0000 != 0 {
        assert(((((((text_if(m, MODE_DIR, "d"@) + text_if(m, MODE_APPEND, "a"@)) + text_if(m, MODE_EXCLUSIVE, "l"@)) + text_if(m, MODE_TEMPORARY, "T"@)) + text_if(m, MODE_SYMLINK, "L"@)) + text_if(m, MODE_DEVICE, "D"@)) + text_if(m, MODE_NAMED_PIPE, "p"@)) =~= Seq::<char>::empty());
        assert((((((((text_if(m, MODE_DIR, "d"@) + text_if(m, MODE_APPEND, "a"@)) + text_if(m, MODE_EXCLUSIVE, "l"@)) + text_if(m, MODE_TEMPORARY, "T"@)) + text_if(m, MODE_SYMLINK, "L"@)) + text_if(m, MODE_DEVICE, "D"@)) + text_if(m, MODE_NAMED_PIPE, "p"@)) + text_if(m, MODE_SOCKET, "S"@))[0] == 'S');
    } else if m & 0x0080_0000 != 0 {
        assert((((((((text_if(m, MODE_DIR, "d"@) + text_if(m, MODE_APPEND, "a"@)) + text_if(m, MODE_EXCLUSIVE, "l"@)) + text_if(m, MODE_TEMPORARY, "T"@)) + text_if(m, MODE_SYMLINK, "L"@)) + text_if(m, MODE_DEVICE, "D"@)) + text_if(m, MODE_NAMED_PIPE, "p"@)) + text_if(m, MODE_SOCKET, "S"@)) =~= Seq::<char>::empty());
        assert(((((((((text_if(m, MODE_DIR, "d"@) + text_if(m, MODE_APPEND, "a"@)) + text_if(m, MODE_EXCLUSIVE, "l"@)) + text_if(m, MODE_TEMPORARY, "T"@)) + text_if(m, MODE_SYMLINK, "L"@)) + text_if(m, MODE_DEVICE, "D"@)) + text_if(m, MODE_NAMED_PIPE, "p"@)) + text_if(m, MODE_SOCKET, "S"@)) + text_if(m, MODE_SETUID, "u"@))[0] == 'u');
    } else if m & 0x0040_0000 != 0 {
        assert(((((((((text_if(m, MODE_DIR, "d"@) + text_if(m, MODE_APPEND, "a"@)) + text_if(m, MODE_EXCLUSIVE, "l"@)) + text_if(m, MODE_TEMPORARY, "T"@)) + text_if(m, MODE_SYMLINK, "L"@)) + text_if(m, MODE_DEVICE, "D"@)) + text_if(m, MODE_NAMED_PIPE, "p"@)) + text_if(m, MODE_SOCKET, "S"@)) + text_if(m, MODE_SETUID, "u"@)) =~= Seq::<char>::empty());
        assert((((((((((text_if(m, MODE_DIR, "d"@) + text_if(m, MODE_APPEND, "a"@)) + text_if(m, MODE_EXCLUSIVE, "l"@)) + text_if(m, MODE_TEMPORARY, "T"@)) + text_if(m, MODE_SYMLINK, "L"@)) + text_if(m, MODE_DEVICE, "D"@)) + text_if(m, MODE_NAMED_PIPE, "p"@)) + text_if(m, MODE_SOCKET, "S"@)) + text_if(m, MODE_SETUID, "u"@)) + text_if(m, MODE_SETGID, "g"@))[0] == 'g');
    } else if m & 0x0020_0000 != 0 {
        assert((((((((((text_if(m, MODE_DIR, "d"@) + text_if(m, MODE_APPEND, "a"@)) + text_if(m, MODE_EXCLUSIVE, "l"@)) + text_if(m, MODE_TEMPORARY, "T"@)) + text_if(m, MODE_SYMLINK, "L"@)) + text_if(m, MODE_DEVICE, "D"@)) + text_if(m, MODE_NAMED_PIPE, "p"@)) + text_if(m, MODE_SOCKET, "S"@)) + text_if(m, MODE_SETUID, "u"@)) + text_if(m, MODE_SETGID, "g"@)) =~= Seq::<char>::empty());
        assert(((((((((((text_if(m, MODE_DIR, "d"@) + text_if(m, MODE_APPEND, "a"@)) + text_if(m, MODE_EXCLUSIVE, "l"@)) + text_if(m, MODE_TEMPORARY, "T"@)) + text_if(m, MODE_SYMLINK, "L"@)) + text_if(m, MODE_DEVICE, "D"@)) + text_if(m, MODE_NAMED_PIPE, "p"@)) + text_if(m, MODE_SOCKET, "S"@)) + text_if(m, MODE_SETUID, "u"@)) + text_if(m, MODE_SETGID, "g"@)) + text_if(m, MODE_CHAR_DEVICE, "c"@))[0] == 'c');
    } else if m & 0x0010_0000 != 0 {
        assert(((((((((((text_if(m, MODE_DIR, "d"@) + text_if(m, MODE_APPEND, "a"@)) + text_if(m, MODE_EXCLUSIVE, "l"@)) + text_if(m, MODE_TEMPORARY, "T"@)) + text_if(m, MODE_SYMLINK, "L"@)) + text_if(m, MODE_DEVICE, "D"@)) + text_if(m, MODE_NAMED_PIPE, "p"@)) + text_if(m, MODE_SOCKET, "S"@)) + text_if(m, MODE_SETUID, "u"@)) + text_if(m, MODE_SETGID, "g"@)) + text_if(m, MODE_CHAR_DEVICE, "c"@)) =~= Seq::<char>::empty());
        assert((((((((((((text_if(m, MODE_DIR, "d"@) + text_if(m, MODE_APPEND, "a"@)) + text_if(m, MODE_EXCLUSIVE, "l"@)) + text_if(m, MODE_TEMPORARY, "T"@)) + text_if(m, MODE_SYMLINK, "L"@)) + text_if(m, MODE_DEVICE, "D"@)) + text_if(m, MODE_NAMED_PIPE, "p"@)) + text_if(m, MODE_SOCKET, "S"@)) + text_if(m, MODE_SETUID, "u"@)) + text_if(m, MODE_SETGID, "g"@)) + text_if(m, MODE_CHAR_DEVICE, "c"@)) + text_if(m, MODE_STICKY, "t"@))[0] == 't');
    } else if m & 0x0008_0000 != 0 {
        assert((((((((((((text_if(m, MODE_DIR, "d"@) + text_if(m, MODE_APPEND, "a"@)) + text_if(m, MODE_EXCLUSIVE, "l"@)) + text_if(m, MODE_TEMPORARY, "T"@)) + text_if(m, MODE_SYMLINK, "L"@)) + text_if(m, MODE_DEVICE, "D"@)) + text_if(m, MODE_NAMED_PIPE, "p"@)) + text_if(m, MODE_SOCKET, "S"@)) + text_if(m, MODE_SETUID, "u"@)) + text_if(m, MODE_SETGID, "g"@)) + text_if(m, MODE_CHAR_DEVICE, "c"@)) + text_if(m, MODE_STICKY, "t"@)) =~= Seq::<char>::empty());
        assert(((((((((((((text_if(m, MODE_DIR, "d"@) + text_if(m, MODE_APPEND, "a"@)) + text_if(m, MODE_EXCLUSIVE, "l"@)) + text_if(m, MODE_TEMPORARY, "T"@)) + text_if(m, MODE_SYMLINK, "L"@)) + text_if(m, MODE_DEVICE, "D"@)) + text_if(m, MODE_NAMED_PIPE, "p"@)) + text_if(m, MODE_SOCKET, "S"@)) + text_if(m, MODE_SETUID, "u"@)) + text_if(m, MODE_SETGID, "g"@)) + text_if(m, MODE_CHAR_DEVICE, "c"@)) + text_if(m, MODE_STICKY, "t"@)) + text_if(m, MODE_IRREGULAR, "?"@))[0] == '?');
    } else {
        assert(no_type_letters(m));
    }
}

/// The nine permission letters of a mode: `r`, `w`, `x` in turn for the
/// owner, the group and others, each `-` when its bit is unset.
proof fn lemma_permission_letters(m: u32)
    ensures
        spec_permission_letters(m).len() == 9,
        spec_permission_letters(m)[0] == (if m & 0o400 != 0 { 'r' } else { '-' }),
        spec_permission_letters(m)[1] == (if m & 0o200 != 0 { 'w' } else { '-' }),
        spec_permission_letters(m)[2] == (if m & 0o100 != 0 { 'x' } else { '-' }),
        spec_permission_letters(m)[3] == (if m & 0o40 != 0 { 'r' } else { '-' }),
        spec_permission_letters(m)[4] == (if m & 0o20 != 0 { 'w' } else { '-' }),
        spec_permission_letters(m)[5] == (if m & 0o10 != 0 { 'x' } else { '-' }),
        spec_permission_letters(m)[6] == (if m & 0o4 != 0 { 'r' } else { '-' }),
        spec_permission_letters(m)[7] == (if m & 0o2 != 0 { 'w' } else { '-' }),
        spec_permission_letters(m)[8] == (if m & 0o1 != 0 { 'x' } else { '-' }),
{
    reveal_strlit("-");
    reveal_strlit("r");
    reveal_strlit("w");
    reveal_strlit("x");
    let c0 = text_or_dash(m, 0o400, "r"@);
    assert(c0.len() == 1 && c0[0] == (if m & 0o400 != 0 { 'r' } else { '-' }));
    let c1 = text_or_dash(m, 0o200, "w"@);
    assert(c1.len() == 1 && c1[0] == (if m & 0o200 != 0 { 'w' } else { '-' }));
    let c2 = text_or_dash(m, 0o100, "x"@);
    assert(c2.len() == 1 && c2[0] == (if m & 0o100 != 0 { 'x' } else { '-' }));
    let c3 = text_or_dash(m, 0o40, "r"@);
    assert(c3.len() == 1 && c3[0] == (if m & 0o40 != 0 { 'r' } else { '-' }));
    let c4 = text_or_dash(m, 0o20, "w"@);
    assert(c4.len() == 1 && c4[0] == (if m & 0o20 != 0 { 'w' } else { '-' }));
    let c5 = text_or_dash(m, 0o10, "x"@);
    assert(c5.len() == 1 && c5[0] == (if m & 0o10 != 0 { 'x' } else { '-' }));
    let c6 = text_or_dash(m, 0o4, "r"@);
    assert(c6.len() == 1 && c6[0] == (if m & 0o4 != 0 { 'r' } else { '-' }));
    let c7 = text_or_dash(m, 0o2, "w"@);
    assert(c7.len() == 1 && c7[0] == (if m & 0o2 != 0 { 'w' } else { '-' }));
    let c8 = text_or_dash(m, 0o1, "x"@);
    assert(c8.len() == 1 && c8[0] == (if m & 0o1 != 0 { 'x' } else { '-' }));
    let q1 = c0;
    let q2 = q1 + c1;
    assert(q2[0] == q1[0] && q2[1] == c1[0]);
    let q3 = q2 + c2;
    assert(q3[0] == q2[0] && q3[1] == q2[1] && q3[2] == c2[0]);
    let q4 = q3 + c3;
    assert(q4[0] == q3[0] && q4[1] == q3[1] && q4[2] == q3[2] && q4[3] == c3[0]);
    let q5 = q4 + c4;
    assert(q5[0] == q4[0] && q5[1] == q4[1] && q5[2] == q4[2] && q5[3] == q4[3] && q5[4] == c4[0]);
    let q6 = q5 + c5;
    assert(q6[0] == q5[0] && q6[1] == q5[1] && q6[2] == q5[2] && q6[3] == q5[3] && q6[4] == q5[4] && q6[5] == c5[0]);
    let q7 = q6 + c6;
    assert(q7[0] == q6[0] && q7[1] == q6[1] && q7[2] == q6[2] && q7[3] == q6[3] && q7[4] == q6[4] && q7[5] == q6[5] && q7[6] == c6[0]);
    let q8 = q7 + c7;
    assert(q8[0] == q7[0] && q8[1] == q7[1] && q8[2] == q7[2] && q8[3] == q7[3] && q8[4] == q7[4] && q8[5] == q7[5] && q8[6] == q7[6] && q8[7] == c7[0]);
    let q9 = q8 + c8;
    assert(q9[0] == q8[0] && q9[1] == q8[1] && q9[2] == q8[2] && q9[3] == q8[3] && q9[4] == q8[4] && q9[5] == q8[5] && q9[6] == q8[6] && q9[7] == q8[7] && q9[8] == c8[0]);
    assert(spec_permission_letters(m) == q9);
}

/// How a mode is written: with no type or special bit it starts with `-`
/// and has ten letters; with the directory bit it starts with `d`; and it
/// ends with nine permission letters, `r`, `w`, `x` in turn for the owner,
/// the group and others, each `-` when its bit (from 0o400 down to 0o1) is
/// unset.
pub proof fn lemma_mode_string(m: u32)
    ensures
        ({
            let s = spec_mode_string(m);
            let n = s.len() - 9;
            &&& n >= 1
            &&& no_type_letters(m) ==> n == 1 && s[0] == '-'
            &&& has_bits(m, MODE_DIR) ==> s[0] == 'd'
            &&& s[0] == spec_first_type_letter(m)
            &&& n == (if no_type_letters(m) { 1 } else { spec_type_letter_count(m) })
            &&& s[n] == (if m & 0o400 != 0 { 'r' } else { '-' })
            &&& s[n + 1] == (if m & 0o200 != 0 { 'w' } else { '-' })
            &&& s[n + 2] == (if m & 0o100 != 0 { 'x' } else { '-' })
            &&& s[n + 3] == (if m & 0o40 != 0 { 'r' } else { '-' })
            &&& s[n + 4] == (if m & 0o20 != 0 { 'w' } else { '-' })
            &&& s[n + 5] == (if m & 0o10 != 0 { 'x' } else { '-' })
            &&& s[n + 6] == (if m & 0o4 != 0 { 'r' } else { '-' })
            &&& s[n + 7] == (if m & 0o2 != 0 { 'w' } else { '-' })
            &&& s[n + 8] == (if m & 0o1 != 0 { 'x' } else { '-' })
        }),
{
    lemma_first_type_letter(m);
    if !no_type_letters(m) {
        lemma_type_letter_count(m);
    } else {
        reveal_strlit("-");
    }
    lemma_permission_letters(m);
    let t = spec_type_letters(m);
    let p = spec_permission_letters(m);
    assert(spec_mode_string(m) == t + p);
}

/// What MS-DOS attributes `u` make of a mode: only the directory (0x10)
/// and read-only (0x01) attributes count. A plain file gets read and write
/// permissions for all (0o666); a directory gets the directory bit and all
/// permissions; a read-only file or directory keeps only the write bits
/// (0o222). So the directory bit is set exactly for a directory that is not
/// read-only.
pub proof fn lemma_msdos_mode(u: u32)
    ensures
        spec_mode_from_msdos(u) == spec_mode_from_msdos(u & 0x11),
        u & 0x11 == 0 ==> spec_mode_from_msdos(u) == 0o666,
        u & 0x11 == 0x10 ==> spec_mode_from_msdos(u) == 0x8000_01ffu32,
        u & 0x01 != 0 ==> spec_mode_from_msdos(u) == 0o222,
        has_bits(spec_mode_from_msdos(u), MODE_DIR) <==> (u & 0x10 != 0 && u & 0x01 == 0),
{
    let m = spec_mode_from_msdos(u);
    let v = u & 0x11;
    let mv = spec_mode_from_msdos(v);
    assert(MODE_DIR | 0o777u32 == 0x8000_01ffu32) by (bit_vector);
    assert((m == mv) && (v == 0 ==> m == 0o666) && (v == 0x10 ==> m == 0x8000_01ffu32) && (u & 0x01 != 0
        ==> m == 0o222) && ((m & 0x8000_0000 != 0) <==> (u & 0x10 != 0 && u & 0x01 == 0))) by (bit_vector)
        requires
            v == u & 0x11,
            m == (if u & 0x01 != 0 {
                (if u & 0x10 != 0 {
                    0x8000_01ffu32
                } else {
                    0o666u32
                }) & 0o222
            } else {
                if u & 0x10 != 0 {
                    0x8000_01ffu32
                } else {
                    0o666u32
                }
            }),
            mv == (if v & 0x01 != 0 {
                (if v & 0x10 != 0 {
                    0x8000_01ffu32
                } else {
                    0o666u32
                }) & 0o222
            } else {
                if v & 0x10 != 0 {
                    0x8000_01ffu32
                } else {
                    0o666u32
                }
            }),
    ;
}

impl Mode {
    /// How the mode is written: its type letters (`-` when none), then its
    /// `rwxrwxrwx` permission letters with `-` for each bit unset.
    pub fn to_string(&self) -> (r: String)
        ensures
            r@ == spec_mode_string(self.0),
    {
        let m: u32 = self.0;
        let mut s = String::new();
        let mut types = String::new();
        let mut any = false;
        let b = push_if(&mut types, m, MODE_DIR, "d");
        any = any || b;
        let b = push_if(&mut types, m, MODE_APPEND, "a");
        any = any || b;
        let b = push_if(&mut types, m, MODE_EXCLUSIVE, "l");
        any = any || b;
        let b = push_if(&mut types, m, MODE_TEMPORARY, "T");
        any = any || b;
        let b = push_if(&mut types, m, MODE_SYMLINK, "L");
        any = any || b;
        let b = push_if(&mut types, m, MODE_DEVICE, "D");
        any = any || b;
        let b = push_if(&mut types, m, MODE_NAMED_PIPE, "p");
        any = any || b;
        let b = push_if(&mut types, m, MODE_SOCKET, "S");
        any = any || b;
        let b = push_if(&mut types, m, MODE_SETUID, "u");
        any = any || b;
        let b = push_if(&mut types, m, MODE_SETGID, "g");
        any = any || b;
        let b = push_if(&mut types, m, MODE_CHAR_DEVICE, "c");
        any = any || b;
        let b = push_if(&mut types, m, MODE_STICKY, "t");
        any = any || b;
        let b = push_if(&mut types, m, MODE_IRREGULAR, "?");
        any = any || b;
        if any {
            s.append(types.as_str());
        } else {
            s.append("-");
        }
        assert(s@ =~= spec_type_letters(m));
        let mut perms = String::new();
        push_or_dash(&mut perms, m, 0o400, "r");
        push_or_dash(&mut perms, m, 0o200, "w");
        push_or_dash(&mut perms, m, 0o100, "x");
        push_or_dash(&mut perms, m, 0o40, "r");
        push_or_dash(&mut perms, m, 0o20, "w");
        push_or_dash(&mut perms, m, 0o10, "x");
        push_or_dash(&mut perms, m, 0o4, "r");
        push_or_dash(&mut perms, m, 0o2, "w");
        push_or_dash(&mut perms, m, 0o1, "x");
        s.append(perms.as_str());
        assert(s@ =~= spec_mode_string(m));
        s
    }

    /// Whether any of the bits of `rhs` is set in this mode.
    pub fn has(&self, rhs: Self) -> (r: bool)
        ensures
            r == has_bits(self.0, rhs.0),
    {
        self.0 & rhs.0 != 0
    }

    /// The mode with the bits of `rhs` added.
    pub fn union(self, rhs: Self) -> (r: Self)
        ensures
            r.0 == self.0 | rhs.0,
    {
        Mode(self.0 | rhs.0)
    }
}

impl UnixMode {
    /// Whether any of the bits of `rhs` is set in this mode.
    pub fn has(&self, rhs: Self) -> (r: bool)
        ensures
            r == has_bits(self.0, rhs.0),
    {
        self.0 & rhs.0 != 0
    }
}

impl MsdosMode {
    /// Whether any of the bits of `rhs` is set in these attributes.
    pub fn has(&self, rhs: Self) -> (r: bool)
        ensures
            r == has_bits(self.0, rhs.0),
    {
        self.0 & rhs.0 != 0
    }
}

impl From<UnixMode> for Mode {
    fn from(m: UnixMode) -> (mode: Self) {
        let mut mode = m.0 & 0o777;
        let t = m.0 & UNIX_IFMT;
        if t == UNIX_IFBLK {
            mode = mode | MODE_DEVICE;
        } else if t == UNIX_IFCHR {
            mode = mode | (MODE_DEVICE | MODE_CHAR_DEVICE);
        } else if t == UNIX_IFDIR {
            mode = mode | MODE_DIR;
        } else if t == UNIX_IFIFO {
            mode = mode | MODE_NAMED_PIPE;
        } else if t == UNIX_IFLNK {
            mode = mode | MODE_SYMLINK;
        } else if t == UNIX_IFSOCK {
            mode = mode | MODE_SOCKET;
        }
        if m.has(UnixMode(UNIX_ISGID)) {
            mode = mode | MODE_SETGID;
        }
        if m.has(UnixMode(UNIX_ISUID)) {
            mode = mode | MODE_SETUID;
        }
        if m.has(UnixMode(UNIX_ISVTX)) {
            mode = mode | MODE_STICKY;
        }
        proof {
            let u = m.0;
            let base = u & 0o777;
            let tb: u32 = if t == UNIX_IFBLK {
                MODE_DEVICE
            } else if t == UNIX_IFCHR {
                MODE_DEVICE | MODE_CHAR_DEVICE
            } else if t == UNIX_IFDIR {
                MODE_DIR
            } else if t == UNIX_IFIFO {
                MODE_NAMED_PIPE
            } else if t == UNIX_IFLNK {
                MODE_SYMLINK
            } else if t == UNIX_IFSOCK {
                MODE_SOCKET
            } else {
                0
            };
            let g: u32 = if has_bits(u, UNIX_ISGID) { MODE_SETGID } else { 0 };
            let s: u32 = if has_bits(u, UNIX_ISUID) { MODE_SETUID } else { 0 };
            let k: u32 = if has_bits(u, UNIX_ISVTX) { MODE_STICKY } else { 0 };
            assert(((((base | tb) | g) | s) | k) == base | tb | g | s | k);
            assert(0u32 | 0u32 == 0u32) by (bit_vector);
            assert(forall|x: u32| #[trigger] (x | 0u32) == x) by (bit_vector);
        }
        Mode(mode)
    }
}

impl vstd::std_specs::convert::FromSpecImpl<UnixMode> for Mode {
    open spec fn obeys_from_spec() -> bool {
        true
    }

    open spec fn from_spec(m: UnixMode) -> Self {
        Mode(spec_mode_from_unix(m.0))
    }
}

impl From<MsdosMode> for Mode {
    fn from(m: MsdosMode) -> (mode: Self) {
        let mut mode = if m.has(MsdosMode(MSDOS_DIR)) {
            MODE_DIR | 0o777
        } else {
            0o666
        };
        if m.has(MsdosMode(MSDOS_READ_ONLY)) {
            mode = mode & 0o222;
        }
        Mode(mode)
    }
}

impl vstd::std_specs::convert::FromSpecImpl<MsdosMode> for Mode {
    open spec fn obeys_from_spec() -> bool {
        true
    }

    open spec fn from_spec(m: MsdosMode) -> Self {
        Mode(spec_mode_from_msdos(m.0))
    }
}

impl From<u32> for Mode {
    fn from(u: u32) -> (r: Self) {
        Mode(u)
    }
}

impl vstd::std_specs::convert::FromSpecImpl<u32> for Mode {
    open spec fn obeys_from_spec() -> bool {
        true
    }

    open spec fn from_spec(u: u32) -> Self {
        Mode(u)
    }
}

impl From<u32> for UnixMode {
    fn from(u: u32) -> (r: Self) {
        UnixMode(u)
    }
}

impl vstd::std_specs::convert::FromSpecImpl<u32> for UnixMode {
    open spec fn obeys_from_spec() -> bool {
        true
    }

    open spec fn from_spec(u: u32) -> Self {
        UnixMode(u)
    }
}

impl From<u32> for MsdosMode {
    fn from(u: u32) -> (r: Self) {
        MsdosMode(u)
    }
}

impl vstd::std_specs::convert::FromSpecImpl<u32> for MsdosMode {
    open spec fn obeys_from_spec() -> bool {
        true
    }

    open spec fn from_spec(u: u32) -> Self {
        MsdosMode(u)
    }
}

} // verus!
