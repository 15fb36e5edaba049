//! Types for the elements that make up a ZIP file, and parsers that turn
//! bytes into them.
//!
//! Every parser works on a byte slice that holds what has been read so far,
//! and tells apart input that is too short to decide (`Incomplete`) from input
//! that can never hold the element (`Invalid`).
use vstd::prelude::*;

pub mod archive;
pub mod central_directory_file_header;
pub mod date_time;
pub mod eocd;
pub mod extra_field;
pub mod local;
pub mod method;
pub mod mode;
pub mod raw;
pub mod version;

pub use archive::{Archive, Entry, EntryKind, EntryMeta, ZipEntry};
pub use central_directory_file_header::{CentralDirectoryFileHeader, DirectoryHeader};
pub use date_time::{DateTimeUtc, MsdosTimestamp, NtfsTimestamp};
pub use eocd::{
    EndOfCentralDirectory, EndOfCentralDirectory64Locator, EndOfCentralDirectory64Record,
    EndOfCentralDirectoryRecord, Located,
};
pub use extra_field::{
    ExtraField, ExtraFieldSettings, ExtraNewUnixField, ExtraNtfsField, ExtraTimestampField,
    ExtraUnixField, ExtraZip64Field, NtfsAttr, NtfsAttr1,
};
pub use local::{DataDescriptorRecord, LocalFileHeaderRecord, LzmaProperties, MethodSpecific};
pub use method::Method;
pub use mode::{Mode, MsdosMode, UnixMode};
pub use raw::{ZipBytes, ZipString};
pub use version::{HostSystem, Version};

verus! {

/// Why a parser did not produce a value.
#[derive(Debug, Clone, Copy, PartialEq, Eq, Structural)]
pub enum ParseError {
    /// More input is needed to decide.
    Incomplete,
    /// The input does not hold the element that was asked for.
    Invalid,
}

/// The four-byte signature `"PK" a b` that starts most ZIP records.
pub open spec fn pk_sig(a: u8, b: u8) -> Seq<u8> {
    seq![0x50u8, 0x4bu8, a, b]
}

/// Some byte of `s` that is present differs from the signature byte at the
/// same place: no amount of further input can make `s` start with `sig`.
pub open spec fn sig_conflict(s: Seq<u8>, sig: Seq<u8>) -> bool {
    exists|i: int| 0 <= i < s.len() && i < sig.len() && s[i] != sig[i]
}

/// Checks that `input` starts with `"PK" a b`.
pub fn check_pk_sig(input: &[u8], a: u8, b: u8) -> (r: Result<(), ParseError>)
    ensures
        r == Err::<(), ParseError>(ParseError::Invalid) <==> sig_conflict(input@, pk_sig(a, b)),
        r == Err::<(), ParseError>(ParseError::Incomplete) <==> !sig_conflict(input@, pk_sig(a, b))
            && input@.len() < 4,
        r is Ok <==> !sig_conflict(input@, pk_sig(a, b)) && input@.len() >= 4,
        r is Ok ==> input@.subrange(0, 4) == pk_sig(a, b),
{
    let ghost sig = pk_sig(a, b);
    let n = input.len();
    let mut i: usize = 0;
    while i < 4 && i < n
        invariant
            i <= 4,
            n == input@.len(),
            sig == pk_sig(a, b),
            forall|k: int| 0 <= k < i ==> input@[k] == sig[k],
        decreases 4 - i,
    {
        let expected: u8 = if i == 0 {
            0x50
        } else if i == 1 {
            0x4b
        } else if i == 2 {
            a
        } else {
            b
        };
        if input[i] != expected {
            assert(input@[i as int] != sig[i as int]);
            return Err(ParseError::Invalid);
        }
        i = i + 1;
    }
    assert(!sig_conflict(input@, sig));
    if n < 4 {
        Err(ParseError::Incomplete)
    } else {
        assert(input@.subrange(0, 4) =~= sig);
        Ok(())
    }
}

} // verus!
