//! Compression methods (APPNOTE 4.4.5).
use vstd::prelude::*;

use super::ParseError;
use crate::le::{read_u16_le, spec_u16_le};

verus! {

/// Compression method used for a file entry.
///
/// In archives that follow ISO/IEC 21320-1:2015, only
/// [Store][Method::Store] and [Deflate][Method::Deflate] should be used.
///
/// However, in the wild, it is not too uncommon to encounter [Bzip2][Method::Bzip2],
/// [Lzma][Method::Lzma] or others.
#[derive(Debug, Clone, Copy, PartialEq, Eq, Hash, Structural)]
pub enum Method {
    /// No compression is applied
    Store,
    /// DEFLATE (RFC 1951)
    Deflate,
    /// DEFLATE64
    Deflate64,
    /// BZIP-2
    Bzip2,
    /// LZMA
    Lzma,
    /// zstd (RFC 8878)
    Zstd,
    /// MP3
    Mp3,
    /// XZ
    Xz,
    /// JPEG
    Jpeg,
    /// WavPack
    WavPack,
    /// PPMd
    Ppmd,
    /// AE-x encryption marker (see Appendix E of appnote)
    Aex,
    /// A compression method that isn't recognized by this crate.
    Unrecognized(u16),
}

/// The method that the 16-bit code `u` stands for.
pub open spec fn spec_method_from_u16(u: u16) -> Method {
    if u == 0 {
        Method::Store
    } else if u == 8 {
        Method::Deflate
    } else if u == 9 {
        Method::Deflate64
    } else if u == 12 {
        Method::Bzip2
    } else if u == 14 {
        Method::Lzma
    } else if u == 93 {
        Method::Zstd
    } else if u == 94 {
        Method::Mp3
    } else if u == 95 {
        Method::Xz
    } else if u == 96 {
        Method::Jpeg
    } else if u == 97 {
        Method::WavPack
    } else if u == 98 {
        Method::Ppmd
    } else if u == 99 {
        Method::Aex
    } else {
        Method::Unrecognized(u)
    }
}

/// The 16-bit code of method `m`.
pub open spec fn spec_u16_from_method(m: Method) -> u16 {
    match m {
        Method::Store => 0,
        Method::Deflate => 8,
        Method::Deflate64 => 9,
        Method::Bzip2 => 12,
        Method::Lzma => 14,
        Method::Zstd => 93,
        Method::Mp3 => 94,
        Method::Xz => 95,
        Method::Jpeg => 96,
        Method::WavPack => 97,
        Method::Ppmd => 98,
        Method::Aex => 99,
        Method::Unrecognized(u) => u,
    }
}

/// A method value that some code decodes to: a named method, or
/// `Unrecognized` holding a code that names no method.
pub open spec fn method_is_canonical(m: Method) -> bool {
    match m {
        Method::Unrecognized(u) => spec_method_from_u16(u) == Method::Unrecognized(u),
        _ => true,
    }
}

impl From<u16> for Method {
    fn from(u: u16) -> (r: Self) {
        match u {
            0 => Method::Store,
            8 => Method::Deflate,
            9 => Method::Deflate64,
            12 => Method::Bzip2,
            14 => Method::Lzma,
            93 => Method::Zstd,
            94 => Method::Mp3,
            95 => Method::Xz,
            96 => Method::Jpeg,
            97 => Method::WavPack,
            98 => Method::Ppmd,
            99 => Method::Aex,
            u => Method::Unrecognized(u),
        }
    }
}

impl vstd::std_specs::convert::FromSpecImpl<u16> for Method {
    open spec fn obeys_from_spec() -> bool {
        true
    }

    open spec fn from_spec(u: u16) -> Self {
        spec_method_from_u16(u)
    }
}

impl From<Method> for u16 {
    fn from(m: Method) -> (r: u16) {
        match m {
            Method::Store => 0,
            Method::Deflate => 8,
            Method::Deflate64 => 9,
            Method::Bzip2 => 12,
            Method::Lzma => 14,
            Method::Zstd => 93,
            Method::Mp3 => 94,
            Method::Xz => 95,
            Method::Jpeg => 96,
            Method::WavPack => 97,
            Method::Ppmd => 98,
            Method::Aex => 99,
            Method::Unrecognized(u) => u,
        }
    }
}

impl vstd::std_specs::convert::FromSpecImpl<Method> for u16 {
    open spec fn obeys_from_spec() -> bool {
        true
    }

    open spec fn from_spec(m: Method) -> Self {
        spec_u16_from_method(m)
    }
}

impl Method {
    /// The method whose code is stored at `s[i..i + 2]`.
    pub open spec fn spec_at(s: Seq<u8>, i: int) -> Method {
        spec_method_from_u16(spec_u16_le(s, i))
    }

    /// Parse a method from the start of a byte slice
    pub fn parser(input: &[u8]) -> (r: Result<(usize, Self), ParseError>)
        ensures
            r is Err <==> input@.len() < 2,
            r is Err ==> r == Err::<(usize, Self), ParseError>(ParseError::Incomplete),
            r matches Ok((n, m)) ==> n == 2 && m == Method::spec_at(input@, 0),
    {
        if input.len() < 2 {
            return Err(ParseError::Incomplete);
        }
        Ok((2, Method::from(read_u16_le(input, 0))))
    }
}

/// Decoding a code as a method and encoding it again gives the code back.
pub proof fn lemma_method_u16_roundtrip(u: u16)
    ensures
        spec_u16_from_method(spec_method_from_u16(u)) == u,
        method_is_canonical(spec_method_from_u16(u)),
{
}

/// Encoding a method as a code and decoding it again gives the method back,
/// for every value that decoding can produce.
pub proof fn lemma_u16_method_roundtrip(m: Method)
    requires
        method_is_canonical(m),
    ensures
        spec_method_from_u16(spec_u16_from_method(m)) == m,
{
}

} // verus!
