//! The local file header that precedes each entry's data, the data
//! descriptor that may follow it, and the LZMA properties header
//! (APPNOTE 4.3.7, 4.3.9 and 5.8.5).
use vstd::prelude::*;

use super::{
    check_pk_sig, pk_sig, sig_conflict, Method, MsdosTimestamp, ParseError, Version, ZipBytes,
    ZipString,
};
use super::raw::take_bytes;
use crate::error::{Error, UnsupportedError};
use crate::le::{read_u16_le, read_u32_le, read_u64_le, spec_u16_le, spec_u32_le, spec_u64_le};

verus! {

/// 4.3.7 Local file header
#[derive(Debug)]
pub struct LocalFileHeaderRecord {
    /// version needed to extract
    pub reader_version: Version,
    /// general purpose bit flag
    pub flags: u16,
    /// compression method
    pub method: Method,
    /// last mod file datetime
    pub modified: MsdosTimestamp,
    /// crc-32
    pub crc32: u32,
    /// compressed size
    pub compressed_size: u32,
    /// uncompressed size
    pub uncompressed_size: u32,
    /// file name
    pub name: ZipString,
    /// extra field
    pub extra: ZipBytes,
    /// method-specific fields
    pub method_specific: MethodSpecific,
}

/// Method-specific properties following the local file header
#[derive(Debug, Clone, Copy, PartialEq, Eq, Structural)]
pub enum MethodSpecific {
    /// No method-specific properties
    NoProperties,
    /// LZMA properties
    Lzma(LzmaProperties),
}

/// Length of the fixed part of a local file header, signature included.
pub const LOCAL_HEADER_FIXED_LEN: usize = 30;

/// 5.8.5 LZMA Properties header
#[derive(Debug, Clone, Copy, PartialEq, Eq, Structural)]
pub struct LzmaProperties {
    /// major version
    pub major: u8,
    /// minor version
    pub minor: u8,
    /// properties size
    pub properties_size: u16,
}

impl LzmaProperties {
    /// The properties header stored at `s[i..i + 4]`.
    pub open spec fn spec_at(s: Seq<u8>, i: int) -> LzmaProperties {
        LzmaProperties { major: s[i], minor: s[i + 1], properties_size: spec_u16_le(s, i + 2) }
    }

    /// Whether this crate can read LZMA data with these properties: version
    /// 2.0, with a five-byte properties block.
    pub open spec fn spec_is_supported(self) -> bool {
        self.major == 2 && self.minor == 0 && self.properties_size == 5
    }

    /// Parser for the LZMA properties header.
    ///
    /// The actual properties (5 bytes, contains dictionary size, and various
    /// other settings) are not read here: the LZMA decoder reads them itself.
    pub fn parser(input: &[u8]) -> (r: Result<(usize, Self), ParseError>)
        ensures
            r is Err <==> input@.len() < 4,
            r is Err ==> r == Err::<(usize, Self), ParseError>(ParseError::Incomplete),
            r matches Ok((n, p)) ==> n == 4 && p == LzmaProperties::spec_at(input@, 0),
    {
        if input.len() < 4 {
            return Err(ParseError::Incomplete);
        }
        Ok((4, LzmaProperties::read_at(input, 0)))
    }

    /// Reads the properties header stored at `input[pos..pos + 4]`.
    pub fn read_at(input: &[u8], pos: usize) -> (p: Self)
        requires
            pos + 4 <= input.len(),
        ensures
            p == LzmaProperties::spec_at(input@, pos as int),
    {
        LzmaProperties {
            major: input[pos],
            minor: input[pos + 1],
            properties_size: read_u16_le(input, pos + 2),
        }
    }

    /// Check if the LZMA version is supported.
    pub fn error_if_unsupported(&self) -> (r: Result<(), Error>)
        ensures
            r is Ok <==> self.spec_is_supported(),
            !(self.major == 2 && self.minor == 0) ==> (r matches Err(Error::Unsupported(
                UnsupportedError::LzmaVersionUnsupported { minor, major },
            )) && minor == self.minor && major == self.major),
            (self.major == 2 && self.minor == 0 && self.properties_size != 5) ==> (r matches Err(
                Error::Unsupported(
                    UnsupportedError::LzmaPropertiesHeaderWrongSize { expected, actual },
                ),
            ) && expected == 5 && actual == self.properties_size),
    {
        if !(self.major == 2 && self.minor == 0) {
            return Err(
                Error::Unsupported(
                    UnsupportedError::LzmaVersionUnsupported { minor: self.minor, major: self.major },
                ),
            );
        }
        if self.properties_size != 5 {
            return Err(
                Error::Unsupported(
                    UnsupportedError::LzmaPropertiesHeaderWrongSize {
                        expected: 5,
                        actual: self.properties_size,
                    },
                ),
            );
        }
        Ok(())
    }
}

/// The signature of a local file header, `PK\x03\x04`.
pub open spec fn local_header_sig() -> Seq<u8> {
    pk_sig(3, 4)
}

impl LocalFileHeaderRecord {
    /// Length of the name in the header at the start of `s`.
    pub open spec fn spec_name_len(s: Seq<u8>) -> int {
        spec_u16_le(s, 26) as int
    }

    /// Length of the extra field in the header at the start of `s`.
    pub open spec fn spec_extra_len(s: Seq<u8>) -> int {
        spec_u16_le(s, 28) as int
    }

    /// Where the LZMA properties would start in the header at the start of `s`.
    pub open spec fn spec_props_start(s: Seq<u8>) -> int {
        30 + Self::spec_name_len(s) + Self::spec_extra_len(s)
    }

    /// Whether the header at the start of `s` is for an LZMA entry.
    pub open spec fn spec_is_lzma(s: Seq<u8>) -> bool {
        Method::spec_at(s, 8) == Method::Lzma
    }

    /// How many bytes the header at the start of `s` takes, as far as `s`
    /// tells: the fixed part, the name, the extra field, and the LZMA
    /// properties for LZMA entries.
    pub open spec fn spec_len(s: Seq<u8>) -> int {
        if s.len() < 30 {
            30
        } else if Self::spec_is_lzma(s) {
            Self::spec_props_start(s) + 4
        } else {
            Self::spec_props_start(s)
        }
    }

    /// `s` holds a whole header for an LZMA entry whose properties this
    /// crate does not support.
    pub open spec fn spec_unsupported_lzma(s: Seq<u8>) -> bool {
        &&& s.len() >= Self::spec_len(s)
        &&& s.len() >= 30
        &&& Self::spec_is_lzma(s)
        &&& !LzmaProperties::spec_at(s, Self::spec_props_start(s)).spec_is_supported()
    }

    /// The fields of `self` are those of the header at the start of `s`.
    pub open spec fn spec_matches(self, s: Seq<u8>) -> bool {
        &&& self.reader_version == Version::spec_at(s, 4)
        &&& self.flags == spec_u16_le(s, 6)
        &&& self.method == Method::spec_at(s, 8)
        &&& self.modified == MsdosTimestamp::spec_at(s, 10)
        &&& self.crc32 == spec_u32_le(s, 14)
        &&& self.compressed_size == spec_u32_le(s, 18)
        &&& self.uncompressed_size == spec_u32_le(s, 22)
        &&& self.name@ == s.subrange(30, 30 + Self::spec_name_len(s))
        &&& self.extra@ == s.subrange(30 + Self::spec_name_len(s), Self::spec_props_start(s))
        &&& self.method_specific == (if Self::spec_is_lzma(s) {
            MethodSpecific::Lzma(LzmaProperties::spec_at(s, Self::spec_props_start(s)))
        } else {
            MethodSpecific::NoProperties
        })
    }

    /// Parser for the local file header
    pub fn parser(input: &[u8]) -> (r: Result<(usize, Self), ParseError>)
        ensures
            r == Err::<(usize, Self), ParseError>(ParseError::Invalid) <==> sig_conflict(
                input@,
                local_header_sig(),
            ) || Self::spec_unsupported_lzma(input@),
            r == Err::<(usize, Self), ParseError>(ParseError::Incomplete) <==> !sig_conflict(
                input@,
                local_header_sig(),
            ) && input@.len() < Self::spec_len(input@),
            r matches Ok((n, h)) ==> n == Self::spec_len(input@) && h.spec_matches(input@)
                && input@.subrange(0, 4) == local_header_sig(),
    {
        match check_pk_sig(input, 3, 4) {
            Err(e) => {
                return Err(e);
            },
            Ok(()) => {},
        }
        if input.len() < LOCAL_HEADER_FIXED_LEN {
            return Err(ParseError::Incomplete);
        }
        let reader_version = Version::read_at(input, 4);
        let flags = read_u16_le(input, 6);
        let method = Method::from(read_u16_le(input, 8));
        let modified = MsdosTimestamp::read_at(input, 10);
        let crc32 = read_u32_le(input, 14);
        let compressed_size = read_u32_le(input, 18);
        let uncompressed_size = read_u32_le(input, 22);
        let name_len = read_u16_le(input, 26) as usize;
        let extra_len = read_u16_le(input, 28) as usize;
        if input.len() - LOCAL_HEADER_FIXED_LEN < name_len + extra_len {
            return Err(ParseError::Incomplete);
        }
        let name = ZipString(take_bytes(input, LOCAL_HEADER_FIXED_LEN, name_len));
        let extra = ZipBytes(take_bytes(input, LOCAL_HEADER_FIXED_LEN + name_len, extra_len));
        let props_start = LOCAL_HEADER_FIXED_LEN + name_len + extra_len;
        let method_specific = match method {
            Method::Lzma => {
                if input.len() - props_start < 4 {
                    return Err(ParseError::Incomplete);
                }
                let lzma_properties = LzmaProperties::read_at(input, props_start);
                if lzma_properties.error_if_unsupported().is_err() {
                    return Err(ParseError::Invalid);
                }
                MethodSpecific::Lzma(lzma_properties)
            },
            _ => MethodSpecific::NoProperties,
        };
        let n = match method {
            Method::Lzma => props_start + 4,
            _ => props_start,
        };
        Ok(
            (
                n,
                LocalFileHeaderRecord {
                    reader_version,
                    flags,
                    method,
                    modified,
                    crc32,
                    compressed_size,
                    uncompressed_size,
                    name,
                    extra,
                    method_specific,
                },
            ),
        )
    }

    /// Check for the presence of the bit flag that indicates a data descriptor
    /// is present after the file data.
    pub fn has_data_descriptor(&self) -> (r: bool)
        ensures
            r == (self.flags & 0b1000 != 0),
    {
        // 4.3.9.1 This descriptor MUST exist if bit 3 of the general
        // purpose bit flag is set (see below).
        self.flags & 0b1000 != 0
    }
}

/// 4.3.9  Data descriptor:
#[derive(Debug, Clone, Copy, PartialEq, Eq, Structural)]
pub struct DataDescriptorRecord {
    /// CRC32 checksum
    pub crc32: u32,
    /// Compressed size
    pub compressed_size: u64,
    /// Uncompressed size
    pub uncompressed_size: u64,
}

/// The signature that may precede a data descriptor, `PK\x07\x08`.
pub open spec fn data_descriptor_sig() -> Seq<u8> {
    pk_sig(7, 8)
}

impl DataDescriptorRecord {
    /// Where the descriptor's fields start in `s`: after the signature when
    /// `s` starts with it, at the start otherwise.
    pub open spec fn spec_start(s: Seq<u8>) -> int {
        if s.len() >= 4 && s.subrange(0, 4) == data_descriptor_sig() {
            4
        } else {
            0
        }
    }

    /// How many bytes the descriptor's fields take: sizes are 8 bytes each
    /// in zip64 archives, 4 bytes otherwise.
    pub open spec fn spec_body_len(is_zip64: bool) -> int {
        if is_zip64 {
            20
        } else {
            12
        }
    }

    /// The descriptor stored at the start of `s`.
    pub open spec fn spec_parse(s: Seq<u8>, is_zip64: bool) -> DataDescriptorRecord {
        let i = Self::spec_start(s);
        if is_zip64 {
            DataDescriptorRecord {
                crc32: spec_u32_le(s, i),
                compressed_size: spec_u64_le(s, i + 4),
                uncompressed_size: spec_u64_le(s, i + 12),
            }
        } else {
            DataDescriptorRecord {
                crc32: spec_u32_le(s, i),
                compressed_size: spec_u32_le(s, i + 4) as u64,
                uncompressed_size: spec_u32_le(s, i + 8) as u64,
            }
        }
    }

    /// Parses a data descriptor, with or without its (optional) signature.
    ///
    /// From appnote.txt, 4.3.9.3: although not originally assigned a
    /// signature, the value 0x08074b50 has commonly been adopted as a
    /// signature value for the data descriptor record, and ZIP files may be
    /// encountered with or without it.
    pub fn parse(input: &[u8], is_zip64: bool) -> (r: Result<(usize, Self), ParseError>)
        ensures
            r is Err ==> r == Err::<(usize, Self), ParseError>(ParseError::Incomplete),
            r is Err <==> (input@.len() < 4 && !sig_conflict(input@, data_descriptor_sig()))
                || input@.len() < Self::spec_start(input@) + Self::spec_body_len(is_zip64),
            r matches Ok((n, d)) ==> n == Self::spec_start(input@) + Self::spec_body_len(is_zip64)
                && d == Self::spec_parse(input@, is_zip64),
    {
        let start: usize = match check_pk_sig(input, 7, 8) {
            Ok(()) => 4,
            Err(ParseError::Incomplete) => {
                return Err(ParseError::Incomplete);
            },
            Err(ParseError::Invalid) => {
                proof {
                    if input@.len() >= 4 && input@.subrange(0, 4) == data_descriptor_sig() {
                        assert(input@[0] == input@.subrange(0, 4)[0]);
                        assert(input@[1] == input@.subrange(0, 4)[1]);
                        assert(input@[2] == input@.subrange(0, 4)[2]);
                        assert(input@[3] == input@.subrange(0, 4)[3]);
                    }
                }
                0
            },
        };
        if is_zip64 {
            if input.len() - start < 20 {
                return Err(ParseError::Incomplete);
            }
            Ok(
                (
                    start + 20,
                    DataDescriptorRecord {
                        crc32: read_u32_le(input, start),
                        compressed_size: read_u64_le(input, start + 4),
                        uncompressed_size: read_u64_le(input, start + 12),
                    },
                ),
            )
        } else {
            if input.len() - start < 12 {
                return Err(ParseError::Incomplete);
            }
            Ok(
                (
                    start + 12,
                    DataDescriptorRecord {
                        crc32: read_u32_le(input, start),
                        compressed_size: read_u32_le(input, start + 4) as u64,
                        uncompressed_size: read_u32_le(input, start + 8) as u64,
                    },
                ),
            )
        }
    }
}

} // verus!
