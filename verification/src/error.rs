//! All error types used in this crate
use vstd::prelude::*;

use crate::encoding::DecodingError;
use crate::parse::Method;
use crate::text::{radix_string, spec_decimal, spec_hex};
use vstd::string::StringExecFns;

verus! {

#[verifier::external_type_specification]
#[verifier::external_body]
pub struct ExIoError(std::io::Error);

/// Any zip-related error, from invalid archives to encoding problems.
#[derive(Debug)]
pub enum Error {
    /// Not a valid zip file, or a variant that is unsupported.
    Format(FormatError),
    /// Something is not supported by this crate
    Unsupported(UnsupportedError),
    /// Invalid UTF-8, Shift-JIS, or any problem encountered while decoding text in general.
    Encoding(DecodingError),
    /// I/O-related error
    IO(std::io::Error),
    /// Decompression-related error
    Decompression {
        /// The compression method that failed
        method: Method,
        /// Additional information
        msg: String,
    },
    /// Could not read as a zip because size could not be determined
    UnknownSize,
}

impl Error {
    /// Create a new error indicating that the given method is not supported.
    pub fn method_not_supported(method: Method) -> (e: Self)
        ensures
            e == Error::Unsupported(UnsupportedError::MethodNotSupported(method)),
    {
        Error::Unsupported(UnsupportedError::MethodNotSupported(method))
    }

    /// Create a new error indicating that the given method is not enabled.
    pub fn method_not_enabled(method: Method) -> (e: Self)
        ensures
            e == Error::Unsupported(UnsupportedError::MethodNotEnabled(method)),
    {
        Error::Unsupported(UnsupportedError::MethodNotEnabled(method))
    }
}

impl From<FormatError> for Error {
    fn from(fmt_err: FormatError) -> (e: Self) {
        Error::Format(fmt_err)
    }
}

impl vstd::std_specs::convert::FromSpecImpl<FormatError> for Error {
    open spec fn obeys_from_spec() -> bool {
        true
    }

    open spec fn from_spec(fmt_err: FormatError) -> Self {
        Error::Format(fmt_err)
    }
}

impl From<UnsupportedError> for Error {
    fn from(unsupported: UnsupportedError) -> (e: Self) {
        Error::Unsupported(unsupported)
    }
}

impl vstd::std_specs::convert::FromSpecImpl<UnsupportedError> for Error {
    open spec fn obeys_from_spec() -> bool {
        true
    }

    open spec fn from_spec(unsupported: UnsupportedError) -> Self {
        Error::Unsupported(unsupported)
    }
}

impl From<DecodingError> for Error {
    fn from(enc: DecodingError) -> (e: Self) {
        Error::Encoding(enc)
    }
}

impl vstd::std_specs::convert::FromSpecImpl<DecodingError> for Error {
    open spec fn obeys_from_spec() -> bool {
        true
    }

    open spec fn from_spec(enc: DecodingError) -> Self {
        Error::Encoding(enc)
    }
}

/// Some part of the zip format is not supported by this crate.
#[derive(Debug, Clone, Copy, PartialEq, Eq, Structural)]
pub enum UnsupportedError {
    /// The compression method is not supported.
    MethodNotSupported(Method),
    /// The compression method is supported, but not enabled in this build.
    MethodNotEnabled(Method),
    /// The zip file uses a version of LZMA that is not supported.
    LzmaVersionUnsupported {
        /// major version read from LZMA properties header, cf. appnote 5.8.8
        major: u8,
        /// minor version read from LZMA properties header, cf. appnote 5.8.8
        minor: u8,
    },
    /// The LZMA properties header is not the expected size.
    LzmaPropertiesHeaderWrongSize {
        /// expected size in bytes
        expected: u16,
        /// actual size in bytes, read from a u16, cf. appnote 5.8.8
        actual: u16,
    },
}

/// Specific zip format errors, mostly due to invalid zip archives but that could also stem from
/// implementation shortcomings.
#[allow(inconsistent_fields)]
#[derive(Debug, Clone, Copy, PartialEq, Eq, Structural)]
pub enum FormatError {
    /// The end of central directory record was not found.
    ///
    /// This usually indicates that the file being read is not a zip archive.
    DirectoryEndSignatureNotFound,
    /// The zip64 end of central directory record could not be parsed.
    ///
    /// This is only returned when a zip64 end of central directory *locator* was found,
    /// so the archive should be zip64, but isn't.
    Directory64EndRecordInvalid,
    /// Corrupted/partial zip file: the offset we found for the central directory
    /// points outside of the current file.
    DirectoryOffsetPointsOutsideFile,
    /// The central record is corrupted somewhat.
    ///
    /// This can happen when the end of central directory record advertises
    /// a certain number of files, but we weren't able to read the same number of central directory
    /// headers.
    InvalidCentralRecord {
        /// expected number of files
        expected: u16,
        /// actual number of files
        actual: u16,
    },
    /// An extra field (that we support) was not decoded correctly.
    ///
    /// This can indicate an invalid zip archive, or an implementation error in this crate.
    InvalidExtraField,
    /// The header offset of an entry is invalid.
    ///
    /// This can indicate an invalid zip archive, or an invalid user-provided global offset
    InvalidHeaderOffset,
    /// End of central directory record claims an impossible number of files.
    ///
    /// Each entry takes a minimum amount of size, so if the overall archive size is smaller than
    /// claimed_records_count * minimum_entry_size, we know it's not a valid zip file.
    ImpossibleNumberOfFiles {
        /// number of files claimed in the end of central directory record
        claimed_records_count: u64,
        /// total size of the zip file
        zip_size: u64,
    },
    /// The local file header (before the file data) could not be parsed correctly.
    InvalidLocalHeader,
    /// The data descriptor (after the file data) could not be parsed correctly.
    InvalidDataDescriptor,
    /// The uncompressed size didn't match
    WrongSize {
        /// expected size in bytes (from the local header, data descriptor, etc.)
        expected: u64,
        /// actual size in bytes (from decompressing the entry)
        actual: u64,
    },
    /// The CRC-32 checksum didn't match.
    WrongChecksum {
        /// expected checksum (from the data descriptor, etc.)
        expected: u32,
        /// actual checksum (from decompressing the entry)
        actual: u32,
    },
}

/// How a format error is described.
pub open spec fn spec_format_error_text(e: FormatError) -> Seq<char> {
    match e {
        FormatError::DirectoryEndSignatureNotFound => "end of central directory record not found"@,
        FormatError::Directory64EndRecordInvalid => "zip64 end of central directory record not found"@,
        FormatError::DirectoryOffsetPointsOutsideFile => "directory offset points outside of file"@,
        FormatError::InvalidCentralRecord { expected, actual } => "invalid central record: expected to read "@
            + spec_decimal(expected as nat) + " files, got "@ + spec_decimal(actual as nat),
        FormatError::InvalidExtraField => "could not decode extra field"@,
        FormatError::InvalidHeaderOffset => "invalid header offset"@,
        FormatError::ImpossibleNumberOfFiles { claimed_records_count, zip_size } =>
            "impossible number of files: claims to have "@ + spec_decimal(claimed_records_count as nat)
            + ", but zip size is "@ + spec_decimal(zip_size as nat),
        FormatError::InvalidLocalHeader => "invalid local file header"@,
        FormatError::InvalidDataDescriptor => "invalid data descriptor"@,
        FormatError::WrongSize { expected, actual } => "uncompressed size didn't match: expected "@
            + spec_decimal(expected as nat) + ", got "@ + spec_decimal(actual as nat),
        FormatError::WrongChecksum { expected, actual } => "checksum didn't match: expected "@ + spec_hex(
            expected as nat,
        ) + ", got "@ + spec_hex(actual as nat),
    }
}

impl FormatError {
    /// The description of the error, as it is shown.
    pub fn to_string(&self) -> (r: String)
        ensures
            r@ == spec_format_error_text(*self),
    {
        match self {
            FormatError::DirectoryEndSignatureNotFound => String::from_str("end of central directory record not found"),
            FormatError::Directory64EndRecordInvalid => String::from_str("zip64 end of central directory record not found"),
            FormatError::DirectoryOffsetPointsOutsideFile => String::from_str("directory offset points outside of file"),
            FormatError::InvalidCentralRecord { expected, actual } => {
                let e = radix_string(*expected as u64, 10);
                let a = radix_string(*actual as u64, 10);
                String::from_str("invalid central record: expected to read ").concat(e.as_str()).concat(
                    " files, got ",
                ).concat(a.as_str())
            },
            FormatError::InvalidExtraField => String::from_str("could not decode extra field"),
            FormatError::InvalidHeaderOffset => String::from_str("invalid header offset"),
            FormatError::ImpossibleNumberOfFiles { claimed_records_count, zip_size } => {
                let c = radix_string(*claimed_records_count, 10);
                let z = radix_string(*zip_size, 10);
                String::from_str("impossible number of files: claims to have ").concat(c.as_str()).concat(
                    ", but zip size is ",
                ).concat(z.as_str())
            },
            FormatError::InvalidLocalHeader => String::from_str("invalid local file header"),
            FormatError::InvalidDataDescriptor => String::from_str("invalid data descriptor"),
            FormatError::WrongSize { expected, actual } => {
                let e = radix_string(*expected, 10);
                let a = radix_string(*actual, 10);
                String::from_str("uncompressed size didn't match: expected ").concat(e.as_str()).concat(
                    ", got ",
                ).concat(a.as_str())
            },
            FormatError::WrongChecksum { expected, actual } => {
                let e = radix_string(*expected as u64, 16);
                let a = radix_string(*actual as u64, 16);
                String::from_str("checksum didn't match: expected ").concat(e.as_str()).concat(", got ").concat(
                    a.as_str(),
                )
            },
        }
    }
}

} // verus!
