//! Raw byte strings read from a ZIP file before their meaning is known.
use vstd::prelude::*;
use vstd::slice::slice_subrange;
use vstd::slice::slice_to_vec;

verus! {

/// A raw zip string, with no specific encoding.
///
/// This is used while parsing a zip archive's central directory,
/// before we know what encoding is used.
#[derive(Clone, Debug)]
pub struct ZipString(pub Vec<u8>);

/// A raw u8 slice, with no specific structure.
///
/// This is used while parsing a zip archive, when we want
/// to retain an owned slice to be parsed later.
#[derive(Clone, Debug)]
pub struct ZipBytes(pub Vec<u8>);

impl View for ZipString {
    type V = Seq<u8>;

    open spec fn view(&self) -> Seq<u8> {
        self.0@
    }
}

impl View for ZipBytes {
    type V = Seq<u8>;

    open spec fn view(&self) -> Seq<u8> {
        self.0@
    }
}

/// Copies `input[start..start + count]`.
pub fn take_bytes(input: &[u8], start: usize, count: usize) -> (v: Vec<u8>)
    requires
        start + count <= input.len(),
    ensures
        v@ == input@.subrange(start as int, start + count),
{
    slice_to_vec(slice_subrange(input, start, start + count))
}

impl ZipString {
    /// Reads a string of `count` bytes at the start of `input`.
    pub fn parser(input: &[u8], count: usize) -> (r: Result<(usize, Self), super::ParseError>)
        ensures
            r is Err <==> input@.len() < count,
            r is Err ==> r == Err::<(usize, Self), super::ParseError>(super::ParseError::Incomplete),
            r matches Ok((n, s)) ==> n == count && s@ == input@.subrange(0, count as int),
    {
        if input.len() < count {
            Err(super::ParseError::Incomplete)
        } else {
            Ok((count, ZipString(take_bytes(input, 0, count))))
        }
    }

    /// The string, or `None` when it is empty.
    pub fn as_option(self) -> (r: Option<ZipString>)
        ensures
            r is None <==> self@.len() == 0,
            r matches Some(s) ==> s@ == self@,
    {
        if self.0.len() > 0 {
            Some(self)
        } else {
            None
        }
    }
}

impl ZipBytes {
    /// Reads `count` bytes at the start of `input`.
    pub fn parser(input: &[u8], count: usize) -> (r: Result<(usize, Self), super::ParseError>)
        ensures
            r is Err <==> input@.len() < count,
            r is Err ==> r == Err::<(usize, Self), super::ParseError>(super::ParseError::Incomplete),
            r matches Ok((n, s)) ==> n == count && s@ == input@.subrange(0, count as int),
    {
        if input.len() < count {
            Err(super::ParseError::Incomplete)
        } else {
            Ok((count, ZipBytes(take_bytes(input, 0, count))))
        }
    }
}

} // verus!
