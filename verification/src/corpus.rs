//! What the test corpus expects of the files in its archives.
use vstd::prelude::*;

verus! {

/// The expected content of a file of a test archive.
#[derive(Debug, Clone, PartialEq, Eq)]
pub enum FileContent {
    /// the content is not checked
    Unchecked,
    /// the content is these bytes
    Bytes(Vec<u8>),
    /// the content is that of the named file of the test data
    File(&'static str),
}

} // verus!
