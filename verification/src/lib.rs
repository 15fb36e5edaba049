//! Reading ZIP archives without performing I/O.
//!
//! The library is made of types for the various parts of a zip file, parsers
//! that turn byte buffers into those types, and state machines that use those
//! parsers to read whole archives and entries from a stream of bytes handed to
//! them by the caller.
pub mod corpus;
pub mod encoding;
pub mod error;
pub mod fsm;
pub mod le;
pub mod parse;
pub mod reader;
pub mod text;
