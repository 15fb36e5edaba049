//! The decompressor for DEFLATE64 entries, built on the deflate64 crate.
use vstd::prelude::*;
use vstd::string::StringExecFns;

use super::DecompressOutcome;
use crate::error::Error;
use crate::parse::Method;

verus! {

/// `deflate64::InflaterManaged`, the state of a DEFLATE64 stream.
#[verifier::external_type_specification]
#[verifier::external_body]
pub struct ExInflaterManaged(deflate64::InflaterManaged);

/// The compressed bytes a DEFLATE64 inflater consumed so far, in order.
pub uninterp spec fn inflater_fed(i: deflate64::InflaterManaged) -> Seq<u8>;

/// The bytes a DEFLATE64 inflater wrote out so far, in order.
pub uninterp spec fn inflater_written(i: deflate64::InflaterManaged) -> Seq<u8>;

/// The decompressed data that the DEFLATE64 bytes `compressed` determine:
/// the decompression of the stream they start, as far as they go.
pub uninterp spec fn deflate64_decoded(compressed: Seq<u8>) -> Seq<u8>;

/// The calls of `inflate` made on a DEFLATE64 inflater so far, in order:
/// the input each was handed and the room for output it had.
pub uninterp spec fn inflater_calls(i: deflate64::InflaterManaged) -> Seq<(Seq<u8>, nat)>;

/// What `deflate64::InflaterManaged::inflate` does on an inflater that was
/// given the calls `calls`, when it is handed `input` and room for `room`
/// bytes of output: how many bytes at the start of `input` it consumed, the
/// bytes it wrote to the start of the output, and whether the data had an
/// error. The inflater is deterministic, so this depends on these arguments
/// alone.
pub uninterp spec fn inflater_step(calls: Seq<(Seq<u8>, nat)>, input: Seq<u8>, room: nat) -> (
    nat,
    Seq<u8>,
    bool,
);

/// Calls `deflate64::InflaterManaged::new`: an inflater that was given no
/// call, and consumed and wrote nothing yet.
#[verifier::external_body]
fn inflater_new() -> (r: deflate64::InflaterManaged)
    ensures
        inflater_calls(r) == Seq::<(Seq<u8>, nat)>::empty(),
        inflater_fed(r) == Seq::<u8>::empty(),
        inflater_written(r) == Seq::<u8>::empty(),
{
    deflate64::InflaterManaged::new()
}

/// Calls `deflate64::InflaterManaged::inflate`, and returns how many bytes
/// it consumed and wrote, and whether the input had an error, as
/// `inflater_step` names them. It consumes the start of `input` and writes
/// to the start of `output`; all it wrote so far is the start of the
/// decompression of all it consumed so far.
#[verifier::external_body]
fn inflater_inflate(inflater: &mut deflate64::InflaterManaged, input: &[u8], output: &mut [u8]) -> (r: (
    usize,
    usize,
    bool,
))
    ensures
        r.0 <= input@.len(),
        r.1 <= old(output)@.len(),
        final(output)@.len() == old(output)@.len(),
        r.0 == inflater_step(inflater_calls(*old(inflater)), input@, old(output)@.len()).0,
        r.2 == inflater_step(inflater_calls(*old(inflater)), input@, old(output)@.len()).2,
        final(output)@.subrange(0, r.1 as int) == inflater_step(
            inflater_calls(*old(inflater)),
            input@,
            old(output)@.len(),
        ).1,
        final(output)@.subrange(r.1 as int, old(output)@.len() as int) == old(output)@.subrange(
            r.1 as int,
            old(output)@.len() as int,
        ),
        inflater_calls(*final(inflater)) == inflater_calls(*old(inflater)).push(
            (input@, old(output)@.len()),
        ),
        inflater_written(*final(inflater)).is_prefix_of(deflate64_decoded(inflater_fed(*final(inflater)))),
        inflater_fed(*final(inflater)) == inflater_fed(*old(inflater)) + input@.subrange(0, r.0 as int),
        inflater_written(*final(inflater)) == inflater_written(*old(inflater)) + final(output)@.subrange(
            0,
            r.1 as int,
        ),
{
    let res = inflater.inflate(input, output);
    (res.bytes_consumed, res.bytes_written, res.data_error)
}

/// What an inflate call that consumed and wrote the given counts gives: an
/// error when the input had one.
pub fn inflate_outcome(consumed: usize, written: usize, data_error: bool) -> (r: Result<
    DecompressOutcome,
    Error,
>)
    ensures
        r is Err <==> data_error,
        r matches Ok(o) ==> o.bytes_read == consumed && o.bytes_written == written,
        r matches Err(e) ==> e matches Error::Decompression { method, msg } && method is Deflate64 && msg@
            == "data error"@,
{
    if data_error {
        return Err(
            Error::Decompression { method: Method::Deflate64, msg: String::from_str("data error") },
        );
    }
    Ok(DecompressOutcome { bytes_read: consumed, bytes_written: written })
}

/// Decompresses DEFLATE64 data.
pub struct Deflate64Dec {
    inflater: deflate64::InflaterManaged,
}

impl Deflate64Dec {
    /// The compressed bytes consumed so far, in order.
    pub closed spec fn spec_fed(&self) -> Seq<u8> {
        inflater_fed(self.inflater)
    }

    /// The bytes written out so far, in order.
    pub closed spec fn spec_written(&self) -> Seq<u8> {
        inflater_written(self.inflater)
    }

    /// The calls made on the inflater so far.
    pub closed spec fn spec_calls(&self) -> Seq<(Seq<u8>, nat)> {
        inflater_calls(self.inflater)
    }

    /// A decompressor at the start of a stream: it consumed and wrote
    /// nothing yet.
    pub fn new() -> (r: Self)
        ensures
            r.spec_fed() == Seq::<u8>::empty(),
            r.spec_written() == Seq::<u8>::empty(),
            r.spec_calls() == Seq::<(Seq<u8>, nat)>::empty(),
    {
        Deflate64Dec { inflater: inflater_new() }
    }

    /// Inflates some of `in_buf` into `out`; fails when the data is invalid.
    pub fn decompress(&mut self, in_buf: &[u8], out: &mut [u8]) -> (r: Result<DecompressOutcome, Error>)
        ensures
            final(out)@.len() == old(out)@.len(),
            r matches Ok(o) ==> o.bytes_read <= in_buf@.len() && o.bytes_written <= old(out)@.len(),
            r matches Err(e) ==> e matches Error::Decompression { method, .. } && method is Deflate64,
            final(self).spec_calls() == old(self).spec_calls().push((in_buf@, old(out)@.len())),
            ({
                let st = inflater_step(old(self).spec_calls(), in_buf@, old(out)@.len());
                &&& (st.2 ==> (r matches Err(e) && e matches Error::Decompression { msg, .. } && msg@
                    == "data error"@))
                &&& (!st.2 ==> (r matches Ok(o) && o.bytes_read == st.0 && o.bytes_written == st.1.len()
                    && final(out)@ == st.1 + old(out)@.subrange(st.1.len() as int, old(out)@.len() as int)))
            }),
            final(self).spec_written().is_prefix_of(deflate64_decoded(final(self).spec_fed())),
            r matches Ok(o) ==> final(self).spec_fed() == old(self).spec_fed() + in_buf@.subrange(
                0,
                o.bytes_read as int,
            ) && final(self).spec_written() == old(self).spec_written() + final(out)@.subrange(
                0,
                o.bytes_written as int,
            ),
    {
        let (bytes_consumed, bytes_written, data_error) = inflater_inflate(&mut self.inflater, in_buf, out);
        inflate_outcome(bytes_consumed, bytes_written, data_error)
    }
}

} // verus!
