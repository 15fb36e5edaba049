//! The decompressor for BZIP2 entries, built on the bzip2 crate.
use vstd::prelude::*;
use vstd::string::StringExecFns;

use super::DecompressOutcome;
use crate::error::Error;
use crate::parse::Method;

verus! {

/// `bzip2::Decompress`, the state of a bzip2 stream.
#[verifier::external_type_specification]
#[verifier::external_body]
pub struct ExBzDecompress(bzip2::Decompress);

/// The bytes of input a bzip2 stream processed and the bytes of output it
/// produced so far (its `total_in` and `total_out`).
pub uninterp spec fn bz_totals(d: bzip2::Decompress) -> (u64, u64);

/// The compressed bytes a bzip2 stream consumed so far, in order.
pub uninterp spec fn bz_fed(d: bzip2::Decompress) -> Seq<u8>;

/// The bytes a bzip2 stream wrote out so far, in order.
pub uninterp spec fn bz_out(d: bzip2::Decompress) -> Seq<u8>;

/// The decompressed data that the bzip2 bytes `compressed` determine: the
/// decompression of the stream they start, as far as they go.
pub uninterp spec fn bzip2_decoded(compressed: Seq<u8>) -> Seq<u8>;

/// The calls of `decompress` made on a bzip2 stream so far, in order: the
/// input each was handed and the room for output it had.
pub uninterp spec fn bz_calls(d: bzip2::Decompress) -> Seq<(Seq<u8>, nat)>;

/// What `bzip2::Decompress::decompress` does on a stream (made with `small`
/// false) that was given the calls `calls`, when it is handed `input` and
/// room for `room` bytes of output: whether it succeeded, whether the stream
/// ended, the error's text, how many bytes at the start of `input` it
/// consumed, and the bytes it wrote to the start of the output. libbzip2 is
/// deterministic, so this depends on these arguments alone.
pub uninterp spec fn bz_step(calls: Seq<(Seq<u8>, nat)>, input: Seq<u8>, room: nat) -> (
    bool,
    bool,
    Seq<char>,
    nat,
    Seq<u8>,
);

/// Calls `bzip2::Decompress::new`, with `small` choosing the alternative
/// algorithm that uses less memory: a stream that was given no call and
/// processed and produced nothing yet (it is made zeroed and initialised by
/// libbzip2).
#[verifier::external_body]
fn bz_new(small: bool) -> (r: bzip2::Decompress)
    ensures
        bz_totals(r) == (0u64, 0u64),
        bz_calls(r) == Seq::<(Seq<u8>, nat)>::empty(),
        bz_fed(r) == Seq::<u8>::empty(),
        bz_out(r) == Seq::<u8>::empty(),
{
    bzip2::Decompress::new(small)
}

/// Calls `bzip2::Decompress::decompress`: whether the end of the stream was
/// reached, or the error's text, as `bz_step` names it. libbzip2 consumes
/// the start of `input`, writes to the start of `output` (nothing else of
/// it), and counts both in the stream's totals, which it only counts up;
/// all it wrote so far is the start of the decompression of all it
/// consumed so far.
#[verifier::external_body]
fn bz_decompress(d: &mut bzip2::Decompress, input: &[u8], output: &mut [u8]) -> (r: Result<bool, String>)
    ensures
        bz_step(bz_calls(*old(d)), input@, old(output)@.len()).3 <= input@.len(),
        bz_step(bz_calls(*old(d)), input@, old(output)@.len()).4.len() <= old(output)@.len(),
        final(output)@ == bz_step(bz_calls(*old(d)), input@, old(output)@.len()).4 + old(output)@.subrange(
            bz_step(bz_calls(*old(d)), input@, old(output)@.len()).4.len() as int,
            old(output)@.len() as int,
        ),
        bz_calls(*final(d)) == bz_calls(*old(d)).push((input@, old(output)@.len())),
        bz_fed(*final(d)) == bz_fed(*old(d)) + input@.subrange(
            0,
            bz_step(bz_calls(*old(d)), input@, old(output)@.len()).3 as int,
        ),
        bz_out(*final(d)) == bz_out(*old(d)) + bz_step(bz_calls(*old(d)), input@, old(output)@.len()).4,
        bz_out(*final(d)).is_prefix_of(bzip2_decoded(bz_fed(*final(d)))),
        bz_step(bz_calls(*old(d)), input@, old(output)@.len()).0 ==> r == Ok::<bool, String>(
            bz_step(bz_calls(*old(d)), input@, old(output)@.len()).1,
        ),
        !bz_step(bz_calls(*old(d)), input@, old(output)@.len()).0 ==> (r matches Err(m) && m@ == bz_step(
            bz_calls(*old(d)),
            input@,
            old(output)@.len(),
        ).2),
        bz_totals(*old(d)).0 + bz_step(bz_calls(*old(d)), input@, old(output)@.len()).3 <= u64::MAX
            ==> bz_totals(*final(d)).0 == bz_totals(*old(d)).0 + bz_step(bz_calls(*old(d)), input@, old(output)@.len()).3,
        bz_totals(*old(d)).1 + bz_step(bz_calls(*old(d)), input@, old(output)@.len()).4.len() <= u64::MAX
            ==> bz_totals(*final(d)).1 == bz_totals(*old(d)).1 + bz_step(bz_calls(*old(d)), input@, old(output)@.len()).4.len(),
        final(output)@.len() == old(output)@.len(),
        bz_totals(*final(d)).0 >= bz_totals(*old(d)).0,
        bz_totals(*final(d)).1 >= bz_totals(*old(d)).1,
{
    match d.decompress(input, output) {
        Ok(bzip2::Status::StreamEnd) => Ok(true),
        Ok(_) => Ok(false),
        Err(e) => Err(e.to_string()),
    }
}

/// Calls `bzip2::Decompress::total_in`: the bytes of input processed so far.
#[verifier::external_body]
fn bz_total_in(d: &bzip2::Decompress) -> (r: u64)
    ensures
        r == bz_totals(*d).0,
{
    d.total_in()
}

/// Calls `bzip2::Decompress::total_out`: the bytes of output produced so far.
#[verifier::external_body]
fn bz_total_out(d: &bzip2::Decompress) -> (r: u64)
    ensures
        r == bz_totals(*d).1,
{
    d.total_out()
}

/// The message for totals that do not fit what the stream was given.
pub const BZ_TOTALS_MSG: &'static str = "the decompressor reported more bytes than it was given";

/// How many bytes a decompression step read and wrote, from the stream's
/// totals before and after it; an error when the totals do not fit what the
/// step was given.
pub fn totals_outcome(
    before_in: u64,
    before_out: u64,
    after_in: u64,
    after_out: u64,
    in_len: usize,
    out_len: usize,
) -> (r: Result<DecompressOutcome, Error>)
    ensures
        r is Ok <==> before_in <= after_in && before_out <= after_out && after_in - before_in <= in_len
            && after_out - before_out <= out_len,
        r matches Ok(o) ==> o.bytes_read == after_in - before_in && o.bytes_written == after_out
            - before_out,
        r matches Err(e) ==> e matches Error::Decompression { method, msg } && method is Bzip2 && msg@
            == BZ_TOTALS_MSG@,
{
    if after_in < before_in || after_out < before_out || after_in - before_in > in_len as u64
        || after_out - before_out > out_len as u64 {
        return Err(Error::Decompression { method: Method::Bzip2, msg: String::from_str(BZ_TOTALS_MSG) });
    }
    Ok(
        DecompressOutcome {
            bytes_written: (after_out - before_out) as usize,
            bytes_read: (after_in - before_in) as usize,
        },
    )
}

/// Decompresses BZIP2 data.
pub struct Bzip2Dec {
    inner: bzip2::Decompress,
    eof: bool,
}

impl Bzip2Dec {
    /// A decompressor at the start of a stream: not at its end, having
    /// read and written nothing.
    pub fn new() -> (r: Self)
        ensures
            !r.spec_eof(),
            r.spec_totals() == (0u64, 0u64),
            r.spec_calls() == Seq::<(Seq<u8>, nat)>::empty(),
            r.spec_fed() == Seq::<u8>::empty(),
            r.spec_written() == Seq::<u8>::empty(),
    {
        // don't use the 'small' alternative decompression algorithm
        Bzip2Dec { inner: bz_new(false), eof: false }
    }

    /// Whether the end of the stream was reached.
    pub closed spec fn spec_eof(&self) -> bool {
        self.eof
    }

    /// How many bytes the stream read and wrote so far.
    pub closed spec fn spec_totals(&self) -> (u64, u64) {
        bz_totals(self.inner)
    }

    /// The calls made on the stream so far.
    pub closed spec fn spec_calls(&self) -> Seq<(Seq<u8>, nat)> {
        bz_calls(self.inner)
    }

    /// The compressed bytes consumed so far.
    pub closed spec fn spec_fed(&self) -> Seq<u8> {
        bz_fed(self.inner)
    }

    /// The bytes written out so far.
    pub closed spec fn spec_written(&self) -> Seq<u8> {
        bz_out(self.inner)
    }

    /// Decompresses some of `in_buf` into `out`; after the end of the
    /// stream, reads and writes nothing. The counts are the growth of the
    /// stream's totals.
    pub fn decompress(&mut self, in_buf: &[u8], out: &mut [u8]) -> (r: Result<DecompressOutcome, Error>)
        ensures
            final(out)@.len() == old(out)@.len(),
            r matches Ok(o) ==> o.bytes_read <= in_buf@.len() && o.bytes_written <= old(out)@.len(),
            old(self).spec_eof() ==> (r matches Ok(o) && o.bytes_read == 0 && o.bytes_written == 0),
            old(self).spec_eof() ==> final(self).spec_eof() && final(self).spec_totals() == old(
                self,
            ).spec_totals(),
            r matches Ok(o) ==> o.bytes_read == final(self).spec_totals().0 - old(self).spec_totals().0
                && o.bytes_written == final(self).spec_totals().1 - old(self).spec_totals().1,
            r matches Err(e) ==> e matches Error::Decompression { method, .. } && method is Bzip2,
            !old(self).spec_eof() ==> final(self).spec_written().is_prefix_of(
                bzip2_decoded(final(self).spec_fed()),
            ),
            old(self).spec_eof() ==> *final(self) == *old(self),
            !old(self).spec_eof() ==> ({
                let st = bz_step(old(self).spec_calls(), in_buf@, old(out)@.len());
                &&& st.3 <= in_buf@.len()
                &&& st.4.len() <= old(out)@.len()
                &&& final(self).spec_fed() == old(self).spec_fed() + in_buf@.subrange(0, st.3 as int)
                &&& final(self).spec_written() == old(self).spec_written() + st.4
                &&& (old(self).spec_totals().0 + st.3 <= u64::MAX ==> final(self).spec_totals().0
                    == old(self).spec_totals().0 + st.3)
                &&& (old(self).spec_totals().1 + st.4.len() <= u64::MAX ==> final(self).spec_totals().1
                    == old(self).spec_totals().1 + st.4.len())
            }),
            !old(self).spec_eof() ==> ({
                let st = bz_step(old(self).spec_calls(), in_buf@, old(out)@.len());
                &&& final(self).spec_calls() == old(self).spec_calls().push((in_buf@, old(out)@.len()))
                &&& (!st.0 ==> (r matches Err(e) && e matches Error::Decompression { msg, .. } && msg@
                    == st.2))
                &&& (st.0 && old(self).spec_totals().0 + st.3 <= u64::MAX && old(self).spec_totals().1
                    + st.4.len() <= u64::MAX ==> (r matches Ok(o) && o.bytes_read == st.3
                    && o.bytes_written == st.4.len() && final(out)@ == st.4 + old(out)@.subrange(
                    st.4.len() as int,
                    old(out)@.len() as int,
                ) && final(self).spec_eof() == st.1))
            }),
    {
        if self.eof {
            return Ok(DecompressOutcome { bytes_written: 0, bytes_read: 0 });
        }
        let before_in = bz_total_in(&self.inner);
        let before_out = bz_total_out(&self.inner);
        match bz_decompress(&mut self.inner, in_buf, out) {
            Ok(stream_end) => {
                if stream_end {
                    self.eof = true;
                }
            },
            Err(msg) => {
                return Err(Error::Decompression { method: Method::Bzip2, msg });
            },
        }
        let after_in = bz_total_in(&self.inner);
        let after_out = bz_total_out(&self.inner);
        totals_outcome(before_in, before_out, after_in, after_out, in_buf.len(), out.len())
    }
}

} // verus!
