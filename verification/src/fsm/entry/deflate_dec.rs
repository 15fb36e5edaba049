//! The decompressor for DEFLATE entries, built on miniz_oxide's inflater,
//! which writes into a 64 KiB ring buffer that is then copied out.
use vstd::prelude::*;
use vstd::string::StringExecFns;

use super::{DecompressOutcome, HasMoreInput};
use crate::error::Error;
use crate::parse::Method;

verus! {

/// `miniz_oxide::inflate::core::DecompressorOxide`, the state of an inflate
/// stream.
#[verifier::external_type_specification]
#[verifier::external_body]
pub struct ExDecompressorOxide(miniz_oxide::inflate::core::DecompressorOxide);

/// `miniz_oxide::inflate::TINFLStatus`, what an inflate call ended with.
#[verifier::external_type_specification]
#[verifier::external_body]
pub struct ExTinflStatus(miniz_oxide::inflate::TINFLStatus);

/// What an inflate call ended with.
#[derive(Debug, Clone, Copy, PartialEq, Eq, Structural)]
pub enum InflateStatus {
    /// More input was needed, but none was to come.
    FailedCannotMakeProgress,
    /// The output buffer has a size the inflater cannot use.
    BadParam,
    /// The adler32 checksum did not match.
    Adler32Mismatch,
    /// The input is not valid DEFLATE data.
    Failed,
    /// The end of the stream was reached.
    Done,
    /// More input is needed.
    NeedsMoreInput,
    /// More output is to come.
    HasMoreOutput,
}

/// The calls of `decompress` made on an inflate stream so far, in order:
/// the input each was handed, the output buffer as it was before, the
/// position it wrote from, and the flags.
pub uninterp spec fn oxide_calls(r: miniz_oxide::inflate::core::DecompressorOxide) -> Seq<
    (Seq<u8>, Seq<u8>, int, u32),
>;

/// What `miniz_oxide::inflate::core::decompress` does on a stream that was
/// given the calls `calls`, when it is handed `input`, the output buffer
/// `out`, the position `pos` and the flags `flags`: its status, how many
/// bytes at the start of `input` it read, how many it wrote, and the output
/// buffer after. The inflater is deterministic, so this depends on these
/// arguments alone.
pub uninterp spec fn oxide_step(
    calls: Seq<(Seq<u8>, Seq<u8>, int, u32)>,
    input: Seq<u8>,
    out: Seq<u8>,
    pos: int,
    flags: u32,
) -> (InflateStatus, nat, nat, Seq<u8>);

/// The compressed bytes an inflate stream read so far, in order.
pub uninterp spec fn oxide_fed(r: miniz_oxide::inflate::core::DecompressorOxide) -> Seq<u8>;

/// The bytes an inflate stream wrote so far, in order.
pub uninterp spec fn oxide_written(r: miniz_oxide::inflate::core::DecompressorOxide) -> Seq<u8>;

/// The decompressed data that the DEFLATE bytes `compressed` determine: the
/// decompression of the stream they start, as far as they go.
pub uninterp spec fn deflate_decoded(compressed: Seq<u8>) -> Seq<u8>;

/// The variant of a `miniz_oxide::inflate::TINFLStatus`.
pub uninterp spec fn oxide_status(s: miniz_oxide::inflate::TINFLStatus) -> InflateStatus;

/// Calls `miniz_oxide::inflate::core::DecompressorOxide::new`: a stream
/// that was given no call.
#[verifier::external_body]
fn oxide_new() -> (r: miniz_oxide::inflate::core::DecompressorOxide)
    ensures
        oxide_calls(r) == Seq::<(Seq<u8>, Seq<u8>, int, u32)>::empty(),
        oxide_fed(r) == Seq::<u8>::empty(),
        oxide_written(r) == Seq::<u8>::empty(),
{
    miniz_oxide::inflate::core::DecompressorOxide::new()
}

/// Calls `miniz_oxide::inflate::core::decompress`, which inflates from
/// `in_buf` into `out` from `out_pos` on and returns its status, how many
/// input bytes it read and how many it wrote, as `oxide_step` names them.
/// It reads no more than it is given and writes within `out` (from
/// `out_pos` on, wrapping around its end), whose length it leaves as it is;
/// all it wrote so far is the start of the decompression of all it read so
/// far.
#[verifier::external_body]
fn oxide_decompress(
    r: &mut miniz_oxide::inflate::core::DecompressorOxide,
    in_buf: &[u8],
    out: &mut Vec<u8>,
    out_pos: usize,
    flags: u32,
) -> (res: (miniz_oxide::inflate::TINFLStatus, usize, usize))
    ensures
        res.1 <= in_buf@.len(),
        res.2 <= old(out)@.len(),
        final(out)@.len() == old(out)@.len(),
        oxide_status(res.0) == oxide_step(oxide_calls(*old(r)), in_buf@, old(out)@, out_pos as int, flags).0,
        res.1 == oxide_step(oxide_calls(*old(r)), in_buf@, old(out)@, out_pos as int, flags).1,
        res.2 == oxide_step(oxide_calls(*old(r)), in_buf@, old(out)@, out_pos as int, flags).2,
        final(out)@ == oxide_step(oxide_calls(*old(r)), in_buf@, old(out)@, out_pos as int, flags).3,
        oxide_calls(*final(r)) == oxide_calls(*old(r)).push((in_buf@, old(out)@, out_pos as int, flags)),
        oxide_fed(*final(r)) == oxide_fed(*old(r)) + in_buf@.subrange(0, res.1 as int),
        oxide_written(*final(r)) == oxide_written(*old(r)) + ring_read(final(out)@, out_pos as int, res.2 as int),
        oxide_written(*final(r)).is_prefix_of(deflate_decoded(oxide_fed(*final(r)))),
{
    miniz_oxide::inflate::core::decompress(r, in_buf, out, out_pos, flags)
}

/// Tells the variants of `miniz_oxide::inflate::TINFLStatus` apart.
#[verifier::external_body]
fn inflate_status(s: miniz_oxide::inflate::TINFLStatus) -> (r: InflateStatus)
    ensures
        r == oxide_status(s),
{
    match s {
        miniz_oxide::inflate::TINFLStatus::FailedCannotMakeProgress => InflateStatus::FailedCannotMakeProgress,
        miniz_oxide::inflate::TINFLStatus::BadParam => InflateStatus::BadParam,
        miniz_oxide::inflate::TINFLStatus::Adler32Mismatch => InflateStatus::Adler32Mismatch,
        miniz_oxide::inflate::TINFLStatus::Failed => InflateStatus::Failed,
        miniz_oxide::inflate::TINFLStatus::Done => InflateStatus::Done,
        miniz_oxide::inflate::TINFLStatus::NeedsMoreInput => InflateStatus::NeedsMoreInput,
        miniz_oxide::inflate::TINFLStatus::HasMoreOutput => InflateStatus::HasMoreOutput,
    }
}

/// miniz_oxide's `TINFL_FLAG_HAS_MORE_INPUT`: more input follows.
pub const INFLATE_FLAG_HAS_MORE_INPUT: u32 = 2;

/// miniz_oxide's `TINFL_FLAG_IGNORE_ADLER32`: do not check the adler32
/// checksum.
pub const INFLATE_FLAG_IGNORE_ADLER32: u32 = 64;

/// The length of the ring buffer the inflater writes into. From miniz_oxide
/// docs: the decompression function normally needs access to 32KiB of the
/// previously decompressed data.
pub const INTERNAL_BUFFER_LENGTH: usize = 65536;

/// The `k` bytes of the ring buffer `buf` that start at `pos`, wrapping
/// around its end.
pub open spec fn ring_read(buf: Seq<u8>, pos: int, k: int) -> Seq<u8> {
    Seq::new(k as nat, |j: int| buf[(pos + j) % (buf.len() as int)])
}

/// The message of the error an inflate status stands for.
pub open spec fn spec_status_message(status: InflateStatus) -> Seq<char> {
    match status {
        InflateStatus::FailedCannotMakeProgress => "Failed to make progress: more input data was expected, but the caller indicated there was no more data, so the input stream is likely truncated"@,
        InflateStatus::BadParam => "The output buffer is an invalid size; consider the flags parameter"@,
        InflateStatus::Adler32Mismatch => "The decompression went fine, but the adler32 checksum did not match the one provided in the header."@,
        _ => "Failed to decompress due to invalid data."@,
    }
}

/// The flags the inflater is called with: the adler32 checksum is not
/// checked, and more input follows unless this is the end of it.
pub open spec fn spec_inflate_flags(has_more_input: HasMoreInput) -> u32 {
    match has_more_input {
        HasMoreInput::Yes => INFLATE_FLAG_IGNORE_ADLER32 | INFLATE_FLAG_HAS_MORE_INPUT,
        HasMoreInput::No => INFLATE_FLAG_IGNORE_ADLER32,
    }
}

/// Whether inflating can go on after `status`: the end of the stream, a
/// need for more input, or more output to come.
pub open spec fn status_ok(status: InflateStatus) -> bool {
    status is Done || status is NeedsMoreInput || status is HasMoreOutput
}

/// The error an inflate status stands for, if any.
pub fn status_error(status: InflateStatus) -> (r: Option<Error>)
    ensures
        r is None <==> status_ok(status),
        r matches Some(e) ==> e matches Error::Decompression { method, msg } && method is Deflate && msg@
            == spec_status_message(status),
{
    match status {
        InflateStatus::FailedCannotMakeProgress => Some(
            Error::Decompression {
                method: Method::Deflate,
                msg: String::from_str(
                    "Failed to make progress: more input data was expected, but the caller indicated there was no more data, so the input stream is likely truncated",
                ),
            },
        ),
        InflateStatus::BadParam => Some(
            Error::Decompression {
                method: Method::Deflate,
                msg: String::from_str("The output buffer is an invalid size; consider the flags parameter"),
            },
        ),
        InflateStatus::Adler32Mismatch => Some(
            Error::Decompression {
                method: Method::Deflate,
                msg: String::from_str(
                    "The decompression went fine, but the adler32 checksum did not match the one provided in the header.",
                ),
            },
        ),
        InflateStatus::Failed => Some(
            Error::Decompression {
                method: Method::Deflate,
                msg: String::from_str("Failed to decompress due to invalid data."),
            },
        ),
        // eventually this'll return bytes_written == 0
        InflateStatus::Done => None,
        // that's okay, we'll get more input next time
        InflateStatus::NeedsMoreInput => None,
        // that's okay, as long as we return bytes_written > 0
        // the caller will keep calling
        InflateStatus::HasMoreOutput => None,
    }
}

/// Decompresses DEFLATE data.
pub struct DeflateDec {
    /// 64 KiB circular internal buffer.
    internal_buffer: Vec<u8>,
    /// The position in the internal buffer where we should start writing the
    /// next decompressed data. Note that the buffer is circular, so we need to
    /// wrap around when we reach the end.
    out_pos: usize,
    /// If this is non-zero, there's data *after* [Self::out_pos] we haven't
    /// copied to the caller's output buffer yet.
    remain_in_internal_buffer: usize,
    /// The miniz_oxide decompressor state
    state: miniz_oxide::inflate::core::DecompressorOxide,
}

impl DeflateDec {
    /// The invariant: the ring buffer has its length, the position lies in it.
    pub closed spec fn wf(&self) -> bool {
        &&& self.internal_buffer@.len() == INTERNAL_BUFFER_LENGTH
        &&& self.out_pos < INTERNAL_BUFFER_LENGTH
    }

    /// The bytes of the ring buffer.
    pub closed spec fn spec_ring(&self) -> Seq<u8> {
        self.internal_buffer@
    }

    /// Where the next bytes to copy out start in the ring buffer.
    pub closed spec fn spec_out_pos(&self) -> int {
        self.out_pos as int
    }

    /// How many bytes of the ring buffer were not copied out yet.
    pub closed spec fn spec_remain(&self) -> nat {
        self.remain_in_internal_buffer as nat
    }

    /// The calls made on the inflater so far.
    pub closed spec fn spec_calls(&self) -> Seq<(Seq<u8>, Seq<u8>, int, u32)> {
        oxide_calls(self.state)
    }

    /// The compressed bytes read so far.
    pub closed spec fn spec_fed(&self) -> Seq<u8> {
        oxide_fed(self.state)
    }

    /// The bytes the inflater wrote into the ring buffer so far.
    pub closed spec fn spec_inflated(&self) -> Seq<u8> {
        oxide_written(self.state)
    }

    /// A decompressor at the start of a stream.
    pub fn new() -> (r: Self)
        ensures
            r.wf(),
            r.spec_remain() == 0,
            r.spec_out_pos() == 0,
            r.spec_calls() == Seq::<(Seq<u8>, Seq<u8>, int, u32)>::empty(),
            r.spec_fed() == Seq::<u8>::empty(),
            r.spec_inflated() == Seq::<u8>::empty(),
            r.spec_ring() == Seq::new(INTERNAL_BUFFER_LENGTH as nat, |i: int| 0u8),
    {
        let internal_buffer = vec![0u8; INTERNAL_BUFFER_LENGTH];
        assert(internal_buffer@ =~= Seq::new(INTERNAL_BUFFER_LENGTH as nat, |i: int| 0u8)) by {
            assert forall|i: int| 0 <= i < INTERNAL_BUFFER_LENGTH implies internal_buffer@[i] == 0u8 by {
                assert(cloned(0u8, internal_buffer@[i]));
            }
        }
        DeflateDec {
            internal_buffer,
            out_pos: 0,
            state: oxide_new(),
            remain_in_internal_buffer: 0,
        }
    }

    /// The ring buffer has its length, and the position lies in it.
    pub proof fn lemma_ring(&self)
        requires
            self.wf(),
        ensures
            self.spec_ring().len() == INTERNAL_BUFFER_LENGTH,
            0 <= self.spec_out_pos() < INTERNAL_BUFFER_LENGTH,
    {
    }

    /// As long as there's room in out_buf and we have remaining data in the
    /// internal buffer, copies from internal_buffer wrapping as needed,
    /// decreasing the remaining count and increasing the position and
    /// `outcome.bytes_written`.
    fn copy_to_outbuf(&mut self, out_buf: &mut [u8], outcome: &mut DecompressOutcome)
        requires
            old(self).wf(),
            old(outcome).bytes_written <= old(out_buf)@.len(),
        ensures
            final(self).wf(),
            final(self).spec_ring() == old(self).spec_ring(),
            final(self).spec_calls() == old(self).spec_calls(),
            final(self).spec_fed() == old(self).spec_fed(),
            final(self).spec_inflated() == old(self).spec_inflated(),
            ({
                let k = final(outcome).bytes_written - old(outcome).bytes_written;
                &&& k == (if old(self).spec_remain() <= old(out_buf)@.len() - old(outcome).bytes_written {
                    old(self).spec_remain() as int
                } else {
                    old(out_buf)@.len() - old(outcome).bytes_written
                })
                &&& final(self).spec_remain() == old(self).spec_remain() - k
                &&& final(self).spec_out_pos() == (old(self).spec_out_pos() + k) % (INTERNAL_BUFFER_LENGTH as int)
                &&& final(out_buf)@ == old(out_buf)@.subrange(0, old(outcome).bytes_written as int)
                    + ring_read(old(self).spec_ring(), old(self).spec_out_pos(), k)
                    + old(out_buf)@.subrange(final(outcome).bytes_written as int, old(out_buf)@.len() as int)
            }),
            final(outcome).bytes_read == old(outcome).bytes_read,
    {
        let ghost ring = self.internal_buffer@;
        let ghost pos0 = self.out_pos as int;
        let ghost w0 = outcome.bytes_written as int;
        let ghost out0 = out_buf@;
        let ghost remain0 = self.remain_in_internal_buffer as int;
        let n = out_buf.len();
        while outcome.bytes_written < n && self.remain_in_internal_buffer > 0
            invariant
                self.wf(),
                self.internal_buffer@ == ring,
                self.spec_calls() == old(self).spec_calls(),
                self.spec_fed() == old(self).spec_fed(),
                self.spec_inflated() == old(self).spec_inflated(),
                ring.len() == INTERNAL_BUFFER_LENGTH,
                0 <= pos0 < INTERNAL_BUFFER_LENGTH,
                0 <= w0,
                n == out0.len(),
                out_buf@.len() == n,
                w0 <= outcome.bytes_written <= n,
                outcome.bytes_read == old(outcome).bytes_read,
                self.remain_in_internal_buffer + (outcome.bytes_written - w0) == remain0,
                self.out_pos as int == (pos0 + (outcome.bytes_written - w0)) % (INTERNAL_BUFFER_LENGTH as int),
                forall|j: int| 0 <= j < w0 ==> out_buf@[j] == out0[j],
                forall|j: int| outcome.bytes_written <= j < n ==> out_buf@[j] == out0[j],
                forall|j: int|
                    w0 <= j < outcome.bytes_written ==> out_buf@[j] == ring[(pos0 + (j - w0)) % (
                    INTERNAL_BUFFER_LENGTH as int)],
            decreases n - outcome.bytes_written,
        {
            let ghost k = outcome.bytes_written - w0;
            let ghost before = out_buf@;
            let b = self.internal_buffer[self.out_pos];
            out_buf[outcome.bytes_written] = b;
            assert(out_buf@ == before.update(outcome.bytes_written as int, b));
            assert(out_buf@[outcome.bytes_written as int] == ring[(pos0 + k) % (INTERNAL_BUFFER_LENGTH as int)]);
            assert forall|j: int| w0 <= j < outcome.bytes_written + 1 implies out_buf@[j] == ring[(pos0 + (j - w0)) % (
                INTERNAL_BUFFER_LENGTH as int)] by {
                if j < outcome.bytes_written {
                    assert(0 <= j < before.len());
                    assert(j != outcome.bytes_written as int);
                    assert(before.update(outcome.bytes_written as int, b)[j] == before[j]);
                }
            }
            proof {
                assert((pos0 + k + 1) % 65536 == (if (pos0 + k) % 65536 + 1 == 65536 {
                    0
                } else {
                    (pos0 + k) % 65536 + 1
                })) by (nonlinear_arith)
                    requires
                        0 <= pos0,
                        0 <= k,
                ;
            }
            self.out_pos = self.out_pos + 1;
            // if we've reached the end of the buffer, wrap around
            if self.out_pos == INTERNAL_BUFFER_LENGTH {
                self.out_pos = 0;
            }
            self.remain_in_internal_buffer = self.remain_in_internal_buffer - 1;
            outcome.bytes_written = outcome.bytes_written + 1;
        }
        let ghost k = outcome.bytes_written - w0;
        assert(out_buf@ =~= out0.subrange(0, w0) + ring_read(ring, pos0, k) + out0.subrange(
            outcome.bytes_written as int,
            n as int,
        ));
    }

    /// Copies out what is left in the ring buffer; when nothing is, inflates
    /// more of `in_buf` into it and copies that out.
    pub fn decompress(&mut self, in_buf: &[u8], out_buf: &mut [u8], has_more_input: HasMoreInput) -> (r:
        Result<DecompressOutcome, Error>)
        requires
            old(self).wf(),
        ensures
            final(self).wf(),
            final(out_buf)@.len() == old(out_buf)@.len(),
            r matches Ok(o) ==> o.bytes_read <= in_buf@.len() && o.bytes_written <= old(out_buf)@.len(),
            old(self).spec_remain() > 0 && old(out_buf)@.len() > 0 ==> (r matches Ok(o) && o.bytes_read
                == 0 && o.bytes_written > 0 && o.bytes_written == (if old(self).spec_remain()
                <= old(out_buf)@.len() {
                old(self).spec_remain() as int
            } else {
                old(out_buf)@.len() as int
            }) && final(out_buf)@ == ring_read(
                old(self).spec_ring(),
                old(self).spec_out_pos(),
                o.bytes_written as int,
            ) + old(out_buf)@.subrange(o.bytes_written as int, old(out_buf)@.len() as int)
                && final(self).spec_remain() == old(self).spec_remain() - o.bytes_written
                && final(self).spec_ring() == old(self).spec_ring() && final(self).spec_out_pos() == (
            old(self).spec_out_pos() + o.bytes_written) % (INTERNAL_BUFFER_LENGTH as int)
                && final(self).spec_fed() == old(self).spec_fed() && final(self).spec_inflated() == old(
                self,
            ).spec_inflated()),
            r matches Err(e) ==> e matches Error::Decompression { method, .. } && method is Deflate,
            old(self).spec_remain() == 0 || old(out_buf)@.len() == 0 ==> ({
                let flags = spec_inflate_flags(has_more_input);
                let st = oxide_step(old(self).spec_calls(), in_buf@, old(self).spec_ring(), old(self).spec_out_pos(), flags);
                let total = if old(self).spec_remain() + st.2 <= usize::MAX {
                    (old(self).spec_remain() + st.2) as int
                } else {
                    usize::MAX as int
                };
                &&& final(self).spec_calls() == old(self).spec_calls().push(
                    (in_buf@, old(self).spec_ring(), old(self).spec_out_pos(), flags),
                )
                &&& final(self).spec_inflated().is_prefix_of(deflate_decoded(final(self).spec_fed()))
                &&& st.2 <= INTERNAL_BUFFER_LENGTH
                &&& final(self).spec_fed() == old(self).spec_fed() + in_buf@.subrange(0, st.1 as int)
                &&& final(self).spec_inflated() == old(self).spec_inflated() + ring_read(
                    st.3,
                    old(self).spec_out_pos(),
                    st.2 as int,
                )
                &&& (!status_ok(st.0) ==> (r matches Err(e) && e matches Error::Decompression { msg, .. }
                    && msg@ == spec_status_message(st.0)))
                &&& (status_ok(st.0) ==> (r matches Ok(o) && o.bytes_read == st.1 && final(self).spec_ring()
                    == st.3 && o.bytes_written == (if total <= old(out_buf)@.len() {
                    total
                } else {
                    old(out_buf)@.len() as int
                }) && final(out_buf)@ == ring_read(st.3, old(self).spec_out_pos(), o.bytes_written as int)
                    + old(out_buf)@.subrange(o.bytes_written as int, old(out_buf)@.len() as int)
                    && final(self).spec_remain() == total - o.bytes_written && final(self).spec_out_pos() == (
                old(self).spec_out_pos() + o.bytes_written) % (INTERNAL_BUFFER_LENGTH as int)))
            }),
    {
        let mut outcome = DecompressOutcome { bytes_read: 0, bytes_written: 0 };
        let ghost out0 = out_buf@;
        self.copy_to_outbuf(out_buf, &mut outcome);
        if outcome.bytes_written > 0 {
            assert(out0.subrange(0, 0) + ring_read(old(self).spec_ring(), old(self).spec_out_pos(), outcome.bytes_written as int)
                =~= ring_read(old(self).spec_ring(), old(self).spec_out_pos(), outcome.bytes_written as int));
            return Ok(outcome);
        }
        assert(out_buf@ =~= out0);
        assert(self.spec_out_pos() == old(self).spec_out_pos());
        // no output bytes, let's call miniz_oxide
        let flags: u32 = match has_more_input {
            HasMoreInput::Yes => INFLATE_FLAG_IGNORE_ADLER32 | INFLATE_FLAG_HAS_MORE_INPUT,
            HasMoreInput::No => INFLATE_FLAG_IGNORE_ADLER32,
        };
        let (status, bytes_read, bytes_written) = oxide_decompress(
            &mut self.state,
            in_buf,
            &mut self.internal_buffer,
            self.out_pos,
            flags,
        );
        outcome.bytes_read = bytes_read;
        self.remain_in_internal_buffer = self.remain_in_internal_buffer.saturating_add(bytes_written);
        match status_error(inflate_status(status)) {
            Some(e) => {
                return Err(e);
            },
            None => {},
        }
        let ghost ring1 = self.internal_buffer@;
        self.copy_to_outbuf(out_buf, &mut outcome);
        assert(out0.subrange(0, 0) + ring_read(ring1, old(self).spec_out_pos(), outcome.bytes_written as int)
            =~= ring_read(ring1, old(self).spec_out_pos(), outcome.bytes_written as int));
        Ok(outcome)
    }
}

} // verus!
