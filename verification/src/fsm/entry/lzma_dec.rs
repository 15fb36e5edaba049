//! The decompressor for LZMA entries, built on lzma-rs's streaming decoder.
use vstd::prelude::*;
use vstd::slice::slice_subrange;
use vstd::string::StringExecFns;

use super::drain::{continues, copies_pending, lemma_continues, lemma_copies_pending, lemma_grown, Pending};
use super::{DecompressOutcome, HasMoreInput};
use crate::error::Error;
use crate::parse::Method;

verus! {

/// An `lzma_rs::decompress::Stream` that writes what it decodes into a
/// vector. Verus refuses to declare the stream type itself (its parameter is
/// bound by `std::io::Write`), so it is held here, out of Verus's sight.
#[verifier::external_body]
pub struct LzmaStream {
    inner: lzma_rs::decompress::Stream<Vec<u8>>,
}

/// The options an LZMA stream was made with: the unpacked size it was given
/// (none: the header holds it), its memory limit, and whether an incomplete
/// stream is accepted.
pub uninterp spec fn lzma_options(s: LzmaStream) -> (Option<u64>, usize, bool);

/// The inputs handed to an LZMA stream's `write` so far, in order.
pub uninterp spec fn lzma_inputs(s: LzmaStream) -> Seq<Seq<u8>>;

/// The compressed bytes an LZMA stream took so far, in order.
pub uninterp spec fn lzma_fed(s: LzmaStream) -> Seq<u8>;

/// All the bytes an LZMA stream decoded into its sink so far, in order.
pub uninterp spec fn lzma_produced(s: LzmaStream) -> Seq<u8>;

/// The decompressed data that the LZMA bytes `compressed` determine, for a
/// stream made with the options `opts`: the decompression of the stream
/// they start, as far as they go.
pub uninterp spec fn lzma_decoded(opts: (Option<u64>, usize, bool), compressed: Seq<u8>) -> Seq<u8>;

/// The bytes an LZMA stream's sink holds (none once a write failed: the
/// stream then dropped its state, sink included).
pub uninterp spec fn lzma_sink(s: LzmaStream) -> Seq<u8>;

/// What `std::io::Write::write` does on an LZMA stream made with the
/// options `opts` and handed the inputs `inputs` before, when it is handed
/// `input`: whether it succeeded, how many bytes at the start of `input` it
/// took, the error's text, and the bytes it decoded into the sink. The
/// decoder is deterministic, so this depends on these arguments alone.
pub uninterp spec fn lzma_write_step(
    opts: (Option<u64>, usize, bool),
    inputs: Seq<Seq<u8>>,
    input: Seq<u8>,
) -> (bool, nat, Seq<char>, Seq<u8>);

/// Calls `lzma_rs::decompress::Stream::new_with_options` with a vector as
/// the sink, the given unpacked size (the header holds none), memory limit,
/// and whether an incomplete stream is accepted; the stream keeps these
/// options.
#[verifier::external_body]
fn lzma_new(uncompressed_size: Option<u64>, memlimit: usize, allow_incomplete: bool) -> (r: LzmaStream)
    ensures
        lzma_options(r) == (uncompressed_size, memlimit, allow_incomplete),
        lzma_inputs(r) == Seq::<Seq<u8>>::empty(),
        lzma_sink(r) == Seq::<u8>::empty(),
        lzma_fed(r) == Seq::<u8>::empty(),
        lzma_produced(r) == Seq::<u8>::empty(),
{
    let options = lzma_rs::decompress::Options {
        unpacked_size: lzma_rs::decompress::UnpackedSize::UseProvided(uncompressed_size),
        allow_incomplete,
        memlimit: Some(memlimit),
    };
    LzmaStream { inner: lzma_rs::decompress::Stream::new_with_options(&options, Vec::new()) }
}

/// Calls `std::io::Write::write` on the decoder: how many bytes of `input`
/// it took (at most all of them, as `Write` promises), or the error's text,
/// as `lzma_write_step` names them. When it succeeds, what it decodes is
/// added to the sink, and all it decoded so far is the start of the
/// decompression of all it took so far; when it fails, the stream dropped
/// its state, and with it the sink. The stream's options never change.
#[verifier::external_body]
fn lzma_write(s: &mut LzmaStream, input: &[u8]) -> (r: Result<usize, String>)
    ensures
        r matches Ok(n) ==> n <= input@.len(),
        lzma_options(*final(s)) == lzma_options(*old(s)),
        lzma_write_step(lzma_options(*old(s)), lzma_inputs(*old(s)), input@).0 <==> r is Ok,
        r matches Ok(n) ==> n == lzma_write_step(lzma_options(*old(s)), lzma_inputs(*old(s)), input@).1,
        !lzma_write_step(lzma_options(*old(s)), lzma_inputs(*old(s)), input@).0 ==> (r matches Err(m)
            && m@ == lzma_write_step(lzma_options(*old(s)), lzma_inputs(*old(s)), input@).2),
        lzma_inputs(*final(s)) == lzma_inputs(*old(s)).push(input@),
        r is Ok ==> lzma_sink(*final(s)) == lzma_sink(*old(s)) + lzma_write_step(
            lzma_options(*old(s)),
            lzma_inputs(*old(s)),
            input@,
        ).3,
        r is Ok ==> lzma_produced(*final(s)) == lzma_produced(*old(s)) + lzma_write_step(
            lzma_options(*old(s)),
            lzma_inputs(*old(s)),
            input@,
        ).3,
        r is Err ==> lzma_sink(*final(s)) == Seq::<u8>::empty(),
        r matches Ok(n) ==> lzma_fed(*final(s)) == lzma_fed(*old(s)) + input@.subrange(0, n as int),
        r is Ok ==> lzma_produced(*final(s)).is_prefix_of(
            lzma_decoded(lzma_options(*final(s)), lzma_fed(*final(s))),
        ),
{
    match std::io::Write::write(&mut s.inner, input) {
        Ok(n) => Ok(n),
        Err(e) => Err(e.to_string()),
    }
}

/// Calls `lzma_rs::decompress::Stream::get_output_mut` and takes what the
/// sink holds, leaving it empty (an empty vector when there is no sink).
/// The stream's options never change.
#[verifier::external_body]
fn lzma_take_output(s: &mut LzmaStream) -> (r: Vec<u8>)
    ensures
        lzma_options(*final(s)) == lzma_options(*old(s)),
        r@ == lzma_sink(*old(s)),
        lzma_sink(*final(s)) == Seq::<u8>::empty(),
        lzma_inputs(*final(s)) == lzma_inputs(*old(s)),
        lzma_fed(*final(s)) == lzma_fed(*old(s)),
        lzma_produced(*final(s)) == lzma_produced(*old(s)),
{
    match s.inner.get_output_mut() {
        Some(out) => std::mem::take(out),
        None => Vec::new(),
    }
}

/// What `lzma_rs::decompress::Stream::finish` does on a stream made with the
/// options `opts` and handed the inputs `inputs`: whether it succeeded, the
/// error's text, and the bytes it still adds to the sink. The decoder is
/// deterministic, so this depends on these arguments alone.
pub uninterp spec fn lzma_finish_step(opts: (Option<u64>, usize, bool), inputs: Seq<Seq<u8>>) -> (
    bool,
    Seq<char>,
    Seq<u8>,
);

/// Calls `lzma_rs::decompress::Stream::finish`, which checks the end of the
/// stream and hands back the sink, or the error's text, as
/// `lzma_finish_step` names them. The sink handed back holds what it held,
/// then what the stream still decodes from what it took and writes out of
/// its window; all it decoded then is the start of the decompression of all
/// it took.
#[verifier::external_body]
fn lzma_finish(s: LzmaStream) -> (r: Result<Vec<u8>, String>)
    ensures
        r is Ok <==> lzma_finish_step(lzma_options(s), lzma_inputs(s)).0,
        r matches Err(m) ==> m@ == lzma_finish_step(lzma_options(s), lzma_inputs(s)).1,
        r matches Ok(v) ==> v@ == lzma_sink(s) + lzma_finish_step(lzma_options(s), lzma_inputs(s)).2,
        r matches Ok(v) ==> (lzma_produced(s) + lzma_finish_step(lzma_options(s), lzma_inputs(s)).2).is_prefix_of(
            lzma_decoded(lzma_options(s), lzma_fed(s)),
        ),
{
    match s.inner.finish() {
        Ok(out) => Ok(out),
        Err(e) => Err(e.to_string()),
    }
}

/// The memory limit of the LZMA decoder: 128 MiB.
pub const LZMA_MEMLIMIT: usize = 134217728;

/// The length of the trailer that may follow LZMA data, which the decoder
/// refuses.
pub const LZMA_TRAILER_LEN: usize = 10;

/// Whether, after a write that took `n` of `len` input bytes and left the
/// pending bytes `p`, the decoder is handed the rest of the input at once:
/// it took some of it, less than what is left, and nothing is pending.
pub open spec fn lzma_goes_on(n: nat, len: nat, p: Seq<u8>) -> bool {
    n != 0 && n < len - n && p.len() == 0
}

/// What handing `input` to an LZMA stream made with the options `opts` and
/// handed `inputs` before does, with the pending bytes `p`, when the rest
/// of the input is handed over again as long as the decoder goes on: whether
/// every write succeeded, how many bytes were taken in all, the error's
/// text, the pending bytes after, and the inputs handed to the stream after.
pub open spec fn lzma_writes(
    opts: (Option<u64>, usize, bool),
    inputs: Seq<Seq<u8>>,
    input: Seq<u8>,
    p: Seq<u8>,
) -> (bool, nat, Seq<char>, Seq<u8>, Seq<Seq<u8>>)
    decreases input.len(),
{
    let st = lzma_write_step(opts, inputs, input);
    if !st.0 {
        (false, 0, st.2, p, inputs.push(input))
    } else if st.1 <= input.len() && lzma_goes_on(st.1, input.len(), p + st.3) {
        let nx = lzma_writes(opts, inputs.push(input), input.subrange(st.1 as int, input.len() as int), p + st.3);
        (nx.0, st.1 + nx.1, nx.2, nx.3, nx.4)
    } else {
        (true, st.1, st.2, p + st.3, inputs.push(input))
    }
}

/// Where the LZMA decompressor is.
pub enum LzmaState {
    /// Handing input to the decoder
    Writing(Box<LzmaStream>),
    /// The stream is over, what is left is copied out
    Draining,
}

/// Decompresses LZMA data.
pub struct LzmaDec {
    state: LzmaState,
    /// what the decoder produced and was not copied out yet
    pending: Pending,
    /// once the stream is over: the compressed bytes it took, all it
    /// decoded, and its options
    last: Ghost<(Seq<u8>, Seq<u8>, (Option<u64>, usize, bool))>,
}

/// The error for input left after the LZMA data that is not a trailer.
fn trailer_error(len: usize) -> (e: Error)
    ensures
        e matches Error::Decompression { method, .. } && method is Lzma,
{
    let msg = String::from_str("expected LZMA trailer or no LZMA trailer, but not a ").concat(
        len.to_string().as_str(),
    ).concat("-byte trailer");
    Error::Decompression { method: Method::Lzma, msg }
}

/// How many bytes left after the LZMA data are eaten at the end of the
/// input: none, or a 10-byte trailer; anything else is an error.
pub fn trailer_len(rest: usize) -> (r: Result<usize, Error>)
    ensures
        rest == 0 ==> r == Ok::<usize, Error>(0),
        rest == LZMA_TRAILER_LEN ==> r == Ok::<usize, Error>(LZMA_TRAILER_LEN),
        rest != 0 && rest != LZMA_TRAILER_LEN ==> (r matches Err(e) && e matches Error::Decompression {
            method,
            ..
        } && method is Lzma),
{
    if rest == 0 {
        // trailer is not present, that's okay
        Ok(0)
    } else if rest == LZMA_TRAILER_LEN {
        // eating LZMA trailer
        Ok(LZMA_TRAILER_LEN)
    } else {
        Err(trailer_error(rest))
    }
}

impl LzmaDec {
    /// The invariant of the decompressor: what the stream decoded was
    /// taken out of its sink.
    pub closed spec fn wf(&self) -> bool {
        &&& self.pending.wf()
        &&& (self.state matches LzmaState::Writing(stream) ==> lzma_sink(*stream) == Seq::<u8>::empty()
            && lzma_produced(*stream).is_prefix_of(lzma_decoded(lzma_options(*stream), lzma_fed(*stream))))
        &&& (self.state is Draining ==> self.last@.1.is_prefix_of(lzma_decoded(self.last@.2, self.last@.0)))
    }

    /// The compressed bytes the stream took so far.
    pub closed spec fn spec_fed(&self) -> Seq<u8> {
        match self.state {
            LzmaState::Writing(stream) => lzma_fed(*stream),
            LzmaState::Draining => self.last@.0,
        }
    }

    /// All the bytes the stream decoded so far.
    pub closed spec fn spec_produced(&self) -> Seq<u8> {
        match self.state {
            LzmaState::Writing(stream) => lzma_produced(*stream),
            LzmaState::Draining => self.last@.1,
        }
    }

    /// The options of the stream.
    pub closed spec fn spec_opts(&self) -> (Option<u64>, usize, bool) {
        match self.state {
            LzmaState::Writing(stream) => lzma_options(*stream),
            LzmaState::Draining => self.last@.2,
        }
    }

    /// The inputs handed to the stream so far (none once it is over).
    pub closed spec fn spec_inputs(&self) -> Seq<Seq<u8>> {
        match self.state {
            LzmaState::Writing(stream) => lzma_inputs(*stream),
            LzmaState::Draining => Seq::<Seq<u8>>::empty(),
        }
    }

    /// Whether the stream is over.
    pub closed spec fn spec_draining(&self) -> bool {
        self.state is Draining
    }

    /// What the decoder produced and was not copied out yet, in order.
    pub closed spec fn spec_pending(&self) -> Seq<u8> {
        self.pending.spec_bytes()
    }

    /// The options of the decoder while the stream is not over.
    pub closed spec fn spec_options(&self) -> Option<(Option<u64>, usize, bool)> {
        match self.state {
            LzmaState::Writing(stream) => Some(lzma_options(*stream)),
            LzmaState::Draining => None,
        }
    }

    /// While the stream is not over, its options are those it was made with.
    pub proof fn lemma_opts(&self)
        ensures
            !self.spec_draining() ==> self.spec_options() == Some(self.spec_opts()),
    {
    }

    /// A decompressor at the start of a stream of `uncompressed_size` bytes
    /// (when known), with the memory limit and refusing incomplete streams.
    pub fn new(uncompressed_size: Option<u64>) -> (r: Self)
        ensures
            r.wf(),
            !r.spec_draining(),
            r.spec_pending() == Seq::<u8>::empty(),
            r.spec_options() == Some((uncompressed_size, LZMA_MEMLIMIT, false)),
            r.spec_inputs() == Seq::<Seq<u8>>::empty(),
            r.spec_fed() == Seq::<u8>::empty(),
            r.spec_produced() == Seq::<u8>::empty(),
    {
        let stream = lzma_new(uncompressed_size, LZMA_MEMLIMIT, false);
        LzmaDec {
            state: LzmaState::Writing(Box::new(stream)),
            pending: Pending::new(),
            last: Ghost((Seq::empty(), Seq::empty(), (None, 0, false))),
        }
    }

    /// Copies out what the decoder produced; when nothing is left, hands the
    /// decoder more of `in_buf`. At the end of the input, a 10-byte trailer
    /// is eaten, and the stream is finished.
    ///
    /// What is written to `out`, then what is still pending, is what was
    /// pending, then what the decoder produced (nothing once the stream is
    /// over). While something is pending and `out` has room, or once the
    /// stream is over, only pending bytes are copied out. At the end of the
    /// input, when nothing was pending, the whole input is taken and the
    /// stream is over.
    pub fn decompress(&mut self, in_buf: &[u8], out: &mut [u8], has_more_input: HasMoreInput) -> (r:
        Result<DecompressOutcome, Error>)
        requires
            old(self).wf(),
        ensures
            r is Ok ==> final(self).wf(),
            final(out)@.len() == old(out)@.len(),
            r matches Ok(o) ==> o.bytes_read <= in_buf@.len() && o.bytes_written <= old(out)@.len(),
            r matches Ok(o) ==> continues(
                old(self).spec_pending(),
                final(out)@.subrange(0, o.bytes_written as int),
                final(self).spec_pending(),
            ),
            old(self).spec_draining() ==> (r matches Ok(o) && final(out)@.subrange(0, o.bytes_written as int)
                + final(self).spec_pending() == old(self).spec_pending()),
            (old(self).spec_pending().len() > 0 && old(out)@.len() > 0) || old(self).spec_draining() ==> (r matches Ok(o)
                && o.bytes_read == 0 && copies_pending(
                old(self).spec_pending(),
                final(self).spec_pending(),
                old(out)@,
                final(out)@,
                o.bytes_written as int,
            ) && final(self).spec_draining() == old(self).spec_draining()),
            !old(self).spec_draining() && (old(self).spec_pending().len() == 0 || old(out)@.len() == 0)
                && has_more_input is No && r is Ok ==> final(self).spec_draining()
                && r->Ok_0.bytes_read == in_buf@.len(),
            r matches Err(e) ==> e matches Error::Decompression { method, .. } && method is Lzma,
            old(self).spec_draining() ==> final(self).spec_draining(),
            !final(self).spec_draining() ==> final(self).spec_options() == old(self).spec_options(),
            r is Ok ==> final(self).spec_produced().is_prefix_of(
                lzma_decoded(final(self).spec_opts(), final(self).spec_fed()),
            ),
            r matches Ok(o) ==> ({
                let p0 = old(self).spec_produced();
                let p1 = final(self).spec_produced();
                let taken = old(self).spec_fed() + in_buf@.subrange(0, o.bytes_read as int);
                &&& old(self).spec_fed().is_prefix_of(final(self).spec_fed())
                &&& final(self).spec_fed().is_prefix_of(taken)
                &&& (!final(self).spec_draining() ==> final(self).spec_fed() == taken)
                &&& final(self).spec_opts() == old(self).spec_opts()
                &&& p0.is_prefix_of(p1)
                &&& final(out)@.subrange(0, o.bytes_written as int) + final(self).spec_pending() == old(
                    self,
                ).spec_pending() + p1.subrange(p0.len() as int, p1.len() as int)
            }),
            !old(self).spec_draining() && (old(self).spec_pending().len() == 0 || old(out)@.len() == 0)
                ==> ({
                let w = lzma_writes(old(self).spec_opts(), old(self).spec_inputs(), in_buf@, old(self).spec_pending());
                &&& (!w.0 ==> (r matches Err(e) && e matches Error::Decompression { msg, .. } && msg@
                    == w.2))
                &&& (w.0 && has_more_input is Yes ==> (r matches Ok(o) && o.bytes_read == w.1 && copies_pending(
                    w.3,
                    final(self).spec_pending(),
                    old(out)@,
                    final(out)@,
                    o.bytes_written as int,
                ) && final(self).spec_inputs() == w.4))
                &&& (w.0 && has_more_input is No && in_buf@.len() - w.1 != 0 && in_buf@.len() - w.1
                    != LZMA_TRAILER_LEN ==> r is Err)
                &&& (w.0 && has_more_input is No && (in_buf@.len() - w.1 == 0 || in_buf@.len() - w.1
                    == LZMA_TRAILER_LEN) ==> ({
                    let f = lzma_finish_step(old(self).spec_opts(), w.4);
                    &&& (!f.0 ==> (r matches Err(e) && e matches Error::Decompression { msg, .. } && msg@
                        == f.1))
                    &&& (f.0 ==> (r matches Ok(o) && o.bytes_read == in_buf@.len() && copies_pending(
                        w.3 + f.2,
                        final(self).spec_pending(),
                        old(out)@,
                        final(out)@,
                        o.bytes_written as int,
                    ) && final(self).spec_draining()))
                }))
            }),
    {
        let mut outcome = DecompressOutcome { bytes_read: 0, bytes_written: 0 };
        let mut rest: &[u8] = in_buf;
        let total = in_buf.len();
        let out_len = out.len();
        let ghost p0 = self.pending.spec_bytes();
        let ghost out0 = out@;
        let ghost mut produced = Seq::<u8>::empty();
        let ghost mut first = true;
        let ghost mut finished = false;
        let ghost w0 = lzma_writes(old(self).spec_opts(), old(self).spec_inputs(), in_buf@, p0);
        let ghost len = in_buf@.len();
        proof {
            assert(old(self).spec_produced() + produced =~= old(self).spec_produced());
            assert(old(self).spec_fed() + in_buf@.subrange(0, 0) =~= old(self).spec_fed());
            assert(old(self).spec_fed() =~= old(self).spec_fed().subrange(0, old(self).spec_fed().len() as int));
        }
        loop
            invariant
                w0 == lzma_writes(old(self).spec_opts(), old(self).spec_inputs(), in_buf@, p0),
                len == in_buf@.len(),
                rest@ == in_buf@.subrange(outcome.bytes_read as int, in_buf@.len() as int),
                first ==> self.spec_inputs() == old(self).spec_inputs() && self.spec_opts() == old(
                    self,
                ).spec_opts(),
                !old(self).spec_draining() && (p0.len() == 0 || out0.len() == 0) && !self.spec_draining() ==> ({
                    let wc = lzma_writes(self.spec_opts(), self.spec_inputs(), rest@, self.spec_pending());
                    &&& w0.0 == wc.0
                    &&& w0.1 == outcome.bytes_read + wc.1
                    &&& w0.2 == wc.2
                    &&& w0.3 == wc.3
                    &&& w0.4 == wc.4
                }),
                finished ==> w0.0 && (len - w0.1 == 0 || len - w0.1 == LZMA_TRAILER_LEN),
                finished ==> lzma_finish_step(old(self).spec_opts(), w0.4).0 && self.spec_pending() == w0.3
                    + lzma_finish_step(old(self).spec_opts(), w0.4).2,
                total == in_buf@.len(),
                out_len == out@.len(),
                self.wf(),
                old(self).spec_draining() ==> self.spec_draining(),
                outcome.bytes_written == 0,
                outcome.bytes_read + rest@.len() == in_buf@.len(),
                out@.len() == old(out)@.len(),
                p0 == old(self).spec_pending(),
                out0 == old(out)@,
                out@ == out0,
                self.spec_pending() == p0 + produced,
                old(self).spec_draining() ==> produced.len() == 0,
                first ==> produced.len() == 0 && self.spec_draining() == old(self).spec_draining() && outcome.bytes_read == 0,
                old(self).spec_draining() ==> first,
                p0.len() > 0 && out0.len() > 0 ==> first,
                !first ==> self.spec_pending().len() == 0 || finished,
                self.spec_draining() ==> old(self).spec_draining() || finished,
                finished ==> self.spec_draining() && outcome.bytes_read == in_buf@.len(),
                finished ==> has_more_input is No && !old(self).spec_draining(),
                !self.spec_draining() ==> self.spec_options() == old(self).spec_options(),
                self.spec_produced() == old(self).spec_produced() + produced,
                self.spec_opts() == old(self).spec_opts(),
                old(self).spec_fed().is_prefix_of(self.spec_fed()),
                self.spec_fed().is_prefix_of(old(self).spec_fed() + in_buf@.subrange(0, outcome.bytes_read as int)),
                !self.spec_draining() ==> self.spec_fed() == old(self).spec_fed() + in_buf@.subrange(
                    0,
                    outcome.bytes_read as int,
                ),
            decreases (if self.spec_draining() {
                0int
            } else {
                1int
            }), rest@.len(),
        {
            let ghost before = self.pending.spec_bytes();
            proof {
                if produced.len() == 0 {
                    assert(p0 + produced =~= p0);
                }
            }
            self.pending.copy_to_out(out, &mut outcome);
            proof {
                lemma_copies_pending(before, self.spec_pending(), out0, out@, outcome.bytes_written as int);
            }
            if outcome.bytes_written > 0 {
                proof {
                    lemma_continues(p0, out@.subrange(0, outcome.bytes_written as int), self.spec_pending(), produced);
                    lemma_grown(old(self).spec_produced(), produced);
                }
                return Ok(outcome);
            }
            let ghost was_first = first;
            proof {
                first = false;
                if was_first {
                    assert(rest@ =~= in_buf@);
                }
            }
            let ghost read0 = outcome.bytes_read as int;
            let mut finish_stream = false;
            match &mut self.state {
                LzmaState::Writing(stream) => {
                    let n = match lzma_write(stream, rest) {
                        Ok(n) => n,
                        Err(msg) => {
                            return Err(Error::Decompression { method: Method::Lzma, msg });
                        },
                    };
                    outcome.bytes_read = outcome.bytes_read + n;
                    rest = slice_subrange(rest, n, rest.len());
                    let more = lzma_take_output(stream);
                    self.pending.append(more);
                    proof {
                        assert(old(self).spec_produced() + (produced + more@) =~= old(self).spec_produced()
                            + produced + more@);
                        produced = produced + more@;
                        assert(self.spec_pending() =~= p0 + produced);
                        assert(in_buf@.subrange(0, read0) + in_buf@.subrange(read0, len as int).subrange(0, n as int)
                            =~= in_buf@.subrange(0, outcome.bytes_read as int));
                    }
                    // if we wrote some (but not all) of the input, and we haven't
                    // gotten any output, then we need to loop
                    if n != 0 && n < rest.len() && self.pending.is_empty() {
                        continue;
                    }
                    match has_more_input {
                        HasMoreInput::Yes => {
                            // keep going
                        },
                        HasMoreInput::No => {
                            // this happens when we hit the 10-byte trailer mentioned above
                            // in this case, we just pretend we wrote everything
                            let eaten = match trailer_len(rest.len()) {
                                Ok(n) => n,
                                Err(e) => {
                                    return Err(e);
                                },
                            };
                            let ghost fed_before = self.spec_fed();
                            let ghost read_before = outcome.bytes_read as int;
                            outcome.bytes_read = outcome.bytes_read + eaten;
                            rest = slice_subrange(rest, eaten, rest.len());
                            proof {
                                let a = old(self).spec_fed() + in_buf@.subrange(0, read_before);
                                let b = old(self).spec_fed() + in_buf@.subrange(0, outcome.bytes_read as int);
                                assert(a =~= b.subrange(0, a.len() as int));
                            }
                            finish_stream = true;
                        },
                    }
                },
                LzmaState::Draining => {
                    // keep going
                },
            }
            if finish_stream {
                let mut state = LzmaState::Draining;
                core::mem::swap(&mut state, &mut self.state);
                match state {
                    LzmaState::Writing(stream) => {
                        let ghost sfed = lzma_fed(*stream);
                        let ghost sproduced = lzma_produced(*stream);
                        let ghost sopts = lzma_options(*stream);
                        let ghost sinputs = lzma_inputs(*stream);
                        match lzma_finish(*stream) {
                            Ok(last) => {
                                proof {
                                    assert(Seq::<u8>::empty() + lzma_finish_step(sopts, sinputs).2 =~= lzma_finish_step(
                                        sopts,
                                        sinputs,
                                    ).2);
                                }
                                self.last = Ghost((sfed, sproduced + last@, sopts));
                                self.pending.append(last);
                                proof {
                                    assert(old(self).spec_produced() + (produced + last@) =~= old(self).spec_produced()
                                        + produced + last@);
                                    produced = produced + last@;
                                    assert(self.spec_pending() =~= p0 + produced);
                                    finished = true;
                                }
                            },
                            Err(msg) => {
                                return Err(Error::Decompression { method: Method::Lzma, msg });
                            },
                        }
                    },
                    LzmaState::Draining => {},
                }
                continue;
            }
            let ghost before2 = self.pending.spec_bytes();
            proof {
                if produced.len() == 0 {
                    assert(p0 + produced =~= p0);
                }
            }
            self.pending.copy_to_out(out, &mut outcome);
            proof {
                lemma_copies_pending(before2, self.spec_pending(), out0, out@, outcome.bytes_written as int);
            }
            proof {
                lemma_continues(p0, out@.subrange(0, outcome.bytes_written as int), self.spec_pending(), produced);
                lemma_grown(old(self).spec_produced(), produced);
            }
            return Ok(outcome);
        }
    }
}

} // verus!
