//! The decompressor for zstd entries, built on the zstd crate's streaming
//! decoder.
use vstd::prelude::*;
use vstd::slice::slice_subrange;

use super::drain::{continues, copies_pending, lemma_continues, lemma_copies_pending, lemma_grown, Pending};
use super::{DecompressOutcome, HasMoreInput};
use crate::error::Error;
use crate::parse::Method;

verus! {

/// A `zstd::stream::write::Decoder` that writes what it decodes into a
/// vector. Verus refuses to declare the decoder type itself (its parameter
/// is bound by `std::io::Write`), so it is held here, out of Verus's sight.
#[verifier::external_body]
pub struct ZstdStream {
    inner: zstd::stream::write::Decoder<'static, Vec<u8>>,
}

/// The calls made on a zstd decoder so far, in order: the input handed to
/// each `write`, or none for a `flush`.
pub uninterp spec fn zstd_calls(s: ZstdStream) -> Seq<Option<Seq<u8>>>;

/// The compressed bytes a zstd decoder took so far, in order.
pub uninterp spec fn zstd_fed(s: ZstdStream) -> Seq<u8>;

/// All the bytes a zstd decoder put into its sink so far, in order.
pub uninterp spec fn zstd_produced(s: ZstdStream) -> Seq<u8>;

/// The decompressed data that the zstd bytes `compressed` determine: the
/// decompression of the frames they start, as far as they go.
pub uninterp spec fn zstd_decoded(compressed: Seq<u8>) -> Seq<u8>;

/// The bytes a zstd decoder's sink holds.
pub uninterp spec fn zstd_sink(s: ZstdStream) -> Seq<u8>;

/// What `std::io::Write::write` does on a zstd decoder that was given the
/// calls `calls` (writes and flushes), when it is handed `input`: whether it
/// succeeded, how many bytes at the start of `input` it took, the error's
/// text, and the bytes it added to the sink (output it held from earlier
/// calls goes out first). The decoder's state, and what it holds, follow
/// from the calls it was given, so this depends on these arguments alone.
pub uninterp spec fn zstd_write_step(calls: Seq<Option<Seq<u8>>>, input: Seq<u8>) -> (
    bool,
    nat,
    Seq<char>,
    Seq<u8>,
);

/// Calls `zstd::stream::write::Decoder::new` with an empty vector as the
/// sink, or returns the error's text: a decoder handed nothing yet.
#[verifier::external_body]
fn zstd_new() -> (r: Result<ZstdStream, String>)
    ensures
        r matches Ok(s) ==> zstd_calls(s) == Seq::<Option<Seq<u8>>>::empty() && zstd_sink(s) == Seq::<u8>::empty()
            && zstd_fed(s) == Seq::<u8>::empty() && zstd_produced(s) == Seq::<u8>::empty(),
{
    match zstd::stream::write::Decoder::new(Vec::new()) {
        Ok(inner) => Ok(ZstdStream { inner }),
        Err(e) => Err(e.to_string()),
    }
}

/// Calls `std::io::Write::write` on the decoder: how many bytes of `input`
/// it took (at most all of them, as `Write` promises), or the error's text,
/// as `zstd_write_step` names them, along with the bytes it adds to the
/// sink (output it held from earlier calls goes out first; what it decodes
/// now may be held for a later call). The call is recorded. All that
/// reached the sink so far is the start of the decompression of all it
/// took so far.
#[verifier::external_body]
fn zstd_write(s: &mut ZstdStream, input: &[u8]) -> (r: Result<usize, String>)
    ensures
        r matches Ok(n) ==> n <= input@.len(),
        zstd_write_step(zstd_calls(*old(s)), input@).0 <==> r is Ok,
        r matches Ok(n) ==> n == zstd_write_step(zstd_calls(*old(s)), input@).1,
        r matches Err(m) ==> m@ == zstd_write_step(zstd_calls(*old(s)), input@).2,
        zstd_calls(*final(s)) == zstd_calls(*old(s)).push(Some(input@)),
        zstd_sink(*final(s)) == zstd_sink(*old(s)) + zstd_write_step(zstd_calls(*old(s)), input@).3,
        zstd_produced(*final(s)) == zstd_produced(*old(s)) + zstd_write_step(zstd_calls(*old(s)), input@).3,
        r matches Ok(n) ==> zstd_fed(*final(s)) == zstd_fed(*old(s)) + input@.subrange(0, n as int),
        r is Ok ==> zstd_produced(*final(s)).is_prefix_of(zstd_decoded(zstd_fed(*final(s)))),
{
    match std::io::Write::write(&mut s.inner, input) {
        Ok(n) => Ok(n),
        Err(e) => Err(e.to_string()),
    }
}

/// What `std::io::Write::flush` does on a zstd decoder that was given the
/// calls `calls`: whether it succeeded, the error's text, and the bytes it
/// added to the sink. The decoder's state, and what it holds, follow from
/// the calls it was given, so this depends on them alone.
pub uninterp spec fn zstd_flush_step(calls: Seq<Option<Seq<u8>>>) -> (bool, Seq<char>, Seq<u8>);

/// Calls `std::io::Write::flush` on the decoder, or returns the error's text,
/// as `zstd_flush_step` names them. The call is recorded. It takes no input; the output it held, and what it
/// still decodes from what it took, is added to the sink; all that reached
/// the sink then is the start of the decompression of all it took.
#[verifier::external_body]
fn zstd_flush(s: &mut ZstdStream) -> (r: Result<(), String>)
    ensures
        zstd_calls(*final(s)) == zstd_calls(*old(s)).push(None),
        zstd_fed(*final(s)) == zstd_fed(*old(s)),
        r is Ok <==> zstd_flush_step(zstd_calls(*old(s))).0,
        r matches Err(m) ==> m@ == zstd_flush_step(zstd_calls(*old(s))).1,
        r is Ok ==> zstd_sink(*final(s)) == zstd_sink(*old(s)) + zstd_flush_step(zstd_calls(*old(s))).2,
        r is Ok ==> zstd_produced(*final(s)) == zstd_produced(*old(s)) + zstd_flush_step(zstd_calls(*old(s))).2,
        r is Ok ==> zstd_produced(*final(s)).is_prefix_of(zstd_decoded(zstd_fed(*final(s)))),
{
    match std::io::Write::flush(&mut s.inner) {
        Ok(()) => Ok(()),
        Err(e) => Err(e.to_string()),
    }
}

/// Calls `zstd::stream::write::Decoder::get_mut` and takes what the sink
/// holds, leaving it empty.
#[verifier::external_body]
fn zstd_take_output(s: &mut ZstdStream) -> (r: Vec<u8>)
    ensures
        r@ == zstd_sink(*old(s)),
        zstd_sink(*final(s)) == Seq::<u8>::empty(),
        zstd_calls(*final(s)) == zstd_calls(*old(s)),
        zstd_fed(*final(s)) == zstd_fed(*old(s)),
        zstd_produced(*final(s)) == zstd_produced(*old(s)),
{
    std::mem::take(s.inner.get_mut())
}

/// Whether, after a write that took `n` of `len` input bytes and left the
/// pending bytes `p`, the decoder is handed the rest of the input at once:
/// it took some of it, not all, and nothing is pending.
pub open spec fn zstd_goes_on(n: nat, len: nat, p: Seq<u8>) -> bool {
    n != 0 && n < len && p.len() == 0
}

/// What handing `input` to a zstd decoder that was given the calls `calls`
/// does, with the pending bytes `p`, when the rest of the input is handed
/// over again as long as the decoder goes on: whether every write
/// succeeded, how many bytes were taken in all, the error's text, the
/// pending bytes after, and the calls made on the decoder after.
pub open spec fn zstd_writes(calls: Seq<Option<Seq<u8>>>, input: Seq<u8>, p: Seq<u8>) -> (
    bool,
    nat,
    Seq<char>,
    Seq<u8>,
    Seq<Option<Seq<u8>>>,
)
    decreases input.len(),
{
    let st = zstd_write_step(calls, input);
    if !st.0 {
        (false, 0, st.2, p, calls.push(Some(input)))
    } else if st.1 <= input.len() && zstd_goes_on(st.1, input.len(), p + st.3) {
        let nx = zstd_writes(calls.push(Some(input)), input.subrange(st.1 as int, input.len() as int), p + st.3);
        (nx.0, st.1 + nx.1, nx.2, nx.3, nx.4)
    } else {
        (true, st.1, st.2, p + st.3, calls.push(Some(input)))
    }
}

/// Where the zstd decompressor is.
pub enum ZstdState {
    /// Handing input to the decoder
    Writing(Box<ZstdStream>),
    /// The stream is over, what is left is copied out
    Draining,
}

/// Decompresses zstd data.
pub struct ZstdDec {
    state: ZstdState,
    /// what the decoder produced and was not copied out yet
    pending: Pending,
    /// once the stream is over: the compressed bytes it took, and all it
    /// decoded
    last: Ghost<(Seq<u8>, Seq<u8>)>,
}

impl ZstdDec {
    /// The invariant of the decompressor: what the decoder decoded was
    /// taken out of its sink.
    pub closed spec fn wf(&self) -> bool {
        &&& self.pending.wf()
        &&& (self.state matches ZstdState::Writing(stream) ==> zstd_sink(*stream) == Seq::<u8>::empty()
            && zstd_produced(*stream).is_prefix_of(zstd_decoded(zstd_fed(*stream))))
        &&& (self.state is Draining ==> self.last@.1.is_prefix_of(zstd_decoded(self.last@.0)))
    }

    /// The compressed bytes the decoder took so far.
    pub closed spec fn spec_fed(&self) -> Seq<u8> {
        match self.state {
            ZstdState::Writing(stream) => zstd_fed(*stream),
            ZstdState::Draining => self.last@.0,
        }
    }

    /// All the bytes the decoder decoded so far.
    pub closed spec fn spec_produced(&self) -> Seq<u8> {
        match self.state {
            ZstdState::Writing(stream) => zstd_produced(*stream),
            ZstdState::Draining => self.last@.1,
        }
    }

    /// The calls made on the decoder so far (none once the stream is over).
    pub closed spec fn spec_calls(&self) -> Seq<Option<Seq<u8>>> {
        match self.state {
            ZstdState::Writing(stream) => zstd_calls(*stream),
            ZstdState::Draining => Seq::<Option<Seq<u8>>>::empty(),
        }
    }

    /// Whether the stream is over.
    pub closed spec fn spec_draining(&self) -> bool {
        self.state is Draining
    }

    /// What the decoder produced and was not copied out yet, in order.
    pub closed spec fn spec_pending(&self) -> Seq<u8> {
        self.pending.spec_bytes()
    }

    /// A decompressor at the start of a stream, or the error of the decoder.
    pub fn new() -> (r: Result<Self, Error>)
        ensures
            r matches Ok(d) ==> d.wf() && !d.spec_draining() && d.spec_pending() == Seq::<u8>::empty()
                && d.spec_calls() == Seq::<Option<Seq<u8>>>::empty() && d.spec_fed() == Seq::<u8>::empty()
                && d.spec_produced() == Seq::<u8>::empty(),
            r matches Err(e) ==> e matches Error::Decompression { method, .. } && method is Zstd,
    {
        match zstd_new() {
            Ok(stream) => Ok(
                ZstdDec {
                    state: ZstdState::Writing(Box::new(stream)),
                    pending: Pending::new(),
                    last: Ghost((Seq::empty(), Seq::empty())),
                },
            ),
            Err(msg) => Err(Error::Decompression { method: Method::Zstd, msg }),
        }
    }

    /// Copies out what the decoder produced; when nothing is left, hands the
    /// decoder more of `in_buf`. At the end of the input, the decoder is
    /// flushed, and what it holds is copied out from then on.
    ///
    /// What is written to `out`, then what is still pending, is what was
    /// pending, then what the decoder produced (nothing once the stream is
    /// over). While something is pending and `out` has room, or once the
    /// stream is over, only pending bytes are copied out. At the end of the
    /// input, when nothing was pending, the stream is over.
    pub fn decompress(&mut self, in_buf: &[u8], out: &mut [u8], has_more_input: HasMoreInput) -> (r:
        Result<DecompressOutcome, Error>)
        requires
            old(self).wf(),
        ensures
            r is Ok ==> final(self).wf(),
            final(out)@.len() == old(out)@.len(),
            r matches Ok(o) ==> o.bytes_read <= in_buf@.len() && o.bytes_written <= old(out)@.len(),
            r matches Ok(o) ==> continues(
                old(self).spec_pending(),
                final(out)@.subrange(0, o.bytes_written as int),
                final(self).spec_pending(),
            ),
            old(self).spec_draining() ==> (r matches Ok(o) && final(out)@.subrange(0, o.bytes_written as int)
                + final(self).spec_pending() == old(self).spec_pending()),
            (old(self).spec_pending().len() > 0 && old(out)@.len() > 0) || old(self).spec_draining() ==> (r matches Ok(o)
                && o.bytes_read == 0 && copies_pending(
                old(self).spec_pending(),
                final(self).spec_pending(),
                old(out)@,
                final(out)@,
                o.bytes_written as int,
            ) && final(self).spec_draining() == old(self).spec_draining()),
            !old(self).spec_draining() && (old(self).spec_pending().len() == 0 || old(out)@.len() == 0)
                && has_more_input is No && r is Ok ==> final(self).spec_draining(),
            r matches Err(e) ==> e matches Error::Decompression { method, .. } && method is Zstd,
            old(self).spec_draining() ==> final(self).spec_draining(),
            r is Ok ==> final(self).spec_produced().is_prefix_of(zstd_decoded(final(self).spec_fed())),
            r matches Ok(o) ==> ({
                let p0 = old(self).spec_produced();
                let p1 = final(self).spec_produced();
                &&& final(self).spec_fed() == old(self).spec_fed() + in_buf@.subrange(0, o.bytes_read as int)
                &&& p0.is_prefix_of(p1)
                &&& final(out)@.subrange(0, o.bytes_written as int) + final(self).spec_pending() == old(
                    self,
                ).spec_pending() + p1.subrange(p0.len() as int, p1.len() as int)
            }),
            !old(self).spec_draining() && (old(self).spec_pending().len() == 0 || old(out)@.len() == 0)
                ==> ({
                let w = zstd_writes(old(self).spec_calls(), in_buf@, old(self).spec_pending());
                &&& (!w.0 ==> (r matches Err(e) && e matches Error::Decompression { msg, .. } && msg@
                    == w.2))
                &&& (w.0 && has_more_input is Yes ==> (r matches Ok(o) && o.bytes_read == w.1 && copies_pending(
                    w.3,
                    final(self).spec_pending(),
                    old(out)@,
                    final(out)@,
                    o.bytes_written as int,
                ) && final(self).spec_calls() == w.4))
                &&& (w.0 && has_more_input is No ==> ({
                    let f = zstd_flush_step(w.4);
                    &&& (!f.0 ==> (r matches Err(e) && e matches Error::Decompression { msg, .. } && msg@
                        == f.1))
                    &&& (f.0 ==> (r matches Ok(o) && o.bytes_read == w.1 && copies_pending(
                        w.3 + f.2,
                        final(self).spec_pending(),
                        old(out)@,
                        final(out)@,
                        o.bytes_written as int,
                    ) && final(self).spec_draining()))
                }))
            }),
    {
        let mut outcome = DecompressOutcome { bytes_read: 0, bytes_written: 0 };
        let mut rest: &[u8] = in_buf;
        let total = in_buf.len();
        let out_len = out.len();
        let ghost p0 = self.pending.spec_bytes();
        let ghost out0 = out@;
        let ghost mut produced = Seq::<u8>::empty();
        let ghost mut first = true;
        let ghost w0 = zstd_writes(old(self).spec_calls(), in_buf@, p0);
        let ghost len = in_buf@.len();
        proof {
            assert(old(self).spec_produced() + produced =~= old(self).spec_produced());
            assert(old(self).spec_fed() + in_buf@.subrange(0, 0) =~= old(self).spec_fed());
        }
        let ghost mut last_fed = Seq::<u8>::empty();
        let ghost mut last_produced = Seq::<u8>::empty();
        loop
            invariant
                w0 == zstd_writes(old(self).spec_calls(), in_buf@, p0),
                len == in_buf@.len(),
                rest@ == in_buf@.subrange(outcome.bytes_read as int, in_buf@.len() as int),
                first ==> self.spec_calls() == old(self).spec_calls(),
                !old(self).spec_draining() && (p0.len() == 0 || out0.len() == 0) ==> ({
                    let wc = zstd_writes(self.spec_calls(), rest@, self.spec_pending());
                    &&& w0.0 == wc.0
                    &&& w0.1 == outcome.bytes_read + wc.1
                    &&& w0.2 == wc.2
                    &&& w0.3 == wc.3
                    &&& w0.4 == wc.4
                }),
                total == in_buf@.len(),
                out_len == out@.len(),
                self.wf(),
                self.spec_draining() == old(self).spec_draining(),
                outcome.bytes_written == 0,
                outcome.bytes_read + rest@.len() == in_buf@.len(),
                out@.len() == old(out)@.len(),
                p0 == old(self).spec_pending(),
                out0 == old(out)@,
                out@ == out0,
                self.spec_pending() == p0 + produced,
                old(self).spec_draining() ==> produced.len() == 0,
                first ==> produced.len() == 0 && outcome.bytes_read == 0,
                old(self).spec_draining() ==> first,
                p0.len() > 0 && out0.len() > 0 ==> first,
                !first ==> self.spec_pending().len() == 0,
                self.spec_produced() == old(self).spec_produced() + produced,
                self.spec_fed() == old(self).spec_fed() + in_buf@.subrange(0, outcome.bytes_read as int),
            decreases rest@.len(),
        {
            let ghost before = self.pending.spec_bytes();
            proof {
                if produced.len() == 0 {
                    assert(p0 + produced =~= p0);
                }
            }
            self.pending.copy_to_out(out, &mut outcome);
            proof {
                lemma_copies_pending(before, self.spec_pending(), out0, out@, outcome.bytes_written as int);
            }
            if outcome.bytes_written > 0 {
                proof {
                    lemma_continues(p0, out@.subrange(0, outcome.bytes_written as int), self.spec_pending(), produced);
                    lemma_grown(old(self).spec_produced(), produced);
                }
                return Ok(outcome);
            }
            let ghost was_first = first;
            proof {
                first = false;
                if was_first {
                    assert(rest@ =~= in_buf@);
                }
            }
            let ghost read0 = outcome.bytes_read as int;
            let mut drain = false;
            match &mut self.state {
                ZstdState::Writing(stream) => {
                    let n = match zstd_write(stream, rest) {
                        Ok(n) => n,
                        Err(msg) => {
                            return Err(Error::Decompression { method: Method::Zstd, msg });
                        },
                    };
                    outcome.bytes_read = outcome.bytes_read + n;
                    let given = rest.len();
                    rest = slice_subrange(rest, n, rest.len());
                    let more = zstd_take_output(stream);
                    self.pending.append(more);
                    proof {
                        assert(old(self).spec_produced() + (produced + more@) =~= old(self).spec_produced()
                            + produced + more@);
                        produced = produced + more@;
                        assert(self.pending.spec_bytes() =~= p0 + produced);
                        assert(in_buf@.subrange(0, read0) + in_buf@.subrange(read0, len as int).subrange(0, n as int)
                            =~= in_buf@.subrange(0, outcome.bytes_read as int));
                    }
                    // if we haven't written all the input, and we haven't gotten
                    // any output, then we need to keep going
                    if n != 0 && n < given && self.pending.is_empty() {
                        continue;
                    }
                    match has_more_input {
                        HasMoreInput::Yes => {
                            // keep going
                        },
                        HasMoreInput::No => {
                            proof {
                                if !old(self).spec_draining() && (p0.len() == 0 || out0.len() == 0) {
                                    assert(zstd_calls(**stream) == w0.4);
                                    assert(self.pending.spec_bytes() == w0.3);
                                    assert(outcome.bytes_read == w0.1);
                                }
                            }
                            match zstd_flush(stream) {
                                Ok(()) => {},
                                Err(msg) => {
                                    return Err(Error::Decompression { method: Method::Zstd, msg });
                                },
                            }
                            let last = zstd_take_output(stream);
                            proof {
                                assert(last@ =~= Seq::<u8>::empty() + last@);
                                last_fed = zstd_fed(**stream);
                                last_produced = zstd_produced(**stream);
                            }
                            self.pending.append(last);
                            proof {
                                assert(old(self).spec_produced() + (produced + last@) =~= old(self).spec_produced()
                                    + produced + last@);
                                produced = produced + last@;
                                assert(self.pending.spec_bytes() =~= p0 + produced);
                            }
                            drain = true;
                        },
                    }
                },
                ZstdState::Draining => {
                    // keep going
                },
            }
            if drain {
                self.state = ZstdState::Draining;
                self.last = Ghost((last_fed, last_produced));
            }
            let ghost before2 = self.pending.spec_bytes();
            proof {
                if produced.len() == 0 {
                    assert(p0 + produced =~= p0);
                }
            }
            self.pending.copy_to_out(out, &mut outcome);
            proof {
                lemma_copies_pending(before2, self.spec_pending(), out0, out@, outcome.bytes_written as int);
                lemma_continues(p0, out@.subrange(0, outcome.bytes_written as int), self.spec_pending(), produced);
                lemma_grown(old(self).spec_produced(), produced);
            }
            return Ok(outcome);
        }
    }
}

} // verus!
