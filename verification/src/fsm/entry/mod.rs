//! The state machine that reads one entry: its local header, its data
//! (decompressed while the CRC-32 of the output is computed), its data
//! descriptor, and then checks the size and checksum of what came out.
use vstd::prelude::*;

pub mod bzip2_dec;
pub mod deflate64_dec;
pub mod deflate_dec;
pub mod drain;
pub mod lzma_dec;
pub mod store_dec;
pub mod zstd_dec;

use super::buffer::ReadBuffer;
use super::FsmResult;
use crate::error::{Error, FormatError, UnsupportedError};
use crate::parse::{DataDescriptorRecord, LocalFileHeaderRecord, Method, ParseError};
use crate::parse::local::local_header_sig;
use crate::parse::sig_conflict;
use vstd::slice::slice_subrange;
use vstd::string::StringExecFns;

verus! {

/// `crc32fast::Hasher`, an in-progress CRC-32 computation.
#[verifier::external_type_specification]
#[verifier::external_body]
pub struct ExHasher(crc32fast::Hasher);

/// The bytes a CRC-32 hasher was given so far, in order.
pub uninterp spec fn hasher_fed(h: crc32fast::Hasher) -> Seq<u8>;

/// The CRC-32 register `crc` after `k` bits were shifted out of it: each
/// shift folds in the reversed IEEE polynomial when the bit shifted out was
/// set.
pub open spec fn crc32_shift(crc: u32, k: nat) -> u32
    decreases k,
{
    if k == 0 {
        crc
    } else {
        let c = crc32_shift(crc, (k - 1) as nat);
        if c & 1 == 1 {
            (c >> 1u32) ^ 0xEDB8_8320u32
        } else {
            c >> 1u32
        }
    }
}

/// The CRC-32 register `crc` after the bytes `bytes`, one after another.
pub open spec fn crc32_register(crc: u32, bytes: Seq<u8>) -> u32
    decreases bytes.len(),
{
    if bytes.len() == 0 {
        crc
    } else {
        crc32_register(crc32_shift(crc ^ (bytes[0] as u32), 8), bytes.subrange(1, bytes.len() as int))
    }
}

/// The CRC-32 (IEEE) checksum of `bytes`: the register starts with every
/// bit set, and ends inverted.
pub open spec fn crc32_of(bytes: Seq<u8>) -> u32 {
    crc32_register(0xFFFF_FFFFu32, bytes) ^ 0xFFFF_FFFFu32
}

/// Calls `crc32fast::Hasher::new`: a computation over no bytes yet.
#[verifier::external_body]
fn hasher_new() -> (h: crc32fast::Hasher)
    ensures
        hasher_fed(h) == Seq::<u8>::empty(),
{
    crc32fast::Hasher::new()
}

/// Calls `crc32fast::Hasher::update`, which goes on with `buf`.
#[verifier::external_body]
fn hasher_update(h: &mut crc32fast::Hasher, buf: &[u8])
    ensures
        hasher_fed(*final(h)) == hasher_fed(*old(h)) + buf@,
{
    h.update(buf)
}

/// Calls `crc32fast::Hasher::finalize`: the CRC-32 of all bytes given.
#[verifier::external_body]
fn hasher_finalize(h: crc32fast::Hasher) -> (r: u32)
    ensures
        r == crc32_of(hasher_fed(h)),
{
    h.finalize()
}

/// What the central directory says of the entry being read.
#[derive(Debug, Clone, Copy, PartialEq, Eq, Structural)]
pub struct StoredEntryInner {
    /// CRC-32 hash as found in the central directory.
    pub crc32: u32,
    /// Size in bytes, after compression
    pub compressed_size: u64,
    /// Size in bytes, before compression
    pub uncompressed_size: u64,
    /// True if this entry was read from a zip64 archive
    pub is_zip64: bool,
}

/// Size we've decompressed + crc32 hash we've computed
#[derive(Debug, Clone, Copy, PartialEq, Eq, Structural)]
pub struct EntryReadMetrics {
    /// how many bytes came out of the decompressor
    pub uncompressed_size: u64,
    /// the CRC-32 of those bytes
    pub crc32: u32,
}

/// How many bytes were read from input and written to output.
#[derive(Debug, Clone, Copy, PartialEq, Eq, Structural)]
pub struct DecompressOutcome {
    /// Number of bytes read from input
    pub bytes_read: usize,
    /// Number of bytes written to output
    pub bytes_written: usize,
}

impl Default for DecompressOutcome {
    fn default() -> (r: Self)
        ensures
            r.bytes_read == 0 && r.bytes_written == 0,
    {
        DecompressOutcome { bytes_read: 0, bytes_written: 0 }
    }
}

/// Whether more compressed input follows what is handed to the decompressor.
#[derive(Debug, Clone, Copy, PartialEq, Eq, Structural)]
pub enum HasMoreInput {
    /// more input follows
    Yes,
    /// this is the end of the input
    No,
}

/// The decompressor of an entry, by method.
pub enum AnyDecompressor {
    /// stored data
    Store(store_dec::StoreDec),
    /// DEFLATE
    Deflate(Box<deflate_dec::DeflateDec>),
    /// DEFLATE64
    Deflate64(Box<deflate64_dec::Deflate64Dec>),
    /// BZIP2
    Bzip2(bzip2_dec::Bzip2Dec),
    /// LZMA
    Lzma(Box<lzma_dec::LzmaDec>),
    /// zstd
    Zstd(zstd_dec::ZstdDec),
}

/// Whether entries compressed with `method` can be read.
pub open spec fn method_supported(method: Method) -> bool {
    ||| method is Store
    ||| method is Deflate
    ||| method is Deflate64
    ||| method is Bzip2
    ||| method is Lzma
    ||| method is Zstd
}

/// The decompressed data that the compressed bytes `compressed` of an entry
/// stored with `method` determine (for LZMA, with a stream made for an entry
/// of `uncompressed_size` bytes, when known): stored bytes are themselves;
/// otherwise, the decompression of the stream they start, as far as they go.
pub open spec fn spec_decoded(method: Method, uncompressed_size: Option<u64>, compressed: Seq<u8>) -> Seq<u8> {
    match method {
        Method::Store => compressed,
        Method::Deflate => deflate_dec::deflate_decoded(compressed),
        Method::Deflate64 => deflate64_dec::deflate64_decoded(compressed),
        Method::Bzip2 => bzip2_dec::bzip2_decoded(compressed),
        Method::Lzma => lzma_dec::lzma_decoded((uncompressed_size, lzma_dec::LZMA_MEMLIMIT, false), compressed),
        Method::Zstd => zstd_dec::zstd_decoded(compressed),
        _ => Seq::<u8>::empty(),
    }
}

/// `a` starts `c` when it starts `b`, which starts `c`.
proof fn lemma_prefix_trans(a: Seq<u8>, b: Seq<u8>, c: Seq<u8>)
    requires
        a.is_prefix_of(b),
        b.is_prefix_of(c),
    ensures
        a.is_prefix_of(c),
{
    assert(a =~= c.subrange(0, a.len() as int));
}

/// `a` starts `a + x`.
proof fn lemma_prefix_concat(a: Seq<u8>, x: Seq<u8>)
    ensures
        a.is_prefix_of(a + x),
{
    assert(a =~= (a + x).subrange(0, a.len() as int));
}

/// Reading `a + b` bytes of a ring buffer from `p` reads `a` bytes, then
/// `b` bytes from where those end.
proof fn lemma_ring_split(r: Seq<u8>, p: int, a: int, b: int)
    requires
        r.len() == deflate_dec::INTERNAL_BUFFER_LENGTH,
        0 <= p,
        0 <= a,
        0 <= b,
    ensures
        deflate_dec::ring_read(r, p, a + b) == deflate_dec::ring_read(r, p, a) + deflate_dec::ring_read(
            r,
            (p + a) % (deflate_dec::INTERNAL_BUFFER_LENGTH as int),
            b,
        ),
{
    let l = deflate_dec::INTERNAL_BUFFER_LENGTH as int;
    let lhs = deflate_dec::ring_read(r, p, a + b);
    let rhs = deflate_dec::ring_read(r, p, a) + deflate_dec::ring_read(r, (p + a) % l, b);
    assert forall|j: int| 0 <= j < a + b implies lhs[j] == rhs[j] by {
        if j >= a {
            assert(((p + a) % l + (j - a)) % l == (p + j) % l) by (nonlinear_arith)
                requires
                    l == 65536,
                    0 <= p,
                    0 <= a,
                    a <= j,
            {
                vstd::arithmetic::div_mod::lemma_add_mod_noop(p + a, j - a, l);
                vstd::arithmetic::div_mod::lemma_mod_twice(j - a, l);
                vstd::arithmetic::div_mod::lemma_add_mod_noop(p + a, j - a, l);
            }
        }
    }
    assert(lhs =~= rhs);
}

impl AnyDecompressor {
    /// Whether the decompressor is one just made for `method` (for LZMA, for
    /// an entry of `uncompressed_size` bytes, when known): its decoder was
    /// handed nothing and holds nothing back.
    pub open spec fn spec_fresh(&self, method: Method, uncompressed_size: Option<u64>) -> bool {
        &&& self.spec_method() == method
        &&& match self {
            AnyDecompressor::Store(_) => true,
            AnyDecompressor::Deflate(d) => {
                &&& d.spec_calls() == Seq::<(Seq<u8>, Seq<u8>, int, u32)>::empty()
                &&& d.spec_remain() == 0
                &&& d.spec_out_pos() == 0
                &&& d.spec_ring() == Seq::new(deflate_dec::INTERNAL_BUFFER_LENGTH as nat, |i: int| 0u8)
            },
            AnyDecompressor::Deflate64(d) => d.spec_calls() == Seq::<(Seq<u8>, nat)>::empty(),
            AnyDecompressor::Bzip2(d) => {
                &&& !d.spec_eof()
                &&& d.spec_totals() == (0u64, 0u64)
                &&& d.spec_calls() == Seq::<(Seq<u8>, nat)>::empty()
            },
            AnyDecompressor::Lzma(d) => {
                &&& !d.spec_draining()
                &&& d.spec_opts() == (uncompressed_size, lzma_dec::LZMA_MEMLIMIT, false)
                &&& d.spec_inputs() == Seq::<Seq<u8>>::empty()
                &&& d.spec_pending() == Seq::<u8>::empty()
            },
            AnyDecompressor::Zstd(d) => {
                &&& !d.spec_draining()
                &&& d.spec_calls() == Seq::<Option<Seq<u8>>>::empty()
                &&& d.spec_pending() == Seq::<u8>::empty()
            },
        }
    }

    /// Whether the decompressor is in step with the compressed bytes `fed`
    /// it consumed and the bytes `handed` it handed out (for LZMA, being made
    /// for an entry of `uncompressed_size` bytes, when known): what it
    /// handed out, then what it holds back, is all its decoder produced from
    /// `fed`, which starts the decompression of `fed`. (An LZMA stream that
    /// is over was not handed the trailer eaten after it: it decoded the
    /// start of `fed`.)
    pub open spec fn spec_tracks(&self, uncompressed_size: Option<u64>, fed: Seq<u8>, handed: Seq<u8>) -> bool {
        match self {
            AnyDecompressor::Store(_) => handed == fed,
            AnyDecompressor::Deflate(d) => {
                &&& d.spec_fed() == fed
                &&& d.spec_remain() <= deflate_dec::INTERNAL_BUFFER_LENGTH
                &&& handed + deflate_dec::ring_read(d.spec_ring(), d.spec_out_pos(), d.spec_remain() as int)
                    == d.spec_inflated()
                &&& d.spec_inflated().is_prefix_of(deflate_dec::deflate_decoded(fed))
            },
            AnyDecompressor::Deflate64(d) => {
                &&& d.spec_fed() == fed
                &&& d.spec_written() == handed
                &&& handed.is_prefix_of(deflate64_dec::deflate64_decoded(fed))
            },
            AnyDecompressor::Bzip2(d) => {
                &&& d.spec_fed() == fed
                &&& d.spec_written() == handed
                &&& handed.is_prefix_of(bzip2_dec::bzip2_decoded(fed))
                &&& fed.len() <= u64::MAX
                &&& handed.len() <= u64::MAX
                &&& d.spec_totals() == (fed.len() as u64, handed.len() as u64)
            },
            AnyDecompressor::Lzma(d) => {
                &&& d.spec_opts() == (uncompressed_size, lzma_dec::LZMA_MEMLIMIT, false)
                &&& d.spec_fed().is_prefix_of(fed)
                &&& (!d.spec_draining() ==> d.spec_fed() == fed)
                &&& handed + d.spec_pending() == d.spec_produced()
                &&& d.spec_produced().is_prefix_of(lzma_dec::lzma_decoded(d.spec_opts(), d.spec_fed()))
            },
            AnyDecompressor::Zstd(d) => {
                &&& d.spec_fed() == fed
                &&& handed + d.spec_pending() == d.spec_produced()
                &&& d.spec_produced().is_prefix_of(zstd_dec::zstd_decoded(fed))
            },
        }
    }

    /// A decompressor in step with `fed` and `handed` handed out the start
    /// of the decompression of `fed` (for LZMA, of its start that the
    /// stream took).
    pub proof fn lemma_tracks_decoded(&self, uncompressed_size: Option<u64>, fed: Seq<u8>, handed: Seq<u8>)
        requires
            self.spec_tracks(uncompressed_size, fed, handed),
        ensures
            !(self.spec_method() is Lzma) ==> handed.is_prefix_of(
                spec_decoded(self.spec_method(), uncompressed_size, fed),
            ),
            exists|c: Seq<u8>|
                c.is_prefix_of(fed) && #[trigger] handed.is_prefix_of(
                    spec_decoded(self.spec_method(), uncompressed_size, c),
                ),
    {
        match self {
            AnyDecompressor::Store(_) => {
                assert(handed =~= fed.subrange(0, handed.len() as int));
            },
            AnyDecompressor::Deflate(d) => {
                lemma_prefix_concat(handed, deflate_dec::ring_read(d.spec_ring(), d.spec_out_pos(), d.spec_remain() as int));
                lemma_prefix_trans(handed, d.spec_inflated(), deflate_dec::deflate_decoded(fed));
            },
            AnyDecompressor::Lzma(d) => {
                lemma_prefix_concat(handed, d.spec_pending());
                lemma_prefix_trans(handed, d.spec_produced(), lzma_dec::lzma_decoded(d.spec_opts(), d.spec_fed()));
                assert(d.spec_fed().is_prefix_of(fed) && handed.is_prefix_of(
                    spec_decoded(self.spec_method(), uncompressed_size, d.spec_fed()),
                ));
            },
            AnyDecompressor::Zstd(d) => {
                lemma_prefix_concat(handed, d.spec_pending());
                lemma_prefix_trans(handed, d.spec_produced(), zstd_dec::zstd_decoded(fed));
            },
            _ => {},
        }
        assert(fed =~= fed.subrange(0, fed.len() as int));
        if !(self.spec_method() is Lzma) {
            assert(fed.is_prefix_of(fed) && handed.is_prefix_of(
                spec_decoded(self.spec_method(), uncompressed_size, fed),
            ));
        }
    }

    /// The invariant of the decompressor.
    pub open spec fn wf(&self) -> bool {
        match self {
            AnyDecompressor::Deflate(d) => d.wf(),
            AnyDecompressor::Lzma(d) => d.wf(),
            AnyDecompressor::Zstd(d) => d.wf(),
            _ => true,
        }
    }

    /// The method the decompressor decodes.
    pub open spec fn spec_method(&self) -> Method {
        match self {
            AnyDecompressor::Store(_) => Method::Store,
            AnyDecompressor::Deflate(_) => Method::Deflate,
            AnyDecompressor::Deflate64(_) => Method::Deflate64,
            AnyDecompressor::Bzip2(_) => Method::Bzip2,
            AnyDecompressor::Lzma(_) => Method::Lzma,
            AnyDecompressor::Zstd(_) => Method::Zstd,
        }
    }

    /// Whether the decompressor holds output it produced and did not hand
    /// out yet.
    pub open spec fn spec_has_pending(&self) -> bool {
        match self {
            AnyDecompressor::Deflate(d) => d.spec_remain() > 0,
            AnyDecompressor::Lzma(d) => d.spec_pending().len() > 0,
            AnyDecompressor::Zstd(d) => d.spec_pending().len() > 0,
            _ => false,
        }
    }

    /// Whether the decompressor is past the end of its stream, so that it
    /// reads nothing more.
    pub open spec fn spec_finished(&self) -> bool {
        match self {
            AnyDecompressor::Bzip2(d) => d.spec_eof(),
            AnyDecompressor::Lzma(d) => d.spec_draining(),
            AnyDecompressor::Zstd(d) => d.spec_draining(),
            _ => false,
        }
    }

    /// Whether decompressing `input` with room for `room` bytes succeeds, as
    /// far as what was handed to the outside decoders shows it: output held
    /// back is handed out; a stream past its end reads nothing; otherwise the
    /// decoder's named step succeeds (for LZMA and zstd, each write, while
    /// the rest of the input is handed over again; at the end of the input,
    /// for LZMA, what is left is a trailer or nothing and the stream
    /// finishes, and for zstd, the decoder is flushed).
    pub open spec fn spec_succeeds(&self, input: Seq<u8>, room: nat, hm: HasMoreInput) -> bool {
        match self {
            AnyDecompressor::Store(_) => true,
            AnyDecompressor::Deflate(d) => (d.spec_remain() > 0 && room > 0) || ((d.spec_remain() == 0
                || room == 0) && deflate_dec::status_ok(
                deflate_dec::oxide_step(
                    d.spec_calls(),
                    input,
                    d.spec_ring(),
                    d.spec_out_pos(),
                    deflate_dec::spec_inflate_flags(hm),
                ).0,
            )),
            AnyDecompressor::Deflate64(d) => !deflate64_dec::inflater_step(d.spec_calls(), input, room).2,
            AnyDecompressor::Bzip2(d) => d.spec_eof() || ({
                let st = bzip2_dec::bz_step(d.spec_calls(), input, room);
                &&& st.0
                &&& d.spec_totals().0 + st.3 <= u64::MAX
                &&& d.spec_totals().1 + st.4.len() <= u64::MAX
            }),
            AnyDecompressor::Lzma(d) => d.spec_draining() || (d.spec_pending().len() > 0 && room > 0) || ({
                let w = lzma_dec::lzma_writes(d.spec_opts(), d.spec_inputs(), input, d.spec_pending());
                &&& w.0
                &&& (hm is No ==> (input.len() - w.1 == 0 || input.len() - w.1 == lzma_dec::LZMA_TRAILER_LEN)
                    && lzma_dec::lzma_finish_step(d.spec_opts(), w.4).0)
            }),
            AnyDecompressor::Zstd(d) => d.spec_draining() || (d.spec_pending().len() > 0 && room > 0) || ({
                let w = zstd_dec::zstd_writes(d.spec_calls(), input, d.spec_pending());
                &&& w.0
                &&& (hm is No ==> zstd_dec::zstd_flush_step(w.4).0)
            }),
        }
    }

    /// Whether decompressing `input` with room for `room` bytes fails, as far
    /// as what was handed to the outside decoders shows it: the decoder's
    /// named step reports an error.
    pub open spec fn spec_fails(&self, input: Seq<u8>, room: nat, hm: HasMoreInput) -> bool {
        match self {
            AnyDecompressor::Store(_) => false,
            AnyDecompressor::Deflate(d) => (d.spec_remain() == 0 || room == 0) && !deflate_dec::status_ok(
                deflate_dec::oxide_step(
                    d.spec_calls(),
                    input,
                    d.spec_ring(),
                    d.spec_out_pos(),
                    deflate_dec::spec_inflate_flags(hm),
                ).0,
            ),
            AnyDecompressor::Deflate64(d) => deflate64_dec::inflater_step(d.spec_calls(), input, room).2,
            AnyDecompressor::Bzip2(d) => !d.spec_eof() && !bzip2_dec::bz_step(d.spec_calls(), input, room).0,
            AnyDecompressor::Lzma(d) => !d.spec_draining() && (d.spec_pending().len() == 0 || room == 0) && ({
                let w = lzma_dec::lzma_writes(d.spec_opts(), d.spec_inputs(), input, d.spec_pending());
                ||| !w.0
                ||| (hm is No && !((input.len() - w.1 == 0 || input.len() - w.1 == lzma_dec::LZMA_TRAILER_LEN)
                    && lzma_dec::lzma_finish_step(d.spec_opts(), w.4).0))
            }),
            AnyDecompressor::Zstd(d) => !d.spec_draining() && (d.spec_pending().len() == 0 || room == 0) && ({
                let w = zstd_dec::zstd_writes(d.spec_calls(), input, d.spec_pending());
                ||| !w.0
                ||| (hm is No && !zstd_dec::zstd_flush_step(w.4).0)
            }),
        }
    }

    /// The decompressor for `method`, or the error that it is not supported
    /// (or, for zstd, that its decoder could not be made).
    pub fn new(method: Method, uncompressed_size: Option<u64>) -> (r: Result<Self, Error>)
        ensures
            r is Ok ==> method_supported(method) && r->Ok_0.wf(),
            !method_supported(method) ==> r == Err::<Self, Error>(
                Error::Unsupported(UnsupportedError::MethodNotSupported(method)),
            ),
            method_supported(method) && !(method is Zstd) ==> r is Ok,
            method is Zstd ==> (r matches Err(e) ==> e matches Error::Decompression { method: m, .. } && m is Zstd),
            r matches Ok(d) ==> d.spec_method() == method && !d.spec_has_pending() && !d.spec_finished(),
            r matches Ok(d) ==> d.spec_tracks(uncompressed_size, Seq::<u8>::empty(), Seq::<u8>::empty()),
            r matches Ok(d) ==> d.spec_fresh(method, uncompressed_size),
    {
        proof {
            assert(Seq::<u8>::empty().is_prefix_of(deflate_dec::deflate_decoded(Seq::<u8>::empty())));
            assert(Seq::<u8>::empty().is_prefix_of(deflate64_dec::deflate64_decoded(Seq::<u8>::empty())));
            assert(Seq::<u8>::empty().is_prefix_of(bzip2_dec::bzip2_decoded(Seq::<u8>::empty())));
            assert(Seq::<u8>::empty().is_prefix_of(zstd_dec::zstd_decoded(Seq::<u8>::empty())));
            assert(Seq::<u8>::empty().is_prefix_of(
                lzma_dec::lzma_decoded((uncompressed_size, lzma_dec::LZMA_MEMLIMIT, false), Seq::<u8>::empty()),
            ));
        }
        let r = match method {
            Method::Store => Ok(AnyDecompressor::Store(store_dec::StoreDec)),
            Method::Deflate => Ok(AnyDecompressor::Deflate(Box::new(deflate_dec::DeflateDec::new()))),
            Method::Deflate64 => Ok(AnyDecompressor::Deflate64(Box::new(deflate64_dec::Deflate64Dec::new()))),
            Method::Bzip2 => Ok(AnyDecompressor::Bzip2(bzip2_dec::Bzip2Dec::new())),
            Method::Lzma => Ok(AnyDecompressor::Lzma(Box::new(lzma_dec::LzmaDec::new(uncompressed_size)))),
            Method::Zstd => match zstd_dec::ZstdDec::new() {
                Ok(d) => Ok(AnyDecompressor::Zstd(d)),
                Err(e) => Err(e),
            },
            _ => Err(Error::Unsupported(UnsupportedError::MethodNotSupported(method))),
        };
        proof {
            match &r {
                Ok(AnyDecompressor::Deflate(d)) => {
                    assert(Seq::<u8>::empty() + deflate_dec::ring_read(d.spec_ring(), d.spec_out_pos(), 0)
                        =~= Seq::<u8>::empty());
                },
                Ok(AnyDecompressor::Lzma(d)) => {
                    d.lemma_opts();
                    assert(Seq::<u8>::empty() + d.spec_pending() =~= Seq::<u8>::empty());
                },
                Ok(AnyDecompressor::Zstd(d)) => {
                    assert(Seq::<u8>::empty() + d.spec_pending() =~= Seq::<u8>::empty());
                },
                _ => {},
            }
        }
        r
    }

    /// Decompresses some of `in_buf` into `out`, with the decompressor of
    /// the entry's method: stored data is copied as it is; output held back
    /// is handed out first, reading nothing; a stream past its end reads
    /// nothing; errors are those of the method.
    ///
    /// A decompressor in step with what it consumed and handed out stays in
    /// step with what it consumes and writes now, unless it is handed no
    /// room while holding output back (it then decodes over what it holds),
    /// or the counts would pass `u64::MAX`.
    #[verifier::rlimit(80)]
    #[verifier::spinoff_prover]
    pub fn decompress(&mut self, in_buf: &[u8], out: &mut [u8], has_more_input: HasMoreInput) -> (r:
        Result<DecompressOutcome, Error>)
        requires
            old(self).wf(),
        ensures
            r is Ok ==> final(self).wf(),
            final(out)@.len() == old(out)@.len(),
            final(self).spec_method() == old(self).spec_method(),
            old(self).spec_finished() ==> final(self).spec_finished(),
            r matches Ok(o) ==> o.bytes_read <= in_buf@.len() && o.bytes_written <= old(out)@.len(),
            r matches Err(e) ==> e matches Error::Decompression { method, .. } && method == old(
                self,
            ).spec_method(),
            old(self).spec_method() is Store ==> (r matches Ok(o) && o.bytes_read == o.bytes_written && o.bytes_read == (
            if in_buf@.len() <= old(out)@.len() {
                in_buf@.len()
            } else {
                old(out)@.len()
            }) && final(out)@ == in_buf@.subrange(0, o.bytes_read as int) + old(out)@.subrange(
                o.bytes_read as int,
                old(out)@.len() as int,
            )),
            old(self).spec_has_pending() && old(out)@.len() > 0 ==> (r matches Ok(o) && o.bytes_read == 0
                && o.bytes_written > 0),
            old(self).spec_finished() ==> (r matches Ok(o) && o.bytes_read == 0),
            old(self).spec_succeeds(in_buf@, old(out)@.len(), has_more_input) ==> r is Ok,
            old(self).spec_fails(in_buf@, old(out)@.len(), has_more_input) ==> r is Err,
            *old(self) matches AnyDecompressor::Deflate(d) ==> ((d.spec_remain() == 0 || old(out)@.len() == 0)
                ==> (r is Ok <==> deflate_dec::status_ok(
                deflate_dec::oxide_step(
                    d.spec_calls(),
                    in_buf@,
                    d.spec_ring(),
                    d.spec_out_pos(),
                    deflate_dec::spec_inflate_flags(has_more_input),
                ).0,
            ))),
            *old(self) matches AnyDecompressor::Deflate64(d) ==> (r is Ok <==> !deflate64_dec::inflater_step(
                d.spec_calls(),
                in_buf@,
                old(out)@.len(),
            ).2),
            *old(self) matches AnyDecompressor::Bzip2(d) ==> (!d.spec_eof() && d.spec_totals().0
                + bzip2_dec::bz_step(d.spec_calls(), in_buf@, old(out)@.len()).3 <= u64::MAX
                && d.spec_totals().1 + bzip2_dec::bz_step(d.spec_calls(), in_buf@, old(out)@.len()).4.len()
                <= u64::MAX ==> (r is Ok <==> bzip2_dec::bz_step(d.spec_calls(), in_buf@, old(out)@.len()).0)),
            *old(self) matches AnyDecompressor::Lzma(d) ==> (!d.spec_draining() && (d.spec_pending().len()
                == 0 || old(out)@.len() == 0) ==> ({
                let w = lzma_dec::lzma_writes(d.spec_opts(), d.spec_inputs(), in_buf@, d.spec_pending());
                let trailer_ok = in_buf@.len() - w.1 == 0 || in_buf@.len() - w.1 == lzma_dec::LZMA_TRAILER_LEN;
                &&& (!w.0 ==> r is Err)
                &&& (w.0 && has_more_input is Yes ==> (r matches Ok(o) && o.bytes_read == w.1))
                &&& (w.0 && has_more_input is No && !trailer_ok ==> r is Err)
                &&& (w.0 && has_more_input is No && trailer_ok ==> (r is Ok <==> lzma_dec::lzma_finish_step(
                    d.spec_opts(),
                    w.4,
                ).0))
                &&& (w.0 && has_more_input is No && trailer_ok && r is Ok ==> r->Ok_0.bytes_read == in_buf@.len())
            })),
            *old(self) matches AnyDecompressor::Zstd(d) ==> (!d.spec_draining() && (d.spec_pending().len()
                == 0 || old(out)@.len() == 0) ==> ({
                let w = zstd_dec::zstd_writes(d.spec_calls(), in_buf@, d.spec_pending());
                &&& (!w.0 ==> r is Err)
                &&& (w.0 && has_more_input is Yes ==> (r matches Ok(o) && o.bytes_read == w.1))
                &&& (w.0 && has_more_input is No ==> (r is Ok <==> zstd_dec::zstd_flush_step(w.4).0))
                &&& (w.0 && has_more_input is No && r is Ok ==> r->Ok_0.bytes_read == w.1)
            })),
            forall|size: Option<u64>, fed: Seq<u8>, handed: Seq<u8>|
                #[trigger] old(self).spec_tracks(size, fed, handed) && !(old(self).spec_has_pending()
                    && old(out)@.len() == 0) && fed.len() + in_buf@.len() <= u64::MAX && handed.len()
                    + old(out)@.len() <= u64::MAX ==> (r matches Ok(o) ==> final(self).spec_tracks(
                    size,
                    fed + in_buf@.subrange(0, o.bytes_read as int),
                    handed + final(out)@.subrange(0, o.bytes_written as int),
                )),
    {
        let ghost s0 = *self;
        let ghost out0 = out@;
        let r = match self {
            AnyDecompressor::Store(dec) => Ok(dec.decompress(in_buf, out)),
            AnyDecompressor::Deflate(dec) => dec.decompress(in_buf, out, has_more_input),
            AnyDecompressor::Deflate64(dec) => dec.decompress(in_buf, out),
            AnyDecompressor::Bzip2(dec) => dec.decompress(in_buf, out),
            AnyDecompressor::Lzma(dec) => dec.decompress(in_buf, out, has_more_input),
            AnyDecompressor::Zstd(dec) => dec.decompress(in_buf, out, has_more_input),
        };
        proof {
            let s1 = *self;
            let out1 = out@;
            assert forall|size: Option<u64>, fed: Seq<u8>, handed: Seq<u8>|
                #[trigger] s0.spec_tracks(size, fed, handed) && !(s0.spec_has_pending() && out0.len() == 0)
                    && fed.len() + in_buf@.len() <= u64::MAX && handed.len() + out0.len() <= u64::MAX && r is Ok
                    implies s1.spec_tracks(
                size,
                fed + in_buf@.subrange(0, r->Ok_0.bytes_read as int),
                handed + out1.subrange(0, r->Ok_0.bytes_written as int),
            ) by {
                let o = r->Ok_0;
                let fed1 = fed + in_buf@.subrange(0, o.bytes_read as int);
                let handed1 = handed + out1.subrange(0, o.bytes_written as int);
                match (s0, s1) {
                    (AnyDecompressor::Store(_), AnyDecompressor::Store(_)) => {
                        assert(out1.subrange(0, o.bytes_written as int) =~= in_buf@.subrange(0, o.bytes_read as int));
                    },
                    (AnyDecompressor::Deflate(d0), AnyDecompressor::Deflate(d1)) => {
                        d0.lemma_ring();
                        d1.lemma_ring();
                        let w = o.bytes_written as int;
                        let l = deflate_dec::INTERNAL_BUFFER_LENGTH as int;
                        if d0.spec_remain() > 0 && out0.len() > 0 {
                            lemma_ring_split(d0.spec_ring(), d0.spec_out_pos(), w, d0.spec_remain() - w);
                            assert(out1.subrange(0, w) =~= deflate_dec::ring_read(d0.spec_ring(), d0.spec_out_pos(), w));
                            assert(handed1 + deflate_dec::ring_read(d1.spec_ring(), d1.spec_out_pos(), d1.spec_remain() as int)
                                =~= handed + deflate_dec::ring_read(d0.spec_ring(), d0.spec_out_pos(), d0.spec_remain() as int));
                        } else {
                            let st = deflate_dec::oxide_step(
                                d0.spec_calls(),
                                in_buf@,
                                d0.spec_ring(),
                                d0.spec_out_pos(),
                                deflate_dec::spec_inflate_flags(has_more_input),
                            );
                            assert(d0.spec_remain() == 0);
                            assert(handed + deflate_dec::ring_read(d0.spec_ring(), d0.spec_out_pos(), 0) =~= handed);
                            lemma_ring_split(st.3, d0.spec_out_pos(), w, st.2 - w);
                            assert(out1.subrange(0, w) =~= deflate_dec::ring_read(st.3, d0.spec_out_pos(), w));
                            assert(handed1 + deflate_dec::ring_read(d1.spec_ring(), d1.spec_out_pos(), d1.spec_remain() as int)
                                =~= handed + deflate_dec::ring_read(st.3, d0.spec_out_pos(), st.2 as int));
                        }
                    },
                    (AnyDecompressor::Deflate64(d0), AnyDecompressor::Deflate64(d1)) => {},
                    (AnyDecompressor::Bzip2(d0), AnyDecompressor::Bzip2(d1)) => {
                        if d0.spec_eof() {
                            assert(fed1 =~= fed);
                            assert(handed1 =~= handed);
                        } else {
                            let st = bzip2_dec::bz_step(d0.spec_calls(), in_buf@, out0.len());
                            assert(out1.subrange(0, o.bytes_written as int) =~= st.4);
                        }
                    },
                    (AnyDecompressor::Lzma(d0), AnyDecompressor::Lzma(d1)) => {
                        let taken = d0.spec_fed() + in_buf@.subrange(0, o.bytes_read as int);
                        if d0.spec_draining() {
                            assert(taken =~= d0.spec_fed());
                            assert(fed1 =~= fed);
                            lemma_prefix_trans(d1.spec_fed(), d0.spec_fed(), fed);
                        }
                        let p0 = d0.spec_produced();
                        let p1 = d1.spec_produced();
                        assert(p1 =~= p0 + p1.subrange(p0.len() as int, p1.len() as int));
                        assert(handed1 + d1.spec_pending() =~= handed + (out1.subrange(0, o.bytes_written as int)
                            + d1.spec_pending()));
                        assert(handed + (d0.spec_pending() + p1.subrange(p0.len() as int, p1.len() as int)) =~= (
                        handed + d0.spec_pending()) + p1.subrange(p0.len() as int, p1.len() as int));
                    },
                    (AnyDecompressor::Zstd(d0), AnyDecompressor::Zstd(d1)) => {
                        let p0 = d0.spec_produced();
                        let p1 = d1.spec_produced();
                        assert(p1 =~= p0 + p1.subrange(p0.len() as int, p1.len() as int));
                        assert(handed1 + d1.spec_pending() =~= handed + (out1.subrange(0, o.bytes_written as int)
                            + d1.spec_pending()));
                        assert(handed + (d0.spec_pending() + p1.subrange(p0.len() as int, p1.len() as int)) =~= (
                        handed + d0.spec_pending()) + p1.subrange(p0.len() as int, p1.len() as int));
                    },
                    _ => {},
                }
            }
        }
        r
    }
}

/// The checksum the entry must have: the central directory's when not zero,
/// else the data descriptor's when there is one, else the local header's.
pub open spec fn spec_expected_crc32(
    entry: Option<StoredEntryInner>,
    header: LocalFileHeaderRecord,
    descriptor: Option<DataDescriptorRecord>,
) -> u32 {
    let entry_crc32 = match entry {
        Some(e) => e.crc32,
        None => 0,
    };
    if entry_crc32 != 0 {
        entry_crc32
    } else {
        match descriptor {
            Some(d) => d.crc32,
            None => header.crc32,
        }
    }
}

/// The size the entry must have: the central directory's when not zero,
/// else the data descriptor's when there is one, else the local header's.
pub open spec fn spec_expected_size(
    entry: Option<StoredEntryInner>,
    header: LocalFileHeaderRecord,
    descriptor: Option<DataDescriptorRecord>,
) -> u64 {
    let entry_size = match entry {
        Some(e) => e.uncompressed_size,
        None => 0,
    };
    if entry_size != 0 {
        entry_size
    } else {
        match descriptor {
            Some(d) => d.uncompressed_size,
            None => header.uncompressed_size as u64,
        }
    }
}

/// The outcome of checking what was read against what was expected: the
/// size first, then the checksum, which is not checked when it is zero.
pub open spec fn spec_validate(
    entry: Option<StoredEntryInner>,
    header: LocalFileHeaderRecord,
    metrics: EntryReadMetrics,
    descriptor: Option<DataDescriptorRecord>,
) -> Result<(), Error> {
    let expected_size = spec_expected_size(entry, header, descriptor);
    let expected_crc32 = spec_expected_crc32(entry, header, descriptor);
    if expected_size != metrics.uncompressed_size {
        Err(
            Error::Format(
                FormatError::WrongSize { expected: expected_size, actual: metrics.uncompressed_size },
            ),
        )
    } else if expected_crc32 != 0 && expected_crc32 != metrics.crc32 {
        Err(
            Error::Format(
                FormatError::WrongChecksum { expected: expected_crc32, actual: metrics.crc32 },
            ),
        )
    } else {
        Ok(())
    }
}

/// Checks the size and checksum of what was read against those of the
/// central directory, data descriptor or local header.
pub fn validate(
    entry: Option<StoredEntryInner>,
    header: &LocalFileHeaderRecord,
    metrics: EntryReadMetrics,
    descriptor: Option<DataDescriptorRecord>,
) -> (r: Result<(), Error>)
    ensures
        r == spec_validate(entry, *header, metrics, descriptor),
{
    let entry_crc32 = match entry {
        Some(e) => e.crc32,
        None => 0,
    };
    let expected_crc32 = if entry_crc32 != 0 {
        entry_crc32
    } else {
        match descriptor {
            Some(d) => d.crc32,
            None => header.crc32,
        }
    };
    let entry_uncompressed_size = match entry {
        Some(e) => e.uncompressed_size,
        None => 0,
    };
    let expected_size = if entry_uncompressed_size != 0 {
        entry_uncompressed_size
    } else {
        match descriptor {
            Some(d) => d.uncompressed_size,
            None => header.uncompressed_size as u64,
        }
    };
    if expected_size != metrics.uncompressed_size {
        return Err(
            Error::Format(
                FormatError::WrongSize { expected: expected_size, actual: metrics.uncompressed_size },
            ),
        );
    }
    if expected_crc32 != 0 && expected_crc32 != metrics.crc32 {
        return Err(
            Error::Format(
                FormatError::WrongChecksum { expected: expected_crc32, actual: metrics.crc32 },
            ),
        );
    }
    Ok(())
}

/// A size that differs from the expected one is reported, whatever the
/// checksum: the size is checked first.
pub proof fn lemma_size_checked_first(
    entry: Option<StoredEntryInner>,
    header: LocalFileHeaderRecord,
    metrics: EntryReadMetrics,
    descriptor: Option<DataDescriptorRecord>,
)
    requires
        spec_expected_size(entry, header, descriptor) != metrics.uncompressed_size,
    ensures
        spec_validate(entry, header, metrics, descriptor) == Err::<(), Error>(
            Error::Format(
                FormatError::WrongSize {
                    expected: spec_expected_size(entry, header, descriptor),
                    actual: metrics.uncompressed_size,
                },
            ),
        ),
{
}

/// An expected checksum of zero is not checked: with the expected size,
/// whatever the checksum of what was read, the entry checks out.
pub proof fn lemma_zero_checksum_unchecked(
    entry: Option<StoredEntryInner>,
    header: LocalFileHeaderRecord,
    metrics: EntryReadMetrics,
    descriptor: Option<DataDescriptorRecord>,
)
    requires
        spec_expected_crc32(entry, header, descriptor) == 0,
        spec_expected_size(entry, header, descriptor) == metrics.uncompressed_size,
    ensures
        spec_validate(entry, header, metrics, descriptor) is Ok,
{
}

/// When the central directory gives a checksum and a size (not zero), the
/// local header and the data descriptor do not matter.
pub proof fn lemma_central_directory_prevails(
    entry: StoredEntryInner,
    h1: LocalFileHeaderRecord,
    h2: LocalFileHeaderRecord,
    d1: Option<DataDescriptorRecord>,
    d2: Option<DataDescriptorRecord>,
    metrics: EntryReadMetrics,
)
    requires
        entry.crc32 != 0,
        entry.uncompressed_size != 0,
    ensures
        spec_validate(Some(entry), h1, metrics, d1) == spec_validate(Some(entry), h2, metrics, d2),
{
}

/// Bytes with the expected size and checksum check out: a reader that hands
/// out exactly the entry's bytes finishes without error.
pub proof fn lemma_expected_output_checks_out(
    entry: Option<StoredEntryInner>,
    header: LocalFileHeaderRecord,
    descriptor: Option<DataDescriptorRecord>,
    output: Seq<u8>,
)
    requires
        sat_len(output) == spec_expected_size(entry, header, descriptor),
        crc32_of(output) == spec_expected_crc32(entry, header, descriptor),
    ensures
        spec_validate(entry, header, metrics_of(output), descriptor) is Ok,
{
}

/// The length of `s`, or `u64::MAX` when it is longer.
pub open spec fn sat_len(s: Seq<u8>) -> u64 {
    if s.len() > u64::MAX {
        u64::MAX
    } else {
        s.len() as u64
    }
}

/// The size and checksum of the bytes `output`.
pub open spec fn metrics_of(output: Seq<u8>) -> EntryReadMetrics {
    EntryReadMetrics { uncompressed_size: sat_len(output), crc32: crc32_of(output) }
}

/// The entry finished with the data descriptor at the start of `rest`: it
/// is whole, the buffer keeps what follows it (`b`), and the bytes `output`
/// have the size and checksum expected with it.
pub open spec fn spec_done_descriptor(
    entry: Option<StoredEntryInner>,
    header: LocalFileHeaderRecord,
    output: Seq<u8>,
    rest: Seq<u8>,
    b: Seq<u8>,
) -> bool {
    let is_zip64 = entry matches Some(e) && e.is_zip64;
    let n = DataDescriptorRecord::spec_start(rest) + DataDescriptorRecord::spec_body_len(is_zip64);
    &&& rest.len() >= n
    &&& b == rest.subrange(n, rest.len() as int)
    &&& spec_validate(entry, header, metrics_of(output), Some(DataDescriptorRecord::spec_parse(rest, is_zip64)))
        is Ok
}

/// The entry finished where `rest` starts, right after its compressed data:
/// with the data descriptor there when the header announces one, with none
/// otherwise (the buffer then keeps `rest`), and `output` checks out.
pub open spec fn spec_done_at(
    entry: Option<StoredEntryInner>,
    header: LocalFileHeaderRecord,
    output: Seq<u8>,
    rest: Seq<u8>,
    b: Seq<u8>,
) -> bool {
    if header.flags & 0b1000 != 0 {
        spec_done_descriptor(entry, header, output, rest, b)
    } else {
        b == rest && spec_validate(entry, header, metrics_of(output), None) is Ok
    }
}

/// The entry finished somewhere in the buffered bytes `s`, which start in
/// its compressed data.
pub open spec fn spec_done_after_data(
    entry: Option<StoredEntryInner>,
    header: LocalFileHeaderRecord,
    output: Seq<u8>,
    s: Seq<u8>,
    b: Seq<u8>,
) -> bool {
    exists|k: int| 0 <= k <= s.len() && #[trigger] spec_done_at(entry, header, output, s.subrange(k, s.len() as int), b)
}

/// What a reader in state `pre`, with buffered bytes `s`, having handed out
/// `output`, finishing with the buffered bytes `b`, has checked: the size
/// and checksum of `output` against the entry, the local header read, and
/// the data descriptor read (or none, when the header announces none).
pub open spec fn spec_done(
    entry: Option<StoredEntryInner>,
    pre: State,
    output: Seq<u8>,
    s: Seq<u8>,
    b: Seq<u8>,
) -> bool {
    match pre {
        State::ReadLocalHeader => exists|h: LocalFileHeaderRecord|
            #[trigger] h.spec_matches(s) && spec_done_after_data(
                entry,
                h,
                output,
                s.subrange(LocalFileHeaderRecord::spec_len(s), s.len() as int),
                b,
            ),
        State::ReadData { header, .. } => spec_done_after_data(entry, header, output, s, b),
        State::ReadDataDescriptor { header, .. } => spec_done_descriptor(entry, header, output, s, b),
        State::Validate { header, descriptor, .. } => b == s && spec_validate(
            entry,
            header,
            metrics_of(output),
            descriptor,
        ) is Ok,
    }
}

/// What a reader in state `ReadData` hands its decompressor from the
/// buffered bytes `s`: their start, no more than the compressed bytes left,
/// and whether more compressed input follows it.
pub open spec fn spec_data_input(s: Seq<u8>, compressed_size: u64, compressed_bytes: u64) -> (
    Seq<u8>,
    HasMoreInput,
) {
    let k = if s.len() < compressed_size - compressed_bytes {
        s.len() as int
    } else {
        compressed_size - compressed_bytes
    };
    (s.subrange(0, k), if compressed_bytes + k == compressed_size {
        HasMoreInput::No
    } else {
        HasMoreInput::Yes
    })
}

/// The size of an entry's compressed data: the central directory's when
/// known, else the local header's.
pub open spec fn spec_data_size(entry: Option<StoredEntryInner>, header: LocalFileHeaderRecord) -> u64 {
    match entry {
        Some(e) => e.compressed_size,
        None => header.compressed_size as u64,
    }
}

/// What reading an entry's data from its first buffered bytes `s`, with
/// room for `room` bytes of output, owes a decoder that succeeds: when the
/// first step of any decompressor just made for the entry's method succeeds
/// on what it is handed, there is no decompression error (a zstd decoder,
/// whose making may fail, aside).
pub open spec fn spec_first_data_step<T>(
    entry: Option<StoredEntryInner>,
    header: LocalFileHeaderRecord,
    s: Seq<u8>,
    room: nat,
    r: Result<T, Error>,
) -> bool {
    let input = spec_data_input(s, spec_data_size(entry, header), 0);
    !(header.method is Zstd) && (forall|d: AnyDecompressor|
        #[trigger] d.spec_fresh(header.method, entry_uncompressed_size(entry)) ==> d.spec_succeeds(
            input.0,
            room,
            input.1,
        )) ==> !(r matches Err(Error::Decompression { .. }))
}

/// The errors reading an entry's data can give: those of its decompressor,
/// and a wrong size or checksum.
pub open spec fn spec_data_error(header: LocalFileHeaderRecord, e: Error) -> bool {
    ||| e matches Error::Decompression { method, .. } && method == header.method
    ||| e matches Error::Format(FormatError::WrongSize { .. })
    ||| e matches Error::Format(FormatError::WrongChecksum { .. })
}

/// A step of reading an entry's data that goes on, from state `pre` to
/// `post`: it stays in the data, with the compressed bytes fed counted, and
/// not having stopped producing output at the end of the input; or, at the
/// end of the input, it waits for the data descriptor.
pub open spec fn spec_data_continue(pre: State, post: State, eof: bool, o: DecompressOutcome) -> bool {
    match pre {
        State::ReadData { header, compressed_size, compressed_bytes, .. } => match post {
            State::ReadData { header: h2, compressed_size: cs2, compressed_bytes: cb2, .. } => {
                &&& h2 == header
                &&& cs2 == compressed_size
                &&& cb2 == compressed_bytes + o.bytes_read
                &&& !(eof && o.bytes_written == 0)
            },
            State::ReadDataDescriptor { header: h2, .. } => eof && h2 == header && header.flags & 0b1000
                != 0,
            _ => false,
        },
        _ => true,
    }
}

/// The uncompressed size the central directory gives for the entry, if
/// known.
pub open spec fn entry_uncompressed_size(entry: Option<StoredEntryInner>) -> Option<u64> {
    match entry {
        Some(e) => Some(e.uncompressed_size),
        None => None,
    }
}

/// Where the entry reader is.
pub enum State {
    /// Reading the local file header
    ReadLocalHeader,
    /// Reading and decompressing the data
    ReadData {
        /// The local file header for this entry
        header: LocalFileHeaderRecord,
        /// Entry compressed size
        compressed_size: u64,
        /// Amount of bytes we've fed to the decompressor
        compressed_bytes: u64,
        /// Amount of bytes the decompressor has produced
        uncompressed_bytes: u64,
        /// CRC32 hash of the decompressed data
        hasher: crc32fast::Hasher,
        /// The decompression method we're using
        decompressor: AnyDecompressor,
    },
    /// Reading the data descriptor
    ReadDataDescriptor {
        /// The local file header for this entry
        header: LocalFileHeaderRecord,
        /// Size we've decompressed + crc32 hash we've computed
        metrics: EntryReadMetrics,
    },
    /// Checking size and checksum
    Validate {
        /// The local file header for this entry
        header: LocalFileHeaderRecord,
        /// Size we've decompressed + crc32 hash we've computed
        metrics: EntryReadMetrics,
        /// The data descriptor for this entry, if any
        descriptor: Option<DataDescriptorRecord>,
    },
}

/// How many steps at most remain before the state is final.
pub open spec fn state_rank(s: State) -> nat {
    match s {
        State::ReadLocalHeader => 3,
        State::ReadData { .. } => 2,
        State::ReadDataDescriptor { .. } => 1,
        State::Validate { .. } => 0,
    }
}

/// The local header read so far, if any.
pub open spec fn state_header(s: State) -> Option<LocalFileHeaderRecord> {
    match s {
        State::ReadLocalHeader => None,
        State::ReadData { header, .. } => Some(header),
        State::ReadDataDescriptor { header, .. } => Some(header),
        State::Validate { header, .. } => Some(header),
    }
}

/// The invariant of the entry reader in state `s`, having handed out the
/// bytes `output`.
pub open spec fn spec_state_wf(s: State, output: Seq<u8>) -> bool {
    match s {
        State::ReadLocalHeader => output == Seq::<u8>::empty(),
        State::ReadData {
            header,
            compressed_size,
            compressed_bytes,
            uncompressed_bytes,
            hasher,
            decompressor,
        } => {
            &&& compressed_bytes <= compressed_size
            &&& hasher_fed(hasher) == output
            &&& uncompressed_bytes == sat_len(output)
            &&& decompressor.wf()
            &&& decompressor.spec_method() == header.method
        },
        State::ReadDataDescriptor { metrics, .. } => metrics == metrics_of(output),
        State::Validate { metrics, .. } => metrics == metrics_of(output),
    }
}

/// A state machine that can parse a zip entry
pub struct EntryFsm {
    state: State,
    entry: Option<StoredEntryInner>,
    buffer: ReadBuffer,
    eof: bool,
    output: Ghost<Seq<u8>>,
    input: Ghost<Seq<u8>>,
}

/// The capacity of the entry reader's buffer.
pub const ENTRY_BUFFER_SIZE: usize = 262144;

impl EntryFsm {
    /// Where the reader is.
    pub closed spec fn spec_state(&self) -> State {
        self.state
    }

    /// What the central directory says of the entry, if known.
    pub closed spec fn spec_entry(&self) -> Option<StoredEntryInner> {
        self.entry
    }

    /// The buffered input.
    pub closed spec fn spec_buffer(&self) -> ReadBuffer {
        self.buffer
    }

    /// Whether the end of the input was signalled.
    pub closed spec fn spec_eof(&self) -> bool {
        self.eof
    }

    /// Every byte handed out so far, in order.
    pub closed spec fn spec_output(&self) -> Seq<u8> {
        self.output@
    }

    /// The compressed bytes of the entry handed to its decompressor and
    /// consumed so far, in order.
    pub closed spec fn spec_input(&self) -> Seq<u8> {
        self.input@
    }

    /// The invariant of the reader.
    pub closed spec fn wf(&self) -> bool {
        &&& spec_state_wf(self.state, self.output@)
        &&& (self.state matches State::ReadData { compressed_bytes, .. } ==> self.input@.len() == compressed_bytes)
        &&& (self.state matches State::ReadData { header, compressed_size, .. } ==> compressed_size
            == spec_data_size(self.entry, header))
    }

    /// Whether the reader is in the entry's data, with a decompressor in step
    /// with the compressed bytes consumed and the bytes handed out.
    pub open spec fn spec_tracks(&self) -> bool {
        match self.spec_state() {
            State::ReadData { decompressor, .. } => decompressor.spec_tracks(
                entry_uncompressed_size(self.spec_entry()),
                self.spec_input(),
                self.spec_output(),
            ),
            _ => false,
        }
    }

    /// What a reader in step with its decompressor handed out is the start
    /// of the decompression of the compressed bytes it consumed, by the
    /// entry's method (for LZMA, of their start up to a trailer eaten after
    /// the stream).
    pub proof fn lemma_output_decompressed(&self)
        requires
            self.wf(),
            self.spec_tracks(),
        ensures
            self.spec_state() matches State::ReadData { header, .. } && (!(header.method is Lzma)
                ==> self.spec_output().is_prefix_of(
                spec_decoded(header.method, entry_uncompressed_size(self.spec_entry()), self.spec_input()),
            )) && exists|c: Seq<u8>|
                c.is_prefix_of(self.spec_input()) && #[trigger] self.spec_output().is_prefix_of(
                    spec_decoded(header.method, entry_uncompressed_size(self.spec_entry()), c),
                ),
    {
        match self.spec_state() {
            State::ReadData { decompressor, .. } => {
                decompressor.lemma_tracks_decoded(
                    entry_uncompressed_size(self.spec_entry()),
                    self.spec_input(),
                    self.spec_output(),
                );
            },
            _ => {},
        }
    }

    /// Whether the reader is in the entry's data with output held back by
    /// its decompressor, and no room for it (`room` is 0).
    pub open spec fn spec_held_back(&self, room: nat) -> bool {
        match self.spec_state() {
            State::ReadData { decompressor, .. } => decompressor.spec_has_pending() && room == 0,
            _ => false,
        }
    }

    /// Create a new state machine for decompressing a zip entry
    pub fn new(entry: Option<StoredEntryInner>) -> (r: Self)
        ensures
            r.wf(),
            r.spec_state() is ReadLocalHeader,
            r.spec_entry() == entry,
            !r.spec_eof(),
            r.spec_output() == Seq::<u8>::empty(),
            r.spec_buffer().spec_data() == Seq::<u8>::empty(),
            r.spec_buffer().spec_capacity() == ENTRY_BUFFER_SIZE,
            r.spec_buffer().spec_room() == ENTRY_BUFFER_SIZE,
    {
        EntryFsm {
            state: State::ReadLocalHeader,
            entry,
            buffer: ReadBuffer::with_capacity(ENTRY_BUFFER_SIZE),
            eof: false,
            output: Ghost(Seq::empty()),
            input: Ghost(Seq::empty()),
        }
    }

    /// If this returns true, the caller should read data into the buffer
    /// with [Self::fill].
    pub fn wants_read(&self) -> (r: bool)
        ensures
            self.spec_state() is ReadLocalHeader ==> r,
            self.spec_state() is ReadDataDescriptor ==> r,
            self.spec_state() is Validate ==> !r,
            self.spec_state() is ReadData ==> (r <==> self.spec_buffer().spec_room() > 0),
    {
        match &self.state {
            State::ReadLocalHeader => true,
            State::ReadData { .. } => {
                // we want to read if we have space
                self.buffer.available_space() > 0
            },
            State::ReadDataDescriptor { .. } => true,
            State::Validate { .. } => false,
        }
    }

    /// Makes room in the buffer if there is none, and returns how many bytes
    /// the next [Self::fill] can take.
    pub fn space(&mut self) -> (r: usize)
        ensures
            final(self).spec_state() == old(self).spec_state(),
            final(self).spec_entry() == old(self).spec_entry(),
            final(self).spec_eof() == old(self).spec_eof(),
            final(self).spec_output() == old(self).spec_output(),
            final(self).wf() == old(self).wf(),
            final(self).spec_buffer().spec_data() == old(self).spec_buffer().spec_data(),
            final(self).spec_buffer().spec_capacity() == old(self).spec_buffer().spec_capacity(),
            final(self).spec_buffer().spec_room() == (if old(self).spec_buffer().spec_room() == 0 {
                old(self).spec_buffer().spec_capacity() - old(self).spec_buffer().spec_data().len()
            } else {
                old(self).spec_buffer().spec_room() as int
            }),
            r == final(self).spec_buffer().spec_room(),
            r + final(self).spec_buffer().spec_data().len() <= final(self).spec_buffer().spec_capacity(),
    {
        if self.buffer.available_space() == 0 {
            self.buffer.shift();
        }
        self.buffer.space()
    }

    /// Hands input to the reader, and returns how many bytes it took (the
    /// start of `data`, as much as fits). Handing no bytes signals the end
    /// of the input.
    pub fn fill(&mut self, data: &[u8]) -> (r: usize)
        ensures
            final(self).spec_state() == old(self).spec_state(),
            final(self).spec_entry() == old(self).spec_entry(),
            final(self).spec_eof() == (old(self).spec_eof() || data@.len() == 0),
            final(self).spec_output() == old(self).spec_output(),
            final(self).wf() == old(self).wf(),
            r == (if data@.len() <= old(self).spec_buffer().spec_room() {
                data@.len() as int
            } else {
                old(self).spec_buffer().spec_room() as int
            }),
            final(self).spec_buffer().spec_data() == old(self).spec_buffer().spec_data()
                + data@.subrange(0, r as int),
            final(self).spec_buffer().spec_room() == crate::fsm::buffer::room_after_fill(
                old(self).spec_buffer().spec_capacity() as int,
                old(self).spec_buffer().spec_room() as int,
                final(self).spec_buffer().spec_data().len() as int,
                r as int,
            ),
            final(self).spec_buffer().spec_capacity() == old(self).spec_buffer().spec_capacity(),
    {
        if data.len() == 0 {
            self.eof = true;
        }
        self.buffer.fill(data)
    }
}

/// The message of the error for an entry whose size is only known from its
/// local header, where it does not fit.
pub const ENTRY_TOO_LARGE_MSG: &'static str = "This entry cannot be decompressed because its compressed size is larger than 4GiB";

impl EntryFsm {
    /// Process the input and write the output to the given buffer
    ///
    /// This function will return `FsmResult::Continue` if it needs more input
    /// to continue, or if it needs more space to write to. It will return
    /// `FsmResult::Done` when all the input has been decompressed and all
    /// the output has been written.
    ///
    /// Also, after writing all the output, process will read the data
    /// descriptor (if any), and make sure the CRC32 hash and the uncompressed
    /// size match the expected values.
    ///
    /// The bytes handed out start the decompression of the compressed bytes
    /// consumed: a reader that starts reading the data, or is in step with
    /// its decompressor, stays in step while it reads the data (see
    /// [AnyDecompressor::decompress] for when it may not).
    pub fn process(self, out: &mut [u8]) -> (r: Result<FsmResult<(Self, DecompressOutcome), ReadBuffer>, Error>)
        requires
            self.wf(),
        ensures
            final(out)@.len() == old(out)@.len(),
            r matches Ok(FsmResult::Continue((f, o))) ==> {
                &&& f.wf()
                &&& f.spec_entry() == self.spec_entry()
                &&& f.spec_eof() == self.spec_eof()
                &&& o.bytes_written <= old(out)@.len()
                &&& f.spec_output() == self.spec_output() + final(out)@.subrange(
                    0,
                    o.bytes_written as int,
                )
            },
            r matches Ok(FsmResult::Done(b)) ==> spec_done(
                self.spec_entry(),
                self.spec_state(),
                self.spec_output(),
                self.spec_buffer().spec_data(),
                b.spec_data(),
            ),
            r matches Ok(FsmResult::Continue((f, o))) ==> ((self.spec_state() is ReadLocalHeader
                || self.spec_tracks()) && !self.spec_held_back(old(out)@.len()) && self.spec_output().len()
                + old(out)@.len() <= u64::MAX && f.spec_state() is ReadData ==> f.spec_tracks()),
            r matches Ok(FsmResult::Continue((f, o))) ==> (self.spec_state() is ReadData && f.spec_state() is ReadData
                ==> f.spec_input() == self.spec_input() + self.spec_buffer().spec_data().subrange(
                0,
                o.bytes_read as int,
            )),
            r matches Ok(FsmResult::Continue((f, o))) ==> (f.spec_state() matches State::ReadData {
                header,
                compressed_size,
                compressed_bytes,
                ..
            } ==> compressed_bytes <= compressed_size && f.spec_input().len() == compressed_bytes
                && compressed_size == spec_data_size(self.spec_entry(), header)),
            r matches Ok(FsmResult::Continue((f, o))) ==> (self.spec_state() is ReadLocalHeader ==> (
            f.spec_state() matches State::ReadData { compressed_bytes, .. } ==> compressed_bytes
                == o.bytes_read)),
            r matches Ok(FsmResult::Continue((f, o))) ==> (self.spec_state() is ReadData && !(f.spec_state() is ReadData)
                ==> o.bytes_read == 0 && o.bytes_written == 0),
            r matches Ok(FsmResult::Continue((f, o))) ==> spec_data_continue(
                self.spec_state(),
                f.spec_state(),
                self.spec_eof(),
                o,
            ),
            self.spec_state() matches State::ReadData { header, .. } ==> (r matches Err(e) ==> spec_data_error(
                header,
                e,
            )),
            self.spec_state() matches State::ReadData { compressed_size, compressed_bytes, decompressor, .. }
                ==> ({
                let input = spec_data_input(self.spec_buffer().spec_data(), compressed_size, compressed_bytes);
                &&& (decompressor.spec_succeeds(input.0, old(out)@.len(), input.1) ==> !(r matches Err(
                    Error::Decompression { .. },
                )))
                &&& (decompressor.spec_fails(input.0, old(out)@.len(), input.1) ==> (r matches Err(
                    Error::Decompression { .. },
                )))
            }),
            self.spec_state() matches State::Validate { header, metrics, descriptor } ==> (match spec_validate(
                self.spec_entry(),
                header,
                metrics,
                descriptor,
            ) {
                Ok(()) => r matches Ok(FsmResult::Done(b)) && b == self.spec_buffer(),
                Err(e) => r == Err::<FsmResult<(Self, DecompressOutcome), ReadBuffer>, Error>(e),
            }),
            self.spec_state() matches State::ReadDataDescriptor { header, metrics } ==> ({
                let s = self.spec_buffer().spec_data();
                let is_zip64 = self.spec_entry() matches Some(e) && e.is_zip64;
                let n = DataDescriptorRecord::spec_start(s) + DataDescriptorRecord::spec_body_len(is_zip64);
                if (s.len() < 4 && !sig_conflict(s, crate::parse::local::data_descriptor_sig())) || s.len() < n {
                    r matches Ok(FsmResult::Continue((f, o))) && f.spec_state() == self.spec_state()
                        && f.spec_buffer() == self.spec_buffer() && o.bytes_read == 0 && o.bytes_written == 0
                        && final(out)@ == old(out)@
                } else {
                    match spec_validate(
                        self.spec_entry(),
                        header,
                        metrics,
                        Some(DataDescriptorRecord::spec_parse(s, is_zip64)),
                    ) {
                        Ok(()) => r matches Ok(FsmResult::Done(b)) && b.spec_data() == s.subrange(n, s.len() as int),
                        Err(e) => r == Err::<FsmResult<(Self, DecompressOutcome), ReadBuffer>, Error>(e),
                    }
                }
            }),
            self.spec_state() is ReadLocalHeader ==> ({
                let s = self.spec_buffer().spec_data();
                if sig_conflict(s, local_header_sig()) || LocalFileHeaderRecord::spec_unsupported_lzma(s) {
                    r == Err::<FsmResult<(Self, DecompressOutcome), ReadBuffer>, Error>(
                        Error::Format(FormatError::InvalidLocalHeader),
                    )
                } else if s.len() < LocalFileHeaderRecord::spec_len(s) {
                    r matches Ok(FsmResult::Continue((f, o))) && f.spec_state() is ReadLocalHeader
                        && f.spec_buffer() == self.spec_buffer() && o.bytes_read == 0 && o.bytes_written == 0
                        && final(out)@ == old(out)@
                } else {
                    exists|h: LocalFileHeaderRecord|
                        #[trigger] h.spec_matches(s) && (!method_supported(h.method) ==> r == Err::<
                            FsmResult<(Self, DecompressOutcome), ReadBuffer>,
                            Error,
                        >(Error::Unsupported(UnsupportedError::MethodNotSupported(h.method))))
                            && (method_supported(h.method) && self.spec_entry() is None
                            && h.compressed_size == 0xFFFF_FFFFu32 ==> (r matches Err(
                            Error::Decompression { method, .. },
                        ) && method == h.method))
                            && (method_supported(h.method) && (self.spec_entry() is Some
                            || h.compressed_size != 0xFFFF_FFFFu32) ==> (r matches Err(e) ==> spec_data_error(
                            h,
                            e,
                        )))
                            && (method_supported(h.method) && (self.spec_entry() is Some
                            || h.compressed_size != 0xFFFF_FFFFu32) ==> spec_first_data_step(
                            self.spec_entry(),
                            h,
                            s.subrange(LocalFileHeaderRecord::spec_len(s), s.len() as int),
                            old(out)@.len(),
                            r,
                        ))
                }
            }),
        decreases state_rank(self.spec_state()),
    {
        let EntryFsm { state, entry, mut buffer, eof, output, input } = self;
        match state {
            State::ReadLocalHeader => {
                let parsed = LocalFileHeaderRecord::parser(buffer.data());
                match parsed {
                    Err(ParseError::Incomplete) => Ok(
                        FsmResult::Continue(
                            (
                                EntryFsm { state: State::ReadLocalHeader, entry, buffer, eof, output, input },
                                DecompressOutcome::default(),
                            ),
                        ),
                    ),
                    Err(ParseError::Invalid) => Err(Error::Format(FormatError::InvalidLocalHeader)),
                    Ok((consumed, header)) => {
                        buffer.consume(consumed);
                        let uncompressed_size = match entry {
                            Some(e) => Some(e.uncompressed_size),
                            None => None,
                        };
                        let decompressor = match AnyDecompressor::new(header.method, uncompressed_size) {
                            Ok(d) => d,
                            Err(e) => {
                                return Err(e);
                            },
                        };
                        let compressed_size = match entry {
                            Some(e) => e.compressed_size,
                            None => {
                                if header.compressed_size == 0xFFFF_FFFFu32 {
                                    return Err(
                                        Error::Decompression {
                                            method: header.method,
                                            msg: String::from_str(ENTRY_TOO_LARGE_MSG),
                                        },
                                    );
                                } else {
                                    header.compressed_size as u64
                                }
                            },
                        };
                        proof {
                            assert(decompressor.spec_fresh(header.method, entry_uncompressed_size(entry)));
                        }
                        let next = EntryFsm {
                            state: State::ReadData {
                                header,
                                compressed_size,
                                compressed_bytes: 0,
                                uncompressed_bytes: 0,
                                hasher: hasher_new(),
                                decompressor,
                            },
                            entry,
                            buffer,
                            eof,
                            output,
                            input: Ghost(Seq::empty()),
                        };
                        next.process(out)
                    },
                }
            },
            State::ReadData {
                header,
                compressed_size,
                compressed_bytes,
                uncompressed_bytes,
                mut hasher,
                mut decompressor,
            } => {
                let ghost out0 = out@;
                let ghost mut fed_now: Seq<u8> = Seq::empty();
                let outcome = {
                    let data = buffer.data();
                    // don't feed the decompressor bytes beyond the entry's compressed size
                    let remaining: u64 = compressed_size - compressed_bytes;
                    let in_buf_max_len: usize = if (data.len() as u64) < remaining {
                        data.len()
                    } else {
                        remaining as usize
                    };
                    let in_buf = slice_subrange(data, 0, in_buf_max_len);
                    proof {
                        fed_now = in_buf@;
                    }
                    let fed_bytes_after_this: u64 = compressed_bytes + in_buf_max_len as u64;
                    let has_more_input = if fed_bytes_after_this == compressed_size {
                        HasMoreInput::No
                    } else {
                        HasMoreInput::Yes
                    };
                    match decompressor.decompress(in_buf, out, has_more_input) {
                        Ok(o) => o,
                        Err(e) => {
                            return Err(e);
                        },
                    }
                };
                let ghost s0 = buffer.spec_data();
                buffer.consume(outcome.bytes_read);
                let compressed_bytes = compressed_bytes + outcome.bytes_read as u64;
                if outcome.bytes_written == 0 && eof {
                    // we're done, let's read the data descriptor (if there's one)
                    let metrics = EntryReadMetrics {
                        uncompressed_size: uncompressed_bytes,
                        crc32: hasher_finalize(hasher),
                    };
                    let state = if header.has_data_descriptor() {
                        State::ReadDataDescriptor { header, metrics }
                    } else {
                        State::Validate { header, metrics, descriptor: None }
                    };
                    let next = EntryFsm { state, entry, buffer, eof, output, input };
                    let ghost rest = next.buffer.spec_data();
                    let res = next.process(out);
                    proof {
                        assert(rest == s0.subrange(outcome.bytes_read as int, s0.len() as int));
                        if res is Ok && res->Ok_0 is Done {
                            assert(spec_done_at(entry, header, output@, rest, res->Ok_0->Done_0.spec_data()));
                        }
                    }
                    return res;
                }
                // write the decompressed data to the hasher
                let written = outcome.bytes_written;
                let ghost new_output = output@ + out@.subrange(0, written as int);
                let ghost new_input = input@ + s0.subrange(0, outcome.bytes_read as int);
                assert(fed_now.subrange(0, outcome.bytes_read as int) =~= s0.subrange(0, outcome.bytes_read as int));
                {
                    let out_ref: &[u8] = out;
                    hasher_update(&mut hasher, slice_subrange(out_ref, 0, written));
                }
                // update the number of bytes we've decompressed
                let uncompressed_bytes = uncompressed_bytes.saturating_add(written as u64);
                Ok(
                    FsmResult::Continue(
                        (
                            EntryFsm {
                                state: State::ReadData {
                                    header,
                                    compressed_size,
                                    compressed_bytes,
                                    uncompressed_bytes,
                                    hasher,
                                    decompressor,
                                },
                                entry,
                                buffer,
                                eof,
                                output: Ghost(new_output),
                                input: Ghost(new_input),
                            },
                            outcome,
                        ),
                    ),
                )
            },
            State::ReadDataDescriptor { header, metrics } => {
                // if we don't have entry info, we're dangerously assuming the
                // file isn't zip64. oh well.
                let is_zip64 = match entry {
                    Some(e) => e.is_zip64,
                    None => false,
                };
                let parsed = DataDescriptorRecord::parse(buffer.data(), is_zip64);
                match parsed {
                    Ok((consumed, descriptor)) => {
                        buffer.consume(consumed);
                        let next = EntryFsm {
                            state: State::Validate { header, metrics, descriptor: Some(descriptor) },
                            entry,
                            buffer,
                            eof,
                            output,
                            input,
                        };
                        next.process(out)
                    },
                    Err(_) => Ok(
                        FsmResult::Continue(
                            (
                                EntryFsm {
                                    state: State::ReadDataDescriptor { header, metrics },
                                    entry,
                                    buffer,
                                    eof,
                                    output,
                                    input,
                                },
                                DecompressOutcome::default(),
                            ),
                        ),
                    ),
                }
            },
            State::Validate { header, metrics, descriptor } => {
                assert(metrics == metrics_of(output@));
                match validate(entry, &header, metrics, descriptor) {
                    Ok(()) => Ok(FsmResult::Done(buffer)),
                    Err(e) => Err(e),
                }
            },
        }
    }
}

} // verus!
