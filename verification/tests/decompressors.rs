use rc_zip::error::Error;
use rc_zip::fsm::entry::bzip2_dec::Bzip2Dec;
use rc_zip::fsm::entry::deflate64_dec::Deflate64Dec;
use rc_zip::fsm::entry::deflate_dec::DeflateDec;
use rc_zip::fsm::entry::lzma_dec::LzmaDec;
use rc_zip::fsm::entry::store_dec::StoreDec;
use rc_zip::fsm::entry::zstd_dec::ZstdDec;
use rc_zip::fsm::entry::{AnyDecompressor, DecompressOutcome, HasMoreInput};
use rc_zip::parse::Method;
use rc_zip::fsm::entry::deflate_dec::{status_error, InflateStatus};
use rc_zip::fsm::entry::deflate64_dec::inflate_outcome;
use rc_zip::fsm::entry::bzip2_dec::totals_outcome;
use rc_zip::fsm::entry::lzma_dec::trailer_len;

fn sample() -> Vec<u8> {
    (0..5000u32).map(|i| (i * 7 % 251) as u8).collect()
}

/// Runs `step` over `input` with small output buffers until it gives no
/// more output, and returns what it gave. All the input left is handed over
/// each time, so no more input follows it.
fn drive(mut step: impl FnMut(&[u8], &mut [u8], HasMoreInput) -> Result<DecompressOutcome, Error>, input: &[u8]) -> Vec<u8> {
    let mut pos = 0;
    let mut got = Vec::new();
    let mut out = vec![0u8; 333];
    for _ in 0..100_000 {
        let o = step(&input[pos..], &mut out, HasMoreInput::No).unwrap();
        assert!(o.bytes_read <= input.len() - pos);
        pos += o.bytes_read;
        got.extend_from_slice(&out[..o.bytes_written]);
        if o.bytes_written == 0 && pos == input.len() {
            return got;
        }
    }
    panic!("the decompressor did not finish");
}

#[test]
fn store_copies() {
    let mut dec = StoreDec;
    let mut out = [9u8; 4];
    let o = dec.decompress(b"abcdef", &mut out);
    assert_eq!((o.bytes_read, o.bytes_written), (4, 4));
    assert_eq!(&out, b"abcd");
    let mut out = [9u8; 4];
    let o = dec.decompress(b"ab", &mut out);
    assert_eq!((o.bytes_read, o.bytes_written), (2, 2));
    assert_eq!(&out, &[b'a', b'b', 9, 9]);
}

#[test]
fn deflate_inflates() {
    let data = sample();
    let compressed = miniz_oxide::deflate::compress_to_vec(&data, 6);
    let mut dec = DeflateDec::new();
    assert_eq!(drive(|i, o, m| dec.decompress(i, o, m), &compressed), data);
}

#[test]
fn deflate_rejects_garbage() {
    let mut dec = DeflateDec::new();
    let mut out = [0u8; 64];
    match dec.decompress(&[0xff; 32], &mut out, HasMoreInput::No) {
        Err(Error::Decompression { method, .. }) => assert_eq!(method, Method::Deflate),
        _ => panic!("expected an error"),
    }
}

#[test]
fn deflate64_inflates_stored_blocks() {
    let data = sample();
    let compressed = miniz_oxide::deflate::compress_to_vec(&data, 0);
    let mut dec = Deflate64Dec::new();
    assert_eq!(drive(|i, o, _m| dec.decompress(i, o), &compressed), data);
}

#[test]
fn bzip2_decompresses() {
    let data = sample();
    let mut enc = bzip2::read::BzEncoder::new(&data[..], bzip2::Compression::default());
    let mut compressed = Vec::new();
    std::io::Read::read_to_end(&mut enc, &mut compressed).unwrap();
    let mut dec = Bzip2Dec::new();
    assert_eq!(drive(|i, o, _m| dec.decompress(i, o), &compressed), data);
}

#[test]
fn zstd_decompresses() {
    let data = sample();
    let compressed = zstd::encode_all(&data[..], 3).unwrap();
    let mut dec = ZstdDec::new().unwrap();
    assert_eq!(drive(|i, o, m| dec.decompress(i, o, m), &compressed), data);
}

#[test]
fn lzma_decompresses() {
    let data = sample();
    let mut compressed = Vec::new();
    lzma_rs::lzma_compress(&mut &data[..], &mut compressed).unwrap();
    // drop the 8-byte unpacked size of the .lzma header: the stream ends
    // with an end marker instead
    let mut raw = compressed[..5].to_vec();
    raw.extend_from_slice(&compressed[13..]);
    let mut dec = LzmaDec::new(None);
    assert_eq!(drive(|i, o, m| dec.decompress(i, o, m), &raw), data);
}

#[test]
fn any_decompressor_by_method() {
    assert!(AnyDecompressor::new(Method::Store, None).is_ok());
    assert!(AnyDecompressor::new(Method::Deflate, None).is_ok());
    assert!(AnyDecompressor::new(Method::Bzip2, None).is_ok());
    assert!(AnyDecompressor::new(Method::Lzma, Some(3)).is_ok());
    assert!(AnyDecompressor::new(Method::Zstd, None).is_ok());
    assert!(AnyDecompressor::new(Method::Deflate64, None).is_ok());
    for m in [Method::Mp3, Method::Xz, Method::Jpeg, Method::WavPack, Method::Ppmd, Method::Aex, Method::Unrecognized(77)] {
        match AnyDecompressor::new(m, None) {
            Err(Error::Unsupported(rc_zip::error::UnsupportedError::MethodNotSupported(got))) => assert_eq!(got, m),
            _ => panic!("expected {:?} to be unsupported", m),
        }
    }
    let mut d = AnyDecompressor::new(Method::Store, None).ok().unwrap();
    let mut out = [0u8; 3];
    let o = d.decompress(b"xyz", &mut out, HasMoreInput::No).unwrap();
    assert_eq!((o.bytes_read, o.bytes_written), (3, 3));
    assert_eq!(&out, b"xyz");
}

#[test]
fn inflate_statuses_map_to_errors() {
    assert!(status_error(InflateStatus::Done).is_none());
    assert!(status_error(InflateStatus::NeedsMoreInput).is_none());
    assert!(status_error(InflateStatus::HasMoreOutput).is_none());
    for s in [
        InflateStatus::FailedCannotMakeProgress,
        InflateStatus::BadParam,
        InflateStatus::Adler32Mismatch,
        InflateStatus::Failed,
    ] {
        match status_error(s) {
            Some(Error::Decompression { method, msg }) => {
                assert_eq!(method, Method::Deflate);
                assert!(!msg.is_empty());
            }
            _ => panic!("expected an error for {:?}", s),
        }
    }
    match status_error(InflateStatus::Failed) {
        Some(Error::Decompression { msg, .. }) => assert_eq!(msg, "Failed to decompress due to invalid data."),
        _ => panic!("expected an error"),
    }
}

#[test]
fn deflate64_outcomes() {
    let o = inflate_outcome(5, 7, false).unwrap();
    assert_eq!((o.bytes_read, o.bytes_written), (5, 7));
    match inflate_outcome(5, 7, true) {
        Err(Error::Decompression { method, msg }) => {
            assert_eq!(method, Method::Deflate64);
            assert_eq!(msg, "data error");
        }
        _ => panic!("expected an error"),
    }
}

#[test]
fn bzip2_totals() {
    let o = totals_outcome(10, 20, 15, 40, 5, 20).unwrap();
    assert_eq!((o.bytes_read, o.bytes_written), (5, 20));
    assert!(totals_outcome(10, 20, 16, 40, 5, 20).is_err());
    assert!(totals_outcome(10, 20, 15, 41, 5, 20).is_err());
    assert!(totals_outcome(10, 20, 9, 40, 5, 20).is_err());
}

#[test]
fn lzma_trailers() {
    assert_eq!(trailer_len(0).unwrap(), 0);
    assert_eq!(trailer_len(10).unwrap(), 10);
    match trailer_len(6) {
        Err(Error::Decompression { method, msg }) => {
            assert_eq!(method, Method::Lzma);
            assert_eq!(msg, "expected LZMA trailer or no LZMA trailer, but not a 6-byte trailer");
        }
        _ => panic!("expected an error"),
    }
}

#[test]
fn stream_decoders_hand_out_pending_bytes_first() {
    let data = sample();
    // zstd: at the end of the input the decoder is flushed; what it holds is
    // then handed out a byte at a time, reading nothing more
    let compressed = zstd::encode_all(&data[..], 3).unwrap();
    let mut dec = ZstdDec::new().unwrap();
    let mut one = [0u8; 1];
    let mut got = Vec::new();
    let first = dec.decompress(&compressed, &mut one, HasMoreInput::No).unwrap();
    got.extend_from_slice(&one[..first.bytes_written]);
    loop {
        let o = dec.decompress(&[], &mut one, HasMoreInput::No).unwrap();
        assert_eq!(o.bytes_read, 0);
        if o.bytes_written == 0 {
            break;
        }
        got.extend_from_slice(&one[..o.bytes_written]);
    }
    assert_eq!(&got[..], &data[..got.len()]);

    // lzma: at the end of the input, with nothing pending, all of it is taken
    let mut compressed = Vec::new();
    lzma_rs::lzma_compress(&mut &data[..], &mut compressed).unwrap();
    let mut raw = compressed[..5].to_vec();
    raw.extend_from_slice(&compressed[13..]);
    let mut dec = LzmaDec::new(None);
    let mut out = vec![0u8; 10];
    let o = dec.decompress(&raw, &mut out, HasMoreInput::No).unwrap();
    assert_eq!(o.bytes_read, raw.len());
    assert_eq!(&out[..o.bytes_written], &data[..o.bytes_written]);
    let o2 = dec.decompress(&[], &mut out, HasMoreInput::No).unwrap();
    assert_eq!(o2.bytes_read, 0);
}

/// Feeds `input` to a decompressor of `method` in pieces of `piece` bytes,
/// with room for `room` bytes of output, and checks after every step that
/// what came out so far starts `expected`.
fn check_prefixes(method: Method, input: &[u8], expected: &[u8], piece: usize, room: usize) {
    let mut d = AnyDecompressor::new(method, None).ok().unwrap();
    let mut pos = 0;
    let mut got = Vec::new();
    let mut out = vec![0u8; room];
    for _ in 0..1_000_000 {
        let end = std::cmp::min(input.len(), pos + piece);
        let more = if end == input.len() { HasMoreInput::No } else { HasMoreInput::Yes };
        let o = d.decompress(&input[pos..end], &mut out, more).unwrap();
        pos += o.bytes_read;
        got.extend_from_slice(&out[..o.bytes_written]);
        assert!(got.len() <= expected.len());
        assert_eq!(&got[..], &expected[..got.len()]);
        if o.bytes_written == 0 && pos == input.len() {
            break;
        }
    }
    assert_eq!(got, expected);
}

#[test]
fn decompressors_hand_out_the_start_of_the_data() {
    let data = sample();
    check_prefixes(Method::Deflate, &miniz_oxide::deflate::compress_to_vec(&data, 6), &data, 11, 5);
    check_prefixes(Method::Zstd, &zstd::encode_all(&data[..], 3).unwrap(), &data, 11, 5);
    let mut compressed = Vec::new();
    lzma_rs::lzma_compress(&mut &data[..], &mut compressed).unwrap();
    let mut raw = compressed[..5].to_vec();
    raw.extend_from_slice(&compressed[13..]);
    check_prefixes(Method::Lzma, &raw, &data, 11, 5);
    check_prefixes(Method::Store, &data, &data, 11, 5);
}
