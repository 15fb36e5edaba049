use rc_zip::encoding::{detect_utf8, is_entry_non_utf8, DecodingError, Encoding};
use rc_zip::error::{Error, FormatError, UnsupportedError};
use rc_zip::fsm::entry::deflate_dec::{INFLATE_FLAG_HAS_MORE_INPUT, INFLATE_FLAG_IGNORE_ADLER32};
use rc_zip::fsm::entry::{validate, EntryReadMetrics, StoredEntryInner};
use rc_zip::parse::{
    CentralDirectoryFileHeader, DataDescriptorRecord, EndOfCentralDirectory,
    EndOfCentralDirectory64Locator, EndOfCentralDirectory64Record, EndOfCentralDirectoryRecord,
    ExtraField, ExtraFieldSettings, HostSystem, LocalFileHeaderRecord, Located, LzmaProperties,
    Method, MethodSpecific, Mode, MsdosMode, MsdosTimestamp, NtfsTimestamp, ParseError, UnixMode,
    Version, ZipString,
};
use rc_zip::reader::{LimitedReader, StoreDecoder, Decoder, EOFNormalizer};

fn local_header(method: u16, name: &[u8], extra: &[u8]) -> Vec<u8> {
    let mut v = vec![0x50, 0x4b, 0x03, 0x04, 20, 0, 0x08, 0];
    v.extend_from_slice(&method.to_le_bytes());
    v.extend_from_slice(&[0x10, 0x75, 0x0a, 0x41]); // time, date
    v.extend_from_slice(&0x1234_5678u32.to_le_bytes());
    v.extend_from_slice(&10u32.to_le_bytes());
    v.extend_from_slice(&20u32.to_le_bytes());
    v.extend_from_slice(&(name.len() as u16).to_le_bytes());
    v.extend_from_slice(&(extra.len() as u16).to_le_bytes());
    v.extend_from_slice(name);
    v.extend_from_slice(extra);
    v
}

#[test]
fn method_codes_round_trip() {
    for code in 0u16..=300 {
        let m = Method::from(code);
        assert_eq!(u16::from(m), code);
    }
    assert_eq!(Method::from(8), Method::Deflate);
    assert_eq!(Method::from(93), Method::Zstd);
    assert_eq!(Method::from(4242), Method::Unrecognized(4242));
    assert_eq!(u16::from(Method::Lzma), 14);
}

#[test]
fn host_system_codes_round_trip() {
    for code in 0u8..=255 {
        assert_eq!(u8::from(HostSystem::from(code)), code);
    }
    assert_eq!(HostSystem::from(3), HostSystem::Unix);
    assert_eq!(HostSystem::from(200), HostSystem::Unknown(200));
}

#[test]
fn version_parses() {
    let (n, v) = Version::parser(&[0x1e, 0x03]).unwrap();
    assert_eq!(n, 2);
    assert_eq!(v.host_system, HostSystem::Unix);
    assert_eq!(v.version, 0x1e);
    assert!(matches!(Version::parser(&[0x1e]), Err(ParseError::Incomplete)));
}

#[test]
fn msdos_timestamp_converts() {
    let (n, t) = MsdosTimestamp::parser(&[0x10, 0x75, 0x0a, 0x41]).unwrap();
    assert_eq!(n, 4);
    // 2012-08-10 14:40:32
    let d = t.to_datetime().unwrap();
    assert_eq!(d.secs, 1344609632);
    // month 0 is not a date
    let (_, bad) = MsdosTimestamp::parser(&[0, 0, 0, 0]).unwrap();
    assert!(bad.to_datetime().is_none());
    // 2012-02-31 does not exist
    let feb31 = MsdosTimestamp { time: 0, date: (32 << 9) | (2 << 5) | 31 };
    assert!(feb31.to_datetime().is_none());
    // 2012-02-28 00:00:00, and 2012-02-29 (a leap day)
    let feb28 = MsdosTimestamp { time: 0, date: (32 << 9) | (2 << 5) | 28 };
    assert_eq!(feb28.to_datetime().unwrap().secs, 1330387200);
    let feb29 = MsdosTimestamp { time: 0, date: (32 << 9) | (2 << 5) | 29 };
    assert_eq!(feb29.to_datetime().unwrap().secs, 1330473600);
    // 30 two-second units is 60 seconds, past the end of a minute
    let sec60 = MsdosTimestamp { time: 30, date: (32 << 9) | (2 << 5) | 28 };
    assert!(sec60.to_datetime().is_none());
}

#[test]
fn ntfs_timestamp_converts() {
    // 1970-01-01 00:00:01 is 11644473601 seconds after 1601-01-01
    let ticks: u64 = 11_644_473_601 * 10_000_000 + 5;
    let (n, t) = NtfsTimestamp::parser(&ticks.to_le_bytes()).unwrap();
    assert_eq!(n, 8);
    let d = t.to_datetime().unwrap();
    assert_eq!(d.secs, 1);
    assert_eq!(d.nanos, 500);
    // every timestamp converts, from the NTFS epoch to the largest one
    let zero = NtfsTimestamp { timestamp: 0 };
    assert_eq!(zero.to_datetime().unwrap().secs, -11_644_473_600);
    let last = NtfsTimestamp { timestamp: u64::MAX };
    let d = last.to_datetime().unwrap();
    assert_eq!(d.secs, (u64::MAX / 10_000_000) as i64 - 11_644_473_600);
    assert_eq!(d.nanos, (u64::MAX % 10_000_000) as u32 * 100);
}

#[test]
fn local_header_parses() {
    let bytes = local_header(0, b"name.txt", b"");
    let (n, h) = LocalFileHeaderRecord::parser(&bytes).unwrap();
    assert_eq!(n, bytes.len());
    assert_eq!(h.name.0, b"name.txt".to_vec());
    assert_eq!(h.method, Method::Store);
    assert_eq!(h.crc32, 0x1234_5678);
    assert_eq!(h.compressed_size, 10);
    assert_eq!(h.uncompressed_size, 20);
    assert!(h.has_data_descriptor());
    assert!(matches!(h.method_specific, MethodSpecific::NoProperties));
    // too short
    assert!(matches!(LocalFileHeaderRecord::parser(&bytes[..bytes.len() - 1]), Err(ParseError::Incomplete)));
    // another signature
    let mut other = bytes.clone();
    other[2] = 1;
    assert!(matches!(LocalFileHeaderRecord::parser(&other), Err(ParseError::Invalid)));
}

#[test]
fn lzma_properties_are_checked() {
    let mut bytes = local_header(14, b"x", b"");
    bytes.extend_from_slice(&[2, 0, 5, 0]);
    let (n, h) = LocalFileHeaderRecord::parser(&bytes).unwrap();
    assert_eq!(n, bytes.len());
    assert!(matches!(h.method_specific, MethodSpecific::Lzma(LzmaProperties { major: 2, minor: 0, properties_size: 5 })));
    let p = LzmaProperties { major: 1, minor: 5, properties_size: 5 };
    match p.error_if_unsupported() {
        Err(Error::Unsupported(UnsupportedError::LzmaVersionUnsupported { major, minor })) => {
            assert_eq!((major, minor), (1, 5));
        }
        _ => panic!("expected a version error"),
    }
    let p = LzmaProperties { major: 2, minor: 0, properties_size: 4 };
    match p.error_if_unsupported() {
        Err(Error::Unsupported(UnsupportedError::LzmaPropertiesHeaderWrongSize { expected, actual })) => {
            assert_eq!((expected, actual), (5, 4));
        }
        _ => panic!("expected a size error"),
    }
    // an unsupported version in a header makes the header invalid
    let mut bad = local_header(14, b"x", b"");
    bad.extend_from_slice(&[1, 5, 5, 0]);
    assert!(matches!(LocalFileHeaderRecord::parser(&bad), Err(ParseError::Invalid)));
}

#[test]
fn data_descriptor_signature_is_optional() {
    let mut with_sig = vec![0x50, 0x4b, 0x07, 0x08];
    let body: Vec<u8> = [1u32, 2, 3].iter().flat_map(|x| x.to_le_bytes()).collect();
    with_sig.extend_from_slice(&body);
    let (n, d) = DataDescriptorRecord::parse(&with_sig, false).unwrap();
    assert_eq!(n, 16);
    assert_eq!((d.crc32, d.compressed_size, d.uncompressed_size), (1, 2, 3));
    let (n, d) = DataDescriptorRecord::parse(&body, false).unwrap();
    assert_eq!(n, 12);
    assert_eq!((d.crc32, d.compressed_size, d.uncompressed_size), (1, 2, 3));
    let mut zip64 = vec![0x50, 0x4b, 0x07, 0x08];
    zip64.extend_from_slice(&9u32.to_le_bytes());
    zip64.extend_from_slice(&(1u64 << 40).to_le_bytes());
    zip64.extend_from_slice(&(1u64 << 41).to_le_bytes());
    let (n, d) = DataDescriptorRecord::parse(&zip64, true).unwrap();
    assert_eq!(n, 24);
    assert_eq!((d.crc32, d.compressed_size, d.uncompressed_size), (9, 1 << 40, 1 << 41));
    assert!(matches!(DataDescriptorRecord::parse(&with_sig[..10], false), Err(ParseError::Incomplete)));
}

fn eocd_bytes(records: u16, size: u32, offset: u32, comment: &[u8]) -> Vec<u8> {
    let mut v = vec![0x50, 0x4b, 0x05, 0x06, 0, 0, 0, 0];
    v.extend_from_slice(&records.to_le_bytes());
    v.extend_from_slice(&records.to_le_bytes());
    v.extend_from_slice(&size.to_le_bytes());
    v.extend_from_slice(&offset.to_le_bytes());
    v.extend_from_slice(&(comment.len() as u16).to_le_bytes());
    v.extend_from_slice(comment);
    v
}

#[test]
fn end_of_central_directory_is_found() {
    let mut block = vec![7u8; 50];
    block.extend_from_slice(&eocd_bytes(3, 100, 200, b"hi"));
    let found = EndOfCentralDirectoryRecord::find_in_block(&block).unwrap();
    assert_eq!(found.offset, 50);
    assert_eq!(found.inner.directory_records, 3);
    assert_eq!(found.inner.directory_size, 100);
    assert_eq!(found.inner.directory_offset, 200);
    assert_eq!(found.inner.comment.0, b"hi".to_vec());
    assert!(EndOfCentralDirectoryRecord::find_in_block(&[0u8; 10]).is_none());
    assert!(EndOfCentralDirectoryRecord::find_in_block(&[0u8; 100]).is_none());
    // the record must run to the end of the block
    let mut cut = block.clone();
    cut.pop();
    assert!(EndOfCentralDirectoryRecord::find_in_block(&cut).is_none());
}

#[test]
fn zip64_records_parse() {
    let mut loc = vec![0x50, 0x4b, 0x06, 0x07];
    loc.extend_from_slice(&0u32.to_le_bytes());
    loc.extend_from_slice(&1234u64.to_le_bytes());
    loc.extend_from_slice(&1u32.to_le_bytes());
    let (n, l) = EndOfCentralDirectory64Locator::parser(&loc).unwrap();
    assert_eq!(n, 20);
    assert_eq!(l.directory_offset, 1234);
    let mut rec = vec![0x50, 0x4b, 0x06, 0x06];
    rec.extend_from_slice(&44u64.to_le_bytes());
    rec.extend_from_slice(&[45, 0, 45, 0]);
    rec.extend_from_slice(&[0u8; 8]);
    for x in [5u64, 6, 700, 800] {
        rec.extend_from_slice(&x.to_le_bytes());
    }
    let (n, r) = EndOfCentralDirectory64Record::parser(&rec).unwrap();
    assert_eq!(n, 56);
    assert_eq!((r.dir_records_this_disk, r.directory_records, r.directory_size, r.directory_offset), (5, 6, 700, 800));
    assert!(matches!(EndOfCentralDirectory64Record::parser(&rec[..55]), Err(ParseError::Incomplete)));
}

fn located_eocdr(offset: u64, size: u32, dir_offset: u32) -> Located<EndOfCentralDirectoryRecord> {
    let bytes = eocd_bytes(1, size, dir_offset, b"");
    let (_, rec) = EndOfCentralDirectoryRecord::parser(&bytes).unwrap();
    Located { offset, inner: rec }
}

#[test]
fn eocd_accounts_for_leading_data() {
    // the directory ends at 1100 and is 100 bytes long, but the record says
    // it starts at 0: 1000 bytes precede the archive
    let eocd = EndOfCentralDirectory::new(1200, located_eocdr(1100, 100, 0), None).unwrap();
    assert_eq!(eocd.global_offset, 1000);
    assert_eq!(eocd.directory_offset(), 1000);
    // where the record is right, nothing changes
    let eocd = EndOfCentralDirectory::new(1200, located_eocdr(1100, 100, 1000), None).unwrap();
    assert_eq!(eocd.global_offset, 0);
    assert_eq!(eocd.directory_offset(), 1000);
    // a directory larger than what precedes the record keeps the recorded
    // offset, which lies outside the file
    match EndOfCentralDirectory::new(1200, located_eocdr(50, 100, 5000), None) {
        Err(Error::Format(FormatError::DirectoryOffsetPointsOutsideFile)) => {}
        _ => panic!("expected an error"),
    }
}

#[test]
fn extra_fields_parse() {
    let settings = ExtraFieldSettings {
        needs_uncompressed_size: true,
        needs_compressed_size: false,
        needs_header_offset: true,
    };
    let mut zip64 = vec![0x01, 0x00, 16, 0];
    zip64.extend_from_slice(&(5u64 << 32).to_le_bytes());
    zip64.extend_from_slice(&77u64.to_le_bytes());
    let (n, f) = ExtraField::parse(&zip64, settings).unwrap();
    assert_eq!(n, 20);
    match f {
        ExtraField::Zip64(z) => {
            assert_eq!(z.uncompressed_size, Some(5u64 << 32));
            assert_eq!(z.compressed_size, None);
            assert_eq!(z.header_offset, Some(77));
        }
        _ => panic!("expected a zip64 field"),
    }
    let ts = [0x55, 0x54, 5, 0, 1, 0x10, 0, 0, 0];
    match ExtraField::parse(&ts, settings).unwrap().1 {
        ExtraField::Timestamp(t) => assert_eq!(t.mtime, 16),
        _ => panic!("expected a timestamp"),
    }
    let unknown = [0x34, 0x12, 1, 0, 9];
    match ExtraField::parse(&unknown, settings).unwrap().1 {
        ExtraField::Unknown { tag } => assert_eq!(tag, 0x1234),
        _ => panic!("expected an unknown field"),
    }
    assert!(ExtraField::parse(&unknown[..4], settings).is_err());
}

#[test]
fn modes_convert_and_print() {
    let m = Mode::from(UnixMode(0o040755));
    assert_eq!(m.to_string(), "drwxr-xr-x");
    let m = Mode::from(UnixMode(0o100644));
    assert_eq!(m.to_string(), "-rw-r--r--");
    let m = Mode::from(UnixMode(0o120777));
    assert_eq!(m.to_string(), "Lrwxrwxrwx");
    // a character device is a device, and a character device
    let m = Mode::from(UnixMode(0o020666));
    assert_eq!(m.0, rc_zip::parse::mode::MODE_DEVICE | rc_zip::parse::mode::MODE_CHAR_DEVICE | 0o666);
    assert_eq!(m.to_string(), "Dcrw-rw-rw-");
    let m = Mode::from(MsdosMode(0x10));
    assert_eq!(m.to_string(), "drwxrwxrwx");
    // the read-only attribute keeps the write bits only (as the mask is written)
    let m = Mode::from(MsdosMode(0x01));
    assert_eq!(m.to_string(), "--w--w--w-");
    assert_eq!(Mode(0).to_string(), "----------");
    assert!(Mode(0o644).has(Mode(0o400)));
    assert_eq!(Mode(0o600).union(Mode(0o044)).0, 0o644);
}

#[test]
fn utf8_detection() {
    assert_eq!(detect_utf8(b"plain.txt"), (true, false));
    assert_eq!(detect_utf8("héllo".as_bytes()), (true, true));
    assert_eq!(detect_utf8(b"back\\slash"), (true, true));
    assert_eq!(detect_utf8(&[0xff, 0xfe]), (false, false));
    assert!(is_entry_non_utf8(&[0x82], b"", 0));
    assert!(!is_entry_non_utf8(b"ascii", b"", 0));
    assert!(is_entry_non_utf8("é".as_bytes(), b"", 0));
    assert!(!is_entry_non_utf8("é".as_bytes(), b"", 0x800));
}

#[test]
fn decoding_in_each_encoding() {
    assert_eq!(Encoding::Utf8.decode("ok é".as_bytes()).unwrap(), "ok é");
    assert!(matches!(Encoding::Utf8.decode(&[0xff]), Err(DecodingError::Utf8Error(_))));
    assert_eq!(Encoding::Cp437.decode(&[0x82, 0xb0]).unwrap(), "é░");
    assert_eq!(Encoding::ShiftJis.decode(&[0x83, 0x65, 0x83, 0x58, 0x83, 0x67]).unwrap(), "テスト");
    assert!(matches!(Encoding::ShiftJis.decode(&[0x81]), Err(DecodingError::EncodingError(_))));
    assert_eq!(Encoding::Cp437.decode_vec(vec![b'a']).unwrap(), "a");
}

#[test]
fn validation_checks_size_before_checksum() {
    let bytes = local_header(0, b"x", b"");
    let (_, header) = LocalFileHeaderRecord::parser(&bytes).unwrap();
    let entry = StoredEntryInner { crc32: 7, compressed_size: 3, uncompressed_size: 3, is_zip64: false };
    let good = EntryReadMetrics { uncompressed_size: 3, crc32: 7 };
    assert!(validate(Some(entry), &header, good, None).is_ok());
    let both_wrong = EntryReadMetrics { uncompressed_size: 4, crc32: 8 };
    match validate(Some(entry), &header, both_wrong, None) {
        Err(Error::Format(FormatError::WrongSize { expected, actual })) => assert_eq!((expected, actual), (3, 4)),
        _ => panic!("expected a size error"),
    }
    let crc_wrong = EntryReadMetrics { uncompressed_size: 3, crc32: 8 };
    match validate(Some(entry), &header, crc_wrong, None) {
        Err(Error::Format(FormatError::WrongChecksum { expected, actual })) => assert_eq!((expected, actual), (7, 8)),
        _ => panic!("expected a checksum error"),
    }
    // without central directory values, the descriptor's count, then the header's
    let descriptor = DataDescriptorRecord { crc32: 8, compressed_size: 3, uncompressed_size: 3 };
    assert!(validate(None, &header, crc_wrong, Some(descriptor)).is_ok());
    match validate(None, &header, good, None) {
        Err(Error::Format(FormatError::WrongSize { expected, actual })) => assert_eq!((expected, actual), (20, 3)),
        _ => panic!("expected a size error"),
    }
    // a zero checksum is not checked
    let zero = StoredEntryInner { crc32: 0, compressed_size: 3, uncompressed_size: 3, is_zip64: false };
    let descriptor0 = DataDescriptorRecord { crc32: 0, compressed_size: 3, uncompressed_size: 3 };
    assert!(validate(Some(zero), &header, crc_wrong, Some(descriptor0)).is_ok());
}

#[test]
fn limited_reader_counts() {
    let mut r = LimitedReader::new(vec![1u8, 2, 3], 10);
    assert_eq!(r.read_len(4), 4);
    r.consumed(4);
    assert_eq!(r.remaining(), 6);
    assert_eq!(r.read_len(100), 6);
    r.as_inner_mut().push(4);
    assert_eq!(r.into_inner(), vec![1, 2, 3, 4]);
    let mut d = StoreDecoder::new(5u32);
    *d.as_inner_mut() += 1;
    assert_eq!(d.into_inner(), 6);
    let mut e = EOFNormalizer::new(String::from("a"));
    e.as_inner_mut().push('b');
}

#[test]
fn inflate_flags_match_miniz() {
    assert_eq!(
        INFLATE_FLAG_HAS_MORE_INPUT,
        miniz_oxide::inflate::core::inflate_flags::TINFL_FLAG_HAS_MORE_INPUT
    );
    assert_eq!(
        INFLATE_FLAG_IGNORE_ADLER32,
        miniz_oxide::inflate::core::inflate_flags::TINFL_FLAG_IGNORE_ADLER32
    );
}

#[test]
fn central_header_converts() {
    let mut h = vec![0x50, 0x4b, 0x01, 0x02, 0x1e, 0x03, 20, 0, 0, 0, 0, 0];
    h.extend_from_slice(&[0x10, 0x75, 0x0a, 0x41]);
    h.extend_from_slice(&1u32.to_le_bytes());
    h.extend_from_slice(&2u32.to_le_bytes());
    h.extend_from_slice(&3u32.to_le_bytes());
    h.extend_from_slice(&4u16.to_le_bytes()); // name
    h.extend_from_slice(&0u16.to_le_bytes()); // extra
    h.extend_from_slice(&1u16.to_le_bytes()); // comment
    h.extend_from_slice(&[0, 0, 0, 0]);
    h.extend_from_slice(&(0o040755u32 << 16).to_le_bytes());
    h.extend_from_slice(&50u32.to_le_bytes());
    h.extend_from_slice(b"dir/c");
    let (n, header) = CentralDirectoryFileHeader::parser(&h).unwrap();
    assert_eq!(n, h.len());
    assert!(!header.is_non_utf8());
    let entry = header.as_entry(Encoding::Utf8, 10).unwrap();
    assert_eq!(entry.name, "dir/");
    assert_eq!(entry.comment, "c");
    assert_eq!(entry.header_offset, 60);
    assert_eq!(entry.mode.to_string(), "drwxr-xr-x");
    assert_eq!(entry.sanitized_name(), Some("dir/"));
    match header.as_entry(Encoding::Utf8, -51) {
        Err(Error::Format(FormatError::InvalidHeaderOffset)) => {}
        _ => panic!("expected an offset error"),
    }
    let (e, inner) = header.as_stored_entry(true, Encoding::Utf8, 0).unwrap();
    assert_eq!(e.header_offset, 50);
    assert_eq!(inner, StoredEntryInner { crc32: 1, compressed_size: 2, uncompressed_size: 3, is_zip64: true });
}

#[test]
fn zip_strings() {
    let (n, s) = ZipString::parser(b"abcdef", 3).unwrap();
    assert_eq!(n, 3);
    assert_eq!(s.0, b"abc".to_vec());
    assert!(ZipString(Vec::new()).as_option().is_none());
    assert!(ZipString(vec![1]).as_option().is_some());
}

#[test]
fn encodings_are_named() {
    assert_eq!(Encoding::Utf8.to_string(), "utf-8");
    assert_eq!(Encoding::Cp437.to_string(), "cp-437");
    assert_eq!(Encoding::ShiftJis.to_string(), "shift-jis");
}

/// Days from 1970-01-01 to the given proleptic Gregorian date.
fn days_from_civil(y: i64, m: i64, d: i64) -> i64 {
    let y2 = if m <= 2 { y - 1 } else { y };
    let era = y2.div_euclid(400);
    let year_of_era = y2 - era * 400;
    let month_from_march = (m + 9) % 12;
    let day_of_year = (153 * month_from_march + 2) / 5 + d - 1;
    let day_of_era = year_of_era * 365 + year_of_era / 4 - year_of_era / 100 + day_of_year;
    era * 146097 + day_of_era - 719468
}

fn days_in_month(y: i64, m: i64) -> i64 {
    let leap = y % 4 == 0 && (y % 100 != 0 || y % 400 == 0);
    match m {
        2 => if leap { 29 } else { 28 },
        4 | 6 | 9 | 11 => 30,
        _ => 31,
    }
}

#[test]
fn msdos_dates_follow_the_calendar() {
    for date in 0..=u16::MAX {
        for &time in &[0u16, (23 << 11) | (59 << 5) | 29, (12 << 11) | (30 << 5) | 30, 24 << 11] {
            let t = MsdosTimestamp { time, date };
            let year = (date >> 9) as i64 + 1980;
            let month = ((date >> 5) & 15) as i64;
            let day = (date & 31) as i64;
            let hour = (time >> 11) as i64;
            let minute = ((time >> 5) & 63) as i64;
            let second = (time & 31) as i64 * 2;
            let valid = (1..=12).contains(&month)
                && day >= 1
                && day <= days_in_month(year, month)
                && hour < 24
                && minute < 60
                && second < 60;
            let expected = if valid {
                Some(days_from_civil(year, month, day) * 86400 + hour * 3600 + minute * 60 + second)
            } else {
                None
            };
            assert_eq!(t.to_datetime().map(|d| d.secs), expected, "date {:#x} time {:#x}", date, time);
        }
    }
}

#[test]
fn format_errors_are_described() {
    assert_eq!(FormatError::DirectoryEndSignatureNotFound.to_string(), "end of central directory record not found");
    assert_eq!(
        FormatError::InvalidCentralRecord { expected: 3, actual: 20 }.to_string(),
        "invalid central record: expected to read 3 files, got 20"
    );
    assert_eq!(
        FormatError::ImpossibleNumberOfFiles { claimed_records_count: 18446744073709551615, zip_size: 0 }.to_string(),
        "impossible number of files: claims to have 18446744073709551615, but zip size is 0"
    );
    assert_eq!(
        FormatError::WrongSize { expected: 1024, actual: 7 }.to_string(),
        "uncompressed size didn't match: expected 1024, got 7"
    );
    assert_eq!(
        FormatError::WrongChecksum { expected: 0xdeadbeef, actual: 0x1a }.to_string(),
        "checksum didn't match: expected deadbeef, got 1a"
    );
    assert_eq!(FormatError::InvalidDataDescriptor.to_string(), "invalid data descriptor");
}

#[test]
fn decode_vec_agrees_with_decode() {
    assert!(matches!(Encoding::Utf8.decode_vec(vec![0xff]), Err(DecodingError::Utf8Error(_))));
    assert!(matches!(Encoding::Utf8.decode(&[0xff]), Err(DecodingError::Utf8Error(_))));
    assert_eq!(Encoding::Utf8.decode_vec(b"abc".to_vec()).unwrap(), "abc");
    for enc in [Encoding::Utf8, Encoding::Cp437, Encoding::ShiftJis] {
        for bytes in [&b"plain"[..], &[0x82, 0xa0][..], &[0xff, 0x80][..]] {
            let a = enc.decode(bytes);
            let b = enc.decode_vec(bytes.to_vec());
            match (a, b) {
                (Ok(x), Ok(y)) => assert_eq!(x, y),
                (Err(DecodingError::Utf8Error(_)), Err(DecodingError::Utf8Error(_))) => {}
                (Err(DecodingError::EncodingError(_)), Err(DecodingError::EncodingError(_))) => {}
                _ => panic!("decode and decode_vec disagree"),
            }
        }
    }
}
