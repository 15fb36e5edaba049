use rc_zip::encoding::{choose_encoding, Encoding, EncodingGuess};
use rc_zip::error::{Error, FormatError, UnsupportedError};
use rc_zip::fsm::entry::StoredEntryInner;
use rc_zip::fsm::{ArchiveFsm, EntryFsm, FsmResult, ReadBuffer};
use rc_zip::parse::{Archive, Entry, EntryKind, ExtraField, ExtraNewUnixField, Method};
use rc_zip::reader::{ArchiveReader, ArchiveReaderResult};

struct TestFile {
    name: Vec<u8>,
    data: Vec<u8>,
    method: u16,
    flags: u16,
    comment: Vec<u8>,
    external_attrs: u32,
    creator: u16,
    time: u16,
    date: u16,
    descriptor: bool,
}

fn file(name: &str, data: &[u8]) -> TestFile {
    TestFile {
        name: name.as_bytes().to_vec(),
        data: data.to_vec(),
        method: 0,
        flags: 0,
        comment: Vec::new(),
        external_attrs: 0o100644 << 16,
        creator: 0x031e,
        time: (14 << 11) | (33 << 5) | (32 / 2),
        date: ((2012 - 1980) << 9) | (8 << 5) | 10,
        descriptor: false,
    }
}

fn put16(v: &mut Vec<u8>, x: u16) {
    v.extend_from_slice(&x.to_le_bytes());
}

fn put32(v: &mut Vec<u8>, x: u32) {
    v.extend_from_slice(&x.to_le_bytes());
}

fn put64(v: &mut Vec<u8>, x: u64) {
    v.extend_from_slice(&x.to_le_bytes());
}

fn compress(f: &TestFile) -> Vec<u8> {
    if f.method == 8 {
        miniz_oxide::deflate::compress_to_vec(&f.data, 6)
    } else {
        f.data.clone()
    }
}

/// Builds an archive of `files` with comment `comment`; zip64 records when
/// `zip64`; `prefix` bytes of padding before it (offsets in the records do
/// not count them).
fn build_zip(files: &[TestFile], comment: &[u8], zip64: bool, prefix: usize) -> Vec<u8> {
    let mut out = vec![0xAAu8; prefix];
    let mut central = Vec::new();
    for f in files {
        let offset = (out.len() - prefix) as u64;
        let data = compress(f);
        let crc = crc32fast::hash(&f.data);
        let flags = if f.descriptor { f.flags | 0x8 } else { f.flags };
        // local header
        put32(&mut out, 0x04034b50);
        put16(&mut out, 20);
        put16(&mut out, flags);
        put16(&mut out, f.method);
        put16(&mut out, f.time);
        put16(&mut out, f.date);
        if f.descriptor {
            put32(&mut out, 0);
            put32(&mut out, 0);
            put32(&mut out, 0);
        } else {
            put32(&mut out, crc);
            put32(&mut out, data.len() as u32);
            put32(&mut out, f.data.len() as u32);
        }
        put16(&mut out, f.name.len() as u16);
        put16(&mut out, 0);
        out.extend_from_slice(&f.name);
        out.extend_from_slice(&data);
        if f.descriptor {
            put32(&mut out, 0x08074b50);
            put32(&mut out, crc);
            if zip64 {
                put64(&mut out, data.len() as u64);
                put64(&mut out, f.data.len() as u64);
            } else {
                put32(&mut out, data.len() as u32);
                put32(&mut out, f.data.len() as u32);
            }
        }
        // central directory header
        put32(&mut central, 0x02014b50);
        put16(&mut central, f.creator);
        put16(&mut central, 20);
        put16(&mut central, flags);
        put16(&mut central, f.method);
        put16(&mut central, f.time);
        put16(&mut central, f.date);
        put32(&mut central, crc);
        let mut extra = Vec::new();
        if zip64 {
            put32(&mut central, 0xFFFF_FFFF);
            put32(&mut central, 0xFFFF_FFFF);
            put16(&mut extra, 0x0001);
            put16(&mut extra, 24);
            put64(&mut extra, f.data.len() as u64);
            put64(&mut extra, data.len() as u64);
            put64(&mut extra, offset);
        } else {
            put32(&mut central, data.len() as u32);
            put32(&mut central, f.data.len() as u32);
        }
        put16(&mut central, f.name.len() as u16);
        put16(&mut central, extra.len() as u16);
        put16(&mut central, f.comment.len() as u16);
        put16(&mut central, 0);
        put16(&mut central, 0);
        put32(&mut central, f.external_attrs);
        put32(&mut central, if zip64 { 0xFFFF_FFFF } else { offset as u32 });
        central.extend_from_slice(&f.name);
        central.extend_from_slice(&extra);
        central.extend_from_slice(&f.comment);
    }
    let dir_offset = (out.len() - prefix) as u64;
    let dir_size = central.len() as u64;
    out.extend_from_slice(&central);
    if zip64 {
        let record_offset = (out.len() - prefix) as u64;
        put32(&mut out, 0x06064b50);
        put64(&mut out, 44);
        put16(&mut out, 45);
        put16(&mut out, 45);
        put32(&mut out, 0);
        put32(&mut out, 0);
        put64(&mut out, files.len() as u64);
        put64(&mut out, files.len() as u64);
        put64(&mut out, dir_size);
        put64(&mut out, dir_offset);
        put32(&mut out, 0x07064b50);
        put32(&mut out, 0);
        put64(&mut out, record_offset);
        put32(&mut out, 1);
    }
    put32(&mut out, 0x06054b50);
    put16(&mut out, 0);
    put16(&mut out, 0);
    let count = if zip64 { 0xFFFF } else { files.len() as u16 };
    put16(&mut out, count);
    put16(&mut out, count);
    put32(&mut out, if zip64 { 0xFFFF_FFFF } else { dir_size as u32 });
    put32(&mut out, if zip64 { 0xFFFF_FFFF } else { dir_offset as u32 });
    put16(&mut out, comment.len() as u16);
    out.extend_from_slice(comment);
    out
}

/// Reads the archive in `bs` with the archive state machine, handing it at
/// most `increment` bytes at a time.
fn read_archive(bs: &[u8], increment: usize) -> Result<Archive, Error> {
    let mut fsm = ArchiveFsm::new(bs.len() as u64);
    loop {
        if let Some(offset) = fsm.wants_read() {
            let offset = offset as usize;
            let end = std::cmp::min(bs.len(), offset.saturating_add(increment));
            let slice = if offset < bs.len() { &bs[offset..end] } else { &bs[0..0] };
            let room = fsm.space();
            let len = std::cmp::min(slice.len(), room);
            if len == 0 {
                panic!("EOF!");
            }
            let taken = fsm.fill(&slice[..len]);
            assert_eq!(taken, len);
        }
        match fsm.process()? {
            FsmResult::Continue(()) => {}
            FsmResult::Done(archive) => return Ok(archive),
        }
    }
}

/// Reads the contents of `entry` from the archive bytes `bs` (which start
/// `prefix` bytes into the file) with the entry state machine.
fn read_entry(bs: &[u8], entry: &Entry, is_zip64: bool) -> Result<Vec<u8>, Error> {
    let inner = StoredEntryInner {
        crc32: entry.crc32,
        compressed_size: entry.compressed_size,
        uncompressed_size: entry.uncompressed_size,
        is_zip64,
    };
    let mut fsm = EntryFsm::new(Some(inner));
    let mut offset = entry.header_offset as usize;
    let mut contents = Vec::new();
    let mut out = vec![0u8; 1000];
    for _ in 0..100_000 {
        if fsm.wants_read() {
            let room = fsm.space();
            let end = std::cmp::min(bs.len(), offset + std::cmp::min(room, 77));
            let slice = if offset < bs.len() { &bs[offset..end] } else { &bs[0..0] };
            let n = fsm.fill(slice);
            offset += n;
        }
        match fsm.process(&mut out)? {
            FsmResult::Continue((next, outcome)) => {
                contents.extend_from_slice(&out[..outcome.bytes_written]);
                fsm = next;
            }
            FsmResult::Done(_) => return Ok(contents),
        }
    }
    panic!("the entry reader did not finish");
}

const README: &[u8] = b"This small file is in ZIP64 format.\n";

fn zip64_archive() -> Vec<u8> {
    let mut f = file("README", README);
    f.external_attrs = 0o100644 << 16;
    build_zip(&[f], b"", true, 0)
}

/// Reads a small zip64 archive built in memory (no archive file is read).
#[test]
fn state_machine() {
    let bs = zip64_archive();
    let archive = read_archive(&bs, 128).unwrap();
    assert_eq!(archive.entries().len(), 1);
    assert_eq!(archive.entries()[0].name, "README");
}

/// Drives the archive reader over a small zip64 archive built in memory
/// (no archive file is read).
#[test]
fn lib_test_fsm() {
    let bs = zip64_archive();
    let mut zar = ArchiveReader::new(bs.len() as u64);
    let archive = 'read_zip: loop {
        if let Some(offset) = zar.wants_read() {
            let increment = 128usize;
            let offset = offset as usize;
            let slice = if offset + increment > bs.len() {
                &bs[offset..]
            } else {
                &bs[offset..offset + increment]
            };
            let len = std::cmp::min(slice.len(), zar.space());
            match len {
                0 => panic!("EOF!"),
                _ => {
                    zar.fill(&slice[..len]);
                }
            }
        }
        match zar.process() {
            Ok(ArchiveReaderResult::Continue) => {}
            Ok(ArchiveReaderResult::Done(archive)) => break 'read_zip archive,
            Err(err) => panic!("zar processing error: {:#?}", err),
        }
    };
    assert_eq!(archive.entries().len(), 1);
}

#[test]
fn tests_test_fsm() {
    let bs = zip64_archive();
    let mut zar = ArchiveReader::new(bs.len() as u64);
    let mut steps = 0;
    let archive = loop {
        steps += 1;
        assert!(steps < 10_000);
        if let Some(offset) = zar.wants_read() {
            let offset = offset as usize;
            let end = std::cmp::min(bs.len(), offset + 128);
            let n = zar.fill(&bs[offset..end]);
            assert!(n > 0, "EOF!");
        }
        match zar.process().unwrap() {
            ArchiveReaderResult::Continue => {}
            ArchiveReaderResult::Done(archive) => break archive,
        }
    };
    let entry = archive.by_name("README").unwrap();
    assert_eq!(read_entry(&bs, entry, true).unwrap(), README);
}

/// Detects the encoding of names in archives built in memory, one per
/// encoding (no archive file is read).
#[test]
fn detect_encodings() {
    // UTF-8 names, flagged as such
    let mut f = file("héllo wörld.txt", b"x");
    f.flags = 0x800;
    let bs = build_zip(&[f], b"", false, 0);
    assert_eq!(read_archive(&bs, 4096).unwrap().encoding(), Encoding::Utf8);

    // plain ASCII names
    let bs = build_zip(&[file("hello.txt", b"x")], b"", false, 0);
    assert_eq!(read_archive(&bs, 4096).unwrap().encoding(), Encoding::Utf8);

    // CP-437 names: not UTF-8, and no box drawing characters
    let mut f = file("x", b"x");
    f.name = vec![b'c', 0x82, b't', 0x82, b'.', b't', b'x', b't'];
    let bs = build_zip(&[f], b"", false, 0);
    let archive = read_archive(&bs, 4096).unwrap();
    assert_eq!(archive.encoding(), Encoding::Cp437);
    assert_eq!(archive.entries()[0].name, "cété.txt");

    // names that are not UTF-8 and hold box drawing characters: the
    // encoding is what the detector makes of them
    let name: Vec<u8> = vec![0x83, 0x65, 0x83, 0x58, 0x83, 0x67, 0xC3, 0xBD, 0xC4, b'.', b't', b'x', b't'];
    let mut f = file("x", b"x");
    f.name = name.clone();
    let bs = build_zip(&[f], b"", false, 0);
    let archive = read_archive(&bs, 4096).unwrap();
    let mut guess = EncodingGuess::new();
    guess.feed(&name);
    guess.feed(b"");
    assert_eq!(archive.encoding(), choose_encoding(false, guess.guess(), true));
}

/// Reads archives built in memory (no archive file is read).
#[test]
fn test_reader() {
    let mut a = file("a.txt", b"hello, world\n");
    a.comment = b"first file".to_vec();
    let mut dir = file("sub/", b"");
    dir.external_attrs = 0o040755 << 16;
    let bs = build_zip(&[a, dir, file("sub/b.txt", b"bbb")], b"an archive comment", false, 0);
    let archive = read_archive(&bs, 100).unwrap();
    assert_eq!(archive.comment(), "an archive comment");
    assert_eq!(archive.entries().len(), 3);
    assert_eq!(archive.size(), bs.len() as u64);
    let entry = archive.by_name("a.txt").expect("should have specific test file");
    assert_eq!(entry.comment, "first file");
    assert_eq!(entry.modified.secs, 1344609212);
    assert_eq!(entry.modified.nanos, 0);
    assert_eq!(entry.mode.0 & 0o777, 0o644);
    assert!(matches!(entry.kind(), EntryKind::File));
    let d = archive.by_name("sub/").unwrap();
    assert!(matches!(d.kind(), EntryKind::Directory));
    assert!(archive.by_name("missing.txt").is_none());
}

/// Reads an archive built in memory with the kinds of entries real
/// archives hold: stored, deflated, with a data descriptor, and empty (no
/// archive file is read).
#[test]
fn real_world_files() {
    let text: Vec<u8> = (0..20_000u32).map(|i| b"the quick brown fox "[(i % 20) as usize]).collect();
    let mut deflated = file("deflated.txt", &text);
    deflated.method = 8;
    let mut described = file("described.bin", b"with a data descriptor");
    described.descriptor = true;
    let mut empty = file("empty", b"");
    empty.method = 8;
    let bs = build_zip(&[file("stored.txt", b"stored bytes"), deflated, described, empty], b"", false, 0);
    let archive = read_archive(&bs, 64).unwrap();
    for (name, expected) in [
        ("stored.txt", b"stored bytes".to_vec()),
        ("deflated.txt", text.clone()),
        ("described.bin", b"with a data descriptor".to_vec()),
        ("empty", Vec::new()),
    ] {
        let entry = archive.by_name(name).unwrap();
        assert_eq!(read_entry(&bs, entry, false).unwrap(), expected, "{}", name);
    }
}

#[test]
fn zip64_descriptor_entry() {
    let mut f = file("d.bin", b"zip64 with a descriptor");
    f.descriptor = true;
    f.method = 8;
    let bs = build_zip(&[f], b"", true, 0);
    let archive = read_archive(&bs, 50).unwrap();
    let entry = &archive.entries()[0];
    assert_eq!(read_entry(&bs, entry, true).unwrap(), b"zip64 with a descriptor");
}

#[test]
fn leading_padding_sets_global_offset() {
    let mut bs = build_zip(&[file("a.txt", b"abc"), file("b.txt", b"def")], b"", false, 0);
    let mut padded = vec![0x7fu8; 1000];
    padded.append(&mut bs);
    let archive = read_archive(&padded, 256).unwrap();
    let a = archive.by_name("a.txt").unwrap();
    assert_eq!(a.header_offset, 1000);
    assert_eq!(read_entry(&padded, archive.by_name("b.txt").unwrap(), false).unwrap(), b"def");
}

#[test]
fn missing_end_record_is_reported() {
    let bs = vec![0u8; 300];
    match read_archive(&bs, 128) {
        Err(Error::Format(FormatError::DirectoryEndSignatureNotFound)) => {}
        other => panic!("unexpected: {:?}", other.map(|a| a.entries().len())),
    }
}

#[test]
fn wrong_record_count_is_reported() {
    let mut bs = build_zip(&[file("a", b"1"), file("b", b"2")], b"", false, 0);
    // the end of central directory record claims three entries
    let n = bs.len();
    bs[n - 22 + 8] = 3;
    bs[n - 22 + 10] = 3;
    match read_archive(&bs, 128) {
        Err(Error::Format(FormatError::InvalidCentralRecord { expected, actual })) => {
            assert_eq!(expected, 2);
            assert_eq!(actual, 3);
        }
        other => panic!("unexpected: {:?}", other.is_ok()),
    }
}

#[test]
fn bad_zip64_record_is_reported() {
    let mut bs = zip64_archive();
    // break the signature of the zip64 end of central directory record
    let n = bs.len();
    let record = n - 22 - 20 - 56;
    bs[record] = b'X';
    match read_archive(&bs, 128) {
        Err(Error::Format(FormatError::Directory64EndRecordInvalid)) => {}
        other => panic!("unexpected: {:?}", other.is_ok()),
    }
}

#[test]
fn corrupted_entry_fails_its_checksum() {
    let mut bs = build_zip(&[file("a.txt", b"hello")], b"", false, 0);
    let archive = read_archive(&bs, 128).unwrap();
    let entry = &archive.entries()[0];
    // flip a byte of the stored data (after the 30-byte header and the name)
    bs[30 + 5] ^= 0xFF;
    match read_entry(&bs, entry, false) {
        Err(Error::Format(FormatError::WrongChecksum { expected, actual })) => {
            assert_eq!(expected, crc32fast::hash(b"hello"));
            assert_eq!(actual, crc32fast::hash(&bs[35..40]));
        }
        other => panic!("unexpected: {:?}", other.is_ok()),
    }
}

#[test]
fn unsupported_method_is_reported() {
    let mut f = file("a.ppmd", b"");
    f.method = 98;
    let bs = build_zip(&[f], b"", false, 0);
    let archive = read_archive(&bs, 128).unwrap();
    let entry = &archive.entries()[0];
    assert_eq!(entry.method, Method::Ppmd);
    match read_entry(&bs, entry, false) {
        Err(Error::Unsupported(UnsupportedError::MethodNotSupported(m))) => assert_eq!(m, Method::Ppmd),
        other => panic!("unexpected: {:?}", other.is_ok()),
    }
}

#[test]
fn garbage_local_header_is_reported() {
    let bs = build_zip(&[file("a.txt", b"hello")], b"", false, 0);
    let archive = read_archive(&bs, 128).unwrap();
    let mut entry_bytes = bs.clone();
    entry_bytes[0] = b'X';
    match read_entry(&entry_bytes, &archive.entries()[0], false) {
        Err(Error::Format(FormatError::InvalidLocalHeader)) => {}
        other => panic!("unexpected: {:?}", other.is_ok()),
    }
}

#[test]
fn oversized_local_entry_without_directory_is_refused() {
    let mut header = vec![0x50, 0x4b, 0x03, 0x04, 20, 0, 0, 0, 0, 0, 0, 0, 0, 0];
    header.extend_from_slice(&0u32.to_le_bytes());
    header.extend_from_slice(&u32::MAX.to_le_bytes());
    header.extend_from_slice(&u32::MAX.to_le_bytes());
    header.extend_from_slice(&1u16.to_le_bytes());
    header.extend_from_slice(&0u16.to_le_bytes());
    header.push(b'x');
    let mut fsm = EntryFsm::new(None);
    fsm.fill(&header);
    let mut out = [0u8; 16];
    match fsm.process(&mut out) {
        Err(Error::Decompression { method, msg }) => {
            assert_eq!(method, Method::Store);
            assert!(msg.contains("4GiB"));
        }
        _ => panic!("expected a decompression error"),
    }
}

#[test]
fn directory_outside_the_file_is_reported() {
    // an end of central directory record alone, claiming a directory of 100
    // bytes at 1000: it cannot end right before the record either
    let mut bs = vec![0x50, 0x4b, 0x05, 0x06, 0, 0, 0, 0, 0, 0, 0, 0];
    bs.extend_from_slice(&100u32.to_le_bytes());
    bs.extend_from_slice(&1000u32.to_le_bytes());
    bs.extend_from_slice(&0u16.to_le_bytes());
    match read_archive(&bs, 128) {
        Err(Error::Format(FormatError::DirectoryOffsetPointsOutsideFile)) => {}
        other => panic!("unexpected: {:?}", other.is_ok()),
    }
}

#[test]
fn empty_archive_reads() {
    let bs = build_zip(&[], b"", false, 0);
    let archive = read_archive(&bs, 128).unwrap();
    assert_eq!(archive.entries().len(), 0);
    assert_eq!(archive.comment(), "");
    assert_eq!(archive.encoding(), Encoding::Utf8);
}

#[test]
fn buffer_takes_what_fits_in_its_room() {
    let mut b = ReadBuffer::with_capacity(10);
    assert_eq!(b.available_space(), 10);
    assert_eq!(b.fill(b"abcd"), 4);
    assert_eq!(b.data(), b"abcd");
    assert_eq!(b.available_space(), 6);
    b.consume(2);
    assert_eq!(b.data(), b"cd");
    assert_eq!(b.available_space(), 6);
    b.shift();
    assert_eq!(b.available_space(), 8);
    assert_eq!(b.fill(b"efghijklmnop"), 8);
    assert_eq!(b.data(), b"cdefghijkl");
    assert_eq!(b.available_space(), 0);
    assert_eq!(b.space(), 0);
    assert_eq!(b.fill(b"xyz"), 0);
    assert_eq!(b.read_bytes(), 12);
    assert_eq!(b.read_offset(100), 112);
    b.reset();
    assert_eq!(b.read_bytes(), 0);
    assert_eq!(b.available_space(), 10);
    assert_eq!(b.data(), b"");
}

#[test]
fn new_unix_field_sets_owner_and_group() {
    let bs = build_zip(&[file("a.txt", b"abc")], b"", false, 0);
    let mut archive = read_archive(&bs, 128).unwrap();
    let e = &mut archive.entries[0];
    e.set_extra_field(&ExtraField::NewUnix(ExtraNewUnixField { uid: 1000, gid: 100 }));
    assert_eq!(e.uid, Some(1000));
    assert_eq!(e.gid, Some(100));
}

#[test]
fn windows_names_are_sanitized() {
    let bs = build_zip(
        &[file("c:\\evil.txt", b"a"), file("\\root.txt", b"b"), file("a\\..\\b", b"c"), file("dir\\ok.txt", b"d")],
        b"",
        false,
        0,
    );
    let archive = read_archive(&bs, 128).unwrap();
    let names: Vec<Option<&str>> = archive.entries().iter().map(|e| e.sanitized_name_windows()).collect();
    assert_eq!(names, vec![None, None, None, Some("dir\\ok.txt")]);
}

#[test]
fn entry_output_always_starts_the_data() {
    let text: Vec<u8> = (0..9_000u32).map(|i| (i * 31 % 253) as u8).collect();
    let mut deflated = file("deflated.bin", &text);
    deflated.method = 8;
    let bs = build_zip(&[deflated], b"", false, 0);
    let archive = read_archive(&bs, 64).unwrap();
    let entry = archive.by_name("deflated.bin").unwrap();
    let inner = StoredEntryInner {
        crc32: entry.crc32,
        compressed_size: entry.compressed_size,
        uncompressed_size: entry.uncompressed_size,
        is_zip64: false,
    };
    let mut fsm = EntryFsm::new(Some(inner));
    let mut offset = entry.header_offset as usize;
    let mut contents = Vec::new();
    let mut out = vec![0u8; 7];
    let mut done = false;
    for _ in 0..100_000 {
        if fsm.wants_read() {
            let room = fsm.space();
            let end = std::cmp::min(bs.len(), offset + std::cmp::min(room, 13));
            let n = fsm.fill(&bs[offset..end]);
            offset += n;
        }
        match fsm.process(&mut out).unwrap() {
            FsmResult::Continue((next, outcome)) => {
                contents.extend_from_slice(&out[..outcome.bytes_written]);
                assert!(contents.len() <= text.len());
                assert_eq!(&contents[..], &text[..contents.len()]);
                fsm = next;
            }
            FsmResult::Done(_) => {
                done = true;
                break;
            }
        }
    }
    assert!(done);
    assert_eq!(contents, text);
}

#[test]
fn eocd_search_asks_for_the_next_bytes() {
    let size: u64 = 1_000_000;
    let mut fsm = ArchiveFsm::new(size);
    assert_eq!(fsm.wants_read(), Some(size - 66560));
    let chunk = vec![0u8; 100];
    let room = fsm.space();
    assert!(room >= 300);
    assert_eq!(fsm.fill(&chunk), 100);
    assert_eq!(fsm.wants_read(), Some(size - 66560 + 100));
    let chunk = vec![0u8; 200];
    assert_eq!(fsm.fill(&chunk), 200);
    assert_eq!(fsm.wants_read(), Some(size - 66560 + 300));
}
