# rc-zip

A sans-I/O library for reading ZIP archives, verified with Verus.

The caller performs all reads; the library decides where to read next,
parses what it is handed, and says what it found.

- `src/parse/` — the records of the ZIP format (end of central directory,
  zip64 records, central directory and local file headers, extra fields,
  timestamps, modes, methods) and their parsers, each of which tells input
  that is too short apart from input that can never hold the record.
- `src/fsm/archive.rs` — the state machine that finds the end of central
  directory record, the zip64 records, reads the central directory, detects
  the encoding of names, and builds the `Archive`.
- `src/fsm/entry/` — the state machine that reads an entry's local header,
  decompresses its data (stored, DEFLATE, DEFLATE64, BZIP2, LZMA, zstd),
  reads its data descriptor, and checks its size and CRC-32.
- `src/encoding.rs` — UTF-8, CP-437 and Shift-JIS names and comments.
- `src/reader/` — the archive reader interface and the building blocks of
  entry readers.
- `app/` — the I/O around the library: reading archives from files and
  byte slices, `std::io::Read` for entries, displayable errors, and a small
  command-line sample.

Every function in `src/` carries a contract that Verus proves; calls into
the compression, checksum, encoding-detection and date crates go through
small trusted wrappers whose contracts are stated in their doc comments.
