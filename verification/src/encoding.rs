//! Character encodings used in ZIP files.
//!
//! ZIP entry paths may be encoded in a variety of character encodings:
//! historically, CP-437 was used, but many modern zip files use UTF-8 with an
//! optional UTF-8 flag.
//!
//! Others use the system's local character encoding, and we have no choice but
//! to make an educated guess thanks to the chardetng crate.
use vstd::prelude::*;
use vstd::utf8::decode_utf8;
use vstd::utf8::valid_utf8;
use vstd::utf8::encode_utf8_decode_utf8;
use vstd::utf8::decode_utf8_encode_utf8;
use vstd::utf8::encode_utf8_valid_utf8;
use vstd::utf8::encode_utf8;
use vstd::string::StringSliceAdditionalSpecFns;
use vstd::string::StringExecFns;

verus! {

#[verifier::external_type_specification]
#[verifier::external_body]
pub struct ExUtf8Error(std::str::Utf8Error);

/// Encodings supported by this crate
#[derive(Debug, Clone, Copy, PartialEq, Eq, Structural)]
pub enum Encoding {
    /// UTF-8, opt-in for ZIP files.
    Utf8,
    /// Codepage 437, also known as OEM-US, PC-8, or DOS Latin US.
    ///
    /// This is the fallback if UTF-8 is not specified and no other encoding
    /// is auto-detected. It was the original encoding of the zip format.
    Cp437,
    /// Shift JIS, also known as SJIS.
    ///
    /// Still in use by some Japanese users as of 2019.
    ShiftJis,
}

/// Errors encountered while converting text to UTF-8.
#[derive(Debug)]
pub enum DecodingError {
    /// Text claimed to be UTF-8, but wasn't (as far as we can tell).
    Utf8Error(std::str::Utf8Error),
    /// Text is too large to be converted.
    ///
    /// In practice, this happens if the text's length is larger than
    /// [usize::MAX], which seems unlikely.
    StringTooLarge,
    /// Text is not valid in the given encoding.
    EncodingError(&'static str),
}

impl From<std::str::Utf8Error> for DecodingError {
    fn from(e: std::str::Utf8Error) -> (r: Self) {
        DecodingError::Utf8Error(e)
    }
}

impl vstd::std_specs::convert::FromSpecImpl<std::str::Utf8Error> for DecodingError {
    open spec fn obeys_from_spec() -> bool {
        true
    }

    open spec fn from_spec(e: std::str::Utf8Error) -> Self {
        DecodingError::Utf8Error(e)
    }
}

/// What CP-437 decoding makes of `bytes`
/// (`oem_cp::decode_string_complete_table` with `DECODING_TABLE_CP437`).
pub uninterp spec fn spec_cp437_decode(bytes: Seq<u8>) -> Seq<char>;

/// What Shift-JIS decoding makes of `bytes`, and whether it met malformed
/// sequences (`encoding_rs::Encoding::decode` on `SHIFT_JIS`).
pub uninterp spec fn spec_shift_jis_decode(bytes: Seq<u8>) -> (Seq<char>, bool);

/// Calls `std::str::from_utf8`.
///
/// Trusted: std documents that it succeeds exactly on valid UTF-8, and that
/// the resulting `str` holds the same bytes.
#[verifier::external_body]
fn str_from_utf8(bytes: &[u8]) -> (r: Result<&str, std::str::Utf8Error>)
    ensures
        r is Ok <==> valid_utf8(bytes@),
        r matches Ok(s) ==> s.spec_bytes() == bytes@,
{
    std::str::from_utf8(bytes)
}

/// Calls `oem_cp::decode_string_complete_table` with the CP-437 table.
///
/// Trusted: the result is named `spec_cp437_decode`; the crate's source maps
/// every byte to one char, and every byte below 128 to the char of the same
/// value.
#[verifier::external_body]
fn cp437_decode(bytes: &[u8]) -> (r: String)
    ensures
        r@ == spec_cp437_decode(bytes@),
        r@.len() == bytes@.len(),
        forall|i: int| 0 <= i < bytes@.len() && bytes@[i] < 128 ==> r@[i] == bytes@[i] as char,
{
    oem_cp::decode_string_complete_table(bytes, &oem_cp::code_table::DECODING_TABLE_CP437)
}

/// Calls `encoding_rs::Encoding::decode` on `SHIFT_JIS` (with BOM sniffing,
/// malformed sequences replaced) and returns the text and whether there were
/// malformed sequences.
///
/// Trusted: the result is named `spec_shift_jis_decode`. The call only panics
/// when the text it allocates room for (at most three bytes for each input
/// byte, and one more) does not fit in `isize`, which the bound on the input
/// length rules out.
#[verifier::external_body]
fn shift_jis_decode(bytes: &[u8]) -> (r: (String, bool))
    requires
        3 * (bytes@.len() + 1) <= isize::MAX,
    ensures
        (r.0@, r.1) == spec_shift_jis_decode(bytes@),
{
    let (text, _actual_encoding, had_errors) = encoding_rs::SHIFT_JIS.decode(bytes);
    (text.into_owned(), had_errors)
}

/// Calls `encoding_rs::Encoding::name` on `SHIFT_JIS`.
#[verifier::external_body]
fn shift_jis_name() -> &'static str {
    encoding_rs::SHIFT_JIS.name()
}

/// A char that rules out CP-437 and ASCII-like encodings: a control
/// character, `~`, DEL, a non-ASCII char, or a backslash.
pub open spec fn requires_utf8_char(c: char) -> bool {
    (c as u32) < 0x20 || (c as u32) > 0x7d || (c as u32) == 0x5c
}

/// Whether `bytes` is valid UTF-8, and whether, being valid, its text
/// holds a char that must be read as UTF-8 (see [requires_utf8_char]).
pub open spec fn spec_detect_utf8(bytes: Seq<u8>) -> (bool, bool) {
    if valid_utf8(bytes) {
        (true, exists|i: int| 0 <= i < decode_utf8(bytes).len() && requires_utf8_char(decode_utf8(bytes)[i]))
    } else {
        (false, false)
    }
}

/// detect_utf8 reports whether s is a valid UTF-8 string, and whether the string
/// must be considered UTF-8 encoding (i.e., not compatible with CP-437, ASCII,
/// or any other common encoding).
pub fn detect_utf8(input: &[u8]) -> (r: (bool, bool))
    ensures
        r == spec_detect_utf8(input@),
{
    match str_from_utf8(input) {
        Err(_) => {
            // not valid utf-8
            (false, false)
        },
        Ok(s) => {
            proof {
                encode_utf8_decode_utf8(s@);
            }
            let ghost text = decode_utf8(input@);
            assert(text == s@);
            let mut require = false;
            // Officially, ZIP uses CP-437, but many readers use the system's
            // local character encoding. Most encoding are compatible with a large
            // subset of CP-437, which itself is ASCII-like.
            //
            // Forbid 0x7e and 0x5c since EUC-KR and Shift-JIS replace those
            // characters with localized currency and overline characters.
            for c in it: s.chars()
                invariant
                    text == s@,
                    it.seq() == text,
                    require <==> exists|j: int| 0 <= j < it.index() && requires_utf8_char(text[j]),
            {
                if (c as u32) < 0x20 || (c as u32) > 0x7d || (c as u32) == 0x5c {
                    require = true;
                }
            }
            (true, require)
        },
    }
}

/// Whether an entry's name and comment must be read in some other encoding
/// than UTF-8: one of them is not valid UTF-8, or one of them holds a char
/// that requires UTF-8 while the UTF-8 flag (bit 11) is not set.
pub open spec fn spec_is_entry_non_utf8(name: Seq<u8>, comment: Seq<u8>, flags: u16) -> bool {
    let (valid1, require1) = spec_detect_utf8(name);
    let (valid2, require2) = spec_detect_utf8(comment);
    if !valid1 || !valid2 {
        true
    } else if !require1 && !require2 {
        false
    } else {
        flags & 0x800 == 0
    }
}

/// Returns true if the name or comment of an entry cannot be taken as UTF-8.
pub fn is_entry_non_utf8(name: &[u8], comment: &[u8], flags: u16) -> (r: bool)
    ensures
        r == spec_is_entry_non_utf8(name@, comment@, flags),
{
    let (valid1, require1) = detect_utf8(name);
    let (valid2, require2) = detect_utf8(comment);
    if !valid1 || !valid2 {
        // definitely not utf-8
        return true;
    }
    if !require1 && !require2 {
        // name and comment only use single-byte runes that overlap with UTF-8
        return false;
    }
    // Might be UTF-8, might be some other encoding; preserve existing flag.
    // Some ZIP writers use UTF-8 encoding without setting the UTF-8 flag.
    // Since it is impossible to always distinguish valid UTF-8 from some
    // other encoding (e.g., GBK or Shift-JIS), we trust the flag.
    flags & 0x800 == 0
}

/// The text that `bytes` stands for in encoding `enc`, or `None` when the
/// bytes are not valid in it.
pub open spec fn spec_decode(enc: Encoding, bytes: Seq<u8>) -> Option<Seq<char>> {
    match enc {
        Encoding::Utf8 => if valid_utf8(bytes) {
            Some(decode_utf8(bytes))
        } else {
            None
        },
        Encoding::Cp437 => Some(spec_cp437_decode(bytes)),
        Encoding::ShiftJis => if spec_shift_jis_decode(bytes).1 {
            None
        } else {
            Some(spec_shift_jis_decode(bytes).0)
        },
    }
}

/// Every byte string reads as CP-437 text, of the same length.
pub proof fn lemma_cp437_total(bytes: Seq<u8>)
    ensures
        spec_decode(Encoding::Cp437, bytes) is Some,
{
}

/// How an encoding is named when it is shown.
pub open spec fn spec_encoding_name(enc: Encoding) -> Seq<char> {
    match enc {
        Encoding::Utf8 => "utf-8"@,
        Encoding::Cp437 => "cp-437"@,
        Encoding::ShiftJis => "shift-jis"@,
    }
}

impl Encoding {
    /// The name of the encoding, as it is shown.
    pub fn to_string(&self) -> (r: String)
        ensures
            r@ == spec_encoding_name(*self),
    {
        match self {
            Encoding::Utf8 => String::from_str("utf-8"),
            Encoding::Cp437 => String::from_str("cp-437"),
            Encoding::ShiftJis => String::from_str("shift-jis"),
        }
    }

    /// Decodes `i` into text.
    pub fn decode(&self, i: &[u8]) -> (r: Result<String, DecodingError>)
        requires
            *self == Encoding::ShiftJis ==> 3 * (i@.len() + 1) <= isize::MAX,
        ensures
            r is Ok <==> spec_decode(*self, i@) is Some,
            r matches Ok(s) ==> spec_decode(*self, i@) == Some(s@),
            r matches Err(e) ==> (*self == Encoding::Utf8 && e is Utf8Error) || (*self
                == Encoding::ShiftJis && e is EncodingError),
    {
        match self {
            Encoding::Utf8 => {
                match str_from_utf8(i) {
                    Ok(s) => {
                        proof {
                            encode_utf8_decode_utf8(s@);
                        }
                        Ok(s.to_owned())
                    },
                    Err(e) => Err(DecodingError::Utf8Error(e)),
                }
            },
            Encoding::Cp437 => Ok(cp437_decode(i)),
            Encoding::ShiftJis => self.decode_as(i),
        }
    }

    /// Decodes a vector of bytes into text.
    pub fn decode_vec(&self, v: Vec<u8>) -> (r: Result<String, DecodingError>)
        requires
            *self == Encoding::ShiftJis ==> 3 * (v@.len() + 1) <= isize::MAX,
        ensures
            r is Ok <==> spec_decode(*self, v@) is Some,
            r matches Ok(s) ==> spec_decode(*self, v@) == Some(s@),
            r matches Err(e) ==> (*self == Encoding::Utf8 && e is Utf8Error) || (*self
                == Encoding::ShiftJis && e is EncodingError),
    {
        self.decode(v.as_slice())
    }

    /// Decodes `i` as Shift-JIS.
    fn decode_as(&self, i: &[u8]) -> (r: Result<String, DecodingError>)
        requires
            3 * (i@.len() + 1) <= isize::MAX,
        ensures
            r is Ok <==> !spec_shift_jis_decode(i@).1,
            r matches Ok(s) ==> s@ == spec_shift_jis_decode(i@).0,
            r matches Err(e) ==> e is EncodingError,
    {
        let (text, had_errors) = shift_jis_decode(i);
        if had_errors {
            return Err(DecodingError::EncodingError(shift_jis_name()));
        }
        Ok(text)
    }
}


/// `chardetng::EncodingDetector`, which guesses the encoding of a stream of
/// bytes.
#[verifier::external_type_specification]
#[verifier::external_body]
pub struct ExEncodingDetector(chardetng::EncodingDetector);

/// The bytes fed to an encoding detector so far, in order.
pub uninterp spec fn detector_fed(d: chardetng::EncodingDetector) -> Seq<u8>;

/// The name of the encoding chardetng guesses for the byte stream `fed`
/// (with no top-level domain, UTF-8 allowed as a guess when `allow_utf8`).
pub uninterp spec fn chardetng_guess(fed: Seq<u8>, allow_utf8: bool) -> Seq<char>;

/// Calls `chardetng::EncodingDetector::new`: a detector that was fed nothing.
#[verifier::external_body]
fn detector_new() -> (d: chardetng::EncodingDetector)
    ensures
        detector_fed(d) == Seq::<u8>::empty(),
{
    chardetng::EncodingDetector::new()
}

/// Calls `chardetng::EncodingDetector::feed` with `last` false: the stream
/// goes on with `buffer`. chardetng documents that the stream is the
/// concatenation of what was fed, however it is chunked. It only panics once
/// the stream was ended with `last` true, which no caller here does.
#[verifier::external_body]
fn detector_feed(d: &mut chardetng::EncodingDetector, buffer: &[u8])
    ensures
        detector_fed(*final(d)) == detector_fed(*old(d)) + buffer@,
{
    d.feed(buffer, false);
}

/// Calls `chardetng::EncodingDetector::guess` with no top-level domain, and
/// returns the name of the guessed encoding (`encoding_rs::Encoding::name`).
/// The guess depends on the bytes fed so far alone (named
/// `chardetng_guess`).
#[verifier::external_body]
fn detector_guess(d: &chardetng::EncodingDetector, allow_utf8: bool) -> (r: &'static str)
    ensures
        r@ == chardetng_guess(detector_fed(*d), allow_utf8),
{
    d.guess(None, allow_utf8).name()
}

/// The encoding of an archive's names and comments: UTF-8 when every entry
/// is UTF-8; otherwise what the detector guessed, where a Shift-JIS guess
/// only stands when some detected byte is a CP-437 box drawing character
/// (0xB0 to 0xDF), and any guess but Shift-JIS or UTF-8 means CP-437.
pub open spec fn spec_choose_encoding(all_utf8: bool, guess: Seq<char>, suspicious: bool) -> Encoding {
    if all_utf8 {
        Encoding::Utf8
    } else if guess == "Shift_JIS"@ {
        if suspicious {
            Encoding::ShiftJis
        } else {
            Encoding::Cp437
        }
    } else if guess == "UTF-8"@ {
        Encoding::Utf8
    } else {
        Encoding::Cp437
    }
}

/// Reading bytes as UTF-8 gives back the text they encode: it succeeds on
/// the UTF-8 encoding of any text, with that text, and whatever text it
/// gives encodes back to the bytes read. Reading as CP-437 always succeeds.
pub proof fn lemma_decode_utf8_exact(text: Seq<char>, bytes: Seq<u8>)
    ensures
        spec_decode(Encoding::Utf8, encode_utf8(text)) == Some(text),
        spec_decode(Encoding::Utf8, bytes) matches Some(t) ==> encode_utf8(t) == bytes,
        spec_decode(Encoding::Cp437, bytes) is Some,
{
    encode_utf8_valid_utf8(text);
    encode_utf8_decode_utf8(text);
    if valid_utf8(bytes) {
        decode_utf8_encode_utf8(bytes);
    }
}

/// When an entry's name or comment must be taken as UTF-8: when either is
/// not valid UTF-8, it cannot be (it is non-UTF-8); when both are and hold
/// no char outside the printable ASCII range from space to `}` (a control
/// char, `~`, DEL, a non-ASCII char) nor a backslash, it can be read either
/// way and is not non-UTF-8; otherwise it is non-UTF-8 exactly when the
/// UTF-8 flag (bit 11 of the flags) is unset. A byte is a CP-437 box
/// drawing char when it lies from 0xB0 to 0xDF.
pub proof fn lemma_entry_non_utf8(name: Seq<u8>, comment: Seq<u8>, flags: u16, c: char, b: u8)
    ensures
        !valid_utf8(name) || !valid_utf8(comment) ==> spec_is_entry_non_utf8(name, comment, flags),
        valid_utf8(name) && valid_utf8(comment) && !spec_detect_utf8(name).1 && !spec_detect_utf8(comment).1
            ==> !spec_is_entry_non_utf8(name, comment, flags),
        valid_utf8(name) && valid_utf8(comment) && (spec_detect_utf8(name).1 || spec_detect_utf8(comment).1)
            ==> (spec_is_entry_non_utf8(name, comment, flags) <==> flags & 0x800 == 0),
        spec_detect_utf8(name).0 == valid_utf8(name),
        spec_detect_utf8(name).1 <==> valid_utf8(name) && exists|i: int|
            0 <= i < decode_utf8(name).len() && #[trigger] requires_utf8_char(decode_utf8(name)[i]),
        requires_utf8_char(c) <==> (c < ' ' || c > '}' || c == '\\'),
        is_box_drawing(b) <==> (0xB0 <= b && b <= 0xDF),
{
}

/// How the encoding of an archive is chosen: UTF-8 when every entry says
/// its name is UTF-8; otherwise, a UTF-8 guess of chardetng stands whatever
/// bytes it was fed (some writers use UTF-8 without saying so); a Shift-JIS
/// guess stands only when a CP-437 box drawing byte was fed, and means
/// CP-437 otherwise; any other guess means CP-437.
pub proof fn lemma_choose_encoding(guess: Seq<char>, suspicious: bool)
    ensures
        spec_choose_encoding(true, guess, suspicious) == Encoding::Utf8,
        spec_choose_encoding(false, "UTF-8"@, suspicious) == Encoding::Utf8,
        spec_choose_encoding(false, "Shift_JIS"@, true) == Encoding::ShiftJis,
        spec_choose_encoding(false, "Shift_JIS"@, false) == Encoding::Cp437,
        guess != "UTF-8"@ && guess != "Shift_JIS"@ ==> spec_choose_encoding(false, guess, suspicious)
            == Encoding::Cp437,
{
    reveal_strlit("UTF-8");
    reveal_strlit("Shift_JIS");
    assert("UTF-8"@.len() != "Shift_JIS"@.len());
}

/// Picks the encoding of an archive's names and comments from whether all
/// entries are UTF-8, the name of the encoding chardetng guessed, and
/// whether any byte fed to it is a CP-437 box drawing character.
pub fn choose_encoding(all_utf8: bool, guess: &str, suspicious: bool) -> (r: Encoding)
    ensures
        r == spec_choose_encoding(all_utf8, guess@, suspicious),
{
    if all_utf8 {
        Encoding::Utf8
    } else if crate::parse::archive::str_eq(guess, "Shift_JIS") {
        // well hold on, sometimes Codepage 437 is detected as
        // Shift-JIS by chardetng. If we have any characters
        // that aren't valid DOS file names, then okay it's probably
        // Shift-JIS. Otherwise, assume it's CP437.
        if suspicious {
            Encoding::ShiftJis
        } else {
            Encoding::Cp437
        }
    } else if crate::parse::archive::str_eq(guess, "UTF-8") {
        Encoding::Utf8
    } else {
        Encoding::Cp437
    }
}

/// Whether `b` is a CP-437 box drawing character, which does not occur in
/// DOS file names.
pub open spec fn is_box_drawing(b: u8) -> bool {
    0xB0 <= b <= 0xDF
}

/// A guessing session: the detector, and whether a box drawing byte was fed.
pub struct EncodingGuess {
    detector: chardetng::EncodingDetector,
    suspicious: bool,
}

impl EncodingGuess {
    /// The bytes fed so far.
    pub closed spec fn spec_fed(&self) -> Seq<u8> {
        detector_fed(self.detector)
    }

    /// Whether some byte fed so far is a box drawing character.
    pub closed spec fn spec_suspicious(&self) -> bool {
        self.suspicious
    }

    /// A session that was fed nothing.
    pub fn new() -> (r: Self)
        ensures
            r.spec_fed() == Seq::<u8>::empty(),
            !r.spec_suspicious(),
    {
        EncodingGuess { detector: detector_new(), suspicious: false }
    }

    /// Feeds `slice` to the detector and notes box drawing bytes.
    pub fn feed(&mut self, slice: &[u8])
        ensures
            final(self).spec_fed() == old(self).spec_fed() + slice@,
            final(self).spec_suspicious() == (old(self).spec_suspicious() || exists|k: int|
                0 <= k < slice@.len() && is_box_drawing(#[trigger] slice@[k])),
    {
        detector_feed(&mut self.detector, slice);
        let mut i: usize = 0;
        while i < slice.len()
            invariant
                i <= slice@.len(),
                self.suspicious == (old(self).suspicious || exists|k: int|
                    0 <= k < i && is_box_drawing(#[trigger] slice@[k])),
                detector_fed(self.detector) == old(self).spec_fed() + slice@,
            decreases slice@.len() - i,
        {
            let b = slice[i];
            if 0xB0 <= b && b <= 0xDF {
                // those are, like, box drawing characters
                self.suspicious = true;
            }
            i = i + 1;
        }
    }

    /// The name of the encoding the detector guesses (UTF-8 allowed).
    pub fn guess(&self) -> (r: &'static str)
        ensures
            r@ == chardetng_guess(self.spec_fed(), true),
    {
        detector_guess(&self.detector, true)
    }

    /// The encoding to read the archive in: see [spec_choose_encoding].
    pub fn encoding(&self, all_utf8: bool) -> (r: Encoding)
        ensures
            r == spec_choose_encoding(all_utf8, chardetng_guess(self.spec_fed(), true), self.spec_suspicious()),
    {
        if all_utf8 {
            return Encoding::Utf8;
        }
        choose_encoding(all_utf8, self.guess(), self.suspicious)
    }
}

} // verus!
