//! The text of a preset file: UTF-8 (with or without a byte-order mark)
//! or UTF-16 of either byte order behind its byte-order mark.
use vstd::prelude::*;
use vstd::utf8::{decode_utf8, valid_utf8};

verus! {

/// Why the text of a preset file could not be read.
#[derive(Debug, Clone, Copy, PartialEq, Eq, Structural)]
pub enum PresetTextError {
    /// UTF-16 text with an odd number of bytes.
    OddUtf16Length,
    /// Bytes that are not UTF-8.
    InvalidUtf8,
    /// Words that are not UTF-16 (an unpaired surrogate).
    InvalidUtf16,
}

/// How a file's bytes are encoded, and the bytes after its byte-order
/// mark.
#[derive(Debug, Clone, Copy, PartialEq, Eq, Structural)]
pub enum PresetTextEncoding {
    Utf8,
    Utf16LittleEndian,
    Utf16BigEndian,
}

/// The characters that UTF-16 `words` encode, or none when they hold an
/// unpaired surrogate: a word outside 0xD800..=0xDFFF is its own
/// character; a high surrogate (0xD800..=0xDBFF) followed by a low one
/// (0xDC00..=0xDFFF) is the character 0x10000 + (high - 0xD800) * 0x400 +
/// (low - 0xDC00); any other surrogate is invalid.
pub open spec fn spec_utf16_decode(words: Seq<u16>) -> Option<Seq<char>>
    decreases words.len(),
{
    if words.len() == 0 {
        Some(Seq::empty())
    } else {
        let w = words[0];
        if w < 0xD800 || w > 0xDFFF {
            match spec_utf16_decode(words.drop_first()) {
                Some(rest) => Some(seq![w as char] + rest),
                None => None,
            }
        } else if w <= 0xDBFF && words.len() >= 2 && 0xDC00 <= words[1] && words[1] <= 0xDFFF {
            let code: int = 0x10000 + (w - 0xD800) * 0x400 + (words[1] - 0xDC00);
            match spec_utf16_decode(words.subrange(2, words.len() as int)) {
                Some(rest) => Some(seq![code as char] + rest),
                None => None,
            }
        } else {
            None
        }
    }
}

/// `std`'s `String::from_utf8`: its documentation promises a string of
/// exactly the given bytes when they are UTF-8, and an error otherwise.
#[verifier::external_body]
fn string_from_utf8(bytes: Vec<u8>) -> (text: Option<String>)
    ensures
        match text {
            Some(t) => valid_utf8(bytes@) && t@ == decode_utf8(bytes@),
            None => !valid_utf8(bytes@),
        },
{
    String::from_utf8(bytes).ok()
}

/// `std`'s `String::from_utf16`: the string that the UTF-16 words encode,
/// or none when they hold an unpaired surrogate (see `spec_utf16_decode`).
#[verifier::external_body]
fn string_from_utf16(words: &[u16]) -> (text: Option<String>)
    ensures
        match text {
            Some(t) => spec_utf16_decode(words@) == Some(t@),
            None => spec_utf16_decode(words@) is None,
        },
{
    String::from_utf16(words).ok()
}

/// The encoding a byte-order mark announces (UTF-8 without one), and how
/// many bytes the mark takes.
pub open spec fn spec_text_encoding(bytes: Seq<u8>) -> (PresetTextEncoding, int) {
    if bytes.len() >= 3 && bytes[0] == 0xEF && bytes[1] == 0xBB && bytes[2] == 0xBF {
        (PresetTextEncoding::Utf8, 3)
    } else if bytes.len() >= 2 && bytes[0] == 0xFF && bytes[1] == 0xFE {
        (PresetTextEncoding::Utf16LittleEndian, 2)
    } else if bytes.len() >= 2 && bytes[0] == 0xFE && bytes[1] == 0xFF {
        (PresetTextEncoding::Utf16BigEndian, 2)
    } else {
        (PresetTextEncoding::Utf8, 0)
    }
}

/// The 16-bit words of `bytes`, pair after pair, in the given byte order.
pub open spec fn spec_utf16_words(bytes: Seq<u8>, little_endian: bool) -> Seq<u16> {
    Seq::new(
        (bytes.len() / 2) as nat,
        |i: int| if little_endian {
            (bytes[2 * i] + 256 * bytes[2 * i + 1]) as u16
        } else {
            (256 * bytes[2 * i] + bytes[2 * i + 1]) as u16
        },
    )
}

/// The text of UTF-16 bytes: refused for an odd length, else the characters
/// their words encode.
pub open spec fn spec_utf16_text(bytes: Seq<u8>, little_endian: bool, result: Result<String, PresetTextError>) -> bool {
    if bytes.len() % 2 == 1 {
        result == Err::<String, PresetTextError>(PresetTextError::OddUtf16Length)
    } else {
        match spec_utf16_decode(spec_utf16_words(bytes, little_endian)) {
            Some(c) => result matches Ok(t) && t@ == c,
            None => result == Err::<String, PresetTextError>(PresetTextError::InvalidUtf16),
        }
    }
}

/// Decodes UTF-16 bytes in the given byte order (see `spec_utf16_text`).
pub fn decode_utf16_bytes(bytes: &[u8], little_endian: bool) -> (result: Result<String, PresetTextError>)
    ensures
        spec_utf16_text(bytes@, little_endian, result),
{
    if bytes.len() % 2 != 0 {
        return Err(PresetTextError::OddUtf16Length);
    }
    let n = bytes.len();
    let count = n / 2;
    let mut words: Vec<u16> = Vec::new();
    let mut i: usize = 0;
    while i < count
        invariant
            i <= count,
            n == bytes@.len(),
            count == n / 2,
            words@ == spec_utf16_words(bytes@, little_endian).take(i as int),
        decreases count - i,
    {
        assert(2 * i + 1 < n) by (nonlinear_arith)
            requires
                i < count,
                count == n / 2,
        ;
        let low: u16 = if little_endian { bytes[2 * i] as u16 } else { bytes[2 * i + 1] as u16 };
        let high: u16 = if little_endian { bytes[2 * i + 1] as u16 } else { bytes[2 * i] as u16 };
        let word: u16 = high * 256 + low;
        words.push(word);
        assert(words@ =~= spec_utf16_words(bytes@, little_endian).take(i as int + 1));
        i = i + 1;
    }
    assert(words@ =~= spec_utf16_words(bytes@, little_endian));
    match string_from_utf16(words.as_slice()) {
        Some(t) => Ok(t),
        None => Err(PresetTextError::InvalidUtf16),
    }
}

/// The bytes of `bytes` from `start` on.
fn bytes_from(bytes: &[u8], start: usize) -> (rest: Vec<u8>)
    requires
        start <= bytes@.len(),
    ensures
        rest@ == bytes@.subrange(start as int, bytes@.len() as int),
{
    let mut rest: Vec<u8> = Vec::new();
    let mut i: usize = start;
    while i < bytes.len()
        invariant
            start <= i <= bytes@.len(),
            rest@ == bytes@.subrange(start as int, i as int),
        decreases bytes@.len() - i,
    {
        rest.push(bytes[i]);
        assert(rest@ =~= bytes@.subrange(start as int, i as int + 1));
        i = i + 1;
    }
    rest
}

/// Decodes the text of a preset file: behind a UTF-8 byte-order mark (or
/// none) the bytes must be UTF-8; behind a UTF-16 mark of either order
/// they are decoded as UTF-16 (see `spec_utf16_text`).
pub fn decode_text_file_bytes(bytes: &[u8]) -> (result: Result<String, PresetTextError>)
    ensures
        ({
            let (encoding, mark) = spec_text_encoding(bytes@);
            let body = bytes@.subrange(mark, bytes@.len() as int);
            match encoding {
                PresetTextEncoding::Utf8 => match result {
                    Ok(t) => valid_utf8(body) && t@ == decode_utf8(body),
                    Err(e) => e == PresetTextError::InvalidUtf8 && !valid_utf8(body),
                },
                PresetTextEncoding::Utf16LittleEndian => spec_utf16_text(body, true, result),
                PresetTextEncoding::Utf16BigEndian => spec_utf16_text(body, false, result),
            }
        }),
{
    let n = bytes.len();
    if n >= 3 && bytes[0] == 0xEF && bytes[1] == 0xBB && bytes[2] == 0xBF {
        return match string_from_utf8(bytes_from(bytes, 3)) {
            Some(t) => Ok(t),
            None => Err(PresetTextError::InvalidUtf8),
        };
    }
    if n >= 2 && bytes[0] == 0xFF && bytes[1] == 0xFE {
        let rest = bytes_from(bytes, 2);
        return decode_utf16_bytes(rest.as_slice(), true);
    }
    if n >= 2 && bytes[0] == 0xFE && bytes[1] == 0xFF {
        let rest = bytes_from(bytes, 2);
        return decode_utf16_bytes(rest.as_slice(), false);
    }
    let all = bytes_from(bytes, 0);
    assert(all@ =~= bytes@.subrange(0, bytes@.len() as int));
    match string_from_utf8(all) {
        Some(t) => Ok(t),
        None => Err(PresetTextError::InvalidUtf8),
    }
}

} // verus!
