//! ID3v2 text encodings and the encoding-aware text decoders.
//!
//! Frames carry text as ISO-8859-1, UTF-16 (with byte-order mark), UTF-16BE
//! or UTF-8, selected by a leading encoding byte. This module decodes byte
//! runs under an encoding, finds encoding-aware null terminators, and splits
//! null-separated multi-string payloads.

use vstd::prelude::*;

use crate::error::ParseError;
use crate::strutil::latin1_chars;
use crate::strutil::latin1_decode;
use crate::strutil::utf8_lossy_chars;
use crate::strutil::utf8_lossy_decode;
use crate::strutil::utf16_chars;
use crate::strutil::utf16_decode;

verus! {

/// Text encoding types used in ID3v2 frames.
#[derive(Debug, Clone, Copy, PartialEq, Eq, Structural)]
pub enum TextEncoding {
    /// ISO-8859-1 (Latin-1); encoding byte 0.
    Iso88591,
    /// UTF-16 with byte-order mark; encoding byte 1.
    Utf16Bom,
    /// UTF-16BE (big-endian, no byte-order mark); encoding byte 2, ID3v2.4 only.
    Utf16Be,
    /// UTF-8; encoding byte 3, ID3v2.4 only.
    Utf8,
}

/// The encoding an encoding byte selects, if any.
pub open spec fn spec_encoding_from_byte(byte: u8) -> Option<TextEncoding> {
    if byte == 0 {
        Some(TextEncoding::Iso88591)
    } else if byte == 1 {
        Some(TextEncoding::Utf16Bom)
    } else if byte == 2 {
        Some(TextEncoding::Utf16Be)
    } else if byte == 3 {
        Some(TextEncoding::Utf8)
    } else {
        None
    }
}

impl TextEncoding {
    /// Create a TextEncoding from its encoding byte.
    pub fn from_byte(byte: u8) -> (r: Result<Self, ParseError>)
        ensures
            match r {
                Ok(enc) => spec_encoding_from_byte(byte) == Some(enc),
                Err(e) => spec_encoding_from_byte(byte) is None && e
                    == ParseError::UnknownEncoding,
            },
    {
        match byte {
            0 => Ok(TextEncoding::Iso88591),
            1 => Ok(TextEncoding::Utf16Bom),
            2 => Ok(TextEncoding::Utf16Be),
            3 => Ok(TextEncoding::Utf8),
            _ => Err(ParseError::UnknownEncoding),
        }
    }

    /// Whether the encoding may appear in a tag of the given major version:
    /// UTF-16BE and UTF-8 exist only from ID3v2.4 on.
    pub open spec fn spec_valid_for_version(self, version_major: u8) -> bool {
        match self {
            TextEncoding::Iso88591 | TextEncoding::Utf16Bom => true,
            TextEncoding::Utf16Be | TextEncoding::Utf8 => version_major >= 4,
        }
    }

    /// Check if the encoding is valid for an ID3v2 version.
    pub fn is_valid_for_version(&self, version_major: u8) -> (r: bool)
        ensures
            r == self.spec_valid_for_version(version_major),
    {
        match self {
            TextEncoding::Iso88591 | TextEncoding::Utf16Bom => true,
            TextEncoding::Utf16Be | TextEncoding::Utf8 => version_major >= 4,
        }
    }
}

/// Length in bytes of the null terminator under an encoding.
pub open spec fn spec_terminator_length(encoding: TextEncoding) -> int {
    match encoding {
        TextEncoding::Iso88591 | TextEncoding::Utf8 => 1,
        TextEncoding::Utf16Bom | TextEncoding::Utf16Be => 2,
    }
}

/// Get the null terminator length for an encoding.
pub fn get_terminator_length(encoding: TextEncoding) -> (r: usize)
    ensures
        r == spec_terminator_length(encoding),
        1 <= r <= 2,
{
    match encoding {
        TextEncoding::Iso88591 | TextEncoding::Utf8 => 1,
        TextEncoding::Utf16Bom | TextEncoding::Utf16Be => 2,
    }
}

/// True when the first bytes form a null terminator under the encoding.
pub open spec fn spec_is_null_terminator(bytes: Seq<u8>, encoding: TextEncoding) -> bool {
    match encoding {
        TextEncoding::Iso88591 | TextEncoding::Utf8 => bytes.len() >= 1 && bytes[0] == 0,
        TextEncoding::Utf16Bom | TextEncoding::Utf16Be => bytes.len() >= 2 && bytes[0] == 0
            && bytes[1] == 0,
    }
}

/// Check if the given bytes begin with a null terminator for the encoding.
pub fn is_null_terminator(bytes: &[u8], encoding: TextEncoding) -> (r: bool)
    ensures
        r == spec_is_null_terminator(bytes@, encoding),
{
    match encoding {
        TextEncoding::Iso88591 | TextEncoding::Utf8 => bytes.len() >= 1 && bytes[0] == 0,
        TextEncoding::Utf16Bom | TextEncoding::Utf16Be => bytes.len() >= 2 && bytes[0] == 0
            && bytes[1] == 0,
    }
}

/// A null terminator stands at byte position `pos` of `data`.
pub open spec fn spec_terminator_at(data: Seq<u8>, encoding: TextEncoding, pos: int) -> bool {
    spec_is_null_terminator(data.subrange(pos, data.len() as int), encoding) && 0 <= pos
        <= data.len()
}

/// How far the scan for a terminator advances per step: two bytes for
/// UTF-16 so it stays aligned to code units, one byte otherwise.
pub open spec fn spec_scan_step(encoding: TextEncoding) -> int {
    match encoding {
        TextEncoding::Iso88591 | TextEncoding::Utf8 => 1,
        TextEncoding::Utf16Bom | TextEncoding::Utf16Be => 2,
    }
}

/// Position of the first terminator at or after `pos` that an aligned scan
/// reaches; the scan stops where no whole terminator fits, and that
/// position is returned with no terminator standing there.
pub open spec fn spec_segment_end(data: Seq<u8>, encoding: TextEncoding, pos: int) -> int
    decreases data.len() - pos,
{
    if pos + spec_terminator_length(encoding) > data.len() {
        pos
    } else if spec_terminator_at(data, encoding, pos) {
        pos
    } else {
        spec_segment_end(data, encoding, pos + spec_scan_step(encoding))
    }
}

/// The aligned scan never leaves the buffer, and never moves backwards.
pub proof fn lemma_segment_end_bounds(data: Seq<u8>, encoding: TextEncoding, pos: int)
    requires
        0 <= pos <= data.len(),
    ensures
        pos <= spec_segment_end(data, encoding, pos) <= data.len(),
    decreases data.len() - pos,
{
    if pos + spec_terminator_length(encoding) > data.len() {
    } else if spec_terminator_at(data, encoding, pos) {
    } else {
        lemma_segment_end_bounds(data, encoding, pos + spec_scan_step(encoding));
    }
}

/// Position of the first terminator at or after `pos` under a one-byte
/// scan (the scan `find_text_terminator` performs, for every encoding).
pub open spec fn spec_first_terminator(data: Seq<u8>, encoding: TextEncoding, pos: int) -> Option<
    int,
>
    decreases data.len() - pos,
{
    if pos + spec_terminator_length(encoding) > data.len() {
        None
    } else if spec_terminator_at(data, encoding, pos) {
        Some(pos)
    } else {
        spec_first_terminator(data, encoding, pos + 1)
    }
}

/// Find the first null terminator and split the data around it; when no
/// terminator exists the whole input is the first part.
pub fn find_text_terminator<'a>(data: &'a [u8], encoding: TextEncoding) -> (r: Result<
    (&'a [u8], &'a [u8]),
    ParseError,
>)
    ensures
        match r {
            Ok((first, rest)) => match spec_first_terminator(data@, encoding, 0) {
                Some(p) => first@ == data@.subrange(0, p) && rest@ == data@.subrange(
                    p + spec_terminator_length(encoding),
                    data@.len() as int,
                ),
                None => first@ == data@ && rest@.len() == 0,
            },
            Err(_) => false,
        },
{
    let terminator_len = get_terminator_length(encoding);
    let mut pos: usize = 0;
    if data.len() >= terminator_len {
        while pos <= data.len() - terminator_len && !is_null_terminator_at(data, encoding, pos)
            invariant
                terminator_len == spec_terminator_length(encoding),
                data@.len() >= terminator_len,
                0 <= pos <= data@.len(),
                spec_first_terminator(data@, encoding, 0) == spec_first_terminator(
                    data@,
                    encoding,
                    pos as int,
                ),
            decreases data@.len() - pos,
        {
            pos = pos + 1;
        }
        if pos <= data.len() - terminator_len {
            let first = &data[0..pos];
            let rest = &data[pos + terminator_len..data.len()];
            return Ok((first, rest));
        }
    }
    proof {
        assert(spec_first_terminator(data@, encoding, pos as int) is None);
    }
    let first = &data[0..data.len()];
    let rest = &data[data.len()..data.len()];
    proof {
        assert(first@ =~= data@);
    }
    Ok((first, rest))
}

/// True when a null terminator stands at `pos`; the executable twin of
/// `spec_terminator_at`.
fn is_null_terminator_at(data: &[u8], encoding: TextEncoding, pos: usize) -> (r: bool)
    requires
        pos <= data@.len(),
    ensures
        r == spec_terminator_at(data@, encoding, pos as int),
{
    let r = is_null_terminator(&data[pos..data.len()], encoding);
    proof {
        assert(data@.subrange(pos as int, data@.len() as int) =~= data@.subrange(
            pos as int,
            data@.len() as int,
        ));
    }
    r
}

/// Where the UTF-16 code units begin and whether they are little-endian:
/// a byte-order mark is honoured for `Utf16Bom`, big-endian is assumed
/// otherwise.
pub open spec fn spec_utf16_layout(data: Seq<u8>, encoding: TextEncoding) -> (int, bool) {
    if encoding == TextEncoding::Utf16Bom {
        if data.len() >= 2 && data[0] == 0xFF && data[1] == 0xFE {
            (2, true)
        } else if data.len() >= 2 && data[0] == 0xFE && data[1] == 0xFF {
            (2, false)
        } else {
            (0, false)
        }
    } else {
        (0, false)
    }
}

/// The UTF-16 code units of the bytes from `start` on, two bytes each.
pub open spec fn spec_utf16_units(data: Seq<u8>, start: int, little_endian: bool) -> Seq<u16> {
    Seq::new(
        (((data.len() - start) / 2) as nat),
        |i: int|
            if little_endian {
                (data[start + 2 * i + 1] * 0x100 + data[start + 2 * i]) as u16
            } else {
                (data[start + 2 * i] * 0x100 + data[start + 2 * i + 1]) as u16
            },
    )
}

/// What decoding bytes as UTF-16 text yields: the empty input is empty
/// text; an odd number of unit bytes is rejected; otherwise the units
/// decode as UTF-16 or are rejected as such.
pub open spec fn spec_decode_utf16(data: Seq<u8>, encoding: TextEncoding) -> Result<
    Seq<char>,
    ParseError,
> {
    if encoding != TextEncoding::Utf16Bom && encoding != TextEncoding::Utf16Be {
        Err(ParseError::WrongEncoding)
    } else if data.len() == 0 {
        Ok(Seq::empty())
    } else {
        let (start, little_endian) = spec_utf16_layout(data, encoding);
        if (data.len() - start) % 2 != 0 {
            Err(ParseError::OddUtf16Length)
        } else {
            match utf16_chars(spec_utf16_units(data, start, little_endian)) {
                Some(chars) => Ok(chars),
                None => Err(ParseError::InvalidUtf16),
            }
        }
    }
}

/// Decode a UTF-16 byte run (sensing the byte-order mark for `Utf16Bom`).
pub fn decode_utf16_string(data: &[u8], encoding: TextEncoding) -> (r: Result<String, ParseError>)
    ensures
        match r {
            Ok(s) => spec_decode_utf16(data@, encoding) == Ok::<Seq<char>, ParseError>(s@),
            Err(e) => spec_decode_utf16(data@, encoding) == Err::<Seq<char>, ParseError>(e),
        },
{
    match encoding {
        TextEncoding::Utf16Bom | TextEncoding::Utf16Be => (),
        _ => {
            return Err(ParseError::WrongEncoding);
        },
    }
    if data.len() == 0 {
        return Ok(String::new());
    }
    let mut start: usize = 0;
    let mut little_endian: bool = false;
    if encoding == TextEncoding::Utf16Bom && data.len() >= 2 {
        if data[0] == 0xFF && data[1] == 0xFE {
            start = 2;
            little_endian = true;
        } else if data[0] == 0xFE && data[1] == 0xFF {
            start = 2;
        }
    }
    proof {
        assert(spec_utf16_layout(data@, encoding) == (start as int, little_endian));
    }
    if (data.len() - start) % 2 != 0 {
        return Err(ParseError::OddUtf16Length);
    }
    let count: usize = (data.len() - start) / 2;
    proof {
        vstd::arithmetic::div_mod::lemma_fundamental_div_mod((data@.len() - start) as int, 2);
    }
    let mut units: Vec<u16> = Vec::new();
    let mut i: usize = 0;
    while i < count
        invariant
            0 <= start <= data@.len(),
            data@.len() <= usize::MAX,
            count == (data@.len() - start) / 2,
            (data@.len() - start) % 2 == 0,
            2 * (count as int) == data@.len() - start,
            0 <= i <= count,
            units@ == spec_utf16_units(data@, start as int, little_endian).subrange(0, i as int),
        decreases count - i,
    {
        let b0 = data[start + 2 * i];
        let b1 = data[start + 2 * i + 1];
        let unit: u16 = if little_endian {
            (b1 as u16) * 0x100 + (b0 as u16)
        } else {
            (b0 as u16) * 0x100 + (b1 as u16)
        };
        units.push(unit);
        proof {
            let full = spec_utf16_units(data@, start as int, little_endian);
            assert(full.subrange(0, i + 1 as int) =~= full.subrange(0, i as int).push(full[
                i as int]));
        }
        i = i + 1;
    }
    proof {
        let full = spec_utf16_units(data@, start as int, little_endian);
        assert(units@ =~= full);
    }
    match utf16_decode(units.as_slice()) {
        Some(s) => Ok(s),
        None => Err(ParseError::InvalidUtf16),
    }
}

/// What decoding a byte run under an encoding yields: Latin-1 maps bytes
/// to the same code points, UTF-8 decodes lossily, UTF-16 decodes as
/// `spec_decode_utf16` says.
pub open spec fn spec_decode_simple(data: Seq<u8>, encoding: TextEncoding) -> Result<
    Seq<char>,
    ParseError,
> {
    match encoding {
        TextEncoding::Iso88591 => Ok(latin1_chars(data)),
        TextEncoding::Utf8 => Ok(utf8_lossy_chars(data)),
        TextEncoding::Utf16Bom | TextEncoding::Utf16Be => spec_decode_utf16(data, encoding),
    }
}

/// Decode a single text string under the given encoding.
pub fn decode_text_with_encoding_simple(data: &[u8], encoding: TextEncoding) -> (r: Result<
    String,
    ParseError,
>)
    ensures
        match r {
            Ok(s) => spec_decode_simple(data@, encoding) == Ok::<Seq<char>, ParseError>(s@),
            Err(e) => spec_decode_simple(data@, encoding) == Err::<Seq<char>, ParseError>(e),
        },
{
    match encoding {
        TextEncoding::Iso88591 => Ok(latin1_decode(data)),
        TextEncoding::Utf8 => Ok(utf8_lossy_decode(data)),
        TextEncoding::Utf16Bom | TextEncoding::Utf16Be => decode_utf16_string(data, encoding),
    }
}

/// Decode an ISO-8859-1 string; every byte is a character.
pub fn decode_iso88591_string(data: &[u8]) -> (r: String)
    ensures
        r@ == latin1_chars(data@),
{
    latin1_decode(data)
}

/// Get the scan step for an encoding; the executable twin of
/// `spec_scan_step`.
pub fn get_scan_step(encoding: TextEncoding) -> (r: usize)
    ensures
        r == spec_scan_step(encoding),
        1 <= r <= 2,
{
    match encoding {
        TextEncoding::Iso88591 | TextEncoding::Utf8 => 1,
        TextEncoding::Utf16Bom | TextEncoding::Utf16Be => 2,
    }
}

/// The strings that the multi-string text decoder collects from `pos` on:
/// the data splits at aligned terminators; each piece decodes under the
/// encoding; empty pieces are dropped; a trailing unterminated piece is
/// one further string.
pub open spec fn spec_split_strings(data: Seq<u8>, encoding: TextEncoding, pos: int) -> Result<
    Seq<Seq<char>>,
    ParseError,
>
    decreases data.len() - pos,
        when 0 <= pos
        via spec_split_strings_decreases
{
    if pos >= data.len() {
        Ok(seq![])
    } else {
        let e = spec_segment_end(data, encoding, pos);
        let seg: Result<Seq<char>, ParseError> = if pos < e {
            spec_decode_simple(data.subrange(pos, e), encoding)
        } else {
            Ok(seq![])
        };
        match seg {
            Err(err) => Err(err),
            Ok(sv) => {
                let head: Seq<Seq<char>> = if sv.len() > 0 {
                    seq![sv]
                } else {
                    seq![]
                };
                if spec_terminator_at(data, encoding, e) {
                    match spec_split_strings(
                        data,
                        encoding,
                        e + spec_terminator_length(encoding),
                    ) {
                        Err(err2) => Err(err2),
                        Ok(rest) => Ok(head + rest),
                    }
                } else if e < data.len() {
                    match spec_decode_simple(data.subrange(e, data.len() as int), encoding) {
                        Err(err3) => Err(err3),
                        Ok(tv) => Ok(
                            head + if tv.len() > 0 {
                                seq![tv]
                            } else {
                                seq![]
                            },
                        ),
                    }
                } else {
                    Ok(head)
                }
            },
        }
    }
}

#[via_fn]
proof fn spec_split_strings_decreases(data: Seq<u8>, encoding: TextEncoding, pos: int) {
    if 0 <= pos < data.len() {
        lemma_segment_end_bounds(data, encoding, pos);
    }
}

/// The character sequences of a vector of strings.
pub open spec fn string_views(strings: Seq<String>) -> Seq<Seq<char>> {
    strings.map_values(|s: String| s@)
}

/// Decode text under an encoding, collecting the null-separated strings
/// it holds; the primary text is the first string, or empty when there is
/// none.
pub fn decode_text_with_encoding(data: &[u8], encoding: TextEncoding) -> (r: Result<
    (String, Vec<String>),
    ParseError,
>)
    ensures
        match r {
            Ok(pair) => match spec_split_strings(data@, encoding, 0) {
                Ok(ss) => string_views(pair.1@) == ss && pair.0@ == (if ss.len() == 0 {
                    Seq::<char>::empty()
                } else {
                    ss[0]
                }),
                Err(_) => false,
            },
            Err(e) => spec_split_strings(data@, encoding, 0) == Err::<
                Seq<Seq<char>>,
                ParseError,
            >(e),
        },
{
    let terminator_len = get_terminator_length(encoding);
    let step = get_scan_step(encoding);
    let data_len: usize = data.len();
    proof {
        assert(data_len <= usize::MAX);
    }
    let mut strings: Vec<String> = Vec::new();
    let mut pos: usize = 0;
    proof {
        match spec_split_strings(data@, encoding, 0) {
            Ok(x) => {
                assert(string_views(strings@) + x =~= x);
            },
            Err(_) => {},
        }
    }
    while pos < data.len()
        invariant
            0 <= pos <= data@.len(),
            data@.len() <= usize::MAX,
            terminator_len == spec_terminator_length(encoding),
            step == spec_scan_step(encoding),
            match spec_split_strings(data@, encoding, pos as int) {
                Ok(rest) => spec_split_strings(data@, encoding, 0) == Ok::<
                    Seq<Seq<char>>,
                    ParseError,
                >(string_views(strings@) + rest),
                Err(e) => spec_split_strings(data@, encoding, 0) == Err::<
                    Seq<Seq<char>>,
                    ParseError,
                >(e),
            },
        decreases data@.len() - pos,
    {
        let seg_start = pos;
        let mut p = pos;
        if data.len() >= terminator_len {
            while p <= data.len() - terminator_len && !is_null_terminator_at(data, encoding, p)
                invariant
                    seg_start <= p <= data@.len(),
                    data@.len() >= terminator_len,
                    data@.len() <= usize::MAX,
                    terminator_len == spec_terminator_length(encoding),
                    step == spec_scan_step(encoding),
                    1 <= step <= 2,
                    spec_segment_end(data@, encoding, seg_start as int) == spec_segment_end(
                        data@,
                        encoding,
                        p as int,
                    ),
                decreases data@.len() - p,
            {
                p = p + step;
            }
        }
        let e = p;
        let found = is_null_terminator_at(data, encoding, e);
        proof {
            assert(spec_segment_end(data@, encoding, e as int) == e as int);
            assert(spec_segment_end(data@, encoding, seg_start as int) == e as int);
        }
        let ghost old_strings = strings@;
        if seg_start < e {
            match decode_text_with_encoding_simple(&data[seg_start..e], encoding) {
                Ok(text) => {
                    if !text.as_str().is_empty() {
                        strings.push(text);
                        proof {
                            assert(string_views(old_strings.push(text)) =~= string_views(
                                old_strings,
                            ).push(text@));
                        }
                    }
                },
                Err(err) => {
                    return Err(err);
                },
            }
        }
        if found {
            pos = e + terminator_len;
        } else {
            if e < data.len() {
                match decode_text_with_encoding_simple(&data[e..data.len()], encoding) {
                    Ok(text) => {
                        if !text.as_str().is_empty() {
                            let ghost mid_strings = strings@;
                            strings.push(text);
                            proof {
                                assert(string_views(mid_strings.push(text)) =~= string_views(
                                    mid_strings,
                                ).push(text@));
                            }
                        }
                    },
                    Err(err) => {
                        return Err(err);
                    },
                }
            }
            pos = data.len();
        }
        proof {
            match spec_split_strings(data@, encoding, pos as int) {
                Ok(rest) => {
                    assert(string_views(strings@) + rest =~= string_views(old_strings)
                        + match spec_split_strings(data@, encoding, seg_start as int) {
                        Ok(whole) => whole,
                        Err(_) => seq![],
                    });
                },
                Err(_) => {},
            }
        }
    }
    proof {
        assert(spec_split_strings(data@, encoding, pos as int) == Ok::<
            Seq<Seq<char>>,
            ParseError,
        >(Seq::empty()));
        assert(string_views(strings@) + Seq::<Seq<char>>::empty() =~= string_views(strings@));
    }
    let primary = if strings.len() == 0 {
        String::new()
    } else {
        strings[0].clone()
    };
    Ok((primary, strings))
}

/// What splitting at the first terminator and decoding both parts yields.
pub open spec fn spec_split_terminated(data: Seq<u8>, encoding: TextEncoding) -> Result<
    (Seq<char>, Seq<char>),
    ParseError,
> {
    let cut = spec_first_terminator(data, encoding, 0);
    let first_end = match cut {
        Some(p) => p,
        None => data.len() as int,
    };
    let rest_start = match cut {
        Some(p) => p + spec_terminator_length(encoding),
        None => data.len() as int,
    };
    match spec_decode_simple(data.subrange(0, first_end), encoding) {
        Err(e) => Err(e),
        Ok(first) => match spec_decode_simple(
            data.subrange(rest_start, data.len() as int),
            encoding,
        ) {
            Err(e) => Err(e),
            Ok(second) => Ok((first, second)),
        },
    }
}

/// Split text data in two at the first null terminator and decode both
/// parts under the encoding.
pub fn split_terminated_text(data: &[u8], encoding: TextEncoding) -> (r: Result<
    (String, String),
    ParseError,
>)
    ensures
        match r {
            Ok((first, second)) => spec_split_terminated(data@, encoding) == Ok::<
                (Seq<char>, Seq<char>),
                ParseError,
            >((first@, second@)),
            Err(e) => spec_split_terminated(data@, encoding) == Err::<
                (Seq<char>, Seq<char>),
                ParseError,
            >(e),
        },
{
    let parts = find_text_terminator(data, encoding);
    match parts {
        Ok((first_bytes, second_bytes)) => {
            proof {
                assert(data@.subrange(0, data@.len() as int) =~= data@);
                if spec_first_terminator(data@, encoding, 0) is None {
                    assert(second_bytes@ =~= data@.subrange(
                        data@.len() as int,
                        data@.len() as int,
                    ));
                }
            }
            let first = match decode_text_with_encoding_simple(first_bytes, encoding) {
                Ok(s) => s,
                Err(e) => {
                    return Err(e);
                },
            };
            let second = match decode_text_with_encoding_simple(second_bytes, encoding) {
                Ok(s) => s,
                Err(e) => {
                    return Err(e);
                },
            };
            Ok((first, second))
        },
        Err(e) => Err(e),
    }
}

} // verus!
