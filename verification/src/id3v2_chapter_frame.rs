//! Chapter frame (`CHAP`), from the ID3v2 chapter addendum.
//!
//! Layout: a null-terminated element id (ISO-8859-1), four big-endian
//! 32-bit values (start time, end time, start byte offset, end byte
//! offset; `0xFFFFFFFF` means "unused"), then recursively parsed embedded
//! sub-frames filling the remainder.

use vstd::prelude::*;

use crate::bytes::read_be_u32;
use crate::bytes::spec_be32_at;
use crate::error::ParseError;
use crate::id3v2_frame::Id3v2Frame;
use crate::id3v2_frame::frames_match_infos_shallow;
use crate::id3v2_frame::lemma_match_infos_implies_shallow;
use crate::id3v2_frame::parse_embedded_frames;
use crate::id3v2_frame::spec_scan_embedded;
use crate::id3v2_unique_file_id_frame::spec_first_zero;
use crate::strutil::latin1_chars;
use crate::strutil::latin1_decode;
use crate::strutil::push_char;

verus! {

/// The character of a decimal digit value.
pub open spec fn spec_digit_char(d: int) -> char {
    ((0x30 + d) as u8) as char
}

/// The decimal digits of a number, most significant first.
pub open spec fn spec_decimal_chars(n: int) -> Seq<char>
    decreases n,
{
    if n < 10 {
        seq![spec_digit_char(n)]
    } else {
        spec_decimal_chars(n / 10).push(spec_digit_char(n % 10))
    }
}

/// The decimal digits, padded with one leading zero to at least the given
/// width of two or three.
pub open spec fn spec_decimal_padded(n: int, width: int) -> Seq<char> {
    let digits = spec_decimal_chars(n);
    if digits.len() >= width {
        digits
    } else if digits.len() + 1 == width {
        seq!['0'] + digits
    } else {
        seq!['0', '0'] + digits
    }
}

/// The "hh:mm:ss.ms" rendering of a millisecond count: each part at least
/// two digits, the milliseconds three.
pub open spec fn spec_timestamp_chars(ms: int) -> Seq<char> {
    let total_seconds = ms / 1000;
    spec_decimal_padded(total_seconds / 3600, 2) + seq![':'] + spec_decimal_padded(
        (total_seconds % 3600) / 60,
        2,
    ) + seq![':'] + spec_decimal_padded(total_seconds % 60, 2) + seq!['.'] + spec_decimal_padded(
        ms % 1000,
        3,
    )
}

/// Append the decimal digits of a number.
fn push_decimal(s: &mut String, n: u32)
    ensures
        final(s)@ == old(s)@ + spec_decimal_chars(n as int),
    decreases n,
{
    if n < 10 {
        push_char(s, (0x30 + n as u8) as char);
        proof {
            assert(old(s)@ + spec_decimal_chars(n as int) =~= old(s)@.push(
                spec_digit_char(n as int),
            ));
        }
    } else {
        push_decimal(s, n / 10);
        push_char(s, (0x30 + (n % 10) as u8) as char);
        proof {
            assert(old(s)@ + spec_decimal_chars(n as int) =~= (old(s)@ + spec_decimal_chars(
                n as int / 10,
            )).push(spec_digit_char(n as int % 10)));
        }
    }
}

/// Small numbers have few digits; used to pad to a fixed width.
proof fn lemma_decimal_chars_len(n: int)
    requires
        n >= 0,
    ensures
        spec_decimal_chars(n).len() >= 1,
        n < 10 ==> spec_decimal_chars(n).len() == 1,
        n < 100 ==> spec_decimal_chars(n).len() <= 2,
        n < 1000 ==> spec_decimal_chars(n).len() <= 3,
        n >= 10 ==> spec_decimal_chars(n).len() >= 2,
        n >= 100 ==> spec_decimal_chars(n).len() >= 3,
    decreases n,
{
    if n >= 10 {
        lemma_decimal_chars_len(n / 10);
    }
}

/// Append the decimal digits of a number, padded with leading zeros to at
/// least the given width of two or three.
fn push_decimal_padded(s: &mut String, n: u32, width: u32)
    requires
        width == 2 || width == 3,
    ensures
        final(s)@ == old(s)@ + spec_decimal_padded(n as int, width as int),
{
    proof {
        lemma_decimal_chars_len(n as int);
    }
    if width == 2 {
        if n < 10 {
            push_char(s, '0');
        }
    } else {
        if n < 10 {
            push_char(s, '0');
            push_char(s, '0');
        } else if n < 100 {
            push_char(s, '0');
        }
    }
    let ghost mid = s@;
    push_decimal(s, n);
    proof {
        assert(mid + spec_decimal_chars(n as int) =~= old(s)@ + spec_decimal_padded(
            n as int,
            width as int,
        ));
    }
}

/// Format a timestamp from milliseconds to "hh:mm:ss.ms" form.
pub fn format_timestamp(ms: u32) -> (r: String)
    ensures
        r@ == spec_timestamp_chars(ms as int),
{
    let total_seconds = ms / 1000;
    let milliseconds = ms % 1000;
    let hours = total_seconds / 3600;
    let minutes = (total_seconds % 3600) / 60;
    let seconds = total_seconds % 60;
    let mut out = String::new();
    push_decimal_padded(&mut out, hours, 2);
    push_char(&mut out, ':');
    push_decimal_padded(&mut out, minutes, 2);
    push_char(&mut out, ':');
    push_decimal_padded(&mut out, seconds, 2);
    push_char(&mut out, '.');
    push_decimal_padded(&mut out, milliseconds, 3);
    proof {
        assert(out@ =~= spec_timestamp_chars(ms as int));
    }
    out
}

/// A decoded chapter frame.
#[derive(Debug)]
pub struct ChapterFrame {
    /// Element ID (null-terminated in the payload).
    pub element_id: String,
    /// Start time in milliseconds.
    pub start_time: u32,
    /// End time in milliseconds.
    pub end_time: u32,
    /// Start byte offset (`0xFFFFFFFF` if not used).
    pub start_offset: u32,
    /// End byte offset (`0xFFFFFFFF` if not used).
    pub end_offset: u32,
    /// Embedded sub-frames.
    pub sub_frames: Vec<Id3v2Frame>,
}

/// Why a chapter payload is rejected, if it is: no terminated element id,
/// or too few bytes for the four time and offset fields.
pub open spec fn spec_chapter_frame_error(data: Seq<u8>) -> Option<ParseError> {
    if data.len() == 0 {
        Some(ParseError::TooShort)
    } else {
        match spec_first_zero(data) {
            None => Some(ParseError::MissingTerminator),
            Some(p) => if p + 17 > data.len() {
                Some(ParseError::TooShort)
            } else {
                None
            },
        }
    }
}

/// The frame decodes `data`: element id up to the first zero byte, the
/// four 32-bit fields after it, and sub-frames scanned from the rest.
/// The sub-frames' boundaries and payloads are pinned here; each one's
/// typed content is decoded by the same rules as a top-level frame's.
pub open spec fn spec_chapter_frame_ok(data: Seq<u8>, version_major: u8, cf: ChapterFrame) -> bool {
    &&& data.len() >= 1
    &&& match spec_first_zero(data) {
        None => false,
        Some(p) => {
            &&& p + 17 <= data.len()
            &&& cf.element_id@ == latin1_chars(data.subrange(0, p))
            &&& cf.start_time == spec_be32_at(data, p + 1)
            &&& cf.end_time == spec_be32_at(data, p + 5)
            &&& cf.start_offset == spec_be32_at(data, p + 9)
            &&& cf.end_offset == spec_be32_at(data, p + 13)
            &&& (if p + 17 < data.len() {
                frames_match_infos_shallow(
                    cf.sub_frames@,
                    spec_scan_embedded(data.subrange(p + 17, data.len() as int), 0, version_major),
                )
            } else {
                cf.sub_frames@.len() == 0
            })
        },
    }
}

impl ChapterFrame {
    /// Parse a CHAP frame from raw data.
    pub fn parse(data: &[u8], version_major: u8) -> (r: Result<Self, ParseError>)
        ensures
            match r {
                Ok(cf) => spec_chapter_frame_error(data@) is None && spec_chapter_frame_ok(
                    data@,
                    version_major,
                    cf,
                ),
                Err(e) => spec_chapter_frame_error(data@) == Some(e),
            },
        decreases data@.len(), 3int,
    {
        if data.len() == 0 {
            return Err(ParseError::TooShort);
        }
        let mut pos: usize = 0;
        while pos < data.len() && data[pos] != 0
            invariant
                0 <= pos <= data@.len(),
                spec_first_zero(data@) == crate::id3v2_text_encoding::spec_first_terminator(
                    data@,
                    crate::id3v2_text_encoding::TextEncoding::Iso88591,
                    pos as int,
                ),
            decreases data@.len() - pos,
        {
            pos = pos + 1;
        }
        if pos >= data.len() {
            return Err(ParseError::MissingTerminator);
        }
        proof {
            assert(spec_first_zero(data@) == Some(pos as int));
        }
        let element_id = latin1_decode(&data[0..pos]);
        pos = pos + 1;
        if data.len() < 16 || pos > data.len() - 16 {
            return Err(ParseError::TooShort);
        }
        let start_time = read_be_u32(data, pos);
        let end_time = read_be_u32(data, pos + 4);
        let start_offset = read_be_u32(data, pos + 8);
        let end_offset = read_be_u32(data, pos + 12);
        pos = pos + 16;
        let sub_frames = if pos < data.len() {
            let rest = &data[pos..data.len()];
            proof {
                assert(rest@.len() < data@.len());
            }
            let sf = parse_embedded_frames(rest, version_major);
            proof {
                crate::id3v2_frame::lemma_match_infos_implies_shallow(
                    sf@,
                    crate::id3v2_frame::spec_scan_embedded(rest@, 0, version_major),
                    version_major,
                );
            }
            sf
        } else {
            Vec::new()
        };
        Ok(
            ChapterFrame {
                element_id,
                start_time,
                end_time,
                start_offset,
                end_offset,
                sub_frames,
            },
        )
    }

    /// Check if byte offsets are used (neither is `0xFFFFFFFF`).
    pub fn has_byte_offsets(&self) -> (r: bool)
        ensures
            r == (self.start_offset != 0xFFFFFFFFu32 && self.end_offset != 0xFFFFFFFFu32),
    {
        self.start_offset != 0xFFFFFFFF && self.end_offset != 0xFFFFFFFF
    }

    /// Get the chapter duration in milliseconds; a start time past the
    /// end time gives zero.
    pub fn duration(&self) -> (r: u32)
        ensures
            r == (if self.end_time >= self.start_time {
                self.end_time - self.start_time
            } else {
                0int
            }),
    {
        self.end_time.saturating_sub(self.start_time)
    }
}

} // verus!
