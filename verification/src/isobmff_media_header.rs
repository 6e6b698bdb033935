//! Media header box (`mdhd`): per-media timestamps, timescale, duration
//! and a language code packing three 5-bit letters into 16 bits.

use vstd::prelude::*;

use crate::bytes::read_be_u16;
use crate::bytes::read_be_u32;
use crate::bytes::read_be_u64;
use crate::bytes::spec_be16_at;
use crate::bytes::spec_be32_at;
use crate::bytes::spec_be64_at;
use crate::error::ParseError;
use crate::strutil::push_char;

verus! {

/// A decoded media header box.
#[derive(Debug, Clone)]
pub struct MediaHeaderBox {
    pub version: u8,
    pub creation_time: u64,
    pub modification_time: u64,
    pub timescale: u32,
    pub duration: u64,
    /// ISO 639-2/T language code, three lowercase letters.
    pub language: String,
}

/// Where the language code starts: past the version-dependent fields.
pub open spec fn spec_mdhd_lang_offset(version: u8) -> int {
    if version == 1 {
        32
    } else {
        20
    }
}

/// The three language letters packed in a 16-bit value: each 5-bit group
/// plus 0x60 is one letter.
pub open spec fn spec_mdhd_language(code: int) -> Seq<char> {
    seq![
        (((code / 0x400) % 0x20 + 0x60) as u8) as char,
        (((code / 0x20) % 0x20 + 0x60) as u8) as char,
        ((code % 0x20 + 0x60) as u8) as char,
    ]
}

/// Why an mdhd payload is rejected, if it is.
pub open spec fn spec_mdhd_error(data: Seq<u8>) -> Option<ParseError> {
    if data.len() < 4 {
        Some(ParseError::TooShort)
    } else if data[0] == 1 && data.len() < 36 {
        Some(ParseError::TooShort)
    } else if data[0] != 1 && data.len() < 24 {
        Some(ParseError::TooShort)
    } else {
        None
    }
}

/// The box decodes `data` at the offsets its version dictates.
pub open spec fn spec_mdhd_ok(data: Seq<u8>, b: MediaHeaderBox) -> bool {
    &&& data.len() >= 4
    &&& b.version == data[0]
    &&& if b.version == 1 {
        &&& data.len() >= 36
        &&& b.creation_time == spec_be64_at(data, 4)
        &&& b.modification_time == spec_be64_at(data, 12)
        &&& b.timescale == spec_be32_at(data, 20)
        &&& b.duration == spec_be64_at(data, 24)
    } else {
        &&& data.len() >= 24
        &&& b.creation_time == spec_be32_at(data, 4)
        &&& b.modification_time == spec_be32_at(data, 8)
        &&& b.timescale == spec_be32_at(data, 12)
        &&& b.duration == spec_be32_at(data, 16)
    }
    &&& b.language@ == spec_mdhd_language(spec_be16_at(data, spec_mdhd_lang_offset(b.version)))
}

impl MediaHeaderBox {
    /// Parse an mdhd box payload.
    pub fn parse(data: &[u8]) -> (r: Result<Self, ParseError>)
        ensures
            match r {
                Ok(b) => spec_mdhd_error(data@) is None && spec_mdhd_ok(data@, b),
                Err(e) => spec_mdhd_error(data@) == Some(e),
            },
    {
        if data.len() < 4 {
            return Err(ParseError::TooShort);
        }
        let version = data[0];
        let (creation_time, modification_time, timescale, duration, lang_offset) = if version
            == 1 {
            if data.len() < 36 {
                return Err(ParseError::TooShort);
            }
            let c = read_be_u64(data, 4);
            let m = read_be_u64(data, 12);
            let s = read_be_u32(data, 20);
            let d = read_be_u64(data, 24);
            (c, m, s, d, 32usize)
        } else {
            if data.len() < 24 {
                return Err(ParseError::TooShort);
            }
            let c = read_be_u32(data, 4) as u64;
            let m = read_be_u32(data, 8) as u64;
            let s = read_be_u32(data, 12);
            let d = read_be_u32(data, 16) as u64;
            (c, m, s, d, 20usize)
        };
        let lang_code = read_be_u16(data, lang_offset);
        let mut language = String::new();
        push_char(&mut language, (((lang_code / 0x400) % 0x20 + 0x60) as u8) as char);
        push_char(&mut language, (((lang_code / 0x20) % 0x20 + 0x60) as u8) as char);
        push_char(&mut language, ((lang_code % 0x20 + 0x60) as u8) as char);
        proof {
            assert(language@ =~= spec_mdhd_language(lang_code as int));
        }
        Ok(MediaHeaderBox { version, creation_time, modification_time, timescale, duration, language })
    }
}

} // verus!
