//! Movie header box (`mvhd`): timestamps, timescale, duration, preferred
//! rate and volume. The version byte selects 32- or 64-bit time fields;
//! rate is 16.16 and volume 8.8 fixed-point, kept here as the raw
//! fixed-point integers.

use vstd::prelude::*;

use crate::bytes::read_be_u16;
use crate::bytes::read_be_u32;
use crate::bytes::read_be_u64;
use crate::bytes::spec_be16_at;
use crate::bytes::spec_be32_at;
use crate::bytes::spec_be64_at;
use crate::error::ParseError;

verus! {

/// A decoded movie header box.
#[derive(Debug, Clone)]
pub struct MovieHeaderBox {
    pub version: u8,
    pub creation_time: u64,
    pub modification_time: u64,
    pub timescale: u32,
    pub duration: u64,
    /// Preferred rate as a 16.16 fixed-point integer; 0x10000 is normal.
    pub rate_fixed: i32,
    /// Preferred volume as an 8.8 fixed-point integer; 0x100 is full.
    pub volume_fixed: i16,
}

/// Why an mvhd payload is rejected, if it is: too short for its declared
/// version's fixed fields.
pub open spec fn spec_mvhd_error(data: Seq<u8>) -> Option<ParseError> {
    if data.len() < 4 {
        Some(ParseError::TooShort)
    } else if data[0] == 1 && data.len() < 40 {
        Some(ParseError::TooShort)
    } else if data[0] != 1 && data.len() < 28 {
        Some(ParseError::TooShort)
    } else {
        None
    }
}

/// The box decodes `data` at the offsets its version dictates.
pub open spec fn spec_mvhd_ok(data: Seq<u8>, b: MovieHeaderBox) -> bool {
    &&& data.len() >= 4
    &&& b.version == data[0]
    &&& if b.version == 1 {
        &&& data.len() >= 40
        &&& b.creation_time == spec_be64_at(data, 4)
        &&& b.modification_time == spec_be64_at(data, 12)
        &&& b.timescale == spec_be32_at(data, 20)
        &&& b.duration == spec_be64_at(data, 24)
        &&& b.rate_fixed == spec_be32_at(data, 32) as u32 as i32
        &&& b.volume_fixed == spec_be16_at(data, 36) as u16 as i16
    } else {
        &&& data.len() >= 28
        &&& b.creation_time == spec_be32_at(data, 4)
        &&& b.modification_time == spec_be32_at(data, 8)
        &&& b.timescale == spec_be32_at(data, 12)
        &&& b.duration == spec_be32_at(data, 16)
        &&& b.rate_fixed == spec_be32_at(data, 20) as u32 as i32
        &&& b.volume_fixed == spec_be16_at(data, 24) as u16 as i16
    }
}

impl MovieHeaderBox {
    /// Parse an mvhd box payload.
    pub fn parse(data: &[u8]) -> (r: Result<Self, ParseError>)
        ensures
            match r {
                Ok(b) => spec_mvhd_error(data@) is None && spec_mvhd_ok(data@, b),
                Err(e) => spec_mvhd_error(data@) == Some(e),
            },
    {
        if data.len() < 4 {
            return Err(ParseError::TooShort);
        }
        let version = data[0];
        if version == 1 {
            if data.len() < 40 {
                return Err(ParseError::TooShort);
            }
            Ok(
                MovieHeaderBox {
                    version,
                    creation_time: read_be_u64(data, 4),
                    modification_time: read_be_u64(data, 12),
                    timescale: read_be_u32(data, 20),
                    duration: read_be_u64(data, 24),
                    rate_fixed: read_be_u32(data, 32) as i32,
                    volume_fixed: read_be_u16(data, 36) as i16,
                },
            )
        } else {
            if data.len() < 28 {
                return Err(ParseError::TooShort);
            }
            Ok(
                MovieHeaderBox {
                    version,
                    creation_time: read_be_u32(data, 4) as u64,
                    modification_time: read_be_u32(data, 8) as u64,
                    timescale: read_be_u32(data, 12),
                    duration: read_be_u32(data, 16) as u64,
                    rate_fixed: read_be_u32(data, 20) as i32,
                    volume_fixed: read_be_u16(data, 24) as i16,
                },
            )
        }
    }
}

} // verus!
