//! Track header box (`tkhd`): per-track timestamps, id, duration, layer,
//! volume and presentation size. The version byte selects 32- or 64-bit
//! time fields; volume is 8.8 and width/height are 16.16 fixed-point,
//! kept here as the raw fixed-point integers.

use vstd::prelude::*;

use crate::bytes::read_be_u16;
use crate::bytes::read_be_u32;
use crate::bytes::read_be_u64;
use crate::bytes::spec_be16_at;
use crate::bytes::spec_be32_at;
use crate::bytes::spec_be64_at;
use crate::error::ParseError;

verus! {

/// A decoded track header box.
#[derive(Debug, Clone)]
pub struct TrackHeaderBox {
    pub version: u8,
    /// The 24-bit box flags (track enabled, in movie, in preview).
    pub flags: u32,
    pub creation_time: u64,
    pub modification_time: u64,
    pub track_id: u32,
    pub duration: u64,
    pub layer: i16,
    pub alternate_group: i16,
    /// Volume as an 8.8 fixed-point integer; 0x100 is full.
    pub volume_fixed: i16,
    /// Presentation width as a 16.16 fixed-point integer.
    pub width_fixed: u32,
    /// Presentation height as a 16.16 fixed-point integer.
    pub height_fixed: u32,
}

/// Where the layer and size fields start: past the version-dependent
/// fixed fields.
pub open spec fn spec_tkhd_base(version: u8) -> int {
    if version == 1 {
        36
    } else {
        24
    }
}

/// Why a tkhd payload is rejected, if it is: too short for its declared
/// version's fixed fields, the reserved gap, the transformation matrix
/// and the size fields.
pub open spec fn spec_tkhd_error(data: Seq<u8>) -> Option<ParseError> {
    if data.len() < 4 {
        Some(ParseError::TooShort)
    } else if data[0] == 1 && data.len() < 40 {
        Some(ParseError::TooShort)
    } else if data[0] != 1 && data.len() < 28 {
        Some(ParseError::TooShort)
    } else if data.len() < spec_tkhd_base(data[0]) + 60 {
        Some(ParseError::TooShort)
    } else {
        None
    }
}

/// The box decodes `data` at the offsets its version dictates.
pub open spec fn spec_tkhd_ok(data: Seq<u8>, b: TrackHeaderBox) -> bool {
    &&& data.len() >= 4
    &&& b.version == data[0]
    &&& b.flags == data[1] * 0x10000 + data[2] * 0x100 + data[3]
    &&& if b.version == 1 {
        &&& data.len() >= 40
        &&& b.creation_time == spec_be64_at(data, 4)
        &&& b.modification_time == spec_be64_at(data, 12)
        &&& b.track_id == spec_be32_at(data, 20)
        &&& b.duration == spec_be64_at(data, 28)
    } else {
        &&& data.len() >= 28
        &&& b.creation_time == spec_be32_at(data, 4)
        &&& b.modification_time == spec_be32_at(data, 8)
        &&& b.track_id == spec_be32_at(data, 12)
        &&& b.duration == spec_be32_at(data, 20)
    }
    &&& {
        let base = spec_tkhd_base(b.version);
        &&& data.len() >= base + 60
        &&& b.layer == spec_be16_at(data, base + 8) as u16 as i16
        &&& b.alternate_group == spec_be16_at(data, base + 10) as u16 as i16
        &&& b.volume_fixed == spec_be16_at(data, base + 12) as u16 as i16
        &&& b.width_fixed == spec_be32_at(data, base + 52)
        &&& b.height_fixed == spec_be32_at(data, base + 56)
    }
}

impl TrackHeaderBox {
    /// Parse a tkhd box payload.
    pub fn parse(data: &[u8]) -> (r: Result<Self, ParseError>)
        ensures
            match r {
                Ok(b) => spec_tkhd_error(data@) is None && spec_tkhd_ok(data@, b),
                Err(e) => spec_tkhd_error(data@) == Some(e),
            },
    {
        if data.len() < 4 {
            return Err(ParseError::TooShort);
        }
        let version = data[0];
        let flags: u32 = (data[1] as u32) * 0x10000 + (data[2] as u32) * 0x100 + (data[3] as u32);
        let (creation_time, modification_time, track_id, duration, base) = if version == 1 {
            if data.len() < 40 {
                return Err(ParseError::TooShort);
            }
            let c = read_be_u64(data, 4);
            let m = read_be_u64(data, 12);
            let t = read_be_u32(data, 20);
            let d = read_be_u64(data, 28);
            (c, m, t, d, 36usize)
        } else {
            if data.len() < 28 {
                return Err(ParseError::TooShort);
            }
            let c = read_be_u32(data, 4) as u64;
            let m = read_be_u32(data, 8) as u64;
            let t = read_be_u32(data, 12);
            let d = read_be_u32(data, 20) as u64;
            (c, m, t, d, 24usize)
        };
        if data.len() < base + 60 {
            return Err(ParseError::TooShort);
        }
        let layer = read_be_u16(data, base + 8) as i16;
        let alternate_group = read_be_u16(data, base + 10) as i16;
        let volume_fixed = read_be_u16(data, base + 12) as i16;
        let width_fixed = read_be_u32(data, base + 52);
        let height_fixed = read_be_u32(data, base + 56);
        Ok(
            TrackHeaderBox {
                version,
                flags,
                creation_time,
                modification_time,
                track_id,
                duration,
                layer,
                alternate_group,
                volume_fixed,
                width_fixed,
                height_fixed,
            },
        )
    }
}

} // verus!
