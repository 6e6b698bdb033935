//! Media information headers: video (`vmhd`), sound (`smhd`) and null
//! (`nmhd`). The sound balance is 8.8 fixed-point, kept as the raw
//! fixed-point integer.

use vstd::prelude::*;

use crate::bytes::read_be_u16;
use crate::bytes::spec_be16_at;
use crate::error::ParseError;

verus! {

/// A decoded video media header box.
#[derive(Debug, Clone)]
pub struct VideoMediaHeaderBox {
    pub version: u8,
    pub graphics_mode: u16,
    /// The three opcolor components: red, green, blue.
    pub opcolor: [u16; 3],
}

/// Why a vmhd payload is rejected, if it is.
pub open spec fn spec_vmhd_error(data: Seq<u8>) -> Option<ParseError> {
    if data.len() < 12 {
        Some(ParseError::TooShort)
    } else {
        None
    }
}

/// The box decodes `data`: graphics mode at byte 4, then three 16-bit
/// color components.
pub open spec fn spec_vmhd_ok(data: Seq<u8>, b: VideoMediaHeaderBox) -> bool {
    &&& data.len() >= 12
    &&& b.version == data[0]
    &&& b.graphics_mode == spec_be16_at(data, 4)
    &&& b.opcolor@[0] == spec_be16_at(data, 6)
    &&& b.opcolor@[1] == spec_be16_at(data, 8)
    &&& b.opcolor@[2] == spec_be16_at(data, 10)
}

impl VideoMediaHeaderBox {
    /// Parse a vmhd box payload.
    pub fn parse(data: &[u8]) -> (r: Result<Self, ParseError>)
        ensures
            match r {
                Ok(b) => spec_vmhd_error(data@) is None && spec_vmhd_ok(data@, b),
                Err(e) => spec_vmhd_error(data@) == Some(e),
            },
    {
        if data.len() < 12 {
            return Err(ParseError::TooShort);
        }
        let version = data[0];
        let graphics_mode = read_be_u16(data, 4);
        let opcolor = [read_be_u16(data, 6), read_be_u16(data, 8), read_be_u16(data, 10)];
        Ok(VideoMediaHeaderBox { version, graphics_mode, opcolor })
    }
}

/// A decoded sound media header box.
#[derive(Debug, Clone)]
pub struct SoundMediaHeaderBox {
    pub version: u8,
    /// Stereo balance as an 8.8 fixed-point integer; 0 is center.
    pub balance_fixed: i16,
}

/// Why an smhd payload is rejected, if it is.
pub open spec fn spec_smhd_error(data: Seq<u8>) -> Option<ParseError> {
    if data.len() < 8 {
        Some(ParseError::TooShort)
    } else {
        None
    }
}

/// The box decodes `data`: the balance stands at byte 4.
pub open spec fn spec_smhd_ok(data: Seq<u8>, b: SoundMediaHeaderBox) -> bool {
    &&& data.len() >= 8
    &&& b.version == data[0]
    &&& b.balance_fixed == spec_be16_at(data, 4) as u16 as i16
}

impl SoundMediaHeaderBox {
    /// Parse an smhd box payload.
    pub fn parse(data: &[u8]) -> (r: Result<Self, ParseError>)
        ensures
            match r {
                Ok(b) => spec_smhd_error(data@) is None && spec_smhd_ok(data@, b),
                Err(e) => spec_smhd_error(data@) == Some(e),
            },
    {
        if data.len() < 8 {
            return Err(ParseError::TooShort);
        }
        Ok(SoundMediaHeaderBox { version: data[0], balance_fixed: read_be_u16(data, 4) as i16 })
    }
}

/// A decoded null media header box.
#[derive(Debug, Clone)]
pub struct NullMediaHeaderBox {
    pub version: u8,
}

/// Why an nmhd payload is rejected, if it is.
pub open spec fn spec_nmhd_error(data: Seq<u8>) -> Option<ParseError> {
    if data.len() < 4 {
        Some(ParseError::TooShort)
    } else {
        None
    }
}

/// The box decodes `data`: only the version byte is read.
pub open spec fn spec_nmhd_ok(data: Seq<u8>, b: NullMediaHeaderBox) -> bool {
    data.len() >= 4 && b.version == data[0]
}

impl NullMediaHeaderBox {
    /// Parse an nmhd box payload.
    pub fn parse(data: &[u8]) -> (r: Result<Self, ParseError>)
        ensures
            match r {
                Ok(b) => spec_nmhd_error(data@) is None && spec_nmhd_ok(data@, b),
                Err(e) => spec_nmhd_error(data@) == Some(e),
            },
    {
        if data.len() < 4 {
            return Err(ParseError::TooShort);
        }
        Ok(NullMediaHeaderBox { version: data[0] })
    }
}

} // verus!
