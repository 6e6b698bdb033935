//! iTunes metadata: the typed interpretation of a `data` box payload.
//!
//! Layout: one version byte, a 3-byte type tag whose low byte selects the
//! interpretation, four reserved bytes, then the content. The `trkn` and
//! `disk` owners special-case both the implicit and unsigned-integer tags
//! as a 3-by-16-bit tuple (reserved, number, total).

use vstd::prelude::*;

use crate::bytes::read_be_u16;
use crate::bytes::read_be_u32;
use crate::bytes::read_be_u64;
use crate::bytes::spec_be16_at;
use crate::bytes::spec_be32_at;
use crate::bytes::spec_be64_at;
use crate::error::ParseError;
use crate::strutil::str_eq;
use crate::strutil::sub_bytes;
use crate::strutil::utf8_lossy_chars;
use crate::strutil::utf8_lossy_decode;
use crate::strutil::utf16_lossy_chars;
use crate::strutil::utf16_lossy_decode;
use vstd::string::StringExecFns;

verus! {

/// The iTunes data type a type tag selects.
#[derive(Debug, Clone, Copy, PartialEq, Eq, Structural)]
pub enum ItunesDataType {
    /// Type tag 0x00.
    Implicit,
    /// Type tag 0x01.
    Utf8,
    /// Type tag 0x02.
    Utf16Be,
    /// Type tag 0x0D.
    Jpeg,
    /// Type tag 0x0E.
    Png,
    /// Type tag 0x15.
    SignedInt,
    /// Type tag 0x16.
    UnsignedInt,
    /// Any other type tag, carried through.
    Binary(u8),
}

/// The data type the low byte of the flags selects.
pub open spec fn spec_itunes_data_type(type_byte: u8) -> ItunesDataType {
    if type_byte == 0x00 {
        ItunesDataType::Implicit
    } else if type_byte == 0x01 {
        ItunesDataType::Utf8
    } else if type_byte == 0x02 {
        ItunesDataType::Utf16Be
    } else if type_byte == 0x0D {
        ItunesDataType::Jpeg
    } else if type_byte == 0x0E {
        ItunesDataType::Png
    } else if type_byte == 0x15 {
        ItunesDataType::SignedInt
    } else if type_byte == 0x16 {
        ItunesDataType::UnsignedInt
    } else {
        ItunesDataType::Binary(type_byte)
    }
}

impl ItunesDataType {
    /// Derive the data type from a `data` box's 24-bit flags value; the
    /// type lives in its last byte.
    pub fn from_flags(flags: u32) -> (r: Self)
        ensures
            r == spec_itunes_data_type((flags & 0xFF) as u8),
    {
        let type_byte = (flags & 0xFF) as u8;
        match type_byte {
            0x00 => ItunesDataType::Implicit,
            0x01 => ItunesDataType::Utf8,
            0x02 => ItunesDataType::Utf16Be,
            0x0D => ItunesDataType::Jpeg,
            0x0E => ItunesDataType::Png,
            0x15 => ItunesDataType::SignedInt,
            0x16 => ItunesDataType::UnsignedInt,
            other => ItunesDataType::Binary(other),
        }
    }
}

/// iTunes metadata content.
#[derive(Debug, Clone)]
pub enum ItunesContent {
    Text(String),
    Integer(i64),
    UnsignedInteger(u64),
    Image { format: String, data_size: usize },
    Binary(Vec<u8>),
    TrackNumber { track: u16, total_tracks: u16 },
    DiskNumber { disk: u16, total_disks: u16 },
}

/// A parsed iTunes metadata box.
#[derive(Debug, Clone)]
pub struct ItunesMetadata {
    pub data_type: ItunesDataType,
    pub content: ItunesContent,
}

/// The UTF-16BE code units of the payload: complete big-endian pairs, a
/// trailing odd byte dropped.
pub open spec fn spec_utf16be_units(payload: Seq<u8>) -> Seq<u16> {
    Seq::new(((payload.len() / 2) as nat), |i: int| spec_be16_at(payload, 2 * i) as u16)
}

/// Whether a box owner takes the track/disk tuple special case.
pub open spec fn spec_is_track_or_disk(box_type: Seq<char>) -> bool {
    box_type == "trkn"@ || box_type == "disk"@
}

/// Why an iTunes `data` payload is rejected, if it is: fewer than the
/// eight header bytes, or an integer whose width is none of 1, 2, 4 or 8
/// bytes (the track/disk tuple form excepted).
pub open spec fn spec_itunes_error(box_type: Seq<char>, data: Seq<u8>) -> Option<ParseError> {
    if data.len() < 8 {
        Some(ParseError::TooShort)
    } else {
        let dt = spec_itunes_data_type(data[3]);
        let plen = data.len() - 8;
        if dt == ItunesDataType::SignedInt {
            if plen == 1 || plen == 2 || plen == 4 || plen == 8 {
                None
            } else {
                Some(ParseError::InvalidIntegerSize)
            }
        } else if dt == ItunesDataType::UnsignedInt {
            if spec_is_track_or_disk(box_type) && plen >= 6 {
                None
            } else if plen == 1 || plen == 2 || plen == 4 || plen == 8 {
                None
            } else {
                Some(ParseError::InvalidIntegerSize)
            }
        } else {
            None
        }
    }
}

/// The content a payload of each data type decodes to.
pub open spec fn spec_itunes_content_ok(
    box_type: Seq<char>,
    data: Seq<u8>,
    m: ItunesMetadata,
) -> bool {
    &&& data.len() >= 8
    &&& m.data_type == spec_itunes_data_type(data[3])
    &&& {
        let payload = data.skip(8);
        match m.data_type {
            ItunesDataType::Implicit => {
                if spec_is_track_or_disk(box_type) && payload.len() >= 6 {
                    spec_track_disk_ok(box_type, payload, m.content)
                } else {
                    m.content matches ItunesContent::Text(t) && t@ == utf8_lossy_chars(payload)
                }
            },
            ItunesDataType::Utf8 => m.content matches ItunesContent::Text(t) && t@
                == utf8_lossy_chars(payload),
            ItunesDataType::Utf16Be => m.content matches ItunesContent::Text(t) && t@
                == utf16_lossy_chars(spec_utf16be_units(payload)),
            ItunesDataType::SignedInt => m.content matches ItunesContent::Integer(v) && (if payload.len() == 1 {
                v == payload[0] as i8 as i64
            } else if payload.len() == 2 {
                v == spec_be16_at(payload, 0) as u16 as i16 as i64
            } else if payload.len() == 4 {
                v == spec_be32_at(payload, 0) as u32 as i32 as i64
            } else {
                payload.len() == 8 && v == spec_be64_at(payload, 0) as u64 as i64
            }),
            ItunesDataType::UnsignedInt => {
                if spec_is_track_or_disk(box_type) && payload.len() >= 6 {
                    spec_track_disk_ok(box_type, payload, m.content)
                } else {
                    m.content matches ItunesContent::UnsignedInteger(v) && (if payload.len()
                        == 1 {
                        v == payload[0]
                    } else if payload.len() == 2 {
                        v == spec_be16_at(payload, 0)
                    } else if payload.len() == 4 {
                        v == spec_be32_at(payload, 0)
                    } else {
                        payload.len() == 8 && v == spec_be64_at(payload, 0)
                    })
                }
            },
            ItunesDataType::Jpeg => m.content matches ItunesContent::Image { format, data_size }
                && format@ == "JPEG"@ && data_size == payload.len(),
            ItunesDataType::Png => m.content matches ItunesContent::Image { format, data_size }
                && format@ == "PNG"@ && data_size == payload.len(),
            ItunesDataType::Binary(_) => m.content matches ItunesContent::Binary(b) && b@
                == payload,
        }
    }
}

/// The track/disk tuple: a 16-bit number at byte 2 and a 16-bit total at
/// byte 4 of the payload, under the owner's variant.
pub open spec fn spec_track_disk_ok(
    box_type: Seq<char>,
    payload: Seq<u8>,
    c: ItunesContent,
) -> bool {
    if box_type == "trkn"@ {
        c matches ItunesContent::TrackNumber { track, total_tracks } && track == spec_be16_at(
            payload,
            2,
        ) && total_tracks == spec_be16_at(payload, 4)
    } else {
        c matches ItunesContent::DiskNumber { disk, total_disks } && disk == spec_be16_at(
            payload,
            2,
        ) && total_disks == spec_be16_at(payload, 4)
    }
}

impl ItunesMetadata {
    /// Parse iTunes metadata from a `data` box payload, under the owning
    /// box's type.
    pub fn parse(box_type: &str, data: &[u8]) -> (r: Result<Self, ParseError>)
        ensures
            match r {
                Ok(m) => spec_itunes_error(box_type@, data@) is None && spec_itunes_content_ok(
                    box_type@,
                    data@,
                    m,
                ),
                Err(e) => spec_itunes_error(box_type@, data@) == Some(e),
            },
    {
        let n: usize = data.len();
        if n < 8 {
            return Err(ParseError::TooShort);
        }
        let flags: u32 = (data[1] as u32) * 0x10000 + (data[2] as u32) * 0x100 + (data[3] as u32);
        let data_type = ItunesDataType::from_flags(flags);
        let d3 = data[3];
        proof {
            assert(flags % 0x100 == d3 as u32);
            assert(flags & 0xFF == d3 as u32) by (bit_vector)
                requires
                    flags % 0x100 == d3 as u32,
            ;
            assert((flags & 0xFF) as u8 == data@[3]);
        }
        let payload = &data[8..n];
        proof {
            assert(payload@ =~= data@.skip(8));
        }
        let plen: usize = n - 8;
        let is_track = str_eq(box_type, "trkn");
        let is_disk = str_eq(box_type, "disk");
        let content: ItunesContent = match data_type {
            ItunesDataType::Implicit => {
                if (is_track || is_disk) && plen >= 6 {
                    let number = read_be_u16(payload, 2);
                    let total = read_be_u16(payload, 4);
                    if is_track {
                        ItunesContent::TrackNumber { track: number, total_tracks: total }
                    } else {
                        ItunesContent::DiskNumber { disk: number, total_disks: total }
                    }
                } else {
                    ItunesContent::Text(utf8_lossy_decode(payload))
                }
            },
            ItunesDataType::Utf8 => ItunesContent::Text(utf8_lossy_decode(payload)),
            ItunesDataType::Utf16Be => {
                let count: usize = plen / 2;
                proof {
                    vstd::arithmetic::div_mod::lemma_fundamental_div_mod(payload@.len() as int, 2);
                }
                let mut units: Vec<u16> = Vec::new();
                let mut i: usize = 0;
                while i < count
                    invariant
                        0 <= i <= count,
                        payload@.len() <= usize::MAX,
                        count == payload@.len() / 2,
                        2 * count <= payload@.len(),
                        units@ == spec_utf16be_units(payload@).subrange(0, i as int),
                    decreases count - i,
                {
                    units.push(read_be_u16(payload, 2 * i));
                    proof {
                        assert(spec_utf16be_units(payload@).subrange(0, i + 1 as int)
                            =~= spec_utf16be_units(payload@).subrange(0, i as int).push(
                            spec_utf16be_units(payload@)[i as int],
                        ));
                    }
                    i = i + 1;
                }
                proof {
                    assert(units@ =~= spec_utf16be_units(payload@));
                }
                ItunesContent::Text(utf16_lossy_decode(units.as_slice()))
            },
            ItunesDataType::SignedInt => {
                let value: i64 = if plen == 1 {
                    payload[0] as i8 as i64
                } else if plen == 2 {
                    read_be_u16(payload, 0) as i16 as i64
                } else if plen == 4 {
                    read_be_u32(payload, 0) as i32 as i64
                } else if plen == 8 {
                    read_be_u64(payload, 0) as i64
                } else {
                    return Err(ParseError::InvalidIntegerSize);
                };
                ItunesContent::Integer(value)
            },
            ItunesDataType::UnsignedInt => {
                if (is_track || is_disk) && plen >= 6 {
                    let number = read_be_u16(payload, 2);
                    let total = read_be_u16(payload, 4);
                    if is_track {
                        ItunesContent::TrackNumber { track: number, total_tracks: total }
                    } else {
                        ItunesContent::DiskNumber { disk: number, total_disks: total }
                    }
                } else {
                    let value: u64 = if plen == 1 {
                        payload[0] as u64
                    } else if plen == 2 {
                        read_be_u16(payload, 0) as u64
                    } else if plen == 4 {
                        read_be_u32(payload, 0) as u64
                    } else if plen == 8 {
                        read_be_u64(payload, 0)
                    } else {
                        return Err(ParseError::InvalidIntegerSize);
                    };
                    ItunesContent::UnsignedInteger(value)
                }
            },
            ItunesDataType::Jpeg => {
                let format = String::from_str("JPEG");
                ItunesContent::Image { format, data_size: plen }
            },
            ItunesDataType::Png => {
                let format = String::from_str("PNG");
                ItunesContent::Image { format, data_size: plen }
            },
            ItunesDataType::Binary(_) => ItunesContent::Binary(sub_bytes(data, 8, n)),
        };
        Ok(ItunesMetadata { data_type, content })
    }
}

} // verus!
