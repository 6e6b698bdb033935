//! Data reference boxes: the `dref` wrapper and its `url ` and `urn `
//! entries.

use vstd::prelude::*;

use crate::bytes::read_be_u32;
use crate::bytes::spec_be32_at;
use crate::error::ParseError;
use crate::id3v2_text_encoding::TextEncoding;
use crate::id3v2_text_encoding::spec_first_terminator;
use crate::strutil::spec_trim_nulls;
use crate::strutil::trim_trailing_nulls;
use crate::strutil::utf8_lossy_chars;
use crate::strutil::utf8_lossy_decode;
use vstd::string::StringExecFns;

verus! {

/// A decoded data reference box: only the entry count is kept; the
/// entries themselves are walked as child boxes.
#[derive(Debug, Clone)]
pub struct DataReferenceBox {
    pub version: u8,
    pub entry_count: u32,
}

/// Why a dref payload is rejected, if it is.
pub open spec fn spec_dref_error(data: Seq<u8>) -> Option<ParseError> {
    if data.len() < 8 {
        Some(ParseError::TooShort)
    } else {
        None
    }
}

/// The box decodes `data`: a version byte and the entry count at byte 4.
pub open spec fn spec_dref_ok(data: Seq<u8>, b: DataReferenceBox) -> bool {
    data.len() >= 8 && b.version == data[0] && b.entry_count == spec_be32_at(data, 4)
}

impl DataReferenceBox {
    /// Parse a dref box payload.
    pub fn parse(data: &[u8]) -> (r: Result<Self, ParseError>)
        ensures
            match r {
                Ok(b) => spec_dref_error(data@) is None && spec_dref_ok(data@, b),
                Err(e) => spec_dref_error(data@) == Some(e),
            },
    {
        if data.len() < 8 {
            return Err(ParseError::TooShort);
        }
        Ok(DataReferenceBox { version: data[0], entry_count: read_be_u32(data, 4) })
    }
}

/// The 24-bit flags of a full box: bytes one to three, big-endian.
pub open spec fn spec_full_box_flags(data: Seq<u8>) -> int {
    data[1] * 0x10000 + data[2] * 0x100 + data[3]
}

/// A decoded URL entry box.
#[derive(Debug, Clone)]
pub struct UrlEntryBox {
    pub version: u8,
    pub flags: u32,
    pub location: String,
}

/// Why a url entry payload is rejected, if it is.
pub open spec fn spec_url_entry_error(data: Seq<u8>) -> Option<ParseError> {
    if data.len() < 4 {
        Some(ParseError::TooShort)
    } else {
        None
    }
}

/// The box decodes `data`: when flag bit 0 is set the data lives in the
/// same file and a fixed note stands in for the location; otherwise the
/// location is the rest with trailing NULs dropped.
pub open spec fn spec_url_entry_ok(data: Seq<u8>, b: UrlEntryBox) -> bool {
    &&& data.len() >= 4
    &&& b.version == data[0]
    &&& b.flags == spec_full_box_flags(data)
    &&& b.location@ == (if b.flags & 0x000001 != 0 {
        "(data in same file)"@
    } else if data.len() > 4 {
        spec_trim_nulls(utf8_lossy_chars(data.subrange(4, data.len() as int)))
    } else {
        Seq::<char>::empty()
    })
}

impl UrlEntryBox {
    /// Parse a url entry box payload.
    pub fn parse(data: &[u8]) -> (r: Result<Self, ParseError>)
        ensures
            match r {
                Ok(b) => spec_url_entry_error(data@) is None && spec_url_entry_ok(data@, b),
                Err(e) => spec_url_entry_error(data@) == Some(e),
            },
    {
        if data.len() < 4 {
            return Err(ParseError::TooShort);
        }
        let version = data[0];
        let flags: u32 = (data[1] as u32) * 0x10000 + (data[2] as u32) * 0x100 + (data[3] as u32);
        let location = if (flags & 0x000001) != 0 {
            let s = String::from_str("(data in same file)");
            s
        } else if data.len() > 4 {
            let raw = utf8_lossy_decode(&data[4..data.len()]);
            trim_trailing_nulls(raw.as_str())
        } else {
            String::new()
        };
        Ok(UrlEntryBox { version, flags, location })
    }
}

/// A decoded URN entry box.
#[derive(Debug, Clone)]
pub struct UrnEntryBox {
    pub version: u8,
    pub flags: u32,
    pub name: String,
    pub location: String,
}

/// Why a urn entry payload is rejected, if it is.
pub open spec fn spec_urn_entry_error(data: Seq<u8>) -> Option<ParseError> {
    if data.len() < 4 {
        Some(ParseError::TooShort)
    } else {
        None
    }
}

/// The box decodes `data`: the payload after the flags splits at its
/// first zero byte into the name and the location, the latter with
/// trailing NULs dropped; with no zero byte both stay empty.
pub open spec fn spec_urn_entry_ok(data: Seq<u8>, b: UrnEntryBox) -> bool {
    &&& data.len() >= 4
    &&& b.version == data[0]
    &&& b.flags == spec_full_box_flags(data)
    &&& {
        let payload = data.skip(4);
        match spec_first_terminator(payload, TextEncoding::Iso88591, 0) {
            Some(p) => {
                &&& b.name@ == utf8_lossy_chars(payload.subrange(0, p))
                &&& b.location@ == (if p + 1 < payload.len() {
                    spec_trim_nulls(
                        utf8_lossy_chars(payload.subrange(p + 1, payload.len() as int)),
                    )
                } else {
                    Seq::<char>::empty()
                })
            },
            None => b.name@.len() == 0 && b.location@.len() == 0,
        }
    }
}

impl UrnEntryBox {
    /// Parse a urn entry box payload.
    pub fn parse(data: &[u8]) -> (r: Result<Self, ParseError>)
        ensures
            match r {
                Ok(b) => spec_urn_entry_error(data@) is None && spec_urn_entry_ok(data@, b),
                Err(e) => spec_urn_entry_error(data@) == Some(e),
            },
    {
        if data.len() < 4 {
            return Err(ParseError::TooShort);
        }
        let version = data[0];
        let flags: u32 = (data[1] as u32) * 0x10000 + (data[2] as u32) * 0x100 + (data[3] as u32);
        let mut name = String::new();
        let mut location = String::new();
        let n: usize = data.len();
        let ghost payload = data@.skip(4);
        let mut pos: usize = 4;
        while pos < n && data[pos] != 0
            invariant
                n == data@.len(),
                payload == data@.skip(4),
                4 <= pos <= n,
                spec_first_terminator(payload, TextEncoding::Iso88591, 0) == spec_first_terminator(
                    payload,
                    TextEncoding::Iso88591,
                    pos - 4,
                ),
            decreases n - pos,
        {
            proof {
                assert(payload[pos - 4] == data@[pos as int]);
            }
            pos = pos + 1;
        }
        if pos < n {
            proof {
                assert(payload[pos - 4] == data@[pos as int]);
                assert(spec_first_terminator(payload, TextEncoding::Iso88591, 0) == Some(
                    pos - 4 as int,
                ));
            }
            let name_raw = utf8_lossy_decode(&data[4..pos]);
            name = name_raw;
            proof {
                assert(data@.subrange(4, pos as int) =~= payload.subrange(0, pos - 4));
            }
            if pos + 1 < n {
                let loc_raw = utf8_lossy_decode(&data[pos + 1..n]);
                location = trim_trailing_nulls(loc_raw.as_str());
                proof {
                    assert(data@.subrange(pos + 1 as int, n as int) =~= payload.subrange(
                        pos + 1 - 4,
                        payload.len() as int,
                    ));
                }
            }
        } else {
            proof {
                assert(spec_first_terminator(payload, TextEncoding::Iso88591, pos - 4) is None);
            }
        }
        Ok(UrnEntryBox { version, flags, name, location })
    }
}

} // verus!
