//! Handler reference box (`hdlr`): the handler type four-character code,
//! a manufacturer code and a trailing null-terminated name.

use vstd::prelude::*;

use crate::error::ParseError;
use crate::strutil::spec_trim_nulls;
use crate::strutil::str_eq;
use crate::strutil::trim_trailing_nulls;
use crate::strutil::utf8_lossy_chars;
use crate::strutil::utf8_lossy_decode;

verus! {

/// A decoded handler reference box.
#[derive(Debug, Clone)]
pub struct HandlerBox {
    pub version: u8,
    pub handler_type: String,
    pub manufacturer: String,
    pub name: String,
}

/// Why an hdlr payload is rejected, if it is.
pub open spec fn spec_hdlr_error(data: Seq<u8>) -> Option<ParseError> {
    if data.len() < 24 {
        Some(ParseError::TooShort)
    } else {
        None
    }
}

/// The box decodes `data`: handler type at bytes 8 to 11, manufacturer at
/// 12 to 15 with trailing NULs dropped, and the name in the rest, also
/// with trailing NULs dropped.
pub open spec fn spec_hdlr_ok(data: Seq<u8>, b: HandlerBox) -> bool {
    &&& data.len() >= 24
    &&& b.version == data[0]
    &&& b.handler_type@ == utf8_lossy_chars(data.subrange(8, 12))
    &&& b.manufacturer@ == spec_trim_nulls(utf8_lossy_chars(data.subrange(12, 16)))
    &&& b.name@ == (if data.len() > 24 {
        spec_trim_nulls(utf8_lossy_chars(data.subrange(24, data.len() as int)))
    } else {
        Seq::<char>::empty()
    })
}

impl HandlerBox {
    /// Parse an hdlr box payload.
    pub fn parse(data: &[u8]) -> (r: Result<Self, ParseError>)
        ensures
            match r {
                Ok(b) => spec_hdlr_error(data@) is None && spec_hdlr_ok(data@, b),
                Err(e) => spec_hdlr_error(data@) == Some(e),
            },
    {
        if data.len() < 24 {
            return Err(ParseError::TooShort);
        }
        let version = data[0];
        let handler_type = utf8_lossy_decode(&data[8..12]);
        let manufacturer_raw = utf8_lossy_decode(&data[12..16]);
        let manufacturer = trim_trailing_nulls(manufacturer_raw.as_str());
        let name = if data.len() > 24 {
            let name_raw = utf8_lossy_decode(&data[24..data.len()]);
            trim_trailing_nulls(name_raw.as_str())
        } else {
            String::new()
        };
        Ok(HandlerBox { version, handler_type, manufacturer, name })
    }

    /// The fixed table naming each handler type.
    pub open spec fn spec_handler_name(handler_type: Seq<char>) -> Seq<char> {
        if handler_type == "vide"@ {
            "Video Track"@
        } else if handler_type == "soun"@ {
            "Audio Track"@
        } else if handler_type == "hint"@ {
            "Hint Track"@
        } else if handler_type == "meta"@ {
            "Metadata Track"@
        } else if handler_type == "mdir"@ {
            "Metadata Directory"@
        } else if handler_type == "auxv"@ {
            "Auxiliary Video Track"@
        } else if handler_type == "text"@ {
            "Text/Subtitle Track"@
        } else if handler_type == "sbtl"@ {
            "Subtitle Track"@
        } else if handler_type == "subt"@ {
            "Subtitle Track"@
        } else if handler_type == "clcp"@ {
            "Closed Caption Track"@
        } else if handler_type == "tmcd"@ {
            "Timecode Track"@
        } else {
            "Unknown Handler"@
        }
    }

    /// Get a human-readable handler type name.
    pub fn get_handler_name(handler_type: &str) -> (r: &'static str)
        ensures
            r@ == Self::spec_handler_name(handler_type@),
    {
        if str_eq(handler_type, "vide") {
            "Video Track"
        } else if str_eq(handler_type, "soun") {
            "Audio Track"
        } else if str_eq(handler_type, "hint") {
            "Hint Track"
        } else if str_eq(handler_type, "meta") {
            "Metadata Track"
        } else if str_eq(handler_type, "mdir") {
            "Metadata Directory"
        } else if str_eq(handler_type, "auxv") {
            "Auxiliary Video Track"
        } else if str_eq(handler_type, "text") {
            "Text/Subtitle Track"
        } else if str_eq(handler_type, "sbtl") {
            "Subtitle Track"
        } else if str_eq(handler_type, "subt") {
            "Subtitle Track"
        } else if str_eq(handler_type, "clcp") {
            "Closed Caption Track"
        } else if str_eq(handler_type, "tmcd") {
            "Timecode Track"
        } else {
            "Unknown Handler"
        }
    }
}

} // verus!
