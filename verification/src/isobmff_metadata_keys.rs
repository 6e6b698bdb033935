//! iTunes custom-metadata key boxes: the namespace (`mean`) and the key
//! name (`name`).

use vstd::prelude::*;

use crate::error::ParseError;
use crate::strutil::spec_trim_nulls;
use crate::strutil::trim_trailing_nulls;
use crate::strutil::utf8_lossy_chars;
use crate::strutil::utf8_lossy_decode;

verus! {

/// A decoded iTunes metadata namespace box.
#[derive(Debug, Clone)]
pub struct MetadataMeanBox {
    pub version: u8,
    pub namespace: String,
}

/// Why a mean payload is rejected, if it is.
pub open spec fn spec_mean_error(data: Seq<u8>) -> Option<ParseError> {
    if data.len() < 4 {
        Some(ParseError::TooShort)
    } else {
        None
    }
}

/// The box decodes `data`: the namespace fills everything after the
/// version and flags, with trailing NULs dropped.
pub open spec fn spec_mean_ok(data: Seq<u8>, b: MetadataMeanBox) -> bool {
    &&& data.len() >= 4
    &&& b.version == data[0]
    &&& b.namespace@ == (if data.len() > 4 {
        spec_trim_nulls(utf8_lossy_chars(data.subrange(4, data.len() as int)))
    } else {
        Seq::<char>::empty()
    })
}

impl MetadataMeanBox {
    /// Parse a mean box payload.
    pub fn parse(data: &[u8]) -> (r: Result<Self, ParseError>)
        ensures
            match r {
                Ok(b) => spec_mean_error(data@) is None && spec_mean_ok(data@, b),
                Err(e) => spec_mean_error(data@) == Some(e),
            },
    {
        if data.len() < 4 {
            return Err(ParseError::TooShort);
        }
        let namespace = if data.len() > 4 {
            let raw = utf8_lossy_decode(&data[4..data.len()]);
            trim_trailing_nulls(raw.as_str())
        } else {
            String::new()
        };
        Ok(MetadataMeanBox { version: data[0], namespace })
    }
}

/// A decoded iTunes metadata key-name box.
#[derive(Debug, Clone)]
pub struct MetadataNameBox {
    pub version: u8,
    pub name: String,
}

/// Why a name payload is rejected, if it is.
pub open spec fn spec_name_error(data: Seq<u8>) -> Option<ParseError> {
    if data.len() < 4 {
        Some(ParseError::TooShort)
    } else {
        None
    }
}

/// The box decodes `data`: the key name fills everything after the
/// version and flags, with trailing NULs dropped.
pub open spec fn spec_name_ok(data: Seq<u8>, b: MetadataNameBox) -> bool {
    &&& data.len() >= 4
    &&& b.version == data[0]
    &&& b.name@ == (if data.len() > 4 {
        spec_trim_nulls(utf8_lossy_chars(data.subrange(4, data.len() as int)))
    } else {
        Seq::<char>::empty()
    })
}

impl MetadataNameBox {
    /// Parse a name box payload.
    pub fn parse(data: &[u8]) -> (r: Result<Self, ParseError>)
        ensures
            match r {
                Ok(b) => spec_name_error(data@) is None && spec_name_ok(data@, b),
                Err(e) => spec_name_error(data@) == Some(e),
            },
    {
        if data.len() < 4 {
            return Err(ParseError::TooShort);
        }
        let name = if data.len() > 4 {
            let raw = utf8_lossy_decode(&data[4..data.len()]);
            trim_trailing_nulls(raw.as_str())
        } else {
            String::new()
        };
        Ok(MetadataNameBox { version: data[0], name })
    }
}

} // verus!
