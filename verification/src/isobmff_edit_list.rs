//! Edit list box (`elst`): only the declared entry count is kept.

use vstd::prelude::*;

use crate::bytes::read_be_u32;
use crate::bytes::spec_be32_at;
use crate::error::ParseError;

verus! {

/// A decoded edit list box.
#[derive(Debug, Clone)]
pub struct EditListBox {
    pub version: u8,
    pub entry_count: u32,
}

/// Why an elst payload is rejected, if it is.
pub open spec fn spec_elst_error(data: Seq<u8>) -> Option<ParseError> {
    if data.len() < 8 {
        Some(ParseError::TooShort)
    } else {
        None
    }
}

/// The box decodes `data`: a version byte and the entry count at byte 4.
pub open spec fn spec_elst_ok(data: Seq<u8>, b: EditListBox) -> bool {
    data.len() >= 8 && b.version == data[0] && b.entry_count == spec_be32_at(data, 4)
}

impl EditListBox {
    /// Parse an elst box payload.
    pub fn parse(data: &[u8]) -> (r: Result<Self, ParseError>)
        ensures
            match r {
                Ok(b) => spec_elst_error(data@) is None && spec_elst_ok(data@, b),
                Err(e) => spec_elst_error(data@) == Some(e),
            },
    {
        if data.len() < 8 {
            return Err(ParseError::TooShort);
        }
        Ok(EditListBox { version: data[0], entry_count: read_be_u32(data, 4) })
    }
}

} // verus!
