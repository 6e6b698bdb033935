//! Unique file identifier frame (`UFID`).
//!
//! Layout: a null-terminated owner identifier (ISO-8859-1), then up to 64
//! bytes of opaque identifier.

use vstd::prelude::*;

use crate::error::ParseError;
use crate::id3v2_text_encoding::TextEncoding;
use crate::id3v2_text_encoding::spec_first_terminator;
use crate::strutil::latin1_chars;
use crate::strutil::latin1_decode;
use crate::strutil::sub_bytes;

verus! {

/// A decoded unique-file-identifier frame.
#[derive(Debug, Clone)]
pub struct UniqueFileIdFrame {
    pub owner_identifier: String,
    pub identifier: Vec<u8>,
}

/// Position of the first zero byte, if any; the UFID owner terminator.
pub open spec fn spec_first_zero(data: Seq<u8>) -> Option<int> {
    spec_first_terminator(data, TextEncoding::Iso88591, 0)
}

/// Why a UFID payload is rejected, if it is.
pub open spec fn spec_ufid_frame_error(data: Seq<u8>) -> Option<ParseError> {
    if data.len() == 0 {
        Some(ParseError::TooShort)
    } else {
        match spec_first_zero(data) {
            None => Some(ParseError::MissingTerminator),
            Some(p) => if data.len() - (p + 1) > 64 {
                Some(ParseError::IdentifierTooLong)
            } else {
                None
            },
        }
    }
}

/// The frame decodes `data`: the owner identifier is the Latin-1 text up
/// to the first zero byte and the identifier is everything after it.
pub open spec fn spec_ufid_frame_ok(data: Seq<u8>, f: UniqueFileIdFrame) -> bool {
    &&& data.len() >= 1
    &&& match spec_first_zero(data) {
        Some(p) => f.owner_identifier@ == latin1_chars(data.subrange(0, p)) && f.identifier@
            == data.subrange(p + 1, data.len() as int),
        None => false,
    }
}

impl UniqueFileIdFrame {
    /// Parse a UFID frame from raw data.
    pub fn parse(data: &[u8]) -> (r: Result<Self, ParseError>)
        ensures
            match r {
                Ok(f) => spec_ufid_frame_error(data@) is None && spec_ufid_frame_ok(data@, f),
                Err(e) => spec_ufid_frame_error(data@) == Some(e),
            },
    {
        if data.len() == 0 {
            return Err(ParseError::TooShort);
        }
        let mut pos: usize = 0;
        while pos < data.len() && data[pos] != 0
            invariant
                0 <= pos <= data@.len(),
                spec_first_zero(data@) == spec_first_terminator(
                    data@,
                    TextEncoding::Iso88591,
                    pos as int,
                ),
            decreases data@.len() - pos,
        {
            pos = pos + 1;
        }
        if pos >= data.len() {
            return Err(ParseError::MissingTerminator);
        }
        proof {
            assert(spec_first_zero(data@) == Some(pos as int));
        }
        let owner_identifier = latin1_decode(&data[0..pos]);
        let identifier = sub_bytes(data, pos + 1, data.len());
        if identifier.len() > 64 {
            return Err(ParseError::IdentifierTooLong);
        }
        Ok(UniqueFileIdFrame { owner_identifier, identifier })
    }
}

} // verus!
