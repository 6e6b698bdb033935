//! User-defined text information frame (`TXXX`).
//!
//! Layout: one text-encoding byte, an encoding-terminated description,
//! then the value.

use vstd::prelude::*;

use crate::error::ParseError;
use crate::id3v2_text_encoding::TextEncoding;
use crate::id3v2_text_encoding::spec_encoding_from_byte;
use crate::id3v2_text_encoding::spec_split_terminated;
use crate::id3v2_text_encoding::split_terminated_text;

verus! {

/// A decoded user-defined text frame.
#[derive(Debug, Clone)]
pub struct UserTextFrame {
    pub encoding: TextEncoding,
    pub description: String,
    pub value: String,
}

/// Why a user-text frame payload is rejected, if it is.
pub open spec fn spec_user_text_frame_error(data: Seq<u8>) -> Option<ParseError> {
    if data.len() == 0 {
        Some(ParseError::TooShort)
    } else if spec_encoding_from_byte(data[0]) is None {
        Some(ParseError::UnknownEncoding)
    } else if data.len() < 2 {
        Some(ParseError::TooShort)
    } else {
        match spec_split_terminated(data.skip(1), spec_encoding_from_byte(data[0]).unwrap()) {
            Ok(_) => None,
            Err(e) => Some(e),
        }
    }
}

/// The frame decodes `data`: the first byte selects the encoding and the
/// rest splits at the first terminator into description and value.
pub open spec fn spec_user_text_frame_ok(data: Seq<u8>, utf: UserTextFrame) -> bool {
    &&& data.len() >= 2
    &&& spec_encoding_from_byte(data[0]) == Some(utf.encoding)
    &&& spec_split_terminated(data.skip(1), utf.encoding) == Ok::<
        (Seq<char>, Seq<char>),
        ParseError,
    >((utf.description@, utf.value@))
}

impl UserTextFrame {
    /// Parse a TXXX frame from raw data.
    pub fn parse(data: &[u8]) -> (r: Result<Self, ParseError>)
        ensures
            match r {
                Ok(utf) => spec_user_text_frame_error(data@) is None && spec_user_text_frame_ok(
                    data@,
                    utf,
                ),
                Err(e) => spec_user_text_frame_error(data@) == Some(e),
            },
    {
        if data.len() == 0 {
            return Err(ParseError::TooShort);
        }
        let encoding = match TextEncoding::from_byte(data[0]) {
            Ok(e) => e,
            Err(e) => {
                return Err(e);
            },
        };
        if data.len() < 2 {
            return Err(ParseError::TooShort);
        }
        let text_data = &data[1..data.len()];
        proof {
            assert(text_data@ =~= data@.skip(1));
        }
        match split_terminated_text(text_data, encoding) {
            Ok((description, value)) => Ok(UserTextFrame { encoding, description, value }),
            Err(e) => Err(e),
        }
    }
}

} // verus!
