//! Comment and lyrics frames (`COMM`, `USLT`).
//!
//! Layout: one text-encoding byte, a 3-byte language code, an
//! encoding-terminated description, then the full text.

use vstd::prelude::*;

use crate::error::ParseError;
use crate::id3v2_text_encoding::TextEncoding;
use crate::id3v2_text_encoding::spec_encoding_from_byte;
use crate::id3v2_text_encoding::spec_split_terminated;
use crate::id3v2_text_encoding::split_terminated_text;
use crate::strutil::utf8_lossy_chars;
use crate::strutil::utf8_lossy_decode;

verus! {

/// A decoded comment or lyrics frame.
#[derive(Debug, Clone)]
pub struct CommentFrame {
    pub encoding: TextEncoding,
    pub language: String,
    pub description: String,
    pub text: String,
}

/// Why a comment frame payload is rejected, if it is.
pub open spec fn spec_comment_frame_error(data: Seq<u8>) -> Option<ParseError> {
    if data.len() < 5 {
        Some(ParseError::TooShort)
    } else if spec_encoding_from_byte(data[0]) is None {
        Some(ParseError::UnknownEncoding)
    } else {
        match spec_split_terminated(data.skip(4), spec_encoding_from_byte(data[0]).unwrap()) {
            Ok(_) => None,
            Err(e) => Some(e),
        }
    }
}

/// The frame decodes `data`: the first byte selects the encoding, bytes
/// one to three are the language code, and the rest splits at the first
/// terminator into description and text.
pub open spec fn spec_comment_frame_ok(data: Seq<u8>, cf: CommentFrame) -> bool {
    &&& data.len() >= 5
    &&& spec_encoding_from_byte(data[0]) == Some(cf.encoding)
    &&& cf.language@ == utf8_lossy_chars(data.subrange(1, 4))
    &&& spec_split_terminated(data.skip(4), cf.encoding) == Ok::<
        (Seq<char>, Seq<char>),
        ParseError,
    >((cf.description@, cf.text@))
}

impl CommentFrame {
    /// Parse a COMM or USLT frame from raw data.
    pub fn parse(data: &[u8]) -> (r: Result<Self, ParseError>)
        ensures
            match r {
                Ok(cf) => spec_comment_frame_error(data@) is None && spec_comment_frame_ok(
                    data@,
                    cf,
                ),
                Err(e) => spec_comment_frame_error(data@) == Some(e),
            },
    {
        if data.len() < 5 {
            return Err(ParseError::TooShort);
        }
        let encoding = match TextEncoding::from_byte(data[0]) {
            Ok(e) => e,
            Err(e) => {
                return Err(e);
            },
        };
        let language = utf8_lossy_decode(&data[1..4]);
        let text_data = &data[4..data.len()];
        proof {
            assert(text_data@ =~= data@.skip(4));
        }
        match split_terminated_text(text_data, encoding) {
            Ok((description, text)) => Ok(CommentFrame { encoding, language, description, text }),
            Err(e) => Err(e),
        }
    }
}

} // verus!
