//! Text information frame (`T***` frames except `TXXX`).
//!
//! Layout: one text-encoding byte, then an encoded, possibly multi-string
//! (null-separated) payload; the primary text is the first string.

use vstd::prelude::*;

use crate::error::ParseError;
use crate::id3v2_text_encoding::TextEncoding;
use crate::id3v2_text_encoding::decode_text_with_encoding;
use crate::id3v2_text_encoding::spec_encoding_from_byte;
use crate::id3v2_text_encoding::spec_split_strings;
use crate::id3v2_text_encoding::string_views;

verus! {

/// A decoded text information frame.
#[derive(Debug, Clone)]
pub struct TextFrame {
    pub encoding: TextEncoding,
    pub text: String,
    /// Multiple strings (null-separated in the original data).
    pub strings: Vec<String>,
}

/// Why a text frame payload is rejected, if it is.
pub open spec fn spec_text_frame_error(data: Seq<u8>) -> Option<ParseError> {
    if data.len() == 0 {
        Some(ParseError::TooShort)
    } else if spec_encoding_from_byte(data[0]) is None {
        Some(ParseError::UnknownEncoding)
    } else if data.len() < 2 {
        Some(ParseError::TooShort)
    } else {
        match spec_split_strings(data.skip(1), spec_encoding_from_byte(data[0]).unwrap(), 0) {
            Ok(_) => None,
            Err(e) => Some(e),
        }
    }
}

/// The frame decodes `data`: its encoding is the one the first byte
/// selects, its strings are the null-separated pieces of the rest, and the
/// primary text is the first string (or empty when there is none).
pub open spec fn spec_text_frame_ok(data: Seq<u8>, tf: TextFrame) -> bool {
    &&& data.len() >= 2
    &&& spec_encoding_from_byte(data[0]) == Some(tf.encoding)
    &&& match spec_split_strings(data.skip(1), tf.encoding, 0) {
        Ok(ss) => string_views(tf.strings@) == ss && tf.text@ == (if ss.len() == 0 {
            Seq::<char>::empty()
        } else {
            ss[0]
        }),
        Err(_) => false,
    }
}

impl TextFrame {
    /// Parse a text frame from raw data.
    pub fn parse(data: &[u8]) -> (r: Result<Self, ParseError>)
        ensures
            match r {
                Ok(tf) => spec_text_frame_error(data@) is None && spec_text_frame_ok(data@, tf),
                Err(e) => spec_text_frame_error(data@) == Some(e),
            },
    {
        if data.len() == 0 {
            return Err(ParseError::TooShort);
        }
        let encoding = match TextEncoding::from_byte(data[0]) {
            Ok(e) => e,
            Err(e) => {
                return Err(e);
            },
        };
        if data.len() < 2 {
            return Err(ParseError::TooShort);
        }
        let text_data = &data[1..data.len()];
        proof {
            assert(text_data@ =~= data@.skip(1));
        }
        match decode_text_with_encoding(text_data, encoding) {
            Ok((text, strings)) => Ok(TextFrame { encoding, text, strings }),
            Err(e) => Err(e),
        }
    }

    /// Get the first (primary) text string.
    pub fn primary_text(&self) -> (r: &str)
        ensures
            r@ == self.text@,
    {
        self.text.as_str()
    }
}

} // verus!
