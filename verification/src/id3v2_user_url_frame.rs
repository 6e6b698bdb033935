//! User-defined URL link frame (`WXXX`).
//!
//! Layout: one text-encoding byte, an encoding-terminated description,
//! then the URL, which is always ISO-8859-1.

use vstd::prelude::*;

use crate::error::ParseError;
use crate::id3v2_text_encoding::TextEncoding;
use crate::id3v2_text_encoding::decode_text_with_encoding_simple;
use crate::id3v2_text_encoding::find_text_terminator;
use crate::id3v2_text_encoding::spec_decode_simple;
use crate::id3v2_text_encoding::spec_encoding_from_byte;
use crate::id3v2_text_encoding::spec_first_terminator;
use crate::id3v2_text_encoding::spec_terminator_length;
use crate::strutil::latin1_chars;
use crate::strutil::latin1_decode;

verus! {

/// A decoded user-defined URL frame.
#[derive(Debug, Clone)]
pub struct UserUrlFrame {
    pub encoding: TextEncoding,
    pub description: String,
    pub url: String,
}

/// Where the description of a WXXX payload ends and where its URL begins,
/// inside the bytes after the encoding byte.
pub open spec fn spec_user_url_split(rest: Seq<u8>, encoding: TextEncoding) -> (int, int) {
    match spec_first_terminator(rest, encoding, 0) {
        Some(p) => (p, p + spec_terminator_length(encoding)),
        None => (rest.len() as int, rest.len() as int),
    }
}

/// Why a user-URL frame payload is rejected, if it is.
pub open spec fn spec_user_url_frame_error(data: Seq<u8>) -> Option<ParseError> {
    if data.len() == 0 {
        Some(ParseError::TooShort)
    } else if spec_encoding_from_byte(data[0]) is None {
        Some(ParseError::UnknownEncoding)
    } else if data.len() < 2 {
        Some(ParseError::TooShort)
    } else {
        let encoding = spec_encoding_from_byte(data[0]).unwrap();
        let (desc_end, _) = spec_user_url_split(data.skip(1), encoding);
        match spec_decode_simple(data.skip(1).subrange(0, desc_end), encoding) {
            Ok(_) => None,
            Err(e) => Some(e),
        }
    }
}

/// The frame decodes `data`: the description is the part before the first
/// terminator, decoded under the selected encoding; the URL is the rest,
/// always Latin-1.
pub open spec fn spec_user_url_frame_ok(data: Seq<u8>, uuf: UserUrlFrame) -> bool {
    &&& data.len() >= 2
    &&& spec_encoding_from_byte(data[0]) == Some(uuf.encoding)
    &&& {
        let rest = data.skip(1);
        let (desc_end, url_start) = spec_user_url_split(rest, uuf.encoding);
        &&& spec_decode_simple(rest.subrange(0, desc_end), uuf.encoding) == Ok::<
            Seq<char>,
            ParseError,
        >(uuf.description@)
        &&& uuf.url@ == latin1_chars(rest.subrange(url_start, rest.len() as int))
    }
}

impl UserUrlFrame {
    /// Parse a WXXX frame from raw data.
    pub fn parse(data: &[u8]) -> (r: Result<Self, ParseError>)
        ensures
            match r {
                Ok(uuf) => spec_user_url_frame_error(data@) is None && spec_user_url_frame_ok(
                    data@,
                    uuf,
                ),
                Err(e) => spec_user_url_frame_error(data@) == Some(e),
            },
    {
        if data.len() == 0 {
            return Err(ParseError::TooShort);
        }
        let encoding = match TextEncoding::from_byte(data[0]) {
            Ok(e) => e,
            Err(e) => {
                return Err(e);
            },
        };
        if data.len() < 2 {
            return Err(ParseError::TooShort);
        }
        let text_data = &data[1..data.len()];
        proof {
            assert(text_data@ =~= data@.skip(1));
        }
        let (description_bytes, url_bytes) = match find_text_terminator(text_data, encoding) {
            Ok(parts) => parts,
            Err(e) => {
                return Err(e);
            },
        };
        proof {
            if spec_first_terminator(text_data@, encoding, 0) is None {
                assert(description_bytes@ =~= text_data@.subrange(0, text_data@.len() as int));
                assert(url_bytes@ =~= text_data@.subrange(
                    text_data@.len() as int,
                    text_data@.len() as int,
                ));
            }
        }
        let description = match decode_text_with_encoding_simple(description_bytes, encoding) {
            Ok(s) => s,
            Err(e) => {
                return Err(e);
            },
        };
        let url = latin1_decode(url_bytes);
        Ok(UserUrlFrame { encoding, description, url })
    }
}

} // verus!
