//! Attached picture frame (`APIC`).
//!
//! Layout: one text-encoding byte, a null-terminated MIME type
//! (ISO-8859-1), one picture-type byte, an encoding-terminated
//! description, then the binary picture data.

use vstd::prelude::*;

use crate::error::ParseError;
use crate::id3v2_text_encoding::TextEncoding;
use crate::id3v2_text_encoding::decode_text_with_encoding_simple;
use crate::id3v2_text_encoding::spec_decode_simple;
use crate::id3v2_text_encoding::spec_encoding_from_byte;
use crate::id3v2_text_encoding::spec_first_terminator;
use crate::id3v2_text_encoding::spec_terminator_length;
use crate::strutil::latin1_chars;
use crate::strutil::latin1_decode;
use crate::strutil::sub_bytes;

verus! {

/// A decoded attached-picture frame.
#[derive(Debug, Clone)]
pub struct AttachedPictureFrame {
    pub encoding: TextEncoding,
    pub mime_type: String,
    pub picture_type: u8,
    pub description: String,
    pub picture_data: Vec<u8>,
}

/// Position of the first zero byte at or after `pos`.
pub open spec fn spec_first_zero_from(data: Seq<u8>, pos: int) -> Option<int> {
    spec_first_terminator(data, TextEncoding::Iso88591, pos)
}

/// Why an APIC payload is rejected, if it is.
pub open spec fn spec_picture_frame_error(data: Seq<u8>) -> Option<ParseError> {
    if data.len() < 2 {
        Some(ParseError::TooShort)
    } else if spec_encoding_from_byte(data[0]) is None {
        Some(ParseError::UnknownEncoding)
    } else {
        let encoding = spec_encoding_from_byte(data[0]).unwrap();
        match spec_first_zero_from(data, 1) {
            None => Some(ParseError::MissingTerminator),
            Some(mime_end) => {
                let type_pos = mime_end + 1;
                if type_pos >= data.len() {
                    Some(ParseError::TooShort)
                } else {
                    let desc_start = type_pos + 1;
                    match spec_first_terminator(data, encoding, desc_start) {
                        None => Some(ParseError::MissingTerminator),
                        Some(desc_end) => match spec_decode_simple(
                            data.subrange(desc_start, desc_end),
                            encoding,
                        ) {
                            Ok(_) => None,
                            Err(e) => Some(e),
                        },
                    }
                }
            },
        }
    }
}

/// The frame decodes `data`: MIME type up to the first zero byte, one
/// picture-type byte, description up to the next encoding-aware
/// terminator, then the picture bytes.
pub open spec fn spec_picture_frame_ok(data: Seq<u8>, f: AttachedPictureFrame) -> bool {
    &&& data.len() >= 2
    &&& spec_encoding_from_byte(data[0]) == Some(f.encoding)
    &&& match spec_first_zero_from(data, 1) {
        None => false,
        Some(mime_end) => {
            let type_pos = mime_end + 1;
            let desc_start = type_pos + 1;
            &&& f.mime_type@ == latin1_chars(data.subrange(1, mime_end))
            &&& type_pos < data.len()
            &&& f.picture_type == data[type_pos]
            &&& match spec_first_terminator(data, f.encoding, desc_start) {
                None => false,
                Some(desc_end) => {
                    &&& spec_decode_simple(data.subrange(desc_start, desc_end), f.encoding)
                        == Ok::<Seq<char>, ParseError>(f.description@)
                    &&& f.picture_data@ == data.subrange(
                        desc_end + spec_terminator_length(f.encoding),
                        data.len() as int,
                    )
                },
            }
        },
    }
}

impl AttachedPictureFrame {
    /// Parse an APIC frame from raw data.
    pub fn parse(data: &[u8]) -> (r: Result<Self, ParseError>)
        ensures
            match r {
                Ok(f) => spec_picture_frame_error(data@) is None && spec_picture_frame_ok(
                    data@,
                    f,
                ),
                Err(e) => spec_picture_frame_error(data@) == Some(e),
            },
    {
        if data.len() < 2 {
            return Err(ParseError::TooShort);
        }
        let encoding = match TextEncoding::from_byte(data[0]) {
            Ok(e) => e,
            Err(e) => {
                return Err(e);
            },
        };
        let mut pos: usize = 1;
        while pos < data.len() && data[pos] != 0
            invariant
                1 <= pos <= data@.len(),
                spec_first_zero_from(data@, 1) == spec_first_zero_from(data@, pos as int),
            decreases data@.len() - pos,
        {
            pos = pos + 1;
        }
        if pos >= data.len() {
            return Err(ParseError::MissingTerminator);
        }
        proof {
            assert(spec_first_zero_from(data@, 1) == Some(pos as int));
        }
        let mime_type = latin1_decode(&data[1..pos]);
        pos = pos + 1;
        if pos >= data.len() {
            return Err(ParseError::TooShort);
        }
        let picture_type = data[pos];
        pos = pos + 1;
        let desc_start = pos;
        let terminator_len = crate::id3v2_text_encoding::get_terminator_length(encoding);
        if data.len() >= terminator_len {
            while pos <= data.len() - terminator_len && !terminator_here(data, encoding, pos)
                invariant
                    desc_start <= pos <= data@.len(),
                    data@.len() >= terminator_len,
                    terminator_len == spec_terminator_length(encoding),
                    spec_first_terminator(data@, encoding, desc_start as int)
                        == spec_first_terminator(data@, encoding, pos as int),
                decreases data@.len() - pos,
            {
                pos = pos + 1;
            }
        }
        if terminator_len > data.len() || pos > data.len() - terminator_len {
            proof {
                assert(spec_first_terminator(data@, encoding, pos as int) is None);
            }
            return Err(ParseError::MissingTerminator);
        }
        proof {
            assert(spec_first_terminator(data@, encoding, desc_start as int) == Some(pos as int));
        }
        let description = match decode_text_with_encoding_simple(&data[desc_start..pos], encoding) {
            Ok(s) => s,
            Err(e) => {
                return Err(e);
            },
        };
        let picture_data = sub_bytes(data, pos + terminator_len, data.len());
        Ok(
            AttachedPictureFrame {
                encoding,
                mime_type,
                picture_type,
                description,
                picture_data,
            },
        )
    }

    /// The fixed table naming each picture-type byte.
    pub open spec fn spec_picture_type_description(t: u8) -> Seq<char> {
        if t == 0x00 {
            "Other"@
        } else if t == 0x01 {
            "32x32 pixels 'file icon' (PNG only)"@
        } else if t == 0x02 {
            "Other file icon"@
        } else if t == 0x03 {
            "Cover (front)"@
        } else if t == 0x04 {
            "Cover (back)"@
        } else if t == 0x05 {
            "Leaflet page"@
        } else if t == 0x06 {
            "Media (e.g. label side of CD)"@
        } else if t == 0x07 {
            "Lead artist/lead performer/soloist"@
        } else if t == 0x08 {
            "Artist/performer"@
        } else if t == 0x09 {
            "Conductor"@
        } else if t == 0x0A {
            "Band/Orchestra"@
        } else if t == 0x0B {
            "Composer"@
        } else if t == 0x0C {
            "Lyricist/text writer"@
        } else if t == 0x0D {
            "Recording Location"@
        } else if t == 0x0E {
            "During recording"@
        } else if t == 0x0F {
            "During performance"@
        } else if t == 0x10 {
            "Movie/video screen capture"@
        } else if t == 0x11 {
            "A bright coloured fish"@
        } else if t == 0x12 {
            "Illustration"@
        } else if t == 0x13 {
            "Band/artist logotype"@
        } else if t == 0x14 {
            "Publisher/Studio logotype"@
        } else {
            "Unknown"@
        }
    }

    /// Get the picture type description.
    pub fn picture_type_description(&self) -> (r: &'static str)
        ensures
            r@ == Self::spec_picture_type_description(self.picture_type),
    {
        match self.picture_type {
            0x00 => "Other",
            0x01 => "32x32 pixels 'file icon' (PNG only)",
            0x02 => "Other file icon",
            0x03 => "Cover (front)",
            0x04 => "Cover (back)",
            0x05 => "Leaflet page",
            0x06 => "Media (e.g. label side of CD)",
            0x07 => "Lead artist/lead performer/soloist",
            0x08 => "Artist/performer",
            0x09 => "Conductor",
            0x0A => "Band/Orchestra",
            0x0B => "Composer",
            0x0C => "Lyricist/text writer",
            0x0D => "Recording Location",
            0x0E => "During recording",
            0x0F => "During performance",
            0x10 => "Movie/video screen capture",
            0x11 => "A bright coloured fish",
            0x12 => "Illustration",
            0x13 => "Band/artist logotype",
            0x14 => "Publisher/Studio logotype",
            _ => "Unknown",
        }
    }
}

/// True when an encoding-aware terminator stands at `pos`.
fn terminator_here(data: &[u8], encoding: TextEncoding, pos: usize) -> (r: bool)
    requires
        pos <= data@.len(),
    ensures
        r == crate::id3v2_text_encoding::spec_terminator_at(data@, encoding, pos as int),
{
    let r = crate::id3v2_text_encoding::is_null_terminator(&data[pos..data.len()], encoding);
    proof {
        assert(data@.subrange(pos as int, data@.len() as int) =~= data@.subrange(
            pos as int,
            data@.len() as int,
        ));
    }
    r
}

} // verus!
