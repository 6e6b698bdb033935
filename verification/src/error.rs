//! The closed set of decoding failures.
//!
//! Every decoder reports failure through one of these kinds, so that the
//! three error tiers (local, structural, fatal for a sub-tree) can be told
//! apart by callers and by tests.

use vstd::prelude::*;

verus! {

/// Why a decoder rejected its input.
#[derive(Debug, Clone, Copy, PartialEq, Eq, Structural)]
pub enum ParseError {
    /// The payload ends before a fixed-layout field it must hold.
    TooShort,
    /// A text-encoding byte holds a value outside the defined set.
    UnknownEncoding,
    /// The text encoding is not allowed for the tag's ID3v2 version.
    EncodingNotAllowed,
    /// A required null terminator is missing.
    MissingTerminator,
    /// UTF-16 text whose byte length is odd.
    OddUtf16Length,
    /// UTF-16 code units that are not well-formed UTF-16.
    InvalidUtf16,
    /// Text handed to a decoder of a different encoding family.
    WrongEncoding,
    /// A unique-file-identifier value longer than the format allows.
    IdentifierTooLong,
    /// An integer payload whose width is none of the defined widths.
    InvalidIntegerSize,
    /// A declared size that overruns the buffer or range that holds it.
    SizeExceedsBuffer,
    /// A box whose declared size is smaller than its own header.
    BoxSizeTooSmall,
    /// Nesting of container boxes deeper than the recursion cap.
    DepthExceeded,
}

impl ParseError {
    /// A short label for reporting; the crate's types carry no `Display`.
    pub fn label(&self) -> (r: &'static str)
        ensures
            r@.len() > 0,
    {
        let r = match self {
            ParseError::TooShort => "payload too short",
            ParseError::UnknownEncoding => "unknown text encoding",
            ParseError::EncodingNotAllowed => "encoding not allowed for this version",
            ParseError::MissingTerminator => "missing null terminator",
            ParseError::OddUtf16Length => "UTF-16 data length must be even",
            ParseError::InvalidUtf16 => "invalid UTF-16 sequence",
            ParseError::WrongEncoding => "not a UTF-16 encoding",
            ParseError::IdentifierTooLong => "identifier too long",
            ParseError::InvalidIntegerSize => "invalid integer size",
            ParseError::SizeExceedsBuffer => "size exceeds remaining buffer",
            ParseError::BoxSizeTooSmall => "box size smaller than its header",
            ParseError::DepthExceeded => "maximum box nesting depth exceeded",
        };
        proof {
            reveal_strlit("payload too short");
            reveal_strlit("unknown text encoding");
            reveal_strlit("encoding not allowed for this version");
            reveal_strlit("missing null terminator");
            reveal_strlit("UTF-16 data length must be even");
            reveal_strlit("invalid UTF-16 sequence");
            reveal_strlit("not a UTF-16 encoding");
            reveal_strlit("identifier too long");
            reveal_strlit("invalid integer size");
            reveal_strlit("size exceeds remaining buffer");
            reveal_strlit("box size smaller than its header");
            reveal_strlit("maximum box nesting depth exceeded");
        }
        r
    }
}

} // verus!
