//! The ID3v2 tag model and the tag-body decoder shared by both versions.
//!
//! The decoder works over the in-memory tag body (everything after the
//! 10-byte outer header): it removes unsynchronization when the tag flags
//! say so, walks the extended header when one is present (its size field
//! is plain big-endian in v2.3 and synchsafe in v2.4), and iterates the
//! frames from the computed start. Only the size-field encoding and the
//! frame-id allow-list differ between v2.3 and v2.4, so one algorithm
//! serves both, selected by the major version.

use vstd::prelude::*;

use crate::bytes::read_be_u32;
use crate::bytes::spec_be32_at;
use crate::error::ParseError;
use crate::id3v2_frame::Id3v2Frame;
use crate::id3v2_frame::frames_match_infos;
use crate::id3v2_frame::parse_id3v2_frames;
use crate::id3v2_frame::spec_scan_frames;
use crate::id3v2_tools::decode_synchsafe_int;
use crate::id3v2_tools::remove_unsynchronization;
use crate::id3v2_tools::spec_remove_unsync;
use crate::id3v2_tools::spec_synchsafe_int;

verus! {

/// A decoded ID3v2 tag: the outer-header fields and the frames of the
/// tag body, in order. Built once per buffer and not mutated after.
#[derive(Debug)]
pub struct Id3v2Tag {
    pub version_major: u8,
    pub version_minor: u8,
    pub flags: u8,
    /// The tag size the outer header declares.
    pub declared_size: u32,
    /// The frames of the tag body, in the order they stand in it.
    pub frames: Vec<Id3v2Frame>,
}

/// The tag body after unsynchronization removal, which runs exactly when
/// the unsynchronization flag (bit 7) is set.
pub open spec fn spec_tag_working_buffer(buffer: Seq<u8>, flags: u8) -> Seq<u8> {
    if flags & 0x80 != 0 {
        spec_remove_unsync(buffer)
    } else {
        buffer
    }
}

/// Where frame scanning starts in the working buffer: at zero without an
/// extended header (flag bit 6); otherwise past the extended header,
/// whose size field is synchsafe in v2.4 and plain big-endian in v2.3.
/// A size field that does not fit is one error; one that points past the
/// end of the buffer is another, and parsing stops there.
pub open spec fn spec_tag_frame_start(working: Seq<u8>, version_major: u8, flags: u8) -> Result<
    int,
    ParseError,
> {
    if flags & 0x40 == 0 {
        Ok(0)
    } else if working.len() < 4 {
        Err(ParseError::TooShort)
    } else {
        let ext_size = if version_major == 4 {
            spec_synchsafe_int(working.subrange(0, 4))
        } else {
            spec_be32_at(working, 0)
        };
        if 4 + ext_size > working.len() {
            Err(ParseError::SizeExceedsBuffer)
        } else {
            Ok(4 + ext_size)
        }
    }
}

/// Decode a tag body: remove unsynchronization if flagged, walk the
/// extended header if flagged, and iterate the frames after it.
pub fn parse_id3v2_tag_body(buffer: &[u8], version_major: u8, flags: u8) -> (r: Result<
    Vec<Id3v2Frame>,
    ParseError,
>)
    ensures
        match r {
            Ok(frames) => {
                let working = spec_tag_working_buffer(buffer@, flags);
                match spec_tag_frame_start(working, version_major, flags) {
                    Ok(start) => frames_match_infos(
                        frames@,
                        spec_scan_frames(working, start, version_major),
                        version_major,
                    ),
                    Err(_) => false,
                }
            },
            Err(e) => spec_tag_frame_start(
                spec_tag_working_buffer(buffer@, flags),
                version_major,
                flags,
            ) == Err::<int, ParseError>(e),
        },
{
    let working: Vec<u8> = if flags & 0x80 != 0 {
        remove_unsynchronization(buffer)
    } else {
        let mut copy: Vec<u8> = Vec::new();
        let mut i: usize = 0;
        while i < buffer.len()
            invariant
                0 <= i <= buffer@.len(),
                copy@ == buffer@.subrange(0, i as int),
            decreases buffer@.len() - i,
        {
            copy.push(buffer[i]);
            proof {
                assert(buffer@.subrange(0, i + 1 as int) =~= buffer@.subrange(0, i as int).push(
                    buffer@[i as int],
                ));
            }
            i = i + 1;
        }
        proof {
            assert(copy@ =~= buffer@);
        }
        copy
    };
    let mut frame_start: usize = 0;
    if flags & 0x40 != 0 {
        if working.len() < 4 {
            return Err(ParseError::TooShort);
        }
        let ext_size = if version_major == 4 {
            decode_synchsafe_int(&working.as_slice()[0..4])
        } else {
            read_be_u32(working.as_slice(), 0)
        };
        proof {
            assert(working@.subrange(0, 4) =~= working@.subrange(0, 4));
        }
        if ext_size as usize > working.len() - 4 {
            return Err(ParseError::SizeExceedsBuffer);
        }
        frame_start = 4 + ext_size as usize;
    }
    Ok(parse_id3v2_frames(working.as_slice(), frame_start, version_major))
}

/// Decode a whole tag from its body, the outer-header fields given.
pub fn parse_id3v2_tag(
    buffer: &[u8],
    version_major: u8,
    version_minor: u8,
    flags: u8,
    declared_size: u32,
) -> (r: Result<Id3v2Tag, ParseError>)
    ensures
        match r {
            Ok(tag) => {
                let working = spec_tag_working_buffer(buffer@, flags);
                &&& tag.version_major == version_major
                &&& tag.version_minor == version_minor
                &&& tag.flags == flags
                &&& tag.declared_size == declared_size
                &&& match spec_tag_frame_start(working, version_major, flags) {
                    Ok(start) => frames_match_infos(
                        tag.frames@,
                        spec_scan_frames(working, start, version_major),
                        version_major,
                    ),
                    Err(_) => false,
                }
            },
            Err(e) => spec_tag_frame_start(
                spec_tag_working_buffer(buffer@, flags),
                version_major,
                flags,
            ) == Err::<int, ParseError>(e),
        },
{
    match parse_id3v2_tag_body(buffer, version_major, flags) {
        Ok(frames) => Ok(
            Id3v2Tag { version_major, version_minor, flags, declared_size, frames },
        ),
        Err(e) => Err(e),
    }
}

} // verus!
