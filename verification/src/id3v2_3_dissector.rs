//! The ID3v2.3 dissector: format detection and frame parsing for tags of
//! major version 3, whose frame sizes are plain big-endian integers.

use vstd::prelude::*;

use crate::error::ParseError;
use crate::id3v2_frame::Id3v2Frame;
use crate::id3v2_frame::parse_id3v2_frame_at;
use crate::id3v2_frame::spec_frame_at;
use crate::id3v2_frame::spec_frame_matches_info;
use crate::id3v2_tag::Id3v2Tag;
use crate::id3v2_tag::parse_id3v2_tag;
use crate::id3v2_tools::spec_has_id3v2_magic;
use crate::id3v2_tools::spec_has_mpeg_sync;
use crate::id3v2_tools::detect_id3v2_version;
use crate::id3v2_tools::detect_mpeg_sync;

verus! {

/// ID3v2.3 dissector for MP3 files.
pub struct Id3v23Dissector;

/// What the ID3v2.3 dissector claims: an ID3v2 header of major version 3,
/// or — as a documented heuristic — a bare MPEG frame-sync pattern, since
/// an MP3 may open directly with audio.
pub open spec fn spec_id3v2_3_can_handle(header: Seq<u8>) -> bool {
    if spec_has_id3v2_magic(header) {
        header[3] == 3
    } else {
        spec_has_mpeg_sync(header)
    }
}

impl Id3v23Dissector {
    /// The media type label this dissector reports.
    pub fn media_type(&self) -> (r: &'static str)
        ensures
            r@ == "ID3v2.3"@,
    {
        "ID3v2.3"
    }

    /// The descriptive name of this dissector.
    pub fn name(&self) -> (r: &'static str)
        ensures
            r@ == "ID3v2.3 Dissector"@,
    {
        "ID3v2.3 Dissector"
    }

    /// Check if this dissector can handle the given file header.
    pub fn can_handle(&self, header: &[u8]) -> (r: bool)
        ensures
            r == spec_id3v2_3_can_handle(header@),
    {
        if let Some((major, _minor)) = detect_id3v2_version(header) {
            return major == 3;
        }
        detect_mpeg_sync(header)
    }
}

/// Parse the ID3v2.3 frame standing at `pos` of a tag buffer, if one does.
pub fn parse_id3v2_3_frame(buffer: &[u8], pos: usize) -> (r: Option<Id3v2Frame>)
    ensures
        match r {
            Some(f) => match spec_frame_at(buffer@, pos as int, 3) {
                Some(info) => spec_frame_matches_info(f, info, 3),
                None => false,
            },
            None => spec_frame_at(buffer@, pos as int, 3) is None,
        },
{
    parse_id3v2_frame_at(buffer, pos, 3)
}

/// Decode a whole ID3v2.3 tag from its body and outer-header fields.
pub fn dissect_id3v2_3(
    buffer: &[u8],
    version_minor: u8,
    flags: u8,
    declared_size: u32,
) -> (r: Result<Id3v2Tag, ParseError>)
    ensures
        match r {
            Ok(tag) => {
                let working = crate::id3v2_tag::spec_tag_working_buffer(buffer@, flags);
                &&& tag.version_major == 3
                &&& tag.version_minor == version_minor
                &&& tag.flags == flags
                &&& tag.declared_size == declared_size
                &&& match crate::id3v2_tag::spec_tag_frame_start(working, 3, flags) {
                    Ok(start) => crate::id3v2_frame::frames_match_infos(
                        tag.frames@,
                        crate::id3v2_frame::spec_scan_frames(working, start, 3),
                        3,
                    ),
                    Err(_) => false,
                }
            },
            Err(e) => crate::id3v2_tag::spec_tag_frame_start(
                crate::id3v2_tag::spec_tag_working_buffer(buffer@, flags),
                3,
                flags,
            ) == Err::<int, ParseError>(e),
        },
{
    parse_id3v2_tag(buffer, 3, version_minor, flags, declared_size)
}

} // verus!
