//! The ID3v2.4 dissector: format detection and frame parsing for tags of
//! major version 4, whose frame sizes are synchsafe integers.

use vstd::prelude::*;

use crate::error::ParseError;
use crate::id3v2_frame::Id3v2Frame;
use crate::id3v2_frame::parse_id3v2_frame_at;
use crate::id3v2_frame::spec_frame_at;
use crate::id3v2_frame::spec_frame_matches_info;
use crate::id3v2_tag::Id3v2Tag;
use crate::id3v2_tag::parse_id3v2_tag;
use crate::id3v2_tools::spec_has_id3v2_magic;
use crate::id3v2_tools::detect_id3v2_version;

verus! {

/// ID3v2.4 dissector for MP3 files.
pub struct Id3v24Dissector;

/// What the ID3v2.4 dissector claims: an ID3v2 header of major version 4.
/// There is no MPEG-sync fallback here; the v2.3 dissector owns that
/// heuristic.
pub open spec fn spec_id3v2_4_can_handle(header: Seq<u8>) -> bool {
    spec_has_id3v2_magic(header) && header[3] == 4
}

impl Id3v24Dissector {
    /// The media type label this dissector reports.
    pub fn media_type(&self) -> (r: &'static str)
        ensures
            r@ == "ID3v2.4"@,
    {
        "ID3v2.4"
    }

    /// The descriptive name of this dissector.
    pub fn name(&self) -> (r: &'static str)
        ensures
            r@ == "ID3v2.4 Dissector"@,
    {
        "ID3v2.4 Dissector"
    }

    /// Check if this dissector can handle the given file header.
    pub fn can_handle(&self, header: &[u8]) -> (r: bool)
        ensures
            r == spec_id3v2_4_can_handle(header@),
    {
        if let Some((major, _minor)) = detect_id3v2_version(header) {
            return major == 4;
        }
        false
    }
}

/// Parse the ID3v2.4 frame standing at `pos` of a tag buffer, if one does.
pub fn parse_id3v2_4_frame(buffer: &[u8], pos: usize) -> (r: Option<Id3v2Frame>)
    ensures
        match r {
            Some(f) => match spec_frame_at(buffer@, pos as int, 4) {
                Some(info) => spec_frame_matches_info(f, info, 4),
                None => false,
            },
            None => spec_frame_at(buffer@, pos as int, 4) is None,
        },
{
    parse_id3v2_frame_at(buffer, pos, 4)
}

/// Decode a whole ID3v2.4 tag from its body and outer-header fields.
pub fn dissect_id3v2_4(
    buffer: &[u8],
    version_minor: u8,
    flags: u8,
    declared_size: u32,
) -> (r: Result<Id3v2Tag, ParseError>)
    ensures
        match r {
            Ok(tag) => {
                let working = crate::id3v2_tag::spec_tag_working_buffer(buffer@, flags);
                &&& tag.version_major == 4
                &&& tag.version_minor == version_minor
                &&& tag.flags == flags
                &&& tag.declared_size == declared_size
                &&& match crate::id3v2_tag::spec_tag_frame_start(working, 4, flags) {
                    Ok(start) => crate::id3v2_frame::frames_match_infos(
                        tag.frames@,
                        crate::id3v2_frame::spec_scan_frames(working, start, 4),
                        4,
                    ),
                    Err(_) => false,
                }
            },
            Err(e) => crate::id3v2_tag::spec_tag_frame_start(
                crate::id3v2_tag::spec_tag_working_buffer(buffer@, flags),
                4,
                flags,
            ) == Err::<int, ParseError>(e),
        },
{
    parse_id3v2_tag(buffer, 4, version_minor, flags, declared_size)
}

} // verus!
