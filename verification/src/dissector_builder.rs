//! The format dispatcher: it probes the first bytes of a file and selects
//! the dissector that owns it. The dissectors are tried in a fixed order —
//! ID3v2.3 (with its MPEG-sync heuristic), ID3v2.4, then ISOBMFF — and the
//! first match wins; anything else falls through to the unknown format.

use vstd::prelude::*;

use crate::id3v2_3_dissector::Id3v23Dissector;
use crate::id3v2_3_dissector::spec_id3v2_3_can_handle;
use crate::id3v2_4_dissector::Id3v24Dissector;
use crate::id3v2_4_dissector::spec_id3v2_4_can_handle;
use crate::isobmff_dissector::IsobmffDissector;
use crate::isobmff_dissector::spec_isobmff_can_handle;

verus! {

/// The format a probe header selects.
#[derive(Debug, Clone, Copy, PartialEq, Eq, Structural)]
pub enum MediaFormat {
    /// An ID3v2.3 tag (or a bare MPEG stream, by heuristic).
    Id3v23,
    /// An ID3v2.4 tag.
    Id3v24,
    /// An ISO Base Media File Format container.
    Isobmff,
    /// No recognized format; the fallback dissector owns the file.
    Unknown,
}

/// The format the dispatcher selects for a probe header: the first
/// dissector in the fixed order that claims it.
pub open spec fn spec_select_format(header: Seq<u8>) -> MediaFormat {
    if spec_id3v2_3_can_handle(header) {
        MediaFormat::Id3v23
    } else if spec_id3v2_4_can_handle(header) {
        MediaFormat::Id3v24
    } else if spec_isobmff_can_handle(header) {
        MediaFormat::Isobmff
    } else {
        MediaFormat::Unknown
    }
}

/// Builder for selecting the appropriate dissector from file content.
pub struct DissectorBuilder;

impl DissectorBuilder {
    /// Create a new dissector builder.
    pub fn new() -> (r: Self) {
        Self
    }

    /// Select the format for a probe header (the first twelve bytes of
    /// the file): the first dissector that claims it wins, and an
    /// unclaimed header falls through to the unknown format.
    pub fn build_for_header(&self, header: &[u8]) -> (r: MediaFormat)
        ensures
            r == spec_select_format(header@),
    {
        let v3 = Id3v23Dissector;
        let v4 = Id3v24Dissector;
        let isobmff = IsobmffDissector;
        if v3.can_handle(header) {
            MediaFormat::Id3v23
        } else if v4.can_handle(header) {
            MediaFormat::Id3v24
        } else if isobmff.can_handle(header) {
            MediaFormat::Isobmff
        } else {
            MediaFormat::Unknown
        }
    }
}

impl Default for DissectorBuilder {
    fn default() -> (r: Self) {
        Self::new()
    }
}

} // verus!
