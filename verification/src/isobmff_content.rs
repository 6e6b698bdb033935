//! Typed content of recognized ISOBMFF leaf boxes: one variant per box
//! type with a registered decoder.

use vstd::prelude::*;

use crate::isobmff_chapter::ChapterBox;
use crate::isobmff_data_reference::DataReferenceBox;
use crate::isobmff_data_reference::UrlEntryBox;
use crate::isobmff_data_reference::UrnEntryBox;
use crate::isobmff_edit_list::EditListBox;
use crate::isobmff_file_type::FileTypeBox;
use crate::isobmff_handler::HandlerBox;
use crate::isobmff_media_header::MediaHeaderBox;
use crate::isobmff_media_info_header::NullMediaHeaderBox;
use crate::isobmff_media_info_header::SoundMediaHeaderBox;
use crate::isobmff_media_info_header::VideoMediaHeaderBox;
use crate::isobmff_metadata_keys::MetadataMeanBox;
use crate::isobmff_metadata_keys::MetadataNameBox;
use crate::isobmff_movie_header::MovieHeaderBox;
use crate::isobmff_sample_table::ChunkOffset64Box;
use crate::isobmff_sample_table::ChunkOffsetBox;
use crate::isobmff_sample_table::SampleDescriptionBox;
use crate::isobmff_sample_table::SampleSizeBox;
use crate::isobmff_sample_table::SampleToChunkBox;
use crate::isobmff_sample_table::TimeToSampleBox;
use crate::isobmff_track_header::TrackHeaderBox;

verus! {

/// Parsed ISOBMFF box content, one variant per recognized leaf box type.
#[derive(Debug, Clone)]
pub enum IsobmffContent {
    FileType(FileTypeBox),
    MovieHeader(MovieHeaderBox),
    TrackHeader(TrackHeaderBox),
    MediaHeader(MediaHeaderBox),
    Handler(HandlerBox),
    VideoMediaHeader(VideoMediaHeaderBox),
    SoundMediaHeader(SoundMediaHeaderBox),
    NullMediaHeader(NullMediaHeaderBox),
    DataReference(DataReferenceBox),
    SampleDescription(SampleDescriptionBox),
    TimeToSample(TimeToSampleBox),
    SampleToChunk(SampleToChunkBox),
    SampleSize(SampleSizeBox),
    ChunkOffset(ChunkOffsetBox),
    ChunkOffset64(ChunkOffset64Box),
    EditList(EditListBox),
    UrlEntry(UrlEntryBox),
    UrnEntry(UrnEntryBox),
    Chapter(ChapterBox),
    MetadataMean(MetadataMeanBox),
    MetadataName(MetadataNameBox),
}

} // verus!
