//! Dissection of binary media metadata: ID3v2 tags (versions 2.3 and 2.4)
//! and ISO Base Media File Format (MP4/MOV-family) containers.
//!
//! The crate turns raw file bytes into a structured, typed model: an
//! `Id3v2Frame` list for tags, an `IsobmffBox` tree for containers, with
//! per-type decoded content attached where a decoder is registered.

use vstd::prelude::*;

pub mod bytes;
pub mod dissector_builder;
pub mod error;
pub mod id3v2_3_dissector;
pub mod id3v2_4_dissector;
pub mod id3v2_attached_picture_frame;
pub mod id3v2_chapter_frame;
pub mod id3v2_comment_frame;
pub mod id3v2_frame;
pub mod id3v2_table_of_contents_frame;
pub mod id3v2_tag;
pub mod id3v2_text_encoding;
pub mod id3v2_text_frame;
pub mod id3v2_tools;
pub mod id3v2_unique_file_id_frame;
pub mod id3v2_url_frame;
pub mod id3v2_user_text_frame;
pub mod id3v2_user_url_frame;
pub mod isobmff_box;
pub mod isobmff_chapter;
pub mod isobmff_content;
pub mod isobmff_data_reference;
pub mod isobmff_dissector;
pub mod isobmff_edit_list;
pub mod isobmff_file_type;
pub mod isobmff_handler;
pub mod isobmff_media_header;
pub mod isobmff_media_info_header;
pub mod isobmff_metadata_keys;
pub mod isobmff_movie_header;
pub mod isobmff_sample_table;
pub mod isobmff_track_header;
pub mod itunes_metadata;
pub mod options;
pub mod strutil;
pub mod unknown_dissector;

verus! {

} // verus!
