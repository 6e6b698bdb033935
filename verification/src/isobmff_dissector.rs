//! The ISOBMFF box-tree decoder: recursive descent over a byte range.
//!
//! A box header is a 32-bit size and a 4-byte type; size 1 switches to a
//! 64-bit extended size (16 header bytes in all) and size 0 extends the
//! box to the end of its range. A box whose size is smaller than its own
//! header, or overruns its parent's range, is a hard error for that
//! sub-tree. Containers recurse (the `meta` wrapper skips 4 prefix bytes,
//! `dref` skips 8) down to a nesting depth of 20; leaf payloads are read
//! only between 1 byte and 1 MiB, and recognized leaf types decode into
//! typed content. After a container's children are parsed, an iTunes
//! metadata owner decodes its `data` child best-effort.

use vstd::prelude::*;

use crate::bytes::read_be_u32;
use crate::bytes::read_be_u64;
use crate::bytes::spec_be32_at;
use crate::bytes::spec_be64_at;
use crate::error::ParseError;
use crate::isobmff_box::IsobmffBox;
use crate::isobmff_box::is_itunes_metadata_box;
use crate::isobmff_box::spec_is_container_type;
use crate::isobmff_box::spec_is_itunes_metadata_type;
use crate::isobmff_chapter::ChapterBox;
use crate::isobmff_chapter::spec_chap_error;
use crate::isobmff_chapter::spec_chap_ok;
use crate::isobmff_content::IsobmffContent;
use crate::isobmff_data_reference::DataReferenceBox;
use crate::isobmff_data_reference::UrlEntryBox;
use crate::isobmff_data_reference::UrnEntryBox;
use crate::isobmff_data_reference::spec_dref_error;
use crate::isobmff_data_reference::spec_dref_ok;
use crate::isobmff_data_reference::spec_url_entry_error;
use crate::isobmff_data_reference::spec_url_entry_ok;
use crate::isobmff_data_reference::spec_urn_entry_error;
use crate::isobmff_data_reference::spec_urn_entry_ok;
use crate::isobmff_edit_list::EditListBox;
use crate::isobmff_edit_list::spec_elst_error;
use crate::isobmff_edit_list::spec_elst_ok;
use crate::isobmff_file_type::FileTypeBox;
use crate::isobmff_file_type::spec_ftyp_error;
use crate::isobmff_file_type::spec_ftyp_ok;
use crate::isobmff_handler::HandlerBox;
use crate::isobmff_handler::spec_hdlr_error;
use crate::isobmff_handler::spec_hdlr_ok;
use crate::isobmff_media_header::MediaHeaderBox;
use crate::isobmff_media_header::spec_mdhd_error;
use crate::isobmff_media_header::spec_mdhd_ok;
use crate::isobmff_media_info_header::NullMediaHeaderBox;
use crate::isobmff_media_info_header::SoundMediaHeaderBox;
use crate::isobmff_media_info_header::VideoMediaHeaderBox;
use crate::isobmff_media_info_header::spec_nmhd_error;
use crate::isobmff_media_info_header::spec_nmhd_ok;
use crate::isobmff_media_info_header::spec_smhd_error;
use crate::isobmff_media_info_header::spec_smhd_ok;
use crate::isobmff_media_info_header::spec_vmhd_error;
use crate::isobmff_media_info_header::spec_vmhd_ok;
use crate::isobmff_metadata_keys::MetadataMeanBox;
use crate::isobmff_metadata_keys::MetadataNameBox;
use crate::isobmff_metadata_keys::spec_mean_error;
use crate::isobmff_metadata_keys::spec_mean_ok;
use crate::isobmff_metadata_keys::spec_name_error;
use crate::isobmff_metadata_keys::spec_name_ok;
use crate::isobmff_movie_header::MovieHeaderBox;
use crate::isobmff_movie_header::spec_mvhd_error;
use crate::isobmff_movie_header::spec_mvhd_ok;
use crate::isobmff_sample_table::ChunkOffset64Box;
use crate::isobmff_sample_table::ChunkOffsetBox;
use crate::isobmff_sample_table::SampleDescriptionBox;
use crate::isobmff_sample_table::SampleSizeBox;
use crate::isobmff_sample_table::SampleToChunkBox;
use crate::isobmff_sample_table::TimeToSampleBox;
use crate::isobmff_sample_table::spec_count_box_error;
use crate::isobmff_sample_table::spec_count_box_ok;
use crate::isobmff_sample_table::spec_stsd_error;
use crate::isobmff_sample_table::spec_stsd_ok;
use crate::isobmff_sample_table::spec_stsz_error;
use crate::isobmff_sample_table::spec_stsz_ok;
use crate::isobmff_track_header::TrackHeaderBox;
use crate::isobmff_track_header::spec_tkhd_error;
use crate::isobmff_track_header::spec_tkhd_ok;
use crate::itunes_metadata::ItunesMetadata;
use crate::itunes_metadata::spec_itunes_content_ok;
use crate::itunes_metadata::spec_itunes_error;
use crate::strutil::latin1_chars;
use crate::strutil::latin1_decode;
use crate::strutil::push_char;
use crate::strutil::str_eq;
use crate::strutil::sub_bytes;

verus! {

/// The character a box-type byte stands for: the MacRoman copyright sign
/// is kept, printable ASCII and the space stand for themselves, and
/// everything else becomes a question mark.
pub open spec fn spec_box_type_char(b: u8) -> char {
    if b == 0xA9 {
        '\u{A9}'
    } else if 0x21 <= b && b <= 0x7E {
        b as char
    } else if b == 0x20 {
        ' '
    } else {
        '?'
    }
}

/// The characters of a four-byte box type.
pub open spec fn spec_box_type_chars(bytes: Seq<u8>) -> Seq<char> {
    bytes.map_values(|b: u8| spec_box_type_char(b))
}

/// Convert box type bytes to a string, keeping the copyright sign of
/// iTunes boxes and masking other non-printable bytes.
pub fn box_type_to_string(bytes: &[u8]) -> (r: String)
    ensures
        r@ == spec_box_type_chars(bytes@),
{
    let mut s = String::new();
    let mut i: usize = 0;
    while i < bytes.len()
        invariant
            0 <= i <= bytes@.len(),
            s@ == spec_box_type_chars(bytes@.subrange(0, i as int)),
        decreases bytes@.len() - i,
    {
        let b = bytes[i];
        let c: char = if b == 0xA9 {
            '\u{A9}'
        } else if 0x21 <= b && b <= 0x7E {
            b as char
        } else if b == 0x20 {
            ' '
        } else {
            '?'
        };
        push_char(&mut s, c);
        proof {
            assert(spec_box_type_chars(bytes@.subrange(0, i + 1 as int)) =~= spec_box_type_chars(
                bytes@.subrange(0, i as int),
            ).push(spec_box_type_char(bytes@[i as int])));
        }
        i = i + 1;
    }
    proof {
        assert(bytes@.subrange(0, bytes@.len() as int) =~= bytes@);
    }
    s
}

/// The typed content a recognized leaf box type decodes to: present and
/// correct exactly when its decoder accepts the payload; an unregistered
/// type carries no typed content.
pub open spec fn spec_leaf_content_ok(t: Seq<char>, data: Seq<u8>, c: Option<IsobmffContent>) -> bool {
    if t == "ftyp"@ {
        match c {
            Some(IsobmffContent::FileType(f)) => spec_ftyp_error(data) is None && spec_ftyp_ok(
                data,
                f,
            ),
            None => spec_ftyp_error(data) is Some,
            Some(_) => false,
        }
    } else if t == "mvhd"@ {
        match c {
            Some(IsobmffContent::MovieHeader(b)) => spec_mvhd_error(data) is None && spec_mvhd_ok(
                data,
                b,
            ),
            None => spec_mvhd_error(data) is Some,
            Some(_) => false,
        }
    } else if t == "tkhd"@ {
        match c {
            Some(IsobmffContent::TrackHeader(b)) => spec_tkhd_error(data) is None && spec_tkhd_ok(
                data,
                b,
            ),
            None => spec_tkhd_error(data) is Some,
            Some(_) => false,
        }
    } else if t == "mdhd"@ {
        match c {
            Some(IsobmffContent::MediaHeader(b)) => spec_mdhd_error(data) is None && spec_mdhd_ok(
                data,
                b,
            ),
            None => spec_mdhd_error(data) is Some,
            Some(_) => false,
        }
    } else if t == "hdlr"@ {
        match c {
            Some(IsobmffContent::Handler(b)) => spec_hdlr_error(data) is None && spec_hdlr_ok(
                data,
                b,
            ),
            None => spec_hdlr_error(data) is Some,
            Some(_) => false,
        }
    } else if t == "vmhd"@ {
        match c {
            Some(IsobmffContent::VideoMediaHeader(b)) => spec_vmhd_error(data) is None
                && spec_vmhd_ok(data, b),
            None => spec_vmhd_error(data) is Some,
            Some(_) => false,
        }
    } else if t == "smhd"@ {
        match c {
            Some(IsobmffContent::SoundMediaHeader(b)) => spec_smhd_error(data) is None
                && spec_smhd_ok(data, b),
            None => spec_smhd_error(data) is Some,
            Some(_) => false,
        }
    } else if t == "nmhd"@ {
        match c {
            Some(IsobmffContent::NullMediaHeader(b)) => spec_nmhd_error(data) is None
                && spec_nmhd_ok(data, b),
            None => spec_nmhd_error(data) is Some,
            Some(_) => false,
        }
    } else if t == "dref"@ {
        match c {
            Some(IsobmffContent::DataReference(b)) => spec_dref_error(data) is None
                && spec_dref_ok(data, b),
            None => spec_dref_error(data) is Some,
            Some(_) => false,
        }
    } else if t == "stsd"@ {
        match c {
            Some(IsobmffContent::SampleDescription(b)) => spec_stsd_error(data) is None
                && spec_stsd_ok(data, b),
            None => spec_stsd_error(data) is Some,
            Some(_) => false,
        }
    } else if t == "stts"@ {
        match c {
            Some(IsobmffContent::TimeToSample(b)) => spec_count_box_error(data) is None
                && spec_count_box_ok(data, b.version, b.entry_count),
            None => spec_count_box_error(data) is Some,
            Some(_) => false,
        }
    } else if t == "stsc"@ {
        match c {
            Some(IsobmffContent::SampleToChunk(b)) => spec_count_box_error(data) is None
                && spec_count_box_ok(data, b.version, b.entry_count),
            None => spec_count_box_error(data) is Some,
            Some(_) => false,
        }
    } else if t == "stsz"@ {
        match c {
            Some(IsobmffContent::SampleSize(b)) => spec_stsz_error(data) is None && spec_stsz_ok(
                data,
                b,
            ),
            None => spec_stsz_error(data) is Some,
            Some(_) => false,
        }
    } else if t == "stco"@ {
        match c {
            Some(IsobmffContent::ChunkOffset(b)) => spec_count_box_error(data) is None
                && spec_count_box_ok(data, b.version, b.entry_count),
            None => spec_count_box_error(data) is Some,
            Some(_) => false,
        }
    } else if t == "co64"@ {
        match c {
            Some(IsobmffContent::ChunkOffset64(b)) => spec_count_box_error(data) is None
                && spec_count_box_ok(data, b.version, b.entry_count),
            None => spec_count_box_error(data) is Some,
            Some(_) => false,
        }
    } else if t == "elst"@ {
        match c {
            Some(IsobmffContent::EditList(b)) => spec_elst_error(data) is None && spec_elst_ok(
                data,
                b,
            ),
            None => spec_elst_error(data) is Some,
            Some(_) => false,
        }
    } else if t == "url "@ {
        match c {
            Some(IsobmffContent::UrlEntry(b)) => spec_url_entry_error(data) is None
                && spec_url_entry_ok(data, b),
            None => spec_url_entry_error(data) is Some,
            Some(_) => false,
        }
    } else if t == "urn "@ {
        match c {
            Some(IsobmffContent::UrnEntry(b)) => spec_urn_entry_error(data) is None
                && spec_urn_entry_ok(data, b),
            None => spec_urn_entry_error(data) is Some,
            Some(_) => false,
        }
    } else if t == "chap"@ {
        match c {
            Some(IsobmffContent::Chapter(b)) => spec_chap_error(data) is None && spec_chap_ok(
                data,
                b,
            ),
            None => spec_chap_error(data) is Some,
            Some(_) => false,
        }
    } else if t == "mean"@ {
        match c {
            Some(IsobmffContent::MetadataMean(b)) => spec_mean_error(data) is None && spec_mean_ok(
                data,
                b,
            ),
            None => spec_mean_error(data) is Some,
            Some(_) => false,
        }
    } else if t == "name"@ {
        match c {
            Some(IsobmffContent::MetadataName(b)) => spec_name_error(data) is None && spec_name_ok(
                data,
                b,
            ),
            None => spec_name_error(data) is Some,
            Some(_) => false,
        }
    } else {
        c is None
    }
}

/// Decode a recognized leaf box payload into typed content.
fn parse_leaf_content(box_type: &str, data: &[u8]) -> (r: Option<IsobmffContent>)
    ensures
        spec_leaf_content_ok(box_type@, data@, r),
{
    if str_eq(box_type, "ftyp") {
        match FileTypeBox::parse(data) {
            Ok(b) => Some(IsobmffContent::FileType(b)),
            Err(_) => None,
        }
    } else if str_eq(box_type, "mvhd") {
        match MovieHeaderBox::parse(data) {
            Ok(b) => Some(IsobmffContent::MovieHeader(b)),
            Err(_) => None,
        }
    } else if str_eq(box_type, "tkhd") {
        match TrackHeaderBox::parse(data) {
            Ok(b) => Some(IsobmffContent::TrackHeader(b)),
            Err(_) => None,
        }
    } else if str_eq(box_type, "mdhd") {
        match MediaHeaderBox::parse(data) {
            Ok(b) => Some(IsobmffContent::MediaHeader(b)),
            Err(_) => None,
        }
    } else if str_eq(box_type, "hdlr") {
        match HandlerBox::parse(data) {
            Ok(b) => Some(IsobmffContent::Handler(b)),
            Err(_) => None,
        }
    } else if str_eq(box_type, "vmhd") {
        match VideoMediaHeaderBox::parse(data) {
            Ok(b) => Some(IsobmffContent::VideoMediaHeader(b)),
            Err(_) => None,
        }
    } else if str_eq(box_type, "smhd") {
        match SoundMediaHeaderBox::parse(data) {
            Ok(b) => Some(IsobmffContent::SoundMediaHeader(b)),
            Err(_) => None,
        }
    } else if str_eq(box_type, "nmhd") {
        match NullMediaHeaderBox::parse(data) {
            Ok(b) => Some(IsobmffContent::NullMediaHeader(b)),
            Err(_) => None,
        }
    } else if str_eq(box_type, "dref") {
        match DataReferenceBox::parse(data) {
            Ok(b) => Some(IsobmffContent::DataReference(b)),
            Err(_) => None,
        }
    } else if str_eq(box_type, "stsd") {
        match SampleDescriptionBox::parse(data) {
            Ok(b) => Some(IsobmffContent::SampleDescription(b)),
            Err(_) => None,
        }
    } else if str_eq(box_type, "stts") {
        match TimeToSampleBox::parse(data) {
            Ok(b) => Some(IsobmffContent::TimeToSample(b)),
            Err(_) => None,
        }
    } else if str_eq(box_type, "stsc") {
        match SampleToChunkBox::parse(data) {
            Ok(b) => Some(IsobmffContent::SampleToChunk(b)),
            Err(_) => None,
        }
    } else if str_eq(box_type, "stsz") {
        match SampleSizeBox::parse(data) {
            Ok(b) => Some(IsobmffContent::SampleSize(b)),
            Err(_) => None,
        }
    } else if str_eq(box_type, "stco") {
        match ChunkOffsetBox::parse(data) {
            Ok(b) => Some(IsobmffContent::ChunkOffset(b)),
            Err(_) => None,
        }
    } else if str_eq(box_type, "co64") {
        match ChunkOffset64Box::parse(data) {
            Ok(b) => Some(IsobmffContent::ChunkOffset64(b)),
            Err(_) => None,
        }
    } else if str_eq(box_type, "elst") {
        match EditListBox::parse(data) {
            Ok(b) => Some(IsobmffContent::EditList(b)),
            Err(_) => None,
        }
    } else if str_eq(box_type, "url ") {
        match UrlEntryBox::parse(data) {
            Ok(b) => Some(IsobmffContent::UrlEntry(b)),
            Err(_) => None,
        }
    } else if str_eq(box_type, "urn ") {
        match UrnEntryBox::parse(data) {
            Ok(b) => Some(IsobmffContent::UrnEntry(b)),
            Err(_) => None,
        }
    } else if str_eq(box_type, "chap") {
        match ChapterBox::parse(data) {
            Ok(b) => Some(IsobmffContent::Chapter(b)),
            Err(_) => None,
        }
    } else if str_eq(box_type, "mean") {
        match MetadataMeanBox::parse(data) {
            Ok(b) => Some(IsobmffContent::MetadataMean(b)),
            Err(_) => None,
        }
    } else if str_eq(box_type, "name") {
        match MetadataNameBox::parse(data) {
            Ok(b) => Some(IsobmffContent::MetadataName(b)),
            Err(_) => None,
        }
    } else {
        None
    }
}

/// Where a container's children start: most begin right after the header,
/// but the `meta` wrapper has 4 version-and-flags bytes first and `dref`
/// has those plus a 4-byte entry count, skipped when they fit.
pub open spec fn spec_content_start(t: Seq<char>, after_header: int, content_end: int) -> int {
    if t == "meta"@ && content_end - after_header >= 4 {
        after_header + 4
    } else if t == "dref"@ && content_end - after_header >= 8 {
        after_header + 8
    } else {
        after_header
    }
}

/// Index of the first `data` child, if one exists.
pub open spec fn spec_first_data_child(children: Seq<IsobmffBox>) -> Option<int>
    decreases children.len(),
{
    if children.len() == 0 {
        None
    } else if children[0].box_type@ == "data"@ {
        Some(0)
    } else {
        match spec_first_data_child(children.skip(1)) {
            Some(i) => Some(i + 1),
            None => None,
        }
    }
}

/// The payload the iTunes decoder would run on: the first `data` child's
/// bytes, when this is an iTunes owner and that child's payload was read
/// and is non-empty.
pub open spec fn spec_itunes_payload(b: IsobmffBox) -> Option<Seq<u8>> {
    if spec_is_itunes_metadata_type(b.box_type@) {
        match spec_first_data_child(b.children@) {
            Some(i) => if b.children@[i].data@.len() > 0 {
                Some(b.children@[i].data@)
            } else {
                None
            },
            None => None,
        }
    } else {
        None
    }
}

/// A parsed box agrees with the bytes of the buffer it came from, within
/// its parent range `[.., end)`: the header fields decode the header
/// bytes; a container's children cover its content range exactly, each
/// well-formed one level down; a leaf's payload and typed content follow
/// the read rules; an iTunes owner's metadata is the decode of its `data`
/// child. `levels` bounds the nesting left.
pub open spec fn spec_box_wf(buf: Seq<u8>, b: IsobmffBox, end: int, levels: nat) -> bool
    decreases levels, 0int,
{
    let o = b.offset as int;
    let hs = b.header_size as int;
    let sz = b.size as int;
    &&& 0 <= o
    &&& o + 8 <= end <= buf.len()
    &&& b.box_type@ == spec_box_type_chars(buf.subrange(o + 4, o + 8))
    &&& {
        let size32 = spec_be32_at(buf, o);
        if size32 == 1 {
            o + 16 <= end && hs == 16 && sz == spec_be64_at(buf, o + 8)
        } else if size32 == 0 {
            hs == 8 && sz == end - o
        } else {
            hs == 8 && sz == size32
        }
    }
    &&& sz >= hs
    &&& o + sz <= end
    &&& b.is_container == spec_is_container_type(b.box_type@)
    &&& if b.is_container {
        &&& levels > 0
        &&& spec_boxes_cover(
            buf,
            b.children@,
            spec_content_start(b.box_type@, o + hs, o + sz),
            o + sz,
            (levels - 1) as nat,
        )
        &&& b.data@.len() == 0
        &&& b.content is None
        &&& match b.itunes_content {
            Some(m) => match spec_itunes_payload(b) {
                Some(d) => spec_itunes_error(b.box_type@, d) is None && spec_itunes_content_ok(
                    b.box_type@,
                    d,
                    m,
                ),
                None => false,
            },
            None => match spec_itunes_payload(b) {
                Some(d) => spec_itunes_error(b.box_type@, d) is Some,
                None => true,
            },
        }
    } else {
        &&& b.children@.len() == 0
        &&& b.itunes_content is None
        &&& {
            let ds = sz - hs;
            if 1 <= ds <= 0x100000 {
                b.data@ == buf.subrange(o + hs, o + sz) && spec_leaf_content_ok(
                    b.box_type@,
                    b.data@,
                    b.content,
                )
            } else {
                b.data@.len() == 0 && b.content is None
            }
        }
    }
}

/// A box list covers the range `[start, end)` exactly: the first box
/// starts at `start`, each next box starts where the previous one ends,
/// the last one ends at `end`, and every box is well-formed. An empty
/// list stands only for an empty range.
pub open spec fn spec_boxes_cover(
    buf: Seq<u8>,
    boxes: Seq<IsobmffBox>,
    start: int,
    end: int,
    levels: nat,
) -> bool
    decreases levels, 1int,
{
    &&& (boxes.len() == 0 ==> start >= end)
    &&& (boxes.len() > 0 ==> boxes[0].offset == start && boxes[boxes.len() - 1].offset as int
        + boxes[boxes.len() - 1].size as int == end)
    &&& (forall|i: int|
        0 <= i && i + 1 < boxes.len() ==> #[trigger] boxes[i + 1].offset as int == boxes[i].offset
            as int + boxes[i].size as int)
    &&& (forall|i: int| 0 <= i < boxes.len() ==> spec_box_wf(buf, #[trigger] boxes[i], end, levels))
}

/// The first structural violation a scan of `[pos, end)` meets, if any:
/// a header that does not fit its range, a size below the header size, a
/// size past the end of the range, or containers nested beyond the depth
/// cap. A range free of these parses completely.
pub open spec fn spec_scan_error(buf: Seq<u8>, pos: int, end: int, depth: int) -> Option<
    ParseError,
>
    decreases end - pos, 21 - depth,
        when pos <= end
{
    if depth > 20 {
        Some(ParseError::DepthExceeded)
    } else if pos >= end {
        None
    } else if end > buf.len() || end - pos < 8 {
        Some(ParseError::TooShort)
    } else {
        let size32 = spec_be32_at(buf, pos);
        if size32 == 1 && end - pos < 16 {
            Some(ParseError::TooShort)
        } else {
            let header_size: int = if size32 == 1 {
                16
            } else {
                8
            };
            let box_size: int = if size32 == 1 {
                spec_be64_at(buf, pos + 8)
            } else if size32 == 0 {
                end - pos
            } else {
                size32
            };
            if box_size < header_size {
                Some(ParseError::BoxSizeTooSmall)
            } else if box_size > end - pos {
                Some(ParseError::SizeExceedsBuffer)
            } else {
                let t = spec_box_type_chars(buf.subrange(pos + 4, pos + 8));
                if spec_is_container_type(t) {
                    let content_end = pos + box_size;
                    let content_start = spec_content_start(t, pos + header_size, content_end);
                    match spec_scan_error(buf, content_start, content_end, depth + 1) {
                        Some(e) => Some(e),
                        None => spec_scan_error(buf, pos + box_size, end, depth),
                    }
                } else {
                    spec_scan_error(buf, pos + box_size, end, depth)
                }
            }
        }
    }
}

/// Parse the boxes of `data[start..end]`, recursing into containers.
/// `depth` counts the containers already entered; past 20 the decoder
/// refuses to go deeper. Parsing succeeds exactly when the range holds no
/// structural violation, and reports the first one it meets otherwise.
#[verifier::rlimit(100)]
pub fn parse_boxes(data: &[u8], start: usize, end: usize, depth: usize) -> (r: Result<
    Vec<IsobmffBox>,
    ParseError,
>)
    ensures
        match r {
            Ok(boxes) => depth <= 20 && spec_boxes_cover(
                data@,
                boxes@,
                start as int,
                end as int,
                (21 - depth) as nat,
            ),
            Err(_) => true,
        },
        start <= end ==> match r {
            Ok(_) => spec_scan_error(data@, start as int, end as int, depth as int) is None,
            Err(e) => spec_scan_error(data@, start as int, end as int, depth as int) == Some(e),
        },
        depth > 20 ==> r == Err::<Vec<IsobmffBox>, ParseError>(ParseError::DepthExceeded),
        depth <= 20 && start >= end ==> match r {
            Ok(boxes) => boxes@.len() == 0,
            Err(_) => false,
        },
    decreases 21 - depth,
{
    if depth > 20 {
        return Err(ParseError::DepthExceeded);
    }
    let n: usize = data.len();
    let mut boxes: Vec<IsobmffBox> = Vec::new();
    let mut current: usize = start;
    let ghost levels = (21 - depth) as nat;
    while current < end
        invariant
            n == data@.len(),
            depth <= 20,
            levels == (21 - depth) as nat,
            start <= current,
            boxes@.len() == 0 ==> current == start,
            boxes@.len() > 0 ==> current <= end && boxes@[0].offset == start
                && boxes@[boxes@.len() - 1].offset as int + boxes@[boxes@.len() - 1].size as int
                == current,
            forall|i: int|
                0 <= i && i + 1 < boxes@.len() ==> #[trigger] boxes@[i + 1].offset as int
                    == boxes@[i].offset as int + boxes@[i].size as int,
            forall|i: int|
                0 <= i < boxes@.len() ==> spec_box_wf(
                    data@,
                    #[trigger] boxes@[i],
                    end as int,
                    levels,
                ),
            start <= end ==> current <= end && spec_scan_error(
                data@,
                start as int,
                end as int,
                depth as int,
            ) == spec_scan_error(data@, current as int, end as int, depth as int),
        decreases end - current,
    {
        let ghost scan_here = spec_scan_error(data@, current as int, end as int, depth as int);
        if end > n || end - current < 8 {
            proof {
                assert(scan_here == Some(ParseError::TooShort));
            }
            return Err(ParseError::TooShort);
        }
        let size_32 = read_be_u32(data, current);
        let box_type = box_type_to_string(&data[current + 4..current + 8]);
        let (box_size, header_size): (u64, u64) = if size_32 == 1 {
            if end - current < 16 {
                proof {
                    assert(scan_here == Some(ParseError::TooShort));
                }
                return Err(ParseError::TooShort);
            }
            (read_be_u64(data, current + 8), 16u64)
        } else if size_32 == 0 {
            ((end - current) as u64, 8u64)
        } else {
            (size_32 as u64, 8u64)
        };
        if box_size < header_size {
            proof {
                assert(scan_here == Some(ParseError::BoxSizeTooSmall));
            }
            return Err(ParseError::BoxSizeTooSmall);
        }
        if box_size > (end - current) as u64 {
            proof {
                assert(scan_here == Some(ParseError::SizeExceedsBuffer));
            }
            return Err(ParseError::SizeExceedsBuffer);
        }
        let bsz: usize = box_size as usize;
        let hsz: usize = header_size as usize;
        let mut bx = IsobmffBox::new(current as u64, box_type, box_size, header_size);
        if bx.is_container {
            let content_end: usize = current + bsz;
            let mut content_start: usize = current + hsz;
            if str_eq(bx.box_type.as_str(), "meta") && content_end - content_start >= 4 {
                content_start = content_start + 4;
            } else if str_eq(bx.box_type.as_str(), "dref") && content_end - content_start >= 8 {
                content_start = content_start + 8;
            }
            proof {
                assert(content_start as int == spec_content_start(
                    bx.box_type@,
                    current as int + hsz as int,
                    content_end as int,
                ));
            }
            let children = match parse_boxes(data, content_start, content_end, depth + 1) {
                Ok(c) => c,
                Err(e) => {
                    proof {
                        assert(scan_here == Some(e));
                    }
                    return Err(e);
                },
            };
            proof {
                assert(scan_here == spec_scan_error(
                    data@,
                    current as int + box_size as int,
                    end as int,
                    depth as int,
                ));
            }
            bx.children = children;
            if is_itunes_metadata_box(bx.box_type.as_str()) {
                let mut j: usize = 0;
                while j < bx.children.len() && !str_eq(bx.children[j].box_type.as_str(), "data")
                    invariant
                        0 <= j <= bx.children@.len(),
                        forall|i: int|
                            0 <= i < j ==> (#[trigger] bx.children@[i].box_type)@ != "data"@,
                    decreases bx.children@.len() - j,
                {
                    j = j + 1;
                }
                if j < bx.children.len() {
                    proof {
                        lemma_first_data_child_found(bx.children@, j as int);
                    }
                    if bx.children[j].data.len() > 0 {
                        match ItunesMetadata::parse(
                            bx.box_type.as_str(),
                            bx.children[j].data.as_slice(),
                        ) {
                            Ok(metadata) => {
                                bx.itunes_content = Some(metadata);
                            },
                            Err(_) => {},
                        }
                    }
                } else {
                    proof {
                        lemma_first_data_child_none(bx.children@);
                    }
                }
            }
        } else {
            proof {
                assert(scan_here == spec_scan_error(
                    data@,
                    current as int + box_size as int,
                    end as int,
                    depth as int,
                ));
            }
            let ds: usize = bsz - hsz;
            if ds >= 1 && ds <= 1048576 {
                bx.data = sub_bytes(data, current + hsz, current + bsz);
                bx.content = parse_leaf_content(bx.box_type.as_str(), bx.data.as_slice());
            }
        }
        proof {
            assert(spec_box_wf(data@, bx, end as int, levels));
        }
        let ghost old_boxes = boxes@;
        boxes.push(bx);
        proof {
            assert(boxes@[boxes@.len() - 1] == bx);
            assert forall|i: int| 0 <= i < boxes@.len() implies spec_box_wf(
                data@,
                #[trigger] boxes@[i],
                end as int,
                levels,
            ) by {
                if i < old_boxes.len() {
                    assert(boxes@[i] == old_boxes[i]);
                }
            }
        }
        current = current + bsz;
    }
    Ok(boxes)
}

/// ISOBMFF (ISO Base Media File Format) dissector.
pub struct IsobmffDissector;

/// The fixed allow-list of major brands the dissector recognizes.
pub open spec fn spec_is_known_brand(brand: Seq<char>) -> bool {
    brand == "isom"@ || brand == "iso2"@ || brand == "iso3"@ || brand == "iso4"@ || brand
        == "iso5"@ || brand == "iso6"@ || brand == "mp41"@ || brand == "mp42"@ || brand == "mp71"@
        || brand == "M4A "@ || brand == "M4V "@ || brand == "M4P "@ || brand == "M4B "@ || brand
        == "qt  "@ || brand == "mqt "@ || brand == "3gp4"@ || brand == "3gp5"@ || brand == "3gp6"@
        || brand == "3gp7"@ || brand == "3gp8"@ || brand == "3gp9"@ || brand == "3g2a"@ || brand
        == "3g2b"@ || brand == "3g2c"@ || brand == "mmp4"@ || brand == "avc1"@ || brand == "MSNV"@
        || brand == "dash"@ || brand == "msdh"@ || brand == "msix"@
}

/// What the ISOBMFF dissector claims: twelve probe bytes with `ftyp` at
/// bytes four to seven and an allow-listed major brand after it.
pub open spec fn spec_isobmff_can_handle(header: Seq<u8>) -> bool {
    &&& header.len() >= 12
    &&& header[4] == 0x66 && header[5] == 0x74 && header[6] == 0x79 && header[7] == 0x70
    &&& spec_is_known_brand(latin1_chars(header.subrange(8, 12)))
}

impl IsobmffDissector {
    /// The media type label this dissector reports.
    pub fn media_type(&self) -> (r: &'static str)
        ensures
            r@ == "ISOBMFF"@,
    {
        "ISOBMFF"
    }

    /// The descriptive name of this dissector.
    pub fn name(&self) -> (r: &'static str)
        ensures
            r@ == "ISO Base Media File Format Dissector"@,
    {
        "ISO Base Media File Format Dissector"
    }

    /// Check if this dissector can handle the given file header.
    pub fn can_handle(&self, header: &[u8]) -> (r: bool)
        ensures
            r == spec_isobmff_can_handle(header@),
    {
        if header.len() < 12 {
            return false;
        }
        if !(header[4] == 0x66 && header[5] == 0x74 && header[6] == 0x79 && header[7] == 0x70) {
            return false;
        }
        let brand = latin1_decode(&header[8..12]);
        let b = brand.as_str();
        str_eq(b, "isom") || str_eq(b, "iso2") || str_eq(b, "iso3") || str_eq(b, "iso4") || str_eq(
            b,
            "iso5",
        ) || str_eq(b, "iso6") || str_eq(b, "mp41") || str_eq(b, "mp42") || str_eq(b, "mp71")
            || str_eq(b, "M4A ") || str_eq(b, "M4V ") || str_eq(b, "M4P ") || str_eq(b, "M4B ")
            || str_eq(b, "qt  ") || str_eq(b, "mqt ") || str_eq(b, "3gp4") || str_eq(b, "3gp5")
            || str_eq(b, "3gp6") || str_eq(b, "3gp7") || str_eq(b, "3gp8") || str_eq(b, "3gp9")
            || str_eq(b, "3g2a") || str_eq(b, "3g2b") || str_eq(b, "3g2c") || str_eq(b, "mmp4")
            || str_eq(b, "avc1") || str_eq(b, "MSNV") || str_eq(b, "dash") || str_eq(b, "msdh")
            || str_eq(b, "msix")
    }
}

/// The scan that stopped at index `j` on a `data` child, having passed
/// none before, found the first one.
proof fn lemma_first_data_child_found(children: Seq<IsobmffBox>, j: int)
    requires
        0 <= j < children.len(),
        children[j].box_type@ == "data"@,
        forall|i: int| 0 <= i < j ==> (#[trigger] children[i].box_type)@ != "data"@,
    ensures
        spec_first_data_child(children) == Some(j),
    decreases j,
{
    if j == 0 {
    } else {
        lemma_first_data_child_found(children.skip(1), j - 1);
    }
}

/// A scan that passed every child without finding `data` found none.
proof fn lemma_first_data_child_none(children: Seq<IsobmffBox>)
    requires
        forall|i: int| 0 <= i < children.len() ==> (#[trigger] children[i].box_type)@ != "data"@,
    ensures
        spec_first_data_child(children) is None,
    decreases children.len(),
{
    if children.len() > 0 {
        lemma_first_data_child_none(children.skip(1));
    }
}

/// Sum of the declared sizes of a box list.
pub open spec fn spec_children_sizes(boxes: Seq<IsobmffBox>) -> int
    decreases boxes.len(),
{
    if boxes.len() == 0 {
        0
    } else {
        boxes[0].size + spec_children_sizes(boxes.skip(1))
    }
}

/// A covering box list's sizes sum to the length of the range it covers.
proof fn lemma_cover_sizes(buf: Seq<u8>, boxes: Seq<IsobmffBox>, start: int, end: int, levels: nat)
    requires
        spec_boxes_cover(buf, boxes, start, end, levels),
        start <= end,
    ensures
        spec_children_sizes(boxes) == end - start,
    decreases boxes.len(),
{
    if boxes.len() == 0 {
    } else {
        let b0 = boxes[0];
        assert(spec_box_wf(buf, b0, end, levels));
        let rest = boxes.skip(1);
        assert(spec_children_sizes(boxes) == b0.size + spec_children_sizes(rest));
        if rest.len() == 0 {
            assert(boxes[boxes.len() - 1] == b0);
            assert(spec_children_sizes(rest) == 0);
        } else {
            assert forall|i: int| 0 <= i && i + 1 < rest.len() implies #[trigger] rest[i
                + 1].offset as int == rest[i].offset as int + rest[i].size as int by {
                assert(rest[i] == boxes[i + 1]);
                assert(rest[i + 1] == boxes[i + 2]);
            }
            assert forall|i: int| 0 <= i < rest.len() implies spec_box_wf(
                buf,
                #[trigger] rest[i],
                end,
                levels,
            ) by {
                assert(rest[i] == boxes[i + 1]);
            }
            assert(rest[0] == boxes[1]);
            assert(rest[rest.len() - 1] == boxes[boxes.len() - 1]);
            assert(spec_boxes_cover(
                buf,
                rest,
                b0.offset as int + b0.size as int,
                end,
                levels,
            ));
            lemma_cover_sizes(buf, rest, b0.offset as int + b0.size as int, end, levels);
        }
    }
}

/// Law: for a parsed container whose children were fully walked — any
/// container type but the `meta` and `dref` wrappers, whose version
/// prefixes are skipped before the children — the sum of the children's
/// sizes plus the container's header size equals the container's own
/// size.
pub proof fn lemma_container_children_sizes(
    buf: Seq<u8>,
    b: IsobmffBox,
    end: int,
    levels: nat,
)
    requires
        spec_box_wf(buf, b, end, levels),
        b.is_container,
        b.box_type@ != "meta"@,
        b.box_type@ != "dref"@,
    ensures
        spec_children_sizes(b.children@) + b.header_size == b.size,
{
    let o = b.offset as int;
    let hs = b.header_size as int;
    let sz = b.size as int;
    assert(spec_content_start(b.box_type@, o + hs, o + sz) == o + hs);
    lemma_cover_sizes(buf, b.children@, o + hs, o + sz, (levels - 1) as nat);
}

} // verus!
