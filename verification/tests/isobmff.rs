//! ISOBMFF decoding: the box tree, leaf decoders and iTunes metadata.

use the_drill::error::ParseError;
use the_drill::isobmff_box::{
    get_box_description, is_container_type, is_itunes_metadata_box, IsobmffBox,
};
use the_drill::isobmff_chapter::ChapterBox;
use the_drill::isobmff_content::IsobmffContent;
use the_drill::isobmff_data_reference::{DataReferenceBox, UrlEntryBox, UrnEntryBox};
use the_drill::isobmff_dissector::{box_type_to_string, parse_boxes, IsobmffDissector};
use the_drill::isobmff_edit_list::EditListBox;
use the_drill::isobmff_file_type::FileTypeBox;
use the_drill::isobmff_handler::HandlerBox;
use the_drill::isobmff_media_header::MediaHeaderBox;
use the_drill::isobmff_media_info_header::{
    NullMediaHeaderBox, SoundMediaHeaderBox, VideoMediaHeaderBox,
};
use the_drill::isobmff_metadata_keys::{MetadataMeanBox, MetadataNameBox};
use the_drill::isobmff_movie_header::MovieHeaderBox;
use the_drill::isobmff_sample_table::{
    ChunkOffset64Box, ChunkOffsetBox, SampleDescriptionBox, SampleSizeBox, SampleToChunkBox,
    TimeToSampleBox,
};
use the_drill::isobmff_track_header::TrackHeaderBox;
use the_drill::itunes_metadata::{ItunesContent, ItunesDataType, ItunesMetadata};

fn boxed(box_type: &[u8; 4], payload: &[u8]) -> Vec<u8> {
    let mut v = Vec::new();
    v.extend_from_slice(&((payload.len() + 8) as u32).to_be_bytes());
    v.extend_from_slice(box_type);
    v.extend_from_slice(payload);
    v
}

#[test]
fn scenario_itunes_title_chain() {
    // moov > udta > (c)nam > data, with a UTF-8 "Title" payload
    let mut data_payload = vec![0u8, 0, 0, 1, 0, 0, 0, 0];
    data_payload.extend_from_slice(b"Title");
    let data_box = boxed(b"data", &data_payload);
    let nam_box = boxed(&[0xA9, b'n', b'a', b'm'], &data_box);
    let udta_box = boxed(b"udta", &nam_box);
    let moov_box = boxed(b"moov", &udta_box);
    let boxes = parse_boxes(&moov_box, 0, moov_box.len(), 0).unwrap();
    assert_eq!(boxes.len(), 1);
    let moov = &boxes[0];
    assert_eq!(moov.box_type, "moov");
    assert!(moov.is_container);
    let udta = &moov.children[0];
    assert_eq!(udta.box_type, "udta");
    let nam = &udta.children[0];
    assert_eq!(nam.box_type, "\u{A9}nam");
    assert!(nam.is_container);
    assert_eq!(nam.children[0].box_type, "data");
    let meta = nam.itunes_content.as_ref().expect("iTunes metadata attached");
    assert_eq!(meta.data_type, ItunesDataType::Utf8);
    match &meta.content {
        ItunesContent::Text(t) => assert_eq!(t, "Title"),
        other => panic!("expected text content, got {:?}", other),
    }
}

#[test]
fn scenario_undersized_box_is_rejected() {
    // a box claiming size 4, less than its own 8-byte header
    let data = [0u8, 0, 0, 4, b't', b'e', b's', b't'];
    assert_eq!(parse_boxes(&data, 0, 8, 0).unwrap_err(), ParseError::BoxSizeTooSmall);
}

fn nested_containers(levels: usize) -> Vec<u8> {
    let mut v = boxed(b"free", &[]);
    for _ in 0..levels {
        v = boxed(b"moov", &v);
    }
    v
}

#[test]
fn scenario_depth_limit_at_twenty_one() {
    let ok = nested_containers(20);
    assert!(parse_boxes(&ok, 0, ok.len(), 0).is_ok());
    let too_deep = nested_containers(21);
    assert_eq!(parse_boxes(&too_deep, 0, too_deep.len(), 0).unwrap_err(), ParseError::DepthExceeded);
}

#[test]
fn scenario_dispatcher_brand_allow_list() {
    let d = IsobmffDissector;
    let mut header = Vec::new();
    header.extend_from_slice(&[0, 0, 0, 24]);
    header.extend_from_slice(b"ftyp");
    header.extend_from_slice(b"isom");
    assert!(d.can_handle(&header));
    let mut other = header.clone();
    other[8..12].copy_from_slice(b"zzzz");
    assert!(!d.can_handle(&other));
    assert!(!d.can_handle(&header[0..8]));
    assert_eq!(d.media_type(), "ISOBMFF");
    assert_eq!(d.name(), "ISO Base Media File Format Dissector");
}

#[test]
fn box_overrunning_parent_is_rejected() {
    let data = [0u8, 0, 0, 32, b'f', b'r', b'e', b'e', 0, 0];
    assert_eq!(parse_boxes(&data, 0, data.len(), 0).unwrap_err(), ParseError::SizeExceedsBuffer);
}

#[test]
fn extended_and_zero_sizes() {
    // size 1 switches to the 64-bit extended size (16-byte header)
    let mut ext = Vec::new();
    ext.extend_from_slice(&[0, 0, 0, 1]);
    ext.extend_from_slice(b"free");
    ext.extend_from_slice(&[0, 0, 0, 0, 0, 0, 0, 20]);
    ext.extend_from_slice(&[1, 2, 3, 4]);
    let boxes = parse_boxes(&ext, 0, ext.len(), 0).unwrap();
    assert_eq!(boxes[0].header_size, 16);
    assert_eq!(boxes[0].size, 20);
    assert_eq!(boxes[0].data, vec![1, 2, 3, 4]);
    // size 0 extends to the end of the range
    let mut zero = Vec::new();
    zero.extend_from_slice(&[0, 0, 0, 0]);
    zero.extend_from_slice(b"free");
    zero.extend_from_slice(&[9, 9]);
    let boxes = parse_boxes(&zero, 0, zero.len(), 0).unwrap();
    assert_eq!(boxes[0].size, 10);
    assert_eq!(boxes[0].data, vec![9, 9]);
}

#[test]
fn sibling_sizes_cover_container() {
    let inner1 = boxed(b"free", &[1, 2]);
    let inner2 = boxed(b"skip", &[3]);
    let mut payload = inner1.clone();
    payload.extend_from_slice(&inner2);
    let moov = boxed(b"moov", &payload);
    let boxes = parse_boxes(&moov, 0, moov.len(), 0).unwrap();
    let container = &boxes[0];
    assert_eq!(container.children.len(), 2);
    let sum: u64 = container.children.iter().map(|c| c.size).sum();
    assert_eq!(sum + container.header_size, container.size);
}

#[test]
fn meta_and_dref_skip_their_prefixes() {
    // meta: 4 prefix bytes before the first child
    let child = boxed(b"free", &[]);
    let mut meta_payload = vec![0u8, 0, 0, 0];
    meta_payload.extend_from_slice(&child);
    let meta = boxed(b"meta", &meta_payload);
    let boxes = parse_boxes(&meta, 0, meta.len(), 0).unwrap();
    assert_eq!(boxes[0].children.len(), 1);
    assert_eq!(boxes[0].children[0].box_type, "free");
    // dref itself is a leaf in this model: its entry count is decoded,
    // its entries are not walked as children
    let url = boxed(b"url ", &[0, 0, 0, 1]);
    let mut dref_payload = vec![0u8, 0, 0, 0, 0, 0, 0, 1];
    dref_payload.extend_from_slice(&url);
    let dref = boxed(b"dref", &dref_payload);
    let boxes = parse_boxes(&dref, 0, dref.len(), 0).unwrap();
    assert!(boxes[0].children.is_empty());
    match &boxes[0].content {
        Some(IsobmffContent::DataReference(d)) => assert_eq!(d.entry_count, 1),
        other => panic!("expected data reference content, got {:?}", other),
    }
}

#[test]
fn large_leaf_payload_is_left_unread() {
    // a leaf over the 1 MiB cap keeps offset and size, no payload
    let mut v = Vec::new();
    let total: u32 = 8 + 0x100001;
    v.extend_from_slice(&total.to_be_bytes());
    v.extend_from_slice(b"mdat");
    v.resize(total as usize, 0xAB);
    let boxes = parse_boxes(&v, 0, v.len(), 0).unwrap();
    assert_eq!(boxes[0].size, total as u64);
    assert!(boxes[0].data.is_empty());
    assert!(boxes[0].content.is_none());
    assert_eq!(boxes[0].data_size(), 0x100001);
}

#[test]
fn box_type_string_masks_unprintable_bytes() {
    assert_eq!(box_type_to_string(b"ftyp"), "ftyp");
    assert_eq!(box_type_to_string(&[0xA9, b'n', b'a', b'm']), "\u{A9}nam");
    assert_eq!(box_type_to_string(&[0x01, b'a', 0x20, 0xFE]), "?a ?");
}

#[test]
fn container_classification() {
    assert!(is_container_type("moov"));
    assert!(is_container_type("trkn"));
    assert!(is_container_type("\u{A9}alb"));
    assert!(!is_container_type("ftyp"));
    assert!(!is_container_type("data"));
    assert!(is_itunes_metadata_box("covr"));
    assert!(!is_itunes_metadata_box("moov"));
}

#[test]
fn box_descriptions_name_known_types() {
    assert_eq!(get_box_description("ftyp"), "File Type and Compatibility");
    assert_eq!(get_box_description("\u{A9}nam"), "Name (iTunes)");
    assert_eq!(get_box_description("zzzz"), "Unknown Box Type");
    let b = IsobmffBox::new(0, "ftyp".to_string(), 16, 8);
    assert_eq!(b.get_description(), "File Type and Compatibility");
    assert_eq!(b.data_size(), 8);
    let shrunk = IsobmffBox::new(0, "free".to_string(), 4, 8);
    assert_eq!(shrunk.data_size(), 0);
}

#[test]
fn ftyp_box_decodes_brands() {
    let mut payload = Vec::new();
    payload.extend_from_slice(b"isom");
    payload.extend_from_slice(&[0, 0, 2, 0]);
    payload.extend_from_slice(b"iso2mp41xx");
    let f = FileTypeBox::parse(&payload).unwrap();
    assert_eq!(f.major_brand, "isom");
    assert_eq!(f.minor_version, 512);
    assert_eq!(f.compatible_brands, vec!["iso2".to_string(), "mp41".to_string()]);
    assert_eq!(FileTypeBox::parse(&payload[0..6]).unwrap_err(), ParseError::TooShort);
}

#[test]
fn mvhd_box_decodes_version_zero() {
    let mut p = vec![0u8, 0, 0, 0];
    p.extend_from_slice(&[0, 0, 0, 10]); // creation
    p.extend_from_slice(&[0, 0, 0, 20]); // modification
    p.extend_from_slice(&[0, 0, 2, 88]); // timescale 600
    p.extend_from_slice(&[0, 0, 4, 176]); // duration 1200
    p.extend_from_slice(&[0, 1, 0, 0]); // rate 1.0 (16.16)
    p.extend_from_slice(&[1, 0]); // volume 1.0 (8.8)
    p.extend_from_slice(&[0, 0]); // reserved
    let b = MovieHeaderBox::parse(&p).unwrap();
    assert_eq!(b.version, 0);
    assert_eq!(b.creation_time, 10);
    assert_eq!(b.timescale, 600);
    assert_eq!(b.duration, 1200);
    assert_eq!(b.rate_fixed, 0x10000);
    assert_eq!(b.volume_fixed, 0x100);
    assert_eq!(MovieHeaderBox::parse(&p[0..20]).unwrap_err(), ParseError::TooShort);
}

#[test]
fn tkhd_box_decodes_version_zero() {
    let mut p = vec![0u8, 0, 0, 7];
    p.extend_from_slice(&[0, 0, 0, 1]); // creation
    p.extend_from_slice(&[0, 0, 0, 2]); // modification
    p.extend_from_slice(&[0, 0, 0, 5]); // track id
    p.extend_from_slice(&[0, 0, 0, 0]); // reserved
    p.extend_from_slice(&[0, 0, 3, 0]); // duration
    p.extend_from_slice(&[0u8; 8]); // reserved
    p.extend_from_slice(&[0, 1]); // layer
    p.extend_from_slice(&[0, 2]); // alternate group
    p.extend_from_slice(&[1, 0]); // volume
    p.extend_from_slice(&[0, 0]); // reserved
    p.extend_from_slice(&[0u8; 36]); // matrix
    p.extend_from_slice(&[0x02, 0x80, 0, 0]); // width 640.0
    p.extend_from_slice(&[0x01, 0xE0, 0, 0]); // height 480.0
    let b = TrackHeaderBox::parse(&p).unwrap();
    assert_eq!(b.version, 0);
    assert_eq!(b.flags, 7);
    assert_eq!(b.track_id, 5);
    assert_eq!(b.duration, 768);
    assert_eq!(b.layer, 1);
    assert_eq!(b.alternate_group, 2);
    assert_eq!(b.volume_fixed, 256);
    assert_eq!(b.width_fixed, 640 << 16);
    assert_eq!(b.height_fixed, 480 << 16);
}

#[test]
fn mdhd_box_decodes_language() {
    let mut p = vec![0u8, 0, 0, 0];
    p.extend_from_slice(&[0, 0, 0, 1]);
    p.extend_from_slice(&[0, 0, 0, 2]);
    p.extend_from_slice(&[0, 0, 0x03, 0xE8]); // timescale 1000
    p.extend_from_slice(&[0, 0, 0, 50]);
    p.extend_from_slice(&[0x15, 0xC7]); // "eng"
    p.extend_from_slice(&[0, 0]);
    let b = MediaHeaderBox::parse(&p).unwrap();
    assert_eq!(b.timescale, 1000);
    assert_eq!(b.language, "eng");
}

#[test]
fn hdlr_box_decodes_name() {
    let mut p = vec![0u8, 0, 0, 0];
    p.extend_from_slice(&[0, 0, 0, 0]); // pre_defined
    p.extend_from_slice(b"vide");
    p.extend_from_slice(b"appl");
    p.extend_from_slice(&[0u8; 8]); // rest of reserved
    p.extend_from_slice(b"VideoHandler\0");
    let b = HandlerBox::parse(&p).unwrap();
    assert_eq!(b.handler_type, "vide");
    assert_eq!(b.manufacturer, "appl");
    assert_eq!(b.name, "VideoHandler");
    assert_eq!(HandlerBox::get_handler_name("vide"), "Video Track");
    assert_eq!(HandlerBox::get_handler_name("zzzz"), "Unknown Handler");
}

#[test]
fn media_info_headers_decode() {
    let mut v = vec![0u8, 0, 0, 0];
    v.extend_from_slice(&[0, 64]); // graphics mode
    v.extend_from_slice(&[0, 1, 0, 2, 0, 3]);
    let vm = VideoMediaHeaderBox::parse(&v).unwrap();
    assert_eq!(vm.graphics_mode, 64);
    assert_eq!(vm.opcolor, [1, 2, 3]);
    let s = [0u8, 0, 0, 0, 0xFF, 0x00, 0, 0];
    let sm = SoundMediaHeaderBox::parse(&s).unwrap();
    assert_eq!(sm.balance_fixed, -256);
    let nm = NullMediaHeaderBox::parse(&[1, 0, 0, 0]).unwrap();
    assert_eq!(nm.version, 1);
    assert_eq!(NullMediaHeaderBox::parse(&[1]).unwrap_err(), ParseError::TooShort);
}

#[test]
fn sample_table_boxes_decode() {
    // stsd with two entries
    let mut p = vec![0u8, 0, 0, 0, 0, 0, 0, 2];
    p.extend_from_slice(&[0, 0, 0, 16]);
    p.extend_from_slice(b"mp4a");
    p.extend_from_slice(&[0u8; 8]);
    p.extend_from_slice(&[0, 0, 0, 10]);
    p.extend_from_slice(b"avc1");
    p.extend_from_slice(&[0, 0]);
    let sd = SampleDescriptionBox::parse(&p).unwrap();
    assert_eq!(sd.entry_count, 2);
    assert_eq!(sd.entries, vec!["mp4a".to_string(), "avc1".to_string()]);
    let counts = [0u8, 0, 0, 0, 0, 0, 0, 9];
    assert_eq!(TimeToSampleBox::parse(&counts).unwrap().entry_count, 9);
    assert_eq!(SampleToChunkBox::parse(&counts).unwrap().entry_count, 9);
    assert_eq!(ChunkOffsetBox::parse(&counts).unwrap().entry_count, 9);
    assert_eq!(ChunkOffset64Box::parse(&counts).unwrap().entry_count, 9);
    assert_eq!(EditListBox::parse(&counts).unwrap().entry_count, 9);
    assert_eq!(DataReferenceBox::parse(&counts).unwrap().entry_count, 9);
    let sz = [0u8, 0, 0, 0, 0, 0, 1, 0, 0, 0, 0, 42];
    let stsz = SampleSizeBox::parse(&sz).unwrap();
    assert_eq!(stsz.sample_size, 256);
    assert_eq!(stsz.sample_count, 42);
    assert_eq!(SampleSizeBox::parse(&sz[0..10]).unwrap_err(), ParseError::TooShort);
}

#[test]
fn stsd_truncated_entry_stops_list() {
    // the second entry header does not fit: only the first is kept
    let mut p = vec![0u8, 0, 0, 0, 0, 0, 0, 2];
    p.extend_from_slice(&[0, 0, 0, 16]);
    p.extend_from_slice(b"mp4a");
    p.extend_from_slice(&[0u8; 8]);
    p.extend_from_slice(&[0, 0]);
    let sd = SampleDescriptionBox::parse(&p).unwrap();
    assert_eq!(sd.entries, vec!["mp4a".to_string()]);
}

#[test]
fn url_and_urn_entries_decode() {
    let in_file = [0u8, 0, 0, 1];
    let u = UrlEntryBox::parse(&in_file).unwrap();
    assert_eq!(u.location, "(data in same file)");
    let mut ext = vec![0u8, 0, 0, 0];
    ext.extend_from_slice(b"http://x\0");
    let u2 = UrlEntryBox::parse(&ext).unwrap();
    assert_eq!(u2.location, "http://x");
    let mut urn = vec![0u8, 0, 0, 0];
    urn.extend_from_slice(b"name\0loc\0");
    let n = UrnEntryBox::parse(&urn).unwrap();
    assert_eq!(n.name, "name");
    assert_eq!(n.location, "loc");
    let no_null = UrnEntryBox::parse(b"\0\0\0\0abc").unwrap();
    assert_eq!(no_null.name, "");
    assert_eq!(no_null.location, "");
}

#[test]
fn chap_box_collects_track_ids() {
    let p = [0u8, 0, 0, 2, 0, 0, 0, 7, 0xAA];
    let c = ChapterBox::parse(&p).unwrap();
    assert_eq!(c.track_ids, vec![2, 7]);
    assert_eq!(ChapterBox::parse(&p[0..3]).unwrap_err(), ParseError::TooShort);
}

#[test]
fn metadata_key_boxes_decode() {
    let mut mean = vec![0u8, 0, 0, 0];
    mean.extend_from_slice(b"com.apple.iTunes\0");
    let m = MetadataMeanBox::parse(&mean).unwrap();
    assert_eq!(m.namespace, "com.apple.iTunes");
    let mut name = vec![0u8, 0, 0, 0];
    name.extend_from_slice(b"iTunNORM");
    let n = MetadataNameBox::parse(&name).unwrap();
    assert_eq!(n.name, "iTunNORM");
}

#[test]
fn mvhd_and_tkhd_version_one_use_wide_fields() {
    // mvhd version 1: 64-bit creation, modification and duration
    let mut p = vec![1u8, 0, 0, 0];
    p.extend_from_slice(&[0, 0, 0, 0, 0, 0, 0, 11]);
    p.extend_from_slice(&[0, 0, 0, 0, 0, 0, 0, 22]);
    p.extend_from_slice(&[0, 0, 0, 90]);
    p.extend_from_slice(&[0, 0, 0, 1, 0, 0, 0, 0]); // duration 2^32
    p.extend_from_slice(&[0, 1, 0, 0]);
    p.extend_from_slice(&[1, 0]);
    p.extend_from_slice(&[0, 0]);
    let b = MovieHeaderBox::parse(&p).unwrap();
    assert_eq!(b.version, 1);
    assert_eq!(b.creation_time, 11);
    assert_eq!(b.duration, 1u64 << 32);
    // tkhd version 1
    let mut t = vec![1u8, 0, 0, 1];
    t.extend_from_slice(&[0, 0, 0, 0, 0, 0, 0, 1]);
    t.extend_from_slice(&[0, 0, 0, 0, 0, 0, 0, 2]);
    t.extend_from_slice(&[0, 0, 0, 9]); // track id
    t.extend_from_slice(&[0, 0, 0, 0]); // reserved
    t.extend_from_slice(&[0, 0, 0, 0, 0, 0, 4, 0]); // duration 1024
    t.extend_from_slice(&[0u8; 8]);
    t.extend_from_slice(&[0, 0, 0, 0, 0, 0, 0, 0]); // layer, group, volume, reserved
    t.extend_from_slice(&[0u8; 36]);
    t.extend_from_slice(&[0, 0, 0, 0, 0, 0, 0, 0]);
    let tk = TrackHeaderBox::parse(&t).unwrap();
    assert_eq!(tk.version, 1);
    assert_eq!(tk.track_id, 9);
    assert_eq!(tk.duration, 1024);
    // mdhd version 1
    let mut m = vec![1u8, 0, 0, 0];
    m.extend_from_slice(&[0, 0, 0, 0, 0, 0, 0, 5]);
    m.extend_from_slice(&[0, 0, 0, 0, 0, 0, 0, 6]);
    m.extend_from_slice(&[0, 0, 0, 44]);
    m.extend_from_slice(&[0, 0, 0, 0, 0, 0, 0, 7]);
    m.extend_from_slice(&[0x55, 0xC4]); // "und"
    m.extend_from_slice(&[0, 0]);
    let md = MediaHeaderBox::parse(&m).unwrap();
    assert_eq!(md.version, 1);
    assert_eq!(md.timescale, 44);
    assert_eq!(md.language, "und");
}

#[test]
fn itunes_integer_widths() {
    let w2 = ItunesMetadata::parse("tmpo", &[0, 0, 0, 0x15, 0, 0, 0, 0, 0xFF, 0xFE]).unwrap();
    match w2.content {
        ItunesContent::Integer(v) => assert_eq!(v, -2),
        other => panic!("expected integer, got {:?}", other),
    }
    let w4 = ItunesMetadata::parse("tmpo", &[0, 0, 0, 0x15, 0, 0, 0, 0, 0, 0, 0, 120]).unwrap();
    match w4.content {
        ItunesContent::Integer(v) => assert_eq!(v, 120),
        other => panic!("expected integer, got {:?}", other),
    }
    let w8 = ItunesMetadata::parse(
        "tmpo",
        &[0, 0, 0, 0x15, 0, 0, 0, 0, 0, 0, 0, 0, 0, 0, 0, 3],
    )
    .unwrap();
    match w8.content {
        ItunesContent::Integer(v) => assert_eq!(v, 3),
        other => panic!("expected integer, got {:?}", other),
    }
    let u8w = ItunesMetadata::parse("tmpo", &[0, 0, 0, 0x16, 0, 0, 0, 0, 200]).unwrap();
    match u8w.content {
        ItunesContent::UnsignedInteger(v) => assert_eq!(v, 200),
        other => panic!("expected unsigned integer, got {:?}", other),
    }
}

#[test]
fn itunes_implicit_text_for_other_owners() {
    // the implicit tag falls back to text outside trkn and disk
    let mut data = vec![0u8, 0, 0, 0, 0, 0, 0, 0];
    data.extend_from_slice(b"Pop");
    let m = ItunesMetadata::parse("gnre", &data).unwrap();
    match m.content {
        ItunesContent::Text(t) => assert_eq!(t, "Pop"),
        other => panic!("expected text, got {:?}", other),
    }
}

#[test]
fn itunes_track_number_tuple() {
    let mut data = vec![0u8, 0, 0, 0, 0, 0, 0, 0]; // implicit type
    data.extend_from_slice(&[0, 0, 0, 3, 0, 12]);
    let m = ItunesMetadata::parse("trkn", &data).unwrap();
    assert_eq!(m.data_type, ItunesDataType::Implicit);
    match m.content {
        ItunesContent::TrackNumber { track, total_tracks } => {
            assert_eq!(track, 3);
            assert_eq!(total_tracks, 12);
        }
        other => panic!("expected track tuple, got {:?}", other),
    }
    // disk under the unsigned-integer tag takes the same shape
    let mut disk = vec![0u8, 0, 0, 0x16, 0, 0, 0, 0];
    disk.extend_from_slice(&[0, 0, 0, 2, 0, 5]);
    let d = ItunesMetadata::parse("disk", &disk).unwrap();
    match d.content {
        ItunesContent::DiskNumber { disk, total_disks } => {
            assert_eq!(disk, 2);
            assert_eq!(total_disks, 5);
        }
        other => panic!("expected disk tuple, got {:?}", other),
    }
}

#[test]
fn itunes_integers_and_images() {
    let int1 = ItunesMetadata::parse("tmpo", &[0, 0, 0, 0x15, 0, 0, 0, 0, 0xFF]).unwrap();
    match int1.content {
        ItunesContent::Integer(v) => assert_eq!(v, -1),
        other => panic!("expected integer, got {:?}", other),
    }
    let uint2 = ItunesMetadata::parse("tmpo", &[0, 0, 0, 0x16, 0, 0, 0, 0, 0, 120]).unwrap();
    match uint2.content {
        ItunesContent::UnsignedInteger(v) => assert_eq!(v, 120),
        other => panic!("expected unsigned integer, got {:?}", other),
    }
    assert_eq!(
        ItunesMetadata::parse("tmpo", &[0, 0, 0, 0x15, 0, 0, 0, 0, 1, 2, 3]).unwrap_err(), ParseError::InvalidIntegerSize);
    let jpeg = ItunesMetadata::parse("covr", &[0, 0, 0, 0x0D, 0, 0, 0, 0, 1, 2, 3]).unwrap();
    assert_eq!(jpeg.data_type, ItunesDataType::Jpeg);
    match jpeg.content {
        ItunesContent::Image { format, data_size } => {
            assert_eq!(format, "JPEG");
            assert_eq!(data_size, 3);
        }
        other => panic!("expected image, got {:?}", other),
    }
}

#[test]
fn itunes_utf16be_and_binary() {
    let mut t = vec![0u8, 0, 0, 2, 0, 0, 0, 0];
    t.extend_from_slice(&[0x00, 0x48, 0x00, 0x69]);
    let m = ItunesMetadata::parse("\u{A9}nam", &t).unwrap();
    match m.content {
        ItunesContent::Text(s) => assert_eq!(s, "Hi"),
        other => panic!("expected text, got {:?}", other),
    }
    let b = ItunesMetadata::parse("xxxx", &[0, 0, 0, 0x42, 0, 0, 0, 0, 1, 2]).unwrap();
    assert_eq!(b.data_type, ItunesDataType::Binary(0x42));
    match b.content {
        ItunesContent::Binary(v) => assert_eq!(v, vec![1, 2]),
        other => panic!("expected binary, got {:?}", other),
    }
    assert_eq!(
        ItunesMetadata::parse("\u{A9}nam", &[0, 0, 0]).unwrap_err(), ParseError::TooShort);
}

#[test]
fn itunes_data_type_from_flags() {
    assert_eq!(ItunesDataType::from_flags(0), ItunesDataType::Implicit);
    assert_eq!(ItunesDataType::from_flags(1), ItunesDataType::Utf8);
    assert_eq!(ItunesDataType::from_flags(0x0E), ItunesDataType::Png);
    assert_eq!(ItunesDataType::from_flags(0x99), ItunesDataType::Binary(0x99));
    assert_eq!(ItunesDataType::from_flags(0x100), ItunesDataType::Implicit);
}

#[test]
fn itunes_parse_failure_leaves_content_absent() {
    // a data child too short for the iTunes layout: the owner keeps no
    // typed metadata, the tree survives
    let data_box = boxed(b"data", &[0, 0, 0]);
    let nam_box = boxed(&[0xA9, b'n', b'a', b'm'], &data_box);
    let boxes = parse_boxes(&nam_box, 0, nam_box.len(), 0).unwrap();
    assert!(boxes[0].itunes_content.is_none());
    assert_eq!(boxes[0].children.len(), 1);
}

#[test]
fn leaf_content_attaches_for_registered_types() {
    let mut payload = Vec::new();
    payload.extend_from_slice(b"isom");
    payload.extend_from_slice(&[0, 0, 0, 1]);
    let ftyp = boxed(b"ftyp", &payload);
    let boxes = parse_boxes(&ftyp, 0, ftyp.len(), 0).unwrap();
    match &boxes[0].content {
        Some(IsobmffContent::FileType(f)) => assert_eq!(f.major_brand, "isom"),
        other => panic!("expected file type content, got {:?}", other),
    }
    let unknown = boxed(b"zzzz", &[1, 2, 3]);
    let boxes = parse_boxes(&unknown, 0, unknown.len(), 0).unwrap();
    assert!(boxes[0].content.is_none());
    assert_eq!(boxes[0].data, vec![1, 2, 3]);
}
