//! ID3v2 decoding: synchsafe integers, unsynchronization, frame
//! iteration, and the per-frame content decoders.

use the_drill::error::ParseError;
use the_drill::id3v2_3_dissector::{dissect_id3v2_3, parse_id3v2_3_frame, Id3v23Dissector};
use the_drill::id3v2_4_dissector::{dissect_id3v2_4, parse_id3v2_4_frame, Id3v24Dissector};
use the_drill::id3v2_attached_picture_frame::AttachedPictureFrame;
use the_drill::id3v2_chapter_frame::{format_timestamp, ChapterFrame};
use the_drill::id3v2_comment_frame::CommentFrame;
use the_drill::id3v2_frame::{Id3v2Frame, Id3v2FrameContent};
use the_drill::id3v2_table_of_contents_frame::TableOfContentsFrame;
use the_drill::id3v2_tools::{
    decode_synchsafe_int, detect_id3v2_version, detect_mpeg_sync, get_frame_description,
    is_valid_frame_for_version, is_valid_id3v2_3_frame, is_valid_id3v2_4_frame,
    parse_id3v2_header, remove_unsynchronization,
};
use the_drill::id3v2_unique_file_id_frame::UniqueFileIdFrame;
use the_drill::id3v2_url_frame::UrlFrame;
use the_drill::id3v2_user_text_frame::UserTextFrame;
use the_drill::id3v2_user_url_frame::UserUrlFrame;

#[test]
fn synchsafe_reconstructs_seven_bit_bytes() {
    // b0<<21 | b1<<14 | b2<<7 | b3 for bytes below 0x80
    assert_eq!(decode_synchsafe_int(&[0x01, 0x7F, 0x7F, 0x7F]), 0x3FFFFF);
    assert_eq!(decode_synchsafe_int(&[0, 0, 0x02, 0x01]), 0x101);
    assert_eq!(decode_synchsafe_int(&[0, 0, 0, 0]), 0);
    assert_eq!(decode_synchsafe_int(&[0x7F, 0x7F, 0x7F, 0x7F]), 0x0FFFFFFF);
}

#[test]
fn synchsafe_masks_high_bits() {
    // a set MSB is ignored, the low seven bits still count
    assert_eq!(
        decode_synchsafe_int(&[0x81, 0xFF, 0x7F, 0x7F]),
        decode_synchsafe_int(&[0x01, 0x7F, 0x7F, 0x7F])
    );
}

#[test]
fn synchsafe_short_input_is_zero() {
    assert_eq!(decode_synchsafe_int(&[1, 2, 3]), 0);
}

#[test]
fn unsync_removal_collapses_pairs() {
    assert_eq!(remove_unsynchronization(&[0xFF, 0x00, 0x01]), vec![0xFF, 0x01]);
    assert_eq!(remove_unsynchronization(&[0xFF, 0x01, 0xFF, 0x00]), vec![0xFF, 0x01, 0xFF]);
    assert_eq!(remove_unsynchronization(&[]), Vec::<u8>::new());
}

#[test]
fn unsync_removal_never_lengthens() {
    let data = [0xFF, 0x00, 0xFF, 0x00, 0x13, 0xFF];
    let once = remove_unsynchronization(&data);
    assert!(once.len() <= data.len());
}

#[test]
fn unsync_removal_idempotent_without_triple() {
    // no 0xFF 0x00 0x00 triple: a second pass changes nothing
    let data = [0x10, 0xFF, 0x00, 0x20, 0xFF, 0x00, 0xFF, 0x30];
    let once = remove_unsynchronization(&data);
    let twice = remove_unsynchronization(&once);
    assert_eq!(once, twice);
}

#[test]
fn unsync_removal_triple_decodes_to_pair() {
    // 0xFF 0x00 0x00 carries a real 0xFF 0x00 and decodes to it
    assert_eq!(remove_unsynchronization(&[0xFF, 0x00, 0x00]), vec![0xFF, 0x00]);
}

#[test]
fn frame_id_allow_lists_partition_by_version() {
    assert!(is_valid_id3v2_3_frame("TYER"));
    assert!(!is_valid_id3v2_4_frame("TYER"));
    assert!(is_valid_id3v2_4_frame("TDRC"));
    assert!(!is_valid_id3v2_3_frame("TDRC"));
    assert!(is_valid_frame_for_version("TIT2", 3));
    assert!(is_valid_frame_for_version("TIT2", 4));
    assert!(!is_valid_frame_for_version("TIT2", 5));
    assert!(!is_valid_frame_for_version("ZZZZ", 3));
}

#[test]
fn chapter_frames_valid_for_both_versions() {
    assert!(is_valid_frame_for_version("CHAP", 3));
    assert!(is_valid_frame_for_version("CHAP", 4));
    assert!(is_valid_frame_for_version("CTOC", 3));
    assert!(is_valid_frame_for_version("CTOC", 4));
}

#[test]
fn frame_descriptions_name_known_ids() {
    assert_eq!(get_frame_description("TIT2"), "Title/songname/content description");
    assert_eq!(get_frame_description("APIC"), "Attached picture");
    assert_eq!(get_frame_description("ZZZZ"), "Unknown frame type");
}

#[test]
fn detects_id3v2_versions_and_mpeg_sync() {
    let header = [0x49, 0x44, 0x33, 4, 0, 0, 0, 0, 0, 0];
    assert_eq!(detect_id3v2_version(&header), Some((4, 0)));
    assert_eq!(detect_id3v2_version(&[0x49, 0x44, 0x34, 4, 0]), None);
    assert!(detect_mpeg_sync(&[0xFF, 0xFB]));
    assert!(!detect_mpeg_sync(&[0xFF, 0x1B]));
    assert!(!detect_mpeg_sync(&[0xFE, 0xFB]));
}

#[test]
fn parses_outer_header() {
    let header = [0x49, 0x44, 0x33, 3, 0, 0x40, 0, 0, 0x02, 0x01];
    let (major, minor, flags, size) = parse_id3v2_header(&header).unwrap();
    assert_eq!(major, 3);
    assert_eq!(minor, 0);
    assert_eq!(flags, 0x40);
    assert_eq!(size, 0x101);
    assert_eq!(parse_id3v2_header(&[0x49, 0x44, 0x33, 3, 0]), None);
    assert_eq!(parse_id3v2_header(&[0, 0, 0, 0, 0, 0, 0, 0, 0, 0]), None);
}

fn tit2_hello_v4() -> Vec<u8> {
    let mut body = Vec::new();
    body.extend_from_slice(b"TIT2");
    body.extend_from_slice(&[0, 0, 0, 6]); // synchsafe size 6
    body.extend_from_slice(&[0, 0]); // flags
    body.push(0); // ISO-8859-1
    body.extend_from_slice(b"Hello");
    body
}

#[test]
fn scenario_tit2_hello_decodes_as_text() {
    let body = tit2_hello_v4();
    let tag = dissect_id3v2_4(&body, 0, 0, body.len() as u32).unwrap();
    assert_eq!(tag.version_major, 4);
    assert_eq!(tag.frames.len(), 1);
    let frame = &tag.frames[0];
    assert_eq!(frame.id, "TIT2");
    assert_eq!(frame.size, 6);
    assert_eq!(frame.get_text(), Some("Hello"));
    match &frame.content {
        Some(Id3v2FrameContent::Text(tf)) => {
            assert_eq!(tf.primary_text(), "Hello");
            assert_eq!(tf.strings, vec!["Hello".to_string()]);
        }
        other => panic!("expected text content, got {:?}", other),
    }
}

#[test]
fn scenario_oversized_frame_halts_iteration() {
    let mut body = tit2_hello_v4();
    body.extend_from_slice(b"TALB");
    body.extend_from_slice(&[0x0F, 0x7F, 0x7F, 0x7F]); // size far past the buffer
    body.extend_from_slice(&[0, 0]);
    let tag = dissect_id3v2_4(&body, 0, 0, body.len() as u32).unwrap();
    assert_eq!(tag.frames.len(), 1);
    assert_eq!(tag.frames[0].id, "TIT2");
}

#[test]
fn invalid_id_is_skipped_by_declared_size() {
    // TDRC is not valid in v2.3: the whole record is skipped and the
    // following frame still parses
    let mut body = Vec::new();
    body.extend_from_slice(b"TDRC");
    body.extend_from_slice(&[0, 0, 0, 2]);
    body.extend_from_slice(&[0, 0]);
    body.extend_from_slice(&[0x00, 0x41]);
    body.extend_from_slice(b"TIT2");
    body.extend_from_slice(&[0, 0, 0, 3]); // v2.3 plain big-endian size
    body.extend_from_slice(&[0, 0]);
    body.push(0);
    body.extend_from_slice(b"Hi");
    let tag = dissect_id3v2_3(&body, 0, 0, body.len() as u32).unwrap();
    assert_eq!(tag.frames.len(), 1);
    assert_eq!(tag.frames[0].id, "TIT2");
    assert_eq!(tag.frames[0].get_text(), Some("Hi"));
}

#[test]
fn padding_stops_iteration() {
    let mut body = tit2_hello_v4();
    body.extend_from_slice(&[0u8; 20]);
    let tag = dissect_id3v2_4(&body, 0, 0, body.len() as u32).unwrap();
    assert_eq!(tag.frames.len(), 1);
}

#[test]
fn zero_size_frame_skips_header_only() {
    let mut body = Vec::new();
    body.extend_from_slice(b"TALB");
    body.extend_from_slice(&[0, 0, 0, 0]);
    body.extend_from_slice(&[0, 0]);
    body.extend_from_slice(&tit2_hello_v4());
    let tag = dissect_id3v2_4(&body, 0, 0, body.len() as u32).unwrap();
    assert_eq!(tag.frames.len(), 1);
    assert_eq!(tag.frames[0].id, "TIT2");
}

#[test]
fn unsynchronized_tag_decodes_after_removal() {
    // the same TIT2 frame, with 0xFF 0x00 inserted in the middle via an
    // unsynchronized byte stream: 0xFF byte in the text
    let mut body = Vec::new();
    body.extend_from_slice(b"TIT2");
    body.extend_from_slice(&[0, 0, 0, 3]);
    body.extend_from_slice(&[0, 0]);
    body.push(0);
    body.extend_from_slice(&[0xFF, 0x41]); // text bytes 0xFF 'A'
    // unsynchronized on the wire: 0xFF gets a 0x00 stuffed after it
    let mut wire = Vec::new();
    for &b in &body {
        wire.push(b);
        if b == 0xFF {
            wire.push(0);
        }
    }
    let tag = dissect_id3v2_4(&wire, 0, 0x80, wire.len() as u32).unwrap();
    assert_eq!(tag.frames.len(), 1);
    assert_eq!(tag.frames[0].get_text(), Some("\u{FF}A"));
}

#[test]
fn extended_header_shifts_frame_start() {
    // v2.3 extended header: plain big-endian size 6, then the frame
    let mut body = Vec::new();
    body.extend_from_slice(&[0, 0, 0, 6]);
    body.extend_from_slice(&[0u8; 6]);
    body.extend_from_slice(b"TIT2");
    body.extend_from_slice(&[0, 0, 0, 3]);
    body.extend_from_slice(&[0, 0]);
    body.push(0);
    body.extend_from_slice(b"Hi");
    let tag = dissect_id3v2_3(&body, 0, 0x40, body.len() as u32).unwrap();
    assert_eq!(tag.frames.len(), 1);
    assert_eq!(tag.frames[0].get_text(), Some("Hi"));
}

#[test]
fn extended_header_overrun_is_fatal() {
    let body = [0, 0, 1, 0, 0, 0];
    assert_eq!(dissect_id3v2_3(&body, 0, 0x40, body.len() as u32).unwrap_err(), ParseError::SizeExceedsBuffer);
    let tiny = [0, 0];
    assert_eq!(dissect_id3v2_4(&tiny, 0, 0x40, 2).unwrap_err(), ParseError::TooShort);
}

#[test]
fn parse_single_frames_at_position() {
    let body = tit2_hello_v4();
    let frame = parse_id3v2_4_frame(&body, 0).unwrap();
    assert_eq!(frame.id, "TIT2");
    assert_eq!(frame.offset, Some(0));
    assert_eq!(frame.data, vec![0, b'H', b'e', b'l', b'l', b'o']);
    assert!(parse_id3v2_4_frame(&body, 3).is_none());
    // the same bytes under v2.3 size rules: plain big-endian 6 works too
    let mut v3 = Vec::new();
    v3.extend_from_slice(b"TIT2");
    v3.extend_from_slice(&[0, 0, 0, 6]);
    v3.extend_from_slice(&[0, 0]);
    v3.push(0);
    v3.extend_from_slice(b"Hello");
    let frame3 = parse_id3v2_3_frame(&v3, 0).unwrap();
    assert_eq!(frame3.get_text(), Some("Hello"));
}

#[test]
fn dissector_labels_and_probes() {
    let v3 = Id3v23Dissector;
    let v4 = Id3v24Dissector;
    assert_eq!(v3.media_type(), "ID3v2.3");
    assert_eq!(v3.name(), "ID3v2.3 Dissector");
    assert_eq!(v4.media_type(), "ID3v2.4");
    assert_eq!(v4.name(), "ID3v2.4 Dissector");
    let h3 = [0x49, 0x44, 0x33, 3, 0, 0, 0, 0, 0, 0, 0, 0];
    let h4 = [0x49, 0x44, 0x33, 4, 0, 0, 0, 0, 0, 0, 0, 0];
    assert!(v3.can_handle(&h3));
    assert!(!v3.can_handle(&h4));
    assert!(v4.can_handle(&h4));
    assert!(!v4.can_handle(&h3));
    // MPEG sync heuristic belongs to v2.3 only
    let sync = [0xFF, 0xFB, 0, 0, 0, 0, 0, 0, 0, 0, 0, 0];
    assert!(v3.can_handle(&sync));
    assert!(!v4.can_handle(&sync));
}

#[test]
fn url_frame_is_latin1() {
    let f = UrlFrame::parse(b"http://x/\xE9").unwrap();
    assert_eq!(f.url, "http://x/\u{E9}");
}

#[test]
fn user_text_frame_splits_description_and_value() {
    let mut data = vec![0u8];
    data.extend_from_slice(b"desc\0value");
    let f = UserTextFrame::parse(&data).unwrap();
    assert_eq!(f.description, "desc");
    assert_eq!(f.value, "value");
    assert_eq!(UserTextFrame::parse(&[]).unwrap_err(), ParseError::TooShort);
    assert_eq!(UserTextFrame::parse(&[9, 0]).unwrap_err(), ParseError::UnknownEncoding);
}

#[test]
fn user_url_frame_url_is_latin1() {
    let mut data = vec![0u8];
    data.extend_from_slice(b"home\0http://x");
    let f = UserUrlFrame::parse(&data).unwrap();
    assert_eq!(f.description, "home");
    assert_eq!(f.url, "http://x");
}

#[test]
fn comment_frame_carries_language() {
    let mut data = vec![0u8];
    data.extend_from_slice(b"eng");
    data.extend_from_slice(b"note\0the text");
    let f = CommentFrame::parse(&data).unwrap();
    assert_eq!(f.language, "eng");
    assert_eq!(f.description, "note");
    assert_eq!(f.text, "the text");
    assert_eq!(CommentFrame::parse(&[0, 1, 2]).unwrap_err(), ParseError::TooShort);
}

#[test]
fn unique_file_id_frame_splits_owner() {
    let mut data = Vec::new();
    data.extend_from_slice(b"owner\0");
    data.extend_from_slice(&[1, 2, 3]);
    let f = UniqueFileIdFrame::parse(&data).unwrap();
    assert_eq!(f.owner_identifier, "owner");
    assert_eq!(f.identifier, vec![1, 2, 3]);
    assert_eq!(UniqueFileIdFrame::parse(b"no terminator").unwrap_err(), ParseError::MissingTerminator);
    let mut long = Vec::new();
    long.extend_from_slice(b"o\0");
    long.extend_from_slice(&[0u8; 65]);
    assert_eq!(UniqueFileIdFrame::parse(&long).unwrap_err(), ParseError::IdentifierTooLong);
}

#[test]
fn attached_picture_frame_decodes_fields() {
    let mut data = vec![0u8];
    data.extend_from_slice(b"image/png\0");
    data.push(3); // cover (front)
    data.extend_from_slice(b"art\0");
    data.extend_from_slice(&[0x89, 0x50, 0x4E, 0x47]);
    let f = AttachedPictureFrame::parse(&data).unwrap();
    assert_eq!(f.mime_type, "image/png");
    assert_eq!(f.picture_type, 3);
    assert_eq!(f.description, "art");
    assert_eq!(f.picture_data, vec![0x89, 0x50, 0x4E, 0x47]);
    assert_eq!(f.picture_type_description(), "Cover (front)");
    assert_eq!(AttachedPictureFrame::parse(&[0, b'x']).unwrap_err(), ParseError::MissingTerminator);
}

#[test]
fn chapter_frame_decodes_times_and_sub_frames() {
    let mut data = Vec::new();
    data.extend_from_slice(b"chp1\0");
    data.extend_from_slice(&[0, 0, 0, 100]); // start ms
    data.extend_from_slice(&[0, 0, 1, 44]); // end ms = 300
    data.extend_from_slice(&[0xFF, 0xFF, 0xFF, 0xFF]);
    data.extend_from_slice(&[0xFF, 0xFF, 0xFF, 0xFF]);
    // one embedded TIT2 sub-frame
    data.extend_from_slice(b"TIT2");
    data.extend_from_slice(&[0, 0, 0, 3]);
    data.extend_from_slice(&[0, 0]);
    data.push(0);
    data.extend_from_slice(b"Ch");
    let f = ChapterFrame::parse(&data, 4).unwrap();
    assert_eq!(f.element_id, "chp1");
    assert_eq!(f.start_time, 100);
    assert_eq!(f.end_time, 300);
    assert!(!f.has_byte_offsets());
    assert_eq!(f.duration(), 200);
    assert_eq!(f.sub_frames.len(), 1);
    assert_eq!(f.sub_frames[0].id, "TIT2");
    assert_eq!(f.sub_frames[0].get_text(), Some("Ch"));
    assert_eq!(ChapterFrame::parse(&[], 4).unwrap_err(), ParseError::TooShort);
    assert_eq!(ChapterFrame::parse(b"x\0\0\0", 4).unwrap_err(), ParseError::TooShort);
}

#[test]
fn chapter_duration_saturates() {
    let mut data = Vec::new();
    data.extend_from_slice(b"c\0");
    data.extend_from_slice(&[0, 0, 1, 0]); // start 256
    data.extend_from_slice(&[0, 0, 0, 1]); // end 1
    data.extend_from_slice(&[0, 0, 0, 0]);
    data.extend_from_slice(&[0, 0, 0, 9]);
    let f = ChapterFrame::parse(&data, 4).unwrap();
    assert_eq!(f.duration(), 0);
    assert!(f.has_byte_offsets());
}

#[test]
fn table_of_contents_frame_decodes_children() {
    let mut data = Vec::new();
    data.extend_from_slice(b"toc\0");
    data.push(0x03); // ordered + top-level
    data.push(2); // two child ids
    data.extend_from_slice(b"chp1\0chp2\0");
    let f = TableOfContentsFrame::parse(&data, 4).unwrap();
    assert_eq!(f.element_id, "toc");
    assert!(f.top_level);
    assert!(f.ordered);
    assert_eq!(f.child_count(), 2);
    assert_eq!(f.child_element_ids, vec!["chp1".to_string(), "chp2".to_string()]);
    assert!(!f.has_sub_frames());
    // an unterminated child id is an error
    let mut bad = Vec::new();
    bad.extend_from_slice(b"toc\0");
    bad.push(0);
    bad.push(1);
    bad.extend_from_slice(b"chp1");
    assert_eq!(TableOfContentsFrame::parse(&bad, 4).unwrap_err(), ParseError::MissingTerminator);
}

#[test]
fn frame_content_degrades_on_bad_payload() {
    // a TIT2 frame whose payload names an unknown encoding: the frame
    // survives with raw data and no typed content
    let mut body = Vec::new();
    body.extend_from_slice(b"TIT2");
    body.extend_from_slice(&[0, 0, 0, 2]);
    body.extend_from_slice(&[0, 0]);
    body.extend_from_slice(&[9, 0x41]);
    let tag = dissect_id3v2_4(&body, 0, 0, body.len() as u32).unwrap();
    assert_eq!(tag.frames.len(), 1);
    assert!(tag.frames[0].content.is_none());
    assert_eq!(tag.frames[0].data, vec![9, 0x41]);
}

#[test]
fn utf16be_text_rejected_for_v3() {
    let mut frame = Id3v2Frame::new_with_offset(
        "TIT2".to_string(),
        3,
        0,
        0,
        vec![2, 0x00, 0x41],
    );
    assert_eq!(frame.parse_content(3).unwrap_err(), ParseError::EncodingNotAllowed);
    assert!(frame.content.is_none());
    let mut frame4 = Id3v2Frame::new_with_offset(
        "TIT2".to_string(),
        3,
        0,
        0,
        vec![2, 0x00, 0x41],
    );
    assert_eq!(frame4.parse_content(4), Ok(()));
    assert_eq!(frame4.get_text(), Some("A"));
}

#[test]
fn get_url_reads_url_frames() {
    let mut frame = Id3v2Frame::new_with_offset(
        "WOAF".to_string(),
        8,
        0,
        0,
        b"http://x".to_vec(),
    );
    frame.parse_content(4).unwrap();
    assert_eq!(frame.get_url(), Some("http://x"));
    assert_eq!(frame.get_text(), None);
}

#[test]
fn chapter_inside_tag_decodes_end_to_end() {
    let mut chap_payload = Vec::new();
    chap_payload.extend_from_slice(b"ch1\0");
    chap_payload.extend_from_slice(&[0, 0, 0, 0]);
    chap_payload.extend_from_slice(&[0, 0, 0, 100]);
    chap_payload.extend_from_slice(&[0xFF, 0xFF, 0xFF, 0xFF]);
    chap_payload.extend_from_slice(&[0xFF, 0xFF, 0xFF, 0xFF]);
    chap_payload.extend_from_slice(b"TIT2");
    chap_payload.extend_from_slice(&[0, 0, 0, 6]);
    chap_payload.extend_from_slice(&[0, 0]);
    chap_payload.push(0);
    chap_payload.extend_from_slice(b"Intro");
    let mut body = Vec::new();
    body.extend_from_slice(b"CHAP");
    body.extend_from_slice(&[0, 0, (chap_payload.len() / 128) as u8, (chap_payload.len() % 128) as u8]);
    body.extend_from_slice(&[0, 0]);
    body.extend_from_slice(&chap_payload);
    let tag = dissect_id3v2_4(&body, 0, 0, body.len() as u32).unwrap();
    assert_eq!(tag.frames.len(), 1);
    match &tag.frames[0].content {
        Some(Id3v2FrameContent::Chapter(cf)) => {
            assert_eq!(cf.element_id, "ch1");
            assert_eq!(cf.duration(), 100);
            assert_eq!(cf.sub_frames.len(), 1);
            assert_eq!(cf.sub_frames[0].get_text(), Some("Intro"));
        }
        other => panic!("expected chapter content, got {:?}", other),
    }
}

#[test]
fn v4_extended_header_uses_synchsafe_size() {
    // synchsafe extended size 6: frames begin at offset 10
    let mut body = Vec::new();
    body.extend_from_slice(&[0, 0, 0, 6]);
    body.extend_from_slice(&[0u8; 6]);
    body.extend_from_slice(b"TIT2");
    body.extend_from_slice(&[0, 0, 0, 3]);
    body.extend_from_slice(&[0, 0]);
    body.push(0);
    body.extend_from_slice(b"Hi");
    let tag = dissect_id3v2_4(&body, 0, 0x40, body.len() as u32).unwrap();
    assert_eq!(tag.frames.len(), 1);
    assert_eq!(tag.frames[0].get_text(), Some("Hi"));
}

#[test]
fn timestamps_render_with_padding() {
    assert_eq!(format_timestamp(0), "00:00:00.000");
    assert_eq!(format_timestamp(3_723_456), "01:02:03.456");
    assert_eq!(format_timestamp(59_999), "00:00:59.999");
    // hours wider than two digits keep all their digits
    assert_eq!(format_timestamp(4_294_967_295), "1193:02:47.295");
}

#[test]
fn error_labels_are_nonempty() {
    assert!(!ParseError::TooShort.label().is_empty());
    assert!(!ParseError::DepthExceeded.label().is_empty());
}
