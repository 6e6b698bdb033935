//! The format dispatcher and the output options.

use the_drill::dissector_builder::{DissectorBuilder, MediaFormat};
use the_drill::options::DissectOptions;
use the_drill::unknown_dissector::UnknownDissector;

#[test]
fn dispatcher_selects_first_match() {
    let builder = DissectorBuilder::new();
    let h3 = [0x49, 0x44, 0x33, 3, 0, 0, 0, 0, 0, 0, 0, 0];
    let h4 = [0x49, 0x44, 0x33, 4, 0, 0, 0, 0, 0, 0, 0, 0];
    let mut isobmff = Vec::new();
    isobmff.extend_from_slice(&[0, 0, 0, 24]);
    isobmff.extend_from_slice(b"ftyp");
    isobmff.extend_from_slice(b"M4A ");
    assert_eq!(builder.build_for_header(&h3), MediaFormat::Id3v23);
    assert_eq!(builder.build_for_header(&h4), MediaFormat::Id3v24);
    assert_eq!(builder.build_for_header(&isobmff), MediaFormat::Isobmff);
    assert_eq!(builder.build_for_header(&[0u8; 12]), MediaFormat::Unknown);
    // the MPEG-sync heuristic routes bare audio to the v2.3 dissector
    let sync = [0xFF, 0xFB, 0, 0, 0, 0, 0, 0, 0, 0, 0, 0];
    assert_eq!(builder.build_for_header(&sync), MediaFormat::Id3v23);
}

#[test]
fn unknown_dissector_accepts_everything() {
    let u = UnknownDissector;
    assert!(u.can_handle(&[]));
    assert!(u.can_handle(&[1, 2, 3]));
    assert_eq!(u.media_type(), "Unknown");
    assert_eq!(u.name(), "Unknown Format Dissector");
}

#[test]
fn options_default_to_everything() {
    let o = DissectOptions::from_flags(false, false, false, false, false);
    assert!(o.show_header && o.show_data);
    assert!(!o.show_verbose && !o.show_dump);
}

#[test]
fn options_all_overrides_specific_flags() {
    let o = DissectOptions::from_flags(true, false, true, true, false);
    assert!(o.show_header && o.show_data && o.show_verbose);
}

#[test]
fn options_specific_flags_apply() {
    let o = DissectOptions::from_flags(true, false, false, false, true);
    assert!(o.show_header);
    assert!(!o.show_data);
    assert!(o.show_dump);
    let o2 = DissectOptions::from_flags(false, true, false, false, false);
    assert!(!o2.show_header);
    assert!(o2.show_data);
}
