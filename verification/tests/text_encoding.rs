//! The text-encoding subsystem: encoding bytes, terminators and the four
//! decoders.

use the_drill::error::ParseError;
use the_drill::id3v2_text_encoding::{
    decode_iso88591_string, decode_text_with_encoding, decode_text_with_encoding_simple,
    decode_utf16_string, find_text_terminator, get_terminator_length, is_null_terminator,
    split_terminated_text, TextEncoding,
};
use the_drill::id3v2_text_frame::TextFrame;

#[test]
fn encoding_bytes_round_trip() {
    assert_eq!(TextEncoding::from_byte(0), Ok(TextEncoding::Iso88591));
    assert_eq!(TextEncoding::from_byte(1), Ok(TextEncoding::Utf16Bom));
    assert_eq!(TextEncoding::from_byte(2), Ok(TextEncoding::Utf16Be));
    assert_eq!(TextEncoding::from_byte(3), Ok(TextEncoding::Utf8));
    assert_eq!(TextEncoding::from_byte(4).unwrap_err(), ParseError::UnknownEncoding);
}

#[test]
fn encoding_validity_per_version() {
    assert!(TextEncoding::Iso88591.is_valid_for_version(3));
    assert!(TextEncoding::Utf16Bom.is_valid_for_version(3));
    assert!(!TextEncoding::Utf16Be.is_valid_for_version(3));
    assert!(!TextEncoding::Utf8.is_valid_for_version(3));
    assert!(TextEncoding::Utf16Be.is_valid_for_version(4));
    assert!(TextEncoding::Utf8.is_valid_for_version(4));
}

#[test]
fn terminator_lengths_and_checks() {
    assert_eq!(get_terminator_length(TextEncoding::Iso88591), 1);
    assert_eq!(get_terminator_length(TextEncoding::Utf8), 1);
    assert_eq!(get_terminator_length(TextEncoding::Utf16Bom), 2);
    assert_eq!(get_terminator_length(TextEncoding::Utf16Be), 2);
    assert!(is_null_terminator(&[0], TextEncoding::Iso88591));
    assert!(!is_null_terminator(&[1], TextEncoding::Iso88591));
    assert!(is_null_terminator(&[0, 0], TextEncoding::Utf16Be));
    assert!(!is_null_terminator(&[0], TextEncoding::Utf16Be));
    assert!(!is_null_terminator(&[0, 1], TextEncoding::Utf16Be));
}

#[test]
fn latin1_decodes_every_byte() {
    assert_eq!(decode_iso88591_string(b"caf\xE9"), "caf\u{E9}");
    assert_eq!(decode_iso88591_string(&[]), "");
}

#[test]
fn utf8_decodes_lossily() {
    let s = decode_text_with_encoding_simple(b"ok\xFF", TextEncoding::Utf8).unwrap();
    assert_eq!(s, "ok\u{FFFD}");
    let good = decode_text_with_encoding_simple("héllo".as_bytes(), TextEncoding::Utf8).unwrap();
    assert_eq!(good, "héllo");
}

#[test]
fn utf16_bom_selects_byte_order() {
    let le = decode_utf16_string(&[0xFF, 0xFE, 0x48, 0x00], TextEncoding::Utf16Bom).unwrap();
    assert_eq!(le, "H");
    let be = decode_utf16_string(&[0xFE, 0xFF, 0x00, 0x48], TextEncoding::Utf16Bom).unwrap();
    assert_eq!(be, "H");
    // no byte-order mark: big-endian assumed
    let plain = decode_utf16_string(&[0x00, 0x48], TextEncoding::Utf16Bom).unwrap();
    assert_eq!(plain, "H");
    let be_only = decode_utf16_string(&[0x00, 0x48, 0x00, 0x69], TextEncoding::Utf16Be).unwrap();
    assert_eq!(be_only, "Hi");
}

#[test]
fn utf16_error_cases() {
    assert_eq!(decode_utf16_string(&[0x00, 0x48, 0x00], TextEncoding::Utf16Be).unwrap_err(), ParseError::OddUtf16Length);
    // a lone high surrogate is not well-formed UTF-16
    assert_eq!(decode_utf16_string(&[0xD8, 0x00], TextEncoding::Utf16Be).unwrap_err(), ParseError::InvalidUtf16);
    assert_eq!(decode_utf16_string(&[0x00], TextEncoding::Iso88591).unwrap_err(), ParseError::WrongEncoding);
    assert_eq!(decode_utf16_string(&[], TextEncoding::Utf16Be), Ok(String::new()));
}

#[test]
fn utf16_surrogate_pair_decodes() {
    // U+1D11E as a surrogate pair
    let s = decode_utf16_string(&[0xD8, 0x34, 0xDD, 0x1E], TextEncoding::Utf16Be).unwrap();
    assert_eq!(s, "\u{1D11E}");
}

#[test]
fn find_terminator_splits() {
    let (a, b) = find_text_terminator(b"ab\0cd", TextEncoding::Iso88591).unwrap();
    assert_eq!(a, b"ab");
    assert_eq!(b, b"cd");
    let (a, b) = find_text_terminator(b"abcd", TextEncoding::Iso88591).unwrap();
    assert_eq!(a, b"abcd");
    assert_eq!(b, b"");
    let (a, b) =
        find_text_terminator(&[0x00, 0x41, 0x00, 0x00, 0x42], TextEncoding::Utf16Be).unwrap();
    // the one-byte scan finds the first aligned-or-not 0x00 0x00 pair
    assert_eq!(a, &[0x00, 0x41][..]);
    assert_eq!(b, &[0x42][..]);
}

#[test]
fn split_terminated_decodes_both_parts() {
    let (first, second) = split_terminated_text(b"one\0two", TextEncoding::Iso88591).unwrap();
    assert_eq!(first, "one");
    assert_eq!(second, "two");
    let (first, second) = split_terminated_text(b"alone", TextEncoding::Iso88591).unwrap();
    assert_eq!(first, "alone");
    assert_eq!(second, "");
}

#[test]
fn multi_string_payloads_split_on_nulls() {
    let (primary, strings) =
        decode_text_with_encoding(b"one\0two\0three", TextEncoding::Iso88591).unwrap();
    assert_eq!(primary, "one");
    assert_eq!(
        strings,
        vec!["one".to_string(), "two".to_string(), "three".to_string()]
    );
    // empty pieces are dropped
    let (primary, strings) =
        decode_text_with_encoding(b"\0only\0", TextEncoding::Iso88591).unwrap();
    assert_eq!(primary, "only");
    assert_eq!(strings, vec!["only".to_string()]);
    let (primary, strings) = decode_text_with_encoding(b"", TextEncoding::Iso88591).unwrap();
    assert_eq!(primary, "");
    assert!(strings.is_empty());
}

#[test]
fn utf16_multi_string_stays_aligned() {
    // "A" NUL "B" in UTF-16BE: the scan steps two bytes at a time
    let data = [0x00, 0x41, 0x00, 0x00, 0x00, 0x42];
    let (primary, strings) = decode_text_with_encoding(&data, TextEncoding::Utf16Be).unwrap();
    assert_eq!(primary, "A");
    assert_eq!(strings, vec!["A".to_string(), "B".to_string()]);
}

#[test]
fn text_frame_rejects_bad_payloads() {
    assert_eq!(TextFrame::parse(&[]).unwrap_err(), ParseError::TooShort);
    assert_eq!(TextFrame::parse(&[0]).unwrap_err(), ParseError::TooShort);
    assert_eq!(TextFrame::parse(&[7, 0x41]).unwrap_err(), ParseError::UnknownEncoding);
    // an invalid UTF-16 payload (a lone surrogate) propagates the
    // decoder's error
    assert_eq!(TextFrame::parse(&[2, 0xD8, 0x00]).unwrap_err(), ParseError::InvalidUtf16);
}

#[test]
fn text_frame_multi_string() {
    let mut data = vec![0u8];
    data.extend_from_slice(b"one\0two");
    let tf = TextFrame::parse(&data).unwrap();
    assert_eq!(tf.encoding, TextEncoding::Iso88591);
    assert_eq!(tf.primary_text(), "one");
    assert_eq!(tf.strings, vec!["one".to_string(), "two".to_string()]);
}
