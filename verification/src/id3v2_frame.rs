//! The ID3v2 frame model and the frame-iteration algorithm.
//!
//! A frame is a 10-byte header (4-byte id, 4-byte size — synchsafe for
//! v2.4, plain big-endian for v2.3 — and 2 flag bytes) followed by its
//! payload. Iteration walks a buffer frame by frame: padding stops it, an
//! id outside the version's allow-list is skipped (by its declared size
//! when that fits, else by one byte), a zero size skips the header alone,
//! and a size overrunning the buffer halts iteration for good.

use vstd::prelude::*;

use crate::bytes::read_be_u16;
use crate::bytes::read_be_u32;
use crate::bytes::spec_be16_at;
use crate::bytes::spec_be32_at;
use crate::error::ParseError;
use crate::id3v2_attached_picture_frame::AttachedPictureFrame;
use crate::id3v2_attached_picture_frame::spec_picture_frame_error;
use crate::id3v2_attached_picture_frame::spec_picture_frame_ok;
use crate::id3v2_chapter_frame::ChapterFrame;
use crate::id3v2_chapter_frame::spec_chapter_frame_error;
use crate::id3v2_chapter_frame::spec_chapter_frame_ok;
use crate::id3v2_comment_frame::CommentFrame;
use crate::id3v2_comment_frame::spec_comment_frame_error;
use crate::id3v2_comment_frame::spec_comment_frame_ok;
use crate::id3v2_table_of_contents_frame::TableOfContentsFrame;
use crate::id3v2_table_of_contents_frame::spec_toc_frame_error;
use crate::id3v2_table_of_contents_frame::spec_toc_frame_ok;
use crate::id3v2_text_encoding::spec_encoding_from_byte;
use crate::id3v2_text_frame::TextFrame;
use crate::id3v2_text_frame::spec_text_frame_error;
use crate::id3v2_text_frame::spec_text_frame_ok;
use crate::id3v2_tools::decode_synchsafe_int;
use crate::id3v2_tools::is_valid_frame_for_version;
use crate::id3v2_tools::spec_is_valid_frame_for_version;
use crate::id3v2_tools::spec_synchsafe_int;
use crate::id3v2_unique_file_id_frame::UniqueFileIdFrame;
use crate::id3v2_unique_file_id_frame::spec_ufid_frame_error;
use crate::id3v2_unique_file_id_frame::spec_ufid_frame_ok;
use crate::id3v2_url_frame::UrlFrame;
use crate::id3v2_user_text_frame::UserTextFrame;
use crate::id3v2_user_text_frame::spec_user_text_frame_error;
use crate::id3v2_user_text_frame::spec_user_text_frame_ok;
use crate::id3v2_user_url_frame::UserUrlFrame;
use crate::id3v2_user_url_frame::spec_user_url_frame_error;
use crate::id3v2_user_url_frame::spec_user_url_frame_ok;
use crate::strutil::latin1_chars;
use crate::strutil::latin1_decode;
use crate::strutil::str_eq;
use crate::strutil::sub_bytes;
use vstd::string::StrSliceExecFns;

verus! {

/// Parsed content of an ID3v2 frame.
#[derive(Debug)]
pub enum Id3v2FrameContent {
    /// Text information frame (`T***` except `TXXX`).
    Text(TextFrame),
    /// URL link frame (`W***` except `WXXX`).
    Url(UrlFrame),
    /// User-defined text frame (`TXXX`).
    UserText(UserTextFrame),
    /// User-defined URL frame (`WXXX`).
    UserUrl(UserUrlFrame),
    /// Comment frame (`COMM`, `USLT`).
    Comment(CommentFrame),
    /// Attached picture frame (`APIC`).
    Picture(AttachedPictureFrame),
    /// Unique file identifier (`UFID`).
    UniqueFileId(UniqueFileIdFrame),
    /// Chapter frame (`CHAP`).
    Chapter(ChapterFrame),
    /// Table of contents frame (`CTOC`).
    TableOfContents(TableOfContentsFrame),
    /// Raw binary data for unsupported or unknown frames.
    Binary,
}

/// ID3v2 frame representation for all versions.
#[derive(Debug)]
pub struct Id3v2Frame {
    /// Four-character frame identifier (e.g. `TIT2`, `TPE1`, `TALB`).
    pub id: String,
    /// Size of the frame data, excluding the header.
    pub size: u32,
    /// Frame flags (their meaning varies by ID3v2 version).
    pub flags: u16,
    /// Frame offset within the buffer it was parsed from.
    pub offset: Option<usize>,
    /// Raw frame data content.
    pub data: Vec<u8>,
    /// Parsed frame content, when the typed decode succeeded.
    pub content: Option<Id3v2FrameContent>,
    /// Embedded sub-frames; the typed chapter content owns them instead,
    /// so this stays empty.
    pub embedded_frames: Option<Vec<Id3v2Frame>>,
}

/// The header fields and payload of one frame as the scan sees it.
pub struct FrameInfo {
    /// The four raw id bytes.
    pub id: Seq<u8>,
    pub size: u32,
    pub flags: u16,
    pub offset: int,
    pub data: Seq<u8>,
}

/// An ASCII digit or letter.
pub open spec fn spec_alnum_byte(b: u8) -> bool {
    (0x30 <= b <= 0x39) || (0x41 <= b <= 0x5A) || (0x61 <= b <= 0x7A)
}

/// Four bytes that form a frame id: all ASCII alphanumeric. Padding (a
/// leading zero byte) and garbage both fail this.
pub open spec fn spec_id_alnum(id: Seq<u8>) -> bool {
    id.len() == 4 && spec_alnum_byte(id[0]) && spec_alnum_byte(id[1]) && spec_alnum_byte(id[2])
        && spec_alnum_byte(id[3])
}

fn alnum_byte(b: u8) -> (r: bool)
    ensures
        r == spec_alnum_byte(b),
{
    (0x30 <= b && b <= 0x39) || (0x41 <= b && b <= 0x5A) || (0x61 <= b && b <= 0x7A)
}

/// Check the four id bytes at `pos`.
fn frame_id_alnum_at(buf: &[u8], pos: usize) -> (r: bool)
    requires
        pos + 4 <= buf@.len(),
    ensures
        r == spec_id_alnum(buf@.subrange(pos as int, pos + 4)),
{
    let r = alnum_byte(buf[pos]) && alnum_byte(buf[pos + 1]) && alnum_byte(buf[pos + 2])
        && alnum_byte(buf[pos + 3]);
    proof {
        let idb = buf@.subrange(pos as int, pos + 4);
        assert(idb.len() == 4);
        assert(idb[0] == buf@[pos as int]);
        assert(idb[1] == buf@[pos as int + 1]);
        assert(idb[2] == buf@[pos as int + 2]);
        assert(idb[3] == buf@[pos as int + 3]);
    }
    r
}

/// The declared frame size at `pos`: synchsafe for v2.4, plain big-endian
/// for v2.3.
pub open spec fn spec_frame_size_at(buf: Seq<u8>, pos: int, version_major: u8) -> int {
    if version_major == 4 {
        spec_synchsafe_int(buf.subrange(pos + 4, pos + 8))
    } else {
        spec_be32_at(buf, pos + 4)
    }
}

/// Read the declared frame size at `pos` for a version.
fn read_frame_size(buf: &[u8], pos: usize, version_major: u8) -> (r: u32)
    requires
        pos + 10 <= buf@.len(),
    ensures
        r == spec_frame_size_at(buf@, pos as int, version_major),
{
    let n: usize = buf.len();
    proof {
        assert(pos + 8 <= n);
    }
    if version_major == 4 {
        decode_synchsafe_int(&buf[pos + 4..pos + 8])
    } else {
        read_be_u32(buf, pos + 4)
    }
}

/// A frame id that names a text information frame.
pub open spec fn spec_is_text_frame_id(id: Seq<char>) -> bool {
    id.len() > 0 && id[0] == 'T' && id != "TXXX"@
}

/// A frame id that names a URL link frame.
pub open spec fn spec_is_url_frame_id(id: Seq<char>) -> bool {
    id.len() > 0 && id[0] == 'W' && id != "WXXX"@
}

/// Why the typed decode of a frame's content fails, if it does. A frame
/// id outside the version's allow-list never fails: it degrades to
/// `Binary`. An encoding that the tag's version does not know is rejected
/// after the payload itself decodes.
pub open spec fn spec_content_error(id: Seq<char>, data: Seq<u8>, version_major: u8) -> Option<
    ParseError,
> {
    if !spec_is_valid_frame_for_version(id, version_major) {
        None
    } else if spec_is_text_frame_id(id) {
        match spec_text_frame_error(data) {
            Some(e) => Some(e),
            None => if !spec_encoding_from_byte(data[0]).unwrap().spec_valid_for_version(
                version_major,
            ) {
                Some(ParseError::EncodingNotAllowed)
            } else {
                None
            },
        }
    } else if spec_is_url_frame_id(id) {
        None
    } else if id == "TXXX"@ {
        match spec_user_text_frame_error(data) {
            Some(e) => Some(e),
            None => if !spec_encoding_from_byte(data[0]).unwrap().spec_valid_for_version(
                version_major,
            ) {
                Some(ParseError::EncodingNotAllowed)
            } else {
                None
            },
        }
    } else if id == "WXXX"@ {
        match spec_user_url_frame_error(data) {
            Some(e) => Some(e),
            None => if !spec_encoding_from_byte(data[0]).unwrap().spec_valid_for_version(
                version_major,
            ) {
                Some(ParseError::EncodingNotAllowed)
            } else {
                None
            },
        }
    } else if id == "COMM"@ || id == "USLT"@ {
        match spec_comment_frame_error(data) {
            Some(e) => Some(e),
            None => if !spec_encoding_from_byte(data[0]).unwrap().spec_valid_for_version(
                version_major,
            ) {
                Some(ParseError::EncodingNotAllowed)
            } else {
                None
            },
        }
    } else if id == "APIC"@ {
        match spec_picture_frame_error(data) {
            Some(e) => Some(e),
            None => if !spec_encoding_from_byte(data[0]).unwrap().spec_valid_for_version(
                version_major,
            ) {
                Some(ParseError::EncodingNotAllowed)
            } else {
                None
            },
        }
    } else if id == "UFID"@ {
        spec_ufid_frame_error(data)
    } else if id == "CHAP"@ {
        spec_chapter_frame_error(data)
    } else if id == "CTOC"@ {
        spec_toc_frame_error(data)
    } else {
        None
    }
}

/// The typed content a frame with this id and payload decodes to, by
/// variant and field values.
pub open spec fn spec_content_matches(
    id: Seq<char>,
    data: Seq<u8>,
    version_major: u8,
    c: Id3v2FrameContent,
) -> bool {
    if !spec_is_valid_frame_for_version(id, version_major) {
        c is Binary
    } else if spec_is_text_frame_id(id) {
        match c {
            Id3v2FrameContent::Text(tf) => spec_text_frame_ok(data, tf)
                && tf.encoding.spec_valid_for_version(version_major),
            _ => false,
        }
    } else if spec_is_url_frame_id(id) {
        match c {
            Id3v2FrameContent::Url(uf) => uf.url@ == latin1_chars(data),
            _ => false,
        }
    } else if id == "TXXX"@ {
        match c {
            Id3v2FrameContent::UserText(utf) => spec_user_text_frame_ok(data, utf)
                && utf.encoding.spec_valid_for_version(version_major),
            _ => false,
        }
    } else if id == "WXXX"@ {
        match c {
            Id3v2FrameContent::UserUrl(uuf) => spec_user_url_frame_ok(data, uuf)
                && uuf.encoding.spec_valid_for_version(version_major),
            _ => false,
        }
    } else if id == "COMM"@ || id == "USLT"@ {
        match c {
            Id3v2FrameContent::Comment(cf) => spec_comment_frame_ok(data, cf)
                && cf.encoding.spec_valid_for_version(version_major),
            _ => false,
        }
    } else if id == "APIC"@ {
        match c {
            Id3v2FrameContent::Picture(pf) => spec_picture_frame_ok(data, pf)
                && pf.encoding.spec_valid_for_version(version_major),
            _ => false,
        }
    } else if id == "UFID"@ {
        match c {
            Id3v2FrameContent::UniqueFileId(uf) => spec_ufid_frame_ok(data, uf),
            _ => false,
        }
    } else if id == "CHAP"@ {
        match c {
            Id3v2FrameContent::Chapter(cf) => spec_chapter_frame_ok(data, version_major, cf),
            _ => false,
        }
    } else if id == "CTOC"@ {
        match c {
            Id3v2FrameContent::TableOfContents(tf) => spec_toc_frame_ok(data, version_major, tf),
            _ => false,
        }
    } else {
        c is Binary
    }
}

/// The first character of a string slice is `c`.
fn first_char_is(s: &str, c: char) -> (r: bool)
    ensures
        r == (s@.len() > 0 && s@[0] == c),
{
    if s.unicode_len() > 0 {
        s.get_char(0) == c
    } else {
        false
    }
}

/// Parse a frame's payload into typed content, given its id and the tag's
/// major version. An id outside the version's allow-list yields `Binary`;
/// chapter and table-of-contents payloads parse their embedded sub-frames
/// recursively.
pub fn parse_frame_content(frame_id: &str, data: &[u8], version_major: u8) -> (r: Result<
    Id3v2FrameContent,
    ParseError,
>)
    ensures
        match r {
            Ok(c) => spec_content_error(frame_id@, data@, version_major) is None
                && spec_content_matches(frame_id@, data@, version_major, c),
            Err(e) => spec_content_error(frame_id@, data@, version_major) == Some(e),
        },
    decreases data@.len(), 4int,
{
    if !is_valid_frame_for_version(frame_id, version_major) {
        return Ok(Id3v2FrameContent::Binary);
    }
    if first_char_is(frame_id, 'T') && !str_eq(frame_id, "TXXX") {
        let tf = match TextFrame::parse(data) {
            Ok(tf) => tf,
            Err(e) => {
                return Err(e);
            },
        };
        if !tf.encoding.is_valid_for_version(version_major) {
            return Err(ParseError::EncodingNotAllowed);
        }
        Ok(Id3v2FrameContent::Text(tf))
    } else if first_char_is(frame_id, 'W') && !str_eq(frame_id, "WXXX") {
        match UrlFrame::parse(data) {
            Ok(uf) => Ok(Id3v2FrameContent::Url(uf)),
            Err(e) => Err(e),
        }
    } else if str_eq(frame_id, "TXXX") {
        let utf = match UserTextFrame::parse(data) {
            Ok(f) => f,
            Err(e) => {
                return Err(e);
            },
        };
        if !utf.encoding.is_valid_for_version(version_major) {
            return Err(ParseError::EncodingNotAllowed);
        }
        Ok(Id3v2FrameContent::UserText(utf))
    } else if str_eq(frame_id, "WXXX") {
        let uuf = match UserUrlFrame::parse(data) {
            Ok(f) => f,
            Err(e) => {
                return Err(e);
            },
        };
        if !uuf.encoding.is_valid_for_version(version_major) {
            return Err(ParseError::EncodingNotAllowed);
        }
        Ok(Id3v2FrameContent::UserUrl(uuf))
    } else if str_eq(frame_id, "COMM") || str_eq(frame_id, "USLT") {
        let cf = match CommentFrame::parse(data) {
            Ok(f) => f,
            Err(e) => {
                return Err(e);
            },
        };
        if !cf.encoding.is_valid_for_version(version_major) {
            return Err(ParseError::EncodingNotAllowed);
        }
        Ok(Id3v2FrameContent::Comment(cf))
    } else if str_eq(frame_id, "APIC") {
        let pf = match AttachedPictureFrame::parse(data) {
            Ok(f) => f,
            Err(e) => {
                return Err(e);
            },
        };
        if !pf.encoding.is_valid_for_version(version_major) {
            return Err(ParseError::EncodingNotAllowed);
        }
        Ok(Id3v2FrameContent::Picture(pf))
    } else if str_eq(frame_id, "UFID") {
        match UniqueFileIdFrame::parse(data) {
            Ok(f) => Ok(Id3v2FrameContent::UniqueFileId(f)),
            Err(e) => Err(e),
        }
    } else if str_eq(frame_id, "CHAP") {
        match ChapterFrame::parse(data, version_major) {
            Ok(f) => Ok(Id3v2FrameContent::Chapter(f)),
            Err(e) => Err(e),
        }
    } else if str_eq(frame_id, "CTOC") {
        match TableOfContentsFrame::parse(data, version_major) {
            Ok(f) => Ok(Id3v2FrameContent::TableOfContents(f)),
            Err(e) => Err(e),
        }
    } else {
        Ok(Id3v2FrameContent::Binary)
    }
}

/// The frame's header fields, payload and offset are the scanned ones,
/// and no embedded list hangs off the frame itself.
pub open spec fn spec_frame_fields_match(frame: Id3v2Frame, info: FrameInfo) -> bool {
    &&& frame.id@ == latin1_chars(info.id)
    &&& frame.size == info.size
    &&& frame.flags == info.flags
    &&& frame.offset == Some(info.offset as usize)
    &&& 0 <= info.offset <= usize::MAX
    &&& frame.data@ == info.data
    &&& frame.embedded_frames is None
}

/// Every frame's header fields and payload match the scanned ones.
pub open spec fn frames_match_infos_shallow(frames: Seq<Id3v2Frame>, infos: Seq<FrameInfo>) -> bool {
    frames.len() == infos.len() && forall|i: int|
        0 <= i < frames.len() ==> spec_frame_fields_match(#[trigger] frames[i], infos[i])
}

/// The frame's `content` field is the typed decode of its payload: present
/// and correct when the decode succeeds, absent exactly when it fails.
pub open spec fn spec_frame_content_ok(frame: Id3v2Frame, version_major: u8) -> bool {
    match frame.content {
        Some(c) => spec_content_error(frame.id@, frame.data@, version_major) is None
            && spec_content_matches(frame.id@, frame.data@, version_major, c),
        None => spec_content_error(frame.id@, frame.data@, version_major) is Some,
    }
}

/// Fields, payload and typed content all match the scan.
pub open spec fn spec_frame_matches_info(
    frame: Id3v2Frame,
    info: FrameInfo,
    version_major: u8,
) -> bool {
    spec_frame_fields_match(frame, info) && spec_frame_content_ok(frame, version_major)
}

/// Every frame matches its scanned counterpart, typed content included.
pub open spec fn frames_match_infos(
    frames: Seq<Id3v2Frame>,
    infos: Seq<FrameInfo>,
    version_major: u8,
) -> bool {
    frames.len() == infos.len() && forall|i: int|
        0 <= i < frames.len() ==> spec_frame_matches_info(
            #[trigger] frames[i],
            infos[i],
            version_major,
        )
}

/// Deep agreement with the scan includes the header-and-payload part.
pub proof fn lemma_match_infos_implies_shallow(
    frames: Seq<Id3v2Frame>,
    infos: Seq<FrameInfo>,
    version_major: u8,
)
    requires
        frames_match_infos(frames, infos, version_major),
    ensures
        frames_match_infos_shallow(frames, infos),
{
    assert forall|i: int| 0 <= i < frames.len() implies spec_frame_fields_match(
        #[trigger] frames[i],
        infos[i],
    ) by {
        assert(spec_frame_matches_info(frames[i], infos[i], version_major));
    }
}

/// The frames an embedded (sub-frame) scan finds from `pos` on: it stops
/// at padding, at an id outside the version's allow-list, and at a frame
/// that does not fit in the remaining bytes.
pub open spec fn spec_scan_embedded(buf: Seq<u8>, pos: int, version_major: u8) -> Seq<FrameInfo>
    decreases buf.len() - pos,
        when 0 <= pos
{
    if pos + 10 > buf.len() {
        seq![]
    } else {
        let idb = buf.subrange(pos, pos + 4);
        if !spec_id_alnum(idb) {
            seq![]
        } else if !spec_is_valid_frame_for_version(latin1_chars(idb), version_major) {
            seq![]
        } else {
            let size = spec_frame_size_at(buf, pos, version_major);
            if pos + 10 + size > buf.len() {
                seq![]
            } else {
                seq![
                    FrameInfo {
                        id: idb,
                        size: size as u32,
                        flags: spec_be16_at(buf, pos + 8) as u16,
                        offset: pos,
                        data: buf.subrange(pos + 10, pos + 10 + size),
                    },
                ] + spec_scan_embedded(buf, pos + 10 + size, version_major)
            }
        }
    }
}

/// Parse embedded sub-frames from raw frame data, as chapter and
/// table-of-contents frames carry them. Each sub-frame's typed content is
/// decoded too; a failed decode leaves the raw data alone.
pub fn parse_embedded_frames(frame_data: &[u8], version_major: u8) -> (frames: Vec<Id3v2Frame>)
    ensures
        frames_match_infos(
            frames@,
            spec_scan_embedded(frame_data@, 0, version_major),
            version_major,
        ),
    decreases frame_data@.len(), 2int,
{
    let n: usize = frame_data.len();
    let mut frames: Vec<Id3v2Frame> = Vec::new();
    let mut pos: usize = 0;
    let mut halted: bool = false;
    let ghost mut done: Seq<FrameInfo> = Seq::empty();
    proof {
        assert(done + spec_scan_embedded(frame_data@, 0, version_major) =~= spec_scan_embedded(
            frame_data@,
            0,
            version_major,
        ));
    }
    while !halted && n >= 10 && pos <= n - 10
        invariant
            n == frame_data@.len(),
            0 <= pos <= n,
            frames_match_infos(frames@, done, version_major),
            spec_scan_embedded(frame_data@, 0, version_major) == done + (if halted {
                Seq::<FrameInfo>::empty()
            } else {
                spec_scan_embedded(frame_data@, pos as int, version_major)
            }),
        decreases n - pos, (if halted {
            0int
        } else {
            1int
        }),
    {
        let ghost scan_here = spec_scan_embedded(frame_data@, pos as int, version_major);
        if !frame_id_alnum_at(frame_data, pos) {
            halted = true;
            proof {
                assert(scan_here =~= Seq::<FrameInfo>::empty());
            }
        } else {
            let frame_id = latin1_decode(&frame_data[pos..pos + 4]);
            proof {
                assert(frame_id@ == latin1_chars(
                    frame_data@.subrange(pos as int, pos as int + 4),
                ));
            }
            if !is_valid_frame_for_version(frame_id.as_str(), version_major) {
                halted = true;
                proof {
                    assert(scan_here =~= Seq::<FrameInfo>::empty());
                }
            } else {
                let frame_size = read_frame_size(frame_data, pos, version_major);
                let frame_flags = read_be_u16(frame_data, pos + 8);
                if frame_size as usize > n - pos - 10 {
                    halted = true;
                    proof {
                        assert(scan_here =~= Seq::<FrameInfo>::empty());
                    }
                } else {
                    let data = sub_bytes(frame_data, pos + 10, pos + 10 + frame_size as usize);
                    let mut frame = Id3v2Frame::new_with_offset(
                        frame_id,
                        frame_size,
                        frame_flags,
                        pos,
                        data,
                    );
                    proof {
                        assert(frame.data@.len() < frame_data@.len());
                    }
                    match parse_frame_content(
                        frame.id.as_str(),
                        frame.data.as_slice(),
                        version_major,
                    ) {
                        Ok(content) => {
                            frame.content = Some(content);
                        },
                        Err(_) => {},
                    }
                    let ghost info = FrameInfo {
                        id: frame_data@.subrange(pos as int, pos as int + 4),
                        size: frame_size,
                        flags: frame_flags,
                        offset: pos as int,
                        data: frame_data@.subrange(
                            pos as int + 10,
                            pos as int + 10 + frame_size as int,
                        ),
                    };
                    proof {
                        assert(spec_frame_matches_info(frame, info, version_major));
                        assert(scan_here =~= seq![info] + spec_scan_embedded(
                            frame_data@,
                            pos as int + 10 + frame_size as int,
                            version_major,
                        ));
                    }
                    frames.push(frame);
                    proof {
                        done = done + seq![info];
                        assert(done + spec_scan_embedded(
                            frame_data@,
                            pos as int + 10 + frame_size as int,
                            version_major,
                        ) =~= spec_scan_embedded(frame_data@, 0, version_major));
                    }
                    pos = pos + 10 + frame_size as usize;
                }
            }
        }
    }
    proof {
        if !halted {
            assert(spec_scan_embedded(frame_data@, pos as int, version_major)
                =~= Seq::<FrameInfo>::empty());
        }
        assert(done + Seq::<FrameInfo>::empty() =~= done);
    }
    frames
}

/// The frame standing at `pos` of the buffer, if one does: ten header
/// bytes fit, the id is alphanumeric and on the version's allow-list, and
/// the declared size is neither zero nor past the end of the buffer.
pub open spec fn spec_frame_at(buf: Seq<u8>, pos: int, version_major: u8) -> Option<FrameInfo> {
    if pos + 10 > buf.len() {
        None
    } else {
        let idb = buf.subrange(pos, pos + 4);
        if !spec_id_alnum(idb) {
            None
        } else if !spec_is_valid_frame_for_version(latin1_chars(idb), version_major) {
            None
        } else {
            let size = spec_frame_size_at(buf, pos, version_major);
            if size == 0 || size > buf.len() - pos - 10 {
                None
            } else {
                Some(
                    FrameInfo {
                        id: idb,
                        size: size as u32,
                        flags: spec_be16_at(buf, pos + 8) as u16,
                        offset: pos,
                        data: buf.subrange(pos + 10, pos + 10 + size),
                    },
                )
            }
        }
    }
}

/// The frames a top-level scan finds from `pos` on. Padding (a
/// non-alphanumeric id) stops the scan; an id outside the version's
/// allow-list skips the whole record by its declared size where that fits
/// and one byte otherwise; a zero size skips the header alone; a size
/// past the end of the buffer halts the scan for good.
pub open spec fn spec_scan_frames(buf: Seq<u8>, pos: int, version_major: u8) -> Seq<FrameInfo>
    decreases buf.len() - pos,
        when 0 <= pos
{
    if pos + 10 > buf.len() {
        seq![]
    } else {
        let idb = buf.subrange(pos, pos + 4);
        if !spec_id_alnum(idb) {
            seq![]
        } else {
            let size = spec_frame_size_at(buf, pos, version_major);
            if !spec_is_valid_frame_for_version(latin1_chars(idb), version_major) {
                if size > 0 && size <= buf.len() - pos - 10 {
                    spec_scan_frames(buf, pos + 10 + size, version_major)
                } else {
                    spec_scan_frames(buf, pos + 1, version_major)
                }
            } else if size == 0 {
                spec_scan_frames(buf, pos + 10, version_major)
            } else if size > buf.len() - pos - 10 {
                seq![]
            } else {
                seq![
                    FrameInfo {
                        id: idb,
                        size: size as u32,
                        flags: spec_be16_at(buf, pos + 8) as u16,
                        offset: pos,
                        data: buf.subrange(pos + 10, pos + 10 + size),
                    },
                ] + spec_scan_frames(buf, pos + 10 + size, version_major)
            }
        }
    }
}

/// Parse the frame standing at `pos` of the buffer for the given version,
/// typed content included; no frame stands there exactly when the scan
/// finds none.
pub fn parse_id3v2_frame_at(buffer: &[u8], pos: usize, version_major: u8) -> (r: Option<
    Id3v2Frame,
>)
    ensures
        match r {
            Some(f) => match spec_frame_at(buffer@, pos as int, version_major) {
                Some(info) => spec_frame_matches_info(f, info, version_major),
                None => false,
            },
            None => spec_frame_at(buffer@, pos as int, version_major) is None,
        },
{
    let n: usize = buffer.len();
    if n < 10 || pos > n - 10 {
        return None;
    }
    if !frame_id_alnum_at(buffer, pos) {
        return None;
    }
    let frame_id = latin1_decode(&buffer[pos..pos + 4]);
    if !is_valid_frame_for_version(frame_id.as_str(), version_major) {
        return None;
    }
    let frame_size = read_frame_size(buffer, pos, version_major);
    let frame_flags = read_be_u16(buffer, pos + 8);
    if frame_size == 0 || frame_size as usize > n - pos - 10 {
        return None;
    }
    let data = sub_bytes(buffer, pos + 10, pos + 10 + frame_size as usize);
    let mut frame = Id3v2Frame::new_with_offset(frame_id, frame_size, frame_flags, pos, data);
    match parse_frame_content(frame.id.as_str(), frame.data.as_slice(), version_major) {
        Ok(content) => {
            frame.content = Some(content);
        },
        Err(_) => {},
    }
    Some(frame)
}

/// Iterate top-level frames from `frame_start` on, collecting each frame
/// the scan accepts with its typed content.
pub fn parse_id3v2_frames(buffer: &[u8], frame_start: usize, version_major: u8) -> (frames: Vec<
    Id3v2Frame,
>)
    ensures
        frames_match_infos(
            frames@,
            spec_scan_frames(buffer@, frame_start as int, version_major),
            version_major,
        ),
{
    let n: usize = buffer.len();
    let mut frames: Vec<Id3v2Frame> = Vec::new();
    let mut pos: usize = frame_start;
    let mut halted: bool = false;
    let ghost mut done: Seq<FrameInfo> = Seq::empty();
    proof {
        assert(done + spec_scan_frames(buffer@, frame_start as int, version_major)
            =~= spec_scan_frames(buffer@, frame_start as int, version_major));
    }
    while !halted && n >= 10 && pos <= n - 10
        invariant
            n == buffer@.len(),
            frame_start <= pos,
            0 <= pos <= n || pos <= frame_start,
            frames_match_infos(frames@, done, version_major),
            spec_scan_frames(buffer@, frame_start as int, version_major) == done + (if halted {
                Seq::<FrameInfo>::empty()
            } else {
                spec_scan_frames(buffer@, pos as int, version_major)
            }),
        decreases n - pos, (if halted {
            0int
        } else {
            1int
        }),
    {
        let ghost scan_here = spec_scan_frames(buffer@, pos as int, version_major);
        if !frame_id_alnum_at(buffer, pos) {
            halted = true;
            proof {
                assert(scan_here =~= Seq::<FrameInfo>::empty());
            }
        } else {
            let frame_id = latin1_decode(&buffer[pos..pos + 4]);
            proof {
                assert(frame_id@ == latin1_chars(buffer@.subrange(pos as int, pos as int + 4)));
            }
            let frame_size = read_frame_size(buffer, pos, version_major);
            if !is_valid_frame_for_version(frame_id.as_str(), version_major) {
                // an unknown record is skipped whole where its size fits,
                // else by one byte to guarantee forward progress
                if frame_size > 0 && frame_size as usize <= n - pos - 10 {
                    proof {
                        assert(scan_here =~= spec_scan_frames(
                            buffer@,
                            pos as int + 10 + frame_size as int,
                            version_major,
                        ));
                    }
                    pos = pos + 10 + frame_size as usize;
                } else {
                    proof {
                        assert(scan_here =~= spec_scan_frames(
                            buffer@,
                            pos as int + 1,
                            version_major,
                        ));
                    }
                    pos = pos + 1;
                }
            } else if frame_size == 0 {
                proof {
                    assert(scan_here =~= spec_scan_frames(
                        buffer@,
                        pos as int + 10,
                        version_major,
                    ));
                }
                pos = pos + 10;
            } else if frame_size as usize > n - pos - 10 {
                halted = true;
                proof {
                    assert(scan_here =~= Seq::<FrameInfo>::empty());
                }
            } else {
                let frame = match parse_id3v2_frame_at(buffer, pos, version_major) {
                    Some(f) => f,
                    None => {
                        // the checks above are exactly the scan's: a frame
                        // stands here
                        proof {
                            assert(spec_frame_at(buffer@, pos as int, version_major) is Some);
                        }
                        proof {
                            assert(false);
                        }
                        return frames;
                    },
                };
                let ghost info = spec_frame_at(buffer@, pos as int, version_major).unwrap();
                proof {
                    assert(scan_here =~= seq![info] + spec_scan_frames(
                        buffer@,
                        pos as int + 10 + frame_size as int,
                        version_major,
                    ));
                }
                frames.push(frame);
                proof {
                    done = done + seq![info];
                    assert(done + spec_scan_frames(
                        buffer@,
                        pos as int + 10 + frame_size as int,
                        version_major,
                    ) =~= spec_scan_frames(buffer@, frame_start as int, version_major));
                }
                pos = pos + 10 + frame_size as usize;
            }
        }
    }
    proof {
        if !halted {
            assert(spec_scan_frames(buffer@, pos as int, version_major)
                =~= Seq::<FrameInfo>::empty());
        }
        assert(done + Seq::<FrameInfo>::empty() =~= done);
    }
    frames
}

impl Id3v2Frame {
    /// Create a new ID3v2 frame with offset information; no content is
    /// decoded yet.
    pub fn new_with_offset(id: String, size: u32, flags: u16, offset: usize, data: Vec<u8>) -> (r:
        Self)
        ensures
            r.id == id,
            r.size == size,
            r.flags == flags,
            r.offset == Some(offset),
            r.data == data,
            r.content is None,
            r.embedded_frames is None,
    {
        Self { id, size, flags, offset: Some(offset), data, content: None, embedded_frames: None }
    }

    /// Parse this frame's content based on its frame id. On failure the
    /// frame keeps its raw data and no typed content.
    pub fn parse_content(&mut self, version_major: u8) -> (r: Result<(), ParseError>)
        ensures
            final(self).id == old(self).id,
            final(self).size == old(self).size,
            final(self).flags == old(self).flags,
            final(self).offset == old(self).offset,
            final(self).data == old(self).data,
            final(self).embedded_frames == old(self).embedded_frames,
            match r {
                Ok(_) => spec_content_error(old(self).id@, old(self).data@, version_major) is None
                    && (match final(self).content {
                    Some(c) => spec_content_matches(
                        old(self).id@,
                        old(self).data@,
                        version_major,
                        c,
                    ),
                    None => false,
                }),
                Err(e) => spec_content_error(old(self).id@, old(self).data@, version_major)
                    == Some(e) && final(self).content == old(self).content,
            },
    {
        let content = match parse_frame_content(self.id.as_str(), self.data.as_slice(), version_major) {
            Ok(c) => c,
            Err(e) => {
                return Err(e);
            },
        };
        self.content = Some(content);
        Ok(())
    }

    /// Get the text content, if this frame carries any: the primary text
    /// of a text frame, the value of a user-text frame, or the text of a
    /// comment frame.
    pub fn get_text(&self) -> (r: Option<&str>)
        ensures
            match r {
                Some(s) => match self.content {
                    Some(Id3v2FrameContent::Text(tf)) => s@ == tf.text@,
                    Some(Id3v2FrameContent::UserText(utf)) => s@ == utf.value@,
                    Some(Id3v2FrameContent::Comment(cf)) => s@ == cf.text@,
                    _ => false,
                },
                None => match self.content {
                    Some(Id3v2FrameContent::Text(_)) => false,
                    Some(Id3v2FrameContent::UserText(_)) => false,
                    Some(Id3v2FrameContent::Comment(_)) => false,
                    _ => true,
                },
            },
    {
        match &self.content {
            Some(Id3v2FrameContent::Text(tf)) => Some(tf.text.as_str()),
            Some(Id3v2FrameContent::UserText(utf)) => Some(utf.value.as_str()),
            Some(Id3v2FrameContent::Comment(cf)) => Some(cf.text.as_str()),
            _ => None,
        }
    }

    /// Get the URL, if this is a URL or user-URL frame.
    pub fn get_url(&self) -> (r: Option<&str>)
        ensures
            match r {
                Some(s) => match self.content {
                    Some(Id3v2FrameContent::Url(uf)) => s@ == uf.url@,
                    Some(Id3v2FrameContent::UserUrl(uuf)) => s@ == uuf.url@,
                    _ => false,
                },
                None => match self.content {
                    Some(Id3v2FrameContent::Url(_)) => false,
                    Some(Id3v2FrameContent::UserUrl(_)) => false,
                    _ => true,
                },
            },
    {
        match &self.content {
            Some(Id3v2FrameContent::Url(uf)) => Some(uf.url.as_str()),
            Some(Id3v2FrameContent::UserUrl(uuf)) => Some(uuf.url.as_str()),
            _ => None,
        }
    }
}

} // verus!
