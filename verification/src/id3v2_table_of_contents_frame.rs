//! Table of contents frame (`CTOC`), from the ID3v2 chapter addendum.
//!
//! Layout: a null-terminated element id (ISO-8859-1), one flags byte
//! (bit 0 = ordered, bit 1 = top-level), one entry-count byte, that many
//! null-terminated child element ids, then recursively parsed embedded
//! sub-frames filling the remainder.

use vstd::prelude::*;

use crate::error::ParseError;
use crate::id3v2_frame::Id3v2Frame;
use crate::id3v2_frame::frames_match_infos_shallow;
use crate::id3v2_frame::lemma_match_infos_implies_shallow;
use crate::id3v2_frame::parse_embedded_frames;
use crate::id3v2_frame::spec_scan_embedded;
use crate::id3v2_text_encoding::TextEncoding;
use crate::id3v2_text_encoding::spec_first_terminator;
use crate::id3v2_text_encoding::string_views;
use crate::id3v2_unique_file_id_frame::spec_first_zero;
use crate::strutil::latin1_chars;
use crate::strutil::latin1_decode;

verus! {

/// A decoded table-of-contents frame.
#[derive(Debug)]
pub struct TableOfContentsFrame {
    /// Element ID (null-terminated in the payload).
    pub element_id: String,
    /// True if this is a top-level table of contents.
    pub top_level: bool,
    /// True if the child elements are ordered.
    pub ordered: bool,
    /// Child element IDs.
    pub child_element_ids: Vec<String>,
    /// Embedded sub-frames.
    pub sub_frames: Vec<Id3v2Frame>,
}

/// The `count` null-terminated Latin-1 ids read from `pos` on, and the
/// position just past the last terminator; nothing when one of them has
/// no terminator.
pub open spec fn spec_child_ids(data: Seq<u8>, pos: int, count: int) -> Option<
    (Seq<Seq<char>>, int),
>
    decreases count,
{
    if count <= 0 {
        Some((seq![], pos))
    } else {
        match spec_first_terminator(data, TextEncoding::Iso88591, pos) {
            None => None,
            Some(p) => match spec_child_ids(data, p + 1, count - 1) {
                None => None,
                Some((rest, end)) => Some(
                    (seq![latin1_chars(data.subrange(pos, p))] + rest, end),
                ),
            },
        }
    }
}

/// Why a table-of-contents payload is rejected, if it is: no terminated
/// element id, missing flags or count byte, or an unterminated child id.
pub open spec fn spec_toc_frame_error(data: Seq<u8>) -> Option<ParseError> {
    if data.len() == 0 {
        Some(ParseError::TooShort)
    } else {
        match spec_first_zero(data) {
            None => Some(ParseError::MissingTerminator),
            Some(p) => if p + 2 >= data.len() {
                Some(ParseError::TooShort)
            } else {
                match spec_child_ids(data, p + 3, data[p + 2] as int) {
                    None => Some(ParseError::MissingTerminator),
                    Some(_) => None,
                }
            },
        }
    }
}

/// The frame decodes `data`: element id up to the first zero byte, the
/// flag bits, the declared number of child ids, and sub-frames scanned
/// from the rest. The sub-frames' boundaries and payloads are pinned
/// here; each one's typed content is decoded by the same rules as a
/// top-level frame's.
pub open spec fn spec_toc_frame_ok(
    data: Seq<u8>,
    version_major: u8,
    tf: TableOfContentsFrame,
) -> bool {
    &&& data.len() >= 1
    &&& match spec_first_zero(data) {
        None => false,
        Some(p) => {
            &&& p + 2 < data.len()
            &&& tf.element_id@ == latin1_chars(data.subrange(0, p))
            &&& tf.top_level == (data[p + 1] & 0x02 != 0)
            &&& tf.ordered == (data[p + 1] & 0x01 != 0)
            &&& match spec_child_ids(data, p + 3, data[p + 2] as int) {
                None => false,
                Some((ids, end)) => {
                    &&& string_views(tf.child_element_ids@) == ids
                    &&& (if end < data.len() {
                        frames_match_infos_shallow(
                            tf.sub_frames@,
                            spec_scan_embedded(
                                data.subrange(end, data.len() as int),
                                0,
                                version_major,
                            ),
                        )
                    } else {
                        tf.sub_frames@.len() == 0
                    })
                },
            }
        },
    }
}

impl TableOfContentsFrame {
    /// Parse a CTOC frame from raw data.
    pub fn parse(data: &[u8], version_major: u8) -> (r: Result<Self, ParseError>)
        ensures
            match r {
                Ok(tf) => spec_toc_frame_error(data@) is None && spec_toc_frame_ok(
                    data@,
                    version_major,
                    tf,
                ),
                Err(e) => spec_toc_frame_error(data@) == Some(e),
            },
        decreases data@.len(), 3int,
    {
        if data.len() == 0 {
            return Err(ParseError::TooShort);
        }
        let n: usize = data.len();
        let mut pos: usize = 0;
        while pos < data.len() && data[pos] != 0
            invariant
                n == data@.len(),
                0 <= pos <= data@.len(),
                spec_first_zero(data@) == spec_first_terminator(
                    data@,
                    TextEncoding::Iso88591,
                    pos as int,
                ),
            decreases data@.len() - pos,
        {
            pos = pos + 1;
        }
        if pos >= data.len() {
            return Err(ParseError::MissingTerminator);
        }
        proof {
            assert(spec_first_zero(data@) == Some(pos as int));
        }
        let ghost id_end = pos as int;
        let element_id = latin1_decode(&data[0..pos]);
        if n < 3 || pos >= n - 2 {
            return Err(ParseError::TooShort);
        }
        proof {
            assert(pos + 2 < data@.len());
        }
        let flags = data[pos + 1];
        let entry_count = data[pos + 2];
        let top_level = (flags & 0x02) != 0;
        let ordered = (flags & 0x01) != 0;
        pos = pos + 3;
        let mut child_element_ids: Vec<String> = Vec::new();
        let mut k: u8 = 0;
        proof {
            assert(string_views(child_element_ids@) + match spec_child_ids(
                data@,
                pos as int,
                entry_count as int,
            ) {
                Some((ids, _)) => ids,
                None => seq![],
            } =~= match spec_child_ids(data@, pos as int, entry_count as int) {
                Some((ids, _)) => ids,
                None => seq![],
            });
        }
        while k < entry_count
            invariant
                0 <= k <= entry_count,
                n == data@.len(),
                spec_first_zero(data@) == Some(id_end),
                id_end + 2 < n,
                data@[id_end + 2] == entry_count,
                id_end + 3 <= pos <= data@.len(),
                match spec_child_ids(data@, pos as int, entry_count - k) {
                    None => spec_child_ids(data@, id_end + 3, entry_count as int) is None,
                    Some((rest, end)) => match spec_child_ids(
                        data@,
                        id_end + 3,
                        entry_count as int,
                    ) {
                        Some((all, end2)) => all == string_views(child_element_ids@) + rest && end
                            == end2,
                        None => false,
                    },
                },
            decreases entry_count - k,
        {
            let id_start = pos;
            while pos < data.len() && data[pos] != 0
                invariant
                    id_start <= pos <= data@.len(),
                    spec_first_terminator(data@, TextEncoding::Iso88591, id_start as int)
                        == spec_first_terminator(data@, TextEncoding::Iso88591, pos as int),
                decreases data@.len() - pos,
            {
                pos = pos + 1;
            }
            if pos >= data.len() {
                proof {
                    assert(spec_first_terminator(data@, TextEncoding::Iso88591, id_start as int)
                        is None);
                    assert(spec_child_ids(data@, id_start as int, entry_count - k) is None);
                    assert(spec_child_ids(data@, id_end + 3, entry_count as int) is None);
                }
                return Err(ParseError::MissingTerminator);
            }
            proof {
                assert(spec_first_terminator(data@, TextEncoding::Iso88591, id_start as int)
                    == Some(pos as int));
            }
            let child_id = latin1_decode(&data[id_start..pos]);
            let ghost pre = child_element_ids@;
            child_element_ids.push(child_id);
            proof {
                assert(string_views(pre.push(child_id)) =~= string_views(pre).push(child_id@));
                match spec_child_ids(data@, pos as int + 1, entry_count - k - 1) {
                    Some((rest2, _)) => {
                        assert(string_views(pre) + (seq![
                            latin1_chars(data@.subrange(id_start as int, pos as int)),
                        ] + rest2) =~= string_views(child_element_ids@) + rest2);
                    },
                    None => {},
                }
            }
            pos = pos + 1;
            k = k + 1;
        }
        let ghost ids_result = spec_child_ids(data@, id_end + 3, entry_count as int);
        proof {
            assert(seq![] =~= Seq::<Seq<char>>::empty());
            assert(spec_child_ids(data@, pos as int, 0) == Some(
                (Seq::<Seq<char>>::empty(), pos as int),
            ));
            assert(string_views(child_element_ids@) + Seq::<Seq<char>>::empty() =~= string_views(
                child_element_ids@,
            ));
        }
        let sub_frames = if pos < data.len() {
            let rest = &data[pos..data.len()];
            proof {
                assert(rest@.len() < data@.len());
            }
            let sf = parse_embedded_frames(rest, version_major);
            proof {
                crate::id3v2_frame::lemma_match_infos_implies_shallow(
                    sf@,
                    crate::id3v2_frame::spec_scan_embedded(rest@, 0, version_major),
                    version_major,
                );
            }
            sf
        } else {
            Vec::new()
        };
        Ok(
            TableOfContentsFrame {
                element_id,
                top_level,
                ordered,
                child_element_ids,
                sub_frames,
            },
        )
    }

    /// Get the number of child elements.
    pub fn child_count(&self) -> (r: usize)
        ensures
            r == self.child_element_ids@.len(),
    {
        self.child_element_ids.len()
    }

    /// Check if this table of contents has embedded sub-frames.
    pub fn has_sub_frames(&self) -> (r: bool)
        ensures
            r == (self.sub_frames@.len() > 0),
    {
        self.sub_frames.len() > 0
    }
}

} // verus!
