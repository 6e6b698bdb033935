//! Shared ID3v2 decoding tools: synchsafe integers, unsynchronization
//! removal, format detection and the per-version frame-id allow-lists.

use vstd::prelude::*;

use crate::strutil::str_eq;

verus! {

/// ID3v2 header information: (major_version, minor_version, flags, size).
pub type Id3v2Header = (u8, u8, u8, u32);

/// Value of a synchsafe integer: four bytes contribute their low 7 bits
/// each, most significant byte first.
pub open spec fn spec_synchsafe_int(bytes: Seq<u8>) -> int {
    if bytes.len() >= 4 {
        (bytes[0] % 0x80) * 0x200000 + (bytes[1] % 0x80) * 0x4000 + (bytes[2] % 0x80) * 0x80
            + (bytes[3] % 0x80)
    } else {
        0
    }
}

/// Decode a synchsafe integer (7 bits per byte) as used in ID3v2.
pub fn decode_synchsafe_int(bytes: &[u8]) -> (r: u32)
    ensures
        r == spec_synchsafe_int(bytes@),
        r < 0x10000000,
{
    if bytes.len() >= 4 {
        let r0 = bytes[0];
        let r1 = bytes[1];
        let r2 = bytes[2];
        let r3 = bytes[3];
        let b0 = r0 & 0x7F;
        let b1 = r1 & 0x7F;
        let b2 = r2 & 0x7F;
        let b3 = r3 & 0x7F;
        assert(b0 == r0 % 0x80 && b1 == r1 % 0x80 && b2 == r2 % 0x80 && b3 == r3 % 0x80)
            by (bit_vector)
            requires
                b0 == r0 & 0x7F,
                b1 == r1 & 0x7F,
                b2 == r2 & 0x7F,
                b3 == r3 & 0x7F,
        ;
        (b0 as u32) * 0x200000 + (b1 as u32) * 0x4000 + (b2 as u32) * 0x80 + (b3 as u32)
    } else {
        0
    }
}

/// Law: on four bytes that are all below 0x80, a synchsafe integer is
/// exactly `b0 << 21 | b1 << 14 | b2 << 7 | b3`.
pub proof fn lemma_synchsafe_reconstructs(bytes: Seq<u8>)
    requires
        bytes.len() == 4,
        forall|i: int| 0 <= i < 4 ==> bytes[i] < 0x80,
    ensures
        spec_synchsafe_int(bytes) == ((bytes[0] as u32) << 21 | (bytes[1] as u32) << 14 | (
        bytes[2] as u32) << 7 | (bytes[3] as u32)),
{
    let b0 = bytes[0];
    let b1 = bytes[1];
    let b2 = bytes[2];
    let b3 = bytes[3];
    assert((b0 % 0x80) * 0x200000 + (b1 % 0x80) * 0x4000 + (b2 % 0x80) * 0x80 + (b3 % 0x80) == ((
    b0 as u32) << 21 | (b1 as u32) << 14 | (b2 as u32) << 7 | (b3 as u32))) by (bit_vector)
        requires
            b0 < 0x80 && b1 < 0x80 && b2 < 0x80 && b3 < 0x80,
    ;
}

/// The header opens with the magic bytes `"ID3"` and at least two version
/// bytes follow.
pub open spec fn spec_has_id3v2_magic(header: Seq<u8>) -> bool {
    header.len() >= 5 && header[0] == 0x49 && header[1] == 0x44 && header[2] == 0x33
}

/// Check if the given header indicates an ID3v2 file and return the
/// (major, minor) version pair.
pub fn detect_id3v2_version(header: &[u8]) -> (r: Option<(u8, u8)>)
    ensures
        match r {
            Some(v) => spec_has_id3v2_magic(header@) && v.0 == header@[3] && v.1 == header@[4],
            None => !spec_has_id3v2_magic(header@),
        },
{
    if header.len() >= 5 && header[0] == 0x49 && header[1] == 0x44 && header[2] == 0x33 {
        Some((header[3], header[4]))
    } else {
        None
    }
}

/// The first two bytes form an MPEG frame-sync pattern: 0xFF then a byte
/// whose top three bits are set.
pub open spec fn spec_has_mpeg_sync(header: Seq<u8>) -> bool {
    header.len() >= 2 && header[0] == 0xFF && header[1] & 0xE0 == 0xE0
}

/// Check if the given header indicates an MPEG stream (which might carry
/// an ID3v2 tag).
pub fn detect_mpeg_sync(header: &[u8]) -> (r: bool)
    ensures
        r == spec_has_mpeg_sync(header@),
{
    header.len() >= 2 && header[0] == 0xFF && (header[1] & 0xE0) == 0xE0
}

/// Parse the 10-byte ID3v2 outer header: magic, versions, flags and the
/// synchsafe tag size. Anything without the magic is no header.
pub fn parse_id3v2_header(header: &[u8]) -> (r: Option<Id3v2Header>)
    ensures
        match r {
            Some(h) => {
                &&& header@.len() >= 10
                &&& spec_has_id3v2_magic(header@)
                &&& h.0 == header@[3]
                &&& h.1 == header@[4]
                &&& h.2 == header@[5]
                &&& h.3 == spec_synchsafe_int(header@.subrange(6, 10))
            },
            None => header@.len() < 10 || !spec_has_id3v2_magic(header@),
        },
{
    if header.len() < 10 {
        return None;
    }
    if !(header[0] == 0x49 && header[1] == 0x44 && header[2] == 0x33) {
        return None;
    }
    let size = decode_synchsafe_int(&header[6..10]);
    Some((header[3], header[4], header[5], size))
}

/// The bytes after unsynchronization removal: every `0xFF 0x00` pair
/// collapses to the single byte `0xFF`, scanning left to right.
pub open spec fn spec_remove_unsync(data: Seq<u8>) -> Seq<u8>
    decreases data.len(),
{
    if data.len() == 0 {
        Seq::empty()
    } else if data.len() >= 2 && data[0] == 0xFF && data[1] == 0x00 {
        seq![0xFFu8] + spec_remove_unsync(data.skip(2))
    } else {
        seq![data[0]] + spec_remove_unsync(data.skip(1))
    }
}

/// Removal never lengthens the data.
pub proof fn lemma_remove_unsync_len(data: Seq<u8>)
    ensures
        spec_remove_unsync(data).len() <= data.len(),
    decreases data.len(),
{
    if data.len() == 0 {
    } else if data.len() >= 2 && data[0] == 0xFF && data[1] == 0x00 {
        lemma_remove_unsync_len(data.skip(2));
    } else {
        lemma_remove_unsync_len(data.skip(1));
    }
}

/// Remove unsynchronization bytes (`0xFF 0x00` becomes `0xFF`) from ID3v2
/// data.
pub fn remove_unsynchronization(data: &[u8]) -> (r: Vec<u8>)
    ensures
        r@ == spec_remove_unsync(data@),
        r@.len() <= data@.len(),
{
    let mut result: Vec<u8> = Vec::new();
    let mut i: usize = 0;
    proof {
        assert(data@.skip(0) =~= data@);
        assert(result@ + spec_remove_unsync(data@) =~= spec_remove_unsync(data@));
    }
    while i < data.len()
        invariant
            0 <= i <= data@.len(),
            spec_remove_unsync(data@) == result@ + spec_remove_unsync(data@.skip(i as int)),
            result@.len() <= i,
        decreases data@.len() - i,
    {
        let ghost pre = result@;
        let ghost rest = data@.skip(i as int);
        result.push(data[i]);
        if data[i] == 0xFF && i + 1 < data.len() && data[i + 1] == 0x00 {
            proof {
                assert(rest.len() >= 2 && rest[0] == 0xFF && rest[1] == 0x00);
                assert(rest.skip(2) =~= data@.skip(i + 2));
                assert(pre + (seq![0xFFu8] + spec_remove_unsync(rest.skip(2))) =~= result@
                    + spec_remove_unsync(data@.skip(i + 2)));
            }
            i = i + 2;
        } else {
            proof {
                assert(!(rest.len() >= 2 && rest[0] == 0xFF && rest[1] == 0x00));
                assert(rest.skip(1) =~= data@.skip(i + 1));
                assert(pre + (seq![data@[i as int]] + spec_remove_unsync(rest.skip(1))) =~= result@
                    + spec_remove_unsync(data@.skip(i + 1)));
            }
            i = i + 1;
        }
    }
    proof {
        assert(data@.skip(data@.len() as int) =~= Seq::<u8>::empty());
        assert(result@ + Seq::<u8>::empty() =~= result@);
        lemma_remove_unsync_len(data@);
    }
    result
}

/// No `0xFF 0x00` pair stands anywhere in the data.
pub open spec fn spec_no_ff00(data: Seq<u8>) -> bool {
    forall|i: int|
        0 <= i && i + 1 < data.len() ==> !(#[trigger] data[i] == 0xFF && data[i + 1] == 0x00)
}

/// No `0xFF 0x00 0x00` triple stands anywhere in the data.
pub open spec fn spec_no_ff0000(data: Seq<u8>) -> bool {
    forall|i: int|
        0 <= i && i + 2 < data.len() ==> !(#[trigger] data[i] == 0xFF && data[i + 1] == 0x00
            && data[i + 2] == 0x00)
}

/// Removal keeps the first byte of non-empty data.
proof fn lemma_remove_unsync_first(data: Seq<u8>)
    requires
        data.len() > 0,
    ensures
        spec_remove_unsync(data).len() > 0,
        spec_remove_unsync(data)[0] == data[0],
{
}

/// Data without `0xFF 0x00` pairs passes through removal unchanged.
pub proof fn lemma_remove_unsync_fixpoint(data: Seq<u8>)
    requires
        spec_no_ff00(data),
    ensures
        spec_remove_unsync(data) == data,
    decreases data.len(),
{
    if data.len() == 0 {
        assert(spec_remove_unsync(data) =~= data);
    } else {
        assert(!(data.len() >= 2 && data[0] == 0xFF && data[1] == 0x00));
        assert(spec_no_ff00(data.skip(1))) by {
            assert forall|i: int| 0 <= i && i + 1 < data.skip(1).len() implies !(#[trigger] data.skip(
                1,
            )[i] == 0xFF && data.skip(1)[i + 1] == 0x00) by {
                assert(data.skip(1)[i] == data[i + 1]);
                assert(data.skip(1)[i + 1] == data[i + 2]);
            }
        }
        lemma_remove_unsync_fixpoint(data.skip(1));
        assert(spec_remove_unsync(data) =~= data);
    }
}

/// Law: one pass over data free of `0xFF 0x00 0x00` triples leaves no
/// `0xFF 0x00` pair behind. (A triple such as `0xFF 0x00 0x00` decodes to
/// `0xFF 0x00`, which a second pass would shorten again; such inputs are
/// out of this law's scope.)
pub proof fn lemma_remove_unsync_clears_pairs(data: Seq<u8>)
    requires
        spec_no_ff0000(data),
    ensures
        spec_no_ff00(spec_remove_unsync(data)),
    decreases data.len(),
{
    if data.len() == 0 {
    } else if data.len() >= 2 && data[0] == 0xFF && data[1] == 0x00 {
        let rest = data.skip(2);
        assert(spec_no_ff0000(rest)) by {
            assert forall|i: int| 0 <= i && i + 2 < rest.len() implies !(#[trigger] rest[i] == 0xFF
                && rest[i + 1] == 0x00 && rest[i + 2] == 0x00) by {
                assert(rest[i] == data[i + 2]);
                assert(rest[i + 1] == data[i + 3]);
                assert(rest[i + 2] == data[i + 4]);
            }
        }
        lemma_remove_unsync_clears_pairs(rest);
        let u = spec_remove_unsync(rest);
        let out = spec_remove_unsync(data);
        assert(out == seq![0xFFu8] + u);
        if rest.len() > 0 {
            lemma_remove_unsync_first(rest);
            assert(rest[0] == data[2]);
            assert(data[2] != 0x00);
        }
        assert forall|i: int| 0 <= i && i + 1 < out.len() implies !(#[trigger] out[i] == 0xFF && out[i
            + 1] == 0x00) by {
            if i == 0 {
                assert(out[1] == u[0]);
            } else {
                assert(out[i] == u[i - 1]);
                assert(out[i + 1] == u[i]);
            }
        }
    } else {
        let rest = data.skip(1);
        assert(spec_no_ff0000(rest)) by {
            assert forall|i: int| 0 <= i && i + 2 < rest.len() implies !(#[trigger] rest[i] == 0xFF
                && rest[i + 1] == 0x00 && rest[i + 2] == 0x00) by {
                assert(rest[i] == data[i + 1]);
                assert(rest[i + 1] == data[i + 2]);
                assert(rest[i + 2] == data[i + 3]);
            }
        }
        lemma_remove_unsync_clears_pairs(rest);
        let u = spec_remove_unsync(rest);
        let out = spec_remove_unsync(data);
        assert(out == seq![data[0]] + u);
        if data[0] == 0xFF && rest.len() > 0 {
            lemma_remove_unsync_first(rest);
            assert(rest[0] == data[1]);
            assert(data[1] != 0x00);
        }
        assert forall|i: int| 0 <= i && i + 1 < out.len() implies !(#[trigger] out[i] == 0xFF && out[i
            + 1] == 0x00) by {
            if i == 0 {
                assert(out[1] == u[0]);
            } else {
                assert(out[i] == u[i - 1]);
                assert(out[i + 1] == u[i]);
            }
        }
    }
}

/// Law: on data free of `0xFF 0x00 0x00` triples, removal is idempotent —
/// applying it to its own output changes nothing.
pub proof fn lemma_remove_unsync_idempotent(data: Seq<u8>)
    requires
        spec_no_ff0000(data),
    ensures
        spec_remove_unsync(spec_remove_unsync(data)) == spec_remove_unsync(data),
{
    lemma_remove_unsync_clears_pairs(data);
    lemma_remove_unsync_fixpoint(spec_remove_unsync(data));
}


/// The ID3v2.3 frame-id allow-list.
pub open spec fn spec_is_valid_id3v2_3_frame(id: Seq<char>) -> bool {
    id == "TALB"@
        || id == "TBPM"@
        || id == "TCOM"@
        || id == "TCON"@
        || id == "TCOP"@
        || id == "TDAT"@
        || id == "TDLY"@
        || id == "TENC"@
        || id == "TEXT"@
        || id == "TFLT"@
        || id == "TIME"@
        || id == "TIT1"@
        || id == "TIT2"@
        || id == "TIT3"@
        || id == "TKEY"@
        || id == "TLAN"@
        || id == "TLEN"@
        || id == "TMED"@
        || id == "TOAL"@
        || id == "TOFN"@
        || id == "TOLY"@
        || id == "TOPE"@
        || id == "TORY"@
        || id == "TOWN"@
        || id == "TPE1"@
        || id == "TPE2"@
        || id == "TPE3"@
        || id == "TPE4"@
        || id == "TPOS"@
        || id == "TPUB"@
        || id == "TRCK"@
        || id == "TRDA"@
        || id == "TRSN"@
        || id == "TRSO"@
        || id == "TSIZ"@
        || id == "TSRC"@
        || id == "TSSE"@
        || id == "TYER"@
        || id == "TXXX"@
        || id == "WCOM"@
        || id == "WCOP"@
        || id == "WOAF"@
        || id == "WOAR"@
        || id == "WOAS"@
        || id == "WORS"@
        || id == "WPAY"@
        || id == "WPUB"@
        || id == "WXXX"@
        || id == "UFID"@
        || id == "MCDI"@
        || id == "ETCO"@
        || id == "MLLT"@
        || id == "SYTC"@
        || id == "USLT"@
        || id == "SYLT"@
        || id == "COMM"@
        || id == "RVAD"@
        || id == "EQUA"@
        || id == "RVRB"@
        || id == "PCNT"@
        || id == "POPM"@
        || id == "RBUF"@
        || id == "AENC"@
        || id == "LINK"@
        || id == "POSS"@
        || id == "USER"@
        || id == "OWNE"@
        || id == "COMR"@
        || id == "ENCR"@
        || id == "GRID"@
        || id == "PRIV"@
        || id == "GEOB"@
        || id == "IPLS"@
        || id == "APIC"@
        || id == "CHAP"@
        || id == "CTOC"@
}

/// Check if a frame ID is valid for ID3v2.3.
pub fn is_valid_id3v2_3_frame(frame_id: &str) -> (r: bool)
    ensures
        r == spec_is_valid_id3v2_3_frame(frame_id@),
{
    str_eq(frame_id, "TALB")
        || str_eq(frame_id, "TBPM")
        || str_eq(frame_id, "TCOM")
        || str_eq(frame_id, "TCON")
        || str_eq(frame_id, "TCOP")
        || str_eq(frame_id, "TDAT")
        || str_eq(frame_id, "TDLY")
        || str_eq(frame_id, "TENC")
        || str_eq(frame_id, "TEXT")
        || str_eq(frame_id, "TFLT")
        || str_eq(frame_id, "TIME")
        || str_eq(frame_id, "TIT1")
        || str_eq(frame_id, "TIT2")
        || str_eq(frame_id, "TIT3")
        || str_eq(frame_id, "TKEY")
        || str_eq(frame_id, "TLAN")
        || str_eq(frame_id, "TLEN")
        || str_eq(frame_id, "TMED")
        || str_eq(frame_id, "TOAL")
        || str_eq(frame_id, "TOFN")
        || str_eq(frame_id, "TOLY")
        || str_eq(frame_id, "TOPE")
        || str_eq(frame_id, "TORY")
        || str_eq(frame_id, "TOWN")
        || str_eq(frame_id, "TPE1")
        || str_eq(frame_id, "TPE2")
        || str_eq(frame_id, "TPE3")
        || str_eq(frame_id, "TPE4")
        || str_eq(frame_id, "TPOS")
        || str_eq(frame_id, "TPUB")
        || str_eq(frame_id, "TRCK")
        || str_eq(frame_id, "TRDA")
        || str_eq(frame_id, "TRSN")
        || str_eq(frame_id, "TRSO")
        || str_eq(frame_id, "TSIZ")
        || str_eq(frame_id, "TSRC")
        || str_eq(frame_id, "TSSE")
        || str_eq(frame_id, "TYER")
        || str_eq(frame_id, "TXXX")
        || str_eq(frame_id, "WCOM")
        || str_eq(frame_id, "WCOP")
        || str_eq(frame_id, "WOAF")
        || str_eq(frame_id, "WOAR")
        || str_eq(frame_id, "WOAS")
        || str_eq(frame_id, "WORS")
        || str_eq(frame_id, "WPAY")
        || str_eq(frame_id, "WPUB")
        || str_eq(frame_id, "WXXX")
        || str_eq(frame_id, "UFID")
        || str_eq(frame_id, "MCDI")
        || str_eq(frame_id, "ETCO")
        || str_eq(frame_id, "MLLT")
        || str_eq(frame_id, "SYTC")
        || str_eq(frame_id, "USLT")
        || str_eq(frame_id, "SYLT")
        || str_eq(frame_id, "COMM")
        || str_eq(frame_id, "RVAD")
        || str_eq(frame_id, "EQUA")
        || str_eq(frame_id, "RVRB")
        || str_eq(frame_id, "PCNT")
        || str_eq(frame_id, "POPM")
        || str_eq(frame_id, "RBUF")
        || str_eq(frame_id, "AENC")
        || str_eq(frame_id, "LINK")
        || str_eq(frame_id, "POSS")
        || str_eq(frame_id, "USER")
        || str_eq(frame_id, "OWNE")
        || str_eq(frame_id, "COMR")
        || str_eq(frame_id, "ENCR")
        || str_eq(frame_id, "GRID")
        || str_eq(frame_id, "PRIV")
        || str_eq(frame_id, "GEOB")
        || str_eq(frame_id, "IPLS")
        || str_eq(frame_id, "APIC")
        || str_eq(frame_id, "CHAP")
        || str_eq(frame_id, "CTOC")
}

/// The ID3v2.4 frame-id allow-list.
pub open spec fn spec_is_valid_id3v2_4_frame(id: Seq<char>) -> bool {
    id == "TALB"@
        || id == "TBPM"@
        || id == "TCOM"@
        || id == "TCON"@
        || id == "TCOP"@
        || id == "TDEN"@
        || id == "TDLY"@
        || id == "TDOR"@
        || id == "TDRC"@
        || id == "TDRL"@
        || id == "TDTG"@
        || id == "TENC"@
        || id == "TEXT"@
        || id == "TFLT"@
        || id == "TIPL"@
        || id == "TIT1"@
        || id == "TIT2"@
        || id == "TIT3"@
        || id == "TKEY"@
        || id == "TLAN"@
        || id == "TLEN"@
        || id == "TMCL"@
        || id == "TMED"@
        || id == "TMOO"@
        || id == "TOAL"@
        || id == "TOFN"@
        || id == "TOLY"@
        || id == "TOPE"@
        || id == "TOWN"@
        || id == "TPE1"@
        || id == "TPE2"@
        || id == "TPE3"@
        || id == "TPE4"@
        || id == "TPOS"@
        || id == "TPRO"@
        || id == "TPUB"@
        || id == "TRCK"@
        || id == "TRSN"@
        || id == "TRSO"@
        || id == "TSOA"@
        || id == "TSOP"@
        || id == "TSOT"@
        || id == "TSRC"@
        || id == "TSSE"@
        || id == "TSST"@
        || id == "TXXX"@
        || id == "WCOM"@
        || id == "WCOP"@
        || id == "WOAF"@
        || id == "WOAR"@
        || id == "WOAS"@
        || id == "WORS"@
        || id == "WPAY"@
        || id == "WPUB"@
        || id == "WXXX"@
        || id == "UFID"@
        || id == "MCDI"@
        || id == "ETCO"@
        || id == "MLLT"@
        || id == "SYTC"@
        || id == "USLT"@
        || id == "SYLT"@
        || id == "COMM"@
        || id == "RVA2"@
        || id == "EQU2"@
        || id == "RVRB"@
        || id == "PCNT"@
        || id == "POPM"@
        || id == "RBUF"@
        || id == "AENC"@
        || id == "LINK"@
        || id == "POSS"@
        || id == "USER"@
        || id == "OWNE"@
        || id == "COMR"@
        || id == "ENCR"@
        || id == "GRID"@
        || id == "PRIV"@
        || id == "GEOB"@
        || id == "APIC"@
        || id == "SEEK"@
        || id == "ASPI"@
        || id == "SIGN"@
        || id == "CHAP"@
        || id == "CTOC"@
}

/// Check if a frame ID is valid for ID3v2.4.
pub fn is_valid_id3v2_4_frame(frame_id: &str) -> (r: bool)
    ensures
        r == spec_is_valid_id3v2_4_frame(frame_id@),
{
    str_eq(frame_id, "TALB")
        || str_eq(frame_id, "TBPM")
        || str_eq(frame_id, "TCOM")
        || str_eq(frame_id, "TCON")
        || str_eq(frame_id, "TCOP")
        || str_eq(frame_id, "TDEN")
        || str_eq(frame_id, "TDLY")
        || str_eq(frame_id, "TDOR")
        || str_eq(frame_id, "TDRC")
        || str_eq(frame_id, "TDRL")
        || str_eq(frame_id, "TDTG")
        || str_eq(frame_id, "TENC")
        || str_eq(frame_id, "TEXT")
        || str_eq(frame_id, "TFLT")
        || str_eq(frame_id, "TIPL")
        || str_eq(frame_id, "TIT1")
        || str_eq(frame_id, "TIT2")
        || str_eq(frame_id, "TIT3")
        || str_eq(frame_id, "TKEY")
        || str_eq(frame_id, "TLAN")
        || str_eq(frame_id, "TLEN")
        || str_eq(frame_id, "TMCL")
        || str_eq(frame_id, "TMED")
        || str_eq(frame_id, "TMOO")
        || str_eq(frame_id, "TOAL")
        || str_eq(frame_id, "TOFN")
        || str_eq(frame_id, "TOLY")
        || str_eq(frame_id, "TOPE")
        || str_eq(frame_id, "TOWN")
        || str_eq(frame_id, "TPE1")
        || str_eq(frame_id, "TPE2")
        || str_eq(frame_id, "TPE3")
        || str_eq(frame_id, "TPE4")
        || str_eq(frame_id, "TPOS")
        || str_eq(frame_id, "TPRO")
        || str_eq(frame_id, "TPUB")
        || str_eq(frame_id, "TRCK")
        || str_eq(frame_id, "TRSN")
        || str_eq(frame_id, "TRSO")
        || str_eq(frame_id, "TSOA")
        || str_eq(frame_id, "TSOP")
        || str_eq(frame_id, "TSOT")
        || str_eq(frame_id, "TSRC")
        || str_eq(frame_id, "TSSE")
        || str_eq(frame_id, "TSST")
        || str_eq(frame_id, "TXXX")
        || str_eq(frame_id, "WCOM")
        || str_eq(frame_id, "WCOP")
        || str_eq(frame_id, "WOAF")
        || str_eq(frame_id, "WOAR")
        || str_eq(frame_id, "WOAS")
        || str_eq(frame_id, "WORS")
        || str_eq(frame_id, "WPAY")
        || str_eq(frame_id, "WPUB")
        || str_eq(frame_id, "WXXX")
        || str_eq(frame_id, "UFID")
        || str_eq(frame_id, "MCDI")
        || str_eq(frame_id, "ETCO")
        || str_eq(frame_id, "MLLT")
        || str_eq(frame_id, "SYTC")
        || str_eq(frame_id, "USLT")
        || str_eq(frame_id, "SYLT")
        || str_eq(frame_id, "COMM")
        || str_eq(frame_id, "RVA2")
        || str_eq(frame_id, "EQU2")
        || str_eq(frame_id, "RVRB")
        || str_eq(frame_id, "PCNT")
        || str_eq(frame_id, "POPM")
        || str_eq(frame_id, "RBUF")
        || str_eq(frame_id, "AENC")
        || str_eq(frame_id, "LINK")
        || str_eq(frame_id, "POSS")
        || str_eq(frame_id, "USER")
        || str_eq(frame_id, "OWNE")
        || str_eq(frame_id, "COMR")
        || str_eq(frame_id, "ENCR")
        || str_eq(frame_id, "GRID")
        || str_eq(frame_id, "PRIV")
        || str_eq(frame_id, "GEOB")
        || str_eq(frame_id, "APIC")
        || str_eq(frame_id, "SEEK")
        || str_eq(frame_id, "ASPI")
        || str_eq(frame_id, "SIGN")
        || str_eq(frame_id, "CHAP")
        || str_eq(frame_id, "CTOC")
}

/// Whether a frame ID is valid for a given ID3v2 major version: the
/// version's allow-list decides; other versions admit nothing.
pub open spec fn spec_is_valid_frame_for_version(id: Seq<char>, version_major: u8) -> bool {
    if version_major == 3 {
        spec_is_valid_id3v2_3_frame(id)
    } else if version_major == 4 {
        spec_is_valid_id3v2_4_frame(id)
    } else {
        false
    }
}

/// Check if a frame ID is valid for a specific ID3v2 version.
pub fn is_valid_frame_for_version(frame_id: &str, version_major: u8) -> (r: bool)
    ensures
        r == spec_is_valid_frame_for_version(frame_id@, version_major),
{
    match version_major {
        3 => is_valid_id3v2_3_frame(frame_id),
        4 => is_valid_id3v2_4_frame(frame_id),
        _ => false,
    }
}

/// Law: the chapter frames `CHAP` and `CTOC` are valid for both ID3v2.3
/// and ID3v2.4.
pub proof fn lemma_chapter_frames_valid_for_both_versions()
    ensures
        spec_is_valid_frame_for_version("CHAP"@, 3),
        spec_is_valid_frame_for_version("CHAP"@, 4),
        spec_is_valid_frame_for_version("CTOC"@, 3),
        spec_is_valid_frame_for_version("CTOC"@, 4),
{
}


/// The human-readable description of an ID3v2 frame id (unified for
/// v2.3 and v2.4).
pub open spec fn spec_frame_description(id: Seq<char>) -> Seq<char> {
    if id == "TIT1"@ {
        "Content group description"@
    } else if id == "TIT2"@ {
        "Title/songname/content description"@
    } else if id == "TIT3"@ {
        "Subtitle/Description refinement"@
    } else if id == "TALB"@ {
        "Album/Movie/Show title"@
    } else if id == "TOAL"@ {
        "Original album/movie/show title"@
    } else if id == "TRCK"@ {
        "Track number/Position in set"@
    } else if id == "TPOS"@ {
        "Part of a set"@
    } else if id == "TSST"@ {
        "Set subtitle"@
    } else if id == "TSRC"@ {
        "ISRC (international standard recording code)"@
    } else if id == "TPE1"@ {
        "Lead performer(s)/Soloist(s)"@
    } else if id == "TPE2"@ {
        "Band/orchestra/accompaniment"@
    } else if id == "TPE3"@ {
        "Conductor/performer refinement"@
    } else if id == "TPE4"@ {
        "Interpreted, remixed, or otherwise modified by"@
    } else if id == "TOPE"@ {
        "Original artist(s)/performer(s)"@
    } else if id == "TEXT"@ {
        "Lyricist/Text writer"@
    } else if id == "TOLY"@ {
        "Original lyricist(s)/text writer(s)"@
    } else if id == "TCOM"@ {
        "Composer"@
    } else if id == "TMCL"@ {
        "Musician credits list"@
    } else if id == "TIPL"@ {
        "Involved people list"@
    } else if id == "TENC"@ {
        "Encoded by"@
    } else if id == "TBPM"@ {
        "BPM (beats per minute)"@
    } else if id == "TLEN"@ {
        "Length"@
    } else if id == "TKEY"@ {
        "Initial key"@
    } else if id == "TLAN"@ {
        "Language(s)"@
    } else if id == "TCON"@ {
        "Content type"@
    } else if id == "TFLT"@ {
        "File type"@
    } else if id == "TMED"@ {
        "Media type"@
    } else if id == "TMOO"@ {
        "Mood"@
    } else if id == "TCOP"@ {
        "Copyright message"@
    } else if id == "TPRO"@ {
        "Produced notice"@
    } else if id == "TPUB"@ {
        "Publisher"@
    } else if id == "TOWN"@ {
        "File owner/licensee"@
    } else if id == "TRSN"@ {
        "Internet radio station name"@
    } else if id == "TRSO"@ {
        "Internet radio station owner"@
    } else if id == "TOFN"@ {
        "Original filename"@
    } else if id == "TDLY"@ {
        "Playlist delay"@
    } else if id == "TDEN"@ {
        "Encoding time"@
    } else if id == "TDOR"@ {
        "Original release time"@
    } else if id == "TDRC"@ {
        "Recording time"@
    } else if id == "TDRL"@ {
        "Release time"@
    } else if id == "TDTG"@ {
        "Tagging time"@
    } else if id == "TSSE"@ {
        "Software/Hardware and settings used for encoding"@
    } else if id == "TSOA"@ {
        "Album sort order"@
    } else if id == "TSOP"@ {
        "Performer sort order"@
    } else if id == "TSOT"@ {
        "Title sort order"@
    } else if id == "TXXX"@ {
        "User defined text information frame"@
    } else if id == "TDAT"@ {
        "Date"@
    } else if id == "TIME"@ {
        "Time"@
    } else if id == "TORY"@ {
        "Original release year"@
    } else if id == "TRDA"@ {
        "Recording dates"@
    } else if id == "TSIZ"@ {
        "Size"@
    } else if id == "TYER"@ {
        "Year"@
    } else if id == "IPLS"@ {
        "Involved people list"@
    } else if id == "RVAD"@ {
        "Relative volume adjustment"@
    } else if id == "EQUA"@ {
        "Equalisation"@
    } else if id == "RVA2"@ {
        "Relative volume adjustment (2)"@
    } else if id == "EQU2"@ {
        "Equalisation (2)"@
    } else if id == "SEEK"@ {
        "Seek frame"@
    } else if id == "ASPI"@ {
        "Audio seek point index"@
    } else if id == "SIGN"@ {
        "Signature frame"@
    } else if id == "WCOM"@ {
        "Commercial information"@
    } else if id == "WCOP"@ {
        "Copyright/Legal information"@
    } else if id == "WOAF"@ {
        "Official audio file webpage"@
    } else if id == "WOAR"@ {
        "Official artist/performer webpage"@
    } else if id == "WOAS"@ {
        "Official audio source webpage"@
    } else if id == "WORS"@ {
        "Official internet radio station homepage"@
    } else if id == "WPAY"@ {
        "Payment"@
    } else if id == "WPUB"@ {
        "Publishers official webpage"@
    } else if id == "WXXX"@ {
        "User defined URL link frame"@
    } else if id == "MCDI"@ {
        "Music CD identifier"@
    } else if id == "ETCO"@ {
        "Event timing codes"@
    } else if id == "MLLT"@ {
        "MPEG location lookup table"@
    } else if id == "SYTC"@ {
        "Synchronized tempo codes"@
    } else if id == "USLT"@ {
        "Unsychronized lyric/text transcription"@
    } else if id == "SYLT"@ {
        "Synchronized lyric/text"@
    } else if id == "COMM"@ {
        "Comments"@
    } else if id == "RVRB"@ {
        "Reverb"@
    } else if id == "PCNT"@ {
        "Play counter"@
    } else if id == "POPM"@ {
        "Popularimeter"@
    } else if id == "RBUF"@ {
        "Recommended buffer size"@
    } else if id == "AENC"@ {
        "Audio encryption"@
    } else if id == "LINK"@ {
        "Linked information"@
    } else if id == "POSS"@ {
        "Position synchronisation frame"@
    } else if id == "USER"@ {
        "Terms of use"@
    } else if id == "OWNE"@ {
        "Ownership frame"@
    } else if id == "COMR"@ {
        "Commercial frame"@
    } else if id == "ENCR"@ {
        "Encryption method registration"@
    } else if id == "GRID"@ {
        "Group identification registration"@
    } else if id == "PRIV"@ {
        "Private frame"@
    } else if id == "GEOB"@ {
        "General encapsulated object"@
    } else if id == "UFID"@ {
        "Unique file identifier"@
    } else if id == "APIC"@ {
        "Attached picture"@
    } else if id == "CHAP"@ {
        "Chapter frame"@
    } else if id == "CTOC"@ {
        "Table of contents frame"@
    } else {
        "Unknown frame type"@
    }
}

/// Get a human-readable description for an ID3v2 frame ID.
#[verifier::rlimit(50)]
pub fn get_frame_description(frame_id: &str) -> (r: &'static str)
    ensures
        r@ == spec_frame_description(frame_id@),
{
    if str_eq(frame_id, "TIT1") {
        "Content group description"
    } else if str_eq(frame_id, "TIT2") {
        "Title/songname/content description"
    } else if str_eq(frame_id, "TIT3") {
        "Subtitle/Description refinement"
    } else if str_eq(frame_id, "TALB") {
        "Album/Movie/Show title"
    } else if str_eq(frame_id, "TOAL") {
        "Original album/movie/show title"
    } else if str_eq(frame_id, "TRCK") {
        "Track number/Position in set"
    } else if str_eq(frame_id, "TPOS") {
        "Part of a set"
    } else if str_eq(frame_id, "TSST") {
        "Set subtitle"
    } else if str_eq(frame_id, "TSRC") {
        "ISRC (international standard recording code)"
    } else if str_eq(frame_id, "TPE1") {
        "Lead performer(s)/Soloist(s)"
    } else if str_eq(frame_id, "TPE2") {
        "Band/orchestra/accompaniment"
    } else if str_eq(frame_id, "TPE3") {
        "Conductor/performer refinement"
    } else if str_eq(frame_id, "TPE4") {
        "Interpreted, remixed, or otherwise modified by"
    } else if str_eq(frame_id, "TOPE") {
        "Original artist(s)/performer(s)"
    } else if str_eq(frame_id, "TEXT") {
        "Lyricist/Text writer"
    } else if str_eq(frame_id, "TOLY") {
        "Original lyricist(s)/text writer(s)"
    } else if str_eq(frame_id, "TCOM") {
        "Composer"
    } else if str_eq(frame_id, "TMCL") {
        "Musician credits list"
    } else if str_eq(frame_id, "TIPL") {
        "Involved people list"
    } else if str_eq(frame_id, "TENC") {
        "Encoded by"
    } else if str_eq(frame_id, "TBPM") {
        "BPM (beats per minute)"
    } else if str_eq(frame_id, "TLEN") {
        "Length"
    } else if str_eq(frame_id, "TKEY") {
        "Initial key"
    } else if str_eq(frame_id, "TLAN") {
        "Language(s)"
    } else if str_eq(frame_id, "TCON") {
        "Content type"
    } else if str_eq(frame_id, "TFLT") {
        "File type"
    } else if str_eq(frame_id, "TMED") {
        "Media type"
    } else if str_eq(frame_id, "TMOO") {
        "Mood"
    } else if str_eq(frame_id, "TCOP") {
        "Copyright message"
    } else if str_eq(frame_id, "TPRO") {
        "Produced notice"
    } else if str_eq(frame_id, "TPUB") {
        "Publisher"
    } else if str_eq(frame_id, "TOWN") {
        "File owner/licensee"
    } else if str_eq(frame_id, "TRSN") {
        "Internet radio station name"
    } else if str_eq(frame_id, "TRSO") {
        "Internet radio station owner"
    } else if str_eq(frame_id, "TOFN") {
        "Original filename"
    } else if str_eq(frame_id, "TDLY") {
        "Playlist delay"
    } else if str_eq(frame_id, "TDEN") {
        "Encoding time"
    } else if str_eq(frame_id, "TDOR") {
        "Original release time"
    } else if str_eq(frame_id, "TDRC") {
        "Recording time"
    } else if str_eq(frame_id, "TDRL") {
        "Release time"
    } else if str_eq(frame_id, "TDTG") {
        "Tagging time"
    } else if str_eq(frame_id, "TSSE") {
        "Software/Hardware and settings used for encoding"
    } else if str_eq(frame_id, "TSOA") {
        "Album sort order"
    } else if str_eq(frame_id, "TSOP") {
        "Performer sort order"
    } else if str_eq(frame_id, "TSOT") {
        "Title sort order"
    } else if str_eq(frame_id, "TXXX") {
        "User defined text information frame"
    } else if str_eq(frame_id, "TDAT") {
        "Date"
    } else if str_eq(frame_id, "TIME") {
        "Time"
    } else if str_eq(frame_id, "TORY") {
        "Original release year"
    } else if str_eq(frame_id, "TRDA") {
        "Recording dates"
    } else if str_eq(frame_id, "TSIZ") {
        "Size"
    } else if str_eq(frame_id, "TYER") {
        "Year"
    } else if str_eq(frame_id, "IPLS") {
        "Involved people list"
    } else if str_eq(frame_id, "RVAD") {
        "Relative volume adjustment"
    } else if str_eq(frame_id, "EQUA") {
        "Equalisation"
    } else if str_eq(frame_id, "RVA2") {
        "Relative volume adjustment (2)"
    } else if str_eq(frame_id, "EQU2") {
        "Equalisation (2)"
    } else if str_eq(frame_id, "SEEK") {
        "Seek frame"
    } else if str_eq(frame_id, "ASPI") {
        "Audio seek point index"
    } else if str_eq(frame_id, "SIGN") {
        "Signature frame"
    } else if str_eq(frame_id, "WCOM") {
        "Commercial information"
    } else if str_eq(frame_id, "WCOP") {
        "Copyright/Legal information"
    } else if str_eq(frame_id, "WOAF") {
        "Official audio file webpage"
    } else if str_eq(frame_id, "WOAR") {
        "Official artist/performer webpage"
    } else if str_eq(frame_id, "WOAS") {
        "Official audio source webpage"
    } else if str_eq(frame_id, "WORS") {
        "Official internet radio station homepage"
    } else if str_eq(frame_id, "WPAY") {
        "Payment"
    } else if str_eq(frame_id, "WPUB") {
        "Publishers official webpage"
    } else if str_eq(frame_id, "WXXX") {
        "User defined URL link frame"
    } else if str_eq(frame_id, "MCDI") {
        "Music CD identifier"
    } else if str_eq(frame_id, "ETCO") {
        "Event timing codes"
    } else if str_eq(frame_id, "MLLT") {
        "MPEG location lookup table"
    } else if str_eq(frame_id, "SYTC") {
        "Synchronized tempo codes"
    } else if str_eq(frame_id, "USLT") {
        "Unsychronized lyric/text transcription"
    } else if str_eq(frame_id, "SYLT") {
        "Synchronized lyric/text"
    } else if str_eq(frame_id, "COMM") {
        "Comments"
    } else if str_eq(frame_id, "RVRB") {
        "Reverb"
    } else if str_eq(frame_id, "PCNT") {
        "Play counter"
    } else if str_eq(frame_id, "POPM") {
        "Popularimeter"
    } else if str_eq(frame_id, "RBUF") {
        "Recommended buffer size"
    } else if str_eq(frame_id, "AENC") {
        "Audio encryption"
    } else if str_eq(frame_id, "LINK") {
        "Linked information"
    } else if str_eq(frame_id, "POSS") {
        "Position synchronisation frame"
    } else if str_eq(frame_id, "USER") {
        "Terms of use"
    } else if str_eq(frame_id, "OWNE") {
        "Ownership frame"
    } else if str_eq(frame_id, "COMR") {
        "Commercial frame"
    } else if str_eq(frame_id, "ENCR") {
        "Encryption method registration"
    } else if str_eq(frame_id, "GRID") {
        "Group identification registration"
    } else if str_eq(frame_id, "PRIV") {
        "Private frame"
    } else if str_eq(frame_id, "GEOB") {
        "General encapsulated object"
    } else if str_eq(frame_id, "UFID") {
        "Unique file identifier"
    } else if str_eq(frame_id, "APIC") {
        "Attached picture"
    } else if str_eq(frame_id, "CHAP") {
        "Chapter frame"
    } else if str_eq(frame_id, "CTOC") {
        "Table of contents frame"
    } else {
        "Unknown frame type"
    }
}

} // verus!
