//! The ISOBMFF box model: the box tree node, the container
//! classification and the box-type description table.

use vstd::prelude::*;

use crate::isobmff_content::IsobmffContent;
use crate::itunes_metadata::ItunesMetadata;
use crate::strutil::str_eq;
use vstd::string::StrSliceExecFns;

verus! {

/// An ISOBMFF box (also called an "atom"): a sized, typed record that is
/// either a container of further boxes or a leaf carrying data.
#[derive(Debug)]
pub struct IsobmffBox {
    /// Offset of the box header in the buffer it was parsed from.
    pub offset: u64,
    /// The four-character box type.
    pub box_type: String,
    /// The whole box size, header included.
    pub size: u64,
    /// Header size: 8 bytes, or 16 with a 64-bit extended size.
    pub header_size: u64,
    /// Whether the box type is a container of child boxes.
    pub is_container: bool,
    /// Child boxes, for containers.
    pub children: Vec<IsobmffBox>,
    /// Raw payload, for leaves whose payload was read (at most 1 MiB).
    pub data: Vec<u8>,
    /// Typed content, for leaf types with a registered decoder.
    pub content: Option<IsobmffContent>,
    /// iTunes metadata decoded from a `data` child, for iTunes owners.
    pub itunes_content: Option<ItunesMetadata>,
}

/// The standard container types: their payload is a list of child boxes.
pub open spec fn spec_is_standard_container(t: Seq<char>) -> bool {
    t == "moov"@ || t == "trak"@ || t == "edts"@ || t == "mdia"@ || t == "minf"@ || t == "dinf"@ || t == "stbl"@ || t == "mvex"@ || t == "moof"@ || t == "traf"@ || t == "mfra"@ || t == "meta"@ || t == "ipro"@ || t == "udta"@ || t == "tref"@ || t == "ilst"@
}

/// The iTunes metadata owners: containers holding a `data` child whose
/// payload carries the typed value. The copyright-sign prefix marks the
/// classic text boxes.
pub open spec fn spec_is_itunes_metadata_type(t: Seq<char>) -> bool {
    (t.len() > 0 && t[0] == '\u{A9}') || t == "trkn"@
        || t == "disk"@
        || t == "tmpo"@
        || t == "covr"@
        || t == "aART"@
        || t == "----"@
        || t == "gnre"@
        || t == "hdvd"@
        || t == "pgap"@
        || t == "pcst"@
        || t == "cpil"@
        || t == "rtng"@
        || t == "stik"@
        || t == "tven"@
        || t == "tves"@
        || t == "tvnn"@
        || t == "tvsh"@
        || t == "tvsn"@
        || t == "apID"@
        || t == "akID"@
        || t == "atID"@
        || t == "cnID"@
        || t == "geID"@
        || t == "plID"@
        || t == "sfID"@
        || t == "soaa"@
        || t == "soal"@
        || t == "soar"@
        || t == "soco"@
        || t == "sonm"@
        || t == "sosn"@
        || t == "xid "@
        || t == "keyw"@
        || t == "catg"@
        || t == "purl"@
        || t == "egid"@
        || t == "desc"@
        || t == "ldes"@
        || t == "sdes"@
}

/// A box type whose payload is child boxes rather than leaf data.
pub open spec fn spec_is_container_type(t: Seq<char>) -> bool {
    spec_is_standard_container(t) || spec_is_itunes_metadata_type(t)
}

/// Check if a box type is a container.
pub fn is_container_type(box_type: &str) -> (r: bool)
    ensures
        r == spec_is_container_type(box_type@),
{
    if str_eq(box_type, "moov") || str_eq(box_type, "trak") || str_eq(box_type, "edts") || str_eq(box_type, "mdia") || str_eq(box_type, "minf") || str_eq(box_type, "dinf") || str_eq(box_type, "stbl") || str_eq(box_type, "mvex") || str_eq(box_type, "moof") || str_eq(box_type, "traf") || str_eq(box_type, "mfra") || str_eq(box_type, "meta") || str_eq(box_type, "ipro") || str_eq(box_type, "udta") || str_eq(box_type, "tref") || str_eq(box_type, "ilst") {
        return true;
    }
    is_itunes_metadata_box(box_type)
}

/// Check if a box is an iTunes metadata owner (one that should hold a
/// `data` child).
pub fn is_itunes_metadata_box(box_type: &str) -> (r: bool)
    ensures
        r == spec_is_itunes_metadata_type(box_type@),
{
    if first_char_is_copyright(box_type) {
        return true;
    }
    str_eq(box_type, "trkn")
        || str_eq(box_type, "disk")
        || str_eq(box_type, "tmpo")
        || str_eq(box_type, "covr")
        || str_eq(box_type, "aART")
        || str_eq(box_type, "----")
        || str_eq(box_type, "gnre")
        || str_eq(box_type, "hdvd")
        || str_eq(box_type, "pgap")
        || str_eq(box_type, "pcst")
        || str_eq(box_type, "cpil")
        || str_eq(box_type, "rtng")
        || str_eq(box_type, "stik")
        || str_eq(box_type, "tven")
        || str_eq(box_type, "tves")
        || str_eq(box_type, "tvnn")
        || str_eq(box_type, "tvsh")
        || str_eq(box_type, "tvsn")
        || str_eq(box_type, "apID")
        || str_eq(box_type, "akID")
        || str_eq(box_type, "atID")
        || str_eq(box_type, "cnID")
        || str_eq(box_type, "geID")
        || str_eq(box_type, "plID")
        || str_eq(box_type, "sfID")
        || str_eq(box_type, "soaa")
        || str_eq(box_type, "soal")
        || str_eq(box_type, "soar")
        || str_eq(box_type, "soco")
        || str_eq(box_type, "sonm")
        || str_eq(box_type, "sosn")
        || str_eq(box_type, "xid ")
        || str_eq(box_type, "keyw")
        || str_eq(box_type, "catg")
        || str_eq(box_type, "purl")
        || str_eq(box_type, "egid")
        || str_eq(box_type, "desc")
        || str_eq(box_type, "ldes")
        || str_eq(box_type, "sdes")
}

/// The first character is the copyright sign used by classic iTunes text
/// boxes.
fn first_char_is_copyright(s: &str) -> (r: bool)
    ensures
        r == (s@.len() > 0 && s@[0] == '\u{A9}'),
{
    if s.unicode_len() > 0 {
        s.get_char(0) == '\u{A9}'
    } else {
        false
    }
}

/// The human-readable description of a box type.
pub open spec fn spec_box_description(t: Seq<char>) -> Seq<char> {
    if t == "ftyp"@ {
        "File Type and Compatibility"@
    } else if t == "moov"@ {
        "Movie Metadata Container"@
    } else if t == "mdat"@ {
        "Media Data"@
    } else if t == "free"@ {
        "Free Space"@
    } else if t == "skip"@ {
        "Free Space"@
    } else if t == "moof"@ {
        "Movie Fragment"@
    } else if t == "mfra"@ {
        "Movie Fragment Random Access"@
    } else if t == "meta"@ {
        "Metadata Container"@
    } else if t == "pdin"@ {
        "Progressive Download Information"@
    } else if t == "styp"@ {
        "Segment Type"@
    } else if t == "sidx"@ {
        "Segment Index"@
    } else if t == "mvhd"@ {
        "Movie Header"@
    } else if t == "trak"@ {
        "Track Container"@
    } else if t == "mvex"@ {
        "Movie Extends"@
    } else if t == "udta"@ {
        "User Data"@
    } else if t == "iods"@ {
        "Initial Object Descriptor"@
    } else if t == "tkhd"@ {
        "Track Header"@
    } else if t == "tref"@ {
        "Track Reference"@
    } else if t == "edts"@ {
        "Edit List Container"@
    } else if t == "mdia"@ {
        "Media Container"@
    } else if t == "chap"@ {
        "Chapter Track Reference"@
    } else if t == "tmcd"@ {
        "Timecode Track Reference"@
    } else if t == "sync"@ {
        "Sync Track Reference"@
    } else if t == "scpt"@ {
        "Script Track Reference"@
    } else if t == "ssrc"@ {
        "Non-Primary Source"@
    } else if t == "cdsc"@ {
        "Content Description Track Reference"@
    } else if t == "elst"@ {
        "Edit List"@
    } else if t == "mdhd"@ {
        "Media Header"@
    } else if t == "hdlr"@ {
        "Handler Reference"@
    } else if t == "minf"@ {
        "Media Information"@
    } else if t == "vmhd"@ {
        "Video Media Header"@
    } else if t == "smhd"@ {
        "Sound Media Header"@
    } else if t == "hmhd"@ {
        "Hint Media Header"@
    } else if t == "nmhd"@ {
        "Null Media Header"@
    } else if t == "dinf"@ {
        "Data Information"@
    } else if t == "stbl"@ {
        "Sample Table"@
    } else if t == "dref"@ {
        "Data Reference"@
    } else if t == "url "@ {
        "Data Entry URL"@
    } else if t == "urn "@ {
        "Data Entry URN"@
    } else if t == "stsd"@ {
        "Sample Description"@
    } else if t == "stts"@ {
        "Time-to-Sample"@
    } else if t == "ctts"@ {
        "Composition Time-to-Sample"@
    } else if t == "stsc"@ {
        "Sample-to-Chunk"@
    } else if t == "stsz"@ {
        "Sample Sizes"@
    } else if t == "stz2"@ {
        "Compact Sample Sizes"@
    } else if t == "stco"@ {
        "Chunk Offset (32-bit)"@
    } else if t == "co64"@ {
        "Chunk Offset (64-bit)"@
    } else if t == "stss"@ {
        "Sync Sample Table"@
    } else if t == "stsh"@ {
        "Shadow Sync Sample"@
    } else if t == "padb"@ {
        "Padding Bits"@
    } else if t == "stdp"@ {
        "Sample Degradation Priority"@
    } else if t == "sdtp"@ {
        "Sample Dependency"@
    } else if t == "sbgp"@ {
        "Sample-to-Group"@
    } else if t == "sgpd"@ {
        "Sample Group Description"@
    } else if t == "subs"@ {
        "Sub-Sample Information"@
    } else if t == "mehd"@ {
        "Movie Extends Header"@
    } else if t == "trex"@ {
        "Track Extends Defaults"@
    } else if t == "leva"@ {
        "Level Assignment"@
    } else if t == "mfhd"@ {
        "Movie Fragment Header"@
    } else if t == "traf"@ {
        "Track Fragment"@
    } else if t == "tfhd"@ {
        "Track Fragment Header"@
    } else if t == "trun"@ {
        "Track Fragment Run"@
    } else if t == "tfdt"@ {
        "Track Fragment Decode Time"@
    } else if t == "tfra"@ {
        "Track Fragment Random Access"@
    } else if t == "mfro"@ {
        "Movie Fragment Random Access Offset"@
    } else if t == "iloc"@ {
        "Item Location"@
    } else if t == "ipro"@ {
        "Item Protection"@
    } else if t == "iinf"@ {
        "Item Information"@
    } else if t == "xml "@ {
        "XML Metadata"@
    } else if t == "bxml"@ {
        "Binary XML Metadata"@
    } else if t == "pitm"@ {
        "Primary Item"@
    } else if t == "idat"@ {
        "Item Data"@
    } else if t == "iref"@ {
        "Item Reference"@
    } else if t == "cprt"@ {
        "Copyright"@
    } else if t == "name"@ {
        "Name"@
    } else if t == "\u{A9}nam"@ {
        "Name (iTunes)"@
    } else if t == "\u{A9}ART"@ {
        "Artist (iTunes)"@
    } else if t == "\u{A9}alb"@ {
        "Album (iTunes)"@
    } else if t == "\u{A9}day"@ {
        "Year (iTunes)"@
    } else if t == "\u{A9}cmt"@ {
        "Comment (iTunes)"@
    } else if t == "\u{A9}gen"@ {
        "Genre (iTunes)"@
    } else if t == "\u{A9}too"@ {
        "Encoding Tool (iTunes)"@
    } else if t == "\u{A9}wrt"@ {
        "Composer (iTunes)"@
    } else if t == "\u{A9}grp"@ {
        "Grouping (iTunes)"@
    } else if t == "\u{A9}lyr"@ {
        "Lyrics (iTunes)"@
    } else if t == "trkn"@ {
        "Track Number (iTunes)"@
    } else if t == "disk"@ {
        "Disk Number (iTunes)"@
    } else if t == "tmpo"@ {
        "Tempo (iTunes)"@
    } else if t == "covr"@ {
        "Cover Art (iTunes)"@
    } else if t == "aART"@ {
        "Album Artist (iTunes)"@
    } else if t == "----"@ {
        "Custom iTunes Metadata"@
    } else if t == "ilst"@ {
        "iTunes Metadata List"@
    } else if t == "mean"@ {
        "iTunes Metadata Mean"@
    } else if t == "data"@ {
        "iTunes Metadata Data"@
    } else if t == "keyw"@ {
        "Keywords"@
    } else if t == "catg"@ {
        "Category"@
    } else if t == "purl"@ {
        "Podcast URL"@
    } else if t == "egid"@ {
        "Episode Global Unique ID"@
    } else if t == "desc"@ {
        "Description"@
    } else if t == "ldes"@ {
        "Long Description"@
    } else if t == "sdes"@ {
        "Short Description"@
    } else if t == "avc1"@ {
        "AVC/H.264 Video"@
    } else if t == "avc2"@ {
        "AVC/H.264 Video (parameter sets in-band)"@
    } else if t == "avc3"@ {
        "AVC/H.264 Video (no parameter sets)"@
    } else if t == "avc4"@ {
        "AVC/H.264 Video (parameter sets in-band, no SPS/PPS)"@
    } else if t == "hvc1"@ {
        "HEVC/H.265 Video"@
    } else if t == "hev1"@ {
        "HEVC/H.265 Video (parameter sets in-band)"@
    } else if t == "mp4v"@ {
        "MPEG-4 Visual"@
    } else if t == "s263"@ {
        "H.263 Video"@
    } else if t == "vp08"@ {
        "VP8 Video"@
    } else if t == "vp09"@ {
        "VP9 Video"@
    } else if t == "av01"@ {
        "AV1 Video"@
    } else if t == "dvh1"@ {
        "Dolby Vision H.265"@
    } else if t == "dvhe"@ {
        "Dolby Vision H.265 (profile 8)"@
    } else if t == "mjp2"@ {
        "Motion JPEG 2000"@
    } else if t == "mp4a"@ {
        "MPEG-4 Audio (AAC)"@
    } else if t == "samr"@ {
        "AMR Narrow-Band Audio"@
    } else if t == "sawb"@ {
        "AMR Wide-Band Audio"@
    } else if t == "sawp"@ {
        "AMR Wide-Band+ Audio"@
    } else if t == "ac-3"@ {
        "AC-3 Audio (Dolby Digital)"@
    } else if t == "ec-3"@ {
        "Enhanced AC-3 Audio (Dolby Digital Plus)"@
    } else if t == "dtsc"@ {
        "DTS Coherent Acoustics"@
    } else if t == "dtsh"@ {
        "DTS-HD High Resolution"@
    } else if t == "dtsl"@ {
        "DTS-HD Master Audio"@
    } else if t == "dtse"@ {
        "DTS Express"@
    } else if t == "alac"@ {
        "Apple Lossless Audio"@
    } else if t == "fLaC"@ {
        "FLAC Audio"@
    } else if t == "Opus"@ {
        "Opus Audio"@
    } else if t == "mp3 "@ {
        "MPEG-1/2 Audio Layer III"@
    } else if t == "alaw"@ {
        "A-law Audio"@
    } else if t == "ulaw"@ {
        "\u{3BC}-law Audio"@
    } else if t == "sowt"@ {
        "PCM Signed Little-Endian"@
    } else if t == "twos"@ {
        "PCM Signed Big-Endian"@
    } else if t == "raw "@ {
        "PCM Uncompressed"@
    } else if t == "lpcm"@ {
        "Linear PCM"@
    } else if t == "tx3g"@ {
        "3GPP Timed Text"@
    } else if t == "text"@ {
        "QuickTime Text"@
    } else if t == "wvtt"@ {
        "WebVTT Subtitle"@
    } else if t == "stpp"@ {
        "XML Subtitle"@
    } else if t == "c608"@ {
        "CEA-608 Closed Captions"@
    } else if t == "c708"@ {
        "CEA-708 Closed Captions"@
    } else if t == "mett"@ {
        "Metadata Text"@
    } else if t == "metx"@ {
        "Metadata XML"@
    } else if t == "urim"@ {
        "URI Metadata"@
    } else if t == "sinf"@ {
        "Protection Scheme Information"@
    } else if t == "frma"@ {
        "Original Format"@
    } else if t == "schm"@ {
        "Scheme Type"@
    } else if t == "schi"@ {
        "Scheme Information"@
    } else if t == "encv"@ {
        "Encrypted Video Sample Entry"@
    } else if t == "enca"@ {
        "Encrypted Audio Sample Entry"@
    } else if t == "enct"@ {
        "Encrypted Text Sample Entry"@
    } else if t == "rinf"@ {
        "Restricted Scheme Information"@
    } else if t == "trgr"@ {
        "Track Grouping"@
    } else if t == "grpl"@ {
        "Group List"@
    } else if t == "wide"@ {
        "QuickTime Wide Atom (deprecated)"@
    } else if t == "pnot"@ {
        "Preview"@
    } else if t == "clip"@ {
        "Clipping"@
    } else if t == "crgn"@ {
        "Clipping Region"@
    } else if t == "matt"@ {
        "Matte"@
    } else if t == "kmat"@ {
        "Compressed Matte"@
    } else if t == "load"@ {
        "Track Load Settings"@
    } else if t == "imap"@ {
        "Track Input Map"@
    } else if t == "uuid"@ {
        "User Extension (UUID)"@
    } else if t == "esds"@ {
        "MPEG-4 Elementary Stream Descriptor"@
    } else if t == "avcC"@ {
        "AVC Configuration"@
    } else if t == "hvcC"@ {
        "HEVC Configuration"@
    } else if t == "vpcC"@ {
        "VP Codec Configuration"@
    } else if t == "av1C"@ {
        "AV1 Configuration"@
    } else if t == "dac3"@ {
        "AC-3 Specific Box"@
    } else if t == "dec3"@ {
        "Enhanced AC-3 Specific Box"@
    } else if t == "dvc1"@ {
        "VC-1 Configuration"@
    } else if t == "btrt"@ {
        "Bit Rate"@
    } else if t == "colr"@ {
        "Color Information"@
    } else if t == "pasp"@ {
        "Pixel Aspect Ratio"@
    } else if t == "clap"@ {
        "Clean Aperture"@
    } else if t == "mdcv"@ {
        "Mastering Display Color Volume"@
    } else if t == "clli"@ {
        "Content Light Level"@
    } else if t == "fiel"@ {
        "Field/Frame Information"@
    } else if t == "\u{A9}cpy"@ {
        "Copyright (iTunes)"@
    } else if t == "\u{A9}dir"@ {
        "Director (iTunes)"@
    } else if t == "\u{A9}ed1"@ {
        "Edit Date 1 (iTunes)"@
    } else if t == "\u{A9}ed2"@ {
        "Edit Date 2 (iTunes)"@
    } else if t == "\u{A9}ed3"@ {
        "Edit Date 3 (iTunes)"@
    } else if t == "\u{A9}fmt"@ {
        "Format (iTunes)"@
    } else if t == "\u{A9}inf"@ {
        "Information (iTunes)"@
    } else if t == "\u{A9}prd"@ {
        "Producer (iTunes)"@
    } else if t == "\u{A9}prf"@ {
        "Performers (iTunes)"@
    } else if t == "\u{A9}req"@ {
        "Requirements (iTunes)"@
    } else if t == "\u{A9}src"@ {
        "Source (iTunes)"@
    } else if t == "\u{A9}swr"@ {
        "Software (iTunes)"@
    } else if t == "gnre"@ {
        "Genre (iTunes old)"@
    } else if t == "hdvd"@ {
        "HD Video (iTunes)"@
    } else if t == "pgap"@ {
        "Gapless Playback (iTunes)"@
    } else if t == "pcst"@ {
        "Podcast (iTunes)"@
    } else if t == "cpil"@ {
        "Compilation (iTunes)"@
    } else if t == "rtng"@ {
        "Rating (iTunes)"@
    } else if t == "stik"@ {
        "Media Type (iTunes)"@
    } else if t == "tven"@ {
        "TV Episode (iTunes)"@
    } else if t == "tves"@ {
        "TV Episode Number (iTunes)"@
    } else if t == "tvnn"@ {
        "TV Network Name (iTunes)"@
    } else if t == "tvsh"@ {
        "TV Show Name (iTunes)"@
    } else if t == "tvsn"@ {
        "TV Season (iTunes)"@
    } else if t == "apID"@ {
        "Apple Store Account (iTunes)"@
    } else if t == "akID"@ {
        "Apple Store Kind (iTunes)"@
    } else if t == "atID"@ {
        "Album iTunes ID (iTunes)"@
    } else if t == "cnID"@ {
        "iTunes Catalog ID (iTunes)"@
    } else if t == "geID"@ {
        "Genre iTunes ID (iTunes)"@
    } else if t == "plID"@ {
        "Playlist iTunes ID (iTunes)"@
    } else if t == "sfID"@ {
        "Store Front ID (iTunes)"@
    } else if t == "soaa"@ {
        "Sort Album Artist (iTunes)"@
    } else if t == "soal"@ {
        "Sort Album (iTunes)"@
    } else if t == "soar"@ {
        "Sort Artist (iTunes)"@
    } else if t == "soco"@ {
        "Sort Composer (iTunes)"@
    } else if t == "sonm"@ {
        "Sort Name (iTunes)"@
    } else if t == "sosn"@ {
        "Sort Show (iTunes)"@
    } else if t == "xid "@ {
        "Vendor ID (iTunes)"@
    } else if t == "tfxd"@ {
        "Track Fragment Extended Decode Time"@
    } else if t == "tfrf"@ {
        "Track Fragment Reference"@
    } else if t == "ssix"@ {
        "Sub-Sample Index"@
    } else if t == "prft"@ {
        "Producer Reference Time"@
    } else if t == "emsg"@ {
        "Event Message"@
    } else {
        "Unknown Box Type"@
    }
}

/// Get a human-readable description for a box type.
#[verifier::rlimit(100)]
pub fn get_box_description(box_type: &str) -> (r: &'static str)
    ensures
        r@ == spec_box_description(box_type@),
{
    if str_eq(box_type, "ftyp") {
        "File Type and Compatibility"
    } else if str_eq(box_type, "moov") {
        "Movie Metadata Container"
    } else if str_eq(box_type, "mdat") {
        "Media Data"
    } else if str_eq(box_type, "free") {
        "Free Space"
    } else if str_eq(box_type, "skip") {
        "Free Space"
    } else if str_eq(box_type, "moof") {
        "Movie Fragment"
    } else if str_eq(box_type, "mfra") {
        "Movie Fragment Random Access"
    } else if str_eq(box_type, "meta") {
        "Metadata Container"
    } else if str_eq(box_type, "pdin") {
        "Progressive Download Information"
    } else if str_eq(box_type, "styp") {
        "Segment Type"
    } else if str_eq(box_type, "sidx") {
        "Segment Index"
    } else if str_eq(box_type, "mvhd") {
        "Movie Header"
    } else if str_eq(box_type, "trak") {
        "Track Container"
    } else if str_eq(box_type, "mvex") {
        "Movie Extends"
    } else if str_eq(box_type, "udta") {
        "User Data"
    } else if str_eq(box_type, "iods") {
        "Initial Object Descriptor"
    } else if str_eq(box_type, "tkhd") {
        "Track Header"
    } else if str_eq(box_type, "tref") {
        "Track Reference"
    } else if str_eq(box_type, "edts") {
        "Edit List Container"
    } else if str_eq(box_type, "mdia") {
        "Media Container"
    } else if str_eq(box_type, "chap") {
        "Chapter Track Reference"
    } else if str_eq(box_type, "tmcd") {
        "Timecode Track Reference"
    } else if str_eq(box_type, "sync") {
        "Sync Track Reference"
    } else if str_eq(box_type, "scpt") {
        "Script Track Reference"
    } else if str_eq(box_type, "ssrc") {
        "Non-Primary Source"
    } else if str_eq(box_type, "cdsc") {
        "Content Description Track Reference"
    } else if str_eq(box_type, "elst") {
        "Edit List"
    } else if str_eq(box_type, "mdhd") {
        "Media Header"
    } else if str_eq(box_type, "hdlr") {
        "Handler Reference"
    } else if str_eq(box_type, "minf") {
        "Media Information"
    } else if str_eq(box_type, "vmhd") {
        "Video Media Header"
    } else if str_eq(box_type, "smhd") {
        "Sound Media Header"
    } else if str_eq(box_type, "hmhd") {
        "Hint Media Header"
    } else if str_eq(box_type, "nmhd") {
        "Null Media Header"
    } else if str_eq(box_type, "dinf") {
        "Data Information"
    } else if str_eq(box_type, "stbl") {
        "Sample Table"
    } else if str_eq(box_type, "dref") {
        "Data Reference"
    } else if str_eq(box_type, "url ") {
        "Data Entry URL"
    } else if str_eq(box_type, "urn ") {
        "Data Entry URN"
    } else if str_eq(box_type, "stsd") {
        "Sample Description"
    } else if str_eq(box_type, "stts") {
        "Time-to-Sample"
    } else if str_eq(box_type, "ctts") {
        "Composition Time-to-Sample"
    } else if str_eq(box_type, "stsc") {
        "Sample-to-Chunk"
    } else if str_eq(box_type, "stsz") {
        "Sample Sizes"
    } else if str_eq(box_type, "stz2") {
        "Compact Sample Sizes"
    } else if str_eq(box_type, "stco") {
        "Chunk Offset (32-bit)"
    } else if str_eq(box_type, "co64") {
        "Chunk Offset (64-bit)"
    } else if str_eq(box_type, "stss") {
        "Sync Sample Table"
    } else if str_eq(box_type, "stsh") {
        "Shadow Sync Sample"
    } else if str_eq(box_type, "padb") {
        "Padding Bits"
    } else if str_eq(box_type, "stdp") {
        "Sample Degradation Priority"
    } else if str_eq(box_type, "sdtp") {
        "Sample Dependency"
    } else if str_eq(box_type, "sbgp") {
        "Sample-to-Group"
    } else if str_eq(box_type, "sgpd") {
        "Sample Group Description"
    } else if str_eq(box_type, "subs") {
        "Sub-Sample Information"
    } else if str_eq(box_type, "mehd") {
        "Movie Extends Header"
    } else if str_eq(box_type, "trex") {
        "Track Extends Defaults"
    } else if str_eq(box_type, "leva") {
        "Level Assignment"
    } else if str_eq(box_type, "mfhd") {
        "Movie Fragment Header"
    } else if str_eq(box_type, "traf") {
        "Track Fragment"
    } else if str_eq(box_type, "tfhd") {
        "Track Fragment Header"
    } else if str_eq(box_type, "trun") {
        "Track Fragment Run"
    } else if str_eq(box_type, "tfdt") {
        "Track Fragment Decode Time"
    } else if str_eq(box_type, "tfra") {
        "Track Fragment Random Access"
    } else if str_eq(box_type, "mfro") {
        "Movie Fragment Random Access Offset"
    } else if str_eq(box_type, "iloc") {
        "Item Location"
    } else if str_eq(box_type, "ipro") {
        "Item Protection"
    } else if str_eq(box_type, "iinf") {
        "Item Information"
    } else if str_eq(box_type, "xml ") {
        "XML Metadata"
    } else if str_eq(box_type, "bxml") {
        "Binary XML Metadata"
    } else if str_eq(box_type, "pitm") {
        "Primary Item"
    } else if str_eq(box_type, "idat") {
        "Item Data"
    } else if str_eq(box_type, "iref") {
        "Item Reference"
    } else if str_eq(box_type, "cprt") {
        "Copyright"
    } else if str_eq(box_type, "name") {
        "Name"
    } else if str_eq(box_type, "\u{A9}nam") {
        "Name (iTunes)"
    } else if str_eq(box_type, "\u{A9}ART") {
        "Artist (iTunes)"
    } else if str_eq(box_type, "\u{A9}alb") {
        "Album (iTunes)"
    } else if str_eq(box_type, "\u{A9}day") {
        "Year (iTunes)"
    } else if str_eq(box_type, "\u{A9}cmt") {
        "Comment (iTunes)"
    } else if str_eq(box_type, "\u{A9}gen") {
        "Genre (iTunes)"
    } else if str_eq(box_type, "\u{A9}too") {
        "Encoding Tool (iTunes)"
    } else if str_eq(box_type, "\u{A9}wrt") {
        "Composer (iTunes)"
    } else if str_eq(box_type, "\u{A9}grp") {
        "Grouping (iTunes)"
    } else if str_eq(box_type, "\u{A9}lyr") {
        "Lyrics (iTunes)"
    } else if str_eq(box_type, "trkn") {
        "Track Number (iTunes)"
    } else if str_eq(box_type, "disk") {
        "Disk Number (iTunes)"
    } else if str_eq(box_type, "tmpo") {
        "Tempo (iTunes)"
    } else if str_eq(box_type, "covr") {
        "Cover Art (iTunes)"
    } else if str_eq(box_type, "aART") {
        "Album Artist (iTunes)"
    } else if str_eq(box_type, "----") {
        "Custom iTunes Metadata"
    } else if str_eq(box_type, "ilst") {
        "iTunes Metadata List"
    } else if str_eq(box_type, "mean") {
        "iTunes Metadata Mean"
    } else if str_eq(box_type, "data") {
        "iTunes Metadata Data"
    } else if str_eq(box_type, "keyw") {
        "Keywords"
    } else if str_eq(box_type, "catg") {
        "Category"
    } else if str_eq(box_type, "purl") {
        "Podcast URL"
    } else if str_eq(box_type, "egid") {
        "Episode Global Unique ID"
    } else if str_eq(box_type, "desc") {
        "Description"
    } else if str_eq(box_type, "ldes") {
        "Long Description"
    } else if str_eq(box_type, "sdes") {
        "Short Description"
    } else if str_eq(box_type, "avc1") {
        "AVC/H.264 Video"
    } else if str_eq(box_type, "avc2") {
        "AVC/H.264 Video (parameter sets in-band)"
    } else if str_eq(box_type, "avc3") {
        "AVC/H.264 Video (no parameter sets)"
    } else if str_eq(box_type, "avc4") {
        "AVC/H.264 Video (parameter sets in-band, no SPS/PPS)"
    } else if str_eq(box_type, "hvc1") {
        "HEVC/H.265 Video"
    } else if str_eq(box_type, "hev1") {
        "HEVC/H.265 Video (parameter sets in-band)"
    } else if str_eq(box_type, "mp4v") {
        "MPEG-4 Visual"
    } else if str_eq(box_type, "s263") {
        "H.263 Video"
    } else if str_eq(box_type, "vp08") {
        "VP8 Video"
    } else if str_eq(box_type, "vp09") {
        "VP9 Video"
    } else if str_eq(box_type, "av01") {
        "AV1 Video"
    } else if str_eq(box_type, "dvh1") {
        "Dolby Vision H.265"
    } else if str_eq(box_type, "dvhe") {
        "Dolby Vision H.265 (profile 8)"
    } else if str_eq(box_type, "mjp2") {
        "Motion JPEG 2000"
    } else if str_eq(box_type, "mp4a") {
        "MPEG-4 Audio (AAC)"
    } else if str_eq(box_type, "samr") {
        "AMR Narrow-Band Audio"
    } else if str_eq(box_type, "sawb") {
        "AMR Wide-Band Audio"
    } else if str_eq(box_type, "sawp") {
        "AMR Wide-Band+ Audio"
    } else if str_eq(box_type, "ac-3") {
        "AC-3 Audio (Dolby Digital)"
    } else if str_eq(box_type, "ec-3") {
        "Enhanced AC-3 Audio (Dolby Digital Plus)"
    } else if str_eq(box_type, "dtsc") {
        "DTS Coherent Acoustics"
    } else if str_eq(box_type, "dtsh") {
        "DTS-HD High Resolution"
    } else if str_eq(box_type, "dtsl") {
        "DTS-HD Master Audio"
    } else if str_eq(box_type, "dtse") {
        "DTS Express"
    } else if str_eq(box_type, "alac") {
        "Apple Lossless Audio"
    } else if str_eq(box_type, "fLaC") {
        "FLAC Audio"
    } else if str_eq(box_type, "Opus") {
        "Opus Audio"
    } else if str_eq(box_type, "mp3 ") {
        "MPEG-1/2 Audio Layer III"
    } else if str_eq(box_type, "alaw") {
        "A-law Audio"
    } else if str_eq(box_type, "ulaw") {
        "\u{3BC}-law Audio"
    } else if str_eq(box_type, "sowt") {
        "PCM Signed Little-Endian"
    } else if str_eq(box_type, "twos") {
        "PCM Signed Big-Endian"
    } else if str_eq(box_type, "raw ") {
        "PCM Uncompressed"
    } else if str_eq(box_type, "lpcm") {
        "Linear PCM"
    } else if str_eq(box_type, "tx3g") {
        "3GPP Timed Text"
    } else if str_eq(box_type, "text") {
        "QuickTime Text"
    } else if str_eq(box_type, "wvtt") {
        "WebVTT Subtitle"
    } else if str_eq(box_type, "stpp") {
        "XML Subtitle"
    } else if str_eq(box_type, "c608") {
        "CEA-608 Closed Captions"
    } else if str_eq(box_type, "c708") {
        "CEA-708 Closed Captions"
    } else if str_eq(box_type, "mett") {
        "Metadata Text"
    } else if str_eq(box_type, "metx") {
        "Metadata XML"
    } else if str_eq(box_type, "urim") {
        "URI Metadata"
    } else if str_eq(box_type, "sinf") {
        "Protection Scheme Information"
    } else if str_eq(box_type, "frma") {
        "Original Format"
    } else if str_eq(box_type, "schm") {
        "Scheme Type"
    } else if str_eq(box_type, "schi") {
        "Scheme Information"
    } else if str_eq(box_type, "encv") {
        "Encrypted Video Sample Entry"
    } else if str_eq(box_type, "enca") {
        "Encrypted Audio Sample Entry"
    } else if str_eq(box_type, "enct") {
        "Encrypted Text Sample Entry"
    } else if str_eq(box_type, "rinf") {
        "Restricted Scheme Information"
    } else if str_eq(box_type, "trgr") {
        "Track Grouping"
    } else if str_eq(box_type, "grpl") {
        "Group List"
    } else if str_eq(box_type, "wide") {
        "QuickTime Wide Atom (deprecated)"
    } else if str_eq(box_type, "pnot") {
        "Preview"
    } else if str_eq(box_type, "clip") {
        "Clipping"
    } else if str_eq(box_type, "crgn") {
        "Clipping Region"
    } else if str_eq(box_type, "matt") {
        "Matte"
    } else if str_eq(box_type, "kmat") {
        "Compressed Matte"
    } else if str_eq(box_type, "load") {
        "Track Load Settings"
    } else if str_eq(box_type, "imap") {
        "Track Input Map"
    } else if str_eq(box_type, "uuid") {
        "User Extension (UUID)"
    } else if str_eq(box_type, "esds") {
        "MPEG-4 Elementary Stream Descriptor"
    } else if str_eq(box_type, "avcC") {
        "AVC Configuration"
    } else if str_eq(box_type, "hvcC") {
        "HEVC Configuration"
    } else if str_eq(box_type, "vpcC") {
        "VP Codec Configuration"
    } else if str_eq(box_type, "av1C") {
        "AV1 Configuration"
    } else if str_eq(box_type, "dac3") {
        "AC-3 Specific Box"
    } else if str_eq(box_type, "dec3") {
        "Enhanced AC-3 Specific Box"
    } else if str_eq(box_type, "dvc1") {
        "VC-1 Configuration"
    } else if str_eq(box_type, "btrt") {
        "Bit Rate"
    } else if str_eq(box_type, "colr") {
        "Color Information"
    } else if str_eq(box_type, "pasp") {
        "Pixel Aspect Ratio"
    } else if str_eq(box_type, "clap") {
        "Clean Aperture"
    } else if str_eq(box_type, "mdcv") {
        "Mastering Display Color Volume"
    } else if str_eq(box_type, "clli") {
        "Content Light Level"
    } else if str_eq(box_type, "fiel") {
        "Field/Frame Information"
    } else if str_eq(box_type, "\u{A9}cpy") {
        "Copyright (iTunes)"
    } else if str_eq(box_type, "\u{A9}dir") {
        "Director (iTunes)"
    } else if str_eq(box_type, "\u{A9}ed1") {
        "Edit Date 1 (iTunes)"
    } else if str_eq(box_type, "\u{A9}ed2") {
        "Edit Date 2 (iTunes)"
    } else if str_eq(box_type, "\u{A9}ed3") {
        "Edit Date 3 (iTunes)"
    } else if str_eq(box_type, "\u{A9}fmt") {
        "Format (iTunes)"
    } else if str_eq(box_type, "\u{A9}inf") {
        "Information (iTunes)"
    } else if str_eq(box_type, "\u{A9}prd") {
        "Producer (iTunes)"
    } else if str_eq(box_type, "\u{A9}prf") {
        "Performers (iTunes)"
    } else if str_eq(box_type, "\u{A9}req") {
        "Requirements (iTunes)"
    } else if str_eq(box_type, "\u{A9}src") {
        "Source (iTunes)"
    } else if str_eq(box_type, "\u{A9}swr") {
        "Software (iTunes)"
    } else if str_eq(box_type, "gnre") {
        "Genre (iTunes old)"
    } else if str_eq(box_type, "hdvd") {
        "HD Video (iTunes)"
    } else if str_eq(box_type, "pgap") {
        "Gapless Playback (iTunes)"
    } else if str_eq(box_type, "pcst") {
        "Podcast (iTunes)"
    } else if str_eq(box_type, "cpil") {
        "Compilation (iTunes)"
    } else if str_eq(box_type, "rtng") {
        "Rating (iTunes)"
    } else if str_eq(box_type, "stik") {
        "Media Type (iTunes)"
    } else if str_eq(box_type, "tven") {
        "TV Episode (iTunes)"
    } else if str_eq(box_type, "tves") {
        "TV Episode Number (iTunes)"
    } else if str_eq(box_type, "tvnn") {
        "TV Network Name (iTunes)"
    } else if str_eq(box_type, "tvsh") {
        "TV Show Name (iTunes)"
    } else if str_eq(box_type, "tvsn") {
        "TV Season (iTunes)"
    } else if str_eq(box_type, "apID") {
        "Apple Store Account (iTunes)"
    } else if str_eq(box_type, "akID") {
        "Apple Store Kind (iTunes)"
    } else if str_eq(box_type, "atID") {
        "Album iTunes ID (iTunes)"
    } else if str_eq(box_type, "cnID") {
        "iTunes Catalog ID (iTunes)"
    } else if str_eq(box_type, "geID") {
        "Genre iTunes ID (iTunes)"
    } else if str_eq(box_type, "plID") {
        "Playlist iTunes ID (iTunes)"
    } else if str_eq(box_type, "sfID") {
        "Store Front ID (iTunes)"
    } else if str_eq(box_type, "soaa") {
        "Sort Album Artist (iTunes)"
    } else if str_eq(box_type, "soal") {
        "Sort Album (iTunes)"
    } else if str_eq(box_type, "soar") {
        "Sort Artist (iTunes)"
    } else if str_eq(box_type, "soco") {
        "Sort Composer (iTunes)"
    } else if str_eq(box_type, "sonm") {
        "Sort Name (iTunes)"
    } else if str_eq(box_type, "sosn") {
        "Sort Show (iTunes)"
    } else if str_eq(box_type, "xid ") {
        "Vendor ID (iTunes)"
    } else if str_eq(box_type, "tfxd") {
        "Track Fragment Extended Decode Time"
    } else if str_eq(box_type, "tfrf") {
        "Track Fragment Reference"
    } else if str_eq(box_type, "ssix") {
        "Sub-Sample Index"
    } else if str_eq(box_type, "prft") {
        "Producer Reference Time"
    } else if str_eq(box_type, "emsg") {
        "Event Message"
    } else {
        "Unknown Box Type"
    }
}

impl IsobmffBox {
    /// Create a new box with no children, payload or content yet; the
    /// container flag follows from the type.
    pub fn new(offset: u64, box_type: String, size: u64, header_size: u64) -> (r: Self)
        ensures
            r.offset == offset,
            r.box_type == box_type,
            r.size == size,
            r.header_size == header_size,
            r.is_container == spec_is_container_type(box_type@),
            r.children@.len() == 0,
            r.data@.len() == 0,
            r.content is None,
            r.itunes_content is None,
    {
        let is_container = is_container_type(box_type.as_str());
        Self {
            offset,
            box_type,
            size,
            header_size,
            is_container,
            children: Vec::new(),
            data: Vec::new(),
            content: None,
            itunes_content: None,
        }
    }

    /// Get the human-readable description of this box's type.
    pub fn get_description(&self) -> (r: &'static str)
        ensures
            r@ == spec_box_description(self.box_type@),
    {
        get_box_description(self.box_type.as_str())
    }

    /// The payload size: the box size with the header taken off, never
    /// below zero.
    pub fn data_size(&self) -> (r: u64)
        ensures
            r == (if self.size >= self.header_size {
                self.size - self.header_size
            } else {
                0int
            }),
    {
        self.size.saturating_sub(self.header_size)
    }
}

} // verus!
