//! Sample table boxes: sample descriptions (`stsd`), time-to-sample
//! (`stts`), sample-to-chunk (`stsc`), sample sizes (`stsz`) and chunk
//! offsets (`stco`, `co64`).

use vstd::prelude::*;

use crate::bytes::read_be_u32;
use crate::bytes::spec_be32_at;
use crate::error::ParseError;
use crate::id3v2_text_encoding::string_views;
use crate::strutil::utf8_lossy_chars;
use crate::strutil::utf8_lossy_decode;

verus! {

/// A decoded sample description box.
#[derive(Debug, Clone)]
pub struct SampleDescriptionBox {
    pub version: u8,
    pub entry_count: u32,
    /// The format code of each entry that could be read.
    pub entries: Vec<String>,
}

/// The format codes of up to `count` sample entries from `pos` on: each
/// entry declares its own size; a short or malformed entry truncates the
/// list without failing the box.
pub open spec fn spec_stsd_entries(data: Seq<u8>, pos: int, count: int) -> Seq<Seq<char>>
    decreases count,
{
    if count <= 0 {
        seq![]
    } else if pos + 8 > data.len() {
        seq![]
    } else {
        let entry_size = spec_be32_at(data, pos);
        let format = utf8_lossy_chars(data.subrange(pos + 4, pos + 8));
        if pos + entry_size >= data.len() {
            seq![format]
        } else {
            seq![format] + spec_stsd_entries(data, pos + entry_size, count - 1)
        }
    }
}

/// Why an stsd payload is rejected, if it is.
pub open spec fn spec_stsd_error(data: Seq<u8>) -> Option<ParseError> {
    if data.len() < 8 {
        Some(ParseError::TooShort)
    } else {
        None
    }
}

/// The box decodes `data`: version, declared entry count, and the format
/// codes of the entries that fit.
pub open spec fn spec_stsd_ok(data: Seq<u8>, b: SampleDescriptionBox) -> bool {
    &&& data.len() >= 8
    &&& b.version == data[0]
    &&& b.entry_count == spec_be32_at(data, 4)
    &&& string_views(b.entries@) == spec_stsd_entries(data, 8, b.entry_count as int)
}

impl SampleDescriptionBox {
    /// Parse an stsd box payload.
    pub fn parse(data: &[u8]) -> (r: Result<Self, ParseError>)
        ensures
            match r {
                Ok(b) => spec_stsd_error(data@) is None && spec_stsd_ok(data@, b),
                Err(e) => spec_stsd_error(data@) == Some(e),
            },
    {
        if data.len() < 8 {
            return Err(ParseError::TooShort);
        }
        let version = data[0];
        let entry_count = read_be_u32(data, 4);
        let n: usize = data.len();
        let mut entries: Vec<String> = Vec::new();
        let mut offset: usize = 8;
        let mut k: u32 = 0;
        let mut stopped: bool = false;
        proof {
            assert(string_views(entries@) + spec_stsd_entries(data@, 8, entry_count as int)
                =~= spec_stsd_entries(data@, 8, entry_count as int));
        }
        while !stopped && k < entry_count
            invariant
                n == data@.len(),
                0 <= k <= entry_count,
                0 <= offset,
                spec_stsd_entries(data@, 8, entry_count as int) == string_views(entries@) + (
                if stopped {
                    Seq::<Seq<char>>::empty()
                } else {
                    spec_stsd_entries(data@, offset as int, entry_count - k)
                }),
            decreases entry_count - k, (if stopped {
                0int
            } else {
                1int
            }),
        {
            let ghost here = spec_stsd_entries(data@, offset as int, entry_count - k);
            if n < 8 || offset > n - 8 {
                stopped = true;
                proof {
                    assert(here =~= Seq::<Seq<char>>::empty());
                }
            } else {
                let entry_size = read_be_u32(data, offset);
                let format = utf8_lossy_decode(&data[offset + 4..offset + 8]);
                let ghost pre = entries@;
                entries.push(format);
                proof {
                    assert(string_views(pre.push(format)) =~= string_views(pre).push(format@));
                }
                if entry_size as usize >= n - offset {
                    stopped = true;
                    proof {
                        assert(offset + entry_size as int >= n);
                        assert(here =~= seq![format@]);
                        assert(string_views(pre) + seq![format@] =~= string_views(entries@));
                    }
                } else {
                    proof {
                        assert(here =~= seq![format@] + spec_stsd_entries(
                            data@,
                            offset + entry_size as int,
                            entry_count - k - 1,
                        ));
                        assert(string_views(pre) + (seq![format@] + spec_stsd_entries(
                            data@,
                            offset + entry_size as int,
                            entry_count - k - 1,
                        )) =~= string_views(entries@) + spec_stsd_entries(
                            data@,
                            offset + entry_size as int,
                            entry_count - k - 1,
                        ));
                    }
                    offset = offset + entry_size as usize;
                }
            }
            k = k + 1;
        }
        proof {
            if !stopped {
                assert(spec_stsd_entries(data@, offset as int, 0) =~= Seq::<Seq<char>>::empty());
            }
            assert(string_views(entries@) + Seq::<Seq<char>>::empty() =~= string_views(entries@));
        }
        Ok(SampleDescriptionBox { version, entry_count, entries })
    }
}

/// A decoded time-to-sample box: only the entry count is kept.
#[derive(Debug, Clone)]
pub struct TimeToSampleBox {
    pub version: u8,
    pub entry_count: u32,
}

/// Why a count-only sample-table payload is rejected, if it is.
pub open spec fn spec_count_box_error(data: Seq<u8>) -> Option<ParseError> {
    if data.len() < 8 {
        Some(ParseError::TooShort)
    } else {
        None
    }
}

/// A version byte and a 32-bit entry count at byte 4.
pub open spec fn spec_count_box_ok(data: Seq<u8>, version: u8, entry_count: u32) -> bool {
    data.len() >= 8 && version == data[0] && entry_count == spec_be32_at(data, 4)
}

impl TimeToSampleBox {
    /// Parse an stts box payload.
    pub fn parse(data: &[u8]) -> (r: Result<Self, ParseError>)
        ensures
            match r {
                Ok(b) => spec_count_box_error(data@) is None && spec_count_box_ok(
                    data@,
                    b.version,
                    b.entry_count,
                ),
                Err(e) => spec_count_box_error(data@) == Some(e),
            },
    {
        if data.len() < 8 {
            return Err(ParseError::TooShort);
        }
        Ok(TimeToSampleBox { version: data[0], entry_count: read_be_u32(data, 4) })
    }
}

/// A decoded sample-to-chunk box: only the entry count is kept.
#[derive(Debug, Clone)]
pub struct SampleToChunkBox {
    pub version: u8,
    pub entry_count: u32,
}

impl SampleToChunkBox {
    /// Parse an stsc box payload.
    pub fn parse(data: &[u8]) -> (r: Result<Self, ParseError>)
        ensures
            match r {
                Ok(b) => spec_count_box_error(data@) is None && spec_count_box_ok(
                    data@,
                    b.version,
                    b.entry_count,
                ),
                Err(e) => spec_count_box_error(data@) == Some(e),
            },
    {
        if data.len() < 8 {
            return Err(ParseError::TooShort);
        }
        Ok(SampleToChunkBox { version: data[0], entry_count: read_be_u32(data, 4) })
    }
}

/// A decoded sample size box.
#[derive(Debug, Clone)]
pub struct SampleSizeBox {
    pub version: u8,
    /// The constant sample size, or zero when sizes vary per sample.
    pub sample_size: u32,
    pub sample_count: u32,
}

/// Why an stsz payload is rejected, if it is.
pub open spec fn spec_stsz_error(data: Seq<u8>) -> Option<ParseError> {
    if data.len() < 12 {
        Some(ParseError::TooShort)
    } else {
        None
    }
}

/// The box decodes `data`: constant size at byte 4, count at byte 8.
pub open spec fn spec_stsz_ok(data: Seq<u8>, b: SampleSizeBox) -> bool {
    &&& data.len() >= 12
    &&& b.version == data[0]
    &&& b.sample_size == spec_be32_at(data, 4)
    &&& b.sample_count == spec_be32_at(data, 8)
}

impl SampleSizeBox {
    /// Parse an stsz box payload.
    pub fn parse(data: &[u8]) -> (r: Result<Self, ParseError>)
        ensures
            match r {
                Ok(b) => spec_stsz_error(data@) is None && spec_stsz_ok(data@, b),
                Err(e) => spec_stsz_error(data@) == Some(e),
            },
    {
        if data.len() < 12 {
            return Err(ParseError::TooShort);
        }
        Ok(
            SampleSizeBox {
                version: data[0],
                sample_size: read_be_u32(data, 4),
                sample_count: read_be_u32(data, 8),
            },
        )
    }
}

/// A decoded 32-bit chunk offset box: only the entry count is kept.
#[derive(Debug, Clone)]
pub struct ChunkOffsetBox {
    pub version: u8,
    pub entry_count: u32,
}

impl ChunkOffsetBox {
    /// Parse an stco box payload.
    pub fn parse(data: &[u8]) -> (r: Result<Self, ParseError>)
        ensures
            match r {
                Ok(b) => spec_count_box_error(data@) is None && spec_count_box_ok(
                    data@,
                    b.version,
                    b.entry_count,
                ),
                Err(e) => spec_count_box_error(data@) == Some(e),
            },
    {
        if data.len() < 8 {
            return Err(ParseError::TooShort);
        }
        Ok(ChunkOffsetBox { version: data[0], entry_count: read_be_u32(data, 4) })
    }
}

/// A decoded 64-bit chunk offset box: only the entry count is kept.
#[derive(Debug, Clone)]
pub struct ChunkOffset64Box {
    pub version: u8,
    pub entry_count: u32,
}

impl ChunkOffset64Box {
    /// Parse a co64 box payload.
    pub fn parse(data: &[u8]) -> (r: Result<Self, ParseError>)
        ensures
            match r {
                Ok(b) => spec_count_box_error(data@) is None && spec_count_box_ok(
                    data@,
                    b.version,
                    b.entry_count,
                ),
                Err(e) => spec_count_box_error(data@) == Some(e),
            },
    {
        if data.len() < 8 {
            return Err(ParseError::TooShort);
        }
        Ok(ChunkOffset64Box { version: data[0], entry_count: read_be_u32(data, 4) })
    }
}

} // verus!
