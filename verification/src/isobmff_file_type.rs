//! File type box (`ftyp`): major brand, minor version and the list of
//! compatible brands, four bytes each.

use vstd::prelude::*;

use crate::bytes::read_be_u32;
use crate::bytes::spec_be32_at;
use crate::error::ParseError;
use crate::id3v2_text_encoding::string_views;
use crate::strutil::utf8_lossy_chars;
use crate::strutil::utf8_lossy_decode;

verus! {

/// A decoded file type box.
#[derive(Debug, Clone)]
pub struct FileTypeBox {
    pub major_brand: String,
    pub minor_version: u32,
    pub compatible_brands: Vec<String>,
}

/// The compatible brands: each complete 4-byte group after the first
/// eight bytes; a trailing partial group is dropped.
pub open spec fn spec_ftyp_brands(data: Seq<u8>) -> Seq<Seq<char>> {
    Seq::new(
        (((data.len() - 8) / 4) as nat),
        |i: int| utf8_lossy_chars(data.subrange(8 + 4 * i, 12 + 4 * i)),
    )
}

/// Why an ftyp payload is rejected, if it is.
pub open spec fn spec_ftyp_error(data: Seq<u8>) -> Option<ParseError> {
    if data.len() < 8 {
        Some(ParseError::TooShort)
    } else {
        None
    }
}

/// The box decodes `data`: brand in the first four bytes, minor version
/// after it, compatible brands in the rest.
pub open spec fn spec_ftyp_ok(data: Seq<u8>, f: FileTypeBox) -> bool {
    &&& data.len() >= 8
    &&& f.major_brand@ == utf8_lossy_chars(data.subrange(0, 4))
    &&& f.minor_version == spec_be32_at(data, 4)
    &&& string_views(f.compatible_brands@) == spec_ftyp_brands(data)
}

impl FileTypeBox {
    /// Parse an ftyp box payload.
    pub fn parse(data: &[u8]) -> (r: Result<Self, ParseError>)
        ensures
            match r {
                Ok(f) => spec_ftyp_error(data@) is None && spec_ftyp_ok(data@, f),
                Err(e) => spec_ftyp_error(data@) == Some(e),
            },
    {
        if data.len() < 8 {
            return Err(ParseError::TooShort);
        }
        let major_brand = utf8_lossy_decode(&data[0..4]);
        let minor_version = read_be_u32(data, 4);
        let count: usize = (data.len() - 8) / 4;
        proof {
            vstd::arithmetic::div_mod::lemma_fundamental_div_mod((data@.len() - 8) as int, 4);
        }
        let mut compatible_brands: Vec<String> = Vec::new();
        let mut i: usize = 0;
        while i < count
            invariant
                0 <= i <= count,
                data@.len() <= usize::MAX,
                data@.len() >= 8,
                count == (data@.len() - 8) / 4,
                8 + 4 * count <= data@.len(),
                string_views(compatible_brands@) == spec_ftyp_brands(data@).subrange(0, i as int),
            decreases count - i,
        {
            let brand = utf8_lossy_decode(&data[8 + 4 * i..12 + 4 * i]);
            let ghost pre = compatible_brands@;
            compatible_brands.push(brand);
            proof {
                assert(string_views(pre.push(brand)) =~= string_views(pre).push(brand@));
                assert(spec_ftyp_brands(data@).subrange(0, i + 1 as int) =~= spec_ftyp_brands(
                    data@,
                ).subrange(0, i as int).push(spec_ftyp_brands(data@)[i as int]));
            }
            i = i + 1;
        }
        proof {
            assert(spec_ftyp_brands(data@).subrange(0, count as int) =~= spec_ftyp_brands(data@));
        }
        Ok(FileTypeBox { major_brand, minor_version, compatible_brands })
    }
}

} // verus!
