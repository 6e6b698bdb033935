//! Chapter track reference box (`chap`): a list of 32-bit track ids.

use vstd::prelude::*;

use crate::bytes::read_be_u32;
use crate::bytes::spec_be32_at;
use crate::error::ParseError;

verus! {

/// A decoded chapter track reference box.
#[derive(Debug, Clone)]
pub struct ChapterBox {
    pub track_ids: Vec<u32>,
}

/// The track ids: each complete 4-byte group; a trailing partial group is
/// dropped.
pub open spec fn spec_chap_track_ids(data: Seq<u8>) -> Seq<u32> {
    Seq::new(((data.len() / 4) as nat), |i: int| spec_be32_at(data, 4 * i) as u32)
}

/// Why a chap payload is rejected, if it is.
pub open spec fn spec_chap_error(data: Seq<u8>) -> Option<ParseError> {
    if data.len() < 4 {
        Some(ParseError::TooShort)
    } else {
        None
    }
}

/// The box decodes `data`: one 32-bit track id per complete 4-byte group.
pub open spec fn spec_chap_ok(data: Seq<u8>, b: ChapterBox) -> bool {
    data.len() >= 4 && b.track_ids@ == spec_chap_track_ids(data)
}

impl ChapterBox {
    /// Parse a chap box payload.
    pub fn parse(data: &[u8]) -> (r: Result<Self, ParseError>)
        ensures
            match r {
                Ok(b) => spec_chap_error(data@) is None && spec_chap_ok(data@, b),
                Err(e) => spec_chap_error(data@) == Some(e),
            },
    {
        if data.len() < 4 {
            return Err(ParseError::TooShort);
        }
        let count: usize = data.len() / 4;
        proof {
            vstd::arithmetic::div_mod::lemma_fundamental_div_mod(data@.len() as int, 4);
        }
        let mut track_ids: Vec<u32> = Vec::new();
        let mut i: usize = 0;
        while i < count
            invariant
                0 <= i <= count,
                data@.len() <= usize::MAX,
                count == data@.len() / 4,
                4 * count <= data@.len(),
                track_ids@ == spec_chap_track_ids(data@).subrange(0, i as int),
            decreases count - i,
        {
            track_ids.push(read_be_u32(data, 4 * i));
            proof {
                assert(spec_chap_track_ids(data@).subrange(0, i + 1 as int)
                    =~= spec_chap_track_ids(data@).subrange(0, i as int).push(
                    spec_chap_track_ids(data@)[i as int],
                ));
            }
            i = i + 1;
        }
        proof {
            assert(spec_chap_track_ids(data@).subrange(0, count as int) =~= spec_chap_track_ids(
                data@,
            ));
        }
        Ok(ChapterBox { track_ids })
    }
}

} // verus!
