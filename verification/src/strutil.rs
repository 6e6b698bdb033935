//! String building and text decoding primitives.
//!
//! The decoders in this crate produce `String` values from raw bytes. The
//! few `std` string operations that vstd gives no specification to are
//! wrapped here; everything else is built on top of them in verified code.

use vstd::prelude::*;
use vstd::string::StrSliceExecFns;

verus! {

/// The characters of an ISO-8859-1 (Latin-1) byte run: every byte maps to
/// the character with the same code point.
pub open spec fn latin1_chars(bytes: Seq<u8>) -> Seq<char> {
    bytes.map_values(|b: u8| b as char)
}

/// Relies on String::push: appends exactly one character.
#[verifier::external_body]
pub fn push_char(s: &mut String, c: char)
    ensures
        final(s)@ == old(s)@.push(c),
{
    s.push(c)
}

/// Relies on str equality (PartialEq): two string slices are equal exactly
/// when their character sequences are.
#[verifier::external_body]
pub fn str_eq(a: &str, b: &str) -> (r: bool)
    ensures
        r == (a@ == b@),
{
    a == b
}

/// The characters that `String::from_utf8_lossy` produces for a byte run
/// that is not valid UTF-8; a function of the bytes alone.
pub uninterp spec fn utf8_lossy_chars(bytes: Seq<u8>) -> Seq<char>;

/// Relies on String::from_utf8_lossy: on valid UTF-8 it is exactly the
/// UTF-8 decoding; on any input it depends on the bytes alone.
#[verifier::external_body]
pub fn utf8_lossy_decode(bytes: &[u8]) -> (r: String)
    ensures
        r@ == utf8_lossy_chars(bytes@),
        vstd::utf8::valid_utf8(bytes@) ==> r@ == vstd::utf8::decode_utf8(bytes@),
        bytes@.len() == 0 ==> r@.len() == 0,
{
    String::from_utf8_lossy(bytes).to_string()
}

/// What `String::from_utf16` yields for a sequence of UTF-16 code units:
/// the decoded characters, or nothing when the units are not well-formed
/// UTF-16; a function of the units alone.
pub uninterp spec fn utf16_chars(units: Seq<u16>) -> Option<Seq<char>>;

/// True of a UTF-16 code unit that is a character of the basic plane on
/// its own (it is not a surrogate half).
pub open spec fn is_bmp_unit(u: u16) -> bool {
    u < 0xD800 || u >= 0xE000
}

/// Relies on String::from_utf16: it decodes well-formed UTF-16 and rejects
/// anything else; units outside the surrogate range stand for themselves.
#[verifier::external_body]
pub fn utf16_decode(units: &[u16]) -> (r: Option<String>)
    ensures
        match r {
            Some(s) => utf16_chars(units@) == Some(s@),
            None => utf16_chars(units@) is None,
        },
        (forall|i: int| 0 <= i < units@.len() ==> is_bmp_unit(units@[i])) ==> (match r {
            Some(s) => s@ == units@.map_values(|u: u16| u as char),
            None => false,
        }),
{
    match String::from_utf16(units) {
        Ok(s) => Some(s),
        Err(_) => None,
    }
}

/// Decode an ISO-8859-1 byte run; every byte is a character.
pub fn latin1_decode(bytes: &[u8]) -> (r: String)
    ensures
        r@ == latin1_chars(bytes@),
{
    let mut s = String::new();
    let mut i: usize = 0;
    while i < bytes.len()
        invariant
            i <= bytes@.len(),
            s@ == latin1_chars(bytes@.subrange(0, i as int)),
        decreases bytes@.len() - i,
    {
        push_char(&mut s, bytes[i] as char);
        proof {
            assert(latin1_chars(bytes@.subrange(0, i + 1 as int)) =~= latin1_chars(
                bytes@.subrange(0, i as int),
            ).push(bytes@[i as int] as char));
        }
        i = i + 1;
    }
    proof {
        assert(bytes@.subrange(0, bytes@.len() as int) =~= bytes@);
    }
    s
}

/// What `String::from_utf16_lossy` yields for a sequence of UTF-16 code
/// units; a function of the units alone.
pub uninterp spec fn utf16_lossy_chars(units: Seq<u16>) -> Seq<char>;

/// Relies on String::from_utf16_lossy: invalid data is replaced, never
/// rejected; units outside the surrogate range stand for themselves.
#[verifier::external_body]
pub fn utf16_lossy_decode(units: &[u16]) -> (r: String)
    ensures
        r@ == utf16_lossy_chars(units@),
        (forall|i: int| 0 <= i < units@.len() ==> is_bmp_unit(units@[i])) ==> r@
            == units@.map_values(|u: u16| u as char),
{
    String::from_utf16_lossy(units)
}

/// The characters left after trailing NUL characters are dropped.
pub open spec fn spec_trim_nulls(s: Seq<char>) -> Seq<char>
    decreases s.len(),
{
    if s.len() > 0 && s[s.len() - 1] == '\0' {
        spec_trim_nulls(s.drop_last())
    } else {
        s
    }
}

/// Drop trailing NUL characters from a string.
pub fn trim_trailing_nulls(s: &str) -> (r: String)
    ensures
        r@ == spec_trim_nulls(s@),
{
    let mut len: usize = s.unicode_len();
    proof {
        assert(s@.subrange(0, len as int) =~= s@);
    }
    while len > 0 && s.get_char(len - 1) == '\0'
        invariant
            0 <= len <= s@.len(),
            spec_trim_nulls(s@) == spec_trim_nulls(s@.subrange(0, len as int)),
        decreases len,
    {
        proof {
            assert(s@.subrange(0, len as int).drop_last() =~= s@.subrange(0, len - 1 as int));
        }
        len = len - 1;
    }
    proof {
        assert(spec_trim_nulls(s@.subrange(0, len as int)) == s@.subrange(0, len as int));
    }
    let mut out = String::new();
    let mut i: usize = 0;
    while i < len
        invariant
            0 <= i <= len <= s@.len(),
            out@ == s@.subrange(0, i as int),
        decreases len - i,
    {
        push_char(&mut out, s.get_char(i));
        proof {
            assert(s@.subrange(0, i + 1 as int) =~= s@.subrange(0, i as int).push(s@[i as int]));
        }
        i = i + 1;
    }
    out
}

/// Copy the byte range `[start, end)` out of a slice.
pub fn sub_bytes(data: &[u8], start: usize, end: usize) -> (r: Vec<u8>)
    requires
        start <= end <= data@.len(),
    ensures
        r@ == data@.subrange(start as int, end as int),
{
    let mut v: Vec<u8> = Vec::new();
    let mut i: usize = start;
    while i < end
        invariant
            start <= i <= end <= data@.len(),
            v@ == data@.subrange(start as int, i as int),
        decreases end - i,
    {
        v.push(data[i]);
        proof {
            assert(data@.subrange(start as int, i + 1 as int) =~= data@.subrange(
                start as int,
                i as int,
            ).push(data@[i as int]));
        }
        i = i + 1;
    }
    v
}

} // verus!
