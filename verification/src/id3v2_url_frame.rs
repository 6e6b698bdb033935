//! URL link frame (`W***` frames except `WXXX`).
//!
//! Layout: the whole payload is one URL, always in ISO-8859-1.

use vstd::prelude::*;

use crate::error::ParseError;
use crate::strutil::latin1_chars;
use crate::strutil::latin1_decode;

verus! {

/// A decoded URL link frame.
#[derive(Debug, Clone)]
pub struct UrlFrame {
    pub url: String,
}

impl UrlFrame {
    /// Parse a URL frame from raw data; never fails, every byte is a
    /// Latin-1 character of the URL.
    pub fn parse(data: &[u8]) -> (r: Result<Self, ParseError>)
        ensures
            match r {
                Ok(uf) => uf.url@ == latin1_chars(data@),
                Err(_) => false,
            },
    {
        let url = latin1_decode(data);
        Ok(UrlFrame { url })
    }
}

} // verus!
