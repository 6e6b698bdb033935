//! Fallback dissector for unknown file formats: it accepts anything and
//! decodes nothing.

use vstd::prelude::*;

verus! {

/// The pass-through dissector for unrecognized files.
pub struct UnknownDissector;

impl UnknownDissector {
    /// The media type label this dissector reports.
    pub fn media_type(&self) -> (r: &'static str)
        ensures
            r@ == "Unknown"@,
    {
        "Unknown"
    }

    /// The descriptive name of this dissector.
    pub fn name(&self) -> (r: &'static str)
        ensures
            r@ == "Unknown Format Dissector"@,
    {
        "Unknown Format Dissector"
    }

    /// The fallback always claims the file.
    pub fn can_handle(&self, header: &[u8]) -> (r: bool)
        ensures
            r == true,
    {
        true
    }
}

} // verus!
