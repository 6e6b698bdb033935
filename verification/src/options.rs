//! Options controlling what a dissection reports.

use vstd::prelude::*;

verus! {

/// Options for controlling dissect output.
#[derive(Debug, Clone, Copy, PartialEq, Eq, Structural)]
pub struct DissectOptions {
    pub show_header: bool,
    pub show_data: bool,
    pub show_verbose: bool,
    pub show_dump: bool,
}

impl DissectOptions {
    /// Combine the command-line flags: with none of header, data and all
    /// given, or with all given, everything is shown; otherwise the
    /// specific flags decide. Verbose and dump pass through.
    pub fn from_flags(header: bool, data: bool, all: bool, verbose: bool, dump: bool) -> (r: Self)
        ensures
            r.show_header == (header || all || (!header && !data)),
            r.show_data == (data || all || (!header && !data)),
            r.show_verbose == verbose,
            r.show_dump == dump,
    {
        if !header && !data && !all {
            return DissectOptions {
                show_header: true,
                show_data: true,
                show_verbose: verbose,
                show_dump: dump,
            };
        }
        if all {
            return DissectOptions {
                show_header: true,
                show_data: true,
                show_verbose: verbose,
                show_dump: dump,
            };
        }
        DissectOptions { show_header: header, show_data: data, show_verbose: verbose, show_dump: dump }
    }
}

} // verus!
