//! Call-site markers: where a failure was raised or passed on.
use vstd::prelude::*;

verus! {

/// An opaque source position: a file, a line and a column.
#[derive(Clone, Copy)]
pub struct CallSite {
    pub file: &'static str,
    pub line: u32,
    pub column: u32,
}

impl CallSite {
    pub fn new(file: &'static str, line: u32, column: u32) -> (r: CallSite)
        ensures
            r.file == file,
            r.line == line,
            r.column == column,
    {
        CallSite { file, line, column }
    }
}

} // verus!
