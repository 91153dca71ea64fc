//! The errors of the library.

use vstd::prelude::*;

verus! {

#[derive(Debug, Clone, Copy, PartialEq, Eq, Structural)]
pub enum EditorError {
    /// The grid has no row or no column, or more than a terminal can report.
    Config,
    /// Bytes handed to the output stage are not UTF-8.
    Encoding,
}

} // verus!
