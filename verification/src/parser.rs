//! File formats.

use vstd::prelude::*;

verus! {

/// The formats that documents are read from.
#[derive(Debug, Clone, Copy, PartialEq, Eq, Structural)]
pub enum FileFormat {
    Hwp,
    Hwpx,
    Hwp3,
    Unknown,
}

} // verus!
