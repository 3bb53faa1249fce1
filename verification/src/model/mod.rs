//! The document model.

pub mod bin_data;
pub mod control;
pub mod document;
pub mod image;
pub mod paragraph;
pub mod shape;
pub mod style;
pub mod table;

use vstd::prelude::*;

verus! {

/// Margins on the four sides of a box.
#[derive(Debug, Clone, Copy, PartialEq, Eq, Structural, Default)]
pub struct Padding {
    pub left: i16,
    pub right: i16,
    pub top: i16,
    pub bottom: i16,
}

/// What an optional string holds.
pub open spec fn text_opt(o: Option<String>) -> Option<Seq<char>> {
    match o {
        Some(s) => Some(s@),
        None => None,
    }
}

/// What an optional run of bytes holds.
pub open spec fn bytes_opt(o: Option<Vec<u8>>) -> Option<Seq<u8>> {
    match o {
        Some(v) => Some(v@),
        None => None,
    }
}

/// What a list of optional records holds.
pub open spec fn records(s: Seq<Option<Vec<u8>>>) -> Seq<Option<Seq<u8>>> {
    s.map_values(|o: Option<Vec<u8>>| bytes_opt(o))
}

} // verus!
