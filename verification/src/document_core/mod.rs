//! The core of a document.

pub mod converters;
