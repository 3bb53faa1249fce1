//! Document-format logic of a word processor: the equation-script reader, the
//! normalisation of documents read from the XML format before they are saved in the
//! binary format, and the integer part of the column height cursor.

pub mod bytes;
pub mod document_core;
pub mod model;
pub mod parser;
pub mod renderer;
pub mod text;
