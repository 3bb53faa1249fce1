//! What stands between a document and its drawn page.

pub mod equation;
pub mod height_cursor;
