//! Paragraphs.

use super::control::{control_views, Control, ControlView};
use super::records;
use vstd::prelude::*;

verus! {

/// Where a shape of characters starts.
#[derive(Debug, Clone, Copy, PartialEq, Eq, Structural, Default)]
pub struct CharShapeRef {
    pub start_pos: u32,
    pub char_shape_id: u32,
}

/// A mark on a range of characters.
#[derive(Debug, Clone, Copy, PartialEq, Eq, Structural, Default)]
pub struct RangeTag {
    pub start: u32,
    pub end: u32,
    pub tag: u32,
}

/// One laid out line.
#[derive(Debug, Clone, Copy, PartialEq, Eq, Structural, Default)]
pub struct LineSeg {
    pub text_start: u32,
    pub vertical_pos: i32,
    pub line_height: i32,
    pub text_height: i32,
    pub baseline_distance: i32,
    pub line_spacing: i32,
    pub column_start: i32,
    pub segment_width: i32,
    pub tag: u32,
}

/// A paragraph.
#[derive(Debug, Default, PartialEq)]
pub struct Paragraph {
    pub text: String,
    pub para_shape_id: u16,
    pub char_shapes: Vec<CharShapeRef>,
    pub range_tags: Vec<RangeTag>,
    pub line_segs: Vec<LineSeg>,
    pub controls: Vec<Control>,
    /// The data record of each control, by the place of the control.
    pub ctrl_data_records: Vec<Option<Vec<u8>>>,
    /// The bytes at the end of the paragraph header.
    pub raw_header_extra: Vec<u8>,
}

/// The mathematical counterpart of [`Paragraph`].
#[verifier::ext_equal]
pub struct ParagraphView {
    pub text: Seq<char>,
    pub para_shape_id: u16,
    pub char_shapes: Seq<CharShapeRef>,
    pub range_tags: Seq<RangeTag>,
    pub line_segs: Seq<LineSeg>,
    pub controls: Seq<ControlView>,
    pub ctrl_data_records: Seq<Option<Seq<u8>>>,
    pub raw_header_extra: Seq<u8>,
}

/// What a value of [`Paragraph`] holds.
pub open spec fn paragraph_view(x: Paragraph) -> ParagraphView
    decreases x,
{
    ParagraphView {
        text: x.text@,
        para_shape_id: x.para_shape_id,
        char_shapes: x.char_shapes@,
        range_tags: x.range_tags@,
        line_segs: x.line_segs@,
        controls: control_views(x.controls@),
        ctrl_data_records: records(x.ctrl_data_records@),
        raw_header_extra: x.raw_header_extra@,
    }
}

impl View for Paragraph {
    type V = ParagraphView;

    open spec fn view(&self) -> ParagraphView {
        paragraph_view(*self)
    }
}

/// What a list of paragraphs holds.
pub open spec fn paragraph_views(s: Seq<Paragraph>) -> Seq<ParagraphView>
    decreases s,
{
    Seq::new(
        s.len(),
        |i: int|
            if 0 <= i < s.len() {
                paragraph_view(s[i])
            } else {
                arbitrary()
            },
    )
}

} // verus!
