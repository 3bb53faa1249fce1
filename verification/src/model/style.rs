//! Borders, fills and the shapes of paragraphs and characters.

use super::bytes_opt;
use vstd::prelude::*;

verus! {

/// Kinds of border line.
#[derive(Debug, Clone, Copy, PartialEq, Eq, Structural, Default)]
pub enum BorderLineType {
    #[default]
    NoLine,
    Solid,
    Dash,
    Dot,
    DashDot,
    Double,
}

/// One border line.
#[derive(Debug, Clone, Copy, PartialEq, Eq, Structural, Default)]
pub struct BorderLine {
    pub line_type: BorderLineType,
    pub width: u8,
    pub color: u32,
}

/// Kinds of fill.
#[derive(Debug, Clone, Copy, PartialEq, Eq, Structural, Default)]
pub enum FillType {
    #[default]
    NoFill,
    Solid,
    Gradient,
    Image,
}

/// A fill of one colour, with a pattern over it.
#[derive(Debug, Clone, Copy, PartialEq, Eq, Structural, Default)]
pub struct SolidFill {
    /// The background; all bits set stand for no colour.
    pub background_color: u32,
    pub pattern_color: u32,
    pub pattern_type: i32,
}

/// A fill that runs from one colour into another.
#[derive(Debug, Clone, Copy, PartialEq, Eq, Structural, Default)]
pub struct GradientFill {
    pub gradient_type: i16,
    pub angle: i16,
    pub center_x: i16,
    pub center_y: i16,
    pub blur: i16,
}

/// A fill made of a picture.
#[derive(Debug, Clone, Copy, PartialEq, Eq, Structural, Default)]
pub struct ImageFill {
    pub bin_data_id: u16,
    pub brightness: i8,
    pub contrast: i8,
}

/// A fill.
#[derive(Debug, Clone, Copy, PartialEq, Eq, Default)]
pub struct Fill {
    pub fill_type: FillType,
    pub solid: Option<SolidFill>,
    pub gradient: Option<GradientFill>,
    pub image: Option<ImageFill>,
    pub alpha: u8,
}

/// The borders and the fill of a box.
#[derive(Debug, Default, PartialEq)]
pub struct BorderFill {
    pub borders: [BorderLine; 4],
    pub fill: Fill,
    /// The record as it was read.
    pub raw_data: Option<Vec<u8>>,
}

/// The mathematical counterpart of [`BorderFill`].
#[verifier::ext_equal]
pub struct BorderFillView {
    pub borders: [BorderLine; 4],
    pub fill: Fill,
    pub raw_data: Option<Seq<u8>>,
}

impl View for BorderFill {
    type V = BorderFillView;

    open spec fn view(&self) -> BorderFillView {
        BorderFillView {
            borders: self.borders,
            fill: self.fill,
            raw_data: bytes_opt(self.raw_data),
        }
    }
}

/// What a list of borders and fills holds.
pub open spec fn border_fill_views(s: Seq<BorderFill>) -> Seq<BorderFillView> {
    s.map_values(|x: BorderFill| x@)
}

/// The shape of a paragraph.
#[derive(Debug, Clone, Copy, PartialEq, Eq, Structural, Default)]
pub struct ParaShape {
    /// The number of its borders and fill, counted from one; zero for none.
    pub border_fill_id: u16,
}

/// The shape of characters.
#[derive(Debug, Clone, Copy, PartialEq, Eq, Structural, Default)]
pub struct CharShape {
    /// The number of their borders and fill, counted from one; zero for none.
    pub border_fill_id: u16,
}

} // verus!
