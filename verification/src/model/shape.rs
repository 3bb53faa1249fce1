//! Drawn objects and what all placed objects have in common.

use super::image::Picture;
use super::paragraph::{paragraph_views, Paragraph, ParagraphView};
use super::Padding;
use super::image::PictureView;
use vstd::prelude::*;

verus! {

/// What a vertical offset counts from.
#[derive(Debug, Clone, Copy, PartialEq, Eq, Structural, Default)]
pub enum VertRelTo {
    #[default]
    Paper,
    Page,
    Para,
}

/// What a horizontal offset counts from.
#[derive(Debug, Clone, Copy, PartialEq, Eq, Structural, Default)]
pub enum HorzRelTo {
    #[default]
    Paper,
    Page,
    Column,
    Para,
}

/// Vertical placement.
#[derive(Debug, Clone, Copy, PartialEq, Eq, Structural, Default)]
pub enum VertAlign {
    #[default]
    Top,
    Center,
    Bottom,
    Inside,
    Outside,
}

/// Horizontal placement.
#[derive(Debug, Clone, Copy, PartialEq, Eq, Structural, Default)]
pub enum HorzAlign {
    #[default]
    Left,
    Center,
    Right,
    Inside,
    Outside,
}

/// What a width is measured by.
#[derive(Debug, Clone, Copy, PartialEq, Eq, Structural, Default)]
pub enum WidthCriterion {
    Paper,
    Page,
    Column,
    Para,
    #[default]
    Absolute,
}

/// What a height is measured by.
#[derive(Debug, Clone, Copy, PartialEq, Eq, Structural, Default)]
pub enum HeightCriterion {
    Paper,
    Page,
    #[default]
    Absolute,
}

/// How text runs round an object.
#[derive(Debug, Clone, Copy, PartialEq, Eq, Structural, Default)]
pub enum TextWrap {
    #[default]
    Square,
    TopAndBottom,
    BehindText,
    InFrontOfText,
}

/// The series of captions that counts an object.
#[derive(Debug, Clone, Copy, PartialEq, Eq, Structural, Default)]
pub enum NumberingCategory {
    #[default]
    Unnumbered,
    Figure,
    Table,
    Equation,
}

/// What all placed objects have in common.
#[derive(Debug, Default, PartialEq)]
pub struct CommonObjAttr {
    /// The attribute word, packed from the fields below; zero where it has not been packed.
    pub attr: u32,
    /// Whether the object is placed like a character.
    pub treat_as_char: bool,
    pub vert_rel_to: VertRelTo,
    pub vert_align: VertAlign,
    pub horz_rel_to: HorzRelTo,
    pub horz_align: HorzAlign,
    /// Whether the object is kept inside the text area.
    pub flow_with_text: bool,
    pub allow_overlap: bool,
    pub width_criterion: WidthCriterion,
    pub height_criterion: HeightCriterion,
    pub text_wrap: TextWrap,
    pub numbering: NumberingCategory,
    pub vertical_offset: u32,
    pub horizontal_offset: u32,
    pub width: u32,
    pub height: u32,
    pub z_order: i32,
    pub margin: Padding,
    pub instance_id: u32,
    pub prevent_page_break: i32,
    pub description: String,
}

/// The mathematical counterpart of [`CommonObjAttr`].
#[verifier::ext_equal]
pub struct CommonObjAttrView {
    pub attr: u32,
    pub treat_as_char: bool,
    pub vert_rel_to: VertRelTo,
    pub vert_align: VertAlign,
    pub horz_rel_to: HorzRelTo,
    pub horz_align: HorzAlign,
    pub flow_with_text: bool,
    pub allow_overlap: bool,
    pub width_criterion: WidthCriterion,
    pub height_criterion: HeightCriterion,
    pub text_wrap: TextWrap,
    pub numbering: NumberingCategory,
    pub vertical_offset: u32,
    pub horizontal_offset: u32,
    pub width: u32,
    pub height: u32,
    pub z_order: i32,
    pub margin: Padding,
    pub instance_id: u32,
    pub prevent_page_break: i32,
    pub description: Seq<char>,
}

impl View for CommonObjAttr {
    type V = CommonObjAttrView;

    open spec fn view(&self) -> CommonObjAttrView {
        CommonObjAttrView {
            attr: self.attr,
            treat_as_char: self.treat_as_char,
            vert_rel_to: self.vert_rel_to,
            vert_align: self.vert_align,
            horz_rel_to: self.horz_rel_to,
            horz_align: self.horz_align,
            flow_with_text: self.flow_with_text,
            allow_overlap: self.allow_overlap,
            width_criterion: self.width_criterion,
            height_criterion: self.height_criterion,
            text_wrap: self.text_wrap,
            numbering: self.numbering,
            vertical_offset: self.vertical_offset,
            horizontal_offset: self.horizontal_offset,
            width: self.width,
            height: self.height,
            z_order: self.z_order,
            margin: self.margin,
            instance_id: self.instance_id,
            prevent_page_break: self.prevent_page_break,
            description: self.description@,
        }
    }
}

/// The side on which a caption stands.
#[derive(Debug, Clone, Copy, PartialEq, Eq, Structural, Default)]
pub enum CaptionDirection {
    Left,
    Right,
    Top,
    #[default]
    Bottom,
}

/// A caption.
#[derive(Debug, Default, PartialEq)]
pub struct Caption {
    pub direction: CaptionDirection,
    pub include_margin: bool,
    pub width: u32,
    pub spacing: i16,
    pub max_width: u32,
    pub paragraphs: Vec<Paragraph>,
}

/// The mathematical counterpart of [`Caption`].
#[verifier::ext_equal]
pub struct CaptionView {
    pub direction: CaptionDirection,
    pub include_margin: bool,
    pub width: u32,
    pub spacing: i16,
    pub max_width: u32,
    pub paragraphs: Seq<ParagraphView>,
}

/// What a value of [`Caption`] holds.
pub open spec fn caption_view(x: Caption) -> CaptionView
    decreases x,
{
    CaptionView {
        direction: x.direction,
        include_margin: x.include_margin,
        width: x.width,
        spacing: x.spacing,
        max_width: x.max_width,
        paragraphs: paragraph_views(x.paragraphs@),
    }
}

impl View for Caption {
    type V = CaptionView;

    open spec fn view(&self) -> CaptionView {
        caption_view(*self)
    }
}

/// The text inside a drawn object.
#[derive(Debug, Default, PartialEq)]
pub struct TextBox {
    pub list_attr: u32,
    pub max_width: u32,
    /// The bytes at the end of the list header.
    pub raw_list_header_extra: Vec<u8>,
    pub paragraphs: Vec<Paragraph>,
}

/// The mathematical counterpart of [`TextBox`].
#[verifier::ext_equal]
pub struct TextBoxView {
    pub list_attr: u32,
    pub max_width: u32,
    pub raw_list_header_extra: Seq<u8>,
    pub paragraphs: Seq<ParagraphView>,
}

/// What a value of [`TextBox`] holds.
pub open spec fn text_box_view(x: TextBox) -> TextBoxView
    decreases x,
{
    TextBoxView {
        list_attr: x.list_attr,
        max_width: x.max_width,
        raw_list_header_extra: x.raw_list_header_extra@,
        paragraphs: paragraph_views(x.paragraphs@),
    }
}

impl View for TextBox {
    type V = TextBoxView;

    open spec fn view(&self) -> TextBoxView {
        text_box_view(*self)
    }
}

/// What drawn objects have in common.
#[derive(Debug, Default, PartialEq)]
pub struct DrawingObjAttr {
    pub inst_id: u32,
    pub text_box: Option<TextBox>,
}

/// The mathematical counterpart of [`DrawingObjAttr`].
#[verifier::ext_equal]
pub struct DrawingObjAttrView {
    pub inst_id: u32,
    pub text_box: Option<TextBoxView>,
}

/// What a value of [`DrawingObjAttr`] holds.
pub open spec fn drawing_view(x: DrawingObjAttr) -> DrawingObjAttrView
    decreases x,
{
    DrawingObjAttrView {
        inst_id: x.inst_id,
        text_box: match x.text_box {
            Some(b) => Some(text_box_view(b)),
            None => None,
        },
    }
}

impl View for DrawingObjAttr {
    type V = DrawingObjAttrView;

    open spec fn view(&self) -> DrawingObjAttrView {
        drawing_view(*self)
    }
}

/// A line.
#[derive(Debug, Default, PartialEq)]
pub struct LineShape {
    pub common: CommonObjAttr,
    pub drawing: DrawingObjAttr,
}

/// A rectangle.
#[derive(Debug, Default, PartialEq)]
pub struct RectangleShape {
    pub common: CommonObjAttr,
    pub drawing: DrawingObjAttr,
}

/// An ellipse.
#[derive(Debug, Default, PartialEq)]
pub struct EllipseShape {
    pub common: CommonObjAttr,
    pub drawing: DrawingObjAttr,
}

/// An arc.
#[derive(Debug, Default, PartialEq)]
pub struct ArcShape {
    pub common: CommonObjAttr,
    pub drawing: DrawingObjAttr,
}

/// A polygon.
#[derive(Debug, Default, PartialEq)]
pub struct PolygonShape {
    pub common: CommonObjAttr,
    pub drawing: DrawingObjAttr,
}

/// A curve.
#[derive(Debug, Default, PartialEq)]
pub struct CurveShape {
    pub common: CommonObjAttr,
    pub drawing: DrawingObjAttr,
}

/// Objects held together.
#[derive(Debug, Default, PartialEq)]
pub struct GroupShape {
    pub common: CommonObjAttr,
    pub children: Vec<ShapeObject>,
}

/// A drawn object.
#[derive(Debug, PartialEq)]
pub enum ShapeObject {
    Line(LineShape),
    Rectangle(RectangleShape),
    Ellipse(EllipseShape),
    Arc(ArcShape),
    Polygon(PolygonShape),
    Curve(CurveShape),
    Group(GroupShape),
    Picture(Box<Picture>),
}

/// Kinds of object that are drawn by themselves.
pub enum DrawnKind {
    Line,
    Rectangle,
    Ellipse,
    Arc,
    Polygon,
    Curve,
}

/// The mathematical counterpart of [`ShapeObject`].
#[allow(inconsistent_fields)]
pub enum ShapeView {
    Drawn { kind: DrawnKind, common: CommonObjAttrView, drawing: DrawingObjAttrView },
    Group { common: CommonObjAttrView, children: Seq<ShapeView> },
    Picture(PictureView),
}

/// What a value of [`ShapeObject`] holds.
pub open spec fn shape_view(x: ShapeObject) -> ShapeView
    decreases x,
{
    match x {
        ShapeObject::Line(s) => ShapeView::Drawn {
            kind: DrawnKind::Line,
            common: s.common@,
            drawing: drawing_view(s.drawing),
        },
        ShapeObject::Rectangle(s) => ShapeView::Drawn {
            kind: DrawnKind::Rectangle,
            common: s.common@,
            drawing: drawing_view(s.drawing),
        },
        ShapeObject::Ellipse(s) => ShapeView::Drawn {
            kind: DrawnKind::Ellipse,
            common: s.common@,
            drawing: drawing_view(s.drawing),
        },
        ShapeObject::Arc(s) => ShapeView::Drawn {
            kind: DrawnKind::Arc,
            common: s.common@,
            drawing: drawing_view(s.drawing),
        },
        ShapeObject::Polygon(s) => ShapeView::Drawn {
            kind: DrawnKind::Polygon,
            common: s.common@,
            drawing: drawing_view(s.drawing),
        },
        ShapeObject::Curve(s) => ShapeView::Drawn {
            kind: DrawnKind::Curve,
            common: s.common@,
            drawing: drawing_view(s.drawing),
        },
        ShapeObject::Group(g) => ShapeView::Group {
            common: g.common@,
            children: shape_views(g.children@),
        },
        ShapeObject::Picture(p) => ShapeView::Picture(p@),
    }
}

impl View for ShapeObject {
    type V = ShapeView;

    open spec fn view(&self) -> ShapeView {
        shape_view(*self)
    }
}

/// What a list of drawn objects holds.
pub open spec fn shape_views(s: Seq<ShapeObject>) -> Seq<ShapeView>
    decreases s,
{
    Seq::new(
        s.len(),
        |i: int|
            if 0 <= i < s.len() {
                shape_view(s[i])
            } else {
                arbitrary()
            },
    )
}

} // verus!
