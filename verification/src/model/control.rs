//! Controls: what stands in a paragraph besides its text.

use super::document::{SectionDef, SectionDefView};
use super::image::{Picture, PictureView};
use super::shape::{shape_view, CommonObjAttr, CommonObjAttrView, ShapeObject, ShapeView};
use super::table::{table_view, Table, TableView};
use vstd::prelude::*;

verus! {

/// An equation.
#[derive(Debug, Default, PartialEq)]
pub struct Equation {
    pub common: CommonObjAttr,
    pub script: String,
    pub font_name: String,
    pub version_info: String,
    /// The control header as it was read.
    pub raw_ctrl_data: Vec<u8>,
}

/// The mathematical counterpart of [`Equation`].
#[verifier::ext_equal]
pub struct EquationView {
    pub common: CommonObjAttrView,
    pub script: Seq<char>,
    pub font_name: Seq<char>,
    pub version_info: Seq<char>,
    pub raw_ctrl_data: Seq<u8>,
}

impl View for Equation {
    type V = EquationView;

    open spec fn view(&self) -> EquationView {
        EquationView {
            common: self.common@,
            script: self.script@,
            font_name: self.font_name@,
            version_info: self.version_info@,
            raw_ctrl_data: self.raw_ctrl_data@,
        }
    }
}

/// A control.
#[derive(Debug, PartialEq)]
pub enum Control {
    SectionDef(Box<SectionDef>),
    Table(Box<Table>),
    Picture(Box<Picture>),
    Shape(Box<ShapeObject>),
    Equation(Box<Equation>),
    /// Any other control, by its identifier.
    Unknown(u32),
}

/// The mathematical counterpart of [`Control`].
pub enum ControlView {
    SectionDef(SectionDefView),
    Table(TableView),
    Picture(PictureView),
    Shape(ShapeView),
    Equation(EquationView),
    Unknown(u32),
}

/// What a value of [`Control`] holds.
pub open spec fn control_view(x: Control) -> ControlView
    decreases x,
{
    match x {
        Control::SectionDef(s) => ControlView::SectionDef(s@),
        Control::Table(t) => ControlView::Table(table_view(*t)),
        Control::Picture(p) => ControlView::Picture(p@),
        Control::Shape(s) => ControlView::Shape(shape_view(*s)),
        Control::Equation(e) => ControlView::Equation(e@),
        Control::Unknown(id) => ControlView::Unknown(id),
    }
}

impl View for Control {
    type V = ControlView;

    open spec fn view(&self) -> ControlView {
        control_view(*self)
    }
}

/// What a list of controls holds.
pub open spec fn control_views(s: Seq<Control>) -> Seq<ControlView>
    decreases s,
{
    Seq::new(
        s.len(),
        |i: int|
            if 0 <= i < s.len() {
                control_view(s[i])
            } else {
                arbitrary()
            },
    )
}

} // verus!
