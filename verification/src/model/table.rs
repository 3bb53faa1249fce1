//! Tables.

use super::paragraph::{paragraph_views, Paragraph, ParagraphView};
use super::shape::{caption_view, Caption, CaptionView, CommonObjAttr, CommonObjAttrView};
use super::Padding;
use vstd::prelude::*;

verus! {

/// Where a table may break over pages.
#[derive(Debug, Clone, Copy, PartialEq, Eq, Structural, Default)]
pub enum TablePageBreak {
    #[default]
    NoBreak,
    CellBreak,
    RowBreak,
}

/// A range of cells with borders of its own.
#[derive(Debug, Clone, Copy, PartialEq, Eq, Structural, Default)]
pub struct TableZone {
    pub start_col: u16,
    pub start_row: u16,
    pub end_col: u16,
    pub end_row: u16,
    pub border_fill_id: u16,
}

/// A cell.
#[derive(Debug, Default, PartialEq)]
pub struct Cell {
    pub col: u16,
    pub row: u16,
    pub col_span: u16,
    pub row_span: u16,
    pub width: u32,
    pub height: u32,
    pub padding: Padding,
    pub border_fill_id: u16,
    /// Zero for horizontal text.
    pub text_direction: u8,
    /// Whether the cell has margins of its own.
    pub apply_inner_margin: bool,
    pub list_header_width_ref: u16,
    /// The bytes at the end of the list header.
    pub raw_list_extra: Vec<u8>,
    pub paragraphs: Vec<Paragraph>,
}

/// The mathematical counterpart of [`Cell`].
#[verifier::ext_equal]
pub struct CellView {
    pub col: u16,
    pub row: u16,
    pub col_span: u16,
    pub row_span: u16,
    pub width: u32,
    pub height: u32,
    pub padding: Padding,
    pub border_fill_id: u16,
    pub text_direction: u8,
    pub apply_inner_margin: bool,
    pub list_header_width_ref: u16,
    pub raw_list_extra: Seq<u8>,
    pub paragraphs: Seq<ParagraphView>,
}

/// What a value of [`Cell`] holds.
pub open spec fn cell_view(x: Cell) -> CellView
    decreases x,
{
    CellView {
        col: x.col,
        row: x.row,
        col_span: x.col_span,
        row_span: x.row_span,
        width: x.width,
        height: x.height,
        padding: x.padding,
        border_fill_id: x.border_fill_id,
        text_direction: x.text_direction,
        apply_inner_margin: x.apply_inner_margin,
        list_header_width_ref: x.list_header_width_ref,
        raw_list_extra: x.raw_list_extra@,
        paragraphs: paragraph_views(x.paragraphs@),
    }
}

impl View for Cell {
    type V = CellView;

    open spec fn view(&self) -> CellView {
        cell_view(*self)
    }
}

/// What a list of cells holds.
pub open spec fn cell_views(s: Seq<Cell>) -> Seq<CellView>
    decreases s,
{
    Seq::new(
        s.len(),
        |i: int|
            if 0 <= i < s.len() {
                cell_view(s[i])
            } else {
                arbitrary()
            },
    )
}

/// A table.
#[derive(Debug, Default, PartialEq)]
pub struct Table {
    pub attr: u32,
    pub row_count: u16,
    pub col_count: u16,
    pub padding: Padding,
    /// How many cells each row has.
    pub row_sizes: Vec<i16>,
    pub border_fill_id: u16,
    pub zones: Vec<TableZone>,
    pub cells: Vec<Cell>,
    pub page_break: TablePageBreak,
    pub repeat_header: bool,
    pub caption: Option<Caption>,
    pub common: CommonObjAttr,
    pub outer_margin_left: i16,
    pub outer_margin_right: i16,
    pub outer_margin_top: i16,
    pub outer_margin_bottom: i16,
    /// The control header; empty where it has not been made.
    pub raw_ctrl_data: Vec<u8>,
    pub raw_table_record_attr: u32,
    pub raw_table_record_extra: Vec<u8>,
}

/// The mathematical counterpart of [`Table`].
#[verifier::ext_equal]
pub struct TableView {
    pub attr: u32,
    pub row_count: u16,
    pub col_count: u16,
    pub padding: Padding,
    pub row_sizes: Seq<i16>,
    pub border_fill_id: u16,
    pub zones: Seq<TableZone>,
    pub cells: Seq<CellView>,
    pub page_break: TablePageBreak,
    pub repeat_header: bool,
    pub caption: Option<CaptionView>,
    pub common: CommonObjAttrView,
    pub outer_margin_left: i16,
    pub outer_margin_right: i16,
    pub outer_margin_top: i16,
    pub outer_margin_bottom: i16,
    pub raw_ctrl_data: Seq<u8>,
    pub raw_table_record_attr: u32,
    pub raw_table_record_extra: Seq<u8>,
}

/// What a value of [`Table`] holds.
pub open spec fn table_view(x: Table) -> TableView
    decreases x,
{
    TableView {
        attr: x.attr,
        row_count: x.row_count,
        col_count: x.col_count,
        padding: x.padding,
        row_sizes: x.row_sizes@,
        border_fill_id: x.border_fill_id,
        zones: x.zones@,
        cells: cell_views(x.cells@),
        page_break: x.page_break,
        repeat_header: x.repeat_header,
        caption: match x.caption {
            Some(c) => Some(caption_view(c)),
            None => None,
        },
        common: x.common@,
        outer_margin_left: x.outer_margin_left,
        outer_margin_right: x.outer_margin_right,
        outer_margin_top: x.outer_margin_top,
        outer_margin_bottom: x.outer_margin_bottom,
        raw_ctrl_data: x.raw_ctrl_data@,
        raw_table_record_attr: x.raw_table_record_attr,
        raw_table_record_extra: x.raw_table_record_extra@,
    }
}

impl View for Table {
    type V = TableView;

    open spec fn view(&self) -> TableView {
        table_view(*self)
    }
}

} // verus!
