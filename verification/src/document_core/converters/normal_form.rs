//! The form that the binary writer expects of a document, and how far a document is from it.
//!
//! For each part of a document a function gives the part in its normal form, and another
//! counts, for each kind of change, how often it takes place on the way there.

use super::common_obj_attr_writer::{common_record, packed_attr};
use crate::bytes::{counted_text, le16, le32, zeros};
use crate::model::bin_data::{BinDataStatus, BinDataType, BinDataView};
use crate::model::control::{ControlView, EquationView};
use crate::model::document::{
    DocInfoView, DocPropertiesView, DocumentView, FileHeaderView, SectionDefView, SectionView,
};
use crate::model::image::PictureView;
use crate::model::paragraph::ParagraphView;
use crate::model::shape::{CommonObjAttrView, DrawingObjAttrView, ShapeView, TextBoxView};
use crate::model::style::{BorderFillView, BorderLineType, Fill, FillType};
use crate::model::table::{CellView, TablePageBreak, TableView, TableZone};
use crate::model::Padding;
use crate::text::{stands_at, stands_in};
use vstd::prelude::*;

verus! {

/// Kinds of change.
#[derive(Debug, Clone, Copy, PartialEq, Eq, Structural)]
pub enum Change {
    TableCtrlData,
    TableAttr,
    TablePageBreak,
    TableOuterMargin,
    TableCtrlHeaderAttr,
    TableRecordAttr,
    TableRowSizes,
    TableRecordExtra,
    CellListAttr,
    CellListHeader,
    BorderFill,
    FileHeader,
    SectionCount,
    BinData,
    SectionDef,
    PictureHref,
    TextBoxListHeader,
    TextBoxParaHeader,
    EquationCtrlHeader,
    EquationFontVersion,
}

/// One where a change of the kind that is counted takes place, none otherwise.
pub open spec fn one_if(c: Change, kind: Change, happens: bool) -> nat {
    if c == kind && happens {
        1
    } else {
        0
    }
}

/// The header of a compressed file.
pub open spec fn normal_header(h: FileHeaderView) -> FileHeaderView {
    FileHeaderView { compressed: true, flags: h.flags | 1, raw_data: None }
}

/// A count in 16 bits, the largest number standing for all larger ones.
pub open spec fn count16(n: nat) -> u16 {
    if n <= 0xffff {
        n as u16
    } else {
        0xffff
    }
}

/// The properties of a document of `sections` sections.
pub open spec fn normal_properties(sections: nat) -> DocPropertiesView {
    DocPropertiesView { section_count: count16(sections), raw_data: None }
}

/// Whether the data itself lies in the document.
pub open spec fn is_embedded(b: BinDataView) -> bool {
    b.data_type == BinDataType::Embedding || b.data_type == BinDataType::Storage
}

/// An entry of the list of binary data; data in the document is marked as read with success.
pub open spec fn normal_bin_data(b: BinDataView) -> BinDataView {
    if is_embedded(b) {
        BinDataView { attr: 0x0101, status: BinDataStatus::Success, raw_data: None, ..b }
    } else {
        b
    }
}

/// The list of binary data.
pub open spec fn normal_bin_data_list(s: Seq<BinDataView>) -> Seq<BinDataView> {
    s.map_values(|b: BinDataView| normal_bin_data(b))
}

/// Whether a paragraph holds the definition of its section.
pub open spec fn has_section_def(p: ParagraphView) -> bool {
    exists|i: int| 0 <= i < p.controls.len() && #[trigger] p.controls[i] is SectionDef
}

/// Whether the first paragraph of a section lacks the definition of the section.
pub open spec fn lacks_section_def(s: SectionView) -> bool {
    s.paragraphs.len() > 0 && !has_section_def(s.paragraphs[0])
}

/// A paragraph with one more control in front of the others.
pub open spec fn with_first_control(p: ParagraphView, x: ControlView) -> ParagraphView {
    ParagraphView { controls: p.controls.insert(0, x), ..p }
}

/// A section whose first paragraph holds the definition of the section.
pub open spec fn with_section_def(s: SectionView) -> SectionView {
    if lacks_section_def(s) {
        SectionView {
            paragraphs: s.paragraphs.update(
                0,
                with_first_control(s.paragraphs[0], ControlView::SectionDef(s.section_def)),
            ),
            ..s
        }
    } else {
        s
    }
}

/// Whether a table or a drawn object in a paragraph uses the borders and fill of a number.
pub open spec fn paragraph_uses(p: ParagraphView, id: u16) -> bool
    decreases p, 0nat,
{
    controls_use(p.controls, p.controls.len(), id)
}

/// Whether one of the first `n` controls uses the borders and fill of a number.
pub open spec fn controls_use(s: Seq<ControlView>, n: nat, id: u16) -> bool
    decreases s, n,
{
    0 < n <= s.len() && (control_uses(s[n - 1], id) || controls_use(s, (n - 1) as nat, id))
}

/// Whether a control uses the borders and fill of a number.
pub open spec fn control_uses(x: ControlView, id: u16) -> bool
    decreases x, 0nat,
{
    match x {
        ControlView::Table(t) => table_uses(t, id),
        ControlView::Shape(s) => shape_uses(s, id),
        _ => false,
    }
}

/// Whether a zone of a table uses the borders and fill of a number.
pub open spec fn zones_use(s: Seq<TableZone>, id: u16) -> bool {
    exists|i: int| 0 <= i < s.len() && #[trigger] s[i].border_fill_id == id
}

/// Whether a table uses the borders and fill of a number, for itself, a zone or a cell.
pub open spec fn table_uses(t: TableView, id: u16) -> bool
    decreases t, 0nat,
{
    t.border_fill_id == id || zones_use(t.zones, id) || cells_use(t.cells, t.cells.len(), id)
}

/// Whether one of the first `n` cells uses the borders and fill of a number.
pub open spec fn cells_use(s: Seq<CellView>, n: nat, id: u16) -> bool
    decreases s, n,
{
    0 < n <= s.len() && (cell_uses(s[n - 1], id) || cells_use(s, (n - 1) as nat, id))
}

/// Whether a cell uses the borders and fill of a number, for itself or in a paragraph.
pub open spec fn cell_uses(x: CellView, id: u16) -> bool
    decreases x, 0nat,
{
    x.border_fill_id == id || paragraphs_use(x.paragraphs, x.paragraphs.len(), id)
}

/// Whether one of the first `n` paragraphs uses the borders and fill of a number.
pub open spec fn paragraphs_use(s: Seq<ParagraphView>, n: nat, id: u16) -> bool
    decreases s, n,
{
    0 < n <= s.len() && (paragraph_uses(s[n - 1], id) || paragraphs_use(s, (n - 1) as nat, id))
}

/// Whether the text inside a drawn object uses the borders and fill of a number.
pub open spec fn drawing_uses(d: DrawingObjAttrView, id: u16) -> bool
    decreases d, 0nat,
{
    match d.text_box {
        Some(b) => paragraphs_use(b.paragraphs, b.paragraphs.len(), id),
        None => false,
    }
}

/// Whether something inside a drawn object uses the borders and fill of a number.
pub open spec fn shape_uses(s: ShapeView, id: u16) -> bool
    decreases s, 0nat,
{
    match s {
        ShapeView::Drawn { kind, common, drawing } => drawing_uses(drawing, id),
        ShapeView::Group { common, children } => shapes_use(children, children.len(), id),
        ShapeView::Picture(p) => false,
    }
}

/// Whether one of the first `n` drawn objects uses the borders and fill of a number.
pub open spec fn shapes_use(s: Seq<ShapeView>, n: nat, id: u16) -> bool
    decreases s, n,
{
    0 < n <= s.len() && (shape_uses(s[n - 1], id) || shapes_use(s, (n - 1) as nat, id))
}

/// Whether the pages of a section use the borders and fill of a number.
pub open spec fn pages_use(d: SectionDefView, id: u16) -> bool {
    ||| d.page_border_fill.border_fill_id == id
    ||| exists|i: int|
        0 <= i < d.extra_page_border_fills.len()
            && #[trigger] d.extra_page_border_fills[i].border_fill_id == id
}

/// Whether a section uses the borders and fill of a number, for its pages or for an object.
pub open spec fn section_uses(s: SectionView, id: u16) -> bool {
    pages_use(s.section_def, id) || paragraphs_use(s.paragraphs, s.paragraphs.len(), id)
}

/// Whether any page or object uses the borders and fill of a number.
pub open spec fn objects_use(sections: Seq<SectionView>, id: u16) -> bool {
    exists|i: int| 0 <= i < sections.len() && #[trigger] section_uses(sections[i], id)
}

/// Whether the shape of a paragraph or of characters uses the borders and fill of a number.
pub open spec fn text_uses(info: DocInfoView, id: u16) -> bool {
    ||| exists|i: int|
        0 <= i < info.para_shapes.len() && #[trigger] info.para_shapes[i].border_fill_id == id
    ||| exists|i: int|
        0 <= i < info.char_shapes.len() && #[trigger] info.char_shapes[i].border_fill_id == id
}

/// Whether borders and fill show nothing, though the fill is of a colour: no line on any side,
/// and the colour that stands for none.
pub open spec fn shows_nothing(b: BorderFillView) -> bool {
    &&& forall|i: int|
        0 <= i < 4 ==> (#[trigger] b.borders@[i]).line_type == BorderLineType::NoLine
    &&& b.fill.fill_type == FillType::Solid
    &&& b.fill.solid is Some
    &&& b.fill.alpha == 0
    &&& b.fill.solid->0.background_color == 0xffff_ffff
}

/// Borders with no fill.
pub open spec fn without_fill(b: BorderFillView) -> BorderFillView {
    BorderFillView {
        fill: Fill {
            fill_type: FillType::NoFill,
            solid: None,
            gradient: None,
            image: None,
            alpha: 0,
        },
        raw_data: None,
        ..b
    }
}

/// Whether the entry at a place in the list of borders and fills loses its fill: only text
/// uses it, and it shows nothing. The entries are numbered from one.
pub open spec fn loses_fill(info: DocInfoView, sections: Seq<SectionView>, i: int) -> bool {
    &&& i < 0xffff
    &&& text_uses(info, (i + 1) as u16)
    &&& !objects_use(sections, (i + 1) as u16)
    &&& shows_nothing(info.border_fills[i])
}

/// The list of borders and fills.
pub open spec fn normal_border_fills(info: DocInfoView, sections: Seq<SectionView>) -> Seq<
    BorderFillView,
> {
    Seq::new(
        info.border_fills.len(),
        |i: int|
            if loses_fill(info, sections, i) {
                without_fill(info.border_fills[i])
            } else {
                info.border_fills[i]
            },
    )
}

/// How many of the first `n` entries lose their fill.
pub open spec fn fills_lost(info: DocInfoView, sections: Seq<SectionView>, n: nat) -> nat
    decreases n,
{
    if n == 0 {
        0
    } else {
        fills_lost(info, sections, (n - 1) as nat) + if loses_fill(info, sections, n - 1) {
            1nat
        } else {
            0
        }
    }
}

/// The part of a link from a place on, with a backslash before each `://`.
pub open spec fn escaped_from(s: Seq<char>, i: nat) -> Seq<char>
    decreases s.len() - i,
{
    if i >= s.len() {
        Seq::empty()
    } else if stands_at(s, i, "://"@) && "://"@.len() > 0 {
        "\\://"@ + escaped_from(s, i + "://"@.len())
    } else {
        seq![s[i as int]] + escaped_from(s, i + 1)
    }
}

/// A link with a backslash before each `://`, unless it already has such a backslash.
pub open spec fn normal_href(s: Seq<char>) -> Seq<char> {
    if stands_in(s, "\\://"@) {
        s
    } else {
        escaped_from(s, 0)
    }
}

/// The data record of a link: a set with one item, the set with the link.
pub open spec fn href_record(s: Seq<char>) -> Seq<u8> {
    le16(0x021b) + le16(1) + le16(0) + le16(0x026f) + le16(0x8000) + le16(0x026f) + le16(1)
        + le16(0) + le16(0x0265) + le16(0x0001) + counted_text(normal_href(s))
}

/// The data record beside a picture: that of its link, if it has one.
pub open spec fn picture_slot(p: PictureView, slot: Option<Seq<u8>>) -> Option<Seq<u8>> {
    match p.href {
        Some(href) => if href.len() > 0 {
            Some(href_record(href))
        } else {
            slot
        },
        None => slot,
    }
}

/// The data record beside a control.
pub open spec fn normal_slot(x: ControlView, slot: Option<Seq<u8>>) -> Option<Seq<u8>> {
    match x {
        ControlView::Picture(p) => picture_slot(p, slot),
        _ => slot,
    }
}

/// A list of records filled up to a length.
pub open spec fn padded(s: Seq<Option<Seq<u8>>>, n: nat) -> Seq<Option<Seq<u8>>> {
    Seq::new(
        if s.len() < n {
            n
        } else {
            s.len()
        },
        |i: int|
            if i < s.len() {
                s[i]
            } else {
                None
            },
    )
}

/// An equation, its attribute word packed and marked as numbered.
pub open spec fn normal_equation(e: EquationView) -> EquationView {
    EquationView {
        common: CommonObjAttrView { attr: packed_attr(e.common) | 0x0800_0000, ..e.common },
        raw_ctrl_data: Seq::empty(),
        ..e
    }
}

/// The margins that a table keeps outside of it.
pub open spec fn outer_margin(t: TableView) -> Padding {
    Padding {
        left: t.outer_margin_left,
        right: t.outer_margin_right,
        top: t.outer_margin_top,
        bottom: t.outer_margin_bottom,
    }
}

/// Where a table may break: between rows rather than inside cells.
pub open spec fn normal_page_break(b: TablePageBreak) -> TablePageBreak {
    if b == TablePageBreak::CellBreak {
        TablePageBreak::RowBreak
    } else {
        b
    }
}

/// The attribute word of a table record: where the table breaks, whether its header row is
/// repeated, and a bit of the attribute word of the table.
pub open spec fn record_bits(b: TablePageBreak, repeat_header: bool, attr: u32) -> u32 {
    let breaks: u32 = match b {
        TablePageBreak::CellBreak => 0x01,
        TablePageBreak::RowBreak => 0x02,
        TablePageBreak::NoBreak => 0,
    };
    let header: u32 = if repeat_header {
        0x04
    } else {
        0
    };
    breaks | header | (attr & 0x08)
}

/// The attribute word of the record of a table in its normal form.
pub open spec fn record_attr(t: TableView) -> u32 {
    record_bits(normal_page_break(t.page_break), t.repeat_header, t.attr)
}

/// How many of the first `n` cells stand in a row.
pub open spec fn cells_in_row(cells: Seq<CellView>, n: nat, row: int) -> nat
    decreases n,
{
    if n == 0 {
        0
    } else {
        cells_in_row(cells, (n - 1) as nat, row) + if cells[n - 1].row == row {
            1nat
        } else {
            0
        }
    }
}

/// The number of cells in each row, the largest number standing for all larger ones.
pub open spec fn counted_rows(t: TableView) -> Seq<i16> {
    Seq::new(
        t.row_count as nat,
        |row: int|
            if cells_in_row(t.cells, t.cells.len(), row) <= 0x7fff {
                cells_in_row(t.cells, t.cells.len(), row) as i16
            } else {
                0x7fffi16
            },
    )
}

/// The row sizes of a table: counted, unless no row has a cell.
pub open spec fn normal_row_sizes(t: TableView) -> Seq<i16> {
    if forall|row: int| 0 <= row < t.row_count ==> #[trigger] counted_rows(t)[row] == 0 {
        t.row_sizes
    } else {
        counted_rows(t)
    }
}

/// The attribute word of the control header of a table: packed, kept inside the text area and
/// numbered, and marked where there is a caption.
pub open spec fn table_attr(t: TableView) -> u32 {
    let caption: u32 = if t.caption is Some {
        0x2000_0000
    } else {
        0
    };
    packed_attr(t.common) | 0x2000 | 0x0800_0000 | caption
}

/// What all placed objects have in common, for a table.
pub open spec fn table_common(t: TableView) -> CommonObjAttrView {
    CommonObjAttrView { attr: table_attr(t), margin: outer_margin(t), ..t.common }
}

/// A table with its control header made.
pub open spec fn with_ctrl_data(t: TableView) -> TableView {
    TableView {
        common: table_common(t),
        page_break: normal_page_break(t.page_break),
        raw_table_record_attr: record_attr(t),
        row_sizes: normal_row_sizes(t),
        raw_table_record_extra: if t.raw_table_record_extra.len() == 0 {
            zeros(2)
        } else {
            t.raw_table_record_extra
        },
        raw_ctrl_data: common_record(table_common(t)),
        attr: table_attr(t),
        ..t
    }
}

/// The changes in the margins of a table, in where it breaks and in the attribute word of its
/// record.
pub open spec fn count_record_attr(t: TableView, c: Change) -> nat {
    let record_attr_before: u32 = if t.page_break == TablePageBreak::CellBreak {
        0
    } else {
        t.raw_table_record_attr
    };
    one_if(c, Change::TableOuterMargin, t.common.margin != outer_margin(t)) + one_if(
        c,
        Change::TablePageBreak,
        t.page_break == TablePageBreak::CellBreak,
    ) + one_if(c, Change::TableRecordAttr, record_attr_before != record_attr(t))
}

/// The changes in the row sizes of a table, at the end of its record and in the attribute word
/// of its header.
pub open spec fn count_record_end(t: TableView, c: Change) -> nat {
    one_if(c, Change::TableRowSizes, t.row_sizes != normal_row_sizes(t)) + one_if(
        c,
        Change::TableRecordExtra,
        t.raw_table_record_extra.len() == 0,
    ) + one_if(c, Change::TableCtrlHeaderAttr, t.common.attr != table_attr(t))
}

/// The changes that making the control header of a table takes.
pub open spec fn count_ctrl_data(t: TableView, c: Change) -> nat {
    count_record_attr(t, c) + count_record_end(t, c) + one_if(c, Change::TableCtrlData, true)
        + one_if(c, Change::TableAttr, t.attr != table_attr(t))
}

/// Whether the cells of a table refer to their width: those of a fine grid do.
pub open spec fn is_fine_grid(t: TableView) -> bool {
    t.col_count >= 30
}

/// The width reference of a cell.
pub open spec fn normal_width_ref(w: u16, fine: bool) -> u16 {
    if fine {
        w | 1
    } else {
        w & 0xfffe
    }
}

/// The bytes at the end of the list header of a cell.
pub open spec fn normal_list_extra(x: CellView) -> Seq<u8> {
    if x.raw_list_extra.len() == 0 {
        le32(x.width) + zeros(9)
    } else {
        x.raw_list_extra
    }
}

/// Whether the margins of a cell still have to be marked in its text direction.
pub open spec fn margin_unmarked(x: CellView) -> bool {
    x.apply_inner_margin && x.text_direction == 0
}

/// The text direction of a cell.
pub open spec fn normal_direction(x: CellView) -> u8 {
    if margin_unmarked(x) {
        1
    } else {
        x.text_direction
    }
}

/// The header of a cell in its normal form; the paragraphs stay as they are.
pub open spec fn normal_cell_header(x: CellView, fine: bool) -> CellView {
    CellView {
        text_direction: normal_direction(x),
        list_header_width_ref: normal_width_ref(x.list_header_width_ref, fine),
        raw_list_extra: normal_list_extra(x),
        ..x
    }
}

/// Whether the list header of a cell is not in its normal form.
pub open spec fn list_header_differs(x: CellView, fine: bool) -> bool {
    normal_width_ref(x.list_header_width_ref, fine) != x.list_header_width_ref
        || x.raw_list_extra.len() == 0
}

/// The changes in the header of a cell.
pub open spec fn count_cell_header(x: CellView, fine: bool, c: Change) -> nat {
    one_if(c, Change::CellListAttr, margin_unmarked(x)) + one_if(
        c,
        Change::CellListHeader,
        list_header_differs(x, fine),
    )
}

/// Whether a paragraph holds a picture.
pub open spec fn has_picture(p: ParagraphView) -> bool {
    exists|i: int| 0 <= i < p.controls.len() && #[trigger] p.controls[i] is Picture
}

/// Whether a text box needs the bytes at the end of its headers: it holds a picture.
pub open spec fn needs_tails(b: TextBoxView) -> bool {
    exists|i: int| 0 <= i < b.paragraphs.len() && #[trigger] has_picture(b.paragraphs[i])
}

/// The bytes at the end of a paragraph header: the numbers of shapes of characters, of marks
/// and of lines, and an instance number with its highest bit set.
pub open spec fn header_tail(p: ParagraphView) -> Seq<u8> {
    let shapes: nat = if p.char_shapes.len() == 0 {
        1
    } else {
        p.char_shapes.len()
    };
    le16(count16(shapes)) + le16(count16(p.range_tags.len())) + le16(count16(p.line_segs.len()))
        + le32(0x8000_0000) + zeros(2)
}

/// Whether a paragraph header lacks the bytes at its end.
pub open spec fn lacks_tail(p: ParagraphView) -> bool {
    p.raw_header_extra.len() < 12
}

/// A paragraph with the bytes at the end of its header.
pub open spec fn with_tail(p: ParagraphView) -> ParagraphView {
    if lacks_tail(p) {
        ParagraphView { raw_header_extra: header_tail(p), ..p }
    } else {
        p
    }
}

/// How many of the first `n` paragraphs lack the bytes at the end of their headers.
pub open spec fn tails_lacking(s: Seq<ParagraphView>, n: nat) -> nat
    decreases n,
{
    if n == 0 {
        0
    } else {
        tails_lacking(s, (n - 1) as nat) + if lacks_tail(s[n - 1]) {
            1nat
        } else {
            0
        }
    }
}

/// The list header bytes of a text box.
pub open spec fn normal_box_extra(b: TextBoxView) -> Seq<u8> {
    if needs_tails(b) && b.raw_list_header_extra.len() == 0 {
        zeros(13)
    } else {
        b.raw_list_header_extra
    }
}

/// The changes in the headers of a text box and of its paragraphs.
pub open spec fn count_tails(b: TextBoxView, c: Change) -> nat {
    if needs_tails(b) {
        one_if(c, Change::TextBoxListHeader, b.raw_list_header_extra.len() == 0) + if c
            == Change::TextBoxParaHeader {
            tails_lacking(b.paragraphs, b.paragraphs.len())
        } else {
            0
        }
    } else {
        0
    }
}

/// A text box with the bytes at the end of its headers; nothing else is changed.
pub open spec fn with_tails(b: TextBoxView) -> TextBoxView {
    TextBoxView {
        raw_list_header_extra: normal_box_extra(b),
        paragraphs: if needs_tails(b) {
            b.paragraphs.map_values(|p: ParagraphView| with_tail(p))
        } else {
            b.paragraphs
        },
        ..b
    }
}

/// A paragraph in its normal form.
pub open spec fn normal_paragraph(p: ParagraphView) -> ParagraphView
    decreases p, 0nat,
{
    let slots = padded(p.ctrl_data_records, p.controls.len());
    ParagraphView {
        controls: normal_controls(p.controls),
        ctrl_data_records: Seq::new(
            slots.len(),
            |i: int|
                if 0 <= i < p.controls.len() {
                    normal_slot(p.controls[i], slots[i])
                } else {
                    slots[i]
                },
        ),
        ..p
    }
}

/// Controls in their normal form.
pub open spec fn normal_controls(s: Seq<ControlView>) -> Seq<ControlView>
    decreases s, 0nat,
{
    Seq::new(
        s.len(),
        |i: int|
            if 0 <= i < s.len() {
                normal_control(s[i])
            } else {
                arbitrary()
            },
    )
}

/// A control in its normal form.
pub open spec fn normal_control(x: ControlView) -> ControlView
    decreases x, 0nat,
{
    match x {
        ControlView::Table(t) => ControlView::Table(normal_table(t)),
        ControlView::Shape(s) => ControlView::Shape(normal_shape(s)),
        ControlView::Equation(e) => ControlView::Equation(normal_equation(e)),
        _ => x,
    }
}

/// A table in its normal form.
pub open spec fn normal_table(t: TableView) -> TableView
    decreases t, 0nat,
{
    let made = if t.raw_ctrl_data.len() == 0 {
        with_ctrl_data(t)
    } else {
        t
    };
    TableView { cells: normal_cells(t.cells, is_fine_grid(t)), ..made }
}

/// Cells in their normal form.
pub open spec fn normal_cells(s: Seq<CellView>, fine: bool) -> Seq<CellView>
    decreases s, 0nat,
{
    Seq::new(
        s.len(),
        |i: int|
            if 0 <= i < s.len() {
                normal_cell(s[i], fine)
            } else {
                arbitrary()
            },
    )
}

/// A cell in its normal form.
pub open spec fn normal_cell(x: CellView, fine: bool) -> CellView
    decreases x, 0nat,
{
    CellView { paragraphs: normal_paragraphs(x.paragraphs), ..normal_cell_header(x, fine) }
}

/// Paragraphs in their normal form.
pub open spec fn normal_paragraphs(s: Seq<ParagraphView>) -> Seq<ParagraphView>
    decreases s, 0nat,
{
    Seq::new(
        s.len(),
        |i: int|
            if 0 <= i < s.len() {
                normal_paragraph(s[i])
            } else {
                arbitrary()
            },
    )
}

/// A text box in its normal form.
pub open spec fn normal_text_box(b: TextBoxView) -> TextBoxView
    decreases b, 0nat,
{
    TextBoxView {
        raw_list_header_extra: normal_box_extra(b),
        paragraphs: if needs_tails(b) {
            normal_paragraphs(b.paragraphs).map_values(|p: ParagraphView| with_tail(p))
        } else {
            normal_paragraphs(b.paragraphs)
        },
        ..b
    }
}

/// What drawn objects have in common, in its normal form.
pub open spec fn normal_drawing(d: DrawingObjAttrView) -> DrawingObjAttrView
    decreases d, 0nat,
{
    match d.text_box {
        Some(b) => DrawingObjAttrView { text_box: Some(normal_text_box(b)), ..d },
        None => d,
    }
}

/// A drawn object in its normal form.
pub open spec fn normal_shape(s: ShapeView) -> ShapeView
    decreases s, 0nat,
{
    match s {
        ShapeView::Drawn { kind, common, drawing } => ShapeView::Drawn {
            kind,
            common,
            drawing: normal_drawing(drawing),
        },
        ShapeView::Group { common, children } => ShapeView::Group {
            common,
            children: normal_shapes(children),
        },
        ShapeView::Picture(p) => s,
    }
}

/// Drawn objects in their normal form.
pub open spec fn normal_shapes(s: Seq<ShapeView>) -> Seq<ShapeView>
    decreases s, 0nat,
{
    Seq::new(
        s.len(),
        |i: int|
            if 0 <= i < s.len() {
                normal_shape(s[i])
            } else {
                arbitrary()
            },
    )
}

/// The changes in a paragraph.
pub open spec fn count_paragraph(p: ParagraphView, c: Change) -> nat
    decreases p, 0nat,
{
    count_controls(
        p.controls,
        padded(p.ctrl_data_records, p.controls.len()),
        p.controls.len(),
        c,
    )
}

/// The changes in the first `n` controls and the records beside them.
pub open spec fn count_controls(
    s: Seq<ControlView>,
    slots: Seq<Option<Seq<u8>>>,
    n: nat,
    c: Change,
) -> nat
    decreases s, n,
{
    if n == 0 || n > s.len() {
        0
    } else {
        count_controls(s, slots, (n - 1) as nat, c) + count_control(s[n - 1], slots[n - 1], c)
    }
}

/// The changes in a control and the record beside it.
pub open spec fn count_control(x: ControlView, slot: Option<Seq<u8>>, c: Change) -> nat
    decreases x, 0nat,
{
    match x {
        ControlView::Table(t) => count_table(t, c),
        ControlView::Picture(p) => one_if(c, Change::PictureHref, picture_slot(p, slot) != slot),
        ControlView::Shape(s) => count_shape(s, c),
        ControlView::Equation(e) => one_if(
            c,
            Change::EquationCtrlHeader,
            normal_equation(e) != e,
        ),
        _ => 0,
    }
}

/// The changes in a table.
pub open spec fn count_table(t: TableView, c: Change) -> nat
    decreases t, 0nat,
{
    let made = if t.raw_ctrl_data.len() == 0 {
        count_ctrl_data(t, c)
    } else {
        0
    };
    made + count_cells(t.cells, is_fine_grid(t), t.cells.len(), c)
}

/// The changes in the first `n` cells.
pub open spec fn count_cells(s: Seq<CellView>, fine: bool, n: nat, c: Change) -> nat
    decreases s, n,
{
    if n == 0 || n > s.len() {
        0
    } else {
        count_cells(s, fine, (n - 1) as nat, c) + count_cell(s[n - 1], fine, c)
    }
}

/// The changes in a cell.
pub open spec fn count_cell(x: CellView, fine: bool, c: Change) -> nat
    decreases x, 0nat,
{
    count_cell_header(x, fine, c) + count_paragraphs(x.paragraphs, x.paragraphs.len(), c)
}

/// The changes in the first `n` paragraphs.
pub open spec fn count_paragraphs(s: Seq<ParagraphView>, n: nat, c: Change) -> nat
    decreases s, n,
{
    if n == 0 || n > s.len() {
        0
    } else {
        count_paragraphs(s, (n - 1) as nat, c) + count_paragraph(s[n - 1], c)
    }
}

/// The changes in a text box.
pub open spec fn count_text_box(b: TextBoxView, c: Change) -> nat
    decreases b, 0nat,
{
    count_tails(b, c) + count_paragraphs(b.paragraphs, b.paragraphs.len(), c)
}

/// The changes in what drawn objects have in common.
pub open spec fn count_drawing(d: DrawingObjAttrView, c: Change) -> nat
    decreases d, 0nat,
{
    match d.text_box {
        Some(b) => count_text_box(b, c),
        None => 0,
    }
}

/// The changes in a drawn object.
pub open spec fn count_shape(s: ShapeView, c: Change) -> nat
    decreases s, 0nat,
{
    match s {
        ShapeView::Drawn { kind, common, drawing } => count_drawing(drawing, c),
        ShapeView::Group { common, children } => count_shapes(children, children.len(), c),
        ShapeView::Picture(p) => 0,
    }
}

/// The changes in the first `n` drawn objects.
pub open spec fn count_shapes(s: Seq<ShapeView>, n: nat, c: Change) -> nat
    decreases s, n,
{
    if n == 0 || n > s.len() {
        0
    } else {
        count_shapes(s, (n - 1) as nat, c) + count_shape(s[n - 1], c)
    }
}

/// Sections whose first paragraphs hold their definitions.
pub open spec fn with_section_defs(s: Seq<SectionView>) -> Seq<SectionView> {
    s.map_values(|x: SectionView| with_section_def(x))
}

/// How many of the first `n` sections lack their definition.
pub open spec fn defs_lacking(s: Seq<SectionView>, n: nat) -> nat
    decreases n,
{
    if n == 0 {
        0
    } else {
        defs_lacking(s, (n - 1) as nat) + if lacks_section_def(s[n - 1]) {
            1nat
        } else {
            0
        }
    }
}

/// A section in its normal form, its definition aside.
pub open spec fn normal_section(s: SectionView) -> SectionView {
    SectionView { paragraphs: normal_paragraphs(s.paragraphs), ..s }
}

/// Sections in their normal form, their definitions aside.
pub open spec fn normal_sections(s: Seq<SectionView>) -> Seq<SectionView> {
    s.map_values(|x: SectionView| normal_section(x))
}

/// The changes in the paragraphs of the first `n` sections.
pub open spec fn count_sections(s: Seq<SectionView>, n: nat, c: Change) -> nat
    decreases n,
{
    if n == 0 || n > s.len() {
        0
    } else {
        count_sections(s, (n - 1) as nat, c) + count_paragraphs(
            s[n - 1].paragraphs,
            s[n - 1].paragraphs.len(),
            c,
        )
    }
}

/// Whether the properties of a document are not in their normal form.
pub open spec fn properties_differ(d: DocumentView) -> bool {
    d.doc_properties != normal_properties(d.sections.len())
}

/// Whether the list of binary data of a document is not in its normal form.
pub open spec fn bin_data_differs(d: DocumentView) -> bool {
    d.doc_info.bin_data_list != normal_bin_data_list(d.doc_info.bin_data_list)
}

/// A document in its normal form.
pub open spec fn normal_document(d: DocumentView) -> DocumentView {
    let sections = with_section_defs(d.sections);
    DocumentView {
        header: normal_header(d.header),
        doc_properties: normal_properties(d.sections.len()),
        doc_info: DocInfoView {
            bin_data_list: normal_bin_data_list(d.doc_info.bin_data_list),
            border_fills: normal_border_fills(d.doc_info, sections),
            raw_stream_dirty: d.doc_info.raw_stream_dirty || properties_differ(d)
                || bin_data_differs(d),
            ..d.doc_info
        },
        sections: normal_sections(sections),
    }
}

/// The changes that bring a document into its normal form.
pub open spec fn count_document(d: DocumentView, c: Change) -> nat {
    let sections = with_section_defs(d.sections);
    one_if(c, Change::FileHeader, d.header != normal_header(d.header)) + one_if(
        c,
        Change::SectionCount,
        properties_differ(d),
    ) + one_if(c, Change::BinData, bin_data_differs(d)) + (if c == Change::SectionDef {
        defs_lacking(d.sections, d.sections.len())
    } else {
        0
    }) + (if c == Change::BorderFill {
        fills_lost(d.doc_info, sections, d.doc_info.border_fills.len())
    } else {
        0
    }) + count_sections(sections, sections.len(), c)
}

/// A paragraph holds a picture exactly if it does so in its normal form.
pub proof fn law_pictures_kept(p: ParagraphView)
    ensures
        has_picture(normal_paragraph(p)) == has_picture(p),
{
    let q = normal_paragraph(p);
    assert(q.controls == normal_controls(p.controls));
    assert forall|i: int| 0 <= i < p.controls.len() implies (#[trigger] q.controls[i] is Picture)
        == (p.controls[i] is Picture) by {
        assert(q.controls[i] == normal_control(p.controls[i]));
    }
    if has_picture(p) {
        let i = choose|i: int| 0 <= i < p.controls.len() && #[trigger] p.controls[i] is Picture;
        assert(q.controls[i] is Picture);
    }
}

} // verus!
