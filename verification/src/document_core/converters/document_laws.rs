//! What holds of a document in its normal form, part by part: its header and lists, its sections,
//! and all that its paragraphs hold.

use super::normal_form::{
    cell_uses, cells_use, control_uses, controls_use, count16, count_cell, count_cell_header,
    count_cells, count_control, count_controls, count_ctrl_data, count_document, count_drawing,
    count_paragraph, count_paragraphs, count_sections, count_shape, count_shapes, count_table,
    count_tails, count_text_box, defs_lacking, drawing_uses, fills_lost, has_picture,
    has_section_def, header_tail, is_fine_grid, lacks_tail, loses_fill, needs_tails,
    normal_border_fills, normal_cell, normal_cells, normal_control, normal_controls,
    normal_document, normal_drawing, normal_equation, normal_paragraph, normal_paragraphs,
    normal_section, normal_shape, normal_shapes, normal_table, normal_text_box, objects_use, padded,
    paragraph_uses, paragraphs_use, section_uses, shape_uses, shapes_use, table_uses, tails_lacking,
    text_uses, with_section_def, with_section_defs, with_tail, with_tails, zones_use, Change,
};
use super::object_laws::{law_number16_from_bytes, number16};
use crate::bytes::{law_number_from_bytes, le16, le32, number32, zeros};
use crate::model::bin_data::{BinDataStatus, BinDataType};
use crate::model::control::ControlView;
use crate::model::document::{DocInfoView, DocumentView, SectionView};
use crate::model::paragraph::ParagraphView;
use crate::model::shape::{ShapeView, TextBoxView};
use crate::model::style::{BorderLineType, FillType};
use crate::model::table::{CellView, TableView};
use vstd::prelude::*;

verus! {

/// The header tells that the file is compressed, in its mark and in bit 0 of its flags; the other
/// flags are kept, and the header is written anew.
pub proof fn law_header_compressed(d: DocumentView)
    ensures
        ({
            let h = normal_document(d).header;
            &&& h.compressed
            &&& h.flags & 1 == 1
            &&& h.flags & 0xffff_fffe == d.header.flags & 0xffff_fffe
            &&& h.raw_data is None
        }),
{
    let flags = d.header.flags;
    assert((flags | 1) & 1 == 1) by (bit_vector);
    assert((flags | 1) & 0xffff_fffe == flags & 0xffff_fffe) by (bit_vector);
}

/// The properties tell how many sections there are, up to what sixteen bits can tell, and are
/// written anew.
pub proof fn law_sections_counted(d: DocumentView)
    ensures
        ({
            let e = normal_document(d);
            &&& e.sections.len() == d.sections.len()
            &&& d.sections.len() <= 0xffff ==> e.doc_properties.section_count == d.sections.len()
            &&& d.sections.len() > 0xffff ==> e.doc_properties.section_count == 0xffff
            &&& e.doc_properties.raw_data is None
        }),
{
}

/// Data that lies in the document is marked as read with success, and its entry is written anew;
/// linked data is left as it is. No entry moves, and each keeps its kind and its number.
pub proof fn law_bin_data_marked(d: DocumentView, i: int)
    requires
        0 <= i < d.doc_info.bin_data_list.len(),
    ensures
        ({
            let before = d.doc_info.bin_data_list[i];
            let list = normal_document(d).doc_info.bin_data_list;
            let after = list[i];
            &&& list.len() == d.doc_info.bin_data_list.len()
            &&& after.data_type == before.data_type
            &&& after.storage_id == before.storage_id
            &&& before.data_type == BinDataType::Link ==> after == before
            &&& before.data_type != BinDataType::Link ==> after.attr == 0x0101 && after.status
                == BinDataStatus::Success && after.raw_data is None
        }),
{
}

/// The stream of lists is written anew where it was to be written anew before, and where the
/// properties or the list of data are other than before. Shapes of paragraphs and characters stay.
pub proof fn law_stream_marked(d: DocumentView)
    ensures
        ({
            let e = normal_document(d);
            &&& e.doc_info.raw_stream_dirty <==> d.doc_info.raw_stream_dirty || e.doc_properties
                != d.doc_properties || e.doc_info.bin_data_list != d.doc_info.bin_data_list
            &&& e.doc_info.para_shapes == d.doc_info.para_shapes
            &&& e.doc_info.char_shapes == d.doc_info.char_shapes
        }),
{
}

/// Whether a control of a list is the definition of a section.
pub open spec fn defines_section(s: Seq<ControlView>) -> bool {
    exists|i: int| 0 <= i < s.len() && (#[trigger] s[i]) is SectionDef
}

/// The first paragraph of each section holds the definition of the section: in front of all its
/// other controls where it had none, and where it was where it had one. The other paragraphs, and
/// the definition itself, stay.
pub proof fn law_section_definition_in_front(d: DocumentView, i: int)
    requires
        0 <= i < d.sections.len(),
    ensures
        ({
            let s = d.sections[i];
            let r = normal_document(d).sections[i];
            &&& r.section_def == s.section_def
            &&& r.paragraphs.len() == s.paragraphs.len()
            &&& forall|j: int|
                0 < j < s.paragraphs.len() ==> #[trigger] r.paragraphs[j] == normal_paragraph(
                    s.paragraphs[j],
                )
            &&& s.paragraphs.len() > 0 && defines_section(s.paragraphs[0].controls)
                ==> r.paragraphs[0] == normal_paragraph(s.paragraphs[0])
            &&& s.paragraphs.len() > 0 && !defines_section(s.paragraphs[0].controls) ==> {
                let before = s.paragraphs[0].controls;
                let after = r.paragraphs[0].controls;
                &&& after.len() == before.len() + 1
                &&& after[0] == ControlView::SectionDef(s.section_def)
                &&& forall|k: int|
                    0 <= k < before.len() ==> #[trigger] after[k + 1] == normal_control(before[k])
                &&& r.paragraphs[0].text == s.paragraphs[0].text
            }
        }),
{
    let s = d.sections[i];
    let defs = with_section_defs(d.sections);
    let t = with_section_def(s);
    assert(defs[i] == t);
    let r = normal_document(d).sections[i];
    assert(r == normal_section(t));
    if s.paragraphs.len() > 0 {
        assert(has_section_def(s.paragraphs[0]) == defines_section(s.paragraphs[0].controls));
        assert(r.paragraphs[0] == normal_paragraph(t.paragraphs[0]));
        if !defines_section(s.paragraphs[0].controls) {
            let before = s.paragraphs[0].controls;
            let x = ControlView::SectionDef(s.section_def);
            let with = before.insert(0, x);
            assert(t.paragraphs[0].controls == with);
            let after = r.paragraphs[0].controls;
            assert(after == normal_controls(with));
            assert(after[0] == normal_control(with[0]));
            assert(normal_control(x) == x);
            assert forall|k: int| 0 <= k < before.len() implies #[trigger] after[k + 1]
                == normal_control(before[k]) by {
                assert(with[k + 1] == before[k]);
                assert(after[k + 1] == normal_control(with[k + 1]));
            }
        }
    }
}

/// A paragraph uses the borders and fills that one of its controls uses.
pub proof fn law_paragraph_uses(p: ParagraphView, id: u16)
    ensures
        paragraph_uses(p, id) <==> exists|i: int|
            0 <= i < p.controls.len() && control_uses(#[trigger] p.controls[i], id),
{
    lemma_controls_use(p.controls, p.controls.len(), id);
}

proof fn lemma_controls_use(s: Seq<ControlView>, n: nat, id: u16)
    requires
        n <= s.len(),
    ensures
        controls_use(s, n, id) <==> exists|i: int|
            0 <= i < n && control_uses(#[trigger] s[i], id),
    decreases n,
{
    if n > 0 {
        lemma_controls_use(s, (n - 1) as nat, id);
        if controls_use(s, (n - 1) as nat, id) {
            let i = choose|i: int| 0 <= i < n - 1 && control_uses(#[trigger] s[i], id);
            assert(control_uses(s[i], id));
        }
        assert(control_uses(s[n - 1], id) ==> controls_use(s, n, id));
    }
}

proof fn lemma_paragraphs_use(s: Seq<ParagraphView>, n: nat, id: u16)
    requires
        n <= s.len(),
    ensures
        paragraphs_use(s, n, id) <==> exists|i: int|
            0 <= i < n && paragraph_uses(#[trigger] s[i], id),
    decreases n,
{
    if n > 0 {
        lemma_paragraphs_use(s, (n - 1) as nat, id);
        if paragraphs_use(s, (n - 1) as nat, id) {
            let i = choose|i: int| 0 <= i < n - 1 && paragraph_uses(#[trigger] s[i], id);
            assert(paragraph_uses(s[i], id));
        }
        assert(paragraph_uses(s[n - 1], id) ==> paragraphs_use(s, n, id));
    }
}

proof fn lemma_cells_use(s: Seq<CellView>, n: nat, id: u16)
    requires
        n <= s.len(),
    ensures
        cells_use(s, n, id) <==> exists|i: int| 0 <= i < n && cell_uses(#[trigger] s[i], id),
    decreases n,
{
    if n > 0 {
        lemma_cells_use(s, (n - 1) as nat, id);
        if cells_use(s, (n - 1) as nat, id) {
            let i = choose|i: int| 0 <= i < n - 1 && cell_uses(#[trigger] s[i], id);
            assert(cell_uses(s[i], id));
        }
        assert(cell_uses(s[n - 1], id) ==> cells_use(s, n, id));
    }
}

proof fn lemma_shapes_use(s: Seq<ShapeView>, n: nat, id: u16)
    requires
        n <= s.len(),
    ensures
        shapes_use(s, n, id) <==> exists|i: int| 0 <= i < n && shape_uses(#[trigger] s[i], id),
    decreases n,
{
    if n > 0 {
        lemma_shapes_use(s, (n - 1) as nat, id);
        if shapes_use(s, (n - 1) as nat, id) {
            let i = choose|i: int| 0 <= i < n - 1 && shape_uses(#[trigger] s[i], id);
            assert(shape_uses(s[i], id));
        }
        assert(shape_uses(s[n - 1], id) ==> shapes_use(s, n, id));
    }
}

/// A control uses the borders and fills of its table or drawn object: a table those of itself, of
/// its zones and of its cells, and those that the paragraphs of its cells use; a drawn object
/// those that the paragraphs of its text use; a group those that its members use. Nothing else
/// uses any.
pub proof fn law_control_uses(x: ControlView, id: u16)
    ensures
        x matches ControlView::Table(t) ==> (control_uses(x, id) <==> {
            ||| t.border_fill_id == id
            ||| exists|i: int|
                0 <= i < t.zones.len() && (#[trigger] t.zones[i]).border_fill_id == id
            ||| exists|i: int|
                0 <= i < t.cells.len() && (#[trigger] t.cells[i]).border_fill_id == id
            ||| exists|i: int, j: int|
                0 <= i < t.cells.len() && 0 <= j < t.cells[i].paragraphs.len() && paragraph_uses(
                    #[trigger] t.cells[i].paragraphs[j],
                    id,
                )
        }),
        x matches ControlView::Shape(s) ==> (control_uses(x, id) <==> shape_uses(s, id)),
        !(x is Table) && !(x is Shape) ==> !control_uses(x, id),
{
    if let ControlView::Table(t) = x {
        lemma_cells_use(t.cells, t.cells.len(), id);
        assert forall|i: int| 0 <= i < t.cells.len() implies (cell_uses(#[trigger] t.cells[i], id)
            <==> t.cells[i].border_fill_id == id || exists|j: int|
            0 <= j < t.cells[i].paragraphs.len() && paragraph_uses(
                #[trigger] t.cells[i].paragraphs[j],
                id,
            )) by {
            lemma_paragraphs_use(t.cells[i].paragraphs, t.cells[i].paragraphs.len(), id);
        }
        assert(control_uses(x, id) == table_uses(t, id));
        assert(table_uses(t, id) == (t.border_fill_id == id || zones_use(t.zones, id) || cells_use(
            t.cells,
            t.cells.len(),
            id,
        )));
        if cells_use(t.cells, t.cells.len(), id) {
            let i = choose|i: int| 0 <= i < t.cells.len() && cell_uses(#[trigger] t.cells[i], id);
            assert(cell_uses(t.cells[i], id));
        }
        if exists|i: int| 0 <= i < t.cells.len() && (#[trigger] t.cells[i]).border_fill_id == id {
            let i = choose|i: int|
                0 <= i < t.cells.len() && (#[trigger] t.cells[i]).border_fill_id == id;
            assert(cell_uses(t.cells[i], id));
        }
        if exists|i: int, j: int|
            0 <= i < t.cells.len() && 0 <= j < t.cells[i].paragraphs.len() && paragraph_uses(
                #[trigger] t.cells[i].paragraphs[j],
                id,
            ) {
            let (i, j) = choose|i: int, j: int|
                0 <= i < t.cells.len() && 0 <= j < t.cells[i].paragraphs.len() && paragraph_uses(
                    #[trigger] t.cells[i].paragraphs[j],
                    id,
                );
            assert(paragraph_uses(t.cells[i].paragraphs[j], id));
            assert(cell_uses(t.cells[i], id));
        }
    }
}

/// A drawn object uses what the paragraphs of its text use, a group what its members use, and a
/// picture nothing.
pub proof fn law_shape_uses(s: ShapeView, id: u16)
    ensures
        match s {
            ShapeView::Drawn { kind, common, drawing } => shape_uses(s, id) <==> {
                &&& drawing.text_box is Some
                &&& exists|i: int|
                    0 <= i < drawing.text_box->0.paragraphs.len() && paragraph_uses(
                        #[trigger] drawing.text_box->0.paragraphs[i],
                        id,
                    )
            },
            ShapeView::Group { common, children } => shape_uses(s, id) <==> exists|i: int|
                0 <= i < children.len() && shape_uses(#[trigger] children[i], id),
            ShapeView::Picture(p) => !shape_uses(s, id),
        },
{
    match s {
        ShapeView::Drawn { kind, common, drawing } => {
            assert(shape_uses(s, id) == drawing_uses(drawing, id));
            if let Some(b) = drawing.text_box {
                lemma_paragraphs_use(b.paragraphs, b.paragraphs.len(), id);
                assert(drawing_uses(drawing, id) == paragraphs_use(
                    b.paragraphs,
                    b.paragraphs.len(),
                    id,
                ));
            }
        },
        ShapeView::Group { common, children } => {
            lemma_shapes_use(children, children.len(), id);
        },
        ShapeView::Picture(p) => {},
    }
}

/// A section uses the borders and fills of its pages, the further ones among them, and those that
/// its paragraphs use.
pub proof fn law_section_uses(s: SectionView, id: u16)
    ensures
        section_uses(s, id) <==> {
            ||| s.section_def.page_border_fill.border_fill_id == id
            ||| exists|i: int|
                0 <= i < s.section_def.extra_page_border_fills.len() && (
                #[trigger] s.section_def.extra_page_border_fills[i]).border_fill_id == id
            ||| exists|i: int|
                0 <= i < s.paragraphs.len() && paragraph_uses(#[trigger] s.paragraphs[i], id)
        },
{
    lemma_paragraphs_use(s.paragraphs, s.paragraphs.len(), id);
}

/// Borders and a fill lose the fill exactly where only text uses them, by the number of their
/// place counted from one, and where they show nothing: no line on any side, and a fill of the
/// colour that stands for none. The borders are kept. All others stay as they are.
pub proof fn law_fills_removed(d: DocumentView, i: int)
    requires
        0 <= i < d.doc_info.border_fills.len(),
    ensures
        ({
            let info = d.doc_info;
            let sections = with_section_defs(d.sections);
            let b = info.border_fills[i];
            let list = normal_document(d).doc_info.border_fills;
            let r = list[i];
            let id = (i + 1) as u16;
            let by_text = (exists|k: int|
                0 <= k < info.para_shapes.len() && (#[trigger] info.para_shapes[k]).border_fill_id
                    == id) || (exists|k: int|
                0 <= k < info.char_shapes.len() && (#[trigger] info.char_shapes[k]).border_fill_id
                    == id);
            let by_object = exists|k: int|
                0 <= k < sections.len() && section_uses(#[trigger] sections[k], id);
            let no_line = b.borders@[0].line_type == BorderLineType::NoLine
                && b.borders@[1].line_type == BorderLineType::NoLine && b.borders@[2].line_type
                == BorderLineType::NoLine && b.borders@[3].line_type == BorderLineType::NoLine;
            let no_colour = b.fill.fill_type == FillType::Solid && b.fill.solid is Some
                && b.fill.alpha == 0 && b.fill.solid->0.background_color == 0xffff_ffff;
            &&& list.len() == info.border_fills.len()
            &&& r.borders == b.borders
            &&& i < 0xffff && by_text && !by_object && no_line && no_colour ==> {
                &&& r.fill.fill_type == FillType::NoFill
                &&& r.fill.solid is None
                &&& r.fill.gradient is None
                &&& r.fill.image is None
                &&& r.fill.alpha == 0
                &&& r.raw_data is None
            }
            &&& !(i < 0xffff && by_text && !by_object && no_line && no_colour) ==> r == b
        }),
{
    let info = d.doc_info;
    let sections = with_section_defs(d.sections);
    let id = (i + 1) as u16;
    let b = info.border_fills[i];
    assert(normal_document(d).doc_info.border_fills == normal_border_fills(info, sections));
    if exists|k: int| 0 <= k < sections.len() && section_uses(#[trigger] sections[k], id) {
        let k = choose|k: int|
            0 <= k < sections.len() && section_uses(#[trigger] sections[k], id);
        assert(section_uses(sections[k], id));
        assert(objects_use(sections, id));
    }
    if objects_use(sections, id) {
        let k = choose|k: int|
            0 <= k < sections.len() && #[trigger] section_uses(sections[k], id);
        assert(section_uses(sections[k], id));
    }
    if exists|k: int|
        0 <= k < info.para_shapes.len() && (#[trigger] info.para_shapes[k]).border_fill_id == id {
        assert(text_uses(info, id));
    }
    if exists|k: int|
        0 <= k < info.char_shapes.len() && (#[trigger] info.char_shapes[k]).border_fill_id == id {
        assert(text_uses(info, id));
    }
}

/// The record beside a picture with a link is the record of the link. Every other record stays,
/// and a control without one gets an empty one.
pub proof fn law_records_beside_controls(p: ParagraphView, i: int)
    requires
        0 <= i < p.controls.len() || 0 <= i < p.ctrl_data_records.len(),
    ensures
        ({
            let r = normal_paragraph(p).ctrl_data_records;
            let had = if i < p.ctrl_data_records.len() {
                p.ctrl_data_records[i]
            } else {
                None
            };
            let link = i < p.controls.len() && p.controls[i] is Picture && (
            p.controls[i]->Picture_0).href is Some && ((p.controls[i]->Picture_0).href->0).len()
                > 0;
            &&& i < r.len()
            &&& link ==> r[i] == Some(
                super::normal_form::href_record((p.controls[i]->Picture_0).href->0),
            )
            &&& !link ==> r[i] == had
        }),
{
}

/// Every part of a paragraph is brought into its normal form: each control at its place, each
/// paragraph of each cell of a table, the text of each drawn object, and each member of a group.
/// Pictures, definitions of sections and unknown controls stay as they are.
pub proof fn law_every_control_reached(p: ParagraphView, i: int)
    requires
        0 <= i < p.controls.len(),
    ensures
        ({
            let q = normal_paragraph(p);
            let x = p.controls[i];
            let y = q.controls[i];
            &&& q.controls.len() == p.controls.len()
            &&& q.text == p.text
            &&& match x {
                ControlView::Table(t) => y == ControlView::Table(normal_table(t)),
                ControlView::Shape(s) => y == ControlView::Shape(normal_shape(s)),
                ControlView::Equation(e) => y == ControlView::Equation(normal_equation(e)),
                _ => y == x,
            }
        }),
{
    let q = normal_paragraph(p);
    assert(q.controls == normal_controls(p.controls));
    assert(q.controls[i] == normal_control(p.controls[i]));
}

/// Each paragraph of each cell of a table is brought into its normal form, whether the header of
/// the table has to be made or not.
pub proof fn law_every_cell_reached(t: TableView, i: int, j: int)
    requires
        0 <= i < t.cells.len(),
        0 <= j < t.cells[i].paragraphs.len(),
    ensures
        ({
            let u = normal_table(t);
            &&& u.cells.len() == t.cells.len()
            &&& u.cells[i].paragraphs.len() == t.cells[i].paragraphs.len()
            &&& u.cells[i].paragraphs[j] == normal_paragraph(t.cells[i].paragraphs[j])
        }),
{
    let fine = is_fine_grid(t);
    assert(normal_table(t).cells == normal_cells(t.cells, fine));
    assert(normal_table(t).cells[i] == normal_cell(t.cells[i], fine));
    assert(normal_cell(t.cells[i], fine).paragraphs == normal_paragraphs(t.cells[i].paragraphs));
}

/// Each member of a group, and each paragraph of the text of a drawn object, is brought into its
/// normal form; the object itself stays.
pub proof fn law_every_shape_reached(s: ShapeView, i: int)
    ensures
        match s {
            ShapeView::Drawn { kind, common, drawing } => {
                let r = normal_shape(s);
                &&& r is Drawn
                &&& r->kind == kind
                &&& r->Drawn_common == common
                &&& r->drawing.inst_id == drawing.inst_id
                &&& r->drawing.text_box is Some <==> drawing.text_box is Some
                &&& drawing.text_box matches Some(b) ==> {
                    &&& r->drawing.text_box->0.paragraphs.len() == b.paragraphs.len()
                    &&& 0 <= i < b.paragraphs.len() ==> (r->drawing.text_box->0).paragraphs[i]
                        == (ParagraphView {
                        raw_header_extra: (r->drawing.text_box->0).paragraphs[i].raw_header_extra,
                        ..normal_paragraph(b.paragraphs[i])
                    })
                }
            },
            ShapeView::Group { common, children } => {
                let r = normal_shape(s);
                &&& r is Group
                &&& r->Group_common == common
                &&& r->children.len() == children.len()
                &&& 0 <= i < children.len() ==> r->children[i] == normal_shape(children[i])
            },
            ShapeView::Picture(p) => normal_shape(s) == s,
        },
{
    match s {
        ShapeView::Drawn { kind, common, drawing } => {
            if let Some(b) = drawing.text_box {
                let c = normal_text_box(b);
                assert(normal_drawing(drawing).text_box == Some(c));
                if 0 <= i < b.paragraphs.len() {
                    let q = normal_paragraphs(b.paragraphs)[i];
                    assert(q == normal_paragraph(b.paragraphs[i]));
                    assert(c.paragraphs[i] == if needs_tails(b) {
                        with_tail(q)
                    } else {
                        q
                    });
                }
            }
        },
        ShapeView::Group { common, children } => {
            assert(normal_shape(s) == (ShapeView::Group {
                common,
                children: normal_shapes(children),
            }));
            if 0 <= i < children.len() {
                assert(normal_shapes(children)[i] == normal_shape(children[i]));
            }
        },
        ShapeView::Picture(p) => {},
    }
}

/// Whether a paragraph of a text box holds a picture.
pub open spec fn holds_picture(b: TextBoxView) -> bool {
    exists|i: int, j: int|
        0 <= i < b.paragraphs.len() && 0 <= j < b.paragraphs[i].controls.len() && (
        #[trigger] b.paragraphs[i].controls[j]) is Picture
}

/// A text box that holds a picture gets the end of its list header, thirteen bytes of zero, and
/// each of its paragraphs with fewer than twelve bytes at the end of its header gets twelve; where
/// they are there they stay. A text box without a picture keeps them all as they are.
pub proof fn law_text_box_headers(b: TextBoxView, i: int)
    requires
        0 <= i < b.paragraphs.len(),
    ensures
        ({
            let c = normal_text_box(b);
            let before = b.paragraphs[i].raw_header_extra;
            let after = c.paragraphs[i].raw_header_extra;
            &&& c.list_attr == b.list_attr
            &&& c.max_width == b.max_width
            &&& c.raw_list_header_extra.len() == if holds_picture(b)
                && b.raw_list_header_extra.len() == 0 {
                13
            } else {
                b.raw_list_header_extra.len()
            }
            &&& b.raw_list_header_extra.len() > 0 || !holds_picture(b) ==> c.raw_list_header_extra
                == b.raw_list_header_extra
            &&& b.raw_list_header_extra.len() == 0 ==> forall|k: int|
                0 <= k < c.raw_list_header_extra.len() ==> #[trigger] c.raw_list_header_extra[k]
                    == 0
            &&& !holds_picture(b) || before.len() >= 12 ==> after == before
            &&& holds_picture(b) && before.len() < 12 ==> tells_counts(
                after,
                b.paragraphs[i].char_shapes.len(),
                b.paragraphs[i].range_tags.len(),
                b.paragraphs[i].line_segs.len(),
            )
        }),
{
    let c = normal_text_box(b);
    lemma_holds_picture(b);
    let p = b.paragraphs[i];
    let q = normal_paragraphs(b.paragraphs)[i];
    assert(q == normal_paragraph(p));
    if needs_tails(b) {
        assert(c.paragraphs[i] == with_tail(q));
        if lacks_tail(p) {
            law_header_tail(q);
        }
    }
}

proof fn lemma_holds_picture(b: TextBoxView)
    ensures
        needs_tails(b) == holds_picture(b),
{
    if needs_tails(b) {
        let i = choose|i: int|
            0 <= i < b.paragraphs.len() && #[trigger] has_picture(b.paragraphs[i]);
        let p = b.paragraphs[i];
        let j = choose|j: int| 0 <= j < p.controls.len() && #[trigger] p.controls[j] is Picture;
        assert(b.paragraphs[i].controls[j] is Picture);
    }
    if holds_picture(b) {
        let (i, j) = choose|i: int, j: int|
            0 <= i < b.paragraphs.len() && 0 <= j < b.paragraphs[i].controls.len() && (
            #[trigger] b.paragraphs[i].controls[j]) is Picture;
        assert(b.paragraphs[i].controls[j] is Picture);
        assert(has_picture(b.paragraphs[i]));
    }
}

/// Completing the headers of a text box by itself gives them the ends that they have in its normal
/// form, and changes nothing else.
pub proof fn law_headers_completed_alone(b: TextBoxView, i: int)
    requires
        0 <= i < b.paragraphs.len(),
    ensures
        ({
            let c = with_tails(b);
            let n = normal_text_box(b);
            &&& c.list_attr == b.list_attr
            &&& c.max_width == b.max_width
            &&& c.raw_list_header_extra == n.raw_list_header_extra
            &&& c.paragraphs.len() == b.paragraphs.len()
            &&& c.paragraphs[i].raw_header_extra == n.paragraphs[i].raw_header_extra
            &&& c.paragraphs[i] == (ParagraphView {
                raw_header_extra: c.paragraphs[i].raw_header_extra,
                ..b.paragraphs[i]
            })
        }),
{
    let q = normal_paragraphs(b.paragraphs)[i];
    assert(q == normal_paragraph(b.paragraphs[i]));
}

/// A count as sixteen bits can tell it.
pub open spec fn told(n: nat) -> int {
    if n <= 0xffff {
        n as int
    } else {
        0xffff
    }
}

/// Whether twelve bytes tell the numbers of shapes of characters, at least one, of marks and of
/// lines, and an instance number with its highest bit set and no other.
pub open spec fn tells_counts(r: Seq<u8>, shapes: nat, tags: nat, lines: nat) -> bool {
    &&& r.len() == 12
    &&& number16(r[0], r[1]) == if shapes == 0 {
        1
    } else {
        told(shapes)
    }
    &&& number16(r[2], r[3]) == told(tags)
    &&& number16(r[4], r[5]) == told(lines)
    &&& number32(r[6], r[7], r[8], r[9]) == 0x8000_0000
    &&& r[10] == 0
    &&& r[11] == 0
}

/// The end of a paragraph header tells how much the paragraph has.
pub proof fn law_header_tail(p: ParagraphView)
    ensures
        tells_counts(
            header_tail(p),
            p.char_shapes.len(),
            p.range_tags.len(),
            p.line_segs.len(),
        ),
{
    let shapes: nat = if p.char_shapes.len() == 0 {
        1
    } else {
        p.char_shapes.len()
    };
    law_number16_from_bytes(count16(shapes));
    law_number16_from_bytes(count16(p.range_tags.len()));
    law_number16_from_bytes(count16(p.line_segs.len()));
    law_number_from_bytes(0x8000_0000);
    let r = header_tail(p);
    assert(r[0] == le16(count16(shapes))[0] && r[1] == le16(count16(shapes))[1]);
    assert(r[6] == le32(0x8000_0000)[0] && r[7] == le32(0x8000_0000)[1]);
    assert(r[8] == le32(0x8000_0000)[2] && r[9] == le32(0x8000_0000)[3]);
}

/// The changes in a list of paragraphs add up: one paragraph more adds its own.
pub proof fn law_paragraph_changes_add_up(s: Seq<ParagraphView>, p: ParagraphView, c: Change)
    ensures
        count_paragraphs(Seq::empty(), 0, c) == 0,
        count_paragraphs(s.push(p), s.len() + 1, c) == count_paragraphs(s, s.len(), c)
            + count_paragraph(p, c),
{
    lemma_paragraphs_prefix(s, p, s.len(), c);
    assert(s.push(p)[s.len() as int] == p);
}

proof fn lemma_paragraphs_prefix(s: Seq<ParagraphView>, p: ParagraphView, n: nat, c: Change)
    requires
        n <= s.len(),
    ensures
        count_paragraphs(s.push(p), n, c) == count_paragraphs(s, n, c),
    decreases n,
{
    if n > 0 {
        lemma_paragraphs_prefix(s, p, (n - 1) as nat, c);
        assert(s.push(p)[n - 1] == s[n - 1]);
    }
}

/// The changes in the cells of a table add up, each with those in its header and its paragraphs.
pub proof fn law_cell_changes_add_up(s: Seq<CellView>, x: CellView, fine: bool, c: Change)
    ensures
        count_cells(s.push(x), fine, s.len() + 1, c) == count_cells(s, fine, s.len(), c)
            + count_cell_header(x, fine, c) + count_paragraphs(x.paragraphs, x.paragraphs.len(), c),
{
    lemma_cells_prefix(s, x, fine, s.len(), c);
    assert(s.push(x)[s.len() as int] == x);
    assert(count_cell(x, fine, c) == count_cell_header(x, fine, c) + count_paragraphs(
        x.paragraphs,
        x.paragraphs.len(),
        c,
    ));
}

proof fn lemma_cells_prefix(s: Seq<CellView>, x: CellView, fine: bool, n: nat, c: Change)
    requires
        n <= s.len(),
    ensures
        count_cells(s.push(x), fine, n, c) == count_cells(s, fine, n, c),
    decreases n,
{
    if n > 0 {
        lemma_cells_prefix(s, x, fine, (n - 1) as nat, c);
        assert(s.push(x)[n - 1] == s[n - 1]);
    }
}

/// The changes in the members of a group add up.
pub proof fn law_shape_changes_add_up(s: Seq<ShapeView>, x: ShapeView, c: Change)
    ensures
        count_shapes(s.push(x), s.len() + 1, c) == count_shapes(s, s.len(), c) + count_shape(x, c),
{
    lemma_shapes_prefix(s, x, s.len(), c);
    assert(s.push(x)[s.len() as int] == x);
}

proof fn lemma_shapes_prefix(s: Seq<ShapeView>, x: ShapeView, n: nat, c: Change)
    requires
        n <= s.len(),
    ensures
        count_shapes(s.push(x), n, c) == count_shapes(s, n, c),
    decreases n,
{
    if n > 0 {
        lemma_shapes_prefix(s, x, (n - 1) as nat, c);
        assert(s.push(x)[n - 1] == s[n - 1]);
    }
}

/// The changes in a paragraph add up over its controls: a picture counts one where the record
/// beside it is other than before, an equation one where it is other than before, a table and a
/// drawn object those inside them, and nothing else counts any.
pub proof fn law_control_changes_add_up(p: ParagraphView, x: ControlView, c: Change)
    requires
        p.ctrl_data_records.len() <= p.controls.len(),
    ensures
        ({
            let q = ParagraphView { controls: p.controls.push(x), ..p };
            let own = count_paragraph(q, c) - count_paragraph(p, c);
            let slot = normal_paragraph(q).ctrl_data_records[p.controls.len() as int];
            match x {
                ControlView::Table(t) => own == count_table(t, c),
                ControlView::Shape(s) => own == count_shape(s, c),
                ControlView::Picture(pic) => own == if c == Change::PictureHref && slot is Some {
                    1int
                } else {
                    0
                },
                ControlView::Equation(e) => own == if c == Change::EquationCtrlHeader
                    && normal_equation(e) != e {
                    1int
                } else {
                    0
                },
                _ => own == 0,
            }
        }),
{
    let q = ParagraphView { controls: p.controls.push(x), ..p };
    let n = p.controls.len();
    let a = padded(p.ctrl_data_records, n);
    let b = padded(p.ctrl_data_records, n + 1);
    lemma_controls_prefix(p.controls, x, a, b, n, c);
    assert(b[n as int] is None);
    assert(q.controls[n as int] == x);
    assert(count_paragraph(q, c) == count_controls(q.controls, b, n + 1, c));
    assert(count_controls(q.controls, b, n + 1, c) == count_controls(q.controls, b, n, c)
        + count_control(x, b[n as int], c));
}

proof fn lemma_controls_prefix(
    s: Seq<ControlView>,
    x: ControlView,
    a: Seq<Option<Seq<u8>>>,
    b: Seq<Option<Seq<u8>>>,
    n: nat,
    c: Change,
)
    requires
        n <= s.len(),
        forall|i: int| 0 <= i < s.len() ==> #[trigger] a[i] == b[i],
    ensures
        count_controls(s.push(x), b, n, c) == count_controls(s, a, n, c),
    decreases n,
{
    if n > 0 {
        lemma_controls_prefix(s, x, a, b, (n - 1) as nat, c);
        assert(s.push(x)[n - 1] == s[n - 1]);
        assert(a[n - 1] == b[n - 1]);
    }
}

/// The changes in a table are those that making its header takes, where it has none, and those in
/// its cells. Those in a drawn object are those in its text and its headers, and those in a group
/// are those in its members.
pub proof fn law_object_changes(t: TableView, s: ShapeView, c: Change)
    ensures
        t.raw_ctrl_data.len() == 0 ==> count_table(t, c) == count_ctrl_data(t, c) + count_cells(
            t.cells,
            t.col_count >= 30,
            t.cells.len(),
            c,
        ),
        t.raw_ctrl_data.len() > 0 ==> count_table(t, c) == count_cells(
            t.cells,
            t.col_count >= 30,
            t.cells.len(),
            c,
        ),
        match s {
            ShapeView::Drawn { kind, common, drawing } => match drawing.text_box {
                Some(b) => count_shape(s, c) == count_paragraphs(
                    b.paragraphs,
                    b.paragraphs.len(),
                    c,
                ) + count_tails(b, c),
                None => count_shape(s, c) == 0,
            },
            ShapeView::Group { common, children } => count_shape(s, c) == count_shapes(
                children,
                children.len(),
                c,
            ),
            ShapeView::Picture(p) => count_shape(s, c) == 0,
        },
{
    match s {
        ShapeView::Drawn { kind, common, drawing } => {
            assert(count_shape(s, c) == count_drawing(drawing, c));
            if let Some(b) = drawing.text_box {
                assert(count_drawing(drawing, c) == count_text_box(b, c));
            }
        },
        _ => {},
    }
}

/// Completing the headers of a text box counts one change where its list header got its end, and
/// one for each paragraph whose header got its end.
pub proof fn law_text_box_changes(b: TextBoxView)
    ensures
        count_tails(b, Change::TextBoxListHeader) == if normal_text_box(b).raw_list_header_extra
            != b.raw_list_header_extra {
            1nat
        } else {
            0
        },
        count_tails(b, Change::TextBoxParaHeader) == if holds_picture(b) {
            b.paragraphs.filter(|p: ParagraphView| p.raw_header_extra.len() < 12).len()
        } else {
            0
        },
{
    lemma_holds_picture(b);
    assert(zeros(13).len() == 13);
    lemma_tails_filtered(b.paragraphs, b.paragraphs.len());
    assert(b.paragraphs.take(b.paragraphs.len() as int) =~= b.paragraphs);
}

proof fn lemma_tails_filtered(s: Seq<ParagraphView>, n: nat)
    requires
        n <= s.len(),
    ensures
        tails_lacking(s, n) == s.take(n as int).filter(
            |p: ParagraphView| p.raw_header_extra.len() < 12,
        ).len(),
    decreases n,
{
    reveal(Seq::filter);
    if n > 0 {
        lemma_tails_filtered(s, (n - 1) as nat);
        assert(s.take(n as int).drop_last() =~= s.take(n - 1));
        assert(s.take(n as int).last() == s[n - 1]);
    }
}

/// The changes in a document are one for its file header, one for its properties and one for its
/// list of data, where these are other than before, one for each section whose first paragraph
/// lacked the definition, one for each fill that was removed, and those in its paragraphs.
pub proof fn law_document_changes(d: DocumentView, c: Change)
    ensures
        ({
            let e = normal_document(d);
            let sections = with_section_defs(d.sections);
            let inside = count_sections(sections, sections.len(), c);
            let own = count_document(d, c) - inside;
            &&& c == Change::FileHeader ==> own == if e.header != d.header {
                1int
            } else {
                0
            }
            &&& c == Change::SectionCount ==> own == if e.doc_properties != d.doc_properties {
                1int
            } else {
                0
            }
            &&& c == Change::BinData ==> own == if e.doc_info.bin_data_list
                != d.doc_info.bin_data_list {
                1int
            } else {
                0
            }
            &&& c == Change::SectionDef ==> own == d.sections.filter(
                |s: SectionView|
                    s.paragraphs.len() > 0 && !defines_section(s.paragraphs[0].controls),
            ).len()
            &&& c != Change::FileHeader && c != Change::SectionCount && c != Change::BinData && c
                != Change::SectionDef && c != Change::BorderFill ==> own == 0
        }),
{
    lemma_defs_filtered(d.sections, d.sections.len());
    assert(d.sections.take(d.sections.len() as int) =~= d.sections);
}

proof fn lemma_defs_filtered(s: Seq<SectionView>, n: nat)
    requires
        n <= s.len(),
    ensures
        defs_lacking(s, n) == s.take(n as int).filter(
            |x: SectionView| x.paragraphs.len() > 0 && !defines_section(x.paragraphs[0].controls),
        ).len(),
    decreases n,
{
    reveal(Seq::filter);
    if n > 0 {
        lemma_defs_filtered(s, (n - 1) as nat);
        assert(s.take(n as int).drop_last() =~= s.take(n - 1));
        assert(s.take(n as int).last() == s[n - 1]);
        let x = s[n - 1];
        if x.paragraphs.len() > 0 {
            assert(has_section_def(x.paragraphs[0]) == defines_section(x.paragraphs[0].controls));
        }
    }
}

/// The changes in the paragraphs of all sections add up.
pub proof fn law_section_changes_add_up(s: Seq<SectionView>, x: SectionView, c: Change)
    ensures
        count_sections(s.push(x), s.len() + 1, c) == count_sections(s, s.len(), c)
            + count_paragraphs(x.paragraphs, x.paragraphs.len(), c),
{
    lemma_sections_prefix(s, x, s.len(), c);
    assert(s.push(x)[s.len() as int] == x);
}

proof fn lemma_sections_prefix(s: Seq<SectionView>, x: SectionView, n: nat, c: Change)
    requires
        n <= s.len(),
    ensures
        count_sections(s.push(x), n, c) == count_sections(s, n, c),
    decreases n,
{
    if n > 0 {
        lemma_sections_prefix(s, x, (n - 1) as nat, c);
        assert(s.push(x)[n - 1] == s[n - 1]);
    }
}

/// One fill counts where one is removed: a fill that loses nothing adds nothing.
pub proof fn law_fill_changes_add_up(info: DocInfoView, sections: Seq<SectionView>, n: nat)
    requires
        n < info.border_fills.len(),
    ensures
        fills_lost(info, sections, 0) == 0,
        fills_lost(info, sections, n + 1) - fills_lost(info, sections, n) == if normal_border_fills(
            info,
            sections,
        )[n as int] != info.border_fills[n as int] {
            1int
        } else {
            0
        },
{
    if loses_fill(info, sections, n as int) {
        assert(normal_border_fills(info, sections)[n as int].fill.fill_type == FillType::NoFill);
        assert(info.border_fills[n as int].fill.fill_type == FillType::Solid);
    }
}

} // verus!
