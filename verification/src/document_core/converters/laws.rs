//! What holds of documents in their normal form.

use super::common_obj_attr_writer::{law_record_starts_with_attr, packed_attr};
use super::normal_form::{
    bin_data_differs, cell_uses, cells_use, control_uses, controls_use, count_cell,
    count_cell_header, count_cells, count_control, count_controls, count_document, count_drawing,
    count_paragraph, count_paragraphs, count_sections, count_shape, count_shapes, count_table,
    count_text_box, defs_lacking, drawing_uses, escaped_from, fills_lost, has_picture,
    has_section_def, is_fine_grid, lacks_section_def, lacks_tail, law_pictures_kept, loses_fill,
    needs_tails, normal_bin_data_list, normal_border_fills, normal_cell, normal_cell_header,
    normal_cells, normal_control, normal_controls, normal_document, normal_drawing, normal_equation,
    normal_header, normal_href, normal_paragraph, normal_paragraphs, normal_section,
    normal_sections, normal_shape, normal_shapes, normal_slot, normal_table, normal_text_box,
    objects_use, padded, paragraph_uses, paragraphs_use, properties_differ, section_uses,
    shape_uses, shapes_use, table_common, table_uses, tails_lacking, text_uses, with_section_def,
    with_section_defs, with_tail, Change,
};
use crate::bytes::number32;
use crate::model::bin_data::BinDataView;
use crate::model::control::{ControlView, EquationView};
use crate::model::document::{DocInfoView, DocumentView, SectionView};
use crate::model::paragraph::ParagraphView;
use crate::model::shape::{DrawingObjAttrView, ShapeView, TextBoxView};
use crate::model::style::FillType;
use crate::model::table::{CellView, TableView};
use crate::text::{stands_at, stands_in};
use vstd::prelude::*;

verus! {

/// Controls that need no change count none.
proof fn lemma_no_control_changes(
    s: Seq<ControlView>,
    slots: Seq<Option<Seq<u8>>>,
    n: nat,
    c: Change,
)
    requires
        forall|i: int| 0 <= i < s.len() ==> #[trigger] count_control(s[i], slots[i], c) == 0,
    ensures
        count_controls(s, slots, n, c) == 0,
    decreases n,
{
    if 0 < n <= s.len() {
        lemma_no_control_changes(s, slots, (n - 1) as nat, c);
        assert(count_control(s[n - 1], slots[n - 1], c) == 0);
    }
}

/// Cells that need no change count none.
proof fn lemma_no_cell_changes(s: Seq<CellView>, fine: bool, n: nat, c: Change)
    requires
        forall|i: int| 0 <= i < s.len() ==> #[trigger] count_cell(s[i], fine, c) == 0,
    ensures
        count_cells(s, fine, n, c) == 0,
    decreases n,
{
    if 0 < n <= s.len() {
        lemma_no_cell_changes(s, fine, (n - 1) as nat, c);
        assert(count_cell(s[n - 1], fine, c) == 0);
    }
}

/// Paragraphs that need no change count none.
proof fn lemma_no_paragraph_changes(s: Seq<ParagraphView>, n: nat, c: Change)
    requires
        forall|i: int| 0 <= i < s.len() ==> #[trigger] count_paragraph(s[i], c) == 0,
    ensures
        count_paragraphs(s, n, c) == 0,
    decreases n,
{
    if 0 < n <= s.len() {
        lemma_no_paragraph_changes(s, (n - 1) as nat, c);
        assert(count_paragraph(s[n - 1], c) == 0);
    }
}

/// Drawn objects that need no change count none.
proof fn lemma_no_shape_changes(s: Seq<ShapeView>, n: nat, c: Change)
    requires
        forall|i: int| 0 <= i < s.len() ==> #[trigger] count_shape(s[i], c) == 0,
    ensures
        count_shapes(s, n, c) == 0,
    decreases n,
{
    if 0 < n <= s.len() {
        lemma_no_shape_changes(s, (n - 1) as nat, c);
        assert(count_shape(s[n - 1], c) == 0);
    }
}

/// A paragraph keeps its text, its shapes, its lines and the number of its controls.
pub proof fn law_paragraph_layout_kept(p: ParagraphView)
    ensures
        ({
            let q = normal_paragraph(p);
            &&& q.text == p.text
            &&& q.para_shape_id == p.para_shape_id
            &&& q.char_shapes == p.char_shapes
            &&& q.range_tags == p.range_tags
            &&& q.line_segs == p.line_segs
            &&& q.raw_header_extra == p.raw_header_extra
            &&& q.controls.len() == p.controls.len()
        }),
{
}

/// A paragraph in its normal form stays as it is, and needs no change.
pub proof fn law_paragraph_stable(p: ParagraphView)
    ensures
        normal_paragraph(normal_paragraph(p)) == normal_paragraph(p),
        forall|c: Change| #[trigger] count_paragraph(normal_paragraph(p), c) == 0,
    decreases p,
{
    let q = normal_paragraph(p);
    let slots = padded(p.ctrl_data_records, p.controls.len());
    assert(q.controls == normal_controls(p.controls));
    let again = padded(q.ctrl_data_records, q.controls.len());
    assert(again =~= q.ctrl_data_records);
    assert forall|i: int| 0 <= i < p.controls.len() implies {
        &&& normal_control(#[trigger] q.controls[i]) == q.controls[i]
        &&& normal_slot(q.controls[i], again[i]) == again[i]
        &&& forall|c: Change| #[trigger] count_control(q.controls[i], again[i], c) == 0
    } by {
        law_control_stable(p.controls[i], slots[i]);
        assert(q.controls[i] == normal_control(p.controls[i]));
        assert(again[i] == normal_slot(p.controls[i], slots[i]));
    }
    assert(normal_controls(q.controls) =~= q.controls);
    assert(normal_paragraph(q).ctrl_data_records =~= q.ctrl_data_records);
    assert(normal_paragraph(q) =~= q);
    assert forall|c: Change| #[trigger] count_paragraph(q, c) == 0 by {
        assert forall|i: int| 0 <= i < q.controls.len() implies #[trigger] count_control(
            q.controls[i],
            again[i],
            c,
        ) == 0 by {
            assert(normal_control(q.controls[i]) == q.controls[i]);
        }
        lemma_no_control_changes(q.controls, again, q.controls.len(), c);
    }
}

/// Paragraphs in their normal form stay as they are, and need no change.
pub proof fn law_paragraphs_stable(s: Seq<ParagraphView>)
    ensures
        normal_paragraphs(normal_paragraphs(s)) == normal_paragraphs(s),
        forall|c: Change, n: nat| #[trigger] count_paragraphs(normal_paragraphs(s), n, c) == 0,
    decreases s,
{
    let t = normal_paragraphs(s);
    assert forall|i: int| 0 <= i < s.len() implies {
        &&& normal_paragraph(#[trigger] t[i]) == t[i]
        &&& forall|c: Change| #[trigger] count_paragraph(t[i], c) == 0
    } by {
        law_paragraph_stable(s[i]);
    }
    assert(normal_paragraphs(t) =~= t);
    assert forall|c: Change, n: nat| #[trigger] count_paragraphs(t, n, c) == 0 by {
        assert forall|i: int| 0 <= i < t.len() implies #[trigger] count_paragraph(t[i], c)
            == 0 by {
            assert(normal_paragraph(t[i]) == t[i]);
        }
        lemma_no_paragraph_changes(t, n, c);
    }
}

/// A control in its normal form, with the record beside it, stays as it is and needs no change.
pub proof fn law_control_stable(x: ControlView, slot: Option<Seq<u8>>)
    ensures
        normal_control(normal_control(x)) == normal_control(x),
        normal_slot(normal_control(x), normal_slot(x, slot)) == normal_slot(x, slot),
        forall|c: Change| #[trigger]
            count_control(normal_control(x), normal_slot(x, slot), c) == 0,
    decreases x,
{
    let y = normal_control(x);
    let kept = normal_slot(x, slot);
    match x {
        ControlView::Table(t) => {
            law_table_stable(t);
            let u = normal_table(t);
            assert(y == ControlView::Table(u));
            assert(normal_control(y) == ControlView::Table(normal_table(u)));
            assert forall|c: Change| #[trigger] count_control(y, kept, c) == 0 by {
                assert(count_control(y, kept, c) == count_table(u, c));
            }
        },
        ControlView::Shape(s) => {
            law_shape_stable(s);
            let u = normal_shape(s);
            assert(y == ControlView::Shape(u));
            assert(normal_control(y) == ControlView::Shape(normal_shape(u)));
            assert forall|c: Change| #[trigger] count_control(y, kept, c) == 0 by {
                assert(count_control(y, kept, c) == count_shape(u, c));
            }
        },
        ControlView::Equation(e) => {
            law_equation_stable(e);
        },
        ControlView::Picture(p) => {
            assert(y == x);
        },
        ControlView::SectionDef(d) => {
            assert(y == x);
        },
        ControlView::Unknown(id) => {
            assert(y == x);
        },
    }
}

/// An equation in its normal form stays as it is.
pub proof fn law_equation_stable(e: EquationView)
    ensures
        normal_equation(normal_equation(e)) == normal_equation(e),
{
    let f = normal_equation(e);
    assert(packed_attr(f.common) == packed_attr(e.common));
    assert(normal_equation(f) =~= f);
}

/// A table in its normal form stays as it is, and needs no change.
pub proof fn law_table_stable(t: TableView)
    ensures
        normal_table(normal_table(t)) == normal_table(t),
        forall|c: Change| #[trigger] count_table(normal_table(t), c) == 0,
    decreases t,
{
    let u = normal_table(t);
    let fine = is_fine_grid(t);
    law_record_starts_with_attr(table_common(t));
    assert(u.raw_ctrl_data.len() > 0);
    assert(u.cells == normal_cells(t.cells, fine));
    assert forall|i: int| 0 <= i < t.cells.len() implies {
        &&& normal_cell(#[trigger] u.cells[i], fine) == u.cells[i]
        &&& forall|c: Change| #[trigger] count_cell(u.cells[i], fine, c) == 0
    } by {
        law_cell_stable(t.cells[i], fine);
    }
    assert(normal_cells(u.cells, fine) =~= u.cells);
    assert forall|c: Change| #[trigger] count_table(u, c) == 0 by {
        assert forall|i: int| 0 <= i < u.cells.len() implies #[trigger] count_cell(
            u.cells[i],
            fine,
            c,
        ) == 0 by {
            assert(normal_cell(u.cells[i], fine) == u.cells[i]);
        }
        lemma_no_cell_changes(u.cells, fine, u.cells.len(), c);
    }
}

/// A cell in its normal form stays as it is, and needs no change.
pub proof fn law_cell_stable(x: CellView, fine: bool)
    ensures
        normal_cell(normal_cell(x, fine), fine) == normal_cell(x, fine),
        forall|c: Change| #[trigger] count_cell(normal_cell(x, fine), fine, c) == 0,
    decreases x,
{
    let y = normal_cell(x, fine);
    let w = x.list_header_width_ref;
    assert((w | 1) | 1 == w | 1) by (bit_vector);
    assert((w & 0xfffe) & 0xfffe == w & 0xfffe) by (bit_vector);
    law_paragraphs_stable(x.paragraphs);
    assert(y.paragraphs == normal_paragraphs(x.paragraphs));
    assert(y.raw_list_extra.len() > 0);
    assert(normal_cell_header(y, fine) == y);
    assert(normal_cell(y, fine).paragraphs == y.paragraphs);
    assert(normal_cell(y, fine) == y);
    assert forall|c: Change| #[trigger] count_cell(y, fine, c) == 0 by {
        assert(count_paragraphs(y.paragraphs, y.paragraphs.len(), c) == 0);
        assert(count_cell_header(y, fine, c) == 0);
    }
}

/// A paragraph keeps its controls where the end of its header is added, and the end of its
/// header where its controls are brought into their normal form.
proof fn lemma_tail_apart(p: ParagraphView)
    ensures
        normal_paragraph(with_tail(p)) == with_tail(normal_paragraph(p)),
        forall|c: Change| #[trigger] count_paragraph(with_tail(p), c) == count_paragraph(p, c),
        has_picture(with_tail(p)) == has_picture(p),
        with_tail(with_tail(p)) == with_tail(p),
{
    assert(normal_paragraph(with_tail(p)) =~= with_tail(normal_paragraph(p)));
    assert(lacks_tail(p) ==> with_tail(p).raw_header_extra.len() == 12);
    assert(with_tail(p).controls == p.controls);
}

/// A text box in its normal form stays as it is, and needs no change.
pub proof fn law_text_box_stable(b: TextBoxView)
    ensures
        normal_text_box(normal_text_box(b)) == normal_text_box(b),
        forall|c: Change| #[trigger] count_text_box(normal_text_box(b), c) == 0,
    decreases b,
{
    let d = normal_text_box(b);
    let t = normal_paragraphs(b.paragraphs);
    law_paragraphs_stable(b.paragraphs);
    assert forall|i: int| 0 <= i < b.paragraphs.len() implies {
        &&& has_picture(#[trigger] d.paragraphs[i]) == has_picture(b.paragraphs[i])
        &&& normal_paragraph(d.paragraphs[i]) == d.paragraphs[i]
        &&& forall|c: Change| #[trigger] count_paragraph(d.paragraphs[i], c) == 0
        &&& needs_tails(b) ==> with_tail(d.paragraphs[i]) == d.paragraphs[i] && !lacks_tail(
            d.paragraphs[i],
        )
    } by {
        let p = b.paragraphs[i];
        law_paragraph_stable(p);
        law_pictures_kept(p);
        lemma_tail_apart(normal_paragraph(p));
        assert(t[i] == normal_paragraph(p));
    }
    assert(needs_tails(d) == needs_tails(b)) by {
        if needs_tails(b) {
            let i = choose|i: int|
                0 <= i < b.paragraphs.len() && has_picture(#[trigger] b.paragraphs[i]);
            assert(has_picture(d.paragraphs[i]));
        }
        if needs_tails(d) {
            let i = choose|i: int|
                0 <= i < d.paragraphs.len() && has_picture(#[trigger] d.paragraphs[i]);
            assert(has_picture(b.paragraphs[i]));
        }
    }
    assert(normal_paragraphs(d.paragraphs) =~= d.paragraphs);
    assert(normal_text_box(d).paragraphs =~= d.paragraphs);
    assert(needs_tails(b) ==> d.raw_list_header_extra.len() > 0);
    assert(normal_text_box(d) =~= d);
    if needs_tails(d) {
        lemma_no_tail_lacking(d.paragraphs, d.paragraphs.len());
    }
    assert forall|c: Change| #[trigger] count_text_box(d, c) == 0 by {
        assert forall|i: int| 0 <= i < d.paragraphs.len() implies #[trigger] count_paragraph(
            d.paragraphs[i],
            c,
        ) == 0 by {
            assert(normal_paragraph(d.paragraphs[i]) == d.paragraphs[i]);
        }
        lemma_no_paragraph_changes(d.paragraphs, d.paragraphs.len(), c);
    }
}

/// Where every paragraph header is complete, none is counted.
proof fn lemma_no_tail_lacking(s: Seq<ParagraphView>, n: nat)
    requires
        n <= s.len(),
        forall|i: int| 0 <= i < s.len() ==> !lacks_tail(#[trigger] s[i]),
    ensures
        tails_lacking(s, n) == 0,
    decreases n,
{
    if n > 0 {
        lemma_no_tail_lacking(s, (n - 1) as nat);
    }
}

/// A drawn object in its normal form stays as it is, and needs no change.
pub proof fn law_shape_stable(s: ShapeView)
    ensures
        normal_shape(normal_shape(s)) == normal_shape(s),
        forall|c: Change| #[trigger] count_shape(normal_shape(s), c) == 0,
    decreases s,
{
    match s {
        ShapeView::Drawn { kind, common, drawing } => {
            lemma_drawing_stable(drawing);
            let t = normal_shape(s);
            assert(t == (ShapeView::Drawn { kind, common, drawing: normal_drawing(drawing) }));
            assert forall|c: Change| #[trigger] count_shape(t, c) == 0 by {
                assert(count_shape(t, c) == count_drawing(normal_drawing(drawing), c));
            }
        },
        ShapeView::Group { common, children } => {
            let t = normal_shapes(children);
            assert forall|i: int| 0 <= i < children.len() implies {
                &&& normal_shape(#[trigger] t[i]) == t[i]
                &&& forall|c: Change| #[trigger] count_shape(t[i], c) == 0
            } by {
                law_shape_stable(children[i]);
            }
            assert(normal_shapes(t) =~= t);
            let g = normal_shape(s);
            assert(g == (ShapeView::Group { common, children: t }));
            assert forall|c: Change| #[trigger] count_shape(g, c) == 0 by {
                assert forall|i: int| 0 <= i < t.len() implies #[trigger] count_shape(t[i], c)
                    == 0 by {
                    assert(normal_shape(t[i]) == t[i]);
                }
                lemma_no_shape_changes(t, t.len(), c);
            }
        },
        ShapeView::Picture(p) => {},
    }
}

proof fn lemma_drawing_stable(d: DrawingObjAttrView)
    ensures
        normal_drawing(normal_drawing(d)) == normal_drawing(d),
        forall|c: Change| #[trigger] count_drawing(normal_drawing(d), c) == 0,
    decreases d,
{
    let e = normal_drawing(d);
    match d.text_box {
        Some(b) => {
            law_text_box_stable(b);
            assert(e.text_box == Some(normal_text_box(b)));
            assert(normal_drawing(e).text_box == Some(normal_text_box(normal_text_box(b))));
            assert(normal_drawing(e).inst_id == e.inst_id);
            assert forall|c: Change| #[trigger] count_drawing(e, c) == 0 by {
                assert(count_drawing(e, c) == count_text_box(normal_text_box(b), c));
            }
        },
        None => {},
    }
}

/// A paragraph uses the same borders and fills in its normal form.
pub proof fn law_paragraph_uses_kept(p: ParagraphView, id: u16)
    ensures
        paragraph_uses(normal_paragraph(p), id) == paragraph_uses(p, id),
    decreases p, 0nat,
{
    let q = normal_paragraph(p);
    assert(q.controls == normal_controls(p.controls));
    lemma_controls_use_kept(p.controls, p.controls.len(), id);
}

proof fn lemma_controls_use_kept(s: Seq<ControlView>, n: nat, id: u16)
    requires
        n <= s.len(),
    ensures
        controls_use(normal_controls(s), n, id) == controls_use(s, n, id),
    decreases s, n,
{
    if n > 0 {
        lemma_controls_use_kept(s, (n - 1) as nat, id);
        let x = s[n - 1];
        assert(normal_controls(s)[n - 1] == normal_control(x));
        match x {
            ControlView::Table(t) => {
                lemma_table_uses_kept(t, id);
                assert(control_uses(normal_control(x), id) == table_uses(normal_table(t), id));
            },
            ControlView::Shape(d) => {
                lemma_shape_uses_kept(d, id);
                assert(control_uses(normal_control(x), id) == shape_uses(normal_shape(d), id));
            },
            _ => {},
        }
        assert(control_uses(normal_control(x), id) == control_uses(x, id));
    }
}

proof fn lemma_table_uses_kept(t: TableView, id: u16)
    ensures
        table_uses(normal_table(t), id) == table_uses(t, id),
    decreases t, 0nat,
{
    let fine = is_fine_grid(t);
    lemma_cells_use_kept(t.cells, fine, t.cells.len(), id);
    assert(normal_table(t).cells == normal_cells(t.cells, fine));
}

proof fn lemma_cells_use_kept(s: Seq<CellView>, fine: bool, n: nat, id: u16)
    requires
        n <= s.len(),
    ensures
        cells_use(normal_cells(s, fine), n, id) == cells_use(s, n, id),
    decreases s, n,
{
    if n > 0 {
        lemma_cells_use_kept(s, fine, (n - 1) as nat, id);
        let x = s[n - 1];
        let y = normal_cell(x, fine);
        assert(normal_cells(s, fine)[n - 1] == y);
        lemma_paragraphs_use_kept(x.paragraphs, x.paragraphs.len(), id);
        assert(y.paragraphs == normal_paragraphs(x.paragraphs));
        assert(cell_uses(y, id) == cell_uses(x, id));
    }
}

proof fn lemma_paragraphs_use_kept(s: Seq<ParagraphView>, n: nat, id: u16)
    requires
        n <= s.len(),
    ensures
        paragraphs_use(normal_paragraphs(s), n, id) == paragraphs_use(s, n, id),
    decreases s, n,
{
    if n > 0 {
        lemma_paragraphs_use_kept(s, (n - 1) as nat, id);
        law_paragraph_uses_kept(s[n - 1], id);
        assert(normal_paragraphs(s)[n - 1] == normal_paragraph(s[n - 1]));
    }
}

proof fn lemma_tails_use_kept(s: Seq<ParagraphView>, n: nat, id: u16)
    requires
        n <= s.len(),
    ensures
        paragraphs_use(s.map_values(|p: ParagraphView| with_tail(p)), n, id) == paragraphs_use(
            s,
            n,
            id,
        ),
    decreases n,
{
    if n > 0 {
        lemma_tails_use_kept(s, (n - 1) as nat, id);
        let p = s[n - 1];
        assert(s.map_values(|q: ParagraphView| with_tail(q))[n - 1] == with_tail(p));
        assert(with_tail(p).controls == p.controls);
        assert(paragraph_uses(with_tail(p), id) == paragraph_uses(p, id));
    }
}

proof fn lemma_shape_uses_kept(s: ShapeView, id: u16)
    ensures
        shape_uses(normal_shape(s), id) == shape_uses(s, id),
    decreases s, 0nat,
{
    match s {
        ShapeView::Drawn { kind, common, drawing } => {
            let t = normal_drawing(drawing);
            assert(normal_shape(s) == (ShapeView::Drawn { kind, common, drawing: t }));
            match drawing.text_box {
                Some(b) => {
                    lemma_paragraphs_use_kept(b.paragraphs, b.paragraphs.len(), id);
                    lemma_tails_use_kept(
                        normal_paragraphs(b.paragraphs),
                        b.paragraphs.len(),
                        id,
                    );
                    assert(t.text_box == Some(normal_text_box(b)));
                },
                None => {},
            }
            assert(drawing_uses(t, id) == drawing_uses(drawing, id));
        },
        ShapeView::Group { common, children } => {
            lemma_shapes_use_kept(children, children.len(), id);
            assert(normal_shape(s) == (ShapeView::Group {
                common,
                children: normal_shapes(children),
            }));
        },
        ShapeView::Picture(p) => {},
    }
}

proof fn lemma_shapes_use_kept(s: Seq<ShapeView>, n: nat, id: u16)
    requires
        n <= s.len(),
    ensures
        shapes_use(normal_shapes(s), n, id) == shapes_use(s, n, id),
    decreases s, n,
{
    if n > 0 {
        lemma_shapes_use_kept(s, (n - 1) as nat, id);
        lemma_shape_uses_kept(s[n - 1], id);
        assert(normal_shapes(s)[n - 1] == normal_shape(s[n - 1]));
    }
}

/// Pages and objects use the same borders and fills in their normal form.
pub proof fn law_objects_use_kept(s: Seq<SectionView>, id: u16)
    ensures
        objects_use(normal_sections(s), id) == objects_use(s, id),
{
    let t = normal_sections(s);
    assert forall|i: int| 0 <= i < s.len() implies #[trigger] section_uses(t[i], id)
        == section_uses(s[i], id) by {
        lemma_paragraphs_use_kept(s[i].paragraphs, s[i].paragraphs.len(), id);
        assert(t[i] == normal_section(s[i]));
    }
    if objects_use(s, id) {
        let i = choose|i: int| 0 <= i < s.len() && #[trigger] section_uses(s[i], id);
        assert(section_uses(t[i], id));
    }
    if objects_use(t, id) {
        let i = choose|i: int| 0 <= i < t.len() && #[trigger] section_uses(t[i], id);
        assert(section_uses(s[i], id));
    }
}

/// After the definition of a section has been inserted, none is lacking, whether the section is
/// brought into its normal form or not.
pub proof fn law_section_def_inserted_once(s: SectionView)
    ensures
        !lacks_section_def(with_section_def(s)),
        !lacks_section_def(normal_section(with_section_def(s))),
{
    let t = with_section_def(s);
    let u = normal_section(t);
    if s.paragraphs.len() > 0 {
        let p = t.paragraphs[0];
        if lacks_section_def(s) {
            assert(p.controls[0] is SectionDef);
        }
        assert(has_section_def(p));
        let i = choose|i: int| 0 <= i < p.controls.len() && #[trigger] p.controls[i] is SectionDef;
        assert(u.paragraphs[0] == normal_paragraph(p));
        let q = normal_paragraph(p);
        assert(q.controls == normal_controls(p.controls));
        assert(q.controls[i] == normal_control(p.controls[i]));
        assert(q.controls[i] is SectionDef);
        assert(has_section_def(q));
    }
}

proof fn lemma_no_defs_lacking(s: Seq<SectionView>, n: nat)
    requires
        n <= s.len(),
        forall|i: int| 0 <= i < s.len() ==> !lacks_section_def(#[trigger] s[i]),
    ensures
        defs_lacking(s, n) == 0,
    decreases n,
{
    if n > 0 {
        lemma_no_defs_lacking(s, (n - 1) as nat);
    }
}

proof fn lemma_no_section_changes(s: Seq<SectionView>, n: nat, c: Change)
    requires
        forall|i: int|
            0 <= i < s.len() ==> count_paragraphs(
                (#[trigger] s[i]).paragraphs,
                s[i].paragraphs.len(),
                c,
            ) == 0,
    ensures
        count_sections(s, n, c) == 0,
    decreases n,
{
    if 0 < n <= s.len() {
        lemma_no_section_changes(s, (n - 1) as nat, c);
        assert(count_paragraphs(s[n - 1].paragraphs, s[n - 1].paragraphs.len(), c) == 0);
    }
}

proof fn lemma_no_fill_lost(info: DocInfoView, s: Seq<SectionView>, n: nat)
    requires
        n <= info.border_fills.len(),
        forall|i: int| 0 <= i < info.border_fills.len() ==> !#[trigger] loses_fill(info, s, i),
    ensures
        fills_lost(info, s, n) == 0,
    decreases n,
{
    if n > 0 {
        lemma_no_fill_lost(info, s, (n - 1) as nat);
        assert(!loses_fill(info, s, n - 1));
    }
}

/// The sections of a document in its normal form stay as they are, and need no change.
proof fn lemma_sections_stable(s: Seq<SectionView>)
    ensures
        ({
            let t = normal_sections(with_section_defs(s));
            &&& with_section_defs(t) == t
            &&& normal_sections(t) == t
            &&& defs_lacking(t, t.len()) == 0
            &&& forall|c: Change| #[trigger] count_sections(t, t.len(), c) == 0
        }),
{
    let with_defs = with_section_defs(s);
    let t = normal_sections(with_defs);
    assert forall|i: int| 0 <= i < s.len() implies {
        &&& !lacks_section_def(#[trigger] t[i])
        &&& normal_section(t[i]) == t[i]
        &&& forall|c: Change| #[trigger]
            count_paragraphs(t[i].paragraphs, t[i].paragraphs.len(), c) == 0
    } by {
        law_section_def_inserted_once(s[i]);
        let x = with_section_def(s[i]);
        assert(with_defs[i] == x);
        assert(t[i] == normal_section(x));
        law_paragraphs_stable(x.paragraphs);
    }
    assert(with_section_defs(t) =~= t);
    assert(normal_sections(t) =~= t);
    lemma_no_defs_lacking(t, t.len());
    assert forall|c: Change| #[trigger] count_sections(t, t.len(), c) == 0 by {
        lemma_no_section_changes(t, t.len(), c);
    }
}

/// The lists of a document in its normal form stay as they are, and no entry loses its fill.
proof fn lemma_fills_stable(info: DocInfoView, other: DocInfoView, s: Seq<SectionView>)
    requires
        other.para_shapes == info.para_shapes,
        other.char_shapes == info.char_shapes,
        other.border_fills == normal_border_fills(info, s),
    ensures
        normal_border_fills(other, normal_sections(s)) == other.border_fills,
        fills_lost(other, normal_sections(s), other.border_fills.len()) == 0,
{
    let t = normal_sections(s);
    assert forall|i: int| 0 <= i < other.border_fills.len() implies !#[trigger] loses_fill(
        other,
        t,
        i,
    ) by {
        let id = (i + 1) as u16;
        law_objects_use_kept(s, id);
        assert(text_uses(other, id) == text_uses(info, id));
        if loses_fill(info, s, i) {
            assert(other.border_fills[i].fill.fill_type == FillType::NoFill);
        } else {
            assert(other.border_fills[i] == info.border_fills[i]);
        }
    }
    assert(normal_border_fills(other, t) =~= other.border_fills);
    lemma_no_fill_lost(other, t, other.border_fills.len());
}

/// Binary data in its normal form stays as it is.
proof fn lemma_bin_data_stable(s: Seq<BinDataView>)
    ensures
        normal_bin_data_list(normal_bin_data_list(s)) == normal_bin_data_list(s),
{
    assert(normal_bin_data_list(normal_bin_data_list(s)) =~= normal_bin_data_list(s));
}

/// Bringing a document into its normal form a second time changes nothing and counts nothing.
pub proof fn law_document_stable(d: DocumentView)
    ensures
        normal_document(normal_document(d)) == normal_document(d),
        forall|c: Change| #[trigger] count_document(normal_document(d), c) == 0,
{
    let e = normal_document(d);
    let flags = d.header.flags;
    assert((flags | 1) | 1 == flags | 1) by (bit_vector);
    assert(normal_header(e.header) == e.header);
    lemma_bin_data_stable(d.doc_info.bin_data_list);
    lemma_sections_stable(d.sections);
    lemma_fills_stable(d.doc_info, e.doc_info, with_section_defs(d.sections));
    assert(e.sections == normal_sections(with_section_defs(d.sections)));
    assert(with_section_defs(e.sections) == e.sections);
    assert(e.sections.len() == d.sections.len());
    assert(!properties_differ(e));
    assert(!bin_data_differs(e));
    assert(normal_document(e).doc_info == e.doc_info);
    assert(normal_document(e) == e);
    assert forall|c: Change| #[trigger] count_document(e, c) == 0 by {
        assert(count_sections(e.sections, e.sections.len(), c) == 0);
    }
}

/// A document that is in its normal form counts no change.
pub proof fn law_unchanged_counts_nothing(d: DocumentView)
    requires
        normal_document(d) == d,
    ensures
        forall|c: Change| #[trigger] count_document(d, c) == 0,
{
    law_document_stable(d);
}

/// Either a backslash was put before some `://` of the rest of a link, or the rest is as it was.
proof fn lemma_escaped_or_same(s: Seq<char>, i: nat)
    requires
        i <= s.len(),
    ensures
        stands_in(escaped_from(s, i), "\\://"@) || escaped_from(s, i) == s.subrange(
            i as int,
            s.len() as int,
        ),
    decreases s.len() - i,
{
    reveal_strlit("://");
    let mark = "\\://"@;
    let r = escaped_from(s, i);
    if i < s.len() {
        if stands_at(s, i, "://"@) {
            let after = escaped_from(s, i + "://"@.len());
            assert(r == mark + after);
            assert((mark + after).subrange(0, mark.len() as int) =~= mark);
            assert(stands_at(r, 0, mark));
        } else {
            lemma_escaped_or_same(s, i + 1);
            let after = escaped_from(s, i + 1);
            assert(r == seq![s[i as int]] + after);
            if stands_in(after, mark) {
                let k = choose|k: nat| stands_at(after, k, mark);
                assert(r.subrange((k + 1) as int, (k + 1 + mark.len()) as int) =~= after.subrange(
                    k as int,
                    (k + mark.len()) as int,
                ));
                assert(stands_at(r, k + 1, mark));
            } else {
                assert(r =~= s.subrange(i as int, s.len() as int));
            }
        }
    } else {
        assert(r =~= s.subrange(i as int, s.len() as int));
    }
}

/// A link that has its backslashes gets no more.
pub proof fn law_href_escaped_once(s: Seq<char>)
    ensures
        normal_href(normal_href(s)) == normal_href(s),
{
    lemma_escaped_or_same(s, 0);
    assert(s.subrange(0, s.len() as int) =~= s);
}

/// The attribute word of a table whose control header is made is the one in that header.
pub proof fn law_table_attr_in_header(t: TableView)
    requires
        t.raw_ctrl_data.len() == 0,
    ensures
        ({
            let u = normal_table(t);
            &&& u.raw_ctrl_data.len() >= 4
            &&& u.attr == u.common.attr
            &&& number32(
                u.raw_ctrl_data[0],
                u.raw_ctrl_data[1],
                u.raw_ctrl_data[2],
                u.raw_ctrl_data[3],
            ) == u.attr
        }),
{
    law_record_starts_with_attr(table_common(t));
    let bits = packed_attr(t.common);
    let caption: u32 = if t.caption is Some {
        0x2000_0000
    } else {
        0
    };
    assert(bits | 0x2000 | 0x0800_0000 | caption != 0) by (bit_vector);
}

/// A cell of horizontal or vertical text that has margins of its own is written with bit 16 of
/// its list attributes set.
pub proof fn law_inner_margin_marked(x: CellView, fine: bool)
    requires
        x.apply_inner_margin,
        x.text_direction <= 1,
    ensures
        ((normal_cell(x, fine).text_direction as u32) << 16) & 0x1_0000 == 0x1_0000,
{
    assert((1u32 << 16) & 0x1_0000 == 0x1_0000) by (bit_vector);
    assert(normal_cell(x, fine).text_direction == 1);
}

} // verus!
