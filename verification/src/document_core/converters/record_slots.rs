//! The records beside controls, and what a report that counts no change tells.
//!
//! A paragraph keeps a list of records, one for each of its controls. Where the list is too
//! short it is filled up with empty records, and no report counts that.

use super::laws::law_paragraph_layout_kept;
use super::normal_form::{
    count_cell, count_cells, count_control, count_controls, count_document, count_drawing,
    count_paragraph, count_paragraphs, count_sections, count_shape, count_shapes, count_table,
    count_text_box, defs_lacking, fills_lost, is_fine_grid, lacks_section_def, lacks_tail,
    loses_fill, needs_tails, normal_border_fills, normal_cell, normal_cell_header, normal_cells,
    normal_control, normal_controls, normal_document, normal_drawing, normal_paragraph,
    normal_paragraphs, normal_section, normal_sections, normal_shape, normal_shapes, normal_slot,
    normal_table, normal_text_box, padded, tails_lacking, with_section_defs, with_tail, Change,
};
use crate::model::control::ControlView;
use crate::model::document::{DocInfoView, DocumentView, SectionView};
use crate::model::paragraph::ParagraphView;
use crate::model::shape::{DrawingObjAttrView, ShapeView, TextBoxView};
use crate::model::table::{CellView, TableView};
use vstd::prelude::*;

verus! {

/// A list of records that is filled up keeps the records that it has, and those added are empty.
pub proof fn law_added_records_are_empty(s: Seq<Option<Seq<u8>>>, n: nat)
    ensures
        padded(s, n).len() >= s.len(),
        padded(s, n).len() >= n,
        padded(s, n).len() == s.len() || padded(s, n).len() == n,
        forall|i: int| 0 <= i < s.len() ==> #[trigger] padded(s, n)[i] == s[i],
        forall|i: int|
            s.len() <= i < padded(s, n).len() ==> #[trigger] padded(s, n)[i] == None::<Seq<u8>>,
{
}

/// A paragraph with an empty record beside each control that had none, in all that it holds;
/// nothing else is changed.
pub open spec fn slotted_paragraph(p: ParagraphView) -> ParagraphView
    decreases p, 0nat,
{
    ParagraphView {
        controls: slotted_controls(p.controls),
        ctrl_data_records: padded(p.ctrl_data_records, p.controls.len()),
        ..p
    }
}

/// Controls with empty records added in all that they hold.
pub open spec fn slotted_controls(s: Seq<ControlView>) -> Seq<ControlView>
    decreases s, 0nat,
{
    Seq::new(
        s.len(),
        |i: int|
            if 0 <= i < s.len() {
                slotted_control(s[i])
            } else {
                arbitrary()
            },
    )
}

/// A control with empty records added in all that it holds.
pub open spec fn slotted_control(x: ControlView) -> ControlView
    decreases x, 0nat,
{
    match x {
        ControlView::Table(t) => ControlView::Table(slotted_table(t)),
        ControlView::Shape(s) => ControlView::Shape(slotted_shape(s)),
        _ => x,
    }
}

/// A table with empty records added in its cells.
pub open spec fn slotted_table(t: TableView) -> TableView
    decreases t, 0nat,
{
    TableView { cells: slotted_cells(t.cells), ..t }
}

/// Cells with empty records added in their paragraphs.
pub open spec fn slotted_cells(s: Seq<CellView>) -> Seq<CellView>
    decreases s, 0nat,
{
    Seq::new(
        s.len(),
        |i: int|
            if 0 <= i < s.len() {
                slotted_cell(s[i])
            } else {
                arbitrary()
            },
    )
}

/// A cell with empty records added in its paragraphs.
pub open spec fn slotted_cell(x: CellView) -> CellView
    decreases x, 0nat,
{
    CellView { paragraphs: slotted_paragraphs(x.paragraphs), ..x }
}

/// Paragraphs with empty records added in all that they hold.
pub open spec fn slotted_paragraphs(s: Seq<ParagraphView>) -> Seq<ParagraphView>
    decreases s, 0nat,
{
    Seq::new(
        s.len(),
        |i: int|
            if 0 <= i < s.len() {
                slotted_paragraph(s[i])
            } else {
                arbitrary()
            },
    )
}

/// A text box with empty records added in its paragraphs.
pub open spec fn slotted_text_box(b: TextBoxView) -> TextBoxView
    decreases b, 0nat,
{
    TextBoxView { paragraphs: slotted_paragraphs(b.paragraphs), ..b }
}

/// What drawn objects have in common, with empty records added in the text.
pub open spec fn slotted_drawing(d: DrawingObjAttrView) -> DrawingObjAttrView
    decreases d, 0nat,
{
    match d.text_box {
        Some(b) => DrawingObjAttrView { text_box: Some(slotted_text_box(b)), ..d },
        None => d,
    }
}

/// A drawn object with empty records added in all that it holds.
pub open spec fn slotted_shape(s: ShapeView) -> ShapeView
    decreases s, 0nat,
{
    match s {
        ShapeView::Drawn { kind, common, drawing } => ShapeView::Drawn {
            kind,
            common,
            drawing: slotted_drawing(drawing),
        },
        ShapeView::Group { common, children } => ShapeView::Group {
            common,
            children: slotted_shapes(children),
        },
        ShapeView::Picture(p) => s,
    }
}

/// Drawn objects with empty records added in all that they hold.
pub open spec fn slotted_shapes(s: Seq<ShapeView>) -> Seq<ShapeView>
    decreases s, 0nat,
{
    Seq::new(
        s.len(),
        |i: int|
            if 0 <= i < s.len() {
                slotted_shape(s[i])
            } else {
                arbitrary()
            },
    )
}

/// A section with empty records added in its paragraphs.
pub open spec fn slotted_section(s: SectionView) -> SectionView {
    SectionView { paragraphs: slotted_paragraphs(s.paragraphs), ..s }
}

/// A document with an empty record beside each control that had none; nothing else is changed.
pub open spec fn slotted_document(d: DocumentView) -> DocumentView {
    DocumentView {
        sections: d.sections.map_values(|s: SectionView| slotted_section(s)),
        ..d
    }
}

/// A paragraph that counts no change gets empty records and nothing else.
pub proof fn law_silent_paragraph(p: ParagraphView)
    requires
        forall|c: Change| #[trigger] count_paragraph(p, c) == 0,
    ensures
        normal_paragraph(p) == slotted_paragraph(p),
    decreases p, 0nat,
{
    let slots = padded(p.ctrl_data_records, p.controls.len());
    assert forall|c: Change| #[trigger]
        count_controls(p.controls, slots, p.controls.len(), c) == 0 by {
        assert(count_paragraph(p, c) == 0);
    }
    lemma_silent_controls(p.controls, slots, p.controls.len());
    assert(normal_controls(p.controls) =~= slotted_controls(p.controls));
    assert(normal_paragraph(p).ctrl_data_records =~= slots);
    assert(normal_paragraph(p) =~= slotted_paragraph(p));
}

proof fn lemma_silent_controls(s: Seq<ControlView>, slots: Seq<Option<Seq<u8>>>, n: nat)
    requires
        n <= s.len(),
        forall|c: Change| #[trigger] count_controls(s, slots, n, c) == 0,
    ensures
        forall|i: int|
            0 <= i < n ==> normal_control(#[trigger] s[i]) == slotted_control(s[i])
                && normal_slot(s[i], slots[i]) == slots[i],
    decreases s, n,
{
    if n > 0 {
        let m = (n - 1) as nat;
        let x = s[n - 1];
        let slot = slots[n - 1];
        assert forall|c: Change| #[trigger] count_controls(s, slots, m, c) == 0 by {
            assert(count_controls(s, slots, n, c) == 0);
        }
        assert forall|c: Change| #[trigger] count_control(x, slot, c) == 0 by {
            assert(count_controls(s, slots, n, c) == 0);
        }
        lemma_silent_controls(s, slots, m);
        match x {
            ControlView::Table(t) => {
                assert forall|c: Change| #[trigger] count_table(t, c) == 0 by {
                    assert(count_control(x, slot, c) == 0);
                }
                lemma_silent_table(t);
            },
            ControlView::Shape(d) => {
                assert forall|c: Change| #[trigger] count_shape(d, c) == 0 by {
                    assert(count_control(x, slot, c) == 0);
                }
                lemma_silent_shape(d);
            },
            ControlView::Picture(pic) => {
                assert(count_control(x, slot, Change::PictureHref) == 0);
            },
            ControlView::Equation(e) => {
                assert(count_control(x, slot, Change::EquationCtrlHeader) == 0);
            },
            _ => {},
        }
        assert(normal_control(x) == slotted_control(x));
        assert(normal_slot(x, slot) == slot);
    }
}

proof fn lemma_silent_table(t: TableView)
    requires
        forall|c: Change| #[trigger] count_table(t, c) == 0,
    ensures
        normal_table(t) == slotted_table(t),
    decreases t, 0nat,
{
    let fine = is_fine_grid(t);
    assert(count_table(t, Change::TableCtrlData) == 0);
    assert(t.raw_ctrl_data.len() > 0);
    assert forall|c: Change| #[trigger] count_cells(t.cells, fine, t.cells.len(), c) == 0 by {
        assert(count_table(t, c) == 0);
    }
    lemma_silent_cells(t.cells, fine, t.cells.len());
    assert(normal_cells(t.cells, fine) =~= slotted_cells(t.cells));
}

proof fn lemma_silent_cells(s: Seq<CellView>, fine: bool, n: nat)
    requires
        n <= s.len(),
        forall|c: Change| #[trigger] count_cells(s, fine, n, c) == 0,
    ensures
        forall|i: int| 0 <= i < n ==> normal_cell(#[trigger] s[i], fine) == slotted_cell(s[i]),
    decreases s, n,
{
    if n > 0 {
        let m = (n - 1) as nat;
        let x = s[n - 1];
        assert forall|c: Change| #[trigger] count_cells(s, fine, m, c) == 0 by {
            assert(count_cells(s, fine, n, c) == 0);
        }
        lemma_silent_cells(s, fine, m);
        assert forall|c: Change| #[trigger] count_cell(x, fine, c) == 0 by {
            assert(count_cells(s, fine, n, c) == 0);
        }
        assert(count_cell(x, fine, Change::CellListAttr) == 0);
        assert(count_cell(x, fine, Change::CellListHeader) == 0);
        assert(normal_cell_header(x, fine) == x);
        assert forall|c: Change| #[trigger]
            count_paragraphs(x.paragraphs, x.paragraphs.len(), c) == 0 by {
            assert(count_cell(x, fine, c) == 0);
        }
        lemma_silent_paragraphs(x.paragraphs, x.paragraphs.len());
        assert(normal_paragraphs(x.paragraphs) =~= slotted_paragraphs(x.paragraphs));
        assert(normal_cell(x, fine) == slotted_cell(x));
    }
}

proof fn lemma_silent_paragraphs(s: Seq<ParagraphView>, n: nat)
    requires
        n <= s.len(),
        forall|c: Change| #[trigger] count_paragraphs(s, n, c) == 0,
    ensures
        forall|i: int| 0 <= i < n ==> normal_paragraph(#[trigger] s[i]) == slotted_paragraph(s[i]),
    decreases s, n,
{
    if n > 0 {
        let m = (n - 1) as nat;
        assert forall|c: Change| #[trigger] count_paragraphs(s, m, c) == 0 by {
            assert(count_paragraphs(s, n, c) == 0);
        }
        assert forall|c: Change| #[trigger] count_paragraph(s[n - 1], c) == 0 by {
            assert(count_paragraphs(s, n, c) == 0);
        }
        lemma_silent_paragraphs(s, m);
        law_silent_paragraph(s[n - 1]);
    }
}

proof fn lemma_silent_tails(s: Seq<ParagraphView>, n: nat)
    requires
        n <= s.len(),
        tails_lacking(s, n) == 0,
    ensures
        forall|i: int| 0 <= i < n ==> !lacks_tail(#[trigger] s[i]),
    decreases n,
{
    if n > 0 {
        lemma_silent_tails(s, (n - 1) as nat);
    }
}

proof fn lemma_silent_text_box(b: TextBoxView)
    requires
        forall|c: Change| #[trigger] count_text_box(b, c) == 0,
    ensures
        normal_text_box(b) == slotted_text_box(b),
    decreases b, 0nat,
{
    let t = normal_paragraphs(b.paragraphs);
    assert forall|c: Change| #[trigger]
        count_paragraphs(b.paragraphs, b.paragraphs.len(), c) == 0 by {
        assert(count_text_box(b, c) == 0);
    }
    lemma_silent_paragraphs(b.paragraphs, b.paragraphs.len());
    assert(t =~= slotted_paragraphs(b.paragraphs));
    if needs_tails(b) {
        assert(count_text_box(b, Change::TextBoxListHeader) == 0);
        assert(count_text_box(b, Change::TextBoxParaHeader) == 0);
        lemma_silent_tails(b.paragraphs, b.paragraphs.len());
        assert forall|i: int| 0 <= i < t.len() implies with_tail(#[trigger] t[i]) == t[i] by {
            law_paragraph_layout_kept(b.paragraphs[i]);
            assert(t[i] == normal_paragraph(b.paragraphs[i]));
            assert(!lacks_tail(b.paragraphs[i]));
        }
        assert(t.map_values(|p: ParagraphView| with_tail(p)) =~= t);
    }
    assert(normal_text_box(b) =~= slotted_text_box(b));
}

proof fn lemma_silent_shape(s: ShapeView)
    requires
        forall|c: Change| #[trigger] count_shape(s, c) == 0,
    ensures
        normal_shape(s) == slotted_shape(s),
    decreases s, 0nat,
{
    match s {
        ShapeView::Drawn { kind, common, drawing } => {
            if let Some(b) = drawing.text_box {
                assert forall|c: Change| #[trigger] count_text_box(b, c) == 0 by {
                    assert(count_shape(s, c) == 0);
                    assert(count_shape(s, c) == count_drawing(drawing, c));
                    assert(count_drawing(drawing, c) == count_text_box(b, c));
                }
                lemma_silent_text_box(b);
            }
            assert(normal_drawing(drawing) == slotted_drawing(drawing));
        },
        ShapeView::Group { common, children } => {
            assert forall|c: Change| #[trigger] count_shapes(children, children.len(), c)
                == 0 by {
                assert(count_shape(s, c) == 0);
            }
            lemma_silent_shapes(children, children.len());
            assert(normal_shapes(children) =~= slotted_shapes(children));
        },
        ShapeView::Picture(p) => {},
    }
}

proof fn lemma_silent_shapes(s: Seq<ShapeView>, n: nat)
    requires
        n <= s.len(),
        forall|c: Change| #[trigger] count_shapes(s, n, c) == 0,
    ensures
        forall|i: int| 0 <= i < n ==> normal_shape(#[trigger] s[i]) == slotted_shape(s[i]),
    decreases s, n,
{
    if n > 0 {
        let m = (n - 1) as nat;
        assert forall|c: Change| #[trigger] count_shapes(s, m, c) == 0 by {
            assert(count_shapes(s, n, c) == 0);
        }
        assert forall|c: Change| #[trigger] count_shape(s[n - 1], c) == 0 by {
            assert(count_shapes(s, n, c) == 0);
        }
        lemma_silent_shapes(s, m);
        lemma_silent_shape(s[n - 1]);
    }
}

proof fn lemma_silent_defs(s: Seq<SectionView>, n: nat)
    requires
        n <= s.len(),
        defs_lacking(s, n) == 0,
    ensures
        forall|i: int| 0 <= i < n ==> !lacks_section_def(#[trigger] s[i]),
    decreases n,
{
    if n > 0 {
        lemma_silent_defs(s, (n - 1) as nat);
    }
}

proof fn lemma_silent_fills(info: DocInfoView, s: Seq<SectionView>, n: nat)
    requires
        n <= info.border_fills.len(),
        fills_lost(info, s, n) == 0,
    ensures
        forall|i: int| 0 <= i < n ==> !#[trigger] loses_fill(info, s, i),
    decreases n,
{
    if n > 0 {
        lemma_silent_fills(info, s, (n - 1) as nat);
    }
}

proof fn lemma_silent_sections(s: Seq<SectionView>, n: nat)
    requires
        n <= s.len(),
        forall|c: Change| #[trigger] count_sections(s, n, c) == 0,
    ensures
        forall|i: int| 0 <= i < n ==> normal_section(#[trigger] s[i]) == slotted_section(s[i]),
    decreases n,
{
    if n > 0 {
        let m = (n - 1) as nat;
        let x = s[n - 1];
        assert forall|c: Change| #[trigger] count_sections(s, m, c) == 0 by {
            assert(count_sections(s, n, c) == 0);
        }
        assert forall|c: Change| #[trigger]
            count_paragraphs(x.paragraphs, x.paragraphs.len(), c) == 0 by {
            assert(count_sections(s, n, c) == 0);
        }
        lemma_silent_sections(s, m);
        lemma_silent_paragraphs(x.paragraphs, x.paragraphs.len());
        assert(normal_paragraphs(x.paragraphs) =~= slotted_paragraphs(x.paragraphs));
    }
}

/// A document that counts no change gets empty records beside the controls that had none, and
/// nothing else: a report that counts nothing tells that nothing else was changed.
pub proof fn law_silent_report_adds_empty_records_only(d: DocumentView)
    requires
        forall|c: Change| #[trigger] count_document(d, c) == 0,
    ensures
        normal_document(d) == slotted_document(d),
{
    assert(count_document(d, Change::FileHeader) == 0);
    assert(count_document(d, Change::SectionCount) == 0);
    assert(count_document(d, Change::BinData) == 0);
    assert(count_document(d, Change::SectionDef) == 0);
    assert(count_document(d, Change::BorderFill) == 0);
    lemma_silent_defs(d.sections, d.sections.len());
    assert(with_section_defs(d.sections) =~= d.sections);
    lemma_silent_fills(d.doc_info, d.sections, d.doc_info.border_fills.len());
    assert(normal_border_fills(d.doc_info, d.sections) =~= d.doc_info.border_fills);
    assert forall|c: Change| #[trigger] count_sections(d.sections, d.sections.len(), c) == 0 by {
        assert(count_document(d, c) == 0);
    }
    lemma_silent_sections(d.sections, d.sections.len());
    assert(normal_sections(d.sections) =~= slotted_document(d).sections);
}

/// Whether every control in a paragraph, and in all that it holds, has a record beside it.
pub open spec fn paragraph_complete(p: ParagraphView) -> bool
    decreases p, 0nat,
{
    p.ctrl_data_records.len() >= p.controls.len() && controls_complete(
        p.controls,
        p.controls.len(),
    )
}

/// Whether that holds of the first `n` controls.
pub open spec fn controls_complete(s: Seq<ControlView>, n: nat) -> bool
    decreases s, n,
{
    n == 0 || (n <= s.len() && control_complete(s[n - 1]) && controls_complete(
        s,
        (n - 1) as nat,
    ))
}

/// Whether that holds of all that a control holds.
pub open spec fn control_complete(x: ControlView) -> bool
    decreases x, 0nat,
{
    match x {
        ControlView::Table(t) => cells_complete(t.cells, t.cells.len()),
        ControlView::Shape(s) => shape_complete(s),
        _ => true,
    }
}

/// Whether that holds of the first `n` cells.
pub open spec fn cells_complete(s: Seq<CellView>, n: nat) -> bool
    decreases s, n,
{
    n == 0 || (n <= s.len() && paragraphs_complete(
        s[n - 1].paragraphs,
        s[n - 1].paragraphs.len(),
    ) && cells_complete(s, (n - 1) as nat))
}

/// Whether that holds of the first `n` paragraphs.
pub open spec fn paragraphs_complete(s: Seq<ParagraphView>, n: nat) -> bool
    decreases s, n,
{
    n == 0 || (n <= s.len() && paragraph_complete(s[n - 1]) && paragraphs_complete(
        s,
        (n - 1) as nat,
    ))
}

/// Whether that holds of all that a drawn object holds.
pub open spec fn shape_complete(s: ShapeView) -> bool
    decreases s, 0nat,
{
    match s {
        ShapeView::Drawn { kind, common, drawing } => match drawing.text_box {
            Some(b) => paragraphs_complete(b.paragraphs, b.paragraphs.len()),
            None => true,
        },
        ShapeView::Group { common, children } => shapes_complete(children, children.len()),
        ShapeView::Picture(p) => true,
    }
}

/// Whether that holds of the first `n` drawn objects.
pub open spec fn shapes_complete(s: Seq<ShapeView>, n: nat) -> bool
    decreases s, n,
{
    n == 0 || (n <= s.len() && shape_complete(s[n - 1]) && shapes_complete(s, (n - 1) as nat))
}

proof fn lemma_complete_paragraph(p: ParagraphView)
    requires
        paragraph_complete(p),
    ensures
        slotted_paragraph(p) == p,
    decreases p, 0nat,
{
    assert(padded(p.ctrl_data_records, p.controls.len()) =~= p.ctrl_data_records);
    lemma_complete_controls(p.controls, p.controls.len());
    assert(slotted_controls(p.controls) =~= p.controls);
}

proof fn lemma_complete_controls(s: Seq<ControlView>, n: nat)
    requires
        n <= s.len(),
        controls_complete(s, n),
    ensures
        forall|i: int| 0 <= i < n ==> slotted_control(#[trigger] s[i]) == s[i],
    decreases s, n,
{
    if n > 0 {
        let x = s[n - 1];
        lemma_complete_controls(s, (n - 1) as nat);
        assert(control_complete(x));
        match x {
            ControlView::Table(t) => {
                lemma_complete_cells(t.cells, t.cells.len());
                assert(slotted_cells(t.cells) =~= t.cells);
                assert(slotted_table(t) == t);
            },
            ControlView::Shape(d) => {
                lemma_complete_shape(d);
            },
            _ => {},
        }
        assert(slotted_control(x) == x);
    }
}

proof fn lemma_complete_cells(s: Seq<CellView>, n: nat)
    requires
        n <= s.len(),
        cells_complete(s, n),
    ensures
        forall|i: int| 0 <= i < n ==> slotted_cell(#[trigger] s[i]) == s[i],
    decreases s, n,
{
    if n > 0 {
        let x = s[n - 1];
        lemma_complete_cells(s, (n - 1) as nat);
        lemma_complete_paragraphs(x.paragraphs, x.paragraphs.len());
        assert(slotted_paragraphs(x.paragraphs) =~= x.paragraphs);
        assert(slotted_cell(x) == x);
    }
}

proof fn lemma_complete_paragraphs(s: Seq<ParagraphView>, n: nat)
    requires
        n <= s.len(),
        paragraphs_complete(s, n),
    ensures
        forall|i: int| 0 <= i < n ==> slotted_paragraph(#[trigger] s[i]) == s[i],
    decreases s, n,
{
    if n > 0 {
        lemma_complete_paragraphs(s, (n - 1) as nat);
        lemma_complete_paragraph(s[n - 1]);
    }
}

proof fn lemma_complete_shape(s: ShapeView)
    requires
        shape_complete(s),
    ensures
        slotted_shape(s) == s,
    decreases s, 0nat,
{
    match s {
        ShapeView::Drawn { kind, common, drawing } => {
            if let Some(b) = drawing.text_box {
                lemma_complete_paragraphs(b.paragraphs, b.paragraphs.len());
                assert(slotted_paragraphs(b.paragraphs) =~= b.paragraphs);
                assert(slotted_text_box(b) == b);
            }
            assert(slotted_drawing(drawing) == drawing);
        },
        ShapeView::Group { common, children } => {
            lemma_complete_shapes(children, children.len());
            assert(slotted_shapes(children) =~= children);
        },
        ShapeView::Picture(p) => {},
    }
}

proof fn lemma_complete_shapes(s: Seq<ShapeView>, n: nat)
    requires
        n <= s.len(),
        shapes_complete(s, n),
    ensures
        forall|i: int| 0 <= i < n ==> slotted_shape(#[trigger] s[i]) == s[i],
    decreases s, n,
{
    if n > 0 {
        lemma_complete_shapes(s, (n - 1) as nat);
        lemma_complete_shape(s[n - 1]);
    }
}

/// A document that counts no change is in its normal form, where every control has a record
/// beside it: a report that counts nothing tells that nothing was changed.
pub proof fn law_silent_report_means_unchanged(d: DocumentView)
    requires
        forall|i: int|
            0 <= i < d.sections.len() ==> paragraphs_complete(
                (#[trigger] d.sections[i]).paragraphs,
                d.sections[i].paragraphs.len(),
            ),
        forall|c: Change| #[trigger] count_document(d, c) == 0,
    ensures
        normal_document(d) == d,
{
    law_silent_report_adds_empty_records_only(d);
    assert forall|i: int| 0 <= i < d.sections.len() implies slotted_section(
        #[trigger] d.sections[i],
    ) == d.sections[i] by {
        let s = d.sections[i];
        lemma_complete_paragraphs(s.paragraphs, s.paragraphs.len());
        assert(slotted_paragraphs(s.paragraphs) =~= s.paragraphs);
    }
    assert(slotted_document(d).sections =~= d.sections);
}

} // verus!
