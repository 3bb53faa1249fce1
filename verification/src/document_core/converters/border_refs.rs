//! Which borders and fills the parts of a document use.

use super::normal_form::{
    cell_uses, cells_use, control_uses, controls_use, drawing_uses, objects_use, paragraph_uses,
    paragraphs_use, section_uses, shape_uses, shapes_use, table_uses, text_uses, zones_use,
};
use crate::model::control::{control_view, Control};
use crate::model::document::{Document, Section};
use crate::model::paragraph::{paragraph_view, paragraph_views, Paragraph};
use crate::model::shape::{shape_view, shape_views, text_box_view, DrawingObjAttr, ShapeObject};
use crate::model::table::{cell_view, Table};
use std::collections::HashSet;
use vstd::prelude::*;

verus! {

broadcast use vstd::std_specs::hash::group_hash_axioms;

/// The numbers of the borders and fills that the shapes of paragraphs and characters use.
pub fn collect_paragraph_char_border_fill_refs(doc: &Document) -> (r: HashSet<u16>)
    ensures
        forall|id: u16| id > 0 ==> (r@.contains(id) <==> #[trigger] text_uses(doc@.doc_info, id)),
        !r@.contains(0),
{
    let mut refs: HashSet<u16> = HashSet::new();
    let ghost info = doc@.doc_info;
    for i in 0..doc.doc_info.para_shapes.len()
        invariant
            info == doc@.doc_info,
            !refs@.contains(0),
            forall|id: u16|
                id > 0 ==> (#[trigger] refs@.contains(id) <==> exists|j: int|
                    0 <= j < i && #[trigger] info.para_shapes[j].border_fill_id == id),
    {
        let id: u16 = doc.doc_info.para_shapes[i].border_fill_id;
        assert(info.para_shapes[i as int].border_fill_id == id);
        if id > 0 {
            refs.insert(id);
        }
    }
    for i in 0..doc.doc_info.char_shapes.len()
        invariant
            info == doc@.doc_info,
            !refs@.contains(0),
            forall|id: u16|
                id > 0 ==> (#[trigger] refs@.contains(id) <==> (exists|j: int|
                    0 <= j < info.para_shapes.len() && #[trigger] info.para_shapes[j].border_fill_id
                        == id) || (exists|j: int|
                    0 <= j < i && #[trigger] info.char_shapes[j].border_fill_id == id)),
    {
        let id: u16 = doc.doc_info.char_shapes[i].border_fill_id;
        assert(info.char_shapes[i as int].border_fill_id == id);
        if id > 0 {
            refs.insert(id);
        }
    }
    refs
}

/// The numbers of the borders and fills that pages and objects use.
pub fn collect_object_border_fill_refs(doc: &Document) -> (r: HashSet<u16>)
    ensures
        forall|id: u16|
            id > 0 ==> (r@.contains(id) <==> #[trigger] objects_use(doc@.sections, id)),
{
    let mut refs: HashSet<u16> = HashSet::new();
    let ghost shown = doc@.sections;
    for i in 0..doc.sections.len()
        invariant
            shown == doc@.sections,
            forall|id: u16|
                id > 0 ==> (#[trigger] refs@.contains(id) <==> exists|j: int|
                    0 <= j < i && #[trigger] section_uses(shown[j], id)),
    {
        assert(shown[i as int] == doc.sections@[i as int]@);
        let ghost before = refs@;
        collect_section_border_fill_refs(&doc.sections[i], &mut refs);
        assert forall|id: u16| id > 0 implies (#[trigger] refs@.contains(id) <==> exists|j: int|
            0 <= j < i + 1 && #[trigger] section_uses(shown[j], id)) by {
            assert(before.contains(id) <==> exists|j: int|
                0 <= j < i && #[trigger] section_uses(shown[j], id));
        }
    }
    assert forall|id: u16| id > 0 implies (refs@.contains(id) <==> #[trigger] objects_use(
        shown,
        id,
    )) by {
        assert(refs@.contains(id) <==> exists|j: int|
            0 <= j < shown.len() && #[trigger] section_uses(shown[j], id));
    }
    refs
}

/// Adds the numbers that a section uses.
fn collect_section_border_fill_refs(section: &Section, refs: &mut HashSet<u16>)
    ensures
        forall|id: u16|
            id > 0 ==> (#[trigger] final(refs)@.contains(id) <==> old(refs)@.contains(id)
                || section_uses(section@, id)),
{
    let ghost def = section@.section_def;
    let id: u16 = section.section_def.page_border_fill.border_fill_id;
    if id > 0 {
        refs.insert(id);
    }
    let ghost first = refs@;
    for i in 0..section.section_def.extra_page_border_fills.len()
        invariant
            def == section@.section_def,
            forall|id: u16|
                id > 0 ==> (#[trigger] refs@.contains(id) <==> first.contains(id) || exists|j: int|
                    0 <= j < i && #[trigger] def.extra_page_border_fills[j].border_fill_id == id),
    {
        let id: u16 = section.section_def.extra_page_border_fills[i].border_fill_id;
        assert(def.extra_page_border_fills[i as int].border_fill_id == id);
        if id > 0 {
            refs.insert(id);
        }
    }
    let ghost second = refs@;
    collect_paragraphs_border_fill_refs(&section.paragraphs, refs);
    assert forall|id: u16| id > 0 implies (#[trigger] refs@.contains(id) <==> old(refs)@.contains(
        id,
    ) || section_uses(section@, id)) by {
        assert(second.contains(id) <==> first.contains(id) || exists|j: int|
            0 <= j < def.extra_page_border_fills.len()
                && #[trigger] def.extra_page_border_fills[j].border_fill_id == id);
    }
}

/// Adds the numbers that a list of paragraphs uses.
fn collect_paragraphs_border_fill_refs(paras: &Vec<Paragraph>, refs: &mut HashSet<u16>)
    ensures
        forall|id: u16|
            id > 0 ==> (#[trigger] final(refs)@.contains(id) <==> old(refs)@.contains(id)
                || paragraphs_use(paragraph_views(paras@), paras@.len(), id)),
    decreases paras,
{
    let ghost shown = paragraph_views(paras@);
    for i in 0..paras.len()
        invariant
            shown == paragraph_views(paras@),
            forall|id: u16|
                id > 0 ==> (#[trigger] refs@.contains(id) <==> old(refs)@.contains(id)
                    || paragraphs_use(shown, i as nat, id)),
    {
        assert(shown[i as int] == paragraph_view(paras@[i as int]));
        let ghost before = refs@;
        collect_object_border_fill_refs_from_paragraph(&paras[i], refs);
        assert forall|id: u16| id > 0 implies (#[trigger] refs@.contains(id) <==> old(
            refs,
        )@.contains(id) || paragraphs_use(shown, (i + 1) as nat, id)) by {
            assert(before.contains(id) <==> old(refs)@.contains(id) || paragraphs_use(
                shown,
                i as nat,
                id,
            ));
        }
    }
}

/// Adds the numbers that a paragraph uses.
pub fn collect_object_border_fill_refs_from_paragraph(para: &Paragraph, refs: &mut HashSet<u16>)
    ensures
        forall|id: u16|
            id > 0 ==> (#[trigger] final(refs)@.contains(id) <==> old(refs)@.contains(id)
                || paragraph_uses(para@, id)),
    decreases para,
{
    let ghost shown = para@.controls;
    for i in 0..para.controls.len()
        invariant
            shown == para@.controls,
            forall|id: u16|
                id > 0 ==> (#[trigger] refs@.contains(id) <==> old(refs)@.contains(id)
                    || controls_use(shown, i as nat, id)),
    {
        assert(shown[i as int] == control_view(para.controls@[i as int]));
        let ghost before = refs@;
        match &para.controls[i] {
            Control::Table(table) => {
                collect_table_border_fill_refs(table, refs);
            },
            Control::Shape(shape) => {
                collect_object_border_fill_refs_from_shape(shape, refs);
            },
            _ => {},
        }
        assert forall|id: u16| id > 0 implies (#[trigger] refs@.contains(id) <==> old(
            refs,
        )@.contains(id) || controls_use(shown, (i + 1) as nat, id)) by {
            assert(before.contains(id) <==> old(refs)@.contains(id) || controls_use(
                shown,
                i as nat,
                id,
            ));
            assert(refs@.contains(id) <==> before.contains(id) || control_uses(
                shown[i as int],
                id,
            ));
        }
    }
}

/// Adds the numbers that a drawn object uses.
pub fn collect_object_border_fill_refs_from_shape(shape: &ShapeObject, refs: &mut HashSet<u16>)
    ensures
        forall|id: u16|
            id > 0 ==> (#[trigger] final(refs)@.contains(id) <==> old(refs)@.contains(id)
                || shape_uses(shape@, id)),
    decreases shape,
{
    match shape {
        ShapeObject::Line(s) => {
            collect_drawing_border_fill_refs(&s.drawing, refs);
        },
        ShapeObject::Rectangle(s) => {
            collect_drawing_border_fill_refs(&s.drawing, refs);
        },
        ShapeObject::Ellipse(s) => {
            collect_drawing_border_fill_refs(&s.drawing, refs);
        },
        ShapeObject::Arc(s) => {
            collect_drawing_border_fill_refs(&s.drawing, refs);
        },
        ShapeObject::Polygon(s) => {
            collect_drawing_border_fill_refs(&s.drawing, refs);
        },
        ShapeObject::Curve(s) => {
            collect_drawing_border_fill_refs(&s.drawing, refs);
        },
        ShapeObject::Group(g) => {
            collect_shapes_border_fill_refs(&g.children, refs);
        },
        ShapeObject::Picture(_) => {},
    }
}

/// Adds the numbers that a list of drawn objects uses.
fn collect_shapes_border_fill_refs(shapes: &Vec<ShapeObject>, refs: &mut HashSet<u16>)
    ensures
        forall|id: u16|
            id > 0 ==> (#[trigger] final(refs)@.contains(id) <==> old(refs)@.contains(id)
                || shapes_use(shape_views(shapes@), shapes@.len(), id)),
    decreases shapes,
{
    let ghost shown = shape_views(shapes@);
    for i in 0..shapes.len()
        invariant
            shown == shape_views(shapes@),
            forall|id: u16|
                id > 0 ==> (#[trigger] refs@.contains(id) <==> old(refs)@.contains(id)
                    || shapes_use(shown, i as nat, id)),
    {
        assert(shown[i as int] == shape_view(shapes@[i as int]));
        let ghost before = refs@;
        collect_object_border_fill_refs_from_shape(&shapes[i], refs);
        assert forall|id: u16| id > 0 implies (#[trigger] refs@.contains(id) <==> old(
            refs,
        )@.contains(id) || shapes_use(shown, (i + 1) as nat, id)) by {
            assert(before.contains(id) <==> old(refs)@.contains(id) || shapes_use(
                shown,
                i as nat,
                id,
            ));
        }
    }
}

/// Adds the numbers that the text inside a drawn object uses.
fn collect_drawing_border_fill_refs(drawing: &DrawingObjAttr, refs: &mut HashSet<u16>)
    ensures
        forall|id: u16|
            id > 0 ==> (#[trigger] final(refs)@.contains(id) <==> old(refs)@.contains(id)
                || drawing_uses(drawing@, id)),
    decreases drawing,
{
    if let Some(text_box) = &drawing.text_box {
        collect_paragraphs_border_fill_refs(&text_box.paragraphs, refs);
        assert(drawing@.text_box == Some(text_box_view(*text_box)));
        assert(text_box_view(*text_box).paragraphs == paragraph_views(text_box.paragraphs@));
    }
}

/// Adds the numbers that a table uses, for itself, its zones and its cells.
pub fn collect_table_border_fill_refs(table: &Table, refs: &mut HashSet<u16>)
    ensures
        forall|id: u16|
            id > 0 ==> (#[trigger] final(refs)@.contains(id) <==> old(refs)@.contains(id)
                || table_uses(table@, id)),
    decreases table,
{
    if table.border_fill_id > 0 {
        refs.insert(table.border_fill_id);
    }
    let ghost first = refs@;
    let ghost zones = table@.zones;
    for i in 0..table.zones.len()
        invariant
            zones == table@.zones,
            forall|id: u16|
                id > 0 ==> (#[trigger] refs@.contains(id) <==> first.contains(id) || exists|j: int|
                    0 <= j < i && #[trigger] zones[j].border_fill_id == id),
    {
        let id: u16 = table.zones[i].border_fill_id;
        assert(zones[i as int].border_fill_id == id);
        if id > 0 {
            refs.insert(id);
        }
    }
    let ghost second = refs@;
    let ghost cells = table@.cells;
    for i in 0..table.cells.len()
        invariant
            cells == table@.cells,
            forall|id: u16|
                id > 0 ==> (#[trigger] refs@.contains(id) <==> second.contains(id) || cells_use(
                    cells,
                    i as nat,
                    id,
                )),
    {
        assert(cells[i as int] == cell_view(table.cells@[i as int]));
        let ghost before = refs@;
        if table.cells[i].border_fill_id > 0 {
            refs.insert(table.cells[i].border_fill_id);
        }
        collect_paragraphs_border_fill_refs(&table.cells[i].paragraphs, refs);
        assert forall|id: u16| id > 0 implies (#[trigger] refs@.contains(id) <==> second.contains(
            id,
        ) || cells_use(cells, (i + 1) as nat, id)) by {
            assert(before.contains(id) <==> second.contains(id) || cells_use(
                cells,
                i as nat,
                id,
            ));
            assert(refs@.contains(id) <==> before.contains(id) || cell_uses(cells[i as int], id));
        }
    }
    assert forall|id: u16| id > 0 implies (#[trigger] refs@.contains(id) <==> old(refs)@.contains(
        id,
    ) || table_uses(table@, id)) by {
        assert(second.contains(id) <==> first.contains(id) || zones_use(zones, id));
    }
}

} // verus!
