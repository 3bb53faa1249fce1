//! Brings a document that was read from HWPX or HWP3 into the form that the binary writer expects.
//!
//! Documents of all other formats are left as they are. Bringing a document into its normal form
//! a second time changes nothing.

use super::border_refs::{collect_object_border_fill_refs, collect_paragraph_char_border_fill_refs};
use super::common_obj_attr_writer::{
    common_record, law_record_starts_with_attr, pack_common_attr_bits, packed_attr,
    serialize_common_obj_attr,
};
use super::normal_form::{
    bin_data_differs, cells_in_row, count16, count_cell, count_cells, count_control, count_controls,
    count_ctrl_data, count_document, count_drawing, count_paragraph, count_paragraphs,
    count_record_attr, count_record_end, count_sections, count_shape, count_shapes, count_table,
    count_tails, counted_rows, defs_lacking, escaped_from, fills_lost, has_picture, header_tail,
    href_record, is_fine_grid, lacks_section_def, lacks_tail, law_pictures_kept,
    list_header_differs, loses_fill, margin_unmarked, needs_tails, normal_bin_data,
    normal_bin_data_list, normal_border_fills, normal_box_extra, normal_cell, normal_cells,
    normal_control, normal_controls, normal_direction, normal_document, normal_drawing,
    normal_equation, normal_header, normal_href, normal_list_extra, normal_page_break,
    normal_paragraph, normal_paragraphs, normal_properties, normal_row_sizes, normal_section,
    normal_sections, normal_shape, normal_shapes, normal_slot, normal_table, normal_text_box,
    normal_width_ref, objects_use, one_if, outer_margin, padded, picture_slot, properties_differ,
    record_attr, record_bits, shows_nothing, table_attr, tails_lacking, text_uses, with_ctrl_data,
    with_section_def, with_section_defs, with_tail, with_tails, Change,
};
use super::report::{capped, one_more};
use crate::bytes::{push_counted_text, push_u16, push_u32, push_zeros, read_u32, same_bytes, zeros};
use crate::model::bytes_opt;
use crate::model::bin_data::{BinDataStatus, BinDataType};
use crate::model::control::{control_view, control_views, Control, Equation};
use crate::model::document::{
    section_views, DocInfoView, Document, DocumentView, Section, SectionView,
};
use crate::model::image::Picture;
use crate::model::paragraph::{paragraph_view, paragraph_views, Paragraph, ParagraphView};
use crate::model::shape::{
    shape_view, shape_views, text_box_view, CommonObjAttrView, DrawingObjAttr, ShapeObject, TextBox,
    TextBoxView,
};
use crate::model::style::{BorderFill, BorderLineType, FillType};
use crate::model::table::{cell_view, cell_views, Cell, CellView, Table, TablePageBreak, TableView};
use crate::parser::FileFormat;
use crate::text::{chars_of, is_at, is_in};
use vstd::prelude::*;

pub use super::report::AdapterReport;

verus! {

/// Marks the data that lies in the document as read with success.
pub fn normalize_bin_data_for_hwp(doc: &mut Document, report: &mut AdapterReport)
    ensures
        final(doc)@ == (DocumentView {
            doc_info: DocInfoView {
                bin_data_list: normal_bin_data_list(old(doc)@.doc_info.bin_data_list),
                raw_stream_dirty: old(doc)@.doc_info.raw_stream_dirty || bin_data_differs(
                    old(doc)@,
                ),
                ..old(doc)@.doc_info
            },
            ..old(doc)@
        }),
        final(doc).sections == old(doc).sections,
        final(report).grown(
            *old(report),
            |c: Change| one_if(c, Change::BinData, bin_data_differs(old(doc)@)),
        ),
{
    let mut changed = false;
    let ghost before = old(doc)@.doc_info.bin_data_list;
    let mut i: usize = 0;
    while i < doc.doc_info.bin_data_list.len()
        invariant
            before == old(doc)@.doc_info.bin_data_list,
            i <= doc.doc_info.bin_data_list.len(),
            doc.doc_info.bin_data_list.len() == before.len(),
            doc.header == old(doc).header,
            doc.doc_properties == old(doc).doc_properties,
            doc.sections == old(doc).sections,
            doc.doc_info.border_fills == old(doc).doc_info.border_fills,
            doc.doc_info.para_shapes == old(doc).doc_info.para_shapes,
            doc.doc_info.char_shapes == old(doc).doc_info.char_shapes,
            doc.doc_info.raw_stream_dirty == old(doc).doc_info.raw_stream_dirty,
            forall|j: int|
                0 <= j < i ==> (#[trigger] doc.doc_info.bin_data_list@[j])@ == normal_bin_data(
                    before[j],
                ),
            forall|j: int|
                i <= j < before.len() ==> (#[trigger] doc.doc_info.bin_data_list@[j])@ == before[j],
            changed == exists|j: int|
                0 <= j < i && #[trigger] before[j] != normal_bin_data(before[j]),
        decreases doc.doc_info.bin_data_list.len() - i,
    {
        let entry = &mut doc.doc_info.bin_data_list[i];
        let ghost this = before[i as int];
        assert(this == entry@);
        if entry.data_type == BinDataType::Embedding || entry.data_type == BinDataType::Storage {
            if entry.attr != 0x0101 {
                entry.attr = 0x0101;
                changed = true;
            }
            if entry.status != BinDataStatus::Success {
                entry.status = BinDataStatus::Success;
                changed = true;
            }
            if entry.raw_data.is_some() {
                entry.raw_data = None;
                changed = true;
            }
        }
        i = i + 1;
    }
    proof {
        let after = normal_bin_data_list(before);
        assert(doc@.doc_info.bin_data_list =~= after);
        if before == after {
            assert forall|j: int| 0 <= j < before.len() implies #[trigger] before[j]
                == normal_bin_data(before[j]) by {
                assert(after[j] == normal_bin_data(before[j]));
            }
        } else if !changed {
            assert(before =~= after);
        }
    }
    if changed {
        report.bin_data_metadata_normalized = one_more(report.bin_data_metadata_normalized);
        doc.doc_info.raw_stream_dirty = true;
    }
}

/// Marks the file as compressed.
pub fn normalize_file_header_for_hwp(doc: &mut Document, report: &mut AdapterReport)
    ensures
        final(doc)@ == (DocumentView { header: normal_header(old(doc)@.header), ..old(doc)@ }),
        final(doc).sections == old(doc).sections,
        final(report).grown(
            *old(report),
            |c: Change|
                one_if(c, Change::FileHeader, old(doc)@.header != normal_header(old(doc)@.header)),
        ),
{
    let mut changed = false;
    if !doc.header.compressed {
        doc.header.compressed = true;
        changed = true;
    }
    let flags: u32 = doc.header.flags;
    assert((flags & 1 == 0) == (flags | 1 != flags)) by (bit_vector);
    if flags & 1 == 0 {
        doc.header.flags = flags | 1;
        changed = true;
    }
    if doc.header.raw_data.is_some() {
        doc.header.raw_data = None;
        changed = true;
    }
    if changed {
        report.file_header_compression_normalized = one_more(
            report.file_header_compression_normalized,
        );
    }
}

/// A count in 16 bits.
fn to_count16(n: usize) -> (r: u16)
    ensures
        r == count16(n as nat),
{
    if n <= 0xffff {
        n as u16
    } else {
        0xffff
    }
}

/// Sets the number of sections to the one that there are.
pub fn normalize_doc_properties_for_hwp(doc: &mut Document, report: &mut AdapterReport)
    ensures
        final(doc)@ == (DocumentView {
            doc_properties: normal_properties(old(doc)@.sections.len()),
            doc_info: DocInfoView {
                raw_stream_dirty: old(doc)@.doc_info.raw_stream_dirty || properties_differ(
                    old(doc)@,
                ),
                ..old(doc)@.doc_info
            },
            ..old(doc)@
        }),
        final(doc).sections == old(doc).sections,
        final(report).grown(
            *old(report),
            |c: Change| one_if(c, Change::SectionCount, properties_differ(old(doc)@)),
        ),
{
    let section_count: u16 = to_count16(doc.sections.len());
    let changed = doc.doc_properties.section_count != section_count
        || doc.doc_properties.raw_data.is_some();
    doc.doc_properties.section_count = section_count;
    doc.doc_properties.raw_data = None;
    if changed {
        report.doc_properties_section_count_normalized = one_more(
            report.doc_properties_section_count_normalized,
        );
        doc.doc_info.raw_stream_dirty = true;
    }
}

/// Puts the definition of a section in front of the controls of its first paragraph, unless
/// that paragraph holds one.
pub fn insert_section_def_control(section: &mut Section, report: &mut AdapterReport)
    ensures
        final(section)@ == with_section_def(old(section)@),
        final(report).grown(
            *old(report),
            |c: Change| one_if(c, Change::SectionDef, lacks_section_def(old(section)@)),
        ),
{
    if section.paragraphs.len() == 0 {
        return;
    }
    let ghost first = paragraph_view(section.paragraphs@[0]);
    let mut i: usize = 0;
    while i < section.paragraphs[0].controls.len()
        invariant
            *section == *old(section),
            section.paragraphs.len() > 0,
            first == paragraph_view(section.paragraphs@[0]),
            i <= section.paragraphs@[0].controls.len(),
            forall|j: int| 0 <= j < i ==> !(#[trigger] first.controls[j] is SectionDef),
        decreases section.paragraphs@[0].controls.len() - i,
    {
        assert(first.controls[i as int] == control_view(
            section.paragraphs@[0].controls@[i as int],
        ));
        if let Control::SectionDef(_) = &section.paragraphs[0].controls[i] {
            return;
        }
        i = i + 1;
    }
    let def = section.section_def.clone();
    let control = Control::SectionDef(Box::new(def));
    let ghost shown = control_view(control);
    section.paragraphs[0].controls.insert(0, control);
    proof {
        let p = section.paragraphs@[0];
        assert(control_views(p.controls@) =~= first.controls.insert(0, shown));
        assert(section@.paragraphs =~= with_section_def(old(section)@).paragraphs);
    }
    report.section_def_controls_inserted = one_more(report.section_def_controls_inserted);
}

/// The data record of a link.
pub fn build_picture_href_ctrl_data(href: &str) -> (r: Vec<u8>)
    ensures
        r@ == href_record(href@),
{
    let hwp_href = normalize_picture_href_for_hwp_ctrl_data(href);
    let mut data: Vec<u8> = Vec::new();
    push_u16(&mut data, 0x021b);
    push_u16(&mut data, 1);
    push_u16(&mut data, 0);
    push_u16(&mut data, 0x026f);
    push_u16(&mut data, 0x8000);
    push_u16(&mut data, 0x026f);
    push_u16(&mut data, 1);
    push_u16(&mut data, 0);
    push_u16(&mut data, 0x0265);
    push_u16(&mut data, 0x0001);
    push_counted_text(&mut data, hwp_href.as_str());
    assert(data@ =~= href_record(href@));
    data
}

/// Puts a backslash before each `://` of a link, unless it already has such a backslash.
pub fn normalize_picture_href_for_hwp_ctrl_data(href: &str) -> (r: String)
    ensures
        r@ == normal_href(href@),
{
    let chars = chars_of(href);
    let escaped = chars_of("\\://");
    if is_in(&chars, &escaped) {
        return href.to_owned();
    }
    let plain = chars_of("://");
    let mut out = String::new();
    let mut i: usize = 0;
    while i < chars.len()
        invariant
            chars@ == href@,
            plain@ == "://"@,
            i <= chars.len(),
            escaped_from(href@, 0) == out@ + escaped_from(href@, i as nat),
        decreases chars.len() - i,
    {
        if plain.len() > 0 && is_at(&chars, i, &plain) {
            out.append("\\://");
            i = i + plain.len();
        } else {
            out.push(chars[i]);
            i = i + 1;
        }
        assert(escaped_from(href@, 0) =~= out@ + escaped_from(href@, i as nat));
    }
    assert(out@ + escaped_from(href@, i as nat) =~= out@);
    out
}

/// Writes the link of a picture to the data record beside it.
pub fn adapt_picture_href_ctrl_data(
    pic: &Picture,
    ctrl_data_slot: &mut Option<Vec<u8>>,
    report: &mut AdapterReport,
)
    ensures
        bytes_opt(*final(ctrl_data_slot)) == picture_slot(pic@, bytes_opt(*old(ctrl_data_slot))),
        final(report).grown(
            *old(report),
            |c: Change|
                one_if(
                    c,
                    Change::PictureHref,
                    picture_slot(pic@, bytes_opt(*old(ctrl_data_slot))) != bytes_opt(
                        *old(ctrl_data_slot),
                    ),
                ),
        ),
{
    let href = match &pic.href {
        Some(s) => s.as_str(),
        None => {
            return;
        },
    };
    if chars_of(href).len() == 0 {
        return;
    }
    let ctrl_data = build_picture_href_ctrl_data(href);
    if let Some(kept) = ctrl_data_slot {
        if same_bytes(kept, &ctrl_data) {
            return;
        }
    }
    *ctrl_data_slot = Some(ctrl_data);
    report.picture_href_ctrl_data_materialized = one_more(
        report.picture_href_ctrl_data_materialized,
    );
}

/// Packs the attribute word of an equation, and drops the control header that was read.
pub fn adapt_equation(eq: &mut Equation, report: &mut AdapterReport)
    ensures
        final(eq)@ == normal_equation(old(eq)@),
        final(report).grown(
            *old(report),
            |c: Change|
                one_if(c, Change::EquationCtrlHeader, normal_equation(old(eq)@) != old(eq)@),
        ),
{
    let before: u32 = eq.common.attr;
    eq.common.attr = pack_common_attr_bits(&eq.common) | 0x0800_0000;
    let raw_was_present = eq.raw_ctrl_data.len() > 0;
    eq.raw_ctrl_data.clear();
    assert(eq@ =~= normal_equation(old(eq)@));
    assert(!raw_was_present ==> eq.raw_ctrl_data@ =~= old(eq).raw_ctrl_data@);
    if eq.common.attr != before || raw_was_present {
        report.equation_ctrl_header_attr_materialized = one_more(
            report.equation_ctrl_header_attr_materialized,
        );
    }
}

/// Whether a text box holds a picture.
pub fn is_draw_text_hwp5_envelope_candidate(text_box: &TextBox) -> (r: bool)
    ensures
        r == needs_tails(text_box@),
{
    let ghost shown = text_box@.paragraphs;
    for i in 0..text_box.paragraphs.len()
        invariant
            shown == text_box@.paragraphs,
            forall|k: int| 0 <= k < i ==> !has_picture(#[trigger] shown[k]),
    {
        let para = &text_box.paragraphs[i];
        let ghost controls = shown[i as int].controls;
        assert(shown[i as int] == paragraph_view(*para));
        for j in 0..para.controls.len()
            invariant
                shown == text_box@.paragraphs,
                i < shown.len(),
                shown[i as int] == paragraph_view(*para),
                controls == shown[i as int].controls,
                forall|k: int| 0 <= k < j ==> !(#[trigger] controls[k] is Picture),
        {
            assert(controls[j as int] == control_view(para.controls@[j as int]));
            if let Control::Picture(_) = &para.controls[j] {
                assert(has_picture(shown[i as int]));
                return true;
            }
        }
    }
    false
}

/// Adds the bytes at the end of the headers of a text box that holds a picture.
pub fn materialize_text_box_hwp5_envelope(text_box: &mut TextBox, report: &mut AdapterReport)
    ensures
        final(text_box)@ == with_tails(old(text_box)@),
        final(report).grown(*old(report), |c: Change| count_tails(old(text_box)@, c)),
{
    if !is_draw_text_hwp5_envelope_candidate(text_box) {
        assert(text_box@ =~= with_tails(old(text_box)@));
        return;
    }
    let ghost before = old(text_box)@;
    let ghost n = before.paragraphs.len();
    if text_box.raw_list_header_extra.len() == 0 {
        push_zeros(&mut text_box.raw_list_header_extra, 13);
        assert(text_box.raw_list_header_extra@ =~= zeros(13));
        report.text_box_list_header_tail_materialized = one_more(
            report.text_box_list_header_tail_materialized,
        );
    }
    let ghost noted = *report;
    let mut i: usize = 0;
    while i < text_box.paragraphs.len()
        invariant
            before == old(text_box)@,
            n == before.paragraphs.len(),
            i <= n,
            text_box.paragraphs.len() == n,
            needs_tails(before),
            noted.grown(
                *old(report),
                |c: Change|
                    one_if(
                        c,
                        Change::TextBoxListHeader,
                        before.raw_list_header_extra.len() == 0,
                    ),
            ),
            text_box.list_attr == old(text_box).list_attr,
            text_box.max_width == old(text_box).max_width,
            text_box.raw_list_header_extra@ == normal_box_extra(before),
            forall|j: int|
                0 <= j < i ==> paragraph_view(#[trigger] text_box.paragraphs@[j]) == with_tail(
                    before.paragraphs[j],
                ),
            forall|j: int|
                i <= j < n ==> paragraph_view(#[trigger] text_box.paragraphs@[j])
                    == before.paragraphs[j],
            report.grown(
                noted,
                |c: Change|
                    if c == Change::TextBoxParaHeader {
                        tails_lacking(before.paragraphs, i as nat)
                    } else {
                        0
                    },
            ),
        decreases n - i,
    {
        let ghost this = before.paragraphs[i as int];
        let ghost so_far = *report;
        assert(this == paragraph_view(text_box.paragraphs@[i as int]));
        let para = &mut text_box.paragraphs[i];
        if para.raw_header_extra.len() < 12 {
            let mut extra: Vec<u8> = Vec::new();
            let shapes: usize = if para.char_shapes.len() == 0 {
                1
            } else {
                para.char_shapes.len()
            };
            push_u16(&mut extra, to_count16(shapes));
            push_u16(&mut extra, to_count16(para.range_tags.len()));
            push_u16(&mut extra, to_count16(para.line_segs.len()));
            push_u32(&mut extra, 0x8000_0000);
            push_zeros(&mut extra, 2);
            assert(extra@ =~= header_tail(this));
            para.raw_header_extra = extra;
            report.text_box_para_header_tail_materialized = one_more(
                report.text_box_para_header_tail_materialized,
            );
        }
        assert(report.grown(
            so_far,
            |c: Change| one_if(c, Change::TextBoxParaHeader, lacks_tail(this)),
        ));
        assert forall|c: Change| #[trigger] report.count(c) == capped(noted.count(c) + if c
            == Change::TextBoxParaHeader {
            tails_lacking(before.paragraphs, (i + 1) as nat)
        } else {
            0
        }) by {
            assert(so_far.count(c) >= 0);
        }
        i = i + 1;
    }
    assert(text_box@.paragraphs =~= with_tails(before).paragraphs);
    assert(text_box@ =~= with_tails(before));
}

/// Whether the cells of a table refer to their width.
pub fn table_requires_cell_width_ref_contract(table: &Table) -> (r: bool)
    ensures
        r == is_fine_grid(table@),
{
    table.col_count >= 30
}

/// Completes the list header of a cell.
pub fn materialize_cell_list_header_contract(
    cell: &mut Cell,
    use_width_ref: bool,
    report: &mut AdapterReport,
)
    ensures
        final(cell)@ == (CellView {
            list_header_width_ref: normal_width_ref(
                old(cell)@.list_header_width_ref,
                use_width_ref,
            ),
            raw_list_extra: normal_list_extra(old(cell)@),
            ..old(cell)@
        }),
        final(cell).paragraphs == old(cell).paragraphs,
        final(report).grown(
            *old(report),
            |c: Change|
                one_if(
                    c,
                    Change::CellListHeader,
                    list_header_differs(old(cell)@, use_width_ref),
                ),
        ),
{
    let before_width_ref: u16 = cell.list_header_width_ref;
    let before_extra_len: usize = cell.raw_list_extra.len();
    if use_width_ref {
        cell.list_header_width_ref = before_width_ref | 1;
    } else {
        cell.list_header_width_ref = before_width_ref & 0xfffe;
    }
    if cell.raw_list_extra.len() == 0 {
        let mut extra: Vec<u8> = Vec::new();
        push_u32(&mut extra, cell.width);
        push_zeros(&mut extra, 9);
        assert(extra@ =~= normal_list_extra(old(cell)@));
        cell.raw_list_extra = extra;
    }
    if cell.list_header_width_ref != before_width_ref || cell.raw_list_extra.len()
        != before_extra_len {
        report.cells_list_header_contract_materialized = one_more(
            report.cells_list_header_contract_materialized,
        );
    }
}

/// Marks the margins that a cell has of its own in its text direction.
pub fn adapt_cell_list_attr(cell: &mut Cell, report: &mut AdapterReport)
    ensures
        final(cell)@ == (CellView {
            text_direction: normal_direction(old(cell)@),
            ..old(cell)@
        }),
        final(cell).paragraphs == old(cell).paragraphs,
        final(report).grown(
            *old(report),
            |c: Change| one_if(c, Change::CellListAttr, margin_unmarked(old(cell)@)),
        ),
{
    if cell.apply_inner_margin && cell.text_direction == 0 {
        cell.text_direction = 1;
        report.cells_list_attr_bit16_set = one_more(report.cells_list_attr_bit16_set);
    }
}

/// Takes the outer margins of a table over into its header.
pub fn materialize_table_outer_margin(table: &mut Table, report: &mut AdapterReport)
    ensures
        final(table)@ == (TableView {
            common: CommonObjAttrView {
                margin: outer_margin(old(table)@),
                ..old(table)@.common
            },
            ..old(table)@
        }),
        final(table).cells == old(table).cells,
        final(report).grown(
            *old(report),
            |c: Change|
                one_if(
                    c,
                    Change::TableOuterMargin,
                    old(table)@.common.margin != outer_margin(old(table)@),
                ),
        ),
{
    let changed = table.common.margin.left != table.outer_margin_left || table.common.margin.right
        != table.outer_margin_right || table.common.margin.top != table.outer_margin_top
        || table.common.margin.bottom != table.outer_margin_bottom;
    if changed {
        table.common.margin.left = table.outer_margin_left;
        table.common.margin.right = table.outer_margin_right;
        table.common.margin.top = table.outer_margin_top;
        table.common.margin.bottom = table.outer_margin_bottom;
        report.tables_outer_margin_materialized = one_more(report.tables_outer_margin_materialized);
    }
}

/// Lets a table that broke inside cells break between rows.
pub fn materialize_table_page_break(table: &mut Table, report: &mut AdapterReport)
    ensures
        final(table)@ == (TableView {
            page_break: normal_page_break(old(table)@.page_break),
            raw_table_record_attr: if old(table)@.page_break == TablePageBreak::CellBreak {
                0
            } else {
                old(table)@.raw_table_record_attr
            },
            ..old(table)@
        }),
        final(table).cells == old(table).cells,
        final(report).grown(
            *old(report),
            |c: Change|
                one_if(
                    c,
                    Change::TablePageBreak,
                    old(table)@.page_break == TablePageBreak::CellBreak,
                ),
        ),
{
    if table.page_break == TablePageBreak::CellBreak {
        table.page_break = TablePageBreak::RowBreak;
        table.raw_table_record_attr = 0;
        report.tables_page_break_materialized = one_more(report.tables_page_break_materialized);
    }
}

/// Sets the attribute word of the table record.
pub fn materialize_table_record_attr(table: &mut Table, report: &mut AdapterReport)
    ensures
        final(table)@ == (TableView {
            raw_table_record_attr: record_bits(
                old(table)@.page_break,
                old(table)@.repeat_header,
                old(table)@.attr,
            ),
            ..old(table)@
        }),
        final(table).cells == old(table).cells,
        final(report).grown(
            *old(report),
            |c: Change|
                one_if(
                    c,
                    Change::TableRecordAttr,
                    old(table)@.raw_table_record_attr != record_bits(
                        old(table)@.page_break,
                        old(table)@.repeat_header,
                        old(table)@.attr,
                    ),
                ),
        ),
{
    let breaks: u32 = match table.page_break {
        TablePageBreak::CellBreak => 0x01,
        TablePageBreak::RowBreak => 0x02,
        TablePageBreak::NoBreak => 0,
    };
    let header: u32 = if table.repeat_header {
        0x04
    } else {
        0
    };
    let attr: u32 = breaks | header | (table.attr & 0x08);
    if table.raw_table_record_attr != attr {
        table.raw_table_record_attr = attr;
        report.table_record_attr_materialized = one_more(report.table_record_attr_materialized);
    }
}

/// Counts the cells of each row of a table.
fn count_rows(table: &Table) -> (r: Vec<i16>)
    ensures
        r@ == counted_rows(table@),
{
    let ghost shown = table@.cells;
    let mut sizes: Vec<i16> = Vec::new();
    for k in 0..table.row_count
        invariant
            sizes.len() == k,
            forall|row: int| 0 <= row < k ==> sizes@[row] == 0,
    {
        sizes.push(0);
    }
    for i in 0..table.cells.len()
        invariant
            shown == table@.cells,
            sizes.len() == table.row_count,
            forall|row: int|
                0 <= row < table.row_count ==> #[trigger] sizes@[row] == if cells_in_row(
                    shown,
                    i as nat,
                    row,
                ) <= 0x7fff {
                    cells_in_row(shown, i as nat, row)
                } else {
                    0x7fff
                },
    {
        let row: usize = table.cells[i].row as usize;
        assert(shown[i as int].row == row);
        if row < sizes.len() {
            let size: i16 = sizes[row];
            if size < 0x7fff {
                sizes.set(row, size + 1);
            }
        }
    }
    assert(sizes@ =~= counted_rows(table@));
    sizes
}

/// Whether two runs of numbers are the same.
fn same_sizes(a: &Vec<i16>, b: &Vec<i16>) -> (r: bool)
    ensures
        r == (a@ == b@),
{
    if a.len() != b.len() {
        return false;
    }
    for i in 0..a.len()
        invariant
            a.len() == b.len(),
            forall|j: int| 0 <= j < i ==> a@[j] == b@[j],
    {
        if a[i] != b[i] {
            return false;
        }
    }
    assert(a@ =~= b@);
    true
}

/// Sets the row sizes of a table that has a cell in some row.
pub fn materialize_table_record_row_sizes(table: &mut Table, report: &mut AdapterReport)
    ensures
        final(table)@ == (TableView { row_sizes: normal_row_sizes(old(table)@), ..old(table)@ }),
        final(table).cells == old(table).cells,
        final(report).grown(
            *old(report),
            |c: Change|
                one_if(
                    c,
                    Change::TableRowSizes,
                    old(table)@.row_sizes != normal_row_sizes(old(table)@),
                ),
        ),
{
    let sizes = count_rows(table);
    let mut any = false;
    for i in 0..sizes.len()
        invariant
            sizes@ == counted_rows(table@),
            any == exists|row: int| 0 <= row < i && #[trigger] counted_rows(table@)[row] != 0,
    {
        assert(counted_rows(table@)[i as int] == sizes@[i as int]);
        if sizes[i] != 0 {
            any = true;
        }
    }
    if !any {
        return;
    }
    assert(normal_row_sizes(table@) == counted_rows(table@)) by {
        let row = choose|row: int|
            0 <= row < sizes@.len() && #[trigger] counted_rows(table@)[row] != 0;
        assert(counted_rows(table@)[row] != 0);
    }
    if !same_sizes(&table.row_sizes, &sizes) {
        table.row_sizes = sizes;
        report.table_record_row_sizes_materialized = one_more(
            report.table_record_row_sizes_materialized,
        );
    }
}

/// Adds the last bytes of the table record.
pub fn materialize_table_record_extra(table: &mut Table, report: &mut AdapterReport)
    ensures
        final(table)@ == (TableView {
            raw_table_record_extra: if old(table)@.raw_table_record_extra.len() == 0 {
                zeros(2)
            } else {
                old(table)@.raw_table_record_extra
            },
            ..old(table)@
        }),
        final(table).cells == old(table).cells,
        final(report).grown(
            *old(report),
            |c: Change|
                one_if(
                    c,
                    Change::TableRecordExtra,
                    old(table)@.raw_table_record_extra.len() == 0,
                ),
        ),
{
    if table.raw_table_record_extra.len() == 0 {
        push_zeros(&mut table.raw_table_record_extra, 2);
        assert(table.raw_table_record_extra@ =~= zeros(2));
        report.table_record_extra_materialized = one_more(report.table_record_extra_materialized);
    }
}

/// Packs the attribute word of the control header of a table.
pub fn materialize_table_ctrl_header_attr(table: &mut Table, report: &mut AdapterReport)
    ensures
        final(table)@ == (TableView {
            common: CommonObjAttrView { attr: table_attr(old(table)@), ..old(table)@.common },
            ..old(table)@
        }),
        final(table).cells == old(table).cells,
        final(report).grown(
            *old(report),
            |c: Change|
                one_if(
                    c,
                    Change::TableCtrlHeaderAttr,
                    old(table)@.common.attr != table_attr(old(table)@),
                ),
        ),
{
    let before: u32 = table.common.attr;
    let caption: u32 = if table.caption.is_some() {
        0x2000_0000
    } else {
        0
    };
    table.common.attr = pack_common_attr_bits(&table.common) | 0x2000 | 0x0800_0000 | caption;
    if table.common.attr != before {
        report.table_ctrl_header_attr_materialized = one_more(
            report.table_ctrl_header_attr_materialized,
        );
    }
}

/// Brings a list of paragraphs into its normal form.
fn adapt_paragraphs(paras: &mut Vec<Paragraph>, report: &mut AdapterReport)
    ensures
        paragraph_views(final(paras)@) == normal_paragraphs(paragraph_views(old(paras)@)),
        final(report).grown(
            *old(report),
            |c: Change|
                count_paragraphs(paragraph_views(old(paras)@), old(paras)@.len(), c),
        ),
    decreases *old(paras),
{
    let ghost before = paragraph_views(old(paras)@);
    let ghost n = before.len();
    let mut i: usize = 0;
    while i < paras.len()
        invariant
            before == paragraph_views(old(paras)@),
            n == before.len(),
            i <= n,
            paras.len() == n,
            report.grown(*old(report), |c: Change| count_paragraphs(before, i as nat, c)),
            forall|j: int|
                0 <= j < i ==> paragraph_view(#[trigger] paras@[j]) == normal_paragraph(before[j]),
            forall|j: int| i <= j < n ==> #[trigger] paras@[j] == old(paras)@[j],
        decreases n - i,
    {
        let ghost so_far = *report;
        assert(before[i as int] == paragraph_view(paras@[i as int]));
        adapt_paragraph(&mut paras[i], report);
        assert forall|c: Change| #[trigger] report.count(c) == capped(old(report).count(c)
            + count_paragraphs(before, (i + 1) as nat, c)) by {
            assert(so_far.count(c) == capped(old(report).count(c) + count_paragraphs(
                before,
                i as nat,
                c,
            )));
        }
        i = i + 1;
    }
    assert(paragraph_views(paras@) =~= normal_paragraphs(before));
}

/// Brings a paragraph into its normal form.
pub fn adapt_paragraph(para: &mut Paragraph, report: &mut AdapterReport)
    ensures
        final(para)@ == normal_paragraph(old(para)@),
        final(report).grown(*old(report), |c: Change| count_paragraph(old(para)@, c)),
    decreases *old(para),
{
    let ghost before = old(para)@;
    let ghost n = before.controls.len();
    let ghost slots = padded(before.ctrl_data_records, n);
    while para.ctrl_data_records.len() < para.controls.len()
        invariant
            before == old(para)@,
            n == before.controls.len(),
            slots == padded(before.ctrl_data_records, n),
            para.controls == old(para).controls,
            para.text == old(para).text,
            para.para_shape_id == old(para).para_shape_id,
            para.char_shapes == old(para).char_shapes,
            para.range_tags == old(para).range_tags,
            para.line_segs == old(para).line_segs,
            para.raw_header_extra == old(para).raw_header_extra,
            before.ctrl_data_records.len() <= para.ctrl_data_records.len() <= slots.len(),
            forall|j: int|
                0 <= j < para.ctrl_data_records.len() ==> bytes_opt(
                    #[trigger] para.ctrl_data_records@[j],
                ) == slots[j],
        decreases para.controls.len() - para.ctrl_data_records.len(),
    {
        para.ctrl_data_records.push(None);
    }
    let mut i: usize = 0;
    while i < para.controls.len()
        invariant
            before == old(para)@,
            n == before.controls.len(),
            slots == padded(before.ctrl_data_records, n),
            i <= n,
            para.controls.len() == n,
            para.ctrl_data_records.len() == slots.len(),
            para.text == old(para).text,
            para.para_shape_id == old(para).para_shape_id,
            para.char_shapes == old(para).char_shapes,
            para.range_tags == old(para).range_tags,
            para.line_segs == old(para).line_segs,
            para.raw_header_extra == old(para).raw_header_extra,
            report.grown(
                *old(report),
                |c: Change| count_controls(before.controls, slots, i as nat, c),
            ),
            forall|j: int|
                0 <= j < i ==> control_view(#[trigger] para.controls@[j]) == normal_control(
                    before.controls[j],
                ),
            forall|j: int| i <= j < n ==> #[trigger] para.controls@[j] == old(para).controls@[j],
            forall|j: int|
                0 <= j < i ==> bytes_opt(#[trigger] para.ctrl_data_records@[j]) == normal_slot(
                    before.controls[j],
                    slots[j],
                ),
            forall|j: int|
                i <= j < slots.len() ==> bytes_opt(#[trigger] para.ctrl_data_records@[j])
                    == slots[j],
        decreases n - i,
    {
        let ghost so_far = *report;
        let ghost this = before.controls[i as int];
        let ghost slot = slots[i as int];
        assert(this == control_view(para.controls@[i as int]));
        assert(slot == bytes_opt(para.ctrl_data_records@[i as int]));
        adapt_control(&mut para.controls[i], &mut para.ctrl_data_records[i], report);
        assert forall|c: Change| #[trigger] report.count(c) == capped(old(report).count(c)
            + count_controls(before.controls, slots, (i + 1) as nat, c)) by {
            assert(so_far.count(c) == capped(old(report).count(c) + count_controls(
                before.controls,
                slots,
                i as nat,
                c,
            )));
        }
        i = i + 1;
    }
    assert(control_views(para.controls@) =~= normal_controls(before.controls));
    assert(para@.ctrl_data_records =~= normal_paragraph(before).ctrl_data_records);
    assert(para@ =~= normal_paragraph(before));
}

/// Brings a control and the data record beside it into their normal form.
fn adapt_control(
    control: &mut Control,
    ctrl_data_slot: &mut Option<Vec<u8>>,
    report: &mut AdapterReport,
)
    ensures
        final(control)@ == normal_control(old(control)@),
        bytes_opt(*final(ctrl_data_slot)) == normal_slot(
            old(control)@,
            bytes_opt(*old(ctrl_data_slot)),
        ),
        final(report).grown(
            *old(report),
            |c: Change| count_control(old(control)@, bytes_opt(*old(ctrl_data_slot)), c),
        ),
    decreases *old(control),
{
    match control {
        Control::Table(table) => {
            adapt_table(table, report);
        },
        Control::Picture(pic) => {
            adapt_picture_href_ctrl_data(pic, ctrl_data_slot, report);
        },
        Control::Shape(shape) => {
            adapt_shape(shape, report);
        },
        Control::Equation(eq) => {
            adapt_equation(eq, report);
        },
        Control::SectionDef(_) => {},
        Control::Unknown(_) => {},
    }
}

/// Brings what drawn objects have in common into its normal form.
fn adapt_drawing(drawing: &mut DrawingObjAttr, report: &mut AdapterReport)
    ensures
        final(drawing)@ == normal_drawing(old(drawing)@),
        final(report).grown(*old(report), |c: Change| count_drawing(old(drawing)@, c)),
    decreases *old(drawing),
{
    if let Some(text_box) = &mut drawing.text_box {
        let ghost before = text_box_view(*text_box);
        proof {
            lemma_tails_of_normal(before);
        }
        adapt_paragraphs(&mut text_box.paragraphs, report);
        materialize_text_box_hwp5_envelope(text_box, report);
    }
}

/// Whether a text box needs the bytes at the end of its headers, and how many, does not
/// depend on whether its paragraphs are in their normal form.
proof fn lemma_tails_of_normal(b: TextBoxView)
    ensures
        ({
            let adapted = TextBoxView { paragraphs: normal_paragraphs(b.paragraphs), ..b };
            &&& with_tails(adapted) == normal_text_box(b)
            &&& forall|c: Change| #[trigger] count_tails(adapted, c) == count_tails(b, c)
        }),
{
    let adapted = TextBoxView { paragraphs: normal_paragraphs(b.paragraphs), ..b };
    assert forall|i: int| 0 <= i < b.paragraphs.len() implies has_picture(
        #[trigger] adapted.paragraphs[i],
    ) == has_picture(b.paragraphs[i]) by {
        law_pictures_kept(b.paragraphs[i]);
    }
    assert(needs_tails(adapted) == needs_tails(b)) by {
        if needs_tails(adapted) {
            let i = choose|i: int|
                0 <= i < adapted.paragraphs.len() && has_picture(#[trigger] adapted.paragraphs[i]);
            assert(has_picture(b.paragraphs[i]));
        }
        if needs_tails(b) {
            let i = choose|i: int|
                0 <= i < b.paragraphs.len() && has_picture(#[trigger] b.paragraphs[i]);
            assert(has_picture(adapted.paragraphs[i]));
        }
    }
    lemma_tails_lacking_of_normal(b.paragraphs, b.paragraphs.len());
    assert(with_tails(adapted) =~= normal_text_box(b));
}

/// As many paragraphs lack the bytes at the end of their headers in their normal form.
proof fn lemma_tails_lacking_of_normal(s: Seq<ParagraphView>, n: nat)
    requires
        n <= s.len(),
    ensures
        tails_lacking(normal_paragraphs(s), n) == tails_lacking(s, n),
    decreases n,
{
    if n > 0 {
        lemma_tails_lacking_of_normal(s, (n - 1) as nat);
        assert(normal_paragraphs(s)[n - 1] == normal_paragraph(s[n - 1]));
        assert(normal_paragraph(s[n - 1]).raw_header_extra == s[n - 1].raw_header_extra);
    }
}

/// Brings a drawn object into its normal form.
pub fn adapt_shape(shape: &mut ShapeObject, report: &mut AdapterReport)
    ensures
        final(shape)@ == normal_shape(old(shape)@),
        final(report).grown(*old(report), |c: Change| count_shape(old(shape)@, c)),
    decreases *old(shape),
{
    match shape {
        ShapeObject::Line(s) => {
            adapt_drawing(&mut s.drawing, report);
        },
        ShapeObject::Rectangle(s) => {
            adapt_drawing(&mut s.drawing, report);
        },
        ShapeObject::Ellipse(s) => {
            adapt_drawing(&mut s.drawing, report);
        },
        ShapeObject::Arc(s) => {
            adapt_drawing(&mut s.drawing, report);
        },
        ShapeObject::Polygon(s) => {
            adapt_drawing(&mut s.drawing, report);
        },
        ShapeObject::Curve(s) => {
            adapt_drawing(&mut s.drawing, report);
        },
        ShapeObject::Group(g) => {
            adapt_shapes(&mut g.children, report);
        },
        ShapeObject::Picture(_) => {},
    }
}

/// Brings a list of drawn objects into its normal form.
fn adapt_shapes(shapes: &mut Vec<ShapeObject>, report: &mut AdapterReport)
    ensures
        shape_views(final(shapes)@) == normal_shapes(shape_views(old(shapes)@)),
        final(report).grown(
            *old(report),
            |c: Change| count_shapes(shape_views(old(shapes)@), old(shapes)@.len(), c),
        ),
    decreases *old(shapes),
{
    let ghost before = shape_views(old(shapes)@);
    let ghost n = before.len();
    let mut i: usize = 0;
    while i < shapes.len()
        invariant
            before == shape_views(old(shapes)@),
            n == before.len(),
            i <= n,
            shapes.len() == n,
            report.grown(*old(report), |c: Change| count_shapes(before, i as nat, c)),
            forall|j: int|
                0 <= j < i ==> shape_view(#[trigger] shapes@[j]) == normal_shape(before[j]),
            forall|j: int| i <= j < n ==> #[trigger] shapes@[j] == old(shapes)@[j],
        decreases n - i,
    {
        let ghost so_far = *report;
        assert(before[i as int] == shape_view(shapes@[i as int]));
        adapt_shape(&mut shapes[i], report);
        assert forall|c: Change| #[trigger] report.count(c) == capped(old(report).count(c)
            + count_shapes(before, (i + 1) as nat, c)) by {
            assert(so_far.count(c) == capped(
                old(report).count(c) + count_shapes(before, i as nat, c),
            ));
        }
        i = i + 1;
    }
    assert(shape_views(shapes@) =~= normal_shapes(before));
}

/// Sets the margins of a table, where it breaks and the attribute word of its record.
fn make_record_attr(table: &mut Table, report: &mut AdapterReport)
    ensures
        final(table)@ == (TableView {
            common: CommonObjAttrView {
                margin: outer_margin(old(table)@),
                ..old(table)@.common
            },
            page_break: normal_page_break(old(table)@.page_break),
            raw_table_record_attr: record_attr(old(table)@),
            ..old(table)@
        }),
        final(table).cells == old(table).cells,
        final(report).grown(*old(report), |c: Change| count_record_attr(old(table)@, c)),
{
    let ghost t = old(table)@;
    materialize_table_outer_margin(table, report);
    let ghost r1 = *report;
    materialize_table_page_break(table, report);
    let ghost r2 = *report;
    materialize_table_record_attr(table, report);
    assert forall|c: Change| #[trigger] report.count(c) == capped(old(report).count(c)
        + count_record_attr(t, c)) by {
        assert(r1.count(c) >= 0 && r2.count(c) >= 0);
    }
}

/// Sets the row sizes of a table, the end of its record and the attribute word of its header.
fn make_record_end(table: &mut Table, report: &mut AdapterReport)
    ensures
        final(table)@ == (TableView {
            row_sizes: normal_row_sizes(old(table)@),
            raw_table_record_extra: if old(table)@.raw_table_record_extra.len() == 0 {
                zeros(2)
            } else {
                old(table)@.raw_table_record_extra
            },
            common: CommonObjAttrView { attr: table_attr(old(table)@), ..old(table)@.common },
            ..old(table)@
        }),
        final(table).cells == old(table).cells,
        final(report).grown(*old(report), |c: Change| count_record_end(old(table)@, c)),
{
    let ghost t = old(table)@;
    materialize_table_record_row_sizes(table, report);
    let ghost r1 = *report;
    materialize_table_record_extra(table, report);
    let ghost r2 = *report;
    materialize_table_ctrl_header_attr(table, report);
    assert forall|c: Change| #[trigger] report.count(c) == capped(old(report).count(c)
        + count_record_end(t, c)) by {
        assert(r1.count(c) >= 0 && r2.count(c) >= 0);
    }
}

/// The attribute word of the header of a table is never zero, and neither it nor the row sizes
/// depend on what is set before them.
proof fn lemma_record_parts(t: TableView, u: TableView)
    requires
        u == (TableView {
            common: CommonObjAttrView { margin: outer_margin(t), ..t.common },
            page_break: normal_page_break(t.page_break),
            raw_table_record_attr: record_attr(t),
            ..t
        }),
    ensures
        normal_row_sizes(u) == normal_row_sizes(t),
        table_attr(u) == table_attr(t),
        table_attr(t) != 0,
        forall|c: Change| #[trigger]
            count_record_end(u, c) == count_record_end(t, c),
{
    assert(counted_rows(u) =~= counted_rows(t));
    let bits = packed_attr(t.common);
    let caption: u32 = if t.caption is Some {
        0x2000_0000
    } else {
        0
    };
    assert(bits | 0x2000 | 0x0800_0000 | caption != 0) by (bit_vector);
}

/// Makes the control header of a table, and sets all that belongs to it.
fn make_ctrl_data(table: &mut Table, report: &mut AdapterReport)
    ensures
        final(table)@ == with_ctrl_data(old(table)@),
        final(table).cells == old(table).cells,
        final(report).grown(*old(report), |c: Change| count_ctrl_data(old(table)@, c)),
{
    let ghost t = old(table)@;
    let ghost u = TableView {
        common: CommonObjAttrView { margin: outer_margin(t), ..t.common },
        page_break: normal_page_break(t.page_break),
        raw_table_record_attr: record_attr(t),
        ..t
    };
    proof {
        lemma_record_parts(t, u);
    }
    make_record_attr(table, report);
    let ghost r1 = *report;
    make_record_end(table, report);
    let ghost r2 = *report;
    write_ctrl_data(table, report);
    assert forall|c: Change| #[trigger] report.count(c) == capped(old(report).count(c)
        + count_ctrl_data(t, c)) by {
        assert(r1.count(c) >= 0 && r2.count(c) >= 0);
    }
}

/// Writes the control header of a table, and takes its attribute word over.
fn write_ctrl_data(table: &mut Table, report: &mut AdapterReport)
    requires
        old(table)@.common.attr != 0,
    ensures
        final(table)@ == (TableView {
            raw_ctrl_data: common_record(old(table)@.common),
            attr: old(table)@.common.attr,
            ..old(table)@
        }),
        final(table).cells == old(table).cells,
        final(report).grown(
            *old(report),
            |c: Change|
                one_if(c, Change::TableCtrlData, true) + one_if(
                    c,
                    Change::TableAttr,
                    old(table)@.attr != old(table)@.common.attr,
                ),
        ),
{
    proof {
        law_record_starts_with_attr(table@.common);
    }
    table.raw_ctrl_data = serialize_common_obj_attr(&table.common);
    report.tables_ctrl_data_synthesized = one_more(report.tables_ctrl_data_synthesized);
    let ghost noted = *report;
    assert(noted.grown(*old(report), |c: Change| one_if(c, Change::TableCtrlData, true)));
    let packed: u32 = read_u32(&table.raw_ctrl_data);
    if table.attr != packed {
        table.attr = packed;
        report.tables_attr_packed = one_more(report.tables_attr_packed);
    }
    assert(report.grown(
        noted,
        |c: Change|
            one_if(c, Change::TableAttr, old(table)@.attr != old(table)@.common.attr),
    ));
    assert forall|c: Change| #[trigger] report.count(c) == capped(old(report).count(c) + one_if(
        c,
        Change::TableCtrlData,
        true,
    ) + one_if(c, Change::TableAttr, old(table)@.attr != old(table)@.common.attr)) by {
        assert(noted.count(c) >= 0);
    }
}

/// Brings a cell into its normal form.
fn adapt_cell(cell: &mut Cell, fine: bool, report: &mut AdapterReport)
    ensures
        final(cell)@ == normal_cell(old(cell)@, fine),
        final(report).grown(*old(report), |c: Change| count_cell(old(cell)@, fine, c)),
    decreases *old(cell),
{
    adapt_cell_list_attr(cell, report);
    materialize_cell_list_header_contract(cell, fine, report);
    adapt_paragraphs(&mut cell.paragraphs, report);
}

/// Brings a list of cells into its normal form.
fn adapt_cells(cells: &mut Vec<Cell>, fine: bool, report: &mut AdapterReport)
    ensures
        cell_views(final(cells)@) == normal_cells(cell_views(old(cells)@), fine),
        final(report).grown(
            *old(report),
            |c: Change| count_cells(cell_views(old(cells)@), fine, old(cells)@.len(), c),
        ),
    decreases *old(cells),
{
    let ghost before = cell_views(old(cells)@);
    let ghost n = before.len();
    let mut i: usize = 0;
    while i < cells.len()
        invariant
            before == cell_views(old(cells)@),
            n == before.len(),
            i <= n,
            cells.len() == n,
            report.grown(*old(report), |c: Change| count_cells(before, fine, i as nat, c)),
            forall|j: int|
                0 <= j < i ==> cell_view(#[trigger] cells@[j]) == normal_cell(before[j], fine),
            forall|j: int| i <= j < n ==> #[trigger] cells@[j] == old(cells)@[j],
        decreases n - i,
    {
        let ghost so_far = *report;
        assert(before[i as int] == cell_view(cells@[i as int]));
        adapt_cell(&mut cells[i], fine, report);
        assert forall|c: Change| #[trigger] report.count(c) == capped(
            old(report).count(c) + count_cells(before, fine, (i + 1) as nat, c),
        ) by {
            assert(so_far.count(c) == capped(
                old(report).count(c) + count_cells(before, fine, i as nat, c),
            ));
        }
        i = i + 1;
    }
    assert(cell_views(cells@) =~= normal_cells(before, fine));
}

/// Brings a table into its normal form.
pub fn adapt_table(table: &mut Table, report: &mut AdapterReport)
    ensures
        final(table)@ == normal_table(old(table)@),
        final(report).grown(*old(report), |c: Change| count_table(old(table)@, c)),
    decreases *old(table),
{
    let ghost before = old(table)@;
    if table.raw_ctrl_data.len() == 0 {
        make_ctrl_data(table, report);
    }
    let ghost noted = *report;
    let fine = table_requires_cell_width_ref_contract(table);
    adapt_cells(&mut table.cells, fine, report);
    assert forall|c: Change| #[trigger] report.count(c) == capped(
        old(report).count(c) + count_table(before, c),
    ) by {
        assert(noted.count(c) >= 0);
    }
}

/// Whether borders and fill show nothing, though the fill is of a colour.
pub fn is_transparent_paragraph_no_fill_candidate(border_fill: &BorderFill) -> (r: bool)
    ensures
        r == shows_nothing(border_fill@),
{
    for i in 0..4usize
        invariant
            forall|j: int|
                0 <= j < i ==> (#[trigger] border_fill.borders@[j]).line_type
                    == BorderLineType::NoLine,
    {
        if border_fill.borders[i].line_type != BorderLineType::NoLine {
            assert(border_fill@.borders@[i as int].line_type != BorderLineType::NoLine);
            return false;
        }
    }
    if border_fill.fill.fill_type != FillType::Solid {
        return false;
    }
    match border_fill.fill.solid {
        Some(solid) => border_fill.fill.alpha == 0 && solid.background_color == 0xffff_ffff,
        None => false,
    }
}

/// Removes the fills that show nothing and that only text uses.
pub fn normalize_paragraph_char_border_fills(doc: &mut Document, report: &mut AdapterReport)
    ensures
        final(doc)@ == (DocumentView {
            doc_info: DocInfoView {
                border_fills: normal_border_fills(old(doc)@.doc_info, old(doc)@.sections),
                ..old(doc)@.doc_info
            },
            ..old(doc)@
        }),
        final(doc).sections == old(doc).sections,
        final(report).grown(
            *old(report),
            |c: Change|
                if c == Change::BorderFill {
                    fills_lost(
                        old(doc)@.doc_info,
                        old(doc)@.sections,
                        old(doc)@.doc_info.border_fills.len(),
                    )
                } else {
                    0
                },
        ),
{
    let text_refs = collect_paragraph_char_border_fill_refs(doc);
    let object_refs = collect_object_border_fill_refs(doc);
    let ghost info = old(doc)@.doc_info;
    let ghost sections = old(doc)@.sections;
    let ghost n = info.border_fills.len();
    let mut i: usize = 0;
    while i < doc.doc_info.border_fills.len()
        invariant
            info == old(doc)@.doc_info,
            sections == old(doc)@.sections,
            n == info.border_fills.len(),
            i <= n,
            doc.doc_info.border_fills.len() == n,
            forall|id: u16|
                id > 0 ==> (text_refs@.contains(id) <==> #[trigger] text_uses(info, id)),
            forall|id: u16|
                id > 0 ==> (object_refs@.contains(id) <==> #[trigger] objects_use(sections, id)),
            doc.header == old(doc).header,
            doc.doc_properties == old(doc).doc_properties,
            doc.sections == old(doc).sections,
            doc.doc_info.bin_data_list == old(doc).doc_info.bin_data_list,
            doc.doc_info.para_shapes == old(doc).doc_info.para_shapes,
            doc.doc_info.char_shapes == old(doc).doc_info.char_shapes,
            doc.doc_info.raw_stream_dirty == old(doc).doc_info.raw_stream_dirty,
            report.grown(
                *old(report),
                |c: Change|
                    if c == Change::BorderFill {
                        fills_lost(info, sections, i as nat)
                    } else {
                        0
                    },
            ),
            forall|j: int|
                0 <= j < i ==> (#[trigger] doc.doc_info.border_fills@[j])@ == normal_border_fills(
                    info,
                    sections,
                )[j],
            forall|j: int|
                i <= j < n ==> (#[trigger] doc.doc_info.border_fills@[j])@ == info.border_fills[j],
        decreases n - i,
    {
        let ghost so_far = *report;
        let ghost this = info.border_fills[i as int];
        assert(this == doc.doc_info.border_fills@[i as int]@);
        let mut lost = false;
        if i < 0xffff {
            let id: u16 = (i + 1) as u16;
            assert(text_refs@.contains(id) <==> text_uses(info, id));
            assert(object_refs@.contains(id) <==> objects_use(sections, id));
            lost = text_refs.contains(&id) && !object_refs.contains(&id)
                && is_transparent_paragraph_no_fill_candidate(&doc.doc_info.border_fills[i]);
        }
        assert(lost == loses_fill(info, sections, i as int));
        if lost {
            let border_fill = &mut doc.doc_info.border_fills[i];
            border_fill.fill.fill_type = FillType::NoFill;
            border_fill.fill.solid = None;
            border_fill.fill.gradient = None;
            border_fill.fill.image = None;
            border_fill.fill.alpha = 0;
            border_fill.raw_data = None;
            report.border_fills_no_fill_normalized = one_more(
                report.border_fills_no_fill_normalized,
            );
        }
        assert(report.grown(so_far, |c: Change| one_if(c, Change::BorderFill, lost)));
        assert forall|c: Change| #[trigger] report.count(c) == capped(old(report).count(c) + if c
            == Change::BorderFill {
            fills_lost(info, sections, (i + 1) as nat)
        } else {
            0
        }) by {
            assert(so_far.count(c) >= 0);
        }
        i = i + 1;
    }
    assert(doc@.doc_info.border_fills =~= normal_border_fills(info, sections));
}

/// Inserts the definitions that sections lack.
fn insert_section_def_controls(sections: &mut Vec<Section>, report: &mut AdapterReport)
    ensures
        section_views(final(sections)@) == with_section_defs(section_views(old(sections)@)),
        final(report).grown(
            *old(report),
            |c: Change|
                if c == Change::SectionDef {
                    defs_lacking(section_views(old(sections)@), old(sections)@.len())
                } else {
                    0
                },
        ),
{
    let ghost before = section_views(old(sections)@);
    let ghost n = before.len();
    let mut i: usize = 0;
    while i < sections.len()
        invariant
            before == section_views(old(sections)@),
            n == before.len(),
            i <= n,
            sections.len() == n,
            report.grown(
                *old(report),
                |c: Change|
                    if c == Change::SectionDef {
                        defs_lacking(before, i as nat)
                    } else {
                        0
                    },
            ),
            forall|j: int|
                0 <= j < i ==> (#[trigger] sections@[j])@ == with_section_def(before[j]),
            forall|j: int| i <= j < n ==> (#[trigger] sections@[j])@ == before[j],
        decreases n - i,
    {
        let ghost so_far = *report;
        assert(sections@[i as int]@ == before[i as int]);
        insert_section_def_control(&mut sections[i], report);
        assert forall|c: Change| #[trigger] report.count(c) == capped(old(report).count(c) + if c
            == Change::SectionDef {
            defs_lacking(before, (i + 1) as nat)
        } else {
            0
        }) by {
            assert(so_far.count(c) >= 0);
        }
        i = i + 1;
    }
    assert(section_views(sections@) =~= with_section_defs(before));
}

/// Brings the paragraphs of all sections into their normal form.
fn adapt_sections(sections: &mut Vec<Section>, report: &mut AdapterReport)
    ensures
        section_views(final(sections)@) == normal_sections(section_views(old(sections)@)),
        final(report).grown(
            *old(report),
            |c: Change| count_sections(section_views(old(sections)@), old(sections)@.len(), c),
        ),
{
    let ghost before = section_views(old(sections)@);
    let ghost n = before.len();
    let mut i: usize = 0;
    while i < sections.len()
        invariant
            before == section_views(old(sections)@),
            n == before.len(),
            i <= n,
            sections.len() == n,
            report.grown(*old(report), |c: Change| count_sections(before, i as nat, c)),
            forall|j: int| 0 <= j < i ==> (#[trigger] sections@[j])@ == normal_section(before[j]),
            forall|j: int| i <= j < n ==> (#[trigger] sections@[j])@ == before[j],
        decreases n - i,
    {
        let ghost so_far = *report;
        assert(sections@[i as int]@ == before[i as int]);
        adapt_paragraphs(&mut sections[i].paragraphs, report);
        assert forall|c: Change| #[trigger] report.count(c) == capped(old(report).count(c)
            + count_sections(before, (i + 1) as nat, c)) by {
            assert(so_far.count(c) == capped(old(report).count(c) + count_sections(
                before,
                i as nat,
                c,
            )));
        }
        i = i + 1;
    }
    assert(section_views(sections@) =~= normal_sections(before));
}

/// Brings a document into its normal form, and reports what was changed.
pub fn convert_hwpx_to_hwp_ir(doc: &mut Document) -> (report: AdapterReport)
    ensures
        final(doc)@ == normal_document(old(doc)@),
        report.skipped_reason is None,
        forall|c: Change| #[trigger] report.count(c) == capped(count_document(old(doc)@, c)),
{
    let ghost d = old(doc)@;
    let mut report = AdapterReport::new();
    let ghost r0 = report;
    normalize_file_header_for_hwp(doc, &mut report);
    let ghost r1 = report;
    normalize_doc_properties_for_hwp(doc, &mut report);
    let ghost r2 = report;
    normalize_bin_data_for_hwp(doc, &mut report);
    let ghost r3 = report;
    insert_section_def_controls(&mut doc.sections, &mut report);
    let ghost r4 = report;
    proof {
        lemma_fills_of_lists(d.doc_info, doc@.doc_info, with_section_defs(d.sections));
    }
    normalize_paragraph_char_border_fills(doc, &mut report);
    let ghost r5 = report;
    adapt_sections(&mut doc.sections, &mut report);
    assert forall|c: Change| #[trigger] report.count(c) == capped(count_document(d, c)) by {
        assert(r0.count(c) == 0 && r1.count(c) >= 0 && r2.count(c) >= 0 && r3.count(c) >= 0
            && r4.count(c) >= 0 && r5.count(c) >= 0);
    }
    report
}

/// Which entries lose their fill depends on the lists of shapes and of borders and fills alone.
proof fn lemma_fills_of_lists(a: DocInfoView, b: DocInfoView, sections: Seq<SectionView>)
    requires
        a.para_shapes == b.para_shapes,
        a.char_shapes == b.char_shapes,
        a.border_fills == b.border_fills,
    ensures
        normal_border_fills(a, sections) == normal_border_fills(b, sections),
        forall|n: nat| #[trigger] fills_lost(a, sections, n) == fills_lost(b, sections, n),
{
    assert(forall|i: int| loses_fill(a, sections, i) == loses_fill(b, sections, i));
    assert(normal_border_fills(a, sections) =~= normal_border_fills(b, sections));
    assert forall|n: nat| #[trigger] fills_lost(a, sections, n) == fills_lost(b, sections, n) by {
        lemma_fills_lost_same(a, b, sections, n);
    }
}

proof fn lemma_fills_lost_same(
    a: DocInfoView,
    b: DocInfoView,
    sections: Seq<SectionView>,
    n: nat,
)
    requires
        forall|i: int| loses_fill(a, sections, i) == loses_fill(b, sections, i),
    ensures
        fills_lost(a, sections, n) == fills_lost(b, sections, n),
    decreases n,
{
    if n > 0 {
        lemma_fills_lost_same(a, b, sections, (n - 1) as nat);
    }
}

/// Brings a document that was read from HWPX or HWP3 into its normal form and reports what was
/// changed. A document of any other format is left as it is, and the report says why nothing was
/// done.
pub fn convert_if_hwpx_source(doc: &mut Document, source_format: FileFormat) -> (report:
    AdapterReport)
    ensures
        is_converted(source_format) ==> {
            &&& final(doc)@ == normal_document(old(doc)@)
            &&& report.skipped_reason is None
            &&& forall|c: Change| #[trigger] report.count(c) == capped(
                count_document(old(doc)@, c),
            )
        },
        !is_converted(source_format) ==> {
            &&& *final(doc) == *old(doc)
            &&& report.skipped_reason is Some
            &&& report.skipped_reason->0@ == "source_format != Hwpx/Hwp3"@
            &&& forall|c: Change| #[trigger] report.count(c) == 0
        },
        source_format == FileFormat::Hwpx || source_format == FileFormat::Hwp3 ==> final(doc)@
            == normal_document(old(doc)@),
        source_format != FileFormat::Hwpx && source_format != FileFormat::Hwp3 ==> *final(doc)
            == *old(doc),
{
    if source_format != FileFormat::Hwpx && source_format != FileFormat::Hwp3 {
        return AdapterReport::new().no_op("source_format != Hwpx/Hwp3");
    }
    convert_hwpx_to_hwp_ir(doc)
}

/// Whether documents of a format are brought into the normal form: those of HWPX and of HWP3 are,
/// and no others.
pub open spec fn is_converted(f: FileFormat) -> bool {
    f == FileFormat::Hwpx || f == FileFormat::Hwp3
}

} // verus!
