//! Documents before and after they are brought into the form that the binary writer expects.

use rhwp::document_core::converters::hwpx_to_hwp::{
    adapt_cell_list_attr, adapt_paragraph, adapt_shape, adapt_table, build_picture_href_ctrl_data,
    convert_hwpx_to_hwp_ir, convert_if_hwpx_source, materialize_cell_list_header_contract,
    AdapterReport,
};
use rhwp::model::control::Control;
use rhwp::model::document::Document;
use rhwp::model::image::Picture;
use rhwp::model::paragraph::Paragraph;
use rhwp::model::shape::{
    Caption, CaptionDirection, CommonObjAttr, DrawingObjAttr, HorzRelTo, RectangleShape,
    ShapeObject, TextBox, TextWrap, VertRelTo,
};
use rhwp::model::table::{Cell, Table, TablePageBreak};
use rhwp::model::Padding;
use rhwp::parser::FileFormat;

#[test]
fn empty_doc_normalizes_file_header_once() {
    let mut doc = Document::default();
    let report = convert_hwpx_to_hwp_ir(&mut doc);
    assert!(report.changed_anything());
    assert!(report.skipped_reason.is_none());
    assert_eq!(report.file_header_compression_normalized, 1);
    assert!(doc.header.compressed);
    assert_eq!(doc.header.flags & 0x01, 0x01);
    assert!(doc.header.raw_data.is_none());
}

#[test]
fn hwp_source_no_op_via_filter() {
    let mut doc = Document::default();
    let report = convert_if_hwpx_source(&mut doc, FileFormat::Hwp);
    assert_eq!(
        report.skipped_reason.as_deref(),
        Some("source_format != Hwpx/Hwp3")
    );
}

#[test]
fn table_axis_materializes_hancom_record_contract() {

    let mut table = Table {
        row_count: 1,
        col_count: 3,
        padding: Padding {
            left: 141,
            right: 141,
            top: 141,
            bottom: 141,
        },
        cells: (0..3)
            .map(|col| Cell {
                col,
                row: 0,
                col_span: 1,
                row_span: 1,
                ..Default::default()
            })
            .collect(),
        page_break: TablePageBreak::CellBreak,
        repeat_header: true,
        attr: 0x08,
        common: CommonObjAttr {
            treat_as_char: true,
            text_wrap: TextWrap::TopAndBottom,
            vert_rel_to: VertRelTo::Para,
            horz_rel_to: HorzRelTo::Para,
            width: 47697,
            height: 3525,
            z_order: 26,
            ..Default::default()
        },
        outer_margin_left: 283,
        outer_margin_right: 283,
        outer_margin_top: 283,
        outer_margin_bottom: 283,
        border_fill_id: 3,
        ..Default::default()
    };

    let mut report = AdapterReport::new();
    adapt_table(&mut table, &mut report);

    assert_eq!(table.raw_table_record_attr, 0x0000_000e);
    assert_eq!(table.row_sizes, vec![3]);
    assert_eq!(table.raw_table_record_extra, vec![0, 0]);
    assert_eq!(
        u32::from_le_bytes(table.raw_ctrl_data[0..4].try_into().unwrap()),
        0x082a_2311
    );
    assert_eq!(
        (
            i16::from_le_bytes(table.raw_ctrl_data[24..26].try_into().unwrap()),
            i16::from_le_bytes(table.raw_ctrl_data[26..28].try_into().unwrap()),
            i16::from_le_bytes(table.raw_ctrl_data[28..30].try_into().unwrap()),
            i16::from_le_bytes(table.raw_ctrl_data[30..32].try_into().unwrap()),
        ),
        (283, 283, 283, 283)
    );
}

#[test]
fn captioned_table_materializes_hancom_caption_common_attr_bit() {

    let mut table = Table {
        row_count: 12,
        col_count: 5,
        padding: Padding {
            left: 141,
            right: 141,
            top: 141,
            bottom: 141,
        },
        cells: (0..5)
            .map(|col| Cell {
                col,
                row: 0,
                col_span: 1,
                row_span: 1,
                ..Default::default()
            })
            .collect(),
        page_break: TablePageBreak::CellBreak,
        repeat_header: true,
        attr: 0x08,
        common: CommonObjAttr {
            treat_as_char: true,
            text_wrap: TextWrap::TopAndBottom,
            vert_rel_to: VertRelTo::Para,
            horz_rel_to: HorzRelTo::Para,
            width: 47152,
            height: 14976,
            z_order: 6,
            ..Default::default()
        },
        outer_margin_left: 141,
        outer_margin_right: 141,
        outer_margin_top: 141,
        outer_margin_bottom: 141,
        border_fill_id: 97,
        caption: Some(Caption {
            direction: CaptionDirection::Top,
            width: 8504,
            spacing: 283,
            max_width: 47152,
            paragraphs: vec![Paragraph::default()],
            ..Default::default()
        }),
        ..Default::default()
    };

    let mut report = AdapterReport::new();
    adapt_table(&mut table, &mut report);

    assert_eq!(
        u32::from_le_bytes(table.raw_ctrl_data[0..4].try_into().unwrap()),
        0x282a_2311
    );
}

#[test]
fn cell_list_header_contract_materializes_width_ref_and_extra() {
    let mut cell = Cell {
        width: 2266,
        list_header_width_ref: 0,
        raw_list_extra: Vec::new(),
        ..Default::default()
    };
    let mut report = AdapterReport::new();

    materialize_cell_list_header_contract(&mut cell, true, &mut report);

    assert_eq!(cell.list_header_width_ref & 0x0001, 0x0001);
    assert_eq!(cell.raw_list_extra.len(), 13);
    assert_eq!(
        u32::from_le_bytes(cell.raw_list_extra[0..4].try_into().unwrap()),
        2266
    );
    assert!(cell.raw_list_extra[4..].iter().all(|&byte| byte == 0));
    assert_eq!(report.cells_list_header_contract_materialized, 1);

    materialize_cell_list_header_contract(&mut cell, true, &mut report);
    assert_eq!(report.cells_list_header_contract_materialized, 1);
}

#[test]
fn cell_list_header_contract_keeps_width_ref_clear_for_normal_tables() {
    let mut cell = Cell {
        width: 2266,
        list_header_width_ref: 0x0001,
        raw_list_extra: Vec::new(),
        ..Default::default()
    };
    let mut report = AdapterReport::new();

    materialize_cell_list_header_contract(&mut cell, false, &mut report);

    assert_eq!(cell.list_header_width_ref & 0x0001, 0);
    assert_eq!(cell.raw_list_extra.len(), 13);
    assert_eq!(
        u32::from_le_bytes(cell.raw_list_extra[0..4].try_into().unwrap()),
        2266
    );
    assert_eq!(report.cells_list_header_contract_materialized, 1);
}

#[test]
fn idempotent_when_called_twice() {
    let mut doc = Document::default();
    let r1 = convert_hwpx_to_hwp_ir(&mut doc);
    let r2 = convert_hwpx_to_hwp_ir(&mut doc);
    assert_eq!(r1.file_header_compression_normalized, 1);
    assert_eq!(r2.tables_ctrl_data_synthesized, 0);
    assert_eq!(r2.file_header_compression_normalized, 0);
    assert!(!r2.changed_anything());
}

#[test]
fn picture_href_ctrl_data_matches_hancom_parameter_set_shape() {
    let data = build_picture_href_ctrl_data("http://www.korea.kr;1;0;0;");
    assert_eq!(data.len(), 76);
    assert_eq!(&data[0..2], &0x021b_u16.to_le_bytes());
    assert_eq!(&data[2..4], &1_u16.to_le_bytes());
    assert_eq!(&data[6..8], &0x026f_u16.to_le_bytes());
    assert_eq!(&data[8..10], &0x8000_u16.to_le_bytes());
    assert_eq!(&data[10..12], &0x026f_u16.to_le_bytes());
    assert_eq!(&data[16..18], &0x0265_u16.to_le_bytes());
    assert_eq!(&data[18..20], &0x0001_u16.to_le_bytes());
    assert_eq!(&data[20..22], &27_u16.to_le_bytes());

    let text: Vec<u16> = data[22..]
        .chunks_exact(2)
        .map(|chunk| u16::from_le_bytes([chunk[0], chunk[1]]))
        .collect();
    assert_eq!(
        String::from_utf16(&text).unwrap(),
        "http\\://www.korea.kr;1;0;0;"
    );
}

#[test]
fn picture_href_ctrl_data_materializes_on_matching_control_slot() {
    let mut para = Paragraph::default();
    let pic = Picture {
        href: Some("http://www.korea.kr;1;0;0;".to_string()),
        ..Default::default()
    };
    para.controls.push(Control::Picture(Box::new(pic)));

    let mut report = AdapterReport::new();
    adapt_paragraph(&mut para, &mut report);
    assert_eq!(report.picture_href_ctrl_data_materialized, 1);
    assert_eq!(para.ctrl_data_records.len(), 1);
    assert_eq!(para.ctrl_data_records[0].as_ref().unwrap().len(), 76);

    let mut second = AdapterReport::new();
    adapt_paragraph(&mut para, &mut second);
    assert_eq!(second.picture_href_ctrl_data_materialized, 0);
}

#[test]
fn picture_href_ctrl_data_materializes_inside_shape_text_box() {

    let mut nested_para = Paragraph::default();
    nested_para
        .controls
        .push(Control::Picture(Box::new(Picture {
            href: Some("http://www.korea.kr;1;0;0;".to_string()),
            ..Default::default()
        })));

    let mut shape = ShapeObject::Rectangle(RectangleShape {
        drawing: DrawingObjAttr {
            text_box: Some(TextBox {
                paragraphs: vec![nested_para],
                ..Default::default()
            }),
            ..Default::default()
        },
        ..Default::default()
    });

    let mut report = AdapterReport::new();
    adapt_shape(&mut shape, &mut report);
    assert_eq!(report.picture_href_ctrl_data_materialized, 1);

    let ShapeObject::Rectangle(rect) = shape else {
        panic!("expected rectangle");
    };
    let text_box = rect.drawing.text_box.unwrap();
    let ctrl_data = text_box.paragraphs[0].ctrl_data_records[0]
        .as_ref()
        .unwrap();
    assert_eq!(ctrl_data.len(), 76);
}

fn make_cell_with_inner_margin(apply: bool, text_dir: u8) -> Cell {
    let mut cell = Cell::default();
    cell.apply_inner_margin = apply;
    cell.text_direction = text_dir;
    cell
}

#[test]
fn stage3_horizontal_cell_with_inner_margin_gets_bit16() {
    let mut cell = make_cell_with_inner_margin(true, 0);
    let mut report = AdapterReport::new();
    adapt_cell_list_attr(&mut cell, &mut report);
    assert_eq!(cell.text_direction, 1, "가로 셀에 bit 16 이 OR 되어야 함");
    assert_eq!(report.cells_list_attr_bit16_set, 1);
}

#[test]
fn stage3_vertical_cell_already_has_bit16_no_change() {
    let mut cell = make_cell_with_inner_margin(true, 1);
    let mut report = AdapterReport::new();
    adapt_cell_list_attr(&mut cell, &mut report);
    assert_eq!(cell.text_direction, 1);
    assert_eq!(report.cells_list_attr_bit16_set, 0);
}

#[test]
fn stage3_no_inner_margin_no_change() {
    let mut cell = make_cell_with_inner_margin(false, 0);
    let mut report = AdapterReport::new();
    adapt_cell_list_attr(&mut cell, &mut report);
    assert_eq!(cell.text_direction, 0);
    assert_eq!(report.cells_list_attr_bit16_set, 0);
}

#[test]
fn stage3_list_attr_byte_layout_has_bit16_after_adapter() {
    // list_attr = (text_direction << 16) | (v_align << 21)
    let mut cell = make_cell_with_inner_margin(true, 0);
    let mut report = AdapterReport::new();
    adapt_cell_list_attr(&mut cell, &mut report);

    let v_align_code: u32 = 0;
    let list_attr: u32 = ((cell.text_direction as u32) << 16) | (v_align_code << 21);
    assert_eq!(list_attr & (1 << 16), 1 << 16, "list_attr 의 bit 16 = 1");

    let recovered_apply_inner_margin = (list_attr >> 16) & 0x01 != 0;
    assert!(
        recovered_apply_inner_margin,
        "재파싱 시 apply_inner_margin 회복"
    );
}

#[test]
fn stage3_idempotent_does_not_double_or() {
    let mut cell = make_cell_with_inner_margin(true, 0);
    let mut r1 = AdapterReport::new();
    adapt_cell_list_attr(&mut cell, &mut r1);
    assert_eq!(cell.text_direction, 1);

    let mut r2 = AdapterReport::new();
    adapt_cell_list_attr(&mut cell, &mut r2);
    assert_eq!(cell.text_direction, 1);
    assert_eq!(r2.cells_list_attr_bit16_set, 0);
}
