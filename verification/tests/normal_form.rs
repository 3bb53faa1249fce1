//! The normal form of documents, part by part.

use rhwp::bytes::{
    encode_utf16, push_counted_text, push_u16, push_u32, push_zeros, read_u32, same_bytes,
};
use rhwp::document_core::converters::border_refs::{
    collect_object_border_fill_refs, collect_paragraph_char_border_fill_refs,
};
use rhwp::document_core::converters::common_obj_attr_writer::{
    pack_common_attr_bits, serialize_common_obj_attr,
};
use rhwp::document_core::converters::hwpx_to_hwp::{
    adapt_equation, adapt_paragraph, adapt_picture_href_ctrl_data, adapt_shape, adapt_table,
    build_picture_href_ctrl_data, convert_hwpx_to_hwp_ir, convert_if_hwpx_source,
    insert_section_def_control, is_draw_text_hwp5_envelope_candidate,
    is_transparent_paragraph_no_fill_candidate, materialize_table_ctrl_header_attr,
    materialize_table_outer_margin, materialize_table_page_break, materialize_table_record_attr,
    materialize_table_record_extra, materialize_table_record_row_sizes,
    normalize_bin_data_for_hwp, normalize_doc_properties_for_hwp, normalize_file_header_for_hwp,
    normalize_paragraph_char_border_fills, normalize_picture_href_for_hwp_ctrl_data,
    table_requires_cell_width_ref_contract, AdapterReport,
};
use rhwp::model::bin_data::{BinData, BinDataStatus, BinDataType};
use rhwp::model::control::{Control, Equation};
use rhwp::model::document::{Document, PageBorderFill, PageDef, Section, SectionDef};
use rhwp::model::image::Picture;
use rhwp::model::paragraph::{CharShapeRef, LineSeg, Paragraph, RangeTag};
use rhwp::model::shape::{
    Caption, CommonObjAttr, DrawingObjAttr, GroupShape, HeightCriterion, HorzAlign, HorzRelTo,
    LineShape, NumberingCategory, RectangleShape, ShapeObject, TextBox, TextWrap, VertAlign,
    VertRelTo, WidthCriterion,
};
use rhwp::model::style::{
    BorderFill, BorderLine, BorderLineType, CharShape, Fill, FillType, ParaShape, SolidFill,
};
use rhwp::model::table::{Cell, Table, TablePageBreak, TableZone};
use rhwp::parser::FileFormat;
use rhwp::text::{eq_ignore_case, to_upper};

fn picture(href: &str) -> Control {
    Control::Picture(Box::new(Picture {
        href: Some(href.to_string()),
        ..Default::default()
    }))
}

fn para(controls: Vec<Control>) -> Paragraph {
    Paragraph {
        controls,
        ..Default::default()
    }
}

fn table_with(cells: Vec<Cell>) -> Table {
    Table {
        row_count: 2,
        col_count: 2,
        cells,
        ..Default::default()
    }
}

fn rectangle(paragraphs: Vec<Paragraph>) -> ShapeObject {
    ShapeObject::Rectangle(RectangleShape {
        drawing: DrawingObjAttr {
            text_box: Some(TextBox {
                paragraphs,
                ..Default::default()
            }),
            ..Default::default()
        },
        ..Default::default()
    })
}

fn full_document() -> Document {
    let inner = table_with(vec![Cell {
        apply_inner_margin: true,
        border_fill_id: 3,
        ..Default::default()
    }]);
    let outer = Table {
        border_fill_id: 2,
        page_break: TablePageBreak::CellBreak,
        outer_margin_left: 7,
        ..table_with(vec![Cell {
            paragraphs: vec![para(vec![Control::Table(Box::new(inner))])],
            ..Default::default()
        }])
    };
    let boxed = rectangle(vec![para(vec![picture("ftp://a")])]);
    let group = ShapeObject::Group(GroupShape {
        children: vec![boxed, ShapeObject::Line(LineShape::default())],
        ..Default::default()
    });
    let mut doc = Document::default();
    doc.doc_info.bin_data_list = vec![
        BinData {
            data_type: BinDataType::Embedding,
            raw_data: Some(vec![1]),
            ..Default::default()
        },
        BinData::default(),
    ];
    doc.doc_info.border_fills = vec![transparent(), transparent(), transparent(), transparent()];
    doc.doc_info.para_shapes = vec![
        ParaShape { border_fill_id: 1 },
        ParaShape { border_fill_id: 2 },
        ParaShape { border_fill_id: 9 },
    ];
    doc.doc_info.char_shapes = vec![
        CharShape { border_fill_id: 3 },
        CharShape { border_fill_id: 4 },
        CharShape { border_fill_id: 0 },
    ];
    doc.sections = vec![
        Section {
            section_def: SectionDef {
                page_def: PageDef {
                    width: 59528,
                    ..Default::default()
                },
                page_border_fill: PageBorderFill {
                    border_fill_id: 0,
                    ..Default::default()
                },
                extra_page_border_fills: vec![PageBorderFill {
                    border_fill_id: 4,
                    ..Default::default()
                }],
            },
            paragraphs: vec![
                para(vec![Control::Table(Box::new(outer))]),
                para(vec![
                    Control::Shape(Box::new(group)),
                    picture("http://b"),
                    Control::Equation(Box::default()),
                    Control::Unknown(5),
                ]),
            ],
        },
        Section::default(),
    ];
    doc
}

fn transparent() -> BorderFill {
    BorderFill {
        fill: Fill {
            fill_type: FillType::Solid,
            solid: Some(SolidFill {
                background_color: 0xffff_ffff,
                ..Default::default()
            }),
            ..Default::default()
        },
        raw_data: Some(vec![7]),
        ..Default::default()
    }
}

#[test]
fn report_counts_each_kind_of_change() {
    let mut doc = full_document();
    let report = convert_hwpx_to_hwp_ir(&mut doc);
    let expected = AdapterReport {
        skipped_reason: None,
        tables_ctrl_data_synthesized: 2,
        tables_attr_packed: 2,
        tables_page_break_materialized: 1,
        tables_outer_margin_materialized: 1,
        table_ctrl_header_attr_materialized: 2,
        table_record_attr_materialized: 1,
        table_record_row_sizes_materialized: 2,
        table_record_extra_materialized: 2,
        cells_list_attr_bit16_set: 1,
        cells_list_header_contract_materialized: 2,
        border_fills_no_fill_normalized: 1,
        file_header_compression_normalized: 1,
        doc_properties_section_count_normalized: 1,
        bin_data_metadata_normalized: 1,
        section_def_controls_inserted: 1,
        picture_href_ctrl_data_materialized: 2,
        text_box_list_header_tail_materialized: 1,
        text_box_para_header_tail_materialized: 1,
        equation_ctrl_header_attr_materialized: 1,
        equation_font_version_normalized: 0,
    };
    assert_eq!(report, expected);
    assert!(report.changed_anything());
}

#[test]
fn second_conversion_changes_nothing() {
    let mut doc = full_document();
    convert_hwpx_to_hwp_ir(&mut doc);
    let once = format!("{:?}", doc);
    let second = convert_hwpx_to_hwp_ir(&mut doc);
    assert_eq!(format!("{:?}", doc), once);
    assert_eq!(second, AdapterReport::new());
    assert!(!second.changed_anything());
}

#[test]
fn silent_report_means_unchanged() {
    let mut doc = full_document();
    convert_if_hwpx_source(&mut doc, FileFormat::Hwp3);
    let before = format!("{:?}", doc);
    let report = convert_if_hwpx_source(&mut doc, FileFormat::Hwpx);
    assert!(!report.changed_anything());
    assert_eq!(format!("{:?}", doc), before);
}

#[test]
fn silent_report_adds_empty_records_only() {
    let mut doc = Document {
        sections: vec![Section {
            paragraphs: vec![para(vec![
                Control::Unknown(1),
                Control::Shape(Box::new(rectangle(vec![para(vec![Control::Unknown(2)])]))),
            ])],
            ..Default::default()
        }],
        ..Default::default()
    };
    convert_if_hwpx_source(&mut doc, FileFormat::Hwpx);
    let complete = format!("{:?}", doc);
    let outer = &mut doc.sections[0].paragraphs[0];
    assert!(outer.ctrl_data_records.len() >= 2);
    assert!(outer.ctrl_data_records.iter().all(|record| record.is_none()));
    outer.ctrl_data_records.clear();
    for control in outer.controls.iter_mut() {
        if let Control::Shape(shape) = control {
            if let ShapeObject::Rectangle(rect) = shape.as_mut() {
                let inner = &mut rect.drawing.text_box.as_mut().unwrap().paragraphs[0];
                assert_eq!(inner.ctrl_data_records, vec![None]);
                inner.ctrl_data_records.clear();
            }
        }
    }
    assert_ne!(format!("{:?}", doc), complete);
    let report = convert_if_hwpx_source(&mut doc, FileFormat::Hwpx);
    assert_eq!(report, AdapterReport::new());
    assert_eq!(format!("{:?}", doc), complete);
}

#[test]
fn records_are_padded_without_being_counted() {
    let mut p = para(vec![Control::Unknown(1), Control::Unknown(2)]);
    let mut report = AdapterReport::new();
    adapt_paragraph(&mut p, &mut report);
    assert_eq!(p.ctrl_data_records, vec![None, None]);
    assert!(!report.changed_anything());
}

#[test]
fn other_formats_are_left_alone() {
    for format in [FileFormat::Hwp, FileFormat::Unknown] {
        let mut doc = full_document();
        let report = convert_if_hwpx_source(&mut doc, format);
        assert_eq!(doc, full_document());
        assert_eq!(
            report,
            AdapterReport::new().no_op("source_format != Hwpx/Hwp3")
        );
        assert!(!report.changed_anything());
    }
}

#[test]
fn reason_silences_a_report() {
    let mut report = AdapterReport::new();
    report.tables_attr_packed = 1;
    assert!(report.changed_anything());
    assert!(!report.clone().no_op("why").changed_anything());
    assert_eq!(report.no_op("why").skipped_reason.as_deref(), Some("why"));
}

#[test]
fn counters_stop_at_their_limit() {
    let mut report = AdapterReport::new();
    report.file_header_compression_normalized = u32::MAX;
    normalize_file_header_for_hwp(&mut Document::default(), &mut report);
    assert_eq!(report.file_header_compression_normalized, u32::MAX);
}

#[test]
fn header_keeps_its_other_flags() {
    let mut doc = Document::default();
    doc.header.flags = 0x8000_0004;
    doc.header.raw_data = Some(vec![1, 2]);
    let mut report = AdapterReport::new();
    normalize_file_header_for_hwp(&mut doc, &mut report);
    assert!(doc.header.compressed);
    assert_eq!(doc.header.flags, 0x8000_0005);
    assert_eq!(doc.header.raw_data, None);
    assert_eq!(report.file_header_compression_normalized, 1);
}

#[test]
fn section_count_follows_the_sections() {
    let mut doc = Document::default();
    doc.sections = vec![Section::default(), Section::default(), Section::default()];
    let mut report = AdapterReport::new();
    normalize_doc_properties_for_hwp(&mut doc, &mut report);
    assert_eq!(doc.doc_properties.section_count, 3);
    assert!(doc.doc_info.raw_stream_dirty);
    assert_eq!(report.doc_properties_section_count_normalized, 1);
    normalize_doc_properties_for_hwp(&mut doc, &mut report);
    assert_eq!(report.doc_properties_section_count_normalized, 1);
}

#[test]
fn linked_data_is_left_alone() {
    let mut doc = Document::default();
    doc.doc_info.bin_data_list = vec![
        BinData {
            attr: 9,
            data_type: BinDataType::Link,
            raw_data: Some(vec![1]),
            ..Default::default()
        },
        BinData {
            data_type: BinDataType::Storage,
            status: BinDataStatus::Error,
            ..Default::default()
        },
    ];
    let mut report = AdapterReport::new();
    normalize_bin_data_for_hwp(&mut doc, &mut report);
    assert_eq!(doc.doc_info.bin_data_list[0].attr, 9);
    assert_eq!(doc.doc_info.bin_data_list[0].raw_data, Some(vec![1]));
    assert_eq!(doc.doc_info.bin_data_list[1].attr, 0x0101);
    assert_eq!(doc.doc_info.bin_data_list[1].status, BinDataStatus::Success);
    assert_eq!(report.bin_data_metadata_normalized, 1);
    assert!(doc.doc_info.raw_stream_dirty);
}

#[test]
fn section_definition_is_put_first_and_once() {
    let mut section = Section {
        section_def: SectionDef {
            page_def: PageDef {
                height: 84188,
                ..Default::default()
            },
            ..Default::default()
        },
        paragraphs: vec![para(vec![Control::Unknown(1)]), Paragraph::default()],
    };
    let mut report = AdapterReport::new();
    insert_section_def_control(&mut section, &mut report);
    insert_section_def_control(&mut section, &mut report);
    assert_eq!(report.section_def_controls_inserted, 1);
    assert_eq!(
        section.paragraphs[0].controls,
        vec![
            Control::SectionDef(Box::new(section.section_def.clone())),
            Control::Unknown(1),
        ]
    );
    let mut empty = Section::default();
    insert_section_def_control(&mut empty, &mut report);
    assert_eq!(empty, Section::default());
    assert_eq!(report.section_def_controls_inserted, 1);
}

#[test]
fn only_text_fills_that_show_nothing_are_removed() {
    let mut doc = full_document();
    let mut report = AdapterReport::new();
    let text = collect_paragraph_char_border_fill_refs(&doc);
    let mut text: Vec<u16> = text.into_iter().collect();
    text.sort();
    assert_eq!(text, vec![1, 2, 3, 4, 9]);
    let objects = collect_object_border_fill_refs(&doc);
    let mut objects: Vec<u16> = objects.into_iter().collect();
    objects.sort();
    assert_eq!(objects, vec![2, 3, 4]);
    normalize_paragraph_char_border_fills(&mut doc, &mut report);
    assert_eq!(doc.doc_info.border_fills[0].fill, Fill::default());
    assert_eq!(doc.doc_info.border_fills[0].raw_data, None);
    for i in 1..4 {
        assert_eq!(doc.doc_info.border_fills[i], transparent());
    }
    assert_eq!(report.border_fills_no_fill_normalized, 1);
}

#[test]
fn object_references_reach_into_zones_and_groups() {
    let mut doc = Document::default();
    let table = Table {
        zones: vec![TableZone {
            border_fill_id: 11,
            ..Default::default()
        }],
        cells: vec![Cell {
            border_fill_id: 12,
            ..Default::default()
        }],
        ..Default::default()
    };
    let inner = para(vec![Control::Table(Box::new(table))]);
    let group = ShapeObject::Group(GroupShape {
        children: vec![rectangle(vec![inner])],
        ..Default::default()
    });
    doc.sections = vec![Section {
        section_def: SectionDef {
            page_border_fill: PageBorderFill {
                border_fill_id: 13,
                ..Default::default()
            },
            ..Default::default()
        },
        paragraphs: vec![para(vec![Control::Shape(Box::new(group))])],
    }];
    let mut refs: Vec<u16> = collect_object_border_fill_refs(&doc).into_iter().collect();
    refs.sort();
    assert_eq!(refs, vec![11, 12, 13]);
}

#[test]
fn visible_borders_and_fills_are_no_candidates() {
    assert!(is_transparent_paragraph_no_fill_candidate(&transparent()));
    let mut lined = transparent();
    lined.borders[3] = BorderLine {
        line_type: BorderLineType::Solid,
        ..Default::default()
    };
    assert!(!is_transparent_paragraph_no_fill_candidate(&lined));
    let mut opaque = transparent();
    opaque.fill.alpha = 1;
    assert!(!is_transparent_paragraph_no_fill_candidate(&opaque));
    let mut white = transparent();
    white.fill.solid = Some(SolidFill {
        background_color: 0x00ff_ffff,
        ..Default::default()
    });
    assert!(!is_transparent_paragraph_no_fill_candidate(&white));
    let mut none = transparent();
    none.fill.solid = None;
    assert!(!is_transparent_paragraph_no_fill_candidate(&none));
    assert!(!is_transparent_paragraph_no_fill_candidate(
        &BorderFill::default()
    ));
}

#[test]
fn links_get_their_backslash_once() {
    for (href, expected) in [
        ("http://a", "http\\://a"),
        ("http\\://a", "http\\://a"),
        ("a://b://c", "a\\://b\\://c"),
        ("a\\://b://c", "a\\://b://c"),
        ("mailto:x", "mailto:x"),
        (":/", ":/"),
        ("://", "\\://"),
        ("", ""),
    ] {
        let once = normalize_picture_href_for_hwp_ctrl_data(href);
        assert_eq!(once, expected);
        assert_eq!(normalize_picture_href_for_hwp_ctrl_data(&once), expected);
    }
}

#[test]
fn link_record_counts_utf16_units() {
    let data = build_picture_href_ctrl_data("a😀");
    assert_eq!(&data[20..], &[3, 0, b'a', 0, 0x3d, 0xd8, 0x00, 0xde]);
    let long = "x".repeat(70_000);
    let data = build_picture_href_ctrl_data(&long);
    assert_eq!(&data[20..22], &[0xff, 0xff]);
    assert_eq!(data.len(), 22 + 2 * 65_535);
}

#[test]
fn pictures_without_link_keep_their_record() {
    let mut report = AdapterReport::new();
    let mut slot = Some(vec![1, 2]);
    adapt_picture_href_ctrl_data(&Picture::default(), &mut slot, &mut report);
    let empty = Picture {
        href: Some(String::new()),
        ..Default::default()
    };
    adapt_picture_href_ctrl_data(&empty, &mut slot, &mut report);
    assert_eq!(slot, Some(vec![1, 2]));
    assert!(!report.changed_anything());
    let linked = Picture {
        href: Some("x".to_string()),
        ..Default::default()
    };
    adapt_picture_href_ctrl_data(&linked, &mut slot, &mut report);
    assert_eq!(slot, Some(build_picture_href_ctrl_data("x")));
    assert_eq!(report.picture_href_ctrl_data_materialized, 1);
}

#[test]
fn records_follow_an_inserted_section_definition() {
    let mut doc = Document::default();
    doc.sections = vec![Section {
        paragraphs: vec![para(vec![picture("x")])],
        ..Default::default()
    }];
    convert_hwpx_to_hwp_ir(&mut doc);
    let first = &doc.sections[0].paragraphs[0];
    assert_eq!(first.ctrl_data_records.len(), 2);
    assert_eq!(first.ctrl_data_records[0], None);
    assert_eq!(
        first.ctrl_data_records[1],
        Some(build_picture_href_ctrl_data("x"))
    );
}

#[test]
fn equation_attributes_are_packed() {
    let mut eq = Equation {
        common: CommonObjAttr {
            treat_as_char: true,
            vert_rel_to: VertRelTo::Para,
            horz_rel_to: HorzRelTo::Column,
            flow_with_text: true,
            text_wrap: TextWrap::TopAndBottom,
            numbering: NumberingCategory::Figure,
            ..Default::default()
        },
        raw_ctrl_data: vec![1, 2, 3],
        ..Default::default()
    };
    assert_eq!(pack_common_attr_bits(&eq.common), 0x042a_2211);
    let mut report = AdapterReport::new();
    adapt_equation(&mut eq, &mut report);
    assert_eq!(eq.common.attr, 0x0c2a_2211);
    assert!(eq.raw_ctrl_data.is_empty());
    assert_eq!(report.equation_ctrl_header_attr_materialized, 1);
    adapt_equation(&mut eq, &mut report);
    assert_eq!(report.equation_ctrl_header_attr_materialized, 1);
}

#[test]
fn attribute_word_has_a_place_for_each_field() {
    let common = CommonObjAttr {
        treat_as_char: true,
        vert_rel_to: VertRelTo::Page,
        vert_align: VertAlign::Outside,
        horz_rel_to: HorzRelTo::Column,
        horz_align: HorzAlign::Inside,
        flow_with_text: false,
        allow_overlap: true,
        width_criterion: WidthCriterion::Column,
        height_criterion: HeightCriterion::Page,
        text_wrap: TextWrap::InFrontOfText,
        numbering: NumberingCategory::Equation,
        attr: 0xffff_ffff,
        ..Default::default()
    };
    let bits = pack_common_attr_bits(&common);
    assert_eq!(bits, 0x0c65_4e89);
    assert_eq!((bits >> 5) & 7, 4);
    assert_eq!((bits >> 26) & 7, 3);
}

#[test]
fn header_record_layout() {
    let common = CommonObjAttr {
        vertical_offset: 0x0102_0304,
        horizontal_offset: 5,
        width: 6,
        height: 7,
        z_order: -1,
        margin: rhwp::model::Padding {
            left: -2,
            right: 3,
            top: 4,
            bottom: 5,
        },
        instance_id: 8,
        prevent_page_break: 9,
        description: "é".to_string(),
        ..Default::default()
    };
    let record = serialize_common_obj_attr(&common);
    assert_eq!(read_u32(&record), pack_common_attr_bits(&common));
    assert_eq!(&record[4..8], &[4, 3, 2, 1]);
    assert_eq!(&record[20..24], &[0xff, 0xff, 0xff, 0xff]);
    assert_eq!(&record[24..32], &[0xfe, 0xff, 3, 0, 4, 0, 5, 0]);
    assert_eq!(&record[32..], &[8, 0, 0, 0, 9, 0, 0, 0, 1, 0, 0xe9, 0]);
    let kept = CommonObjAttr {
        attr: 0x1234_5678,
        ..Default::default()
    };
    assert_eq!(read_u32(&serialize_common_obj_attr(&kept)), 0x1234_5678);
}

#[test]
fn bytes_and_text() {
    let mut out = vec![9];
    push_u16(&mut out, 0xabcd);
    push_u32(&mut out, 0x0102_0304);
    push_zeros(&mut out, 2);
    push_counted_text(&mut out, "A");
    assert_eq!(out, vec![9, 0xcd, 0xab, 4, 3, 2, 1, 0, 0, 1, 0, 65, 0]);
    assert_eq!(read_u32(&vec![4, 3, 2, 1, 0]), 0x0102_0304);
    assert!(same_bytes(&vec![1, 2], &vec![1, 2]));
    assert!(!same_bytes(&vec![1, 2], &vec![1, 3]));
    assert!(!same_bytes(&vec![1], &vec![1, 3]));
    assert_eq!(
        encode_utf16("a한😀\u{10ffff}"),
        "a한😀\u{10ffff}".encode_utf16().collect::<Vec<u16>>()
    );
    assert_eq!(to_upper("aZ9é{"), "AZ9é{");
    assert_eq!(to_upper(&to_upper("aZ9é{")), to_upper("aZ9é{"));
    assert!(eq_ignore_case("PMatrix", "pmATRIX"));
    assert!(!eq_ignore_case("é", "É"));
}

#[test]
fn table_steps_one_by_one() {
    let mut report = AdapterReport::new();
    let mut table = Table {
        outer_margin_right: 4,
        page_break: TablePageBreak::CellBreak,
        raw_table_record_attr: 77,
        repeat_header: true,
        row_count: 3,
        row_sizes: vec![1],
        cells: vec![
            Cell::default(),
            Cell {
                row: 2,
                ..Default::default()
            },
            Cell {
                row: 2,
                ..Default::default()
            },
            Cell {
                row: 9,
                ..Default::default()
            },
        ],
        caption: Some(Caption::default()),
        ..Default::default()
    };
    materialize_table_record_attr(&mut table, &mut report);
    assert_eq!(table.raw_table_record_attr, 0x05);
    materialize_table_outer_margin(&mut table, &mut report);
    assert_eq!(table.common.margin.right, 4);
    materialize_table_page_break(&mut table, &mut report);
    assert_eq!(table.page_break, TablePageBreak::RowBreak);
    assert_eq!(table.raw_table_record_attr, 0);
    materialize_table_record_attr(&mut table, &mut report);
    assert_eq!(table.raw_table_record_attr, 0x06);
    materialize_table_record_row_sizes(&mut table, &mut report);
    assert_eq!(table.row_sizes, vec![1, 0, 2]);
    materialize_table_record_extra(&mut table, &mut report);
    assert_eq!(table.raw_table_record_extra, vec![0, 0]);
    materialize_table_ctrl_header_attr(&mut table, &mut report);
    assert_eq!(table.common.attr, 0x280a_2000);
    assert_eq!(report.table_record_attr_materialized, 2);
    assert_eq!(report.table_record_row_sizes_materialized, 1);
}

#[test]
fn row_sizes_stay_where_no_row_has_a_cell() {
    let mut table = Table {
        row_count: 1,
        row_sizes: vec![5],
        cells: vec![Cell {
            row: 4,
            ..Default::default()
        }],
        ..Default::default()
    };
    let mut report = AdapterReport::new();
    materialize_table_record_row_sizes(&mut table, &mut report);
    assert_eq!(table.row_sizes, vec![5]);
    assert!(!report.changed_anything());
}

#[test]
fn table_with_a_header_keeps_it() {
    let mut table = Table {
        raw_ctrl_data: vec![1, 2, 3, 4],
        page_break: TablePageBreak::CellBreak,
        ..table_with(vec![Cell::default()])
    };
    let mut report = AdapterReport::new();
    adapt_table(&mut table, &mut report);
    assert_eq!(table.raw_ctrl_data, vec![1, 2, 3, 4]);
    assert_eq!(table.page_break, TablePageBreak::CellBreak);
    assert_eq!(report.tables_ctrl_data_synthesized, 0);
    assert_eq!(report.cells_list_header_contract_materialized, 1);
}

#[test]
fn table_attribute_word_is_the_one_in_its_header() {
    let mut table = table_with(vec![]);
    adapt_table(&mut table, &mut AdapterReport::new());
    assert_eq!(read_u32(&table.raw_ctrl_data), table.attr);
    assert_eq!(table.attr, table.common.attr);
    assert_eq!(table.attr, 0x080a_2000);
}

#[test]
fn fine_grids_refer_to_cell_widths() {
    for (col_count, expected) in [(29, 6), (30, 7)] {
        let mut table = Table {
            col_count,
            cells: vec![Cell {
                list_header_width_ref: 6,
                ..Default::default()
            }],
            ..Default::default()
        };
        assert_eq!(table_requires_cell_width_ref_contract(&table), col_count >= 30);
        adapt_table(&mut table, &mut AdapterReport::new());
        assert_eq!(table.cells[0].list_header_width_ref, expected);
    }
}

#[test]
fn inner_margins_are_marked_in_directions_zero_and_one() {
    for (direction, expected) in [(0, 1), (1, 1), (2, 2)] {
        let mut table = table_with(vec![Cell {
            apply_inner_margin: true,
            text_direction: direction,
            ..Default::default()
        }]);
        adapt_table(&mut table, &mut AdapterReport::new());
        assert_eq!(table.cells[0].text_direction, expected);
    }
}

#[test]
fn text_boxes_with_pictures_get_their_tails() {
    let first = Paragraph {
        char_shapes: vec![CharShapeRef::default(); 3],
        range_tags: vec![RangeTag::default(); 2],
        line_segs: vec![LineSeg::default(); 258],
        ..para(vec![picture("x")])
    };
    let second = Paragraph {
        raw_header_extra: vec![9; 12],
        ..Default::default()
    };
    let third = Paragraph {
        raw_header_extra: vec![9; 11],
        ..Default::default()
    };
    let mut shape = rectangle(vec![first, second, third]);
    let mut report = AdapterReport::new();
    adapt_shape(&mut shape, &mut report);
    let ShapeObject::Rectangle(rect) = shape else {
        panic!("expected rectangle");
    };
    let text_box = rect.drawing.text_box.unwrap();
    assert!(is_draw_text_hwp5_envelope_candidate(&text_box));
    assert_eq!(text_box.raw_list_header_extra, vec![0; 13]);
    assert_eq!(
        text_box.paragraphs[0].raw_header_extra,
        vec![3, 0, 2, 0, 2, 1, 0, 0, 0, 0x80, 0, 0]
    );
    assert_eq!(text_box.paragraphs[1].raw_header_extra, vec![9; 12]);
    assert_eq!(
        text_box.paragraphs[2].raw_header_extra,
        vec![1, 0, 0, 0, 0, 0, 0, 0, 0, 0x80, 0, 0]
    );
    assert_eq!(report.text_box_list_header_tail_materialized, 1);
    assert_eq!(report.text_box_para_header_tail_materialized, 2);
}

#[test]
fn text_boxes_without_pictures_get_none() {
    let mut shape = rectangle(vec![Paragraph::default()]);
    let mut report = AdapterReport::new();
    adapt_shape(&mut shape, &mut report);
    assert_eq!(shape, rectangle(vec![Paragraph::default()]));
    assert!(!report.changed_anything());
}

#[test]
fn conversion_keeps_text_and_references() {
    let mut doc = full_document();
    doc.sections[0].paragraphs[1].text = "본문".to_string();
    doc.sections[0].paragraphs[1].line_segs = vec![LineSeg {
        vertical_pos: 42,
        ..Default::default()
    }];
    let before = collect_object_border_fill_refs(&doc);
    convert_hwpx_to_hwp_ir(&mut doc);
    assert_eq!(collect_object_border_fill_refs(&doc), before);
    let para = &doc.sections[0].paragraphs[1];
    assert_eq!(para.text, "본문");
    assert_eq!(para.line_segs[0].vertical_pos, 42);
    assert_eq!(para.controls.len(), 4);
    assert_eq!(doc.sections[0].paragraphs[0].controls.len(), 2);
}
