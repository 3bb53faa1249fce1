//! Places in a column, in pixels: 75 units of length are one pixel at 96 pixels per inch.

use rhwp::model::control::Control;
use rhwp::model::image::Picture;
use rhwp::model::paragraph::{LineSeg, Paragraph};
use rhwp::model::shape::{CommonObjAttr, RectangleShape, ShapeObject, TextWrap, VertRelTo};
use rhwp::model::table::Table;
use rhwp::renderer::height_cursor::{para_has_overlay_shape, HeightCursor, VposAnchor};

const DPI: f64 = 96.0;
const COL_Y: f64 = 100.0;
const COL_H: f64 = 900.0;

fn para(para_shape_id: u16, vpos: i32, lh: i32, ls: i32, seg_w: i32) -> Paragraph {
    Paragraph {
        para_shape_id,
        line_segs: vec![LineSeg {
            vertical_pos: vpos,
            line_height: lh,
            line_spacing: ls,
            segment_width: seg_w,
            ..Default::default()
        }],
        ..Default::default()
    }
}

fn styles(spacing_before: f64) -> Vec<f64> {
    vec![spacing_before]
}

struct Column {
    cursor: HeightCursor,
    keep_spacing_before: bool,
    anchor: Option<VposAnchor>,
}

fn cursor(page_base: Option<i32>) -> Column {
    Column {
        cursor: HeightCursor::new(page_base),
        keep_spacing_before: false,
        anchor: None,
    }
}

fn hwp3_origin_cursor(page_base: Option<i32>) -> Column {
    Column {
        cursor: HeightCursor::new(page_base),
        keep_spacing_before: true,
        anchor: None,
    }
}

impl Column {
    fn vpos_adjust(
        &mut self,
        y_offset: f64,
        item_para: usize,
        paragraphs: &Vec<Paragraph>,
        spacing_before: &Vec<f64>,
    ) -> f64 {
        let y_delta_hu = ((y_offset - COL_Y) / DPI * 7200.0).round() as i32;
        self.anchor = self.cursor.vpos_anchor(y_delta_hu, item_para, paragraphs);
        let Some(anchor) = &self.anchor else {
            return y_offset;
        };
        let raw = COL_Y + (anchor.vpos_end - anchor.base) as f64 / 7200.0 * DPI;
        let sb = anchor
            .para_shape_id
            .and_then(|id| spacing_before.get(id as usize).copied())
            .unwrap_or(0.0);
        let end_y = if self.keep_spacing_before || sb == 0.0 {
            raw
        } else {
            (raw - sb).max(COL_Y)
        };
        if end_y >= y_offset - 8.0 && end_y <= COL_Y + COL_H {
            end_y
        } else {
            y_offset
        }
    }
}

fn anchored(vpos_end: i64, base: i64, is_page_path: bool) -> Option<VposAnchor> {
    Some(VposAnchor {
        vpos_end,
        base,
        is_page_path,
        para_shape_id: Some(0),
        has_topbottom_para_table: false,
    })
}

#[test]
fn no_prev_para_passthrough() {
    let mut c = cursor(Some(0));
    let ps = vec![para(0, 2000, 1000, 0, 5000)];
    assert_eq!(c.vpos_adjust(90.0, 0, &ps, &styles(0.0)), 90.0);
    assert_eq!(c.anchor, None);
}

#[test]
fn same_para_passthrough() {
    let mut c = cursor(Some(0));
    c.cursor.prev_layout_para = Some(1);
    let ps = vec![para(0, 1000, 1000, 0, 5000), para(0, 2000, 1000, 0, 5000)];
    assert_eq!(c.vpos_adjust(123.0, 1, &ps, &styles(0.0)), 123.0);
    assert_eq!(c.anchor, None);
}

#[test]
fn partial_table_bypass() {
    let mut c = cursor(Some(0));
    c.cursor.prev_layout_para = Some(0);
    c.cursor.prev_item_was_partial_table = true;
    let ps = vec![para(0, 1000, 1000, 0, 5000), para(0, 2000, 1000, 0, 5000)];
    assert_eq!(c.vpos_adjust(90.0, 1, &ps, &styles(0.0)), 90.0);
    assert_eq!(c.anchor, None);
}

#[test]
fn vpos_reset_bypass() {
    let mut c = cursor(Some(0));
    c.cursor.prev_layout_para = Some(2);
    let ps = vec![
        para(0, 0, 0, 0, 0),
        para(0, 0, 0, 0, 0),
        para(0, 0, 1000, 0, 5000),
    ];
    assert_eq!(c.vpos_adjust(90.0, 1, &ps, &styles(0.0)), 90.0);
    assert_eq!(c.anchor, None);
}

#[test]
fn page_path_applied() {
    let mut c = cursor(Some(0));
    c.cursor.prev_layout_para = Some(0);
    let ps = vec![para(0, 1000, 1000, 0, 5000), para(0, 2000, 1000, 0, 5000)];
    let got = c.vpos_adjust(90.0, 1, &ps, &styles(0.0));
    assert!((got - (100.0 + 2000.0 / 75.0)).abs() < 1e-6, "got={got}");
    assert_eq!(c.anchor, anchored(2000, 0, true));
}

#[test]
fn page_path_sb_prededuct() {
    let mut c = cursor(Some(0));
    c.cursor.prev_layout_para = Some(0);
    let ps = vec![para(0, 1000, 1000, 0, 5000), para(0, 2000, 1000, 0, 5000)];
    let got = c.vpos_adjust(90.0, 1, &ps, &styles(10.0));
    assert!(
        (got - (100.0 + 2000.0 / 75.0 - 10.0)).abs() < 1e-6,
        "got={got}"
    );
    assert_eq!(c.anchor, anchored(2000, 0, true));
}

#[test]
fn hwp3_origin_page_path_keeps_spacing_before_in_vpos() {
    let mut c = hwp3_origin_cursor(Some(0));
    c.cursor.prev_layout_para = Some(0);
    let ps = vec![para(0, 1000, 1000, 0, 5000), para(0, 2000, 1000, 0, 5000)];
    let got = c.vpos_adjust(90.0, 1, &ps, &styles(10.0));
    assert!((got - (100.0 + 2000.0 / 75.0)).abs() < 1e-6, "got={got}");
    assert_eq!(c.anchor, anchored(2000, 0, true));
}

#[test]
fn lazy_path_applied_and_base_set() {
    let mut c = cursor(None);
    c.cursor.prev_layout_para = Some(0);
    let ps = vec![para(0, 1000, 1000, 0, 5000), para(0, 2200, 1000, 0, 5000)];
    // 20 px down the column are 1500 units, so the base is 2000 - 1500.
    let got = c.vpos_adjust(120.0, 1, &ps, &styles(0.0));
    assert_eq!(c.cursor.vpos_lazy_base, Some(500));
    assert!((got - (100.0 + 1700.0 / 75.0)).abs() < 1e-6, "got={got}");
    assert_eq!(c.anchor, anchored(2200, 500, false));
}

#[test]
fn backward_clamp_rejected() {
    let mut c = cursor(Some(0));
    c.cursor.prev_layout_para = Some(0);
    let ps = vec![para(0, 50, 1000, 0, 5000), para(0, 100, 1000, 0, 5000)];
    assert_eq!(c.vpos_adjust(500.0, 1, &ps, &styles(0.0)), 500.0);
    assert_eq!(c.anchor, anchored(100, 0, true));
}

fn after_first(page_base: Option<i32>) -> HeightCursor {
    let mut c = HeightCursor::new(page_base);
    c.prev_layout_para = Some(0);
    c
}

#[test]
fn end_line_is_the_last_one_with_a_width() {
    let mut first = para(0, 1000, 500, 100, 5000);
    first.line_segs.push(LineSeg {
        vertical_pos: 9000,
        line_height: 1,
        ..Default::default()
    });
    let ps = vec![first, para(7, 0, 0, 0, 0)];
    let got = after_first(Some(40)).vpos_anchor(0, 1, &ps);
    assert_eq!(
        got,
        Some(VposAnchor {
            vpos_end: 1600,
            base: 40,
            is_page_path: true,
            para_shape_id: Some(7),
            has_topbottom_para_table: false,
        })
    );
}

#[test]
fn end_line_without_any_width_is_the_last_one() {
    let mut first = para(0, 1000, 500, 100, 0);
    first.line_segs.push(LineSeg {
        vertical_pos: 2000,
        line_height: 10,
        line_spacing: 5,
        ..Default::default()
    });
    let ps = vec![first];
    let got = after_first(Some(0)).vpos_anchor(0, 3, &ps);
    assert_eq!(
        got,
        Some(VposAnchor {
            vpos_end: 2015,
            base: 0,
            is_page_path: true,
            para_shape_id: None,
            has_topbottom_para_table: false,
        })
    );
}

#[test]
fn no_line_no_anchor() {
    let ps = vec![Paragraph::default(), para(0, 2000, 1000, 0, 5000)];
    let mut c = after_first(None);
    assert_eq!(c.vpos_anchor(0, 1, &ps), None);
    assert_eq!(c, after_first(None));
}

#[test]
fn previous_paragraph_out_of_range_gives_no_anchor() {
    let mut c = HeightCursor::new(Some(0));
    c.prev_layout_para = Some(5);
    let ps = vec![para(0, 1000, 1000, 0, 5000)];
    assert_eq!(c.vpos_anchor(0, 0, &ps), None);
}

#[test]
fn trailing_spacing_counts_behind_a_paragraph_without_text() {
    let ps = vec![para(0, 1000, 1000, 300, 5000), para(0, 2300, 1000, 0, 5000)];
    let mut c = after_first(None);
    let got = c.vpos_anchor(1500, 1, &ps).unwrap();
    assert_eq!(got.base, 500);
    assert_eq!(c.vpos_lazy_base, Some(500));
}

#[test]
fn trailing_spacing_is_left_out_where_text_follows_on() {
    let mut first = para(0, 1000, 1000, 300, 5000);
    first.text = "본문".to_string();
    let ps = vec![first, para(0, 2300, 1000, 0, 5000)];
    let mut c = after_first(None);
    let got = c.vpos_anchor(1500, 1, &ps).unwrap();
    assert_eq!(got.base, 800);
    assert_eq!(c.vpos_lazy_base, Some(800));
}

#[test]
fn text_of_object_marks_alone_shows_nothing() {
    let mut first = para(0, 1000, 1000, 300, 5000);
    first.text = "\u{1f}\u{fffc}".to_string();
    let ps = vec![first, para(0, 2300, 1000, 0, 5000)];
    let mut c = after_first(None);
    assert_eq!(c.vpos_anchor(1500, 1, &ps).unwrap().base, 500);
}

#[test]
fn negative_base_is_not_kept() {
    let ps = vec![para(0, 1000, 1000, 0, 5000), para(0, 2500, 1000, 0, 5000)];
    let mut c = after_first(None);
    let got = c.vpos_anchor(5000, 1, &ps).unwrap();
    assert_eq!((got.vpos_end, got.base), (2500, 2000));
    assert_eq!(c.vpos_lazy_base, None);
}

#[test]
fn trailing_spacing_is_dropped_where_it_makes_the_base_negative() {
    let ps = vec![para(0, 1000, 1000, 300, 5000), para(0, 9000, 1000, 0, 5000)];
    let mut c = after_first(None);
    let got = c.vpos_anchor(2200, 1, &ps).unwrap();
    assert_eq!(got.base, 100);
}

#[test]
fn known_base_is_worked_out_once() {
    let ps = vec![para(0, 1000, 1000, 0, 5000), para(0, 2200, 1000, 0, 5000)];
    let mut c = after_first(None);
    c.vpos_anchor(1500, 1, &ps);
    let kept = c;
    assert_eq!(c.vpos_anchor(1700, 1, &ps).unwrap().base, 500);
    assert_eq!(c, kept);
    assert!(kept.vpos_lazy_base.unwrap() >= 0);
}

#[test]
fn extreme_positions_do_not_overflow() {
    let ps = vec![
        para(0, i32::MAX, i32::MAX, i32::MAX, 1),
        para(0, i32::MIN, 0, 0, 1),
    ];
    let mut c = after_first(None);
    let got = c.vpos_anchor(i32::MIN, 1, &ps).unwrap();
    assert_eq!(got.vpos_end, 3 * i32::MAX as i64);
    assert_eq!(got.base, 3 * i32::MAX as i64 - (i32::MIN as i64 + i32::MAX as i64));
}

fn overlay(text_wrap: TextWrap, treat_as_char: bool) -> CommonObjAttr {
    CommonObjAttr {
        text_wrap,
        treat_as_char,
        ..Default::default()
    }
}

#[test]
fn overlays_bypass_positions() {
    for wrap in [
        TextWrap::InFrontOfText,
        TextWrap::BehindText,
        TextWrap::TopAndBottom,
    ] {
        let mut first = para(0, 1000, 1000, 0, 5000);
        first
            .controls
            .push(Control::Shape(Box::new(ShapeObject::Rectangle(
                RectangleShape {
                    common: overlay(wrap, false),
                    ..Default::default()
                },
            ))));
        assert!(para_has_overlay_shape(&first));
        let ps = vec![first, para(0, 2000, 1000, 0, 5000)];
        assert_eq!(after_first(Some(0)).vpos_anchor(0, 1, &ps), None);
    }
}

#[test]
fn pictures_placed_like_characters_are_no_overlays() {
    let mut first = para(0, 1000, 1000, 0, 5000);
    first.controls.push(Control::Picture(Box::new(Picture {
        common: overlay(TextWrap::TopAndBottom, true),
        ..Default::default()
    })));
    first.controls.push(Control::Picture(Box::new(Picture {
        common: overlay(TextWrap::Square, false),
        ..Default::default()
    })));
    assert!(!para_has_overlay_shape(&first));
    first.controls.push(Control::Picture(Box::new(Picture {
        common: overlay(TextWrap::BehindText, false),
        ..Default::default()
    })));
    assert!(para_has_overlay_shape(&first));
}

#[test]
fn table_hosts_are_told_apart() {
    let host = |vert_rel_to: VertRelTo, treat_as_char: bool| {
        let mut p = para(0, 2000, 1000, 0, 5000);
        p.controls.push(Control::Table(Box::new(Table {
            common: CommonObjAttr {
                vert_rel_to,
                ..overlay(TextWrap::TopAndBottom, treat_as_char)
            },
            ..Default::default()
        })));
        let ps = vec![para(0, 1000, 1000, 0, 5000), p];
        after_first(Some(0))
            .vpos_anchor(0, 1, &ps)
            .unwrap()
            .has_topbottom_para_table
    };
    assert!(host(VertRelTo::Para, false));
    assert!(!host(VertRelTo::Page, false));
    assert!(!host(VertRelTo::Para, true));
}
