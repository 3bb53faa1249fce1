//! The header record of placed objects: its attribute word and its bytes.

use crate::bytes::{
    counted_text, law_number_from_bytes, le16, le32, number32, push_counted_text, push_u16,
    push_u32,
};
use crate::model::shape::{
    CommonObjAttr, CommonObjAttrView, HeightCriterion, HorzAlign, HorzRelTo, NumberingCategory,
    TextWrap, VertAlign, VertRelTo, WidthCriterion,
};
use vstd::prelude::*;

verus! {

/// One for true, zero for false.
pub open spec fn flag_code(b: bool) -> u32 {
    if b {
        1
    } else {
        0
    }
}

pub open spec fn vert_rel_code(v: VertRelTo) -> u32 {
    match v {
        VertRelTo::Paper => 0,
        VertRelTo::Page => 1,
        VertRelTo::Para => 2,
    }
}

pub open spec fn vert_align_code(v: VertAlign) -> u32 {
    match v {
        VertAlign::Top => 0,
        VertAlign::Center => 1,
        VertAlign::Bottom => 2,
        VertAlign::Inside => 3,
        VertAlign::Outside => 4,
    }
}

pub open spec fn horz_rel_code(h: HorzRelTo) -> u32 {
    match h {
        HorzRelTo::Paper => 0,
        HorzRelTo::Page => 1,
        HorzRelTo::Column => 2,
        HorzRelTo::Para => 3,
    }
}

pub open spec fn horz_align_code(h: HorzAlign) -> u32 {
    match h {
        HorzAlign::Left => 0,
        HorzAlign::Center => 1,
        HorzAlign::Right => 2,
        HorzAlign::Inside => 3,
        HorzAlign::Outside => 4,
    }
}

pub open spec fn width_code(w: WidthCriterion) -> u32 {
    match w {
        WidthCriterion::Paper => 0,
        WidthCriterion::Page => 1,
        WidthCriterion::Column => 2,
        WidthCriterion::Para => 3,
        WidthCriterion::Absolute => 4,
    }
}

pub open spec fn height_code(h: HeightCriterion) -> u32 {
    match h {
        HeightCriterion::Paper => 0,
        HeightCriterion::Page => 1,
        HeightCriterion::Absolute => 2,
    }
}

pub open spec fn wrap_code(w: TextWrap) -> u32 {
    match w {
        TextWrap::Square => 0,
        TextWrap::TopAndBottom => 1,
        TextWrap::BehindText => 2,
        TextWrap::InFrontOfText => 3,
    }
}

pub open spec fn numbering_code(n: NumberingCategory) -> u32 {
    match n {
        NumberingCategory::Unnumbered => 0,
        NumberingCategory::Figure => 1,
        NumberingCategory::Table => 2,
        NumberingCategory::Equation => 3,
    }
}

/// The attribute word, each field in its own bits.
pub open spec fn packed_attr(c: CommonObjAttrView) -> u32 {
    flag_code(c.treat_as_char) | (vert_rel_code(c.vert_rel_to) << 3) | (vert_align_code(
        c.vert_align,
    ) << 5) | (horz_rel_code(c.horz_rel_to) << 8) | (horz_align_code(c.horz_align) << 10) | (
    flag_code(c.flow_with_text) << 13) | (flag_code(c.allow_overlap) << 14) | (width_code(
        c.width_criterion,
    ) << 15) | (height_code(c.height_criterion) << 18) | (wrap_code(c.text_wrap) << 21) | (
    numbering_code(c.numbering) << 26)
}

/// The attribute word that is written: the one kept, or the packed one where none is kept.
pub open spec fn written_attr(c: CommonObjAttrView) -> u32 {
    if c.attr != 0 {
        c.attr
    } else {
        packed_attr(c)
    }
}

/// The bytes of the header record.
pub open spec fn common_record(c: CommonObjAttrView) -> Seq<u8> {
    le32(written_attr(c)) + le32(c.vertical_offset) + le32(c.horizontal_offset) + le32(c.width)
        + le32(c.height) + le32(c.z_order as u32) + le16(c.margin.left as u16) + le16(
        c.margin.right as u16,
    ) + le16(c.margin.top as u16) + le16(c.margin.bottom as u16) + le32(c.instance_id) + le32(
        c.prevent_page_break as u32,
    ) + counted_text(c.description)
}

fn flag(b: bool) -> (r: u32)
    ensures
        r == flag_code(b),
{
    if b {
        1
    } else {
        0
    }
}

fn vert_rel(v: VertRelTo) -> (r: u32)
    ensures
        r == vert_rel_code(v),
{
    match v {
        VertRelTo::Paper => 0,
        VertRelTo::Page => 1,
        VertRelTo::Para => 2,
    }
}

fn vert_align(v: VertAlign) -> (r: u32)
    ensures
        r == vert_align_code(v),
{
    match v {
        VertAlign::Top => 0,
        VertAlign::Center => 1,
        VertAlign::Bottom => 2,
        VertAlign::Inside => 3,
        VertAlign::Outside => 4,
    }
}

fn horz_rel(h: HorzRelTo) -> (r: u32)
    ensures
        r == horz_rel_code(h),
{
    match h {
        HorzRelTo::Paper => 0,
        HorzRelTo::Page => 1,
        HorzRelTo::Column => 2,
        HorzRelTo::Para => 3,
    }
}

fn horz_align(h: HorzAlign) -> (r: u32)
    ensures
        r == horz_align_code(h),
{
    match h {
        HorzAlign::Left => 0,
        HorzAlign::Center => 1,
        HorzAlign::Right => 2,
        HorzAlign::Inside => 3,
        HorzAlign::Outside => 4,
    }
}

fn width_number(w: WidthCriterion) -> (r: u32)
    ensures
        r == width_code(w),
{
    match w {
        WidthCriterion::Paper => 0,
        WidthCriterion::Page => 1,
        WidthCriterion::Column => 2,
        WidthCriterion::Para => 3,
        WidthCriterion::Absolute => 4,
    }
}

fn height_number(h: HeightCriterion) -> (r: u32)
    ensures
        r == height_code(h),
{
    match h {
        HeightCriterion::Paper => 0,
        HeightCriterion::Page => 1,
        HeightCriterion::Absolute => 2,
    }
}

fn wrap_number(w: TextWrap) -> (r: u32)
    ensures
        r == wrap_code(w),
{
    match w {
        TextWrap::Square => 0,
        TextWrap::TopAndBottom => 1,
        TextWrap::BehindText => 2,
        TextWrap::InFrontOfText => 3,
    }
}

fn numbering_number(n: NumberingCategory) -> (r: u32)
    ensures
        r == numbering_code(n),
{
    match n {
        NumberingCategory::Unnumbered => 0,
        NumberingCategory::Figure => 1,
        NumberingCategory::Table => 2,
        NumberingCategory::Equation => 3,
    }
}

/// Packs the attribute word from the fields that it stands for.
pub fn pack_common_attr_bits(common: &CommonObjAttr) -> (r: u32)
    ensures
        r == packed_attr(common@),
{
    flag(common.treat_as_char) | (vert_rel(common.vert_rel_to) << 3) | (vert_align(
        common.vert_align,
    ) << 5) | (horz_rel(common.horz_rel_to) << 8) | (horz_align(common.horz_align) << 10) | (flag(
        common.flow_with_text,
    ) << 13) | (flag(common.allow_overlap) << 14) | (width_number(common.width_criterion) << 15) | (
    height_number(common.height_criterion) << 18) | (wrap_number(common.text_wrap) << 21) | (
    numbering_number(common.numbering) << 26)
}

/// Writes the header record.
pub fn serialize_common_obj_attr(common: &CommonObjAttr) -> (r: Vec<u8>)
    ensures
        r@ == common_record(common@),
{
    let mut out: Vec<u8> = Vec::new();
    let attr: u32 = if common.attr != 0 {
        common.attr
    } else {
        pack_common_attr_bits(common)
    };
    push_u32(&mut out, attr);
    push_u32(&mut out, common.vertical_offset);
    push_u32(&mut out, common.horizontal_offset);
    push_u32(&mut out, common.width);
    push_u32(&mut out, common.height);
    push_u32(&mut out, common.z_order as u32);
    push_u16(&mut out, common.margin.left as u16);
    push_u16(&mut out, common.margin.right as u16);
    push_u16(&mut out, common.margin.top as u16);
    push_u16(&mut out, common.margin.bottom as u16);
    push_u32(&mut out, common.instance_id);
    push_u32(&mut out, common.prevent_page_break as u32);
    push_counted_text(&mut out, common.description.as_str());
    assert(out@ =~= common_record(common@));
    out
}

/// The first four bytes of the header record are its attribute word.
pub proof fn law_record_starts_with_attr(c: CommonObjAttrView)
    ensures
        common_record(c).len() >= 4,
        number32(
            common_record(c)[0],
            common_record(c)[1],
            common_record(c)[2],
            common_record(c)[3],
        ) == written_attr(c),
{
    let head = le32(written_attr(c));
    let tail = le32(c.vertical_offset) + le32(c.horizontal_offset) + le32(c.width) + le32(
        c.height,
    ) + le32(c.z_order as u32) + le16(c.margin.left as u16) + le16(c.margin.right as u16) + le16(
        c.margin.top as u16,
    ) + le16(c.margin.bottom as u16) + le32(c.instance_id) + le32(c.prevent_page_break as u32)
        + counted_text(c.description);
    assert(common_record(c) =~= head + tail);
    law_number_from_bytes(written_attr(c));
}

/// Each field can be read back from its own bits of the attribute word.
pub proof fn law_fields_keep_their_bits(c: CommonObjAttrView)
    ensures
        packed_attr(c) & 1 == flag_code(c.treat_as_char),
        (packed_attr(c) >> 3) & 3 == vert_rel_code(c.vert_rel_to),
        (packed_attr(c) >> 5) & 7 == vert_align_code(c.vert_align),
        (packed_attr(c) >> 8) & 3 == horz_rel_code(c.horz_rel_to),
        (packed_attr(c) >> 10) & 7 == horz_align_code(c.horz_align),
        (packed_attr(c) >> 13) & 1 == flag_code(c.flow_with_text),
        (packed_attr(c) >> 14) & 1 == flag_code(c.allow_overlap),
        (packed_attr(c) >> 15) & 7 == width_code(c.width_criterion),
        (packed_attr(c) >> 18) & 3 == height_code(c.height_criterion),
        (packed_attr(c) >> 21) & 7 == wrap_code(c.text_wrap),
        (packed_attr(c) >> 26) & 7 == numbering_code(c.numbering),
{
    let t = flag_code(c.treat_as_char);
    let vr = vert_rel_code(c.vert_rel_to);
    let va = vert_align_code(c.vert_align);
    let hr = horz_rel_code(c.horz_rel_to);
    let ha = horz_align_code(c.horz_align);
    let f = flag_code(c.flow_with_text);
    let o = flag_code(c.allow_overlap);
    let w = width_code(c.width_criterion);
    let h = height_code(c.height_criterion);
    let x = wrap_code(c.text_wrap);
    let n = numbering_code(c.numbering);
    let p = packed_attr(c);
    assert(p == t | (vr << 3) | (va << 5) | (hr << 8) | (ha << 10) | (f << 13) | (o << 14) | (w
        << 15) | (h << 18) | (x << 21) | (n << 26));
    assert(p & 1 == t && (p >> 3) & 3 == vr && (p >> 5) & 7 == va && (p >> 8) & 3 == hr && (p
        >> 10) & 7 == ha && (p >> 13) & 1 == f && (p >> 14) & 1 == o && (p >> 15) & 7 == w && (p
        >> 18) & 3 == h && (p >> 21) & 7 == x && (p >> 26) & 7 == n) by (bit_vector)
        requires
            p == t | (vr << 3) | (va << 5) | (hr << 8) | (ha << 10) | (f << 13) | (o << 14) | (w
                << 15) | (h << 18) | (x << 21) | (n << 26),
            t <= 1,
            vr <= 2,
            va <= 4,
            hr <= 3,
            ha <= 4,
            f <= 1,
            o <= 1,
            w <= 4,
            h <= 2,
            x <= 3,
            n <= 3,
    ;
}

} // verus!
