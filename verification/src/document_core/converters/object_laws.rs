//! What holds of the header records of placed objects: each field has its own bits and its own
//! bytes.

use super::common_obj_attr_writer::{
    common_record, flag_code, height_code, horz_align_code, horz_rel_code,
    law_fields_keep_their_bits, numbering_code, packed_attr, vert_align_code, vert_rel_code,
    width_code, wrap_code, written_attr,
};
use super::normal_form::normal_equation;
use crate::bytes::{counted_len, counted_text, law_number_from_bytes, le16, number32, utf16};
use crate::model::control::EquationView;
use crate::model::shape::{
    CommonObjAttrView, HeightCriterion, HorzAlign, HorzRelTo, NumberingCategory, TextWrap,
    VertAlign, VertRelTo, WidthCriterion,
};
use vstd::prelude::*;

verus! {

/// The number that two bytes stand for.
pub open spec fn number16(a: u8, b: u8) -> u16 {
    (a as u16) | ((b as u16) << 8)
}

/// A number is what its two bytes stand for.
pub proof fn law_number16_from_bytes(x: u16)
    ensures
        number16(le16(x)[0], le16(x)[1]) == x,
{
    let a = (x & 0xff) as u8;
    let b = ((x >> 8) & 0xff) as u8;
    assert((a as u16) | ((b as u16) << 8) == x) by (bit_vector)
        requires
            a == (x & 0xff) as u8,
            b == ((x >> 8) & 0xff) as u8,
    ;
}

/// The numbers that stand for the choices of the fields in the attribute word.
pub proof fn law_attr_numbers(c: CommonObjAttrView)
    ensures
        ({
            let a = packed_attr(c);
            &&& a & 1 == if c.treat_as_char {
                1u32
            } else {
                0
            }
            &&& (a >> 3) & 3 == match c.vert_rel_to {
                VertRelTo::Paper => 0u32,
                VertRelTo::Page => 1,
                VertRelTo::Para => 2,
            }
            &&& (a >> 5) & 7 == match c.vert_align {
                VertAlign::Top => 0u32,
                VertAlign::Center => 1,
                VertAlign::Bottom => 2,
                VertAlign::Inside => 3,
                VertAlign::Outside => 4,
            }
            &&& (a >> 8) & 3 == match c.horz_rel_to {
                HorzRelTo::Paper => 0u32,
                HorzRelTo::Page => 1,
                HorzRelTo::Column => 2,
                HorzRelTo::Para => 3,
            }
            &&& (a >> 10) & 7 == match c.horz_align {
                HorzAlign::Left => 0u32,
                HorzAlign::Center => 1,
                HorzAlign::Right => 2,
                HorzAlign::Inside => 3,
                HorzAlign::Outside => 4,
            }
            &&& (a >> 13) & 1 == if c.flow_with_text {
                1u32
            } else {
                0
            }
            &&& (a >> 14) & 1 == if c.allow_overlap {
                1u32
            } else {
                0
            }
            &&& (a >> 15) & 7 == match c.width_criterion {
                WidthCriterion::Paper => 0u32,
                WidthCriterion::Page => 1,
                WidthCriterion::Column => 2,
                WidthCriterion::Para => 3,
                WidthCriterion::Absolute => 4,
            }
            &&& (a >> 18) & 3 == match c.height_criterion {
                HeightCriterion::Paper => 0u32,
                HeightCriterion::Page => 1,
                HeightCriterion::Absolute => 2,
            }
            &&& (a >> 21) & 7 == match c.text_wrap {
                TextWrap::Square => 0u32,
                TextWrap::TopAndBottom => 1,
                TextWrap::BehindText => 2,
                TextWrap::InFrontOfText => 3,
            }
            &&& (a >> 26) & 7 == match c.numbering {
                NumberingCategory::Unnumbered => 0u32,
                NumberingCategory::Figure => 1,
                NumberingCategory::Table => 2,
                NumberingCategory::Equation => 3,
            }
        }),
{
    law_fields_keep_their_bits(c);
}

/// No bit of the attribute word is set that belongs to no field.
pub proof fn law_no_other_bits(c: CommonObjAttrView)
    ensures
        packed_attr(c) & 0xe310_0006 == 0,
{
    let t = flag_code(c.treat_as_char);
    let vr = vert_rel_code(c.vert_rel_to);
    let va = vert_align_code(c.vert_align);
    let hr = horz_rel_code(c.horz_rel_to);
    let ha = horz_align_code(c.horz_align);
    let f = flag_code(c.flow_with_text);
    let o = flag_code(c.allow_overlap);
    let w = width_code(c.width_criterion);
    let h = height_code(c.height_criterion);
    let x = wrap_code(c.text_wrap);
    let n = numbering_code(c.numbering);
    let p = packed_attr(c);
    assert(p == t | (vr << 3) | (va << 5) | (hr << 8) | (ha << 10) | (f << 13) | (o << 14) | (w
        << 15) | (h << 18) | (x << 21) | (n << 26));
    assert(p & 0xe310_0006 == 0) by (bit_vector)
        requires
            p == t | (vr << 3) | (va << 5) | (hr << 8) | (ha << 10) | (f << 13) | (o << 14) | (w
                << 15) | (h << 18) | (x << 21) | (n << 26),
            t <= 1,
            vr <= 2,
            va <= 4,
            hr <= 3,
            ha <= 4,
            f <= 1,
            o <= 1,
            w <= 4,
            h <= 2,
            x <= 3,
            n <= 3,
    ;
}

/// Each field of a placed object can be read back from its own place in the header record: the
/// attribute word, the offsets, the size, the order, the four margins, the instance number, the
/// mark that keeps it on its page, and the length of the description, which follows.
pub proof fn law_header_record(c: CommonObjAttrView)
    ensures
        ({
            let r = common_record(c);
            &&& r.len() == 42 + 2 * counted_len(utf16(c.description))
            &&& number32(r[0], r[1], r[2], r[3]) == if c.attr != 0 {
                c.attr
            } else {
                packed_attr(c)
            }
            &&& number32(r[4], r[5], r[6], r[7]) == c.vertical_offset
            &&& number32(r[8], r[9], r[10], r[11]) == c.horizontal_offset
            &&& number32(r[12], r[13], r[14], r[15]) == c.width
            &&& number32(r[16], r[17], r[18], r[19]) == c.height
            &&& number32(r[20], r[21], r[22], r[23]) == c.z_order as u32
            &&& number16(r[24], r[25]) == c.margin.left as u16
            &&& number16(r[26], r[27]) == c.margin.right as u16
            &&& number16(r[28], r[29]) == c.margin.top as u16
            &&& number16(r[30], r[31]) == c.margin.bottom as u16
            &&& number32(r[32], r[33], r[34], r[35]) == c.instance_id
            &&& number32(r[36], r[37], r[38], r[39]) == c.prevent_page_break as u32
            &&& number16(r[40], r[41]) == counted_len(utf16(c.description)) as u16
        }),
{
    law_number_from_bytes(written_attr(c));
    law_number_from_bytes(c.vertical_offset);
    law_number_from_bytes(c.horizontal_offset);
    law_number_from_bytes(c.width);
    law_number_from_bytes(c.height);
    law_number_from_bytes(c.z_order as u32);
    law_number_from_bytes(c.instance_id);
    law_number_from_bytes(c.prevent_page_break as u32);
    law_number16_from_bytes(c.margin.left as u16);
    law_number16_from_bytes(c.margin.right as u16);
    law_number16_from_bytes(c.margin.top as u16);
    law_number16_from_bytes(c.margin.bottom as u16);
    let n = counted_len(utf16(c.description));
    law_number16_from_bytes(n as u16);
    let r = common_record(c);
    let text = counted_text(c.description);
    crate::bytes::lemma_units_len(utf16(c.description).take(n as int));
    assert(text.len() == 2 + 2 * n);
    assert(text[0] == le16(n as u16)[0] && text[1] == le16(n as u16)[1]);
    assert(r[40] == text[0] && r[41] == text[1]);
}

/// The header of an equation holds the packed fields and the mark of numbered objects; it is
/// written anew, and nothing else of the equation is changed.
pub proof fn law_equation_header(e: EquationView)
    ensures
        ({
            let f = normal_equation(e);
            &&& f.common.attr & 0x0800_0000 == 0x0800_0000
            &&& f.common.attr & 0xf7ff_ffff == packed_attr(e.common) & 0xf7ff_ffff
            &&& f.raw_ctrl_data.len() == 0
            &&& f == (EquationView {
                common: (CommonObjAttrView { attr: f.common.attr, ..e.common }),
                raw_ctrl_data: f.raw_ctrl_data,
                ..e
            })
        }),
{
    let bits = packed_attr(e.common);
    assert((bits | 0x0800_0000) & 0x0800_0000 == 0x0800_0000 && (bits | 0x0800_0000) & 0xf7ff_ffff
        == bits & 0xf7ff_ffff) by (bit_vector);
}

} // verus!
