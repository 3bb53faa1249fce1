//! The height cursor: where the next paragraph of a column starts, by the vertical positions
//! that its lines were laid out with.
//!
//! A column keeps a vertical position as its base. The distance of a line from the base tells
//! how far down the column the line stands. The base is known from the first item of the page,
//! or it is worked out later from the place that the column has come to.

use crate::model::control::{Control, ControlView};
use crate::model::paragraph::{paragraph_view, paragraph_views, LineSeg, Paragraph, ParagraphView};
use crate::model::shape::{
    CommonObjAttr, CommonObjAttrView, ShapeObject, ShapeView, TextWrap, VertRelTo,
};
use crate::text::chars_of;
use vstd::prelude::*;

verus! {

/// The state of a column between two items. Sums of positions are kept in 64 bits, which no sum
/// of three 32-bit numbers leaves.
#[derive(Debug, Clone, Copy, PartialEq, Eq)]
pub struct HeightCursor {
    /// The base of the page, where the first item has a position that can be relied on.
    pub vpos_page_base: Option<i32>,
    /// The base that was worked out later.
    pub vpos_lazy_base: Option<i64>,
    /// The paragraph that was placed last.
    pub prev_layout_para: Option<usize>,
    /// Whether the last item was a part of a table.
    pub prev_item_was_partial_table: bool,
}

/// What a place is worked out from.
#[derive(Debug, Clone, Copy, PartialEq, Eq)]
pub struct VposAnchor {
    /// The vertical position where the next paragraph starts.
    pub vpos_end: i64,
    /// The base that the position counts from.
    pub base: i64,
    /// Whether the base is the one of the page.
    pub is_page_path: bool,
    /// The shape of the next paragraph, if there is one.
    pub para_shape_id: Option<u16>,
    /// Whether the next paragraph holds a table that stands between lines of text, placed by
    /// the paragraph.
    pub has_topbottom_para_table: bool,
}

/// Whether an object stands over text, or keeps text off its sides.
pub open spec fn is_overlay(c: CommonObjAttrView) -> bool {
    !c.treat_as_char && (c.text_wrap == TextWrap::InFrontOfText || c.text_wrap
        == TextWrap::BehindText || c.text_wrap == TextWrap::TopAndBottom)
}

/// What a drawn object has in common with all placed objects.
pub open spec fn shape_common(s: ShapeView) -> CommonObjAttrView {
    match s {
        ShapeView::Drawn { kind, common, drawing } => common,
        ShapeView::Group { common, children } => common,
        ShapeView::Picture(p) => p.common,
    }
}

/// Whether a control is a drawn object or a picture that stands over text.
pub open spec fn control_overlays(x: ControlView) -> bool {
    match x {
        ControlView::Shape(s) => is_overlay(shape_common(s)),
        ControlView::Picture(p) => is_overlay(p.common),
        _ => false,
    }
}

/// Whether a paragraph holds a drawn object or a picture that stands over text: the positions
/// of its lines then count the height of the object.
pub open spec fn has_overlay_shape(p: ParagraphView) -> bool {
    exists|i: int| 0 <= i < p.controls.len() && control_overlays(#[trigger] p.controls[i])
}

/// Whether a control is a table that stands between lines of text, placed by the paragraph.
pub open spec fn is_topbottom_para_table(x: ControlView) -> bool {
    match x {
        ControlView::Table(t) => !t.common.treat_as_char && t.common.text_wrap
            == TextWrap::TopAndBottom && t.common.vert_rel_to == VertRelTo::Para,
        _ => false,
    }
}

/// Whether a paragraph holds such a table.
pub open spec fn has_topbottom_para_table(p: ParagraphView) -> bool {
    exists|i: int| 0 <= i < p.controls.len() && is_topbottom_para_table(#[trigger] p.controls[i])
}

/// The last of the first `n` lines that has a width.
pub open spec fn last_wide(segs: Seq<LineSeg>, n: nat) -> Option<LineSeg>
    decreases n,
{
    if n == 0 || n > segs.len() {
        None
    } else if segs[n - 1].segment_width > 0 {
        Some(segs[n - 1])
    } else {
        last_wide(segs, (n - 1) as nat)
    }
}

/// The line that tells where a paragraph ends: the last one with a width, or the last one.
pub open spec fn end_line(segs: Seq<LineSeg>) -> Option<LineSeg> {
    if segs.len() == 0 {
        None
    } else if last_wide(segs, segs.len()) is Some {
        last_wide(segs, segs.len())
    } else {
        Some(segs.last())
    }
}

/// The line that the next paragraph follows on, if its position can be relied on. It cannot
/// where there is no paragraph before, where the item belongs to that paragraph, where that
/// paragraph holds an overlay or the last item was a part of a table, where it has no line, and
/// where its last line starts anew at the top.
pub open spec fn followed_line(
    c: HeightCursor,
    item_para: nat,
    paras: Seq<ParagraphView>,
) -> Option<LineSeg> {
    match c.prev_layout_para {
        Some(prev) => if item_para == prev || prev >= paras.len() || has_overlay_shape(
            paras[prev as int],
        ) || c.prev_item_was_partial_table {
            None
        } else {
            match end_line(paras[prev as int].line_segs) {
                Some(seg) => if seg.vertical_pos == 0 && prev > 0 {
                    None
                } else {
                    Some(seg)
                },
                None => None,
            }
        },
        None => None,
    }
}

/// The position below a line.
pub open spec fn below(seg: LineSeg) -> int {
    seg.vertical_pos + seg.line_height + seg.line_spacing
}

/// The position of the first line of a paragraph.
pub open spec fn first_vpos(paras: Seq<ParagraphView>, i: nat) -> Option<i32> {
    if i < paras.len() && paras[i as int].line_segs.len() > 0 {
        Some(paras[i as int].line_segs[0].vertical_pos)
    } else {
        None
    }
}

/// Whether a text shows anything: it holds more than control characters and object marks.
pub open spec fn shows_text(s: Seq<char>) -> bool {
    exists|i: int| 0 <= i < s.len() && #[trigger] s[i] > '\u{1f}' && s[i] != '\u{fffc}'
}

/// The line spacing below the last line of a paragraph, as far as the place in the column does
/// not yet hold it: none where the next paragraph follows on and the paragraph shows text.
pub open spec fn trailing_spacing(
    p: ParagraphView,
    next_vpos: Option<i32>,
    end: int,
) -> int {
    if next_vpos is Some && next_vpos->0 <= end && shows_text(p.text) {
        0
    } else if p.line_segs.len() > 0 && p.line_segs.last().line_spacing > 0 {
        p.line_segs.last().line_spacing as int
    } else {
        0
    }
}

/// The base that follows from a position and the distance that the column has come, with the
/// trailing spacing unless that makes it negative.
pub open spec fn worked_out_base(end: int, y_delta: int, trailing: int) -> int {
    if end - (y_delta + trailing) >= 0 {
        end - (y_delta + trailing)
    } else {
        end - y_delta
    }
}

/// The base that would be worked out behind a line.
pub open spec fn base_behind(
    c: HeightCursor,
    item_para: nat,
    paras: Seq<ParagraphView>,
    y_delta: int,
    seg: LineSeg,
) -> int {
    worked_out_base(
        below(seg),
        y_delta,
        trailing_spacing(
            paras[c.prev_layout_para->0 as int],
            first_vpos(paras, item_para),
            below(seg),
        ),
    )
}

/// Whether a base is worked out: a line is followed, and neither base is known.
pub open spec fn works_out_base(
    c: HeightCursor,
    item_para: nat,
    paras: Seq<ParagraphView>,
) -> bool {
    &&& followed_line(c, item_para, paras) is Some
    &&& c.vpos_page_base is None
    &&& c.vpos_lazy_base is None
}

/// The cursor after an item: a base that was worked out is kept, unless it is negative.
pub open spec fn next_cursor(
    c: HeightCursor,
    item_para: nat,
    paras: Seq<ParagraphView>,
    y_delta: int,
) -> HeightCursor {
    if works_out_base(c, item_para, paras) {
        let base = base_behind(
            c,
            item_para,
            paras,
            y_delta,
            followed_line(c, item_para, paras)->0,
        );
        if base >= 0 {
            HeightCursor { vpos_lazy_base: Some(base as i64), ..c }
        } else {
            c
        }
    } else {
        c
    }
}

/// The base that positions count from: the one of the page, the one worked out, or the position
/// itself where the base would be negative.
pub open spec fn used_base(
    c: HeightCursor,
    item_para: nat,
    paras: Seq<ParagraphView>,
    y_delta: int,
    seg: LineSeg,
) -> int {
    if c.vpos_page_base is Some {
        c.vpos_page_base->0 as int
    } else if c.vpos_lazy_base is Some {
        c.vpos_lazy_base->0 as int
    } else if base_behind(c, item_para, paras, y_delta, seg) >= 0 {
        base_behind(c, item_para, paras, y_delta, seg)
    } else {
        below(seg)
    }
}

/// What the place of an item is worked out from; nothing where no line is followed.
pub open spec fn anchor_of(
    c: HeightCursor,
    item_para: nat,
    paras: Seq<ParagraphView>,
    y_delta: int,
) -> Option<VposAnchor> {
    match followed_line(c, item_para, paras) {
        Some(seg) => {
            let first = first_vpos(paras, item_para);
            Some(
                VposAnchor {
                    vpos_end: if first is Some && first->0 > seg.vertical_pos {
                        first->0 as i64
                    } else {
                        below(seg) as i64
                    },
                    base: used_base(c, item_para, paras, y_delta, seg) as i64,
                    is_page_path: c.vpos_page_base is Some,
                    para_shape_id: if item_para < paras.len() {
                        Some(paras[item_para as int].para_shape_id)
                    } else {
                        None
                    },
                    has_topbottom_para_table: item_para < paras.len() && has_topbottom_para_table(
                        paras[item_para as int],
                    ),
                },
            )
        },
        None => None,
    }
}

fn common_overlays(c: &CommonObjAttr) -> (r: bool)
    ensures
        r == is_overlay(c@),
{
    !c.treat_as_char && (c.text_wrap == TextWrap::InFrontOfText || c.text_wrap
        == TextWrap::BehindText || c.text_wrap == TextWrap::TopAndBottom)
}

fn control_is_overlay(x: &Control) -> (r: bool)
    ensures
        r == control_overlays(x@),
{
    match x {
        Control::Shape(s) => {
            match &**s {
                ShapeObject::Line(d) => common_overlays(&d.common),
                ShapeObject::Rectangle(d) => common_overlays(&d.common),
                ShapeObject::Ellipse(d) => common_overlays(&d.common),
                ShapeObject::Arc(d) => common_overlays(&d.common),
                ShapeObject::Polygon(d) => common_overlays(&d.common),
                ShapeObject::Curve(d) => common_overlays(&d.common),
                ShapeObject::Group(g) => common_overlays(&g.common),
                ShapeObject::Picture(p) => common_overlays(&p.common),
            }
        },
        Control::Picture(p) => common_overlays(&p.common),
        _ => false,
    }
}

/// Whether a paragraph holds a drawn object or a picture that stands over text.
pub fn para_has_overlay_shape(para: &Paragraph) -> (r: bool)
    ensures
        r == has_overlay_shape(para@),
{
    let ghost shown = para@.controls;
    for i in 0..para.controls.len()
        invariant
            shown == para@.controls,
            forall|j: int| 0 <= j < i ==> !control_overlays(#[trigger] shown[j]),
    {
        assert(shown[i as int] == para.controls@[i as int]@);
        if control_is_overlay(&para.controls[i]) {
            return true;
        }
    }
    false
}

/// Whether a paragraph holds a table that stands between lines of text, placed by it.
fn para_has_topbottom_table(para: &Paragraph) -> (r: bool)
    ensures
        r == has_topbottom_para_table(para@),
{
    let ghost shown = para@.controls;
    for i in 0..para.controls.len()
        invariant
            shown == para@.controls,
            forall|j: int| 0 <= j < i ==> !is_topbottom_para_table(#[trigger] shown[j]),
    {
        assert(shown[i as int] == para.controls@[i as int]@);
        if let Control::Table(t) = &para.controls[i] {
            if !t.common.treat_as_char && t.common.text_wrap == TextWrap::TopAndBottom
                && t.common.vert_rel_to == VertRelTo::Para {
                return true;
            }
        }
    }
    false
}

/// The line that a paragraph ends with: the last one with a width, or else the last one.
pub fn find_end_line(segs: &Vec<LineSeg>) -> (r: Option<LineSeg>)
    ensures
        r == end_line(segs@),
        r is None <==> segs@.len() == 0,
        forall|i: int|
            #![trigger segs@[i]]
            0 <= i < segs@.len() && ends_at(segs@, i) ==> r == Some(segs@[i]),
{
    proof {
        if segs@.len() > 0 {
            law_end_line_is_the_last_wide_one(segs@);
        }
    }
    let count: usize = segs.len();
    if count == 0 {
        return None;
    }
    let mut n: usize = count;
    while n > 0
        invariant
            n <= count,
            count == segs.len(),
            last_wide(segs@, segs@.len()) == last_wide(segs@, n as nat),
        decreases n,
    {
        if segs[n - 1].segment_width > 0 {
            proof {
                law_end_line_is_the_last_wide_one(segs@);
            }
            return Some(segs[n - 1]);
        }
        n = n - 1;
    }
    Some(segs[count - 1])
}

fn text_shows(s: &str) -> (r: bool)
    ensures
        r == shows_text(s@),
{
    let chars = chars_of(s);
    for i in 0..chars.len()
        invariant
            chars@ == s@,
            forall|j: int|
                0 <= j < i ==> !(#[trigger] chars@[j] > '\u{1f}' && chars@[j] != '\u{fffc}'),
    {
        if chars[i] > '\u{1f}' && chars[i] != '\u{fffc}' {
            assert(s@[i as int] == chars@[i as int]);
            return true;
        }
    }
    false
}

impl HeightCursor {
    /// A cursor at the top of a column.
    pub fn new(vpos_page_base: Option<i32>) -> (r: HeightCursor)
        ensures
            r == (HeightCursor {
                vpos_page_base,
                vpos_lazy_base: None,
                prev_layout_para: None,
                prev_item_was_partial_table: false,
            }),
    {
        HeightCursor {
            vpos_page_base,
            vpos_lazy_base: None,
            prev_layout_para: None,
            prev_item_was_partial_table: false,
        }
    }

    /// What the place of the next item is worked out from, after the column has come down by
    /// `y_delta_hu`; nothing where the item stays at the place that the column has come to.
    pub fn vpos_anchor(
        &mut self,
        y_delta_hu: i32,
        item_para: usize,
        paragraphs: &[Paragraph],
    ) -> (r: Option<VposAnchor>)
        ensures
            r == anchor_of(
                *old(self),
                item_para as nat,
                paragraph_views(paragraphs@),
                y_delta_hu as int,
            ),
            *final(self) == next_cursor(
                *old(self),
                item_para as nat,
                paragraph_views(paragraphs@),
                y_delta_hu as int,
            ),
    {
        let ghost paras = paragraph_views(paragraphs@);
        let prev: usize = match self.prev_layout_para {
            Some(prev) => prev,
            None => {
                return None;
            },
        };
        if item_para == prev || prev >= paragraphs.len() {
            return None;
        }
        assert(paras[prev as int] == paragraph_view(paragraphs@[prev as int]));
        if para_has_overlay_shape(&paragraphs[prev]) || self.prev_item_was_partial_table {
            return None;
        }
        let seg = match find_end_line(&paragraphs[prev].line_segs) {
            Some(seg) => seg,
            None => {
                return None;
            },
        };
        if seg.vertical_pos == 0 && prev > 0 {
            return None;
        }
        let end: i64 = seg.vertical_pos as i64 + seg.line_height as i64 + seg.line_spacing as i64;
        let mut first: Option<i32> = None;
        let mut para_shape_id: Option<u16> = None;
        let mut has_table = false;
        if item_para < paragraphs.len() {
            assert(paras[item_para as int] == paragraph_view(paragraphs@[item_para as int]));
            let para = &paragraphs[item_para];
            if para.line_segs.len() > 0 {
                first = Some(para.line_segs[0].vertical_pos);
            }
            para_shape_id = Some(para.para_shape_id);
            has_table = para_has_topbottom_table(para);
        }
        let (base, is_page_path): (i64, bool) = if let Some(b) = self.vpos_page_base {
            (b as i64, true)
        } else if let Some(b) = self.vpos_lazy_base {
            (b, false)
        } else {
            let trailing: i64 = Self::trailing(&paragraphs[prev], first, end);
            let with_trailing: i64 = end - (y_delta_hu as i64 + trailing);
            let worked_out: i64 = if with_trailing >= 0 {
                with_trailing
            } else {
                end - y_delta_hu as i64
            };
            if worked_out < 0 {
                (end, false)
            } else {
                self.vpos_lazy_base = Some(worked_out);
                (worked_out, false)
            }
        };
        let vpos_end: i64 = match first {
            Some(v) => if v > seg.vertical_pos {
                v as i64
            } else {
                end
            },
            None => end,
        };
        Some(
            VposAnchor {
                vpos_end,
                base,
                is_page_path,
                para_shape_id,
                has_topbottom_para_table: has_table,
            },
        )
    }

    fn trailing(para: &Paragraph, first: Option<i32>, end: i64) -> (r: i64)
        ensures
            r == trailing_spacing(para@, first, end as int),
            0 <= r <= i32::MAX,
    {
        if let Some(v) = first {
            if v as i64 <= end && text_shows(para.text.as_str()) {
                return 0;
            }
        }
        let count: usize = para.line_segs.len();
        if count > 0 && para.line_segs[count - 1].line_spacing > 0 {
            para.line_segs[count - 1].line_spacing as i64
        } else {
            0
        }
    }
}

/// Whether a paragraph ends with the line at a place: a line with a width with none behind it
/// that has one, or the last of lines without a width.
pub open spec fn ends_at(segs: Seq<LineSeg>, i: int) -> bool {
    ||| segs[i].segment_width > 0 && forall|j: int|
        i < j < segs.len() ==> (#[trigger] segs[j]).segment_width <= 0
    ||| i == segs.len() - 1 && forall|j: int|
        0 <= j < segs.len() ==> (#[trigger] segs[j]).segment_width <= 0
}

/// A paragraph with lines ends with one of them, and with no other: the one with a width behind
/// which no line has a width, and the last one where no line has a width.
pub proof fn law_end_line_is_the_last_wide_one(segs: Seq<LineSeg>)
    requires
        segs.len() > 0,
    ensures
        exists|i: int|
            0 <= i < segs.len() && #[trigger] ends_at(segs, i) && end_line(segs) == Some(segs[i]),
        forall|i: int|
            0 <= i < segs.len() && #[trigger] ends_at(segs, i) ==> end_line(segs) == Some(segs[i]),
        (exists|i: int| 0 <= i < segs.len() && (#[trigger] segs[i]).segment_width > 0) ==> {
            exists|i: int|
                0 <= i < segs.len() && end_line(segs) == Some(#[trigger] segs[i])
                    && segs[i].segment_width > 0 && forall|j: int|
                    i < j < segs.len() ==> (#[trigger] segs[j]).segment_width <= 0
        },
{
    lemma_last_wide(segs, segs.len());
    if last_wide(segs, segs.len()) is Some {
        let i = choose|i: int|
            0 <= i < segs.len() && last_wide(segs, segs.len()) == Some(#[trigger] segs[i])
                && segs[i].segment_width > 0 && forall|j: int|
                i < j < segs.len() ==> (#[trigger] segs[j]).segment_width <= 0;
        assert(ends_at(segs, i));
        assert forall|k: int| 0 <= k < segs.len() && #[trigger] ends_at(segs, k) implies k == i by {
            if k < i {
                assert(segs[i].segment_width > 0);
            } else if k > i {
                assert(segs[k].segment_width <= 0);
                assert(segs[i].segment_width > 0);
            }
        }
    } else {
        assert(ends_at(segs, segs.len() - 1));
        assert forall|k: int| 0 <= k < segs.len() && #[trigger] ends_at(segs, k) implies k
            == segs.len() - 1 by {
            assert(segs[k].segment_width <= 0);
        }
    }
}

proof fn lemma_last_wide(segs: Seq<LineSeg>, n: nat)
    requires
        n <= segs.len(),
    ensures
        match last_wide(segs, n) {
            Some(seg) => exists|i: int|
                0 <= i < n && last_wide(segs, n) == Some(#[trigger] segs[i])
                    && segs[i].segment_width > 0 && forall|j: int|
                    i < j < n ==> (#[trigger] segs[j]).segment_width <= 0,
            None => forall|j: int| 0 <= j < n ==> (#[trigger] segs[j]).segment_width <= 0,
        },
    decreases n,
{
    if n > 0 {
        if segs[n - 1].segment_width > 0 {
            let i = n - 1;
            assert(last_wide(segs, n) == Some(segs[i]));
        } else {
            lemma_last_wide(segs, (n - 1) as nat);
        }
    }
}

/// What a drawn object or a picture has in common with all placed objects; nothing for any other
/// control.
pub open spec fn placed(x: ControlView) -> Option<CommonObjAttrView> {
    match x {
        ControlView::Picture(p) => Some(p.common),
        ControlView::Shape(ShapeView::Picture(p)) => Some(p.common),
        ControlView::Shape(ShapeView::Drawn { kind, common, drawing }) => Some(common),
        ControlView::Shape(ShapeView::Group { common, children }) => Some(common),
        _ => None,
    }
}

/// Objects that are placed like characters, and those that text runs round, are the only ones
/// that do not stand over text; tables and other controls never do.
pub proof fn law_overlays(p: ParagraphView)
    ensures
        has_overlay_shape(p) <==> exists|i: int|
            0 <= i < p.controls.len() && placed(#[trigger] p.controls[i]) is Some && !placed(
                p.controls[i],
            )->0.treat_as_char && placed(p.controls[i])->0.text_wrap != TextWrap::Square,
{
    assert forall|i: int| 0 <= i < p.controls.len() implies (control_overlays(
        #[trigger] p.controls[i],
    ) <==> placed(p.controls[i]) is Some && !placed(p.controls[i])->0.treat_as_char && placed(
        p.controls[i],
    )->0.text_wrap != TextWrap::Square) by {
        let x = p.controls[i];
        match x {
            ControlView::Shape(s) => {
                assert(placed(x) == Some(shape_common(s)));
            },
            _ => {},
        }
    }
}

/// Whether no object in a paragraph stands over its text.
pub open spec fn free_of_overlays(p: ParagraphView) -> bool {
    forall|i: int|
        0 <= i < p.controls.len() && placed(#[trigger] p.controls[i]) is Some ==> placed(
            p.controls[i],
        )->0.treat_as_char || placed(p.controls[i])->0.text_wrap == TextWrap::Square
}

/// An item is placed by positions exactly where another paragraph stands before it that is known,
/// is free of overlays, was placed whole, and has lines; and where that paragraph is not the
/// first one, its last line must not stand at the very top.
pub proof fn law_when_positions_count(
    c: HeightCursor,
    item_para: nat,
    paras: Seq<ParagraphView>,
    y_delta: int,
    k: int,
)
    requires
        c.prev_layout_para matches Some(prev) ==> prev < paras.len() && paras[prev as
            int].line_segs.len() > 0 ==> 0 <= k < paras[prev as int].line_segs.len() && ends_at(
            paras[prev as int].line_segs,
            k,
        ),
    ensures
        anchor_of(c, item_para, paras, y_delta) is Some <==> {
            &&& c.prev_layout_para is Some
            &&& !c.prev_item_was_partial_table
            &&& {
                let prev = c.prev_layout_para->0;
                &&& prev != item_para
                &&& prev < paras.len()
                &&& free_of_overlays(paras[prev as int])
                &&& paras[prev as int].line_segs.len() > 0
                &&& prev == 0 || paras[prev as int].line_segs[k].vertical_pos != 0
            }
        },
{
    if c.prev_layout_para is Some && c.prev_layout_para->0 < paras.len() {
        let p = paras[c.prev_layout_para->0 as int];
        law_overlays(p);
        if p.line_segs.len() > 0 {
            law_end_line_is_the_last_wide_one(p.line_segs);
        }
    }
}

/// The next paragraph starts where its own first line says, if that lies below the start of the
/// last line before it, and otherwise right below that line: below its height and its spacing.
pub proof fn law_next_paragraph_starts_below(
    c: HeightCursor,
    item_para: nat,
    paras: Seq<ParagraphView>,
    y_delta: int,
    k: int,
)
    requires
        anchor_of(c, item_para, paras, y_delta) is Some,
        0 <= k < paras[c.prev_layout_para->0 as int].line_segs.len(),
        ends_at(paras[c.prev_layout_para->0 as int].line_segs, k),
    ensures
        ({
            let a = anchor_of(c, item_para, paras, y_delta)->0;
            let last = paras[c.prev_layout_para->0 as int].line_segs[k];
            let own = item_para < paras.len() && paras[item_para as int].line_segs.len() > 0
                && paras[item_para as int].line_segs[0].vertical_pos > last.vertical_pos;
            &&& own ==> a.vpos_end == paras[item_para as int].line_segs[0].vertical_pos
            &&& !own ==> a.vpos_end == last.vertical_pos + last.line_height + last.line_spacing
            &&& a.is_page_path == (c.vpos_page_base is Some)
            &&& a.para_shape_id is Some <==> item_para < paras.len()
            &&& item_para < paras.len() ==> a.para_shape_id
                == Some(paras[item_para as int].para_shape_id)
            &&& a.has_topbottom_para_table <==> item_para < paras.len() && exists|i: int|
                0 <= i < paras[item_para as int].controls.len() && (
                #[trigger] paras[item_para as int].controls[i]) is Table && ({
                    let t = paras[item_para as int].controls[i]->Table_0;
                    !t.common.treat_as_char && t.common.text_wrap == TextWrap::TopAndBottom
                        && t.common.vert_rel_to == VertRelTo::Para
                })
        }),
{
    law_end_line_is_the_last_wide_one(paras[c.prev_layout_para->0 as int].line_segs);
    if item_para < paras.len() {
        let p = paras[item_para as int];
        if has_topbottom_para_table(p) {
            let i = choose|i: int|
                0 <= i < p.controls.len() && is_topbottom_para_table(#[trigger] p.controls[i]);
            assert(p.controls[i] is Table);
        }
        assert forall|i: int| 0 <= i < p.controls.len() && (#[trigger] p.controls[i]) is Table && ({
            let t = p.controls[i]->Table_0;
            !t.common.treat_as_char && t.common.text_wrap == TextWrap::TopAndBottom
                && t.common.vert_rel_to == VertRelTo::Para
        }) implies has_topbottom_para_table(p) by {
            assert(is_topbottom_para_table(p.controls[i]));
        }
    }
}

/// Positions count from the base of the page where it is known, and otherwise from the base that
/// was worked out before.
pub proof fn law_known_base_is_used(
    c: HeightCursor,
    item_para: nat,
    paras: Seq<ParagraphView>,
    y_delta: int,
)
    requires
        anchor_of(c, item_para, paras, y_delta) is Some,
    ensures
        c.vpos_page_base is Some ==> anchor_of(c, item_para, paras, y_delta)->0.base
            == c.vpos_page_base->0,
        c.vpos_page_base is None && c.vpos_lazy_base is Some ==> anchor_of(
            c,
            item_para,
            paras,
            y_delta,
        )->0.base == c.vpos_lazy_base->0,
{
}

/// A base is worked out so that the end of the last line comes to stand at the place that the
/// column has come to: the base is that end less the way down the column. The spacing of the last
/// line is taken off as well, unless the paragraph shows text and the next one starts no further
/// down than that end, and unless the base became negative by it. A base that is negative even so
/// is not kept, and the position then counts from itself.
pub proof fn law_worked_out_base(
    c: HeightCursor,
    item_para: nat,
    paras: Seq<ParagraphView>,
    y_delta: i32,
    k: int,
)
    requires
        anchor_of(c, item_para, paras, y_delta as int) is Some,
        c.vpos_page_base is None,
        c.vpos_lazy_base is None,
        0 <= k < paras[c.prev_layout_para->0 as int].line_segs.len(),
        ends_at(paras[c.prev_layout_para->0 as int].line_segs, k),
    ensures
        ({
            let a = anchor_of(c, item_para, paras, y_delta as int)->0;
            let next = next_cursor(c, item_para, paras, y_delta as int);
            let before = paras[c.prev_layout_para->0 as int];
            let last = before.line_segs[k];
            let end = last.vertical_pos + last.line_height + last.line_spacing;
            let follows_on = item_para < paras.len() && paras[item_para as int].line_segs.len() > 0
                && paras[item_para as int].line_segs[0].vertical_pos <= end;
            let shows = exists|i: int|
                0 <= i < before.text.len() && #[trigger] before.text[i] > '\u{1f}' && before.text[i]
                    != '\u{fffc}';
            let spacing = before.line_segs.last().line_spacing;
            let off: int = if (follows_on && shows) || spacing <= 0 {
                0
            } else {
                spacing as int
            };
            &&& end - y_delta - off >= 0 ==> a.base == end - y_delta - off && next.vpos_lazy_base
                == Some(a.base)
            &&& end - y_delta - off < 0 && end - y_delta >= 0 ==> a.base == end - y_delta
                && next.vpos_lazy_base == Some(a.base)
            &&& end - y_delta < 0 ==> a.base == end && next == c
        }),
{
    law_end_line_is_the_last_wide_one(paras[c.prev_layout_para->0 as int].line_segs);
}

/// A base that was worked out is never negative.
pub proof fn law_lazy_base_not_negative(
    c: HeightCursor,
    item_para: nat,
    paras: Seq<ParagraphView>,
    y_delta: i32,
)
    requires
        c.vpos_lazy_base is None,
    ensures
        next_cursor(c, item_para, paras, y_delta as int).vpos_lazy_base matches Some(b) ==> b >= 0,
{
}

/// A base is worked out once: while either base is known, no item changes the cursor.
pub proof fn law_known_base_stays(
    c: HeightCursor,
    item_para: nat,
    paras: Seq<ParagraphView>,
    y_delta: int,
)
    requires
        c.vpos_page_base is Some || c.vpos_lazy_base is Some,
    ensures
        next_cursor(c, item_para, paras, y_delta) == c,
{
}

/// An item changes nothing of the cursor but the base that is worked out.
pub proof fn law_only_lazy_base_changes(
    c: HeightCursor,
    item_para: nat,
    paras: Seq<ParagraphView>,
    y_delta: int,
)
    ensures
        next_cursor(c, item_para, paras, y_delta) == (HeightCursor {
            vpos_lazy_base: next_cursor(c, item_para, paras, y_delta).vpos_lazy_base,
            ..c
        }),
{
}

/// An item that stays at the place that the column has come to leaves the cursor as it is.
pub proof fn law_no_anchor_no_change(
    c: HeightCursor,
    item_para: nat,
    paras: Seq<ParagraphView>,
    y_delta: int,
)
    requires
        anchor_of(c, item_para, paras, y_delta) is None,
    ensures
        next_cursor(c, item_para, paras, y_delta) == c,
{
}

/// Where the place of an item is worked out from a base that is not the one of the page, that
/// base is the one kept for the items that follow, or the position itself.
pub proof fn law_base_is_kept(
    c: HeightCursor,
    item_para: nat,
    paras: Seq<ParagraphView>,
    y_delta: i32,
)
    requires
        c.vpos_page_base is None,
        followed_line(c, item_para, paras) is Some,
    ensures
        ({
            let next = next_cursor(c, item_para, paras, y_delta as int);
            let seg = followed_line(c, item_para, paras)->0;
            let base = used_base(c, item_para, paras, y_delta as int, seg);
            next.vpos_lazy_base is Some && next.vpos_lazy_base->0 == base || base == below(seg)
        }),
{
}

} // verus!
