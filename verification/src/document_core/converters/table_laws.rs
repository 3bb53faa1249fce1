//! What holds of the header and the record of a table, and of the headers of its cells.

use super::common_obj_attr_writer::{common_record, packed_attr};
use super::normal_form::{
    cells_in_row, count_cell_header, count_ctrl_data, counted_rows, is_fine_grid, normal_cell,
    normal_cell_header, normal_page_break, normal_row_sizes, normal_table, record_bits, Change,
};
use super::object_laws::{law_header_record, number16};
use crate::bytes::{le32, number32, zeros};
use crate::model::table::{CellView, TablePageBreak, TableView};
use vstd::prelude::*;

verus! {

/// Each field can be read back from its own bits of the attribute word of a table record: where
/// the table breaks from bits 0 and 1, whether its header row is repeated from bit 2, and bit 3 of
/// the attribute word of the table from bit 3. No other bit is set.
pub proof fn law_record_bits_read_back(b: TablePageBreak, repeat_header: bool, attr: u32)
    ensures
        ({
            let w = record_bits(b, repeat_header, attr);
            &&& b == TablePageBreak::NoBreak <==> w & 3 == 0
            &&& b == TablePageBreak::CellBreak <==> w & 3 == 1
            &&& b == TablePageBreak::RowBreak <==> w & 3 == 2
            &&& repeat_header <==> w & 4 == 4
            &&& !repeat_header <==> w & 4 == 0
            &&& w & 8 == attr & 8
            &&& w & 0xffff_fff0 == 0
        }),
{
    let breaks: u32 = match b {
        TablePageBreak::CellBreak => 1,
        TablePageBreak::RowBreak => 2,
        TablePageBreak::NoBreak => 0,
    };
    let header: u32 = if repeat_header {
        4
    } else {
        0
    };
    let w = record_bits(b, repeat_header, attr);
    assert(w == breaks | header | (attr & 8));
    assert(w & 3 == breaks && w & 4 == header && w & 8 == attr & 8 && w & 0xffff_fff0 == 0)
        by (bit_vector)
        requires
            w == breaks | header | (attr & 8),
            breaks <= 2,
            header == 0 || header == 4,
    ;
}

/// The record of a table whose header is made tells that the table breaks between rows, where it
/// may break at all, whether its header row is repeated, and bit 3 of its attribute word as it was.
pub proof fn law_table_record_attr(t: TableView)
    requires
        t.raw_ctrl_data.len() == 0,
    ensures
        ({
            let u = normal_table(t);
            let w = u.raw_table_record_attr;
            &&& w & 3 == if t.page_break == TablePageBreak::NoBreak {
                0u32
            } else {
                2
            }
            &&& t.repeat_header <==> w & 4 == 4
            &&& w & 8 == t.attr & 8
            &&& w & 0xffff_fff0 == 0
            &&& u.page_break == TablePageBreak::NoBreak <==> t.page_break
                == TablePageBreak::NoBreak
            &&& u.page_break != TablePageBreak::CellBreak
            &&& u.repeat_header == t.repeat_header
        }),
{
    law_record_bits_read_back(normal_page_break(t.page_break), t.repeat_header, t.attr);
}

/// The attribute word of a table whose header is made holds the packed fields, and marks besides
/// that the table stays in the text area, that it is numbered as a table, and whether it has a
/// caption.
pub proof fn law_table_attr_bits(t: TableView)
    requires
        t.raw_ctrl_data.len() == 0,
    ensures
        ({
            let a = normal_table(t).attr;
            &&& a & 0x2000 == 0x2000
            &&& a & 0x0800_0000 == 0x0800_0000
            &&& t.caption is Some <==> a & 0x2000_0000 == 0x2000_0000
            &&& a & 0xd7ff_dfff == packed_attr(t.common) & 0xd7ff_dfff
            &&& normal_table(t).common.attr == a
        }),
{
    let bits = packed_attr(t.common);
    let caption: u32 = if t.caption is Some {
        0x2000_0000
    } else {
        0
    };
    let a = normal_table(t).attr;
    lemma_packed_has_no_caption(t);
    assert(a == bits | 0x2000 | 0x0800_0000 | caption);
    assert(a & 0x2000 == 0x2000 && a & 0x0800_0000 == 0x0800_0000 && a & 0xd7ff_dfff == bits
        & 0xd7ff_dfff && a & 0x2000_0000 == caption) by (bit_vector)
        requires
            a == bits | 0x2000 | 0x0800_0000 | caption,
            bits & 0x2000_0000 == 0,
            caption == 0 || caption == 0x2000_0000,
    ;
}

proof fn lemma_packed_has_no_caption(t: TableView)
    ensures
        packed_attr(t.common) & 0x2000_0000 == 0,
{
    super::object_laws::law_no_other_bits(t.common);
    let bits = packed_attr(t.common);
    assert(bits & 0x2000_0000 == 0) by (bit_vector)
        requires
            bits & 0xe310_0006 == 0,
    ;
}

/// A table whose header is made keeps in it the margins that it has outside; the header is the
/// record of what the table has in common with all objects. The end of its record is there, and
/// nothing else of the table is changed but its cells.
pub proof fn law_table_header_made(t: TableView)
    requires
        t.raw_ctrl_data.len() == 0,
    ensures
        ({
            let u = normal_table(t);
            &&& u.common.margin.left == t.outer_margin_left
            &&& u.common.margin.right == t.outer_margin_right
            &&& u.common.margin.top == t.outer_margin_top
            &&& u.common.margin.bottom == t.outer_margin_bottom
            &&& u.raw_ctrl_data == common_record(u.common)
            &&& t.raw_table_record_extra.len() > 0 ==> u.raw_table_record_extra
                == t.raw_table_record_extra
            &&& t.raw_table_record_extra.len() == 0 ==> u.raw_table_record_extra == seq![0u8, 0u8]
            &&& u == (TableView {
                attr: u.attr,
                row_sizes: u.row_sizes,
                cells: u.cells,
                page_break: u.page_break,
                common: u.common,
                raw_ctrl_data: u.raw_ctrl_data,
                raw_table_record_attr: u.raw_table_record_attr,
                raw_table_record_extra: u.raw_table_record_extra,
                ..t
            })
            &&& u.common.vertical_offset == t.common.vertical_offset
            &&& u.common.horizontal_offset == t.common.horizontal_offset
            &&& u.common.width == t.common.width
            &&& u.common.height == t.common.height
            &&& u.common.z_order == t.common.z_order
            &&& u.common.instance_id == t.common.instance_id
            &&& u.common.description == t.common.description
        }),
{
    assert(zeros(2) =~= seq![0u8, 0u8]);
}

/// The margins, the size and the place of a table can be read back from the header made for it.
pub proof fn law_table_header_read_back(t: TableView)
    requires
        t.raw_ctrl_data.len() == 0,
    ensures
        ({
            let r = normal_table(t).raw_ctrl_data;
            &&& r.len() >= 42
            &&& number32(r[4], r[5], r[6], r[7]) == t.common.vertical_offset
            &&& number32(r[8], r[9], r[10], r[11]) == t.common.horizontal_offset
            &&& number32(r[12], r[13], r[14], r[15]) == t.common.width
            &&& number32(r[16], r[17], r[18], r[19]) == t.common.height
            &&& number16(r[24], r[25]) == t.outer_margin_left as u16
            &&& number16(r[26], r[27]) == t.outer_margin_right as u16
            &&& number16(r[28], r[29]) == t.outer_margin_top as u16
            &&& number16(r[30], r[31]) == t.outer_margin_bottom as u16
        }),
{
    law_header_record(normal_table(t).common);
    law_table_header_made(t);
}

/// A table that has its header keeps all but its cells.
pub proof fn law_made_table_kept(t: TableView)
    requires
        t.raw_ctrl_data.len() > 0,
    ensures
        normal_table(t) == (TableView { cells: normal_table(t).cells, ..t }),
{
}

/// The number of cells that start in a row.
pub open spec fn starting_in(cells: Seq<CellView>, row: int) -> nat {
    cells.filter(|x: CellView| x.row == row).len()
}

/// The row sizes of a table whose header is made tell how many of its cells start in each row,
/// unless no cell starts in any of its rows; they then stay as they were.
pub proof fn law_row_sizes_count_cells(t: TableView)
    requires
        t.raw_ctrl_data.len() == 0,
    ensures
        ({
            let sizes = normal_table(t).row_sizes;
            if exists|i: int| 0 <= i < t.cells.len() && (#[trigger] t.cells[i]).row < t.row_count {
                &&& sizes.len() == t.row_count
                &&& forall|r: int|
                    0 <= r < t.row_count ==> #[trigger] sizes[r] == if starting_in(t.cells, r)
                        <= 0x7fff {
                        starting_in(t.cells, r) as int
                    } else {
                        0x7fff
                    }
            } else {
                sizes == t.row_sizes
            }
        }),
{
    let counted = counted_rows(t);
    assert forall|r: int| 0 <= r < t.row_count implies cells_in_row(
        t.cells,
        t.cells.len(),
        r,
    ) == #[trigger] starting_in(t.cells, r) by {
        lemma_cells_counted(t.cells, t.cells.len(), r);
        assert(t.cells.take(t.cells.len() as int) =~= t.cells);
    }
    assert forall|r: int| 0 <= r < t.row_count implies (#[trigger] counted[r] == 0) == (
    cells_in_row(t.cells, t.cells.len(), r) == 0) by {}
    if exists|i: int| 0 <= i < t.cells.len() && (#[trigger] t.cells[i]).row < t.row_count {
        let i = choose|i: int|
            0 <= i < t.cells.len() && (#[trigger] t.cells[i]).row < t.row_count;
        let r = t.cells[i].row as int;
        lemma_row_not_empty(t.cells, t.cells.len(), i);
        assert(counted[r] != 0);
        assert(normal_row_sizes(t) == counted);
        let sizes = normal_table(t).row_sizes;
        assert(sizes == counted);
        assert forall|q: int| 0 <= q < t.row_count implies #[trigger] sizes[q] == if starting_in(
            t.cells,
            q,
        ) <= 0x7fff {
            starting_in(t.cells, q) as int
        } else {
            0x7fff
        } by {
            assert(counted[q] == sizes[q]);
        }
    } else {
        assert forall|r: int| 0 <= r < t.row_count implies #[trigger] counted[r] == 0 by {
            lemma_row_empty(t.cells, t.cells.len(), r);
        }
    }
}

proof fn lemma_cells_counted(cells: Seq<CellView>, n: nat, row: int)
    requires
        n <= cells.len(),
    ensures
        cells_in_row(cells, n, row) == starting_in(cells.take(n as int), row),
    decreases n,
{
    reveal(Seq::filter);
    if n > 0 {
        lemma_cells_counted(cells, (n - 1) as nat, row);
        assert(cells.take(n as int).drop_last() =~= cells.take(n - 1));
        assert(cells.take(n as int).last() == cells[n - 1]);
    }
}

proof fn lemma_row_not_empty(cells: Seq<CellView>, n: nat, i: int)
    requires
        0 <= i < n <= cells.len(),
    ensures
        cells_in_row(cells, n, cells[i].row as int) > 0,
    decreases n,
{
    if i < n - 1 {
        lemma_row_not_empty(cells, (n - 1) as nat, i);
    }
}

proof fn lemma_row_empty(cells: Seq<CellView>, n: nat, row: int)
    requires
        n <= cells.len(),
        forall|i: int| 0 <= i < cells.len() ==> (#[trigger] cells[i]).row != row,
    ensures
        cells_in_row(cells, n, row) == 0,
    decreases n,
{
    if n > 0 {
        lemma_row_empty(cells, (n - 1) as nat, row);
    }
}

/// The cells of a table of thirty columns or more refer to their width, and no others do; the
/// other bits of the reference are kept.
pub proof fn law_width_refs(t: TableView, i: int)
    requires
        0 <= i < t.cells.len(),
    ensures
        ({
            let w = t.cells[i].list_header_width_ref;
            let v = normal_table(t).cells[i].list_header_width_ref;
            &&& normal_table(t).cells.len() == t.cells.len()
            &&& t.col_count >= 30 <==> v & 1 == 1
            &&& v & 0xfffe == w & 0xfffe
        }),
{
    let fine = is_fine_grid(t);
    let w = t.cells[i].list_header_width_ref;
    let v = normal_table(t).cells[i].list_header_width_ref;
    assert(normal_table(t).cells[i] == normal_cell(t.cells[i], fine));
    assert((w | 1) & 1 == 1 && (w | 1) & 0xfffe == w & 0xfffe) by (bit_vector);
    assert((w & 0xfffe) & 1 == 0 && (w & 0xfffe) & 0xfffe == w & 0xfffe) by (bit_vector);
}

/// The list header of a cell ends with thirteen bytes, of which the first four are its width,
/// unless it has an end already. The cell is marked where it has margins of its own and its text
/// is horizontal. Nothing else of a cell is changed but its paragraphs.
pub proof fn law_cell_header_made(x: CellView, fine: bool)
    ensures
        ({
            let y = normal_cell(x, fine);
            let r = y.raw_list_extra;
            &&& x.raw_list_extra.len() > 0 ==> r == x.raw_list_extra
            &&& x.raw_list_extra.len() == 0 ==> {
                &&& r.len() == 13
                &&& number32(r[0], r[1], r[2], r[3]) == x.width
                &&& forall|i: int| 4 <= i < 13 ==> #[trigger] r[i] == 0
            }
            &&& x.apply_inner_margin && x.text_direction == 0 ==> y.text_direction == 1
            &&& !x.apply_inner_margin || x.text_direction != 0 ==> y.text_direction
                == x.text_direction
            &&& y == (CellView {
                text_direction: y.text_direction,
                list_header_width_ref: y.list_header_width_ref,
                raw_list_extra: y.raw_list_extra,
                paragraphs: y.paragraphs,
                ..x
            })
        }),
{
    crate::bytes::law_number_from_bytes(x.width);
    let made = le32(x.width) + zeros(9);
    assert(x.raw_list_extra.len() == 0 ==> normal_cell(x, fine).raw_list_extra == made);
    assert(made[0] == le32(x.width)[0] && made[1] == le32(x.width)[1] && made[2] == le32(
        x.width,
    )[2] && made[3] == le32(x.width)[3]);
}

/// Making the header of a table counts a change for each field that is other than before, and one
/// for the header itself. A table that broke inside cells is taken to have had no record.
pub proof fn law_table_changes_counted(t: TableView)
    requires
        t.raw_ctrl_data.len() == 0,
    ensures
        ({
            let u = normal_table(t);
            let had: u32 = if t.page_break == TablePageBreak::CellBreak {
                0
            } else {
                t.raw_table_record_attr
            };
            let own = |c: Change| count_ctrl_data(t, c);
            &&& own(Change::TableCtrlData) == 1
            &&& own(Change::TableAttr) == if u.attr != t.attr {
                1nat
            } else {
                0
            }
            &&& own(Change::TablePageBreak) == if u.page_break != t.page_break {
                1nat
            } else {
                0
            }
            &&& own(Change::TableOuterMargin) == if u.common.margin != t.common.margin {
                1nat
            } else {
                0
            }
            &&& own(Change::TableCtrlHeaderAttr) == if u.common.attr != t.common.attr {
                1nat
            } else {
                0
            }
            &&& own(Change::TableRecordAttr) == if u.raw_table_record_attr != had {
                1nat
            } else {
                0
            }
            &&& own(Change::TableRowSizes) == if u.row_sizes != t.row_sizes {
                1nat
            } else {
                0
            }
            &&& own(Change::TableRecordExtra) == if u.raw_table_record_extra
                != t.raw_table_record_extra {
                1nat
            } else {
                0
            }
        }),
{
    assert(zeros(2).len() == 2);
}

/// Completing the header of a cell counts one change where its margins are marked, and one where
/// the width reference or the end of its list header is other than before.
pub proof fn law_cell_changes_counted(x: CellView, fine: bool)
    ensures
        ({
            let y = normal_cell_header(x, fine);
            &&& count_cell_header(x, fine, Change::CellListAttr) == if y.text_direction
                != x.text_direction {
                1nat
            } else {
                0
            }
            &&& count_cell_header(x, fine, Change::CellListHeader) == if y.list_header_width_ref
                != x.list_header_width_ref || y.raw_list_extra != x.raw_list_extra {
                1nat
            } else {
                0
            }
        }),
{
    assert((le32(x.width) + zeros(9)).len() == 13);
}

} // verus!
