//! What holds of matrices, cases, piles and aligned lines: how their rows and cells follow from
//! the marks that part them.
//!
//! A grid is described here from the outside, row by row and cell by cell, without the state that
//! reading it goes through.

use super::ast::{row, EqTree, MatrixStyle, PileAlign};
use super::grammar::{
    after_marks, aligned, brace_arg, braced_grid, cases, closing, column_marks, element, ended,
    env_end_len, env_grid, env_kind, environment, gap, grid, infix_at, infixed, kind_at,
    law_element_advances, mark_at, marks_taken, matrix, pile, rest, stops, taken, Columns, EnvKind,
    Grid, Until,
};
use super::tokenizer::{Tok, TokenType};
use vstd::prelude::*;

verus! {

/// What column marks do inside a piece of a row.
pub enum Marks {
    /// They end the piece.
    End,
    /// They are gaps in the piece.
    Gap,
    /// They stand for nothing.
    Skip,
}

/// Whether a piece of a row ends at a place: where the grid ends, at a row mark, and at a column
/// mark where these end a piece.
pub open spec fn piece_ends(t: Seq<Tok>, p: nat, until: Until, marks: Marks) -> bool {
    stops(t, p, until) || mark_at(t, p, "#"@) || (marks is End && mark_at(t, p, "&"@))
}

/// The nodes of a piece of a row, after those already read, and the number of its tokens.
pub open spec fn piece(
    t: Seq<Tok>,
    p: nat,
    until: Until,
    marks: Marks,
    acc: Seq<EqTree>,
) -> (Seq<EqTree>, nat)
    decreases rest(t, p),
{
    if piece_ends(t, p, until, marks) {
        (acc, 0)
    } else if marks is Skip && mark_at(t, p, "&"@) {
        let (all, m) = piece(t, p + 1, until, marks, acc);
        (all, 1 + m)
    } else if infix_at(t, p) {
        let (bottom, n) = element(t, p + 1);
        let (all, m) = piece(t, p + 1 + n, until, marks, infixed(t, p, acc, bottom));
        (all, 1 + n + m)
    } else {
        let (node, n) = element(t, p);
        if n == 0 {
            (acc.push(node), 0)
        } else {
            let (all, m) = piece(t, p + n, until, marks, acc.push(node));
            (all, n + m)
        }
    }
}

/// Whether a column mark stands at a place inside a grid.
pub open spec fn column_at(t: Seq<Tok>, p: nat, until: Until) -> bool {
    !stops(t, p, until) && mark_at(t, p, "&"@)
}

/// The cells of a row, one more than it has column marks, and the number of its tokens.
pub open spec fn cells_of(t: Seq<Tok>, p: nat, until: Until) -> (Seq<EqTree>, nat)
    decreases rest(t, p),
{
    let (cell, n) = piece(t, p, until, Marks::End, Seq::empty());
    if column_at(t, p + n, until) {
        let (more, m) = cells_of(t, p + n + 1, until);
        (seq![row(cell)] + more, n + 1 + m)
    } else {
        (seq![row(cell)], n)
    }
}

/// How many column marks stand in a row from a place on inside a grid.
pub open spec fn mark_run(t: Seq<Tok>, p: nat, until: Until) -> nat
    decreases rest(t, p),
{
    if column_at(t, p, until) {
        1 + mark_run(t, p + 1, until)
    } else {
        0
    }
}

/// The cells of one row, as the grid reads column marks, and the number of tokens of the row.
pub open spec fn row_of(t: Seq<Tok>, p: nat, until: Until, columns: Columns) -> (Seq<EqTree>, nat) {
    let (left, n) = piece(t, p, until, Marks::End, Seq::empty());
    let q = p + n;
    match columns {
        Columns::Cells => cells_of(t, p, until),
        Columns::Gaps => {
            let (line, m) = piece(t, p, until, Marks::Gap, Seq::empty());
            (seq![row(line)], m)
        },
        Columns::Sides => if column_at(t, q, until) {
            let k = mark_run(t, q, until);
            let start = if k >= 2 {
                seq![gap()]
            } else {
                Seq::empty()
            };
            let (right, m) = piece(t, q + k, until, Marks::Gap, start);
            (seq![row(left), row(right)], n + k + m)
        } else {
            (seq![row(left)], n)
        },
        Columns::FirstOnly => if column_at(t, q, until) {
            let (right, m) = piece(t, q + 1, until, Marks::Skip, Seq::empty());
            (seq![row(left), row(right)], n + 1 + m)
        } else {
            (seq![row(left)], n)
        },
    }
}

/// The rows of a grid, parted by row marks, and the number of its tokens. Where nothing is left
/// for the last row, `blank` stands for it.
pub open spec fn rows_of(
    t: Seq<Tok>,
    p: nat,
    until: Until,
    columns: Columns,
    blank: Seq<Seq<EqTree>>,
) -> (Seq<Seq<EqTree>>, nat)
    decreases rest(t, p),
{
    if stops(t, p, until) {
        (blank, 0)
    } else {
        let (cells, n) = row_of(t, p, until, columns);
        if stops(t, p + n, until) {
            (seq![cells], n)
        } else {
            let (more, m) = rows_of(t, p + n + 1, until, columns, blank);
            (seq![cells] + more, n + 1 + m)
        }
    }
}

/// What column marks do in the piece that a grid is reading.
pub open spec fn marks_in(columns: Columns, g: Grid) -> Marks {
    match columns {
        Columns::Cells => Marks::End,
        Columns::Gaps => Marks::Gap,
        Columns::Sides => if g.cells.len() > 0 {
            Marks::Gap
        } else {
            Marks::End
        },
        Columns::FirstOnly => if g.cells.len() > 0 {
            Marks::Skip
        } else {
            Marks::End
        },
    }
}

/// Whether a grid reads column marks in the way that it stops at: sides are read in braces.
pub open spec fn fits(columns: Columns, until: Until) -> bool {
    columns == Columns::Sides ==> until is PlaceOrClose
}

proof fn lemma_marks_are_no_commands(t: Seq<Tok>, p: nat)
    ensures
        mark_at(t, p, "&"@) ==> !infix_at(t, p) && !ended(t, p) && !mark_at(t, p, "#"@)
            && kind_at(t, p) != TokenType::RBrace && element(t, p) == (gap(), 1nat),
        mark_at(t, p, "#"@) ==> !infix_at(t, p) && !ended(t, p) && !mark_at(t, p, "&"@),
{
    reveal_strlit("&");
    reveal_strlit("#");
    reveal_strlit("~");
    reveal_strlit("`");
    if mark_at(t, p, "&"@) {
        assert(word_at_first(t, p) == '&');
        assert("~"@[0] == '~' && "`"@[0] == '`' && "#"@[0] == '#');
    }
    if mark_at(t, p, "#"@) {
        assert(word_at_first(t, p) == '#');
        assert("&"@[0] == '&');
    }
}

spec fn word_at_first(t: Seq<Tok>, p: nat) -> char {
    super::grammar::word_at(t, p)[0]
}

/// The run of column marks is counted alike in both ways.
proof fn lemma_mark_run(t: Seq<Tok>, p: nat, end: nat)
    ensures
        mark_run(t, p, Until::PlaceOrClose(end)) == column_marks(t, p, end),
    decreases rest(t, p),
{
    lemma_marks_are_no_commands(t, p);
    if column_at(t, p, Until::PlaceOrClose(end)) {
        lemma_mark_run(t, p + 1, end);
    }
}

/// Gaps are added mark by mark, or all of a run together.
proof fn lemma_gap_by_gap(t: Seq<Tok>, p: nat, until: Until, g: Grid)
    requires
        column_at(t, p, until),
        until is PlaceOrClose,
        g.cells.len() > 0,
    ensures
        ({
            let (all, m) = grid(t, p + 1, until, Columns::Sides, g.with_cell(g.cell.push(gap())));
            grid(t, p, until, Columns::Sides, g) == (all, 1 + m)
        }),
{
    lemma_marks_are_no_commands(t, p);
    let end = until->PlaceOrClose_0;
    let n = marks_taken(t, p, until, Columns::Sides);
    let next = g.with_cell(g.cell.push(gap()));
    assert(n == 1 + column_marks(t, p + 1, end));
    if column_marks(t, p + 1, end) > 0 {
        lemma_marks_are_no_commands(t, p + 1);
        let k = (n - 1) as nat;
        assert(k == marks_taken(t, p + 1, until, Columns::Sides));
        assert(after_marks(next, Columns::Sides, k).cell =~= after_marks(
            g,
            Columns::Sides,
            n,
        ).cell);
        assert(after_marks(next, Columns::Sides, k) =~= after_marks(g, Columns::Sides, n));
        assert(p + 1 + k == p + n);
    } else {
        assert(after_marks(g, Columns::Sides, n).cell =~= next.cell);
        assert(after_marks(g, Columns::Sides, n) =~= next);
    }
}

/// A grid reads a piece of a row into the cell being read.
proof fn lemma_piece_read(t: Seq<Tok>, p: nat, until: Until, columns: Columns, g: Grid)
    requires
        fits(columns, until),
    ensures
        ({
            let (cell, n) = piece(t, p, until, marks_in(columns, g), g.cell);
            let (all, m) = grid(t, p + n, until, columns, g.with_cell(cell));
            &&& grid(t, p, until, columns, g) == (all, n + m)
            &&& piece_ends(t, p + n, until, marks_in(columns, g))
        }),
    decreases rest(t, p),
{
    let marks = marks_in(columns, g);
    lemma_marks_are_no_commands(t, p);
    if piece_ends(t, p, until, marks) {
        assert(g.with_cell(g.cell) =~= g);
    } else if mark_at(t, p, "&"@) {
        match columns {
            Columns::Gaps => {
                let next = g.with_cell(g.cell.push(gap()));
                lemma_piece_read(t, p + 1, until, columns, next);
            },
            Columns::Sides => {
                let next = g.with_cell(g.cell.push(gap()));
                lemma_gap_by_gap(t, p, until, g);
                lemma_piece_read(t, p + 1, until, columns, next);
            },
            Columns::FirstOnly => {
                lemma_piece_read(t, p + 1, until, columns, g);
            },
            Columns::Cells => {},
        }
    } else if infix_at(t, p) {
        let (bottom, n) = element(t, p + 1);
        let next = g.with_cell(infixed(t, p, g.cell, bottom));
        lemma_piece_read(t, p + 1 + n, until, columns, next);
    } else {
        law_element_advances(t, p);
        let (node, n) = element(t, p);
        let next = g.with_cell(g.cell.push(node));
        lemma_piece_read(t, p + n, until, columns, next);
    }
}

/// A grid reads the cells of a row one after the other.
proof fn lemma_cells_read(t: Seq<Tok>, p: nat, until: Until, g: Grid)
    requires
        g.cell.len() == 0,
    ensures
        ({
            let (cells, n) = cells_of(t, p, until);
            let (all, m) = grid(
                t,
                p + n,
                until,
                Columns::Cells,
                Grid {
                    rows: g.rows,
                    cells: (g.cells + cells).drop_last(),
                    cell: all_cell(t, p, until),
                },
            );
            &&& cells.len() > 0
            &&& cells.last() == row(all_cell(t, p, until))
            &&& grid(t, p, until, Columns::Cells, g) == (all, n + m)
            &&& stops(t, p + n, until) || mark_at(t, p + n, "#"@)
            &&& n > 0 ==> cells.len() > 1 || all_cell(t, p, until).len() > 0
        }),
    decreases rest(t, p),
{
    let (cell, n) = piece(t, p, until, Marks::End, Seq::empty());
    assert(g.cell =~= Seq::empty());
    lemma_piece_read(t, p, until, Columns::Cells, g);
    lemma_piece_grows(t, p, until, Marks::End, Seq::empty());
    let q = p + n;
    let read = g.with_cell(cell);
    if column_at(t, q, until) {
        lemma_marks_are_no_commands(t, q);
        let next = read.end_cell();
        lemma_cells_read(t, q + 1, until, next);
        let (more, m) = cells_of(t, q + 1, until);
        assert(grid(t, q, until, Columns::Cells, read).0 == grid(
            t,
            q + 1,
            until,
            Columns::Cells,
            next,
        ).0);
        assert((next.cells + more).drop_last() =~= (g.cells + cells_of(t, p, until).0).drop_last());
    } else {
        assert((g.cells + seq![row(cell)]).drop_last() =~= g.cells);
        assert(Grid { rows: g.rows, cells: g.cells, cell } =~= read);
    }
}

/// The nodes of the last cell of a row.
spec fn all_cell(t: Seq<Tok>, p: nat, until: Until) -> Seq<EqTree>
    decreases rest(t, p),
{
    let (cell, n) = piece(t, p, until, Marks::End, Seq::empty());
    if column_at(t, p + n, until) {
        all_cell(t, p + n + 1, until)
    } else {
        cell
    }
}

/// A piece that takes up a token, other than marks that stand for nothing, has a node.
proof fn lemma_piece_grows(t: Seq<Tok>, p: nat, until: Until, marks: Marks, acc: Seq<EqTree>)
    ensures
        piece(t, p, until, marks, acc).0.len() >= acc.len(),
        marks !is Skip && piece(t, p, until, marks, acc).1 > 0 ==> piece(
            t,
            p,
            until,
            marks,
            acc,
        ).0.len() > 0,
    decreases rest(t, p),
{
    if !piece_ends(t, p, until, marks) {
        if marks is Skip && mark_at(t, p, "&"@) {
            lemma_piece_grows(t, p + 1, until, marks, acc);
        } else if infix_at(t, p) {
            let (bottom, n) = element(t, p + 1);
            lemma_piece_grows(t, p + 1 + n, until, marks, infixed(t, p, acc, bottom));
        } else {
            law_element_advances(t, p);
            let (node, n) = element(t, p);
            lemma_piece_grows(t, p + n, until, marks, acc.push(node));
        }
    }
}

/// A grid reads a row from its start up to a row mark or its own end; gives the grid at that
/// place.
proof fn lemma_row_read(
    t: Seq<Tok>,
    p: nat,
    until: Until,
    columns: Columns,
    rows: Seq<Seq<EqTree>>,
) -> (g1: Grid)
    requires
        fits(columns, until),
        !stops(t, p, until),
    ensures
        ({
            let g0 = Grid { rows, cells: Seq::empty(), cell: Seq::empty() };
            let (cells, n) = row_of(t, p, until, columns);
            let (all, m) = grid(t, p + n, until, columns, g1);
            &&& grid(t, p, until, columns, g0) == (all, n + m)
            &&& g1.rows == rows
            &&& g1.cells.push(row(g1.cell)) == cells
            &&& stops(t, p + n, until) || mark_at(t, p + n, "#"@)
            &&& n > 0 ==> !g1.last_row_blank()
        }),
{
    let g0 = Grid { rows, cells: Seq::empty(), cell: Seq::empty() };
    let none: Seq<EqTree> = Seq::empty();
    match columns {
        Columns::Cells => {
            lemma_cells_read(t, p, until, g0);
            let (cells, n) = cells_of(t, p, until);
            assert((g0.cells + cells).drop_last() =~= cells.drop_last());
            let g1 = Grid { rows, cells: cells.drop_last(), cell: all_cell(t, p, until) };
            assert(g1.cells.push(row(g1.cell)) =~= cells);
            g1
        },
        Columns::Gaps => {
            lemma_piece_read(t, p, until, columns, g0);
            lemma_piece_grows(t, p, until, Marks::Gap, none);
            let (line, m) = piece(t, p, until, Marks::Gap, none);
            let g1 = g0.with_cell(line);
            assert(g1.cells.push(row(g1.cell)) =~= seq![row(line)]);
            g1
        },
        Columns::Sides | Columns::FirstOnly => {
            lemma_piece_read(t, p, until, columns, g0);
            lemma_piece_grows(t, p, until, Marks::End, none);
            let (left, n) = piece(t, p, until, Marks::End, none);
            let q = p + n;
            let g = g0.with_cell(left);
            if column_at(t, q, until) {
                lemma_marks_are_no_commands(t, q);
                if columns == Columns::Sides {
                    let end = until->PlaceOrClose_0;
                    lemma_mark_run(t, q, end);
                    let k = mark_run(t, q, until);
                    assert(marks_taken(t, q, until, columns) == k);
                    let h = after_marks(g, columns, k);
                    lemma_piece_read(t, q + k, until, columns, h);
                    let (right, m) = piece(t, q + k, until, Marks::Gap, h.cell);
                    let g1 = h.with_cell(right);
                    assert(g1.cells.push(row(g1.cell)) =~= seq![row(left), row(right)]);
                    g1
                } else {
                    let h = after_marks(g, columns, 1);
                    lemma_piece_read(t, q + 1, until, columns, h);
                    let (right, m) = piece(t, q + 1, until, Marks::Skip, h.cell);
                    let g1 = h.with_cell(right);
                    assert(g1.cells.push(row(g1.cell)) =~= seq![row(left), row(right)]);
                    g1
                }
            } else {
                assert(g.cells.push(row(g.cell)) =~= seq![row(left)]);
                g
            }
        },
    }
}

/// The rows of a grid are the pieces between its row marks.
proof fn lemma_rows_read(
    t: Seq<Tok>,
    p: nat,
    until: Until,
    columns: Columns,
    rows: Seq<Seq<EqTree>>,
)
    requires
        fits(columns, until),
    ensures
        ({
            let g0 = Grid { rows, cells: Seq::empty(), cell: Seq::empty() };
            let (all, m) = grid(t, p, until, columns, g0);
            let no_row: Seq<Seq<EqTree>> = Seq::empty();
            let empty_row: Seq<Seq<EqTree>> = seq![Seq::empty()];
            &&& all.all_rows() == rows + rows_of(t, p, until, columns, no_row).0
            &&& all.all_rows_with_blank() == rows + rows_of(t, p, until, columns, empty_row).0
            &&& m == rows_of(t, p, until, columns, no_row).1
            &&& m == rows_of(t, p, until, columns, empty_row).1
        }),
    decreases rest(t, p),
{
    let g0 = Grid { rows, cells: Seq::empty(), cell: Seq::empty() };
    let no_row: Seq<Seq<EqTree>> = Seq::empty();
    let empty_row: Seq<Seq<EqTree>> = seq![Seq::empty()];
    if stops(t, p, until) {
        assert(rows + no_row =~= rows);
        assert(rows + empty_row =~= rows.push(Seq::empty()));
    } else {
        let g1 = lemma_row_read(t, p, until, columns, rows);
        let (cells, n) = row_of(t, p, until, columns);
        let q = p + n;
        if stops(t, q, until) {
            assert(rows + seq![cells] =~= rows.push(cells));
        } else {
            lemma_marks_are_no_commands(t, q);
            let next = g1.end_row();
            assert(next =~= Grid {
                rows: rows.push(cells),
                cells: Seq::empty(),
                cell: Seq::empty(),
            });
            lemma_rows_read(t, q + 1, until, columns, rows.push(cells));
            let a = rows_of(t, q + 1, until, columns, no_row).0;
            let b = rows_of(t, q + 1, until, columns, empty_row).0;
            assert(rows.push(cells) + a =~= rows + (seq![cells] + a));
            assert(rows.push(cells) + b =~= rows + (seq![cells] + b));
        }
    }
}

/// Where a grid in braces ends: at the brace that closes it.
pub open spec fn in_braces(t: Seq<Tok>, p: nat) -> Until {
    Until::PlaceOrClose(closing(t, p + 1, 1))
}

/// The number of tokens of a grid in braces that are read, the braces among them.
pub open spec fn braced_len(t: Seq<Tok>, p: nat, inner: nat) -> nat {
    1 + inner + taken(t, p + 1 + inner, TokenType::RBrace)
}

/// A matrix in braces has a row for each piece between row marks, and in it a cell for each piece
/// between column marks. A last row of which nothing is written has no cell.
pub proof fn law_matrix_rows(t: Seq<Tok>, p: nat, style: MatrixStyle)
    requires
        kind_at(t, p) == TokenType::LBrace,
    ensures
        ({
            let (rows, n) = rows_of(
                t,
                p + 1,
                in_braces(t, p),
                Columns::Cells,
                seq![Seq::empty()],
            );
            matrix(t, p, style) == (EqTree::Matrix { rows, style }, braced_len(t, p, n))
        }),
{
    lemma_rows_read(t, p + 1, in_braces(t, p), Columns::Cells, Seq::empty());
    let (rows, n) = rows_of(t, p + 1, in_braces(t, p), Columns::Cells, seq![Seq::empty()]);
    assert(Seq::<Seq<EqTree>>::empty() + rows =~= rows);
}

/// Cases and piles in braces have a line for each piece between row marks, in which column marks
/// are gaps. A last line of which nothing is written is left out.
pub proof fn law_lines(t: Seq<Tok>, p: nat, align: PileAlign)
    requires
        kind_at(t, p) == TokenType::LBrace,
    ensures
        ({
            let (rows, n) = rows_of(t, p + 1, in_braces(t, p), Columns::Gaps, Seq::empty());
            let lines = rows.map_values(|cells: Seq<EqTree>| cells[0]);
            &&& cases(t, p) == (EqTree::Cases { rows: lines }, braced_len(t, p, n))
            &&& pile(t, p, align) == (EqTree::Pile { rows: lines, align }, braced_len(t, p, n))
        }),
{
    lemma_rows_read(t, p + 1, in_braces(t, p), Columns::Gaps, Seq::empty());
    let (rows, n) = rows_of(t, p + 1, in_braces(t, p), Columns::Gaps, Seq::empty());
    assert(Seq::<Seq<EqTree>>::empty() + rows =~= rows);
    let g = braced_grid(t, p, Columns::Gaps).0;
    lemma_rows_have_cells(t, p + 1, in_braces(t, p), Columns::Gaps);
    assert(g.lines() =~= rows.map_values(|cells: Seq<EqTree>| cells[0]));
}

/// Aligned lines in braces have two sides each: what stands before the first column mark, and
/// what stands behind the marks that follow on it, in which further marks are gaps. Two or more
/// marks between the sides leave a gap at the start of the right side. A side that is missing is
/// empty.
pub proof fn law_aligned_sides(t: Seq<Tok>, p: nat)
    requires
        kind_at(t, p) == TokenType::LBrace,
    ensures
        ({
            let (rows, n) = rows_of(t, p + 1, in_braces(t, p), Columns::Sides, Seq::empty());
            let sides = rows.map_values(|cells: Seq<EqTree>| sides_of(cells));
            aligned(t, p) == (EqTree::EqAlign { rows: sides }, braced_len(t, p, n))
        }),
{
    lemma_rows_read(t, p + 1, in_braces(t, p), Columns::Sides, Seq::empty());
    let (rows, n) = rows_of(t, p + 1, in_braces(t, p), Columns::Sides, Seq::empty());
    assert(Seq::<Seq<EqTree>>::empty() + rows =~= rows);
    let g = braced_grid(t, p, Columns::Sides).0;
    lemma_rows_have_cells(t, p + 1, in_braces(t, p), Columns::Sides);
    assert(g.sides() =~= rows.map_values(|cells: Seq<EqTree>| sides_of(cells)));
}

/// The two sides of a row of one or two cells.
pub open spec fn sides_of(cells: Seq<EqTree>) -> (EqTree, EqTree) {
    (
        cells[0],
        if cells.len() == 2 {
            cells[1]
        } else {
            EqTree::Empty
        },
    )
}

/// Every row has a cell, and where a row has sides it has two cells at most.
proof fn lemma_rows_have_cells(t: Seq<Tok>, p: nat, until: Until, columns: Columns)
    ensures
        forall|i: int|
            0 <= i < rows_of(t, p, until, columns, Seq::empty()).0.len() ==> {
                let cells = #[trigger] rows_of(t, p, until, columns, Seq::empty()).0[i];
                &&& cells.len() >= 1
                &&& columns != Columns::Cells ==> cells.len() <= 2
                &&& columns == Columns::Gaps ==> cells.len() == 1
            },
    decreases rest(t, p),
{
    if !stops(t, p, until) {
        let (cells, n) = row_of(t, p, until, columns);
        if columns == Columns::Cells {
            assert(cells_of(t, p, until).0.len() >= 1);
        }
        if !stops(t, p + n, until) {
            lemma_rows_have_cells(t, p + n + 1, until, columns);
            let more = rows_of(t, p + n + 1, until, columns, Seq::empty()).0;
            assert(rows_of(t, p, until, columns, Seq::empty()).0 == seq![cells] + more);
            assert forall|i: int| 0 <= i < (seq![cells] + more).len() implies {
                let c = #[trigger] (seq![cells] + more)[i];
                &&& c.len() >= 1
                &&& columns != Columns::Cells ==> c.len() <= 2
                &&& columns == Columns::Gaps ==> c.len() == 1
            } by {
                if i > 0 {
                    assert((seq![cells] + more)[i] == more[i - 1]);
                }
            }
        }
    }
}

/// An environment between `\begin` and `\end` has the rows that it would have in braces, except
/// that a last row of which nothing is written is left out, and that column marks of aligned lines
/// behind the first one of a line stand for nothing. It takes up its name, its rows and the
/// `\end` with its argument.
pub proof fn law_environment_rows(t: Seq<Tok>, p: nat)
    ensures
        ({
            let (name, a) = brace_arg(t, p);
            let until = Until::EnvEnd(name);
            let none: Seq<Seq<EqTree>> = Seq::empty();
            let (rows, n) = rows_of(t, p + a, until, Columns::Cells, none);
            let (lines, k) = rows_of(t, p + a, until, Columns::Gaps, none);
            let (pairs, m) = rows_of(t, p + a, until, Columns::FirstOnly, none);
            match env_kind(name) {
                EnvKind::Matrix(style) => environment(t, p) == (
                    EqTree::Matrix { rows, style },
                    a + n + env_end_len(t, p + a + n),
                ),
                EnvKind::Cases => environment(t, p) == (
                    EqTree::Cases { rows: lines.map_values(|cells: Seq<EqTree>| cells[0]) },
                    a + k + env_end_len(t, p + a + k),
                ),
                EnvKind::Aligned => environment(t, p) == (
                    EqTree::EqAlign {
                        rows: pairs.map_values(|cells: Seq<EqTree>| sides_of(cells)),
                    },
                    a + m + env_end_len(t, p + a + m),
                ),
                EnvKind::Unknown => environment(t, p) == (EqTree::Empty, a),
            }
        }),
{
    let (name, a) = brace_arg(t, p);
    let until = Until::EnvEnd(name);
    let none: Seq<Seq<EqTree>> = Seq::empty();
    let kind = env_kind(name);
    let columns = match kind {
        EnvKind::Matrix(style) => Columns::Cells,
        EnvKind::Cases => Columns::Gaps,
        _ => Columns::FirstOnly,
    };
    lemma_rows_read(t, p + a, until, columns, none);
    lemma_rows_have_cells(t, p + a, until, columns);
    let rows = rows_of(t, p + a, until, columns, none).0;
    assert(none + rows =~= rows);
    let g = env_grid(t, p + a, name, columns).0;
    if kind == EnvKind::Cases {
        assert(g.lines() =~= rows.map_values(|cells: Seq<EqTree>| cells[0]));
    } else if kind == EnvKind::Aligned {
        assert(g.sides() =~= rows.map_values(|cells: Seq<EqTree>| sides_of(cells)));
    }
}

/// How many column marks stand in a row outside of its elements.
pub open spec fn marks_in_row(t: Seq<Tok>, p: nat, until: Until) -> nat
    decreases rest(t, p),
{
    if stops(t, p, until) || mark_at(t, p, "#"@) {
        0
    } else if mark_at(t, p, "&"@) {
        1 + marks_in_row(t, p + 1, until)
    } else if infix_at(t, p) {
        marks_in_row(t, p + 1 + element(t, p + 1).1, until)
    } else if element(t, p).1 == 0 {
        0
    } else {
        marks_in_row(t, p + element(t, p).1, until)
    }
}

/// A row of a matrix has one cell more than it has column marks outside of its elements.
pub proof fn law_row_has_one_cell_more(t: Seq<Tok>, p: nat, until: Until)
    ensures
        cells_of(t, p, until).0.len() == 1 + marks_in_row(t, p, until),
    decreases rest(t, p),
{
    let (cell, n) = piece(t, p, until, Marks::End, Seq::empty());
    lemma_piece_passes_no_mark(t, p, until, Seq::empty());
    lemma_marks_are_no_commands(t, p + n);
    if column_at(t, p + n, until) {
        law_row_has_one_cell_more(t, p + n + 1, until);
    }
}

proof fn lemma_piece_passes_no_mark(t: Seq<Tok>, p: nat, until: Until, acc: Seq<EqTree>)
    ensures
        ({
            let q = p + piece(t, p, until, Marks::End, acc).1;
            &&& marks_in_row(t, p, until) == marks_in_row(t, q, until)
            &&& piece_ends(t, q, until, Marks::End)
        }),
    decreases rest(t, p),
{
    if !piece_ends(t, p, until, Marks::End) {
        if infix_at(t, p) {
            let (bottom, n) = element(t, p + 1);
            lemma_piece_passes_no_mark(t, p + 1 + n, until, infixed(t, p, acc, bottom));
        } else {
            law_element_advances(t, p);
            let (node, n) = element(t, p);
            lemma_piece_passes_no_mark(t, p + n, until, acc.push(node));
        }
    }
}

} // verus!
