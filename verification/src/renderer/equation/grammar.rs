//! What a list of tokens means: the grammar of equation scripts as functions from a list of
//! tokens and a place in it to a tree and the number of tokens that the tree takes up.

use super::ast::{row, EqTree, FontStyleKind, MatrixStyle, PileAlign, SpaceKind};
use super::commands::{
    big_symbol, command_kind, integral_symbol, keyword_kind, law_signs_in_any_case,
    law_words_in_any_case, layout_kind, CommandKind,
};
use super::symbols::{function, structure_command, symbol};
use super::tokenizer::{Tok, TokenType};
use crate::text::{same_word, upper};
use vstd::prelude::*;

verus! {

/// The kind of the token at a place; past the last token everything is an end mark.
pub open spec fn kind_at(t: Seq<Tok>, p: nat) -> TokenType {
    if p < t.len() {
        t[p as int].ty
    } else {
        TokenType::Eof
    }
}

/// The characters of the token at a place.
pub open spec fn word_at(t: Seq<Tok>, p: nat) -> Seq<char> {
    if p < t.len() {
        t[p as int].value
    } else {
        Seq::empty()
    }
}

/// Whether nothing is left to read at a place.
pub open spec fn ended(t: Seq<Tok>, p: nat) -> bool {
    kind_at(t, p) == TokenType::Eof
}

/// Whether a command of the given name, in any case, stands at a place.
pub open spec fn command_at(t: Seq<Tok>, p: nat, name: Seq<char>) -> bool {
    kind_at(t, p) == TokenType::Command && same_word(word_at(t, p), name)
}

/// Whether the given layout mark stands at a place.
pub open spec fn mark_at(t: Seq<Tok>, p: nat, mark: Seq<char>) -> bool {
    kind_at(t, p) == TokenType::Whitespace && word_at(t, p) == mark
}

/// Whether `OVER` or `ATOP` stands at a place.
pub open spec fn infix_at(t: Seq<Tok>, p: nat) -> bool {
    command_at(t, p, "OVER"@) || command_at(t, p, "ATOP"@)
}

/// One where a token of a kind stands at a place, none otherwise.
pub open spec fn taken(t: Seq<Tok>, p: nat, ty: TokenType) -> nat {
    if kind_at(t, p) == ty {
        1
    } else {
        0
    }
}

/// How many tokens are left from a place on.
pub open spec fn rest(t: Seq<Tok>, p: nat) -> nat {
    if p < t.len() {
        (t.len() - p) as nat
    } else {
        0
    }
}

/// The place of the brace that closes `depth` open ones, read from a place on, or the end.
pub open spec fn closing(t: Seq<Tok>, p: nat, depth: nat) -> nat
    decreases rest(t, p),
{
    if p >= t.len() {
        t.len()
    } else if t[p as int].ty == TokenType::LBrace {
        closing(t, p + 1, depth + 1)
    } else if t[p as int].ty == TokenType::RBrace {
        if depth <= 1 {
            p
        } else {
            closing(t, p + 1, (depth - 1) as nat)
        }
    } else {
        closing(t, p + 1, depth)
    }
}

/// The place of the `RIGHT` that closes `depth` open `LEFT`s, read from a place on, or the
/// end.
pub open spec fn closing_right(t: Seq<Tok>, p: nat, depth: nat) -> nat
    decreases rest(t, p),
{
    if p >= t.len() {
        t.len()
    } else if command_at(t, p, "LEFT"@) {
        closing_right(t, p + 1, depth + 1)
    } else if command_at(t, p, "RIGHT"@) {
        if depth <= 1 {
            p
        } else {
            closing_right(t, p + 1, (depth - 1) as nat)
        }
    } else {
        closing_right(t, p + 1, depth)
    }
}

/// The place of the first `OVER`, from a place on, that stands inside no brace and no
/// `LEFT` of those read before it.
pub open spec fn top_over(t: Seq<Tok>, p: nat, braces: int, fences: int) -> Option<nat>
    decreases rest(t, p),
{
    if p >= t.len() {
        None
    } else if t[p as int].ty == TokenType::LBrace {
        top_over(t, p + 1, braces + 1, fences)
    } else if t[p as int].ty == TokenType::RBrace {
        top_over(t, p + 1, braces - 1, fences)
    } else if command_at(t, p, "LEFT"@) {
        top_over(t, p + 1, braces, fences + 1)
    } else if command_at(t, p, "RIGHT"@) {
        top_over(t, p + 1, braces, fences - 1)
    } else if command_at(t, p, "OVER"@) && braces == 0 && fences == 0 {
        Some(p)
    } else {
        top_over(t, p + 1, braces, fences)
    }
}

/// How many column marks stand in a row from a place on, up to a limit.
pub open spec fn column_marks(t: Seq<Tok>, p: nat, end: nat) -> nat
    decreases rest(t, p),
{
    if p < end && mark_at(t, p, "&"@) {
        1 + column_marks(t, p + 1, end)
    } else {
        0
    }
}

/// How many tokens stand before the next closing brace or the end of the script.
pub open spec fn arg_len(t: Seq<Tok>, p: nat) -> nat
    decreases rest(t, p),
{
    if ended(t, p) || kind_at(t, p) == TokenType::RBrace {
        0
    } else {
        1 + arg_len(t, p + 1)
    }
}

/// The characters of the `n` tokens from a place on.
pub open spec fn joined(t: Seq<Tok>, p: nat, n: nat) -> Seq<char>
    decreases n,
{
    if n == 0 {
        Seq::empty()
    } else {
        joined(t, p, (n - 1) as nat) + word_at(t, (p + n - 1) as nat)
    }
}

/// How many tokens stand before the next closing brace or the end of the list.
pub open spec fn name_len(t: Seq<Tok>, p: nat) -> nat
    decreases rest(t, p),
{
    if p >= t.len() || t[p as int].ty == TokenType::RBrace {
        0
    } else {
        1 + name_len(t, p + 1)
    }
}

/// The text of a braced argument, and the number of tokens that it takes up: none where no
/// brace opens.
pub open spec fn brace_arg(t: Seq<Tok>, p: nat) -> (Seq<char>, nat) {
    if kind_at(t, p) == TokenType::LBrace {
        let n = arg_len(t, p + 1);
        (joined(t, p + 1, n), 1 + n + taken(t, p + 1 + n, TokenType::RBrace))
    } else {
        (Seq::empty(), 0)
    }
}

/// Whether `\end{name}` stands at a place.
pub open spec fn env_end_at(t: Seq<Tok>, p: nat, name: Seq<char>) -> bool {
    &&& command_at(t, p, "end"@)
    &&& kind_at(t, p + 1) == TokenType::LBrace
    &&& same_word(joined(t, p + 2, name_len(t, p + 2)), name)
}

/// How many tokens an `\end` with its argument takes up at a place.
pub open spec fn env_end_len(t: Seq<Tok>, p: nat) -> nat {
    if command_at(t, p, "end"@) {
        1 + brace_arg(t, p + 1).1
    } else {
        0
    }
}

/// Where a list of nodes stops.
pub enum Until {
    /// At a closing brace.
    Close,
    /// At a closing brace or at `RIGHT`.
    CloseOrRight,
    /// At a closing brace or at `OVER`.
    CloseOrOver,
    /// At a closing square bracket.
    Bracket,
    /// At a closing parenthesis.
    Paren,
    /// At a place.
    Place(nat),
    /// At a place or at `OVER`.
    PlaceOrOver(nat),
    /// At a place or at `RIGHT`.
    PlaceOrRight(nat),
    /// At a place or at a closing brace.
    PlaceOrClose(nat),
    /// At `\end{name}`.
    EnvEnd(Seq<char>),
}

/// Whether a list stops at a place. Every list stops at the end of the script.
pub open spec fn stops(t: Seq<Tok>, p: nat, until: Until) -> bool {
    ended(t, p) || match until {
        Until::Close => kind_at(t, p) == TokenType::RBrace,
        Until::CloseOrRight => kind_at(t, p) == TokenType::RBrace || command_at(t, p, "RIGHT"@),
        Until::CloseOrOver => kind_at(t, p) == TokenType::RBrace || command_at(t, p, "OVER"@),
        Until::Bracket => kind_at(t, p) == TokenType::RBracket,
        Until::Paren => kind_at(t, p) == TokenType::RParen,
        Until::Place(end) => p >= end,
        Until::PlaceOrOver(end) => p >= end || command_at(t, p, "OVER"@),
        Until::PlaceOrRight(end) => p >= end || command_at(t, p, "RIGHT"@),
        Until::PlaceOrClose(end) => p >= end || kind_at(t, p) == TokenType::RBrace,
        Until::EnvEnd(name) => env_end_at(t, p, name),
    }
}

/// The node before an infix and the node after it, put on top of each other.
pub open spec fn stacked(t: Seq<Tok>, p: nat, top: EqTree, bottom: EqTree) -> EqTree {
    if command_at(t, p, "ATOP"@) {
        EqTree::Atop { top: Box::new(top), bottom: Box::new(bottom) }
    } else {
        EqTree::Fraction { numer: Box::new(top), denom: Box::new(bottom) }
    }
}

/// A list whose last node has become the upper part of the infix at a place; in an empty
/// list the upper part is empty.
pub open spec fn infixed(t: Seq<Tok>, p: nat, acc: Seq<EqTree>, bottom: EqTree) -> Seq<EqTree> {
    if acc.len() == 0 {
        seq![stacked(t, p, EqTree::Empty, bottom)]
    } else {
        acc.drop_last().push(stacked(t, p, acc.last(), bottom))
    }
}

/// The nodes from a place up to where the list stops, after those already read. With `infix`
/// a list combines its nodes by `OVER` and `ATOP`; without it these two stand for nothing.
pub open spec fn nodes(
    t: Seq<Tok>,
    p: nat,
    until: Until,
    infix: bool,
    acc: Seq<EqTree>,
) -> (Seq<EqTree>, nat)
    decreases rest(t, p), 5nat,
{
    if stops(t, p, until) {
        (acc, 0)
    } else if infix && infix_at(t, p) {
        let (bottom, n) = element(t, p + 1);
        let (all, m) = nodes(t, p + 1 + n, until, infix, infixed(t, p, acc, bottom));
        (all, 1 + n + m)
    } else {
        let (node, n) = element(t, p);
        if n == 0 {
            (acc.push(node), 0)
        } else {
            let (all, m) = nodes(t, p + n, until, infix, acc.push(node));
            (all, n + m)
        }
    }
}

/// How a grid reads the column mark.
#[derive(Clone, Copy, PartialEq, Eq, Structural)]
pub enum Columns {
    /// As a node, a gap in the line.
    Gaps,
    /// Each mark ends a cell.
    Cells,
    /// The first marks of a row end its left side; two or more of them, and any later ones,
    /// leave gaps on the right side.
    Sides,
    /// The first mark of a row ends its left side; later ones stand for nothing.
    FirstOnly,
}

/// A grid that is being read: the finished rows, the finished cells of the row being read and
/// the nodes of the cell being read.
#[verifier::ext_equal]
pub struct Grid {
    pub rows: Seq<Seq<EqTree>>,
    pub cells: Seq<EqTree>,
    pub cell: Seq<EqTree>,
}

/// A grid of which nothing has been read.
pub open spec fn no_grid() -> Grid {
    Grid { rows: Seq::empty(), cells: Seq::empty(), cell: Seq::empty() }
}

/// A gap at a column mark.
pub open spec fn gap() -> EqTree {
    EqTree::Space(SpaceKind::Tab)
}

impl Grid {
    /// The grid with the cell being read ended.
    pub open spec fn end_cell(self) -> Grid {
        Grid { rows: self.rows, cells: self.cells.push(row(self.cell)), cell: Seq::empty() }
    }

    /// The grid with the row being read ended.
    pub open spec fn end_row(self) -> Grid {
        Grid {
            rows: self.rows.push(self.cells.push(row(self.cell))),
            cells: Seq::empty(),
            cell: Seq::empty(),
        }
    }

    /// The grid with other nodes in the cell being read.
    pub open spec fn with_cell(self, cell: Seq<EqTree>) -> Grid {
        Grid { rows: self.rows, cells: self.cells, cell }
    }

    /// Whether nothing has been read of the last row.
    pub open spec fn last_row_blank(self) -> bool {
        self.cells.len() == 0 && self.cell.len() == 0
    }

    /// The rows; a last row of which nothing has been read is left out.
    pub open spec fn all_rows(self) -> Seq<Seq<EqTree>> {
        if self.last_row_blank() {
            self.rows
        } else {
            self.end_row().rows
        }
    }

    /// The rows; a last row of which nothing has been read has no cell.
    pub open spec fn all_rows_with_blank(self) -> Seq<Seq<EqTree>> {
        if self.last_row_blank() {
            self.rows.push(Seq::empty())
        } else {
            self.end_row().rows
        }
    }

    /// The first cell of each row.
    pub open spec fn lines(self) -> Seq<EqTree> {
        self.all_rows().map_values(|cells: Seq<EqTree>| first_cell(cells))
    }

    /// The first two cells of each row; the second is empty where there is none.
    pub open spec fn sides(self) -> Seq<(EqTree, EqTree)> {
        self.all_rows().map_values(|cells: Seq<EqTree>| (first_cell(cells), second_cell(cells)))
    }
}

/// The first cell of a row.
pub open spec fn first_cell(cells: Seq<EqTree>) -> EqTree {
    if cells.len() > 0 {
        cells[0]
    } else {
        EqTree::Empty
    }
}

/// The second cell of a row.
pub open spec fn second_cell(cells: Seq<EqTree>) -> EqTree {
    if cells.len() > 1 {
        cells[1]
    } else {
        EqTree::Empty
    }
}

/// The limit up to which column marks are counted together.
pub open spec fn marks_end(t: Seq<Tok>, until: Until) -> nat {
    match until {
        Until::PlaceOrClose(end) => end,
        _ => t.len(),
    }
}

/// The grid after `n` column marks in a row.
pub open spec fn after_marks(g: Grid, columns: Columns, n: nat) -> Grid {
    match columns {
        Columns::Gaps => g.with_cell(g.cell.push(gap())),
        Columns::Cells => g.end_cell(),
        Columns::Sides => if g.cells.len() > 0 {
            g.with_cell(g.cell + Seq::new(n, |i: int| gap()))
        } else if n >= 2 {
            g.end_cell().with_cell(seq![gap()])
        } else {
            g.end_cell()
        },
        Columns::FirstOnly => if g.cells.len() > 0 {
            g
        } else {
            g.end_cell()
        },
    }
}

/// How many column marks are read together.
pub open spec fn marks_taken(t: Seq<Tok>, p: nat, until: Until, columns: Columns) -> nat {
    if columns == Columns::Sides {
        column_marks(t, p, marks_end(t, until))
    } else {
        1
    }
}

/// The grid from a place up to where it stops, after what has already been read of it.
pub open spec fn grid(t: Seq<Tok>, p: nat, until: Until, columns: Columns, g: Grid) -> (Grid, nat)
    decreases rest(t, p), 5nat,
{
    if stops(t, p, until) {
        (g, 0)
    } else if mark_at(t, p, "#"@) {
        let (all, m) = grid(t, p + 1, until, columns, g.end_row());
        (all, 1 + m)
    } else if mark_at(t, p, "&"@) {
        let n = marks_taken(t, p, until, columns);
        if n == 0 {
            (g, 0)
        } else {
            let (all, m) = grid(t, p + n, until, columns, after_marks(g, columns, n));
            (all, n + m)
        }
    } else if infix_at(t, p) {
        let (bottom, n) = element(t, p + 1);
        let (all, m) = grid(
            t,
            p + 1 + n,
            until,
            columns,
            g.with_cell(infixed(t, p, g.cell, bottom)),
        );
        (all, 1 + n + m)
    } else {
        let (node, n) = element(t, p);
        if n == 0 {
            (g.with_cell(g.cell.push(node)), 0)
        } else {
            let (all, m) = grid(t, p + n, until, columns, g.with_cell(g.cell.push(node)));
            (all, n + m)
        }
    }
}

/// The node of a layout mark.
pub open spec fn mark_node(mark: Seq<char>) -> EqTree {
    if mark == "~"@ {
        EqTree::Space(SpaceKind::Normal)
    } else if mark == "`"@ {
        EqTree::Space(SpaceKind::Thin)
    } else if mark == "#"@ {
        EqTree::Newline
    } else if mark == "&"@ {
        EqTree::Space(SpaceKind::Tab)
    } else {
        EqTree::Empty
    }
}

/// One element: a token, a group or a command with all that belongs to it.
pub open spec fn element(t: Seq<Tok>, p: nat) -> (EqTree, nat)
    decreases rest(t, p), 4nat,
{
    let w = word_at(t, p);
    match kind_at(t, p) {
        TokenType::Eof => (EqTree::Empty, 0),
        TokenType::Command => {
            let (node, n) = command(t, p + 1, w);
            (node, 1 + n)
        },
        TokenType::Number => {
            let (node, n) = scripted(t, p + 1, EqTree::Number(w));
            (node, 1 + n)
        },
        TokenType::Text => {
            let (node, n) = scripted(t, p + 1, EqTree::Text(w));
            (node, 1 + n)
        },
        TokenType::Quoted => {
            let (node, n) = scripted(t, p + 1, EqTree::Quoted(w));
            (node, 1 + n)
        },
        TokenType::Symbol => if w == "->"@ {
            (EqTree::MathSymbol("→"@), 1)
        } else {
            (EqTree::Symbol(w), 1)
        },
        TokenType::Whitespace => (mark_node(w), 1),
        TokenType::LBrace => {
            let (inner, n) = group(t, p);
            let (node, m) = scripted(t, p + n, inner);
            (node, n + m)
        },
        TokenType::LParen | TokenType::RParen | TokenType::LBracket | TokenType::RBracket => (
            EqTree::Symbol(w),
            1,
        ),
        TokenType::Subscript | TokenType::Superscript => scripted(t, p, EqTree::Empty),
        TokenType::RBrace => (EqTree::Empty, 1),
    }
}

/// A braced group; where no brace opens, one element.
pub open spec fn group(t: Seq<Tok>, p: nat) -> (EqTree, nat)
    decreases
            rest(t, p),
            if kind_at(t, p) == TokenType::LBrace {
                1nat
            } else {
                5nat
            },
{
    if kind_at(t, p) == TokenType::LBrace {
        let (inner, n) = nodes(t, p + 1, Until::Close, true, Seq::empty());
        (row(inner), 1 + n + taken(t, p + 1 + n, TokenType::RBrace))
    } else {
        element(t, p)
    }
}

/// An argument: a group or one token, and nothing before a closing brace.
pub open spec fn single(t: Seq<Tok>, p: nat) -> (EqTree, nat)
    decreases rest(t, p), 3nat,
{
    let w = word_at(t, p);
    match kind_at(t, p) {
        TokenType::Eof | TokenType::RBrace => (EqTree::Empty, 0),
        TokenType::LBrace => group(t, p),
        TokenType::Command => (
            match symbol(w) {
                Some(s) => EqTree::MathSymbol(s),
                None => match function(w) {
                    Some(f) => EqTree::Function(f),
                    None => EqTree::Text(w),
                },
            },
            1,
        ),
        TokenType::Number => (EqTree::Number(w), 1),
        TokenType::Quoted => (EqTree::Quoted(w), 1),
        TokenType::Symbol => (EqTree::Symbol(w), 1),
        _ => (EqTree::Text(w), 1),
    }
}

/// Whether a script stands at a place.
pub open spec fn script_at(t: Seq<Tok>, p: nat) -> bool {
    kind_at(t, p) == TokenType::Subscript || kind_at(t, p) == TokenType::Superscript
}

/// One where a thin space stands before a script, none otherwise.
pub open spec fn thin_before_script(t: Seq<Tok>, p: nat) -> nat {
    if mark_at(t, p, "`"@) && script_at(t, p + 1) {
        1
    } else {
        0
    }
}

/// The scripts from a place on, at most one of each kind, after those already read.
pub open spec fn scripts(
    t: Seq<Tok>,
    p: nat,
    sub: Option<EqTree>,
    sup: Option<EqTree>,
) -> (Option<EqTree>, Option<EqTree>, nat)
    decreases rest(t, p), 1nat,
{
    if ended(t, p) {
        (sub, sup, 0)
    } else {
        let thin = thin_before_script(t, p);
        let q = p + thin;
        if kind_at(t, q) == TokenType::Subscript && sub is None {
            let (body, n) = single(t, q + 1);
            let (a, b, m) = scripts(t, q + 1 + n, Some(body), sup);
            (a, b, thin + 1 + n + m)
        } else if kind_at(t, q) == TokenType::Superscript && sup is None {
            let (body, n) = single(t, q + 1);
            let (a, b, m) = scripts(t, q + 1 + n, sub, Some(body));
            (a, b, thin + 1 + n + m)
        } else {
            (sub, sup, thin)
        }
    }
}

/// A node with its scripts.
pub open spec fn with_scripts(base: EqTree, sub: Option<EqTree>, sup: Option<EqTree>) -> EqTree {
    match (sub, sup) {
        (Some(a), Some(b)) => EqTree::SubSup {
            base: Box::new(base),
            sub: Box::new(a),
            sup: Box::new(b),
        },
        (Some(a), None) => EqTree::Subscript { base: Box::new(base), sub: Box::new(a) },
        (None, Some(b)) => EqTree::Superscript { base: Box::new(base), sup: Box::new(b) },
        (None, None) => base,
    }
}

/// A node with the scripts that follow it.
pub open spec fn scripted(t: Seq<Tok>, p: nat, base: EqTree) -> (EqTree, nat)
    decreases rest(t, p), 2nat,
{
    let (sub, sup, n) = scripts(t, p, None, None);
    (with_scripts(base, sub, sup), n)
}

/// The scripts of a big operator, which no thin space may part from it.
pub open spec fn limits(
    t: Seq<Tok>,
    p: nat,
    sub: Option<EqTree>,
    sup: Option<EqTree>,
) -> (Option<EqTree>, Option<EqTree>, nat)
    decreases rest(t, p), 1nat,
{
    if kind_at(t, p) == TokenType::Subscript && sub is None {
        let (body, n) = single(t, p + 1);
        let (a, b, m) = limits(t, p + 1 + n, Some(body), sup);
        (a, b, 1 + n + m)
    } else if kind_at(t, p) == TokenType::Superscript && sup is None {
        let (body, n) = single(t, p + 1);
        let (a, b, m) = limits(t, p + 1 + n, sub, Some(body));
        (a, b, 1 + n + m)
    } else {
        (sub, sup, 0)
    }
}

/// An optional tree in a box.
pub open spec fn boxed(o: Option<EqTree>) -> Option<Box<EqTree>> {
    match o {
        Some(n) => Some(Box::new(n)),
        None => None,
    }
}

/// A big operator with its limits.
pub open spec fn big_op(t: Seq<Tok>, p: nat, sign: Seq<char>) -> (EqTree, nat)
    decreases rest(t, p), 6nat,
{
    let (sub, sup, n) = limits(t, p, None, None);
    (EqTree::BigOp { symbol: sign, sub: boxed(sub), sup: boxed(sup) }, n)
}

/// A limit with what stands under it.
pub open spec fn limit(t: Seq<Tok>, p: nat, is_upper: bool) -> (EqTree, nat)
    decreases rest(t, p), 6nat,
{
    if kind_at(t, p) == TokenType::Subscript {
        let (body, n) = single(t, p + 1);
        (EqTree::Limit { is_upper, sub: Some(Box::new(body)) }, 1 + n)
    } else {
        (EqTree::Limit { is_upper, sub: None }, 0)
    }
}

/// A root: its index, in brackets, in parentheses or in braces before `of`, and its body.
pub open spec fn root(t: Seq<Tok>, p: nat) -> (EqTree, nat)
    decreases rest(t, p), 6nat,
{
    if kind_at(t, p) == TokenType::LBracket {
        let (index, n) = nodes(t, p + 1, Until::Bracket, false, Seq::empty());
        let q = p + 1 + n + taken(t, p + 1 + n, TokenType::RBracket);
        let (body, m) = single(t, q);
        (
            EqTree::Sqrt { index: Some(Box::new(row(index))), body: Box::new(body) },
            (q - p + m) as nat,
        )
    } else if kind_at(t, p) == TokenType::LParen {
        let (index, n) = nodes(t, p + 1, Until::Paren, false, Seq::empty());
        let q = p + 1 + n + taken(t, p + 1 + n, TokenType::RParen);
        let of: nat = if command_at(t, q, "of"@) {
            1
        } else {
            0
        };
        let (body, m) = single(t, q + of);
        (
            EqTree::Sqrt { index: Some(Box::new(row(index))), body: Box::new(body) },
            (q - p + of + m) as nat,
        )
    } else if kind_at(t, p) == TokenType::LBrace && command_at(t, closing(t, p + 1, 1) + 1, "of"@) {
        let (index, n) = group(t, p);
        let of: nat = if command_at(t, p + n, "of"@) {
            1
        } else {
            0
        };
        let (body, m) = single(t, p + n + of);
        (EqTree::Sqrt { index: Some(Box::new(index)), body: Box::new(body) }, n + of + m)
    } else {
        let (body, n) = single(t, p);
        (EqTree::Sqrt { index: None, body: Box::new(body) }, n)
    }
}

/// The grid in a pair of braces, and the number of tokens that it takes up with them.
pub open spec fn braced_grid(t: Seq<Tok>, p: nat, columns: Columns) -> (Grid, nat)
    decreases rest(t, p), 6nat,
{
    let until = Until::PlaceOrClose(closing(t, p + 1, 1));
    let (g, n) = grid(t, p + 1, until, columns, no_grid());
    (g, 1 + n + taken(t, p + 1 + n, TokenType::RBrace))
}

/// A matrix, rows parted by `#` and cells by `&`.
pub open spec fn matrix(t: Seq<Tok>, p: nat, style: MatrixStyle) -> (EqTree, nat)
    decreases rest(t, p), 7nat,
{
    if kind_at(t, p) == TokenType::LBrace {
        let (g, n) = braced_grid(t, p, Columns::Cells);
        (EqTree::Matrix { rows: g.all_rows_with_blank(), style }, n)
    } else {
        (EqTree::Empty, 0)
    }
}

/// A distinction of cases, one on each line.
pub open spec fn cases(t: Seq<Tok>, p: nat) -> (EqTree, nat)
    decreases rest(t, p), 7nat,
{
    if kind_at(t, p) == TokenType::LBrace {
        let (g, n) = braced_grid(t, p, Columns::Gaps);
        (EqTree::Cases { rows: g.lines() }, n)
    } else {
        (EqTree::Empty, 0)
    }
}

/// A pile of lines.
pub open spec fn pile(t: Seq<Tok>, p: nat, align: PileAlign) -> (EqTree, nat)
    decreases rest(t, p), 7nat,
{
    if kind_at(t, p) == TokenType::LBrace {
        let (g, n) = braced_grid(t, p, Columns::Gaps);
        (EqTree::Pile { rows: g.lines(), align }, n)
    } else {
        (EqTree::Empty, 0)
    }
}

/// Lines aligned at a column mark.
pub open spec fn aligned(t: Seq<Tok>, p: nat) -> (EqTree, nat)
    decreases rest(t, p), 7nat,
{
    if kind_at(t, p) == TokenType::LBrace {
        let (g, n) = braced_grid(t, p, Columns::Sides);
        (EqTree::EqAlign { rows: g.sides() }, n)
    } else {
        (EqTree::Empty, 0)
    }
}

/// The kinds of `\begin` environment.
#[derive(Clone, Copy, PartialEq, Eq, Structural)]
pub enum EnvKind {
    Matrix(MatrixStyle),
    Cases,
    Aligned,
    Unknown,
}

/// The kind of environment that a name selects, in any case.
pub open spec fn env_kind(name: Seq<char>) -> EnvKind {
    let u = upper(name);
    if u == "PMATRIX"@ {
        EnvKind::Matrix(MatrixStyle::Paren)
    } else if u == "BMATRIX"@ {
        EnvKind::Matrix(MatrixStyle::Bracket)
    } else if u == "VMATRIX"@ || u == "BVMATRIX"@ {
        EnvKind::Matrix(MatrixStyle::Vert)
    } else if u == "SMALLMATRIX"@ || u == "MATRIX"@ || u == "ARRAY"@ {
        EnvKind::Matrix(MatrixStyle::Plain)
    } else if u == "CASES"@ {
        EnvKind::Cases
    } else if u == "ALIGNED"@ || u == "ALIGN"@ || u == "EQNARRAY"@ || u == "SPLIT"@ || u
        == "GATHER"@ || u == "GATHERED"@ {
        EnvKind::Aligned
    } else {
        EnvKind::Unknown
    }
}

/// The grid up to `\end{name}`, and the number of tokens that it takes up with the `\end`.
pub open spec fn env_grid(t: Seq<Tok>, p: nat, name: Seq<char>, columns: Columns) -> (Grid, nat)
    decreases rest(t, p), 6nat,
{
    let (g, n) = grid(t, p, Until::EnvEnd(name), columns, no_grid());
    (g, n + env_end_len(t, p + n))
}

/// An environment after `\begin`. One of an unknown name is empty, and only its name is read.
pub open spec fn environment(t: Seq<Tok>, p: nat) -> (EqTree, nat)
    decreases rest(t, p), 7nat,
{
    let (name, n) = brace_arg(t, p);
    match env_kind(name) {
        EnvKind::Matrix(style) => {
            let (g, m) = env_grid(t, p + n, name, Columns::Cells);
            (EqTree::Matrix { rows: g.all_rows(), style }, n + m)
        },
        EnvKind::Cases => {
            let (g, m) = env_grid(t, p + n, name, Columns::Gaps);
            (EqTree::Cases { rows: g.lines() }, n + m)
        },
        EnvKind::Aligned => {
            let (g, m) = env_grid(t, p + n, name, Columns::FirstOnly);
            (EqTree::EqAlign { rows: g.sides() }, n + m)
        },
        EnvKind::Unknown => (EqTree::Empty, n),
    }
}

/// The fence after `LEFT` or `RIGHT`; a full stop stands for none.
pub open spec fn fence(t: Seq<Tok>, p: nat) -> (Seq<char>, nat) {
    let w = word_at(t, p);
    match kind_at(t, p) {
        TokenType::LParen
        | TokenType::RParen
        | TokenType::LBracket
        | TokenType::RBracket
        | TokenType::LBrace
        | TokenType::RBrace => (w, 1),
        TokenType::Symbol => if w == "."@ {
            (Seq::empty(), 1)
        } else if w == "|"@ {
            (w, 1)
        } else {
            (Seq::empty(), 0)
        },
        TokenType::Command => match symbol(w) {
            Some(s) => (s, 1),
            None => (Seq::empty(), 0),
        },
        _ => (Seq::empty(), 0),
    }
}

/// The whole of an expression, up to a closing brace or a `RIGHT` that nothing opened.
pub open spec fn expression(t: Seq<Tok>, p: nat) -> (EqTree, nat)
    decreases rest(t, p), 6nat,
{
    let (all, n) = nodes(t, p, Until::CloseOrRight, true, Seq::empty());
    (row(all), n)
}

/// An expression between the fences of `LEFT` and `RIGHT`.
pub open spec fn fenced(t: Seq<Tok>, p: nat) -> (EqTree, nat)
    decreases rest(t, p), 7nat,
{
    let (left, a) = fence(t, p);
    let (body, b) = expression(t, p + a);
    let close: nat = if command_at(t, p + a + b, "RIGHT"@) {
        1
    } else {
        0
    };
    let (right, c) = fence(t, p + a + b + close);
    (EqTree::Paren { left, right, body: Box::new(body) }, a + b + close + c)
}

/// The number that decimal digits stand for, read from the left.
pub open spec fn decimal(s: Seq<char>) -> nat
    decreases s.len(),
{
    if s.len() == 0 {
        0
    } else {
        10 * decimal(s.drop_last()) + ((s.last() as int) - ('0' as int)) as nat
    }
}

/// A number without the sign that may stand before it.
pub open spec fn unsigned(w: Seq<char>) -> Seq<char> {
    if w.len() > 0 && w[0] == '+' {
        w.drop_first()
    } else {
        w
    }
}

/// The byte that a word of digits writes down, zero where it writes down none.
pub open spec fn byte_of(w: Seq<char>) -> u8 {
    let d = unsigned(w);
    if d.len() > 0 && (forall|i: int| 0 <= i < d.len() ==> '0' <= #[trigger] d[i] <= '9')
        && decimal(d) <= 255 {
        decimal(d) as u8
    } else {
        0
    }
}

/// One part of a colour, and the comma after it.
pub open spec fn color_part(t: Seq<Tok>, p: nat) -> (u8, nat) {
    let n = taken(t, p, TokenType::Number);
    let value: u8 = if n == 1 {
        byte_of(word_at(t, p))
    } else {
        0
    };
    let comma: nat = if kind_at(t, p + n) == TokenType::Symbol && word_at(t, p + n) == ","@ {
        1
    } else {
        0
    };
    (value, n + comma)
}

/// A body in a colour: `{red,green,blue}` and the body.
pub open spec fn color(t: Seq<Tok>, p: nat) -> (EqTree, nat)
    decreases rest(t, p), 6nat,
{
    if kind_at(t, p) == TokenType::LBrace {
        let (r, a) = color_part(t, p + 1);
        let (g, b) = color_part(t, p + 1 + a);
        let (bl, c) = color_part(t, p + 1 + a + b);
        let q = p + 1 + a + b + c;
        let close = taken(t, q, TokenType::RBrace);
        let (body, n) = single(t, q + close);
        (EqTree::Color { r, g, b: bl, body: Box::new(body) }, 1 + a + b + c + close + n)
    } else {
        (EqTree::Empty, 0)
    }
}

/// The characters of an arrow; anything but a sign or a word gives a plain arrow.
pub open spec fn arrow_text(node: EqTree) -> Seq<char> {
    match node {
        EqTree::MathSymbol(s) => s,
        EqTree::Symbol(s) => s,
        EqTree::Text(s) => s,
        _ => "→"@,
    }
}

/// A relation arrow with what stands over it, and under it unless `over_only`.
pub open spec fn relation_arrow(t: Seq<Tok>, p: nat, over_only: bool) -> (EqTree, nat)
    decreases rest(t, p), 6nat,
{
    let (sign, a) = element(t, p);
    let (over, b) = single(t, p + a);
    if over_only {
        (
            EqTree::Rel { arrow: arrow_text(sign), over: Box::new(over), under: None },
            a + b,
        )
    } else {
        let (under, c) = single(t, p + a + b);
        (
            EqTree::Rel {
                arrow: arrow_text(sign),
                over: Box::new(over),
                under: Some(Box::new(under)),
            },
            a + b + c,
        )
    }
}

/// Two arguments in a row.
pub open spec fn two(t: Seq<Tok>, p: nat) -> (EqTree, EqTree, nat)
    decreases rest(t, p), 6nat,
{
    let (x, a) = single(t, p);
    let (y, b) = single(t, p + a);
    (x, y, a + b)
}

/// A long division, written out: quotient, divisor and what is divided.
pub open spec fn long_division(t: Seq<Tok>, p: nat) -> (EqTree, nat)
    decreases rest(t, p), 7nat,
{
    let (divisor, quotient, a) = two(t, p);
    let (body, b) = single(t, p + a);
    (
        EqTree::Row(
            seq![
                quotient,
                EqTree::Symbol("÷"@),
                divisor,
                EqTree::Symbol("="@),
                body,
            ],
        ),
        a + b,
    )
}

/// Two trees on top of each other in parentheses.
pub open spec fn choice(top: EqTree, bottom: EqTree) -> EqTree {
    EqTree::Paren {
        left: "("@,
        right: ")"@,
        body: Box::new(EqTree::Atop { top: Box::new(top), bottom: Box::new(bottom) }),
    }
}

/// The body of a type face: an argument, but nothing before a command that shapes its
/// surroundings.
pub open spec fn face_body(t: Seq<Tok>, p: nat) -> (EqTree, nat)
    decreases rest(t, p), 6nat,
{
    if kind_at(t, p) == TokenType::Command && structure_command(upper(word_at(t, p))) {
        (EqTree::Empty, 0)
    } else {
        single(t, p)
    }
}

/// A command with all that belongs to it; the place is the one after the command word.
pub open spec fn command(t: Seq<Tok>, p: nat, cmd: Seq<char>) -> (EqTree, nat)
    decreases rest(t, p), 8nat,
{
    match command_kind(cmd) {
        CommandKind::Stray => (EqTree::Empty, 0),
        CommandKind::Fraction => {
            let (numer, denom, n) = two(t, p);
            (EqTree::Fraction { numer: Box::new(numer), denom: Box::new(denom) }, n)
        },
        CommandKind::Upright => {
            let (body, n) = single(t, p);
            (EqTree::FontStyle { style: FontStyleKind::Roman, body: Box::new(body) }, n)
        },
        CommandKind::Phantom => (EqTree::Text(" "@), single(t, p).1),
        CommandKind::Spacing => (
            match symbol(upper(cmd)) {
                Some(s) => EqTree::Text(s),
                None => EqTree::Text(" "@),
            },
            0,
        ),
        CommandKind::ScriptOver => {
            let (sup, base, n) = two(t, p);
            (EqTree::Superscript { base: Box::new(base), sup: Box::new(sup) }, n)
        },
        CommandKind::ScriptUnder => {
            let (sub, base, n) = two(t, p);
            (EqTree::Subscript { base: Box::new(base), sub: Box::new(sub) }, n)
        },
        CommandKind::Begin => environment(t, p),
        CommandKind::End => (EqTree::Empty, brace_arg(t, p).1),
        CommandKind::Root => root(t, p),
        CommandKind::Integral => scripted(t, p, EqTree::MathSymbol(integral_symbol(cmd))),
        CommandKind::BigOperator => big_op(t, p, big_symbol(cmd)),
        CommandKind::Limit { is_upper } => limit(t, p, is_upper),
        CommandKind::Matrix(style) => matrix(t, p, style),
        CommandKind::Cases => cases(t, p),
        CommandKind::Aligned => aligned(t, p),
        CommandKind::Pile(align) => pile(t, p, align),
        CommandKind::Left => fenced(t, p),
        CommandKind::Relation { over_only } => relation_arrow(t, p, over_only),
        CommandKind::LongDivision => long_division(t, p),
        CommandKind::Benzene => (EqTree::MathSymbol("⌬"@), 0),
        CommandKind::Enlarged => element(t, p),
        CommandKind::Choose => {
            let (bottom, n) = single(t, p);
            (choice(EqTree::Empty, bottom), n)
        },
        CommandKind::Binomial => {
            let (top, bottom, n) = two(t, p);
            (choice(top, bottom), n)
        },
        CommandKind::Color => color(t, p),
        CommandKind::ScriptWord => {
            let (body, n) = single(t, p);
            let (node, m) = scripted(t, p + n, body);
            (node, n + m)
        },
        CommandKind::Decoration(kind) => {
            let (body, n) = single(t, p);
            (EqTree::Decoration { kind, body: Box::new(body) }, n)
        },
        CommandKind::Face(style) => {
            let (body, n) = face_body(t, p);
            (EqTree::FontStyle { style, body: Box::new(body) }, n)
        },
        CommandKind::Sign => match symbol(cmd) {
            Some(s) => scripted(t, p, EqTree::MathSymbol(s)),
            None => (EqTree::Empty, 0),
        },
        CommandKind::Function => {
            let thin: nat = if mark_at(t, p, "`"@) {
                1
            } else {
                0
            };
            let name = match function(cmd) {
                Some(f) => f,
                None => cmd,
            };
            let (node, n) = scripted(t, p + thin, EqTree::Function(name));
            (node, thin + n)
        },
        CommandKind::Word => scripted(t, p, EqTree::Text(cmd)),
    }
}

/// The fraction around an `OVER`: what stands before the node in front of it, the fraction,
/// and what follows the node behind it.
pub open spec fn around_over(
    before: Seq<EqTree>,
    denom: EqTree,
    after: Seq<EqTree>,
) -> EqTree {
    let (front, numer) = if before.len() > 1 {
        (before.drop_last(), before.last())
    } else {
        (Seq::empty(), row(before))
    };
    let fraction = EqTree::Fraction { numer: Box::new(numer), denom: Box::new(denom) };
    row(front.push(fraction) + after)
}

/// One where `OVER` stands at a place, none otherwise.
pub open spec fn over_taken(t: Seq<Tok>, p: nat) -> nat {
    if command_at(t, p, "OVER"@) {
        1
    } else {
        0
    }
}

/// An expression divided at its first `OVER` outside of braces and fences.
pub open spec fn divided(t: Seq<Tok>, p: nat) -> (EqTree, nat) {
    match top_over(t, p, 0, 0) {
        None => expression(t, p),
        Some(over) => {
            let (before, a) = nodes(t, p, Until::Place(over), false, Seq::empty());
            let q = p + a + over_taken(t, p + a);
            let (denom, b) = element(t, q);
            let (after, c) = nodes(t, q + b, Until::CloseOrRight, false, Seq::empty());
            (around_over(before, denom, after), (q - p + b + c) as nat)
        },
    }
}

/// What stands before `OVER` over what stands behind it, up to a closing brace.
pub open spec fn divided_to_brace(t: Seq<Tok>, p: nat) -> (EqTree, nat) {
    let (numer, a) = nodes(t, p, Until::CloseOrOver, false, Seq::empty());
    let q = p + a + over_taken(t, p + a);
    let (denom, b) = nodes(t, q, Until::Close, false, Seq::empty());
    (
        EqTree::Fraction { numer: Box::new(row(numer)), denom: Box::new(row(denom)) },
        (q - p + b) as nat,
    )
}

/// The part of an expression before a place, divided at its first `OVER`.
pub open spec fn divided_in_range(t: Seq<Tok>, p: nat, end: nat) -> (EqTree, nat) {
    let (before, a) = nodes(t, p, Until::PlaceOrOver(end), false, Seq::empty());
    let q = if p + a < end {
        p + a + over_taken(t, p + a)
    } else {
        p + a
    };
    let (denom, b) = if q < end {
        element(t, q)
    } else {
        (EqTree::Empty, 0)
    };
    let (after, c) = nodes(t, q + b, Until::PlaceOrRight(end), false, Seq::empty());
    (around_over(before, denom, after), (q - p + b + c) as nat)
}

/// Reading an element takes up a token unless the script has ended.
pub proof fn law_element_advances(t: Seq<Tok>, p: nat)
    requires
        !ended(t, p),
    ensures
        element(t, p).1 >= 1,
{
    let (sub, sup, n) = scripts(t, p, None, None);
    assert(script_at(t, p) ==> n >= 1);
    assert(script_at(t, p) ==> scripted(t, p, EqTree::Empty).1 == n);
    assert(kind_at(t, p) == TokenType::LBrace ==> group(t, p).1 >= 1);
}

/// A command that shapes an equation is read in the same way in any case of its letters.
pub proof fn law_commands_in_any_case(t: Seq<Tok>, p: nat, a: Seq<char>, b: Seq<char>)
    requires
        upper(a) == upper(b),
        keyword_kind(upper(a)) is Some || layout_kind(upper(a)) is Some,
    ensures
        command(t, p, a) == command(t, p, b),
{
    law_words_in_any_case(a, b);
    law_signs_in_any_case(a, b);
    let kind = command_kind(a);
    assert(kind !is Sign && kind !is Function && kind !is Word);
}

/// The words for a fraction that stands before its two arguments, in any case of their letters.
pub open spec fn is_fraction_word(w: Seq<char>) -> bool {
    same_word(w, "frac"@) || same_word(w, "dfrac"@) || same_word(w, "tfrac"@)
}

/// The words for a fraction all read alike: as the fraction of the two arguments that follow, of
/// which one that is missing is empty.
pub proof fn law_fraction_words_alike(t: Seq<Tok>, p: nat, c: Seq<char>, d: Seq<char>)
    requires
        is_fraction_word(c),
        is_fraction_word(d),
    ensures
        command(t, p, c) == command(t, p, d),
        ({
            let (numer, a) = single(t, p);
            let (denom, b) = single(t, p + a);
            command(t, p, c) == (
                EqTree::Fraction { numer: Box::new(numer), denom: Box::new(denom) },
                a + b,
            )
        }),
        ended(t, p) || kind_at(t, p) == TokenType::RBrace ==> command(t, p, c) == (
            EqTree::Fraction { numer: Box::new(EqTree::Empty), denom: Box::new(EqTree::Empty) },
            0nat,
        ),
{
    lemma_fraction_word(c);
    lemma_fraction_word(d);
}

proof fn lemma_fraction_word(w: Seq<char>)
    requires
        is_fraction_word(w),
    ensures
        command_kind(w) == CommandKind::Fraction,
{
    reveal_strlit("frac");
    reveal_strlit("dfrac");
    reveal_strlit("tfrac");
    reveal_strlit("FRAC");
    reveal_strlit("DFRAC");
    reveal_strlit("TFRAC");
    reveal_strlit("OVER");
    reveal_strlit("ATOP");
    assert(upper("frac"@) =~= "FRAC"@);
    assert(upper("dfrac"@) =~= "DFRAC"@);
    assert(upper("tfrac"@) =~= "TFRAC"@);
    assert("FRAC"@[0] != "OVER"@[0]);
    assert("FRAC"@[0] != "ATOP"@[0]);
}

/// Whether a script mark with a number after it stands at a place and takes up `k` tokens: the
/// mark and the number, with a thin space before them or without.
pub open spec fn number_script_at(
    t: Seq<Tok>,
    p: nat,
    mark: TokenType,
    number: Seq<char>,
    k: nat,
) -> bool {
    let q = (p + k - 2) as nat;
    &&& k == 2 || k == 3 && mark_at(t, p, "`"@)
    &&& kind_at(t, q) == mark
    &&& kind_at(t, q + 1) == TokenType::Number
    &&& word_at(t, q + 1) == number
}

/// A subscript and a superscript give the same tree in either order, and with or without a thin
/// space before each mark: `_m^n`, `^n_m` and the same with thin spaces all read as both scripts
/// on the base, and take up all these tokens.
pub proof fn law_scripts_in_either_order(
    t: Seq<Tok>,
    p: nat,
    base: EqTree,
    m: Seq<char>,
    n: Seq<char>,
    j: nat,
    k: nat,
)
    requires
        (number_script_at(t, p, TokenType::Subscript, m, j)
            && number_script_at(t, p + j, TokenType::Superscript, n, k))
            || (number_script_at(t, p, TokenType::Superscript, n, j)
            && number_script_at(t, p + j, TokenType::Subscript, m, k)),
        ended(t, p + j + k) || thin_before_script(t, p + j + k) == 0,
    ensures
        scripted(t, p, base) == (
            EqTree::SubSup {
                base: Box::new(base),
                sub: Box::new(EqTree::Number(m)),
                sup: Box::new(EqTree::Number(n)),
            },
            j + k,
        ),
{
    let sub = Some(EqTree::Number(m));
    let sup = Some(EqTree::Number(n));
    assert(scripts(t, p + j + k, sub, sup) == (sub, sup, 0nat));
    if number_script_at(t, p, TokenType::Subscript, m, j) {
        lemma_number_script(t, p, TokenType::Subscript, m, j, None, None);
        lemma_number_script(t, p + j, TokenType::Superscript, n, k, sub, None);
    } else {
        lemma_number_script(t, p, TokenType::Superscript, n, j, None, None);
        lemma_number_script(t, p + j, TokenType::Subscript, m, k, None, sup);
    }
}

/// A script mark with a number after it is read as the script of its kind, where there is none
/// of that kind yet.
proof fn lemma_number_script(
    t: Seq<Tok>,
    p: nat,
    mark: TokenType,
    number: Seq<char>,
    k: nat,
    sub: Option<EqTree>,
    sup: Option<EqTree>,
)
    requires
        number_script_at(t, p, mark, number, k),
        (mark == TokenType::Subscript && sub is None) || (mark == TokenType::Superscript
            && sup is None),
    ensures
        ({
            let body = Some(EqTree::Number(number));
            let (a, b, n) = if mark == TokenType::Subscript {
                scripts(t, p + k, body, sup)
            } else {
                scripts(t, p + k, sub, body)
            };
            scripts(t, p, sub, sup) == (a, b, k + n)
        }),
{
    let q = (p + k - 2) as nat;
    assert(thin_before_script(t, p) == k - 2);
    assert(single(t, q + 1) == (EqTree::Number(number), 1nat));
    assert(q + 1 + 1 == p + k);
}

/// A list of nodes is read up to the first place where it stops.
pub proof fn law_nodes_read_to_bound(
    t: Seq<Tok>,
    p: nat,
    until: Until,
    infix: bool,
    acc: Seq<EqTree>,
)
    ensures
        stops(t, p + nodes(t, p, until, infix, acc).1, until),
    decreases rest(t, p),
{
    if !stops(t, p, until) {
        if infix && infix_at(t, p) {
            let (bottom, n) = element(t, p + 1);
            law_nodes_read_to_bound(t, p + 1 + n, until, infix, infixed(t, p, acc, bottom));
        } else {
            law_element_advances(t, p);
            let (node, n) = element(t, p);
            law_nodes_read_to_bound(t, p + n, until, infix, acc.push(node));
        }
    }
}

/// A grid is read up to the first place where it stops.
pub proof fn law_grid_read_to_bound(
    t: Seq<Tok>,
    p: nat,
    until: Until,
    columns: Columns,
    g: Grid,
)
    ensures
        stops(t, p + grid(t, p, until, columns, g).1, until),
    decreases rest(t, p),
{
    if !stops(t, p, until) {
        if mark_at(t, p, "#"@) {
            law_grid_read_to_bound(t, p + 1, until, columns, g.end_row());
        } else if mark_at(t, p, "&"@) {
            let n = marks_taken(t, p, until, columns);
            assert(n >= 1);
            law_grid_read_to_bound(t, p + n, until, columns, after_marks(g, columns, n));
        } else if infix_at(t, p) {
            let (bottom, n) = element(t, p + 1);
            law_grid_read_to_bound(
                t,
                p + 1 + n,
                until,
                columns,
                g.with_cell(infixed(t, p, g.cell, bottom)),
            );
        } else {
            law_element_advances(t, p);
            let (node, n) = element(t, p);
            law_grid_read_to_bound(t, p + n, until, columns, g.with_cell(g.cell.push(node)));
        }
    }
}

/// An expression ends at the end of the script, at a closing brace or at `RIGHT`.
pub proof fn law_expression_end(t: Seq<Tok>, p: nat)
    ensures
        ({
            let q = p + expression(t, p).1;
            ended(t, q) || kind_at(t, q) == TokenType::RBrace || command_at(t, q, "RIGHT"@)
        }),
{
    law_nodes_read_to_bound(t, p, Until::CloseOrRight, true, Seq::empty());
}

/// Where the script has ended there is no element, and nothing is taken up.
pub proof fn law_no_element_past_the_end(t: Seq<Tok>, p: nat)
    requires
        ended(t, p),
    ensures
        element(t, p) == (EqTree::Empty, 0nat),
{
}

/// Where the script has ended there is no argument, and nothing is taken up.
pub proof fn law_no_argument_past_the_end(t: Seq<Tok>, p: nat)
    requires
        ended(t, p),
    ensures
        single(t, p) == (EqTree::Empty, 0nat),
{
}

/// A closing brace is no argument: it is left for the group that it closes.
pub proof fn law_argument_leaves_closing_brace(t: Seq<Tok>, p: nat)
    requires
        kind_at(t, p) == TokenType::RBrace,
    ensures
        single(t, p) == (EqTree::Empty, 0nat),
{
}

/// A group that opens takes up its closing brace, or all of the script.
pub proof fn law_group_closed(t: Seq<Tok>, p: nat)
    requires
        kind_at(t, p) == TokenType::LBrace,
    ensures
        ({
            let q = p + group(t, p).1;
            q > p + 1 && kind_at(t, (q - 1) as nat) == TokenType::RBrace || ended(t, q)
        }),
{
    law_nodes_read_to_bound(t, p + 1, Until::Close, true, Seq::empty());
}

/// How a token changes the number of open braces.
pub open spec fn brace_step(t: Seq<Tok>, i: nat) -> int {
    if kind_at(t, i) == TokenType::LBrace {
        1
    } else if kind_at(t, i) == TokenType::RBrace {
        -1
    } else {
        0
    }
}

/// How a token changes the number of open fences.
pub open spec fn fence_step(t: Seq<Tok>, i: nat) -> int {
    if command_at(t, i, "LEFT"@) {
        1
    } else if command_at(t, i, "RIGHT"@) {
        -1
    } else {
        0
    }
}

/// How many more braces open than close from one place to another.
pub open spec fn open_braces(t: Seq<Tok>, p: nat, q: nat) -> int
    decreases q - p,
{
    if p >= q {
        0
    } else {
        brace_step(t, p) + open_braces(t, p + 1, q)
    }
}

/// How many more fences open than close from one place to another.
pub open spec fn open_fences(t: Seq<Tok>, p: nat, q: nat) -> int
    decreases q - p,
{
    if p >= q {
        0
    } else {
        fence_step(t, p) + open_fences(t, p + 1, q)
    }
}

/// The brace that closes a group is the first one that leaves none of its braces open; where
/// there is none, some stay open to the end.
pub proof fn law_closing_brace(t: Seq<Tok>, p: nat, depth: nat)
    requires
        p <= t.len(),
        depth >= 1,
    ensures
        ({
            let q = closing(t, p, depth);
            &&& p <= q <= t.len()
            &&& q < t.len() ==> kind_at(t, q) == TokenType::RBrace && depth + open_braces(t, p, q)
                == 1
            &&& forall|r: nat| p <= r <= q ==> depth + #[trigger] open_braces(t, p, r) >= 1
        }),
    decreases t.len() - p,
{
    let q = closing(t, p, depth);
    if p < t.len() {
        let step = brace_step(t, p);
        if t[p as int].ty == TokenType::RBrace && depth <= 1 {
            assert(q == p);
        } else {
            let next = (depth + step) as nat;
            law_closing_brace(t, p + 1, next);
            assert(q == closing(t, p + 1, next));
            assert(open_braces(t, p, q) == step + open_braces(t, p + 1, q));
            assert forall|r: nat| p <= r <= q implies depth + #[trigger] open_braces(t, p, r)
                >= 1 by {
                if r > p {
                    assert(next + open_braces(t, p + 1, r) >= 1);
                }
            }
        }
    }
}

/// The `RIGHT` that closes a fence is the first one that leaves none of its fences open; where
/// there is none, some stay open to the end.
pub proof fn law_closing_right(t: Seq<Tok>, p: nat, depth: nat)
    requires
        p <= t.len(),
        depth >= 1,
    ensures
        ({
            let q = closing_right(t, p, depth);
            &&& p <= q <= t.len()
            &&& q < t.len() ==> command_at(t, q, "RIGHT"@) && depth + open_fences(t, p, q) == 1
            &&& forall|r: nat| p <= r <= q ==> depth + #[trigger] open_fences(t, p, r) >= 1
        }),
    decreases t.len() - p,
{
    let q = closing_right(t, p, depth);
    if p < t.len() {
        let step = fence_step(t, p);
        if !command_at(t, p, "LEFT"@) && command_at(t, p, "RIGHT"@) && depth <= 1 {
            assert(q == p);
        } else {
            let next = (depth + step) as nat;
            law_closing_right(t, p + 1, next);
            assert(q == closing_right(t, p + 1, next));
            assert(open_fences(t, p, q) == step + open_fences(t, p + 1, q));
            assert forall|r: nat| p <= r <= q implies depth + #[trigger] open_fences(t, p, r)
                >= 1 by {
                if r > p {
                    assert(next + open_fences(t, p + 1, r) >= 1);
                }
            }
        }
    }
}

/// Whether `OVER` stands at a place where no brace and no fence is open, of those from another
/// place on and of `braces` and `fences` before it.
pub open spec fn over_outside(t: Seq<Tok>, p: nat, r: nat, braces: int, fences: int) -> bool {
    command_at(t, r, "OVER"@) && braces + open_braces(t, p, r) == 0 && fences + open_fences(
        t,
        p,
        r,
    ) == 0
}

/// An expression is divided at the first `OVER` outside of all braces and fences.
pub proof fn law_top_over_is_outside(t: Seq<Tok>, p: nat, braces: int, fences: int)
    requires
        p <= t.len(),
    ensures
        match top_over(t, p, braces, fences) {
            Some(q) => {
                &&& p <= q < t.len()
                &&& over_outside(t, p, q, braces, fences)
                &&& forall|r: nat| p <= r < q ==> !#[trigger] over_outside(t, p, r, braces, fences)
            },
            None => forall|r: nat|
                p <= r < t.len() ==> !#[trigger] over_outside(t, p, r, braces, fences),
        },
    decreases t.len() - p,
{
    if p < t.len() {
        reveal_strlit("OVER");
        reveal_strlit("LEFT");
        reveal_strlit("RIGHT");
        if command_at(t, p, "OVER"@) {
            let u = upper(word_at(t, p));
            assert(u == upper("OVER"@));
            assert(u[0] == 'O');
            assert(upper("LEFT"@)[0] == 'L');
            assert(upper("RIGHT"@)[0] == 'R');
        }
        if !over_outside(t, p, p, braces, fences) {
            let b = braces + brace_step(t, p);
            let f = fences + fence_step(t, p);
            law_top_over_is_outside(t, p + 1, b, f);
            assert(top_over(t, p, braces, fences) == top_over(t, p + 1, b, f));
            assert forall|r: nat| p < r <= t.len() implies #[trigger] over_outside(
                t,
                p,
                r,
                braces,
                fences,
            ) == over_outside(t, p + 1, r, b, f) by {
                assert(open_braces(t, p, r) == brace_step(t, p) + open_braces(t, p + 1, r));
                assert(open_fences(t, p, r) == fence_step(t, p) + open_fences(t, p + 1, r));
            }
        }
    }
}

} // verus!
