//! What holds of the commands of an equation script: the tree that each word makes of its
//! arguments, and the tokens that it takes up.

use super::ast::{row, EqTree, FontStyleKind, MatrixStyle, PileAlign};
use super::commands::{big_symbol, keyword_kind, layout_kind};
use super::grammar::{
    big_op, brace_arg, byte_of, closing, color_part, command, command_at, decimal, element,
    env_kind, environment, expression, fence, group, kind_at, limits, nodes, scripted, single,
    unsigned, word_at, Columns, EnvKind, Until,
};
use super::grid_laws::{
    braced_len, in_braces, law_aligned_sides, law_lines, law_matrix_rows, rows_of, sides_of,
};
use super::script_laws::{
    bare_at, law_base_without_script, law_left_and_right, law_script_on_base,
};
use super::symbol_laws::law_operator_signs;
use super::symbols::{
    big_operation, decoration, font_style, integral, spacing, structure_command,
};
use super::tokenizer::{Tok, TokenType};
use super::word_laws::law_words_of_structure;
use crate::text::upper;
use vstd::prelude::*;

verus! {

/// `OVER`, `ATOP` and `RIGHT` where nothing waits for them stand for nothing.
pub proof fn law_stray_words(t: Seq<Tok>, p: nat, c: Seq<char>)
    requires
        upper(c) == "OVER"@ || upper(c) == "ATOP"@ || upper(c) == "RIGHT"@,
    ensures
        command(t, p, c) == (EqTree::Empty, 0nat),
{
    law_words_of_structure(c);
}

/// A command of two arguments that puts one of them on the other: the first argument is the
/// script and the second one the base. The tree is the one that the base would have with that
/// script behind it.
pub proof fn law_script_commands(t: Seq<Tok>, p: nat, c: Seq<char>)
    ensures
        ({
            let (script, a) = single(t, p);
            let (base, b) = single(t, p + a);
            &&& upper(c) == "OVERSET"@ || upper(c) == "STACKREL"@ || upper(c) == "LSUP"@
                ==> command(t, p, c) == (
                EqTree::Superscript { base: Box::new(base), sup: Box::new(script) },
                a + b,
            )
            &&& upper(c) == "UNDERSET"@ || upper(c) == "LSUB"@ ==> command(t, p, c) == (
                EqTree::Subscript { base: Box::new(base), sub: Box::new(script) },
                a + b,
            )
        }),
{
    law_words_of_structure(c);
}

/// Text in upright letters is its argument in the upright face; room for a body takes up the body
/// and shows a blank; a space takes up nothing and shows what its name stands for.
pub proof fn law_text_and_space_commands(t: Seq<Tok>, p: nat, c: Seq<char>)
    ensures
        ({
            let (body, n) = single(t, p);
            &&& upper(c) == "TEXT"@ || upper(c) == "OPERATORNAME"@ ==> command(t, p, c) == (
                EqTree::FontStyle { style: FontStyleKind::Roman, body: Box::new(body) },
                n,
            )
            &&& upper(c) == "PHANTOM"@ || upper(c) == "VPHANTOM"@ || upper(c) == "HPHANTOM"@
                ==> command(t, p, c) == (EqTree::Text(" "@), n)
            &&& spacing(upper(c)) is Some ==> command(t, p, c) == (
                EqTree::Text(spacing(upper(c))->0),
                0nat,
            )
        }),
{
    law_words_of_structure(c);
    law_operator_signs(upper(c));
}

/// Whether a word is one of the two for a root.
pub open spec fn is_root_word(c: Seq<char>) -> bool {
    upper(c) == "SQRT"@ || upper(c) == "ROOT"@
}

/// A root of one argument has no index.
pub proof fn law_root_without_index(t: Seq<Tok>, p: nat, c: Seq<char>)
    requires
        is_root_word(c),
        kind_at(t, p) != TokenType::LBracket,
        kind_at(t, p) != TokenType::LParen,
        kind_at(t, p) == TokenType::LBrace ==> !command_at(t, closing(t, p + 1, 1) + 1, "of"@),
    ensures
        command(t, p, c) == (
            EqTree::Sqrt { index: None, body: Box::new(single(t, p).0) },
            single(t, p).1,
        ),
{
    law_words_of_structure(c);
}

/// A root with an index in square brackets, in parentheses or in braces with `of` behind them has
/// that index, and the argument behind it as its body; `of` may also stand behind parentheses.
pub proof fn law_root_with_index(t: Seq<Tok>, p: nat, c: Seq<char>)
    requires
        is_root_word(c),
    ensures
        ({
            let (in_brackets, n) = nodes(t, p + 1, Until::Bracket, false, Seq::empty());
            let (in_parens, m) = nodes(t, p + 1, Until::Paren, false, Seq::empty());
            let (braced, g) = group(t, p);
            let q = p + 1 + n + 1;
            let r = p + 1 + m + 1;
            let s = p + g + 1;
            &&& kind_at(t, p) == TokenType::LBracket && kind_at(t, p + 1 + n)
                == TokenType::RBracket ==> command(t, p, c) == (
                EqTree::Sqrt {
                    index: Some(Box::new(row(in_brackets))),
                    body: Box::new(single(t, q).0),
                },
                n + 2 + single(t, q).1,
            )
            &&& kind_at(t, p) == TokenType::LParen && kind_at(t, p + 1 + m) == TokenType::RParen
                && !command_at(t, r, "of"@) ==> command(t, p, c) == (
                EqTree::Sqrt {
                    index: Some(Box::new(row(in_parens))),
                    body: Box::new(single(t, r).0),
                },
                m + 2 + single(t, r).1,
            )
            &&& kind_at(t, p) == TokenType::LParen && kind_at(t, p + 1 + m) == TokenType::RParen
                && command_at(t, r, "of"@) ==> command(t, p, c) == (
                EqTree::Sqrt {
                    index: Some(Box::new(row(in_parens))),
                    body: Box::new(single(t, r + 1).0),
                },
                m + 3 + single(t, r + 1).1,
            )
            &&& kind_at(t, p) == TokenType::LBrace && command_at(
                t,
                closing(t, p + 1, 1) + 1,
                "of"@,
            ) && command_at(t, p + g, "of"@) ==> command(t, p, c) == (
                EqTree::Sqrt { index: Some(Box::new(braced)), body: Box::new(single(t, s).0) },
                g + 1 + single(t, s).1,
            )
        }),
{
    law_words_of_structure(c);
}

/// A big operator takes a lower and an upper limit, in either order, each at most once and right
/// behind it; its sign is the one of its name in capitals.
pub proof fn law_big_operator_limits(t: Seq<Tok>, p: nat, c: Seq<char>)
    requires
        big_operation(upper(c)) is Some,
    ensures
        ({
            let sign = big_operation(upper(c))->0;
            let (x, k) = single(t, p + 1);
            let q = p + 1 + k;
            let (y, m) = single(t, q + 1);
            let e = q + 1 + m;
            let sub = kind_at(t, p) == TokenType::Subscript;
            let sup = kind_at(t, p) == TokenType::Superscript;
            let sub_next = kind_at(t, q) == TokenType::Subscript;
            let sup_next = kind_at(t, q) == TokenType::Superscript;
            &&& !sub && !sup ==> command(t, p, c) == (
                EqTree::BigOp { symbol: sign, sub: None, sup: None },
                0nat,
            )
            &&& sub && !sup_next ==> command(t, p, c) == (
                EqTree::BigOp { symbol: sign, sub: Some(Box::new(x)), sup: None },
                1 + k,
            )
            &&& sup && !sub_next ==> command(t, p, c) == (
                EqTree::BigOp { symbol: sign, sub: None, sup: Some(Box::new(x)) },
                1 + k,
            )
            &&& sub && sup_next ==> command(t, p, c) == (
                EqTree::BigOp {
                    symbol: sign,
                    sub: Some(Box::new(x)),
                    sup: Some(Box::new(y)),
                },
                1 + k + 1 + m,
            )
            &&& sup && sub_next ==> command(t, p, c) == (
                EqTree::BigOp {
                    symbol: sign,
                    sub: Some(Box::new(y)),
                    sup: Some(Box::new(x)),
                },
                1 + k + 1 + m,
            )
        }),
{
    law_words_of_structure(c);
    let (x, k) = single(t, p + 1);
    let q = p + 1 + k;
    let (y, m) = single(t, q + 1);
    let e = q + 1 + m;
    let none = None::<EqTree>;
    assert(limits(t, e, Some(x), Some(y)) == (Some(x), Some(y), 0nat));
    assert(limits(t, e, Some(y), Some(x)) == (Some(y), Some(x), 0nat));
    assert(kind_at(t, q) != TokenType::Superscript ==> limits(t, q, Some(x), none) == (
        Some(x),
        none,
        0nat,
    ));
    assert(kind_at(t, q) != TokenType::Subscript ==> limits(t, q, none, Some(x)) == (
        none,
        Some(x),
        0nat,
    ));
    assert(kind_at(t, q) == TokenType::Superscript ==> limits(t, q, Some(x), none) == (
        Some(x),
        Some(y),
        1 + m,
    ));
    assert(kind_at(t, q) == TokenType::Subscript ==> limits(t, q, none, Some(x)) == (
        Some(y),
        Some(x),
        1 + m,
    ));
    let sign = big_operation(upper(c))->0;
    law_operator_signs(upper(c));
    assert(big_symbol(c) == sign);
    assert(command(t, p, c) == big_op(t, p, sign));
    let all = limits(t, p, none, none);
    if kind_at(t, p) == TokenType::Subscript {
        let (a, b, n) = limits(t, q, Some(x), none);
        assert(all == (a, b, 1 + k + n));
    } else if kind_at(t, p) == TokenType::Superscript {
        let (a, b, n) = limits(t, q, none, Some(x));
        assert(all == (a, b, 1 + k + n));
    } else {
        assert(all == (none, none, 0nat));
    }
}

/// `lim` and `Lim` take what stands under them, and keep their capital.
pub proof fn law_limits(t: Seq<Tok>, p: nat, c: Seq<char>)
    requires
        c == "lim"@ || c == "Lim"@,
    ensures
        ({
            let is_upper = c == "Lim"@;
            let (body, n) = single(t, p + 1);
            &&& kind_at(t, p) == TokenType::Subscript ==> command(t, p, c) == (
                EqTree::Limit { is_upper, sub: Some(Box::new(body)) },
                1 + n,
            )
            &&& kind_at(t, p) != TokenType::Subscript ==> command(t, p, c) == (
                EqTree::Limit { is_upper, sub: None },
                0nat,
            )
        }),
{
    law_words_of_structure(c);
    reveal_strlit("lim");
    reveal_strlit("Lim");
    assert("lim"@[0] == 'l' && "Lim"@[0] == 'L');
}

/// An integral takes ordinary scripts, on the sign of its name in capitals.
pub proof fn law_integral_takes_scripts(t: Seq<Tok>, p: nat, c: Seq<char>)
    requires
        integral(upper(c)) is Some,
    ensures
        ({
            let base = EqTree::MathSymbol(integral(upper(c))->0);
            let (arg, k) = single(t, p + 1);
            &&& bare_at(t, p) ==> command(t, p, c) == (base, 0nat)
            &&& kind_at(t, p) == TokenType::Subscript && bare_at(t, p + 1 + k) ==> command(t, p, c)
                == (EqTree::Subscript { base: Box::new(base), sub: Box::new(arg) }, 1 + k)
            &&& kind_at(t, p) == TokenType::Superscript && bare_at(t, p + 1 + k) ==> command(
                t,
                p,
                c,
            ) == (EqTree::Superscript { base: Box::new(base), sup: Box::new(arg) }, 1 + k)
        }),
{
    law_words_of_structure(c);
    law_operator_signs(upper(c));
    let base = EqTree::MathSymbol(integral(upper(c))->0);
    law_script_on_base(t, p, 0, base);
    if bare_at(t, p) {
        law_base_without_script(t, p, base);
    }
    assert(command(t, p, c) == scripted(t, p, base));
}

/// The fences that a word for a matrix draws round it.
pub open spec fn matrix_fences(c: Seq<char>) -> Option<MatrixStyle> {
    let u = upper(c);
    if u == "MATRIX"@ || u == "LADDER"@ || u == "SLADDER"@ {
        Some(MatrixStyle::Plain)
    } else if u == "PMATRIX"@ {
        Some(MatrixStyle::Paren)
    } else if u == "BMATRIX"@ {
        Some(MatrixStyle::Bracket)
    } else if u == "DMATRIX"@ {
        Some(MatrixStyle::Vert)
    } else {
        None
    }
}

/// A word for a matrix makes one of the rows in the braces behind it, with the fences of the word;
/// without braces it stands for nothing.
pub proof fn law_matrix_commands(t: Seq<Tok>, p: nat, c: Seq<char>)
    requires
        matrix_fences(c) is Some,
    ensures
        ({
            let style = matrix_fences(c)->0;
            let (rows, n) = rows_of(
                t,
                p + 1,
                in_braces(t, p),
                Columns::Cells,
                seq![Seq::empty()],
            );
            &&& kind_at(t, p) == TokenType::LBrace ==> command(t, p, c) == (
                EqTree::Matrix { rows, style },
                braced_len(t, p, n),
            )
            &&& kind_at(t, p) != TokenType::LBrace ==> command(t, p, c) == (EqTree::Empty, 0nat)
        }),
{
    law_words_of_structure(c);
    if kind_at(t, p) == TokenType::LBrace {
        law_matrix_rows(t, p, matrix_fences(c)->0);
    }
}

/// The words for cases, piles and aligned lines make them of the lines in the braces behind them;
/// without braces they stand for nothing.
pub proof fn law_line_commands(t: Seq<Tok>, p: nat, c: Seq<char>)
    ensures
        ({
            let u = upper(c);
            let (rows, n) = rows_of(t, p + 1, in_braces(t, p), Columns::Gaps, Seq::empty());
            let (pairs, m) = rows_of(t, p + 1, in_braces(t, p), Columns::Sides, Seq::empty());
            let lines = rows.map_values(|cells: Seq<EqTree>| cells[0]);
            let sides = pairs.map_values(|cells: Seq<EqTree>| sides_of(cells));
            let len = braced_len(t, p, n);
            &&& kind_at(t, p) == TokenType::LBrace ==> {
                &&& u == "CASES"@ ==> command(t, p, c) == (EqTree::Cases { rows: lines }, len)
                &&& u == "PILE"@ ==> command(t, p, c) == (
                    EqTree::Pile { rows: lines, align: PileAlign::Center },
                    len,
                )
                &&& u == "LPILE"@ ==> command(t, p, c) == (
                    EqTree::Pile { rows: lines, align: PileAlign::Left },
                    len,
                )
                &&& u == "RPILE"@ ==> command(t, p, c) == (
                    EqTree::Pile { rows: lines, align: PileAlign::Right },
                    len,
                )
                &&& u == "EQALIGN"@ ==> command(t, p, c) == (
                    EqTree::EqAlign { rows: sides },
                    braced_len(t, p, m),
                )
            }
            &&& kind_at(t, p) != TokenType::LBrace && (u == "CASES"@ || u == "PILE"@ || u
                == "LPILE"@ || u == "RPILE"@ || u == "EQALIGN"@) ==> command(t, p, c) == (
                EqTree::Empty,
                0nat,
            )
        }),
{
    law_words_of_structure(c);
    if kind_at(t, p) == TokenType::LBrace {
        law_lines(t, p, PileAlign::Center);
        law_lines(t, p, PileAlign::Left);
        law_lines(t, p, PileAlign::Right);
        law_aligned_sides(t, p);
    }
}

/// `LEFT` puts the expression behind its fence, up to `RIGHT`, between the two fences.
pub proof fn law_left_command(t: Seq<Tok>, p: nat, c: Seq<char>)
    requires
        upper(c) == "LEFT"@,
    ensures
        ({
            let (left, a) = fence(t, p);
            let (body, n) = expression(t, p + a);
            let q = p + a + n;
            let (right, k) = fence(t, q + 1);
            command_at(t, q, "RIGHT"@) ==> command(t, p, c) == (
                EqTree::Paren { left, right, body: Box::new(body) },
                a + n + 1 + k,
            )
        }),
{
    law_words_of_structure(c);
    law_left_and_right(t, p);
}

/// The characters that an arrow is drawn with: those of a sign or a word, else a plain arrow.
pub open spec fn drawn_arrow(sign: EqTree) -> Seq<char> {
    if sign is MathSymbol {
        sign->MathSymbol_0
    } else if sign is Symbol {
        sign->Symbol_0
    } else if sign is Text {
        sign->Text_0
    } else {
        "→"@
    }
}

/// A relation is an arrow, the text over it and the text under it, in this order; the short form
/// has no text under it.
pub proof fn law_relations(t: Seq<Tok>, p: nat, c: Seq<char>)
    ensures
        ({
            let (sign, a) = element(t, p);
            let (over, b) = single(t, p + a);
            let (under, d) = single(t, p + a + b);
            &&& upper(c) == "REL"@ ==> command(t, p, c) == (
                EqTree::Rel {
                    arrow: drawn_arrow(sign),
                    over: Box::new(over),
                    under: Some(Box::new(under)),
                },
                a + b + d,
            )
            &&& upper(c) == "BUILDREL"@ ==> command(t, p, c) == (
                EqTree::Rel { arrow: drawn_arrow(sign), over: Box::new(over), under: None },
                a + b,
            )
        }),
{
    law_words_of_structure(c);
}

/// A choice of two puts the first argument over the second one in parentheses, without a bar; a
/// choice of one has nothing in the upper place.
pub proof fn law_choices(t: Seq<Tok>, p: nat, c: Seq<char>)
    ensures
        ({
            let (x, a) = single(t, p);
            let (y, b) = single(t, p + a);
            &&& upper(c) == "BINOM"@ ==> command(t, p, c) == (
                EqTree::Paren {
                    left: "("@,
                    right: ")"@,
                    body: Box::new(EqTree::Atop { top: Box::new(x), bottom: Box::new(y) }),
                },
                a + b,
            )
            &&& upper(c) == "CHOOSE"@ ==> command(t, p, c) == (
                EqTree::Paren {
                    left: "("@,
                    right: ")"@,
                    body: Box::new(
                        EqTree::Atop { top: Box::new(EqTree::Empty), bottom: Box::new(x) },
                    ),
                },
                a,
            )
        }),
{
    law_words_of_structure(c);
}

/// A long division of a divisor, a quotient and a number is written out with the quotient first:
/// quotient, division sign, divisor, equals sign, number.
pub proof fn law_long_division(t: Seq<Tok>, p: nat, c: Seq<char>)
    requires
        upper(c) == "LONGDIV"@,
    ensures
        ({
            let (divisor, a) = single(t, p);
            let (quotient, b) = single(t, p + a);
            let (number, d) = single(t, p + a + b);
            let (tree, n) = command(t, p, c);
            &&& tree is Row
            &&& tree->Row_0.len() == 5
            &&& tree->Row_0[0] == quotient
            &&& tree->Row_0[1] == EqTree::Symbol("÷"@)
            &&& tree->Row_0[2] == divisor
            &&& tree->Row_0[3] == EqTree::Symbol("="@)
            &&& tree->Row_0[4] == number
            &&& n == a + b + d
        }),
{
    law_words_of_structure(c);
}

/// The remaining words: the ring sign takes nothing, an enlarged element is the element, and a
/// script written as a word is its argument with the scripts behind it.
pub proof fn law_other_words(t: Seq<Tok>, p: nat, c: Seq<char>)
    ensures
        ({
            let (body, n) = single(t, p);
            &&& upper(c) == "BENZENE"@ ==> command(t, p, c) == (EqTree::MathSymbol("⌬"@), 0nat)
            &&& upper(c) == "BIGG"@ ==> command(t, p, c) == element(t, p)
            &&& (upper(c) == "SUP"@ || upper(c) == "SUB"@) && bare_at(t, p + n) ==> command(t, p, c)
                == single(t, p)
            &&& (upper(c) == "SUP"@ || upper(c) == "SUB"@) && bare_at(t, p + n + 1 + single(
                t,
                p + n + 1,
            ).1) ==> {
                let (arg, k) = single(t, p + n + 1);
                &&& kind_at(t, p + n) == TokenType::Subscript ==> command(t, p, c) == (
                    EqTree::Subscript { base: Box::new(body), sub: Box::new(arg) },
                    n + 1 + k,
                )
                &&& kind_at(t, p + n) == TokenType::Superscript ==> command(t, p, c) == (
                    EqTree::Superscript { base: Box::new(body), sup: Box::new(arg) },
                    n + 1 + k,
                )
            }
            &&& upper(c) == "END"@ ==> command(t, p, c) == (EqTree::Empty, brace_arg(t, p).1)
        }),
{
    law_words_of_structure(c);
    let (body, n) = single(t, p);
    law_script_on_base(t, p + n, 0, body);
    if bare_at(t, p + n) {
        law_base_without_script(t, p + n, body);
        assert(scripted(t, p + n, body) == (body, 0nat));
    }
}

/// A comma.
pub open spec fn comma_at(t: Seq<Tok>, p: nat) -> bool {
    kind_at(t, p) == TokenType::Symbol && word_at(t, p) == ","@
}

/// A colour in braces, red, green and blue with commas between them, colours the argument behind
/// it.
pub proof fn law_colour(t: Seq<Tok>, p: nat, c: Seq<char>)
    requires
        upper(c) == "COLOR"@,
    ensures
        kind_at(t, p) != TokenType::LBrace ==> command(t, p, c) == (EqTree::Empty, 0nat),
        kind_at(t, p) == TokenType::LBrace && kind_at(t, p + 1) == TokenType::Number && comma_at(
            t,
            p + 2,
        ) && kind_at(t, p + 3) == TokenType::Number && comma_at(t, p + 4) && kind_at(t, p + 5)
            == TokenType::Number && kind_at(t, p + 6) == TokenType::RBrace ==> command(t, p, c) == (
            EqTree::Color {
                r: byte_of(word_at(t, p + 1)),
                g: byte_of(word_at(t, p + 3)),
                b: byte_of(word_at(t, p + 5)),
                body: Box::new(single(t, p + 7).0),
            },
            7 + single(t, p + 7).1,
        ),
{
    law_words_of_structure(c);
    if kind_at(t, p + 1) == TokenType::Number && comma_at(t, p + 2) {
        assert(color_part(t, p + 1) == (byte_of(word_at(t, p + 1)), 2nat));
    }
    if kind_at(t, p + 3) == TokenType::Number && comma_at(t, p + 4) {
        assert(color_part(t, p + 3) == (byte_of(word_at(t, p + 3)), 2nat));
    }
    if kind_at(t, p + 5) == TokenType::Number && kind_at(t, p + 6) == TokenType::RBrace {
        assert(color_part(t, p + 5) == (byte_of(word_at(t, p + 5)), 1nat));
    }
}

/// The number that a digit stands for.
pub open spec fn digit(c: char) -> int {
    c as int - '0' as int
}

/// Whether a character is a digit.
pub open spec fn is_digit(c: char) -> bool {
    '0' <= c <= '9'
}

/// A word of up to three digits stands for the number that they write, if it is below 256, and
/// otherwise for zero; so does a word with anything but digits in it. A sign before the digits may
/// be a plus.
pub proof fn law_bytes_of_digits(w: Seq<char>)
    ensures
        w.len() == 1 && is_digit(w[0]) ==> byte_of(w) == digit(w[0]),
        w.len() == 2 && is_digit(w[0]) && is_digit(w[1]) ==> byte_of(w) == 10 * digit(w[0]) + digit(
            w[1],
        ),
        w.len() == 3 && is_digit(w[0]) && is_digit(w[1]) && is_digit(w[2]) ==> ({
            let n = 100 * digit(w[0]) + 10 * digit(w[1]) + digit(w[2]);
            byte_of(w) == if n <= 255 {
                n
            } else {
                0
            }
        }),
        (exists|i: int| 0 < i < w.len() && !is_digit(#[trigger] w[i])) ==> byte_of(w) == 0,
        w.len() > 0 && w[0] != '+' && !is_digit(w[0]) ==> byte_of(w) == 0,
        w.len() == 0 ==> byte_of(w) == 0,
        w.len() > 1 && w[0] == '+' && w[1] != '+' ==> byte_of(w) == byte_of(w.drop_first()),
{
    reveal_with_fuel(decimal, 4);
    let d = unsigned(w);
    if exists|i: int| 0 < i < w.len() && !is_digit(#[trigger] w[i]) {
        let i = choose|i: int| 0 < i < w.len() && !is_digit(#[trigger] w[i]);
        if w[0] == '+' {
            assert(d[i - 1] == w[i]);
        } else {
            assert(d[i] == w[i]);
        }
    }
    if w.len() > 0 && w[0] != '+' && !is_digit(w[0]) {
        assert(d[0] == w[0]);
    }
    if w.len() == 2 {
        assert(w.drop_last() =~= seq![w[0]]);
        assert(seq![w[0]].drop_last() =~= Seq::empty());
    }
    if w.len() == 3 {
        assert(w.drop_last() =~= seq![w[0], w[1]]);
        assert(seq![w[0], w[1]].drop_last() =~= seq![w[0]]);
        assert(seq![w[0]].drop_last() =~= Seq::empty());
    }
}

/// Whether a word is none of those that shape an equation.
pub open spec fn is_no_structure(c: Seq<char>) -> bool {
    &&& keyword_kind(upper(c)) is None
    &&& big_operation(c) is None
    &&& c != "lim"@
    &&& c != "Lim"@
    &&& layout_kind(upper(c)) is None
}

/// A word for a mark puts the mark on the argument behind it, and a word for a type face sets the
/// argument in that face. Before a word that shapes its surroundings a type face takes nothing, so
/// that the word is read for itself.
pub proof fn law_marks_and_faces(t: Seq<Tok>, p: nat, c: Seq<char>)
    requires
        is_no_structure(c),
    ensures
        ({
            let (body, n) = single(t, p);
            let shapes = kind_at(t, p) == TokenType::Command && structure_command(
                upper(word_at(t, p)),
            );
            &&& decoration(c) is Some ==> command(t, p, c) == (
                EqTree::Decoration { kind: decoration(c)->0, body: Box::new(body) },
                n,
            )
            &&& decoration(c) is None && font_style(c) is Some && !shapes ==> command(t, p, c) == (
                EqTree::FontStyle { style: font_style(c)->0, body: Box::new(body) },
                n,
            )
            &&& decoration(c) is None && font_style(c) is Some && shapes ==> command(t, p, c) == (
                EqTree::FontStyle { style: font_style(c)->0, body: Box::new(EqTree::Empty) },
                0nat,
            )
        }),
{
}

/// An environment is what stands behind `\begin`.
pub proof fn law_begin_command(t: Seq<Tok>, p: nat, c: Seq<char>)
    requires
        upper(c) == "BEGIN"@,
    ensures
        command(t, p, c) == environment(t, p),
{
    law_words_of_structure(c);
}

/// The names of environments, in any case of their letters. An environment of the name of a matrix
/// command has the fences of that command, but for the one with bars, which has a name of its own.
pub proof fn law_environment_names(name: Seq<char>)
    ensures
        (upper(name) == "MATRIX"@ || upper(name) == "PMATRIX"@ || upper(name) == "BMATRIX"@)
            ==> env_kind(name) == EnvKind::Matrix(matrix_fences(name)->0),
        (upper(name) == "VMATRIX"@ || upper(name) == "BVMATRIX"@) ==> env_kind(name)
            == EnvKind::Matrix(MatrixStyle::Vert),
        (upper(name) == "SMALLMATRIX"@ || upper(name) == "ARRAY"@) ==> env_kind(name)
            == EnvKind::Matrix(MatrixStyle::Plain),
        upper(name) == "CASES"@ ==> env_kind(name) == EnvKind::Cases,
        (upper(name) == "ALIGNED"@ || upper(name) == "ALIGN"@ || upper(name) == "EQNARRAY"@
            || upper(name) == "SPLIT"@ || upper(name) == "GATHER"@ || upper(name) == "GATHERED"@)
            ==> env_kind(name) == EnvKind::Aligned,
{
    reveal_strlit("MATRIX");
    reveal_strlit("PMATRIX");
    reveal_strlit("BMATRIX");
    reveal_strlit("VMATRIX");
    reveal_strlit("BVMATRIX");
    reveal_strlit("SMALLMATRIX");
    reveal_strlit("ARRAY");
    reveal_strlit("CASES");
    reveal_strlit("ALIGNED");
    reveal_strlit("ALIGN");
    reveal_strlit("EQNARRAY");
    reveal_strlit("SPLIT");
    reveal_strlit("GATHER");
    reveal_strlit("GATHERED");
    reveal_strlit("LADDER");
    reveal_strlit("SLADDER");
    assert("MATRIX"@.len() == 6 && "MATRIX"@[0] == 'M');
    assert("LADDER"@.len() == 6 && "LADDER"@[0] == 'L');
    assert("GATHER"@.len() == 6 && "GATHER"@[0] == 'G');
    assert("PMATRIX"@.len() == 7 && "PMATRIX"@[0] == 'P');
    assert("BMATRIX"@.len() == 7 && "BMATRIX"@[0] == 'B');
    assert("VMATRIX"@.len() == 7 && "VMATRIX"@[0] == 'V');
    assert("SLADDER"@.len() == 7 && "SLADDER"@[0] == 'S');
    assert("ALIGNED"@.len() == 7 && "ALIGNED"@[0] == 'A');
    assert("BVMATRIX"@.len() == 8 && "BVMATRIX"@[0] == 'B');
    assert("EQNARRAY"@.len() == 8 && "EQNARRAY"@[0] == 'E');
    assert("GATHERED"@.len() == 8 && "GATHERED"@[0] == 'G');
    assert("SMALLMATRIX"@.len() == 11);
    assert("ARRAY"@.len() == 5 && "ARRAY"@[0] == 'A' && "ARRAY"@[1] == 'R');
    assert("CASES"@.len() == 5 && "CASES"@[0] == 'C');
    assert("ALIGN"@.len() == 5 && "ALIGN"@[0] == 'A' && "ALIGN"@[1] == 'L');
    assert("SPLIT"@.len() == 5 && "SPLIT"@[0] == 'S');
}

} // verus!
