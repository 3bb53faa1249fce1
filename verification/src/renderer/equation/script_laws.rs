//! What holds of the parts of an equation script: arguments, scripts, lists and fences.

use super::ast::{row, EqTree, SpaceKind};
use super::commands::{command_kind, keyword_kind, layout_kind, CommandKind};
use super::grammar::{
    command_at, element, ended, expression, fence, fenced, group, infix_at, infixed,
    kind_at, law_element_advances, law_nodes_read_to_bound, mark_at, nodes, rest, scripted, scripts,
    single, stops, thin_before_script, word_at, Until,
};
use super::symbols::{big_operation, decoration, font_style, function, symbol};
use super::tokenizer::{Tok, TokenType};
use crate::text::upper;
use vstd::prelude::*;

verus! {

/// Whether neither a script nor a thin space with a script behind it stands at a place.
pub open spec fn bare_at(t: Seq<Tok>, p: nat) -> bool {
    &&& kind_at(t, p) != TokenType::Subscript
    &&& kind_at(t, p) != TokenType::Superscript
    &&& mark_at(t, p, "`"@) ==> kind_at(t, p + 1) != TokenType::Subscript && kind_at(t, p + 1)
        != TokenType::Superscript
}

/// Whether a script mark stands at a place, with a thin space before it (`j` is one) or without.
pub open spec fn mark_stands(t: Seq<Tok>, p: nat, mark: TokenType, j: nat) -> bool {
    ||| j == 0 && kind_at(t, p) == mark
    ||| j == 1 && mark_at(t, p, "`"@) && kind_at(t, p + 1) == mark
}

/// A base without a script is left as it is, and nothing is taken up.
pub proof fn law_base_without_script(t: Seq<Tok>, p: nat, base: EqTree)
    requires
        bare_at(t, p),
    ensures
        scripted(t, p, base) == (base, 0nat),
{
}

/// A script mark puts its argument on the base, below it or above it, and takes up the mark and
/// the argument, with the thin space that may stand before the mark.
pub proof fn law_script_on_base(t: Seq<Tok>, p: nat, j: nat, base: EqTree)
    ensures
        ({
            let (arg, k) = single(t, p + j + 1);
            bare_at(t, p + j + 1 + k) ==> {
                &&& mark_stands(t, p, TokenType::Subscript, j) ==> scripted(t, p, base) == (
                    EqTree::Subscript { base: Box::new(base), sub: Box::new(arg) },
                    j + 1 + k,
                )
                &&& mark_stands(t, p, TokenType::Superscript, j) ==> scripted(t, p, base) == (
                    EqTree::Superscript { base: Box::new(base), sup: Box::new(arg) },
                    j + 1 + k,
                )
            }
        }),
{
    let (arg, k) = single(t, p + j + 1);
    let q = p + j + 1 + k;
    assert(bare_at(t, q) ==> scripts(t, q, Some(arg), None) == (Some(arg), None::<EqTree>, 0nat));
    assert(bare_at(t, q) ==> scripts(t, q, None, Some(arg)) == (None::<EqTree>, Some(arg), 0nat));
    assert(mark_stands(t, p, TokenType::Subscript, j) || mark_stands(
        t,
        p,
        TokenType::Superscript,
        j,
    ) ==> thin_before_script(t, p) == j);
}

/// A script of each kind, in either order, stand on the base together.
pub proof fn law_both_scripts_on_base(t: Seq<Tok>, p: nat, i: nat, j: nat, base: EqTree)
    ensures
        ({
            let (x, k) = single(t, p + i + 1);
            let q = p + i + 1 + k;
            let (y, m) = single(t, q + j + 1);
            bare_at(t, q + j + 1 + m) ==> {
                &&& mark_stands(t, p, TokenType::Subscript, i) && mark_stands(
                    t,
                    q,
                    TokenType::Superscript,
                    j,
                ) ==> scripted(t, p, base) == (
                    EqTree::SubSup { base: Box::new(base), sub: Box::new(x), sup: Box::new(y) },
                    i + 1 + k + j + 1 + m,
                )
                &&& mark_stands(t, p, TokenType::Superscript, i) && mark_stands(
                    t,
                    q,
                    TokenType::Subscript,
                    j,
                ) ==> scripted(t, p, base) == (
                    EqTree::SubSup { base: Box::new(base), sub: Box::new(y), sup: Box::new(x) },
                    i + 1 + k + j + 1 + m,
                )
            }
        }),
{
    let (x, k) = single(t, p + i + 1);
    let q = p + i + 1 + k;
    let (y, m) = single(t, q + j + 1);
    let e = q + j + 1 + m;
    if bare_at(t, e) {
        if mark_stands(t, p, TokenType::Subscript, i) && mark_stands(
            t,
            q,
            TokenType::Superscript,
            j,
        ) {
            assert(scripts(t, e, Some(x), Some(y)) == (Some(x), Some(y), 0nat));
            assert(thin_before_script(t, q) == j);
            assert(scripts(t, q, Some(x), None) == (Some(x), Some(y), j + 1 + m));
            assert(thin_before_script(t, p) == i);
            assert(scripts(t, p, None, None) == (Some(x), Some(y), i + 1 + k + j + 1 + m));
        }
        if mark_stands(t, p, TokenType::Superscript, i) && mark_stands(
            t,
            q,
            TokenType::Subscript,
            j,
        ) {
            assert(scripts(t, e, Some(y), Some(x)) == (Some(y), Some(x), 0nat));
            assert(thin_before_script(t, q) == j);
            assert(scripts(t, q, None, Some(x)) == (Some(y), Some(x), j + 1 + m));
            assert(thin_before_script(t, p) == i);
            assert(scripts(t, p, None, None) == (Some(y), Some(x), i + 1 + k + j + 1 + m));
        }
    }
}

/// A second script of a kind is left for the next element; only the thin space before it is taken
/// up (`j` is one where there is one).
pub proof fn law_second_script_is_left(t: Seq<Tok>, p: nat, j: nat, base: EqTree)
    ensures
        ({
            let (x, k) = single(t, p + 1);
            let q = p + 1 + k;
            &&& kind_at(t, p) == TokenType::Subscript && mark_stands(t, q, TokenType::Subscript, j)
                ==> scripted(t, p, base) == (
                EqTree::Subscript { base: Box::new(base), sub: Box::new(x) },
                1 + k + j,
            )
            &&& kind_at(t, p) == TokenType::Superscript && mark_stands(
                t,
                q,
                TokenType::Superscript,
                j,
            ) ==> scripted(t, p, base) == (
                EqTree::Superscript { base: Box::new(base), sup: Box::new(x) },
                1 + k + j,
            )
        }),
{
    let (x, k) = single(t, p + 1);
    let q = p + 1 + k;
    assert(mark_stands(t, q, TokenType::Subscript, j) ==> scripts(t, q, Some(x), None) == (
        Some(x),
        None::<EqTree>,
        j,
    ));
    assert(mark_stands(t, q, TokenType::Superscript, j) ==> scripts(t, q, None, Some(x)) == (
        None::<EqTree>,
        Some(x),
        j,
    ));
}

/// The tree that scripts may be put on, of the element at a place, and the number of its tokens:
/// a number, a text, a quoted text or a braced group.
pub open spec fn base_at(t: Seq<Tok>, p: nat) -> Option<(EqTree, nat)> {
    match kind_at(t, p) {
        TokenType::Number => Some((EqTree::Number(word_at(t, p)), 1)),
        TokenType::Text => Some((EqTree::Text(word_at(t, p)), 1)),
        TokenType::Quoted => Some((EqTree::Quoted(word_at(t, p)), 1)),
        TokenType::LBrace => Some(group(t, p)),
        _ => None,
    }
}

/// Numbers, texts and braced groups take the scripts that follow them: one script makes a script
/// node whose base is the number, the text or the tree of the group, two make a node of both.
/// Without a script the element is that base.
pub proof fn law_element_takes_scripts(t: Seq<Tok>, p: nat, i: nat, j: nat)
    requires
        base_at(t, p) is Some,
    ensures
        ({
            let (base, n) = base_at(t, p)->0;
            let q = p + n;
            let (x, k) = single(t, q + i + 1);
            let r = q + i + 1 + k;
            let (y, m) = single(t, r + j + 1);
            let e = r + j + 1 + m;
            &&& bare_at(t, q) ==> element(t, p) == (base, n)
            &&& mark_stands(t, q, TokenType::Subscript, i) && bare_at(t, r) ==> element(t, p) == (
                EqTree::Subscript { base: Box::new(base), sub: Box::new(x) },
                n + i + 1 + k,
            )
            &&& mark_stands(t, q, TokenType::Superscript, i) && bare_at(t, r) ==> element(t, p)
                == (
                EqTree::Superscript { base: Box::new(base), sup: Box::new(x) },
                n + i + 1 + k,
            )
            &&& mark_stands(t, q, TokenType::Subscript, i) && mark_stands(
                t,
                r,
                TokenType::Superscript,
                j,
            ) && bare_at(t, e) ==> element(t, p) == (
                EqTree::SubSup { base: Box::new(base), sub: Box::new(x), sup: Box::new(y) },
                n + i + 1 + k + j + 1 + m,
            )
            &&& mark_stands(t, q, TokenType::Superscript, i) && mark_stands(
                t,
                r,
                TokenType::Subscript,
                j,
            ) && bare_at(t, e) ==> element(t, p) == (
                EqTree::SubSup { base: Box::new(base), sub: Box::new(y), sup: Box::new(x) },
                n + i + 1 + k + j + 1 + m,
            )
        }),
{
    let (base, n) = base_at(t, p)->0;
    let q = p + n;
    law_script_on_base(t, q, i, base);
    law_both_scripts_on_base(t, q, i, j, base);
    let (node, m) = scripted(t, q, base);
    assert(element(t, p) == (node, n + m));
}

/// A script mark with nothing before it puts its argument on an empty base.
pub proof fn law_script_without_base(t: Seq<Tok>, p: nat)
    ensures
        ({
            let (arg, k) = single(t, p + 1);
            bare_at(t, p + 1 + k) ==> {
                &&& kind_at(t, p) == TokenType::Subscript ==> element(t, p) == (
                    EqTree::Subscript { base: Box::new(EqTree::Empty), sub: Box::new(arg) },
                    1 + k,
                )
                &&& kind_at(t, p) == TokenType::Superscript ==> element(t, p) == (
                    EqTree::Superscript { base: Box::new(EqTree::Empty), sup: Box::new(arg) },
                    1 + k,
                )
            }
        }),
{
    law_script_on_base(t, p, 0, EqTree::Empty);
}

/// Whether a word is in none of the tables of words that shape an equation, put a mark on a body
/// or select a type face.
pub open spec fn is_plain_word(w: Seq<char>) -> bool {
    &&& keyword_kind(upper(w)) is None
    &&& big_operation(w) is None
    &&& w != "lim"@
    &&& w != "Lim"@
    &&& layout_kind(upper(w)) is None
    &&& decoration(w) is None
    &&& font_style(w) is None
}

/// What a plain word stands for: the sign that it names, else the function that it names, else
/// the word itself.
pub open spec fn word_tree(w: Seq<char>) -> EqTree {
    if symbol(w) is Some {
        EqTree::MathSymbol(symbol(w)->0)
    } else if function(w) is Some {
        EqTree::Function(function(w)->0)
    } else {
        EqTree::Text(w)
    }
}

/// An argument of one token, or of one group, is the same tree as the element that it would be by
/// itself: a word names the same sign or function in both, and numbers, texts, signs and groups
/// are read alike. A word as an argument is never a command: it stands for its sign, its function
/// or its letters.
pub proof fn law_argument_is_the_element(t: Seq<Tok>, p: nat)
    ensures
        ({
            let (arg, k) = single(t, p);
            let w = word_at(t, p);
            &&& kind_at(t, p) == TokenType::Command ==> single(t, p) == (word_tree(w), 1nat)
            &&& kind_at(t, p) == TokenType::Command && is_plain_word(w) && bare_at(t, p + 1)
                && !mark_at(t, p + 1, "`"@) ==> element(t, p) == single(t, p)
            &&& base_at(t, p) is Some ==> single(t, p) == base_at(t, p)->0
            &&& base_at(t, p) is Some && bare_at(t, p + k) ==> element(t, p) == single(t, p)
            &&& kind_at(t, p) == TokenType::Symbol ==> single(t, p) == (EqTree::Symbol(w), 1nat)
            &&& kind_at(t, p) == TokenType::Symbol && w != "->"@ ==> element(t, p) == single(t, p)
        }),
{
    let w = word_at(t, p);
    if base_at(t, p) is Some {
        law_element_takes_scripts(t, p, 0, 0);
    }
    if kind_at(t, p) == TokenType::Command && is_plain_word(w) {
        law_word_takes_scripts(t, p);
    }
}

proof fn lemma_plain_word_kind(w: Seq<char>)
    requires
        is_plain_word(w),
    ensures
        command_kind(w) == if symbol(w) is Some {
            CommandKind::Sign
        } else if function(w) is Some {
            CommandKind::Function
        } else {
            CommandKind::Word
        },
{
}

/// A plain word takes the scripts that follow it, on the sign, the function or the letters that
/// it stands for; behind a function a thin space is passed over first.
pub proof fn law_word_takes_scripts(t: Seq<Tok>, p: nat)
    requires
        kind_at(t, p) == TokenType::Command,
        is_plain_word(word_at(t, p)),
    ensures
        ({
            let base = word_tree(word_at(t, p));
            let q = if base is Function && mark_at(t, p + 1, "`"@) {
                p + 2
            } else {
                p + 1
            };
            let (arg, k) = single(t, q + 1);
            &&& bare_at(t, q) ==> element(t, p) == (base, (q - p) as nat)
            &&& bare_at(t, q + 1 + k) && kind_at(t, q) == TokenType::Subscript ==> element(t, p)
                == (
                EqTree::Subscript { base: Box::new(base), sub: Box::new(arg) },
                (q - p + 1 + k) as nat,
            )
            &&& bare_at(t, q + 1 + k) && kind_at(t, q) == TokenType::Superscript ==> element(t, p)
                == (
                EqTree::Superscript { base: Box::new(base), sup: Box::new(arg) },
                (q - p + 1 + k) as nat,
            )
        }),
{
    let w = word_at(t, p);
    lemma_plain_word_kind(w);
    let base = word_tree(w);
    let q = if base is Function && mark_at(t, p + 1, "`"@) {
        p + 2
    } else {
        p + 1
    };
    law_script_on_base(t, q, 0, base);
    let (node, n) = scripted(t, q, base);
    assert(element(t, p).0 == node);
    assert(element(t, p).1 == q - p + n);
}

/// Signs, parentheses and brackets stand for themselves, an arrow of two characters for the arrow
/// sign; a stray closing brace stands for nothing. Each takes up one token and takes no script.
pub proof fn law_signs_stand_for_themselves(t: Seq<Tok>, p: nat)
    ensures
        ({
            let w = word_at(t, p);
            let k = kind_at(t, p);
            &&& k == TokenType::Symbol && w == "->"@ ==> element(t, p) == (
                EqTree::MathSymbol("→"@),
                1nat,
            )
            &&& k == TokenType::Symbol && w != "->"@ ==> element(t, p) == (EqTree::Symbol(w), 1nat)
            &&& k == TokenType::LParen || k == TokenType::RParen || k == TokenType::LBracket || k
                == TokenType::RBracket ==> element(t, p) == (EqTree::Symbol(w), 1nat)
            &&& k == TokenType::RBrace ==> element(t, p) == (EqTree::Empty, 1nat)
        }),
{
}

/// The four layout marks stand for an ordinary space, a thin space, a new line and a gap.
pub proof fn law_layout_marks(t: Seq<Tok>, p: nat)
    ensures
        mark_at(t, p, "~"@) ==> element(t, p) == (EqTree::Space(SpaceKind::Normal), 1nat),
        mark_at(t, p, "`"@) ==> element(t, p) == (EqTree::Space(SpaceKind::Thin), 1nat),
        mark_at(t, p, "#"@) ==> element(t, p) == (EqTree::Newline, 1nat),
        mark_at(t, p, "&"@) ==> element(t, p) == (EqTree::Space(SpaceKind::Tab), 1nat),
{
    reveal_strlit("~");
    reveal_strlit("`");
    reveal_strlit("#");
    reveal_strlit("&");
    assert("~"@[0] == '~' && "`"@[0] == '`' && "#"@[0] == '#' && "&"@[0] == '&');
}

/// A list without infixes is the list of the elements at `at[0]`, `at[1]` and so on, each of which
/// starts where the one before it ends; it ends at the first of these places where it may stop.
pub open spec fn elements_at(
    t: Seq<Tok>,
    until: Until,
    at: Seq<nat>,
    list: Seq<EqTree>,
) -> bool {
    &&& at.len() == list.len() + 1
    &&& stops(t, at.last(), until)
    &&& forall|i: int|
        0 <= i < list.len() ==> {
            let e = element(t, #[trigger] at[i]);
            &&& !stops(t, at[i], until)
            &&& list[i] == e.0
            &&& at[i + 1] == at[i] + e.1
        }
}

/// A list in which infixes stand for nothing is made of the elements from its start to its end.
pub proof fn law_list_of_elements(t: Seq<Tok>, p: nat, until: Until)
    ensures
        ({
            let (list, n) = nodes(t, p, until, false, Seq::empty());
            exists|at: Seq<nat>|
                #[trigger] elements_at(t, until, at, list) && at[0] == p && at.last() == p + n
        }),
{
    let at = lemma_places(t, p, until, Seq::empty());
}

proof fn lemma_places(t: Seq<Tok>, p: nat, until: Until, acc: Seq<EqTree>) -> (at: Seq<nat>)
    ensures
        ({
            let (list, n) = nodes(t, p, until, false, acc);
            &&& list.len() >= acc.len()
            &&& list.take(acc.len() as int) == acc
            &&& elements_at(t, until, at, list.skip(acc.len() as int))
            &&& at[0] == p
            &&& at.last() == p + n
            &&& acc.len() == 0 ==> list.skip(0) == list
        }),
    decreases rest(t, p),
{
    let (list, n) = nodes(t, p, until, false, acc);
    if stops(t, p, until) {
        assert(list.take(acc.len() as int) =~= acc);
        assert(list.skip(acc.len() as int).len() == 0);
        seq![p]
    } else {
        law_element_advances(t, p);
        let (node, k) = element(t, p);
        let more = lemma_places(t, p + k, until, acc.push(node));
        let at = seq![p] + more;
        assert(list.take((acc.len() + 1) as int) == acc.push(node));
        assert(list.take(acc.len() as int) =~= list.take((acc.len() + 1) as int).take(
            acc.len() as int,
        ));
        assert(acc.push(node).take(acc.len() as int) =~= acc);
        let tail = list.skip(acc.len() as int);
        let rest_list = list.skip((acc.len() + 1) as int);
        assert(list.take((acc.len() + 1) as int)[acc.len() as int] == node);
        assert(tail =~= seq![node] + rest_list);
        assert(acc.push(node).len() == acc.len() + 1);
        assert forall|i: int| 0 <= i < tail.len() implies {
            let e = element(t, #[trigger] at[i]);
            &&& !stops(t, at[i], until)
            &&& tail[i] == e.0
            &&& at[i + 1] == at[i] + e.1
        } by {
            if i > 0 {
                assert(at[i] == more[i - 1]);
                assert(at[i + 1] == more[i]);
                assert(tail[i] == rest_list[i - 1]);
            } else {
                assert(at[1] == more[0]);
            }
        }
        assert(at.last() == more.last());
        assert(acc.len() == 0 ==> list.skip(0) =~= list);
        at
    }
}

/// A list takes up its next element as it is, behind those that it has: spaces, marks and empty
/// elements too.
pub proof fn law_list_takes_next_element(
    t: Seq<Tok>,
    p: nat,
    until: Until,
    infix: bool,
    acc: Seq<EqTree>,
)
    requires
        !stops(t, p, until),
        !(infix && infix_at(t, p)),
    ensures
        ({
            let (node, k) = element(t, p);
            let (list, n) = nodes(t, p + k, until, infix, acc.push(node));
            nodes(t, p, until, infix, acc) == (list, k + n)
        }),
{
    law_element_advances(t, p);
}

/// A list that may stop at once has what was read before, and takes up nothing. The tree of an
/// expression is the row of its list.
pub proof fn law_list_ends(t: Seq<Tok>, p: nat, until: Until, infix: bool, acc: Seq<EqTree>)
    ensures
        stops(t, p, until) ==> nodes(t, p, until, infix, acc) == (acc, 0nat),
        ({
            let (list, n) = nodes(t, p, Until::CloseOrRight, true, Seq::empty());
            expression(t, p) == (row(list), n)
        }),
{
}

/// What was read of a list before does not change what follows, unless an infix follows at once.
pub proof fn law_list_keeps_what_was_read(
    t: Seq<Tok>,
    p: nat,
    until: Until,
    infix: bool,
    acc: Seq<EqTree>,
)
    requires
        !(infix && infix_at(t, p)) || stops(t, p, until),
    ensures
        ({
            let (list, n) = nodes(t, p, until, infix, Seq::empty());
            nodes(t, p, until, infix, acc) == (acc + list, n)
        }),
    decreases rest(t, p),
{
    if stops(t, p, until) {
        assert(acc + Seq::empty() =~= acc);
    } else {
        law_element_advances(t, p);
        let (node, k) = element(t, p);
        lemma_list_appends(t, p + k, until, infix, acc, seq![node]);
        assert(acc + seq![node] =~= acc.push(node));
        assert(Seq::<EqTree>::empty().push(node) =~= seq![node]);
    }
}

proof fn lemma_list_appends(
    t: Seq<Tok>,
    p: nat,
    until: Until,
    infix: bool,
    front: Seq<EqTree>,
    acc: Seq<EqTree>,
)
    requires
        acc.len() > 0,
    ensures
        ({
            let (list, n) = nodes(t, p, until, infix, acc);
            nodes(t, p, until, infix, front + acc) == (front + list, n)
        }),
    decreases rest(t, p),
{
    if !stops(t, p, until) {
        if infix && infix_at(t, p) {
            let (bottom, k) = element(t, p + 1);
            let next = infixed(t, p, acc, bottom);
            assert(infixed(t, p, front + acc, bottom) =~= front + next);
            lemma_list_appends(t, p + 1 + k, until, infix, front, next);
        } else {
            law_element_advances(t, p);
            let (node, k) = element(t, p);
            assert((front + acc).push(node) =~= front + acc.push(node));
            lemma_list_appends(t, p + k, until, infix, front, acc.push(node));
        }
    }
}

/// `OVER` makes a fraction, and `ATOP` a stack without a bar, of the element right before it and
/// the element right behind it; the elements further off are left as they are. Where nothing
/// stands before it the upper part is empty.
pub proof fn law_infix_joins_its_neighbours(t: Seq<Tok>, p: nat, until: Until, acc: Seq<EqTree>)
    requires
        !stops(t, p, until),
        infix_at(t, p),
    ensures
        ({
            let (bottom, k) = element(t, p + 1);
            let top = if acc.len() == 0 {
                EqTree::Empty
            } else {
                acc.last()
            };
            let front = if acc.len() == 0 {
                Seq::empty()
            } else {
                acc.drop_last()
            };
            let over = EqTree::Fraction { numer: Box::new(top), denom: Box::new(bottom) };
            let atop = EqTree::Atop { top: Box::new(top), bottom: Box::new(bottom) };
            let (list, n) = nodes(
                t,
                p + 1 + k,
                until,
                true,
                front.push(
                    if command_at(t, p, "ATOP"@) {
                        atop
                    } else {
                        over
                    },
                ),
            );
            nodes(t, p, until, true, acc) == (list, 1 + k + n)
        }),
{
    assert(Seq::<EqTree>::empty().push(infixed(t, p, acc, element(t, p + 1).0)[0]) =~= seq![
        infixed(t, p, acc, element(t, p + 1).0)[0],
    ]);
}

/// Two elements with an infix between them, and nothing else, read as one fraction or one stack,
/// as an expression and in braces.
pub proof fn law_fraction_of_two(t: Seq<Tok>, p: nat)
    requires
        !infix_at(t, p),
        !stops(t, p, Until::CloseOrRight),
    ensures
        ({
            let (a, n) = element(t, p);
            let q = p + n;
            let (b, m) = element(t, q + 1);
            let e = q + 1 + m;
            infix_at(t, q) && stops(t, e, Until::CloseOrRight) ==> expression(t, p) == (
                if command_at(t, q, "ATOP"@) {
                    EqTree::Atop { top: Box::new(a), bottom: Box::new(b) }
                } else {
                    EqTree::Fraction { numer: Box::new(a), denom: Box::new(b) }
                },
                n + 1 + m,
            )
        }),
{
    let until = Until::CloseOrRight;
    law_element_advances(t, p);
    let (a, n) = element(t, p);
    let q = p + n;
    let (b, m) = element(t, q + 1);
    let e = q + 1 + m;
    if infix_at(t, q) && stops(t, e, until) {
        lemma_infix_is_no_right(t, q);
        let acc = seq![a];
        assert(Seq::<EqTree>::empty().push(a) =~= acc);
        assert(nodes(t, e, until, true, infixed(t, q, acc, b)) == (infixed(t, q, acc, b), 0nat));
        assert(nodes(t, q, until, true, acc) == (infixed(t, q, acc, b), 1 + m));
        assert(nodes(t, p, until, true, Seq::empty()) == (infixed(t, q, acc, b), n + 1 + m));
    }
}

proof fn lemma_infix_is_no_right(t: Seq<Tok>, q: nat)
    requires
        infix_at(t, q),
    ensures
        !stops(t, q, Until::CloseOrRight),
{
    reveal_strlit("OVER");
    reveal_strlit("ATOP");
    reveal_strlit("RIGHT");
    let u = upper(word_at(t, q));
    assert(upper("OVER"@).len() == 4 && upper("ATOP"@).len() == 4 && upper("RIGHT"@).len() == 5);
}

/// A group is the row of the list between its braces, whatever stands behind it; it takes up the
/// list and both braces, or only the opening one where none closes it.
pub proof fn law_group_is_its_list(t: Seq<Tok>, p: nat)
    requires
        kind_at(t, p) == TokenType::LBrace,
    ensures
        ({
            let (list, n) = nodes(t, p + 1, Until::Close, true, Seq::empty());
            let q = p + 1 + n;
            &&& group(t, p).0 == row(list)
            &&& kind_at(t, q) == TokenType::RBrace ==> group(t, p).1 == n + 2
            &&& kind_at(t, q) != TokenType::RBrace ==> group(t, p).1 == n + 1 && ended(t, q)
        }),
{
    law_nodes_read_to_bound(t, p + 1, Until::Close, true, Seq::empty());
}

/// A group of one element is that element.
pub proof fn law_group_of_one(t: Seq<Tok>, p: nat)
    requires
        kind_at(t, p) == TokenType::LBrace,
        !infix_at(t, p + 1),
        !ended(t, p + 1),
        kind_at(t, p + 1) != TokenType::RBrace,
        kind_at(t, p + 1 + element(t, p + 1).1) == TokenType::RBrace,
    ensures
        group(t, p) == (element(t, p + 1).0, element(t, p + 1).1 + 2),
{
    law_element_advances(t, p + 1);
    let (a, n) = element(t, p + 1);
    assert(Seq::<EqTree>::empty().push(a) =~= seq![a]);
    assert(nodes(t, p + 1 + n, Until::Close, true, seq![a]) == (seq![a], 0nat));
    assert(nodes(t, p + 1, Until::Close, true, Seq::empty()) == (seq![a], n));
}

/// What a fence looks like: brackets of any kind and the bar as they are, none for a full stop,
/// and the sign for a word that names one.
pub proof fn law_fences(t: Seq<Tok>, p: nat)
    ensures
        ({
            let w = word_at(t, p);
            let k = kind_at(t, p);
            &&& k == TokenType::LParen || k == TokenType::RParen || k == TokenType::LBracket || k
                == TokenType::RBracket || k == TokenType::LBrace || k == TokenType::RBrace
                ==> fence(t, p) == (w, 1nat)
            &&& k == TokenType::Symbol && w == "|"@ ==> fence(t, p) == (w, 1nat)
            &&& k == TokenType::Symbol && w == "."@ ==> fence(t, p) == (Seq::<char>::empty(), 1nat)
            &&& k == TokenType::Symbol && w != "|"@ && w != "."@ ==> fence(t, p) == (
                Seq::<char>::empty(),
                0nat,
            )
            &&& k == TokenType::Command && symbol(w) is Some ==> fence(t, p) == (symbol(w)->0, 1nat)
            &&& k == TokenType::Command && symbol(w) is None ==> fence(t, p) == (
                Seq::<char>::empty(),
                0nat,
            )
            &&& k == TokenType::Number || k == TokenType::Text || k == TokenType::Quoted || k
                == TokenType::Whitespace || k == TokenType::Subscript || k == TokenType::Superscript
                || k == TokenType::Eof ==> fence(t, p) == (Seq::<char>::empty(), 0nat)
        }),
{
    reveal_strlit(".");
    reveal_strlit("|");
    assert("."@[0] == '.' && "|"@[0] == '|');
}

/// `LEFT` and `RIGHT` put the expression between them between their fences, the left one first,
/// and take up all of it. Where no `RIGHT` ends the expression, it ends with the script or at a
/// closing brace.
pub proof fn law_left_and_right(t: Seq<Tok>, p: nat)
    ensures
        ({
            let (left, a) = fence(t, p);
            let (body, n) = expression(t, p + a);
            let q = p + a + n;
            let (right, c) = fence(t, q + 1);
            let (other, d) = fence(t, q);
            &&& command_at(t, q, "RIGHT"@) ==> fenced(t, p) == (
                EqTree::Paren { left, right, body: Box::new(body) },
                a + n + 1 + c,
            )
            &&& !command_at(t, q, "RIGHT"@) ==> fenced(t, p) == (
                EqTree::Paren { left, right: other, body: Box::new(body) },
                a + n + d,
            ) && (ended(t, q) || kind_at(t, q) == TokenType::RBrace)
        }),
{
    let (left, a) = fence(t, p);
    law_nodes_read_to_bound(t, p + a, Until::CloseOrRight, true, Seq::empty());
}

} // verus!
