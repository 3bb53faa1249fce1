//! What holds of expressions that are divided at an `OVER`, and of the places where lists and
//! environments end.

use super::ast::{row, EqTree};
use super::commands::{command_kind, CommandKind};
use super::grammar::{
    arg_len, around_over, brace_arg, command, command_at, divided, divided_in_range,
    divided_to_brace, element, ended, env_end_at, env_end_len, expression, infix_at, joined,
    kind_at, law_element_advances, mark_at, name_len, nodes, stops, top_over, word_at, Until,
};
use super::script_laws::law_fraction_of_two;
use super::symbols::structure_command;
use super::tokenizer::{Tok, TokenType};
use super::word_laws::law_words_of_structure;
use crate::text::upper;
use vstd::prelude::*;

verus! {

/// The tree of a list of nodes in front of a fraction, the fraction and the nodes behind it.
pub open spec fn with_fraction(
    before: Seq<EqTree>,
    denom: EqTree,
    after: Seq<EqTree>,
) -> Seq<EqTree> {
    let numer = if before.len() == 0 {
        EqTree::Empty
    } else {
        before.last()
    };
    let front = before.take(before.len() - if before.len() == 0 {
        0int
    } else {
        1
    });
    front + seq![EqTree::Fraction { numer: Box::new(numer), denom: Box::new(denom) }] + after
}

proof fn lemma_around_over(before: Seq<EqTree>, denom: EqTree, after: Seq<EqTree>)
    ensures
        around_over(before, denom, after) == row(with_fraction(before, denom, after)),
{
    let numer = if before.len() == 0 {
        EqTree::Empty
    } else {
        before.last()
    };
    let f = EqTree::Fraction { numer: Box::new(numer), denom: Box::new(denom) };
    if before.len() > 1 {
        assert(before.drop_last().push(f) + after =~= with_fraction(before, denom, after));
    } else {
        assert(Seq::<EqTree>::empty().push(f) + after =~= with_fraction(before, denom, after));
    }
}

/// An expression without an `OVER` outside of braces and fences is not divided. One with such an
/// `OVER`, where an element ends right before it, is divided there: the element before it is the
/// upper part and the element behind it the lower part; what stands further off stays beside the
/// fraction.
pub proof fn law_divided_at_over(t: Seq<Tok>, p: nat)
    ensures
        top_over(t, p, 0, 0) is None ==> divided(t, p) == expression(t, p),
        top_over(t, p, 0, 0) matches Some(over) ==> {
            let (before, a) = nodes(t, p, Until::Place(over), false, Seq::empty());
            let (denom, b) = element(t, over + 1);
            let (after, c) = nodes(t, over + 1 + b, Until::CloseOrRight, false, Seq::empty());
            p + a == over && command_at(t, over, "OVER"@) ==> divided(t, p) == (
                row(with_fraction(before, denom, after)),
                a + 1 + b + c,
            )
        },
{
    if let Some(over) = top_over(t, p, 0, 0) {
        let (before, a) = nodes(t, p, Until::Place(over), false, Seq::empty());
        let (denom, b) = element(t, over + 1);
        let (after, c) = nodes(t, over + 1 + b, Until::CloseOrRight, false, Seq::empty());
        lemma_around_over(before, denom, after);
    }
}

/// Where two elements with `OVER` between them are the whole expression, dividing it at the `OVER`
/// gives what reading it gives.
pub proof fn law_dividing_agrees_with_reading(t: Seq<Tok>, p: nat)
    requires
        !infix_at(t, p),
        !stops(t, p, Until::CloseOrRight),
    ensures
        ({
            let q = p + element(t, p).1;
            let e = q + 1 + element(t, q + 1).1;
            command_at(t, q, "OVER"@) && top_over(t, p, 0, 0) == Some(q) && stops(
                t,
                e,
                Until::CloseOrRight,
            ) ==> divided(t, p) == expression(t, p)
        }),
{
    law_fraction_of_two(t, p);
    law_element_advances(t, p);
    let (a, n) = element(t, p);
    let q = p + n;
    let (b, m) = element(t, q + 1);
    let e = q + 1 + m;
    if command_at(t, q, "OVER"@) && top_over(t, p, 0, 0) == Some(q) && stops(
        t,
        e,
        Until::CloseOrRight,
    ) {
        assert(Seq::<EqTree>::empty().push(a) =~= seq![a]);
        assert(nodes(t, q, Until::Place(q), false, seq![a]) == (seq![a], 0nat));
        assert(nodes(t, p, Until::Place(q), false, Seq::empty()) == (seq![a], n));
        assert(nodes(t, e, Until::CloseOrRight, false, Seq::empty()) == (
            Seq::<EqTree>::empty(),
            0nat,
        ));
        let f = EqTree::Fraction { numer: Box::new(a), denom: Box::new(b) };
        lemma_around_over(seq![a], b, Seq::empty());
        assert(with_fraction(seq![a], b, Seq::empty()) =~= seq![f]);
        reveal_strlit("OVER");
        reveal_strlit("ATOP");
        assert(upper("OVER"@)[0] == 'O' && upper("ATOP"@)[0] == 'A');
        assert(!command_at(t, q, "ATOP"@));
    }
}

/// A fraction up to a closing brace has all that stands before `OVER` over all that stands behind
/// it; without `OVER` the lower part is empty.
pub proof fn law_divided_to_brace(t: Seq<Tok>, p: nat)
    ensures
        ({
            let (numer, a) = nodes(t, p, Until::CloseOrOver, false, Seq::empty());
            let q = p + a;
            let (denom, b) = nodes(t, q + 1, Until::Close, false, Seq::empty());
            &&& command_at(t, q, "OVER"@) ==> divided_to_brace(t, p) == (
                EqTree::Fraction { numer: Box::new(row(numer)), denom: Box::new(row(denom)) },
                a + 1 + b,
            )
            &&& kind_at(t, q) == TokenType::RBrace || ended(t, q) ==> divided_to_brace(t, p) == (
                EqTree::Fraction { numer: Box::new(row(numer)), denom: Box::new(EqTree::Empty) },
                a,
            )
        }),
{
    let (numer, a) = nodes(t, p, Until::CloseOrOver, false, Seq::empty());
    let q = p + a;
    if kind_at(t, q) == TokenType::RBrace || ended(t, q) {
        assert(nodes(t, q, Until::Close, false, Seq::empty()) == (Seq::<EqTree>::empty(), 0nat));
    }
}

/// The part of an expression before a place is divided at its first `OVER`: as a whole expression
/// is, with all that follows up to that place or to `RIGHT` beside the fraction.
pub proof fn law_divided_in_range(t: Seq<Tok>, p: nat, end: nat)
    ensures
        ({
            let (before, a) = nodes(t, p, Until::PlaceOrOver(end), false, Seq::empty());
            let q = p + a;
            let (denom, b) = element(t, q + 1);
            let (after, c) = nodes(t, q + 1 + b, Until::PlaceOrRight(end), false, Seq::empty());
            q + 1 < end && command_at(t, q, "OVER"@) ==> divided_in_range(t, p, end) == (
                row(with_fraction(before, denom, after)),
                a + 1 + b + c,
            )
        }),
{
    let (before, a) = nodes(t, p, Until::PlaceOrOver(end), false, Seq::empty());
    let q = p + a;
    let (denom, b) = element(t, q + 1);
    let (after, c) = nodes(t, q + 1 + b, Until::PlaceOrRight(end), false, Seq::empty());
    lemma_around_over(before, denom, after);
}

/// Every list ends with the script; one in braces, brackets or parentheses ends at the closing
/// one, one between fences also at `RIGHT`, one before a division also at `OVER`, one with a limit
/// at the limit, and one in an environment at its `\end`. Nothing else ends a list.
pub proof fn law_where_lists_end(t: Seq<Tok>, p: nat, end: nat, name: Seq<char>)
    ensures
        ({
            let k = kind_at(t, p);
            let e = k == TokenType::Eof;
            let right = k == TokenType::Command && upper(word_at(t, p)) == upper("RIGHT"@);
            let over = k == TokenType::Command && upper(word_at(t, p)) == upper("OVER"@);
            &&& stops(t, p, Until::Close) <==> e || k == TokenType::RBrace
            &&& stops(t, p, Until::CloseOrRight) <==> e || k == TokenType::RBrace || right
            &&& stops(t, p, Until::CloseOrOver) <==> e || k == TokenType::RBrace || over
            &&& stops(t, p, Until::Bracket) <==> e || k == TokenType::RBracket
            &&& stops(t, p, Until::Paren) <==> e || k == TokenType::RParen
            &&& stops(t, p, Until::Place(end)) <==> e || p >= end
            &&& stops(t, p, Until::PlaceOrOver(end)) <==> e || p >= end || over
            &&& stops(t, p, Until::PlaceOrRight(end)) <==> e || p >= end || right
            &&& stops(t, p, Until::PlaceOrClose(end)) <==> e || p >= end || k == TokenType::RBrace
            &&& stops(t, p, Until::EnvEnd(name)) <==> e || env_end_at(t, p, name)
        }),
{
}

/// `OVER` and `ATOP` are infixes in any case of their letters, and nothing else is one. A layout
/// mark is the token of that one character.
pub proof fn law_infixes_and_marks(t: Seq<Tok>, p: nat, mark: Seq<char>)
    ensures
        infix_at(t, p) <==> kind_at(t, p) == TokenType::Command && (upper(word_at(t, p)) == upper(
            "OVER"@,
        ) || upper(word_at(t, p)) == upper("ATOP"@)),
        mark_at(t, p, mark) <==> p < t.len() && t[p as int].ty == TokenType::Whitespace
            && t[p as int].value == mark,
{
}

/// A command with all that belongs to it takes up its word and what the command takes up.
pub proof fn law_command_element(t: Seq<Tok>, p: nat)
    requires
        kind_at(t, p) == TokenType::Command,
    ensures
        element(t, p).0 == command(t, p + 1, word_at(t, p)).0,
        element(t, p).1 == 1 + command(t, p + 1, word_at(t, p)).1,
{
}

/// The text of tokens put together grows by the text of the next one.
pub proof fn law_texts_put_together(t: Seq<Tok>, p: nat, n: nat)
    ensures
        joined(t, p, 0) == Seq::<char>::empty(),
        joined(t, p, n + 1) == joined(t, p, n) + word_at(t, p + n),
{
}

/// The text of a braced argument is that of the tokens between its braces put together, and it
/// takes up these and the braces. Without an opening brace there is none.
pub proof fn law_braced_text(t: Seq<Tok>, p: nat, n: nat)
    ensures
        kind_at(t, p) != TokenType::LBrace ==> brace_arg(t, p) == (Seq::<char>::empty(), 0nat),
        kind_at(t, p) == TokenType::LBrace && (forall|i: nat|
            p < i <= p + n ==> #[trigger] kind_at(t, i) != TokenType::RBrace && kind_at(t, i)
                != TokenType::Eof) && kind_at(t, p + n + 1) == TokenType::RBrace ==> {
            &&& brace_arg(t, p).1 == n + 2
            &&& n == 0 ==> brace_arg(t, p).0 == Seq::<char>::empty()
            &&& n == 1 ==> brace_arg(t, p).0 == word_at(t, p + 1)
            &&& n == 2 ==> brace_arg(t, p).0 == word_at(t, p + 1) + word_at(t, p + 2)
        },
{
    if kind_at(t, p) == TokenType::LBrace && (forall|i: nat|
        p < i <= p + n ==> #[trigger] kind_at(t, i) != TokenType::RBrace && kind_at(t, i)
            != TokenType::Eof) && kind_at(t, p + n + 1) == TokenType::RBrace {
        lemma_arg_len(t, p + 1, n);
        reveal_with_fuel(joined, 3);
        assert(n == 1 ==> brace_arg(t, p).0 =~= word_at(t, p + 1));
        assert(n == 2 ==> brace_arg(t, p).0 =~= word_at(t, p + 1) + word_at(t, p + 2));
    }
}

proof fn lemma_arg_len(t: Seq<Tok>, p: nat, n: nat)
    requires
        forall|i: nat|
            p <= i < p + n ==> #[trigger] kind_at(t, i) != TokenType::RBrace && kind_at(t, i)
                != TokenType::Eof,
        kind_at(t, p + n) == TokenType::RBrace,
    ensures
        arg_len(t, p) == n,
        name_len(t, p) == n,
    decreases n,
{
    if n > 0 {
        assert(kind_at(t, p) != TokenType::Eof);
        lemma_arg_len(t, p + 1, (n - 1) as nat);
    }
}

/// An environment ends at `\end` with its own name in braces, in any case of the letters, and at
/// no other; the `\end` takes up four tokens where the name is one word.
pub proof fn law_environment_end(t: Seq<Tok>, p: nat, name: Seq<char>)
    requires
        kind_at(t, p + 2) != TokenType::RBrace,
        kind_at(t, p + 2) != TokenType::Eof,
        kind_at(t, p + 3) == TokenType::RBrace,
    ensures
        env_end_at(t, p, name) <==> kind_at(t, p) == TokenType::Command && upper(word_at(t, p))
            == upper("end"@) && kind_at(t, p + 1) == TokenType::LBrace && upper(word_at(t, p + 2))
            == upper(name),
        env_end_at(t, p, name) ==> env_end_len(t, p) == 4,
{
    lemma_arg_len(t, p + 2, 1);
    reveal_with_fuel(joined, 2);
    assert(joined(t, p + 2, 1) =~= word_at(t, p + 2));
    if kind_at(t, p + 1) == TokenType::LBrace {
        law_braced_text(t, p + 1, 1);
    }
}

/// The words before which a type face takes nothing are those for fractions, roots, matrices,
/// lines, fences, relations, long divisions, choices, colours and environments, and the stray
/// words; no others.
pub proof fn law_words_spared_by_faces(w: Seq<char>)
    ensures
        structure_command(upper(w)) <==> match command_kind(w) {
            CommandKind::Stray => true,
            CommandKind::Fraction => true,
            CommandKind::Root => true,
            CommandKind::Matrix(style) => true,
            CommandKind::Cases => true,
            CommandKind::Aligned => true,
            CommandKind::Pile(align) => true,
            CommandKind::Left => true,
            CommandKind::Relation { over_only } => true,
            CommandKind::LongDivision => true,
            CommandKind::Choose => true,
            CommandKind::Binomial => true,
            CommandKind::Color => true,
            CommandKind::Begin => true,
            CommandKind::End => true,
            _ => false,
        },
{
    law_words_of_structure(w);
}

} // verus!
