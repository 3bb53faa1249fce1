//! What holds of the tokens of an equation script: where each of them ends, and what it holds.

use super::tokenizer::{in_class, lexeme, run, tokens_from, tokens_of, CharClass, Tok, TokenType};
use crate::text::same_word;
use vstd::prelude::*;

verus! {

/// An ASCII letter.
pub open spec fn letter(c: char) -> bool {
    ('a' <= c <= 'z') || ('A' <= c <= 'Z')
}

/// A decimal digit.
pub open spec fn digit(c: char) -> bool {
    '0' <= c <= '9'
}

/// A letter of the East Asian scripts or of accented Latin.
pub open spec fn script_letter(c: char) -> bool {
    ||| '\u{AC00}' <= c <= '\u{D7A3}'
    ||| '\u{4E00}' <= c <= '\u{9FFF}'
    ||| '\u{3400}' <= c <= '\u{4DBF}'
    ||| '\u{F900}' <= c <= '\u{FAFF}'
    ||| '\u{3040}' <= c <= '\u{30FF}'
    ||| '\u{3130}' <= c <= '\u{318F}'
    ||| '\u{1100}' <= c <= '\u{11FF}'
    ||| '\u{00C0}' <= c <= '\u{024F}' && c != '\u{00D7}' && c != '\u{00F7}'
}

/// The token that holds the characters from one place to another.
pub open spec fn token(ty: TokenType, s: Seq<char>, from: nat, to: nat) -> Option<Tok> {
    Some(Tok { ty, value: s.subrange(from as int, to as int) })
}

proof fn lemma_run(s: Seq<char>, i: nat, e: nat, class: CharClass)
    requires
        i <= e <= s.len(),
        forall|k: int| i <= k < e ==> in_class(#[trigger] s[k], class),
        e < s.len() ==> !in_class(s[e as int], class),
    ensures
        run(s, i, class) == e - i,
    decreases e - i,
{
    if i < e {
        assert(in_class(s[i as int], class));
        lemma_run(s, i + 1, e, class);
    }
}

/// A word runs from a letter over all letters and digits that follow. Only where it is `over`, in
/// any case, with nothing but digits behind it does it end before the digits.
pub proof fn law_word(s: Seq<char>, i: nat, e: nat)
    requires
        i < e <= s.len(),
        letter(s[i as int]),
        forall|k: int| i <= k < e ==> letter(#[trigger] s[k]) || digit(s[k]),
        e < s.len() ==> !letter(s[e as int]) && !digit(s[e as int]),
    ensures
        ({
            let word = s.subrange(i as int, (i + 4) as int);
            let divides = e - i > 4 && same_word(word, "over"@) && forall|k: int|
                i + 4 <= k < e ==> digit(#[trigger] s[k]);
            &&& divides ==> lexeme(s, i) == (
                token(TokenType::Command, s, i, i + 4),
                4nat,
            )
            &&& !divides ==> lexeme(s, i) == (
                token(TokenType::Command, s, i, e),
                (e - i) as nat,
            )
        }),
{
    lemma_run(s, i + 1, e, CharClass::LetterOrDigit);
    let w = s.subrange(i as int, e as int);
    assert(1 + run(s, i + 1, CharClass::LetterOrDigit) == e - i);
    if e - i > 4 {
        assert(w.take(4) =~= s.subrange(i as int, (i + 4) as int));
        assert forall|k: int| 4 <= k < w.len() implies #[trigger] w[k] == s[i + k] by {}
        if forall|k: int| i + 4 <= k < e ==> digit(#[trigger] s[k]) {
            assert forall|k: int| 4 <= k < w.len() implies in_class(
                #[trigger] w[k],
                CharClass::Digit,
            ) by {
                assert(digit(s[i + k]));
            }
        }
        if forall|k: int| 4 <= k < w.len() ==> in_class(#[trigger] w[k], CharClass::Digit) {
            assert forall|k: int| i + 4 <= k < e implies digit(#[trigger] s[k]) by {
                assert(in_class(w[k - i], CharClass::Digit));
            }
        }
    }
}

/// A number runs over its digits, and over a point and the digits behind it where a digit follows
/// the point.
pub proof fn law_number(s: Seq<char>, i: nat, e: nat, f: nat)
    requires
        i < e <= s.len(),
        forall|k: int| i <= k < e ==> digit(#[trigger] s[k]),
        e < s.len() ==> !digit(s[e as int]),
    ensures
        !(e + 1 < s.len() && s[e as int] == '.' && digit(s[(e + 1) as int])) ==> lexeme(s, i) == (
            token(TokenType::Number, s, i, e),
            (e - i) as nat,
        ),
        e + 1 < f <= s.len() && s[e as int] == '.' && (forall|k: int|
            e < k < f ==> digit(#[trigger] s[k])) && (f < s.len() ==> !digit(s[f as int]))
            ==> lexeme(s, i) == (
            token(TokenType::Number, s, i, f),
            (f - i) as nat,
        ),
{
    assert(digit(s[i as int]));
    lemma_run(s, i + 1, e, CharClass::Digit);
    if e + 1 < f <= s.len() && s[e as int] == '.' && (forall|k: int|
        e < k < f ==> digit(#[trigger] s[k])) && (f < s.len() ==> !digit(s[f as int])) {
        assert(digit(s[(e + 1) as int]));
        lemma_run(s, e + 2, f, CharClass::Digit);
    }
}

/// A quoted text runs to the next double quote, which is passed over, or to the end.
pub proof fn law_quoted(s: Seq<char>, i: nat, e: nat)
    requires
        i < e <= s.len(),
        s[i as int] == '"',
        forall|k: int| i < k < e ==> #[trigger] s[k] != '"',
        e < s.len() ==> s[e as int] == '"',
    ensures
        lexeme(s, i).0 == token(TokenType::Quoted, s, i + 1, e),
        lexeme(s, i).1 == if e < s.len() {
            e + 1 - i
        } else {
            e - i
        },
{
    lemma_run(s, i + 1, e, CharClass::Unquoted);
}

/// A run of letters of other scripts is one text.
pub proof fn law_text_of_other_scripts(s: Seq<char>, i: nat, e: nat)
    requires
        i < e <= s.len(),
        forall|k: int| i <= k < e ==> script_letter(#[trigger] s[k]),
        e < s.len() ==> !script_letter(s[e as int]),
    ensures
        lexeme(s, i) == (token(TokenType::Text, s, i, e), (e - i) as nat),
{
    assert(script_letter(s[i as int]));
    assert forall|k: int| i + 1 <= k < e implies in_class(#[trigger] s[k], CharClass::Script) by {
        assert(script_letter(s[k]));
    }
    lemma_run(s, i + 1, e, CharClass::Script);
}

/// The characters that are tokens of their own: brackets of each kind, the script marks, the
/// layout marks and, of the rest, each as a sign; only a minus with a greater-than behind it is one
/// sign with it. Blanks are no tokens.
pub proof fn law_single_characters(s: Seq<char>, i: nat)
    requires
        i < s.len(),
    ensures
        ({
            let c = s[i as int];
            let one = |ty: TokenType| (token(ty, s, i, i + 1), 1nat);
            let arrow = c == '-' && i + 1 < s.len() && s[(i + 1) as int] == '>';
            &&& c == ' ' || c == '\t' || c == '\n' || c == '\r' ==> lexeme(s, i) == (
                None::<Tok>,
                1nat,
            )
            &&& c == '{' ==> lexeme(s, i) == one(TokenType::LBrace)
            &&& c == '}' ==> lexeme(s, i) == one(TokenType::RBrace)
            &&& c == '(' ==> lexeme(s, i) == one(TokenType::LParen)
            &&& c == ')' ==> lexeme(s, i) == one(TokenType::RParen)
            &&& c == '[' ==> lexeme(s, i) == one(TokenType::LBracket)
            &&& c == ']' ==> lexeme(s, i) == one(TokenType::RBracket)
            &&& c == '_' ==> lexeme(s, i) == one(TokenType::Subscript)
            &&& c == '^' ==> lexeme(s, i) == one(TokenType::Superscript)
            &&& c == '~' || c == '`' || c == '#' || c == '&' ==> lexeme(s, i) == one(
                TokenType::Whitespace,
            )
            &&& arrow ==> lexeme(s, i) == (token(TokenType::Symbol, s, i, i + 2), 2nat)
            &&& is_sign(c) && !arrow ==> lexeme(s, i) == one(TokenType::Symbol)
        }),
{
}

/// A character that is neither a blank, a letter, a digit, a quote, a backslash, a bracket nor a
/// mark.
pub open spec fn is_sign(c: char) -> bool {
    &&& c != ' ' && c != '\t' && c != '\n' && c != '\r'
    &&& !letter(c) && !digit(c) && !script_letter(c)
    &&& c != '"' && c != '\\'
    &&& c != '{' && c != '}' && c != '(' && c != ')' && c != '[' && c != ']'
    &&& c != '_' && c != '^' && c != '~' && c != '`' && c != '#' && c != '&'
}

/// A backslash with letters behind it is the word of these letters; doubled it is the row mark;
/// before a brace it is the brace. The short space commands are the words for their spaces. Any
/// other backslash stands for nothing, and what follows it is read for itself.
pub proof fn law_backslash(s: Seq<char>, i: nat, e: nat)
    requires
        i < s.len(),
        s[i as int] == '\\',
    ensures
        ({
            let c = s[(i + 1) as int];
            let word = |w: Seq<char>| (Some(Tok { ty: TokenType::Command, value: w }), 2nat);
            &&& i + 1 == s.len() ==> lexeme(s, i) == (None::<Tok>, 1nat)
            &&& i + 1 < s.len() ==> {
                &&& c == '\\' ==> lexeme(s, i) == (
                    Some(Tok { ty: TokenType::Whitespace, value: "#"@ }),
                    2nat,
                )
                &&& c == '{' ==> lexeme(s, i) == (token(TokenType::LBrace, s, i + 1, i + 2), 2nat)
                &&& c == '}' ==> lexeme(s, i) == (token(TokenType::RBrace, s, i + 1, i + 2), 2nat)
                &&& c == ',' ==> lexeme(s, i) == word("THINSPACE"@)
                &&& c == ':' ==> lexeme(s, i) == word("MEDSPACE"@)
                &&& c == ';' ==> lexeme(s, i) == word("THICKSPACE"@)
                &&& c == '!' ==> lexeme(s, i) == word("NEGSPACE"@)
                &&& i + 1 < e <= s.len() && (forall|k: int| i < k < e ==> letter(#[trigger] s[k]))
                    && (e < s.len() ==> !letter(s[e as int])) ==> lexeme(s, i) == (
                    token(TokenType::Command, s, i + 1, e),
                    (e - i) as nat,
                )
                &&& !letter(c) && c != '\\' && c != '{' && c != '}' && c != ',' && c != ':' && c
                    != ';' && c != '!' ==> lexeme(s, i) == (None::<Tok>, 1nat)
            }
        }),
{
    if i + 1 < e <= s.len() && (forall|k: int| i < k < e ==> letter(#[trigger] s[k])) && (e
        < s.len() ==> !letter(s[e as int])) {
        assert(letter(s[(i + 1) as int]));
        lemma_run(s, i + 2, e, CharClass::Letter);
    }
}

/// The tokens of a script are those that start at its first character and, one after the other,
/// behind each of them, and the end mark; every character is passed over once.
pub proof fn law_tokens_in_order(s: Seq<char>, i: nat)
    ensures
        tokens_of(s) == tokens_from(s, 0),
        i >= s.len() ==> tokens_from(s, i) == seq![
            Tok { ty: TokenType::Eof, value: Seq::empty() },
        ],
        i < s.len() ==> {
            let (tok, n) = lexeme(s, i);
            &&& 1 <= n
            &&& i + n <= s.len()
            &&& tok is Some ==> tokens_from(s, i) == seq![tok->0] + tokens_from(s, i + n)
            &&& tok is None ==> tokens_from(s, i) == tokens_from(s, i + n)
        },
{
    if i < s.len() {
        lemma_lexeme_bound(s, i);
    }
}

proof fn lemma_run_within(s: Seq<char>, i: nat, class: CharClass)
    ensures
        i <= s.len() ==> i + run(s, i, class) <= s.len(),
    decreases s.len() - i,
{
    if i < s.len() && in_class(s[i as int], class) {
        lemma_run_within(s, i + 1, class);
    }
}

proof fn lemma_lexeme_bound(s: Seq<char>, i: nat)
    requires
        i < s.len(),
    ensures
        1 <= lexeme(s, i).1,
        i + lexeme(s, i).1 <= s.len(),
{
    lemma_run_within(s, i + 1, CharClass::Digit);
    lemma_run_within(s, i + 1, CharClass::Unquoted);
    lemma_run_within(s, i + 1, CharClass::LetterOrDigit);
    lemma_run_within(s, i + 1, CharClass::Script);
    lemma_run_within(s, i + 2, CharClass::Letter);
    let n = 1 + run(s, i + 1, CharClass::Digit);
    lemma_run_within(s, i + n + 2, CharClass::Digit);
    let w = 1 + run(s, i + 1, CharClass::LetterOrDigit);
    assert(s.subrange(i as int, (i + w) as int).len() == w);
}

/// Blanks between tokens change nothing.
pub proof fn law_blanks_change_nothing(s: Seq<char>, i: nat)
    requires
        i < s.len(),
        s[i as int] == ' ' || s[i as int] == '\t' || s[i as int] == '\n' || s[i as int] == '\r',
    ensures
        tokens_from(s, i) == tokens_from(s, i + 1),
{
}

} // verus!
