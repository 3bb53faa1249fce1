//! The lexical form of equation scripts.
//!
//! Blanks separate tokens and leave none. A run of ASCII letters and digits that starts with
//! a letter is one word, except that `over` followed by digits alone is the word `over` and
//! a number. A backslash introduces a word of letters, one of the short space commands, a
//! brace, or, doubled, a line break. The list of tokens always ends with an end mark.

use crate::text::{chars_of, eq_ignore_case, same_word, string_of};
use vstd::prelude::*;

verus! {

/// Kinds of token.
#[derive(Debug, Clone, Copy, PartialEq, Eq, Structural)]
pub enum TokenType {
    /// A word of ASCII letters and digits.
    Command,
    Number,
    Symbol,
    /// A run of letters outside ASCII.
    Text,
    /// Text between double quotes.
    Quoted,
    /// One of the layout marks `~`, `` ` ``, `#` and `&`.
    Whitespace,
    LBrace,
    RBrace,
    LParen,
    RParen,
    LBracket,
    RBracket,
    Subscript,
    Superscript,
    /// The end of the script.
    Eof,
}

/// A token: its kind and the characters that it holds.
#[derive(Debug, PartialEq)]
pub struct Token {
    pub ty: TokenType,
    pub value: String,
}

/// The mathematical counterpart of [`Token`].
pub struct Tok {
    pub ty: TokenType,
    pub value: Seq<char>,
}

impl View for Token {
    type V = Tok;

    open spec fn view(&self) -> Tok {
        Tok { ty: self.ty, value: self.value@ }
    }
}

/// The views of a list of tokens.
pub open spec fn toks(s: Seq<Token>) -> Seq<Tok> {
    s.map_values(|t: Token| t@)
}

/// Classes of character that make up runs.
#[derive(Clone, Copy, PartialEq, Eq, Structural)]
pub enum CharClass {
    Digit,
    Letter,
    LetterOrDigit,
    /// Letters of the East Asian scripts and of accented Latin.
    Script,
    /// Anything but a double quote.
    Unquoted,
}

/// Whether a character separates tokens.
pub open spec fn blank(c: char) -> bool {
    c == ' ' || c == '\t' || c == '\n' || c == '\r'
}

/// Whether a character belongs to a class.
pub open spec fn in_class(c: char, class: CharClass) -> bool {
    match class {
        CharClass::Digit => '0' <= c <= '9',
        CharClass::Letter => ('a' <= c <= 'z') || ('A' <= c <= 'Z'),
        CharClass::LetterOrDigit => ('a' <= c <= 'z') || ('A' <= c <= 'Z') || ('0' <= c <= '9'),
        CharClass::Script => {
            ||| '\u{00C0}' <= c <= '\u{00D6}'
            ||| '\u{00D8}' <= c <= '\u{00F6}'
            ||| '\u{00F8}' <= c <= '\u{024F}'
            ||| '\u{1100}' <= c <= '\u{11FF}'
            ||| '\u{3040}' <= c <= '\u{30FF}'
            ||| '\u{3130}' <= c <= '\u{318F}'
            ||| '\u{3400}' <= c <= '\u{4DBF}'
            ||| '\u{4E00}' <= c <= '\u{9FFF}'
            ||| '\u{AC00}' <= c <= '\u{D7A3}'
            ||| '\u{F900}' <= c <= '\u{FAFF}'
        },
        CharClass::Unquoted => c != '"',
    }
}

/// How many characters of a class stand in a row from a place on.
pub open spec fn run(s: Seq<char>, i: nat, class: CharClass) -> nat
    decreases s.len() - i,
{
    if i < s.len() && in_class(s[i as int], class) {
        1 + run(s, i + 1, class)
    } else {
        0
    }
}

/// Whether a word is `over`, in any case, followed by digits and nothing else.
pub open spec fn over_number(w: Seq<char>) -> bool {
    &&& w.len() > 4
    &&& same_word(w.take(4), "over"@)
    &&& forall|k: int| 4 <= k < w.len() ==> in_class(#[trigger] w[k], CharClass::Digit)
}

/// The length of the word that starts at a letter.
pub open spec fn word_len(s: Seq<char>, i: nat) -> nat {
    let n = 1 + run(s, i + 1, CharClass::LetterOrDigit);
    if over_number(s.subrange(i as int, (i + n) as int)) {
        4
    } else {
        n
    }
}

/// The length of the number that starts at a digit: digits, and a point with more digits.
pub open spec fn number_len(s: Seq<char>, i: nat) -> nat {
    let n = 1 + run(s, i + 1, CharClass::Digit);
    if i + n + 1 < s.len() && s[(i + n) as int] == '.' && in_class(
        s[(i + n + 1) as int],
        CharClass::Digit,
    ) {
        n + 2 + run(s, i + n + 2, CharClass::Digit)
    } else {
        n
    }
}

/// The kind of a character that is a token by itself.
pub open spec fn single_kind(c: char) -> TokenType {
    if c == '{' {
        TokenType::LBrace
    } else if c == '}' {
        TokenType::RBrace
    } else if c == '(' {
        TokenType::LParen
    } else if c == ')' {
        TokenType::RParen
    } else if c == '[' {
        TokenType::LBracket
    } else if c == ']' {
        TokenType::RBracket
    } else if c == '_' {
        TokenType::Subscript
    } else if c == '^' {
        TokenType::Superscript
    } else if c == '~' || c == '`' || c == '#' || c == '&' {
        TokenType::Whitespace
    } else {
        TokenType::Symbol
    }
}

/// A token whose characters are a piece of the script.
pub open spec fn piece(s: Seq<char>, ty: TokenType, from: nat, to: nat) -> Option<Tok> {
    Some(Tok { ty, value: s.subrange(from as int, to as int) })
}

/// What a backslash introduces, and how many characters it takes.
pub open spec fn escape(s: Seq<char>, i: nat) -> (Option<Tok>, nat) {
    if i + 1 >= s.len() {
        (None, 1)
    } else {
        let c = s[(i + 1) as int];
        if c == '\\' {
            (Some(Tok { ty: TokenType::Whitespace, value: "#"@ }), 2)
        } else if c == ',' {
            (Some(Tok { ty: TokenType::Command, value: "THINSPACE"@ }), 2)
        } else if c == ':' {
            (Some(Tok { ty: TokenType::Command, value: "MEDSPACE"@ }), 2)
        } else if c == ';' {
            (Some(Tok { ty: TokenType::Command, value: "THICKSPACE"@ }), 2)
        } else if c == '!' {
            (Some(Tok { ty: TokenType::Command, value: "NEGSPACE"@ }), 2)
        } else if c == '{' {
            (piece(s, TokenType::LBrace, i + 1, i + 2), 2)
        } else if c == '}' {
            (piece(s, TokenType::RBrace, i + 1, i + 2), 2)
        } else if in_class(c, CharClass::Letter) {
            let n = 1 + run(s, i + 2, CharClass::Letter);
            (piece(s, TokenType::Command, i + 1, i + 1 + n), 1 + n)
        } else {
            (None, 1)
        }
    }
}

/// The token that starts at a place, if any does, and how many characters it takes.
pub open spec fn lexeme(s: Seq<char>, i: nat) -> (Option<Tok>, nat) {
    let c = s[i as int];
    if blank(c) {
        (None, 1)
    } else if c == '\\' {
        escape(s, i)
    } else if in_class(c, CharClass::Digit) {
        let n = number_len(s, i);
        (piece(s, TokenType::Number, i, i + n), n)
    } else if c == '"' {
        let n = run(s, i + 1, CharClass::Unquoted);
        let close: nat = if i + 1 + n < s.len() {
            1
        } else {
            0
        };
        (piece(s, TokenType::Quoted, i + 1, i + 1 + n), 1 + n + close)
    } else if in_class(c, CharClass::Letter) {
        let n = word_len(s, i);
        (piece(s, TokenType::Command, i, i + n), n)
    } else if in_class(c, CharClass::Script) {
        let n = 1 + run(s, i + 1, CharClass::Script);
        (piece(s, TokenType::Text, i, i + n), n)
    } else if c == '-' && i + 1 < s.len() && s[(i + 1) as int] == '>' {
        (piece(s, TokenType::Symbol, i, i + 2), 2)
    } else {
        (piece(s, single_kind(c), i, i + 1), 1)
    }
}

/// The end mark.
pub open spec fn end_mark() -> Tok {
    Tok { ty: TokenType::Eof, value: Seq::empty() }
}

/// How many characters are left from a place on.
pub open spec fn left(s: Seq<char>, i: nat) -> nat {
    if i < s.len() {
        (s.len() - i) as nat
    } else {
        0
    }
}

/// The tokens of a script from a place on.
pub open spec fn tokens_from(s: Seq<char>, i: nat) -> Seq<Tok>
    decreases left(s, i),
{
    if i >= s.len() {
        seq![end_mark()]
    } else {
        let (tok, n) = lexeme(s, i);
        match tok {
            Some(k) => seq![k] + tokens_from(s, i + n),
            None => tokens_from(s, i + n),
        }
    }
}

/// The tokens of a script.
pub open spec fn tokens_of(s: Seq<char>) -> Seq<Tok> {
    tokens_from(s, 0)
}

proof fn lemma_run_bound(s: Seq<char>, i: nat, class: CharClass)
    ensures
        i <= s.len() ==> i + run(s, i, class) <= s.len(),
    decreases s.len() - i,
{
    if i < s.len() && in_class(s[i as int], class) {
        lemma_run_bound(s, i + 1, class);
    }
}

fn is_blank(c: char) -> (r: bool)
    ensures
        r == blank(c),
{
    c == ' ' || c == '\t' || c == '\n' || c == '\r'
}

fn is_in_class(c: char, class: CharClass) -> (r: bool)
    ensures
        r == in_class(c, class),
{
    match class {
        CharClass::Digit => '0' <= c && c <= '9',
        CharClass::Letter => ('a' <= c && c <= 'z') || ('A' <= c && c <= 'Z'),
        CharClass::LetterOrDigit => ('a' <= c && c <= 'z') || ('A' <= c && c <= 'Z') || ('0' <= c
            && c <= '9'),
        CharClass::Script => ('\u{00C0}' <= c && c <= '\u{00D6}') || ('\u{00D8}' <= c && c
            <= '\u{00F6}') || ('\u{00F8}' <= c && c <= '\u{024F}') || ('\u{1100}' <= c && c
            <= '\u{11FF}') || ('\u{3040}' <= c && c <= '\u{30FF}') || ('\u{3130}' <= c && c
            <= '\u{318F}') || ('\u{3400}' <= c && c <= '\u{4DBF}') || ('\u{4E00}' <= c && c
            <= '\u{9FFF}') || ('\u{AC00}' <= c && c <= '\u{D7A3}') || ('\u{F900}' <= c && c
            <= '\u{FAFF}'),
        CharClass::Unquoted => c != '"',
    }
}

/// The end of the run of a class that starts at a place.
fn run_end(v: &Vec<char>, from: usize, class: CharClass) -> (r: usize)
    requires
        from <= v.len(),
    ensures
        r == from + run(v@, from as nat, class),
        from <= r <= v@.len(),
{
    let mut i: usize = from;
    while i < v.len() && is_in_class(v[i], class)
        invariant
            from <= i <= v@.len(),
            i + run(v@, i as nat, class) == from + run(v@, from as nat, class),
        decreases v@.len() - i,
    {
        i += 1;
    }
    i
}

fn is_over_number(w: &str) -> (r: bool)
    ensures
        r == over_number(w@),
{
    let v = chars_of(w);
    if v.len() <= 4 {
        return false;
    }
    let head = string_of(&v, 0, 4);
    assert(v@.subrange(0, 4) == v@.take(4));
    if !eq_ignore_case(head.as_str(), "over") {
        return false;
    }
    let end = run_end(&v, 4, CharClass::Digit);
    proof {
        lemma_run_all(v@, 4, CharClass::Digit);
    }
    end == v.len()
}

/// A run covers the rest of a sequence exactly when all of the rest is in the class.
proof fn lemma_run_all(s: Seq<char>, i: nat, class: CharClass)
    requires
        i <= s.len(),
    ensures
        (i + run(s, i, class) == s.len()) == (forall|k: int|
            i <= k < s.len() ==> in_class(#[trigger] s[k], class)),
    decreases s.len() - i,
{
    if i < s.len() && in_class(s[i as int], class) {
        lemma_run_all(s, i + 1, class);
        lemma_run_bound(s, i + 1, class);
        if forall|k: int| i + 1 <= k < s.len() ==> in_class(#[trigger] s[k], class) {
            assert forall|k: int| i <= k < s.len() implies in_class(#[trigger] s[k], class) by {
                if k > i {
                    assert(in_class(s[k], class));
                }
            }
        }
    }
}

fn single_type(c: char) -> (r: TokenType)
    ensures
        r == single_kind(c),
{
    match c {
        '{' => TokenType::LBrace,
        '}' => TokenType::RBrace,
        '(' => TokenType::LParen,
        ')' => TokenType::RParen,
        '[' => TokenType::LBracket,
        ']' => TokenType::RBracket,
        '_' => TokenType::Subscript,
        '^' => TokenType::Superscript,
        '~' | '`' | '#' | '&' => TokenType::Whitespace,
        _ => TokenType::Symbol,
    }
}

/// The view of an optional token.
pub open spec fn tok_opt(o: Option<Token>) -> Option<Tok> {
    match o {
        Some(t) => Some(t@),
        None => None,
    }
}

fn token_of(v: &Vec<char>, ty: TokenType, from: usize, to: usize) -> (r: Option<Token>)
    requires
        from <= to <= v.len(),
    ensures
        tok_opt(r) == piece(v@, ty, from as nat, to as nat),
{
    Some(Token { ty, value: string_of(v, from, to) })
}

fn read_escape(v: &Vec<char>, i: usize) -> (r: (Option<Token>, usize))
    requires
        i < v.len(),
    ensures
        tok_opt(r.0) == escape(v@, i as nat).0,
        r.1 == i + escape(v@, i as nat).1,
        i < r.1 <= v@.len(),
{
    if i + 1 >= v.len() {
        return (None, i + 1);
    }
    let c = v[i + 1];
    match c {
        '\\' => (Some(Token { ty: TokenType::Whitespace, value: "#".to_owned() }), i + 2),
        ',' => (Some(Token { ty: TokenType::Command, value: "THINSPACE".to_owned() }), i + 2),
        ':' => (Some(Token { ty: TokenType::Command, value: "MEDSPACE".to_owned() }), i + 2),
        ';' => (Some(Token { ty: TokenType::Command, value: "THICKSPACE".to_owned() }), i + 2),
        '!' => (Some(Token { ty: TokenType::Command, value: "NEGSPACE".to_owned() }), i + 2),
        '{' => (token_of(v, TokenType::LBrace, i + 1, i + 2), i + 2),
        '}' => (token_of(v, TokenType::RBrace, i + 1, i + 2), i + 2),
        _ => if is_in_class(c, CharClass::Letter) {
            let end = run_end(v, i + 2, CharClass::Letter);
            (token_of(v, TokenType::Command, i + 1, end), end)
        } else {
            (None, i + 1)
        },
    }
}

/// The end of the number that starts at a place.
fn number_end(v: &Vec<char>, i: usize) -> (r: usize)
    requires
        i < v.len(),
    ensures
        r == i + number_len(v@, i as nat),
        i < r <= v@.len(),
{
    let end = run_end(v, i + 1, CharClass::Digit);
    if end < v.len() && v[end] == '.' && end + 1 < v.len() && is_in_class(
        v[end + 1],
        CharClass::Digit,
    ) {
        run_end(v, end + 2, CharClass::Digit)
    } else {
        end
    }
}

fn read_lexeme(v: &Vec<char>, i: usize) -> (r: (Option<Token>, usize))
    requires
        i < v.len(),
    ensures
        tok_opt(r.0) == lexeme(v@, i as nat).0,
        r.1 == i + lexeme(v@, i as nat).1,
        i < r.1 <= v@.len(),
{
    let c = v[i];
    if is_blank(c) {
        (None, i + 1)
    } else if c == '\\' {
        read_escape(v, i)
    } else if is_in_class(c, CharClass::Digit) {
        let end = number_end(v, i);
        (token_of(v, TokenType::Number, i, end), end)
    } else if c == '"' {
        let end = run_end(v, i + 1, CharClass::Unquoted);
        let next = if end < v.len() {
            end + 1
        } else {
            end
        };
        (token_of(v, TokenType::Quoted, i + 1, end), next)
    } else if is_in_class(c, CharClass::Letter) {
        let end = run_end(v, i + 1, CharClass::LetterOrDigit);
        let word = string_of(v, i, end);
        if is_over_number(word.as_str()) {
            (token_of(v, TokenType::Command, i, i + 4), i + 4)
        } else {
            (token_of(v, TokenType::Command, i, end), end)
        }
    } else if is_in_class(c, CharClass::Script) {
        let end = run_end(v, i + 1, CharClass::Script);
        (token_of(v, TokenType::Text, i, end), end)
    } else if c == '-' && i + 1 < v.len() && v[i + 1] == '>' {
        (token_of(v, TokenType::Symbol, i, i + 2), i + 2)
    } else {
        (token_of(v, single_type(c), i, i + 1), i + 1)
    }
}

/// Splits a script into tokens.
pub fn tokenize(script: &str) -> (r: Vec<Token>)
    ensures
        toks(r@) == tokens_of(script@),
{
    let v = chars_of(script);
    let mut out: Vec<Token> = Vec::new();
    let mut i: usize = 0;
    while i < v.len()
        invariant
            v@ == script@,
            i <= v@.len(),
            toks(out@) + tokens_from(v@, i as nat) == tokens_of(script@),
        decreases v@.len() - i,
    {
        let (tok, next) = read_lexeme(&v, i);
        let ghost before = out@;
        match tok {
            Some(t) => {
                out.push(t);
                assert(toks(out@) == toks(before).push(t@));
            },
            None => {},
        }
        assert(toks(out@) + tokens_from(v@, next as nat) == toks(before) + tokens_from(
            v@,
            i as nat,
        ));
        i = next;
    }
    let ghost before = out@;
    out.push(Token { ty: TokenType::Eof, value: String::new() });
    assert(toks(out@) == toks(before).push(end_mark()));
    assert(toks(before).push(end_mark()) == toks(before) + seq![end_mark()]);
    out
}

/// The end mark is the last token of every script, and it stands nowhere else.
pub proof fn law_end_mark_is_last(s: Seq<char>, i: nat)
    ensures
        tokens_from(s, i).len() > 0,
        tokens_from(s, i).last() == end_mark(),
        forall|k: int|
            0 <= k < tokens_from(s, i).len() - 1 ==> (#[trigger] tokens_from(s, i)[k]).ty
                != TokenType::Eof,
    decreases left(s, i),
{
    if i < s.len() {
        let (tok, n) = lexeme(s, i);
        law_end_mark_is_last(s, i + n);
        let rest = tokens_from(s, i + n);
        match tok {
            Some(k) => {
                assert(tokens_from(s, i) == seq![k] + rest);
                assert((seq![k] + rest).last() == rest.last());
                assert forall|j: int| 0 <= j < tokens_from(s, i).len() - 1 implies (
                #[trigger] tokens_from(s, i)[j]).ty != TokenType::Eof by {
                    if j > 0 {
                        assert(tokens_from(s, i)[j] == rest[j - 1]);
                    }
                }
            },
            None => {},
        }
    }
}

} // verus!
