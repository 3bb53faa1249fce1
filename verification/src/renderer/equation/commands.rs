//! What each command word of an equation script is.

use super::ast::{DecoKind, FontStyleKind, MatrixStyle, PileAlign};
use super::symbols::{
    big_operation, decoration, font_style, function, integral, is_big_operator, is_function,
    lookup_decoration, lookup_font_style, lookup_symbol, symbol,
};
use crate::text::{law_upper_twice, str_eq, to_upper, upper};
use vstd::prelude::*;

verus! {

/// Kinds of command.
#[derive(Debug, Clone, Copy, PartialEq, Eq, Structural)]
pub enum CommandKind {
    /// `OVER`, `ATOP` or `RIGHT` out of place.
    Stray,
    Fraction,
    /// Text in upright letters.
    Upright,
    /// Room for a body that is not shown.
    Phantom,
    Spacing,
    /// The first argument is a superscript of the second.
    ScriptOver,
    /// The first argument is a subscript of the second.
    ScriptUnder,
    Begin,
    End,
    Root,
    Integral,
    BigOperator,
    Limit { is_upper: bool },
    Matrix(MatrixStyle),
    Cases,
    Aligned,
    Pile(PileAlign),
    Left,
    Relation { over_only: bool },
    LongDivision,
    Benzene,
    Enlarged,
    Choose,
    Binomial,
    Color,
    /// `SUP` or `SUB` written as a word.
    ScriptWord,
    Decoration(DecoKind),
    Face(FontStyleKind),
    Sign,
    Function,
    /// Any other word.
    Word,
}

/// The kind of a command by its name in capitals, for names that may be written in any case.
pub open spec fn keyword_kind(u: Seq<char>) -> Option<CommandKind> {
    if u == "OVER"@ || u == "ATOP"@ {
        Some(CommandKind::Stray)
    } else if u == "FRAC"@ || u == "DFRAC"@ || u == "TFRAC"@ {
        Some(CommandKind::Fraction)
    } else if u == "TEXT"@ || u == "OPERATORNAME"@ {
        Some(CommandKind::Upright)
    } else if u == "PHANTOM"@ || u == "VPHANTOM"@ || u == "HPHANTOM"@ {
        Some(CommandKind::Phantom)
    } else if u == "QUAD"@ || u == "QQUAD"@ || u == "THINSPACE"@ || u == "MEDSPACE"@ || u
        == "THICKSPACE"@ || u == "NEGSPACE"@ || u == "ENSPACE"@ {
        Some(CommandKind::Spacing)
    } else if u == "OVERSET"@ || u == "STACKREL"@ {
        Some(CommandKind::ScriptOver)
    } else if u == "UNDERSET"@ {
        Some(CommandKind::ScriptUnder)
    } else if u == "BEGIN"@ {
        Some(CommandKind::Begin)
    } else if u == "END"@ {
        Some(CommandKind::End)
    } else if u == "SQRT"@ || u == "ROOT"@ {
        Some(CommandKind::Root)
    } else if u == "INT"@ || u == "INTEGRAL"@ || u == "SMALLINT"@ || u == "DINT"@ || u
        == "TINT"@ || u == "OINT"@ || u == "SMALLOINT"@ || u == "ODINT"@ || u == "OTINT"@ {
        Some(CommandKind::Integral)
    } else if big_operation(u) is Some {
        Some(CommandKind::BigOperator)
    } else {
        None
    }
}

/// The kind of a command by its name in capitals, for names that may be written in any case
/// and come after the limits.
pub open spec fn layout_kind(u: Seq<char>) -> Option<CommandKind> {
    if u == "MATRIX"@ {
        Some(CommandKind::Matrix(MatrixStyle::Plain))
    } else if u == "PMATRIX"@ {
        Some(CommandKind::Matrix(MatrixStyle::Paren))
    } else if u == "BMATRIX"@ {
        Some(CommandKind::Matrix(MatrixStyle::Bracket))
    } else if u == "DMATRIX"@ {
        Some(CommandKind::Matrix(MatrixStyle::Vert))
    } else if u == "CASES"@ {
        Some(CommandKind::Cases)
    } else if u == "EQALIGN"@ {
        Some(CommandKind::Aligned)
    } else if u == "PILE"@ {
        Some(CommandKind::Pile(PileAlign::Center))
    } else if u == "LPILE"@ {
        Some(CommandKind::Pile(PileAlign::Left))
    } else if u == "RPILE"@ {
        Some(CommandKind::Pile(PileAlign::Right))
    } else if u == "LEFT"@ {
        Some(CommandKind::Left)
    } else if u == "RIGHT"@ {
        Some(CommandKind::Stray)
    } else if u == "REL"@ {
        Some(CommandKind::Relation { over_only: false })
    } else if u == "BUILDREL"@ {
        Some(CommandKind::Relation { over_only: true })
    } else if u == "LONGDIV"@ {
        Some(CommandKind::LongDivision)
    } else if u == "LADDER"@ || u == "SLADDER"@ {
        Some(CommandKind::Matrix(MatrixStyle::Plain))
    } else if u == "BENZENE"@ {
        Some(CommandKind::Benzene)
    } else if u == "BIGG"@ {
        Some(CommandKind::Enlarged)
    } else if u == "CHOOSE"@ {
        Some(CommandKind::Choose)
    } else if u == "BINOM"@ {
        Some(CommandKind::Binomial)
    } else if u == "COLOR"@ {
        Some(CommandKind::Color)
    } else if u == "LSUB"@ {
        Some(CommandKind::ScriptUnder)
    } else if u == "LSUP"@ {
        Some(CommandKind::ScriptOver)
    } else if u == "SUP"@ || u == "SUB"@ {
        Some(CommandKind::ScriptWord)
    } else {
        None
    }
}

/// The kind of a command. Marks, type faces, signs and functions go by the word as it is
/// written; a word that names both a sign and a function is the sign.
pub open spec fn command_kind(cmd: Seq<char>) -> CommandKind {
    let u = upper(cmd);
    if keyword_kind(u) is Some {
        keyword_kind(u)->0
    } else if big_operation(cmd) is Some {
        CommandKind::BigOperator
    } else if cmd == "lim"@ {
        CommandKind::Limit { is_upper: false }
    } else if cmd == "Lim"@ {
        CommandKind::Limit { is_upper: true }
    } else if layout_kind(u) is Some {
        layout_kind(u)->0
    } else if decoration(cmd) is Some {
        CommandKind::Decoration(decoration(cmd)->0)
    } else if font_style(cmd) is Some {
        CommandKind::Face(font_style(cmd)->0)
    } else if symbol(cmd) is Some {
        CommandKind::Sign
    } else if function(cmd) is Some {
        CommandKind::Function
    } else {
        CommandKind::Word
    }
}

/// The sign of an integral command.
pub open spec fn integral_symbol(cmd: Seq<char>) -> Seq<char> {
    match symbol(upper(cmd)) {
        Some(s) => s,
        None => match symbol(cmd) {
            Some(s) => s,
            None => "∫"@,
        },
    }
}

/// The sign of a big operator command.
pub open spec fn big_symbol(cmd: Seq<char>) -> Seq<char> {
    let name = if big_operation(upper(cmd)) is Some {
        upper(cmd)
    } else {
        cmd
    };
    match symbol(name) {
        Some(s) => s,
        None => "?"@,
    }
}

fn keyword_of(u: &str) -> (r: Option<CommandKind>)
    ensures
        r == keyword_kind(u@),
{
    if str_eq(u, "OVER") || str_eq(u, "ATOP") {
        Some(CommandKind::Stray)
    } else if str_eq(u, "FRAC") || str_eq(u, "DFRAC") || str_eq(u, "TFRAC") {
        Some(CommandKind::Fraction)
    } else if str_eq(u, "TEXT") || str_eq(u, "OPERATORNAME") {
        Some(CommandKind::Upright)
    } else if str_eq(u, "PHANTOM") || str_eq(u, "VPHANTOM") || str_eq(u, "HPHANTOM") {
        Some(CommandKind::Phantom)
    } else if str_eq(u, "QUAD") || str_eq(u, "QQUAD") || str_eq(u, "THINSPACE") || str_eq(
        u,
        "MEDSPACE",
    ) || str_eq(u, "THICKSPACE") || str_eq(u, "NEGSPACE") || str_eq(u, "ENSPACE") {
        Some(CommandKind::Spacing)
    } else if str_eq(u, "OVERSET") || str_eq(u, "STACKREL") {
        Some(CommandKind::ScriptOver)
    } else if str_eq(u, "UNDERSET") {
        Some(CommandKind::ScriptUnder)
    } else if str_eq(u, "BEGIN") {
        Some(CommandKind::Begin)
    } else if str_eq(u, "END") {
        Some(CommandKind::End)
    } else if str_eq(u, "SQRT") || str_eq(u, "ROOT") {
        Some(CommandKind::Root)
    } else if str_eq(u, "INT") || str_eq(u, "INTEGRAL") || str_eq(u, "SMALLINT")
        || str_eq(u, "DINT") || str_eq(u, "TINT") || str_eq(u, "OINT")
        || str_eq(u, "SMALLOINT") || str_eq(u, "ODINT") || str_eq(u, "OTINT") {
        Some(CommandKind::Integral)
    } else if is_big_operator(u) {
        Some(CommandKind::BigOperator)
    } else {
        None
    }
}

fn layout_of(u: &str) -> (r: Option<CommandKind>)
    ensures
        r == layout_kind(u@),
{
    if str_eq(u, "MATRIX") {
        Some(CommandKind::Matrix(MatrixStyle::Plain))
    } else if str_eq(u, "PMATRIX") {
        Some(CommandKind::Matrix(MatrixStyle::Paren))
    } else if str_eq(u, "BMATRIX") {
        Some(CommandKind::Matrix(MatrixStyle::Bracket))
    } else if str_eq(u, "DMATRIX") {
        Some(CommandKind::Matrix(MatrixStyle::Vert))
    } else if str_eq(u, "CASES") {
        Some(CommandKind::Cases)
    } else if str_eq(u, "EQALIGN") {
        Some(CommandKind::Aligned)
    } else if str_eq(u, "PILE") {
        Some(CommandKind::Pile(PileAlign::Center))
    } else if str_eq(u, "LPILE") {
        Some(CommandKind::Pile(PileAlign::Left))
    } else if str_eq(u, "RPILE") {
        Some(CommandKind::Pile(PileAlign::Right))
    } else if str_eq(u, "LEFT") {
        Some(CommandKind::Left)
    } else if str_eq(u, "RIGHT") {
        Some(CommandKind::Stray)
    } else if str_eq(u, "REL") {
        Some(CommandKind::Relation { over_only: false })
    } else if str_eq(u, "BUILDREL") {
        Some(CommandKind::Relation { over_only: true })
    } else if str_eq(u, "LONGDIV") {
        Some(CommandKind::LongDivision)
    } else if str_eq(u, "LADDER") || str_eq(u, "SLADDER") {
        Some(CommandKind::Matrix(MatrixStyle::Plain))
    } else if str_eq(u, "BENZENE") {
        Some(CommandKind::Benzene)
    } else if str_eq(u, "BIGG") {
        Some(CommandKind::Enlarged)
    } else if str_eq(u, "CHOOSE") {
        Some(CommandKind::Choose)
    } else if str_eq(u, "BINOM") {
        Some(CommandKind::Binomial)
    } else if str_eq(u, "COLOR") {
        Some(CommandKind::Color)
    } else if str_eq(u, "LSUB") {
        Some(CommandKind::ScriptUnder)
    } else if str_eq(u, "LSUP") {
        Some(CommandKind::ScriptOver)
    } else if str_eq(u, "SUP") || str_eq(u, "SUB") {
        Some(CommandKind::ScriptWord)
    } else {
        None
    }
}

/// The kind of a command.
pub fn classify(cmd: &str) -> (r: CommandKind)
    ensures
        r == command_kind(cmd@),
{
    let upper_word = to_upper(cmd);
    let u = upper_word.as_str();
    if let Some(kind) = keyword_of(u) {
        return kind;
    }
    if is_big_operator(cmd) {
        return CommandKind::BigOperator;
    }
    if str_eq(cmd, "lim") {
        return CommandKind::Limit { is_upper: false };
    }
    if str_eq(cmd, "Lim") {
        return CommandKind::Limit { is_upper: true };
    }
    if let Some(kind) = layout_of(u) {
        return kind;
    }
    if let Some(mark) = lookup_decoration(cmd) {
        return CommandKind::Decoration(mark);
    }
    if let Some(face) = lookup_font_style(cmd) {
        return CommandKind::Face(face);
    }
    if lookup_symbol(cmd).is_some() {
        return CommandKind::Sign;
    }
    if is_function(cmd) {
        return CommandKind::Function;
    }
    CommandKind::Word
}

/// The sign of an integral command.
pub fn integral_sign(cmd: &str) -> (r: &'static str)
    ensures
        r@ == integral_symbol(cmd@),
{
    let upper_word = to_upper(cmd);
    if let Some(s) = lookup_symbol(upper_word.as_str()) {
        return s;
    }
    if let Some(s) = lookup_symbol(cmd) {
        return s;
    }
    "∫"
}

/// The sign of a big operator command.
pub fn big_sign(cmd: &str) -> (r: &'static str)
    ensures
        r@ == big_symbol(cmd@),
{
    let upper_word = to_upper(cmd);
    let found = if is_big_operator(upper_word.as_str()) {
        lookup_symbol(upper_word.as_str())
    } else {
        lookup_symbol(cmd)
    };
    match found {
        Some(s) => s,
        None => "?",
    }
}

/// A word that names both a sign and a function is read as the sign.
pub proof fn law_sign_before_function(cmd: Seq<char>)
    requires
        symbol(cmd) is Some,
    ensures
        command_kind(cmd) != CommandKind::Function,
{
}

/// A word without small letters is its own form in capitals.
proof fn lemma_capitals(w: Seq<char>)
    requires
        forall|i: int| 0 <= i < w.len() ==> !('a' <= #[trigger] w[i] <= 'z'),
    ensures
        upper(w) == w,
{
    assert(upper(w) =~= w);
}

/// The names of big operators are in capitals.
pub(crate) proof fn lemma_big_operations_in_capitals(w: Seq<char>)
    requires
        big_operation(w) is Some,
    ensures
        upper(w) == w,
{
    reveal_strlit("SUM");
    reveal_strlit("PROD");
    reveal_strlit("COPROD");
    reveal_strlit("UNION");
    reveal_strlit("INTER");
    reveal_strlit("BIGCUP");
    reveal_strlit("BIGCAP");
    reveal_strlit("BIGVEE");
    reveal_strlit("BIGWEDGE");
    reveal_strlit("BIGOPLUS");
    reveal_strlit("BIGOTIMES");
    reveal_strlit("BIGODOT");
    reveal_strlit("BIGSQCUP");
    lemma_capitals(w);
}

/// A limit is no word of layout.
pub(crate) proof fn lemma_limit_is_no_layout(w: Seq<char>)
    requires
        w == "lim"@ || w == "Lim"@,
    ensures
        layout_kind(upper(w)) is None,
{
    reveal_strlit("lim");
    reveal_strlit("Lim");
    let u = upper(w);
    assert(u.len() == 3 && u[0] == 'L');
    reveal_strlit("MATRIX");
    reveal_strlit("PMATRIX");
    reveal_strlit("BMATRIX");
    reveal_strlit("DMATRIX");
    reveal_strlit("CASES");
    reveal_strlit("EQALIGN");
    reveal_strlit("PILE");
    reveal_strlit("LPILE");
    reveal_strlit("RPILE");
    reveal_strlit("LEFT");
    reveal_strlit("RIGHT");
    reveal_strlit("REL");
    reveal_strlit("BUILDREL");
    reveal_strlit("LONGDIV");
    reveal_strlit("LADDER");
    reveal_strlit("SLADDER");
    reveal_strlit("BENZENE");
    reveal_strlit("BIGG");
    reveal_strlit("CHOOSE");
    reveal_strlit("BINOM");
    reveal_strlit("COLOR");
    reveal_strlit("LSUB");
    reveal_strlit("LSUP");
    reveal_strlit("SUP");
    reveal_strlit("SUB");
}

/// The words that shape an equation are read in any case of their letters.
pub proof fn law_words_in_any_case(a: Seq<char>, b: Seq<char>)
    requires
        upper(a) == upper(b),
        keyword_kind(upper(a)) is Some || layout_kind(upper(a)) is Some,
    ensures
        command_kind(a) == command_kind(b),
{
    if keyword_kind(upper(a)) is None {
        if big_operation(a) is Some {
            lemma_big_operations_in_capitals(a);
        }
        if big_operation(b) is Some {
            lemma_big_operations_in_capitals(b);
        }
        if a == "lim"@ || a == "Lim"@ {
            lemma_limit_is_no_layout(a);
        }
        if b == "lim"@ || b == "Lim"@ {
            lemma_limit_is_no_layout(b);
        }
    }
}

/// The sign of an integral, and that of a big operator, is the same in any case of its letters.
pub proof fn law_signs_in_any_case(a: Seq<char>, b: Seq<char>)
    requires
        upper(a) == upper(b),
    ensures
        command_kind(a) == CommandKind::Integral ==> integral_symbol(a) == integral_symbol(b),
        command_kind(a) == CommandKind::BigOperator ==> big_symbol(a) == big_symbol(b),
{
    if big_operation(a) is Some {
        lemma_big_operations_in_capitals(a);
    }
    if keyword_kind(upper(a)) == Some(CommandKind::Integral) {
        law_upper_twice(a);
        reveal(symbol);
        assert(integral(upper(upper(a))) is Some);
        assert(symbol(upper(a)) is Some);
    } else if command_kind(a) == CommandKind::Integral {
        assert(layout_kind(upper(a)) != Some(CommandKind::Integral));
    }
}

} // verus!
