//! What each word that shapes an equation is.

use super::ast::{MatrixStyle, PileAlign};
use super::commands::{
    command_kind, keyword_kind, layout_kind, lemma_big_operations_in_capitals,
    lemma_limit_is_no_layout, CommandKind,
};
use super::symbols::big_operation;
use crate::text::upper;
use vstd::prelude::*;

verus! {

/// The words that are read before the big operators.
proof fn lemma_keywords(u: Seq<char>)
    ensures
        (u == "OVER"@ || u == "ATOP"@) ==> keyword_kind(u) == Some(CommandKind::Stray),
        (u == "FRAC"@ || u == "DFRAC"@ || u == "TFRAC"@) ==>
            keyword_kind(u) == Some(CommandKind::Fraction),
        (u == "TEXT"@ || u == "OPERATORNAME"@) ==> keyword_kind(u) == Some(CommandKind::Upright),
        (u == "PHANTOM"@ || u == "VPHANTOM"@ || u == "HPHANTOM"@) ==>
            keyword_kind(u) == Some(CommandKind::Phantom),
        (u == "QUAD"@ || u == "QQUAD"@ || u == "THINSPACE"@ || u == "MEDSPACE"@
            || u == "THICKSPACE"@ || u == "NEGSPACE"@ || u == "ENSPACE"@) ==>
            keyword_kind(u) == Some(CommandKind::Spacing),
        (u == "OVERSET"@ || u == "STACKREL"@) ==> keyword_kind(u) == Some(CommandKind::ScriptOver),
        (u == "UNDERSET"@) ==> keyword_kind(u) == Some(CommandKind::ScriptUnder),
        (u == "BEGIN"@) ==> keyword_kind(u) == Some(CommandKind::Begin),
        (u == "END"@) ==> keyword_kind(u) == Some(CommandKind::End),
        (u == "SQRT"@ || u == "ROOT"@) ==> keyword_kind(u) == Some(CommandKind::Root),
        (u == "INT"@ || u == "INTEGRAL"@ || u == "SMALLINT"@ || u == "DINT"@
            || u == "TINT"@ || u == "OINT"@ || u == "SMALLOINT"@ || u == "ODINT"@
            || u == "OTINT"@) ==>
            keyword_kind(u) == Some(CommandKind::Integral),
{
    reveal_strlit("OVER");
    reveal_strlit("ATOP");
    reveal_strlit("FRAC");
    reveal_strlit("DFRAC");
    reveal_strlit("TFRAC");
    reveal_strlit("TEXT");
    reveal_strlit("OPERATORNAME");
    reveal_strlit("PHANTOM");
    reveal_strlit("VPHANTOM");
    reveal_strlit("HPHANTOM");
    reveal_strlit("QUAD");
    reveal_strlit("QQUAD");
    reveal_strlit("THINSPACE");
    reveal_strlit("MEDSPACE");
    reveal_strlit("THICKSPACE");
    reveal_strlit("NEGSPACE");
    reveal_strlit("ENSPACE");
    reveal_strlit("OVERSET");
    reveal_strlit("STACKREL");
    reveal_strlit("UNDERSET");
    reveal_strlit("BEGIN");
    reveal_strlit("END");
    reveal_strlit("SQRT");
    reveal_strlit("ROOT");
    reveal_strlit("INT");
    reveal_strlit("INTEGRAL");
    reveal_strlit("SMALLINT");
    reveal_strlit("DINT");
    reveal_strlit("TINT");
    reveal_strlit("OINT");
    reveal_strlit("SMALLOINT");
    reveal_strlit("ODINT");
    reveal_strlit("OTINT");
    assert("OVER"@.len() == 4 && "OVER"@[0] == 'O' && "OVER"@[1] == 'V');
    assert("ATOP"@.len() == 4 && "ATOP"@[0] == 'A');
    assert("FRAC"@.len() == 4 && "FRAC"@[0] == 'F');
    assert("DFRAC"@.len() == 5 && "DFRAC"@[0] == 'D');
    assert("TFRAC"@.len() == 5 && "TFRAC"@[0] == 'T');
    assert("TEXT"@.len() == 4 && "TEXT"@[0] == 'T' && "TEXT"@[1] == 'E');
    assert("OPERATORNAME"@.len() == 12);
    assert("PHANTOM"@.len() == 7 && "PHANTOM"@[0] == 'P');
    assert("VPHANTOM"@.len() == 8 && "VPHANTOM"@[0] == 'V');
    assert("HPHANTOM"@.len() == 8 && "HPHANTOM"@[0] == 'H');
    assert("QUAD"@.len() == 4 && "QUAD"@[0] == 'Q');
    assert("QQUAD"@.len() == 5 && "QQUAD"@[0] == 'Q');
    assert("THINSPACE"@.len() == 9 && "THINSPACE"@[0] == 'T');
    assert("MEDSPACE"@.len() == 8 && "MEDSPACE"@[0] == 'M');
    assert("THICKSPACE"@.len() == 10);
    assert("NEGSPACE"@.len() == 8 && "NEGSPACE"@[0] == 'N');
    assert("ENSPACE"@.len() == 7 && "ENSPACE"@[0] == 'E');
    assert("OVERSET"@.len() == 7 && "OVERSET"@[0] == 'O');
    assert("STACKREL"@.len() == 8 && "STACKREL"@[0] == 'S' && "STACKREL"@[1] == 'T');
    assert("UNDERSET"@.len() == 8 && "UNDERSET"@[0] == 'U');
    assert("BEGIN"@.len() == 5 && "BEGIN"@[0] == 'B');
    assert("END"@.len() == 3 && "END"@[0] == 'E');
    assert("SQRT"@.len() == 4 && "SQRT"@[0] == 'S');
    assert("ROOT"@.len() == 4 && "ROOT"@[0] == 'R');
    assert("INT"@.len() == 3 && "INT"@[0] == 'I');
    assert("INTEGRAL"@.len() == 8 && "INTEGRAL"@[0] == 'I');
    assert("SMALLINT"@.len() == 8 && "SMALLINT"@[0] == 'S' && "SMALLINT"@[1] == 'M');
    assert("DINT"@.len() == 4 && "DINT"@[0] == 'D');
    assert("TINT"@.len() == 4 && "TINT"@[0] == 'T' && "TINT"@[1] == 'I');
    assert("OINT"@.len() == 4 && "OINT"@[0] == 'O' && "OINT"@[1] == 'I');
    assert("SMALLOINT"@.len() == 9 && "SMALLOINT"@[0] == 'S');
    assert("ODINT"@.len() == 5 && "ODINT"@[0] == 'O' && "ODINT"@[1] == 'D');
    assert("OTINT"@.len() == 5 && "OTINT"@[0] == 'O' && "OTINT"@[1] == 'T');
}

/// The big operators are none of the words that are read before them.
proof fn lemma_big_is_no_keyword(u: Seq<char>)
    ensures
        (u == "SUM"@) ==> keyword_kind(u) == Some(CommandKind::BigOperator),
        (u == "PROD"@) ==> keyword_kind(u) == Some(CommandKind::BigOperator),
        (u == "COPROD"@) ==> keyword_kind(u) == Some(CommandKind::BigOperator),
        (u == "UNION"@) ==> keyword_kind(u) == Some(CommandKind::BigOperator),
        (u == "INTER"@) ==> keyword_kind(u) == Some(CommandKind::BigOperator),
        (u == "BIGCUP"@) ==> keyword_kind(u) == Some(CommandKind::BigOperator),
        (u == "BIGCAP"@) ==> keyword_kind(u) == Some(CommandKind::BigOperator),
        (u == "BIGVEE"@) ==> keyword_kind(u) == Some(CommandKind::BigOperator),
        (u == "BIGWEDGE"@) ==> keyword_kind(u) == Some(CommandKind::BigOperator),
        (u == "BIGOPLUS"@) ==> keyword_kind(u) == Some(CommandKind::BigOperator),
        (u == "BIGOTIMES"@) ==> keyword_kind(u) == Some(CommandKind::BigOperator),
        (u == "BIGODOT"@) ==> keyword_kind(u) == Some(CommandKind::BigOperator),
        (u == "BIGSQCUP"@) ==> keyword_kind(u) == Some(CommandKind::BigOperator),
{
    reveal_strlit("OVER");
    reveal_strlit("ATOP");
    reveal_strlit("FRAC");
    reveal_strlit("DFRAC");
    reveal_strlit("TFRAC");
    reveal_strlit("TEXT");
    reveal_strlit("OPERATORNAME");
    reveal_strlit("PHANTOM");
    reveal_strlit("VPHANTOM");
    reveal_strlit("HPHANTOM");
    reveal_strlit("QUAD");
    reveal_strlit("QQUAD");
    reveal_strlit("THINSPACE");
    reveal_strlit("MEDSPACE");
    reveal_strlit("THICKSPACE");
    reveal_strlit("NEGSPACE");
    reveal_strlit("ENSPACE");
    reveal_strlit("OVERSET");
    reveal_strlit("STACKREL");
    reveal_strlit("UNDERSET");
    reveal_strlit("BEGIN");
    reveal_strlit("END");
    reveal_strlit("SQRT");
    reveal_strlit("ROOT");
    reveal_strlit("INT");
    reveal_strlit("INTEGRAL");
    reveal_strlit("SMALLINT");
    reveal_strlit("DINT");
    reveal_strlit("TINT");
    reveal_strlit("OINT");
    reveal_strlit("SMALLOINT");
    reveal_strlit("ODINT");
    reveal_strlit("OTINT");
    reveal_strlit("SUM");
    reveal_strlit("PROD");
    reveal_strlit("COPROD");
    reveal_strlit("UNION");
    reveal_strlit("INTER");
    reveal_strlit("BIGCUP");
    reveal_strlit("BIGCAP");
    reveal_strlit("BIGVEE");
    reveal_strlit("BIGWEDGE");
    reveal_strlit("BIGOPLUS");
    reveal_strlit("BIGOTIMES");
    reveal_strlit("BIGODOT");
    reveal_strlit("BIGSQCUP");
    assert("OVER"@.len() == 4 && "OVER"@[0] == 'O' && "OVER"@[1] == 'V');
    assert("ATOP"@.len() == 4 && "ATOP"@[0] == 'A');
    assert("FRAC"@.len() == 4 && "FRAC"@[0] == 'F');
    assert("DFRAC"@.len() == 5 && "DFRAC"@[0] == 'D');
    assert("TFRAC"@.len() == 5 && "TFRAC"@[0] == 'T');
    assert("TEXT"@.len() == 4 && "TEXT"@[0] == 'T' && "TEXT"@[1] == 'E');
    assert("OPERATORNAME"@.len() == 12);
    assert("PHANTOM"@.len() == 7 && "PHANTOM"@[0] == 'P');
    assert("VPHANTOM"@.len() == 8 && "VPHANTOM"@[0] == 'V');
    assert("HPHANTOM"@.len() == 8 && "HPHANTOM"@[0] == 'H');
    assert("QUAD"@.len() == 4 && "QUAD"@[0] == 'Q');
    assert("QQUAD"@.len() == 5 && "QQUAD"@[0] == 'Q');
    assert("THINSPACE"@.len() == 9 && "THINSPACE"@[0] == 'T');
    assert("MEDSPACE"@.len() == 8 && "MEDSPACE"@[0] == 'M');
    assert("THICKSPACE"@.len() == 10);
    assert("NEGSPACE"@.len() == 8 && "NEGSPACE"@[0] == 'N');
    assert("ENSPACE"@.len() == 7 && "ENSPACE"@[0] == 'E');
    assert("OVERSET"@.len() == 7 && "OVERSET"@[0] == 'O');
    assert("STACKREL"@.len() == 8 && "STACKREL"@[0] == 'S' && "STACKREL"@[1] == 'T');
    assert("UNDERSET"@.len() == 8 && "UNDERSET"@[0] == 'U');
    assert("BEGIN"@.len() == 5 && "BEGIN"@[0] == 'B');
    assert("END"@.len() == 3 && "END"@[0] == 'E');
    assert("SQRT"@.len() == 4 && "SQRT"@[0] == 'S');
    assert("ROOT"@.len() == 4 && "ROOT"@[0] == 'R');
    assert("INT"@.len() == 3 && "INT"@[0] == 'I');
    assert("INTEGRAL"@.len() == 8 && "INTEGRAL"@[0] == 'I');
    assert("SMALLINT"@.len() == 8 && "SMALLINT"@[0] == 'S' && "SMALLINT"@[1] == 'M');
    assert("DINT"@.len() == 4 && "DINT"@[0] == 'D');
    assert("TINT"@.len() == 4 && "TINT"@[0] == 'T' && "TINT"@[1] == 'I');
    assert("OINT"@.len() == 4 && "OINT"@[0] == 'O' && "OINT"@[1] == 'I');
    assert("SMALLOINT"@.len() == 9 && "SMALLOINT"@[0] == 'S');
    assert("ODINT"@.len() == 5 && "ODINT"@[0] == 'O' && "ODINT"@[1] == 'D');
    assert("OTINT"@.len() == 5 && "OTINT"@[0] == 'O' && "OTINT"@[1] == 'T');
    assert("SUM"@.len() == 3 && "SUM"@[0] == 'S');
    assert("PROD"@.len() == 4 && "PROD"@[0] == 'P');
    assert("COPROD"@.len() == 6 && "COPROD"@[0] == 'C');
    assert("UNION"@.len() == 5 && "UNION"@[0] == 'U');
    assert("INTER"@.len() == 5 && "INTER"@[0] == 'I');
    assert("BIGCUP"@.len() == 6 && "BIGCUP"@[0] == 'B' && "BIGCUP"@[3] == 'C');
    assert("BIGCUP"@[4] == 'U');
    assert("BIGCAP"@.len() == 6 && "BIGCAP"@[0] == 'B' && "BIGCAP"@[3] == 'C');
    assert("BIGCAP"@[4] == 'A');
    assert("BIGVEE"@.len() == 6 && "BIGVEE"@[0] == 'B' && "BIGVEE"@[3] == 'V');
    assert("BIGWEDGE"@.len() == 8 && "BIGWEDGE"@[0] == 'B' && "BIGWEDGE"@[3] == 'W');
    assert("BIGOPLUS"@.len() == 8 && "BIGOPLUS"@[0] == 'B' && "BIGOPLUS"@[3] == 'O');
    assert("BIGOTIMES"@.len() == 9 && "BIGOTIMES"@[0] == 'B');
    assert("BIGODOT"@.len() == 7 && "BIGODOT"@[0] == 'B');
    assert("BIGSQCUP"@.len() == 8 && "BIGSQCUP"@[0] == 'B' && "BIGSQCUP"@[3] == 'S');
}

/// The words that are read after the limits.
proof fn lemma_layouts(u: Seq<char>)
    ensures
        (u == "MATRIX"@) ==> layout_kind(u) == Some(CommandKind::Matrix(MatrixStyle::Plain)),
        (u == "PMATRIX"@) ==> layout_kind(u) == Some(CommandKind::Matrix(MatrixStyle::Paren)),
        (u == "BMATRIX"@) ==> layout_kind(u) == Some(CommandKind::Matrix(MatrixStyle::Bracket)),
        (u == "DMATRIX"@) ==> layout_kind(u) == Some(CommandKind::Matrix(MatrixStyle::Vert)),
        (u == "CASES"@) ==> layout_kind(u) == Some(CommandKind::Cases),
        (u == "EQALIGN"@) ==> layout_kind(u) == Some(CommandKind::Aligned),
        (u == "PILE"@) ==> layout_kind(u) == Some(CommandKind::Pile(PileAlign::Center)),
        (u == "LPILE"@) ==> layout_kind(u) == Some(CommandKind::Pile(PileAlign::Left)),
        (u == "RPILE"@) ==> layout_kind(u) == Some(CommandKind::Pile(PileAlign::Right)),
        (u == "LEFT"@) ==> layout_kind(u) == Some(CommandKind::Left),
        (u == "RIGHT"@) ==> layout_kind(u) == Some(CommandKind::Stray),
        (u == "REL"@) ==> layout_kind(u) == Some(CommandKind::Relation { over_only: false }),
        (u == "BUILDREL"@) ==> layout_kind(u) == Some(CommandKind::Relation { over_only: true }),
        (u == "LONGDIV"@) ==> layout_kind(u) == Some(CommandKind::LongDivision),
        (u == "LADDER"@ || u == "SLADDER"@) ==>
            layout_kind(u) == Some(CommandKind::Matrix(MatrixStyle::Plain)),
        (u == "BENZENE"@) ==> layout_kind(u) == Some(CommandKind::Benzene),
        (u == "BIGG"@) ==> layout_kind(u) == Some(CommandKind::Enlarged),
        (u == "CHOOSE"@) ==> layout_kind(u) == Some(CommandKind::Choose),
        (u == "BINOM"@) ==> layout_kind(u) == Some(CommandKind::Binomial),
        (u == "COLOR"@) ==> layout_kind(u) == Some(CommandKind::Color),
        (u == "LSUB"@) ==> layout_kind(u) == Some(CommandKind::ScriptUnder),
        (u == "LSUP"@) ==> layout_kind(u) == Some(CommandKind::ScriptOver),
        (u == "SUP"@ || u == "SUB"@) ==> layout_kind(u) == Some(CommandKind::ScriptWord),
{
    reveal_strlit("MATRIX");
    reveal_strlit("PMATRIX");
    reveal_strlit("BMATRIX");
    reveal_strlit("DMATRIX");
    reveal_strlit("CASES");
    reveal_strlit("EQALIGN");
    reveal_strlit("PILE");
    reveal_strlit("LPILE");
    reveal_strlit("RPILE");
    reveal_strlit("LEFT");
    reveal_strlit("RIGHT");
    reveal_strlit("REL");
    reveal_strlit("BUILDREL");
    reveal_strlit("LONGDIV");
    reveal_strlit("LADDER");
    reveal_strlit("SLADDER");
    reveal_strlit("BENZENE");
    reveal_strlit("BIGG");
    reveal_strlit("CHOOSE");
    reveal_strlit("BINOM");
    reveal_strlit("COLOR");
    reveal_strlit("LSUB");
    reveal_strlit("LSUP");
    reveal_strlit("SUP");
    reveal_strlit("SUB");
    assert("MATRIX"@.len() == 6 && "MATRIX"@[0] == 'M');
    assert("PMATRIX"@.len() == 7 && "PMATRIX"@[0] == 'P');
    assert("BMATRIX"@.len() == 7 && "BMATRIX"@[0] == 'B' && "BMATRIX"@[1] == 'M');
    assert("DMATRIX"@.len() == 7 && "DMATRIX"@[0] == 'D');
    assert("CASES"@.len() == 5 && "CASES"@[0] == 'C' && "CASES"@[1] == 'A');
    assert("EQALIGN"@.len() == 7 && "EQALIGN"@[0] == 'E');
    assert("PILE"@.len() == 4 && "PILE"@[0] == 'P');
    assert("LPILE"@.len() == 5 && "LPILE"@[0] == 'L');
    assert("RPILE"@.len() == 5 && "RPILE"@[0] == 'R' && "RPILE"@[1] == 'P');
    assert("LEFT"@.len() == 4 && "LEFT"@[0] == 'L' && "LEFT"@[1] == 'E');
    assert("RIGHT"@.len() == 5 && "RIGHT"@[0] == 'R' && "RIGHT"@[1] == 'I');
    assert("REL"@.len() == 3 && "REL"@[0] == 'R');
    assert("BUILDREL"@.len() == 8);
    assert("LONGDIV"@.len() == 7 && "LONGDIV"@[0] == 'L');
    assert("LADDER"@.len() == 6 && "LADDER"@[0] == 'L');
    assert("SLADDER"@.len() == 7 && "SLADDER"@[0] == 'S');
    assert("BENZENE"@.len() == 7 && "BENZENE"@[0] == 'B' && "BENZENE"@[1] == 'E');
    assert("BIGG"@.len() == 4 && "BIGG"@[0] == 'B');
    assert("CHOOSE"@.len() == 6 && "CHOOSE"@[0] == 'C');
    assert("BINOM"@.len() == 5 && "BINOM"@[0] == 'B');
    assert("COLOR"@.len() == 5 && "COLOR"@[0] == 'C' && "COLOR"@[1] == 'O');
    assert("LSUB"@.len() == 4 && "LSUB"@[0] == 'L' && "LSUB"@[1] == 'S');
    assert("LSUB"@[3] == 'B');
    assert("LSUP"@.len() == 4 && "LSUP"@[0] == 'L' && "LSUP"@[1] == 'S');
    assert("LSUP"@[3] == 'P');
    assert("SUP"@.len() == 3 && "SUP"@[0] == 'S' && "SUP"@[2] == 'P');
    assert("SUB"@.len() == 3 && "SUB"@[0] == 'S' && "SUB"@[2] == 'B');
}

/// Words of layout are none of the words that are read before them.
proof fn lemma_layout_is_no_keyword(u: Seq<char>)
    ensures
        (u == "MATRIX"@ || u == "PMATRIX"@ || u == "BMATRIX"@ || u == "DMATRIX"@
            || u == "CASES"@ || u == "EQALIGN"@ || u == "PILE"@ || u == "LPILE"@
            || u == "RPILE"@ || u == "LEFT"@ || u == "RIGHT"@ || u == "REL"@
            || u == "BUILDREL"@ || u == "LONGDIV"@ || u == "LADDER"@ || u == "SLADDER"@
            || u == "BENZENE"@ || u == "BIGG"@ || u == "CHOOSE"@ || u == "BINOM"@
            || u == "COLOR"@ || u == "LSUB"@ || u == "LSUP"@ || u == "SUP"@
            || u == "SUB"@) ==>
            keyword_kind(u) is None,
{
    reveal_strlit("OVER");
    reveal_strlit("ATOP");
    reveal_strlit("FRAC");
    reveal_strlit("DFRAC");
    reveal_strlit("TFRAC");
    reveal_strlit("TEXT");
    reveal_strlit("OPERATORNAME");
    reveal_strlit("PHANTOM");
    reveal_strlit("VPHANTOM");
    reveal_strlit("HPHANTOM");
    reveal_strlit("QUAD");
    reveal_strlit("QQUAD");
    reveal_strlit("THINSPACE");
    reveal_strlit("MEDSPACE");
    reveal_strlit("THICKSPACE");
    reveal_strlit("NEGSPACE");
    reveal_strlit("ENSPACE");
    reveal_strlit("OVERSET");
    reveal_strlit("STACKREL");
    reveal_strlit("UNDERSET");
    reveal_strlit("BEGIN");
    reveal_strlit("END");
    reveal_strlit("SQRT");
    reveal_strlit("ROOT");
    reveal_strlit("INT");
    reveal_strlit("INTEGRAL");
    reveal_strlit("SMALLINT");
    reveal_strlit("DINT");
    reveal_strlit("TINT");
    reveal_strlit("OINT");
    reveal_strlit("SMALLOINT");
    reveal_strlit("ODINT");
    reveal_strlit("OTINT");
    reveal_strlit("SUM");
    reveal_strlit("PROD");
    reveal_strlit("COPROD");
    reveal_strlit("UNION");
    reveal_strlit("INTER");
    reveal_strlit("BIGCUP");
    reveal_strlit("BIGCAP");
    reveal_strlit("BIGVEE");
    reveal_strlit("BIGWEDGE");
    reveal_strlit("BIGOPLUS");
    reveal_strlit("BIGOTIMES");
    reveal_strlit("BIGODOT");
    reveal_strlit("BIGSQCUP");
    reveal_strlit("MATRIX");
    reveal_strlit("PMATRIX");
    reveal_strlit("BMATRIX");
    reveal_strlit("DMATRIX");
    reveal_strlit("CASES");
    reveal_strlit("EQALIGN");
    reveal_strlit("PILE");
    reveal_strlit("LPILE");
    reveal_strlit("RPILE");
    reveal_strlit("LEFT");
    reveal_strlit("RIGHT");
    reveal_strlit("REL");
    reveal_strlit("BUILDREL");
    reveal_strlit("LONGDIV");
    reveal_strlit("LADDER");
    reveal_strlit("SLADDER");
    reveal_strlit("BENZENE");
    reveal_strlit("BIGG");
    reveal_strlit("CHOOSE");
    reveal_strlit("BINOM");
    reveal_strlit("COLOR");
    reveal_strlit("LSUB");
    reveal_strlit("LSUP");
    reveal_strlit("SUP");
    reveal_strlit("SUB");
    assert("OVER"@.len() == 4 && "OVER"@[0] == 'O' && "OVER"@[1] == 'V');
    assert("ATOP"@.len() == 4 && "ATOP"@[0] == 'A');
    assert("FRAC"@.len() == 4 && "FRAC"@[0] == 'F');
    assert("DFRAC"@.len() == 5 && "DFRAC"@[0] == 'D');
    assert("TFRAC"@.len() == 5 && "TFRAC"@[0] == 'T');
    assert("TEXT"@.len() == 4 && "TEXT"@[0] == 'T' && "TEXT"@[1] == 'E');
    assert("OPERATORNAME"@.len() == 12);
    assert("PHANTOM"@.len() == 7 && "PHANTOM"@[0] == 'P' && "PHANTOM"@[1] == 'H');
    assert("VPHANTOM"@.len() == 8 && "VPHANTOM"@[0] == 'V');
    assert("HPHANTOM"@.len() == 8 && "HPHANTOM"@[0] == 'H');
    assert("QUAD"@.len() == 4 && "QUAD"@[0] == 'Q');
    assert("QQUAD"@.len() == 5 && "QQUAD"@[0] == 'Q');
    assert("THINSPACE"@.len() == 9 && "THINSPACE"@[0] == 'T');
    assert("MEDSPACE"@.len() == 8 && "MEDSPACE"@[0] == 'M');
    assert("THICKSPACE"@.len() == 10);
    assert("NEGSPACE"@.len() == 8 && "NEGSPACE"@[0] == 'N');
    assert("ENSPACE"@.len() == 7 && "ENSPACE"@[0] == 'E' && "ENSPACE"@[1] == 'N');
    assert("OVERSET"@.len() == 7 && "OVERSET"@[0] == 'O');
    assert("STACKREL"@.len() == 8 && "STACKREL"@[0] == 'S' && "STACKREL"@[1] == 'T');
    assert("UNDERSET"@.len() == 8 && "UNDERSET"@[0] == 'U');
    assert("BEGIN"@.len() == 5 && "BEGIN"@[0] == 'B' && "BEGIN"@[1] == 'E');
    assert("END"@.len() == 3 && "END"@[0] == 'E');
    assert("SQRT"@.len() == 4 && "SQRT"@[0] == 'S');
    assert("ROOT"@.len() == 4 && "ROOT"@[0] == 'R');
    assert("INT"@.len() == 3 && "INT"@[0] == 'I');
    assert("INTEGRAL"@.len() == 8 && "INTEGRAL"@[0] == 'I');
    assert("SMALLINT"@.len() == 8 && "SMALLINT"@[0] == 'S' && "SMALLINT"@[1] == 'M');
    assert("DINT"@.len() == 4 && "DINT"@[0] == 'D');
    assert("TINT"@.len() == 4 && "TINT"@[0] == 'T' && "TINT"@[1] == 'I');
    assert("OINT"@.len() == 4 && "OINT"@[0] == 'O' && "OINT"@[1] == 'I');
    assert("SMALLOINT"@.len() == 9 && "SMALLOINT"@[0] == 'S');
    assert("ODINT"@.len() == 5 && "ODINT"@[0] == 'O' && "ODINT"@[1] == 'D');
    assert("OTINT"@.len() == 5 && "OTINT"@[0] == 'O' && "OTINT"@[1] == 'T');
    assert("SUM"@.len() == 3 && "SUM"@[0] == 'S' && "SUM"@[2] == 'M');
    assert("PROD"@.len() == 4 && "PROD"@[0] == 'P' && "PROD"@[1] == 'R');
    assert("COPROD"@.len() == 6 && "COPROD"@[0] == 'C' && "COPROD"@[1] == 'O');
    assert("UNION"@.len() == 5 && "UNION"@[0] == 'U');
    assert("INTER"@.len() == 5 && "INTER"@[0] == 'I');
    assert("BIGCUP"@.len() == 6 && "BIGCUP"@[0] == 'B' && "BIGCUP"@[3] == 'C');
    assert("BIGCUP"@[4] == 'U');
    assert("BIGCAP"@.len() == 6 && "BIGCAP"@[0] == 'B' && "BIGCAP"@[3] == 'C');
    assert("BIGCAP"@[4] == 'A');
    assert("BIGVEE"@.len() == 6 && "BIGVEE"@[0] == 'B' && "BIGVEE"@[3] == 'V');
    assert("BIGWEDGE"@.len() == 8 && "BIGWEDGE"@[0] == 'B' && "BIGWEDGE"@[1] == 'I');
    assert("BIGWEDGE"@[3] == 'W');
    assert("BIGOPLUS"@.len() == 8 && "BIGOPLUS"@[0] == 'B' && "BIGOPLUS"@[1] == 'I');
    assert("BIGOPLUS"@[3] == 'O');
    assert("BIGOTIMES"@.len() == 9 && "BIGOTIMES"@[0] == 'B');
    assert("BIGODOT"@.len() == 7 && "BIGODOT"@[0] == 'B' && "BIGODOT"@[1] == 'I');
    assert("BIGSQCUP"@.len() == 8 && "BIGSQCUP"@[0] == 'B' && "BIGSQCUP"@[1] == 'I');
    assert("BIGSQCUP"@[3] == 'S');
    assert("MATRIX"@.len() == 6 && "MATRIX"@[0] == 'M');
    assert("PMATRIX"@.len() == 7 && "PMATRIX"@[0] == 'P' && "PMATRIX"@[1] == 'M');
    assert("BMATRIX"@.len() == 7 && "BMATRIX"@[0] == 'B' && "BMATRIX"@[1] == 'M');
    assert("DMATRIX"@.len() == 7 && "DMATRIX"@[0] == 'D');
    assert("CASES"@.len() == 5 && "CASES"@[0] == 'C' && "CASES"@[1] == 'A');
    assert("EQALIGN"@.len() == 7 && "EQALIGN"@[0] == 'E' && "EQALIGN"@[1] == 'Q');
    assert("PILE"@.len() == 4 && "PILE"@[0] == 'P' && "PILE"@[1] == 'I');
    assert("LPILE"@.len() == 5 && "LPILE"@[0] == 'L');
    assert("RPILE"@.len() == 5 && "RPILE"@[0] == 'R' && "RPILE"@[1] == 'P');
    assert("LEFT"@.len() == 4 && "LEFT"@[0] == 'L' && "LEFT"@[1] == 'E');
    assert("RIGHT"@.len() == 5 && "RIGHT"@[0] == 'R' && "RIGHT"@[1] == 'I');
    assert("REL"@.len() == 3 && "REL"@[0] == 'R');
    assert("BUILDREL"@.len() == 8 && "BUILDREL"@[0] == 'B' && "BUILDREL"@[1] == 'U');
    assert("LONGDIV"@.len() == 7 && "LONGDIV"@[0] == 'L');
    assert("LADDER"@.len() == 6 && "LADDER"@[0] == 'L');
    assert("SLADDER"@.len() == 7 && "SLADDER"@[0] == 'S');
    assert("BENZENE"@.len() == 7 && "BENZENE"@[0] == 'B' && "BENZENE"@[1] == 'E');
    assert("BIGG"@.len() == 4 && "BIGG"@[0] == 'B');
    assert("CHOOSE"@.len() == 6 && "CHOOSE"@[0] == 'C' && "CHOOSE"@[1] == 'H');
    assert("BINOM"@.len() == 5 && "BINOM"@[0] == 'B' && "BINOM"@[1] == 'I');
    assert("COLOR"@.len() == 5 && "COLOR"@[0] == 'C' && "COLOR"@[1] == 'O');
    assert("LSUB"@.len() == 4 && "LSUB"@[0] == 'L' && "LSUB"@[1] == 'S');
    assert("LSUB"@[3] == 'B');
    assert("LSUP"@.len() == 4 && "LSUP"@[0] == 'L' && "LSUP"@[1] == 'S');
    assert("LSUP"@[3] == 'P');
    assert("SUP"@.len() == 3 && "SUP"@[0] == 'S' && "SUP"@[2] == 'P');
    assert("SUB"@.len() == 3 && "SUB"@[0] == 'S' && "SUB"@[2] == 'B');
}

/// What each word that shapes an equation is, in any case of its letters.
pub proof fn law_words_of_structure(cmd: Seq<char>)
    ensures
        (upper(cmd) == "OVER"@ || upper(cmd) == "ATOP"@) ==>
            command_kind(cmd) == CommandKind::Stray,
        (upper(cmd) == "FRAC"@ || upper(cmd) == "DFRAC"@ || upper(cmd) == "TFRAC"@) ==>
            command_kind(cmd) == CommandKind::Fraction,
        (upper(cmd) == "TEXT"@ || upper(cmd) == "OPERATORNAME"@) ==>
            command_kind(cmd) == CommandKind::Upright,
        (upper(cmd) == "PHANTOM"@ || upper(cmd) == "VPHANTOM"@
            || upper(cmd) == "HPHANTOM"@) ==>
            command_kind(cmd) == CommandKind::Phantom,
        (upper(cmd) == "QUAD"@ || upper(cmd) == "QQUAD"@ || upper(cmd) == "THINSPACE"@
            || upper(cmd) == "MEDSPACE"@ || upper(cmd) == "THICKSPACE"@
            || upper(cmd) == "NEGSPACE"@ || upper(cmd) == "ENSPACE"@) ==>
            command_kind(cmd) == CommandKind::Spacing,
        (upper(cmd) == "OVERSET"@ || upper(cmd) == "STACKREL"@) ==>
            command_kind(cmd) == CommandKind::ScriptOver,
        (upper(cmd) == "UNDERSET"@) ==> command_kind(cmd) == CommandKind::ScriptUnder,
        (upper(cmd) == "BEGIN"@) ==> command_kind(cmd) == CommandKind::Begin,
        (upper(cmd) == "END"@) ==> command_kind(cmd) == CommandKind::End,
        (upper(cmd) == "SQRT"@ || upper(cmd) == "ROOT"@) ==>
            command_kind(cmd) == CommandKind::Root,
        (upper(cmd) == "INT"@ || upper(cmd) == "INTEGRAL"@ || upper(cmd) == "SMALLINT"@
            || upper(cmd) == "DINT"@ || upper(cmd) == "TINT"@ || upper(cmd) == "OINT"@
            || upper(cmd) == "SMALLOINT"@ || upper(cmd) == "ODINT"@
            || upper(cmd) == "OTINT"@) ==>
            command_kind(cmd) == CommandKind::Integral,
        (upper(cmd) == "MATRIX"@) ==> command_kind(cmd) == CommandKind::Matrix(MatrixStyle::Plain),
        (upper(cmd) == "PMATRIX"@) ==>
            command_kind(cmd) == CommandKind::Matrix(MatrixStyle::Paren),
        (upper(cmd) == "BMATRIX"@) ==>
            command_kind(cmd) == CommandKind::Matrix(MatrixStyle::Bracket),
        (upper(cmd) == "DMATRIX"@) ==> command_kind(cmd) == CommandKind::Matrix(MatrixStyle::Vert),
        (upper(cmd) == "CASES"@) ==> command_kind(cmd) == CommandKind::Cases,
        (upper(cmd) == "EQALIGN"@) ==> command_kind(cmd) == CommandKind::Aligned,
        (upper(cmd) == "PILE"@) ==> command_kind(cmd) == CommandKind::Pile(PileAlign::Center),
        (upper(cmd) == "LPILE"@) ==> command_kind(cmd) == CommandKind::Pile(PileAlign::Left),
        (upper(cmd) == "RPILE"@) ==> command_kind(cmd) == CommandKind::Pile(PileAlign::Right),
        (upper(cmd) == "LEFT"@) ==> command_kind(cmd) == CommandKind::Left,
        (upper(cmd) == "RIGHT"@) ==> command_kind(cmd) == CommandKind::Stray,
        (upper(cmd) == "REL"@) ==>
            command_kind(cmd) == (CommandKind::Relation { over_only: false }),
        (upper(cmd) == "BUILDREL"@) ==>
            command_kind(cmd) == (CommandKind::Relation { over_only: true }),
        (upper(cmd) == "LONGDIV"@) ==> command_kind(cmd) == CommandKind::LongDivision,
        (upper(cmd) == "LADDER"@ || upper(cmd) == "SLADDER"@) ==>
            command_kind(cmd) == CommandKind::Matrix(MatrixStyle::Plain),
        (upper(cmd) == "BENZENE"@) ==> command_kind(cmd) == CommandKind::Benzene,
        (upper(cmd) == "BIGG"@) ==> command_kind(cmd) == CommandKind::Enlarged,
        (upper(cmd) == "CHOOSE"@) ==> command_kind(cmd) == CommandKind::Choose,
        (upper(cmd) == "BINOM"@) ==> command_kind(cmd) == CommandKind::Binomial,
        (upper(cmd) == "COLOR"@) ==> command_kind(cmd) == CommandKind::Color,
        (upper(cmd) == "LSUB"@) ==> command_kind(cmd) == CommandKind::ScriptUnder,
        (upper(cmd) == "LSUP"@) ==> command_kind(cmd) == CommandKind::ScriptOver,
        (upper(cmd) == "SUP"@ || upper(cmd) == "SUB"@) ==>
            command_kind(cmd) == CommandKind::ScriptWord,
        big_operation(upper(cmd)) is Some ==> command_kind(cmd) == CommandKind::BigOperator,
        cmd == "lim"@ ==> command_kind(cmd) == (CommandKind::Limit { is_upper: false }),
        cmd == "Lim"@ ==> command_kind(cmd) == (CommandKind::Limit { is_upper: true }),
{
    let u = upper(cmd);
    lemma_keywords(u);
    lemma_big_is_no_keyword(u);
    lemma_layouts(u);
    lemma_layout_is_no_keyword(u);
    if big_operation(cmd) is Some {
        lemma_big_operations_in_capitals(cmd);
    }
    if cmd == "lim"@ || cmd == "Lim"@ {
        lemma_limit_is_no_layout(cmd);
        lemma_limit_is_no_keyword(cmd);
    }
}

/// A limit is none of the words that are read before it.
proof fn lemma_limit_is_no_keyword(w: Seq<char>)
    requires
        w == "lim"@ || w == "Lim"@,
    ensures
        keyword_kind(upper(w)) is None,
        big_operation(w) is None,
        "lim"@ != "Lim"@,
{
    reveal_strlit("lim");
    reveal_strlit("Lim");
    let u = upper(w);
    assert(u.len() == 3 && u[0] == 'L');
    assert("lim"@[0] == 'l' && "Lim"@[0] == 'L');
    reveal_strlit("OVER");
    reveal_strlit("ATOP");
    reveal_strlit("FRAC");
    reveal_strlit("DFRAC");
    reveal_strlit("TFRAC");
    reveal_strlit("TEXT");
    reveal_strlit("OPERATORNAME");
    reveal_strlit("PHANTOM");
    reveal_strlit("VPHANTOM");
    reveal_strlit("HPHANTOM");
    reveal_strlit("QUAD");
    reveal_strlit("QQUAD");
    reveal_strlit("THINSPACE");
    reveal_strlit("MEDSPACE");
    reveal_strlit("THICKSPACE");
    reveal_strlit("NEGSPACE");
    reveal_strlit("ENSPACE");
    reveal_strlit("OVERSET");
    reveal_strlit("STACKREL");
    reveal_strlit("UNDERSET");
    reveal_strlit("BEGIN");
    reveal_strlit("END");
    reveal_strlit("SQRT");
    reveal_strlit("ROOT");
    reveal_strlit("INT");
    reveal_strlit("INTEGRAL");
    reveal_strlit("SMALLINT");
    reveal_strlit("DINT");
    reveal_strlit("TINT");
    reveal_strlit("OINT");
    reveal_strlit("SMALLOINT");
    reveal_strlit("ODINT");
    reveal_strlit("OTINT");
    reveal_strlit("SUM");
    reveal_strlit("PROD");
    reveal_strlit("COPROD");
    reveal_strlit("UNION");
    reveal_strlit("INTER");
    reveal_strlit("BIGCUP");
    reveal_strlit("BIGCAP");
    reveal_strlit("BIGVEE");
    reveal_strlit("BIGWEDGE");
    reveal_strlit("BIGOPLUS");
    reveal_strlit("BIGOTIMES");
    reveal_strlit("BIGODOT");
    reveal_strlit("BIGSQCUP");
    assert("OVER"@.len() == 4);
    assert("ATOP"@.len() == 4);
    assert("FRAC"@.len() == 4);
    assert("DFRAC"@.len() == 5);
    assert("TFRAC"@.len() == 5);
    assert("TEXT"@.len() == 4);
    assert("OPERATORNAME"@.len() == 12);
    assert("PHANTOM"@.len() == 7);
    assert("VPHANTOM"@.len() == 8);
    assert("HPHANTOM"@.len() == 8);
    assert("QUAD"@.len() == 4);
    assert("QQUAD"@.len() == 5);
    assert("THINSPACE"@.len() == 9);
    assert("MEDSPACE"@.len() == 8);
    assert("THICKSPACE"@.len() == 10);
    assert("NEGSPACE"@.len() == 8);
    assert("ENSPACE"@.len() == 7);
    assert("OVERSET"@.len() == 7);
    assert("STACKREL"@.len() == 8);
    assert("UNDERSET"@.len() == 8);
    assert("BEGIN"@.len() == 5);
    assert("END"@.len() == 3 && "END"@[0] == 'E');
    assert("SQRT"@.len() == 4);
    assert("ROOT"@.len() == 4);
    assert("INT"@.len() == 3 && "INT"@[0] == 'I');
    assert("INTEGRAL"@.len() == 8);
    assert("SMALLINT"@.len() == 8);
    assert("DINT"@.len() == 4);
    assert("TINT"@.len() == 4);
    assert("OINT"@.len() == 4);
    assert("SMALLOINT"@.len() == 9);
    assert("ODINT"@.len() == 5);
    assert("OTINT"@.len() == 5);
    assert("SUM"@.len() == 3 && "SUM"@[0] == 'S');
    assert("PROD"@.len() == 4);
    assert("COPROD"@.len() == 6);
    assert("UNION"@.len() == 5);
    assert("INTER"@.len() == 5);
    assert("BIGCUP"@.len() == 6);
    assert("BIGCAP"@.len() == 6);
    assert("BIGVEE"@.len() == 6);
    assert("BIGWEDGE"@.len() == 8);
    assert("BIGOPLUS"@.len() == 8);
    assert("BIGOTIMES"@.len() == 9);
    assert("BIGODOT"@.len() == 7);
    assert("BIGSQCUP"@.len() == 8);
}

} // verus!
