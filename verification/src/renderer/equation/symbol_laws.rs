//! What holds of the tables of signs: how the entries of one table go with those of another, and
//! that names may be written in any case where capitals tell nothing apart.

use super::ast::{DecoKind, FontStyleKind};
use super::symbols::{
    arrow, big_operation, decoration, font_style, function, greek_capital, greek_small, integral,
    operation, relation, sign, spacing, symbol,
};
use crate::text::upper;
use vstd::prelude::*;

verus! {

/// The capital Greek letters.
proof fn lemma_capitals(u: Seq<char>)
    ensures
        u == "ALPHA"@ ==> greek_capital(u) == Some("Α"@),
        u == "BETA"@ ==> greek_capital(u) == Some("Β"@),
        u == "GAMMA"@ ==> greek_capital(u) == Some("Γ"@),
        u == "DELTA"@ ==> greek_capital(u) == Some("Δ"@),
        u == "EPSILON"@ ==> greek_capital(u) == Some("Ε"@),
        u == "ZETA"@ ==> greek_capital(u) == Some("Ζ"@),
        u == "ETA"@ ==> greek_capital(u) == Some("Η"@),
        u == "THETA"@ ==> greek_capital(u) == Some("Θ"@),
        u == "IOTA"@ ==> greek_capital(u) == Some("Ι"@),
        u == "KAPPA"@ ==> greek_capital(u) == Some("Κ"@),
        u == "LAMBDA"@ ==> greek_capital(u) == Some("Λ"@),
        u == "MU"@ ==> greek_capital(u) == Some("Μ"@),
        u == "NU"@ ==> greek_capital(u) == Some("Ν"@),
        u == "XI"@ ==> greek_capital(u) == Some("Ξ"@),
        u == "OMICRON"@ ==> greek_capital(u) == Some("Ο"@),
        u == "PI"@ ==> greek_capital(u) == Some("Π"@),
        u == "RHO"@ ==> greek_capital(u) == Some("Ρ"@),
        u == "SIGMA"@ ==> greek_capital(u) == Some("Σ"@),
        u == "TAU"@ ==> greek_capital(u) == Some("Τ"@),
        u == "UPSILON"@ ==> greek_capital(u) == Some("Υ"@),
        u == "PHI"@ ==> greek_capital(u) == Some("Φ"@),
        u == "CHI"@ ==> greek_capital(u) == Some("Χ"@),
        u == "PSI"@ ==> greek_capital(u) == Some("Ψ"@),
        u == "OMEGA"@ ==> greek_capital(u) == Some("Ω"@),
        u == "Gamma"@ ==> greek_capital(u) == Some("Γ"@),
        u == "Delta"@ ==> greek_capital(u) == Some("Δ"@),
        u == "Theta"@ ==> greek_capital(u) == Some("Θ"@),
        u == "Lambda"@ ==> greek_capital(u) == Some("Λ"@),
        u == "Xi"@ ==> greek_capital(u) == Some("Ξ"@),
        u == "Pi"@ ==> greek_capital(u) == Some("Π"@),
        u == "Sigma"@ ==> greek_capital(u) == Some("Σ"@),
        u == "Upsilon"@ ==> greek_capital(u) == Some("Υ"@),
        u == "Phi"@ ==> greek_capital(u) == Some("Φ"@),
        u == "Psi"@ ==> greek_capital(u) == Some("Ψ"@),
        u == "Omega"@ ==> greek_capital(u) == Some("Ω"@),
{
    reveal_strlit("ALPHA");
    reveal_strlit("BETA");
    reveal_strlit("GAMMA");
    reveal_strlit("DELTA");
    reveal_strlit("EPSILON");
    reveal_strlit("ZETA");
    reveal_strlit("ETA");
    reveal_strlit("THETA");
    reveal_strlit("IOTA");
    reveal_strlit("KAPPA");
    reveal_strlit("LAMBDA");
    reveal_strlit("MU");
    reveal_strlit("NU");
    reveal_strlit("XI");
    reveal_strlit("OMICRON");
    reveal_strlit("PI");
    reveal_strlit("RHO");
    reveal_strlit("SIGMA");
    reveal_strlit("TAU");
    reveal_strlit("UPSILON");
    reveal_strlit("PHI");
    reveal_strlit("CHI");
    reveal_strlit("PSI");
    reveal_strlit("OMEGA");
    reveal_strlit("Gamma");
    reveal_strlit("Delta");
    reveal_strlit("Theta");
    reveal_strlit("Lambda");
    reveal_strlit("Xi");
    reveal_strlit("Pi");
    reveal_strlit("Sigma");
    reveal_strlit("Upsilon");
    reveal_strlit("Phi");
    reveal_strlit("Psi");
    reveal_strlit("Omega");
    assert("ALPHA"@.len() == 5 && "ALPHA"@[0] == 'A');
    assert("BETA"@.len() == 4 && "BETA"@[0] == 'B');
    assert("GAMMA"@.len() == 5 && "GAMMA"@[0] == 'G' && "GAMMA"@[1] == 'A');
    assert("DELTA"@.len() == 5 && "DELTA"@[0] == 'D' && "DELTA"@[1] == 'E');
    assert("EPSILON"@.len() == 7 && "EPSILON"@[0] == 'E');
    assert("ZETA"@.len() == 4 && "ZETA"@[0] == 'Z');
    assert("ETA"@.len() == 3 && "ETA"@[0] == 'E');
    assert("THETA"@.len() == 5 && "THETA"@[0] == 'T' && "THETA"@[1] == 'H');
    assert("IOTA"@.len() == 4 && "IOTA"@[0] == 'I');
    assert("KAPPA"@.len() == 5 && "KAPPA"@[0] == 'K');
    assert("LAMBDA"@.len() == 6 && "LAMBDA"@[1] == 'A');
    assert("MU"@.len() == 2 && "MU"@[0] == 'M');
    assert("NU"@.len() == 2 && "NU"@[0] == 'N');
    assert("XI"@.len() == 2 && "XI"@[0] == 'X' && "XI"@[1] == 'I');
    assert("OMICRON"@.len() == 7 && "OMICRON"@[0] == 'O');
    assert("PI"@.len() == 2 && "PI"@[0] == 'P' && "PI"@[1] == 'I');
    assert("RHO"@.len() == 3 && "RHO"@[0] == 'R');
    assert("SIGMA"@.len() == 5 && "SIGMA"@[0] == 'S' && "SIGMA"@[1] == 'I');
    assert("TAU"@.len() == 3 && "TAU"@[0] == 'T');
    assert("UPSILON"@.len() == 7 && "UPSILON"@[0] == 'U' && "UPSILON"@[1] == 'P');
    assert("PHI"@.len() == 3 && "PHI"@[0] == 'P' && "PHI"@[1] == 'H');
    assert("CHI"@.len() == 3 && "CHI"@[0] == 'C');
    assert("PSI"@.len() == 3 && "PSI"@[0] == 'P' && "PSI"@[1] == 'S');
    assert("OMEGA"@.len() == 5 && "OMEGA"@[0] == 'O' && "OMEGA"@[1] == 'M');
    assert("Gamma"@.len() == 5 && "Gamma"@[0] == 'G' && "Gamma"@[1] == 'a');
    assert("Delta"@.len() == 5 && "Delta"@[0] == 'D' && "Delta"@[1] == 'e');
    assert("Theta"@.len() == 5 && "Theta"@[0] == 'T' && "Theta"@[1] == 'h');
    assert("Lambda"@.len() == 6 && "Lambda"@[1] == 'a');
    assert("Xi"@.len() == 2 && "Xi"@[0] == 'X' && "Xi"@[1] == 'i');
    assert("Pi"@.len() == 2 && "Pi"@[0] == 'P' && "Pi"@[1] == 'i');
    assert("Sigma"@.len() == 5 && "Sigma"@[0] == 'S' && "Sigma"@[1] == 'i');
    assert("Upsilon"@.len() == 7 && "Upsilon"@[0] == 'U' && "Upsilon"@[1] == 'p');
    assert("Phi"@.len() == 3 && "Phi"@[0] == 'P' && "Phi"@[1] == 'h');
    assert("Psi"@.len() == 3 && "Psi"@[0] == 'P' && "Psi"@[1] == 's');
    assert("Omega"@.len() == 5 && "Omega"@[0] == 'O' && "Omega"@[1] == 'm');
}

/// The arrows.
proof fn lemma_arrows(u: Seq<char>)
    ensures
        u == "rightarrow"@ ==> arrow(u) == Some("→"@),
        u == "leftarrow"@ ==> arrow(u) == Some("←"@),
        u == "uparrow"@ ==> arrow(u) == Some("↑"@),
        u == "downarrow"@ ==> arrow(u) == Some("↓"@),
        u == "leftrightarrow"@ ==> arrow(u) == Some("↔"@),
        u == "Rightarrow"@ ==> arrow(u) == Some("⇒"@),
        u == "Leftarrow"@ ==> arrow(u) == Some("⇐"@),
        u == "Uparrow"@ ==> arrow(u) == Some("⇑"@),
        u == "Downarrow"@ ==> arrow(u) == Some("⇓"@),
        u == "Leftrightarrow"@ ==> arrow(u) == Some("⇔"@),
        u == "rarrow"@ ==> arrow(u) == Some("→"@),
        u == "larrow"@ ==> arrow(u) == Some("←"@),
        u == "lrarrow"@ ==> arrow(u) == Some("↔"@),
        u == "udarrow"@ ==> arrow(u) == Some("↕"@),
        u == "RARROW"@ ==> arrow(u) == Some("⇒"@),
        u == "LARROW"@ ==> arrow(u) == Some("⇐"@),
        u == "LRARROW"@ ==> arrow(u) == Some("⇔"@),
        u == "UPARROW"@ ==> arrow(u) == Some("⇑"@),
        u == "DOWNARROW"@ ==> arrow(u) == Some("⇓"@),
        u == "to"@ ==> arrow(u) == Some("→"@),
        u == "mapsto"@ ==> arrow(u) == Some("↦"@),
        u == "implies"@ ==> arrow(u) == Some("⇒"@),
        u == "iff"@ ==> arrow(u) == Some("⇔"@),
{
    reveal_strlit("rightarrow");
    reveal_strlit("leftarrow");
    reveal_strlit("uparrow");
    reveal_strlit("downarrow");
    reveal_strlit("leftrightarrow");
    reveal_strlit("Rightarrow");
    reveal_strlit("Leftarrow");
    reveal_strlit("Uparrow");
    reveal_strlit("Downarrow");
    reveal_strlit("Leftrightarrow");
    reveal_strlit("rarrow");
    reveal_strlit("larrow");
    reveal_strlit("lrarrow");
    reveal_strlit("udarrow");
    reveal_strlit("RARROW");
    reveal_strlit("LARROW");
    reveal_strlit("LRARROW");
    reveal_strlit("UPARROW");
    reveal_strlit("DOWNARROW");
    reveal_strlit("to");
    reveal_strlit("mapsto");
    reveal_strlit("implies");
    reveal_strlit("iff");
    assert("rightarrow"@.len() == 10 && "rightarrow"@[0] == 'r');
    assert("leftarrow"@.len() == 9 && "leftarrow"@[0] == 'l');
    assert("uparrow"@.len() == 7 && "uparrow"@[0] == 'u' && "uparrow"@[1] == 'p');
    assert("downarrow"@.len() == 9 && "downarrow"@[0] == 'd');
    assert("leftrightarrow"@.len() == 14 && "leftrightarrow"@[0] == 'l');
    assert("Rightarrow"@.len() == 10 && "Rightarrow"@[0] == 'R');
    assert("Leftarrow"@.len() == 9 && "Leftarrow"@[0] == 'L');
    assert("Uparrow"@.len() == 7 && "Uparrow"@[0] == 'U' && "Uparrow"@[1] == 'p');
    assert("Downarrow"@.len() == 9 && "Downarrow"@[0] == 'D');
    assert("Downarrow"@[1] == 'o');
    assert("Leftrightarrow"@.len() == 14 && "Leftrightarrow"@[0] == 'L');
    assert("rarrow"@.len() == 6 && "rarrow"@[0] == 'r');
    assert("larrow"@.len() == 6 && "larrow"@[0] == 'l');
    assert("lrarrow"@.len() == 7 && "lrarrow"@[0] == 'l');
    assert("udarrow"@.len() == 7 && "udarrow"@[0] == 'u' && "udarrow"@[1] == 'd');
    assert("RARROW"@.len() == 6 && "RARROW"@[0] == 'R');
    assert("LARROW"@.len() == 6 && "LARROW"@[0] == 'L');
    assert("LRARROW"@.len() == 7 && "LRARROW"@[0] == 'L');
    assert("UPARROW"@.len() == 7 && "UPARROW"@[0] == 'U' && "UPARROW"@[1] == 'P');
    assert("DOWNARROW"@.len() == 9 && "DOWNARROW"@[0] == 'D');
    assert("DOWNARROW"@[1] == 'O');
    assert("to"@.len() == 2);
    assert("mapsto"@.len() == 6 && "mapsto"@[0] == 'm');
    assert("implies"@.len() == 7 && "implies"@[0] == 'i');
    assert("iff"@.len() == 3);
}

/// The small Greek letters.
proof fn lemma_small(u: Seq<char>)
    ensures
        u == "alpha"@ ==> greek_small(u) == Some("α"@),
        u == "beta"@ ==> greek_small(u) == Some("β"@),
        u == "gamma"@ ==> greek_small(u) == Some("γ"@),
        u == "delta"@ ==> greek_small(u) == Some("δ"@),
        u == "epsilon"@ ==> greek_small(u) == Some("ε"@),
        u == "zeta"@ ==> greek_small(u) == Some("ζ"@),
        u == "eta"@ ==> greek_small(u) == Some("η"@),
        u == "theta"@ ==> greek_small(u) == Some("θ"@),
        u == "iota"@ ==> greek_small(u) == Some("ι"@),
        u == "kappa"@ ==> greek_small(u) == Some("κ"@),
        u == "lambda"@ ==> greek_small(u) == Some("λ"@),
        u == "mu"@ ==> greek_small(u) == Some("μ"@),
        u == "nu"@ ==> greek_small(u) == Some("ν"@),
        u == "xi"@ ==> greek_small(u) == Some("ξ"@),
        u == "omicron"@ ==> greek_small(u) == Some("ο"@),
        u == "pi"@ ==> greek_small(u) == Some("π"@),
        u == "rho"@ ==> greek_small(u) == Some("ρ"@),
        u == "sigma"@ ==> greek_small(u) == Some("σ"@),
        u == "tau"@ ==> greek_small(u) == Some("τ"@),
        u == "upsilon"@ ==> greek_small(u) == Some("υ"@),
        u == "phi"@ ==> greek_small(u) == Some("φ"@),
        u == "chi"@ ==> greek_small(u) == Some("χ"@),
        u == "psi"@ ==> greek_small(u) == Some("ψ"@),
        u == "omega"@ ==> greek_small(u) == Some("ω"@),
        u == "varepsilon"@ ==> greek_small(u) == Some("ε"@),
        u == "vartheta"@ ==> greek_small(u) == Some("ϑ"@),
        u == "varpi"@ ==> greek_small(u) == Some("ϖ"@),
        u == "varrho"@ ==> greek_small(u) == Some("ϱ"@),
        u == "varsigma"@ ==> greek_small(u) == Some("ς"@),
        u == "varphi"@ ==> greek_small(u) == Some("ϕ"@),
{
    reveal_strlit("alpha");
    reveal_strlit("beta");
    reveal_strlit("gamma");
    reveal_strlit("delta");
    reveal_strlit("epsilon");
    reveal_strlit("zeta");
    reveal_strlit("eta");
    reveal_strlit("theta");
    reveal_strlit("iota");
    reveal_strlit("kappa");
    reveal_strlit("lambda");
    reveal_strlit("mu");
    reveal_strlit("nu");
    reveal_strlit("xi");
    reveal_strlit("omicron");
    reveal_strlit("pi");
    reveal_strlit("rho");
    reveal_strlit("sigma");
    reveal_strlit("tau");
    reveal_strlit("upsilon");
    reveal_strlit("phi");
    reveal_strlit("chi");
    reveal_strlit("psi");
    reveal_strlit("omega");
    reveal_strlit("varepsilon");
    reveal_strlit("vartheta");
    reveal_strlit("varpi");
    reveal_strlit("varrho");
    reveal_strlit("varsigma");
    reveal_strlit("varphi");
    assert("alpha"@.len() == 5 && "alpha"@[0] == 'a');
    assert("beta"@.len() == 4 && "beta"@[0] == 'b');
    assert("gamma"@.len() == 5 && "gamma"@[0] == 'g');
    assert("delta"@.len() == 5 && "delta"@[0] == 'd');
    assert("epsilon"@.len() == 7 && "epsilon"@[0] == 'e');
    assert("zeta"@.len() == 4 && "zeta"@[0] == 'z');
    assert("eta"@.len() == 3 && "eta"@[0] == 'e');
    assert("theta"@.len() == 5 && "theta"@[0] == 't');
    assert("iota"@.len() == 4 && "iota"@[0] == 'i');
    assert("kappa"@.len() == 5 && "kappa"@[0] == 'k');
    assert("lambda"@.len() == 6 && "lambda"@[0] == 'l');
    assert("mu"@.len() == 2 && "mu"@[0] == 'm');
    assert("nu"@.len() == 2 && "nu"@[0] == 'n');
    assert("xi"@.len() == 2 && "xi"@[0] == 'x');
    assert("omicron"@.len() == 7 && "omicron"@[0] == 'o');
    assert("pi"@.len() == 2 && "pi"@[0] == 'p');
    assert("rho"@.len() == 3 && "rho"@[0] == 'r');
    assert("sigma"@.len() == 5 && "sigma"@[0] == 's');
    assert("tau"@.len() == 3 && "tau"@[0] == 't');
    assert("upsilon"@.len() == 7 && "upsilon"@[0] == 'u');
    assert("phi"@.len() == 3 && "phi"@[0] == 'p' && "phi"@[1] == 'h');
    assert("chi"@.len() == 3 && "chi"@[0] == 'c');
    assert("psi"@.len() == 3 && "psi"@[0] == 'p' && "psi"@[1] == 's');
    assert("omega"@.len() == 5 && "omega"@[0] == 'o');
    assert("varepsilon"@.len() == 10);
    assert("vartheta"@.len() == 8 && "vartheta"@[3] == 't');
    assert("varpi"@.len() == 5 && "varpi"@[0] == 'v');
    assert("varrho"@.len() == 6 && "varrho"@[0] == 'v' && "varrho"@[3] == 'r');
    assert("varsigma"@.len() == 8 && "varsigma"@[3] == 's');
    assert("varphi"@.len() == 6 && "varphi"@[0] == 'v' && "varphi"@[3] == 'p');
}

/// Whether a name is that of a variant of a letter.
pub open spec fn is_variant(w: Seq<char>) -> bool {
    w.len() > 3 && w[0] == 'v' && w[1] == 'a' && w[2] == 'r'
}

/// A name in small letters names the small Greek letter of which the name in capitals names the
/// capital one: the capital letter stands 32 places before the small one. Variants of small
/// letters have no capitals.
pub proof fn law_greek_letters(w: Seq<char>)
    requires
        greek_small(w) is Some,
        !is_variant(w),
    ensures
        greek_capital(upper(w)) is Some,
        greek_small(w)->0.len() == 1,
        greek_capital(upper(w))->0.len() == 1,
        greek_small(w)->0[0] as int == greek_capital(upper(w))->0[0] as int + 0x20,
{
    lemma_capitals(upper(w));
    lemma_small(w);
    if w == "alpha"@ {
        reveal_strlit("alpha");
        reveal_strlit("ALPHA");
        reveal_strlit("α");
        reveal_strlit("Α");
        assert(upper(w) =~= "ALPHA"@);
    }
    if w == "beta"@ {
        reveal_strlit("beta");
        reveal_strlit("BETA");
        reveal_strlit("β");
        reveal_strlit("Β");
        assert(upper(w) =~= "BETA"@);
    }
    if w == "gamma"@ {
        reveal_strlit("gamma");
        reveal_strlit("GAMMA");
        reveal_strlit("γ");
        reveal_strlit("Γ");
        assert(upper(w) =~= "GAMMA"@);
    }
    if w == "delta"@ {
        reveal_strlit("delta");
        reveal_strlit("DELTA");
        reveal_strlit("δ");
        reveal_strlit("Δ");
        assert(upper(w) =~= "DELTA"@);
    }
    if w == "epsilon"@ {
        reveal_strlit("epsilon");
        reveal_strlit("EPSILON");
        reveal_strlit("ε");
        reveal_strlit("Ε");
        assert(upper(w) =~= "EPSILON"@);
    }
    if w == "zeta"@ {
        reveal_strlit("zeta");
        reveal_strlit("ZETA");
        reveal_strlit("ζ");
        reveal_strlit("Ζ");
        assert(upper(w) =~= "ZETA"@);
    }
    if w == "eta"@ {
        reveal_strlit("eta");
        reveal_strlit("ETA");
        reveal_strlit("η");
        reveal_strlit("Η");
        assert(upper(w) =~= "ETA"@);
    }
    if w == "theta"@ {
        reveal_strlit("theta");
        reveal_strlit("THETA");
        reveal_strlit("θ");
        reveal_strlit("Θ");
        assert(upper(w) =~= "THETA"@);
    }
    if w == "iota"@ {
        reveal_strlit("iota");
        reveal_strlit("IOTA");
        reveal_strlit("ι");
        reveal_strlit("Ι");
        assert(upper(w) =~= "IOTA"@);
    }
    if w == "kappa"@ {
        reveal_strlit("kappa");
        reveal_strlit("KAPPA");
        reveal_strlit("κ");
        reveal_strlit("Κ");
        assert(upper(w) =~= "KAPPA"@);
    }
    if w == "lambda"@ {
        reveal_strlit("lambda");
        reveal_strlit("LAMBDA");
        reveal_strlit("λ");
        reveal_strlit("Λ");
        assert(upper(w) =~= "LAMBDA"@);
    }
    if w == "mu"@ {
        reveal_strlit("mu");
        reveal_strlit("MU");
        reveal_strlit("μ");
        reveal_strlit("Μ");
        assert(upper(w) =~= "MU"@);
    }
    if w == "nu"@ {
        reveal_strlit("nu");
        reveal_strlit("NU");
        reveal_strlit("ν");
        reveal_strlit("Ν");
        assert(upper(w) =~= "NU"@);
    }
    if w == "xi"@ {
        reveal_strlit("xi");
        reveal_strlit("XI");
        reveal_strlit("ξ");
        reveal_strlit("Ξ");
        assert(upper(w) =~= "XI"@);
    }
    if w == "omicron"@ {
        reveal_strlit("omicron");
        reveal_strlit("OMICRON");
        reveal_strlit("ο");
        reveal_strlit("Ο");
        assert(upper(w) =~= "OMICRON"@);
    }
    if w == "pi"@ {
        reveal_strlit("pi");
        reveal_strlit("PI");
        reveal_strlit("π");
        reveal_strlit("Π");
        assert(upper(w) =~= "PI"@);
    }
    if w == "rho"@ {
        reveal_strlit("rho");
        reveal_strlit("RHO");
        reveal_strlit("ρ");
        reveal_strlit("Ρ");
        assert(upper(w) =~= "RHO"@);
    }
    if w == "sigma"@ {
        reveal_strlit("sigma");
        reveal_strlit("SIGMA");
        reveal_strlit("σ");
        reveal_strlit("Σ");
        assert(upper(w) =~= "SIGMA"@);
    }
    if w == "tau"@ {
        reveal_strlit("tau");
        reveal_strlit("TAU");
        reveal_strlit("τ");
        reveal_strlit("Τ");
        assert(upper(w) =~= "TAU"@);
    }
    if w == "upsilon"@ {
        reveal_strlit("upsilon");
        reveal_strlit("UPSILON");
        reveal_strlit("υ");
        reveal_strlit("Υ");
        assert(upper(w) =~= "UPSILON"@);
    }
    if w == "phi"@ {
        reveal_strlit("phi");
        reveal_strlit("PHI");
        reveal_strlit("φ");
        reveal_strlit("Φ");
        assert(upper(w) =~= "PHI"@);
    }
    if w == "chi"@ {
        reveal_strlit("chi");
        reveal_strlit("CHI");
        reveal_strlit("χ");
        reveal_strlit("Χ");
        assert(upper(w) =~= "CHI"@);
    }
    if w == "psi"@ {
        reveal_strlit("psi");
        reveal_strlit("PSI");
        reveal_strlit("ψ");
        reveal_strlit("Ψ");
        assert(upper(w) =~= "PSI"@);
    }
    if w == "omega"@ {
        reveal_strlit("omega");
        reveal_strlit("OMEGA");
        reveal_strlit("ω");
        reveal_strlit("Ω");
        assert(upper(w) =~= "OMEGA"@);
    }
    if w == "varepsilon"@ {
        reveal_strlit("varepsilon");
        assert(is_variant(w));
    }
    if w == "vartheta"@ {
        reveal_strlit("vartheta");
        assert(is_variant(w));
    }
    if w == "varpi"@ {
        reveal_strlit("varpi");
        assert(is_variant(w));
    }
    if w == "varrho"@ {
        reveal_strlit("varrho");
        assert(is_variant(w));
    }
    if w == "varsigma"@ {
        reveal_strlit("varsigma");
        assert(is_variant(w));
    }
    if w == "varphi"@ {
        reveal_strlit("varphi");
        assert(is_variant(w));
    }
}

/// A capital Greek letter may be written with its first letter in capitals or with all of them.
pub proof fn law_greek_capitals(w: Seq<char>)
    requires
        greek_capital(w) is Some,
    ensures
        greek_capital(upper(w)) == greek_capital(w),
{
    lemma_capitals(upper(w));
    lemma_capitals(w);
    if w == "ALPHA"@ {
        reveal_strlit("ALPHA");
        assert(upper(w) =~= "ALPHA"@);
    }
    if w == "BETA"@ {
        reveal_strlit("BETA");
        assert(upper(w) =~= "BETA"@);
    }
    if w == "GAMMA"@ {
        reveal_strlit("GAMMA");
        assert(upper(w) =~= "GAMMA"@);
    }
    if w == "DELTA"@ {
        reveal_strlit("DELTA");
        assert(upper(w) =~= "DELTA"@);
    }
    if w == "EPSILON"@ {
        reveal_strlit("EPSILON");
        assert(upper(w) =~= "EPSILON"@);
    }
    if w == "ZETA"@ {
        reveal_strlit("ZETA");
        assert(upper(w) =~= "ZETA"@);
    }
    if w == "ETA"@ {
        reveal_strlit("ETA");
        assert(upper(w) =~= "ETA"@);
    }
    if w == "THETA"@ {
        reveal_strlit("THETA");
        assert(upper(w) =~= "THETA"@);
    }
    if w == "IOTA"@ {
        reveal_strlit("IOTA");
        assert(upper(w) =~= "IOTA"@);
    }
    if w == "KAPPA"@ {
        reveal_strlit("KAPPA");
        assert(upper(w) =~= "KAPPA"@);
    }
    if w == "LAMBDA"@ {
        reveal_strlit("LAMBDA");
        assert(upper(w) =~= "LAMBDA"@);
    }
    if w == "MU"@ {
        reveal_strlit("MU");
        assert(upper(w) =~= "MU"@);
    }
    if w == "NU"@ {
        reveal_strlit("NU");
        assert(upper(w) =~= "NU"@);
    }
    if w == "XI"@ {
        reveal_strlit("XI");
        assert(upper(w) =~= "XI"@);
    }
    if w == "OMICRON"@ {
        reveal_strlit("OMICRON");
        assert(upper(w) =~= "OMICRON"@);
    }
    if w == "PI"@ {
        reveal_strlit("PI");
        assert(upper(w) =~= "PI"@);
    }
    if w == "RHO"@ {
        reveal_strlit("RHO");
        assert(upper(w) =~= "RHO"@);
    }
    if w == "SIGMA"@ {
        reveal_strlit("SIGMA");
        assert(upper(w) =~= "SIGMA"@);
    }
    if w == "TAU"@ {
        reveal_strlit("TAU");
        assert(upper(w) =~= "TAU"@);
    }
    if w == "UPSILON"@ {
        reveal_strlit("UPSILON");
        assert(upper(w) =~= "UPSILON"@);
    }
    if w == "PHI"@ {
        reveal_strlit("PHI");
        assert(upper(w) =~= "PHI"@);
    }
    if w == "CHI"@ {
        reveal_strlit("CHI");
        assert(upper(w) =~= "CHI"@);
    }
    if w == "PSI"@ {
        reveal_strlit("PSI");
        assert(upper(w) =~= "PSI"@);
    }
    if w == "OMEGA"@ {
        reveal_strlit("OMEGA");
        assert(upper(w) =~= "OMEGA"@);
    }
    if w == "Gamma"@ {
        reveal_strlit("Gamma");
        reveal_strlit("GAMMA");
        assert(upper(w) =~= "GAMMA"@);
    }
    if w == "Delta"@ {
        reveal_strlit("Delta");
        reveal_strlit("DELTA");
        assert(upper(w) =~= "DELTA"@);
    }
    if w == "Theta"@ {
        reveal_strlit("Theta");
        reveal_strlit("THETA");
        assert(upper(w) =~= "THETA"@);
    }
    if w == "Lambda"@ {
        reveal_strlit("Lambda");
        reveal_strlit("LAMBDA");
        assert(upper(w) =~= "LAMBDA"@);
    }
    if w == "Xi"@ {
        reveal_strlit("Xi");
        reveal_strlit("XI");
        assert(upper(w) =~= "XI"@);
    }
    if w == "Pi"@ {
        reveal_strlit("Pi");
        reveal_strlit("PI");
        assert(upper(w) =~= "PI"@);
    }
    if w == "Sigma"@ {
        reveal_strlit("Sigma");
        reveal_strlit("SIGMA");
        assert(upper(w) =~= "SIGMA"@);
    }
    if w == "Upsilon"@ {
        reveal_strlit("Upsilon");
        reveal_strlit("UPSILON");
        assert(upper(w) =~= "UPSILON"@);
    }
    if w == "Phi"@ {
        reveal_strlit("Phi");
        reveal_strlit("PHI");
        assert(upper(w) =~= "PHI"@);
    }
    if w == "Psi"@ {
        reveal_strlit("Psi");
        reveal_strlit("PSI");
        assert(upper(w) =~= "PSI"@);
    }
    if w == "Omega"@ {
        reveal_strlit("Omega");
        reveal_strlit("OMEGA");
        assert(upper(w) =~= "OMEGA"@);
    }
}

/// An arrow whose name starts with a small letter is a single one, and the double arrow of the same
/// direction is named by the name in capitals, or by the name with its first letter in capitals:
/// it stands 64 places behind the single one.
pub proof fn law_double_arrows(w: Seq<char>, v: Seq<char>)
    requires
        arrow(w) is Some,
        arrow(v) is Some,
        'a' <= w[0] <= 'z',
        v == upper(w) || v == w.update(0, upper(w)[0]),
    ensures
        arrow(w)->0.len() == 1,
        arrow(v)->0.len() == 1,
        arrow(v)->0[0] as int == arrow(w)->0[0] as int + 0x40,
{
    lemma_arrows(w);
    lemma_arrows(v);
    reveal_strlit("rightarrow");
    reveal_strlit("leftarrow");
    reveal_strlit("uparrow");
    reveal_strlit("downarrow");
    reveal_strlit("leftrightarrow");
    reveal_strlit("Rightarrow");
    reveal_strlit("Leftarrow");
    reveal_strlit("Uparrow");
    reveal_strlit("Downarrow");
    reveal_strlit("Leftrightarrow");
    reveal_strlit("rarrow");
    reveal_strlit("larrow");
    reveal_strlit("lrarrow");
    reveal_strlit("udarrow");
    reveal_strlit("RARROW");
    reveal_strlit("LARROW");
    reveal_strlit("LRARROW");
    reveal_strlit("UPARROW");
    reveal_strlit("DOWNARROW");
    reveal_strlit("to");
    reveal_strlit("mapsto");
    reveal_strlit("implies");
    reveal_strlit("iff");
    assert("rightarrow"@.len() == 10 && "rightarrow"@[0] == 'r');
    assert("leftarrow"@.len() == 9 && "leftarrow"@[0] == 'l');
    assert("uparrow"@.len() == 7 && "uparrow"@[0] == 'u' && "uparrow"@[1] == 'p');
    assert("downarrow"@.len() == 9 && "downarrow"@[0] == 'd');
    assert("leftrightarrow"@.len() == 14 && "leftrightarrow"@[0] == 'l');
    assert("Rightarrow"@.len() == 10 && "Rightarrow"@[0] == 'R');
    assert("Leftarrow"@.len() == 9 && "Leftarrow"@[0] == 'L');
    assert("Uparrow"@.len() == 7 && "Uparrow"@[0] == 'U' && "Uparrow"@[1] == 'p');
    assert("Downarrow"@.len() == 9 && "Downarrow"@[0] == 'D');
    assert("Downarrow"@[1] == 'o');
    assert("Leftrightarrow"@.len() == 14 && "Leftrightarrow"@[0] == 'L');
    assert("rarrow"@.len() == 6 && "rarrow"@[0] == 'r');
    assert("larrow"@.len() == 6 && "larrow"@[0] == 'l');
    assert("lrarrow"@.len() == 7 && "lrarrow"@[0] == 'l');
    assert("udarrow"@.len() == 7 && "udarrow"@[0] == 'u' && "udarrow"@[1] == 'd');
    assert("RARROW"@.len() == 6 && "RARROW"@[0] == 'R');
    assert("LARROW"@.len() == 6 && "LARROW"@[0] == 'L');
    assert("LRARROW"@.len() == 7 && "LRARROW"@[0] == 'L');
    assert("UPARROW"@.len() == 7 && "UPARROW"@[0] == 'U' && "UPARROW"@[1] == 'P');
    assert("DOWNARROW"@.len() == 9 && "DOWNARROW"@[0] == 'D');
    assert("DOWNARROW"@[1] == 'O');
    assert("to"@.len() == 2);
    assert("mapsto"@.len() == 6 && "mapsto"@[0] == 'm');
    assert("implies"@.len() == 7 && "implies"@[0] == 'i');
    assert("iff"@.len() == 3);
    reveal_strlit("←");
    reveal_strlit("↑");
    reveal_strlit("→");
    reveal_strlit("↓");
    reveal_strlit("↔");
    reveal_strlit("↕");
    reveal_strlit("↦");
    reveal_strlit("⇐");
    reveal_strlit("⇑");
    reveal_strlit("⇒");
    reveal_strlit("⇓");
    reveal_strlit("⇔");
    if w == "rightarrow"@ {
        assert(upper(w)[0] == 'R');
        assert(upper(w)[1] == 'I');
        assert(w.update(0, upper(w)[0]) =~= "Rightarrow"@);
    }
    if w == "leftarrow"@ {
        assert(upper(w)[0] == 'L');
        assert(upper(w)[1] == 'E');
        assert(w.update(0, upper(w)[0]) =~= "Leftarrow"@);
    }
    if w == "uparrow"@ {
        assert(upper(w) =~= "UPARROW"@);
        assert(w.update(0, upper(w)[0]) =~= "Uparrow"@);
    }
    if w == "downarrow"@ {
        assert(upper(w) =~= "DOWNARROW"@);
        assert(w.update(0, upper(w)[0]) =~= "Downarrow"@);
    }
    if w == "leftrightarrow"@ {
        assert(upper(w)[0] == 'L');
        assert(upper(w)[1] == 'E');
        assert(w.update(0, upper(w)[0]) =~= "Leftrightarrow"@);
    }
    if w == "rarrow"@ {
        assert(upper(w) =~= "RARROW"@);
        assert(w.update(0, upper(w)[0])[0] == 'R');
        assert(w.update(0, upper(w)[0])[1] == 'a');
    }
    if w == "larrow"@ {
        assert(upper(w) =~= "LARROW"@);
        assert(w.update(0, upper(w)[0])[0] == 'L');
        assert(w.update(0, upper(w)[0])[1] == 'a');
    }
    if w == "lrarrow"@ {
        assert(upper(w) =~= "LRARROW"@);
        assert(w.update(0, upper(w)[0])[0] == 'L');
        assert(w.update(0, upper(w)[0])[1] == 'r');
    }
    if w == "udarrow"@ {
        assert(upper(w)[0] == 'U');
        assert(upper(w)[1] == 'D');
        assert(w.update(0, upper(w)[0])[0] == 'U');
        assert(w.update(0, upper(w)[0])[1] == 'd');
    }
    if w == "to"@ {
        assert(upper(w)[0] == 'T');
        assert(w.update(0, upper(w)[0])[0] == 'T');
    }
    if w == "mapsto"@ {
        assert(upper(w)[0] == 'M');
        assert(w.update(0, upper(w)[0])[0] == 'M');
    }
    if w == "implies"@ {
        assert(upper(w)[0] == 'I');
        assert(w.update(0, upper(w)[0])[0] == 'I');
    }
    if w == "iff"@ {
        assert(upper(w)[0] == 'I');
        assert(w.update(0, upper(w)[0])[0] == 'I');
    }
}

/// Every name but those of Greek letters and arrows may be written in any case.
pub proof fn law_names_in_any_case(a: Seq<char>, b: Seq<char>)
    requires
        upper(a) == upper(b),
        greek_small(a) is None && greek_capital(a) is None && arrow(a) is None,
        greek_small(b) is None && greek_capital(b) is None && arrow(b) is None,
    ensures
        symbol(a) == symbol(b),
{
    reveal(symbol);
}

/// A Greek letter or an arrow is named by exactly the name as it is written.
pub proof fn law_greek_and_arrows_first(w: Seq<char>)
    ensures
        greek_small(w) is Some ==> symbol(w) == greek_small(w),
        greek_small(w) is None && greek_capital(w) is Some ==> symbol(w) == greek_capital(w),
        greek_small(w) is None && greek_capital(w) is None && arrow(w) is Some ==> symbol(w)
            == arrow(w),
{
    reveal(symbol);
}

proof fn lemma_no_greek_small(u: Seq<char>)
    requires
        is_operator_name(u),
    ensures
        greek_small(u) is None,
{
    reveal_strlit("SUM");
    reveal_strlit("PROD");
    reveal_strlit("COPROD");
    reveal_strlit("UNION");
    reveal_strlit("INTER");
    reveal_strlit("BIGCUP");
    reveal_strlit("BIGCAP");
    reveal_strlit("BIGVEE");
    reveal_strlit("BIGWEDGE");
    reveal_strlit("BIGOPLUS");
    reveal_strlit("BIGOTIMES");
    reveal_strlit("BIGODOT");
    reveal_strlit("BIGSQCUP");
    reveal_strlit("INT");
    reveal_strlit("INTEGRAL");
    reveal_strlit("SMALLINT");
    reveal_strlit("DINT");
    reveal_strlit("TINT");
    reveal_strlit("OINT");
    reveal_strlit("SMALLOINT");
    reveal_strlit("ODINT");
    reveal_strlit("OTINT");
    reveal_strlit("QUAD");
    reveal_strlit("QQUAD");
    reveal_strlit("THINSPACE");
    reveal_strlit("MEDSPACE");
    reveal_strlit("THICKSPACE");
    reveal_strlit("NEGSPACE");
    reveal_strlit("ENSPACE");
    reveal_strlit("alpha");
    reveal_strlit("beta");
    reveal_strlit("gamma");
    reveal_strlit("delta");
    reveal_strlit("epsilon");
    reveal_strlit("zeta");
    reveal_strlit("eta");
    reveal_strlit("theta");
    reveal_strlit("iota");
    reveal_strlit("kappa");
    reveal_strlit("lambda");
    reveal_strlit("mu");
    reveal_strlit("nu");
    reveal_strlit("xi");
    reveal_strlit("omicron");
    reveal_strlit("pi");
    reveal_strlit("rho");
    reveal_strlit("sigma");
    reveal_strlit("tau");
    reveal_strlit("upsilon");
    reveal_strlit("phi");
    reveal_strlit("chi");
    reveal_strlit("psi");
    reveal_strlit("omega");
    reveal_strlit("varepsilon");
    reveal_strlit("vartheta");
    reveal_strlit("varpi");
    reveal_strlit("varrho");
    reveal_strlit("varsigma");
    reveal_strlit("varphi");
    assert("SUM"@.len() == 3 && "SUM"@[0] == 'S');
    assert("PROD"@.len() == 4 && "PROD"@[0] == 'P');
    assert("COPROD"@.len() == 6 && "COPROD"@[0] == 'C');
    assert("UNION"@.len() == 5 && "UNION"@[0] == 'U');
    assert("INTER"@.len() == 5 && "INTER"@[0] == 'I');
    assert("BIGCUP"@.len() == 6 && "BIGCUP"@[0] == 'B' && "BIGCUP"@[3] == 'C');
    assert("BIGCUP"@[4] == 'U');
    assert("BIGCAP"@.len() == 6 && "BIGCAP"@[0] == 'B' && "BIGCAP"@[3] == 'C');
    assert("BIGCAP"@[4] == 'A');
    assert("BIGVEE"@.len() == 6 && "BIGVEE"@[0] == 'B' && "BIGVEE"@[3] == 'V');
    assert("BIGWEDGE"@.len() == 8 && "BIGWEDGE"@[0] == 'B' && "BIGWEDGE"@[3] == 'W');
    assert("BIGOPLUS"@.len() == 8 && "BIGOPLUS"@[0] == 'B' && "BIGOPLUS"@[3] == 'O');
    assert("BIGOTIMES"@.len() == 9 && "BIGOTIMES"@[0] == 'B');
    assert("BIGODOT"@.len() == 7 && "BIGODOT"@[0] == 'B');
    assert("BIGSQCUP"@.len() == 8 && "BIGSQCUP"@[0] == 'B' && "BIGSQCUP"@[3] == 'S');
    assert("INT"@.len() == 3 && "INT"@[0] == 'I');
    assert("INTEGRAL"@.len() == 8 && "INTEGRAL"@[0] == 'I');
    assert("SMALLINT"@.len() == 8 && "SMALLINT"@[0] == 'S');
    assert("DINT"@.len() == 4 && "DINT"@[0] == 'D');
    assert("TINT"@.len() == 4 && "TINT"@[0] == 'T');
    assert("OINT"@.len() == 4 && "OINT"@[0] == 'O');
    assert("SMALLOINT"@.len() == 9 && "SMALLOINT"@[0] == 'S');
    assert("ODINT"@.len() == 5 && "ODINT"@[0] == 'O' && "ODINT"@[1] == 'D');
    assert("OTINT"@.len() == 5 && "OTINT"@[0] == 'O' && "OTINT"@[1] == 'T');
    assert("QUAD"@.len() == 4 && "QUAD"@[0] == 'Q');
    assert("QQUAD"@.len() == 5 && "QQUAD"@[0] == 'Q');
    assert("THINSPACE"@.len() == 9 && "THINSPACE"@[0] == 'T');
    assert("MEDSPACE"@.len() == 8 && "MEDSPACE"@[0] == 'M');
    assert("THICKSPACE"@.len() == 10 && "THICKSPACE"@[0] == 'T');
    assert("NEGSPACE"@.len() == 8 && "NEGSPACE"@[0] == 'N');
    assert("ENSPACE"@.len() == 7 && "ENSPACE"@[0] == 'E');
    assert("alpha"@.len() == 5 && "alpha"@[0] == 'a');
    assert("beta"@.len() == 4 && "beta"@[0] == 'b');
    assert("gamma"@.len() == 5 && "gamma"@[0] == 'g');
    assert("delta"@.len() == 5 && "delta"@[0] == 'd');
    assert("epsilon"@.len() == 7 && "epsilon"@[0] == 'e');
    assert("zeta"@.len() == 4 && "zeta"@[0] == 'z');
    assert("eta"@.len() == 3 && "eta"@[0] == 'e');
    assert("theta"@.len() == 5 && "theta"@[0] == 't');
    assert("iota"@.len() == 4 && "iota"@[0] == 'i');
    assert("kappa"@.len() == 5 && "kappa"@[0] == 'k');
    assert("lambda"@.len() == 6 && "lambda"@[0] == 'l');
    assert("mu"@.len() == 2 && "mu"@[0] == 'm');
    assert("nu"@.len() == 2 && "nu"@[0] == 'n');
    assert("xi"@.len() == 2 && "xi"@[0] == 'x');
    assert("omicron"@.len() == 7 && "omicron"@[0] == 'o');
    assert("pi"@.len() == 2 && "pi"@[0] == 'p');
    assert("rho"@.len() == 3 && "rho"@[0] == 'r');
    assert("sigma"@.len() == 5 && "sigma"@[0] == 's');
    assert("tau"@.len() == 3 && "tau"@[0] == 't');
    assert("upsilon"@.len() == 7 && "upsilon"@[0] == 'u');
    assert("phi"@.len() == 3 && "phi"@[0] == 'p' && "phi"@[1] == 'h');
    assert("chi"@.len() == 3 && "chi"@[0] == 'c');
    assert("psi"@.len() == 3 && "psi"@[0] == 'p' && "psi"@[1] == 's');
    assert("omega"@.len() == 5 && "omega"@[0] == 'o');
    assert("varepsilon"@.len() == 10 && "varepsilon"@[0] == 'v');
    assert("vartheta"@.len() == 8 && "vartheta"@[0] == 'v' && "vartheta"@[3] == 't');
    assert("varpi"@.len() == 5 && "varpi"@[0] == 'v');
    assert("varrho"@.len() == 6 && "varrho"@[0] == 'v' && "varrho"@[3] == 'r');
    assert("varsigma"@.len() == 8 && "varsigma"@[0] == 'v' && "varsigma"@[3] == 's');
    assert("varphi"@.len() == 6 && "varphi"@[0] == 'v' && "varphi"@[3] == 'p');
}

proof fn lemma_no_greek_capital(u: Seq<char>)
    requires
        is_operator_name(u),
    ensures
        greek_capital(u) is None,
{
    reveal_strlit("SUM");
    reveal_strlit("PROD");
    reveal_strlit("COPROD");
    reveal_strlit("UNION");
    reveal_strlit("INTER");
    reveal_strlit("BIGCUP");
    reveal_strlit("BIGCAP");
    reveal_strlit("BIGVEE");
    reveal_strlit("BIGWEDGE");
    reveal_strlit("BIGOPLUS");
    reveal_strlit("BIGOTIMES");
    reveal_strlit("BIGODOT");
    reveal_strlit("BIGSQCUP");
    reveal_strlit("INT");
    reveal_strlit("INTEGRAL");
    reveal_strlit("SMALLINT");
    reveal_strlit("DINT");
    reveal_strlit("TINT");
    reveal_strlit("OINT");
    reveal_strlit("SMALLOINT");
    reveal_strlit("ODINT");
    reveal_strlit("OTINT");
    reveal_strlit("QUAD");
    reveal_strlit("QQUAD");
    reveal_strlit("THINSPACE");
    reveal_strlit("MEDSPACE");
    reveal_strlit("THICKSPACE");
    reveal_strlit("NEGSPACE");
    reveal_strlit("ENSPACE");
    reveal_strlit("ALPHA");
    reveal_strlit("BETA");
    reveal_strlit("GAMMA");
    reveal_strlit("DELTA");
    reveal_strlit("EPSILON");
    reveal_strlit("ZETA");
    reveal_strlit("ETA");
    reveal_strlit("THETA");
    reveal_strlit("IOTA");
    reveal_strlit("KAPPA");
    reveal_strlit("LAMBDA");
    reveal_strlit("MU");
    reveal_strlit("NU");
    reveal_strlit("XI");
    reveal_strlit("OMICRON");
    reveal_strlit("PI");
    reveal_strlit("RHO");
    reveal_strlit("SIGMA");
    reveal_strlit("TAU");
    reveal_strlit("UPSILON");
    reveal_strlit("PHI");
    reveal_strlit("CHI");
    reveal_strlit("PSI");
    reveal_strlit("OMEGA");
    reveal_strlit("Gamma");
    reveal_strlit("Delta");
    reveal_strlit("Theta");
    reveal_strlit("Lambda");
    reveal_strlit("Xi");
    reveal_strlit("Pi");
    reveal_strlit("Sigma");
    reveal_strlit("Upsilon");
    reveal_strlit("Phi");
    reveal_strlit("Psi");
    reveal_strlit("Omega");
    assert("SUM"@.len() == 3 && "SUM"@[0] == 'S');
    assert("PROD"@.len() == 4 && "PROD"@[0] == 'P');
    assert("COPROD"@.len() == 6 && "COPROD"@[0] == 'C');
    assert("UNION"@.len() == 5 && "UNION"@[0] == 'U');
    assert("INTER"@.len() == 5 && "INTER"@[0] == 'I');
    assert("BIGCUP"@.len() == 6 && "BIGCUP"@[0] == 'B' && "BIGCUP"@[3] == 'C');
    assert("BIGCUP"@[4] == 'U');
    assert("BIGCAP"@.len() == 6 && "BIGCAP"@[0] == 'B' && "BIGCAP"@[3] == 'C');
    assert("BIGCAP"@[4] == 'A');
    assert("BIGVEE"@.len() == 6 && "BIGVEE"@[0] == 'B' && "BIGVEE"@[3] == 'V');
    assert("BIGWEDGE"@.len() == 8 && "BIGWEDGE"@[0] == 'B' && "BIGWEDGE"@[3] == 'W');
    assert("BIGOPLUS"@.len() == 8 && "BIGOPLUS"@[0] == 'B' && "BIGOPLUS"@[3] == 'O');
    assert("BIGOTIMES"@.len() == 9 && "BIGOTIMES"@[0] == 'B');
    assert("BIGODOT"@.len() == 7 && "BIGODOT"@[0] == 'B');
    assert("BIGSQCUP"@.len() == 8 && "BIGSQCUP"@[0] == 'B' && "BIGSQCUP"@[3] == 'S');
    assert("INT"@.len() == 3 && "INT"@[0] == 'I');
    assert("INTEGRAL"@.len() == 8 && "INTEGRAL"@[0] == 'I');
    assert("SMALLINT"@.len() == 8 && "SMALLINT"@[0] == 'S');
    assert("DINT"@.len() == 4 && "DINT"@[0] == 'D');
    assert("TINT"@.len() == 4 && "TINT"@[0] == 'T');
    assert("OINT"@.len() == 4 && "OINT"@[0] == 'O');
    assert("SMALLOINT"@.len() == 9 && "SMALLOINT"@[0] == 'S');
    assert("ODINT"@.len() == 5 && "ODINT"@[0] == 'O' && "ODINT"@[1] == 'D');
    assert("OTINT"@.len() == 5 && "OTINT"@[0] == 'O' && "OTINT"@[1] == 'T');
    assert("QUAD"@.len() == 4 && "QUAD"@[0] == 'Q');
    assert("QQUAD"@.len() == 5 && "QQUAD"@[0] == 'Q');
    assert("THINSPACE"@.len() == 9 && "THINSPACE"@[0] == 'T');
    assert("MEDSPACE"@.len() == 8 && "MEDSPACE"@[0] == 'M');
    assert("THICKSPACE"@.len() == 10);
    assert("NEGSPACE"@.len() == 8 && "NEGSPACE"@[0] == 'N');
    assert("ENSPACE"@.len() == 7 && "ENSPACE"@[0] == 'E' && "ENSPACE"@[1] == 'N');
    assert("ALPHA"@.len() == 5 && "ALPHA"@[0] == 'A');
    assert("BETA"@.len() == 4 && "BETA"@[0] == 'B');
    assert("GAMMA"@.len() == 5 && "GAMMA"@[0] == 'G' && "GAMMA"@[1] == 'A');
    assert("DELTA"@.len() == 5 && "DELTA"@[0] == 'D' && "DELTA"@[1] == 'E');
    assert("EPSILON"@.len() == 7 && "EPSILON"@[0] == 'E' && "EPSILON"@[1] == 'P');
    assert("ZETA"@.len() == 4 && "ZETA"@[0] == 'Z');
    assert("ETA"@.len() == 3 && "ETA"@[0] == 'E');
    assert("THETA"@.len() == 5 && "THETA"@[0] == 'T' && "THETA"@[1] == 'H');
    assert("IOTA"@.len() == 4 && "IOTA"@[0] == 'I');
    assert("KAPPA"@.len() == 5 && "KAPPA"@[0] == 'K');
    assert("LAMBDA"@.len() == 6 && "LAMBDA"@[0] == 'L' && "LAMBDA"@[1] == 'A');
    assert("MU"@.len() == 2 && "MU"@[0] == 'M');
    assert("NU"@.len() == 2 && "NU"@[0] == 'N');
    assert("XI"@.len() == 2 && "XI"@[0] == 'X' && "XI"@[1] == 'I');
    assert("OMICRON"@.len() == 7 && "OMICRON"@[0] == 'O');
    assert("PI"@.len() == 2 && "PI"@[0] == 'P' && "PI"@[1] == 'I');
    assert("RHO"@.len() == 3 && "RHO"@[0] == 'R');
    assert("SIGMA"@.len() == 5 && "SIGMA"@[0] == 'S' && "SIGMA"@[1] == 'I');
    assert("TAU"@.len() == 3 && "TAU"@[0] == 'T');
    assert("UPSILON"@.len() == 7 && "UPSILON"@[0] == 'U' && "UPSILON"@[1] == 'P');
    assert("PHI"@.len() == 3 && "PHI"@[0] == 'P' && "PHI"@[1] == 'H');
    assert("CHI"@.len() == 3 && "CHI"@[0] == 'C');
    assert("PSI"@.len() == 3 && "PSI"@[0] == 'P' && "PSI"@[1] == 'S');
    assert("OMEGA"@.len() == 5 && "OMEGA"@[0] == 'O' && "OMEGA"@[1] == 'M');
    assert("Gamma"@.len() == 5 && "Gamma"@[0] == 'G' && "Gamma"@[1] == 'a');
    assert("Delta"@.len() == 5 && "Delta"@[0] == 'D' && "Delta"@[1] == 'e');
    assert("Theta"@.len() == 5 && "Theta"@[0] == 'T' && "Theta"@[1] == 'h');
    assert("Lambda"@.len() == 6 && "Lambda"@[0] == 'L' && "Lambda"@[1] == 'a');
    assert("Xi"@.len() == 2 && "Xi"@[0] == 'X' && "Xi"@[1] == 'i');
    assert("Pi"@.len() == 2 && "Pi"@[0] == 'P' && "Pi"@[1] == 'i');
    assert("Sigma"@.len() == 5 && "Sigma"@[0] == 'S' && "Sigma"@[1] == 'i');
    assert("Upsilon"@.len() == 7 && "Upsilon"@[0] == 'U' && "Upsilon"@[1] == 'p');
    assert("Phi"@.len() == 3 && "Phi"@[0] == 'P' && "Phi"@[1] == 'h');
    assert("Psi"@.len() == 3 && "Psi"@[0] == 'P' && "Psi"@[1] == 's');
    assert("Omega"@.len() == 5 && "Omega"@[0] == 'O' && "Omega"@[1] == 'm');
}

proof fn lemma_no_arrow(u: Seq<char>)
    requires
        is_operator_name(u),
    ensures
        arrow(u) is None,
{
    reveal_strlit("SUM");
    reveal_strlit("PROD");
    reveal_strlit("COPROD");
    reveal_strlit("UNION");
    reveal_strlit("INTER");
    reveal_strlit("BIGCUP");
    reveal_strlit("BIGCAP");
    reveal_strlit("BIGVEE");
    reveal_strlit("BIGWEDGE");
    reveal_strlit("BIGOPLUS");
    reveal_strlit("BIGOTIMES");
    reveal_strlit("BIGODOT");
    reveal_strlit("BIGSQCUP");
    reveal_strlit("INT");
    reveal_strlit("INTEGRAL");
    reveal_strlit("SMALLINT");
    reveal_strlit("DINT");
    reveal_strlit("TINT");
    reveal_strlit("OINT");
    reveal_strlit("SMALLOINT");
    reveal_strlit("ODINT");
    reveal_strlit("OTINT");
    reveal_strlit("QUAD");
    reveal_strlit("QQUAD");
    reveal_strlit("THINSPACE");
    reveal_strlit("MEDSPACE");
    reveal_strlit("THICKSPACE");
    reveal_strlit("NEGSPACE");
    reveal_strlit("ENSPACE");
    reveal_strlit("rightarrow");
    reveal_strlit("leftarrow");
    reveal_strlit("uparrow");
    reveal_strlit("downarrow");
    reveal_strlit("leftrightarrow");
    reveal_strlit("Rightarrow");
    reveal_strlit("Leftarrow");
    reveal_strlit("Uparrow");
    reveal_strlit("Downarrow");
    reveal_strlit("Leftrightarrow");
    reveal_strlit("rarrow");
    reveal_strlit("larrow");
    reveal_strlit("lrarrow");
    reveal_strlit("udarrow");
    reveal_strlit("RARROW");
    reveal_strlit("LARROW");
    reveal_strlit("LRARROW");
    reveal_strlit("UPARROW");
    reveal_strlit("DOWNARROW");
    reveal_strlit("to");
    reveal_strlit("mapsto");
    reveal_strlit("implies");
    reveal_strlit("iff");
    assert("SUM"@.len() == 3 && "SUM"@[0] == 'S');
    assert("PROD"@.len() == 4 && "PROD"@[0] == 'P');
    assert("COPROD"@.len() == 6 && "COPROD"@[0] == 'C');
    assert("UNION"@.len() == 5 && "UNION"@[0] == 'U');
    assert("INTER"@.len() == 5 && "INTER"@[0] == 'I');
    assert("BIGCUP"@.len() == 6 && "BIGCUP"@[0] == 'B' && "BIGCUP"@[3] == 'C');
    assert("BIGCUP"@[4] == 'U');
    assert("BIGCAP"@.len() == 6 && "BIGCAP"@[0] == 'B' && "BIGCAP"@[3] == 'C');
    assert("BIGCAP"@[4] == 'A');
    assert("BIGVEE"@.len() == 6 && "BIGVEE"@[0] == 'B' && "BIGVEE"@[3] == 'V');
    assert("BIGWEDGE"@.len() == 8 && "BIGWEDGE"@[0] == 'B' && "BIGWEDGE"@[3] == 'W');
    assert("BIGOPLUS"@.len() == 8 && "BIGOPLUS"@[0] == 'B' && "BIGOPLUS"@[3] == 'O');
    assert("BIGOTIMES"@.len() == 9 && "BIGOTIMES"@[0] == 'B');
    assert("BIGODOT"@.len() == 7 && "BIGODOT"@[0] == 'B');
    assert("BIGSQCUP"@.len() == 8 && "BIGSQCUP"@[0] == 'B' && "BIGSQCUP"@[3] == 'S');
    assert("INT"@.len() == 3 && "INT"@[0] == 'I');
    assert("INTEGRAL"@.len() == 8 && "INTEGRAL"@[0] == 'I');
    assert("SMALLINT"@.len() == 8 && "SMALLINT"@[0] == 'S');
    assert("DINT"@.len() == 4 && "DINT"@[0] == 'D');
    assert("TINT"@.len() == 4 && "TINT"@[0] == 'T');
    assert("OINT"@.len() == 4 && "OINT"@[0] == 'O');
    assert("SMALLOINT"@.len() == 9 && "SMALLOINT"@[0] == 'S');
    assert("ODINT"@.len() == 5 && "ODINT"@[0] == 'O' && "ODINT"@[1] == 'D');
    assert("OTINT"@.len() == 5 && "OTINT"@[0] == 'O' && "OTINT"@[1] == 'T');
    assert("QUAD"@.len() == 4 && "QUAD"@[0] == 'Q');
    assert("QQUAD"@.len() == 5 && "QQUAD"@[0] == 'Q');
    assert("THINSPACE"@.len() == 9 && "THINSPACE"@[0] == 'T');
    assert("MEDSPACE"@.len() == 8 && "MEDSPACE"@[0] == 'M');
    assert("THICKSPACE"@.len() == 10 && "THICKSPACE"@[0] == 'T');
    assert("NEGSPACE"@.len() == 8 && "NEGSPACE"@[0] == 'N');
    assert("ENSPACE"@.len() == 7 && "ENSPACE"@[0] == 'E');
    assert("rightarrow"@.len() == 10 && "rightarrow"@[0] == 'r');
    assert("leftarrow"@.len() == 9 && "leftarrow"@[0] == 'l');
    assert("uparrow"@.len() == 7 && "uparrow"@[0] == 'u' && "uparrow"@[1] == 'p');
    assert("downarrow"@.len() == 9 && "downarrow"@[0] == 'd');
    assert("leftrightarrow"@.len() == 14 && "leftrightarrow"@[0] == 'l');
    assert("Rightarrow"@.len() == 10 && "Rightarrow"@[0] == 'R');
    assert("Leftarrow"@.len() == 9 && "Leftarrow"@[0] == 'L');
    assert("Uparrow"@.len() == 7 && "Uparrow"@[0] == 'U' && "Uparrow"@[1] == 'p');
    assert("Downarrow"@.len() == 9 && "Downarrow"@[0] == 'D');
    assert("Downarrow"@[1] == 'o');
    assert("Leftrightarrow"@.len() == 14 && "Leftrightarrow"@[0] == 'L');
    assert("rarrow"@.len() == 6 && "rarrow"@[0] == 'r');
    assert("larrow"@.len() == 6 && "larrow"@[0] == 'l');
    assert("lrarrow"@.len() == 7 && "lrarrow"@[0] == 'l');
    assert("udarrow"@.len() == 7 && "udarrow"@[0] == 'u' && "udarrow"@[1] == 'd');
    assert("RARROW"@.len() == 6 && "RARROW"@[0] == 'R');
    assert("LARROW"@.len() == 6 && "LARROW"@[0] == 'L');
    assert("LRARROW"@.len() == 7 && "LRARROW"@[0] == 'L');
    assert("UPARROW"@.len() == 7 && "UPARROW"@[0] == 'U' && "UPARROW"@[1] == 'P');
    assert("DOWNARROW"@.len() == 9 && "DOWNARROW"@[0] == 'D');
    assert("DOWNARROW"@[1] == 'O');
    assert("to"@.len() == 2);
    assert("mapsto"@.len() == 6 && "mapsto"@[0] == 'm');
    assert("implies"@.len() == 7 && "implies"@[0] == 'i');
    assert("iff"@.len() == 3 && "iff"@[0] == 'i');
}

proof fn lemma_no_relation(u: Seq<char>)
    requires
        is_operator_name(u),
    ensures
        relation(u) is None,
{
    reveal_strlit("SUM");
    reveal_strlit("PROD");
    reveal_strlit("COPROD");
    reveal_strlit("UNION");
    reveal_strlit("INTER");
    reveal_strlit("BIGCUP");
    reveal_strlit("BIGCAP");
    reveal_strlit("BIGVEE");
    reveal_strlit("BIGWEDGE");
    reveal_strlit("BIGOPLUS");
    reveal_strlit("BIGOTIMES");
    reveal_strlit("BIGODOT");
    reveal_strlit("BIGSQCUP");
    reveal_strlit("INT");
    reveal_strlit("INTEGRAL");
    reveal_strlit("SMALLINT");
    reveal_strlit("DINT");
    reveal_strlit("TINT");
    reveal_strlit("OINT");
    reveal_strlit("SMALLOINT");
    reveal_strlit("ODINT");
    reveal_strlit("OTINT");
    reveal_strlit("QUAD");
    reveal_strlit("QQUAD");
    reveal_strlit("THINSPACE");
    reveal_strlit("MEDSPACE");
    reveal_strlit("THICKSPACE");
    reveal_strlit("NEGSPACE");
    reveal_strlit("ENSPACE");
    reveal_strlit("LEQ");
    reveal_strlit("LE");
    reveal_strlit("GEQ");
    reveal_strlit("GE");
    reveal_strlit("NEQ");
    reveal_strlit("NE");
    reveal_strlit("EQUIV");
    reveal_strlit("APPROX");
    reveal_strlit("SIM");
    reveal_strlit("SIMEQ");
    reveal_strlit("CONG");
    reveal_strlit("PROPTO");
    reveal_strlit("ASYMP");
    reveal_strlit("DOTEQ");
    reveal_strlit("PREC");
    reveal_strlit("SUCC");
    reveal_strlit("LL");
    reveal_strlit("GG");
    reveal_strlit("IN");
    reveal_strlit("NOTIN");
    reveal_strlit("NI");
    reveal_strlit("OWNS");
    reveal_strlit("SUBSET");
    reveal_strlit("SUPSET");
    reveal_strlit("SUBSETEQ");
    reveal_strlit("SUPSETEQ");
    reveal_strlit("PERP");
    reveal_strlit("BOT");
    reveal_strlit("PARALLEL");
    reveal_strlit("MID");
    reveal_strlit("VDASH");
    reveal_strlit("DASHV");
    reveal_strlit("MODELS");
    assert("SUM"@.len() == 3 && "SUM"@[0] == 'S' && "SUM"@[1] == 'U');
    assert("PROD"@.len() == 4 && "PROD"@[0] == 'P' && "PROD"@[1] == 'R');
    assert("PROD"@[2] == 'O');
    assert("COPROD"@.len() == 6 && "COPROD"@[0] == 'C');
    assert("UNION"@.len() == 5 && "UNION"@[0] == 'U');
    assert("INTER"@.len() == 5 && "INTER"@[0] == 'I');
    assert("BIGCUP"@.len() == 6 && "BIGCUP"@[0] == 'B' && "BIGCUP"@[3] == 'C');
    assert("BIGCUP"@[4] == 'U');
    assert("BIGCAP"@.len() == 6 && "BIGCAP"@[0] == 'B' && "BIGCAP"@[3] == 'C');
    assert("BIGCAP"@[4] == 'A');
    assert("BIGVEE"@.len() == 6 && "BIGVEE"@[0] == 'B' && "BIGVEE"@[3] == 'V');
    assert("BIGWEDGE"@.len() == 8 && "BIGWEDGE"@[0] == 'B' && "BIGWEDGE"@[3] == 'W');
    assert("BIGOPLUS"@.len() == 8 && "BIGOPLUS"@[0] == 'B' && "BIGOPLUS"@[3] == 'O');
    assert("BIGOTIMES"@.len() == 9 && "BIGOTIMES"@[0] == 'B');
    assert("BIGODOT"@.len() == 7 && "BIGODOT"@[0] == 'B');
    assert("BIGSQCUP"@.len() == 8 && "BIGSQCUP"@[0] == 'B' && "BIGSQCUP"@[3] == 'S');
    assert("INT"@.len() == 3 && "INT"@[0] == 'I');
    assert("INTEGRAL"@.len() == 8 && "INTEGRAL"@[0] == 'I');
    assert("SMALLINT"@.len() == 8 && "SMALLINT"@[0] == 'S' && "SMALLINT"@[1] == 'M');
    assert("DINT"@.len() == 4 && "DINT"@[0] == 'D');
    assert("TINT"@.len() == 4 && "TINT"@[0] == 'T');
    assert("OINT"@.len() == 4 && "OINT"@[0] == 'O' && "OINT"@[1] == 'I');
    assert("SMALLOINT"@.len() == 9 && "SMALLOINT"@[0] == 'S');
    assert("ODINT"@.len() == 5 && "ODINT"@[0] == 'O' && "ODINT"@[1] == 'D');
    assert("OTINT"@.len() == 5 && "OTINT"@[0] == 'O' && "OTINT"@[1] == 'T');
    assert("QUAD"@.len() == 4 && "QUAD"@[0] == 'Q');
    assert("QQUAD"@.len() == 5 && "QQUAD"@[0] == 'Q');
    assert("THINSPACE"@.len() == 9 && "THINSPACE"@[0] == 'T');
    assert("MEDSPACE"@.len() == 8 && "MEDSPACE"@[0] == 'M');
    assert("THICKSPACE"@.len() == 10);
    assert("NEGSPACE"@.len() == 8 && "NEGSPACE"@[0] == 'N');
    assert("ENSPACE"@.len() == 7 && "ENSPACE"@[0] == 'E');
    assert("LEQ"@.len() == 3 && "LEQ"@[0] == 'L');
    assert("LE"@.len() == 2 && "LE"@[0] == 'L' && "LE"@[1] == 'E');
    assert("GEQ"@.len() == 3 && "GEQ"@[0] == 'G');
    assert("GE"@.len() == 2 && "GE"@[0] == 'G' && "GE"@[1] == 'E');
    assert("NEQ"@.len() == 3 && "NEQ"@[0] == 'N');
    assert("NE"@.len() == 2 && "NE"@[0] == 'N' && "NE"@[1] == 'E');
    assert("EQUIV"@.len() == 5 && "EQUIV"@[0] == 'E');
    assert("APPROX"@.len() == 6 && "APPROX"@[0] == 'A');
    assert("SIM"@.len() == 3 && "SIM"@[0] == 'S' && "SIM"@[1] == 'I');
    assert("SIMEQ"@.len() == 5 && "SIMEQ"@[0] == 'S');
    assert("CONG"@.len() == 4 && "CONG"@[0] == 'C');
    assert("PROPTO"@.len() == 6 && "PROPTO"@[0] == 'P');
    assert("ASYMP"@.len() == 5 && "ASYMP"@[0] == 'A');
    assert("DOTEQ"@.len() == 5 && "DOTEQ"@[0] == 'D' && "DOTEQ"@[1] == 'O');
    assert("PREC"@.len() == 4 && "PREC"@[0] == 'P' && "PREC"@[1] == 'R');
    assert("PREC"@[2] == 'E');
    assert("SUCC"@.len() == 4 && "SUCC"@[0] == 'S');
    assert("LL"@.len() == 2 && "LL"@[0] == 'L' && "LL"@[1] == 'L');
    assert("GG"@.len() == 2 && "GG"@[0] == 'G' && "GG"@[1] == 'G');
    assert("IN"@.len() == 2 && "IN"@[0] == 'I');
    assert("NOTIN"@.len() == 5 && "NOTIN"@[0] == 'N');
    assert("NI"@.len() == 2 && "NI"@[0] == 'N' && "NI"@[1] == 'I');
    assert("OWNS"@.len() == 4 && "OWNS"@[0] == 'O' && "OWNS"@[1] == 'W');
    assert("SUBSET"@.len() == 6 && "SUBSET"@[0] == 'S' && "SUBSET"@[2] == 'B');
    assert("SUPSET"@.len() == 6 && "SUPSET"@[0] == 'S' && "SUPSET"@[2] == 'P');
    assert("SUBSETEQ"@.len() == 8 && "SUBSETEQ"@[0] == 'S' && "SUBSETEQ"@[1] == 'U');
    assert("SUBSETEQ"@[2] == 'B');
    assert("SUPSETEQ"@.len() == 8 && "SUPSETEQ"@[0] == 'S' && "SUPSETEQ"@[1] == 'U');
    assert("SUPSETEQ"@[2] == 'P');
    assert("PERP"@.len() == 4 && "PERP"@[0] == 'P' && "PERP"@[1] == 'E');
    assert("BOT"@.len() == 3 && "BOT"@[0] == 'B');
    assert("PARALLEL"@.len() == 8 && "PARALLEL"@[0] == 'P');
    assert("MID"@.len() == 3 && "MID"@[0] == 'M');
    assert("VDASH"@.len() == 5 && "VDASH"@[0] == 'V');
    assert("DASHV"@.len() == 5 && "DASHV"@[0] == 'D' && "DASHV"@[1] == 'A');
    assert("MODELS"@.len() == 6 && "MODELS"@[0] == 'M');
}

proof fn lemma_no_operation(u: Seq<char>)
    requires
        is_operator_name(u),
    ensures
        operation(u) is None,
{
    reveal_strlit("SUM");
    reveal_strlit("PROD");
    reveal_strlit("COPROD");
    reveal_strlit("UNION");
    reveal_strlit("INTER");
    reveal_strlit("BIGCUP");
    reveal_strlit("BIGCAP");
    reveal_strlit("BIGVEE");
    reveal_strlit("BIGWEDGE");
    reveal_strlit("BIGOPLUS");
    reveal_strlit("BIGOTIMES");
    reveal_strlit("BIGODOT");
    reveal_strlit("BIGSQCUP");
    reveal_strlit("INT");
    reveal_strlit("INTEGRAL");
    reveal_strlit("SMALLINT");
    reveal_strlit("DINT");
    reveal_strlit("TINT");
    reveal_strlit("OINT");
    reveal_strlit("SMALLOINT");
    reveal_strlit("ODINT");
    reveal_strlit("OTINT");
    reveal_strlit("QUAD");
    reveal_strlit("QQUAD");
    reveal_strlit("THINSPACE");
    reveal_strlit("MEDSPACE");
    reveal_strlit("THICKSPACE");
    reveal_strlit("NEGSPACE");
    reveal_strlit("ENSPACE");
    reveal_strlit("TIMES");
    reveal_strlit("DIV");
    reveal_strlit("CDOT");
    reveal_strlit("PM");
    reveal_strlit("PLUSMINUS");
    reveal_strlit("MP");
    reveal_strlit("MINUSPLUS");
    reveal_strlit("AST");
    reveal_strlit("STAR");
    reveal_strlit("CIRC");
    reveal_strlit("BULLET");
    reveal_strlit("CUP");
    reveal_strlit("CAP");
    reveal_strlit("SETMINUS");
    reveal_strlit("WEDGE");
    reveal_strlit("LAND");
    reveal_strlit("VEE");
    reveal_strlit("LOR");
    reveal_strlit("LNOT");
    reveal_strlit("OPLUS");
    reveal_strlit("OMINUS");
    reveal_strlit("OTIMES");
    reveal_strlit("ODOT");
    reveal_strlit("DAGGER");
    reveal_strlit("DDAGGER");
    assert("SUM"@.len() == 3 && "SUM"@[0] == 'S');
    assert("PROD"@.len() == 4 && "PROD"@[0] == 'P');
    assert("COPROD"@.len() == 6 && "COPROD"@[0] == 'C');
    assert("UNION"@.len() == 5 && "UNION"@[0] == 'U');
    assert("INTER"@.len() == 5 && "INTER"@[0] == 'I');
    assert("BIGCUP"@.len() == 6 && "BIGCUP"@[0] == 'B' && "BIGCUP"@[1] == 'I');
    assert("BIGCUP"@[3] == 'C' && "BIGCUP"@[4] == 'U');
    assert("BIGCAP"@.len() == 6 && "BIGCAP"@[0] == 'B' && "BIGCAP"@[1] == 'I');
    assert("BIGCAP"@[3] == 'C' && "BIGCAP"@[4] == 'A');
    assert("BIGVEE"@.len() == 6 && "BIGVEE"@[0] == 'B' && "BIGVEE"@[1] == 'I');
    assert("BIGVEE"@[3] == 'V');
    assert("BIGWEDGE"@.len() == 8 && "BIGWEDGE"@[0] == 'B' && "BIGWEDGE"@[3] == 'W');
    assert("BIGOPLUS"@.len() == 8 && "BIGOPLUS"@[0] == 'B' && "BIGOPLUS"@[3] == 'O');
    assert("BIGOTIMES"@.len() == 9 && "BIGOTIMES"@[0] == 'B');
    assert("BIGODOT"@.len() == 7 && "BIGODOT"@[0] == 'B');
    assert("BIGSQCUP"@.len() == 8 && "BIGSQCUP"@[0] == 'B' && "BIGSQCUP"@[3] == 'S');
    assert("INT"@.len() == 3 && "INT"@[0] == 'I');
    assert("INTEGRAL"@.len() == 8 && "INTEGRAL"@[0] == 'I');
    assert("SMALLINT"@.len() == 8 && "SMALLINT"@[0] == 'S' && "SMALLINT"@[1] == 'M');
    assert("DINT"@.len() == 4 && "DINT"@[0] == 'D');
    assert("TINT"@.len() == 4 && "TINT"@[0] == 'T');
    assert("OINT"@.len() == 4 && "OINT"@[0] == 'O' && "OINT"@[1] == 'I');
    assert("SMALLOINT"@.len() == 9 && "SMALLOINT"@[0] == 'S');
    assert("ODINT"@.len() == 5 && "ODINT"@[0] == 'O' && "ODINT"@[1] == 'D');
    assert("OTINT"@.len() == 5 && "OTINT"@[0] == 'O' && "OTINT"@[1] == 'T');
    assert("QUAD"@.len() == 4 && "QUAD"@[0] == 'Q');
    assert("QQUAD"@.len() == 5 && "QQUAD"@[0] == 'Q');
    assert("THINSPACE"@.len() == 9 && "THINSPACE"@[0] == 'T');
    assert("MEDSPACE"@.len() == 8 && "MEDSPACE"@[0] == 'M');
    assert("THICKSPACE"@.len() == 10);
    assert("NEGSPACE"@.len() == 8 && "NEGSPACE"@[0] == 'N');
    assert("ENSPACE"@.len() == 7 && "ENSPACE"@[0] == 'E');
    assert("TIMES"@.len() == 5 && "TIMES"@[0] == 'T');
    assert("DIV"@.len() == 3 && "DIV"@[0] == 'D');
    assert("CDOT"@.len() == 4 && "CDOT"@[0] == 'C' && "CDOT"@[1] == 'D');
    assert("PM"@.len() == 2 && "PM"@[0] == 'P');
    assert("PLUSMINUS"@.len() == 9 && "PLUSMINUS"@[0] == 'P');
    assert("MP"@.len() == 2 && "MP"@[0] == 'M');
    assert("MINUSPLUS"@.len() == 9 && "MINUSPLUS"@[0] == 'M');
    assert("AST"@.len() == 3 && "AST"@[0] == 'A');
    assert("STAR"@.len() == 4 && "STAR"@[0] == 'S');
    assert("CIRC"@.len() == 4 && "CIRC"@[0] == 'C' && "CIRC"@[1] == 'I');
    assert("BULLET"@.len() == 6 && "BULLET"@[0] == 'B' && "BULLET"@[1] == 'U');
    assert("CUP"@.len() == 3 && "CUP"@[0] == 'C' && "CUP"@[1] == 'U');
    assert("CAP"@.len() == 3 && "CAP"@[0] == 'C' && "CAP"@[1] == 'A');
    assert("SETMINUS"@.len() == 8 && "SETMINUS"@[0] == 'S' && "SETMINUS"@[1] == 'E');
    assert("WEDGE"@.len() == 5 && "WEDGE"@[0] == 'W');
    assert("LAND"@.len() == 4 && "LAND"@[0] == 'L' && "LAND"@[1] == 'A');
    assert("VEE"@.len() == 3 && "VEE"@[0] == 'V');
    assert("LOR"@.len() == 3 && "LOR"@[0] == 'L');
    assert("LNOT"@.len() == 4 && "LNOT"@[0] == 'L' && "LNOT"@[1] == 'N');
    assert("OPLUS"@.len() == 5 && "OPLUS"@[0] == 'O' && "OPLUS"@[1] == 'P');
    assert("OMINUS"@.len() == 6 && "OMINUS"@[0] == 'O' && "OMINUS"@[1] == 'M');
    assert("OTIMES"@.len() == 6 && "OTIMES"@[0] == 'O' && "OTIMES"@[1] == 'T');
    assert("ODOT"@.len() == 4 && "ODOT"@[0] == 'O' && "ODOT"@[1] == 'D');
    assert("DAGGER"@.len() == 6 && "DAGGER"@[0] == 'D');
    assert("DDAGGER"@.len() == 7 && "DDAGGER"@[0] == 'D');
}

proof fn lemma_no_sign(u: Seq<char>)
    requires
        is_operator_name(u),
    ensures
        sign(u) is None,
{
    reveal_strlit("SUM");
    reveal_strlit("PROD");
    reveal_strlit("COPROD");
    reveal_strlit("UNION");
    reveal_strlit("INTER");
    reveal_strlit("BIGCUP");
    reveal_strlit("BIGCAP");
    reveal_strlit("BIGVEE");
    reveal_strlit("BIGWEDGE");
    reveal_strlit("BIGOPLUS");
    reveal_strlit("BIGOTIMES");
    reveal_strlit("BIGODOT");
    reveal_strlit("BIGSQCUP");
    reveal_strlit("INT");
    reveal_strlit("INTEGRAL");
    reveal_strlit("SMALLINT");
    reveal_strlit("DINT");
    reveal_strlit("TINT");
    reveal_strlit("OINT");
    reveal_strlit("SMALLOINT");
    reveal_strlit("ODINT");
    reveal_strlit("OTINT");
    reveal_strlit("QUAD");
    reveal_strlit("QQUAD");
    reveal_strlit("THINSPACE");
    reveal_strlit("MEDSPACE");
    reveal_strlit("THICKSPACE");
    reveal_strlit("NEGSPACE");
    reveal_strlit("ENSPACE");
    reveal_strlit("INF");
    reveal_strlit("INFTY");
    reveal_strlit("PARTIAL");
    reveal_strlit("NABLA");
    reveal_strlit("FORALL");
    reveal_strlit("EXIST");
    reveal_strlit("EXISTS");
    reveal_strlit("EMPTYSET");
    reveal_strlit("DEG");
    reveal_strlit("PRIME");
    reveal_strlit("ANGLE");
    reveal_strlit("TRIANGLE");
    reveal_strlit("THEREFORE");
    reveal_strlit("BECAUSE");
    reveal_strlit("CDOTS");
    reveal_strlit("LDOTS");
    reveal_strlit("DOTS");
    reveal_strlit("VDOTS");
    reveal_strlit("DDOTS");
    reveal_strlit("HBAR");
    reveal_strlit("ELL");
    reveal_strlit("ALEPH");
    reveal_strlit("REIMAGE");
    reveal_strlit("IMAGE");
    reveal_strlit("WP");
    reveal_strlit("LANGLE");
    reveal_strlit("RANGLE");
    reveal_strlit("LBRACE");
    reveal_strlit("RBRACE");
    reveal_strlit("LCEIL");
    reveal_strlit("RCEIL");
    reveal_strlit("LFLOOR");
    reveal_strlit("RFLOOR");
    reveal_strlit("VERT");
    assert("SUM"@.len() == 3 && "SUM"@[0] == 'S');
    assert("PROD"@.len() == 4 && "PROD"@[0] == 'P');
    assert("COPROD"@.len() == 6 && "COPROD"@[0] == 'C');
    assert("UNION"@.len() == 5 && "UNION"@[0] == 'U');
    assert("INTER"@.len() == 5 && "INTER"@[0] == 'I' && "INTER"@[1] == 'N');
    assert("INTER"@[2] == 'T');
    assert("BIGCUP"@.len() == 6 && "BIGCUP"@[0] == 'B' && "BIGCUP"@[3] == 'C');
    assert("BIGCUP"@[4] == 'U');
    assert("BIGCAP"@.len() == 6 && "BIGCAP"@[0] == 'B' && "BIGCAP"@[3] == 'C');
    assert("BIGCAP"@[4] == 'A');
    assert("BIGVEE"@.len() == 6 && "BIGVEE"@[0] == 'B' && "BIGVEE"@[3] == 'V');
    assert("BIGWEDGE"@.len() == 8 && "BIGWEDGE"@[0] == 'B' && "BIGWEDGE"@[3] == 'W');
    assert("BIGOPLUS"@.len() == 8 && "BIGOPLUS"@[0] == 'B' && "BIGOPLUS"@[3] == 'O');
    assert("BIGOTIMES"@.len() == 9 && "BIGOTIMES"@[0] == 'B');
    assert("BIGODOT"@.len() == 7 && "BIGODOT"@[0] == 'B' && "BIGODOT"@[1] == 'I');
    assert("BIGSQCUP"@.len() == 8 && "BIGSQCUP"@[0] == 'B' && "BIGSQCUP"@[3] == 'S');
    assert("INT"@.len() == 3 && "INT"@[0] == 'I' && "INT"@[2] == 'T');
    assert("INTEGRAL"@.len() == 8 && "INTEGRAL"@[0] == 'I');
    assert("SMALLINT"@.len() == 8 && "SMALLINT"@[0] == 'S');
    assert("DINT"@.len() == 4 && "DINT"@[0] == 'D' && "DINT"@[1] == 'I');
    assert("TINT"@.len() == 4 && "TINT"@[0] == 'T');
    assert("OINT"@.len() == 4 && "OINT"@[0] == 'O');
    assert("SMALLOINT"@.len() == 9 && "SMALLOINT"@[0] == 'S');
    assert("ODINT"@.len() == 5 && "ODINT"@[0] == 'O' && "ODINT"@[1] == 'D');
    assert("OTINT"@.len() == 5 && "OTINT"@[0] == 'O' && "OTINT"@[1] == 'T');
    assert("QUAD"@.len() == 4 && "QUAD"@[0] == 'Q');
    assert("QQUAD"@.len() == 5 && "QQUAD"@[0] == 'Q');
    assert("THINSPACE"@.len() == 9 && "THINSPACE"@[0] == 'T');
    assert("THINSPACE"@[2] == 'I');
    assert("MEDSPACE"@.len() == 8 && "MEDSPACE"@[0] == 'M');
    assert("THICKSPACE"@.len() == 10);
    assert("NEGSPACE"@.len() == 8 && "NEGSPACE"@[0] == 'N');
    assert("ENSPACE"@.len() == 7 && "ENSPACE"@[0] == 'E');
    assert("INF"@.len() == 3 && "INF"@[0] == 'I' && "INF"@[2] == 'F');
    assert("INFTY"@.len() == 5 && "INFTY"@[0] == 'I' && "INFTY"@[1] == 'N');
    assert("INFTY"@[2] == 'F');
    assert("PARTIAL"@.len() == 7 && "PARTIAL"@[0] == 'P');
    assert("NABLA"@.len() == 5 && "NABLA"@[0] == 'N');
    assert("FORALL"@.len() == 6 && "FORALL"@[0] == 'F');
    assert("EXIST"@.len() == 5 && "EXIST"@[0] == 'E');
    assert("EXISTS"@.len() == 6 && "EXISTS"@[0] == 'E');
    assert("EMPTYSET"@.len() == 8 && "EMPTYSET"@[0] == 'E');
    assert("DEG"@.len() == 3 && "DEG"@[0] == 'D');
    assert("PRIME"@.len() == 5 && "PRIME"@[0] == 'P');
    assert("ANGLE"@.len() == 5 && "ANGLE"@[0] == 'A' && "ANGLE"@[1] == 'N');
    assert("TRIANGLE"@.len() == 8 && "TRIANGLE"@[0] == 'T');
    assert("THEREFORE"@.len() == 9 && "THEREFORE"@[0] == 'T');
    assert("THEREFORE"@[2] == 'E');
    assert("BECAUSE"@.len() == 7 && "BECAUSE"@[0] == 'B' && "BECAUSE"@[1] == 'E');
    assert("CDOTS"@.len() == 5 && "CDOTS"@[0] == 'C');
    assert("LDOTS"@.len() == 5 && "LDOTS"@[0] == 'L' && "LDOTS"@[1] == 'D');
    assert("DOTS"@.len() == 4 && "DOTS"@[0] == 'D' && "DOTS"@[1] == 'O');
    assert("VDOTS"@.len() == 5 && "VDOTS"@[0] == 'V');
    assert("DDOTS"@.len() == 5 && "DDOTS"@[0] == 'D');
    assert("HBAR"@.len() == 4 && "HBAR"@[0] == 'H');
    assert("ELL"@.len() == 3 && "ELL"@[0] == 'E');
    assert("ALEPH"@.len() == 5 && "ALEPH"@[0] == 'A' && "ALEPH"@[1] == 'L');
    assert("REIMAGE"@.len() == 7 && "REIMAGE"@[0] == 'R');
    assert("IMAGE"@.len() == 5 && "IMAGE"@[0] == 'I' && "IMAGE"@[1] == 'M');
    assert("WP"@.len() == 2);
    assert("LANGLE"@.len() == 6 && "LANGLE"@[0] == 'L' && "LANGLE"@[1] == 'A');
    assert("RANGLE"@.len() == 6 && "RANGLE"@[0] == 'R' && "RANGLE"@[1] == 'A');
    assert("LBRACE"@.len() == 6 && "LBRACE"@[0] == 'L' && "LBRACE"@[1] == 'B');
    assert("RBRACE"@.len() == 6 && "RBRACE"@[0] == 'R' && "RBRACE"@[1] == 'B');
    assert("LCEIL"@.len() == 5 && "LCEIL"@[0] == 'L' && "LCEIL"@[1] == 'C');
    assert("RCEIL"@.len() == 5 && "RCEIL"@[0] == 'R');
    assert("LFLOOR"@.len() == 6 && "LFLOOR"@[0] == 'L' && "LFLOOR"@[1] == 'F');
    assert("RFLOOR"@.len() == 6 && "RFLOOR"@[0] == 'R' && "RFLOOR"@[1] == 'F');
    assert("VERT"@.len() == 4 && "VERT"@[0] == 'V');
}

proof fn lemma_operator_tables_apart(u: Seq<char>)
    ensures
        big_operation(u) is Some ==> integral(u) is None && spacing(u) is None,
        integral(u) is Some ==> big_operation(u) is None && spacing(u) is None,
        spacing(u) is Some ==> big_operation(u) is None && integral(u) is None,
{
    reveal_strlit("SUM");
    reveal_strlit("PROD");
    reveal_strlit("COPROD");
    reveal_strlit("UNION");
    reveal_strlit("INTER");
    reveal_strlit("BIGCUP");
    reveal_strlit("BIGCAP");
    reveal_strlit("BIGVEE");
    reveal_strlit("BIGWEDGE");
    reveal_strlit("BIGOPLUS");
    reveal_strlit("BIGOTIMES");
    reveal_strlit("BIGODOT");
    reveal_strlit("BIGSQCUP");
    reveal_strlit("INT");
    reveal_strlit("INTEGRAL");
    reveal_strlit("SMALLINT");
    reveal_strlit("DINT");
    reveal_strlit("TINT");
    reveal_strlit("OINT");
    reveal_strlit("SMALLOINT");
    reveal_strlit("ODINT");
    reveal_strlit("OTINT");
    reveal_strlit("QUAD");
    reveal_strlit("QQUAD");
    reveal_strlit("THINSPACE");
    reveal_strlit("MEDSPACE");
    reveal_strlit("THICKSPACE");
    reveal_strlit("NEGSPACE");
    reveal_strlit("ENSPACE");
    assert("SUM"@.len() == 3 && "SUM"@[0] == 'S');
    assert("PROD"@.len() == 4 && "PROD"@[0] == 'P');
    assert("COPROD"@.len() == 6 && "COPROD"@[0] == 'C');
    assert("UNION"@.len() == 5 && "UNION"@[0] == 'U');
    assert("INTER"@.len() == 5 && "INTER"@[0] == 'I');
    assert("BIGCUP"@.len() == 6 && "BIGCUP"@[0] == 'B' && "BIGCUP"@[3] == 'C');
    assert("BIGCUP"@[4] == 'U');
    assert("BIGCAP"@.len() == 6 && "BIGCAP"@[0] == 'B' && "BIGCAP"@[3] == 'C');
    assert("BIGCAP"@[4] == 'A');
    assert("BIGVEE"@.len() == 6 && "BIGVEE"@[0] == 'B' && "BIGVEE"@[3] == 'V');
    assert("BIGWEDGE"@.len() == 8 && "BIGWEDGE"@[0] == 'B' && "BIGWEDGE"@[3] == 'W');
    assert("BIGOPLUS"@.len() == 8 && "BIGOPLUS"@[0] == 'B' && "BIGOPLUS"@[3] == 'O');
    assert("BIGOTIMES"@.len() == 9 && "BIGOTIMES"@[0] == 'B');
    assert("BIGODOT"@.len() == 7 && "BIGODOT"@[0] == 'B');
    assert("BIGSQCUP"@.len() == 8 && "BIGSQCUP"@[0] == 'B' && "BIGSQCUP"@[3] == 'S');
    assert("INT"@.len() == 3 && "INT"@[0] == 'I');
    assert("INTEGRAL"@.len() == 8 && "INTEGRAL"@[0] == 'I');
    assert("SMALLINT"@.len() == 8 && "SMALLINT"@[0] == 'S');
    assert("DINT"@.len() == 4 && "DINT"@[0] == 'D');
    assert("TINT"@.len() == 4 && "TINT"@[0] == 'T');
    assert("OINT"@.len() == 4 && "OINT"@[0] == 'O');
    assert("SMALLOINT"@.len() == 9 && "SMALLOINT"@[0] == 'S');
    assert("ODINT"@.len() == 5 && "ODINT"@[0] == 'O' && "ODINT"@[1] == 'D');
    assert("OTINT"@.len() == 5 && "OTINT"@[0] == 'O' && "OTINT"@[1] == 'T');
    assert("QUAD"@.len() == 4 && "QUAD"@[0] == 'Q');
    assert("QQUAD"@.len() == 5 && "QQUAD"@[0] == 'Q');
    assert("THINSPACE"@.len() == 9 && "THINSPACE"@[0] == 'T');
    assert("MEDSPACE"@.len() == 8 && "MEDSPACE"@[0] == 'M');
    assert("THICKSPACE"@.len() == 10);
    assert("NEGSPACE"@.len() == 8 && "NEGSPACE"@[0] == 'N');
    assert("ENSPACE"@.len() == 7 && "ENSPACE"@[0] == 'E');
}

proof fn lemma_operator_names_in_capitals(u: Seq<char>)
    requires
        is_operator_name(u),
    ensures
        upper(u) == u,
{
    reveal_strlit("SUM");
    reveal_strlit("PROD");
    reveal_strlit("COPROD");
    reveal_strlit("UNION");
    reveal_strlit("INTER");
    reveal_strlit("BIGCUP");
    reveal_strlit("BIGCAP");
    reveal_strlit("BIGVEE");
    reveal_strlit("BIGWEDGE");
    reveal_strlit("BIGOPLUS");
    reveal_strlit("BIGOTIMES");
    reveal_strlit("BIGODOT");
    reveal_strlit("BIGSQCUP");
    reveal_strlit("INT");
    reveal_strlit("INTEGRAL");
    reveal_strlit("SMALLINT");
    reveal_strlit("DINT");
    reveal_strlit("TINT");
    reveal_strlit("OINT");
    reveal_strlit("SMALLOINT");
    reveal_strlit("ODINT");
    reveal_strlit("OTINT");
    reveal_strlit("QUAD");
    reveal_strlit("QQUAD");
    reveal_strlit("THINSPACE");
    reveal_strlit("MEDSPACE");
    reveal_strlit("THICKSPACE");
    reveal_strlit("NEGSPACE");
    reveal_strlit("ENSPACE");
    assert(upper(u) =~= u);
}

/// Whether a name in capitals is that of a big operator, an integral or a space.
pub open spec fn is_operator_name(u: Seq<char>) -> bool {
    big_operation(u) is Some || integral(u) is Some || spacing(u) is Some
}

/// The names of big operators, integrals and spaces name nothing else.
pub proof fn law_operator_signs(u: Seq<char>)
    ensures
        big_operation(u) is Some ==> symbol(u) == big_operation(u),
        integral(u) is Some ==> symbol(u) == integral(u),
        spacing(u) is Some ==> symbol(u) == spacing(u),
{
    if is_operator_name(u) {
        reveal(symbol);
        lemma_no_greek_small(u);
        lemma_no_greek_capital(u);
        lemma_no_arrow(u);
        lemma_no_relation(u);
        lemma_no_operation(u);
        lemma_no_sign(u);
        lemma_operator_tables_apart(u);
        lemma_operator_names_in_capitals(u);
    }
}

/// The relation signs.
proof fn lemma_relation_values(u: Seq<char>)
    ensures
        u == "LEQ"@ ==> relation(u) == Some("≤"@),
        u == "LE"@ ==> relation(u) == Some("≤"@),
        u == "GEQ"@ ==> relation(u) == Some("≥"@),
        u == "GE"@ ==> relation(u) == Some("≥"@),
        u == "NEQ"@ ==> relation(u) == Some("≠"@),
        u == "NE"@ ==> relation(u) == Some("≠"@),
        u == "EQUIV"@ ==> relation(u) == Some("≡"@),
        u == "APPROX"@ ==> relation(u) == Some("≈"@),
        u == "SIM"@ ==> relation(u) == Some("∼"@),
        u == "SIMEQ"@ ==> relation(u) == Some("≃"@),
        u == "CONG"@ ==> relation(u) == Some("≅"@),
        u == "PROPTO"@ ==> relation(u) == Some("∝"@),
        u == "ASYMP"@ ==> relation(u) == Some("≍"@),
        u == "DOTEQ"@ ==> relation(u) == Some("≐"@),
        u == "PREC"@ ==> relation(u) == Some("≺"@),
        u == "SUCC"@ ==> relation(u) == Some("≻"@),
        u == "LL"@ ==> relation(u) == Some("≪"@),
        u == "GG"@ ==> relation(u) == Some("≫"@),
        u == "IN"@ ==> relation(u) == Some("∈"@),
        u == "NOTIN"@ ==> relation(u) == Some("∉"@),
        u == "NI"@ ==> relation(u) == Some("∋"@),
        u == "OWNS"@ ==> relation(u) == Some("∋"@),
        u == "SUBSET"@ ==> relation(u) == Some("⊂"@),
        u == "SUPSET"@ ==> relation(u) == Some("⊃"@),
        u == "SUBSETEQ"@ ==> relation(u) == Some("⊆"@),
        u == "SUPSETEQ"@ ==> relation(u) == Some("⊇"@),
        u == "PERP"@ ==> relation(u) == Some("⊥"@),
        u == "BOT"@ ==> relation(u) == Some("⊥"@),
        u == "PARALLEL"@ ==> relation(u) == Some("∥"@),
        u == "MID"@ ==> relation(u) == Some("∣"@),
        u == "VDASH"@ ==> relation(u) == Some("⊢"@),
        u == "DASHV"@ ==> relation(u) == Some("⊣"@),
        u == "MODELS"@ ==> relation(u) == Some("⊨"@),
{
    reveal_strlit("LEQ");
    reveal_strlit("LE");
    reveal_strlit("GEQ");
    reveal_strlit("GE");
    reveal_strlit("NEQ");
    reveal_strlit("NE");
    reveal_strlit("EQUIV");
    reveal_strlit("APPROX");
    reveal_strlit("SIM");
    reveal_strlit("SIMEQ");
    reveal_strlit("CONG");
    reveal_strlit("PROPTO");
    reveal_strlit("ASYMP");
    reveal_strlit("DOTEQ");
    reveal_strlit("PREC");
    reveal_strlit("SUCC");
    reveal_strlit("LL");
    reveal_strlit("GG");
    reveal_strlit("IN");
    reveal_strlit("NOTIN");
    reveal_strlit("NI");
    reveal_strlit("OWNS");
    reveal_strlit("SUBSET");
    reveal_strlit("SUPSET");
    reveal_strlit("SUBSETEQ");
    reveal_strlit("SUPSETEQ");
    reveal_strlit("PERP");
    reveal_strlit("BOT");
    reveal_strlit("PARALLEL");
    reveal_strlit("MID");
    reveal_strlit("VDASH");
    reveal_strlit("DASHV");
    reveal_strlit("MODELS");
    assert("LEQ"@.len() == 3 && "LEQ"@[0] == 'L');
    assert("LE"@.len() == 2 && "LE"@[0] == 'L' && "LE"@[1] == 'E');
    assert("GEQ"@.len() == 3 && "GEQ"@[0] == 'G');
    assert("GE"@.len() == 2 && "GE"@[0] == 'G' && "GE"@[1] == 'E');
    assert("NEQ"@.len() == 3 && "NEQ"@[0] == 'N');
    assert("NE"@.len() == 2 && "NE"@[0] == 'N' && "NE"@[1] == 'E');
    assert("EQUIV"@.len() == 5 && "EQUIV"@[0] == 'E');
    assert("APPROX"@.len() == 6 && "APPROX"@[0] == 'A');
    assert("SIM"@.len() == 3 && "SIM"@[0] == 'S');
    assert("SIMEQ"@.len() == 5 && "SIMEQ"@[0] == 'S');
    assert("CONG"@.len() == 4 && "CONG"@[0] == 'C');
    assert("PROPTO"@.len() == 6 && "PROPTO"@[0] == 'P');
    assert("ASYMP"@.len() == 5 && "ASYMP"@[0] == 'A');
    assert("DOTEQ"@.len() == 5 && "DOTEQ"@[0] == 'D' && "DOTEQ"@[1] == 'O');
    assert("PREC"@.len() == 4 && "PREC"@[0] == 'P' && "PREC"@[1] == 'R');
    assert("SUCC"@.len() == 4 && "SUCC"@[0] == 'S');
    assert("LL"@.len() == 2 && "LL"@[0] == 'L' && "LL"@[1] == 'L');
    assert("GG"@.len() == 2 && "GG"@[0] == 'G' && "GG"@[1] == 'G');
    assert("IN"@.len() == 2 && "IN"@[0] == 'I');
    assert("NOTIN"@.len() == 5 && "NOTIN"@[0] == 'N');
    assert("NI"@.len() == 2 && "NI"@[0] == 'N' && "NI"@[1] == 'I');
    assert("OWNS"@.len() == 4 && "OWNS"@[0] == 'O');
    assert("SUBSET"@.len() == 6 && "SUBSET"@[0] == 'S' && "SUBSET"@[2] == 'B');
    assert("SUPSET"@.len() == 6 && "SUPSET"@[0] == 'S' && "SUPSET"@[2] == 'P');
    assert("SUBSETEQ"@.len() == 8 && "SUBSETEQ"@[0] == 'S' && "SUBSETEQ"@[2] == 'B');
    assert("SUPSETEQ"@.len() == 8 && "SUPSETEQ"@[0] == 'S' && "SUPSETEQ"@[2] == 'P');
    assert("PERP"@.len() == 4 && "PERP"@[0] == 'P' && "PERP"@[1] == 'E');
    assert("BOT"@.len() == 3 && "BOT"@[0] == 'B');
    assert("PARALLEL"@.len() == 8 && "PARALLEL"@[0] == 'P');
    assert("MID"@.len() == 3 && "MID"@[0] == 'M');
    assert("VDASH"@.len() == 5 && "VDASH"@[0] == 'V');
    assert("DASHV"@.len() == 5 && "DASHV"@[0] == 'D' && "DASHV"@[1] == 'A');
    assert("MODELS"@.len() == 6 && "MODELS"@[0] == 'M');
}

/// Names of relation signs, the second that of the counterpart of the first.
pub open spec fn relation_next(u: Seq<char>, v: Seq<char>) -> bool {
    ||| u == "LEQ"@ && v == "GEQ"@
    ||| u == "LE"@ && v == "GE"@
    ||| u == "SUBSET"@ && v == "SUPSET"@
    ||| u == "SUBSETEQ"@ && v == "SUPSETEQ"@
    ||| u == "PREC"@ && v == "SUCC"@
    ||| u == "LL"@ && v == "GG"@
    ||| u == "VDASH"@ && v == "DASHV"@
    ||| u == "IN"@ && v == "NOTIN"@
}

/// Names of relation signs that name the same.
pub open spec fn relation_same(u: Seq<char>, v: Seq<char>) -> bool {
    ||| u == "LEQ"@ && v == "LE"@
    ||| u == "GEQ"@ && v == "GE"@
    ||| u == "NEQ"@ && v == "NE"@
    ||| u == "NI"@ && v == "OWNS"@
    ||| u == "PERP"@ && v == "BOT"@
}

/// Counterparts stand next to each other, and names that name the same name one sign.
pub proof fn law_relation_counterparts(u: Seq<char>, v: Seq<char>)
    ensures
        relation_next(u, v) ==> {
            &&& relation(u) is Some && relation(u)->0.len() == 1
            &&& relation(v) is Some && relation(v)->0.len() == 1
            &&& relation(v)->0[0] as int == relation(u)->0[0] as int + 1
        },
        relation_same(u, v) ==> relation(u) is Some && relation(v) == relation(u),
{
    lemma_relation_values(u);
    lemma_relation_values(v);
    reveal_strlit("∈");
    reveal_strlit("∉");
    reveal_strlit("≤");
    reveal_strlit("≥");
    reveal_strlit("≪");
    reveal_strlit("≫");
    reveal_strlit("≺");
    reveal_strlit("≻");
    reveal_strlit("⊂");
    reveal_strlit("⊃");
    reveal_strlit("⊆");
    reveal_strlit("⊇");
    reveal_strlit("⊢");
    reveal_strlit("⊣");
}

/// The signs of binary operations.
proof fn lemma_operation_values(u: Seq<char>)
    ensures
        u == "TIMES"@ ==> operation(u) == Some("×"@),
        u == "DIV"@ ==> operation(u) == Some("÷"@),
        u == "CDOT"@ ==> operation(u) == Some("·"@),
        u == "PM"@ ==> operation(u) == Some("±"@),
        u == "PLUSMINUS"@ ==> operation(u) == Some("±"@),
        u == "MP"@ ==> operation(u) == Some("∓"@),
        u == "MINUSPLUS"@ ==> operation(u) == Some("∓"@),
        u == "AST"@ ==> operation(u) == Some("∗"@),
        u == "STAR"@ ==> operation(u) == Some("⋆"@),
        u == "CIRC"@ ==> operation(u) == Some("∘"@),
        u == "BULLET"@ ==> operation(u) == Some("∙"@),
        u == "CUP"@ ==> operation(u) == Some("∪"@),
        u == "CAP"@ ==> operation(u) == Some("∩"@),
        u == "SETMINUS"@ ==> operation(u) == Some("∖"@),
        u == "WEDGE"@ ==> operation(u) == Some("∧"@),
        u == "LAND"@ ==> operation(u) == Some("∧"@),
        u == "VEE"@ ==> operation(u) == Some("∨"@),
        u == "LOR"@ ==> operation(u) == Some("∨"@),
        u == "LNOT"@ ==> operation(u) == Some("¬"@),
        u == "OPLUS"@ ==> operation(u) == Some("⊕"@),
        u == "OMINUS"@ ==> operation(u) == Some("⊖"@),
        u == "OTIMES"@ ==> operation(u) == Some("⊗"@),
        u == "ODOT"@ ==> operation(u) == Some("⊙"@),
        u == "DAGGER"@ ==> operation(u) == Some("†"@),
        u == "DDAGGER"@ ==> operation(u) == Some("‡"@),
{
    reveal_strlit("TIMES");
    reveal_strlit("DIV");
    reveal_strlit("CDOT");
    reveal_strlit("PM");
    reveal_strlit("PLUSMINUS");
    reveal_strlit("MP");
    reveal_strlit("MINUSPLUS");
    reveal_strlit("AST");
    reveal_strlit("STAR");
    reveal_strlit("CIRC");
    reveal_strlit("BULLET");
    reveal_strlit("CUP");
    reveal_strlit("CAP");
    reveal_strlit("SETMINUS");
    reveal_strlit("WEDGE");
    reveal_strlit("LAND");
    reveal_strlit("VEE");
    reveal_strlit("LOR");
    reveal_strlit("LNOT");
    reveal_strlit("OPLUS");
    reveal_strlit("OMINUS");
    reveal_strlit("OTIMES");
    reveal_strlit("ODOT");
    reveal_strlit("DAGGER");
    reveal_strlit("DDAGGER");
    assert("TIMES"@.len() == 5 && "TIMES"@[0] == 'T');
    assert("DIV"@.len() == 3 && "DIV"@[0] == 'D');
    assert("CDOT"@.len() == 4 && "CDOT"@[0] == 'C' && "CDOT"@[1] == 'D');
    assert("PM"@.len() == 2 && "PM"@[0] == 'P');
    assert("PLUSMINUS"@.len() == 9 && "PLUSMINUS"@[0] == 'P');
    assert("MP"@.len() == 2 && "MP"@[0] == 'M');
    assert("MINUSPLUS"@.len() == 9 && "MINUSPLUS"@[0] == 'M');
    assert("AST"@.len() == 3 && "AST"@[0] == 'A');
    assert("STAR"@.len() == 4 && "STAR"@[0] == 'S');
    assert("CIRC"@.len() == 4 && "CIRC"@[0] == 'C' && "CIRC"@[1] == 'I');
    assert("BULLET"@.len() == 6 && "BULLET"@[0] == 'B');
    assert("CUP"@.len() == 3 && "CUP"@[0] == 'C' && "CUP"@[1] == 'U');
    assert("CAP"@.len() == 3 && "CAP"@[0] == 'C' && "CAP"@[1] == 'A');
    assert("SETMINUS"@.len() == 8);
    assert("WEDGE"@.len() == 5 && "WEDGE"@[0] == 'W');
    assert("LAND"@.len() == 4 && "LAND"@[0] == 'L' && "LAND"@[1] == 'A');
    assert("VEE"@.len() == 3 && "VEE"@[0] == 'V');
    assert("LOR"@.len() == 3 && "LOR"@[0] == 'L');
    assert("LNOT"@.len() == 4 && "LNOT"@[0] == 'L' && "LNOT"@[1] == 'N');
    assert("OPLUS"@.len() == 5 && "OPLUS"@[0] == 'O');
    assert("OMINUS"@.len() == 6 && "OMINUS"@[0] == 'O' && "OMINUS"@[1] == 'M');
    assert("OTIMES"@.len() == 6 && "OTIMES"@[0] == 'O' && "OTIMES"@[1] == 'T');
    assert("ODOT"@.len() == 4 && "ODOT"@[0] == 'O');
    assert("DAGGER"@.len() == 6 && "DAGGER"@[0] == 'D');
    assert("DDAGGER"@.len() == 7);
}

/// Names of signs of binary operations, the second that of the counterpart of the first.
pub open spec fn operation_next(u: Seq<char>, v: Seq<char>) -> bool {
    ||| u == "WEDGE"@ && v == "VEE"@
    ||| u == "LAND"@ && v == "LOR"@
    ||| u == "CAP"@ && v == "CUP"@
    ||| u == "OPLUS"@ && v == "OMINUS"@
    ||| u == "OMINUS"@ && v == "OTIMES"@
    ||| u == "DAGGER"@ && v == "DDAGGER"@
}

/// Names of signs of binary operations that name the same.
pub open spec fn operation_same(u: Seq<char>, v: Seq<char>) -> bool {
    ||| u == "PM"@ && v == "PLUSMINUS"@
    ||| u == "MP"@ && v == "MINUSPLUS"@
    ||| u == "WEDGE"@ && v == "LAND"@
    ||| u == "VEE"@ && v == "LOR"@
}

/// Counterparts stand next to each other, and names that name the same name one sign.
pub proof fn law_operation_counterparts(u: Seq<char>, v: Seq<char>)
    ensures
        operation_next(u, v) ==> {
            &&& operation(u) is Some && operation(u)->0.len() == 1
            &&& operation(v) is Some && operation(v)->0.len() == 1
            &&& operation(v)->0[0] as int == operation(u)->0[0] as int + 1
        },
        operation_same(u, v) ==> operation(u) is Some && operation(v) == operation(u),
{
    lemma_operation_values(u);
    lemma_operation_values(v);
    reveal_strlit("†");
    reveal_strlit("‡");
    reveal_strlit("∧");
    reveal_strlit("∨");
    reveal_strlit("∩");
    reveal_strlit("∪");
    reveal_strlit("⊕");
    reveal_strlit("⊖");
    reveal_strlit("⊗");
}

/// The letter-like signs and fences.
proof fn lemma_sign_values(u: Seq<char>)
    ensures
        u == "INF"@ ==> sign(u) == Some("∞"@),
        u == "INFTY"@ ==> sign(u) == Some("∞"@),
        u == "PARTIAL"@ ==> sign(u) == Some("∂"@),
        u == "NABLA"@ ==> sign(u) == Some("∇"@),
        u == "FORALL"@ ==> sign(u) == Some("∀"@),
        u == "EXIST"@ ==> sign(u) == Some("∃"@),
        u == "EXISTS"@ ==> sign(u) == Some("∃"@),
        u == "EMPTYSET"@ ==> sign(u) == Some("∅"@),
        u == "DEG"@ ==> sign(u) == Some("°"@),
        u == "PRIME"@ ==> sign(u) == Some("′"@),
        u == "ANGLE"@ ==> sign(u) == Some("∠"@),
        u == "TRIANGLE"@ ==> sign(u) == Some("△"@),
        u == "THEREFORE"@ ==> sign(u) == Some("∴"@),
        u == "BECAUSE"@ ==> sign(u) == Some("∵"@),
        u == "CDOTS"@ ==> sign(u) == Some("⋯"@),
        u == "LDOTS"@ ==> sign(u) == Some("…"@),
        u == "DOTS"@ ==> sign(u) == Some("…"@),
        u == "VDOTS"@ ==> sign(u) == Some("⋮"@),
        u == "DDOTS"@ ==> sign(u) == Some("⋱"@),
        u == "HBAR"@ ==> sign(u) == Some("ℏ"@),
        u == "ELL"@ ==> sign(u) == Some("ℓ"@),
        u == "ALEPH"@ ==> sign(u) == Some("ℵ"@),
        u == "REIMAGE"@ ==> sign(u) == Some("ℜ"@),
        u == "IMAGE"@ ==> sign(u) == Some("ℑ"@),
        u == "WP"@ ==> sign(u) == Some("℘"@),
        u == "LANGLE"@ ==> sign(u) == Some("⟨"@),
        u == "RANGLE"@ ==> sign(u) == Some("⟩"@),
        u == "LBRACE"@ ==> sign(u) == Some("{"@),
        u == "RBRACE"@ ==> sign(u) == Some("}"@),
        u == "LCEIL"@ ==> sign(u) == Some("⌈"@),
        u == "RCEIL"@ ==> sign(u) == Some("⌉"@),
        u == "LFLOOR"@ ==> sign(u) == Some("⌊"@),
        u == "RFLOOR"@ ==> sign(u) == Some("⌋"@),
        u == "VERT"@ ==> sign(u) == Some("|"@),
{
    reveal_strlit("INF");
    reveal_strlit("INFTY");
    reveal_strlit("PARTIAL");
    reveal_strlit("NABLA");
    reveal_strlit("FORALL");
    reveal_strlit("EXIST");
    reveal_strlit("EXISTS");
    reveal_strlit("EMPTYSET");
    reveal_strlit("DEG");
    reveal_strlit("PRIME");
    reveal_strlit("ANGLE");
    reveal_strlit("TRIANGLE");
    reveal_strlit("THEREFORE");
    reveal_strlit("BECAUSE");
    reveal_strlit("CDOTS");
    reveal_strlit("LDOTS");
    reveal_strlit("DOTS");
    reveal_strlit("VDOTS");
    reveal_strlit("DDOTS");
    reveal_strlit("HBAR");
    reveal_strlit("ELL");
    reveal_strlit("ALEPH");
    reveal_strlit("REIMAGE");
    reveal_strlit("IMAGE");
    reveal_strlit("WP");
    reveal_strlit("LANGLE");
    reveal_strlit("RANGLE");
    reveal_strlit("LBRACE");
    reveal_strlit("RBRACE");
    reveal_strlit("LCEIL");
    reveal_strlit("RCEIL");
    reveal_strlit("LFLOOR");
    reveal_strlit("RFLOOR");
    reveal_strlit("VERT");
    assert("INF"@.len() == 3 && "INF"@[0] == 'I');
    assert("INFTY"@.len() == 5 && "INFTY"@[0] == 'I' && "INFTY"@[1] == 'N');
    assert("PARTIAL"@.len() == 7 && "PARTIAL"@[0] == 'P');
    assert("NABLA"@.len() == 5 && "NABLA"@[0] == 'N');
    assert("FORALL"@.len() == 6 && "FORALL"@[0] == 'F');
    assert("EXIST"@.len() == 5 && "EXIST"@[0] == 'E');
    assert("EXISTS"@.len() == 6 && "EXISTS"@[0] == 'E');
    assert("EMPTYSET"@.len() == 8 && "EMPTYSET"@[0] == 'E');
    assert("DEG"@.len() == 3 && "DEG"@[0] == 'D');
    assert("PRIME"@.len() == 5 && "PRIME"@[0] == 'P');
    assert("ANGLE"@.len() == 5 && "ANGLE"@[0] == 'A' && "ANGLE"@[1] == 'N');
    assert("TRIANGLE"@.len() == 8 && "TRIANGLE"@[0] == 'T');
    assert("THEREFORE"@.len() == 9);
    assert("BECAUSE"@.len() == 7 && "BECAUSE"@[0] == 'B');
    assert("CDOTS"@.len() == 5 && "CDOTS"@[0] == 'C');
    assert("LDOTS"@.len() == 5 && "LDOTS"@[0] == 'L' && "LDOTS"@[1] == 'D');
    assert("DOTS"@.len() == 4 && "DOTS"@[0] == 'D');
    assert("VDOTS"@.len() == 5 && "VDOTS"@[0] == 'V');
    assert("DDOTS"@.len() == 5 && "DDOTS"@[0] == 'D');
    assert("HBAR"@.len() == 4 && "HBAR"@[0] == 'H');
    assert("ELL"@.len() == 3 && "ELL"@[0] == 'E');
    assert("ALEPH"@.len() == 5 && "ALEPH"@[0] == 'A' && "ALEPH"@[1] == 'L');
    assert("REIMAGE"@.len() == 7 && "REIMAGE"@[0] == 'R');
    assert("IMAGE"@.len() == 5 && "IMAGE"@[0] == 'I' && "IMAGE"@[1] == 'M');
    assert("WP"@.len() == 2);
    assert("LANGLE"@.len() == 6 && "LANGLE"@[0] == 'L' && "LANGLE"@[1] == 'A');
    assert("RANGLE"@.len() == 6 && "RANGLE"@[0] == 'R' && "RANGLE"@[1] == 'A');
    assert("LBRACE"@.len() == 6 && "LBRACE"@[0] == 'L' && "LBRACE"@[1] == 'B');
    assert("RBRACE"@.len() == 6 && "RBRACE"@[0] == 'R' && "RBRACE"@[1] == 'B');
    assert("LCEIL"@.len() == 5 && "LCEIL"@[0] == 'L' && "LCEIL"@[1] == 'C');
    assert("RCEIL"@.len() == 5 && "RCEIL"@[0] == 'R');
    assert("LFLOOR"@.len() == 6 && "LFLOOR"@[0] == 'L' && "LFLOOR"@[1] == 'F');
    assert("RFLOOR"@.len() == 6 && "RFLOOR"@[0] == 'R' && "RFLOOR"@[1] == 'F');
    assert("VERT"@.len() == 4 && "VERT"@[0] == 'V');
}

/// Names of letter-like signs and fences, the second that of the counterpart of the first.
pub open spec fn sign_next(u: Seq<char>, v: Seq<char>) -> bool {
    ||| u == "LANGLE"@ && v == "RANGLE"@
    ||| u == "LCEIL"@ && v == "RCEIL"@
    ||| u == "LFLOOR"@ && v == "RFLOOR"@
}

/// Names of letter-like signs and fences that name the same.
pub open spec fn sign_same(u: Seq<char>, v: Seq<char>) -> bool {
    ||| u == "INF"@ && v == "INFTY"@
    ||| u == "EXIST"@ && v == "EXISTS"@
    ||| u == "LDOTS"@ && v == "DOTS"@
}

/// Counterparts stand next to each other, and names that name the same name one sign.
pub proof fn law_sign_counterparts(u: Seq<char>, v: Seq<char>)
    ensures
        sign_next(u, v) ==> {
            &&& sign(u) is Some && sign(u)->0.len() == 1
            &&& sign(v) is Some && sign(v)->0.len() == 1
            &&& sign(v)->0[0] as int == sign(u)->0[0] as int + 1
        },
        sign_same(u, v) ==> sign(u) is Some && sign(v) == sign(u),
{
    lemma_sign_values(u);
    lemma_sign_values(v);
    reveal_strlit("⌈");
    reveal_strlit("⌉");
    reveal_strlit("⌊");
    reveal_strlit("⌋");
    reveal_strlit("⟨");
    reveal_strlit("⟩");
}

/// The big operators.
proof fn lemma_big_operation_values(u: Seq<char>)
    ensures
        u == "SUM"@ ==> big_operation(u) == Some("∑"@),
        u == "PROD"@ ==> big_operation(u) == Some("∏"@),
        u == "COPROD"@ ==> big_operation(u) == Some("∐"@),
        u == "UNION"@ ==> big_operation(u) == Some("⋃"@),
        u == "INTER"@ ==> big_operation(u) == Some("⋂"@),
        u == "BIGCUP"@ ==> big_operation(u) == Some("⋃"@),
        u == "BIGCAP"@ ==> big_operation(u) == Some("⋂"@),
        u == "BIGVEE"@ ==> big_operation(u) == Some("⋁"@),
        u == "BIGWEDGE"@ ==> big_operation(u) == Some("⋀"@),
        u == "BIGOPLUS"@ ==> big_operation(u) == Some("⨁"@),
        u == "BIGOTIMES"@ ==> big_operation(u) == Some("⨂"@),
        u == "BIGODOT"@ ==> big_operation(u) == Some("⨀"@),
        u == "BIGSQCUP"@ ==> big_operation(u) == Some("⨆"@),
{
    reveal_strlit("SUM");
    reveal_strlit("PROD");
    reveal_strlit("COPROD");
    reveal_strlit("UNION");
    reveal_strlit("INTER");
    reveal_strlit("BIGCUP");
    reveal_strlit("BIGCAP");
    reveal_strlit("BIGVEE");
    reveal_strlit("BIGWEDGE");
    reveal_strlit("BIGOPLUS");
    reveal_strlit("BIGOTIMES");
    reveal_strlit("BIGODOT");
    reveal_strlit("BIGSQCUP");
    assert("SUM"@.len() == 3);
    assert("PROD"@.len() == 4);
    assert("COPROD"@.len() == 6 && "COPROD"@[0] == 'C');
    assert("UNION"@.len() == 5 && "UNION"@[0] == 'U');
    assert("INTER"@.len() == 5 && "INTER"@[0] == 'I');
    assert("BIGCUP"@.len() == 6 && "BIGCUP"@[0] == 'B' && "BIGCUP"@[3] == 'C');
    assert("BIGCUP"@[4] == 'U');
    assert("BIGCAP"@.len() == 6 && "BIGCAP"@[0] == 'B' && "BIGCAP"@[3] == 'C');
    assert("BIGCAP"@[4] == 'A');
    assert("BIGVEE"@.len() == 6 && "BIGVEE"@[0] == 'B' && "BIGVEE"@[3] == 'V');
    assert("BIGWEDGE"@.len() == 8 && "BIGWEDGE"@[3] == 'W');
    assert("BIGOPLUS"@.len() == 8 && "BIGOPLUS"@[3] == 'O');
    assert("BIGOTIMES"@.len() == 9);
    assert("BIGODOT"@.len() == 7);
    assert("BIGSQCUP"@.len() == 8 && "BIGSQCUP"@[3] == 'S');
}

/// Names of big operators, the second that of the counterpart of the first.
pub open spec fn big_operation_next(u: Seq<char>, v: Seq<char>) -> bool {
    ||| u == "BIGWEDGE"@ && v == "BIGVEE"@
    ||| u == "BIGCAP"@ && v == "BIGCUP"@
    ||| u == "INTER"@ && v == "UNION"@
    ||| u == "BIGODOT"@ && v == "BIGOPLUS"@
    ||| u == "BIGOPLUS"@ && v == "BIGOTIMES"@
    ||| u == "PROD"@ && v == "COPROD"@
    ||| u == "COPROD"@ && v == "SUM"@
}

/// Names of big operators that name the same.
pub open spec fn big_operation_same(u: Seq<char>, v: Seq<char>) -> bool {
    ||| u == "UNION"@ && v == "BIGCUP"@
    ||| u == "INTER"@ && v == "BIGCAP"@
}

/// Counterparts stand next to each other, and names that name the same name one sign.
pub proof fn law_big_operation_counterparts(u: Seq<char>, v: Seq<char>)
    ensures
        big_operation_next(u, v) ==> {
            &&& big_operation(u) is Some && big_operation(u)->0.len() == 1
            &&& big_operation(v) is Some && big_operation(v)->0.len() == 1
            &&& big_operation(v)->0[0] as int == big_operation(u)->0[0] as int + 1
        },
        big_operation_same(u, v) ==> big_operation(u) is Some && big_operation(v) == big_operation(
            u,
        ),
{
    lemma_big_operation_values(u);
    lemma_big_operation_values(v);
    reveal_strlit("∏");
    reveal_strlit("∐");
    reveal_strlit("∑");
    reveal_strlit("⋀");
    reveal_strlit("⋁");
    reveal_strlit("⋂");
    reveal_strlit("⋃");
    reveal_strlit("⨀");
    reveal_strlit("⨁");
    reveal_strlit("⨂");
}

/// The integrals.
proof fn lemma_integral_values(u: Seq<char>)
    ensures
        u == "INT"@ ==> integral(u) == Some("∫"@),
        u == "INTEGRAL"@ ==> integral(u) == Some("∫"@),
        u == "SMALLINT"@ ==> integral(u) == Some("∫"@),
        u == "DINT"@ ==> integral(u) == Some("∬"@),
        u == "TINT"@ ==> integral(u) == Some("∭"@),
        u == "OINT"@ ==> integral(u) == Some("∮"@),
        u == "SMALLOINT"@ ==> integral(u) == Some("∮"@),
        u == "ODINT"@ ==> integral(u) == Some("∯"@),
        u == "OTINT"@ ==> integral(u) == Some("∰"@),
{
    reveal_strlit("INT");
    reveal_strlit("INTEGRAL");
    reveal_strlit("SMALLINT");
    reveal_strlit("DINT");
    reveal_strlit("TINT");
    reveal_strlit("OINT");
    reveal_strlit("SMALLOINT");
    reveal_strlit("ODINT");
    reveal_strlit("OTINT");
    assert("INT"@.len() == 3);
    assert("INTEGRAL"@.len() == 8 && "INTEGRAL"@[0] == 'I');
    assert("SMALLINT"@.len() == 8 && "SMALLINT"@[0] == 'S');
    assert("DINT"@.len() == 4 && "DINT"@[0] == 'D');
    assert("TINT"@.len() == 4 && "TINT"@[0] == 'T');
    assert("OINT"@.len() == 4 && "OINT"@[0] == 'O');
    assert("SMALLOINT"@.len() == 9);
    assert("ODINT"@.len() == 5 && "ODINT"@[1] == 'D');
    assert("OTINT"@.len() == 5 && "OTINT"@[1] == 'T');
}

/// Names of integrals, the second that of the counterpart of the first.
pub open spec fn integral_next(u: Seq<char>, v: Seq<char>) -> bool {
    ||| u == "INT"@ && v == "DINT"@
    ||| u == "DINT"@ && v == "TINT"@
    ||| u == "OINT"@ && v == "ODINT"@
    ||| u == "ODINT"@ && v == "OTINT"@
}

/// Names of integrals that name the same.
pub open spec fn integral_same(u: Seq<char>, v: Seq<char>) -> bool {
    ||| u == "INT"@ && v == "INTEGRAL"@
    ||| u == "INT"@ && v == "SMALLINT"@
    ||| u == "OINT"@ && v == "SMALLOINT"@
}

/// Counterparts stand next to each other, and names that name the same name one sign.
pub proof fn law_integral_counterparts(u: Seq<char>, v: Seq<char>)
    ensures
        integral_next(u, v) ==> {
            &&& integral(u) is Some && integral(u)->0.len() == 1
            &&& integral(v) is Some && integral(v)->0.len() == 1
            &&& integral(v)->0[0] as int == integral(u)->0[0] as int + 1
        },
        integral_same(u, v) ==> integral(u) is Some && integral(v) == integral(u),
{
    lemma_integral_values(u);
    lemma_integral_values(v);
    reveal_strlit("∫");
    reveal_strlit("∬");
    reveal_strlit("∭");
    reveal_strlit("∮");
    reveal_strlit("∯");
    reveal_strlit("∰");
}

/// The marks.
proof fn lemma_marks(u: Seq<char>)
    ensures
        u == "hat"@ ==> decoration(u) == Some(DecoKind::Hat),
        u == "check"@ ==> decoration(u) == Some(DecoKind::Check),
        u == "tilde"@ ==> decoration(u) == Some(DecoKind::Tilde),
        u == "acute"@ ==> decoration(u) == Some(DecoKind::Acute),
        u == "grave"@ ==> decoration(u) == Some(DecoKind::Grave),
        u == "dot"@ ==> decoration(u) == Some(DecoKind::Dot),
        u == "ddot"@ ==> decoration(u) == Some(DecoKind::DDot),
        u == "bar"@ ==> decoration(u) == Some(DecoKind::Bar),
        u == "vec"@ ==> decoration(u) == Some(DecoKind::Vec),
        u == "dyad"@ ==> decoration(u) == Some(DecoKind::Dyad),
        u == "under"@ ==> decoration(u) == Some(DecoKind::Under),
        u == "arch"@ ==> decoration(u) == Some(DecoKind::Arch),
        u == "overline"@ ==> decoration(u) == Some(DecoKind::Overline),
        u == "underline"@ ==> decoration(u) == Some(DecoKind::Underline),
        u == "not"@ ==> decoration(u) == Some(DecoKind::StrikeThrough),
        u == "widehat"@ ==> decoration(u) == Some(DecoKind::Hat),
        u == "widetilde"@ ==> decoration(u) == Some(DecoKind::Tilde),
        u == "overrightarrow"@ ==> decoration(u) == Some(DecoKind::Vec),
        u == "HAT"@ ==> decoration(u) == Some(DecoKind::Hat),
        u == "CHECK"@ ==> decoration(u) == Some(DecoKind::Check),
        u == "TILDE"@ ==> decoration(u) == Some(DecoKind::Tilde),
        u == "ACUTE"@ ==> decoration(u) == Some(DecoKind::Acute),
        u == "GRAVE"@ ==> decoration(u) == Some(DecoKind::Grave),
        u == "DOT"@ ==> decoration(u) == Some(DecoKind::Dot),
        u == "DDOT"@ ==> decoration(u) == Some(DecoKind::DDot),
        u == "BAR"@ ==> decoration(u) == Some(DecoKind::Bar),
        u == "VEC"@ ==> decoration(u) == Some(DecoKind::Vec),
        u == "DYAD"@ ==> decoration(u) == Some(DecoKind::Dyad),
        u == "UNDER"@ ==> decoration(u) == Some(DecoKind::Under),
        u == "ARCH"@ ==> decoration(u) == Some(DecoKind::Arch),
        u == "OVERLINE"@ ==> decoration(u) == Some(DecoKind::Overline),
        u == "UNDERLINE"@ ==> decoration(u) == Some(DecoKind::Underline),
        u == "NOT"@ ==> decoration(u) == Some(DecoKind::StrikeThrough),
{
    reveal_strlit("hat");
    reveal_strlit("check");
    reveal_strlit("tilde");
    reveal_strlit("acute");
    reveal_strlit("grave");
    reveal_strlit("dot");
    reveal_strlit("ddot");
    reveal_strlit("bar");
    reveal_strlit("vec");
    reveal_strlit("dyad");
    reveal_strlit("under");
    reveal_strlit("arch");
    reveal_strlit("overline");
    reveal_strlit("underline");
    reveal_strlit("not");
    reveal_strlit("widehat");
    reveal_strlit("widetilde");
    reveal_strlit("overrightarrow");
    reveal_strlit("HAT");
    reveal_strlit("CHECK");
    reveal_strlit("TILDE");
    reveal_strlit("ACUTE");
    reveal_strlit("GRAVE");
    reveal_strlit("DOT");
    reveal_strlit("DDOT");
    reveal_strlit("BAR");
    reveal_strlit("VEC");
    reveal_strlit("DYAD");
    reveal_strlit("UNDER");
    reveal_strlit("ARCH");
    reveal_strlit("OVERLINE");
    reveal_strlit("UNDERLINE");
    reveal_strlit("NOT");
    assert("hat"@.len() == 3 && "hat"@[0] == 'h');
    assert("check"@.len() == 5 && "check"@[0] == 'c');
    assert("tilde"@.len() == 5 && "tilde"@[0] == 't');
    assert("acute"@.len() == 5 && "acute"@[0] == 'a');
    assert("grave"@.len() == 5 && "grave"@[0] == 'g');
    assert("dot"@.len() == 3 && "dot"@[0] == 'd');
    assert("ddot"@.len() == 4 && "ddot"@[0] == 'd' && "ddot"@[1] == 'd');
    assert("bar"@.len() == 3 && "bar"@[0] == 'b');
    assert("vec"@.len() == 3 && "vec"@[0] == 'v');
    assert("dyad"@.len() == 4 && "dyad"@[0] == 'd' && "dyad"@[1] == 'y');
    assert("under"@.len() == 5 && "under"@[0] == 'u');
    assert("arch"@.len() == 4 && "arch"@[0] == 'a');
    assert("overline"@.len() == 8 && "overline"@[0] == 'o');
    assert("underline"@.len() == 9 && "underline"@[0] == 'u');
    assert("not"@.len() == 3 && "not"@[0] == 'n');
    assert("widehat"@.len() == 7);
    assert("widetilde"@.len() == 9 && "widetilde"@[0] == 'w');
    assert("overrightarrow"@.len() == 14);
    assert("HAT"@.len() == 3 && "HAT"@[0] == 'H');
    assert("CHECK"@.len() == 5 && "CHECK"@[0] == 'C');
    assert("TILDE"@.len() == 5 && "TILDE"@[0] == 'T');
    assert("ACUTE"@.len() == 5 && "ACUTE"@[0] == 'A');
    assert("GRAVE"@.len() == 5 && "GRAVE"@[0] == 'G');
    assert("DOT"@.len() == 3 && "DOT"@[0] == 'D');
    assert("DDOT"@.len() == 4 && "DDOT"@[0] == 'D' && "DDOT"@[1] == 'D');
    assert("BAR"@.len() == 3 && "BAR"@[0] == 'B');
    assert("VEC"@.len() == 3 && "VEC"@[0] == 'V');
    assert("DYAD"@.len() == 4 && "DYAD"@[0] == 'D' && "DYAD"@[1] == 'Y');
    assert("UNDER"@.len() == 5 && "UNDER"@[0] == 'U');
    assert("ARCH"@.len() == 4 && "ARCH"@[0] == 'A');
    assert("OVERLINE"@.len() == 8 && "OVERLINE"@[0] == 'O');
    assert("UNDERLINE"@.len() == 9 && "UNDERLINE"@[0] == 'U');
    assert("NOT"@.len() == 3 && "NOT"@[0] == 'N');
}

/// The type faces.
proof fn lemma_faces(u: Seq<char>)
    ensures
        u == "rm"@ ==> font_style(u) == Some(FontStyleKind::Roman),
        u == "it"@ ==> font_style(u) == Some(FontStyleKind::Italic),
        u == "bold"@ ==> font_style(u) == Some(FontStyleKind::Bold),
        u == "mathrm"@ ==> font_style(u) == Some(FontStyleKind::Roman),
        u == "mathit"@ ==> font_style(u) == Some(FontStyleKind::Italic),
        u == "mathbf"@ ==> font_style(u) == Some(FontStyleKind::Bold),
        u == "mathbb"@ ==> font_style(u) == Some(FontStyleKind::Blackboard),
        u == "mathcal"@ ==> font_style(u) == Some(FontStyleKind::Calligraphy),
        u == "mathfrak"@ ==> font_style(u) == Some(FontStyleKind::Fraktur),
        u == "mathsf"@ ==> font_style(u) == Some(FontStyleKind::SansSerif),
        u == "mathtt"@ ==> font_style(u) == Some(FontStyleKind::Monospace),
        u == "RM"@ ==> font_style(u) == Some(FontStyleKind::Roman),
        u == "IT"@ ==> font_style(u) == Some(FontStyleKind::Italic),
        u == "BOLD"@ ==> font_style(u) == Some(FontStyleKind::Bold),
{
    reveal_strlit("rm");
    reveal_strlit("it");
    reveal_strlit("bold");
    reveal_strlit("mathrm");
    reveal_strlit("mathit");
    reveal_strlit("mathbf");
    reveal_strlit("mathbb");
    reveal_strlit("mathcal");
    reveal_strlit("mathfrak");
    reveal_strlit("mathsf");
    reveal_strlit("mathtt");
    reveal_strlit("RM");
    reveal_strlit("IT");
    reveal_strlit("BOLD");
    assert("rm"@.len() == 2 && "rm"@[0] == 'r');
    assert("it"@.len() == 2 && "it"@[0] == 'i');
    assert("bold"@.len() == 4 && "bold"@[0] == 'b');
    assert("mathrm"@.len() == 6 && "mathrm"@[4] == 'r');
    assert("mathit"@.len() == 6 && "mathit"@[4] == 'i');
    assert("mathbf"@.len() == 6 && "mathbf"@[4] == 'b' && "mathbf"@[5] == 'f');
    assert("mathbb"@.len() == 6 && "mathbb"@[4] == 'b' && "mathbb"@[5] == 'b');
    assert("mathcal"@.len() == 7);
    assert("mathfrak"@.len() == 8);
    assert("mathsf"@.len() == 6 && "mathsf"@[4] == 's');
    assert("mathtt"@.len() == 6 && "mathtt"@[4] == 't');
    assert("RM"@.len() == 2 && "RM"@[0] == 'R');
    assert("IT"@.len() == 2 && "IT"@[0] == 'I');
    assert("BOLD"@.len() == 4 && "BOLD"@[0] == 'B');
}

/// A word for a mark means the same mark in capitals.
pub proof fn law_marks_in_capitals(w: Seq<char>)
    requires
        decoration(w) is Some,
        decoration(upper(w)) is Some,
    ensures
        decoration(upper(w)) == decoration(w),
{
    lemma_marks(w);
    lemma_marks(upper(w));
    reveal_strlit("hat");
    reveal_strlit("check");
    reveal_strlit("tilde");
    reveal_strlit("acute");
    reveal_strlit("grave");
    reveal_strlit("dot");
    reveal_strlit("ddot");
    reveal_strlit("bar");
    reveal_strlit("vec");
    reveal_strlit("dyad");
    reveal_strlit("under");
    reveal_strlit("arch");
    reveal_strlit("overline");
    reveal_strlit("underline");
    reveal_strlit("not");
    reveal_strlit("widehat");
    reveal_strlit("widetilde");
    reveal_strlit("overrightarrow");
    reveal_strlit("HAT");
    reveal_strlit("CHECK");
    reveal_strlit("TILDE");
    reveal_strlit("ACUTE");
    reveal_strlit("GRAVE");
    reveal_strlit("DOT");
    reveal_strlit("DDOT");
    reveal_strlit("BAR");
    reveal_strlit("VEC");
    reveal_strlit("DYAD");
    reveal_strlit("UNDER");
    reveal_strlit("ARCH");
    reveal_strlit("OVERLINE");
    reveal_strlit("UNDERLINE");
    reveal_strlit("NOT");
    assert("hat"@.len() == 3 && "hat"@[0] == 'h');
    assert("check"@.len() == 5 && "check"@[0] == 'c');
    assert("tilde"@.len() == 5 && "tilde"@[0] == 't');
    assert("acute"@.len() == 5 && "acute"@[0] == 'a');
    assert("grave"@.len() == 5 && "grave"@[0] == 'g');
    assert("dot"@.len() == 3 && "dot"@[0] == 'd');
    assert("ddot"@.len() == 4 && "ddot"@[0] == 'd' && "ddot"@[1] == 'd');
    assert("bar"@.len() == 3 && "bar"@[0] == 'b');
    assert("vec"@.len() == 3 && "vec"@[0] == 'v');
    assert("dyad"@.len() == 4 && "dyad"@[0] == 'd' && "dyad"@[1] == 'y');
    assert("under"@.len() == 5 && "under"@[0] == 'u');
    assert("arch"@.len() == 4 && "arch"@[0] == 'a');
    assert("overline"@.len() == 8 && "overline"@[0] == 'o');
    assert("underline"@.len() == 9 && "underline"@[0] == 'u');
    assert("not"@.len() == 3 && "not"@[0] == 'n');
    assert("widehat"@.len() == 7);
    assert("widetilde"@.len() == 9 && "widetilde"@[0] == 'w');
    assert("overrightarrow"@.len() == 14);
    assert("HAT"@.len() == 3 && "HAT"@[0] == 'H');
    assert("CHECK"@.len() == 5 && "CHECK"@[0] == 'C');
    assert("TILDE"@.len() == 5 && "TILDE"@[0] == 'T');
    assert("ACUTE"@.len() == 5 && "ACUTE"@[0] == 'A');
    assert("GRAVE"@.len() == 5 && "GRAVE"@[0] == 'G');
    assert("DOT"@.len() == 3 && "DOT"@[0] == 'D');
    assert("DDOT"@.len() == 4 && "DDOT"@[0] == 'D' && "DDOT"@[1] == 'D');
    assert("BAR"@.len() == 3 && "BAR"@[0] == 'B');
    assert("VEC"@.len() == 3 && "VEC"@[0] == 'V');
    assert("DYAD"@.len() == 4 && "DYAD"@[0] == 'D' && "DYAD"@[1] == 'Y');
    assert("UNDER"@.len() == 5 && "UNDER"@[0] == 'U');
    assert("ARCH"@.len() == 4 && "ARCH"@[0] == 'A');
    assert("OVERLINE"@.len() == 8 && "OVERLINE"@[0] == 'O');
    assert("UNDERLINE"@.len() == 9 && "UNDERLINE"@[0] == 'U');
    assert("NOT"@.len() == 3 && "NOT"@[0] == 'N');
    if w == "hat"@ {
        assert(upper(w) =~= "HAT"@);
    }
    if w == "check"@ {
        assert(upper(w) =~= "CHECK"@);
    }
    if w == "tilde"@ {
        assert(upper(w) =~= "TILDE"@);
    }
    if w == "acute"@ {
        assert(upper(w) =~= "ACUTE"@);
    }
    if w == "grave"@ {
        assert(upper(w) =~= "GRAVE"@);
    }
    if w == "dot"@ {
        assert(upper(w) =~= "DOT"@);
    }
    if w == "ddot"@ {
        assert(upper(w) =~= "DDOT"@);
    }
    if w == "bar"@ {
        assert(upper(w) =~= "BAR"@);
    }
    if w == "vec"@ {
        assert(upper(w) =~= "VEC"@);
    }
    if w == "dyad"@ {
        assert(upper(w) =~= "DYAD"@);
    }
    if w == "under"@ {
        assert(upper(w) =~= "UNDER"@);
    }
    if w == "arch"@ {
        assert(upper(w) =~= "ARCH"@);
    }
    if w == "overline"@ {
        assert(upper(w) =~= "OVERLINE"@);
    }
    if w == "underline"@ {
        assert(upper(w) =~= "UNDERLINE"@);
    }
    if w == "not"@ {
        assert(upper(w) =~= "NOT"@);
    }
    if w == "widehat"@ {
        assert(upper(w)[0] == 'W');
    }
    if w == "widetilde"@ {
        assert(upper(w)[0] == 'W');
    }
    if w == "overrightarrow"@ {
        assert(upper(w)[0] == 'O');
    }
    if w == "HAT"@ {
        assert(upper(w) =~= "HAT"@);
    }
    if w == "CHECK"@ {
        assert(upper(w) =~= "CHECK"@);
    }
    if w == "TILDE"@ {
        assert(upper(w) =~= "TILDE"@);
    }
    if w == "ACUTE"@ {
        assert(upper(w) =~= "ACUTE"@);
    }
    if w == "GRAVE"@ {
        assert(upper(w) =~= "GRAVE"@);
    }
    if w == "DOT"@ {
        assert(upper(w) =~= "DOT"@);
    }
    if w == "DDOT"@ {
        assert(upper(w) =~= "DDOT"@);
    }
    if w == "BAR"@ {
        assert(upper(w) =~= "BAR"@);
    }
    if w == "VEC"@ {
        assert(upper(w) =~= "VEC"@);
    }
    if w == "DYAD"@ {
        assert(upper(w) =~= "DYAD"@);
    }
    if w == "UNDER"@ {
        assert(upper(w) =~= "UNDER"@);
    }
    if w == "ARCH"@ {
        assert(upper(w) =~= "ARCH"@);
    }
    if w == "OVERLINE"@ {
        assert(upper(w) =~= "OVERLINE"@);
    }
    if w == "UNDERLINE"@ {
        assert(upper(w) =~= "UNDERLINE"@);
    }
    if w == "NOT"@ {
        assert(upper(w) =~= "NOT"@);
    }
}

/// A word for a type face means the same face in capitals.
pub proof fn law_faces_in_capitals(w: Seq<char>)
    requires
        font_style(w) is Some,
        font_style(upper(w)) is Some,
    ensures
        font_style(upper(w)) == font_style(w),
{
    lemma_faces(w);
    lemma_faces(upper(w));
    reveal_strlit("rm");
    reveal_strlit("it");
    reveal_strlit("bold");
    reveal_strlit("mathrm");
    reveal_strlit("mathit");
    reveal_strlit("mathbf");
    reveal_strlit("mathbb");
    reveal_strlit("mathcal");
    reveal_strlit("mathfrak");
    reveal_strlit("mathsf");
    reveal_strlit("mathtt");
    reveal_strlit("RM");
    reveal_strlit("IT");
    reveal_strlit("BOLD");
    assert("rm"@.len() == 2 && "rm"@[0] == 'r');
    assert("it"@.len() == 2 && "it"@[0] == 'i');
    assert("bold"@.len() == 4 && "bold"@[0] == 'b');
    assert("mathrm"@.len() == 6 && "mathrm"@[4] == 'r');
    assert("mathit"@.len() == 6 && "mathit"@[4] == 'i');
    assert("mathbf"@.len() == 6 && "mathbf"@[4] == 'b' && "mathbf"@[5] == 'f');
    assert("mathbb"@.len() == 6 && "mathbb"@[4] == 'b' && "mathbb"@[5] == 'b');
    assert("mathcal"@.len() == 7);
    assert("mathfrak"@.len() == 8);
    assert("mathsf"@.len() == 6 && "mathsf"@[4] == 's');
    assert("mathtt"@.len() == 6 && "mathtt"@[4] == 't');
    assert("RM"@.len() == 2 && "RM"@[0] == 'R');
    assert("IT"@.len() == 2 && "IT"@[0] == 'I');
    assert("BOLD"@.len() == 4 && "BOLD"@[0] == 'B');
    if w == "rm"@ {
        assert(upper(w) =~= "RM"@);
    }
    if w == "it"@ {
        assert(upper(w) =~= "IT"@);
    }
    if w == "bold"@ {
        assert(upper(w) =~= "BOLD"@);
    }
    if w == "mathrm"@ {
        assert(upper(w)[0] == 'M');
    }
    if w == "mathit"@ {
        assert(upper(w)[0] == 'M');
    }
    if w == "mathbf"@ {
        assert(upper(w)[0] == 'M');
    }
    if w == "mathbb"@ {
        assert(upper(w)[0] == 'M');
    }
    if w == "mathcal"@ {
        assert(upper(w)[0] == 'M');
    }
    if w == "mathfrak"@ {
        assert(upper(w)[0] == 'M');
    }
    if w == "mathsf"@ {
        assert(upper(w)[0] == 'M');
    }
    if w == "mathtt"@ {
        assert(upper(w)[0] == 'M');
    }
    if w == "RM"@ {
        assert(upper(w) =~= "RM"@);
    }
    if w == "IT"@ {
        assert(upper(w) =~= "IT"@);
    }
    if w == "BOLD"@ {
        assert(upper(w) =~= "BOLD"@);
    }
}

/// The long words for a hat, a tilde and an arrow over a body.
pub open spec fn is_long_mark(w: Seq<char>) -> bool {
    w == "widehat"@ || w == "widetilde"@ || w == "overrightarrow"@
}

/// Words in small letters, the long ones aside, put different marks where they are different.

pub proof fn law_marks_are_different(a: Seq<char>, b: Seq<char>)
    requires
        decoration(a) is Some,
        decoration(a) == decoration(b),
        !is_long_mark(a) && !is_long_mark(b),
        'a' <= a[0] <= 'z',
        'a' <= b[0] <= 'z',
    ensures
        a == b,
{
    lemma_marks(a);
    lemma_marks(b);
    reveal_strlit("hat");
    reveal_strlit("check");
    reveal_strlit("tilde");
    reveal_strlit("acute");
    reveal_strlit("grave");
    reveal_strlit("dot");
    reveal_strlit("ddot");
    reveal_strlit("bar");
    reveal_strlit("vec");
    reveal_strlit("dyad");
    reveal_strlit("under");
    reveal_strlit("arch");
    reveal_strlit("overline");
    reveal_strlit("underline");
    reveal_strlit("not");
    reveal_strlit("widehat");
    reveal_strlit("widetilde");
    reveal_strlit("overrightarrow");
    reveal_strlit("HAT");
    reveal_strlit("CHECK");
    reveal_strlit("TILDE");
    reveal_strlit("ACUTE");
    reveal_strlit("GRAVE");
    reveal_strlit("DOT");
    reveal_strlit("DDOT");
    reveal_strlit("BAR");
    reveal_strlit("VEC");
    reveal_strlit("DYAD");
    reveal_strlit("UNDER");
    reveal_strlit("ARCH");
    reveal_strlit("OVERLINE");
    reveal_strlit("UNDERLINE");
    reveal_strlit("NOT");
    assert("hat"@.len() == 3 && "hat"@[0] == 'h');
    assert("check"@.len() == 5 && "check"@[0] == 'c');
    assert("tilde"@.len() == 5 && "tilde"@[0] == 't');
    assert("acute"@.len() == 5 && "acute"@[0] == 'a');
    assert("grave"@.len() == 5 && "grave"@[0] == 'g');
    assert("dot"@.len() == 3 && "dot"@[0] == 'd');
    assert("ddot"@.len() == 4 && "ddot"@[0] == 'd' && "ddot"@[1] == 'd');
    assert("bar"@.len() == 3 && "bar"@[0] == 'b');
    assert("vec"@.len() == 3 && "vec"@[0] == 'v');
    assert("dyad"@.len() == 4 && "dyad"@[0] == 'd' && "dyad"@[1] == 'y');
    assert("under"@.len() == 5 && "under"@[0] == 'u');
    assert("arch"@.len() == 4 && "arch"@[0] == 'a');
    assert("overline"@.len() == 8 && "overline"@[0] == 'o');
    assert("underline"@.len() == 9 && "underline"@[0] == 'u');
    assert("not"@.len() == 3 && "not"@[0] == 'n');
    assert("widehat"@.len() == 7);
    assert("widetilde"@.len() == 9 && "widetilde"@[0] == 'w');
    assert("overrightarrow"@.len() == 14);
    assert("HAT"@.len() == 3 && "HAT"@[0] == 'H');
    assert("CHECK"@.len() == 5 && "CHECK"@[0] == 'C');
    assert("TILDE"@.len() == 5 && "TILDE"@[0] == 'T');
    assert("ACUTE"@.len() == 5 && "ACUTE"@[0] == 'A');
    assert("GRAVE"@.len() == 5 && "GRAVE"@[0] == 'G');
    assert("DOT"@.len() == 3 && "DOT"@[0] == 'D');
    assert("DDOT"@.len() == 4 && "DDOT"@[0] == 'D' && "DDOT"@[1] == 'D');
    assert("BAR"@.len() == 3 && "BAR"@[0] == 'B');
    assert("VEC"@.len() == 3 && "VEC"@[0] == 'V');
    assert("DYAD"@.len() == 4 && "DYAD"@[0] == 'D' && "DYAD"@[1] == 'Y');
    assert("UNDER"@.len() == 5 && "UNDER"@[0] == 'U');
    assert("ARCH"@.len() == 4 && "ARCH"@[0] == 'A');
    assert("OVERLINE"@.len() == 8 && "OVERLINE"@[0] == 'O');
    assert("UNDERLINE"@.len() == 9 && "UNDERLINE"@[0] == 'U');
    assert("NOT"@.len() == 3 && "NOT"@[0] == 'N');
    assert("hat"@[0] == 'h');
    assert("check"@[0] == 'c');
    assert("tilde"@[0] == 't');
    assert("acute"@[0] == 'a');
    assert("grave"@[0] == 'g');
    assert("dot"@[0] == 'd');
    assert("ddot"@[0] == 'd');
    assert("bar"@[0] == 'b');
    assert("vec"@[0] == 'v');
    assert("dyad"@[0] == 'd');
    assert("under"@[0] == 'u');
    assert("arch"@[0] == 'a');
    assert("overline"@[0] == 'o');
    assert("underline"@[0] == 'u');
    assert("not"@[0] == 'n');
    assert("widehat"@[0] == 'w');
    assert("widetilde"@[0] == 'w');
    assert("overrightarrow"@[0] == 'o');
    assert("HAT"@[0] == 'H');
    assert("CHECK"@[0] == 'C');
    assert("TILDE"@[0] == 'T');
    assert("ACUTE"@[0] == 'A');
    assert("GRAVE"@[0] == 'G');
    assert("DOT"@[0] == 'D');
    assert("DDOT"@[0] == 'D');
    assert("BAR"@[0] == 'B');
    assert("VEC"@[0] == 'V');
    assert("DYAD"@[0] == 'D');
    assert("UNDER"@[0] == 'U');
    assert("ARCH"@[0] == 'A');
    assert("OVERLINE"@[0] == 'O');
    assert("UNDERLINE"@[0] == 'U');
    assert("NOT"@[0] == 'N');
}

/// The long words mean the marks of the short ones, and the faces of the two kinds of words are
/// the same.
pub proof fn law_long_words(w: Seq<char>)
    ensures
        w == "widehat"@ ==> decoration(w) == decoration("hat"@),
        w == "widetilde"@ ==> decoration(w) == decoration("tilde"@),
        w == "overrightarrow"@ ==> decoration(w) == decoration("vec"@),
        w == "mathrm"@ ==> font_style(w) == font_style("rm"@),
        w == "mathit"@ ==> font_style(w) == font_style("it"@),
        w == "mathbf"@ ==> font_style(w) == font_style("bold"@),
{
    lemma_marks(w);
    lemma_marks("hat"@);
    lemma_marks("tilde"@);
    lemma_marks("vec"@);
    lemma_faces(w);
    lemma_faces("rm"@);
    lemma_faces("it"@);
    lemma_faces("bold"@);
}

/// A function is set under its own name.
pub proof fn law_functions_keep_their_names(w: Seq<char>)
    requires
        function(w) is Some,
    ensures
        function(w)->0 == w,
{
}

/// The spaces.
proof fn lemma_spaces(u: Seq<char>)
    ensures
        u == "QUAD"@ ==> spacing(u) == Some("\u{2003}"@),
        u == "QQUAD"@ ==> spacing(u) == Some("\u{2003}\u{2003}"@),
        u == "THINSPACE"@ ==> spacing(u) == Some("\u{2009}"@),
        u == "MEDSPACE"@ ==> spacing(u) == Some("\u{205F}"@),
        u == "THICKSPACE"@ ==> spacing(u) == Some("\u{2004}"@),
        u == "NEGSPACE"@ ==> spacing(u) == Some(""@),
        u == "ENSPACE"@ ==> spacing(u) == Some("\u{2002}"@),
{
    reveal_strlit("QUAD");
    reveal_strlit("QQUAD");
    reveal_strlit("THINSPACE");
    reveal_strlit("MEDSPACE");
    reveal_strlit("THICKSPACE");
    reveal_strlit("NEGSPACE");
    reveal_strlit("ENSPACE");
    assert("QUAD"@.len() == 4);
    assert("QQUAD"@.len() == 5);
    assert("THINSPACE"@.len() == 9);
    assert("MEDSPACE"@.len() == 8 && "MEDSPACE"@[0] == 'M');
    assert("THICKSPACE"@.len() == 10);
    assert("NEGSPACE"@.len() == 8 && "NEGSPACE"@[0] == 'N');
    assert("ENSPACE"@.len() == 7);
}

/// A double quad is two quads, a negative space is nothing, and every other space is one character
/// that no other has.
pub proof fn law_spaces(u: Seq<char>, v: Seq<char>)
    ensures
        u == "QQUAD"@ ==> spacing(u) is Some && spacing(u)->0 == spacing("QUAD"@)->0 + spacing(
            "QUAD"@,
        )->0,
        u == "NEGSPACE"@ ==> spacing(u) is Some && spacing(u)->0.len() == 0,
        spacing(u) is Some && u != "QQUAD"@ && u != "NEGSPACE"@ ==> spacing(u)->0.len() == 1,
        spacing(u) is Some && spacing(u) == spacing(v) ==> u == v,
{
    lemma_spaces(u);
    lemma_spaces(v);
    lemma_spaces("QUAD"@);
    reveal_strlit("\u{2003}");
    reveal_strlit("\u{2003}\u{2003}");
    reveal_strlit("\u{2009}");
    reveal_strlit("\u{205F}");
    reveal_strlit("\u{2004}");
    reveal_strlit("");
    reveal_strlit("\u{2002}");
    assert("\u{2003}"@.len() == 1 && "\u{2003}"@[0] == '\u{2003}');
    assert("\u{2003}\u{2003}"@.len() == 2 && "\u{2003}\u{2003}"@[0] == '\u{2003}');
    assert("\u{2009}"@.len() == 1 && "\u{2009}"@[0] == '\u{2009}');
    assert("\u{205F}"@.len() == 1 && "\u{205F}"@[0] == '\u{205F}');
    assert("\u{2004}"@.len() == 1 && "\u{2004}"@[0] == '\u{2004}');
    assert(""@.len() == 0);
    assert("\u{2002}"@.len() == 1 && "\u{2002}"@[0] == '\u{2002}');
    assert("\u{2003}\u{2003}"@ =~= "\u{2003}"@ + "\u{2003}"@);
}

/// Every name but those of Greek letters and arrows is looked up in capitals: relation signs come
/// first, then signs of operations, then letter-like signs.
pub proof fn law_signs_by_capitals(w: Seq<char>)
    requires
        greek_small(w) is None,
        greek_capital(w) is None,
        arrow(w) is None,
    ensures
        relation(upper(w)) is Some ==> symbol(w) == relation(upper(w)),
        relation(upper(w)) is None && operation(upper(w)) is Some ==> symbol(w) == operation(
            upper(w),
        ),
        relation(upper(w)) is None && operation(upper(w)) is None && sign(upper(w)) is Some
            ==> symbol(w) == sign(upper(w)),
{
    reveal(symbol);
}

/// Sine, cosine and tangent are functions, and so are their hyperbolic forms and their inverses;
/// cotangent, secant and cosecant are, with their hyperbolic forms.
pub proof fn law_functions_in_families(w: Seq<char>)
    ensures
        w == "sin"@ || w == "cos"@ || w == "tan"@ ==> function(w) is Some && function(w.push('h'))
            is Some && function(seq!['a', 'r', 'c'] + w) is Some,
        w == "cot"@ || w == "sec"@ || w == "csc"@ ==> function(w) is Some && function(w.push('h'))
            is Some,
{
    reveal_strlit("sin");
    reveal_strlit("sinh");
    reveal_strlit("arcsin");
    reveal_strlit("cos");
    reveal_strlit("cosh");
    reveal_strlit("arccos");
    reveal_strlit("tan");
    reveal_strlit("tanh");
    reveal_strlit("arctan");
    reveal_strlit("cot");
    reveal_strlit("coth");
    reveal_strlit("sec");
    reveal_strlit("sech");
    reveal_strlit("csc");
    reveal_strlit("csch");
    assert("sin"@.push('h') =~= "sinh"@);
    assert(seq!['a', 'r', 'c'] + "sin"@ =~= "arcsin"@);
    assert("cos"@.push('h') =~= "cosh"@);
    assert(seq!['a', 'r', 'c'] + "cos"@ =~= "arccos"@);
    assert("tan"@.push('h') =~= "tanh"@);
    assert(seq!['a', 'r', 'c'] + "tan"@ =~= "arctan"@);
    assert("cot"@.push('h') =~= "coth"@);
    assert("sec"@.push('h') =~= "sech"@);
    assert("csc"@.push('h') =~= "csch"@);
}

} // verus!
