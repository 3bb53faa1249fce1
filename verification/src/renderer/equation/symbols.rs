//! The named symbols, functions, marks and type faces of equation scripts.

use super::ast::{DecoKind, FontStyleKind};
use crate::text::{str_eq, to_upper, upper};
use vstd::prelude::*;

verus! {

/// The characters of an optional string.
pub open spec fn chars_opt(o: Option<&str>) -> Option<Seq<char>> {
    match o {
        Some(s) => Some(s@),
        None => None,
    }
}

/// Small Greek letters.
pub open spec fn greek_small(w: Seq<char>) -> Option<Seq<char>> {
    if w == "alpha"@ {
        Some("α"@)
    } else if w == "beta"@ {
        Some("β"@)
    } else if w == "gamma"@ {
        Some("γ"@)
    } else if w == "delta"@ {
        Some("δ"@)
    } else if w == "epsilon"@ {
        Some("ε"@)
    } else if w == "zeta"@ {
        Some("ζ"@)
    } else if w == "eta"@ {
        Some("η"@)
    } else if w == "theta"@ {
        Some("θ"@)
    } else if w == "iota"@ {
        Some("ι"@)
    } else if w == "kappa"@ {
        Some("κ"@)
    } else if w == "lambda"@ {
        Some("λ"@)
    } else if w == "mu"@ {
        Some("μ"@)
    } else if w == "nu"@ {
        Some("ν"@)
    } else if w == "xi"@ {
        Some("ξ"@)
    } else if w == "omicron"@ {
        Some("ο"@)
    } else if w == "pi"@ {
        Some("π"@)
    } else if w == "rho"@ {
        Some("ρ"@)
    } else if w == "sigma"@ {
        Some("σ"@)
    } else if w == "tau"@ {
        Some("τ"@)
    } else if w == "upsilon"@ {
        Some("υ"@)
    } else if w == "phi"@ {
        Some("φ"@)
    } else if w == "chi"@ {
        Some("χ"@)
    } else if w == "psi"@ {
        Some("ψ"@)
    } else if w == "omega"@ {
        Some("ω"@)
    } else if w == "varepsilon"@ {
        Some("ε"@)
    } else if w == "vartheta"@ {
        Some("ϑ"@)
    } else if w == "varpi"@ {
        Some("ϖ"@)
    } else if w == "varrho"@ {
        Some("ϱ"@)
    } else if w == "varsigma"@ {
        Some("ς"@)
    } else if w == "varphi"@ {
        Some("ϕ"@)
    } else {
        None
    }
}

fn lookup_greek_small(w: &str) -> (r: Option<&'static str>)
    ensures
        chars_opt(r) == greek_small(w@),
{
    if str_eq(w, "alpha") {
        Some("α")
    } else if str_eq(w, "beta") {
        Some("β")
    } else if str_eq(w, "gamma") {
        Some("γ")
    } else if str_eq(w, "delta") {
        Some("δ")
    } else if str_eq(w, "epsilon") {
        Some("ε")
    } else if str_eq(w, "zeta") {
        Some("ζ")
    } else if str_eq(w, "eta") {
        Some("η")
    } else if str_eq(w, "theta") {
        Some("θ")
    } else if str_eq(w, "iota") {
        Some("ι")
    } else if str_eq(w, "kappa") {
        Some("κ")
    } else if str_eq(w, "lambda") {
        Some("λ")
    } else if str_eq(w, "mu") {
        Some("μ")
    } else if str_eq(w, "nu") {
        Some("ν")
    } else if str_eq(w, "xi") {
        Some("ξ")
    } else if str_eq(w, "omicron") {
        Some("ο")
    } else if str_eq(w, "pi") {
        Some("π")
    } else if str_eq(w, "rho") {
        Some("ρ")
    } else if str_eq(w, "sigma") {
        Some("σ")
    } else if str_eq(w, "tau") {
        Some("τ")
    } else if str_eq(w, "upsilon") {
        Some("υ")
    } else if str_eq(w, "phi") {
        Some("φ")
    } else if str_eq(w, "chi") {
        Some("χ")
    } else if str_eq(w, "psi") {
        Some("ψ")
    } else if str_eq(w, "omega") {
        Some("ω")
    } else if str_eq(w, "varepsilon") {
        Some("ε")
    } else if str_eq(w, "vartheta") {
        Some("ϑ")
    } else if str_eq(w, "varpi") {
        Some("ϖ")
    } else if str_eq(w, "varrho") {
        Some("ϱ")
    } else if str_eq(w, "varsigma") {
        Some("ς")
    } else if str_eq(w, "varphi") {
        Some("ϕ")
    } else {
        None
    }
}

/// Capital Greek letters.
pub open spec fn greek_capital(w: Seq<char>) -> Option<Seq<char>> {
    if w == "ALPHA"@ {
        Some("Α"@)
    } else if w == "BETA"@ {
        Some("Β"@)
    } else if w == "GAMMA"@ {
        Some("Γ"@)
    } else if w == "DELTA"@ {
        Some("Δ"@)
    } else if w == "EPSILON"@ {
        Some("Ε"@)
    } else if w == "ZETA"@ {
        Some("Ζ"@)
    } else if w == "ETA"@ {
        Some("Η"@)
    } else if w == "THETA"@ {
        Some("Θ"@)
    } else if w == "IOTA"@ {
        Some("Ι"@)
    } else if w == "KAPPA"@ {
        Some("Κ"@)
    } else if w == "LAMBDA"@ {
        Some("Λ"@)
    } else if w == "MU"@ {
        Some("Μ"@)
    } else if w == "NU"@ {
        Some("Ν"@)
    } else if w == "XI"@ {
        Some("Ξ"@)
    } else if w == "OMICRON"@ {
        Some("Ο"@)
    } else if w == "PI"@ {
        Some("Π"@)
    } else if w == "RHO"@ {
        Some("Ρ"@)
    } else if w == "SIGMA"@ {
        Some("Σ"@)
    } else if w == "TAU"@ {
        Some("Τ"@)
    } else if w == "UPSILON"@ {
        Some("Υ"@)
    } else if w == "PHI"@ {
        Some("Φ"@)
    } else if w == "CHI"@ {
        Some("Χ"@)
    } else if w == "PSI"@ {
        Some("Ψ"@)
    } else if w == "OMEGA"@ {
        Some("Ω"@)
    } else if w == "Gamma"@ {
        Some("Γ"@)
    } else if w == "Delta"@ {
        Some("Δ"@)
    } else if w == "Theta"@ {
        Some("Θ"@)
    } else if w == "Lambda"@ {
        Some("Λ"@)
    } else if w == "Xi"@ {
        Some("Ξ"@)
    } else if w == "Pi"@ {
        Some("Π"@)
    } else if w == "Sigma"@ {
        Some("Σ"@)
    } else if w == "Upsilon"@ {
        Some("Υ"@)
    } else if w == "Phi"@ {
        Some("Φ"@)
    } else if w == "Psi"@ {
        Some("Ψ"@)
    } else if w == "Omega"@ {
        Some("Ω"@)
    } else {
        None
    }
}

fn lookup_greek_capital(w: &str) -> (r: Option<&'static str>)
    ensures
        chars_opt(r) == greek_capital(w@),
{
    if str_eq(w, "ALPHA") {
        Some("Α")
    } else if str_eq(w, "BETA") {
        Some("Β")
    } else if str_eq(w, "GAMMA") {
        Some("Γ")
    } else if str_eq(w, "DELTA") {
        Some("Δ")
    } else if str_eq(w, "EPSILON") {
        Some("Ε")
    } else if str_eq(w, "ZETA") {
        Some("Ζ")
    } else if str_eq(w, "ETA") {
        Some("Η")
    } else if str_eq(w, "THETA") {
        Some("Θ")
    } else if str_eq(w, "IOTA") {
        Some("Ι")
    } else if str_eq(w, "KAPPA") {
        Some("Κ")
    } else if str_eq(w, "LAMBDA") {
        Some("Λ")
    } else if str_eq(w, "MU") {
        Some("Μ")
    } else if str_eq(w, "NU") {
        Some("Ν")
    } else if str_eq(w, "XI") {
        Some("Ξ")
    } else if str_eq(w, "OMICRON") {
        Some("Ο")
    } else if str_eq(w, "PI") {
        Some("Π")
    } else if str_eq(w, "RHO") {
        Some("Ρ")
    } else if str_eq(w, "SIGMA") {
        Some("Σ")
    } else if str_eq(w, "TAU") {
        Some("Τ")
    } else if str_eq(w, "UPSILON") {
        Some("Υ")
    } else if str_eq(w, "PHI") {
        Some("Φ")
    } else if str_eq(w, "CHI") {
        Some("Χ")
    } else if str_eq(w, "PSI") {
        Some("Ψ")
    } else if str_eq(w, "OMEGA") {
        Some("Ω")
    } else if str_eq(w, "Gamma") {
        Some("Γ")
    } else if str_eq(w, "Delta") {
        Some("Δ")
    } else if str_eq(w, "Theta") {
        Some("Θ")
    } else if str_eq(w, "Lambda") {
        Some("Λ")
    } else if str_eq(w, "Xi") {
        Some("Ξ")
    } else if str_eq(w, "Pi") {
        Some("Π")
    } else if str_eq(w, "Sigma") {
        Some("Σ")
    } else if str_eq(w, "Upsilon") {
        Some("Υ")
    } else if str_eq(w, "Phi") {
        Some("Φ")
    } else if str_eq(w, "Psi") {
        Some("Ψ")
    } else if str_eq(w, "Omega") {
        Some("Ω")
    } else {
        None
    }
}

/// Arrows; the capitals of a name tell a double arrow from a single one.
pub open spec fn arrow(w: Seq<char>) -> Option<Seq<char>> {
    if w == "rightarrow"@ {
        Some("→"@)
    } else if w == "leftarrow"@ {
        Some("←"@)
    } else if w == "uparrow"@ {
        Some("↑"@)
    } else if w == "downarrow"@ {
        Some("↓"@)
    } else if w == "leftrightarrow"@ {
        Some("↔"@)
    } else if w == "Rightarrow"@ {
        Some("⇒"@)
    } else if w == "Leftarrow"@ {
        Some("⇐"@)
    } else if w == "Uparrow"@ {
        Some("⇑"@)
    } else if w == "Downarrow"@ {
        Some("⇓"@)
    } else if w == "Leftrightarrow"@ {
        Some("⇔"@)
    } else if w == "rarrow"@ {
        Some("→"@)
    } else if w == "larrow"@ {
        Some("←"@)
    } else if w == "lrarrow"@ {
        Some("↔"@)
    } else if w == "udarrow"@ {
        Some("↕"@)
    } else if w == "RARROW"@ {
        Some("⇒"@)
    } else if w == "LARROW"@ {
        Some("⇐"@)
    } else if w == "LRARROW"@ {
        Some("⇔"@)
    } else if w == "UPARROW"@ {
        Some("⇑"@)
    } else if w == "DOWNARROW"@ {
        Some("⇓"@)
    } else if w == "to"@ {
        Some("→"@)
    } else if w == "mapsto"@ {
        Some("↦"@)
    } else if w == "implies"@ {
        Some("⇒"@)
    } else if w == "iff"@ {
        Some("⇔"@)
    } else {
        None
    }
}

fn lookup_arrow(w: &str) -> (r: Option<&'static str>)
    ensures
        chars_opt(r) == arrow(w@),
{
    if str_eq(w, "rightarrow") {
        Some("→")
    } else if str_eq(w, "leftarrow") {
        Some("←")
    } else if str_eq(w, "uparrow") {
        Some("↑")
    } else if str_eq(w, "downarrow") {
        Some("↓")
    } else if str_eq(w, "leftrightarrow") {
        Some("↔")
    } else if str_eq(w, "Rightarrow") {
        Some("⇒")
    } else if str_eq(w, "Leftarrow") {
        Some("⇐")
    } else if str_eq(w, "Uparrow") {
        Some("⇑")
    } else if str_eq(w, "Downarrow") {
        Some("⇓")
    } else if str_eq(w, "Leftrightarrow") {
        Some("⇔")
    } else if str_eq(w, "rarrow") {
        Some("→")
    } else if str_eq(w, "larrow") {
        Some("←")
    } else if str_eq(w, "lrarrow") {
        Some("↔")
    } else if str_eq(w, "udarrow") {
        Some("↕")
    } else if str_eq(w, "RARROW") {
        Some("⇒")
    } else if str_eq(w, "LARROW") {
        Some("⇐")
    } else if str_eq(w, "LRARROW") {
        Some("⇔")
    } else if str_eq(w, "UPARROW") {
        Some("⇑")
    } else if str_eq(w, "DOWNARROW") {
        Some("⇓")
    } else if str_eq(w, "to") {
        Some("→")
    } else if str_eq(w, "mapsto") {
        Some("↦")
    } else if str_eq(w, "implies") {
        Some("⇒")
    } else if str_eq(w, "iff") {
        Some("⇔")
    } else {
        None
    }
}

/// Relation signs, by their names in capitals.
pub open spec fn relation(w: Seq<char>) -> Option<Seq<char>> {
    if w == "LEQ"@ {
        Some("≤"@)
    } else if w == "LE"@ {
        Some("≤"@)
    } else if w == "GEQ"@ {
        Some("≥"@)
    } else if w == "GE"@ {
        Some("≥"@)
    } else if w == "NEQ"@ {
        Some("≠"@)
    } else if w == "NE"@ {
        Some("≠"@)
    } else if w == "EQUIV"@ {
        Some("≡"@)
    } else if w == "APPROX"@ {
        Some("≈"@)
    } else if w == "SIM"@ {
        Some("∼"@)
    } else if w == "SIMEQ"@ {
        Some("≃"@)
    } else if w == "CONG"@ {
        Some("≅"@)
    } else if w == "PROPTO"@ {
        Some("∝"@)
    } else if w == "ASYMP"@ {
        Some("≍"@)
    } else if w == "DOTEQ"@ {
        Some("≐"@)
    } else if w == "PREC"@ {
        Some("≺"@)
    } else if w == "SUCC"@ {
        Some("≻"@)
    } else if w == "LL"@ {
        Some("≪"@)
    } else if w == "GG"@ {
        Some("≫"@)
    } else if w == "IN"@ {
        Some("∈"@)
    } else if w == "NOTIN"@ {
        Some("∉"@)
    } else if w == "NI"@ {
        Some("∋"@)
    } else if w == "OWNS"@ {
        Some("∋"@)
    } else if w == "SUBSET"@ {
        Some("⊂"@)
    } else if w == "SUPSET"@ {
        Some("⊃"@)
    } else if w == "SUBSETEQ"@ {
        Some("⊆"@)
    } else if w == "SUPSETEQ"@ {
        Some("⊇"@)
    } else if w == "PERP"@ {
        Some("⊥"@)
    } else if w == "BOT"@ {
        Some("⊥"@)
    } else if w == "PARALLEL"@ {
        Some("∥"@)
    } else if w == "MID"@ {
        Some("∣"@)
    } else if w == "VDASH"@ {
        Some("⊢"@)
    } else if w == "DASHV"@ {
        Some("⊣"@)
    } else if w == "MODELS"@ {
        Some("⊨"@)
    } else {
        None
    }
}

fn lookup_relation(w: &str) -> (r: Option<&'static str>)
    ensures
        chars_opt(r) == relation(w@),
{
    if str_eq(w, "LEQ") {
        Some("≤")
    } else if str_eq(w, "LE") {
        Some("≤")
    } else if str_eq(w, "GEQ") {
        Some("≥")
    } else if str_eq(w, "GE") {
        Some("≥")
    } else if str_eq(w, "NEQ") {
        Some("≠")
    } else if str_eq(w, "NE") {
        Some("≠")
    } else if str_eq(w, "EQUIV") {
        Some("≡")
    } else if str_eq(w, "APPROX") {
        Some("≈")
    } else if str_eq(w, "SIM") {
        Some("∼")
    } else if str_eq(w, "SIMEQ") {
        Some("≃")
    } else if str_eq(w, "CONG") {
        Some("≅")
    } else if str_eq(w, "PROPTO") {
        Some("∝")
    } else if str_eq(w, "ASYMP") {
        Some("≍")
    } else if str_eq(w, "DOTEQ") {
        Some("≐")
    } else if str_eq(w, "PREC") {
        Some("≺")
    } else if str_eq(w, "SUCC") {
        Some("≻")
    } else if str_eq(w, "LL") {
        Some("≪")
    } else if str_eq(w, "GG") {
        Some("≫")
    } else if str_eq(w, "IN") {
        Some("∈")
    } else if str_eq(w, "NOTIN") {
        Some("∉")
    } else if str_eq(w, "NI") {
        Some("∋")
    } else if str_eq(w, "OWNS") {
        Some("∋")
    } else if str_eq(w, "SUBSET") {
        Some("⊂")
    } else if str_eq(w, "SUPSET") {
        Some("⊃")
    } else if str_eq(w, "SUBSETEQ") {
        Some("⊆")
    } else if str_eq(w, "SUPSETEQ") {
        Some("⊇")
    } else if str_eq(w, "PERP") {
        Some("⊥")
    } else if str_eq(w, "BOT") {
        Some("⊥")
    } else if str_eq(w, "PARALLEL") {
        Some("∥")
    } else if str_eq(w, "MID") {
        Some("∣")
    } else if str_eq(w, "VDASH") {
        Some("⊢")
    } else if str_eq(w, "DASHV") {
        Some("⊣")
    } else if str_eq(w, "MODELS") {
        Some("⊨")
    } else {
        None
    }
}

/// Binary operation signs, by their names in capitals.
pub open spec fn operation(w: Seq<char>) -> Option<Seq<char>> {
    if w == "TIMES"@ {
        Some("×"@)
    } else if w == "DIV"@ {
        Some("÷"@)
    } else if w == "CDOT"@ {
        Some("·"@)
    } else if w == "PM"@ {
        Some("±"@)
    } else if w == "PLUSMINUS"@ {
        Some("±"@)
    } else if w == "MP"@ {
        Some("∓"@)
    } else if w == "MINUSPLUS"@ {
        Some("∓"@)
    } else if w == "AST"@ {
        Some("∗"@)
    } else if w == "STAR"@ {
        Some("⋆"@)
    } else if w == "CIRC"@ {
        Some("∘"@)
    } else if w == "BULLET"@ {
        Some("∙"@)
    } else if w == "CUP"@ {
        Some("∪"@)
    } else if w == "CAP"@ {
        Some("∩"@)
    } else if w == "SETMINUS"@ {
        Some("∖"@)
    } else if w == "WEDGE"@ {
        Some("∧"@)
    } else if w == "LAND"@ {
        Some("∧"@)
    } else if w == "VEE"@ {
        Some("∨"@)
    } else if w == "LOR"@ {
        Some("∨"@)
    } else if w == "LNOT"@ {
        Some("¬"@)
    } else if w == "OPLUS"@ {
        Some("⊕"@)
    } else if w == "OMINUS"@ {
        Some("⊖"@)
    } else if w == "OTIMES"@ {
        Some("⊗"@)
    } else if w == "ODOT"@ {
        Some("⊙"@)
    } else if w == "DAGGER"@ {
        Some("†"@)
    } else if w == "DDAGGER"@ {
        Some("‡"@)
    } else {
        None
    }
}

fn lookup_operation(w: &str) -> (r: Option<&'static str>)
    ensures
        chars_opt(r) == operation(w@),
{
    if str_eq(w, "TIMES") {
        Some("×")
    } else if str_eq(w, "DIV") {
        Some("÷")
    } else if str_eq(w, "CDOT") {
        Some("·")
    } else if str_eq(w, "PM") {
        Some("±")
    } else if str_eq(w, "PLUSMINUS") {
        Some("±")
    } else if str_eq(w, "MP") {
        Some("∓")
    } else if str_eq(w, "MINUSPLUS") {
        Some("∓")
    } else if str_eq(w, "AST") {
        Some("∗")
    } else if str_eq(w, "STAR") {
        Some("⋆")
    } else if str_eq(w, "CIRC") {
        Some("∘")
    } else if str_eq(w, "BULLET") {
        Some("∙")
    } else if str_eq(w, "CUP") {
        Some("∪")
    } else if str_eq(w, "CAP") {
        Some("∩")
    } else if str_eq(w, "SETMINUS") {
        Some("∖")
    } else if str_eq(w, "WEDGE") {
        Some("∧")
    } else if str_eq(w, "LAND") {
        Some("∧")
    } else if str_eq(w, "VEE") {
        Some("∨")
    } else if str_eq(w, "LOR") {
        Some("∨")
    } else if str_eq(w, "LNOT") {
        Some("¬")
    } else if str_eq(w, "OPLUS") {
        Some("⊕")
    } else if str_eq(w, "OMINUS") {
        Some("⊖")
    } else if str_eq(w, "OTIMES") {
        Some("⊗")
    } else if str_eq(w, "ODOT") {
        Some("⊙")
    } else if str_eq(w, "DAGGER") {
        Some("†")
    } else if str_eq(w, "DDAGGER") {
        Some("‡")
    } else {
        None
    }
}

/// Letter-like signs and fences, by their names in capitals.
pub open spec fn sign(w: Seq<char>) -> Option<Seq<char>> {
    if w == "INF"@ {
        Some("∞"@)
    } else if w == "INFTY"@ {
        Some("∞"@)
    } else if w == "PARTIAL"@ {
        Some("∂"@)
    } else if w == "NABLA"@ {
        Some("∇"@)
    } else if w == "FORALL"@ {
        Some("∀"@)
    } else if w == "EXIST"@ {
        Some("∃"@)
    } else if w == "EXISTS"@ {
        Some("∃"@)
    } else if w == "EMPTYSET"@ {
        Some("∅"@)
    } else if w == "DEG"@ {
        Some("°"@)
    } else if w == "PRIME"@ {
        Some("′"@)
    } else if w == "ANGLE"@ {
        Some("∠"@)
    } else if w == "TRIANGLE"@ {
        Some("△"@)
    } else if w == "THEREFORE"@ {
        Some("∴"@)
    } else if w == "BECAUSE"@ {
        Some("∵"@)
    } else if w == "CDOTS"@ {
        Some("⋯"@)
    } else if w == "LDOTS"@ {
        Some("…"@)
    } else if w == "DOTS"@ {
        Some("…"@)
    } else if w == "VDOTS"@ {
        Some("⋮"@)
    } else if w == "DDOTS"@ {
        Some("⋱"@)
    } else if w == "HBAR"@ {
        Some("ℏ"@)
    } else if w == "ELL"@ {
        Some("ℓ"@)
    } else if w == "ALEPH"@ {
        Some("ℵ"@)
    } else if w == "REIMAGE"@ {
        Some("ℜ"@)
    } else if w == "IMAGE"@ {
        Some("ℑ"@)
    } else if w == "WP"@ {
        Some("℘"@)
    } else if w == "LANGLE"@ {
        Some("⟨"@)
    } else if w == "RANGLE"@ {
        Some("⟩"@)
    } else if w == "LBRACE"@ {
        Some("{"@)
    } else if w == "RBRACE"@ {
        Some("}"@)
    } else if w == "LCEIL"@ {
        Some("⌈"@)
    } else if w == "RCEIL"@ {
        Some("⌉"@)
    } else if w == "LFLOOR"@ {
        Some("⌊"@)
    } else if w == "RFLOOR"@ {
        Some("⌋"@)
    } else if w == "VERT"@ {
        Some("|"@)
    } else {
        None
    }
}

fn lookup_sign(w: &str) -> (r: Option<&'static str>)
    ensures
        chars_opt(r) == sign(w@),
{
    if str_eq(w, "INF") {
        Some("∞")
    } else if str_eq(w, "INFTY") {
        Some("∞")
    } else if str_eq(w, "PARTIAL") {
        Some("∂")
    } else if str_eq(w, "NABLA") {
        Some("∇")
    } else if str_eq(w, "FORALL") {
        Some("∀")
    } else if str_eq(w, "EXIST") {
        Some("∃")
    } else if str_eq(w, "EXISTS") {
        Some("∃")
    } else if str_eq(w, "EMPTYSET") {
        Some("∅")
    } else if str_eq(w, "DEG") {
        Some("°")
    } else if str_eq(w, "PRIME") {
        Some("′")
    } else if str_eq(w, "ANGLE") {
        Some("∠")
    } else if str_eq(w, "TRIANGLE") {
        Some("△")
    } else if str_eq(w, "THEREFORE") {
        Some("∴")
    } else if str_eq(w, "BECAUSE") {
        Some("∵")
    } else if str_eq(w, "CDOTS") {
        Some("⋯")
    } else if str_eq(w, "LDOTS") {
        Some("…")
    } else if str_eq(w, "DOTS") {
        Some("…")
    } else if str_eq(w, "VDOTS") {
        Some("⋮")
    } else if str_eq(w, "DDOTS") {
        Some("⋱")
    } else if str_eq(w, "HBAR") {
        Some("ℏ")
    } else if str_eq(w, "ELL") {
        Some("ℓ")
    } else if str_eq(w, "ALEPH") {
        Some("ℵ")
    } else if str_eq(w, "REIMAGE") {
        Some("ℜ")
    } else if str_eq(w, "IMAGE") {
        Some("ℑ")
    } else if str_eq(w, "WP") {
        Some("℘")
    } else if str_eq(w, "LANGLE") {
        Some("⟨")
    } else if str_eq(w, "RANGLE") {
        Some("⟩")
    } else if str_eq(w, "LBRACE") {
        Some("{")
    } else if str_eq(w, "RBRACE") {
        Some("}")
    } else if str_eq(w, "LCEIL") {
        Some("⌈")
    } else if str_eq(w, "RCEIL") {
        Some("⌉")
    } else if str_eq(w, "LFLOOR") {
        Some("⌊")
    } else if str_eq(w, "RFLOOR") {
        Some("⌋")
    } else if str_eq(w, "VERT") {
        Some("|")
    } else {
        None
    }
}

/// Operators that take their scripts above and below, by their names in capitals.
pub open spec fn big_operation(w: Seq<char>) -> Option<Seq<char>> {
    if w == "SUM"@ {
        Some("∑"@)
    } else if w == "PROD"@ {
        Some("∏"@)
    } else if w == "COPROD"@ {
        Some("∐"@)
    } else if w == "UNION"@ {
        Some("⋃"@)
    } else if w == "INTER"@ {
        Some("⋂"@)
    } else if w == "BIGCUP"@ {
        Some("⋃"@)
    } else if w == "BIGCAP"@ {
        Some("⋂"@)
    } else if w == "BIGVEE"@ {
        Some("⋁"@)
    } else if w == "BIGWEDGE"@ {
        Some("⋀"@)
    } else if w == "BIGOPLUS"@ {
        Some("⨁"@)
    } else if w == "BIGOTIMES"@ {
        Some("⨂"@)
    } else if w == "BIGODOT"@ {
        Some("⨀"@)
    } else if w == "BIGSQCUP"@ {
        Some("⨆"@)
    } else {
        None
    }
}

fn lookup_big_operation(w: &str) -> (r: Option<&'static str>)
    ensures
        chars_opt(r) == big_operation(w@),
{
    if str_eq(w, "SUM") {
        Some("∑")
    } else if str_eq(w, "PROD") {
        Some("∏")
    } else if str_eq(w, "COPROD") {
        Some("∐")
    } else if str_eq(w, "UNION") {
        Some("⋃")
    } else if str_eq(w, "INTER") {
        Some("⋂")
    } else if str_eq(w, "BIGCUP") {
        Some("⋃")
    } else if str_eq(w, "BIGCAP") {
        Some("⋂")
    } else if str_eq(w, "BIGVEE") {
        Some("⋁")
    } else if str_eq(w, "BIGWEDGE") {
        Some("⋀")
    } else if str_eq(w, "BIGOPLUS") {
        Some("⨁")
    } else if str_eq(w, "BIGOTIMES") {
        Some("⨂")
    } else if str_eq(w, "BIGODOT") {
        Some("⨀")
    } else if str_eq(w, "BIGSQCUP") {
        Some("⨆")
    } else {
        None
    }
}

/// Integral signs, by their names in capitals.
pub open spec fn integral(w: Seq<char>) -> Option<Seq<char>> {
    if w == "INT"@ {
        Some("∫"@)
    } else if w == "INTEGRAL"@ {
        Some("∫"@)
    } else if w == "SMALLINT"@ {
        Some("∫"@)
    } else if w == "DINT"@ {
        Some("∬"@)
    } else if w == "TINT"@ {
        Some("∭"@)
    } else if w == "OINT"@ {
        Some("∮"@)
    } else if w == "SMALLOINT"@ {
        Some("∮"@)
    } else if w == "ODINT"@ {
        Some("∯"@)
    } else if w == "OTINT"@ {
        Some("∰"@)
    } else {
        None
    }
}

fn lookup_integral(w: &str) -> (r: Option<&'static str>)
    ensures
        chars_opt(r) == integral(w@),
{
    if str_eq(w, "INT") {
        Some("∫")
    } else if str_eq(w, "INTEGRAL") {
        Some("∫")
    } else if str_eq(w, "SMALLINT") {
        Some("∫")
    } else if str_eq(w, "DINT") {
        Some("∬")
    } else if str_eq(w, "TINT") {
        Some("∭")
    } else if str_eq(w, "OINT") {
        Some("∮")
    } else if str_eq(w, "SMALLOINT") {
        Some("∮")
    } else if str_eq(w, "ODINT") {
        Some("∯")
    } else if str_eq(w, "OTINT") {
        Some("∰")
    } else {
        None
    }
}

/// Horizontal spaces, by their names in capitals.
pub open spec fn spacing(w: Seq<char>) -> Option<Seq<char>> {
    if w == "QUAD"@ {
        Some("\u{2003}"@)
    } else if w == "QQUAD"@ {
        Some("\u{2003}\u{2003}"@)
    } else if w == "THINSPACE"@ {
        Some("\u{2009}"@)
    } else if w == "MEDSPACE"@ {
        Some("\u{205F}"@)
    } else if w == "THICKSPACE"@ {
        Some("\u{2004}"@)
    } else if w == "NEGSPACE"@ {
        Some(""@)
    } else if w == "ENSPACE"@ {
        Some("\u{2002}"@)
    } else {
        None
    }
}

fn lookup_spacing(w: &str) -> (r: Option<&'static str>)
    ensures
        chars_opt(r) == spacing(w@),
{
    if str_eq(w, "QUAD") {
        Some("\u{2003}")
    } else if str_eq(w, "QQUAD") {
        Some("\u{2003}\u{2003}")
    } else if str_eq(w, "THINSPACE") {
        Some("\u{2009}")
    } else if str_eq(w, "MEDSPACE") {
        Some("\u{205F}")
    } else if str_eq(w, "THICKSPACE") {
        Some("\u{2004}")
    } else if str_eq(w, "NEGSPACE") {
        Some("")
    } else if str_eq(w, "ENSPACE") {
        Some("\u{2002}")
    } else {
        None
    }
}

/// The first of two table entries.
pub open spec fn or_else(a: Option<Seq<char>>, b: Option<Seq<char>>) -> Option<Seq<char>> {
    if a is Some {
        a
    } else {
        b
    }
}

/// The sign that a word names. Greek letters and arrows tell capitals from small letters;
/// every other name may be written in either case.
#[verifier::opaque]
pub open spec fn symbol(w: Seq<char>) -> Option<Seq<char>> {
    let u = upper(w);
    or_else(
        greek_small(w),
        or_else(
            greek_capital(w),
            or_else(
                arrow(w),
                or_else(
                    relation(u),
                    or_else(
                        operation(u),
                        or_else(
                            sign(u),
                            or_else(big_operation(u), or_else(integral(u), spacing(u))),
                        ),
                    ),
                ),
            ),
        ),
    )
}

/// The sign that a word names, if it names one.
pub fn lookup_symbol(w: &str) -> (r: Option<&'static str>)
    ensures
        chars_opt(r) == symbol(w@),
{
    proof {
        reveal(symbol);
    }
    let small = lookup_greek_small(w);
    if small.is_some() {
        return small;
    }
    let capital = lookup_greek_capital(w);
    if capital.is_some() {
        return capital;
    }
    let arr = lookup_arrow(w);
    if arr.is_some() {
        return arr;
    }
    let upper_word = to_upper(w);
    let u = upper_word.as_str();
    let rel = lookup_relation(u);
    if rel.is_some() {
        return rel;
    }
    let op = lookup_operation(u);
    if op.is_some() {
        return op;
    }
    let sgn = lookup_sign(u);
    if sgn.is_some() {
        return sgn;
    }
    let big = lookup_big_operation(u);
    if big.is_some() {
        return big;
    }
    let integ = lookup_integral(u);
    if integ.is_some() {
        return integ;
    }
    lookup_spacing(u)
}

/// Functions set in upright type, each under its own name.
pub open spec fn function(w: Seq<char>) -> Option<Seq<char>> {
    if w == "sin"@ {
        Some("sin"@)
    } else if w == "cos"@ {
        Some("cos"@)
    } else if w == "tan"@ {
        Some("tan"@)
    } else if w == "cot"@ {
        Some("cot"@)
    } else if w == "sec"@ {
        Some("sec"@)
    } else if w == "csc"@ {
        Some("csc"@)
    } else if w == "cosec"@ {
        Some("cosec"@)
    } else if w == "sinh"@ {
        Some("sinh"@)
    } else if w == "cosh"@ {
        Some("cosh"@)
    } else if w == "tanh"@ {
        Some("tanh"@)
    } else if w == "coth"@ {
        Some("coth"@)
    } else if w == "sech"@ {
        Some("sech"@)
    } else if w == "csch"@ {
        Some("csch"@)
    } else if w == "arcsin"@ {
        Some("arcsin"@)
    } else if w == "arccos"@ {
        Some("arccos"@)
    } else if w == "arctan"@ {
        Some("arctan"@)
    } else if w == "arc"@ {
        Some("arc"@)
    } else if w == "log"@ {
        Some("log"@)
    } else if w == "ln"@ {
        Some("ln"@)
    } else if w == "lg"@ {
        Some("lg"@)
    } else if w == "exp"@ {
        Some("exp"@)
    } else if w == "det"@ {
        Some("det"@)
    } else if w == "dim"@ {
        Some("dim"@)
    } else if w == "ker"@ {
        Some("ker"@)
    } else if w == "hom"@ {
        Some("hom"@)
    } else if w == "gcd"@ {
        Some("gcd"@)
    } else if w == "lcm"@ {
        Some("lcm"@)
    } else if w == "mod"@ {
        Some("mod"@)
    } else if w == "arg"@ {
        Some("arg"@)
    } else if w == "argmax"@ {
        Some("argmax"@)
    } else if w == "argmin"@ {
        Some("argmin"@)
    } else if w == "max"@ {
        Some("max"@)
    } else if w == "min"@ {
        Some("min"@)
    } else if w == "inf"@ {
        Some("inf"@)
    } else if w == "deg"@ {
        Some("deg"@)
    } else if w == "Pr"@ {
        Some("Pr"@)
    } else {
        None
    }
}

/// The name under which a function is set.
pub fn lookup_function(w: &str) -> (r: Option<&'static str>)
    ensures
        chars_opt(r) == function(w@),
{
    if str_eq(w, "sin") {
        Some("sin")
    } else if str_eq(w, "cos") {
        Some("cos")
    } else if str_eq(w, "tan") {
        Some("tan")
    } else if str_eq(w, "cot") {
        Some("cot")
    } else if str_eq(w, "sec") {
        Some("sec")
    } else if str_eq(w, "csc") {
        Some("csc")
    } else if str_eq(w, "cosec") {
        Some("cosec")
    } else if str_eq(w, "sinh") {
        Some("sinh")
    } else if str_eq(w, "cosh") {
        Some("cosh")
    } else if str_eq(w, "tanh") {
        Some("tanh")
    } else if str_eq(w, "coth") {
        Some("coth")
    } else if str_eq(w, "sech") {
        Some("sech")
    } else if str_eq(w, "csch") {
        Some("csch")
    } else if str_eq(w, "arcsin") {
        Some("arcsin")
    } else if str_eq(w, "arccos") {
        Some("arccos")
    } else if str_eq(w, "arctan") {
        Some("arctan")
    } else if str_eq(w, "arc") {
        Some("arc")
    } else if str_eq(w, "log") {
        Some("log")
    } else if str_eq(w, "ln") {
        Some("ln")
    } else if str_eq(w, "lg") {
        Some("lg")
    } else if str_eq(w, "exp") {
        Some("exp")
    } else if str_eq(w, "det") {
        Some("det")
    } else if str_eq(w, "dim") {
        Some("dim")
    } else if str_eq(w, "ker") {
        Some("ker")
    } else if str_eq(w, "hom") {
        Some("hom")
    } else if str_eq(w, "gcd") {
        Some("gcd")
    } else if str_eq(w, "lcm") {
        Some("lcm")
    } else if str_eq(w, "mod") {
        Some("mod")
    } else if str_eq(w, "arg") {
        Some("arg")
    } else if str_eq(w, "argmax") {
        Some("argmax")
    } else if str_eq(w, "argmin") {
        Some("argmin")
    } else if str_eq(w, "max") {
        Some("max")
    } else if str_eq(w, "min") {
        Some("min")
    } else if str_eq(w, "inf") {
        Some("inf")
    } else if str_eq(w, "deg") {
        Some("deg")
    } else if str_eq(w, "Pr") {
        Some("Pr")
    } else {
        None
    }
}

/// Whether a word names a function.
pub fn is_function(w: &str) -> (r: bool)
    ensures
        r == function(w@) is Some,
{
    lookup_function(w).is_some()
}

/// Whether a word in capitals names an operator with scripts above and below.
pub fn is_big_operator(w: &str) -> (r: bool)
    ensures
        r == big_operation(w@) is Some,
{
    lookup_big_operation(w).is_some()
}

/// Commands that shape their surroundings, by their names in capitals.
pub open spec fn structure_command(w: Seq<char>) -> bool {
    ||| w == "OVER"@
    ||| w == "ATOP"@
    ||| w == "LEFT"@
    ||| w == "RIGHT"@
    ||| w == "SQRT"@
    ||| w == "ROOT"@
    ||| w == "FRAC"@
    ||| w == "DFRAC"@
    ||| w == "TFRAC"@
    ||| w == "MATRIX"@
    ||| w == "PMATRIX"@
    ||| w == "BMATRIX"@
    ||| w == "DMATRIX"@
    ||| w == "CASES"@
    ||| w == "EQALIGN"@
    ||| w == "PILE"@
    ||| w == "LPILE"@
    ||| w == "RPILE"@
    ||| w == "REL"@
    ||| w == "BUILDREL"@
    ||| w == "LONGDIV"@
    ||| w == "LADDER"@
    ||| w == "SLADDER"@
    ||| w == "CHOOSE"@
    ||| w == "BINOM"@
    ||| w == "COLOR"@
    ||| w == "BEGIN"@
    ||| w == "END"@
}

/// Commands that shape their surroundings, by their names in capitals.
pub fn is_structure_command(w: &str) -> (r: bool)
    ensures
        r == structure_command(w@),
{
    str_eq(w, "OVER")
        || str_eq(w, "ATOP")
        || str_eq(w, "LEFT")
        || str_eq(w, "RIGHT")
        || str_eq(w, "SQRT")
        || str_eq(w, "ROOT")
        || str_eq(w, "FRAC")
        || str_eq(w, "DFRAC")
        || str_eq(w, "TFRAC")
        || str_eq(w, "MATRIX")
        || str_eq(w, "PMATRIX")
        || str_eq(w, "BMATRIX")
        || str_eq(w, "DMATRIX")
        || str_eq(w, "CASES")
        || str_eq(w, "EQALIGN")
        || str_eq(w, "PILE")
        || str_eq(w, "LPILE")
        || str_eq(w, "RPILE")
        || str_eq(w, "REL")
        || str_eq(w, "BUILDREL")
        || str_eq(w, "LONGDIV")
        || str_eq(w, "LADDER")
        || str_eq(w, "SLADDER")
        || str_eq(w, "CHOOSE")
        || str_eq(w, "BINOM")
        || str_eq(w, "COLOR")
        || str_eq(w, "BEGIN")
        || str_eq(w, "END")
}

/// The mark that a word puts on a body.
pub open spec fn decoration(w: Seq<char>) -> Option<DecoKind> {
    if w == "hat"@ {
        Some(DecoKind::Hat)
    } else if w == "check"@ {
        Some(DecoKind::Check)
    } else if w == "tilde"@ {
        Some(DecoKind::Tilde)
    } else if w == "acute"@ {
        Some(DecoKind::Acute)
    } else if w == "grave"@ {
        Some(DecoKind::Grave)
    } else if w == "dot"@ {
        Some(DecoKind::Dot)
    } else if w == "ddot"@ {
        Some(DecoKind::DDot)
    } else if w == "bar"@ {
        Some(DecoKind::Bar)
    } else if w == "vec"@ {
        Some(DecoKind::Vec)
    } else if w == "dyad"@ {
        Some(DecoKind::Dyad)
    } else if w == "under"@ {
        Some(DecoKind::Under)
    } else if w == "arch"@ {
        Some(DecoKind::Arch)
    } else if w == "overline"@ {
        Some(DecoKind::Overline)
    } else if w == "underline"@ {
        Some(DecoKind::Underline)
    } else if w == "not"@ {
        Some(DecoKind::StrikeThrough)
    } else if w == "widehat"@ {
        Some(DecoKind::Hat)
    } else if w == "widetilde"@ {
        Some(DecoKind::Tilde)
    } else if w == "overrightarrow"@ {
        Some(DecoKind::Vec)
    } else if w == "HAT"@ {
        Some(DecoKind::Hat)
    } else if w == "CHECK"@ {
        Some(DecoKind::Check)
    } else if w == "TILDE"@ {
        Some(DecoKind::Tilde)
    } else if w == "ACUTE"@ {
        Some(DecoKind::Acute)
    } else if w == "GRAVE"@ {
        Some(DecoKind::Grave)
    } else if w == "DOT"@ {
        Some(DecoKind::Dot)
    } else if w == "DDOT"@ {
        Some(DecoKind::DDot)
    } else if w == "BAR"@ {
        Some(DecoKind::Bar)
    } else if w == "VEC"@ {
        Some(DecoKind::Vec)
    } else if w == "DYAD"@ {
        Some(DecoKind::Dyad)
    } else if w == "UNDER"@ {
        Some(DecoKind::Under)
    } else if w == "ARCH"@ {
        Some(DecoKind::Arch)
    } else if w == "OVERLINE"@ {
        Some(DecoKind::Overline)
    } else if w == "UNDERLINE"@ {
        Some(DecoKind::Underline)
    } else if w == "NOT"@ {
        Some(DecoKind::StrikeThrough)
    } else {
        None
    }
}

/// The mark that a word puts on a body.
pub fn lookup_decoration(w: &str) -> (r: Option<DecoKind>)
    ensures
        r == decoration(w@),
{
    if str_eq(w, "hat") {
        Some(DecoKind::Hat)
    } else if str_eq(w, "check") {
        Some(DecoKind::Check)
    } else if str_eq(w, "tilde") {
        Some(DecoKind::Tilde)
    } else if str_eq(w, "acute") {
        Some(DecoKind::Acute)
    } else if str_eq(w, "grave") {
        Some(DecoKind::Grave)
    } else if str_eq(w, "dot") {
        Some(DecoKind::Dot)
    } else if str_eq(w, "ddot") {
        Some(DecoKind::DDot)
    } else if str_eq(w, "bar") {
        Some(DecoKind::Bar)
    } else if str_eq(w, "vec") {
        Some(DecoKind::Vec)
    } else if str_eq(w, "dyad") {
        Some(DecoKind::Dyad)
    } else if str_eq(w, "under") {
        Some(DecoKind::Under)
    } else if str_eq(w, "arch") {
        Some(DecoKind::Arch)
    } else if str_eq(w, "overline") {
        Some(DecoKind::Overline)
    } else if str_eq(w, "underline") {
        Some(DecoKind::Underline)
    } else if str_eq(w, "not") {
        Some(DecoKind::StrikeThrough)
    } else if str_eq(w, "widehat") {
        Some(DecoKind::Hat)
    } else if str_eq(w, "widetilde") {
        Some(DecoKind::Tilde)
    } else if str_eq(w, "overrightarrow") {
        Some(DecoKind::Vec)
    } else if str_eq(w, "HAT") {
        Some(DecoKind::Hat)
    } else if str_eq(w, "CHECK") {
        Some(DecoKind::Check)
    } else if str_eq(w, "TILDE") {
        Some(DecoKind::Tilde)
    } else if str_eq(w, "ACUTE") {
        Some(DecoKind::Acute)
    } else if str_eq(w, "GRAVE") {
        Some(DecoKind::Grave)
    } else if str_eq(w, "DOT") {
        Some(DecoKind::Dot)
    } else if str_eq(w, "DDOT") {
        Some(DecoKind::DDot)
    } else if str_eq(w, "BAR") {
        Some(DecoKind::Bar)
    } else if str_eq(w, "VEC") {
        Some(DecoKind::Vec)
    } else if str_eq(w, "DYAD") {
        Some(DecoKind::Dyad)
    } else if str_eq(w, "UNDER") {
        Some(DecoKind::Under)
    } else if str_eq(w, "ARCH") {
        Some(DecoKind::Arch)
    } else if str_eq(w, "OVERLINE") {
        Some(DecoKind::Overline)
    } else if str_eq(w, "UNDERLINE") {
        Some(DecoKind::Underline)
    } else if str_eq(w, "NOT") {
        Some(DecoKind::StrikeThrough)
    } else {
        None
    }
}

/// The type face that a word selects.
pub open spec fn font_style(w: Seq<char>) -> Option<FontStyleKind> {
    if w == "rm"@ {
        Some(FontStyleKind::Roman)
    } else if w == "it"@ {
        Some(FontStyleKind::Italic)
    } else if w == "bold"@ {
        Some(FontStyleKind::Bold)
    } else if w == "mathrm"@ {
        Some(FontStyleKind::Roman)
    } else if w == "mathit"@ {
        Some(FontStyleKind::Italic)
    } else if w == "mathbf"@ {
        Some(FontStyleKind::Bold)
    } else if w == "mathbb"@ {
        Some(FontStyleKind::Blackboard)
    } else if w == "mathcal"@ {
        Some(FontStyleKind::Calligraphy)
    } else if w == "mathfrak"@ {
        Some(FontStyleKind::Fraktur)
    } else if w == "mathsf"@ {
        Some(FontStyleKind::SansSerif)
    } else if w == "mathtt"@ {
        Some(FontStyleKind::Monospace)
    } else if w == "RM"@ {
        Some(FontStyleKind::Roman)
    } else if w == "IT"@ {
        Some(FontStyleKind::Italic)
    } else if w == "BOLD"@ {
        Some(FontStyleKind::Bold)
    } else {
        None
    }
}

/// The type face that a word selects.
pub fn lookup_font_style(w: &str) -> (r: Option<FontStyleKind>)
    ensures
        r == font_style(w@),
{
    if str_eq(w, "rm") {
        Some(FontStyleKind::Roman)
    } else if str_eq(w, "it") {
        Some(FontStyleKind::Italic)
    } else if str_eq(w, "bold") {
        Some(FontStyleKind::Bold)
    } else if str_eq(w, "mathrm") {
        Some(FontStyleKind::Roman)
    } else if str_eq(w, "mathit") {
        Some(FontStyleKind::Italic)
    } else if str_eq(w, "mathbf") {
        Some(FontStyleKind::Bold)
    } else if str_eq(w, "mathbb") {
        Some(FontStyleKind::Blackboard)
    } else if str_eq(w, "mathcal") {
        Some(FontStyleKind::Calligraphy)
    } else if str_eq(w, "mathfrak") {
        Some(FontStyleKind::Fraktur)
    } else if str_eq(w, "mathsf") {
        Some(FontStyleKind::SansSerif)
    } else if str_eq(w, "mathtt") {
        Some(FontStyleKind::Monospace)
    } else if str_eq(w, "RM") {
        Some(FontStyleKind::Roman)
    } else if str_eq(w, "IT") {
        Some(FontStyleKind::Italic)
    } else if str_eq(w, "BOLD") {
        Some(FontStyleKind::Bold)
    } else {
        None
    }
}

} // verus!
