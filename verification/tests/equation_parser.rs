//! Scripts and the trees that they parse to.

use rhwp::renderer::equation::ast::{DecoKind, EqNode, FontStyleKind, MatrixStyle};
use rhwp::renderer::equation::parser::parse;
use rhwp::renderer::equation::tokenizer::{tokenize, TokenType};

fn has_infinity(node: &EqNode) -> bool {
    match node {
        EqNode::MathSymbol(s) if s == "∞" => true,
        EqNode::Row(ch) => ch.iter().any(has_infinity),
        EqNode::Subscript { base, sub } => has_infinity(base) || has_infinity(sub),
        EqNode::Superscript { base, sup } => has_infinity(base) || has_infinity(sup),
        EqNode::Limit { sub, .. } => sub.as_ref().map_or(false, |s| has_infinity(s)),
        _ => false,
    }
}

fn contains_degree(node: &EqNode) -> bool {
    match node {
        EqNode::MathSymbol(s) if s == "°" => true,
        EqNode::Row(children) => children.iter().any(contains_degree),
        _ => false,
    }
}

#[test]
fn test_simple_fraction() {
    let ast = parse("1 over 2");
    match &ast {
        EqNode::Fraction { numer, denom } => {
            assert!(matches!(numer.as_ref(), EqNode::Number(n) if n == "1"));
            assert!(matches!(denom.as_ref(), EqNode::Number(n) if n == "2"));
        }
        _ => panic!("Expected Fraction, got {:?}", ast),
    }
}

#[test]
fn test_task1122_over_followed_by_number_parses_as_fraction() {
    for (script, expected_numer, expected_denom) in [
        ("11 over20", "11", "20"),
        ("3 over5", "3", "5"),
        ("7 OVER10", "7", "10"),
        ("{8} over {13}", "8", "13"),
    ] {
        let ast = parse(script);
        match &ast {
            EqNode::Fraction { numer, denom } => {
                assert!(
                    matches!(numer.as_ref(), EqNode::Number(n) if n == expected_numer),
                    "unexpected numerator for {script:?}: {ast:?}"
                );
                assert!(
                    matches!(denom.as_ref(), EqNode::Number(n) if n == expected_denom),
                    "unexpected denominator for {script:?}: {ast:?}"
                );
            }
            _ => panic!("Expected Fraction for {script:?}, got {:?}", ast),
        }
    }
}

#[test]
fn test_task1122_over_prefix_non_numeric_identifiers_parse_as_text() {
    let ast = parse("overlap");
    assert!(matches!(ast, EqNode::Text(ref t) if t == "overlap"));

    let ast = parse(r"\overline{AB}");
    assert!(
        matches!(
            ast,
            EqNode::Decoration {
                kind: DecoKind::Overline,
                ..
            }
        ),
        r"Expected Decoration(Overline), got {:?}",
        ast
    );
}

#[test]
fn test_atop() {
    let ast = parse("a atop b");
    match &ast {
        EqNode::Atop { top, bottom } => {
            assert!(matches!(top.as_ref(), EqNode::Text(t) if t == "a"));
            assert!(matches!(bottom.as_ref(), EqNode::Text(t) if t == "b"));
        }
        _ => panic!("Expected Atop, got {:?}", ast),
    }
}

#[test]
fn test_superscript() {
    let ast = parse("E=mc^2");
    // E = mc^2 → Row([Text("E"), Symbol("="), Superscript(Text("mc"), Number("2"))])
    match &ast {
        EqNode::Row(children) => {
            assert!(children.len() >= 3);
            assert!(matches!(&children[2], EqNode::Superscript { .. }));
        }
        _ => panic!("Expected Row, got {:?}", ast),
    }
}

#[test]
fn test_sqrt() {
    let ast = parse("SQRT x");
    match &ast {
        EqNode::Sqrt { index, body } => {
            assert!(index.is_none());
            assert!(matches!(body.as_ref(), EqNode::Text(t) if t == "x"));
        }
        _ => panic!("Expected Sqrt, got {:?}", ast),
    }
}

#[test]
fn test_sqrt_with_index() {
    let ast = parse("SQRT(3) of x");
    match &ast {
        EqNode::Sqrt { index, body } => {
            assert!(index.is_some());
            assert!(matches!(body.as_ref(), EqNode::Text(t) if t == "x"));
        }
        _ => panic!("Expected Sqrt with index, got {:?}", ast),
    }
}

#[test]
fn test_greek() {
    let ast = parse("alpha + beta");
    match &ast {
        EqNode::Row(children) => {
            assert!(matches!(&children[0], EqNode::MathSymbol(s) if s == "α"));
            assert!(matches!(&children[1], EqNode::Symbol(s) if s == "+"));
            assert!(matches!(&children[2], EqNode::MathSymbol(s) if s == "β"));
        }
        _ => panic!("Expected Row, got {:?}", ast),
    }
}

#[test]
fn test_integral() {
    // An integral takes ordinary scripts.
    let ast = parse("INT_0^{inf}");
    match &ast {
        EqNode::SubSup { base, sub, sup } => {
            assert!(matches!(base.as_ref(), EqNode::MathSymbol(s) if s == "∫"));
        }
        _ => panic!("Expected SubSup, got {:?}", ast),
    }
}

#[test]
fn test_sum() {
    let ast = parse("SUM_{i=0}^n");
    match &ast {
        EqNode::BigOp { symbol, sub, sup } => {
            assert_eq!(symbol, "∑");
            assert!(sub.is_some());
            assert!(sup.is_some());
        }
        _ => panic!("Expected BigOp, got {:?}", ast),
    }
}

#[test]
fn test_limit() {
    let ast = parse("lim_{x->0}");
    match &ast {
        EqNode::Limit { is_upper, sub } => {
            assert!(!is_upper);
            assert!(sub.is_some());
        }
        _ => panic!("Expected Limit, got {:?}", ast),
    }
}

#[test]
fn test_matrix() {
    let ast = parse("matrix{a & b # c & d}");
    match &ast {
        EqNode::Matrix { rows, style } => {
            assert_eq!(*style, MatrixStyle::Plain);
            assert_eq!(rows.len(), 2);
            assert_eq!(rows[0].len(), 2);
            assert_eq!(rows[1].len(), 2);
        }
        _ => panic!("Expected Matrix, got {:?}", ast),
    }
}

#[test]
fn test_left_right() {
    let ast = parse("LEFT ( a over b RIGHT )");
    match &ast {
        EqNode::Paren { left, right, body } => {
            assert_eq!(left, "(");
            assert_eq!(right, ")");
            assert!(matches!(body.as_ref(), EqNode::Fraction { .. }));
        }
        _ => panic!("Expected Paren, got {:?}", ast),
    }
}

#[test]
fn test_decoration() {
    let ast = parse("hat x");
    match &ast {
        EqNode::Decoration { kind, body } => {
            assert_eq!(*kind, DecoKind::Hat);
            assert!(matches!(body.as_ref(), EqNode::Text(t) if t == "x"));
        }
        _ => panic!("Expected Decoration, got {:?}", ast),
    }
}

#[test]
fn test_font_style() {
    let ast = parse("rm abc");
    match &ast {
        EqNode::FontStyle { style, body } => {
            assert_eq!(*style, FontStyleKind::Roman);
        }
        _ => panic!("Expected FontStyle, got {:?}", ast),
    }
}

#[test]
fn test_cases() {
    let ast = parse("CASES{ 1 & x>0 # -1 & x<0 }");
    match &ast {
        EqNode::Cases { rows } => {
            assert_eq!(rows.len(), 2);
        }
        _ => panic!("Expected Cases, got {:?}", ast),
    }
}

#[test]
fn test_sample_eq01_script() {
    let script =
        "평점=입찰가격평가~배점한도 TIMES  LEFT ( {최저입찰가격} over {해당입찰가격} RIGHT )";
    let ast = parse(script);
    match &ast {
        EqNode::Row(children) => {
            assert!(children.len() > 1);
            let has_paren = children.iter().any(|c| matches!(c, EqNode::Paren { .. }));
            assert!(has_paren, "Should contain Paren node");
        }
        _ => {}
    }
}

#[test]
fn test_cos_fraction_with_left_right() {
    // cos`left({pi} over {2}+theta right)=`-{1} over {5}`
    // OVER divides the groups next to it and nothing more.
    let script = " cos ` left({ pi} over {2}+ theta  right)=`-{1} over {5}`";
    let ast = parse(script);
    let ast_str = format!("{:?}", ast);
    assert!(ast_str.contains("cos"), "cos가 있어야 함");
    assert!(ast_str.contains("Paren"), "Paren이 있어야 함");
    assert!(
        ast_str.contains("Fraction { numer: Number(\"1\"), denom: Number(\"5\")"),
        "Fraction{{1,5}}가 있어야 함: {}",
        ast_str
    );
}

#[test]
fn test_latex_frac() {
    let ast = parse(r"\frac{1}{2}");
    match &ast {
        EqNode::Fraction { numer, denom } => {
            assert!(matches!(numer.as_ref(), EqNode::Number(n) if n == "1"));
            assert!(matches!(denom.as_ref(), EqNode::Number(n) if n == "2"));
        }
        _ => panic!("Expected Fraction, got {:?}", ast),
    }
}

#[test]
fn test_latex_quadratic_slice() {
    let ast = parse(r"x=\frac{-b \pm \sqrt{b^2}}{2a}");
    let ast_str = format!("{:?}", ast);
    assert!(
        ast_str.contains("Fraction"),
        "Fraction이 있어야 함: {}",
        ast_str
    );
    assert!(
        ast_str.contains("MathSymbol(\"±\")"),
        "± 기호가 있어야 함: {}",
        ast_str
    );
    assert!(ast_str.contains("Sqrt"), "Sqrt가 있어야 함: {}", ast_str);
}

#[test]
fn test_latex_sqrt_with_bracket_index() {
    let ast = parse(r"\sqrt[3]{x}");
    match &ast {
        EqNode::Sqrt { index, body } => {
            assert!(index.is_some(), "sqrt index가 있어야 함");
            assert!(matches!(body.as_ref(), EqNode::Text(t) if t == "x"));
        }
        _ => panic!("Expected indexed Sqrt, got {:?}", ast),
    }
}

#[test]
fn test_lim_fraction() {
    let script = " lim _{h ``rarrow`` 0} {f left(2+h  right)-f left(2  right)} over {h}`";
    let ast = parse(script);
    let ast_str = format!("{:?}", ast);
    assert!(ast_str.contains("Limit"), "Limit가 있어야 함: {}", ast_str);
    assert!(
        ast_str.contains("Fraction"),
        "Fraction이 있어야 함: {}",
        ast_str
    );
}

#[test]
fn test_bar_rm_it() {
    let script = "bar {{rm{AB}} it }< bar {{rm{AC}} it }`";
    let ast = parse(script);
    let ast_str = format!("{:?}", ast);
    assert!(ast_str.contains("Decoration"), "Decoration이 있어야 함");
    assert!(
        !ast_str.contains(r#"Text("}")"#),
        "brace가 텍스트로 나오면 안 됨"
    );
}

#[test]
fn test_cases_double_amp() {
    let script = "{cases{eqalign{``x^{3}#}&&eqalign{~LEFT(x LEQ 0 RIGHT)#}#``f LEFT(x RIGHT)&&~LEFT(x>0 RIGHT)}}";
    let ast = parse(script);
    let s = format!("{:?}", ast);
    assert!(s.contains("Tab"), "Tab이 있어야 함: {}", s);
}

#[test]
fn test_rm_p_left() {
    let script = "{rm{P}} it  left(A``|` B` right)";
    let ast = parse(script);
    let s = format!("{:?}", ast);
    assert!(s.contains("Paren"), "Paren이 있어야 함: {}", s);
}

#[test]
fn test_latex_dfrac_tfrac() {
    for cmd in [r"\dfrac{1}{2}", r"\tfrac{1}{2}"] {
        let ast = parse(cmd);
        assert!(
            matches!(&ast, EqNode::Fraction { .. }),
            "{cmd}: Expected Fraction, got {:?}",
            ast
        );
    }
}

#[test]
fn test_latex_mathrm() {
    let ast = parse(r"\mathrm{kg}");
    assert!(
        matches!(
            &ast,
            EqNode::FontStyle {
                style: FontStyleKind::Roman,
                ..
            }
        ),
        r"Expected FontStyle(Roman) for \mathrm, got {:?}",
        ast
    );
}

#[test]
fn test_latex_mathbf() {
    let ast = parse(r"\mathbf{F}");
    assert!(
        matches!(
            &ast,
            EqNode::FontStyle {
                style: FontStyleKind::Bold,
                ..
            }
        ),
        r"Expected FontStyle(Bold) for \mathbf, got {:?}",
        ast
    );
}

#[test]
fn test_latex_mathbb() {
    let ast = parse(r"\mathbb{R}");
    assert!(
        matches!(
            &ast,
            EqNode::FontStyle {
                style: FontStyleKind::Blackboard,
                ..
            }
        ),
        r"Expected FontStyle(Blackboard) for \mathbb, got {:?}",
        ast
    );
}

#[test]
fn test_latex_mathcal() {
    let ast = parse(r"\mathcal{L}");
    assert!(
        matches!(
            &ast,
            EqNode::FontStyle {
                style: FontStyleKind::Calligraphy,
                ..
            }
        ),
        r"Expected FontStyle(Calligraphy) for \mathcal, got {:?}",
        ast
    );
}

#[test]
fn test_latex_mathfrak_mathsf_mathtt() {
    let ast = parse(r"\mathfrak{g}");
    assert!(matches!(
        &ast,
        EqNode::FontStyle {
            style: FontStyleKind::Fraktur,
            ..
        }
    ));

    let ast = parse(r"\mathsf{AB}");
    assert!(matches!(
        &ast,
        EqNode::FontStyle {
            style: FontStyleKind::SansSerif,
            ..
        }
    ));

    let ast = parse(r"\mathtt{code}");
    assert!(matches!(
        &ast,
        EqNode::FontStyle {
            style: FontStyleKind::Monospace,
            ..
        }
    ));
}

#[test]
fn test_latex_text() {
    let ast = parse(r"\text{if }");
    assert!(
        matches!(
            &ast,
            EqNode::FontStyle {
                style: FontStyleKind::Roman,
                ..
            }
        ),
        r"Expected FontStyle(Roman) for \text, got {:?}",
        ast
    );
}

#[test]
fn test_latex_overline_lowercase() {
    let ast = parse(r"\overline{AB}");
    assert!(
        matches!(
            &ast,
            EqNode::Decoration {
                kind: DecoKind::Overline,
                ..
            }
        ),
        r"Expected Decoration(Overline) for \overline, got {:?}",
        ast
    );
}

#[test]
fn test_latex_underline_lowercase() {
    let ast = parse(r"\underline{x}");
    assert!(
        matches!(
            &ast,
            EqNode::Decoration {
                kind: DecoKind::Underline,
                ..
            }
        ),
        r"Expected Decoration(Underline) for \underline, got {:?}",
        ast
    );
}

#[test]
fn test_latex_widehat_widetilde() {
    let ast = parse(r"\widehat{ABC}");
    assert!(matches!(
        &ast,
        EqNode::Decoration {
            kind: DecoKind::Hat,
            ..
        }
    ));

    let ast = parse(r"\widetilde{x}");
    assert!(matches!(
        &ast,
        EqNode::Decoration {
            kind: DecoKind::Tilde,
            ..
        }
    ));
}

#[test]
fn test_latex_overrightarrow() {
    let ast = parse(r"\overrightarrow{AB}");
    assert!(matches!(
        &ast,
        EqNode::Decoration {
            kind: DecoKind::Vec,
            ..
        }
    ));
}

#[test]
fn test_latex_not_lowercase() {
    let ast = parse(r"\not{=}");
    assert!(
        matches!(
            &ast,
            EqNode::Decoration {
                kind: DecoKind::StrikeThrough,
                ..
            }
        ),
        r"Expected Decoration(StrikeThrough) for \not, got {:?}",
        ast
    );
}

#[test]
fn test_latex_quadratic_formula() {
    let ast = parse(r"x = \frac{-b \pm \sqrt{b^2 - 4ac}}{2a}");
    let s = format!("{:?}", ast);
    assert!(s.contains("Fraction"), "분수 있어야 함");
    assert!(s.contains("Sqrt"), "제곱근 있어야 함");
    assert!(s.contains("±"), "± 기호 있어야 함");
}

#[test]
fn test_latex_binom() {
    let ast = parse(r"\binom{n}{k}");
    assert!(
        matches!(&ast, EqNode::Paren { left, right, .. } if left == "(" && right == ")"),
        r"Expected Paren for \binom, got {:?}",
        ast
    );
}

#[test]
fn test_hwpeq_not_regressed() {
    assert!(matches!(parse("1 over 2"), EqNode::Fraction { .. }));
    assert!(matches!(parse("SQRT x"), EqNode::Sqrt { .. }));
    assert!(matches!(parse("SUM_{i=0}^n"), EqNode::BigOp { .. }));
    assert!(matches!(
        parse("rm abc"),
        EqNode::FontStyle {
            style: FontStyleKind::Roman,
            ..
        }
    ));
    assert!(matches!(parse("hat x"), EqNode::Decoration { .. }));
    assert!(matches!(
        parse("OVERLINE{abc}"),
        EqNode::Decoration {
            kind: DecoKind::Overline,
            ..
        }
    ));
}

#[test]
fn test_latex_begin_pmatrix() {
    let ast = parse(r"\begin{pmatrix} a & b \\ c & d \end{pmatrix}");
    match &ast {
        EqNode::Matrix { rows, style } => {
            assert_eq!(*style, MatrixStyle::Paren);
            assert_eq!(rows.len(), 2);
            assert_eq!(rows[0].len(), 2);
            assert_eq!(rows[1].len(), 2);
        }
        _ => panic!("Expected Matrix(Paren), got {:?}", ast),
    }
}

#[test]
fn test_latex_begin_bmatrix() {
    let ast = parse(r"\begin{bmatrix} 1 & 0 \\ 0 & 1 \end{bmatrix}");
    match &ast {
        EqNode::Matrix { rows, style } => {
            assert_eq!(*style, MatrixStyle::Bracket);
            assert_eq!(rows.len(), 2);
        }
        _ => panic!("Expected Matrix(Bracket), got {:?}", ast),
    }
}

#[test]
fn test_latex_begin_cases() {
    let ast = parse(r"\begin{cases} x & x > 0 \\ -x & x \leq 0 \end{cases}");
    match &ast {
        EqNode::Cases { rows } => {
            assert_eq!(rows.len(), 2);
        }
        _ => panic!("Expected Cases, got {:?}", ast),
    }
}

#[test]
fn test_latex_begin_aligned() {
    let ast = parse(r"\begin{aligned} a &= b + c \\ d &= e \end{aligned}");
    match &ast {
        EqNode::EqAlign { rows } => {
            assert_eq!(rows.len(), 2);
        }
        _ => panic!("Expected EqAlign, got {:?}", ast),
    }
}

#[test]
fn test_latex_backslash_backslash_tokenizes_as_newline() {
    let tokens = tokenize(r"a \\ b");
    let types: Vec<_> = tokens.iter().map(|t| t.ty).collect();
    assert!(
        types.contains(&TokenType::Whitespace),
        "\\\\는 Whitespace(#)로 토큰화돼야 함: {:?}",
        tokens
    );
}

#[test]
fn test_latex_operatorname() {
    let ast = parse(r"\operatorname{argmax}");
    match &ast {
        EqNode::FontStyle { style, body } => {
            assert_eq!(*style, FontStyleKind::Roman);
            assert!(format!("{:?}", body).contains("argmax"));
        }
        _ => panic!(
            r"Expected FontStyle(Roman) for \operatorname, got {:?}",
            ast
        ),
    }
}

#[test]
fn test_latex_spacing_quad() {
    let ast = parse(r"a \quad b");
    let s = format!("{:?}", ast);
    assert!(
        s.contains("Text") || s.contains("Symbol"),
        r"\quad should produce a text node: {}",
        s
    );
}

#[test]
fn test_latex_thin_space() {
    let tokens = tokenize(r"a \, b");
    let has_cmd = tokens
        .iter()
        .any(|t| t.ty == TokenType::Command && t.value == "THINSPACE");
    assert!(has_cmd, r"\, should tokenize as THINSPACE: {:?}", tokens);
}

#[test]
fn test_latex_rightarrow() {
    let ast = parse(r"\rightarrow");
    match &ast {
        EqNode::MathSymbol(s) => assert_eq!(s, "→"),
        _ => panic!(r"Expected → for \rightarrow, got {:?}", ast),
    }
}

#[test]
fn test_latex_implies() {
    let ast = parse(r"\implies");
    match &ast {
        EqNode::MathSymbol(s) => assert_eq!(s, "⇒"),
        _ => panic!(r"Expected ⇒ for \implies, got {:?}", ast),
    }
}

#[test]
fn test_latex_infty() {
    let ast = parse(r"\infty");
    match &ast {
        EqNode::MathSymbol(s) => assert_eq!(s, "∞"),
        _ => panic!(r"Expected ∞ for \infty, got {:?}", ast),
    }
}

#[test]
fn test_latex_nabla() {
    let ast = parse(r"\nabla");
    match &ast {
        EqNode::MathSymbol(s) => assert_eq!(s, "∇"),
        _ => panic!(r"Expected ∇ for \nabla, got {:?}", ast),
    }
}

#[test]
fn test_latex_leq_geq() {
    let ast = parse(r"a \leq b \geq c");
    let s = format!("{:?}", ast);
    assert!(
        s.contains("≤") && s.contains("≥"),
        r"\leq \geq should produce ≤ ≥: {}",
        s
    );
}

#[test]
fn test_latex_phantom() {
    let ast = parse(r"\phantom{x}");
    assert!(
        !matches!(ast, EqNode::Empty),
        r"\phantom should produce a space node, not Empty: {:?}",
        ast
    );
}

#[test]
fn test_latex_overset() {
    let ast = parse(r"\overset{n}{=}");
    match &ast {
        EqNode::Superscript { base, sup } => {
            assert!(format!("{:?}", base).contains("="));
            assert!(format!("{:?}", sup).contains("n"));
        }
        _ => panic!(r"Expected Superscript for \overset, got {:?}", ast),
    }
}

#[test]
fn test_latex_underset() {
    let ast = parse(r"\underset{x}{y}");
    match &ast {
        EqNode::Subscript { base, sub } => {
            assert!(format!("{:?}", base).contains("y"));
            assert!(format!("{:?}", sub).contains("x"));
        }
        _ => panic!(r"Expected Subscript for \underset, got {:?}", ast),
    }
}

#[test]
fn test_latex_stackrel() {
    let ast = parse(r"\stackrel{def}{=}");
    match &ast {
        EqNode::Superscript { sup, .. } => {
            let s = format!("{:?}", sup);
            assert!(
                s.contains("def"),
                r"\stackrel sup should contain 'def': {}",
                s
            );
        }
        _ => panic!(r"Expected Superscript for \stackrel, got {:?}", ast),
    }
}

#[test]
fn test_latex_begin_array() {
    let ast = parse(r"\begin{array} a & b \\ c & d \end{array}");
    match &ast {
        EqNode::Matrix { rows, .. } => {
            assert_eq!(rows.len(), 2);
            assert_eq!(rows[0].len(), 2);
        }
        _ => panic!(r"Expected Matrix for \begin{{array}}, got {:?}", ast),
    }
}

#[test]
fn test_latex_begin_smallmatrix() {
    let ast = parse(r"\begin{smallmatrix} 1 & 0 \\ 0 & 1 \end{smallmatrix}");
    match &ast {
        EqNode::Matrix { rows, .. } => {
            assert_eq!(rows.len(), 2);
        }
        _ => panic!(r"Expected Matrix for \begin{{smallmatrix}}, got {:?}", ast),
    }
}

#[test]
fn test_latex_begin_split() {
    let ast = parse(r"\begin{split} a &= b \\ c &= d \end{split}");
    match &ast {
        EqNode::EqAlign { rows } => {
            assert_eq!(rows.len(), 2);
        }
        _ => panic!(r"Expected EqAlign for \begin{{split}}, got {:?}", ast),
    }
}

#[test]
fn test_latex_escaped_braces() {
    let tokens = tokenize(r"\left\{ x \right\}");
    let types: Vec<_> = tokens.iter().map(|t| t.ty).collect();
    assert!(
        types.contains(&TokenType::LBrace),
        r"\{{ should tokenize as LBrace: {:?}",
        tokens
    );
}

#[test]
fn test_latex_langle_rangle() {
    let ast = parse(r"\left\langle x \right\rangle");
    match &ast {
        EqNode::Paren { left, right, .. } => {
            assert_eq!(left, "⟨");
            assert_eq!(right, "⟩");
        }
        _ => panic!(r"Expected Paren for \langle, got {:?}", ast),
    }
}

#[test]
fn test_hwpeq_inf_remains_symbol() {
    let ast = parse("lim _{n→inf}");
    assert!(
        has_infinity(&ast),
        "hwpeq 'inf' must produce ∞, not function text: {:?}",
        ast
    );
}

#[test]
fn test_hwpeq_deg_remains_symbol() {
    let ast = parse("90 deg");
    assert!(
        contains_degree(&ast),
        "hwpeq 'deg' must produce °, not function text: {:?}",
        ast
    );
}
