//! The grammar of equation scripts, construct by construct.

use rhwp::renderer::equation::ast::{EqNode, FontStyleKind, MatrixStyle, PileAlign, SpaceKind};
use rhwp::renderer::equation::commands::{classify, CommandKind};
use rhwp::renderer::equation::parser::{parse, EqParser};
use rhwp::renderer::equation::symbols::{
    is_big_operator, is_structure_command, lookup_function, lookup_symbol,
};
use rhwp::renderer::equation::tokenizer::{tokenize, TokenType};

fn text(s: &str) -> EqNode {
    EqNode::Text(s.to_string())
}

fn number(s: &str) -> EqNode {
    EqNode::Number(s.to_string())
}

fn symbol(s: &str) -> EqNode {
    EqNode::Symbol(s.to_string())
}

fn math(s: &str) -> EqNode {
    EqNode::MathSymbol(s.to_string())
}

fn fraction(numer: EqNode, denom: EqNode) -> EqNode {
    EqNode::Fraction {
        numer: Box::new(numer),
        denom: Box::new(denom),
    }
}

fn sup(base: EqNode, sup: EqNode) -> EqNode {
    EqNode::Superscript {
        base: Box::new(base),
        sup: Box::new(sup),
    }
}

fn sub(base: EqNode, sub: EqNode) -> EqNode {
    EqNode::Subscript {
        base: Box::new(base),
        sub: Box::new(sub),
    }
}

fn tab() -> EqNode {
    EqNode::Space(SpaceKind::Tab)
}

#[test]
fn empty_script_is_empty() {
    assert_eq!(parse(""), EqNode::Empty);
    assert_eq!(parse(" \t\r\n "), EqNode::Empty);
}

#[test]
fn tokens_of_a_small_script() {
    let tokens = tokenize("over12 ab1 3.5 \"q r\" ~`#& { } ( ) [ ] _ ^ + ->");
    let got: Vec<(TokenType, &str)> = tokens.iter().map(|t| (t.ty, t.value.as_str())).collect();
    assert_eq!(
        got,
        vec![
            (TokenType::Command, "over"),
            (TokenType::Number, "12"),
            (TokenType::Command, "ab1"),
            (TokenType::Number, "3.5"),
            (TokenType::Quoted, "q r"),
            (TokenType::Whitespace, "~"),
            (TokenType::Whitespace, "`"),
            (TokenType::Whitespace, "#"),
            (TokenType::Whitespace, "&"),
            (TokenType::LBrace, "{"),
            (TokenType::RBrace, "}"),
            (TokenType::LParen, "("),
            (TokenType::RParen, ")"),
            (TokenType::LBracket, "["),
            (TokenType::RBracket, "]"),
            (TokenType::Subscript, "_"),
            (TokenType::Superscript, "^"),
            (TokenType::Symbol, "+"),
            (TokenType::Symbol, "->"),
            (TokenType::Eof, ""),
        ]
    );
}

#[test]
fn end_mark_closes_every_token_list() {
    for script in ["", "a", "{", "\"open", "\\"] {
        let tokens = tokenize(script);
        assert_eq!(tokens.last().unwrap().ty, TokenType::Eof);
        assert_eq!(
            tokens.iter().filter(|t| t.ty == TokenType::Eof).count(),
            1
        );
    }
}

#[test]
fn infix_without_neighbours_has_empty_parts() {
    assert_eq!(parse("over"), fraction(EqNode::Empty, EqNode::Empty));
    assert_eq!(parse("a over"), fraction(text("a"), EqNode::Empty));
    assert_eq!(parse("over b"), fraction(EqNode::Empty, text("b")));
}

#[test]
fn infix_joins_only_its_neighbours() {
    assert_eq!(
        parse("a + b over c + d"),
        EqNode::Row(vec![
            text("a"),
            symbol("+"),
            fraction(text("b"), text("c")),
            symbol("+"),
            text("d"),
        ])
    );
    assert_eq!(
        parse("a over b over c"),
        fraction(fraction(text("a"), text("b")), text("c"))
    );
}

#[test]
fn infix_is_read_in_any_case() {
    for script in ["a over b", "a OVER b", "a OvEr b"] {
        assert_eq!(parse(script), fraction(text("a"), text("b")));
    }
}

#[test]
fn scripts_of_both_kinds_combine() {
    let both = EqNode::SubSup {
        base: Box::new(text("x")),
        sub: Box::new(number("1")),
        sup: Box::new(number("2")),
    };
    assert_eq!(parse("x_1^2"), both);
    assert_eq!(parse("x^2_1"), both);
    assert_eq!(parse("x`_1`^2"), both);
}

#[test]
fn scripts_on_a_given_base_take_up_all_tokens() {
    for script in ["_3^4", "^4_3", "`_3`^4", "`^4`_3", "_3`^4", "`^4_3"] {
        let mut parser = EqParser::new(tokenize(script));
        let node = parser.try_parse_scripts(text("x"));
        assert_eq!(
            node,
            EqNode::SubSup {
                base: Box::new(text("x")),
                sub: Box::new(number("3")),
                sup: Box::new(number("4")),
            }
        );
        assert_eq!(parser.pos, parser.tokens.len() - 1);
        assert!(parser.current().is_none());
    }
}

#[test]
fn thin_space_without_a_script_is_left() {
    let mut parser = EqParser::new(tokenize("_3`y"));
    assert_eq!(parser.try_parse_scripts(text("x")), sub(text("x"), number("3")));
    assert_eq!(parser.current().unwrap().value, "`");
}

#[test]
fn fraction_words_read_alike() {
    for word in ["frac", "dfrac", "tfrac", "FRAC", "DFrac", "tFRAC"] {
        for (arguments, expected, pos) in [
            ("1 2 3", fraction(number("1"), number("2")), 2),
            ("{1}{2}", fraction(number("1"), number("2")), 6),
            ("1", fraction(number("1"), EqNode::Empty), 1),
            ("1 } 2", fraction(number("1"), EqNode::Empty), 1),
            ("} 1", fraction(EqNode::Empty, EqNode::Empty), 0),
            ("", fraction(EqNode::Empty, EqNode::Empty), 0),
        ] {
            let mut parser = EqParser::new(tokenize(arguments));
            assert_eq!(parser.parse_command(word), expected);
            assert_eq!(parser.pos, pos);
        }
    }
}

#[test]
fn elements_advance_up_to_the_end() {
    let mut parser = EqParser::new(tokenize("a } _ 1 {b} frac"));
    let mut read = Vec::new();
    while parser.current().is_some() {
        let before = parser.pos;
        read.push(parser.parse_element());
        assert!(parser.pos > before);
    }
    assert_eq!(
        read,
        vec![
            text("a"),
            EqNode::Empty,
            sub(EqNode::Empty, number("1")),
            text("b"),
            fraction(EqNode::Empty, EqNode::Empty),
        ]
    );
    let end = parser.pos;
    assert_eq!(parser.parse_element(), EqNode::Empty);
    assert_eq!(parser.pos, end);
}

#[test]
fn second_script_of_a_kind_starts_anew() {
    assert_eq!(
        parse("x^1^2"),
        EqNode::Row(vec![sup(text("x"), number("1")), sup(EqNode::Empty, number("2"))])
    );
}

#[test]
fn script_without_base_stands_on_nothing() {
    assert_eq!(parse("_{y}"), sub(EqNode::Empty, text("y")));
    assert_eq!(parse("^"), sup(EqNode::Empty, EqNode::Empty));
}

#[test]
fn closing_brace_is_left_by_an_argument() {
    assert_eq!(parse("{x^}y"), EqNode::Row(vec![sup(text("x"), EqNode::Empty), text("y")]));
}

#[test]
fn expression_ends_at_a_stray_closing_brace() {
    assert_eq!(parse("a } b"), text("a"));
    assert_eq!(parse("a right ) b"), text("a"));
    let mut parser = EqParser::new(tokenize("a } b"));
    assert_eq!(parser.parse(), text("a"));
    assert_eq!(parser.pos, 1);
    assert_eq!(parser.current().unwrap().ty, TokenType::RBrace);
}

#[test]
fn open_group_runs_to_the_end() {
    assert_eq!(parse("{a b"), EqNode::Row(vec![text("a"), text("b")]));
}

#[test]
fn marks_become_spaces() {
    assert_eq!(
        parse("~`#&"),
        EqNode::Row(vec![
            EqNode::Space(SpaceKind::Normal),
            EqNode::Space(SpaceKind::Thin),
            EqNode::Newline,
            EqNode::Space(SpaceKind::Tab),
        ])
    );
}

#[test]
fn arrow_sign_is_written_out() {
    assert_eq!(parse("->"), math("→"));
    assert_eq!(parse("x_->"), sub(text("x"), symbol("->")));
}

#[test]
fn roots_read_their_index() {
    let root = |index: Option<EqNode>, body: EqNode| EqNode::Sqrt {
        index: index.map(Box::new),
        body: Box::new(body),
    };
    assert_eq!(parse("sqrt {x}"), root(None, text("x")));
    assert_eq!(parse("root {3} of {x}"), root(Some(number("3")), text("x")));
    assert_eq!(
        parse("sqrt(n+1) of x"),
        root(
            Some(EqNode::Row(vec![text("n"), symbol("+"), number("1")])),
            text("x")
        )
    );
    assert_eq!(parse(r"\sqrt[3]{x}"), root(Some(number("3")), text("x")));
    assert_eq!(parse("sqrt {a} b"), EqNode::Row(vec![root(None, text("a")), text("b")]));
    assert_eq!(parse("sqrt"), root(None, EqNode::Empty));
}

#[test]
fn big_operators_take_limits_in_either_order() {
    let sum = EqNode::BigOp {
        symbol: "∑".to_string(),
        sub: Some(Box::new(text("i"))),
        sup: Some(Box::new(text("n"))),
    };
    assert_eq!(parse("sum_i^n"), sum);
    assert_eq!(parse("Sum^n_i"), sum);
    assert_eq!(
        parse("PROD"),
        EqNode::BigOp {
            symbol: "∏".to_string(),
            sub: None,
            sup: None,
        }
    );
}

#[test]
fn integrals_take_ordinary_scripts_in_any_case() {
    for script in ["int_0", "INT_0", "Int _0"] {
        assert_eq!(parse(script), sub(math("∫"), number("0")));
    }
    assert_eq!(parse("oint"), math("∮"));
}

#[test]
fn limits_tell_capitals_apart() {
    let limit = |is_upper: bool, under: Option<EqNode>| EqNode::Limit {
        is_upper,
        sub: under.map(Box::new),
    };
    assert_eq!(parse("lim_x"), limit(false, Some(text("x"))));
    assert_eq!(parse("Lim"), limit(true, None));
}

#[test]
fn matrices_keep_empty_cells_and_a_blank_last_row() {
    let matrix = |rows: Vec<Vec<EqNode>>, style: MatrixStyle| EqNode::Matrix { rows, style };
    assert_eq!(
        parse("pmatrix{a&#b&c}"),
        matrix(
            vec![vec![text("a"), EqNode::Empty], vec![text("b"), text("c")]],
            MatrixStyle::Paren
        )
    );
    assert_eq!(
        parse("bmatrix{a#}"),
        matrix(vec![vec![text("a")], vec![]], MatrixStyle::Bracket)
    );
    assert_eq!(parse("dmatrix{}"), matrix(vec![vec![]], MatrixStyle::Vert));
    assert_eq!(parse("ladder{a}"), matrix(vec![vec![text("a")]], MatrixStyle::Plain));
    assert_eq!(parse("matrix a"), EqNode::Row(vec![EqNode::Empty, text("a")]));
}

#[test]
fn matrices_divide_inside_cells() {
    assert_eq!(
        parse("matrix{a over b & c}"),
        EqNode::Matrix {
            rows: vec![vec![fraction(text("a"), text("b")), text("c")]],
            style: MatrixStyle::Plain,
        }
    );
}

#[test]
fn environments_drop_a_blank_last_row() {
    assert_eq!(
        parse(r"\begin{vmatrix} a & b \\ \end{vmatrix} c"),
        EqNode::Row(vec![
            EqNode::Matrix {
                rows: vec![vec![text("a"), text("b")]],
                style: MatrixStyle::Vert,
            },
            text("c"),
        ])
    );
    assert_eq!(
        parse(r"\begin{matrix}\end{matrix}"),
        EqNode::Matrix {
            rows: vec![],
            style: MatrixStyle::Plain,
        }
    );
}

#[test]
fn environment_names_are_read_in_any_case() {
    assert_eq!(
        parse(r"\begin{CASES} a \end{cases}"),
        EqNode::Cases {
            rows: vec![text("a")]
        }
    );
}

#[test]
fn unknown_environment_is_empty() {
    assert_eq!(
        parse(r"\begin{theorem} a \end{theorem}"),
        EqNode::Row(vec![EqNode::Empty, text("a"), EqNode::Empty])
    );
}

#[test]
fn aligned_environment_keeps_the_first_mark_only() {
    assert_eq!(
        parse(r"\begin{aligned} a & b & c \\ d \end{aligned}"),
        EqNode::EqAlign {
            rows: vec![
                (text("a"), EqNode::Row(vec![text("b"), text("c")])),
                (text("d"), EqNode::Empty),
            ]
        }
    );
}

#[test]
fn alignment_turns_marks_into_gaps() {
    assert_eq!(
        parse("eqalign{a&b#c&&d&&e#}"),
        EqNode::EqAlign {
            rows: vec![
                (text("a"), text("b")),
                (
                    text("c"),
                    EqNode::Row(vec![tab(), text("d"), tab(), tab(), text("e")])
                ),
            ]
        }
    );
    assert_eq!(
        parse("eqalign{#a over b & c atop d}"),
        EqNode::EqAlign {
            rows: vec![
                (EqNode::Empty, EqNode::Empty),
                (
                    fraction(text("a"), text("b")),
                    EqNode::Atop {
                        top: Box::new(text("c")),
                        bottom: Box::new(text("d")),
                    }
                ),
            ]
        }
    );
}

#[test]
fn cases_and_piles_keep_gaps_in_lines() {
    assert_eq!(
        parse("cases{a&&b#c}"),
        EqNode::Cases {
            rows: vec![
                EqNode::Row(vec![text("a"), tab(), tab(), text("b")]),
                text("c"),
            ]
        }
    );
    for (script, align) in [
        ("pile{a#b&c}", PileAlign::Center),
        ("lpile{a#b&c}", PileAlign::Left),
        ("rpile{a#b&c}", PileAlign::Right),
    ] {
        assert_eq!(
            parse(script),
            EqNode::Pile {
                rows: vec![text("a"), EqNode::Row(vec![text("b"), tab(), text("c")])],
                align,
            }
        );
    }
}

#[test]
fn fences_may_be_left_out() {
    let fenced = |left: &str, right: &str, body: EqNode| EqNode::Paren {
        left: left.to_string(),
        right: right.to_string(),
        body: Box::new(body),
    };
    assert_eq!(parse("left . a right |"), fenced("", "|", text("a")));
    assert_eq!(parse("left { a right }"), fenced("{", "}", text("a")));
    assert_eq!(parse("left ( a"), fenced("(", "", text("a")));
    assert_eq!(
        parse("left ( left [ a right ] right )"),
        fenced("(", ")", fenced("[", "]", text("a")))
    );
}

#[test]
fn relations_take_text_over_and_under() {
    assert_eq!(
        parse("rel -> {a}{b}"),
        EqNode::Rel {
            arrow: "→".to_string(),
            over: Box::new(text("a")),
            under: Some(Box::new(text("b"))),
        }
    );
    assert_eq!(
        parse("buildrel {1} {a} b"),
        EqNode::Row(vec![
            EqNode::Rel {
                arrow: "→".to_string(),
                over: Box::new(text("a")),
                under: None,
            },
            text("b"),
        ])
    );
}

#[test]
fn long_division_is_written_out() {
    assert_eq!(
        parse("longdiv {3}{4}{12}"),
        EqNode::Row(vec![
            number("4"),
            symbol("÷"),
            number("3"),
            symbol("="),
            number("12"),
        ])
    );
}

#[test]
fn choices_stand_in_parentheses() {
    let choice = |top: EqNode, bottom: EqNode| EqNode::Paren {
        left: "(".to_string(),
        right: ")".to_string(),
        body: Box::new(EqNode::Atop {
            top: Box::new(top),
            bottom: Box::new(bottom),
        }),
    };
    assert_eq!(parse("binom n k"), choice(text("n"), text("k")));
    assert_eq!(
        parse("n choose k"),
        EqNode::Row(vec![text("n"), choice(EqNode::Empty, text("k"))])
    );
}

#[test]
fn colours_take_three_bytes() {
    let color = |r: u8, g: u8, b: u8| EqNode::Color {
        r,
        g,
        b,
        body: Box::new(text("x")),
    };
    assert_eq!(parse("color{255,0,7}{x}"), color(255, 0, 7));
    assert_eq!(parse("color{256,1.5,3}x"), color(0, 0, 3));
    assert_eq!(parse("color{007 8}x"), color(7, 8, 0));
    assert_eq!(parse("color x"), EqNode::Row(vec![EqNode::Empty, text("x")]));
}

#[test]
fn left_scripts_and_script_words() {
    assert_eq!(parse("lsub 1 x"), sub(text("x"), number("1")));
    assert_eq!(parse("lsup 1 x"), sup(text("x"), number("1")));
    assert_eq!(parse("sup x_1"), sub(text("x"), number("1")));
}

#[test]
fn type_faces_spare_structure() {
    assert_eq!(
        parse("it left ( a right )"),
        EqNode::Row(vec![
            EqNode::FontStyle {
                style: FontStyleKind::Italic,
                body: Box::new(EqNode::Empty),
            },
            EqNode::Paren {
                left: "(".to_string(),
                right: ")".to_string(),
                body: Box::new(text("a")),
            },
        ])
    );
}

#[test]
fn thin_space_after_a_function_is_passed_over() {
    assert_eq!(
        parse("sin`x"),
        EqNode::Row(vec![EqNode::Function("sin".to_string()), text("x")])
    );
    assert_eq!(
        parse("log`_2 x"),
        EqNode::Row(vec![
            sub(EqNode::Function("log".to_string()), number("2")),
            text("x"),
        ])
    );
}

#[test]
fn signs_come_before_functions() {
    assert!(lookup_symbol("inf").is_some() && lookup_function("inf").is_some());
    assert_eq!(classify("inf"), CommandKind::Sign);
    assert_eq!(parse("inf"), math("∞"));
}

#[test]
fn words_of_structure_in_any_case() {
    for (a, b) in [
        ("SQRT", "sqrt"),
        ("Matrix", "mATRIX"),
        ("BUILDREL", "buildRel"),
        ("sum", "SUM"),
        ("begin", "BEGIN"),
    ] {
        assert_eq!(classify(a), classify(b));
    }
    assert!(is_big_operator("SUM") && !is_big_operator("sum"));
    assert!(is_structure_command("LEFT") && !is_structure_command("left"));
}

#[test]
fn spaces_and_placeholders() {
    assert_eq!(parse("benzene"), math("⌬"));
    assert_eq!(parse(r"\phantom{abc}"), text(" "));
    assert_eq!(parse("bigg x"), text("x"));
    assert_eq!(parse(r"\quad"), text("\u{2003}"));
    assert_eq!(parse(r"\end{x}"), EqNode::Empty);
    assert_eq!(parse("\"two words\"^2"), sup(EqNode::Quoted("two words".to_string()), number("2")));
}

#[test]
fn fraction_divides_outside_of_fences() {
    let mut parser = EqParser::new(tokenize("left ( a over b right ) over c d"));
    let inner = EqNode::Paren {
        left: "(".to_string(),
        right: ")".to_string(),
        body: Box::new(fraction(text("a"), text("b"))),
    };
    assert_eq!(
        parser.parse_fraction(),
        EqNode::Row(vec![fraction(inner, text("c")), text("d")])
    );
    assert_eq!(parser.pos, parser.tokens.len() - 1);
    let mut plain = EqParser::new(tokenize("{a over b} c"));
    assert_eq!(
        plain.parse_fraction(),
        EqNode::Row(vec![fraction(text("a"), text("b")), text("c")])
    );
    let mut long = EqParser::new(tokenize("x y over z"));
    assert_eq!(
        long.parse_fraction(),
        EqNode::Row(vec![text("x"), fraction(text("y"), text("z"))])
    );
}

#[test]
fn fraction_up_to_a_brace() {
    let mut parser = EqParser::new(tokenize("a b over c d } e"));
    assert_eq!(
        parser.parse_fraction_until_rbrace(),
        fraction(
            EqNode::Row(vec![text("a"), text("b")]),
            EqNode::Row(vec![text("c"), text("d")])
        )
    );
    assert_eq!(parser.pos, 5);
}

#[test]
fn fraction_in_a_range() {
    let mut parser = EqParser::new(tokenize("a b over c d e"));
    assert_eq!(
        parser.parse_fraction_in_range(5),
        EqNode::Row(vec![text("a"), fraction(text("b"), text("c")), text("d")])
    );
    assert_eq!(parser.pos, 5);
    let mut short = EqParser::new(tokenize("a over b"));
    assert_eq!(
        short.parse_fraction_in_range(1),
        fraction(text("a"), EqNode::Empty)
    );
    assert_eq!(short.pos, 1);
}

#[test]
fn top_level_over_is_told_apart() {
    for (script, expected) in [
        ("a over b", true),
        ("{a over b}", false),
        ("left ( a over b right )", false),
        ("{a} OVER b", true),
        ("} a over b", false),
        ("a", false),
    ] {
        assert_eq!(EqParser::has_toplevel_over(&tokenize(script)), expected, "{script}");
    }
}

#[test]
fn closing_right_is_found() {
    let parser = EqParser::new(tokenize("a left ( b right ) c right )"));
    assert_eq!(parser.find_right_pos(), 7);
    let open = EqParser::new(tokenize("a left ( b"));
    assert_eq!(open.find_right_pos(), open.tokens.len());
}

#[test]
fn advancing_stops_at_the_end() {
    let mut parser = EqParser::new(tokenize("a"));
    assert_eq!(parser.advance().unwrap().value, "a");
    assert!(parser.advance().is_none());
    assert!(parser.current().is_none());
    assert_eq!(parser.pos, 1);
    assert!(EqParser::cmd_eq("oVeR", "OVER"));
    assert!(!EqParser::cmd_eq("over", "overt"));
}

#[test]
fn single_rows_are_unwrapped() {
    assert_eq!(EqNode::Row(vec![]).simplify(), EqNode::Empty);
    assert_eq!(EqNode::Row(vec![text("a")]).simplify(), text("a"));
    assert_eq!(
        EqNode::Row(vec![text("a"), text("b")]).simplify(),
        EqNode::Row(vec![text("a"), text("b")])
    );
    assert_eq!(text("a").simplify(), text("a"));
}
