//! A recursive descent parser for equation scripts.

use super::ast::{
    lemma_trees_empty, lemma_trees_push, row_node, tree, tree_pairs, tree_rows, trees,
    EqNode, EqTree, FontStyleKind, MatrixStyle, PileAlign, SpaceKind,
};
use super::commands::{big_sign, classify, integral_sign, CommandKind};
use super::grammar::{
    after_marks, aligned, arg_len, around_over, big_op, boxed, brace_arg, braced_grid, byte_of,
    cases, choice, closing, closing_right, color, color_part, column_marks, command, command_at,
    decimal, divided, divided_in_range, divided_to_brace, element, ended, env_end_at, env_end_len,
    env_grid, env_kind, environment, expression, face_body, fence, fenced, first_cell, gap, grid,
    group, infix_at, infixed, joined, kind_at, law_element_advances, limit, limits, long_division,
    mark_at, matrix, name_len, no_grid, nodes, pile, relation_arrow, rest, root, script_at,
    scripted, scripts, second_cell, single, stops, taken, top_over, two, unsigned, word_at,
    Columns, EnvKind, Grid, Until,
};
use super::symbols::{is_structure_command, lookup_function, lookup_symbol};
use super::tokenizer::{tokenize, tokens_of, toks, Tok, Token, TokenType};
use crate::text::{chars_of, eq_ignore_case, same_word, str_eq, to_upper};
use vstd::prelude::*;

verus! {

broadcast use {lemma_trees_push, lemma_trees_empty};

/// A parser: the tokens of a script and the place of the next one to read.
pub struct EqParser {
    pub tokens: Vec<Token>,
    pub pos: usize,
}

/// The tree of an optional node.
pub open spec fn opt_tree(o: Option<EqNode>) -> Option<EqTree> {
    match o {
        Some(n) => Some(tree(n)),
        None => None,
    }
}

fn opt_box(o: Option<EqNode>) -> (r: Option<Box<EqNode>>)
    ensures
        boxed(opt_tree(o)) == match r {
            Some(n) => Some(Box::new(tree(*n))),
            None => None,
        },
{
    match o {
        Some(n) => Some(Box::new(n)),
        None => None,
    }
}

/// Where a list of nodes stops.
pub enum Bound<'a> {
    Close,
    CloseOrRight,
    CloseOrOver,
    Bracket,
    Paren,
    Place(usize),
    PlaceOrOver(usize),
    PlaceOrRight(usize),
    PlaceOrClose(usize),
    EnvEnd(&'a str),
}

impl<'a> View for Bound<'a> {
    type V = Until;

    open spec fn view(&self) -> Until {
        match *self {
            Bound::Close => Until::Close,
            Bound::CloseOrRight => Until::CloseOrRight,
            Bound::CloseOrOver => Until::CloseOrOver,
            Bound::Bracket => Until::Bracket,
            Bound::Paren => Until::Paren,
            Bound::Place(end) => Until::Place(end as nat),
            Bound::PlaceOrOver(end) => Until::PlaceOrOver(end as nat),
            Bound::PlaceOrRight(end) => Until::PlaceOrRight(end as nat),
            Bound::PlaceOrClose(end) => Until::PlaceOrClose(end as nat),
            Bound::EnvEnd(name) => Until::EnvEnd(name@),
        }
    }
}

impl EqParser {
    /// The tokens being read.
    pub open spec fn t(self) -> Seq<Tok> {
        toks(self.tokens@)
    }

    /// The place of the next token.
    pub open spec fn p(self) -> nat {
        self.pos as nat
    }

    /// Whether the parser has read `n` tokens more than another on the same script, and none
    /// past the last one.
    pub open spec fn moved(self, before: EqParser, n: nat) -> bool {
        &&& self.tokens == before.tokens
        &&& self.pos == before.pos + n
        &&& before.pos <= before.tokens.len() ==> self.pos <= self.tokens.len()
    }

    /// A parser at the start of a list of tokens.
    pub fn new(tokens: Vec<Token>) -> (r: EqParser)
        ensures
            r.tokens == tokens,
            r.pos == 0,
    {
        EqParser { tokens, pos: 0 }
    }

    /// The next token, unless the script has ended.
    pub fn current(&self) -> (r: Option<&Token>)
        ensures
            r is None <==> ended(self.t(), self.p()),
            r matches Some(tok) ==> self.pos < self.tokens.len() && *tok == self.tokens@[
                self.pos as int],
    {
        if self.at_end() {
            None
        } else {
            Some(&self.tokens[self.pos])
        }
    }

    fn current_type(&self) -> (r: TokenType)
        ensures
            r == kind_at(self.t(), self.p()),
    {
        if self.pos < self.tokens.len() {
            self.tokens[self.pos].ty
        } else {
            TokenType::Eof
        }
    }

    fn current_value(&self) -> (r: &str)
        ensures
            r@ == word_at(self.t(), self.p()),
    {
        if self.pos < self.tokens.len() {
            self.tokens[self.pos].value.as_str()
        } else {
            proof {
                reveal_strlit("");
            }
            assert(""@ =~= Seq::<char>::empty());
            ""
        }
    }

    fn current_word(&self) -> (r: String)
        ensures
            r@ == word_at(self.t(), self.p()),
    {
        self.current_value().to_owned()
    }

    fn at_end(&self) -> (r: bool)
        ensures
            r == ended(self.t(), self.p()),
    {
        self.current_type() == TokenType::Eof
    }

    /// Reads the next token, unless the script has ended.
    pub fn advance(&mut self) -> (r: Option<&Token>)
        ensures
            r is None <==> ended(old(self).t(), old(self).p()),
            r matches Some(tok) ==> old(self).pos < old(self).tokens.len() && *tok == old(
                self,
            ).tokens@[old(self).pos as int],
            final(self).moved(
                *old(self),
                if ended(old(self).t(), old(self).p()) {
                    0
                } else {
                    1
                },
            ),
    {
        if self.at_end() {
            return None;
        }
        let at: usize = self.pos;
        self.step();
        Some(&self.tokens[at])
    }

    /// Passes over the next token.
    fn step(&mut self)
        requires
            !ended(old(self).t(), old(self).p()),
        ensures
            final(self).moved(*old(self), 1),
    {
        let count: usize = self.tokens.len();
        assert(self.pos < count);
        self.pos = self.pos + 1;
    }

    /// Reads a token of the given kind if one stands next.
    fn expect(&mut self, ty: TokenType) -> (r: bool)
        requires
            ty != TokenType::Eof,
        ensures
            r == (kind_at(old(self).t(), old(self).p()) == ty),
            final(self).moved(*old(self), taken(old(self).t(), old(self).p(), ty)),
    {
        if self.current_type() == ty {
            self.step();
            true
        } else {
            false
        }
    }

    /// Whether two command words are the same, whatever the case of their letters.
    pub fn cmd_eq(val: &str, target: &str) -> (r: bool)
        ensures
            r == same_word(val@, target@),
    {
        eq_ignore_case(val, target)
    }

    fn at_command(&self, name: &str) -> (r: bool)
        ensures
            r == command_at(self.t(), self.p(), name@),
    {
        self.current_type() == TokenType::Command && Self::cmd_eq(self.current_value(), name)
    }

    fn at_mark(&self, mark: &str) -> (r: bool)
        ensures
            r == mark_at(self.t(), self.p(), mark@),
    {
        self.current_type() == TokenType::Whitespace && str_eq(self.current_value(), mark)
    }

    fn take_command(&mut self, name: &str) -> (r: bool)
        ensures
            r == command_at(old(self).t(), old(self).p(), name@),
            final(self).moved(
                *old(self),
                if command_at(old(self).t(), old(self).p(), name@) {
                    1
                } else {
                    0
                },
            ),
    {
        if self.at_command(name) {
            self.step();
            true
        } else {
            false
        }
    }

    /// Whether a list of nodes stops at the next token.
    fn at_bound(&self, bound: &Bound) -> (r: bool)
        ensures
            r == stops(self.t(), self.p(), bound@),
    {
        if self.at_end() {
            return true;
        }
        match bound {
            Bound::Close => self.current_type() == TokenType::RBrace,
            Bound::CloseOrRight => self.current_type() == TokenType::RBrace || self.at_command(
                "RIGHT",
            ),
            Bound::CloseOrOver => self.current_type() == TokenType::RBrace || self.at_command(
                "OVER",
            ),
            Bound::Bracket => self.current_type() == TokenType::RBracket,
            Bound::Paren => self.current_type() == TokenType::RParen,
            Bound::Place(end) => self.pos >= *end,
            Bound::PlaceOrOver(end) => self.pos >= *end || self.at_command("OVER"),
            Bound::PlaceOrRight(end) => self.pos >= *end || self.at_command("RIGHT"),
            Bound::PlaceOrClose(end) => self.pos >= *end || self.current_type()
                == TokenType::RBrace,
            Bound::EnvEnd(name) => self.at_latex_env_end(name),
        }
    }

    /// The whole equation.
    pub fn parse(&mut self) -> (r: EqNode)
        ensures
            r@ == expression(old(self).t(), old(self).p()).0,
            final(self).moved(*old(self), expression(old(self).t(), old(self).p()).1),
    {
        self.parse_expression()
    }

    /// Combines the last of the nodes read so far with the next element, if `OVER` or `ATOP`
    /// stands between them.
    fn try_consume_infix_over_atop(&mut self, children: &mut Vec<EqNode>) -> (r: bool)
        ensures
            r == infix_at(old(self).t(), old(self).p()),
            !r ==> *final(self) == *old(self) && *final(children) == *old(children),
            r ==> {
                let (bottom, n) = element(old(self).t(), old(self).p() + 1);
                &&& trees(final(children)@) == infixed(
                    old(self).t(),
                    old(self).p(),
                    trees(old(children)@),
                    bottom,
                )
                &&& final(self).moved(*old(self), 1 + n)
            },
        decreases rest(old(self).t(), old(self).p()), 1nat,
    {
        let is_over = self.at_command("OVER");
        let is_atop = self.at_command("ATOP");
        if !is_over && !is_atop {
            return false;
        }
        self.step();
        let ghost before = trees(children@);
        let top = match children.pop() {
            Some(n) => n,
            None => EqNode::Empty,
        };
        assert(before.len() > 0 ==> trees(children@) == before.drop_last() && tree(top)
            == before.last());
        let bottom = self.parse_element();
        children.push(
            if is_atop {
                EqNode::Atop { top: Box::new(top), bottom: Box::new(bottom) }
            } else {
                EqNode::Fraction { numer: Box::new(top), denom: Box::new(bottom) }
            },
        );
        true
    }

    /// The nodes up to a bound, combined by `OVER` and `ATOP` where `infix` says so.
    fn parse_nodes(&mut self, bound: &Bound, infix: bool) -> (r: Vec<EqNode>)
        ensures
            trees(r@) == nodes(old(self).t(), old(self).p(), bound@, infix, Seq::empty()).0,
            final(self).moved(
                *old(self),
                nodes(old(self).t(), old(self).p(), bound@, infix, Seq::empty()).1,
            ),
        decreases rest(old(self).t(), old(self).p()), 5nat,
    {
        let ghost all = nodes(self.t(), self.p(), bound@, infix, Seq::empty());
        let mut children: Vec<EqNode> = Vec::new();
        while !self.at_bound(bound)
            invariant
                self.tokens == old(self).tokens,
                old(self).pos <= self.tokens.len() ==> self.pos <= self.tokens.len(),
                self.pos >= old(self).pos,
                all.0 == nodes(self.t(), self.p(), bound@, infix, trees(children@)).0,
                all.1 == self.pos - old(self).pos + nodes(
                    self.t(),
                    self.p(),
                    bound@,
                    infix,
                    trees(children@),
                ).1,
            decreases rest(self.t(), self.p()),
        {
            if infix && self.try_consume_infix_over_atop(&mut children) {
                continue;
            }
            proof {
                law_element_advances(self.t(), self.p());
            }
            children.push(self.parse_element());
        }
        children
    }

    /// An expression, up to a closing brace or `RIGHT` that nothing opened.
    fn parse_expression(&mut self) -> (r: EqNode)
        ensures
            r@ == expression(old(self).t(), old(self).p()).0,
            final(self).moved(*old(self), expression(old(self).t(), old(self).p()).1),
        decreases rest(old(self).t(), old(self).p()), 6nat,
    {
        let children = self.parse_nodes(&Bound::CloseOrRight, true);
        row_node(children)
    }

    /// One element. At the end of the script it is empty and nothing is read; anywhere else a
    /// token is read at least.
    pub fn parse_element(&mut self) -> (r: EqNode)
        ensures
            ended(old(self).t(), old(self).p()) ==> r@ == EqTree::Empty && *final(self) == *old(
                self,
            ),
            !ended(old(self).t(), old(self).p()) ==> final(self).pos > old(self).pos,
            r@ == element(old(self).t(), old(self).p()).0,
            final(self).moved(*old(self), element(old(self).t(), old(self).p()).1),
        decreases rest(old(self).t(), old(self).p()), 4nat,
    {
        if self.at_end() {
            return EqNode::Empty;
        }
        let ty = self.current_type();
        let val = self.current_word();
        match ty {
            TokenType::Command => {
                self.step();
                self.parse_command(val.as_str())
            },
            TokenType::Number => {
                self.step();
                self.try_parse_scripts(EqNode::Number(val))
            },
            TokenType::Symbol => {
                self.step();
                if str_eq(val.as_str(), "->") {
                    EqNode::MathSymbol("→".to_owned())
                } else {
                    EqNode::Symbol(val)
                }
            },
            TokenType::Text => {
                self.step();
                self.try_parse_scripts(EqNode::Text(val))
            },
            TokenType::Quoted => {
                self.step();
                self.try_parse_scripts(EqNode::Quoted(val))
            },
            TokenType::Whitespace => {
                self.step();
                let mark = val.as_str();
                if str_eq(mark, "~") {
                    EqNode::Space(SpaceKind::Normal)
                } else if str_eq(mark, "`") {
                    EqNode::Space(SpaceKind::Thin)
                } else if str_eq(mark, "#") {
                    EqNode::Newline
                } else if str_eq(mark, "&") {
                    EqNode::Space(SpaceKind::Tab)
                } else {
                    EqNode::Empty
                }
            },
            TokenType::LBrace => {
                let inner = self.parse_group();
                self.try_parse_scripts(inner)
            },
            TokenType::LParen | TokenType::RParen | TokenType::LBracket | TokenType::RBracket => {
                self.step();
                EqNode::Symbol(val)
            },
            TokenType::Subscript | TokenType::Superscript => self.try_parse_scripts(EqNode::Empty),
            TokenType::RBrace => {
                self.step();
                EqNode::Empty
            },
            TokenType::Eof => EqNode::Empty,
        }
    }

    /// A braced group, or one element where no brace opens.
    fn parse_group(&mut self) -> (r: EqNode)
        ensures
            r@ == group(old(self).t(), old(self).p()).0,
            final(self).moved(*old(self), group(old(self).t(), old(self).p()).1),
        decreases
                rest(old(self).t(), old(self).p()),
                if kind_at(old(self).t(), old(self).p()) == TokenType::LBrace {
                    1nat
                } else {
                    5nat
                },
    {
        if !self.expect(TokenType::LBrace) {
            return self.parse_element();
        }
        let children = self.parse_nodes(&Bound::Close, true);
        self.expect(TokenType::RBrace);
        row_node(children)
    }

    /// An argument: a group or one token.
    fn parse_single_or_group(&mut self) -> (r: EqNode)
        ensures
            r@ == single(old(self).t(), old(self).p()).0,
            final(self).moved(*old(self), single(old(self).t(), old(self).p()).1),
        decreases rest(old(self).t(), old(self).p()), 3nat,
    {
        let ty = self.current_type();
        if ty == TokenType::Eof || ty == TokenType::RBrace {
            return EqNode::Empty;
        }
        if ty == TokenType::LBrace {
            return self.parse_group();
        }
        let val = self.current_word();
        self.step();
        match ty {
            TokenType::Command => {
                if let Some(s) = lookup_symbol(val.as_str()) {
                    EqNode::MathSymbol(s.to_owned())
                } else if let Some(f) = lookup_function(val.as_str()) {
                    EqNode::Function(f.to_owned())
                } else {
                    EqNode::Text(val)
                }
            },
            TokenType::Number => EqNode::Number(val),
            TokenType::Quoted => EqNode::Quoted(val),
            TokenType::Symbol => EqNode::Symbol(val),
            _ => EqNode::Text(val),
        }
    }

    /// A node with the scripts that follow it. A thin space before a script is passed over.
    pub fn try_parse_scripts(&mut self, base: EqNode) -> (r: EqNode)
        ensures
            r@ == scripted(old(self).t(), old(self).p(), base@).0,
            final(self).moved(*old(self), scripted(old(self).t(), old(self).p(), base@).1),
        decreases rest(old(self).t(), old(self).p()), 2nat,
    {
        let ghost all = scripts(self.t(), self.p(), None, None);
        let mut sub: Option<EqNode> = None;
        let mut sup: Option<EqNode> = None;
        loop
            invariant
                self.tokens == old(self).tokens,
                old(self).pos <= self.tokens.len() ==> self.pos <= self.tokens.len(),
                self.pos >= old(self).pos,
                all.0 == scripts(self.t(), self.p(), opt_tree(sub), opt_tree(sup)).0,
                all.1 == scripts(self.t(), self.p(), opt_tree(sub), opt_tree(sup)).1,
                all.2 == self.pos - old(self).pos + scripts(
                    self.t(),
                    self.p(),
                    opt_tree(sub),
                    opt_tree(sup),
                ).2,
            ensures
                self.tokens == old(self).tokens,
                old(self).pos <= self.tokens.len() ==> self.pos <= self.tokens.len(),
                all == (opt_tree(sub), opt_tree(sup), (self.pos - old(self).pos) as nat),
                self.pos >= old(self).pos,
            decreases rest(self.t(), self.p()),
        {
            if self.at_end() {
                break;
            }
            if self.at_mark("`") && self.script_follows() {
                self.step();
            }
            let ty = self.current_type();
            if ty == TokenType::Subscript && sub.is_none() {
                self.step();
                sub = Some(self.parse_single_or_group());
            } else if ty == TokenType::Superscript && sup.is_none() {
                self.step();
                sup = Some(self.parse_single_or_group());
            } else {
                break;
            }
        }
        match (sub, sup) {
            (Some(a), Some(b)) => EqNode::SubSup {
                base: Box::new(base),
                sub: Box::new(a),
                sup: Box::new(b),
            },
            (Some(a), None) => EqNode::Subscript { base: Box::new(base), sub: Box::new(a) },
            (None, Some(b)) => EqNode::Superscript { base: Box::new(base), sup: Box::new(b) },
            (None, None) => base,
        }
    }

    /// Whether the token after the next one is a script.
    fn script_follows(&self) -> (r: bool)
        ensures
            r == script_at(self.t(), self.p() + 1),
    {
        if self.pos < self.tokens.len() && self.pos + 1 < self.tokens.len() {
            let ty = self.tokens[self.pos + 1].ty;
            ty == TokenType::Subscript || ty == TokenType::Superscript
        } else {
            false
        }
    }

    /// Where the brace closes that was open before a place; the end where it does not.
    fn find_matching_brace(&self, start: usize) -> (r: usize)
        ensures
            start <= self.tokens.len() ==> r == closing(self.t(), start as nat, 1),
            start > self.tokens.len() ==> r == self.tokens.len(),
    {
        let mut depth: u128 = 1;
        let mut at: usize = start;
        while at < self.tokens.len()
            invariant
                start <= self.tokens.len() ==> at <= self.tokens.len(),
                start > self.tokens.len() ==> at == start,
                1 <= depth <= at + 1,
                closing(self.t(), start as nat, 1) == closing(self.t(), at as nat, depth as nat),
            decreases self.tokens.len() - at,
        {
            let ty = self.tokens[at].ty;
            if ty == TokenType::LBrace {
                depth = depth + 1;
            } else if ty == TokenType::RBrace {
                if depth == 1 {
                    return at;
                }
                depth = depth - 1;
            }
            at = at + 1;
        }
        self.tokens.len()
    }

    /// Where the `RIGHT` stands that closes the fence being read; the end where none does.
    pub fn find_right_pos(&self) -> (r: usize)
        ensures
            r == closing_right(self.t(), self.p(), 1),
    {
        let mut depth: u128 = 1;
        let mut at: usize = self.pos;
        while at < self.tokens.len()
            invariant
                1 <= depth <= at + 1,
                closing_right(self.t(), self.p(), 1) == closing_right(
                    self.t(),
                    at as nat,
                    depth as nat,
                ),
            decreases self.tokens.len() - at,
        {
            let tok = &self.tokens[at];
            if tok.ty == TokenType::Command {
                if Self::cmd_eq(tok.value.as_str(), "LEFT") {
                    depth = depth + 1;
                } else if Self::cmd_eq(tok.value.as_str(), "RIGHT") {
                    if depth == 1 {
                        return at;
                    }
                    depth = depth - 1;
                }
            }
            at = at + 1;
        }
        self.tokens.len()
    }

    /// The place of the first `OVER`, from a place on, outside of braces and fences.
    fn find_top_over(tokens: &[Token], from: usize) -> (r: Option<usize>)
        ensures
            match r {
                Some(at) => top_over(toks(tokens@), from as nat, 0, 0) == Some(at as nat),
                None => top_over(toks(tokens@), from as nat, 0, 0) is None,
            },
    {
        let mut braces: i128 = 0;
        let mut fences: i128 = 0;
        let mut at: usize = from;
        while at < tokens.len()
            invariant
                -at <= braces <= at,
                -at <= fences <= at,
                top_over(toks(tokens@), from as nat, 0, 0) == top_over(
                    toks(tokens@),
                    at as nat,
                    braces as int,
                    fences as int,
                ),
            decreases tokens.len() - at,
        {
            let tok = &tokens[at];
            match tok.ty {
                TokenType::LBrace => {
                    braces = braces + 1;
                },
                TokenType::RBrace => {
                    braces = braces - 1;
                },
                TokenType::Command => {
                    if Self::cmd_eq(tok.value.as_str(), "LEFT") {
                        fences = fences + 1;
                    } else if Self::cmd_eq(tok.value.as_str(), "RIGHT") {
                        fences = fences - 1;
                    } else if Self::cmd_eq(tok.value.as_str(), "OVER") && braces == 0 && fences
                        == 0 {
                        return Some(at);
                    }
                },
                _ => {},
            }
            at = at + 1;
        }
        None
    }

    /// Whether `OVER` stands anywhere in a list of tokens outside of braces and fences.
    pub fn has_toplevel_over(tokens: &[Token]) -> (r: bool)
        ensures
            r == (top_over(toks(tokens@), 0, 0, 0) is Some),
    {
        Self::find_top_over(tokens, 0).is_some()
    }

    /// Puts a fraction together from the nodes before `OVER`, the node behind it and the nodes
    /// after that.
    fn assemble_fraction(before: Vec<EqNode>, denom: EqNode, after: Vec<EqNode>) -> (r: EqNode)
        ensures
            r@ == around_over(trees(before@), denom@, trees(after@)),
    {
        let ghost all_before = trees(before@);
        let mut front = before;
        let mut after = after;
        let numer = if front.len() > 1 {
            match front.pop() {
                Some(last) => last,
                None => EqNode::Empty,
            }
        } else {
            let mut only: Vec<EqNode> = Vec::new();
            std::mem::swap(&mut only, &mut front);
            row_node(only)
        };
        assert(all_before.len() > 1 ==> trees(front@) == all_before.drop_last() && tree(numer)
            == all_before.last());
        front.push(EqNode::Fraction { numer: Box::new(numer), denom: Box::new(denom) });
        let ghost with_fraction = front@;
        let ghost rest_nodes = after@;
        front.append(&mut after);
        assert(trees(front@) =~= trees(with_fraction) + trees(rest_nodes));
        row_node(front)
    }

    /// An expression divided at its first `OVER` outside of braces and fences.
    pub fn parse_fraction(&mut self) -> (r: EqNode)
        ensures
            r@ == divided(old(self).t(), old(self).p()).0,
            final(self).moved(*old(self), divided(old(self).t(), old(self).p()).1),
    {
        match Self::find_top_over(self.tokens.as_slice(), self.pos) {
            None => self.parse_expression(),
            Some(over) => {
                let before = self.parse_nodes(&Bound::Place(over), false);
                self.take_command("OVER");
                let denom = self.parse_element();
                let after = self.parse_nodes(&Bound::CloseOrRight, false);
                Self::assemble_fraction(before, denom, after)
            },
        }
    }

    /// What stands before `OVER` over what stands behind it, up to a closing brace.
    pub fn parse_fraction_until_rbrace(&mut self) -> (r: EqNode)
        ensures
            r@ == divided_to_brace(old(self).t(), old(self).p()).0,
            final(self).moved(*old(self), divided_to_brace(old(self).t(), old(self).p()).1),
    {
        let numer = self.parse_nodes(&Bound::CloseOrOver, false);
        self.take_command("OVER");
        let denom = self.parse_nodes(&Bound::Close, false);
        EqNode::Fraction { numer: Box::new(row_node(numer)), denom: Box::new(row_node(denom)) }
    }

    /// The part of an expression before a place, divided at its first `OVER`.
    pub fn parse_fraction_in_range(&mut self, end: usize) -> (r: EqNode)
        ensures
            r@ == divided_in_range(old(self).t(), old(self).p(), end as nat).0,
            final(self).moved(
                *old(self),
                divided_in_range(old(self).t(), old(self).p(), end as nat).1,
            ),
    {
        let before = self.parse_nodes(&Bound::PlaceOrOver(end), false);
        if self.pos < end {
            self.take_command("OVER");
        }
        let denom = if self.pos < end {
            self.parse_element()
        } else {
            EqNode::Empty
        };
        let after = self.parse_nodes(&Bound::PlaceOrRight(end), false);
        Self::assemble_fraction(before, denom, after)
    }

    /// A root with its index, if it has one.
    fn parse_sqrt(&mut self) -> (r: EqNode)
        ensures
            r@ == root(old(self).t(), old(self).p()).0,
            final(self).moved(*old(self), root(old(self).t(), old(self).p()).1),
        decreases rest(old(self).t(), old(self).p()), 6nat,
    {
        let ty = self.current_type();
        if ty == TokenType::LBracket {
            self.step();
            let index = self.parse_nodes(&Bound::Bracket, false);
            self.expect(TokenType::RBracket);
            let body = self.parse_single_or_group();
            return EqNode::Sqrt { index: Some(Box::new(row_node(index))), body: Box::new(body) };
        }
        if ty == TokenType::LParen {
            self.step();
            let index = self.parse_nodes(&Bound::Paren, false);
            self.expect(TokenType::RParen);
            self.take_command("of");
            let body = self.parse_single_or_group();
            return EqNode::Sqrt { index: Some(Box::new(row_node(index))), body: Box::new(body) };
        }
        if ty == TokenType::LBrace && self.of_after_braces() {
            let index = self.parse_group();
            self.take_command("of");
            let body = self.parse_single_or_group();
            return EqNode::Sqrt { index: Some(Box::new(index)), body: Box::new(body) };
        }
        let body = self.parse_single_or_group();
        EqNode::Sqrt { index: None, body: Box::new(body) }
    }

    /// Whether `of` stands after the group that opens at the next token.
    fn of_after_braces(&self) -> (r: bool)
        requires
            kind_at(self.t(), self.p()) == TokenType::LBrace,
        ensures
            r == command_at(self.t(), closing(self.t(), self.p() + 1, 1) + 1, "of"@),
    {
        let count: usize = self.tokens.len();
        assert(self.pos < count);
        let end: usize = self.find_matching_brace(self.pos + 1);
        if end < count && end + 1 < count {
            let tok = &self.tokens[end + 1];
            tok.ty == TokenType::Command && Self::cmd_eq(tok.value.as_str(), "of")
        } else {
            false
        }
    }

    /// A fraction written as a command with two arguments.
    fn parse_latex_fraction(&mut self) -> (r: EqNode)
        ensures
            r@ == (EqTree::Fraction {
                numer: Box::new(two(old(self).t(), old(self).p()).0),
                denom: Box::new(two(old(self).t(), old(self).p()).1),
            }),
            final(self).moved(*old(self), two(old(self).t(), old(self).p()).2),
        decreases rest(old(self).t(), old(self).p()), 7nat,
    {
        let (numer, denom) = self.parse_two();
        EqNode::Fraction { numer: Box::new(numer), denom: Box::new(denom) }
    }

    /// Two arguments in a row.
    fn parse_two(&mut self) -> (r: (EqNode, EqNode))
        ensures
            r.0@ == two(old(self).t(), old(self).p()).0,
            r.1@ == two(old(self).t(), old(self).p()).1,
            final(self).moved(*old(self), two(old(self).t(), old(self).p()).2),
        decreases rest(old(self).t(), old(self).p()), 6nat,
    {
        let first = self.parse_single_or_group();
        let second = self.parse_single_or_group();
        (first, second)
    }

    /// The text of a braced argument.
    fn read_brace_arg(&mut self) -> (r: String)
        ensures
            r@ == brace_arg(old(self).t(), old(self).p()).0,
            final(self).moved(*old(self), brace_arg(old(self).t(), old(self).p()).1),
    {
        let mut name = String::new();
        if !self.expect(TokenType::LBrace) {
            return name;
        }
        let ghost start = self.p();
        while !self.at_end() && self.current_type() != TokenType::RBrace
            invariant
                self.tokens == old(self).tokens,
                old(self).pos <= self.tokens.len() ==> self.pos <= self.tokens.len(),
                start == old(self).pos + 1,
                start <= self.pos,
                arg_len(self.t(), start) == self.pos - start + arg_len(self.t(), self.p()),
                name@ == joined(self.t(), start, (self.pos - start) as nat),
            decreases rest(self.t(), self.p()),
        {
            name.append(self.current_value());
            self.step();
        }
        self.expect(TokenType::RBrace);
        name
    }

    /// Passes over a braced argument.
    fn skip_brace_arg(&mut self)
        ensures
            final(self).moved(*old(self), brace_arg(old(self).t(), old(self).p()).1),
    {
        if self.expect(TokenType::LBrace) {
            let ghost start = self.p();
            while !self.at_end() && self.current_type() != TokenType::RBrace
                invariant
                    self.tokens == old(self).tokens,
                old(self).pos <= self.tokens.len() ==> self.pos <= self.tokens.len(),
                    start == old(self).pos + 1,
                    start <= self.pos,
                    arg_len(self.t(), start) == self.pos - start + arg_len(self.t(), self.p()),
                decreases rest(self.t(), self.p()),
            {
                self.step();
            }
            self.expect(TokenType::RBrace);
        }
    }

    /// Whether the environment of the given name ends here.
    fn at_latex_env_end(&self, env_name: &str) -> (r: bool)
        ensures
            r == env_end_at(self.t(), self.p(), env_name@),
    {
        if !self.at_command("end") {
            return false;
        }
        let count: usize = self.tokens.len();
        assert(self.pos < count);
        let next: usize = self.pos + 1;
        if next >= count || self.tokens[next].ty != TokenType::LBrace {
            return false;
        }
        let mut at: usize = next + 1;
        let mut name = String::new();
        while at < count && self.tokens[at].ty != TokenType::RBrace
            invariant
                count == self.tokens.len(),
                self.pos + 2 <= at,
                name_len(self.t(), self.p() + 2) == at - (self.pos + 2) + name_len(
                    self.t(),
                    at as nat,
                ),
                name@ == joined(self.t(), self.p() + 2, (at - (self.pos + 2)) as nat),
            decreases count - at,
        {
            name.append(self.tokens[at].value.as_str());
            at = at + 1;
        }
        Self::cmd_eq(name.as_str(), env_name)
    }

    /// Passes over the end of an environment.
    fn consume_latex_env_end(&mut self)
        ensures
            final(self).moved(*old(self), env_end_len(old(self).t(), old(self).p())),
    {
        if self.take_command("end") {
            self.skip_brace_arg();
        }
    }

    /// An environment after `\\begin`.
    fn parse_latex_environment(&mut self) -> (r: EqNode)
        ensures
            r@ == environment(old(self).t(), old(self).p()).0,
            final(self).moved(*old(self), environment(old(self).t(), old(self).p()).1),
        decreases rest(old(self).t(), old(self).p()), 8nat,
    {
        let env_name = self.read_brace_arg();
        match environment_kind(env_name.as_str()) {
            EnvKind::Matrix(style) => self.parse_latex_env_matrix(style, env_name.as_str()),
            EnvKind::Cases => self.parse_latex_env_cases(env_name.as_str()),
            EnvKind::Aligned => self.parse_latex_env_eqalign(env_name.as_str()),
            EnvKind::Unknown => EqNode::Empty,
        }
    }

    /// The body of a matrix environment.
    fn parse_latex_env_matrix(&mut self, style: MatrixStyle, env_name: &str) -> (r: EqNode)
        ensures
            r@ == (EqTree::Matrix {
                rows: env_grid(old(self).t(), old(self).p(), env_name@, Columns::Cells)
                    .0.all_rows(),
                style,
            }),
            final(self).moved(
                *old(self),
                env_grid(old(self).t(), old(self).p(), env_name@, Columns::Cells).1,
            ),
        decreases rest(old(self).t(), old(self).p()), 7nat,
    {
        let g = self.parse_env_grid(env_name, Columns::Cells);
        EqNode::Matrix { rows: g.into_rows(false), style }
    }

    /// The body of an environment that tells cases apart.
    fn parse_latex_env_cases(&mut self, env_name: &str) -> (r: EqNode)
        ensures
            r@ == (EqTree::Cases {
                rows: env_grid(old(self).t(), old(self).p(), env_name@, Columns::Gaps).0.lines(),
            }),
            final(self).moved(
                *old(self),
                env_grid(old(self).t(), old(self).p(), env_name@, Columns::Gaps).1,
            ),
        decreases rest(old(self).t(), old(self).p()), 7nat,
    {
        let g = self.parse_env_grid(env_name, Columns::Gaps);
        EqNode::Cases { rows: g.into_lines() }
    }

    /// The body of an environment of aligned lines.
    fn parse_latex_env_eqalign(&mut self, env_name: &str) -> (r: EqNode)
        ensures
            r@ == (EqTree::EqAlign {
                rows: env_grid(old(self).t(), old(self).p(), env_name@, Columns::FirstOnly)
                    .0.sides(),
            }),
            final(self).moved(
                *old(self),
                env_grid(old(self).t(), old(self).p(), env_name@, Columns::FirstOnly).1,
            ),
        decreases rest(old(self).t(), old(self).p()), 7nat,
    {
        let g = self.parse_env_grid(env_name, Columns::FirstOnly);
        EqNode::EqAlign { rows: g.into_sides() }
    }

    fn parse_env_grid(&mut self, env_name: &str, columns: Columns) -> (r: GridNodes)
        requires
            columns != Columns::Sides,
        ensures
            r@ == env_grid(old(self).t(), old(self).p(), env_name@, columns).0,
            final(self).moved(
                *old(self),
                env_grid(old(self).t(), old(self).p(), env_name@, columns).1,
            ),
        decreases rest(old(self).t(), old(self).p()), 6nat,
    {
        let g = self.parse_grid(&Bound::EnvEnd(env_name), columns);
        self.consume_latex_env_end();
        g
    }

    fn parse_braced_grid(&mut self, columns: Columns) -> (r: GridNodes)
        requires
            kind_at(old(self).t(), old(self).p()) == TokenType::LBrace,
        ensures
            r@ == braced_grid(old(self).t(), old(self).p(), columns).0,
            final(self).moved(
                *old(self),
                braced_grid(old(self).t(), old(self).p(), columns).1,
            ),
        decreases rest(old(self).t(), old(self).p()), 6nat,
    {
        self.step();
        let end: usize = self.find_matching_brace(self.pos);
        let g = self.parse_grid(&Bound::PlaceOrClose(end), columns);
        self.expect(TokenType::RBrace);
        g
    }

    /// How many column marks stand next, before a limit.
    fn take_column_marks(&mut self, end: usize) -> (r: usize)
        ensures
            r == column_marks(old(self).t(), old(self).p(), end as nat),
            final(self).moved(*old(self), r as nat),
    {
        let mut count: usize = 0;
        while self.pos < end && self.at_mark("&")
            invariant
                self.tokens == old(self).tokens,
                old(self).pos <= self.tokens.len() ==> self.pos <= self.tokens.len(),
                count == self.pos - old(self).pos,
                column_marks(old(self).t(), old(self).p(), end as nat) == count + column_marks(
                    self.t(),
                    self.p(),
                    end as nat,
                ),
            decreases rest(self.t(), self.p()),
        {
            self.step();
            count = count + 1;
        }
        count
    }

    /// The grid up to a bound.
    fn parse_grid(&mut self, bound: &Bound, columns: Columns) -> (r: GridNodes)
        requires
            columns == Columns::Sides ==> bound is PlaceOrClose,
        ensures
            r@ == grid(old(self).t(), old(self).p(), bound@, columns, no_grid()).0,
            final(self).moved(
                *old(self),
                grid(old(self).t(), old(self).p(), bound@, columns, no_grid()).1,
            ),
        decreases rest(old(self).t(), old(self).p()), 5nat,
    {
        let ghost all = grid(self.t(), self.p(), bound@, columns, no_grid());
        let mut g = GridNodes { rows: Vec::new(), cells: Vec::new(), cell: Vec::new() };
        assert(g@ =~= no_grid());
        while !self.at_bound(bound)
            invariant
                columns == Columns::Sides ==> bound is PlaceOrClose,
                self.tokens == old(self).tokens,
                old(self).pos <= self.tokens.len() ==> self.pos <= self.tokens.len(),
                self.pos >= old(self).pos,
                all.0 == grid(self.t(), self.p(), bound@, columns, g@).0,
                all.1 == self.pos - old(self).pos + grid(
                    self.t(),
                    self.p(),
                    bound@,
                    columns,
                    g@,
                ).1,
            decreases rest(self.t(), self.p()),
        {
            if self.at_mark("#") {
                self.step();
                g.end_row();
            } else if self.at_mark("&") {
                let count: usize = match (columns, bound) {
                    (Columns::Sides, Bound::PlaceOrClose(end)) => self.take_column_marks(*end),
                    _ => {
                        self.step();
                        1
                    },
                };
                g.column_marks(columns, count);
            } else {
                if self.try_consume_infix_over_atop(&mut g.cell) {
                    continue;
                }
                proof {
                    law_element_advances(self.t(), self.p());
                }
                let node = self.parse_element();
                g.cell.push(node);
            }
        }
        g
    }

    /// A big operator with its limits.
    fn parse_big_op(&mut self, sign: String) -> (r: EqNode)
        ensures
            r@ == big_op(old(self).t(), old(self).p(), sign@).0,
            final(self).moved(*old(self), big_op(old(self).t(), old(self).p(), sign@).1),
        decreases rest(old(self).t(), old(self).p()), 6nat,
    {
        let ghost all = limits(self.t(), self.p(), None, None);
        let mut sub: Option<EqNode> = None;
        let mut sup: Option<EqNode> = None;
        loop
            invariant
                self.tokens == old(self).tokens,
                old(self).pos <= self.tokens.len() ==> self.pos <= self.tokens.len(),
                self.pos >= old(self).pos,
                all.0 == limits(self.t(), self.p(), opt_tree(sub), opt_tree(sup)).0,
                all.1 == limits(self.t(), self.p(), opt_tree(sub), opt_tree(sup)).1,
                all.2 == self.pos - old(self).pos + limits(
                    self.t(),
                    self.p(),
                    opt_tree(sub),
                    opt_tree(sup),
                ).2,
            ensures
                self.tokens == old(self).tokens,
                old(self).pos <= self.tokens.len() ==> self.pos <= self.tokens.len(),
                all == (opt_tree(sub), opt_tree(sup), (self.pos - old(self).pos) as nat),
                self.pos >= old(self).pos,
            decreases rest(self.t(), self.p()),
        {
            let ty = self.current_type();
            if ty == TokenType::Subscript && sub.is_none() {
                self.step();
                sub = Some(self.parse_single_or_group());
            } else if ty == TokenType::Superscript && sup.is_none() {
                self.step();
                sup = Some(self.parse_single_or_group());
            } else {
                break;
            }
        }
        EqNode::BigOp { symbol: sign, sub: opt_box(sub), sup: opt_box(sup) }
    }

    /// A limit with what stands under it.
    fn parse_limit(&mut self, is_upper: bool) -> (r: EqNode)
        ensures
            r@ == limit(old(self).t(), old(self).p(), is_upper).0,
            final(self).moved(*old(self), limit(old(self).t(), old(self).p(), is_upper).1),
        decreases rest(old(self).t(), old(self).p()), 6nat,
    {
        if self.expect(TokenType::Subscript) {
            let body = self.parse_single_or_group();
            EqNode::Limit { is_upper, sub: Some(Box::new(body)) }
        } else {
            EqNode::Limit { is_upper, sub: None }
        }
    }

    /// A matrix.
    fn parse_matrix(&mut self, style: MatrixStyle) -> (r: EqNode)
        ensures
            r@ == matrix(old(self).t(), old(self).p(), style).0,
            final(self).moved(*old(self), matrix(old(self).t(), old(self).p(), style).1),
        decreases rest(old(self).t(), old(self).p()), 7nat,
    {
        if self.current_type() != TokenType::LBrace {
            return EqNode::Empty;
        }
        let g = self.parse_braced_grid(Columns::Cells);
        EqNode::Matrix { rows: g.into_rows(true), style }
    }

    /// A distinction of cases.
    fn parse_cases(&mut self) -> (r: EqNode)
        ensures
            r@ == cases(old(self).t(), old(self).p()).0,
            final(self).moved(*old(self), cases(old(self).t(), old(self).p()).1),
        decreases rest(old(self).t(), old(self).p()), 7nat,
    {
        if self.current_type() != TokenType::LBrace {
            return EqNode::Empty;
        }
        let g = self.parse_braced_grid(Columns::Gaps);
        EqNode::Cases { rows: g.into_lines() }
    }

    /// A pile of lines.
    fn parse_pile(&mut self, align: PileAlign) -> (r: EqNode)
        ensures
            r@ == pile(old(self).t(), old(self).p(), align).0,
            final(self).moved(*old(self), pile(old(self).t(), old(self).p(), align).1),
        decreases rest(old(self).t(), old(self).p()), 7nat,
    {
        if self.current_type() != TokenType::LBrace {
            return EqNode::Empty;
        }
        let g = self.parse_braced_grid(Columns::Gaps);
        EqNode::Pile { rows: g.into_lines(), align }
    }

    /// Lines aligned at a column mark.
    fn parse_eqalign(&mut self) -> (r: EqNode)
        ensures
            r@ == aligned(old(self).t(), old(self).p()).0,
            final(self).moved(*old(self), aligned(old(self).t(), old(self).p()).1),
        decreases rest(old(self).t(), old(self).p()), 7nat,
    {
        if self.current_type() != TokenType::LBrace {
            return EqNode::Empty;
        }
        let g = self.parse_braced_grid(Columns::Sides);
        EqNode::EqAlign { rows: g.into_sides() }
    }

    /// An expression between fences.
    fn parse_left_right(&mut self) -> (r: EqNode)
        ensures
            r@ == fenced(old(self).t(), old(self).p()).0,
            final(self).moved(*old(self), fenced(old(self).t(), old(self).p()).1),
        decreases rest(old(self).t(), old(self).p()), 7nat,
    {
        let left = self.read_bracket_char();
        let body = self.parse_expression();
        self.take_command("RIGHT");
        let right = self.read_bracket_char();
        EqNode::Paren { left, right, body: Box::new(body) }
    }

    /// The fence after `LEFT` or `RIGHT`.
    fn read_bracket_char(&mut self) -> (r: String)
        ensures
            r@ == fence(old(self).t(), old(self).p()).0,
            final(self).moved(*old(self), fence(old(self).t(), old(self).p()).1),
    {
        let ty = self.current_type();
        let val = self.current_word();
        match ty {
            TokenType::LParen
            | TokenType::RParen
            | TokenType::LBracket
            | TokenType::RBracket
            | TokenType::LBrace
            | TokenType::RBrace => {
                self.step();
                val
            },
            TokenType::Symbol => {
                if str_eq(val.as_str(), ".") {
                    self.step();
                    String::new()
                } else if str_eq(val.as_str(), "|") {
                    self.step();
                    val
                } else {
                    String::new()
                }
            },
            TokenType::Command => {
                match lookup_symbol(val.as_str()) {
                    Some(s) => {
                        self.step();
                        s.to_owned()
                    },
                    None => String::new(),
                }
            },
            _ => String::new(),
        }
    }

    /// One part of a colour, and the comma after it.
    fn read_color_part(&mut self) -> (r: u8)
        ensures
            r == color_part(old(self).t(), old(self).p()).0,
            final(self).moved(*old(self), color_part(old(self).t(), old(self).p()).1),
    {
        let mut value: u8 = 0;
        if self.current_type() == TokenType::Number {
            value = parse_byte(self.current_value());
            self.step();
        }
        if self.current_type() == TokenType::Symbol && str_eq(self.current_value(), ",") {
            self.step();
        }
        value
    }

    /// A body in a colour.
    fn parse_color(&mut self) -> (r: EqNode)
        ensures
            r@ == color(old(self).t(), old(self).p()).0,
            final(self).moved(*old(self), color(old(self).t(), old(self).p()).1),
        decreases rest(old(self).t(), old(self).p()), 6nat,
    {
        if !self.expect(TokenType::LBrace) {
            return EqNode::Empty;
        }
        let r: u8 = self.read_color_part();
        let g: u8 = self.read_color_part();
        let b: u8 = self.read_color_part();
        self.expect(TokenType::RBrace);
        let body = self.parse_single_or_group();
        EqNode::Color { r, g, b, body: Box::new(body) }
    }

    /// A relation arrow.
    fn parse_rel(&mut self, over_only: bool) -> (r: EqNode)
        ensures
            r@ == relation_arrow(old(self).t(), old(self).p(), over_only).0,
            final(self).moved(
                *old(self),
                relation_arrow(old(self).t(), old(self).p(), over_only).1,
            ),
        decreases rest(old(self).t(), old(self).p()), 6nat,
    {
        let arrow = match self.parse_element() {
            EqNode::MathSymbol(s) => s,
            EqNode::Symbol(s) => s,
            EqNode::Text(s) => s,
            _ => "→".to_owned(),
        };
        let over = self.parse_single_or_group();
        if over_only {
            EqNode::Rel { arrow, over: Box::new(over), under: None }
        } else {
            let under = self.parse_single_or_group();
            EqNode::Rel { arrow, over: Box::new(over), under: Some(Box::new(under)) }
        }
    }

    /// A long division.
    fn parse_long_division(&mut self) -> (r: EqNode)
        ensures
            r@ == long_division(old(self).t(), old(self).p()).0,
            final(self).moved(*old(self), long_division(old(self).t(), old(self).p()).1),
        decreases rest(old(self).t(), old(self).p()), 7nat,
    {
        let (divisor, quotient) = self.parse_two();
        let body = self.parse_single_or_group();
        let mut parts: Vec<EqNode> = Vec::new();
        parts.push(quotient);
        parts.push(EqNode::Symbol("÷".to_owned()));
        parts.push(divisor);
        parts.push(EqNode::Symbol("=".to_owned()));
        parts.push(body);
        assert(trees(parts@) =~= seq![
            quotient@,
            EqTree::Symbol("÷"@),
            divisor@,
            EqTree::Symbol("="@),
            body@,
        ]);
        EqNode::Row(parts)
    }

    /// The body of a type face.
    fn parse_face_body(&mut self) -> (r: EqNode)
        ensures
            r@ == face_body(old(self).t(), old(self).p()).0,
            final(self).moved(*old(self), face_body(old(self).t(), old(self).p()).1),
        decreases rest(old(self).t(), old(self).p()), 6nat,
    {
        if self.current_type() == TokenType::Command && is_structure_command(
            to_upper(self.current_value()).as_str(),
        ) {
            EqNode::Empty
        } else {
            self.parse_single_or_group()
        }
    }

    /// A command with all that belongs to it.
    pub fn parse_command(&mut self, cmd: &str) -> (r: EqNode)
        ensures
            r@ == command(old(self).t(), old(self).p(), cmd@).0,
            final(self).moved(*old(self), command(old(self).t(), old(self).p(), cmd@).1),
        decreases rest(old(self).t(), old(self).p()), 9nat,
    {
        match classify(cmd) {
            CommandKind::Stray => EqNode::Empty,
            CommandKind::Fraction => self.parse_latex_fraction(),
            CommandKind::Upright => {
                let body = self.parse_single_or_group();
                EqNode::FontStyle { style: FontStyleKind::Roman, body: Box::new(body) }
            },
            CommandKind::Phantom => {
                self.parse_single_or_group();
                EqNode::Text(" ".to_owned())
            },
            CommandKind::Spacing => {
                match lookup_symbol(to_upper(cmd).as_str()) {
                    Some(s) => EqNode::Text(s.to_owned()),
                    None => EqNode::Text(" ".to_owned()),
                }
            },
            CommandKind::ScriptOver => {
                let (sup, base) = self.parse_two();
                EqNode::Superscript { base: Box::new(base), sup: Box::new(sup) }
            },
            CommandKind::ScriptUnder => {
                let (sub, base) = self.parse_two();
                EqNode::Subscript { base: Box::new(base), sub: Box::new(sub) }
            },
            CommandKind::Begin => self.parse_latex_environment(),
            CommandKind::End => {
                self.skip_brace_arg();
                EqNode::Empty
            },
            CommandKind::Root => self.parse_sqrt(),
            CommandKind::Integral => self.try_parse_scripts(
                EqNode::MathSymbol(integral_sign(cmd).to_owned()),
            ),
            CommandKind::BigOperator => self.parse_big_op(big_sign(cmd).to_owned()),
            CommandKind::Limit { is_upper } => self.parse_limit(is_upper),
            CommandKind::Matrix(style) => self.parse_matrix(style),
            CommandKind::Cases => self.parse_cases(),
            CommandKind::Aligned => self.parse_eqalign(),
            CommandKind::Pile(align) => self.parse_pile(align),
            CommandKind::Left => self.parse_left_right(),
            CommandKind::Relation { over_only } => self.parse_rel(over_only),
            CommandKind::LongDivision => self.parse_long_division(),
            CommandKind::Benzene => EqNode::MathSymbol("⌬".to_owned()),
            CommandKind::Enlarged => self.parse_element(),
            CommandKind::Choose => {
                let bottom = self.parse_single_or_group();
                choice_node(EqNode::Empty, bottom)
            },
            CommandKind::Binomial => {
                let (top, bottom) = self.parse_two();
                choice_node(top, bottom)
            },
            CommandKind::Color => self.parse_color(),
            CommandKind::ScriptWord => {
                let body = self.parse_single_or_group();
                self.try_parse_scripts(body)
            },
            CommandKind::Decoration(kind) => {
                let body = self.parse_single_or_group();
                EqNode::Decoration { kind, body: Box::new(body) }
            },
            CommandKind::Face(style) => {
                let body = self.parse_face_body();
                EqNode::FontStyle { style, body: Box::new(body) }
            },
            CommandKind::Sign => {
                match lookup_symbol(cmd) {
                    Some(s) => self.try_parse_scripts(EqNode::MathSymbol(s.to_owned())),
                    None => EqNode::Empty,
                }
            },
            CommandKind::Function => {
                let name = match lookup_function(cmd) {
                    Some(f) => f.to_owned(),
                    None => cmd.to_owned(),
                };
                if self.at_mark("`") {
                    self.step();
                }
                self.try_parse_scripts(EqNode::Function(name))
            },
            CommandKind::Word => self.try_parse_scripts(EqNode::Text(cmd.to_owned())),
        }
    }
}

/// Two nodes on top of each other in parentheses.
fn choice_node(top: EqNode, bottom: EqNode) -> (r: EqNode)
    ensures
        r@ == choice(top@, bottom@),
{
    let inner = EqNode::Atop { top: Box::new(top), bottom: Box::new(bottom) };
    assert(inner@ == (EqTree::Atop { top: Box::new(top@), bottom: Box::new(bottom@) }));
    EqNode::Paren { left: "(".to_owned(), right: ")".to_owned(), body: Box::new(inner) }
}

/// The kind of environment that a name selects.
fn environment_kind(name: &str) -> (r: EnvKind)
    ensures
        r == env_kind(name@),
{
    let upper_name = to_upper(name);
    let u = upper_name.as_str();
    if str_eq(u, "PMATRIX") {
        EnvKind::Matrix(MatrixStyle::Paren)
    } else if str_eq(u, "BMATRIX") {
        EnvKind::Matrix(MatrixStyle::Bracket)
    } else if str_eq(u, "VMATRIX") || str_eq(u, "BVMATRIX") {
        EnvKind::Matrix(MatrixStyle::Vert)
    } else if str_eq(u, "SMALLMATRIX") || str_eq(u, "MATRIX") || str_eq(u, "ARRAY") {
        EnvKind::Matrix(MatrixStyle::Plain)
    } else if str_eq(u, "CASES") {
        EnvKind::Cases
    } else if str_eq(u, "ALIGNED") || str_eq(u, "ALIGN") || str_eq(u, "EQNARRAY") || str_eq(
        u,
        "SPLIT",
    ) || str_eq(u, "GATHER") || str_eq(u, "GATHERED") {
        EnvKind::Aligned
    } else {
        EnvKind::Unknown
    }
}

/// The byte that a word of digits writes down, zero where it writes down none.
fn parse_byte(w: &str) -> (r: u8)
    ensures
        r == byte_of(w@),
{
    let v = chars_of(w);
    let from: usize = if v.len() > 0 && v[0] == '+' {
        1
    } else {
        0
    };
    if from == v.len() {
        return 0;
    }
    let ghost d = unsigned(w@);
    assert(d =~= v@.subrange(from as int, v@.len() as int));
    let mut value: u32 = 0;
    let mut small = true;
    let mut i: usize = from;
    while i < v.len()
        invariant
            from <= i <= v.len(),
            d == unsigned(w@),
            d == v@.subrange(from as int, v@.len() as int),
            forall|k: int| 0 <= k < i - from ==> '0' <= #[trigger] d[k] <= '9',
            small ==> value == decimal(d.take(i - from)) && value <= 255,
            !small ==> decimal(d.take(i - from)) > 255,
        decreases v.len() - i,
    {
        let c = v[i];
        assert(d[i - from] == c);
        if c < '0' || c > '9' {
            assert(!('0' <= d[i - from] <= '9'));
            return 0;
        }
        assert(d.take(i - from + 1).drop_last() == d.take(i - from));
        if small {
            value = value * 10 + ((c as u32) - ('0' as u32));
            small = value <= 255;
        }
        i = i + 1;
    }
    assert(d.take(d.len() as int) == d);
    if small {
        value as u8
    } else {
        0
    }
}

/// A grid that is being read.
struct GridNodes {
    rows: Vec<Vec<EqNode>>,
    cells: Vec<EqNode>,
    cell: Vec<EqNode>,
}

impl View for GridNodes {
    type V = Grid;

    closed spec fn view(&self) -> Grid {
        Grid { rows: tree_rows(self.rows@), cells: trees(self.cells@), cell: trees(self.cell@) }
    }
}

impl GridNodes {
    fn end_cell(&mut self)
        ensures
            final(self)@ == old(self)@.end_cell(),
    {
        let mut nodes_read: Vec<EqNode> = Vec::new();
        std::mem::swap(&mut nodes_read, &mut self.cell);
        self.cells.push(row_node(nodes_read));
        assert(self@ =~= old(self)@.end_cell());
    }

    fn end_row(&mut self)
        ensures
            final(self)@ == old(self)@.end_row(),
    {
        self.end_cell();
        let mut cells_read: Vec<EqNode> = Vec::new();
        std::mem::swap(&mut cells_read, &mut self.cells);
        self.rows.push(cells_read);
        assert(self@.rows =~= old(self)@.end_row().rows);
        assert(self@ =~= old(self)@.end_row());
    }

    fn column_marks(&mut self, columns: Columns, count: usize)
        ensures
            final(self)@ == after_marks(old(self)@, columns, count as nat),
    {
        match columns {
            Columns::Gaps => {
                self.cell.push(EqNode::Space(SpaceKind::Tab));
            },
            Columns::Cells => {
                self.end_cell();
            },
            Columns::Sides => {
                if self.cells.len() > 0 {
                    let mut i: usize = 0;
                    while i < count
                        invariant
                            i <= count,
                            self@ =~= old(self)@.with_cell(
                                old(self)@.cell + Seq::new(i as nat, |k: int| gap()),
                            ),
                        decreases count - i,
                    {
                        self.cell.push(EqNode::Space(SpaceKind::Tab));
                        i = i + 1;
                    }
                } else {
                    self.end_cell();
                    if count >= 2 {
                        self.cell.push(EqNode::Space(SpaceKind::Tab));
                        assert(self@.cell =~= seq![gap()]);
                    }
                }
            },
            Columns::FirstOnly => {
                if self.cells.len() == 0 {
                    self.end_cell();
                }
            },
        }
    }

    fn into_rows(self, keep_blank: bool) -> (r: Vec<Vec<EqNode>>)
        ensures
            tree_rows(r@) == if keep_blank {
                self@.all_rows_with_blank()
            } else {
                self@.all_rows()
            },
    {
        let mut g = self;
        if g.cells.len() > 0 || g.cell.len() > 0 {
            g.end_row();
        } else if keep_blank {
            let blank: Vec<EqNode> = Vec::new();
            assert(trees(blank@) == Seq::<EqTree>::empty());
            g.rows.push(blank);
            assert(tree_rows(g.rows@) =~= self@.rows.push(Seq::empty()));
        }
        g.rows
    }

    fn into_lines(self) -> (r: Vec<EqNode>)
        ensures
            trees(r@) == self@.lines(),
    {
        let rows = self.into_rows(false);
        let ghost all = rows@;
        let mut out: Vec<EqNode> = Vec::new();
        for cells in it: rows
            invariant
                it.seq() == all,
                out.len() == it.index(),
                forall|i: int|
                    0 <= i < out.len() ==> tree(#[trigger] out@[i]) == first_cell(trees(all[i]@)),
        {
            let mut cells = cells;
            let first = if cells.len() > 0 {
                cells.swap_remove(0)
            } else {
                EqNode::Empty
            };
            out.push(first);
        }
        assert(trees(out@) =~= self@.lines());
        out
    }

    fn into_sides(self) -> (r: Vec<(EqNode, EqNode)>)
        ensures
            tree_pairs(r@) == self@.sides(),
    {
        let rows = self.into_rows(false);
        let ghost all = rows@;
        let mut out: Vec<(EqNode, EqNode)> = Vec::new();
        for cells in it: rows
            invariant
                it.seq() == all,
                out.len() == it.index(),
                forall|i: int|
                    #![trigger out@[i]]
                    0 <= i < out.len() ==> (tree(out@[i].0), tree(out@[i].1)) == (
                        first_cell(trees(all[i]@)),
                        second_cell(trees(all[i]@)),
                    ),
        {
            let mut cells = cells;
            let right = if cells.len() > 1 {
                cells.swap_remove(1)
            } else {
                EqNode::Empty
            };
            let left = if cells.len() > 0 {
                cells.swap_remove(0)
            } else {
                EqNode::Empty
            };
            out.push((left, right));
        }
        assert(tree_pairs(out@) =~= self@.sides());
        out
    }
}

/// The syntax tree of a script.
pub fn parse(script: &str) -> (r: EqNode)
    ensures
        r@ == expression(tokens_of(script@), 0).0,
{
    let tokens = tokenize(script);
    let mut parser = EqParser::new(tokens);
    parser.parse()
}

} // verus!
