//! The syntax tree of an equation.

use vstd::prelude::*;

verus! {

/// Kinds of explicit space.
#[derive(Debug, Clone, Copy, PartialEq, Eq, Structural)]
pub enum SpaceKind {
    /// An ordinary space, `~`.
    Normal,
    /// A thin space, `` ` ``.
    Thin,
    /// A column gap, `&`.
    Tab,
}

/// The fences drawn round a matrix.
#[derive(Debug, Clone, Copy, PartialEq, Eq, Structural)]
pub enum MatrixStyle {
    Plain,
    Paren,
    Bracket,
    Vert,
}

/// How the rows of a pile line up.
#[derive(Debug, Clone, Copy, PartialEq, Eq, Structural)]
pub enum PileAlign {
    Left,
    Center,
    Right,
}

/// Marks drawn over, under or through a body.
#[derive(Debug, Clone, Copy, PartialEq, Eq, Structural)]
pub enum DecoKind {
    Hat,
    Check,
    Tilde,
    Acute,
    Grave,
    Dot,
    DDot,
    Bar,
    Vec,
    Dyad,
    Under,
    Arch,
    Overline,
    Underline,
    StrikeThrough,
}

/// Type faces.
#[derive(Debug, Clone, Copy, PartialEq, Eq, Structural)]
pub enum FontStyleKind {
    Roman,
    Italic,
    Bold,
    Blackboard,
    Calligraphy,
    Fraktur,
    SansSerif,
    Monospace,
}

/// A node of the syntax tree.
#[derive(Debug, PartialEq)]
#[allow(inconsistent_fields)]
pub enum EqNode {
    /// Nodes side by side.
    Row(Vec<EqNode>),
    Number(String),
    Symbol(String),
    Text(String),
    Quoted(String),
    MathSymbol(String),
    Function(String),
    Space(SpaceKind),
    Newline,
    Empty,
    Fraction { numer: Box<EqNode>, denom: Box<EqNode> },
    /// Two nodes on top of each other, without a bar.
    Atop { top: Box<EqNode>, bottom: Box<EqNode> },
    Superscript { base: Box<EqNode>, sup: Box<EqNode> },
    Subscript { base: Box<EqNode>, sub: Box<EqNode> },
    SubSup { base: Box<EqNode>, sub: Box<EqNode>, sup: Box<EqNode> },
    Sqrt { index: Option<Box<EqNode>>, body: Box<EqNode> },
    /// An operator whose scripts stand above and below it.
    BigOp { symbol: String, sub: Option<Box<EqNode>>, sup: Option<Box<EqNode>> },
    Limit { is_upper: bool, sub: Option<Box<EqNode>> },
    Matrix { rows: Vec<Vec<EqNode>>, style: MatrixStyle },
    Cases { rows: Vec<EqNode> },
    Pile { rows: Vec<EqNode>, align: PileAlign },
    EqAlign { rows: Vec<(EqNode, EqNode)> },
    Paren { left: String, right: String, body: Box<EqNode> },
    /// A relation arrow with text over it, and perhaps under it.
    Rel { arrow: String, over: Box<EqNode>, under: Option<Box<EqNode>> },
    FontStyle { style: FontStyleKind, body: Box<EqNode> },
    Decoration { kind: DecoKind, body: Box<EqNode> },
    Color { r: u8, g: u8, b: u8, body: Box<EqNode> },
}

/// The mathematical counterpart of [`EqNode`].
#[allow(inconsistent_fields)]
pub enum EqTree {
    Row(Seq<EqTree>),
    Number(Seq<char>),
    Symbol(Seq<char>),
    Text(Seq<char>),
    Quoted(Seq<char>),
    MathSymbol(Seq<char>),
    Function(Seq<char>),
    Space(SpaceKind),
    Newline,
    Empty,
    Fraction { numer: Box<EqTree>, denom: Box<EqTree> },
    Atop { top: Box<EqTree>, bottom: Box<EqTree> },
    Superscript { base: Box<EqTree>, sup: Box<EqTree> },
    Subscript { base: Box<EqTree>, sub: Box<EqTree> },
    SubSup { base: Box<EqTree>, sub: Box<EqTree>, sup: Box<EqTree> },
    Sqrt { index: Option<Box<EqTree>>, body: Box<EqTree> },
    BigOp { symbol: Seq<char>, sub: Option<Box<EqTree>>, sup: Option<Box<EqTree>> },
    Limit { is_upper: bool, sub: Option<Box<EqTree>> },
    Matrix { rows: Seq<Seq<EqTree>>, style: MatrixStyle },
    Cases { rows: Seq<EqTree> },
    Pile { rows: Seq<EqTree>, align: PileAlign },
    EqAlign { rows: Seq<(EqTree, EqTree)> },
    Paren { left: Seq<char>, right: Seq<char>, body: Box<EqTree> },
    Rel { arrow: Seq<char>, over: Box<EqTree>, under: Option<Box<EqTree>> },
    FontStyle { style: FontStyleKind, body: Box<EqTree> },
    Decoration { kind: DecoKind, body: Box<EqTree> },
    Color { r: u8, g: u8, b: u8, body: Box<EqTree> },
}

/// The tree that a node stands for.
pub open spec fn tree(n: EqNode) -> EqTree
    decreases n,
{
    match n {
        EqNode::Row(c) => EqTree::Row(trees(c@)),
        EqNode::Number(s) => EqTree::Number(s@),
        EqNode::Symbol(s) => EqTree::Symbol(s@),
        EqNode::Text(s) => EqTree::Text(s@),
        EqNode::Quoted(s) => EqTree::Quoted(s@),
        EqNode::MathSymbol(s) => EqTree::MathSymbol(s@),
        EqNode::Function(s) => EqTree::Function(s@),
        EqNode::Space(k) => EqTree::Space(k),
        EqNode::Newline => EqTree::Newline,
        EqNode::Empty => EqTree::Empty,
        EqNode::Fraction { numer, denom } => EqTree::Fraction {
            numer: Box::new(tree(*numer)),
            denom: Box::new(tree(*denom)),
        },
        EqNode::Atop { top, bottom } => EqTree::Atop {
            top: Box::new(tree(*top)),
            bottom: Box::new(tree(*bottom)),
        },
        EqNode::Superscript { base, sup } => EqTree::Superscript {
            base: Box::new(tree(*base)),
            sup: Box::new(tree(*sup)),
        },
        EqNode::Subscript { base, sub } => EqTree::Subscript {
            base: Box::new(tree(*base)),
            sub: Box::new(tree(*sub)),
        },
        EqNode::SubSup { base, sub, sup } => EqTree::SubSup {
            base: Box::new(tree(*base)),
            sub: Box::new(tree(*sub)),
            sup: Box::new(tree(*sup)),
        },
        EqNode::Sqrt { index, body } => EqTree::Sqrt {
            index: match index {
                Some(n) => Some(Box::new(tree(*n))),
                None => None,
            },
            body: Box::new(tree(*body)),
        },
        EqNode::BigOp { symbol, sub, sup } => EqTree::BigOp {
            symbol: symbol@,
            sub: match sub {
                Some(n) => Some(Box::new(tree(*n))),
                None => None,
            },
            sup: match sup {
                Some(n) => Some(Box::new(tree(*n))),
                None => None,
            },
        },
        EqNode::Limit { is_upper, sub } => EqTree::Limit { is_upper, sub: match sub {
                Some(n) => Some(Box::new(tree(*n))),
                None => None,
            },
        },
        EqNode::Matrix { rows, style } => EqTree::Matrix { rows: tree_rows(rows@), style },
        EqNode::Cases { rows } => EqTree::Cases { rows: trees(rows@) },
        EqNode::Pile { rows, align } => EqTree::Pile { rows: trees(rows@), align },
        EqNode::EqAlign { rows } => EqTree::EqAlign { rows: tree_pairs(rows@) },
        EqNode::Paren { left, right, body } => EqTree::Paren {
            left: left@,
            right: right@,
            body: Box::new(tree(*body)),
        },
        EqNode::Rel { arrow, over, under } => EqTree::Rel {
            arrow: arrow@,
            over: Box::new(tree(*over)),
            under: match under {
                Some(n) => Some(Box::new(tree(*n))),
                None => None,
            },
        },
        EqNode::FontStyle { style, body } => EqTree::FontStyle {
            style,
            body: Box::new(tree(*body)),
        },
        EqNode::Decoration { kind, body } => EqTree::Decoration {
            kind,
            body: Box::new(tree(*body)),
        },
        EqNode::Color { r, g, b, body } => EqTree::Color { r, g, b, body: Box::new(tree(*body)) },
    }
}

/// The trees of a list of nodes.
pub open spec fn trees(s: Seq<EqNode>) -> Seq<EqTree>
    decreases s,
{
    Seq::new(
        s.len(),
        |i: int|
            if 0 <= i < s.len() {
                tree(s[i])
            } else {
                EqTree::Empty
            },
    )
}

/// The trees of rows of cells.
pub open spec fn tree_rows(s: Seq<Vec<EqNode>>) -> Seq<Seq<EqTree>>
    decreases s,
{
    Seq::new(
        s.len(),
        |i: int|
            if 0 <= i < s.len() {
                trees(s[i]@)
            } else {
                Seq::empty()
            },
    )
}

/// The trees of a list of pairs.
pub open spec fn tree_pairs(s: Seq<(EqNode, EqNode)>) -> Seq<(EqTree, EqTree)>
    decreases s,
{
    Seq::new(
        s.len(),
        |i: int|
            if 0 <= i < s.len() {
                (tree(s[i].0), tree(s[i].1))
            } else {
                (EqTree::Empty, EqTree::Empty)
            },
    )
}

impl View for EqNode {
    type V = EqTree;

    open spec fn view(&self) -> EqTree {
        tree(*self)
    }
}

/// A row of trees in its simplest form: nothing for no tree, the tree itself for one.
pub open spec fn row(children: Seq<EqTree>) -> EqTree {
    if children.len() == 0 {
        EqTree::Empty
    } else if children.len() == 1 {
        children[0]
    } else {
        EqTree::Row(children)
    }
}

/// A tree whose topmost row, if it is one, is in its simplest form.
pub open spec fn simplified(t: EqTree) -> EqTree {
    match t {
        EqTree::Row(children) => row(children),
        _ => t,
    }
}

impl EqNode {
    /// Replaces a row of no node by the empty node, and a row of one node by that node.
    pub fn simplify(self) -> (r: EqNode)
        ensures
            r@ == simplified(self@),
    {
        match self {
            EqNode::Row(children) => row_node(children),
            other => other,
        }
    }
}

/// A row of nodes in its simplest form.
pub fn row_node(children: Vec<EqNode>) -> (r: EqNode)
    ensures
        r@ == row(trees(children@)),
{
    let mut children = children;
    if children.len() <= 1 {
        assert(children@.len() == 1 ==> trees(children@)[0] == tree(children@[0]));
        match children.pop() {
            Some(n) => n,
            None => EqNode::Empty,
        }
    } else {
        EqNode::Row(children)
    }
}

/// A row of no tree is empty, a row of one tree is that tree, and a row of more is the row of them
/// all, in their order; no row of fewer than two trees comes of it.
pub proof fn law_rows_are_simple(children: Seq<EqTree>, x: EqTree)
    ensures
        row(Seq::empty()) == EqTree::Empty,
        row(seq![x]) == x,
        children.len() >= 2 ==> row(children) == EqTree::Row(children),
        simplified(EqTree::Row(children)) == row(children),
        !(x is Row) ==> simplified(x) == x,
{
}

/// The trees of a list with one node more.
pub broadcast proof fn lemma_trees_push(s: Seq<EqNode>, n: EqNode)
    ensures
        #[trigger] trees(s.push(n)) == trees(s).push(tree(n)),
{
    assert(trees(s.push(n)) =~= trees(s).push(tree(n)));
}

/// The trees of the empty list.
pub broadcast proof fn lemma_trees_empty(s: Seq<EqNode>)
    requires
        s.len() == 0,
    ensures
        #[trigger] trees(s) == Seq::<EqTree>::empty(),
{
    assert(trees(s) =~= Seq::<EqTree>::empty());
}

} // verus!
