//! Expressions of the source language, as typed views of tree values.

use vstd::prelude::*;
use crate::ast::branch::Branch;
use crate::ast::literal::{reads_as, Literal};
use crate::ast::pat::Pat;
use crate::ast::read::{all_trees, first_tree, named_tree, read_all, read_first, read_named};
use crate::ast::stmt::Stmt;
use crate::leaf::green::{GreenTree, TreeValue};
use crate::leaf::interner::Intern;
use crate::leaf::node::{Leaf, Located, Node};
use crate::leaf::node::{leaf_value, trees_of, Terminal};
use crate::leaf::tree::TreeKind;
use crate::leaf::tree::{height, lemma_child_is_lower, tokens_of_kind, Child, Tree};
use crate::span::{Loc, Spanned};
use crate::token::TokenKind;
use crate::token::{Token, TokenView};

verus! {

/// An expression between parentheses.
#[derive(Debug)]
pub struct Group(pub GreenTree);

/// An operator between two expressions.
#[derive(Debug)]
pub struct Infix(pub GreenTree);

/// A function applied to an argument.
#[derive(Debug)]
pub struct App(pub GreenTree);

/// A call that is followed by a block.
#[derive(Debug)]
pub struct Dsl(pub GreenTree);

/// A list of expressions between brackets.
#[derive(Debug)]
pub struct Array(pub GreenTree);

/// A function written in place.
#[derive(Debug)]
pub struct Lam(pub GreenTree);

/// A local binding.
#[derive(Debug)]
pub struct Let(pub GreenTree);

/// A choice between two branches.
#[derive(Debug)]
pub struct If(pub GreenTree);

/// A choice by cases.
#[derive(Debug)]
pub struct Match(pub GreenTree);

/// An expression with the type it is held against.
#[derive(Debug)]
pub struct Ann(pub GreenTree);

/// A type under constraints.
#[derive(Debug)]
pub struct Qual(pub GreenTree);

/// A dependent function type.
#[derive(Debug)]
pub struct Pi(pub GreenTree);

/// A dependent pair type.
#[derive(Debug)]
pub struct Sigma(pub GreenTree);

/// An expression that help is asked for.
#[derive(Debug)]
pub struct Help(pub GreenTree);

/// A name in scope.
#[derive(Debug)]
pub struct LocalExpr(pub GreenTree);

/// A literal.
#[derive(Debug)]
pub struct LiteralExpr(pub GreenTree);

/// The receiver.
#[derive(Debug)]
pub struct SelfExpr(pub GreenTree);

/// The unit value.
#[derive(Debug)]
pub struct Unit(pub GreenTree);

/// An expression: one typed view for each kind of expression, and `Error` for
/// every tree value that is no expression.
#[derive(Debug)]
pub enum Expr {
    Error,
    Group(Group),
    Infix(Infix),
    App(App),
    Dsl(Dsl),
    Array(Array),
    Lam(Lam),
    Let(Let),
    If(If),
    Match(Match),
    Ann(Ann),
    Qual(Qual),
    Pi(Pi),
    Sigma(Sigma),
    Help(Help),
    LocalExpr(LocalExpr),
    LiteralExpr(LiteralExpr),
    SelfExpr(SelfExpr),
    Unit(Unit),
}

/// Whether `kind` is the kind of an expression.
pub open spec fn is_expr_kind(kind: TreeKind) -> bool {
    ||| kind == TreeKind::ExprGroup
    ||| kind == TreeKind::ExprBinary
    ||| kind == TreeKind::ExprApp
    ||| kind == TreeKind::ExprDsl
    ||| kind == TreeKind::ExprArray
    ||| kind == TreeKind::ExprLam
    ||| kind == TreeKind::ExprLet
    ||| kind == TreeKind::ExprIf
    ||| kind == TreeKind::ExprMatch
    ||| kind == TreeKind::ExprAnn
    ||| kind == TreeKind::ExprQual
    ||| kind == TreeKind::ExprPi
    ||| kind == TreeKind::ExprSigma
    ||| kind == TreeKind::ExprHelp
    ||| kind == TreeKind::ExprLocal
    ||| kind == TreeKind::ExprLit
    ||| kind == TreeKind::ExprSelf
    ||| kind == TreeKind::ExprUnit
}

/// Decides [`is_expr_kind`].
pub fn expr_kind(kind: TreeKind) -> (is: bool)
    ensures
        is == is_expr_kind(kind),
{
    match kind {
        TreeKind::ExprGroup => true,
        TreeKind::ExprBinary => true,
        TreeKind::ExprApp => true,
        TreeKind::ExprDsl => true,
        TreeKind::ExprArray => true,
        TreeKind::ExprLam => true,
        TreeKind::ExprLet => true,
        TreeKind::ExprIf => true,
        TreeKind::ExprMatch => true,
        TreeKind::ExprAnn => true,
        TreeKind::ExprQual => true,
        TreeKind::ExprPi => true,
        TreeKind::ExprSigma => true,
        TreeKind::ExprHelp => true,
        TreeKind::ExprLocal => true,
        TreeKind::ExprLit => true,
        TreeKind::ExprSelf => true,
        TreeKind::ExprUnit => true,
        _ => false,
    }
}

/// Whether `tree` is the structured node of an expression.
pub open spec fn is_expr(tree: TreeValue) -> bool {
    tree matches TreeValue::Leaf { data, .. } && is_expr_kind(data.value.value.kind)
}

impl Expr {
    /// The tree value under this view, if it is not `Error`.
    pub open spec fn inner(&self) -> Option<GreenTree> {
        match self {
            Expr::Error => None,
            Expr::Group(node) => Some(node.0),
            Expr::Infix(node) => Some(node.0),
            Expr::App(node) => Some(node.0),
            Expr::Dsl(node) => Some(node.0),
            Expr::Array(node) => Some(node.0),
            Expr::Lam(node) => Some(node.0),
            Expr::Let(node) => Some(node.0),
            Expr::If(node) => Some(node.0),
            Expr::Match(node) => Some(node.0),
            Expr::Ann(node) => Some(node.0),
            Expr::Qual(node) => Some(node.0),
            Expr::Pi(node) => Some(node.0),
            Expr::Sigma(node) => Some(node.0),
            Expr::Help(node) => Some(node.0),
            Expr::LocalExpr(node) => Some(node.0),
            Expr::LiteralExpr(node) => Some(node.0),
            Expr::SelfExpr(node) => Some(node.0),
            Expr::Unit(node) => Some(node.0),
        }
    }

    /// The tree value under this view as it is, of whatever kind it is; a
    /// broken region for `Error`. A view that was built is over a tree value
    /// of its kind, and stands for what is under it.
    pub open spec fn under(&self) -> TreeValue {
        match self.inner() {
            Some(tree) => tree@,
            None => TreeValue::Empty,
        }
    }

    /// The tree value under this view, if it is not `Error`.
    pub fn green(&self) -> (tree: Option<&GreenTree>)
        ensures
            match tree {
                Some(tree) => self.inner() == Some(*tree),
                None => self.inner() is None,
            },
    {
        match self {
            Expr::Error => None,
            Expr::Group(node) => Some(&node.0),
            Expr::Infix(node) => Some(&node.0),
            Expr::App(node) => Some(&node.0),
            Expr::Dsl(node) => Some(&node.0),
            Expr::Array(node) => Some(&node.0),
            Expr::Lam(node) => Some(&node.0),
            Expr::Let(node) => Some(&node.0),
            Expr::If(node) => Some(&node.0),
            Expr::Match(node) => Some(&node.0),
            Expr::Ann(node) => Some(&node.0),
            Expr::Qual(node) => Some(&node.0),
            Expr::Pi(node) => Some(&node.0),
            Expr::Sigma(node) => Some(&node.0),
            Expr::Help(node) => Some(&node.0),
            Expr::LocalExpr(node) => Some(&node.0),
            Expr::LiteralExpr(node) => Some(&node.0),
            Expr::SelfExpr(node) => Some(&node.0),
            Expr::Unit(node) => Some(&node.0),
        }
    }

    /// The view of the kind of `tree` over `tree`; `Error` where the kind is
    /// not that of an expression.
    pub fn of_kind(tree: GreenTree) -> (node: Expr)
        ensures
            is_expr(tree@) ==> node.inner() == Some(tree),
            !is_expr(tree@) ==> node is Error,
            node is Group <==> tree.spec_kind() == TreeKind::ExprGroup,
            node is Infix <==> tree.spec_kind() == TreeKind::ExprBinary,
            node is App <==> tree.spec_kind() == TreeKind::ExprApp,
            node is Dsl <==> tree.spec_kind() == TreeKind::ExprDsl,
            node is Array <==> tree.spec_kind() == TreeKind::ExprArray,
            node is Lam <==> tree.spec_kind() == TreeKind::ExprLam,
            node is Let <==> tree.spec_kind() == TreeKind::ExprLet,
            node is If <==> tree.spec_kind() == TreeKind::ExprIf,
            node is Match <==> tree.spec_kind() == TreeKind::ExprMatch,
            node is Ann <==> tree.spec_kind() == TreeKind::ExprAnn,
            node is Qual <==> tree.spec_kind() == TreeKind::ExprQual,
            node is Pi <==> tree.spec_kind() == TreeKind::ExprPi,
            node is Sigma <==> tree.spec_kind() == TreeKind::ExprSigma,
            node is Help <==> tree.spec_kind() == TreeKind::ExprHelp,
            node is LocalExpr <==> tree.spec_kind() == TreeKind::ExprLocal,
            node is LiteralExpr <==> tree.spec_kind() == TreeKind::ExprLit,
            node is SelfExpr <==> tree.spec_kind() == TreeKind::ExprSelf,
            node is Unit <==> tree.spec_kind() == TreeKind::ExprUnit,
    {
        match tree.kind() {
            TreeKind::ExprGroup => Expr::Group(Group(tree)),
            TreeKind::ExprBinary => Expr::Infix(Infix(tree)),
            TreeKind::ExprApp => Expr::App(App(tree)),
            TreeKind::ExprDsl => Expr::Dsl(Dsl(tree)),
            TreeKind::ExprArray => Expr::Array(Array(tree)),
            TreeKind::ExprLam => Expr::Lam(Lam(tree)),
            TreeKind::ExprLet => Expr::Let(Let(tree)),
            TreeKind::ExprIf => Expr::If(If(tree)),
            TreeKind::ExprMatch => Expr::Match(Match(tree)),
            TreeKind::ExprAnn => Expr::Ann(Ann(tree)),
            TreeKind::ExprQual => Expr::Qual(Qual(tree)),
            TreeKind::ExprPi => Expr::Pi(Pi(tree)),
            TreeKind::ExprSigma => Expr::Sigma(Sigma(tree)),
            TreeKind::ExprHelp => Expr::Help(Help(tree)),
            TreeKind::ExprLocal => Expr::LocalExpr(LocalExpr(tree)),
            TreeKind::ExprLit => Expr::LiteralExpr(LiteralExpr(tree)),
            TreeKind::ExprSelf => Expr::SelfExpr(SelfExpr(tree)),
            TreeKind::ExprUnit => Expr::Unit(Unit(tree)),
            _ => Expr::Error,
        }
    }

    /// The kind that this view is of: the error kind for `Error`.
    pub open spec fn spec_tag(&self) -> TreeKind {
        match self {
            Expr::Error => TreeKind::Error,
            Expr::Group(_) => TreeKind::ExprGroup,
            Expr::Infix(_) => TreeKind::ExprBinary,
            Expr::App(_) => TreeKind::ExprApp,
            Expr::Dsl(_) => TreeKind::ExprDsl,
            Expr::Array(_) => TreeKind::ExprArray,
            Expr::Lam(_) => TreeKind::ExprLam,
            Expr::Let(_) => TreeKind::ExprLet,
            Expr::If(_) => TreeKind::ExprIf,
            Expr::Match(_) => TreeKind::ExprMatch,
            Expr::Ann(_) => TreeKind::ExprAnn,
            Expr::Qual(_) => TreeKind::ExprQual,
            Expr::Pi(_) => TreeKind::ExprPi,
            Expr::Sigma(_) => TreeKind::ExprSigma,
            Expr::Help(_) => TreeKind::ExprHelp,
            Expr::LocalExpr(_) => TreeKind::ExprLocal,
            Expr::LiteralExpr(_) => TreeKind::ExprLit,
            Expr::SelfExpr(_) => TreeKind::ExprSelf,
            Expr::Unit(_) => TreeKind::ExprUnit,
        }
    }

    #[verifier::when_used_as_spec(spec_tag)]
    pub fn tag(&self) -> (kind: TreeKind)
        ensures
            kind == self.spec_tag(),
    {
        match self {
            Expr::Error => TreeKind::Error,
            Expr::Group(_) => TreeKind::ExprGroup,
            Expr::Infix(_) => TreeKind::ExprBinary,
            Expr::App(_) => TreeKind::ExprApp,
            Expr::Dsl(_) => TreeKind::ExprDsl,
            Expr::Array(_) => TreeKind::ExprArray,
            Expr::Lam(_) => TreeKind::ExprLam,
            Expr::Let(_) => TreeKind::ExprLet,
            Expr::If(_) => TreeKind::ExprIf,
            Expr::Match(_) => TreeKind::ExprMatch,
            Expr::Ann(_) => TreeKind::ExprAnn,
            Expr::Qual(_) => TreeKind::ExprQual,
            Expr::Pi(_) => TreeKind::ExprPi,
            Expr::Sigma(_) => TreeKind::ExprSigma,
            Expr::Help(_) => TreeKind::ExprHelp,
            Expr::LocalExpr(_) => TreeKind::ExprLocal,
            Expr::LiteralExpr(_) => TreeKind::ExprLit,
            Expr::SelfExpr(_) => TreeKind::ExprSelf,
            Expr::Unit(_) => TreeKind::ExprUnit,
        }
    }
}

/// A view stands for the tree value under it where that is of a kind of the
/// view, and for a broken region elsewhere, as `Error` does.
/// Built from the structured node of an expression, it is the view of its kind over
/// that node; built from anything else, `Error`.
impl Node for Expr {
    open spec fn tree(&self) -> TreeValue {
        match self.inner() {
            Some(tree) => Self::built(tree@),
            None => TreeValue::Empty,
        }
    }

    open spec fn built(tree: TreeValue) -> TreeValue {
        if is_expr(tree) {
            tree
        } else {
            TreeValue::Empty
        }
    }

    fn new(tree: GreenTree) -> (node: Self) {
        Expr::of_kind(tree)
    }

    fn unwrap(self) -> (tree: GreenTree) {
        let under = match self {
            Expr::Error => GreenTree::Empty,
            Expr::Group(node) => node.0,
            Expr::Infix(node) => node.0,
            Expr::App(node) => node.0,
            Expr::Dsl(node) => node.0,
            Expr::Array(node) => node.0,
            Expr::Lam(node) => node.0,
            Expr::Let(node) => node.0,
            Expr::If(node) => node.0,
            Expr::Match(node) => node.0,
            Expr::Ann(node) => node.0,
            Expr::Qual(node) => node.0,
            Expr::Pi(node) => node.0,
            Expr::Sigma(node) => node.0,
            Expr::Help(node) => node.0,
            Expr::LocalExpr(node) => node.0,
            Expr::LiteralExpr(node) => node.0,
            Expr::SelfExpr(node) => node.0,
            Expr::Unit(node) => node.0,
        };
        if expr_kind(under.kind()) {
            under
        } else {
            GreenTree::Empty
        }
    }

    fn duplicate(&self) -> (copy: Self) {
        match self {
            Expr::Error => Expr::Error,
            Expr::Group(node) => Expr::Group(Group(node.0.duplicate())),
            Expr::Infix(node) => Expr::Infix(Infix(node.0.duplicate())),
            Expr::App(node) => Expr::App(App(node.0.duplicate())),
            Expr::Dsl(node) => Expr::Dsl(Dsl(node.0.duplicate())),
            Expr::Array(node) => Expr::Array(Array(node.0.duplicate())),
            Expr::Lam(node) => Expr::Lam(Lam(node.0.duplicate())),
            Expr::Let(node) => Expr::Let(Let(node.0.duplicate())),
            Expr::If(node) => Expr::If(If(node.0.duplicate())),
            Expr::Match(node) => Expr::Match(Match(node.0.duplicate())),
            Expr::Ann(node) => Expr::Ann(Ann(node.0.duplicate())),
            Expr::Qual(node) => Expr::Qual(Qual(node.0.duplicate())),
            Expr::Pi(node) => Expr::Pi(Pi(node.0.duplicate())),
            Expr::Sigma(node) => Expr::Sigma(Sigma(node.0.duplicate())),
            Expr::Help(node) => Expr::Help(Help(node.0.duplicate())),
            Expr::LocalExpr(node) => Expr::LocalExpr(LocalExpr(node.0.duplicate())),
            Expr::LiteralExpr(node) => Expr::LiteralExpr(LiteralExpr(node.0.duplicate())),
            Expr::SelfExpr(node) => Expr::SelfExpr(SelfExpr(node.0.duplicate())),
            Expr::Unit(node) => Expr::Unit(Unit(node.0.duplicate())),
        }
    }

    open spec fn restored(tree: TreeValue) -> TreeValue {
        Self::built(tree)
    }

    fn restore(tree: GreenTree) -> (node: Self) {
        Expr::of_kind(tree)
    }

    proof fn lemma_restored(&self) {
    }
}

/// The structured nodes of the kinds of this view are read as it; no token is.
impl Leaf for Expr {
    open spec fn makes(tree: TreeValue) -> bool {
        is_expr(tree)
    }

    open spec fn reads(token: TokenView) -> bool {
        false
    }

    fn make(tree: GreenTree) -> (node: Option<Self>) {
        if expr_kind(tree.kind()) {
            Some(Expr::of_kind(tree))
        } else {
            None
        }
    }

    fn terminal(token: Intern<Spanned<Token>>) -> (node: Option<Self>) {
        None
    }
}

impl Located for Expr {
    open spec fn spec_location(&self) -> Loc {
        match self.inner() {
            Some(tree) => tree.spec_location(),
            None => Loc::Synthetic,
        }
    }

    fn location(&self) -> (loc: Loc) {
        match self.green() {
            Some(tree) => tree.location(),
            None => Loc::Synthetic,
        }
    }
}

/// Every view round-trips: building from what a view unwraps to gives a view
/// of the same tree value.
pub proof fn lemma_expr_round_trips(node: Expr)
    ensures
        Expr::built(node.tree()) == node.tree(),
{
}

/// What was built is built from its own tree value again as it is.
pub proof fn lemma_expr_built_once(tree: TreeValue)
    ensures
        Expr::built(Expr::built(tree)) == Expr::built(tree),
{
}

/// The kind of a tree value: that of its construct, and the error kind for
/// everything that is not a structured node.
pub open spec fn kind_of(tree: TreeValue) -> TreeKind {
    match tree {
        TreeValue::Leaf { data, .. } => data.value.value.kind,
        _ => TreeKind::Error,
    }
}

/// The height of a tree value: that of its construct, and zero for everything
/// that is not a structured node.
pub open spec fn value_height(tree: TreeValue) -> nat {
    match tree {
        TreeValue::Leaf { data, .. } => height(data.value.value),
        _ => 0,
    }
}

/// The expression at position `nth` among the children of `tree`: the
/// structured node of that child where it is an expression, and a broken
/// region where it is not or where there is no such child.
pub open spec fn expr_at(tree: TreeValue, nth: usize) -> TreeValue {
    match tree {
        TreeValue::Leaf { data, .. } => if nth < data.value.value.children@.len() {
            match data.value.value.children@[nth as int].value {
                Child::Tree(child) => if is_expr(leaf_value(child)) {
                    leaf_value(child)
                } else {
                    TreeValue::Empty
                },
                Child::Token(_) => TreeValue::Empty,
            }
        } else {
            TreeValue::Empty
        },
        _ => TreeValue::Empty,
    }
}

/// The expression at a position among the children of a tree value is a
/// broken region or lower than the tree value.
pub proof fn lemma_expr_at_is_lower(tree: TreeValue, nth: usize)
    ensures
        expr_at(tree, nth) is Empty || value_height(expr_at(tree, nth)) < value_height(tree),
{
    if tree is Leaf {
        let construct: Tree = tree->data.value.value;
        if nth < construct.children@.len() {
            if construct.children@[nth as int].value is Tree {
                lemma_child_is_lower(construct, nth as int);
            }
        }
    }
}

/// The expression at position `nth` among the children of `tree`.
pub fn read_expr_at(tree: &GreenTree, nth: usize) -> (expr: Expr)
    ensures
        expr.tree() == expr_at(tree@, nth),
        expr.under() == expr_at(tree@, nth),
        expr.spec_tag() == kind_of(expr_at(tree@, nth)),
{
    let expr = tree.read_at::<Expr>(nth).get();
    Expr::of_kind(expr.unwrap())
}

/// The text that the token of a terminal holds; empty for everything that is
/// not a terminal.
pub open spec fn token_text(tree: TreeValue) -> Seq<char> {
    match tree {
        TreeValue::Token { token, .. } => token.text,
        _ => Seq::empty(),
    }
}

/// The texts that the tokens behind `tokens` hold, in order.
pub open spec fn texts_of(tokens: Seq<Intern<Spanned<Token>>>) -> Seq<Seq<char>> {
    tokens.map_values(|token: Intern<Spanned<Token>>| token.value.value@.text)
}

impl Group {
    /// The expression between the parentheses: the second child.
    pub fn value(&self) -> (value: Expr)
        ensures
            value.tree() == expr_at(self.0@, 1),
            value.under() == expr_at(self.0@, 1),
            value.spec_tag() == kind_of(expr_at(self.0@, 1)),
    {
        read_expr_at(&self.0, 1)
    }
}

impl Help {
    /// The expression that help is asked for: the second child.
    pub fn value(&self) -> (value: Expr)
        ensures
            value.tree() == expr_at(self.0@, 1),
            value.under() == expr_at(self.0@, 1),
            value.spec_tag() == kind_of(expr_at(self.0@, 1)),
    {
        read_expr_at(&self.0, 1)
    }
}

impl Infix {
    /// The expression on the left: the child declared under `lhs`.
    pub fn lhs(&self) -> (lhs: Expr)
        ensures
            lhs.tree() == named_tree::<Expr>(self.0@, "lhs"@),
    {
        read_named::<Expr>(&self.0, "lhs")
    }

    /// The expression on the right: the child declared under `rhs`.
    pub fn rhs(&self) -> (rhs: Expr)
        ensures
            rhs.tree() == named_tree::<Expr>(self.0@, "rhs"@),
    {
        read_named::<Expr>(&self.0, "rhs")
    }

    /// The name of the operator: the text of the token declared under `op`.
    pub fn fn_id(&self) -> (name: String)
        ensures
            name@ == token_text(named_tree::<Token>(self.0@, "op"@)),
    {
        let token = read_named::<Token>(&self.0, "op");
        token.text().to_owned()
    }
}

impl App {
    /// What is applied: the child declared under `callee`.
    pub fn callee(&self) -> (callee: Expr)
        ensures
            callee.tree() == named_tree::<Expr>(self.0@, "callee"@),
    {
        read_named::<Expr>(&self.0, "callee")
    }

    /// What it is applied to: the child declared under `argument`.
    pub fn argument(&self) -> (argument: Expr)
        ensures
            argument.tree() == named_tree::<Expr>(self.0@, "argument"@),
    {
        read_named::<Expr>(&self.0, "argument")
    }
}

impl Ann {
    /// The expression that is annotated: the child declared under `value`.
    pub fn value(&self) -> (value: Expr)
        ensures
            value.tree() == named_tree::<Expr>(self.0@, "value"@),
    {
        read_named::<Expr>(&self.0, "value")
    }

    /// The type that it is held against: the child declared under `against`.
    pub fn against(&self) -> (against: Expr)
        ensures
            against.tree() == named_tree::<Expr>(self.0@, "against"@),
    {
        read_named::<Expr>(&self.0, "against")
    }
}

impl Array {
    /// The members of the list: the children that are expressions, in order.
    pub fn items(&self) -> (items: Vec<Expr>)
        ensures
            trees_of(items@) == all_trees::<Expr>(self.0@),
    {
        read_all::<Expr>(&self.0)
    }
}

impl If {
    /// The condition: the child declared under `cond`.
    pub fn cond(&self) -> (cond: Expr)
        ensures
            cond.tree() == named_tree::<Expr>(self.0@, "cond"@),
    {
        read_named::<Expr>(&self.0, "cond")
    }

    /// The branch taken where the condition holds: the child declared under
    /// `then_branch`.
    pub fn then_branch(&self) -> (branch: Branch)
        ensures
            branch.tree() == named_tree::<Branch>(self.0@, "then_branch"@),
    {
        read_named::<Branch>(&self.0, "then_branch")
    }

    /// The branch taken where the condition does not hold: the child declared
    /// under `else_branch`.
    pub fn else_branch(&self) -> (branch: Branch)
        ensures
            branch.tree() == named_tree::<Branch>(self.0@, "else_branch"@),
    {
        read_named::<Branch>(&self.0, "else_branch")
    }
}

/// A case of a match: a pattern and the branch taken where it matches.
#[derive(Debug)]
pub struct Case(pub GreenTree);

/// A case stands for the tree value under it, whatever that is.
impl Node for Case {
    open spec fn tree(&self) -> TreeValue {
        self.0@
    }

    open spec fn built(tree: TreeValue) -> TreeValue {
        tree
    }

    fn new(tree: GreenTree) -> (case: Self) {
        Case(tree)
    }

    fn unwrap(self) -> (tree: GreenTree) {
        self.0
    }

    fn duplicate(&self) -> (copy: Self) {
        Case(self.0.duplicate())
    }

    open spec fn restored(tree: TreeValue) -> TreeValue {
        tree
    }

    fn restore(tree: GreenTree) -> (node: Self) {
        Case(tree)
    }

    proof fn lemma_restored(&self) {
    }
}

/// The structured nodes of the kind of a case are read as cases; no token is.
impl Leaf for Case {
    open spec fn makes(tree: TreeValue) -> bool {
        kind_of(tree) == TreeKind::MatchCase
    }

    open spec fn reads(token: TokenView) -> bool {
        false
    }

    fn make(tree: GreenTree) -> (node: Option<Self>) {
        match tree.kind() {
            TreeKind::MatchCase => Some(Case(tree)),
            _ => None,
        }
    }

    fn terminal(token: Intern<Spanned<Token>>) -> (node: Option<Self>) {
        None
    }
}

impl Case {
    /// The pattern of the case: its first child that is a pattern.
    pub fn pat(&self) -> (pat: Pat)
        ensures
            pat.tree() == first_tree::<Pat>(self.0@),
    {
        read_first::<Pat>(&self.0)
    }

    /// The branch of the case: its first child that is a branch.
    pub fn value(&self) -> (branch: Branch)
        ensures
            branch.tree() == first_tree::<Branch>(self.0@),
    {
        read_first::<Branch>(&self.0)
    }
}

impl Match {
    /// What is matched: the child declared under `scrutinee`.
    pub fn scrutinee(&self) -> (scrutinee: Expr)
        ensures
            scrutinee.tree() == named_tree::<Expr>(self.0@, "scrutinee"@),
    {
        read_named::<Expr>(&self.0, "scrutinee")
    }

    /// The cases: the children that are cases, in order.
    pub fn cases(&self) -> (cases: Vec<Case>)
        ensures
            trees_of(cases@) == all_trees::<Case>(self.0@),
    {
        read_all::<Case>(&self.0)
    }
}

/// The texts that `tokens` hold, in order.
pub fn texts(tokens: &Vec<Intern<Spanned<Token>>>) -> (texts: Vec<String>)
    ensures
        texts@.len() == tokens@.len(),
        forall|i: int| 0 <= i < texts@.len() ==> (#[trigger] texts@[i])@ == texts_of(tokens@)[i],
{
    let mut texts: Vec<String> = Vec::new();
    let mut i: usize = 0;
    while i < tokens.len()
        invariant
            0 <= i <= tokens@.len(),
            texts@.len() == i,
            forall|k: int| 0 <= k < i ==> (#[trigger] texts@[k])@ == texts_of(tokens@)[k],
        decreases tokens@.len() - i,
    {
        texts.push(tokens[i].value.value.text().to_owned());
        i += 1;
    }
    texts
}

impl Lam {
    /// The names of the parameters: the texts of the identifiers among the
    /// children, in order.
    pub fn parameters(&self) -> (names: Vec<String>)
        ensures
            names@.len() == tokens_of_kind(self.0.child_seq(), TokenKind::Ident).len(),
            forall|i: int|
                0 <= i < names@.len() ==> (#[trigger] names@[i])@ == texts_of(
                    tokens_of_kind(self.0.child_seq(), TokenKind::Ident),
                )[i],
    {
        let tokens = self.0.any_token(TokenKind::Ident);
        texts(&tokens)
    }

    /// The body of the function: the child declared under `value`.
    pub fn value(&self) -> (value: Expr)
        ensures
            value.tree() == named_tree::<Expr>(self.0@, "value"@),
    {
        read_named::<Expr>(&self.0, "value")
    }
}

impl Dsl {
    /// What is called: the child declared under `callee`.
    pub fn callee(&self) -> (callee: Expr)
        ensures
            callee.tree() == named_tree::<Expr>(self.0@, "callee"@),
    {
        read_named::<Expr>(&self.0, "callee")
    }

    /// The block that follows the call: the children that are statements, in
    /// order.
    pub fn block(&self) -> (stmts: Vec<Stmt>)
        ensures
            trees_of(stmts@) == all_trees::<Stmt>(self.0@),
    {
        read_all::<Stmt>(&self.0)
    }
}

/// The text of the first identifier among the children of `tree`; empty where
/// there is none.
pub open spec fn first_ident(tree: GreenTree) -> Seq<char> {
    if tokens_of_kind(tree.child_seq(), TokenKind::Ident).len() > 0 {
        tokens_of_kind(tree.child_seq(), TokenKind::Ident)[0].value.value@.text
    } else {
        Seq::empty()
    }
}

impl LocalExpr {
    /// The name that is referred to: the text of the first identifier among
    /// the children, and the empty text where there is none.
    pub fn to_fn_id(&self) -> (name: String)
        ensures
            name@ == first_ident(self.0),
    {
        let token = self.0.token(TokenKind::Ident);
        token.value.value.text().to_owned()
    }
}

/// Whether `literal` is the literal read from the first child of `tree`: the
/// literal of that token where the child is a token that a literal is read
/// from, and the error literal elsewhere.
pub open spec fn literal_read(tree: TreeValue, literal: Literal) -> bool {
    match first_literal_token(tree) {
        Some(token) => reads_as(token, literal),
        None => literal is Error,
    }
}

/// The token that the literal of `tree` is read from: its first child, where
/// that is a token that a literal is read from.
pub open spec fn first_literal_token(tree: TreeValue) -> Option<TokenView> {
    match tree {
        TreeValue::Leaf { data, .. } => if data.value.value.children@.len() > 0 {
            match data.value.value.children@[0].value {
                Child::Token(token) => if <Literal as Terminal>::reads(token.value.value@) {
                    Some(token.value.value@)
                } else {
                    None
                },
                Child::Tree(_) => None,
            }
        } else {
            None
        },
        _ => None,
    }
}

impl LiteralExpr {
    /// The literal: read from the first child.
    pub fn literal(&self) -> (literal: Literal)
        ensures
            literal_read(self.0@, literal),
    {
        match self.0.children() {
            Some(children) => {
                if children.len() > 0 {
                    match &children[0].value {
                        Child::Token(token) => match <Literal as Terminal>::terminal(
                            token.share(),
                        ) {
                            Some(literal) => literal,
                            None => Literal::Error,
                        },
                        Child::Tree(_) => Literal::Error,
                    }
                } else {
                    Literal::Error
                }
            },
            None => Literal::Error,
        }
    }
}

} // verus!
