//! Statements of the source language, as typed views of tree values.

use vstd::prelude::*;
use crate::ast::expr::Expr;
use crate::ast::pat::Pat;
use crate::ast::read::{cached_first, first_found};
use crate::leaf::access::{fresh, Found};
use crate::leaf::access::memo_step;
use crate::leaf::cursor::{Cursor, Slots};
use crate::leaf::green::{GreenTree, TreeValue};
use crate::leaf::interner::Intern;
use crate::leaf::node::{Leaf, Located, Node};
use crate::leaf::tree::TreeKind;
use crate::span::{Loc, Spanned};
use crate::token::{Token, TokenView};

verus! {

/// A binding of the result of an action: `<pattern> <- <expr>`.
#[derive(Debug)]
pub struct Ask(pub GreenTree);

/// A binding of a value: `let <pattern> = <expr>`.
#[derive(Debug)]
pub struct SetStmt(pub GreenTree);

/// The result of a block: `return <expr?>`.
#[derive(Debug)]
pub struct Return(pub GreenTree);

/// An expression evaluated for its effect.
#[derive(Debug)]
pub struct Eval(pub GreenTree);

/// A statement: one typed view for each kind of statement, and `Error` for
/// every tree value that is no statement.
#[derive(Debug)]
pub enum Stmt {
    Error,
    Ask(Ask),
    SetStmt(SetStmt),
    Return(Return),
    Eval(Eval),
}

/// Whether `kind` is the kind of a statement.
pub open spec fn is_stmt_kind(kind: TreeKind) -> bool {
    ||| kind == TreeKind::StmtAsk
    ||| kind == TreeKind::StmtLet
    ||| kind == TreeKind::StmtReturn
    ||| kind == TreeKind::StmtExpr
}

/// Decides [`is_stmt_kind`].
pub fn stmt_kind(kind: TreeKind) -> (is: bool)
    ensures
        is == is_stmt_kind(kind),
{
    match kind {
        TreeKind::StmtAsk => true,
        TreeKind::StmtLet => true,
        TreeKind::StmtReturn => true,
        TreeKind::StmtExpr => true,
        _ => false,
    }
}

/// Whether `tree` is the structured node of a statement.
pub open spec fn is_stmt(tree: TreeValue) -> bool {
    tree matches TreeValue::Leaf { data, .. } && is_stmt_kind(data.value.value.kind)
}

impl Stmt {
    /// The tree value under this view, if it is not `Error`.
    pub open spec fn inner(&self) -> Option<GreenTree> {
        match self {
            Stmt::Error => None,
            Stmt::Ask(node) => Some(node.0),
            Stmt::SetStmt(node) => Some(node.0),
            Stmt::Return(node) => Some(node.0),
            Stmt::Eval(node) => Some(node.0),
        }
    }

    /// The tree value under this view, if it is not `Error`.
    pub fn green(&self) -> (tree: Option<&GreenTree>)
        ensures
            match tree {
                Some(tree) => self.inner() == Some(*tree),
                None => self.inner() is None,
            },
    {
        match self {
            Stmt::Error => None,
            Stmt::Ask(node) => Some(&node.0),
            Stmt::SetStmt(node) => Some(&node.0),
            Stmt::Return(node) => Some(&node.0),
            Stmt::Eval(node) => Some(&node.0),
        }
    }

    /// The view of the kind of `tree` over `tree`; `Error` where the kind is
    /// not that of a statement.
    pub fn of_kind(tree: GreenTree) -> (node: Stmt)
        ensures
            is_stmt(tree@) ==> node.inner() == Some(tree),
            !is_stmt(tree@) ==> node is Error,
            node is Ask <==> tree.spec_kind() == TreeKind::StmtAsk,
            node is SetStmt <==> tree.spec_kind() == TreeKind::StmtLet,
            node is Return <==> tree.spec_kind() == TreeKind::StmtReturn,
            node is Eval <==> tree.spec_kind() == TreeKind::StmtExpr,
    {
        match tree.kind() {
            TreeKind::StmtAsk => Stmt::Ask(Ask(tree)),
            TreeKind::StmtLet => Stmt::SetStmt(SetStmt(tree)),
            TreeKind::StmtReturn => Stmt::Return(Return(tree)),
            TreeKind::StmtExpr => Stmt::Eval(Eval(tree)),
            _ => Stmt::Error,
        }
    }

    /// The kind that this view is of: the error kind for `Error`.
    pub open spec fn spec_tag(&self) -> TreeKind {
        match self {
            Stmt::Error => TreeKind::Error,
            Stmt::Ask(_) => TreeKind::StmtAsk,
            Stmt::SetStmt(_) => TreeKind::StmtLet,
            Stmt::Return(_) => TreeKind::StmtReturn,
            Stmt::Eval(_) => TreeKind::StmtExpr,
        }
    }

    #[verifier::when_used_as_spec(spec_tag)]
    pub fn tag(&self) -> (kind: TreeKind)
        ensures
            kind == self.spec_tag(),
    {
        match self {
            Stmt::Error => TreeKind::Error,
            Stmt::Ask(_) => TreeKind::StmtAsk,
            Stmt::SetStmt(_) => TreeKind::StmtLet,
            Stmt::Return(_) => TreeKind::StmtReturn,
            Stmt::Eval(_) => TreeKind::StmtExpr,
        }
    }
}

/// A view stands for the tree value under it where that is of a kind of the
/// view, and for a broken region elsewhere, as `Error` does.
/// Built from the structured node of a statement, it is the view of its kind over
/// that node; built from anything else, `Error`.
impl Node for Stmt {
    open spec fn tree(&self) -> TreeValue {
        match self.inner() {
            Some(tree) => Self::built(tree@),
            None => TreeValue::Empty,
        }
    }

    open spec fn built(tree: TreeValue) -> TreeValue {
        if is_stmt(tree) {
            tree
        } else {
            TreeValue::Empty
        }
    }

    fn new(tree: GreenTree) -> (node: Self) {
        Stmt::of_kind(tree)
    }

    fn unwrap(self) -> (tree: GreenTree) {
        let under = match self {
            Stmt::Error => GreenTree::Empty,
            Stmt::Ask(node) => node.0,
            Stmt::SetStmt(node) => node.0,
            Stmt::Return(node) => node.0,
            Stmt::Eval(node) => node.0,
        };
        if stmt_kind(under.kind()) {
            under
        } else {
            GreenTree::Empty
        }
    }

    fn duplicate(&self) -> (copy: Self) {
        match self {
            Stmt::Error => Stmt::Error,
            Stmt::Ask(node) => Stmt::Ask(Ask(node.0.duplicate())),
            Stmt::SetStmt(node) => Stmt::SetStmt(SetStmt(node.0.duplicate())),
            Stmt::Return(node) => Stmt::Return(Return(node.0.duplicate())),
            Stmt::Eval(node) => Stmt::Eval(Eval(node.0.duplicate())),
        }
    }

    open spec fn restored(tree: TreeValue) -> TreeValue {
        Self::built(tree)
    }

    fn restore(tree: GreenTree) -> (node: Self) {
        Stmt::of_kind(tree)
    }

    proof fn lemma_restored(&self) {
    }
}

/// The structured nodes of the kinds of this view are read as it; no token is.
impl Leaf for Stmt {
    open spec fn makes(tree: TreeValue) -> bool {
        is_stmt(tree)
    }

    open spec fn reads(token: TokenView) -> bool {
        false
    }

    fn make(tree: GreenTree) -> (node: Option<Self>) {
        if stmt_kind(tree.kind()) {
            Some(Stmt::of_kind(tree))
        } else {
            None
        }
    }

    fn terminal(token: Intern<Spanned<Token>>) -> (node: Option<Self>) {
        None
    }
}

impl Located for Stmt {
    open spec fn spec_location(&self) -> Loc {
        match self.inner() {
            Some(tree) => tree.spec_location(),
            None => Loc::Synthetic,
        }
    }

    fn location(&self) -> (loc: Loc) {
        match self.green() {
            Some(tree) => tree.location(),
            None => Loc::Synthetic,
        }
    }
}

/// Every view round-trips: building from what a view unwraps to gives a view
/// of the same tree value.
pub proof fn lemma_stmt_round_trips(node: Stmt)
    ensures
        Stmt::built(node.tree()) == node.tree(),
{
}

/// What was built is built from its own tree value again as it is.
pub proof fn lemma_stmt_built_once(tree: TreeValue)
    ensures
        Stmt::built(Stmt::built(tree)) == Stmt::built(tree),
{
}

impl SetStmt {
    /// A cursor onto the pattern that is bound: the first child that is a
    /// pattern, through the named-child cache under `pattern`.
    pub fn pattern(&mut self, slots: &mut Slots) -> (cursor: Cursor<Pat>)
        ensures
            final(self).0@ == old(self).0@,
            final(self).0.keys() == old(self).0.keys(),
            final(self).0.named() == old(self).0.named(),
            !(old(self).0 is Leaf) ==> fresh(
                cursor,
                old(slots)@,
                final(slots)@,
                Found::Lazy(TreeValue::Empty),
            ),
            old(self).0 is Leaf ==> (final(self).0.names(), cursor.slot) == memo_step(
                old(self).0.names(),
                "pattern"@,
                cursor.slot,
            ),
            old(self).0 is Leaf && old(self).0.names().contains_key("pattern"@) ==> final(slots)@
                == old(slots)@,
            old(self).0 is Leaf && !old(self).0.names().contains_key("pattern"@) ==> fresh(
                cursor,
                old(slots)@,
                final(slots)@,
                first_found::<Pat>(old(self).0@),
            ),
            old(self).0.sound(old(slots)@.len()) ==> final(self).0.sound(final(slots)@.len())
                && cursor.slot < final(slots)@.len(),
    {
        cached_first::<Pat>(&mut self.0, slots, "pattern")
    }

    /// A cursor onto the value that is bound: the first child that is an
    /// expression, through the named-child cache under `value`.
    pub fn value(&mut self, slots: &mut Slots) -> (cursor: Cursor<Expr>)
        ensures
            final(self).0@ == old(self).0@,
            final(self).0.keys() == old(self).0.keys(),
            final(self).0.named() == old(self).0.named(),
            !(old(self).0 is Leaf) ==> fresh(
                cursor,
                old(slots)@,
                final(slots)@,
                Found::Lazy(TreeValue::Empty),
            ),
            old(self).0 is Leaf ==> (final(self).0.names(), cursor.slot) == memo_step(
                old(self).0.names(),
                "value"@,
                cursor.slot,
            ),
            old(self).0 is Leaf && old(self).0.names().contains_key("value"@) ==> final(slots)@
                == old(slots)@,
            old(self).0 is Leaf && !old(self).0.names().contains_key("value"@) ==> fresh(
                cursor,
                old(slots)@,
                final(slots)@,
                first_found::<Expr>(old(self).0@),
            ),
            old(self).0.sound(old(slots)@.len()) ==> final(self).0.sound(final(slots)@.len())
                && cursor.slot < final(slots)@.len(),
    {
        cached_first::<Expr>(&mut self.0, slots, "value")
    }
}

impl Eval {
    /// A cursor onto the expression that is evaluated: the first child that is
    /// an expression, through the named-child cache under `value`.
    pub fn value(&mut self, slots: &mut Slots) -> (cursor: Cursor<Expr>)
        ensures
            final(self).0@ == old(self).0@,
            final(self).0.keys() == old(self).0.keys(),
            final(self).0.named() == old(self).0.named(),
            !(old(self).0 is Leaf) ==> fresh(
                cursor,
                old(slots)@,
                final(slots)@,
                Found::Lazy(TreeValue::Empty),
            ),
            old(self).0 is Leaf ==> (final(self).0.names(), cursor.slot) == memo_step(
                old(self).0.names(),
                "value"@,
                cursor.slot,
            ),
            old(self).0 is Leaf && old(self).0.names().contains_key("value"@) ==> final(slots)@
                == old(slots)@,
            old(self).0 is Leaf && !old(self).0.names().contains_key("value"@) ==> fresh(
                cursor,
                old(slots)@,
                final(slots)@,
                first_found::<Expr>(old(self).0@),
            ),
            old(self).0.sound(old(slots)@.len()) ==> final(self).0.sound(final(slots)@.len())
                && cursor.slot < final(slots)@.len(),
    {
        cached_first::<Expr>(&mut self.0, slots, "value")
    }
}

/// A located statement.
pub type StmtRef = Spanned<Stmt>;

} // verus!
