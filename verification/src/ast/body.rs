//! Bodies of declarations, as typed views of tree values.

use vstd::prelude::*;
use crate::ast::expr::Expr;
use crate::ast::read::{all_trees, first_tree, read_all, read_first};
use crate::ast::stmt::Stmt;
use crate::leaf::green::{GreenTree, TreeValue};
use crate::leaf::interner::Intern;
use crate::leaf::node::trees_of;
use crate::leaf::node::{Leaf, Located, Node};
use crate::leaf::tree::TreeKind;
use crate::span::{Loc, Spanned};
use crate::token::{Token, TokenView};

verus! {

/// The body that is a value, after `=`.
#[derive(Debug)]
pub struct Value(pub GreenTree);

/// The body that is a block of statements.
#[derive(Debug)]
pub struct Do(pub GreenTree);

/// A body: a value or a block of statements, and `Error` for every tree value
/// that is no body.
#[derive(Debug)]
pub enum Body {
    Error,
    Value(Value),
    Do(Do),
}

/// Whether `kind` is the kind of a body.
pub open spec fn is_body_kind(kind: TreeKind) -> bool {
    ||| kind == TreeKind::BodyValue
    ||| kind == TreeKind::BodyDo
}

/// Decides [`is_body_kind`].
pub fn body_kind(kind: TreeKind) -> (is: bool)
    ensures
        is == is_body_kind(kind),
{
    match kind {
        TreeKind::BodyValue => true,
        TreeKind::BodyDo => true,
        _ => false,
    }
}

/// Whether `tree` is the structured node of a body.
pub open spec fn is_body(tree: TreeValue) -> bool {
    tree matches TreeValue::Leaf { data, .. } && is_body_kind(data.value.value.kind)
}

impl Body {
    /// The tree value under this view, if it is not `Error`.
    pub open spec fn inner(&self) -> Option<GreenTree> {
        match self {
            Body::Error => None,
            Body::Value(node) => Some(node.0),
            Body::Do(node) => Some(node.0),
        }
    }

    /// The tree value under this view, if it is not `Error`.
    pub fn green(&self) -> (tree: Option<&GreenTree>)
        ensures
            match tree {
                Some(tree) => self.inner() == Some(*tree),
                None => self.inner() is None,
            },
    {
        match self {
            Body::Error => None,
            Body::Value(node) => Some(&node.0),
            Body::Do(node) => Some(&node.0),
        }
    }

    /// The view of the kind of `tree` over `tree`; `Error` where the kind is
    /// not that of a body.
    pub fn of_kind(tree: GreenTree) -> (node: Body)
        ensures
            is_body(tree@) ==> node.inner() == Some(tree),
            !is_body(tree@) ==> node is Error,
            node is Value <==> tree.spec_kind() == TreeKind::BodyValue,
            node is Do <==> tree.spec_kind() == TreeKind::BodyDo,
    {
        match tree.kind() {
            TreeKind::BodyValue => Body::Value(Value(tree)),
            TreeKind::BodyDo => Body::Do(Do(tree)),
            _ => Body::Error,
        }
    }

    /// The kind that this view is of: the error kind for `Error`.
    pub open spec fn spec_tag(&self) -> TreeKind {
        match self {
            Body::Error => TreeKind::Error,
            Body::Value(_) => TreeKind::BodyValue,
            Body::Do(_) => TreeKind::BodyDo,
        }
    }

    #[verifier::when_used_as_spec(spec_tag)]
    pub fn tag(&self) -> (kind: TreeKind)
        ensures
            kind == self.spec_tag(),
    {
        match self {
            Body::Error => TreeKind::Error,
            Body::Value(_) => TreeKind::BodyValue,
            Body::Do(_) => TreeKind::BodyDo,
        }
    }
}

/// A view stands for the tree value under it where that is of a kind of the
/// view, and for a broken region elsewhere, as `Error` does.
/// Built from the structured node of a body, it is the view of its kind over
/// that node; built from anything else, `Error`.
impl Node for Body {
    open spec fn tree(&self) -> TreeValue {
        match self.inner() {
            Some(tree) => Self::built(tree@),
            None => TreeValue::Empty,
        }
    }

    open spec fn built(tree: TreeValue) -> TreeValue {
        if is_body(tree) {
            tree
        } else {
            TreeValue::Empty
        }
    }

    fn new(tree: GreenTree) -> (node: Self) {
        Body::of_kind(tree)
    }

    fn unwrap(self) -> (tree: GreenTree) {
        let under = match self {
            Body::Error => GreenTree::Empty,
            Body::Value(node) => node.0,
            Body::Do(node) => node.0,
        };
        if body_kind(under.kind()) {
            under
        } else {
            GreenTree::Empty
        }
    }

    fn duplicate(&self) -> (copy: Self) {
        match self {
            Body::Error => Body::Error,
            Body::Value(node) => Body::Value(Value(node.0.duplicate())),
            Body::Do(node) => Body::Do(Do(node.0.duplicate())),
        }
    }

    open spec fn restored(tree: TreeValue) -> TreeValue {
        Self::built(tree)
    }

    fn restore(tree: GreenTree) -> (node: Self) {
        Body::of_kind(tree)
    }

    proof fn lemma_restored(&self) {
    }
}

/// The structured nodes of the kinds of this view are read as it; no token is.
impl Leaf for Body {
    open spec fn makes(tree: TreeValue) -> bool {
        is_body(tree)
    }

    open spec fn reads(token: TokenView) -> bool {
        false
    }

    fn make(tree: GreenTree) -> (node: Option<Self>) {
        if body_kind(tree.kind()) {
            Some(Body::of_kind(tree))
        } else {
            None
        }
    }

    fn terminal(token: Intern<Spanned<Token>>) -> (node: Option<Self>) {
        None
    }
}

impl Located for Body {
    open spec fn spec_location(&self) -> Loc {
        match self.inner() {
            Some(tree) => tree.spec_location(),
            None => Loc::Synthetic,
        }
    }

    fn location(&self) -> (loc: Loc) {
        match self.green() {
            Some(tree) => tree.location(),
            None => Loc::Synthetic,
        }
    }
}

/// Every view round-trips: building from what a view unwraps to gives a view
/// of the same tree value.
pub proof fn lemma_body_round_trips(node: Body)
    ensures
        Body::built(node.tree()) == node.tree(),
{
}

/// What was built is built from its own tree value again as it is.
pub proof fn lemma_body_built_once(tree: TreeValue)
    ensures
        Body::built(Body::built(tree)) == Body::built(tree),
{
}

impl Value {
    /// The expression of the body: its first child that is an expression, and
    /// `Error` where it has none.
    pub fn value(&self) -> (value: Expr)
        ensures
            value.tree() == first_tree::<Expr>(self.0@),
    {
        read_first::<Expr>(&self.0)
    }
}

impl Do {
    /// The statements of the body: its children that are statements, in
    /// order.
    pub fn stmts(&self) -> (stmts: Vec<Stmt>)
        ensures
            trees_of(stmts@) == all_trees::<Stmt>(self.0@),
    {
        read_all::<Stmt>(&self.0)
    }
}

} // verus!
