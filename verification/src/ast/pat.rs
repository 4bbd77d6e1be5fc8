//! Patterns of the source language, as typed views of tree values.

use vstd::prelude::*;
use crate::leaf::green::{GreenTree, TreeValue};
use crate::leaf::interner::Intern;
use crate::leaf::node::{Leaf, Located, Node};
use crate::leaf::tree::TreeKind;
use crate::span::{Loc, Spanned};
use crate::token::{Token, TokenView};

verus! {

/// The pattern that everything matches.
#[derive(Debug)]
pub struct Wildcard(pub GreenTree);

/// The pattern that binds a name.
#[derive(Debug)]
pub struct Local(pub GreenTree);

/// The pattern that a literal matches.
#[derive(Debug)]
pub struct LiteralPat(pub GreenTree);

/// A pattern: one typed view for each kind of pattern, and `Error` for every
/// tree value that is no pattern.
#[derive(Debug)]
pub enum Pat {
    Error,
    Wildcard(Wildcard),
    Local(Local),
    LiteralPat(LiteralPat),
}

/// Whether `kind` is the kind of a pattern.
pub open spec fn is_pat_kind(kind: TreeKind) -> bool {
    ||| kind == TreeKind::PatWildcard
    ||| kind == TreeKind::PatLocal
    ||| kind == TreeKind::PatLit
}

/// Decides [`is_pat_kind`].
pub fn pat_kind(kind: TreeKind) -> (is: bool)
    ensures
        is == is_pat_kind(kind),
{
    match kind {
        TreeKind::PatWildcard => true,
        TreeKind::PatLocal => true,
        TreeKind::PatLit => true,
        _ => false,
    }
}

/// Whether `tree` is the structured node of a pattern.
pub open spec fn is_pat(tree: TreeValue) -> bool {
    tree matches TreeValue::Leaf { data, .. } && is_pat_kind(data.value.value.kind)
}

impl Pat {
    /// The tree value under this view, if it is not `Error`.
    pub open spec fn inner(&self) -> Option<GreenTree> {
        match self {
            Pat::Error => None,
            Pat::Wildcard(node) => Some(node.0),
            Pat::Local(node) => Some(node.0),
            Pat::LiteralPat(node) => Some(node.0),
        }
    }

    /// The tree value under this view, if it is not `Error`.
    pub fn green(&self) -> (tree: Option<&GreenTree>)
        ensures
            match tree {
                Some(tree) => self.inner() == Some(*tree),
                None => self.inner() is None,
            },
    {
        match self {
            Pat::Error => None,
            Pat::Wildcard(node) => Some(&node.0),
            Pat::Local(node) => Some(&node.0),
            Pat::LiteralPat(node) => Some(&node.0),
        }
    }

    /// The view of the kind of `tree` over `tree`; `Error` where the kind is
    /// not that of a pattern.
    pub fn of_kind(tree: GreenTree) -> (node: Pat)
        ensures
            is_pat(tree@) ==> node.inner() == Some(tree),
            !is_pat(tree@) ==> node is Error,
            node is Wildcard <==> tree.spec_kind() == TreeKind::PatWildcard,
            node is Local <==> tree.spec_kind() == TreeKind::PatLocal,
            node is LiteralPat <==> tree.spec_kind() == TreeKind::PatLit,
    {
        match tree.kind() {
            TreeKind::PatWildcard => Pat::Wildcard(Wildcard(tree)),
            TreeKind::PatLocal => Pat::Local(Local(tree)),
            TreeKind::PatLit => Pat::LiteralPat(LiteralPat(tree)),
            _ => Pat::Error,
        }
    }

    /// The kind that this view is of: the error kind for `Error`.
    pub open spec fn spec_tag(&self) -> TreeKind {
        match self {
            Pat::Error => TreeKind::Error,
            Pat::Wildcard(_) => TreeKind::PatWildcard,
            Pat::Local(_) => TreeKind::PatLocal,
            Pat::LiteralPat(_) => TreeKind::PatLit,
        }
    }

    #[verifier::when_used_as_spec(spec_tag)]
    pub fn tag(&self) -> (kind: TreeKind)
        ensures
            kind == self.spec_tag(),
    {
        match self {
            Pat::Error => TreeKind::Error,
            Pat::Wildcard(_) => TreeKind::PatWildcard,
            Pat::Local(_) => TreeKind::PatLocal,
            Pat::LiteralPat(_) => TreeKind::PatLit,
        }
    }
}

/// A view stands for the tree value under it where that is of a kind of the
/// view, and for a broken region elsewhere, as `Error` does.
/// Built from the structured node of a pattern, it is the view of its kind over
/// that node; built from anything else, `Error`.
impl Node for Pat {
    open spec fn tree(&self) -> TreeValue {
        match self.inner() {
            Some(tree) => Self::built(tree@),
            None => TreeValue::Empty,
        }
    }

    open spec fn built(tree: TreeValue) -> TreeValue {
        if is_pat(tree) {
            tree
        } else {
            TreeValue::Empty
        }
    }

    fn new(tree: GreenTree) -> (node: Self) {
        Pat::of_kind(tree)
    }

    fn unwrap(self) -> (tree: GreenTree) {
        let under = match self {
            Pat::Error => GreenTree::Empty,
            Pat::Wildcard(node) => node.0,
            Pat::Local(node) => node.0,
            Pat::LiteralPat(node) => node.0,
        };
        if pat_kind(under.kind()) {
            under
        } else {
            GreenTree::Empty
        }
    }

    fn duplicate(&self) -> (copy: Self) {
        match self {
            Pat::Error => Pat::Error,
            Pat::Wildcard(node) => Pat::Wildcard(Wildcard(node.0.duplicate())),
            Pat::Local(node) => Pat::Local(Local(node.0.duplicate())),
            Pat::LiteralPat(node) => Pat::LiteralPat(LiteralPat(node.0.duplicate())),
        }
    }

    open spec fn restored(tree: TreeValue) -> TreeValue {
        Self::built(tree)
    }

    fn restore(tree: GreenTree) -> (node: Self) {
        Pat::of_kind(tree)
    }

    proof fn lemma_restored(&self) {
    }
}

/// The structured nodes of the kinds of this view are read as it; no token is.
impl Leaf for Pat {
    open spec fn makes(tree: TreeValue) -> bool {
        is_pat(tree)
    }

    open spec fn reads(token: TokenView) -> bool {
        false
    }

    fn make(tree: GreenTree) -> (node: Option<Self>) {
        if pat_kind(tree.kind()) {
            Some(Pat::of_kind(tree))
        } else {
            None
        }
    }

    fn terminal(token: Intern<Spanned<Token>>) -> (node: Option<Self>) {
        None
    }
}

impl Located for Pat {
    open spec fn spec_location(&self) -> Loc {
        match self.inner() {
            Some(tree) => tree.spec_location(),
            None => Loc::Synthetic,
        }
    }

    fn location(&self) -> (loc: Loc) {
        match self.green() {
            Some(tree) => tree.location(),
            None => Loc::Synthetic,
        }
    }
}

/// Every view round-trips: building from what a view unwraps to gives a view
/// of the same tree value.
pub proof fn lemma_pat_round_trips(node: Pat)
    ensures
        Pat::built(node.tree()) == node.tree(),
{
}

/// What was built is built from its own tree value again as it is.
pub proof fn lemma_pat_built_once(tree: TreeValue)
    ensures
        Pat::built(Pat::built(tree)) == Pat::built(tree),
{
}

} // verus!
