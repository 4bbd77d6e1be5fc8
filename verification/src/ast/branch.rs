//! Branches of choices, as typed views of tree values.

use vstd::prelude::*;
use crate::leaf::green::{GreenTree, TreeValue};
use crate::leaf::interner::Intern;
use crate::leaf::node::{Leaf, Located, Node};
use crate::leaf::tree::TreeKind;
use crate::span::{Loc, Spanned};
use crate::token::{Token, TokenView};

verus! {

/// A branch that is an expression.
#[derive(Debug)]
pub struct ExprBranch(pub GreenTree);

/// A branch that is a block of statements.
#[derive(Debug)]
pub struct BlockBranch(pub GreenTree);

/// A branch: an expression or a block, and `Error` for every tree value that
/// is no branch.
#[derive(Debug)]
pub enum Branch {
    Error,
    ExprBranch(ExprBranch),
    BlockBranch(BlockBranch),
}

/// Whether `kind` is the kind of a branch.
pub open spec fn is_branch_kind(kind: TreeKind) -> bool {
    ||| kind == TreeKind::BranchExpr
    ||| kind == TreeKind::BranchBlock
}

/// Decides [`is_branch_kind`].
pub fn branch_kind(kind: TreeKind) -> (is: bool)
    ensures
        is == is_branch_kind(kind),
{
    match kind {
        TreeKind::BranchExpr => true,
        TreeKind::BranchBlock => true,
        _ => false,
    }
}

/// Whether `tree` is the structured node of a branch.
pub open spec fn is_branch(tree: TreeValue) -> bool {
    tree matches TreeValue::Leaf { data, .. } && is_branch_kind(data.value.value.kind)
}

impl Branch {
    /// The tree value under this view, if it is not `Error`.
    pub open spec fn inner(&self) -> Option<GreenTree> {
        match self {
            Branch::Error => None,
            Branch::ExprBranch(node) => Some(node.0),
            Branch::BlockBranch(node) => Some(node.0),
        }
    }

    /// The tree value under this view, if it is not `Error`.
    pub fn green(&self) -> (tree: Option<&GreenTree>)
        ensures
            match tree {
                Some(tree) => self.inner() == Some(*tree),
                None => self.inner() is None,
            },
    {
        match self {
            Branch::Error => None,
            Branch::ExprBranch(node) => Some(&node.0),
            Branch::BlockBranch(node) => Some(&node.0),
        }
    }

    /// The view of the kind of `tree` over `tree`; `Error` where the kind is
    /// not that of a branch.
    pub fn of_kind(tree: GreenTree) -> (node: Branch)
        ensures
            is_branch(tree@) ==> node.inner() == Some(tree),
            !is_branch(tree@) ==> node is Error,
            node is ExprBranch <==> tree.spec_kind() == TreeKind::BranchExpr,
            node is BlockBranch <==> tree.spec_kind() == TreeKind::BranchBlock,
    {
        match tree.kind() {
            TreeKind::BranchExpr => Branch::ExprBranch(ExprBranch(tree)),
            TreeKind::BranchBlock => Branch::BlockBranch(BlockBranch(tree)),
            _ => Branch::Error,
        }
    }

    /// The kind that this view is of: the error kind for `Error`.
    pub open spec fn spec_tag(&self) -> TreeKind {
        match self {
            Branch::Error => TreeKind::Error,
            Branch::ExprBranch(_) => TreeKind::BranchExpr,
            Branch::BlockBranch(_) => TreeKind::BranchBlock,
        }
    }

    #[verifier::when_used_as_spec(spec_tag)]
    pub fn tag(&self) -> (kind: TreeKind)
        ensures
            kind == self.spec_tag(),
    {
        match self {
            Branch::Error => TreeKind::Error,
            Branch::ExprBranch(_) => TreeKind::BranchExpr,
            Branch::BlockBranch(_) => TreeKind::BranchBlock,
        }
    }
}

/// A view stands for the tree value under it where that is of a kind of the
/// view, and for a broken region elsewhere, as `Error` does.
/// Built from the structured node of a branch, it is the view of its kind over
/// that node; built from anything else, `Error`.
impl Node for Branch {
    open spec fn tree(&self) -> TreeValue {
        match self.inner() {
            Some(tree) => Self::built(tree@),
            None => TreeValue::Empty,
        }
    }

    open spec fn built(tree: TreeValue) -> TreeValue {
        if is_branch(tree) {
            tree
        } else {
            TreeValue::Empty
        }
    }

    fn new(tree: GreenTree) -> (node: Self) {
        Branch::of_kind(tree)
    }

    fn unwrap(self) -> (tree: GreenTree) {
        let under = match self {
            Branch::Error => GreenTree::Empty,
            Branch::ExprBranch(node) => node.0,
            Branch::BlockBranch(node) => node.0,
        };
        if branch_kind(under.kind()) {
            under
        } else {
            GreenTree::Empty
        }
    }

    fn duplicate(&self) -> (copy: Self) {
        match self {
            Branch::Error => Branch::Error,
            Branch::ExprBranch(node) => Branch::ExprBranch(ExprBranch(node.0.duplicate())),
            Branch::BlockBranch(node) => Branch::BlockBranch(BlockBranch(node.0.duplicate())),
        }
    }

    open spec fn restored(tree: TreeValue) -> TreeValue {
        Self::built(tree)
    }

    fn restore(tree: GreenTree) -> (node: Self) {
        Branch::of_kind(tree)
    }

    proof fn lemma_restored(&self) {
    }
}

/// The structured nodes of the kinds of this view are read as it; no token is.
impl Leaf for Branch {
    open spec fn makes(tree: TreeValue) -> bool {
        is_branch(tree)
    }

    open spec fn reads(token: TokenView) -> bool {
        false
    }

    fn make(tree: GreenTree) -> (node: Option<Self>) {
        if branch_kind(tree.kind()) {
            Some(Branch::of_kind(tree))
        } else {
            None
        }
    }

    fn terminal(token: Intern<Spanned<Token>>) -> (node: Option<Self>) {
        None
    }
}

impl Located for Branch {
    open spec fn spec_location(&self) -> Loc {
        match self.inner() {
            Some(tree) => tree.spec_location(),
            None => Loc::Synthetic,
        }
    }

    fn location(&self) -> (loc: Loc) {
        match self.green() {
            Some(tree) => tree.location(),
            None => Loc::Synthetic,
        }
    }
}

/// Every view round-trips: building from what a view unwraps to gives a view
/// of the same tree value.
pub proof fn lemma_branch_round_trips(node: Branch)
    ensures
        Branch::built(node.tree()) == node.tree(),
{
}

/// What was built is built from its own tree value again as it is.
pub proof fn lemma_branch_built_once(tree: TreeValue)
    ensures
        Branch::built(Branch::built(tree)) == Branch::built(tree),
{
}

} // verus!
