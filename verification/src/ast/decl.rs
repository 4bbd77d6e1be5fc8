//! Declarations of the source language, as typed views of tree values.

use vstd::prelude::*;
use crate::leaf::green::{GreenTree, TreeValue};
use crate::leaf::interner::Intern;
use crate::leaf::node::{Leaf, Located, Node};
use crate::leaf::tree::TreeKind;
use crate::span::{Loc, Spanned};
use crate::token::{Token, TokenView};

verus! {

/// The declaration of the type of a name.
#[derive(Debug)]
pub struct Signature(pub GreenTree);

/// The declaration of the value of a name.
#[derive(Debug)]
pub struct Assign(pub GreenTree);

/// A declaration: one typed view for each kind of declaration, and `Error`
/// for every tree value that is no declaration.
#[derive(Debug)]
pub enum Decl {
    Error,
    Signature(Signature),
    Assign(Assign),
}

/// Whether `kind` is the kind of a declaration.
pub open spec fn is_decl_kind(kind: TreeKind) -> bool {
    ||| kind == TreeKind::DeclSignature
    ||| kind == TreeKind::DeclAssign
}

/// Decides [`is_decl_kind`].
pub fn decl_kind(kind: TreeKind) -> (is: bool)
    ensures
        is == is_decl_kind(kind),
{
    match kind {
        TreeKind::DeclSignature => true,
        TreeKind::DeclAssign => true,
        _ => false,
    }
}

/// Whether `tree` is the structured node of a declaration.
pub open spec fn is_decl(tree: TreeValue) -> bool {
    tree matches TreeValue::Leaf { data, .. } && is_decl_kind(data.value.value.kind)
}

impl Decl {
    /// The tree value under this view, if it is not `Error`.
    pub open spec fn inner(&self) -> Option<GreenTree> {
        match self {
            Decl::Error => None,
            Decl::Signature(node) => Some(node.0),
            Decl::Assign(node) => Some(node.0),
        }
    }

    /// The tree value under this view, if it is not `Error`.
    pub fn green(&self) -> (tree: Option<&GreenTree>)
        ensures
            match tree {
                Some(tree) => self.inner() == Some(*tree),
                None => self.inner() is None,
            },
    {
        match self {
            Decl::Error => None,
            Decl::Signature(node) => Some(&node.0),
            Decl::Assign(node) => Some(&node.0),
        }
    }

    /// The view of the kind of `tree` over `tree`; `Error` where the kind is
    /// not that of a declaration.
    pub fn of_kind(tree: GreenTree) -> (node: Decl)
        ensures
            is_decl(tree@) ==> node.inner() == Some(tree),
            !is_decl(tree@) ==> node is Error,
            node is Signature <==> tree.spec_kind() == TreeKind::DeclSignature,
            node is Assign <==> tree.spec_kind() == TreeKind::DeclAssign,
    {
        match tree.kind() {
            TreeKind::DeclSignature => Decl::Signature(Signature(tree)),
            TreeKind::DeclAssign => Decl::Assign(Assign(tree)),
            _ => Decl::Error,
        }
    }

    /// The kind that this view is of: the error kind for `Error`.
    pub open spec fn spec_tag(&self) -> TreeKind {
        match self {
            Decl::Error => TreeKind::Error,
            Decl::Signature(_) => TreeKind::DeclSignature,
            Decl::Assign(_) => TreeKind::DeclAssign,
        }
    }

    #[verifier::when_used_as_spec(spec_tag)]
    pub fn tag(&self) -> (kind: TreeKind)
        ensures
            kind == self.spec_tag(),
    {
        match self {
            Decl::Error => TreeKind::Error,
            Decl::Signature(_) => TreeKind::DeclSignature,
            Decl::Assign(_) => TreeKind::DeclAssign,
        }
    }
}

/// A view stands for the tree value under it where that is of a kind of the
/// view, and for a broken region elsewhere, as `Error` does.
/// Built from the structured node of a declaration, it is the view of its kind over
/// that node; built from anything else, `Error`.
impl Node for Decl {
    open spec fn tree(&self) -> TreeValue {
        match self.inner() {
            Some(tree) => Self::built(tree@),
            None => TreeValue::Empty,
        }
    }

    open spec fn built(tree: TreeValue) -> TreeValue {
        if is_decl(tree) {
            tree
        } else {
            TreeValue::Empty
        }
    }

    fn new(tree: GreenTree) -> (node: Self) {
        Decl::of_kind(tree)
    }

    fn unwrap(self) -> (tree: GreenTree) {
        let under = match self {
            Decl::Error => GreenTree::Empty,
            Decl::Signature(node) => node.0,
            Decl::Assign(node) => node.0,
        };
        if decl_kind(under.kind()) {
            under
        } else {
            GreenTree::Empty
        }
    }

    fn duplicate(&self) -> (copy: Self) {
        match self {
            Decl::Error => Decl::Error,
            Decl::Signature(node) => Decl::Signature(Signature(node.0.duplicate())),
            Decl::Assign(node) => Decl::Assign(Assign(node.0.duplicate())),
        }
    }

    open spec fn restored(tree: TreeValue) -> TreeValue {
        Self::built(tree)
    }

    fn restore(tree: GreenTree) -> (node: Self) {
        Decl::of_kind(tree)
    }

    proof fn lemma_restored(&self) {
    }
}

/// The structured nodes of the kinds of this view are read as it; no token is.
impl Leaf for Decl {
    open spec fn makes(tree: TreeValue) -> bool {
        is_decl(tree)
    }

    open spec fn reads(token: TokenView) -> bool {
        false
    }

    fn make(tree: GreenTree) -> (node: Option<Self>) {
        if decl_kind(tree.kind()) {
            Some(Decl::of_kind(tree))
        } else {
            None
        }
    }

    fn terminal(token: Intern<Spanned<Token>>) -> (node: Option<Self>) {
        None
    }
}

impl Located for Decl {
    open spec fn spec_location(&self) -> Loc {
        match self.inner() {
            Some(tree) => tree.spec_location(),
            None => Loc::Synthetic,
        }
    }

    fn location(&self) -> (loc: Loc) {
        match self.green() {
            Some(tree) => tree.location(),
            None => Loc::Synthetic,
        }
    }
}

/// Every view round-trips: building from what a view unwraps to gives a view
/// of the same tree value.
pub proof fn lemma_decl_round_trips(node: Decl)
    ensures
        Decl::built(node.tree()) == node.tree(),
{
}

/// What was built is built from its own tree value again as it is.
pub proof fn lemma_decl_built_once(tree: TreeValue)
    ensures
        Decl::built(Decl::built(tree)) == Decl::built(tree),
{
}

} // verus!
