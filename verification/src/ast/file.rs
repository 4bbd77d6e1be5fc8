//! A source file, as a typed view of a tree value, and how it is walked.

use vstd::prelude::*;
use crate::ast::decl::Decl;
use crate::ast::expr::kind_of;
use crate::ast::read::{all_trees, read_all};
use crate::leaf::access::lemma_kept_from_children;
use crate::leaf::green::{GreenTree, TreeValue};
use crate::leaf::interner::Intern;
use crate::leaf::node::{trees_of, Leaf, Located, Node};
use crate::leaf::tree::TreeKind;
use crate::leaf::walk::Walkable;
use crate::span::{Loc, Spanned};
use crate::token::{Token, TokenView};

verus! {

/// The root of a source file: a set of declarations.
#[derive(Debug)]
pub struct AsenaFile(pub GreenTree);

impl AsenaFile {
    /// The declarations of the file: its children that are declarations, in
    /// order.
    pub fn declarations(&self) -> (decls: Vec<Decl>)
        ensures
            trees_of(decls@) == all_trees::<Decl>(self.0@),
    {
        read_all::<Decl>(&self.0)
    }
}

impl Default for AsenaFile {
    /// The file over the default tree value.
    fn default() -> (file: Self)
        ensures
            file.0@ is Leaf,
            kind_of(file.0@) == TreeKind::Error,
    {
        AsenaFile(GreenTree::default())
    }
}

/// A file stands for the tree value under it, whatever that is.
impl Node for AsenaFile {
    open spec fn tree(&self) -> TreeValue {
        self.0@
    }

    open spec fn built(tree: TreeValue) -> TreeValue {
        tree
    }

    fn new(tree: GreenTree) -> (file: Self) {
        AsenaFile(tree)
    }

    fn unwrap(self) -> (tree: GreenTree) {
        self.0
    }

    fn duplicate(&self) -> (copy: Self) {
        AsenaFile(self.0.duplicate())
    }

    open spec fn restored(tree: TreeValue) -> TreeValue {
        tree
    }

    fn restore(tree: GreenTree) -> (node: Self) {
        AsenaFile(tree)
    }

    proof fn lemma_restored(&self) {
    }
}

/// The structured nodes of the kind of a file are read as files; no token is.
impl Leaf for AsenaFile {
    open spec fn makes(tree: TreeValue) -> bool {
        kind_of(tree) == TreeKind::File
    }

    open spec fn reads(token: TokenView) -> bool {
        false
    }

    fn make(tree: GreenTree) -> (node: Option<Self>) {
        match tree.kind() {
            TreeKind::File => Some(AsenaFile(tree)),
            _ => None,
        }
    }

    fn terminal(token: Intern<Spanned<Token>>) -> (node: Option<Self>) {
        None
    }
}

impl Located for AsenaFile {
    open spec fn spec_location(&self) -> Loc {
        self.0.spec_location()
    }

    fn location(&self) -> (loc: Loc) {
        self.0.location()
    }
}

/// A walker that can visit declarations.
pub trait DeclWalker: Sized {
    /// The walker after it has visited the declaration over `decl`.
    spec fn decl_walked(self, decl: TreeValue) -> Self;

    /// Visits a declaration.
    fn walk_decl(&mut self, decl: &Decl)
        ensures
            *final(self) == old(self).decl_walked(decl.tree()),
    ;
}

/// A walker that can visit a whole file: its declarations, then the file.
pub trait FileWalker: DeclWalker {
    /// The walker after it has visited the file over `file`.
    spec fn file_walked(self, file: TreeValue) -> Self;

    /// Visits a file, after its declarations were walked.
    fn walk_file(&mut self, file: &AsenaFile)
        ensures
            *final(self) == old(self).file_walked(file.tree()),
    ;
}

/// A declaration is walked by visiting it; what is no declaration is passed
/// over.
impl<W: DeclWalker> Walkable<W> for Decl {
    open spec fn walked(&self, walker: W) -> W {
        if self is Error {
            walker
        } else {
            walker.decl_walked(self.tree())
        }
    }

    fn walk(&self, walker: &mut W) {
        match self {
            Decl::Error => {},
            _ => {
                walker.walk_decl(self);
            },
        }
    }
}

/// The walker after it has visited the declarations over `decls`, in order.
/// Every one of them is a declaration, so none is passed over.
pub open spec fn decls_walked<W: DeclWalker>(decls: Seq<TreeValue>, walker: W) -> W
    decreases decls.len(),
{
    if decls.len() == 0 {
        walker
    } else {
        decls_walked(decls.drop_last(), walker).decl_walked(decls.last())
    }
}

/// A file is walked by walking its declarations in order, then visiting the
/// file itself.
impl<W: FileWalker> Walkable<W> for AsenaFile {
    open spec fn walked(&self, walker: W) -> W {
        decls_walked(all_trees::<Decl>(self.0@), walker).file_walked(self.0@)
    }

    fn walk(&self, walker: &mut W) {
        let decls = self.declarations();
        let ghost trees = trees_of(decls@);
        let mut i: usize = 0;
        while i < decls.len()
            invariant
                0 <= i <= decls@.len(),
                trees == trees_of(decls@),
                trees == all_trees::<Decl>(self.0@),
                *walker == decls_walked(trees.take(i as int), *old(walker)),
            decreases decls@.len() - i,
        {
            proof {
                assert(trees.take(i + 1).drop_last() == trees.take(i as int));
                assert(trees.take(i + 1).last() == decls@[i as int].tree());
                assert(decls@[i as int].tree() is Leaf) by {
                    lemma_kept_from_children::<Decl>(self.0@->data.value.value.children@);
                    assert(trees[i as int] == decls@[i as int].tree());
                }
            }
            decls[i].walk(walker);
            i += 1;
        }
        proof {
            assert(trees.take(i as int) == trees);
        }
        walker.walk_file(self);
    }
}

} // verus!
