//! A walker that counts the declarations and the files it visits.

use vstd::prelude::*;
use crate::ast::decl::Decl;
use crate::ast::expr::kind_of;
use crate::ast::file::{AsenaFile, DeclWalker, FileWalker};
use crate::leaf::green::TreeValue;
use crate::leaf::node::Node;
use crate::leaf::tree::TreeKind;

verus! {

/// How many declarations of each kind, and how many files, were visited. A
/// count that has reached the greatest number stays there.
#[derive(Clone, Copy, Debug, PartialEq, Eq, Structural)]
pub struct Census {
    pub signatures: usize,
    pub assignments: usize,
    pub errors: usize,
    pub files: usize,
}

/// One more than `count`, as long as there is a number left.
pub open spec fn bumped(count: usize) -> usize {
    if count < usize::MAX {
        (count + 1) as usize
    } else {
        count
    }
}

fn bump(count: usize) -> (more: usize)
    ensures
        more == bumped(count),
{
    if count < usize::MAX {
        count + 1
    } else {
        count
    }
}

impl Census {
    /// A census that has counted nothing.
    pub fn new() -> (census: Census)
        ensures
            census == (Census { signatures: 0, assignments: 0, errors: 0, files: 0 }),
    {
        Census { signatures: 0, assignments: 0, errors: 0, files: 0 }
    }
}

impl DeclWalker for Census {
    open spec fn decl_walked(self, decl: TreeValue) -> Self {
        if kind_of(decl) == TreeKind::DeclSignature {
            Census { signatures: bumped(self.signatures), ..self }
        } else if kind_of(decl) == TreeKind::DeclAssign {
            Census { assignments: bumped(self.assignments), ..self }
        } else {
            Census { errors: bumped(self.errors), ..self }
        }
    }

    fn walk_decl(&mut self, decl: &Decl) {
        let kind = match decl.green() {
            Some(tree) => tree.kind(),
            None => TreeKind::Error,
        };
        match kind {
            TreeKind::DeclSignature => {
                self.signatures = bump(self.signatures);
            },
            TreeKind::DeclAssign => {
                self.assignments = bump(self.assignments);
            },
            _ => {
                self.errors = bump(self.errors);
            },
        }
    }
}

impl FileWalker for Census {
    open spec fn file_walked(self, file: TreeValue) -> Self {
        Census { files: bumped(self.files), ..self }
    }

    fn walk_file(&mut self, file: &AsenaFile) {
        self.files = bump(self.files);
    }
}

} // verus!
