//! A database that lowers nothing: it answers every query with a fresh handle
//! and keeps what it was asked. It serves to try a lowering pass out.

use vstd::prelude::*;
use crate::ast::branch::Branch;
use crate::ast::expr::{kind_of, Expr};
use crate::ast::pat::Pat;
use crate::ast::stmt::Stmt;
use crate::hir::expr::HirMatchArm;
use crate::hir::ids::{HirExprId, HirPatternId, HirStmtId, HirTypeId, HirValueId, NameId};
use crate::leaf::node::{trees_of, Node};
use crate::leaf::tree::TreeKind;
use crate::lowering::lowerrer::{AstLowerrer, HirExprData, HirValueData, Query};
use crate::span::Loc;

verus! {

/// What a recorder was asked, as far as it keeps it: the kind of the syntax
/// that a query was about, the number of statements of a block, the text of a
/// name, the place of a report.
#[derive(Debug, PartialEq, Eq)]
pub enum Asked {
    Value(TreeKind),
    Type(TreeKind),
    Block(usize),
    Branch(TreeKind),
    Pattern(TreeKind),
    Name(String),
    Expr,
    InternValue,
    TruePattern,
    FalsePattern,
    Unsupported(Loc),
}

/// A database that answers every query with the next number as a handle.
pub struct Recorder {
    /// The handle that was given out last.
    pub next: usize,
    /// What was asked, in order.
    pub asked: Vec<Asked>,
    /// The expressions that were interned, in order.
    pub exprs: Vec<HirExprData>,
    /// The values that were interned, in order.
    pub values: Vec<HirValueData>,
    /// What was asked, as the pass that asks sees it.
    pub log: Ghost<Seq<Query>>,
}

impl Recorder {
    /// A recorder that was asked nothing yet.
    pub fn new() -> (recorder: Recorder)
        ensures
            recorder.log().len() == 0,
            recorder.next == 0,
            recorder.asked@.len() == 0,
    {
        Recorder {
            next: 0,
            asked: Vec::new(),
            exprs: Vec::new(),
            values: Vec::new(),
            log: Ghost(Seq::empty()),
        }
    }

    /// Keeps `asked` and gives the next handle: one more than the last, as
    /// long as there is a number left.
    fn fresh(&mut self, asked: Asked) -> (handle: usize)
        ensures
            final(self).log == old(self).log,
            final(self).exprs == old(self).exprs,
            final(self).values == old(self).values,
            final(self).asked@ == old(self).asked@.push(asked),
            handle == final(self).next,
            final(self).next == crate::ast::census::bumped(old(self).next),
    {
        self.asked.push(asked);
        if self.next < usize::MAX {
            self.next = self.next + 1;
        }
        self.next
    }
}

impl AstLowerrer for Recorder {
    open spec fn log(&self) -> Seq<Query> {
        self.log@
    }

    fn lower_value(&mut self, expr: Expr) -> (id: HirValueId)
        ensures
            id.0 == final(self).next,
            final(self).asked@ == old(self).asked@.push(Asked::Value(kind_of(expr.tree()))),
    {
        let ghost tree = expr.tree();
        let id = HirValueId(self.fresh(Asked::Value(expr.unwrap().kind())));
        proof {
            self.log@ = self.log@.push(Query::Value { expr: tree, id });
        }
        id
    }

    fn lower_type(&mut self, expr: Expr) -> (id: HirTypeId)
        ensures
            id.0 == final(self).next,
            final(self).asked@ == old(self).asked@.push(Asked::Type(kind_of(expr.tree()))),
    {
        let ghost tree = expr.tree();
        let id = HirTypeId(self.fresh(Asked::Type(expr.unwrap().kind())));
        proof {
            self.log@ = self.log@.push(Query::Type { expr: tree, id });
        }
        id
    }

    fn lower_block(&mut self, stmts: Vec<Stmt>) -> (ids: Vec<HirStmtId>)
        ensures
            ids@.len() == stmts@.len(),
            final(self).asked@ == old(self).asked@.push(Asked::Block(stmts@.len() as usize)),
    {
        let first = self.fresh(Asked::Block(stmts.len()));
        let mut ids: Vec<HirStmtId> = Vec::new();
        let mut i: usize = 0;
        while i < stmts.len()
            invariant
                0 <= i <= stmts@.len(),
                ids@.len() == i,
            decreases stmts@.len() - i,
        {
            ids.push(HirStmtId(first.wrapping_add(i)));
            i += 1;
        }
        proof {
            self.log@ = self.log@.push(Query::Block { stmts: trees_of(stmts@), ids: ids@ });
        }
        ids
    }

    fn lower_branch(&mut self, branch: Branch) -> (arm: HirMatchArm)
        ensures
            arm == HirMatchArm::Expr(HirValueId(final(self).next)),
            final(self).asked@ == old(self).asked@.push(Asked::Branch(kind_of(branch.tree()))),
    {
        let ghost tree = branch.tree();
        let arm = HirMatchArm::Expr(
            HirValueId(self.fresh(Asked::Branch(branch.unwrap().kind()))),
        );
        proof {
            self.log@ = self.log@.push(Query::Branch { branch: tree, arm });
        }
        arm
    }

    fn lower_pattern(&mut self, pat: Pat) -> (id: HirPatternId)
        ensures
            id.0 == final(self).next,
            final(self).asked@ == old(self).asked@.push(Asked::Pattern(kind_of(pat.tree()))),
    {
        let ghost tree = pat.tree();
        let id = HirPatternId(self.fresh(Asked::Pattern(pat.unwrap().kind())));
        proof {
            self.log@ = self.log@.push(Query::Pattern { pat: tree, id });
        }
        id
    }

    fn intern_name(&mut self, name: String) -> (id: NameId)
        ensures
            id.0 == final(self).next,
            final(self).asked@ == old(self).asked@.push(Asked::Name(name)),
    {
        let ghost text = name@;
        let id = NameId(self.fresh(Asked::Name(name)));
        proof {
            self.log@ = self.log@.push(Query::Name { text, id });
        }
        id
    }

    fn intern_expr(&mut self, data: HirExprData) -> (id: HirExprId)
        ensures
            id.0 == final(self).next,
            final(self).asked@ == old(self).asked@.push(Asked::Expr),
            final(self).exprs@ == old(self).exprs@.push(data),
    {
        let id = HirExprId(self.fresh(Asked::Expr));
        proof {
            self.log@ = self.log@.push(Query::Expr { data, id });
        }
        self.exprs.push(data);
        id
    }

    fn intern_value(&mut self, data: HirValueData) -> (id: HirValueId)
        ensures
            id.0 == final(self).next,
            final(self).asked@ == old(self).asked@.push(Asked::InternValue),
            final(self).values@ == old(self).values@.push(data),
    {
        let id = HirValueId(self.fresh(Asked::InternValue));
        proof {
            self.log@ = self.log@.push(Query::InternValue { data, id });
        }
        self.values.push(data);
        id
    }

    fn new_true(&mut self) -> (id: HirPatternId)
        ensures
            id.0 == final(self).next,
            final(self).asked@ == old(self).asked@.push(Asked::TruePattern),
    {
        let id = HirPatternId(self.fresh(Asked::TruePattern));
        proof {
            self.log@ = self.log@.push(Query::TruePattern { id });
        }
        id
    }

    fn new_false(&mut self) -> (id: HirPatternId)
        ensures
            id.0 == final(self).next,
            final(self).asked@ == old(self).asked@.push(Asked::FalsePattern),
    {
        let id = HirPatternId(self.fresh(Asked::FalsePattern));
        proof {
            self.log@ = self.log@.push(Query::FalsePattern { id });
        }
        id
    }

    fn report_unsupported(&mut self, at: Loc)
        ensures
            final(self).asked@ == old(self).asked@.push(Asked::Unsupported(at)),
    {
        let handle = self.fresh(Asked::Unsupported(at));
        proof {
            self.log@ = self.log@.push(Query::Unsupported { at });
        }
    }
}

} // verus!
