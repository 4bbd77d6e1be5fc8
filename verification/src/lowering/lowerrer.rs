//! The database that expressions are lowered against.

use vstd::prelude::*;
use crate::ast::branch::Branch;
use crate::ast::expr::Expr;
use crate::ast::pat::Pat;
use crate::ast::stmt::Stmt;
use crate::hir::expr::{HirExprKind, HirMatchArm};
use crate::hir::ids::{HirExprId, HirPatternId, HirStmtId, HirTypeId, HirValueId, NameId};
use crate::hir::value::HirValueKind;
use crate::leaf::green::TreeValue;
use crate::leaf::node::{trees_of, Node};
use crate::span::Loc;

verus! {

/// An expression of the intermediate representation that is not interned yet.
#[derive(Debug)]
pub struct HirExprData {
    pub kind: HirExprKind,
    pub span: Loc,
}

/// A value of the intermediate representation that is not interned yet.
#[derive(Debug)]
pub struct HirValueData {
    pub kind: HirValueKind,
    pub span: Loc,
}

/// One thing that was asked of the database, with what it answered.
#[allow(inconsistent_fields)]
pub enum Query {
    /// The value of an expression was asked for.
    Value { expr: TreeValue, id: HirValueId },
    /// The type that an expression denotes was asked for.
    Type { expr: TreeValue, id: HirTypeId },
    /// The statements of a block were asked for.
    Block { stmts: Seq<TreeValue>, ids: Seq<HirStmtId> },
    /// The arm of a branch was asked for.
    Branch { branch: TreeValue, arm: HirMatchArm },
    /// The lowering of a pattern was asked for.
    Pattern { pat: TreeValue, id: HirPatternId },
    /// A name was interned.
    Name { text: Seq<char>, id: NameId },
    /// An expression was interned.
    Expr { data: HirExprData, id: HirExprId },
    /// A value was interned.
    InternValue { data: HirValueData, id: HirValueId },
    /// The pattern of the truth value `true` was asked for.
    TruePattern { id: HirPatternId },
    /// The pattern of the truth value `false` was asked for.
    FalsePattern { id: HirPatternId },
    /// Syntax of dependent types, which is not supported, was reported.
    Unsupported { at: Loc },
}

/// The database that expressions are lowered against. It lowers what an
/// expression is made of, interns what the lowering builds, and takes reports.
/// Nothing is known of its answers; what is known is what it was asked, in
/// which order: every call adds its query, with the answer, to the log.
pub trait AstLowerrer: Sized {
    /// What was asked of this database so far, in order.
    spec fn log(&self) -> Seq<Query>;

    /// The value of `expr`.
    fn lower_value(&mut self, expr: Expr) -> (id: HirValueId)
        ensures
            final(self).log() == old(self).log().push(Query::Value { expr: expr.tree(), id }),
    ;

    /// The type that `expr` denotes.
    fn lower_type(&mut self, expr: Expr) -> (id: HirTypeId)
        ensures
            final(self).log() == old(self).log().push(Query::Type { expr: expr.tree(), id }),
    ;

    /// The statements of a block.
    fn lower_block(&mut self, stmts: Vec<Stmt>) -> (ids: Vec<HirStmtId>)
        ensures
            final(self).log() == old(self).log().push(
                Query::Block { stmts: trees_of(stmts@), ids: ids@ },
            ),
    ;

    /// The arm of `branch`.
    fn lower_branch(&mut self, branch: Branch) -> (arm: HirMatchArm)
        ensures
            final(self).log() == old(self).log().push(
                Query::Branch { branch: branch.tree(), arm },
            ),
    ;

    /// The lowering of `pat`.
    fn lower_pattern(&mut self, pat: Pat) -> (id: HirPatternId)
        ensures
            final(self).log() == old(self).log().push(Query::Pattern { pat: pat.tree(), id }),
    ;

    /// The handle of the name `name`.
    fn intern_name(&mut self, name: String) -> (id: NameId)
        ensures
            final(self).log() == old(self).log().push(Query::Name { text: name@, id }),
    ;

    /// The handle of the expression `data`.
    fn intern_expr(&mut self, data: HirExprData) -> (id: HirExprId)
        ensures
            final(self).log() == old(self).log().push(Query::Expr { data, id }),
    ;

    /// The handle of the value `data`.
    fn intern_value(&mut self, data: HirValueData) -> (id: HirValueId)
        ensures
            final(self).log() == old(self).log().push(Query::InternValue { data, id }),
    ;

    /// The pattern that the truth value `true` matches.
    fn new_true(&mut self) -> (id: HirPatternId)
        ensures
            final(self).log() == old(self).log().push(Query::TruePattern { id }),
    ;

    /// The pattern that the truth value `false` matches.
    fn new_false(&mut self) -> (id: HirPatternId)
        ensures
            final(self).log() == old(self).log().push(Query::FalsePattern { id }),
    ;

    /// Takes the report that the syntax read from `at` is one of dependent
    /// types, which is not supported.
    fn report_unsupported(&mut self, at: Loc)
        ensures
            final(self).log() == old(self).log().push(Query::Unsupported { at }),
    ;
}

} // verus!
