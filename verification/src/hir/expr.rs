//! Expressions of the intermediate representation.

use vstd::prelude::*;
use crate::hir::ids::{HirExprId, HirPatternId, HirStmtId, HirTypeId, HirValueId, NameId, ScopeId};
use crate::hir::literal::HirLiteral;
use crate::span::Loc;

verus! {

/// A literal.
#[derive(Hash, Clone, Debug)]
pub struct HirExprLiteral(pub HirLiteral);

/// A value between parentheses.
#[derive(Hash, Clone, Debug)]
pub struct HirExprGroup {
    pub value: HirValueId,
}

/// The block that follows a call: its parameters and its statements.
#[derive(Hash, Clone, Debug)]
pub struct HirDsl {
    pub parameters: Vec<NameId>,
    pub stmts: Vec<HirStmtId>,
}

/// What is called: a value, or one of the arithmetic operations that are built
/// in.
#[derive(Hash, Clone, Copy, Debug, PartialEq, Eq, Structural)]
pub enum HirCallee {
    Value(HirValueId),
    Add,
    Sub,
    Mul,
    Div,
}

/// A call: what is called, the arguments, and the block that follows, if any.
#[derive(Hash, Clone, Debug)]
pub struct HirExprCall {
    pub callee: HirCallee,
    pub arguments: Vec<HirValueId>,
    pub as_dsl: Option<HirDsl>,
}

/// A reference to a name in a scope.
#[derive(Hash, Clone, Debug)]
pub struct HirExprReference {
    pub scope: ScopeId,
    pub name: NameId,
}

/// What a match was written as.
#[derive(Hash, Clone, Copy, Debug, PartialEq, Eq, Structural)]
pub enum HirMatchKind {
    If,
    Match,
}

/// A match: what is matched and the cases, in order.
#[derive(Hash, Clone, Debug)]
pub struct HirExprMatch {
    pub scrutinee: HirValueId,
    pub cases: Vec<HirMatchCase>,
    pub kind: HirMatchKind,
}

/// A value that help is asked for.
#[derive(Hash, Clone, Debug)]
pub struct HirExprHelp {
    pub value: HirValueId,
}

/// A value held against a type.
#[derive(Hash, Clone, Debug)]
pub struct HirExprAnn {
    pub value: HirValueId,
    pub against: HirTypeId,
}

/// A function written in place: the names of its parameters and its body.
#[derive(Hash, Clone, Debug)]
pub struct HirExprLam {
    pub parameters: Vec<NameId>,
    pub value: HirValueId,
}

/// A choice between two branches.
#[derive(Hash, Clone, Debug)]
pub struct HirExprIf {
    pub condition: HirValueId,
    pub then_branch: HirIfBranch,
    pub otherwise_branch: Option<HirIfBranch>,
}

/// A list of values.
#[derive(Hash, Clone, Debug)]
pub struct HirExprArray {
    pub items: Vec<HirValueId>,
}

/// The kinds of expression.
#[derive(Hash, Clone, Debug)]
pub enum HirExprKind {
    Error,
    Unit,
    This,
    Group(HirExprGroup),
    Literal(HirExprLiteral),
    Reference(HirExprReference),
    Call(HirExprCall),
    Match(HirExprMatch),
    Help(HirExprHelp),
    Ann(HirExprAnn),
    Lam(HirExprLam),
    If(HirExprIf),
    Array(HirExprArray),
}

/// An expression: where it was lowered from, its handle and its kind.
#[derive(Hash, Clone, Debug)]
pub struct HirExpr {
    pub span: Loc,
    pub id: HirExprId,
    pub kind: HirExprKind,
}

/// A branch of a choice: a value or a block.
#[derive(Hash, Clone, Debug)]
pub enum HirIfBranch {
    Expr(HirValueId),
    Block(Vec<HirStmtId>),
}

/// The arm of a case: a value or a block.
#[derive(Hash, Clone, Copy, Debug, PartialEq, Eq, Structural)]
pub enum HirMatchArm {
    Expr(HirValueId),
    Block(HirStmtId),
}

/// A case of a match: a pattern and the arm taken where it matches.
#[derive(Hash, Clone, Copy, Debug, PartialEq, Eq, Structural)]
pub struct HirMatchCase {
    pub pattern: HirPatternId,
    pub value: HirMatchArm,
}

} // verus!
