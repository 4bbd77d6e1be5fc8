//! Values of the intermediate representation.

use vstd::prelude::*;
use crate::hir::ids::{HirExprId, HirStmtId, HirValueId};
use crate::span::Loc;

verus! {

/// The value of an expression.
#[derive(Hash, Clone, Copy, Debug, PartialEq, Eq, Structural)]
pub struct HirExprValue(pub HirExprId);

/// The kinds of value.
#[derive(Hash, Clone, Debug)]
pub enum HirValueKind {
    Error,
    Unit,
    Expr(HirExprValue),
    Block(Vec<HirStmtId>),
}

/// A value: where it was lowered from, its handle and its kind.
#[derive(Hash, Clone, Debug)]
pub struct HirValue {
    pub span: Loc,
    pub id: HirValueId,
    pub kind: HirValueKind,
}

} // verus!
