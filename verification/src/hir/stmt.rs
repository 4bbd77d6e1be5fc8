//! Statements of the intermediate representation.

use vstd::prelude::*;
use crate::hir::ids::{HirPatternId, HirStmtId, HirValueId};
use crate::span::Loc;

verus! {

/// The kinds of statement.
#[derive(Hash, Clone, Copy, Debug, PartialEq, Eq, Structural)]
pub enum HirStmtKind {
    Error,
    Ask(HirPatternId, HirValueId),
    Let(HirPatternId, HirValueId),
    Return(Option<HirValueId>),
    Value(HirValueId),
}

/// A statement: where it was lowered from, its handle and its kind.
#[derive(Hash, Clone, Copy, Debug, PartialEq, Eq, Structural)]
pub struct HirStmt {
    pub span: Loc,
    pub id: HirStmtId,
    pub kind: HirStmtKind,
}

} // verus!
