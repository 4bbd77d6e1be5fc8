//! A database of the intermediate representation held in memory.

use vstd::prelude::*;
use crate::hir::expr::{HirExpr, HirExprKind};
use crate::hir::ids::{HirExprId, HirValueId};
use crate::hir::value::{HirValue, HirValueKind};
use crate::hir_leaf::{HirBaseDatabase, HirBorrow, HirLoc};

verus! {

/// The expressions and the values that were lowered so far, in the order in
/// which they were added.
pub struct HirDatabase {
    pub exprs: Vec<HirExpr>,
    pub values: Vec<HirValue>,
}

impl HirDatabase {
    /// A database that holds nothing.
    pub fn new() -> (db: HirDatabase)
        ensures
            db.exprs().len() == 0,
            db.values().len() == 0,
    {
        HirDatabase { exprs: Vec::new(), values: Vec::new() }
    }
}

impl HirBaseDatabase for HirDatabase {
    open spec fn exprs(&self) -> Seq<HirExpr> {
        self.exprs@
    }

    open spec fn values(&self) -> Seq<HirValue> {
        self.values@
    }

    fn expr(&self, id: HirExprId) -> (found: Option<HirBorrow<'_, HirExpr>>) {
        if id.0 < self.exprs.len() {
            Some(HirBorrow { node: &self.exprs[id.0] })
        } else {
            None
        }
    }

    fn value(&self, id: HirValueId) -> (found: Option<HirBorrow<'_, HirValue>>) {
        if id.0 < self.values.len() {
            Some(HirBorrow { node: &self.values[id.0] })
        } else {
            None
        }
    }

    fn new_expr(&mut self, kind: HirExprKind, span: HirLoc) -> (id: HirExprId) {
        let id = HirExprId(self.exprs.len());
        self.exprs.push(HirExpr { span, id, kind });
        id
    }

    fn new_value(&mut self, kind: HirValueKind, span: HirLoc) -> (id: HirValueId) {
        let id = HirValueId(self.values.len());
        self.values.push(HirValue { span, id, kind });
        id
    }
}

} // verus!
