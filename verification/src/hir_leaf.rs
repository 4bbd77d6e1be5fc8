//! What every node of the intermediate representation has in common: a
//! handle, a location, and a database that holds it.

use vstd::prelude::*;
use crate::hir::expr::{HirExpr, HirExprKind};
use crate::hir::ids::{HirExprId, HirValueId};
use crate::hir::value::{HirValue, HirValueKind};
use crate::span::Loc;

verus! {

/// Locations of the intermediate representation are those of the source.
pub type HirLoc = Loc;

/// The handle of a kind of node.
pub trait HirId: Copy {
    /// The kind of node that the handle is of.
    type Node;

    /// The handle of `node`.
    spec fn spec_new(node: Self::Node) -> Self;

    /// The handle of `node`.
    fn new(node: Self::Node) -> (id: Self)
        ensures
            id == Self::spec_new(node),
    ;
}

/// A kind of node that is found again by its handle.
pub trait HirNode: Sized {
    /// The handle of this kind of node.
    type Id: HirId;

    /// The handle of this node.
    spec fn spec_id(&self) -> Self::Id;

    /// An empty node with the handle `id`.
    fn new(id: Self::Id) -> (node: Self)
        ensures
            node.spec_id() == id,
    ;
}

/// A node that was lowered from somewhere in the source.
pub trait HirLocated {
    /// Where the node was lowered from.
    spec fn spec_location(&self) -> HirLoc;

    /// Where the node was lowered from.
    fn location(&self) -> (loc: HirLoc)
        ensures
            loc == self.spec_location(),
    ;
}

/// A node on loan from the database that holds it.
pub struct HirBorrow<'a, N: HirNode> {
    pub node: &'a N,
}

/// A database of the intermediate representation: the expressions and the
/// values that were lowered so far, each found again by its handle. A handle
/// is the position at which its node was added.
pub trait HirBaseDatabase: Sized {
    /// The expressions of the database, by handle.
    spec fn exprs(&self) -> Seq<HirExpr>;

    /// The values of the database, by handle.
    spec fn values(&self) -> Seq<HirValue>;

    /// The expression with the handle `id`, if there is one.
    fn expr(&self, id: HirExprId) -> (found: Option<HirBorrow<'_, HirExpr>>)
        ensures
            match found {
                Some(found) => id.0 < self.exprs().len() && *found.node == self.exprs()[id.0 as int],
                None => id.0 >= self.exprs().len(),
            },
    ;

    /// The value with the handle `id`, if there is one.
    fn value(&self, id: HirValueId) -> (found: Option<HirBorrow<'_, HirValue>>)
        ensures
            match found {
                Some(found) => id.0 < self.values().len() && *found.node == self.values()[id.0 as int],
                None => id.0 >= self.values().len(),
            },
    ;

    /// Adds the expression of `kind` lowered from `span` and gives its handle.
    fn new_expr(&mut self, kind: HirExprKind, span: HirLoc) -> (id: HirExprId)
        ensures
            id.0 == old(self).exprs().len(),
            final(self).exprs() == old(self).exprs().push(HirExpr { span, id, kind }),
            final(self).values() == old(self).values(),
    ;

    /// Adds the value of `kind` lowered from `span` and gives its handle.
    fn new_value(&mut self, kind: HirValueKind, span: HirLoc) -> (id: HirValueId)
        ensures
            id.0 == old(self).values().len(),
            final(self).values() == old(self).values().push(HirValue { span, id, kind }),
            final(self).exprs() == old(self).exprs(),
    ;
}

impl HirId for HirExprId {
    type Node = HirExpr;

    open spec fn spec_new(node: HirExpr) -> HirExprId {
        node.id
    }

    fn new(node: HirExpr) -> (id: HirExprId) {
        node.id
    }
}

impl HirNode for HirExpr {
    type Id = HirExprId;

    open spec fn spec_id(&self) -> HirExprId {
        self.id
    }

    /// The error expression with the handle `id`, lowered from nowhere.
    fn new(id: HirExprId) -> (node: HirExpr)
        ensures
            node.span == Loc::Synthetic,
            node.kind is Error,
    {
        HirExpr { span: Loc::Synthetic, id, kind: HirExprKind::Error }
    }
}

impl HirLocated for HirExpr {
    open spec fn spec_location(&self) -> HirLoc {
        self.span
    }

    fn location(&self) -> (loc: HirLoc) {
        self.span
    }
}

impl HirId for HirValueId {
    type Node = HirValue;

    open spec fn spec_new(node: HirValue) -> HirValueId {
        node.id
    }

    fn new(node: HirValue) -> (id: HirValueId) {
        node.id
    }
}

impl HirNode for HirValue {
    type Id = HirValueId;

    open spec fn spec_id(&self) -> HirValueId {
        self.id
    }

    /// The error value with the handle `id`, lowered from nowhere.
    fn new(id: HirValueId) -> (node: HirValue)
        ensures
            node.span == Loc::Synthetic,
            node.kind is Error,
    {
        HirValue { span: Loc::Synthetic, id, kind: HirValueKind::Error }
    }
}

impl HirLocated for HirValue {
    open spec fn spec_location(&self) -> HirLoc {
        self.span
    }

    fn location(&self) -> (loc: HirLoc) {
        self.span
    }
}

} // verus!
