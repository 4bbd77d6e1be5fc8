//! Lowering of expressions into a database of the intermediate representation.

use vstd::prelude::*;
use crate::ast::expr::{
    expr_at, is_expr_kind, kind_of, lemma_expr_at_is_lower, value_height, Expr,
};
use crate::hir::expr::{HirExpr, HirExprGroup, HirExprKind};
use crate::hir::ids::{HirExprId, HirValueId};
use crate::hir::value::{HirExprValue, HirValue, HirValueKind};
use crate::hir_leaf::HirBaseDatabase;
use crate::leaf::value::tree_location;
use crate::leaf::green::TreeValue;
use crate::leaf::node::{Located, Node};
use crate::leaf::tree::TreeKind;

verus! {

/// A lowering pass that adds what it lowers to the database it holds.
pub struct HirLoweringDb<D: HirBaseDatabase> {
    pub db: D,
}

/// How far an expression of kind `tag` over `tree` is from the expressions
/// that hold no other: zero for what is no expression, and one more than the
/// height of the tree value for an expression.
pub open spec fn depth(tag: TreeKind, tree: TreeValue) -> nat {
    if is_expr_kind(tag) {
        1 + value_height(tree)
    } else {
        0
    }
}

/// Whether this pass lowers an expression of kind `tag` over `tree`: what is
/// no expression, the receiver, the unit value, and an expression between
/// parentheses that it lowers.
pub open spec fn lowers(tag: TreeKind, tree: TreeValue) -> bool
    decreases depth(tag, tree),
{
    if !is_expr_kind(tag) || tag == TreeKind::ExprSelf || tag == TreeKind::ExprUnit {
        true
    } else if tag == TreeKind::ExprGroup {
        let inner = expr_at(tree, 1);
        if depth(kind_of(inner), inner) < depth(tag, tree) {
            lowers(kind_of(inner), inner)
        } else {
            false
        }
    } else {
        false
    }
}

/// Whether the expression with the handle `id` among `exprs` is the lowering
/// of an expression of kind `tag` over `tree`: it stands under its own handle,
/// it was lowered from where the tree value was read, and it is the error
/// expression for what is no expression, the receiver for the receiver, the
/// unit for the unit value, and for an expression between parentheses a group
/// of a value lowered from the same place, which is the value of an
/// expression that is the lowering of the expression between the parentheses.
pub open spec fn represents(
    exprs: Seq<HirExpr>,
    values: Seq<HirValue>,
    id: HirExprId,
    tag: TreeKind,
    tree: TreeValue,
) -> bool
    decreases depth(tag, tree), 0nat,
{
    &&& id.0 < exprs.len()
    &&& exprs[id.0 as int].id == id
    &&& exprs[id.0 as int].span == located(tag, tree)
    &&& if !is_expr_kind(tag) {
        exprs[id.0 as int].kind is Error
    } else if tag == TreeKind::ExprSelf {
        exprs[id.0 as int].kind is This
    } else if tag == TreeKind::ExprUnit {
        exprs[id.0 as int].kind is Unit
    } else if tag == TreeKind::ExprGroup {
        let inner = expr_at(tree, 1);
        &&& exprs[id.0 as int].kind matches HirExprKind::Group(group)
        &&& depth(kind_of(inner), inner) < depth(tag, tree)
        &&& holds_value(exprs, values, group.value, kind_of(inner), inner)
    } else {
        false
    }
}

/// Whether the value with the handle `id` among `values` is the value of the
/// lowering of an expression of kind `tag` over `tree`, lowered from where the
/// tree value was read.
pub open spec fn holds_value(
    exprs: Seq<HirExpr>,
    values: Seq<HirValue>,
    id: HirValueId,
    tag: TreeKind,
    tree: TreeValue,
) -> bool
    decreases depth(tag, tree), 1nat,
{
    &&& id.0 < values.len()
    &&& values[id.0 as int].id == id
    &&& values[id.0 as int].span == located(tag, tree)
    &&& values[id.0 as int].kind matches HirValueKind::Expr(HirExprValue(expr))
    &&& represents(exprs, values, expr, tag, tree)
}

/// Where an expression of kind `tag` over `tree` was read from: nowhere for
/// what is no expression.
pub open spec fn located(tag: TreeKind, tree: TreeValue) -> crate::span::Loc {
    if tag == TreeKind::Error {
        crate::span::Loc::Synthetic
    } else {
        tree_location(tree)
    }
}

/// The expression between the parentheses of a group is nearer to the
/// expressions that hold no other than the group is.
pub proof fn lemma_inner_is_nearer(tag: TreeKind, tree: TreeValue)
    requires
        is_expr_kind(tag),
    ensures
        depth(kind_of(expr_at(tree, 1)), expr_at(tree, 1)) < depth(tag, tree),
{
    lemma_expr_at_is_lower(tree, 1);
}

/// Decides [`lowers`].
pub fn can_lower(expr: &Expr) -> (ok: bool)
    ensures
        ok == lowers(expr.spec_tag(), expr.under()),
    decreases depth(expr.spec_tag(), expr.under()),
{
    match expr {
        Expr::Error => true,
        Expr::SelfExpr(_) => true,
        Expr::Unit(_) => true,
        Expr::Group(group) => {
            proof {
                lemma_inner_is_nearer(expr.spec_tag(), expr.under());
            }
            let inner = group.value();
            can_lower(&inner)
        },
        _ => false,
    }
}

/// The kind of the lowering of an expression that holds no other: the
/// receiver for the receiver, the unit for the unit value, and the error
/// expression for everything else.
pub open spec fn simple_kind(tag: TreeKind) -> HirExprKind {
    if tag == TreeKind::ExprSelf {
        HirExprKind::This
    } else if tag == TreeKind::ExprUnit {
        HirExprKind::Unit
    } else {
        HirExprKind::Error
    }
}

/// The database after an expression of kind `tag` over `tree` was lowered
/// into a database that held `exprs` and `values`. An expression between
/// parentheses first adds the value of the expression it holds, then a group
/// of that value; every other expression adds itself alone, and no value.
/// What is added stands last, under the handle of its position.
pub open spec fn lowering(
    exprs: Seq<HirExpr>,
    values: Seq<HirValue>,
    tag: TreeKind,
    tree: TreeValue,
) -> (Seq<HirExpr>, Seq<HirValue>)
    decreases depth(tag, tree), 0nat,
{
    let inner = expr_at(tree, 1);
    if tag == TreeKind::ExprGroup && depth(kind_of(inner), inner) < depth(tag, tree) {
        let (exprs, values) = lowering_value(exprs, values, kind_of(inner), inner);
        (
            exprs.push(
                HirExpr {
                    span: located(tag, tree),
                    id: HirExprId(exprs.len() as usize),
                    kind: HirExprKind::Group(
                        HirExprGroup { value: HirValueId((values.len() - 1) as usize) },
                    ),
                },
            ),
            values,
        )
    } else {
        (
            exprs.push(
                HirExpr {
                    span: located(tag, tree),
                    id: HirExprId(exprs.len() as usize),
                    kind: simple_kind(tag),
                },
            ),
            values,
        )
    }
}

/// The database after the value of an expression of kind `tag` over `tree` was
/// lowered into a database that held `exprs` and `values`: the expression is
/// lowered, then its value is added, last and under the handle of its
/// position.
pub open spec fn lowering_value(
    exprs: Seq<HirExpr>,
    values: Seq<HirValue>,
    tag: TreeKind,
    tree: TreeValue,
) -> (Seq<HirExpr>, Seq<HirValue>)
    decreases depth(tag, tree), 1nat,
{
    let (exprs, values) = lowering(exprs, values, tag, tree);
    (
        exprs,
        values.push(
            HirValue {
                span: located(tag, tree),
                id: HirValueId(values.len() as usize),
                kind: HirValueKind::Expr(HirExprValue(HirExprId((exprs.len() - 1) as usize))),
            },
        ),
    )
}

/// How many pairs of parentheses stand around the innermost expression of an
/// expression of kind `tag` over `tree`.
pub open spec fn nesting(tag: TreeKind, tree: TreeValue) -> nat
    decreases depth(tag, tree),
{
    let inner = expr_at(tree, 1);
    if tag == TreeKind::ExprGroup && depth(kind_of(inner), inner) < depth(tag, tree) {
        1 + nesting(kind_of(inner), inner)
    } else {
        0
    }
}

/// Lowering an expression under `d` pairs of parentheses adds `d + 1`
/// expressions and `d` values, after what the database held.
pub proof fn lemma_lowering_counts(
    exprs: Seq<HirExpr>,
    values: Seq<HirValue>,
    tag: TreeKind,
    tree: TreeValue,
)
    ensures
        lowering(exprs, values, tag, tree).0.len() == exprs.len() + nesting(tag, tree) + 1,
        lowering(exprs, values, tag, tree).1.len() == values.len() + nesting(tag, tree),
        exprs.is_prefix_of(lowering(exprs, values, tag, tree).0),
        values.is_prefix_of(lowering(exprs, values, tag, tree).1),
    decreases depth(tag, tree),
{
    let inner = expr_at(tree, 1);
    if tag == TreeKind::ExprGroup && depth(kind_of(inner), inner) < depth(tag, tree) {
        lemma_lowering_counts(exprs, values, kind_of(inner), inner);
    }
}

/// What was lowered stays lowered when the database grows.
pub proof fn lemma_represents_extends(
    exprs: Seq<HirExpr>,
    values: Seq<HirValue>,
    more_exprs: Seq<HirExpr>,
    more_values: Seq<HirValue>,
    id: HirExprId,
    tag: TreeKind,
    tree: TreeValue,
)
    requires
        represents(exprs, values, id, tag, tree),
        exprs.is_prefix_of(more_exprs),
        values.is_prefix_of(more_values),
    ensures
        represents(more_exprs, more_values, id, tag, tree),
    decreases depth(tag, tree),
{
    assert(more_exprs[id.0 as int] == exprs[id.0 as int]);
    if tag == TreeKind::ExprGroup {
        let inner = expr_at(tree, 1);
        let group = exprs[id.0 as int].kind->Group_0;
        let value = group.value;
        assert(more_values[value.0 as int] == values[value.0 as int]);
        let expr = values[value.0 as int].kind->Expr_0.0;
        lemma_represents_extends(
            exprs,
            values,
            more_exprs,
            more_values,
            expr,
            kind_of(inner),
            inner,
        );
    }
}

impl<D: HirBaseDatabase> HirLoweringDb<D> {
    /// A pass over `db`.
    pub fn new(db: D) -> (pass: Self)
        ensures
            pass.db == db,
    {
        HirLoweringDb { db }
    }

    /// Lowers `value` and adds the value of its lowering to the database.
    pub fn run_lower_value(&mut self, value: Expr) -> (id: HirValueId)
        requires
            lowers(value.spec_tag(), value.under()),
        ensures
            holds_value(
                final(self).db.exprs(),
                final(self).db.values(),
                id,
                value.spec_tag(),
                value.under(),
            ),
            (final(self).db.exprs(), final(self).db.values()) == lowering_value(
                old(self).db.exprs(),
                old(self).db.values(),
                value.spec_tag(),
                value.under(),
            ),
            id.0 == final(self).db.values().len() - 1,
        decreases depth(value.spec_tag(), value.under()), 1nat,
    {
        let ghost tag = value.spec_tag();
        let ghost tree = value.under();
        let location = value.location();
        let value_id = self.run_lower_expr(value);
        let kind = HirValueKind::Expr(HirExprValue(value_id));
        let ghost exprs = self.db.exprs();
        let ghost values = self.db.values();
        let id = self.db.new_value(kind, location);
        proof {
            assert(exprs.is_prefix_of(self.db.exprs()));
            assert(values.is_prefix_of(self.db.values()));
            lemma_represents_extends(
                exprs,
                values,
                self.db.exprs(),
                self.db.values(),
                value_id,
                tag,
                tree,
            );
        }
        id
    }

    /// Lowers `expr` and adds its lowering to the database.
    pub fn run_lower_expr(&mut self, expr: Expr) -> (id: HirExprId)
        requires
            lowers(expr.spec_tag(), expr.under()),
        ensures
            represents(
                final(self).db.exprs(),
                final(self).db.values(),
                id,
                expr.spec_tag(),
                expr.under(),
            ),
            (final(self).db.exprs(), final(self).db.values()) == lowering(
                old(self).db.exprs(),
                old(self).db.values(),
                expr.spec_tag(),
                expr.under(),
            ),
            id.0 == final(self).db.exprs().len() - 1,
        decreases depth(expr.spec_tag(), expr.under()), 0nat,
    {
        let ghost tag = expr.spec_tag();
        let ghost tree = expr.under();
        let location = expr.location();
        let kind = match expr {
            Expr::Error => HirExprKind::Error,
            Expr::SelfExpr(_) => HirExprKind::This,
            Expr::Unit(_) => HirExprKind::Unit,
            Expr::Group(group) => {
                let inner = group.value();
                HirExprKind::Group(HirExprGroup { value: self.run_lower_value(inner) })
            },
            _ => HirExprKind::Error,
        };
        let ghost exprs = self.db.exprs();
        let ghost values = self.db.values();
        let id = self.db.new_expr(kind, location);
        proof {
            assert(exprs.is_prefix_of(self.db.exprs()));
            assert(values.is_prefix_of(self.db.values()));
            if tag == TreeKind::ExprGroup {
                lemma_inner_is_nearer(tag, tree);
                let inner = expr_at(tree, 1);
                let value = kind->Group_0.value;
                let held = values[value.0 as int].kind->Expr_0.0;
                lemma_represents_extends(
                    exprs,
                    values,
                    self.db.exprs(),
                    self.db.values(),
                    held,
                    kind_of(inner),
                    inner,
                );
            }
        }
        id
    }
}

} // verus!
