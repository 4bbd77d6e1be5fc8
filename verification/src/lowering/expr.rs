//! Lowering of expressions against a database.

use vstd::prelude::*;
use crate::ast::branch::Branch;
use crate::ast::expr::{
    expr_at, first_ident, kind_of, literal_read, texts_of, token_text, Ann, App, Array, Case, Dsl,
    Expr, Group, Help, If, Infix, Lam, LiteralExpr, LocalExpr, Match,
};
use crate::ast::literal::Literal;
use crate::ast::pat::Pat;
use crate::ast::read::{all_trees, first_tree, named_tree};
use crate::ast::stmt::Stmt;
use crate::hir::expr::{
    HirCallee, HirDsl, HirExprAnn, HirExprArray, HirExprCall, HirExprGroup, HirExprHelp,
    HirExprKind, HirExprLam, HirExprLiteral, HirExprMatch, HirExprReference, HirMatchCase,
    HirMatchKind,
};
use crate::hir::ids::{HirExprId, HirValueId, NameId, ScopeId};
use crate::hir::stmt::HirStmt;
use crate::hir::value::{HirExprValue, HirValueKind};
use crate::leaf::green::{GreenTree, TreeValue};
use crate::leaf::node::{trees_of, Located, Node};
use crate::leaf::tree::{tokens_of_kind, TreeKind};
use crate::lowering::literal::{can_lower, literal_lowers, lowered_literal, make_literal};
use crate::lowering::lowerrer::{AstLowerrer, HirExprData, HirValueData, Query};
use crate::span::Loc;
use crate::text::str_eq;
use crate::token::{Token, TokenKind};

verus! {

/// The scope that names are referred to in before scopes are resolved.
pub open spec fn root_scope() -> ScopeId {
    ScopeId(0)
}

/// A pass that lowers expressions against the database it holds.
pub struct ExprLowering<D: AstLowerrer> {
    pub db: D,
    pub instructions: Vec<HirStmt>,
}

/// The queries for the values of `exprs`, in order, answered with `ids`.
pub open spec fn value_queries(exprs: Seq<TreeValue>, ids: Seq<HirValueId>) -> Seq<Query>
    decreases exprs.len(),
{
    if exprs.len() == 0 || ids.len() != exprs.len() {
        Seq::empty()
    } else {
        value_queries(exprs.drop_last(), ids.drop_last()).push(
            Query::Value { expr: exprs.last(), id: ids.last() },
        )
    }
}

/// The queries for the names `texts`, in order, answered with `ids`.
pub open spec fn name_queries(texts: Seq<Seq<char>>, ids: Seq<NameId>) -> Seq<Query>
    decreases texts.len(),
{
    if texts.len() == 0 || ids.len() != texts.len() {
        Seq::empty()
    } else {
        name_queries(texts.drop_last(), ids.drop_last()).push(
            Query::Name { text: texts.last(), id: ids.last() },
        )
    }
}

/// The queries for the cases `cases`, in order, answered with `lowered`: for
/// each case its pattern, then its branch.
pub open spec fn case_queries(cases: Seq<TreeValue>, lowered: Seq<HirMatchCase>) -> Seq<Query>
    decreases cases.len(),
{
    if cases.len() == 0 || lowered.len() != cases.len() {
        Seq::empty()
    } else {
        case_queries(cases.drop_last(), lowered.drop_last()).push(
            Query::Pattern { pat: first_tree::<Pat>(cases.last()), id: lowered.last().pattern },
        ).push(
            Query::Branch { branch: first_tree::<Branch>(cases.last()), arm: lowered.last().value },
        )
    }
}

/// A group or a help request over `tree` is lowered by asking for the value of
/// the expression it holds.
pub open spec fn held_lowered(
    before: Seq<Query>,
    after: Seq<Query>,
    tree: TreeValue,
    value: HirValueId,
) -> bool {
    after == before.push(Query::Value { expr: expr_at(tree, 1), id: value })
}

/// A literal over `tree` is lowered without asking anything: the result holds
/// the lowering of the literal read from the tree value.
pub open spec fn literal_lowered(
    before: Seq<Query>,
    after: Seq<Query>,
    tree: TreeValue,
    kind: HirExprKind,
) -> bool {
    &&& after == before
    &&& kind matches HirExprKind::Literal(HirExprLiteral(lowered))
    &&& exists|literal: Literal| #[trigger]
        literal_read(tree, literal) && lowered == lowered_literal(literal)
}

/// A name in scope over `tree` is lowered by interning its name; the result
/// refers to the name in the root scope.
pub open spec fn local_lowered(
    before: Seq<Query>,
    after: Seq<Query>,
    tree: GreenTree,
    kind: HirExprKind,
) -> bool {
    &&& kind matches HirExprKind::Reference(reference)
    &&& reference.scope == root_scope()
    &&& after == before.push(Query::Name { text: first_ident(tree), id: reference.name })
}

/// An annotated expression over `tree` is lowered by asking for the value of
/// the expression, then for the type.
pub open spec fn ann_lowered(
    before: Seq<Query>,
    after: Seq<Query>,
    tree: GreenTree,
    kind: HirExprKind,
) -> bool {
    &&& kind matches HirExprKind::Ann(ann)
    &&& after == before.push(
        Query::Value { expr: named_tree::<Expr>(tree@, "value"@), id: ann.value },
    ).push(Query::Type { expr: named_tree::<Expr>(tree@, "against"@), id: ann.against })
}

/// A list over `tree` is lowered by asking for the value of each member, in
/// order.
pub open spec fn array_lowered(
    before: Seq<Query>,
    after: Seq<Query>,
    tree: GreenTree,
    kind: HirExprKind,
) -> bool {
    &&& kind matches HirExprKind::Array(array)
    &&& array.items@.len() == all_trees::<Expr>(tree@).len()
    &&& after == before + value_queries(all_trees::<Expr>(tree@), array.items@)
}

/// An application over `tree` is lowered by asking for the value of what is
/// applied, then of what it is applied to; the result is a call of the one
/// with the other.
pub open spec fn app_lowered(
    before: Seq<Query>,
    after: Seq<Query>,
    tree: TreeValue,
    kind: HirExprKind,
) -> bool {
    &&& kind matches HirExprKind::Call(call)
    &&& call.callee matches HirCallee::Value(callee)
    &&& call.arguments@.len() == 1
    &&& call.as_dsl is None
    &&& after == before.push(
        Query::Value { expr: named_tree::<Expr>(tree, "callee"@), id: callee },
    ).push(Query::Value { expr: named_tree::<Expr>(tree, "argument"@), id: call.arguments@[0] })
}

/// The callee of an operator named `name` that is not built in is made by
/// interning the name, then a reference to it in the root scope, then the
/// value of that reference, both lowered from `span`.
pub open spec fn callee_made(
    before: Seq<Query>,
    after: Seq<Query>,
    span: Loc,
    name: Seq<char>,
    callee: HirCallee,
) -> bool {
    &&& callee matches HirCallee::Value(value)
    &&& after.len() == before.len() + 3
    &&& after.take(before.len() as int) == before
    &&& after[before.len() as int] matches Query::Name { text, id: interned }
    &&& text == name
    &&& after[before.len() as int + 1] matches Query::Expr { data, id: expr }
    &&& data.span == span
    &&& data.kind matches HirExprKind::Reference(reference)
    &&& reference.scope == root_scope()
    &&& reference.name == interned
    &&& after[before.len() as int + 2] matches Query::InternValue { data: held, id: made }
    &&& made == value
    &&& held.span == span
    &&& held.kind matches HirValueKind::Expr(HirExprValue(of))
    &&& of == expr
}

/// The callee of the operator named `name`: one of the four arithmetic
/// operations that are built in, for which nothing is asked, or else a callee
/// made for the name.
pub open spec fn operator_lowered(
    before: Seq<Query>,
    after: Seq<Query>,
    span: Loc,
    name: Seq<char>,
    callee: HirCallee,
) -> bool {
    if name == "+"@ {
        callee == HirCallee::Add && after == before
    } else if name == "-"@ {
        callee == HirCallee::Sub && after == before
    } else if name == "*"@ {
        callee == HirCallee::Mul && after == before
    } else if name == "/"@ {
        callee == HirCallee::Div && after == before
    } else {
        callee_made(before, after, span, name, callee)
    }
}

/// An operator between two expressions over `tree` is lowered by asking for
/// the value of the left one, then of the right one, then making the callee
/// of the operator; the result is a call of it with the two values.
pub open spec fn infix_lowered(
    before: Seq<Query>,
    after: Seq<Query>,
    tree: GreenTree,
    kind: HirExprKind,
) -> bool {
    &&& kind matches HirExprKind::Call(call)
    &&& call.arguments@.len() == 2
    &&& call.as_dsl is None
    &&& operator_lowered(
        before.push(
            Query::Value { expr: named_tree::<Expr>(tree@, "lhs"@), id: call.arguments@[0] },
        ).push(Query::Value { expr: named_tree::<Expr>(tree@, "rhs"@), id: call.arguments@[1] }),
        after,
        tree.spec_location(),
        token_text(named_tree::<Token>(tree@, "op"@)),
        call.callee,
    )
}

/// A choice between two branches over `tree` is lowered to a match written as
/// a choice: the value of the condition is asked for, then the pattern of
/// `true` and the arm of the first branch, then the pattern of `false` and
/// the arm of the second.
pub open spec fn if_lowered(
    before: Seq<Query>,
    after: Seq<Query>,
    tree: GreenTree,
    kind: HirExprKind,
) -> bool {
    &&& kind matches HirExprKind::Match(lowered)
    &&& lowered.kind == HirMatchKind::If
    &&& lowered.cases@.len() == 2
    &&& after == before.push(
        Query::Value { expr: named_tree::<Expr>(tree@, "cond"@), id: lowered.scrutinee },
    ).push(Query::TruePattern { id: lowered.cases@[0].pattern }).push(
        Query::Branch {
            branch: named_tree::<Branch>(tree@, "then_branch"@),
            arm: lowered.cases@[0].value,
        },
    ).push(Query::FalsePattern { id: lowered.cases@[1].pattern }).push(
        Query::Branch {
            branch: named_tree::<Branch>(tree@, "else_branch"@),
            arm: lowered.cases@[1].value,
        },
    )
}

/// A choice by cases over `tree` is lowered by asking for the value of what is
/// matched, then, case by case, for the pattern and for the arm.
pub open spec fn match_lowered(
    before: Seq<Query>,
    after: Seq<Query>,
    tree: GreenTree,
    kind: HirExprKind,
) -> bool {
    &&& kind matches HirExprKind::Match(lowered)
    &&& lowered.kind == HirMatchKind::Match
    &&& lowered.cases@.len() == all_trees::<Case>(tree@).len()
    &&& after == before.push(
        Query::Value { expr: named_tree::<Expr>(tree@, "scrutinee"@), id: lowered.scrutinee },
    ) + case_queries(all_trees::<Case>(tree@), lowered.cases@)
}

/// A function written in place over `tree` is lowered by asking for the value
/// of its body, then interning the names of its parameters, in order.
pub open spec fn lam_lowered(
    before: Seq<Query>,
    after: Seq<Query>,
    tree: GreenTree,
    kind: HirExprKind,
) -> bool {
    &&& kind matches HirExprKind::Lam(lam)
    &&& lam.parameters@.len() == tokens_of_kind(tree.child_seq(), TokenKind::Ident).len()
    &&& after == before.push(
        Query::Value { expr: named_tree::<Expr>(tree@, "value"@), id: lam.value },
    ) + name_queries(
        texts_of(tokens_of_kind(tree.child_seq(), TokenKind::Ident)),
        lam.parameters@,
    )
}

/// A call followed by a block over `tree` is lowered to a call with the
/// statements of the block. Where what is called is an application, the call
/// is the lowering of that application; elsewhere the value of what is called
/// is asked for and called without arguments. The statements of the block are
/// asked for last.
pub open spec fn dsl_lowered(
    before: Seq<Query>,
    after: Seq<Query>,
    tree: GreenTree,
    kind: HirExprKind,
) -> bool {
    let callee = named_tree::<Expr>(tree@, "callee"@);
    &&& kind matches HirExprKind::Call(call)
    &&& call.as_dsl matches Some(dsl)
    &&& dsl.parameters@.len() == 0
    &&& after.len() > 0
    &&& after.last() == Query::Block { stmts: all_trees::<Stmt>(tree@), ids: dsl.stmts@ }
    &&& if kind_of(callee) == TreeKind::ExprApp {
        app_lowered(
            before,
            after.drop_last(),
            callee,
            HirExprKind::Call(
                HirExprCall { callee: call.callee, arguments: call.arguments, as_dsl: None },
            ),
        )
    } else {
        &&& call.callee matches HirCallee::Value(value)
        &&& call.arguments@.len() == 0
        &&& after.drop_last() == before.push(Query::Value { expr: callee, id: value })
    }
}

/// Whether the literal read from `tree` has a lowering.
pub open spec fn literal_makes(tree: TreeValue) -> bool {
    forall|literal: Literal| #[trigger] literal_read(tree, literal) ==> literal_lowers(literal)
}

/// Whether this pass lowers `expr`: every expression but a local binding, and
/// but a literal that has no lowering.
pub open spec fn makes(expr: Expr) -> bool {
    &&& !(expr is Let)
    &&& expr matches Expr::LiteralExpr(literal) ==> literal_makes(literal.0@)
}

/// Whether lowering `expr` takes the log of the database from `before` to
/// `after` and gives an expression of `kind`. What is no expression, the
/// receiver and the unit are lowered to their counterparts without asking
/// anything; syntax of dependent types is reported and lowered to the error
/// expression; every other kind of expression is lowered as its kind says.
pub open spec fn lowered(
    before: Seq<Query>,
    after: Seq<Query>,
    expr: Expr,
    kind: HirExprKind,
) -> bool {
    match expr {
        Expr::Error => kind is Error && after == before,
        Expr::SelfExpr(_) => kind is This && after == before,
        Expr::Unit(_) => kind is Unit && after == before,
        Expr::Group(group) => kind matches HirExprKind::Group(lowered) && held_lowered(
            before,
            after,
            group.0@,
            lowered.value,
        ),
        Expr::Help(help) => kind matches HirExprKind::Help(lowered) && held_lowered(
            before,
            after,
            help.0@,
            lowered.value,
        ),
        Expr::LiteralExpr(literal) => literal_lowered(before, after, literal.0@, kind),
        Expr::Dsl(dsl) => dsl_lowered(before, after, dsl.0, kind),
        Expr::Let(_) => false,
        Expr::LocalExpr(local) => local_lowered(before, after, local.0, kind),
        Expr::Ann(ann) => ann_lowered(before, after, ann.0, kind),
        Expr::Array(array) => array_lowered(before, after, array.0, kind),
        Expr::App(app) => app_lowered(before, after, app.0@, kind),
        Expr::Infix(infix) => infix_lowered(before, after, infix.0, kind),
        Expr::If(choice) => if_lowered(before, after, choice.0, kind),
        Expr::Match(choice) => match_lowered(before, after, choice.0, kind),
        Expr::Lam(lam) => lam_lowered(before, after, lam.0, kind),
        _ => kind is Error && after == before.push(
            Query::Unsupported { at: expr.spec_location() },
        ),
    }
}

/// Two literals read from one token have a lowering, or none, together.
pub proof fn lemma_read_literals_agree(tree: TreeValue, a: Literal, b: Literal)
    requires
        literal_read(tree, a),
        literal_read(tree, b),
    ensures
        literal_lowers(a) == literal_lowers(b),
{
}

/// Decides [`makes`].
pub fn can_make(expr: &Expr) -> (ok: bool)
    ensures
        ok == makes(*expr),
{
    match expr {
        Expr::Let(_) => false,
        Expr::LiteralExpr(literal) => {
            let read = literal.literal();
            let ok = can_lower(&read);
            proof {
                assert forall|other: Literal| #[trigger]
                    literal_read(literal.0@, other) implies literal_lowers(other) == ok by {
                    lemma_read_literals_agree(literal.0@, read, other);
                }
            }
            ok
        },
        _ => true,
    }
}

impl<D: AstLowerrer> ExprLowering<D> {
    /// Lowers `expr` and interns the lowering: an expression of the kind that
    /// the kind of `expr` gives, lowered from where `expr` was read.
    pub fn make(&mut self, expr: Expr) -> (id: HirExprId)
        requires
            makes(expr),
        ensures
            final(self).instructions == old(self).instructions,
            final(self).db.log().len() > 0,
            final(self).db.log().last() matches Query::Expr { data, id: interned } && interned
                == id && data.span == expr.spec_location() && lowered(
                old(self).db.log(),
                final(self).db.log().drop_last(),
                expr,
                data.kind,
            ),
    {
        let span = expr.location();
        let kind = match &expr {
            Expr::Group(group) => HirExprKind::Group(
                HirExprGroup { value: self.db.lower_value(group.value()) },
            ),
            Expr::Help(help) => HirExprKind::Help(
                HirExprHelp { value: self.db.lower_value(help.value()) },
            ),
            Expr::LiteralExpr(literal) => {
                let read = literal.literal();
                HirExprKind::Literal(HirExprLiteral(make_literal(read)))
            },
            Expr::Error => HirExprKind::Error,
            Expr::SelfExpr(_) => HirExprKind::This,
            Expr::Unit(_) => HirExprKind::Unit,
            Expr::Dsl(dsl) => self.make_dsl(dsl),
            Expr::Let(_) => HirExprKind::Error,
            Expr::LocalExpr(local) => self.make_local(local),
            Expr::Ann(ann) => self.make_ann(ann),
            Expr::Array(array) => self.make_array(array),
            Expr::App(app) => self.make_app(app),
            Expr::Infix(infix) => self.make_infix(infix),
            Expr::If(choice) => self.make_if(choice),
            Expr::Match(choice) => self.make_match(choice),
            Expr::Lam(lam) => self.make_lam(lam),
            Expr::Qual(_) | Expr::Pi(_) | Expr::Sigma(_) => {
                self.db.report_unsupported(span);
                HirExprKind::Error
            },
        };
        let ghost asked = self.db.log();
        let id = self.db.intern_expr(HirExprData { kind, span });
        proof {
            assert(self.db.log().drop_last() == asked);
        }
        id
    }

    /// A pass against `db` that holds no instructions yet.
    pub fn new(db: D) -> (pass: Self)
        ensures
            pass.db == db,
            pass.instructions@.len() == 0,
    {
        ExprLowering { db, instructions: Vec::new() }
    }

    /// Lowers a name in scope.
    pub fn make_local(&mut self, expr: &LocalExpr) -> (kind: HirExprKind)
        ensures
            local_lowered(old(self).db.log(), final(self).db.log(), expr.0, kind),
            final(self).instructions == old(self).instructions,
    {
        let name = self.db.intern_name(expr.to_fn_id());
        HirExprKind::Reference(HirExprReference { scope: ScopeId(0), name })
    }

    /// Lowers an annotated expression.
    pub fn make_ann(&mut self, expr: &Ann) -> (kind: HirExprKind)
        ensures
            ann_lowered(old(self).db.log(), final(self).db.log(), expr.0, kind),
            final(self).instructions == old(self).instructions,
    {
        let value = self.db.lower_value(expr.value());
        let against = self.db.lower_type(expr.against());
        HirExprKind::Ann(HirExprAnn { value, against })
    }

    /// Lowers a list.
    pub fn make_array(&mut self, array: &Array) -> (kind: HirExprKind)
        ensures
            array_lowered(old(self).db.log(), final(self).db.log(), array.0, kind),
            final(self).instructions == old(self).instructions,
    {
        let members = array.items();
        let ghost trees = trees_of(members@);
        let ghost before = self.db.log();
        let mut items: Vec<HirValueId> = Vec::new();
        for member in it: members
            invariant
                trees == trees_of(it.seq()),
                items@.len() == it.index(),
                self.instructions == old(self).instructions,
                self.db.log() == before + value_queries(trees.take(it.index() as int), items@),
        {
            let ghost asked = items@;
            let ghost index = it.index() as int;
            let id = self.db.lower_value(member);
            items.push(id);
            proof {
                assert(trees.take(index + 1).drop_last() == trees.take(index));
                assert(items@.drop_last() == asked);
                assert(trees.take(index + 1).last() == trees[index]);
            }
        }
        proof {
            assert(trees.take(items@.len() as int) == trees);
        }
        HirExprKind::Array(HirExprArray { items })
    }

    /// Lowers an application.
    pub fn make_app(&mut self, app: &App) -> (kind: HirExprKind)
        ensures
            app_lowered(old(self).db.log(), final(self).db.log(), app.0@, kind),
            final(self).instructions == old(self).instructions,
    {
        let callee = self.db.lower_value(app.callee());
        let argument = self.db.lower_value(app.argument());
        let mut arguments: Vec<HirValueId> = Vec::new();
        arguments.push(argument);
        HirExprKind::Call(
            HirExprCall { callee: HirCallee::Value(callee), arguments, as_dsl: None },
        )
    }

    /// Makes the callee of the operator named `fn_id` of `infix`, which is
    /// not built in.
    pub fn make_callee(&mut self, infix: &Infix, fn_id: &str) -> (callee: HirCallee)
        ensures
            callee_made(
                old(self).db.log(),
                final(self).db.log(),
                infix.0.spec_location(),
                fn_id@,
                callee,
            ),
            final(self).instructions == old(self).instructions,
    {
        let span = infix.0.location();
        let name = self.db.intern_name(fn_id.to_owned());
        let expr = self.db.intern_expr(
            HirExprData {
                kind: HirExprKind::Reference(HirExprReference { scope: ScopeId(0), name }),
                span,
            },
        );
        let value = self.db.intern_value(
            HirValueData { kind: HirValueKind::Expr(HirExprValue(expr)), span },
        );
        proof {
            let before = old(self).db.log();
            let after = self.db.log();
            assert(after.take(before.len() as int) =~= before);
            assert(after[before.len() as int] == Query::Name { text: fn_id@, id: name });
        }
        HirCallee::Value(value)
    }

    /// Lowers an operator between two expressions.
    pub fn make_infix(&mut self, infix: &Infix) -> (kind: HirExprKind)
        ensures
            infix_lowered(old(self).db.log(), final(self).db.log(), infix.0, kind),
            final(self).instructions == old(self).instructions,
    {
        let lhs = self.db.lower_value(infix.lhs());
        let rhs = self.db.lower_value(infix.rhs());
        let fn_id = infix.fn_id();
        let callee = if str_eq(fn_id.as_str(), "+") {
            HirCallee::Add
        } else if str_eq(fn_id.as_str(), "-") {
            HirCallee::Sub
        } else if str_eq(fn_id.as_str(), "*") {
            HirCallee::Mul
        } else if str_eq(fn_id.as_str(), "/") {
            HirCallee::Div
        } else {
            self.make_callee(infix, fn_id.as_str())
        };
        let mut arguments: Vec<HirValueId> = Vec::new();
        arguments.push(lhs);
        arguments.push(rhs);
        HirExprKind::Call(HirExprCall { callee, arguments, as_dsl: None })
    }

    /// Lowers a choice between two branches.
    pub fn make_if(&mut self, expr: &If) -> (kind: HirExprKind)
        ensures
            if_lowered(old(self).db.log(), final(self).db.log(), expr.0, kind),
            final(self).instructions == old(self).instructions,
    {
        let scrutinee = self.db.lower_value(expr.cond());
        let holds = self.db.new_true();
        let then_arm = self.db.lower_branch(expr.then_branch());
        let fails = self.db.new_false();
        let else_arm = self.db.lower_branch(expr.else_branch());
        let mut cases: Vec<HirMatchCase> = Vec::new();
        cases.push(HirMatchCase { pattern: holds, value: then_arm });
        cases.push(HirMatchCase { pattern: fails, value: else_arm });
        HirExprKind::Match(HirExprMatch { scrutinee, cases, kind: HirMatchKind::If })
    }

    /// Lowers one case of a choice by cases.
    pub fn lower_case(&mut self, case: Case) -> (lowered: HirMatchCase)
        ensures
            final(self).db.log() == old(self).db.log().push(
                Query::Pattern { pat: first_tree::<Pat>(case.tree()), id: lowered.pattern },
            ).push(
                Query::Branch { branch: first_tree::<Branch>(case.tree()), arm: lowered.value },
            ),
            final(self).instructions == old(self).instructions,
    {
        let pattern = self.db.lower_pattern(case.pat());
        let value = self.db.lower_branch(case.value());
        HirMatchCase { pattern, value }
    }

    /// Lowers a choice by cases.
    pub fn make_match(&mut self, expr: &Match) -> (kind: HirExprKind)
        ensures
            match_lowered(old(self).db.log(), final(self).db.log(), expr.0, kind),
            final(self).instructions == old(self).instructions,
    {
        let scrutinee = self.db.lower_value(expr.scrutinee());
        let all = expr.cases();
        let ghost trees = trees_of(all@);
        let ghost before = self.db.log();
        let mut cases: Vec<HirMatchCase> = Vec::new();
        for case in it: all
            invariant
                trees == trees_of(it.seq()),
                cases@.len() == it.index(),
                self.instructions == old(self).instructions,
                self.db.log() == before + case_queries(trees.take(it.index() as int), cases@),
        {
            let ghost asked = cases@;
            let ghost index = it.index() as int;
            let lowered = self.lower_case(case);
            cases.push(lowered);
            proof {
                assert(trees.take(index + 1).drop_last() == trees.take(index));
                assert(cases@.drop_last() == asked);
                assert(trees.take(index + 1).last() == trees[index]);
            }
        }
        proof {
            assert(trees.take(cases@.len() as int) == trees);
        }
        HirExprKind::Match(HirExprMatch { scrutinee, cases, kind: HirMatchKind::Match })
    }

    /// Lowers a function written in place.
    pub fn make_lam(&mut self, expr: &Lam) -> (kind: HirExprKind)
        ensures
            lam_lowered(old(self).db.log(), final(self).db.log(), expr.0, kind),
            final(self).instructions == old(self).instructions,
    {
        let value = self.db.lower_value(expr.value());
        let names = expr.parameters();
        let ghost texts = texts_of(tokens_of_kind(expr.0.child_seq(), TokenKind::Ident));
        let ghost before = self.db.log();
        let mut parameters: Vec<NameId> = Vec::new();
        for name in it: names
            invariant
                it.seq().len() == texts.len(),
                forall|k: int| 0 <= k < texts.len() ==> (#[trigger] it.seq()[k])@ == texts[k],
                parameters@.len() == it.index(),
                self.instructions == old(self).instructions,
                self.db.log() == before + name_queries(
                    texts.take(it.index() as int),
                    parameters@,
                ),
        {
            let ghost asked = parameters@;
            let ghost index = it.index() as int;
            let id = self.db.intern_name(name);
            parameters.push(id);
            proof {
                assert(texts.take(index + 1).drop_last() == texts.take(index));
                assert(parameters@.drop_last() == asked);
                assert(texts.take(index + 1).last() == texts[index]);
            }
        }
        proof {
            assert(texts.take(parameters@.len() as int) == texts);
        }
        HirExprKind::Lam(HirExprLam { parameters, value })
    }

    /// Lowers a call that is followed by a block.
    pub fn make_dsl(&mut self, expr: &Dsl) -> (kind: HirExprKind)
        ensures
            dsl_lowered(old(self).db.log(), final(self).db.log(), expr.0, kind),
            final(self).instructions == old(self).instructions,
    {
        let ghost before = self.db.log();
        let callee = Expr::of_kind(expr.callee().unwrap());
        let (callee, arguments) = match callee {
            Expr::App(app) => {
                let applied = self.make_app(&app);
                let call = match applied {
                    HirExprKind::Call(call) => (call.callee, call.arguments),
                    _ => (HirCallee::Add, Vec::new()),
                };
                proof {
                    assert(app_lowered(before, self.db.log(), app.0@, applied));
                    assert(applied == HirExprKind::Call(
                        HirExprCall { callee: call.0, arguments: call.1, as_dsl: None },
                    ));
                }
                call
            },
            other => (HirCallee::Value(self.db.lower_value(other)), Vec::new()),
        };
        let ghost mid = self.db.log();
        let stmts = self.db.lower_block(expr.block());
        proof {
            assert(self.db.log().drop_last() == mid);
        }
        HirExprKind::Call(
            HirExprCall {
                callee,
                arguments,
                as_dsl: Some(HirDsl { parameters: Vec::new(), stmts }),
            },
        )
    }
}

} // verus!
