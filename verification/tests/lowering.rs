use asena::ast::expr::Expr;
use asena::hir::db::HirDatabase;
use asena::hir::expr::{
    HirCallee, HirExprKind, HirMatchArm, HirMatchKind,
};
use asena::hir::ids::{
    HirExprId, HirPatternId, HirStmtId, HirTypeId, HirValueId, NameId, ScopeId,
};
use asena::leaf::tree::TreeKind::{
    BranchBlock, BranchExpr, ExprLit, ExprLocal, ExprUnit, PatLit, PatWildcard,
};
use asena::hir::literal::{HirDecimal, HirFSize, HirLiteral};
use asena::hir::value::{HirExprValue, HirValueKind};
use asena::hir_leaf::{HirBaseDatabase, HirId, HirLocated, HirNode};
use asena::leaf::green::GreenTree;
use asena::leaf::interner::{Intern, Interner};
use asena::leaf::node::{Located, Node};
use asena::leaf::tree::{Child, Named, Tree, TreeKind};
use asena::lowering::db::{can_lower, HirLoweringDb};
use asena::lowering::expr::{can_make, ExprLowering};
use asena::lowering::recorder::{Asked, Recorder};
use asena::span::{Loc, Spanned};
use asena::token::Token;

struct Builder {
    trees: Interner<Spanned<Tree>>,
    tokens: Interner<Spanned<Token>>,
    at: usize,
}

impl Builder {
    fn new() -> Builder {
        Builder { trees: Interner::new(), tokens: Interner::new(), at: 0 }
    }

    fn token(&mut self, token: Token) -> Child {
        self.at += 1;
        Child::Token(self.tokens.intern(Spanned::new(Loc::new(self.at, self.at + 1), token)))
    }

    fn tree(&mut self, kind: TreeKind, children: Vec<Named<Child>>) -> Intern<Spanned<Tree>> {
        self.at += 1;
        self.trees.intern(Spanned::new(Loc::new(self.at, self.at + 10), Tree { kind, children }))
    }

    fn node(&mut self, kind: TreeKind, children: Vec<Named<Child>>) -> Child {
        Child::Tree(self.tree(kind, children))
    }

    fn expr(&mut self, kind: TreeKind, children: Vec<Named<Child>>) -> Expr {
        Expr::new(GreenTree::new(self.tree(kind, children)))
    }

    fn literal(&mut self, token: Token) -> Child {
        let token = self.token(token);
        self.node(TreeKind::ExprLit, vec![Named::anonymous(token)])
    }

    fn local(&mut self, name: &str) -> Child {
        let token = self.token(Token::Ident(name.into()));
        self.node(TreeKind::ExprLocal, vec![Named::anonymous(token)])
    }

    fn group(&mut self, inner: Child) -> Child {
        let open = self.token(Token::LeftParen);
        let close = self.token(Token::RightParen);
        self.node(
            TreeKind::ExprGroup,
            vec![Named::anonymous(open), Named::anonymous(inner), Named::anonymous(close)],
        )
    }
}

fn expr_of(child: Child) -> Expr {
    match child {
        Child::Tree(data) => Expr::new(GreenTree::new(data)),
        Child::Token(_) => Expr::Error,
    }
}

#[test]
fn the_pass_lowers_units_and_groups() {
    let mut b = Builder::new();
    let unit = b.node(TreeKind::ExprUnit, vec![]);
    let group = b.group(unit);
    let outer = b.group(group);
    let expr = expr_of(outer);
    let at = expr.location();
    assert!(can_lower(&expr));

    let mut pass = HirLoweringDb::new(HirDatabase::new());
    let id = pass.run_lower_expr(expr);
    assert_eq!(id, HirExprId(2));
    assert_eq!(pass.db.exprs.len(), 3);
    assert_eq!(pass.db.values.len(), 2);

    let outer = pass.db.expr(id).unwrap().node;
    assert_eq!(outer.span, at);
    assert_eq!(outer.location(), at);
    assert_eq!(<HirExprId as HirId>::new(outer.clone()), id);
    let value = match &outer.kind {
        HirExprKind::Group(group) => group.value,
        other => panic!("not a group: {:?}", other),
    };
    assert_eq!(value, HirValueId(1));
    let held = pass.db.value(value).unwrap().node;
    assert!(matches!(held.kind, HirValueKind::Expr(HirExprValue(HirExprId(1)))));
    assert!(matches!(pass.db.exprs[1].kind, HirExprKind::Group(_)));
    assert!(matches!(pass.db.values[0].kind, HirValueKind::Expr(HirExprValue(HirExprId(0)))));
    assert!(matches!(pass.db.exprs[0].kind, HirExprKind::Unit));
    assert!(pass.db.expr(HirExprId(3)).is_none());
    assert!(pass.db.value(HirValueId(2)).is_none());
}

#[test]
fn the_pass_lowers_the_receiver_and_what_is_no_expression() {
    let mut b = Builder::new();
    let mut pass = HirLoweringDb::new(HirDatabase::new());
    let this = b.expr(TreeKind::ExprSelf, vec![]);
    let at = this.location();
    let value = pass.run_lower_value(this);
    assert_eq!(value, HirValueId(0));
    assert!(matches!(pass.db.exprs[0].kind, HirExprKind::This));
    assert_eq!(pass.db.values[0].span, at);
    let error = pass.run_lower_expr(Expr::Error);
    assert!(matches!(pass.db.exprs[error.0].kind, HirExprKind::Error));
    assert_eq!(pass.db.exprs[error.0].span, Loc::Synthetic);
    // A group of what is no expression holds the error expression.
    let stmt = b.node(TreeKind::StmtExpr, vec![]);
    let group = expr_of(b.group(stmt));
    assert!(can_lower(&group));
    let id = pass.run_lower_expr(group);
    assert!(matches!(pass.db.exprs[id.0 - 1].kind, HirExprKind::Error));
}

#[test]
fn the_pass_adds_one_expression_and_one_value_for_each_pair_of_parentheses() {
    let mut b = Builder::new();
    let mut pass = HirLoweringDb::new(HirDatabase::new());
    // What holds no other adds itself alone, and no value.
    pass.run_lower_expr(Expr::Error);
    assert_eq!((pass.db.exprs.len(), pass.db.values.len()), (1, 0));
    pass.run_lower_expr(b.expr(TreeKind::ExprSelf, vec![]));
    assert_eq!((pass.db.exprs.len(), pass.db.values.len()), (2, 0));
    pass.run_lower_expr(b.expr(TreeKind::ExprUnit, vec![]));
    assert_eq!((pass.db.exprs.len(), pass.db.values.len()), (3, 0));
    // Under three pairs of parentheses: four expressions, three values,
    // from the inside out.
    let mut inner = b.node(TreeKind::ExprSelf, vec![]);
    for _ in 0..3 {
        inner = b.group(inner);
    }
    let id = pass.run_lower_expr(expr_of(inner));
    assert_eq!((pass.db.exprs.len(), pass.db.values.len()), (7, 3));
    assert_eq!(id, HirExprId(6));
    assert!(matches!(pass.db.exprs[3].kind, HirExprKind::This));
    for depth in 0..3 {
        assert!(matches!(
            &pass.db.exprs[4 + depth].kind,
            HirExprKind::Group(group) if group.value == HirValueId(depth)
        ));
        assert!(matches!(
            pass.db.values[depth].kind,
            HirValueKind::Expr(HirExprValue(HirExprId(at))) if at == 3 + depth
        ));
    }
    let value = pass.run_lower_value(Expr::Error);
    assert_eq!(value, HirValueId(3));
    assert_eq!((pass.db.exprs.len(), pass.db.values.len()), (8, 4));
}

#[test]
fn the_pass_does_not_lower_every_expression() {
    let mut b = Builder::new();
    let literal = b.literal(Token::True);
    assert!(!can_lower(&expr_of(literal.share())));
    let group = b.group(literal);
    assert!(!can_lower(&expr_of(group)));
    assert!(can_lower(&Expr::Error));
}

#[test]
fn empty_nodes_of_the_intermediate_representation() {
    let expr = <asena::hir::expr::HirExpr as HirNode>::new(HirExprId(4));
    assert_eq!(expr.id, HirExprId(4));
    assert!(matches!(expr.kind, HirExprKind::Error));
    let value = <asena::hir::value::HirValue as HirNode>::new(HirValueId(2));
    assert_eq!(value.location(), Loc::Synthetic);
    assert_eq!(<HirValueId as HirId>::new(value), HirValueId(2));
}

fn lower(expr: Expr) -> (HirExprKind, Loc, Vec<Asked>, Recorder) {
    assert!(can_make(&expr));
    let mut pass = ExprLowering::new(Recorder::new());
    let id = pass.make(expr);
    assert!(pass.instructions.is_empty());
    let mut db = pass.db;
    assert_eq!(id, HirExprId(db.next));
    let data = db.exprs.pop().unwrap();
    assert_eq!(db.asked.pop().unwrap(), Asked::Expr);
    let asked = std::mem::take(&mut db.asked);
    (data.kind, data.span, asked, db)
}
#[test]
fn what_holds_nothing_is_lowered_without_asking() {
    let mut b = Builder::new();
    let unit = b.expr(TreeKind::ExprUnit, vec![]);
    let at = unit.location();
    let (kind, span, asked, _) = lower(unit);
    assert!(matches!(kind, HirExprKind::Unit));
    assert_eq!(span, at);
    assert!(asked.is_empty());
    let (kind, _, asked, _) = lower(b.expr(TreeKind::ExprSelf, vec![]));
    assert!(matches!(kind, HirExprKind::This));
    assert!(asked.is_empty());
    let (kind, span, asked, _) = lower(Expr::Error);
    assert!(matches!(kind, HirExprKind::Error));
    assert_eq!(span, Loc::Synthetic);
    assert!(asked.is_empty());
}

#[test]
fn groups_and_help_requests_ask_for_what_they_hold() {
    let mut b = Builder::new();
    let unit = b.node(TreeKind::ExprUnit, vec![]);
    let group = expr_of(b.group(unit));
    let (kind, _, asked, _) = lower(group);
    assert!(matches!(kind, HirExprKind::Group(g) if g.value == HirValueId(1)));
    assert_eq!(asked, vec![Asked::Value(ExprUnit)]);

    let mark = b.token(Token::Symbol("?".into()));
    let inner = b.local("x");
    let help = b.expr(TreeKind::ExprHelp, vec![Named::anonymous(mark), Named::anonymous(inner)]);
    let (kind, _, asked, _) = lower(help);
    assert!(matches!(kind, HirExprKind::Help(h) if h.value == HirValueId(1)));
    assert_eq!(asked, vec![Asked::Value(ExprLocal)]);
}

#[test]
fn literals_are_lowered_in_place() {
    let mut b = Builder::new();
    let literal = expr_of(b.literal(Token::Float64("3.25".into())));
    let (kind, _, asked, _) = lower(literal);
    match kind {
        HirExprKind::Literal(literal) => assert_eq!(
            literal.0,
            HirLiteral::Decimal(HirFSize::F64, HirDecimal { integer: 3, decimal: 25 })
        ),
        other => panic!("not a literal: {:?}", other),
    }
    assert!(asked.is_empty());
    // A literal without a token is the error literal.
    let (kind, _, _, _) = lower(b.expr(TreeKind::ExprLit, vec![]));
    assert!(matches!(kind, HirExprKind::Literal(literal) if literal.0 == HirLiteral::Error));
    // A decimal number that is too long has no lowering.
    let long = expr_of(b.literal(Token::Float64("1.99999999999999999999999999999".into())));
    assert!(!can_make(&long));
    assert!(!can_make(&b.expr(TreeKind::ExprLet, vec![])));
}

#[test]
fn names_are_interned() {
    let mut b = Builder::new();
    let (kind, _, asked, _) = lower(expr_of(b.local("findUser")));
    assert!(matches!(
        kind,
        HirExprKind::Reference(r) if r.name == NameId(1) && r.scope == ScopeId(0)
    ));
    assert_eq!(asked, vec![Asked::Name("findUser".into())]);
}

#[test]
fn applications_and_annotations() {
    let mut b = Builder::new();
    let callee = b.local("f");
    let argument = b.literal(Token::True);
    let app = b.expr(
        TreeKind::ExprApp,
        vec![Named::named("callee", callee), Named::named("argument", argument)],
    );
    let (kind, _, asked, _) = lower(app);
    match kind {
        HirExprKind::Call(call) => {
            assert_eq!(call.callee, HirCallee::Value(HirValueId(1)));
            assert_eq!(call.arguments, vec![HirValueId(2)]);
            assert!(call.as_dsl.is_none());
        }
        other => panic!("not a call: {:?}", other),
    }
    assert_eq!(asked, vec![Asked::Value(ExprLocal), Asked::Value(ExprLit)]);

    let value = b.literal(Token::True);
    let against = b.local("Bool");
    let ann = b.expr(
        TreeKind::ExprAnn,
        vec![Named::named("value", value), Named::named("against", against)],
    );
    let (kind, _, asked, _) = lower(ann);
    assert!(matches!(
        kind,
        HirExprKind::Ann(a) if a.value == HirValueId(1) && a.against == HirTypeId(2)
    ));
    assert_eq!(asked, vec![Asked::Value(ExprLit), Asked::Type(ExprLocal)]);
}

fn infix(b: &mut Builder, op: &str) -> Expr {
    let lhs = b.literal(Token::Float64("10".into()));
    let op = b.token(Token::Symbol(op.into()));
    let rhs = b.local("x");
    b.expr(
        TreeKind::ExprBinary,
        vec![Named::named("lhs", lhs), Named::named("op", op), Named::named("rhs", rhs)],
    )
}

#[test]
fn the_four_operations_are_built_in() {
    let mut b = Builder::new();
    for (op, callee) in [
        ("+", HirCallee::Add),
        ("-", HirCallee::Sub),
        ("*", HirCallee::Mul),
        ("/", HirCallee::Div),
    ] {
        let (kind, _, asked, _) = lower(infix(&mut b, op));
        match kind {
            HirExprKind::Call(call) => {
                assert_eq!(call.callee, callee);
                assert_eq!(call.arguments, vec![HirValueId(1), HirValueId(2)]);
                assert!(call.as_dsl.is_none());
            }
            other => panic!("not a call: {:?}", other),
        }
        assert_eq!(asked, vec![Asked::Value(ExprLit), Asked::Value(ExprLocal)]);
    }
}

#[test]
fn other_operators_are_referred_to_by_name() {
    let mut b = Builder::new();
    let expr = infix(&mut b, ">>=");
    let at = expr.location();
    let (kind, _, asked, mut db) = lower(expr);
    match kind {
        HirExprKind::Call(call) => {
            assert_eq!(call.callee, HirCallee::Value(HirValueId(5)));
            assert_eq!(call.arguments, vec![HirValueId(1), HirValueId(2)]);
        }
        other => panic!("not a call: {:?}", other),
    }
    assert_eq!(
        asked,
        vec![
            Asked::Value(ExprLit),
            Asked::Value(ExprLocal),
            Asked::Name(">>=".into()),
            Asked::Expr,
            Asked::InternValue
        ]
    );
    let reference = db.exprs.pop().unwrap();
    assert_eq!(reference.span, at);
    assert!(matches!(reference.kind, HirExprKind::Reference(r) if r.name == NameId(3)));
    let value = db.values.pop().unwrap();
    assert_eq!(value.span, at);
    assert!(matches!(value.kind, HirValueKind::Expr(HirExprValue(HirExprId(4)))));
}

#[test]
fn lists_ask_for_each_member_in_order() {
    let mut b = Builder::new();
    let open = b.token(Token::LeftBracket);
    let one = b.local("a");
    let two = b.literal(Token::True);
    let three = b.node(TreeKind::ExprUnit, vec![]);
    let array = b.expr(
        TreeKind::ExprArray,
        vec![
            Named::anonymous(open),
            Named::anonymous(one),
            Named::anonymous(two),
            Named::anonymous(three),
        ],
    );
    let (kind, _, asked, _) = lower(array);
    assert!(matches!(
        kind,
        HirExprKind::Array(a) if a.items == vec![HirValueId(1), HirValueId(2), HirValueId(3)]
    ));
    assert_eq!(asked, vec![Asked::Value(ExprLocal), Asked::Value(ExprLit), Asked::Value(ExprUnit)]);
    let (kind, _, asked, _) = lower(b.expr(TreeKind::ExprArray, vec![]));
    assert!(matches!(kind, HirExprKind::Array(a) if a.items.is_empty()));
    assert!(asked.is_empty());
}

#[test]
fn a_choice_between_two_branches_is_a_match() {
    let mut b = Builder::new();
    let cond = b.literal(Token::True);
    let then_branch = b.node(TreeKind::BranchExpr, vec![]);
    let else_branch = b.node(TreeKind::BranchBlock, vec![]);
    let choice = b.expr(
        TreeKind::ExprIf,
        vec![
            Named::named("cond", cond),
            Named::named("then_branch", then_branch),
            Named::named("else_branch", else_branch),
        ],
    );
    let (kind, _, asked, _) = lower(choice);
    match kind {
        HirExprKind::Match(m) => {
            assert_eq!(m.kind, HirMatchKind::If);
            assert_eq!(m.scrutinee, HirValueId(1));
            assert_eq!(m.cases.len(), 2);
            assert_eq!(m.cases[0].pattern, HirPatternId(2));
            assert_eq!(m.cases[0].value, HirMatchArm::Expr(HirValueId(3)));
            assert_eq!(m.cases[1].pattern, HirPatternId(4));
            assert_eq!(m.cases[1].value, HirMatchArm::Expr(HirValueId(5)));
        }
        other => panic!("not a match: {:?}", other),
    }
    assert_eq!(
        asked,
        vec![
            Asked::Value(ExprLit),
            Asked::TruePattern,
            Asked::Branch(BranchExpr),
            Asked::FalsePattern,
            Asked::Branch(BranchBlock)
        ]
    );
}

#[test]
fn a_choice_by_cases_asks_case_by_case() {
    let mut b = Builder::new();
    let scrutinee = b.local("x");
    let mut children = vec![Named::named("scrutinee", scrutinee)];
    for pat in [TreeKind::PatWildcard, TreeKind::PatLit] {
        let pat = b.node(pat, vec![]);
        let branch = b.node(TreeKind::BranchExpr, vec![]);
        let case = b.node(
            TreeKind::MatchCase,
            vec![Named::anonymous(pat), Named::anonymous(branch)],
        );
        children.push(Named::anonymous(case));
    }
    let (kind, _, asked, _) = lower(b.expr(TreeKind::ExprMatch, children));
    match kind {
        HirExprKind::Match(m) => {
            assert_eq!(m.kind, HirMatchKind::Match);
            assert_eq!(m.scrutinee, HirValueId(1));
            assert_eq!(m.cases.len(), 2);
            assert_eq!(m.cases[1].pattern, HirPatternId(4));
            assert_eq!(m.cases[1].value, HirMatchArm::Expr(HirValueId(5)));
        }
        other => panic!("not a match: {:?}", other),
    }
    assert_eq!(
        asked,
        vec![
            Asked::Value(ExprLocal),
            Asked::Pattern(PatWildcard),
            Asked::Branch(BranchExpr),
            Asked::Pattern(PatLit),
            Asked::Branch(BranchExpr)
        ]
    );
}

#[test]
fn functions_intern_their_parameters_after_the_body() {
    let mut b = Builder::new();
    let slash = b.token(Token::Symbol("\\".into()));
    let a = b.token(Token::Ident("a".into()));
    let c = b.token(Token::Ident("b".into()));
    let arrow = b.token(Token::Symbol("->".into()));
    let body = b.local("c");
    let lam = b.expr(
        TreeKind::ExprLam,
        vec![
            Named::anonymous(slash),
            Named::anonymous(a),
            Named::anonymous(c),
            Named::anonymous(arrow),
            Named::named("value", body),
        ],
    );
    let (kind, _, asked, _) = lower(lam);
    assert!(matches!(
        kind,
        HirExprKind::Lam(l) if l.value == HirValueId(1) && l.parameters == vec![NameId(2), NameId(3)]
    ));
    assert_eq!(asked, vec![Asked::Value(ExprLocal), Asked::Name("a".into()), Asked::Name("b".into())]);
}

#[test]
fn a_call_with_a_block() {
    let mut b = Builder::new();
    let f = b.local("f");
    let x = b.local("x");
    let app = b.node(
        TreeKind::ExprApp,
        vec![Named::named("callee", f), Named::named("argument", x)],
    );
    let stmt = b.node(TreeKind::StmtExpr, vec![]);
    let dsl = b.expr(
        TreeKind::ExprDsl,
        vec![Named::named("callee", app), Named::anonymous(stmt)],
    );
    let (kind, _, asked, _) = lower(dsl);
    match kind {
        HirExprKind::Call(call) => {
            assert_eq!(call.callee, HirCallee::Value(HirValueId(1)));
            assert_eq!(call.arguments, vec![HirValueId(2)]);
            let block = call.as_dsl.unwrap();
            assert!(block.parameters.is_empty());
            assert_eq!(block.stmts, vec![HirStmtId(3)]);
        }
        other => panic!("not a call: {:?}", other),
    }
    assert_eq!(asked, vec![Asked::Value(ExprLocal), Asked::Value(ExprLocal), Asked::Block(1)]);

    let callee = b.local("run");
    let dsl = b.expr(TreeKind::ExprDsl, vec![Named::named("callee", callee)]);
    let (kind, _, asked, _) = lower(dsl);
    match kind {
        HirExprKind::Call(call) => {
            assert_eq!(call.callee, HirCallee::Value(HirValueId(1)));
            assert!(call.arguments.is_empty());
            assert!(call.as_dsl.unwrap().stmts.is_empty());
        }
        other => panic!("not a call: {:?}", other),
    }
    assert_eq!(asked, vec![Asked::Value(ExprLocal), Asked::Block(0)]);
}

#[test]
fn dependent_types_are_reported() {
    let mut b = Builder::new();
    for kind in [TreeKind::ExprQual, TreeKind::ExprPi, TreeKind::ExprSigma] {
        let expr = b.expr(kind, vec![]);
        let at = expr.location();
        let (kind, span, asked, _) = lower(expr);
        assert!(matches!(kind, HirExprKind::Error));
        assert_eq!(span, at);
        assert_eq!(asked, vec![Asked::Unsupported(at)]);
    }
}
