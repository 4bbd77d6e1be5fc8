use asena::ast::body::{Body, Do, Value};
use asena::ast::census::Census;
use asena::ast::decl::Decl;
use asena::ast::expr::{Case, Expr};
use asena::ast::file::AsenaFile;
use asena::ast::pat::Pat;
use asena::ast::stmt::{Eval, SetStmt, Stmt};
use asena::derive::{expand_ast_derive_step, is_marked, reporter_field, Expansion, Field, Input};
use asena::leaf::cursor::{Cursor, Slots};
use asena::leaf::value::Value as Held;
use asena::leaf::green::GreenTree;
use asena::leaf::interner::{Intern, Interner};
use asena::leaf::node::{Leaf, Located, Node};
use asena::leaf::tree::{Child, Named, Tree, TreeKind};
use asena::leaf::walk::Walkable;
use asena::span::{Loc, Spanned};
use asena::token::Token;

struct Builder {
    trees: Interner<Spanned<Tree>>,
    tokens: Interner<Spanned<Token>>,
    at: usize,
}

impl Builder {
    fn new() -> Builder {
        Builder { trees: Interner::new(), tokens: Interner::new(), at: 0 }
    }

    fn token(&mut self, token: Token) -> Child {
        self.at += 1;
        Child::Token(self.tokens.intern(Spanned::new(Loc::new(self.at, self.at + 1), token)))
    }

    fn tree(&mut self, kind: TreeKind, children: Vec<Child>) -> Intern<Spanned<Tree>> {
        self.at += 1;
        let children = children.into_iter().map(Named::anonymous).collect();
        self.trees.intern(Spanned::new(Loc::new(self.at, self.at + 10), Tree { kind, children }))
    }

    fn node(&mut self, kind: TreeKind, children: Vec<Child>) -> Child {
        Child::Tree(self.tree(kind, children))
    }

    fn green(&mut self, kind: TreeKind, children: Vec<Child>) -> GreenTree {
        GreenTree::new(self.tree(kind, children))
    }
}

fn is_empty_cursor<T: asena::leaf::node::Leaf>(cursor: &Cursor<T>, slots: &Slots) -> bool {
    matches!(cursor.value(slots), Held::Green(GreenTree::Empty))
}

fn is_absent_cursor<T: asena::leaf::node::Leaf>(cursor: &Cursor<T>, slots: &Slots) -> bool {
    matches!(cursor.value(slots), Held::Green(GreenTree::Absent))
}

#[test]
fn views_are_chosen_by_kind() {
    let mut b = Builder::new();
    assert!(matches!(Stmt::new(b.green(TreeKind::StmtAsk, vec![])), Stmt::Ask(_)));
    assert!(matches!(Stmt::new(b.green(TreeKind::StmtLet, vec![])), Stmt::SetStmt(_)));
    assert!(matches!(Stmt::new(b.green(TreeKind::StmtReturn, vec![])), Stmt::Return(_)));
    assert!(matches!(Stmt::new(b.green(TreeKind::StmtExpr, vec![])), Stmt::Eval(_)));
    assert!(matches!(Stmt::new(b.green(TreeKind::ExprUnit, vec![])), Stmt::Error));
    assert!(matches!(Stmt::new(GreenTree::Absent), Stmt::Error));
    assert!(matches!(Body::new(b.green(TreeKind::BodyValue, vec![])), Body::Value(_)));
    assert!(matches!(Body::new(b.green(TreeKind::BodyDo, vec![])), Body::Do(_)));
    assert!(matches!(Pat::new(b.green(TreeKind::PatWildcard, vec![])), Pat::Wildcard(_)));
    assert!(matches!(Decl::new(b.green(TreeKind::DeclAssign, vec![])), Decl::Assign(_)));
    assert!(matches!(Expr::new(b.green(TreeKind::ExprPi, vec![])), Expr::Pi(_)));
    assert!(Expr::make(b.green(TreeKind::StmtLet, vec![])).is_none());
    assert!(Stmt::make(b.green(TreeKind::StmtLet, vec![])).is_some());
    assert!(Case::make(b.green(TreeKind::MatchCase, vec![])).is_some());
    assert!(Case::make(b.green(TreeKind::ExprUnit, vec![])).is_none());
    assert!(AsenaFile::make(b.green(TreeKind::File, vec![])).is_some());
    assert!(AsenaFile::make(GreenTree::Empty).is_none());
    let stmt = Stmt::new(b.green(TreeKind::StmtLet, vec![]));
    assert_eq!(stmt.tag(), TreeKind::StmtLet);
    assert_eq!(Stmt::Error.tag(), TreeKind::Error);
    assert_eq!(stmt.location(), stmt.green().unwrap().location());
    assert_eq!(Stmt::Error.location(), Loc::Synthetic);
    assert!(matches!(Stmt::Error.unwrap(), GreenTree::Empty));
    assert!(matches!(stmt.duplicate(), Stmt::SetStmt(_)));
}

#[test]
fn bodies() {
    let mut b = Builder::new();
    let equals = b.token(Token::Symbol("=".into()));
    let unit = b.node(TreeKind::ExprUnit, vec![]);
    let other = b.node(TreeKind::ExprSelf, vec![]);
    let value = Value(b.green(TreeKind::BodyValue, vec![equals, unit, other]));
    assert!(matches!(value.value(), Expr::Unit(_)));
    let empty = Value(b.green(TreeKind::BodyValue, vec![]));
    assert!(matches!(empty.value(), Expr::Error));
    assert!(matches!(Value(GreenTree::Empty).value(), Expr::Error));

    let first = b.node(TreeKind::StmtLet, vec![]);
    let noise = b.node(TreeKind::ExprUnit, vec![]);
    let second = b.node(TreeKind::StmtExpr, vec![]);
    let block = Do(b.green(TreeKind::BodyDo, vec![first, noise, second]));
    let stmts = block.stmts();
    assert_eq!(stmts.len(), 2);
    assert!(matches!(stmts[0], Stmt::SetStmt(_)));
    assert!(matches!(stmts[1], Stmt::Eval(_)));
    assert!(Do(GreenTree::Absent).stmts().is_empty());
}

#[test]
fn statements_read_through_the_cache() {
    let mut b = Builder::new();
    let mut slots = Slots::new();
    let keyword = b.token(Token::Let);
    let pattern = b.node(TreeKind::PatLocal, vec![]);
    let value = b.node(TreeKind::ExprUnit, vec![]);
    let mut set = SetStmt(b.green(TreeKind::StmtLet, vec![keyword, pattern, value]));
    let first = set.pattern(&mut slots);
    assert!(matches!(first.get(&slots), Pat::Local(_)));
    assert!(matches!(set.value(&mut slots).get(&slots), Expr::Unit(_)));
    // From now on the cache answers with the same slot, whatever is put there.
    first.replace(&mut slots, Pat::Error);
    let again = set.pattern(&mut slots);
    assert_eq!(again.slot, first.slot);
    assert!(matches!(again.get(&slots), Pat::Error));
    set.0.insert(&mut slots, "value", Expr::new(GreenTree::of(TreeKind::ExprSelf)));
    assert!(matches!(set.value(&mut slots).get(&slots), Expr::SelfExpr(_)));

    let mut bare = SetStmt(b.green(TreeKind::StmtLet, vec![]));
    let none = bare.pattern(&mut slots);
    assert!(is_absent_cursor(&none, &slots));
    assert!(matches!(bare.value(&mut slots).get(&slots), Expr::Error));
    let mut broken = SetStmt(GreenTree::Empty);
    let none = broken.pattern(&mut slots);
    assert!(is_empty_cursor(&none, &slots));
    let none = broken.value(&mut slots);
    assert!(is_empty_cursor(&none, &slots));

    let inner = b.node(TreeKind::ExprSelf, vec![]);
    let mut eval = Eval(b.green(TreeKind::StmtExpr, vec![inner]));
    let one = eval.value(&mut slots);
    let two = eval.value(&mut slots);
    assert_eq!(one.slot, two.slot);
    assert!(matches!(two.get(&slots), Expr::SelfExpr(_)));
}

#[test]
fn a_file_is_walked_declaration_by_declaration() {
    let mut b = Builder::new();
    let one = b.node(TreeKind::DeclSignature, vec![]);
    let noise = b.node(TreeKind::ExprUnit, vec![]);
    let two = b.node(TreeKind::DeclAssign, vec![]);
    let three = b.node(TreeKind::DeclAssign, vec![]);
    let file = AsenaFile(b.green(TreeKind::File, vec![one, noise, two, three]));
    assert_eq!(file.declarations().len(), 3);

    let mut census = Census::new();
    file.walk(&mut census);
    assert_eq!(census, Census { signatures: 1, assignments: 2, errors: 0, files: 1 });
    let census = file.run(census);
    assert_eq!(census, Census { signatures: 2, assignments: 4, errors: 0, files: 2 });
    let file = file.walks(Census::new());
    assert_eq!(file.declarations().len(), 3);

    let decls = file.declarations();
    assert_eq!(decls.run(Census::new()).assignments, 2);
    // What is no declaration is passed over; the hook itself counts it.
    assert_eq!(Some(Decl::Error).run(Census::new()), Census::new());
    let mut census = Census::new();
    asena::ast::file::DeclWalker::walk_decl(&mut census, &Decl::Error);
    assert_eq!(census.errors, 1);
    assert_eq!(None::<Decl>.run(Census::new()), Census::new());
    assert_eq!(Vec::<Decl>::new().run(Census::new()), Census::new());

    let empty = AsenaFile::default();
    assert!(empty.declarations().is_empty());
    assert_eq!(empty.location(), Loc::Synthetic);
    assert_eq!(empty.run(Census::new()).files, 1);
    let full = Census { signatures: usize::MAX, assignments: 0, errors: 0, files: usize::MAX };
    assert_eq!(Decl::new(GreenTree::of(TreeKind::DeclSignature)).run(full), full);
}

fn field(name: &str, attributes: &[&str]) -> Field {
    Field {
        name: Some(name.to_string()),
        attributes: attributes.iter().map(|a| a.to_string()).collect(),
    }
}

#[test]
fn the_derive_forwards_to_the_first_marked_field() {
    let fields = vec![
        field("db", &["doc"]),
        field("reporter", &["doc", "ast_reporter"]),
        field("other", &["ast_reporter"]),
    ];
    assert_eq!(reporter_field(&fields), Some(1));
    assert_eq!(expand_ast_derive_step(&Input::Struct(fields)), Expansion::Forward(1));
    let unmarked = vec![field("db", &[]), field("reporter", &["ast_reporters", "reporter"])];
    assert_eq!(reporter_field(&unmarked), None);
    assert_eq!(expand_ast_derive_step(&Input::Struct(unmarked)), Expansion::Nothing);
    assert_eq!(expand_ast_derive_step(&Input::Struct(vec![])), Expansion::Nothing);
    assert_eq!(expand_ast_derive_step(&Input::Other), Expansion::NotAStruct);
    let unnamed = vec![Field { name: None, attributes: vec!["ast_reporter".to_string()] }];
    assert_eq!(expand_ast_derive_step(&Input::Struct(unnamed)), Expansion::Forward(0));
    assert!(is_marked(&vec!["a".to_string(), "ast_reporter".to_string()]));
    assert!(!is_marked(&vec![]));
}
