use std::cell::Cell;

use asena::ast::census::Census;
use asena::ast::decl::Decl;
use asena::ast::expr::{Expr, Group};
use asena::ast::literal::Literal;
use asena::ast::stmt::Stmt;
use asena::leaf::cursor::{Cursor, Slots};
use asena::leaf::value::Value;
use asena::leaf::green::{Attachment, GreenTree, Stowed};
use asena::leaf::interner::{Intern, Interner, SYNTHETIC};
use asena::leaf::lexeme::Lexeme;
use asena::leaf::node::{Leaf, Node};
use asena::leaf::tree::{Child, HasTokens, Named, Tree, TreeKind};
use asena::leaf::walk::Walkable;
use asena::span::{Loc, Spanned};
use asena::token::{Token, TokenKind};

struct Builder {
    trees: Interner<Spanned<Tree>>,
    tokens: Interner<Spanned<Token>>,
}

impl Builder {
    fn new() -> Builder {
        Builder { trees: Interner::new(), tokens: Interner::new() }
    }

    fn token(&mut self, token: Token) -> Child {
        Child::Token(self.tokens.intern(Spanned::new(Loc::new(0, 1), token)))
    }

    fn tree(&mut self, kind: TreeKind, children: Vec<Named<Child>>) -> Intern<Spanned<Tree>> {
        self.trees.intern(Spanned::new(Loc::new(0, 9), Tree { kind, children }))
    }

    fn literal(&mut self, text: &str) -> Child {
        let token = self.token(Token::Float64(text.into()));
        Child::Tree(self.tree(TreeKind::ExprLit, vec![Named::anonymous(token)]))
    }

    /// `10 + 10`, with the children declared under `lhs`, `op` and `rhs`.
    fn binary(&mut self) -> GreenTree {
        let lhs = self.literal("10");
        let op = self.token(Token::Symbol("+".into()));
        let rhs = self.literal("10");
        let data = self.tree(
            TreeKind::ExprBinary,
            vec![Named::named("lhs", lhs), Named::named("op", op), Named::named("rhs", rhs)],
        );
        GreenTree::new(data)
    }
}

fn is_empty_value<T>(found: &Value<T>) -> bool {
    matches!(found, Value::Green(GreenTree::Empty))
}

fn is_absent_value<T>(found: &Value<T>) -> bool {
    matches!(found, Value::Green(GreenTree::Absent))
}

#[test]
fn interning_is_idempotent() {
    let mut tokens: Interner<Spanned<Token>> = Interner::new();
    let a = tokens.intern(Spanned::new(Loc::new(0, 1), Token::Ident("x".into())));
    let b = tokens.intern(Spanned::new(Loc::new(7, 8), Token::Ident("x".into())));
    let c = tokens.intern(Spanned::new(Loc::new(0, 1), Token::Ident("y".into())));
    assert!(a.same(&b));
    assert_eq!(a.hash_code(), b.hash_code());
    assert!(!a.same(&c));
    assert_eq!(a.slot, 0);
    assert_eq!(c.slot, 1);
    assert_eq!(tokens.len(), 2);
    // The handle is the one that was given out first.
    assert_eq!(b.get().span, Loc::new(0, 1));
    assert!(tokens.lookup(1).unwrap().same(&c));
    assert!(tokens.lookup(2).is_none());
}

#[test]
fn fragments_are_compared_by_kind_names_and_handles() {
    let mut b = Builder::new();
    let x = b.token(Token::Ident("x".into()));
    let y = b.token(Token::Ident("y".into()));
    let one = b.tree(TreeKind::ExprLocal, vec![Named::anonymous(x.share())]);
    let same = b.tree(TreeKind::ExprLocal, vec![Named::anonymous(x.share())]);
    let other_child = b.tree(TreeKind::ExprLocal, vec![Named::anonymous(y.share())]);
    let other_kind = b.tree(TreeKind::PatLocal, vec![Named::anonymous(x.share())]);
    let other_name = b.tree(TreeKind::ExprLocal, vec![Named::named("name", x.share())]);
    let more = b.tree(
        TreeKind::ExprLocal,
        vec![Named::anonymous(x.share()), Named::anonymous(y.share())],
    );
    assert!(one.same(&same));
    assert!(!one.same(&other_child));
    assert!(!one.same(&other_kind));
    assert!(!one.same(&other_name));
    assert!(!one.same(&more));
    assert_eq!(b.trees.len(), 5);
}

#[test]
fn handles_of_no_interner_are_compared_by_shape() {
    let a = Intern::synthetic(Spanned::new(Loc::new(0, 3), Token::Let));
    let b = Intern::synthetic(Spanned::new(Loc::new(9, 12), Token::Let));
    let c = Intern::synthetic(Spanned::new(Loc::new(0, 2), Token::If));
    assert!(a.same(&b));
    assert!(a.same(&a.share()));
    assert!(!a.same(&c));
    assert_eq!(a.hash_code(), b.hash_code());
    // Constructs over such handles are not taken for one another.
    let mut trees: Interner<Spanned<Tree>> = Interner::new();
    let over = |token: Token| {
        let child = Child::Token(Intern::synthetic(Spanned::new(Loc::Synthetic, token)));
        Spanned::new(Loc::Synthetic, Tree { kind: TreeKind::ExprLit, children: vec![Named::anonymous(child)] })
    };
    let one = trees.intern(over(Token::Let));
    let other = trees.intern(over(Token::If));
    let again = trees.intern(over(Token::Let));
    assert!(!one.same(&other));
    assert!(one.same(&again));
    assert_eq!(trees.len(), 2);
    let nested = |token: Token| {
        let inner = Child::Tree(Intern::synthetic(over(token)));
        Spanned::new(Loc::Synthetic, Tree { kind: TreeKind::ExprGroup, children: vec![Named::anonymous(inner)] })
    };
    let deep = trees.intern(nested(Token::Let));
    assert!(!deep.same(&trees.intern(nested(Token::If))));
    assert!(deep.same(&trees.intern(nested(Token::Let))));
    assert!(Intern::synthetic(nested(Token::Let)).same(&Intern::synthetic(nested(Token::Let))));
    assert!(!Intern::synthetic(nested(Token::Let)).same(&Intern::synthetic(nested(Token::If))));
}

#[test]
fn a_synthetic_handle_belongs_to_no_interner() {
    let handle = Intern::synthetic(Token::Let);
    assert_eq!(handle.slot, SYNTHETIC);
    assert_eq!(*handle.get(), Token::Let);
    assert_eq!(handle.share().slot, SYNTHETIC);
}

#[test]
fn binary_named_children() {
    let mut b = Builder::new();
    let binary = b.binary();
    assert_eq!(binary.kind(), TreeKind::ExprBinary);
    assert!(binary.has("lhs") && binary.has("op") && binary.has("rhs"));
    assert!(!binary.has("missing"));

    let mut slots = Slots::new();
    let cursor = binary.named_at::<Token>(&mut slots, "op");
    assert_eq!(cursor.get(&slots), Token::Symbol("+".into()));
    assert!(slots.held_at(cursor.slot));
    let none = binary.named_at::<Expr>(&mut slots, "missing");
    let direct: Cursor<Expr> = Cursor::empty(&mut slots);
    assert!(matches!(none.value(&slots), Value::Green(GreenTree::Empty)));
    assert!(matches!(direct.value(&slots), Value::Green(GreenTree::Empty)));
    assert_eq!(slots.held_at(none.slot), slots.held_at(direct.slot));
    assert!(matches!(none.get(&slots), Expr::Error));

    let op = binary.read_named::<Token>("op");
    assert_eq!(op.get(), Token::Symbol("+".into()));
    assert_eq!(*op.as_leaf(), Token::Symbol("+".into()));

    let missing = binary.read_named::<Expr>("missing");
    assert!(is_empty_value(&missing));
    assert!(matches!(missing.get(), Expr::Error));
    assert!(missing.try_get().is_none());

    let lhs = binary.read_named::<Expr>("lhs").get();
    assert!(matches!(lhs, Expr::LiteralExpr(_)));
    // A token is no expression, and a construct is no token.
    assert!(is_empty_value(&binary.read_named::<Expr>("op")));
    assert!(is_absent_value(&binary.read_named::<Token>("lhs")));
    assert!(is_absent_value(&binary.read_named::<Stmt>("lhs")));
}

#[test]
fn named_terminals() {
    let mut b = Builder::new();
    let flag = b.token(Token::True);
    let word = b.token(Token::Ident("x".into()));
    let inner = b.literal("1");
    let data = b.tree(
        TreeKind::ExprApp,
        vec![Named::named("flag", flag), Named::named("word", word), Named::named("inner", inner)],
    );
    let tree = GreenTree::new(data);
    let flag = tree.read_named_terminal::<Literal>("flag").get();
    assert_eq!(flag.value, Literal::True);
    assert_eq!(flag.token.get().value, Token::True);
    assert!(!flag.is_none);
    assert!(is_absent_value(&tree.read_named_terminal::<Literal>("word")));
    assert!(is_empty_value(&tree.read_named_terminal::<Literal>("inner")));
    assert!(is_empty_value(&tree.read_named_terminal::<Literal>("missing")));
    assert!(is_empty_value(&GreenTree::Empty.read_named_terminal::<Literal>("flag")));
}

#[test]
fn of_two_children_with_one_name_the_later_is_found() {
    let mut b = Builder::new();
    let first = b.token(Token::Ident("first".into()));
    let second = b.token(Token::Ident("second".into()));
    let data = b.tree(
        TreeKind::ExprApp,
        vec![Named::named("x", first), Named::named("x", second)],
    );
    let tree = GreenTree::new(data);
    assert_eq!(tree.read_named::<Token>("x").get(), Token::Ident("second".into()));
}

#[test]
fn an_empty_list_filters_to_an_empty_sequence() {
    let mut b = Builder::new();
    let list = GreenTree::new(b.tree(TreeKind::ListTree, vec![]));
    let mut slots = Slots::new();
    let projected = list.filter::<Expr>(&mut slots);
    assert!(slots.held_at(projected.slot));
    assert!(projected.get(&slots).is_empty());
    let cursor = list.read_filter::<Expr>();
    assert!(matches!(cursor, Value::Ref(_)));
    assert!(cursor.get().is_empty());
    assert!(cursor.as_leaf().is_empty());
    assert!(is_absent_value(&list.read_filter::<Expr>().first()));
    assert!(list.read_filter::<Expr>().skip(3).get().is_empty());
}

#[test]
fn filter_keeps_the_children_of_the_type_in_order() {
    let mut b = Builder::new();
    let open = b.token(Token::LeftBracket);
    let one = b.literal("1");
    let comma = b.token(Token::Comma);
    let two = b.literal("2");
    let close = b.token(Token::RightBracket);
    let data = b.tree(
        TreeKind::ExprArray,
        vec![
            Named::anonymous(open),
            Named::anonymous(one),
            Named::anonymous(comma),
            Named::anonymous(two),
            Named::anonymous(close),
        ],
    );
    let array = GreenTree::new(data);
    let exprs = array.read_filter::<Expr>().get();
    assert_eq!(exprs.len(), 2);
    assert!(exprs.iter().all(|e| matches!(e, Expr::LiteralExpr(_))));
    let tokens = array.read_filter::<Token>().get();
    assert_eq!(tokens, vec![Token::LeftBracket, Token::Comma, Token::RightBracket]);
    let rest = array.read_filter::<Token>().skip(1).get();
    assert_eq!(rest, vec![Token::Comma, Token::RightBracket]);
    assert_eq!(array.read_filter::<Token>().first().get(), Token::LeftBracket);
    assert!(array.read_filter_terminal::<Literal>().get().is_empty());
    assert!(array.read_filter::<Stmt>().get().is_empty());

    assert!(array.matches(0, TokenKind::LeftBracket));
    assert!(!array.matches(1, TokenKind::LeftBracket));
    assert!(!array.matches(9, TokenKind::LeftBracket));
    assert_eq!(array.any_token(TokenKind::Comma).len(), 1);
    assert_eq!(array.token(TokenKind::Comma).get().value, Token::Comma);
    assert_eq!(array.token(TokenKind::Ident).get().value, Token::Error);
    assert_eq!(array.token(TokenKind::Ident).slot, SYNTHETIC);
    assert_eq!(array.children().unwrap().len(), 5);
    assert!(!array.is_single());
}

#[test]
fn children_by_position() {
    let mut b = Builder::new();
    let binary = b.binary();
    assert!(matches!(binary.read_at::<Expr>(0).get(), Expr::LiteralExpr(_)));
    assert_eq!(binary.read_at::<Token>(1).get(), Token::Symbol("+".into()));
    assert!(is_absent_value(&binary.read_at::<Expr>(1)));
    assert!(is_empty_value(&binary.read_at::<Expr>(3)));
    assert!(is_empty_value(&binary.read_terminal::<Literal>(0)));
    assert!(is_absent_value(&binary.read_terminal::<Literal>(1)));
    assert!(is_empty_value(&binary.read_terminal::<Literal>(7)));
    let literal = binary.read_at::<Expr>(0).get().unwrap();
    let lexeme = literal.read_terminal::<Literal>(0).get();
    assert_eq!(lexeme.value, Literal::Float64("10".into()));
    assert!(literal.is_single());
}

#[test]
fn accessors_are_total() {
    for tree in [
        GreenTree::Empty,
        GreenTree::Absent,
        GreenTree::Vec(vec![]),
        Token::Let.unwrap(),
        GreenTree::default(),
        GreenTree::of(TreeKind::File),
    ] {
        let is_leaf = matches!(tree, GreenTree::Leaf(_));
        let is_token = matches!(tree, GreenTree::Token(_));
        assert!(!tree.matches(0, TokenKind::Let));
        assert_eq!(tree.is_single(), is_token);
        assert_eq!(tree.children().is_some(), is_leaf);
        assert!(tree.any_token(TokenKind::Let).is_empty());
        assert_eq!(tree.token(TokenKind::Let).get().value, Token::Error);
        assert!(!tree.has("x"));
        assert_eq!(tree.location(), Loc::Synthetic);
        assert_eq!(tree.spanned().span, Loc::Synthetic);
        assert!(is_empty_value(&tree.read_at::<Expr>(0)));
        assert!(is_empty_value(&tree.read_terminal::<Literal>(0)));
        assert!(is_empty_value(&tree.read_named::<Expr>("x")));
        assert!(is_empty_value(&tree.read_named_terminal::<Literal>("x")));
        assert_eq!(is_empty_value(&tree.read_filter::<Expr>()), !is_leaf);
        assert!(tree.read_filter::<Expr>().get().is_empty());
        assert!(matches!(tree.as_node::<Expr>(), Expr::Error));
        let mut tree = tree;
        assert_eq!(tree.key("resolved"), Attachment::Nothing);
        assert!(tree.or_empty().get().value.children.is_empty());
    }
    assert_eq!(GreenTree::Empty.kind(), TreeKind::Error);
    assert_eq!(GreenTree::of(TreeKind::File).kind(), TreeKind::File);
    assert_eq!(GreenTree::default().kind(), TreeKind::Error);
}

#[test]
fn the_side_table_is_created_on_demand() {
    let mut b = Builder::new();
    let mut binary = b.binary();
    assert_eq!(binary.key("scope"), Attachment::Nothing);
    assert_eq!(binary.insert_key("scope", Attachment::Index(7)), Attachment::Index(7));
    assert_eq!(binary.key("scope"), Attachment::Index(7));
    assert_eq!(binary.insert_key("scope", Attachment::Flag(true)), Attachment::Flag(true));
    assert_eq!(binary.key("scope"), Attachment::Flag(true));
    assert_eq!(binary.key("type"), Attachment::Nothing);
    // The tree value is what it was.
    assert_eq!(binary.kind(), TreeKind::ExprBinary);
    assert_eq!(binary.read_named::<Token>("op").get(), Token::Symbol("+".into()));
    // Nothing is stored on what is no structured node.
    let mut absent = GreenTree::Absent;
    assert_eq!(absent.insert_key("scope", Attachment::Index(1)), Attachment::Index(1));
    assert_eq!(absent.key("scope"), Attachment::Nothing);
}

#[test]
fn building_from_what_was_unwrapped_gives_the_same() {
    let mut b = Builder::new();
    let expr = Expr::new(b.binary());
    assert!(matches!(expr, Expr::Infix(_)));
    let again = Expr::new(expr.duplicate().unwrap());
    assert!(matches!(again, Expr::Infix(_)));
    assert_eq!(again.green().unwrap().kind(), TreeKind::ExprBinary);
    assert_eq!(
        again.green().unwrap().read_named::<Token>("op").get(),
        Token::Symbol("+".into())
    );

    assert_eq!(Token::new(Token::Semi.unwrap()), Token::Semi);
    assert_eq!(
        <Vec<Token> as Node>::new(vec![Token::Let, Token::If].unwrap()),
        vec![Token::Let, Token::If]
    );
    assert_eq!(<Option<Token> as Node>::new(Node::unwrap(Some(Token::Let))), Some(Token::Let));
    assert_eq!(<Option<Token> as Node>::new(Node::unwrap(None::<Token>)), None);
    assert!(matches!(Expr::new(Expr::Error.unwrap()), Expr::Error));
    // An optional node that holds a broken region comes back as nothing.
    assert!(<Option<Expr> as Node>::new(Node::unwrap(Some(Expr::Error))).is_none());

    let lexeme = <Lexeme<Literal> as Leaf>::terminal(Intern::synthetic(Spanned::new(
        Loc::new(2, 6),
        Token::True,
    )))
    .unwrap();
    let again = <Lexeme<Literal> as Node>::new(lexeme.duplicate().unwrap());
    assert_eq!(again.value, Literal::True);
    assert_eq!(again.token.get().span, Loc::new(2, 6));
    assert_eq!(again.is_none, lexeme.is_none);
}

#[test]
fn all_tokens_under_a_tree_value() {
    let mut b = Builder::new();
    let binary = b.binary();
    let texts: Vec<Token> =
        binary.tokens().iter().map(|token| token.get().value.clone()).collect();
    assert_eq!(
        texts,
        vec![
            Token::Float64("10".into()),
            Token::Symbol("+".into()),
            Token::Float64("10".into())
        ]
    );
    let group = GreenTree::Vec(vec![Token::Let.unwrap(), binary.clone(), GreenTree::Absent]);
    assert_eq!(group.tokens().len(), 4);
    assert_eq!(group.tokens()[0].get().value, Token::Let);
    assert!(GreenTree::Empty.tokens().is_empty());
    assert!(GreenTree::Absent.tokens().is_empty());
    assert!(GreenTree::of(TreeKind::File).tokens().is_empty());
    let lexeme = <Lexeme<Literal> as Node>::new(Token::True.unwrap());
    assert_eq!(lexeme.tokens().len(), 1);
    assert_eq!(binary.or_empty().get().value.tokens().len(), 3);
}

#[test]
fn lexemes_are_walked_as_their_values_say() {
    let some = Lexeme {
        token: Intern::synthetic(Spanned::new(Loc::Synthetic, Token::Let)),
        value: Some(Decl::new(GreenTree::of(TreeKind::DeclAssign))),
        is_none: false,
    };
    assert_eq!(some.run(Census::new()).assignments, 1);
    let none: Lexeme<Option<Decl>> = Lexeme {
        token: Intern::synthetic(Spanned::new(Loc::Synthetic, Token::Let)),
        value: None,
        is_none: true,
    };
    assert_eq!(none.run(Census::new()), Census::new());
}

#[test]
fn the_cache_computes_once() {
    let mut b = Builder::new();
    let mut slots = Slots::new();
    let mut binary = b.binary();
    let calls = Cell::new(0);
    let compute = |tree: &GreenTree| {
        calls.set(calls.get() + 1);
        tree.read_named::<Token>("op")
    };
    let first = binary.memoized(&mut slots, "value", &compute);
    let second = binary.memoized(&mut slots, "value", &compute);
    assert_eq!(calls.get(), 1);
    // The two cursors stand for one slot.
    assert_eq!(first.slot, second.slot);
    assert_eq!(slots.len(), 1);
    assert_eq!(first.get(&slots), Token::Symbol("+".into()));
    // What is put there through the one is read through the other.
    first.replace(&mut slots, Token::Symbol("-".into()));
    assert_eq!(second.get(&slots), Token::Symbol("-".into()));
    let third = binary.memoized(&mut slots, "value", &compute);
    assert_eq!(third.slot, first.slot);
    assert_eq!(third.get(&slots), Token::Symbol("-".into()));
    assert_eq!(calls.get(), 1);
    // What is cached is found under the name from now on, in the same slot.
    let named = binary.named_at::<Token>(&mut slots, "value");
    assert_eq!(named.slot, first.slot);
    assert_eq!(binary.cached_slot("value"), Some(first.slot));
    assert_eq!(binary.cached_slot("op"), None);
    assert_eq!(slots.len(), 1);
    // Nothing is cached on what is no structured node.
    let mut empty = GreenTree::Empty;
    let none = empty.memoized(&mut slots, "value", &compute);
    assert!(matches!(none.value(&slots), Value::Green(GreenTree::Empty)));
    assert_eq!(calls.get(), 1);
    assert_eq!(empty.cached_slot("value"), None);
}

#[test]
fn what_is_attached_through_a_cursor_is_found_again() {
    let mut b = Builder::new();
    let mut slots = Slots::new();
    let mut binary = b.binary();
    let compute = |tree: &GreenTree| tree.read_named::<Expr>("lhs");
    let lhs = binary.memoized(&mut slots, "lhs", compute);
    assert_eq!(lhs.key(&mut slots, "type"), Attachment::Nothing);
    assert_eq!(lhs.insert_key(&mut slots, "type", Attachment::Index(4)), Attachment::Index(4));
    // A later pass asks for the same child and finds what was attached.
    let again = binary.memoized(&mut slots, "lhs", compute);
    assert_eq!(again.slot, lhs.slot);
    assert_eq!(again.key(&mut slots, "type"), Attachment::Index(4));
    assert_eq!(again.clone().key(&mut slots, "type"), Attachment::Index(4));
    assert!(matches!(again.get(&slots), Expr::LiteralExpr(_)));
    // Nothing is stored where no structured node is, or no slot.
    let token = Cursor::<Token>::of(&mut slots, Token::Let);
    assert_eq!(token.insert_key(&mut slots, "type", Attachment::Flag(true)), Attachment::Flag(true));
    assert_eq!(token.key(&mut slots, "type"), Attachment::Nothing);
    let nowhere = Cursor::<Token> { slot: 99, marker: std::marker::PhantomData };
    assert_eq!(nowhere.key(&mut slots, "type"), Attachment::Nothing);
    assert_eq!(nowhere.get(&slots), Token::Error);
    nowhere.replace(&mut slots, Token::Let);
    assert_eq!(nowhere.get(&slots), Token::Error);
}

#[test]
fn a_detached_node_has_caches_of_its_own() {
    let mut b = Builder::new();
    let mut slots = Slots::new();
    let mut node = b.binary();
    let calls = Cell::new(0);
    let compute = |tree: &GreenTree| {
        calls.set(calls.get() + 1);
        tree.read_named::<Token>("op")
    };
    node.memoized(&mut slots, "value", &compute);
    node.insert_key("scope", Attachment::Index(3));
    let mut detached = node.as_new_node();
    assert_eq!(detached.kind(), TreeKind::ExprBinary);
    assert_eq!(detached.cached_slot("value"), None);
    assert_eq!(detached.key("scope"), Attachment::Nothing);
    assert!(detached.has("op"));
    let other = detached.memoized(&mut slots, "value", &compute);
    assert_eq!(calls.get(), 2);
    assert_ne!(Some(other.slot), node.cached_slot("value"));
    detached.memoized(&mut slots, "other", &compute);
    assert_eq!(calls.get(), 3);
    assert_eq!(node.cached_slot("other"), None);
    // A copy, on the other hand, takes the caches along, and its cache
    // points to the same slots.
    let mut copy = node.duplicate();
    let same = copy.memoized(&mut slots, "value", &compute);
    assert_eq!(calls.get(), 3);
    assert_eq!(Some(same.slot), node.cached_slot("value"));
    assert_eq!(copy.key("scope"), Attachment::Index(3));
    // A detached cursor stands for a slot of its own, with empty caches.
    let cursor: Cursor<Expr> = Cursor::new(&mut slots, node);
    cursor.insert_key(&mut slots, "scope", Attachment::Index(5));
    let fresh = cursor.as_new_node(&mut slots);
    assert_ne!(fresh.slot, cursor.slot);
    assert_eq!(fresh.key(&mut slots, "scope"), Attachment::Nothing);
    assert_eq!(cursor.key(&mut slots, "scope"), Attachment::Index(5));
    let tree = slots.tree_at(fresh.slot);
    assert_eq!(tree.cached_slot("value"), None);
    assert!(tree.has("lhs") && tree.has("op") && tree.has("rhs"));
    assert!(matches!(fresh.get(&slots), Expr::Infix(_)));
}

#[test]
fn inserting_puts_a_node_under_a_name() {
    let mut b = Builder::new();
    let mut slots = Slots::new();
    let mut binary = b.binary();
    binary.insert(&mut slots, "lhs", Token::Ident("x".into()));
    assert_eq!(binary.named_at::<Token>(&mut slots, "lhs").get(&slots), Token::Ident("x".into()));
    binary.insert(&mut slots, "lhs", Token::Ident("y".into()));
    assert_eq!(binary.named_at::<Token>(&mut slots, "lhs").get(&slots), Token::Ident("y".into()));
    assert_eq!(slots.len(), 2);
    // The child itself is what it was.
    assert!(matches!(binary.read_named::<Expr>("lhs").get(), Expr::LiteralExpr(_)));
    let mut token = Token::Let.unwrap();
    token.insert(&mut slots, "lhs", Token::Ident("x".into()));
    assert_eq!(slots.len(), 2);
    let missing = token.named_at::<Token>(&mut slots, "lhs");
    assert!(matches!(missing.value(&slots), Value::Green(GreenTree::Empty)));
}

#[test]
fn a_placeholder_lexeme_in_the_cache_stays_one() {
    let mut b = Builder::new();
    let mut slots = Slots::new();
    let mut binary = b.binary();
    let placeholder = <Lexeme<Literal> as Node>::new(GreenTree::Absent);
    assert!(placeholder.is_none);
    binary.insert(&mut slots, "op", placeholder);
    let read = binary.named_terminal::<Literal>(&mut slots, "op").get(&slots);
    assert!(read.is_none);
    assert_eq!(read.value, Literal::Error);
}

#[test]
fn a_named_terminal_holds_the_handle_of_the_child() {
    let mut b = Builder::new();
    let mut slots = Slots::new();
    let flag = b.token(Token::True);
    let slot = flag.slot();
    let data = b.tree(TreeKind::ExprApp, vec![Named::named("flag", flag)]);
    let tree = GreenTree::new(data);
    let lexeme = tree.named_terminal::<Literal>(&mut slots, "flag").get(&slots);
    assert_eq!(lexeme.token.slot, slot);
    assert_eq!(lexeme.value, Literal::True);
    let lexeme = tree.terminal::<Literal>(&mut slots, 0).get(&slots);
    assert_eq!(lexeme.token.slot, slot);
    let lexeme = match tree.read_named_terminal::<Literal>("flag") {
        Value::Ref(lexeme) => lexeme,
        Value::Green(_) => panic!("the token is read as a literal"),
    };
    assert_eq!(lexeme.token.slot, slot);
}

#[test]
fn cursors_onto_one_slot_read_the_same() {
    let mut slots = Slots::new();
    let a = Cursor::of(&mut slots, Token::Let);
    let a2 = a.clone();
    let b = Cursor::of(&mut slots, Token::If);
    assert_ne!(a.slot, b.slot);
    assert_eq!(a2.slot, a.slot);
    a.set(&mut slots, b.clone());
    // Every reader of the slot sees what was set.
    assert_eq!(a.get(&slots), Token::If);
    assert_eq!(a2.get(&slots), Token::If);
    assert_eq!(b.get(&slots), Token::If);
    // It was a copy, not an alias.
    b.replace(&mut slots, Token::Else);
    assert_eq!(a.get(&slots), Token::If);
    assert_eq!(a2.get(&slots), Token::If);
    assert_eq!(b.get(&slots), Token::Else);
    a2.replace_rc(&mut slots, std::rc::Rc::new(Token::Then));
    assert_eq!(*a.as_leaf(&slots), Token::Then);
    assert!(slots.held_at(a.slot));
    // A placeholder is filled in later.
    let hole: Cursor<Token> = Cursor::empty(&mut slots);
    let reader = hole.clone();
    assert!(matches!(reader.value(&slots), Value::Green(GreenTree::Empty)));
    assert!(!slots.held_at(hole.slot));
    assert_eq!(reader.get(&slots), Token::Error);
    assert!(reader.try_get(&slots).is_none());
    hole.set(&mut slots, b);
    assert_eq!(reader.get(&slots), Token::Else);
    assert!(reader.try_get(&slots).is_some());
    assert_eq!(slots.len(), 3);
}

#[test]
fn cursors_hold_what_they_are_given() {
    let mut slots = Slots::new();
    let cursor = Cursor::of(&mut slots, Token::Let);
    assert_eq!(cursor.get(&slots), Token::Let);
    assert!(!cursor.is_none(&slots));
    assert!(!cursor.is_empty(&slots));
    assert_eq!(cursor.location(&slots).span, Loc::Synthetic);
    let absent: Cursor<Token> = Cursor::put(&mut slots, Value::from_option(None));
    assert!(absent.is_none(&slots));
    assert!(absent.try_get(&slots).is_none());
    let lazy = Cursor::<Token>::new(&mut slots, Token::Use.unwrap());
    assert_eq!(lazy.get(&slots), Token::Use);
    assert!(!slots.held_at(lazy.slot));

    let mut b = Builder::new();
    let binary: Cursor<Expr> = Cursor::new(&mut slots, b.binary());
    assert!(binary.is_empty(&slots));
    assert_eq!(binary.location(&slots).span, Loc::new(0, 9));
    let unit: Cursor<Expr> = Cursor::new(&mut slots, GreenTree::of(TreeKind::ExprUnit));
    assert!(!unit.is_empty(&slots));

    // The same, without slots.
    let mut value = Value::of(Token::Let);
    assert_eq!(value.get(), Token::Let);
    assert!(!value.is_none() && !value.is_empty());
    value = Value::from_option(None);
    assert!(value.is_none());
    assert_eq!(Value::from_option(Some(Token::Let)).get(), Token::Let);
    assert_eq!(Value::from_rc(std::rc::Rc::new(Token::Let)).get(), Token::Let);
    assert_eq!(*Value::<Token>::new(Token::Use.unwrap()).as_leaf(), Token::Use);
    assert_eq!(Value::<Token>::empty().get(), Token::Error);
    assert!(is_empty_value(&Value::<Token>::default()));
}

#[test]
fn a_chain_stops_at_the_first_step_that_gives_nothing() {
    let mut b = Builder::new();
    let mut slots = Slots::new();
    let binary = b.binary();
    let steps = Cell::new(0);
    let first: Cursor<Expr> = binary.named_at::<Expr>(&mut slots, "missing");
    let second = first.and_then(&mut slots, |expr| {
        steps.set(steps.get() + 1);
        Value::<Expr>::of(expr.duplicate())
    });
    let last: Cursor<Token> = second.and_then(&mut slots, |expr| {
        steps.set(steps.get() + 1);
        expr.duplicate().unwrap().read_named::<Token>("op")
    });
    assert!(matches!(last.value(&slots), Value::Green(GreenTree::Empty)));
    assert!(!slots.held_at(last.slot));
    assert_eq!(steps.get(), 0);

    let absent: Cursor<Expr> = Cursor::put(&mut slots, Value::from_option(None));
    let next = absent.and_then(&mut slots, |_| {
        steps.set(steps.get() + 1);
        Value::of(Token::Let)
    });
    assert!(matches!(next.value(&slots), Value::Green(GreenTree::Empty)));
    assert_eq!(steps.get(), 0);

    let found = Cursor::<Expr>::new(&mut slots, binary)
        .and_then(&mut slots, |expr| match expr.green() {
            Some(tree) => tree.read_named::<Expr>("lhs"),
            None => Value::empty(),
        })
        .and_then(&mut slots, |lhs| match lhs.green() {
            Some(tree) => tree.read_at::<Token>(0),
            None => Value::empty(),
        });
    assert_eq!(found.get(&slots), Token::Float64("10".into()));

    // The same, without slots.
    let missing: Value<Expr> = GreenTree::Empty.read_named::<Expr>("x");
    let next = missing.and_then(|_| {
        steps.set(steps.get() + 1);
        Value::of(Token::Let)
    });
    assert!(is_empty_value(&next));
    assert_eq!(steps.get(), 0);
}

#[test]
fn sequences_in_slots() {
    let mut b = Builder::new();
    let mut slots = Slots::new();
    let binary = b.binary();
    let tokens = binary.filter::<Token>(&mut slots);
    assert_eq!(tokens.get(&slots), vec![Token::Symbol("+".into())]);
    assert_eq!(tokens.clone().first(&mut slots).get(&slots), Token::Symbol("+".into()));
    assert!(tokens.clone().skip(&mut slots, 1).get(&slots).is_empty());
    assert!(tokens.skip(&mut slots, 5).get(&slots).is_empty());
    let exprs = binary.filter::<Expr>(&mut slots);
    assert_eq!(exprs.get(&slots).len(), 2);
    assert_eq!(exprs.clone().skip(&mut slots, 1).get(&slots).len(), 1);
    let none = binary.filter::<Stmt>(&mut slots).first(&mut slots);
    assert!(none.is_none(&slots));
    assert!(binary.filter_terminal::<Literal>(&mut slots).get(&slots).is_empty());
    assert_eq!(binary.at::<Token>(&mut slots, 1).get(&slots), Token::Symbol("+".into()));
    assert!(binary.at::<Token>(&mut slots, 0).is_none(&slots));
}

#[test]
fn copies_and_conversions() {
    let mut b = Builder::new();
    let mut binary = b.binary();
    binary.insert_key("scope", Attachment::Index(1));
    let mut copy = binary.clone();
    assert_eq!(copy.kind(), TreeKind::ExprBinary);
    assert_eq!(copy.key("scope"), Attachment::Index(1));
    let value: Value<Expr> = binary.into();
    assert!(matches!(value.clone().get(), Expr::Infix(_)));
    let value: Value<Token> = std::rc::Rc::new(Token::Let).into();
    assert_eq!(value.clone().get(), Token::Let);
    let value = Value::<Token>::Green(Token::If.unwrap());
    assert!(matches!(value.clone().green(), GreenTree::Token(_)));
    assert!(matches!(Value::Ref(std::rc::Rc::new(Token::If)).green(), GreenTree::Token(_)));
    let child = b.token(Token::Let);
    assert_eq!(child.clone().slot(), child.slot());
    assert!(child.is_token());
    assert_eq!(asena::leaf::node::rebuilt(Token::Semi), Token::Semi);
    assert!(asena::leaf::node::rebuilt(Some(Expr::Error)).is_none());
}

#[test]
fn lexemes() {
    let token = Intern::synthetic(Spanned::new(Loc::new(1, 2), Token::Int8(7, asena::token::Signed::Signed)));
    let lexeme = <Lexeme<Literal> as Leaf>::terminal(token).unwrap();
    assert_eq!(lexeme.value, Literal::Int8(7, asena::token::Signed::Signed));
    let mapped = lexeme.map(|literal| literal == Literal::True);
    assert!(!mapped.value);
    assert!(!mapped.is_none);
    let mapped = mapped.map_token(|flag, token| (flag, token.span));
    assert_eq!(mapped.value, (false, Loc::new(1, 2)));

    let placeholder = <Lexeme<Literal> as Node>::new(GreenTree::Absent);
    assert!(placeholder.is_none);
    assert_eq!(placeholder.value, Literal::Error);
    let default = Lexeme::<Literal>::default();
    assert!(!default.is_none);
    assert_eq!(default.token.get().value, Token::Error);
    let wrong = <Lexeme<Literal> as Node>::new(Token::Let.unwrap());
    assert_eq!(wrong.token.get().value, Token::Error);
    assert_eq!(wrong.token.slot, SYNTHETIC);
    assert_eq!(wrong.value, Literal::Error);
    let broken = <Lexeme<Literal> as Node>::new(GreenTree::Empty);
    assert_eq!(broken.token.get().value, Token::Error);
    assert_eq!(broken.value, Literal::Error);
    assert!(!broken.is_none);
    assert!(<Lexeme<Literal> as Leaf>::make(GreenTree::Empty).is_none());

    let mut b = Builder::new();
    let literal = match b.literal("2.5") {
        Child::Tree(data) => GreenTree::new(data),
        Child::Token(_) => unreachable!(),
    };
    let lexeme = <Lexeme<Literal> as Node>::new(literal);
    assert_eq!(lexeme.value, Literal::Float64("2.5".into()));
    assert_eq!(lexeme.token.get().span, Loc::new(0, 9));
    let childless = <Lexeme<Literal> as Node>::new(GreenTree::of(TreeKind::ExprLit));
    assert_eq!(childless.token.get().value, Token::Error);
    assert_eq!(childless.token.slot, SYNTHETIC);
}

#[test]
fn a_lexeme_comes_back_as_it_was() {
    let mut b = Builder::new();
    let handle = match b.token(Token::Let) {
        Child::Token(handle) => handle,
        Child::Tree(_) => unreachable!(),
    };
    // A value that was not read from the token, and the mark of a
    // placeholder, both survive.
    for is_none in [false, true] {
        let lexeme = Lexeme { token: handle.share(), value: Literal::Nat(7), is_none };
        let again = <Lexeme<Literal> as Node>::new(lexeme.unwrap());
        assert_eq!(again.token.slot, handle.slot);
        assert_eq!(again.token.get().value, Token::Let);
        assert_eq!(again.value, Literal::Nat(7));
        assert_eq!(again.is_none, is_none);
    }
    for literal in [
        Literal::Error,
        Literal::True,
        Literal::False,
        Literal::String("s".into()),
        Literal::Int8(1, asena::token::Signed::Signed),
        Literal::Int16(2, asena::token::Signed::Unsigned),
        Literal::Int32(3, asena::token::Signed::Signed),
        Literal::Int64(4, asena::token::Signed::Unsigned),
        Literal::Int128(5, asena::token::Signed::Signed),
        Literal::Float32("1.5".into()),
        Literal::Float64("2.5".into()),
    ] {
        let lexeme = Lexeme { token: handle.share(), value: literal.clone(), is_none: false };
        let copy = lexeme.duplicate();
        assert_eq!(copy.value, literal);
        assert_eq!(asena::leaf::node::rebuilt(lexeme).value, literal);
    }
    // A terminal without a stowed value is read from its token.
    let read = <Lexeme<Literal> as Node>::new(Token::True.unwrap());
    assert_eq!(read.value, Literal::True);
    // Optional nodes: nothing comes from the absent marker and from a broken
    // region, and from nothing else.
    assert!(<Option<Token> as Node>::new(GreenTree::Absent).is_none());
    assert!(<Option<Token> as Node>::new(GreenTree::Empty).is_none());
    assert!(<Option<Token> as Node>::new(GreenTree::Vec(vec![])).is_some());
}

#[test]
fn a_cursor_gives_back_the_value_it_was_given() {
    let mut slots = Slots::new();
    // An optional node that holds a broken region stays one that holds
    // something.
    let cursor = Cursor::of(&mut slots, Some(Expr::Error));
    assert!(matches!(cursor.get(&slots), Some(Expr::Error)));
    assert!(matches!(*cursor.as_leaf(&slots), Some(Expr::Error)));
    assert!(matches!(cursor.try_get(&slots).as_deref(), Some(Some(Expr::Error))));
    assert!(matches!(*cursor.location(&slots).value, Some(Expr::Error)));
    assert!(!cursor.is_none(&slots));
    // One that holds nothing stays one that holds nothing.
    let nothing: Cursor<Option<Expr>> = Cursor::of(&mut slots, None);
    assert!(nothing.get(&slots).is_none());
    assert!(nothing.is_none(&slots));
    // The location of a broken region, which no value was put into, is read
    // as an optional node that holds nothing.
    let lazy: Cursor<Option<Expr>> = Cursor::new(&mut slots, GreenTree::Empty);
    assert!(lazy.get(&slots).is_none());
    // What is put into a slot later is given back as well.
    nothing.replace(&mut slots, Some(Expr::Error));
    assert!(matches!(nothing.get(&slots), Some(Expr::Error)));
    lazy.replace_rc(&mut slots, std::rc::Rc::new(Some(Expr::Error)));
    assert!(matches!(lazy.get(&slots), Some(Expr::Error)));
    let put: Cursor<Option<Expr>> = Cursor::put(&mut slots, Value::of(Some(Expr::Error)));
    assert!(matches!(put.get(&slots), Some(Expr::Error)));
    // A sequence comes back member by member.
    let both = Cursor::of(&mut slots, vec![Some(Token::Let), None, Some(Token::Error)]);
    assert_eq!(both.get(&slots), vec![Some(Token::Let), None, Some(Token::Error)]);
    // So does what is inserted under a name.
    let mut b = Builder::new();
    let mut binary = b.binary();
    binary.insert(&mut slots, "guard", Some(Expr::Error));
    let guard = binary.named_at::<Option<Expr>>(&mut slots, "guard");
    assert!(matches!(guard.get(&slots), Some(Expr::Error)));
    // Restoring and building differ on a broken region alone.
    assert!(matches!(<Option<Expr> as Node>::restore(GreenTree::Empty), Some(Expr::Error)));
    assert!(<Option<Expr> as Node>::new(GreenTree::Empty).is_none());
    assert!(<Option<Expr> as Node>::restore(GreenTree::Absent).is_none());
    assert!(matches!(<Expr as Node>::restore(b.binary()), Expr::Infix(_)));
    assert!(matches!(<Expr as Node>::restore(GreenTree::Empty), Expr::Error));
}

#[test]
fn a_terminal_of_another_type_is_read_as_the_default_lexeme() {
    let token = Intern::synthetic(Spanned::new(Loc::new(3, 7), Token::True));
    // A literal can be read from the token, but what the terminal stows is
    // no literal.
    let other = GreenTree::Token(Lexeme {
        token: token.share(),
        value: Some(Stowed { tag: 200, number: 0, mark: false, text: String::new() }),
        is_none: true,
    });
    let lexeme = <Lexeme<Literal> as Node>::new(other.clone());
    assert_eq!(lexeme.token.slot, SYNTHETIC);
    assert_eq!(lexeme.token.get().value, Token::Error);
    assert_eq!(lexeme.token.get().span, Loc::Synthetic);
    assert_eq!(lexeme.value, Literal::Error);
    assert!(!lexeme.is_none);
    assert!(<Lexeme<Literal> as Leaf>::make(other.clone()).is_none());
    let mut slots = Slots::new();
    let cursor = Cursor::<Lexeme<Literal>>::new(&mut slots, other.clone());
    assert!(cursor.try_get(&slots).is_none());
    let located = cursor.location(&slots);
    assert_eq!(located.span, Loc::Synthetic);
    assert_eq!(located.value.value, Literal::Error);
    let found = Value::<Lexeme<Literal>>::Green(other);
    assert!(found.try_get().is_none());
    assert_eq!(found.location().span, Loc::Synthetic);
    // A terminal that stows nothing is read from its token, where it is.
    let bare = GreenTree::Token(Lexeme { token, value: None, is_none: false });
    let lexeme = <Lexeme<Literal> as Node>::new(bare.clone());
    assert_eq!(lexeme.value, Literal::True);
    assert_eq!(lexeme.token.get().span, Loc::new(3, 7));
    let cursor = Cursor::<Lexeme<Literal>>::new(&mut slots, bare);
    assert_eq!(cursor.location(&slots).span, Loc::new(3, 7));
    // One that stows nothing and whose token is no literal gives the
    // default lexeme.
    let lexeme = <Lexeme<Literal> as Node>::new(Token::Let.unwrap());
    assert_eq!(lexeme.token.get().value, Token::Error);
    assert_eq!(lexeme.value, Literal::Error);
}

#[test]
fn a_step_by_step_read_gives_what_a_read_gives() {
    // The terminal of `let` that stows the literal `true`, as a placeholder.
    let token = Intern::synthetic(Spanned::new(Loc::new(0, 3), Token::Let));
    let held = Lexeme { token, value: Literal::True, is_none: true };
    let mut slots = Slots::new();
    let cursor = Cursor::<Lexeme<Literal>>::new(&mut slots, held.duplicate().unwrap());
    let read = cursor.get(&slots);
    let stepped = cursor.try_get(&slots).expect("the terminal stows a literal");
    for lexeme in [&read, &*stepped] {
        assert_eq!(lexeme.value, Literal::True);
        assert_eq!(lexeme.token.get().value, Token::Let);
        assert!(lexeme.is_none);
    }
    assert_eq!(cursor.location(&slots).span, Loc::new(0, 3));
    let found = Value::<Lexeme<Literal>>::Green(held.unwrap());
    let stepped = found.try_get().expect("the terminal stows a literal");
    assert_eq!(stepped.value, found.get().value);
    assert!(stepped.is_none);
    // Every terminal is read as a token, and none as a sequence or as an
    // optional node.
    let token: Cursor<Token> = Cursor::new(&mut slots, Token::Let.unwrap());
    assert_eq!(*token.try_get(&slots).expect("a terminal"), Token::Let);
    let sequence: Cursor<Vec<Token>> = Cursor::new(&mut slots, Token::Let.unwrap());
    assert!(sequence.try_get(&slots).is_none());
    assert!(sequence.get(&slots).is_empty());
    let optional: Cursor<Option<Token>> = Cursor::new(&mut slots, Token::Let.unwrap());
    assert!(optional.try_get(&slots).is_none());
    assert!(Token::Let.unwrap().as_node::<Vec<Token>>().is_empty());
}

#[test]
fn memoizing_through_a_cursor_reaches_the_slot() {
    let mut b = Builder::new();
    let mut slots = Slots::new();
    let node: Cursor<Expr> = Cursor::new(&mut slots, b.binary());
    let other = node.clone();
    let calls = Cell::new(0);
    let compute = |tree: &GreenTree| {
        calls.set(calls.get() + 1);
        tree.read_named::<Token>("op")
    };
    let first = node.memoized(&mut slots, "value", &compute);
    let second = other.memoized(&mut slots, "value", &compute);
    assert_eq!(calls.get(), 1);
    assert_eq!(first.slot, second.slot);
    assert_eq!(slots.len(), 2);
    assert_eq!(second.get(&slots), Token::Symbol("+".into()));
    // The node in the slot holds the cached slot, and so does every node
    // that is read from the slot from now on.
    assert_eq!(slots.tree_at(node.slot).cached_slot("value"), Some(first.slot));
    let read = match node.get(&slots) {
        Expr::Infix(infix) => infix.0,
        _ => panic!("the slot holds a binary expression"),
    };
    assert_eq!(read.named_at::<Token>(&mut slots, "value").slot, first.slot);
    assert_eq!(slots.len(), 2);
    // A detached node starts with caches of its own.
    let detached = node.as_new_node(&mut slots);
    assert_eq!(slots.tree_at(detached.slot).cached_slot("value"), None);
    let third = detached.memoized(&mut slots, "value", &compute);
    assert_ne!(third.slot, first.slot);
    assert_eq!(calls.get(), 2);
    assert_eq!(slots.tree_at(node.slot).cached_slot("value"), Some(first.slot));
    // Where the slot holds no structured node, nothing is cached.
    let token: Cursor<Token> = Cursor::new(&mut slots, Token::Let.unwrap());
    let none = token.memoized(&mut slots, "value", &compute);
    assert!(matches!(none.value(&slots), Value::Green(GreenTree::Empty)));
    assert_eq!(calls.get(), 2);
    let nowhere: Cursor<Token> = Cursor { slot: 999, marker: std::marker::PhantomData };
    let none = nowhere.memoized(&mut slots, "value", &compute);
    assert!(matches!(none.value(&slots), Value::Green(GreenTree::Empty)));
    assert_eq!(calls.get(), 2);
}

#[test]
fn a_typed_value_read_at_another_type_gives_the_empty_node() {
    let mut slots = Slots::new();
    let token = Cursor::of(&mut slots, Token::Let);
    let read: Cursor<Expr> = Cursor { slot: token.slot, marker: std::marker::PhantomData };
    assert!(matches!(read.get(&slots), Expr::Error));
    assert_eq!(read.location(&slots).span, Loc::Synthetic);
    let read: Cursor<Lexeme<Literal>> =
        Cursor { slot: token.slot, marker: std::marker::PhantomData };
    assert_eq!(read.get(&slots).value, Literal::Error);
    // The same through the named-child cache.
    let mut b = Builder::new();
    let mut binary = b.binary();
    binary.insert(&mut slots, "op", Token::Let);
    let cached = binary.named_at::<Expr>(&mut slots, "op");
    assert!(matches!(cached.get(&slots), Expr::Error));
    assert_eq!(binary.named_at::<Token>(&mut slots, "op").get(&slots), Token::Let);
}

#[test]
fn a_view_over_a_tree_of_another_kind_stands_for_a_broken_region() {
    let mut b = Builder::new();
    assert!(matches!(Expr::Group(Group(GreenTree::Absent)).unwrap(), GreenTree::Empty));
    assert!(matches!(Expr::Group(Group(Token::Let.unwrap())).unwrap(), GreenTree::Empty));
    assert!(matches!(
        asena::leaf::node::rebuilt(Expr::Group(Group(Token::Let.unwrap()))),
        Expr::Error
    ));
    // Over a tree of a kind of the view, a view stands for the tree.
    let binary = Expr::new(b.binary());
    assert_eq!(binary.unwrap().kind(), TreeKind::ExprBinary);
    assert!(matches!(asena::leaf::node::rebuilt(Expr::new(b.binary())), Expr::Infix(_)));
}

#[test]
fn a_detached_typed_value_stays_one() {
    let mut slots = Slots::new();
    let held = Cursor::of(&mut slots, Some(Expr::Error));
    let detached = held.as_new_node(&mut slots);
    assert_ne!(detached.slot, held.slot);
    assert!(slots.held_at(detached.slot));
    assert!(matches!(detached.get(&slots), Some(Expr::Error)));
    let lazy: Cursor<Option<Expr>> = Cursor::new(&mut slots, GreenTree::Empty);
    let detached = lazy.as_new_node(&mut slots);
    assert!(!slots.held_at(detached.slot));
    assert!(detached.get(&slots).is_none());
}
