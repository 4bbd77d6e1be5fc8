//! Tree fragments: what the parser builds and the interner shares.

use vstd::prelude::*;
use crate::leaf::interner::{Fragment, Intern, SYNTHETIC};
use crate::span::Spanned;
use crate::text::str_eq;
use crate::token::{Token, TokenKind, TokenView};

verus! {

/// The name that a child is declared under.
pub type LeafKey = &'static str;

/// The kinds of syntactic construct. The vocabulary is the grammar's; the tree
/// substrate only compares kinds.
#[derive(Clone, Copy, Debug, PartialEq, Eq, Hash, Structural)]
pub enum TreeKind {
    /// The kind of everything that is not a construct.
    Error,
    File,
    ListTree,
    ExprGroup,
    ExprBinary,
    ExprApp,
    ExprDsl,
    ExprArray,
    ExprLam,
    ExprLet,
    ExprIf,
    ExprMatch,
    ExprAnn,
    ExprQual,
    ExprPi,
    ExprSigma,
    ExprHelp,
    ExprLocal,
    ExprLit,
    ExprSelf,
    ExprUnit,
    PatWildcard,
    PatLocal,
    PatLit,
    StmtAsk,
    StmtLet,
    StmtReturn,
    StmtExpr,
    BodyValue,
    BodyDo,
    DeclSignature,
    DeclAssign,
    BranchExpr,
    BranchBlock,
    MatchCase,
}

impl Default for TreeKind {
    fn default() -> (kind: TreeKind)
        ensures
            kind == TreeKind::Error,
    {
        TreeKind::Error
    }
}

/// A value with the name it is declared under, if it has one.
#[derive(Debug)]
pub struct Named<T> {
    pub name: Option<LeafKey>,
    pub value: T,
}

/// A child of a construct: another construct or a token, behind a handle.
#[derive(Debug)]
pub enum Child {
    Tree(Intern<Spanned<Tree>>),
    Token(Intern<Spanned<Token>>),
}

/// A construct: its kind and its children in source order.
#[derive(Debug)]
pub struct Tree {
    pub kind: TreeKind,
    pub children: Vec<Named<Child>>,
}

/// The shape of a handle: its slot where an interner gave it out, and the
/// shape of what is behind it where none did.
pub enum HandleShape {
    Slot(usize),
    Token(TokenView),
    Tree(TreeShape),
}

/// The shape of a child: its name, whether it is a token, and the shape of its
/// handle. Children are compared by handle, not by what is behind it, as far
/// as their handles were given out by an interner.
pub struct ChildShape {
    pub name: Option<Seq<char>>,
    pub token: bool,
    pub handle: HandleShape,
}

/// The shape of a construct: its kind and the shapes of its children.
pub struct TreeShape {
    pub kind: TreeKind,
    pub children: Seq<ChildShape>,
}

/// The characters of an optional name.
pub open spec fn name_view(name: Option<LeafKey>) -> Option<Seq<char>> {
    match name {
        Some(name) => Some(name@),
        None => None,
    }
}

/// Whether the two optional names are the same.
pub fn same_name(a: &Option<LeafKey>, b: &Option<LeafKey>) -> (same: bool)
    ensures
        same == (name_view(*a) == name_view(*b)),
{
    match (a, b) {
        (Some(a), Some(b)) => str_eq(a, b),
        (None, None) => true,
        _ => false,
    }
}

impl Child {
    /// Whether this child is a token.
    pub open spec fn spec_is_token(&self) -> bool {
        *self is Token
    }

    #[verifier::when_used_as_spec(spec_is_token)]
    pub fn is_token(&self) -> (token: bool)
        ensures
            token == self.spec_is_token(),
    {
        match self {
            Child::Tree(_) => false,
            Child::Token(_) => true,
        }
    }

    /// The slot of the handle of this child.
    pub open spec fn spec_slot(&self) -> usize {
        match *self {
            Child::Tree(tree) => tree.slot,
            Child::Token(token) => token.slot,
        }
    }

    #[verifier::when_used_as_spec(spec_slot)]
    pub fn slot(&self) -> (slot: usize)
        ensures
            slot == self.spec_slot(),
    {
        match self {
            Child::Tree(tree) => tree.slot,
            Child::Token(token) => token.slot,
        }
    }

    /// Another handle to the same child.
    pub fn share(&self) -> (child: Child)
        ensures
            child == *self,
    {
        match self {
            Child::Tree(tree) => Child::Tree(tree.share()),
            Child::Token(token) => Child::Token(token.share()),
        }
    }
}

impl Clone for Child {
    /// Another handle to the same child.
    fn clone(&self) -> (child: Child)
        ensures
            child == *self,
    {
        self.share()
    }
}

impl Named<Child> {
    /// A child without a name.
    pub fn anonymous(value: Child) -> (child: Self)
        ensures
            child.name is None,
            child.value == value,
    {
        Named { name: None, value }
    }

    /// A child declared under `name`.
    pub fn named(name: LeafKey, value: Child) -> (child: Self)
        ensures
            child.name == Some(name),
            child.value == value,
    {
        Named { name: Some(name), value }
    }

    /// The shape of this child.
    pub open spec fn shape(&self) -> ChildShape {
        child_shape(*self)
    }

    /// Whether the two children have the same shape.
    pub fn same_shape(&self, other: &Self) -> (same: bool)
        ensures
            same == (self.shape() == other.shape()),
    {
        same_child(self, other)
    }
}

/// The shape of a child.
pub open spec fn child_shape(child: Named<Child>) -> ChildShape
    decreases child,
{
    ChildShape {
        name: name_view(child.name),
        token: child.value is Token,
        handle: match child.value {
            Child::Tree(handle) => if handle.slot == SYNTHETIC {
                HandleShape::Tree(tree_shape(handle.value.value))
            } else {
                HandleShape::Slot(handle.slot)
            },
            Child::Token(handle) => if handle.slot == SYNTHETIC {
                HandleShape::Token(handle.value.value@)
            } else {
                HandleShape::Slot(handle.slot)
            },
        },
    }
}

/// The shape of a construct: its kind and the shapes of its children, in
/// order.
pub open spec fn tree_shape(tree: Tree) -> TreeShape
    decreases tree,
{
    TreeShape {
        kind: tree.kind,
        children: Seq::new(
            tree.children@.len(),
            |i: int|
                if 0 <= i < tree.children@.len() {
                    child_shape(tree.children@[i])
                } else {
                    ChildShape { name: None, token: false, handle: HandleShape::Slot(0) }
                },
        ),
    }
}

/// Whether the two children have the same shape.
fn same_child(a: &Named<Child>, b: &Named<Child>) -> (same: bool)
    ensures
        same == (child_shape(*a) == child_shape(*b)),
    decreases a,
{
    if !same_name(&a.name, &b.name) {
        return false;
    }
    match (&a.value, &b.value) {
        (Child::Tree(x), Child::Tree(y)) => {
            if x.slot != y.slot {
                false
            } else if x.slot != SYNTHETIC {
                true
            } else {
                proof {
                    let ghost this = *a;
                    assert(decreases_to!(this => this.value->Tree_0.value.value));
                }
                same_tree(&x.value.value, &y.value.value)
            }
        },
        (Child::Token(x), Child::Token(y)) => {
            if x.slot != y.slot {
                false
            } else if x.slot != SYNTHETIC {
                true
            } else {
                x.value.value.same(&y.value.value)
            }
        },
        _ => false,
    }
}

/// Whether the two constructs have the same shape.
fn same_tree(a: &Tree, b: &Tree) -> (same: bool)
    ensures
        same == (tree_shape(*a) == tree_shape(*b)),
    decreases a,
{
    if a.kind != b.kind || a.children.len() != b.children.len() {
        proof {
            assert(tree_shape(*a).children.len() == a.children@.len());
            assert(tree_shape(*b).children.len() == b.children@.len());
        }
        return false;
    }
    let mut i: usize = 0;
    while i < a.children.len()
        invariant
            0 <= i <= a.children@.len(),
            a.children@.len() == b.children@.len(),
            forall|k: int|
                0 <= k < i ==> child_shape(#[trigger] a.children@[k]) == child_shape(b.children@[k]),
        decreases a.children@.len() - i,
    {
        proof {
            let ghost this = *a;
            assert(decreases_to!(this => this.children@[i as int]));
        }
        if !same_child(&a.children[i], &b.children[i]) {
            proof {
                assert(tree_shape(*a).children[i as int] != tree_shape(*b).children[i as int]);
            }
            return false;
        }
        i += 1;
    }
    proof {
        assert(tree_shape(*a).children =~= tree_shape(*b).children);
    }
    true
}

impl Fragment for Tree {
    type Shape = TreeShape;

    open spec fn shape(&self) -> TreeShape {
        tree_shape(*self)
    }

    fn same_shape(&self, other: &Self) -> (same: bool) {
        same_tree(self, other)
    }
}

/// The shape of a token is the token as mathematical data.
impl Fragment for Token {
    type Shape = TokenView;

    open spec fn shape(&self) -> TokenView {
        self@
    }

    fn same_shape(&self, other: &Self) -> (same: bool) {
        self.same(other)
    }
}

/// The handles of the tokens of `kind` among `children`, in order.
pub open spec fn tokens_of_kind(children: Seq<Named<Child>>, kind: TokenKind) -> Seq<
    Intern<Spanned<Token>>,
>
    decreases children.len(),
{
    if children.len() == 0 {
        Seq::empty()
    } else {
        let rest = tokens_of_kind(children.drop_last(), kind);
        match children.last().value {
            Child::Token(token) => if token.value.value@.kind == kind {
                rest.push(token)
            } else {
                rest
            },
            Child::Tree(_) => rest,
        }
    }
}

/// The greatest height among the first `n` children of `tree`, where a token
/// has height zero.
pub open spec fn height_upto(tree: Tree, n: nat) -> nat
    decreases tree, n,
{
    if n == 0 || n > tree.children@.len() {
        0
    } else {
        let rest = height_upto(tree, (n - 1) as nat);
        match tree.children@[n - 1].value {
            Child::Tree(data) => {
                let child = height(data.value.value);
                if child > rest {
                    child
                } else {
                    rest
                }
            },
            Child::Token(_) => rest,
        }
    }
}

/// The height of a construct: one more than the greatest height among its
/// children.
pub open spec fn height(tree: Tree) -> nat
    decreases tree, tree.children@.len() + 1,
{
    1 + height_upto(tree, tree.children@.len())
}

/// A construct is higher than each of its children.
pub proof fn lemma_child_is_lower(tree: Tree, i: int)
    requires
        0 <= i < tree.children@.len(),
        tree.children@[i].value is Tree,
    ensures
        height(tree.children@[i].value->Tree_0.value.value) < height(tree),
{
    lemma_height_upto(tree, tree.children@.len(), i);
}

/// The greatest height among the first `n` children is no less than the
/// height of each of them.
pub proof fn lemma_height_upto(tree: Tree, n: nat, i: int)
    requires
        0 <= i < n <= tree.children@.len(),
        tree.children@[i].value is Tree,
    ensures
        height(tree.children@[i].value->Tree_0.value.value) <= height_upto(tree, n),
    decreases n,
{
    if i < n - 1 {
        lemma_height_upto(tree, (n - 1) as nat, i);
    }
}

/// The handles of the tokens under the first `n` children of `tree`, in source
/// order: a child that is a token gives its handle, a child that is a
/// construct the tokens under it.
pub open spec fn tokens_upto(tree: Tree, n: nat) -> Seq<Intern<Spanned<Token>>>
    decreases tree, n,
{
    if n == 0 || n > tree.children@.len() {
        Seq::empty()
    } else {
        let rest = tokens_upto(tree, (n - 1) as nat);
        match tree.children@[n - 1].value {
            Child::Tree(data) => rest + tokens_under(data.value.value),
            Child::Token(token) => rest.push(token),
        }
    }
}

/// The handles of all tokens under a construct, in source order.
pub open spec fn tokens_under(tree: Tree) -> Seq<Intern<Spanned<Token>>>
    decreases tree, tree.children@.len() + 1,
{
    tokens_upto(tree, tree.children@.len())
}

/// Something that tokens stand under.
pub trait HasTokens {
    /// The handles of the tokens under this, in source order.
    spec fn spec_tokens(&self) -> Seq<Intern<Spanned<Token>>>;

    /// The handles of the tokens under this, in source order.
    fn tokens(&self) -> (tokens: Vec<Intern<Spanned<Token>>>)
        ensures
            tokens@ == self.spec_tokens(),
    ;
}

/// Appends handles to the handles in `from` to `to`.
pub fn extend_tokens(to: &mut Vec<Intern<Spanned<Token>>>, from: &Vec<Intern<Spanned<Token>>>)
    ensures
        final(to)@ == old(to)@ + from@,
{
    let mut i: usize = 0;
    while i < from.len()
        invariant
            0 <= i <= from@.len(),
            to@ == old(to)@ + from@.take(i as int),
        decreases from@.len() - i,
    {
        to.push(from[i].share());
        proof {
            assert(from@.take(i + 1) == from@.take(i as int).push(from@[i as int]));
        }
        i += 1;
    }
    proof {
        assert(from@.take(i as int) == from@);
    }
}

impl Tree {
    /// The handles of all tokens under this construct, in source order.
    pub fn all_tokens(&self) -> (tokens: Vec<Intern<Spanned<Token>>>)
        ensures
            tokens@ == tokens_under(*self),
        decreases self,
    {
        let mut tokens: Vec<Intern<Spanned<Token>>> = Vec::new();
        let mut i: usize = 0;
        while i < self.children.len()
            invariant
                0 <= i <= self.children@.len(),
                tokens@ == tokens_upto(*self, i as nat),
            decreases self.children@.len() - i,
        {
            match &self.children[i].value {
                Child::Tree(data) => {
                    proof {
                        let ghost this = *self;
                        assert(decreases_to!(this => this.children@[i as int].value->Tree_0.value.value));
                    }
                    let under = data.value.value.all_tokens();
                    extend_tokens(&mut tokens, &under);
                },
                Child::Token(token) => {
                    tokens.push(token.share());
                },
            }
            i += 1;
        }
        tokens
    }
}

impl HasTokens for Tree {
    open spec fn spec_tokens(&self) -> Seq<Intern<Spanned<Token>>> {
        tokens_under(*self)
    }

    fn tokens(&self) -> (tokens: Vec<Intern<Spanned<Token>>>) {
        self.all_tokens()
    }
}

impl Tree {
    /// A construct of `kind` without children.
    pub fn new(kind: TreeKind) -> (tree: Tree)
        ensures
            tree.kind == kind,
            tree.children@.len() == 0,
    {
        Tree { kind, children: Vec::new() }
    }

    /// Whether the child at position `nth` is a token of `kind`.
    pub open spec fn spec_matches(&self, nth: usize, kind: TokenKind) -> bool {
        nth < self.children@.len() && (self.children@[nth as int].value matches Child::Token(token)
            && token.value.value@.kind == kind)
    }

    #[verifier::when_used_as_spec(spec_matches)]
    pub fn matches(&self, nth: usize, kind: TokenKind) -> (matches: bool)
        ensures
            matches == self.spec_matches(nth, kind),
    {
        if nth < self.children.len() {
            match &self.children[nth].value {
                Child::Token(token) => token.value.value.kind() == kind,
                Child::Tree(_) => false,
            }
        } else {
            false
        }
    }

    /// Whether this construct has exactly one child.
    pub open spec fn spec_is_single(&self) -> bool {
        self.children@.len() == 1
    }

    #[verifier::when_used_as_spec(spec_is_single)]
    pub fn is_single(&self) -> (single: bool)
        ensures
            single == self.spec_is_single(),
    {
        self.children.len() == 1
    }

    /// The handles of the tokens of `kind` among the children, in order.
    pub fn token(&self, kind: TokenKind) -> (tokens: Vec<Intern<Spanned<Token>>>)
        ensures
            tokens@ == tokens_of_kind(self.children@, kind),
    {
        let mut tokens: Vec<Intern<Spanned<Token>>> = Vec::new();
        let mut i: usize = 0;
        while i < self.children.len()
            invariant
                0 <= i <= self.children@.len(),
                tokens@ == tokens_of_kind(self.children@.take(i as int), kind),
            decreases self.children@.len() - i,
        {
            proof {
                assert(self.children@.take(i + 1).drop_last() == self.children@.take(i as int));
            }
            match &self.children[i].value {
                Child::Token(token) => {
                    if token.value.value.kind() == kind {
                        tokens.push(token.share());
                    }
                },
                Child::Tree(_) => {},
            }
            i += 1;
        }
        proof {
            assert(self.children@.take(i as int) == self.children@);
        }
        tokens
    }
}

} // verus!
