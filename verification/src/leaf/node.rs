//! The conversion contract between typed nodes and the untyped tree value.

use vstd::prelude::*;
use crate::leaf::green::{GreenTree, Stowed, StowedView, TreeValue};
use crate::leaf::interner::{Intern, SYNTHETIC};
use crate::leaf::tree::{Child, Named};
use crate::span::{Loc, Spanned};
use crate::token::{Token, TokenView};

verus! {

/// The tree value of a token that is there.
pub open spec fn token_value(token: Intern<Spanned<Token>>) -> TreeValue {
    TreeValue::Token {
        token: token.value.value@,
        span: token.value.span,
        is_none: false,
        held: None,
    }
}

/// The tree value of the structured node of an interned construct.
pub open spec fn leaf_value(data: Intern<Spanned<crate::leaf::tree::Tree>>) -> TreeValue {
    TreeValue::Leaf { data, synthetic: false }
}

/// A typed node: a value of the language that stands for a tree value and can
/// be built from any tree value.
pub trait Node: Sized {
    /// The tree value that this node stands for: what `unwrap` gives.
    spec fn tree(&self) -> TreeValue;

    /// The tree value that the node built from `tree` stands for.
    spec fn built(tree: TreeValue) -> TreeValue;

    /// The node of this type over `tree`. Never fails: on a tree value of the
    /// wrong shape it gives the empty node of this type.
    fn new(tree: GreenTree) -> (node: Self)
        ensures
            node.tree() == Self::built(tree@),
    ;

    /// The tree value that this node stands for.
    fn unwrap(self) -> (tree: GreenTree)
        ensures
            tree@ == self.tree(),
    ;

    /// Another node that stands for the same tree value.
    fn duplicate(&self) -> (copy: Self)
        ensures
            copy.tree() == self.tree(),
    ;

    /// The tree value that the node restored from `tree` stands for.
    spec fn restored(tree: TreeValue) -> TreeValue;

    /// The node that was taken for the tree value `tree`. Where `new` reads a
    /// tree value as a node of the type, whatever it is, `restore` gives a
    /// node back that `unwrap` was called on: a slot keeps a typed value as
    /// the tree value it stands for, and a read restores it.
    fn restore(tree: GreenTree) -> (node: Self)
        ensures
            node.tree() == Self::restored(tree@),
    ;

    /// What a node is taken for, it is restored from: restoring from the tree
    /// value of a node gives a node of the same tree value.
    proof fn lemma_restored(&self)
        ensures
            Self::restored(self.tree()) == self.tree(),
    ;
}

/// A typed node that tells which tree values and which tokens are of its type.
pub trait Leaf: Node {
    /// Whether `tree` is a tree value of this type.
    spec fn makes(tree: TreeValue) -> bool;

    /// Whether `token` is a token of this type.
    spec fn reads(token: TokenView) -> bool;

    /// The node of this type over `tree`, if `tree` is of this type.
    fn make(tree: GreenTree) -> (node: Option<Self>)
        ensures
            node is Some <==> Self::makes(tree@),
            node matches Some(node) ==> node.tree() == Self::built(tree@),
    ;

    /// The node of this type over `token`, if `token` is of this type.
    fn terminal(token: Intern<Spanned<Token>>) -> (node: Option<Self>)
        ensures
            node is Some <==> Self::reads(token.value.value@),
            node matches Some(node) ==> node.tree() == Self::built(token_value(token)),
    ;
}

/// A value of the language that is read from a single token.
/// So that a lexeme keeps its value when it is taken for a tree value and built
/// again, the value can be stowed in untyped form and restored from it.
pub trait Terminal: Sized {
    /// This value in untyped form.
    spec fn stowed(&self) -> StowedView;

    /// Whether a value of this type can be read from `token`.
    spec fn reads(token: TokenView) -> bool;

    /// The value that is read from `token`, in untyped form.
    spec fn read(token: TokenView) -> StowedView;

    /// Whether `stowed` is the untyped form of a value of this type.
    spec fn restores(stowed: StowedView) -> bool;

    /// The value that stands where none is read, in untyped form.
    spec fn blank() -> StowedView;

    /// The value read from `token`, if one can be read.
    fn terminal(token: Intern<Spanned<Token>>) -> (value: Option<Self>)
        ensures
            value is Some <==> Self::reads(token.value.value@),
            value matches Some(value) ==> value.stowed() == Self::read(token.value.value@),
    ;

    /// This value in untyped form.
    fn stow(&self) -> (stowed: Stowed)
        ensures
            stowed@ == self.stowed(),
    ;

    /// The value whose untyped form `stowed` is, if it is one of this type.
    fn restore(stowed: &Stowed) -> (value: Option<Self>)
        ensures
            value is Some <==> Self::restores(stowed@),
            value matches Some(value) ==> value.stowed() == stowed@,
    ;

    /// The value that stands where none is read.
    fn missing() -> (value: Self)
        ensures
            value.stowed() == Self::blank(),
    ;

    /// What was stowed can be restored.
    proof fn lemma_stowed_restores(&self)
        ensures
            Self::restores(self.stowed()),
    ;
}

/// Something that was read from somewhere.
pub trait Located {
    /// Where it was read from.
    spec fn spec_location(&self) -> Loc;

    /// Where it was read from.
    fn location(&self) -> (loc: Loc)
        ensures
            loc == self.spec_location(),
    ;
}

/// Whether building a node from what `node` unwraps to gives a node of the
/// same tree value.
pub open spec fn round_trips<T: Node>(node: T) -> bool {
    T::built(node.tree()) == node.tree()
}

/// The node built from what `node` unwraps to. It stands for the tree value
/// that the type builds from the tree value of `node`: for the same tree
/// value, where `node` round-trips.
pub fn rebuilt<T: Node>(node: T) -> (again: T)
    ensures
        again.tree() == T::built(node.tree()),
        round_trips(node) ==> again.tree() == node.tree(),
{
    T::new(node.unwrap())
}

impl Located for GreenTree {
    open spec fn spec_location(&self) -> Loc {
        GreenTree::spec_location(self)
    }

    fn location(&self) -> (loc: Loc) {
        GreenTree::location(self)
    }
}

/// The tree value that a node of type `T` built from the child `child` stands
/// for: built from the structured node of the child where it is a construct,
/// from its token where it is a token of the type, and the empty node of the
/// type where it is a token of another type.
pub open spec fn built_from_child<T: Leaf>(child: Child) -> TreeValue {
    match child {
        Child::Tree(data) => T::built(leaf_value(data)),
        Child::Token(token) => if T::reads(token.value.value@) {
            T::built(token_value(token))
        } else {
            T::built(TreeValue::Empty)
        },
    }
}

/// The node of type `T` over the child `child`.
pub fn node_of_child<T: Leaf>(child: &Child) -> (node: T)
    ensures
        node.tree() == built_from_child::<T>(*child),
{
    match child {
        Child::Tree(data) => T::new(GreenTree::new(data.share())),
        Child::Token(token) => match T::terminal(token.share()) {
            Some(node) => node,
            None => T::new(GreenTree::Empty),
        },
    }
}

/// The tree values of the nodes in `nodes`, in order.
pub open spec fn trees_of<T: Node>(nodes: Seq<T>) -> Seq<TreeValue> {
    nodes.map_values(|node: T| node.tree())
}

/// A sequence of typed nodes stands for the group of their tree values. Built
/// from a group, it holds the node of each member; built from a structured
/// node, the node of each child; built from anything else, nothing.
impl<T: Leaf> Node for Vec<T> {
    open spec fn tree(&self) -> TreeValue {
        TreeValue::Vec(trees_of(self@))
    }

    open spec fn built(tree: TreeValue) -> TreeValue {
        match tree {
            TreeValue::Vec(items) => TreeValue::Vec(items.map_values(|item: TreeValue| T::built(item))),
            TreeValue::Leaf { data, .. } => TreeValue::Vec(
                data.value.value.children@.map_values(
                    |child: Named<Child>| built_from_child::<T>(child.value),
                ),
            ),
            _ => TreeValue::Vec(Seq::empty()),
        }
    }

    fn new(tree: GreenTree) -> (nodes: Self) {
        let mut nodes: Vec<T> = Vec::new();
        match tree {
            GreenTree::Vec(items) => {
                let ghost all = items@;
                for item in it: items
                    invariant
                        it.seq() == all,
                        nodes@.len() == it.index(),
                        forall|k: int|
                            0 <= k < nodes@.len() ==> (#[trigger] nodes@[k]).tree() == T::built(
                                all[k].value(),
                            ),
                {
                    nodes.push(T::new(item));
                }
                proof {
                    assert(trees_of(nodes@) =~= tree@->Vec_0.map_values(
                        |item: TreeValue| T::built(item),
                    ));
                }
            },
            GreenTree::Leaf(leaf) => {
                let children = &leaf.data.value.value.children;
                let mut i: usize = 0;
                while i < children.len()
                    invariant
                        0 <= i <= children@.len(),
                        nodes@.len() == i,
                        forall|k: int|
                            0 <= k < i ==> (#[trigger] nodes@[k]).tree() == built_from_child::<T>(
                                children@[k].value,
                            ),
                    decreases children@.len() - i,
                {
                    nodes.push(node_of_child::<T>(&children[i].value));
                    i += 1;
                }
                proof {
                    assert(trees_of(nodes@) =~= children@.map_values(
                        |child: Named<Child>| built_from_child::<T>(child.value),
                    ));
                }
            },
            _ => {
                proof {
                    assert(trees_of(nodes@) =~= Seq::<TreeValue>::empty());
                }
            },
        }
        nodes
    }

    fn unwrap(self) -> (tree: GreenTree) {
        let mut trees: Vec<GreenTree> = Vec::new();
        let ghost all = self@;
        for node in it: self
            invariant
                it.seq() == all,
                trees@.len() == it.index(),
                forall|k: int| 0 <= k < trees@.len() ==> (#[trigger] trees@[k]).value() == all[k].tree(),
        {
            trees.push(node.unwrap());
        }
        let tree = GreenTree::Vec(trees);
        proof {
            assert(tree@->Vec_0 =~= trees_of(all));
        }
        tree
    }

    fn duplicate(&self) -> (copy: Self) {
        let mut copy: Vec<T> = Vec::new();
        let mut i: usize = 0;
        while i < self.len()
            invariant
                0 <= i <= self@.len(),
                copy@.len() == i,
                forall|k: int| 0 <= k < i ==> (#[trigger] copy@[k]).tree() == self@[k].tree(),
            decreases self@.len() - i,
        {
            copy.push(self[i].duplicate());
            i += 1;
        }
        proof {
            assert(trees_of(copy@) =~= trees_of(self@));
        }
        copy
    }

    open spec fn restored(tree: TreeValue) -> TreeValue {
        match tree {
            TreeValue::Vec(items) => TreeValue::Vec(
                items.map_values(|item: TreeValue| T::restored(item)),
            ),
            _ => Self::built(tree),
        }
    }

    fn restore(tree: GreenTree) -> (nodes: Self) {
        match tree {
            GreenTree::Vec(items) => {
                let mut nodes: Vec<T> = Vec::new();
                let ghost all = items@;
                for item in it: items
                    invariant
                        it.seq() == all,
                        nodes@.len() == it.index(),
                        forall|k: int|
                            0 <= k < nodes@.len() ==> (#[trigger] nodes@[k]).tree() == T::restored(
                                all[k].value(),
                            ),
                {
                    nodes.push(T::restore(item));
                }
                proof {
                    assert(trees_of(nodes@) =~= tree@->Vec_0.map_values(
                        |item: TreeValue| T::restored(item),
                    ));
                }
                nodes
            },
            _ => <Vec<T> as Node>::new(tree),
        }
    }

    proof fn lemma_restored(&self) {
        let trees = trees_of(self@);
        assert(trees.map_values(|item: TreeValue| T::restored(item)) =~= trees) by {
            assert forall|i: int| 0 <= i < trees.len() implies T::restored(#[trigger] trees[i])
                == trees[i] by {
                self@[i].lemma_restored();
            }
        }
    }
}

/// A sequence of nodes round-trips where each of its nodes does.
pub proof fn lemma_vec_round_trips<T: Leaf>(nodes: Vec<T>)
    requires
        forall|i: int| 0 <= i < nodes@.len() ==> round_trips(#[trigger] nodes@[i]),
    ensures
        round_trips(nodes),
{
    let trees = trees_of(nodes@);
    assert(trees.map_values(|item: TreeValue| T::built(item)) =~= trees) by {
        assert forall|i: int| 0 <= i < trees.len() implies T::built(#[trigger] trees[i])
            == trees[i] by {
            assert(round_trips(nodes@[i]));
        }
    }
}

/// Every tree value but a terminal can be read as a sequence; no token can.
impl<T: Leaf> Leaf for Vec<T> {
    open spec fn makes(tree: TreeValue) -> bool {
        !(tree is Token)
    }

    open spec fn reads(token: TokenView) -> bool {
        false
    }

    fn make(tree: GreenTree) -> (node: Option<Self>) {
        match tree {
            GreenTree::Token(_) => None,
            _ => Some(<Vec<T> as Node>::new(tree)),
        }
    }

    fn terminal(token: Intern<Spanned<Token>>) -> (node: Option<Self>) {
        None
    }
}

/// An optional typed node stands for the tree value of the node it holds, and
/// for the absent marker where it holds none. Built from the absent marker or
/// from a broken region, it holds nothing.
impl<T: Node> Node for Option<T> {
    open spec fn tree(&self) -> TreeValue {
        match self {
            Some(node) => node.tree(),
            None => TreeValue::Absent,
        }
    }

    open spec fn built(tree: TreeValue) -> TreeValue {
        match tree {
            TreeValue::Absent => TreeValue::Absent,
            TreeValue::Empty => TreeValue::Absent,
            _ => T::built(tree),
        }
    }

    fn new(tree: GreenTree) -> (node: Self)
        ensures
            node is None <==> (tree is Absent || tree is Empty),
    {
        match tree {
            GreenTree::Absent => None,
            GreenTree::Empty => None,
            _ => Some(T::new(tree)),
        }
    }

    fn unwrap(self) -> (tree: GreenTree) {
        match self {
            Some(node) => node.unwrap(),
            None => GreenTree::Absent,
        }
    }

    fn duplicate(&self) -> (copy: Self) {
        match self {
            Some(node) => Some(node.duplicate()),
            None => None,
        }
    }

    open spec fn restored(tree: TreeValue) -> TreeValue {
        match tree {
            TreeValue::Absent => TreeValue::Absent,
            _ => T::restored(tree),
        }
    }

    /// Only the absent marker is restored to nothing: an optional node that
    /// holds a broken region is restored holding it.
    fn restore(tree: GreenTree) -> (node: Self)
        ensures
            node is None <==> tree is Absent,
    {
        match tree {
            GreenTree::Absent => None,
            _ => Some(T::restore(tree)),
        }
    }

    proof fn lemma_restored(&self) {
        match self {
            Some(node) => {
                node.lemma_restored();
            },
            None => {},
        }
    }
}

/// An optional node round-trips where it holds nothing, and where it holds a
/// node that round-trips and does not stand for a broken region. (An optional
/// node that holds a broken region comes back holding nothing.)
pub proof fn lemma_option_round_trips<T: Node>(node: Option<T>)
    requires
        node matches Some(held) ==> round_trips(held) && !(held.tree() is Empty),
    ensures
        round_trips(node),
{
}

/// Every tree value but a terminal can be read as an optional node; no token
/// can.
impl<T: Leaf> Leaf for Option<T> {
    open spec fn makes(tree: TreeValue) -> bool {
        !(tree is Token)
    }

    open spec fn reads(token: TokenView) -> bool {
        false
    }

    fn make(tree: GreenTree) -> (node: Option<Self>) {
        match tree {
            GreenTree::Token(_) => None,
            _ => Some(<Option<T> as Node>::new(tree)),
        }
    }

    fn terminal(token: Intern<Spanned<Token>>) -> (node: Option<Self>) {
        None
    }
}

/// The tree value of `token` read from nowhere.
pub open spec fn bare_token_value(token: TokenView) -> TreeValue {
    TreeValue::Token { token, span: Loc::Synthetic, is_none: false, held: None }
}

/// A token is a typed node of its own: it stands for the terminal that holds
/// it. Built from a terminal, it is the token of the terminal; built from
/// anything else, the token of unreadable text.
impl Node for Token {
    open spec fn tree(&self) -> TreeValue {
        bare_token_value(self@)
    }

    open spec fn built(tree: TreeValue) -> TreeValue {
        match tree {
            TreeValue::Token { token, .. } => bare_token_value(token),
            _ => bare_token_value(Token::Error@),
        }
    }

    fn new(tree: GreenTree) -> (token: Self) {
        match tree {
            GreenTree::Token(lexeme) => lexeme.token.value.value.duplicate(),
            _ => Token::Error,
        }
    }

    fn unwrap(self) -> (tree: GreenTree)
        ensures
            tree matches GreenTree::Token(held) && held.token.slot == SYNTHETIC
                && held.token.value.value == self,
    {
        GreenTree::Token(
            crate::leaf::lexeme::Lexeme {
                token: Intern::synthetic(Spanned::new(Loc::Synthetic, self)),
                value: None,
                is_none: false,
            },
        )
    }

    fn duplicate(&self) -> (copy: Self) {
        Token::duplicate(self)
    }

    open spec fn restored(tree: TreeValue) -> TreeValue {
        Self::built(tree)
    }

    fn restore(tree: GreenTree) -> (token: Self) {
        <Token as Node>::new(tree)
    }

    proof fn lemma_restored(&self) {
    }
}

/// Every token round-trips.
pub proof fn lemma_token_round_trips(token: Token)
    ensures
        round_trips(token),
{
}

/// Terminals, and every token, can be read as a token.
impl Leaf for Token {
    open spec fn makes(tree: TreeValue) -> bool {
        tree is Token
    }

    open spec fn reads(token: TokenView) -> bool {
        true
    }

    fn make(tree: GreenTree) -> (node: Option<Self>) {
        match tree {
            GreenTree::Token(lexeme) => Some(lexeme.token.value.value.duplicate()),
            _ => None,
        }
    }

    fn terminal(token: Intern<Spanned<Token>>) -> (node: Option<Self>) {
        Some(token.value.value.duplicate())
    }
}

} // verus!
