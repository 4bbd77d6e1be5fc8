//! The untyped tree value and the caches of its nodes.

use vstd::prelude::*;
use crate::leaf::interner::{Intern, SYNTHETIC};
use crate::leaf::lexeme::Lexeme;
use crate::leaf::names::NameMap;
use crate::leaf::tree::{
    extend_tokens, name_view, tokens_of_kind, tokens_under, Child, HasTokens, LeafKey, Named, Tree,
    TreeKind,
};
use crate::span::{Loc, Spanned};
use crate::text::str_eq;
use crate::token::{Token, TokenKind, TokenView};

verus! {

/// What a later pass attaches to a node: nothing, a mark, or the index of
/// something that the pass owns.
#[derive(Clone, Copy, Debug, PartialEq, Eq, Hash, Structural)]
pub enum Attachment {
    Nothing,
    Flag(bool),
    Index(usize),
}

impl Default for Attachment {
    fn default() -> (attachment: Attachment)
        ensures
            attachment == Attachment::Nothing,
    {
        Attachment::Nothing
    }
}

/// The identity of a slot of the side table of a node.
pub trait Key {
    /// The name of the slot.
    spec fn spec_name(&self) -> Seq<char>;

    /// The name of the slot.
    fn name(&self) -> (name: LeafKey)
        ensures
            name@ == self.spec_name(),
    ;
}

/// A name is the key of the slot of that name.
impl Key for LeafKey {
    open spec fn spec_name(&self) -> Seq<char> {
        (*self)@
    }

    fn name(&self) -> (name: LeafKey) {
        *self
    }
}

/// A typed value in its untyped form, as a terminal carries it: a tag of the
/// type's own choosing, a number, a mark and a text.
#[derive(Debug)]
pub struct Stowed {
    pub tag: u8,
    pub number: u128,
    pub mark: bool,
    pub text: String,
}

/// A stowed value as mathematical data.
pub struct StowedView {
    pub tag: u8,
    pub number: u128,
    pub mark: bool,
    pub text: Seq<char>,
}

impl View for Stowed {
    type V = StowedView;

    open spec fn view(&self) -> StowedView {
        StowedView { tag: self.tag, number: self.number, mark: self.mark, text: self.text@ }
    }
}

impl Stowed {
    /// A copy of this stowed value.
    pub fn duplicate(&self) -> (copy: Stowed)
        ensures
            copy == *self,
    {
        Stowed { tag: self.tag, number: self.number, mark: self.mark, text: self.text.clone() }
    }
}

/// The stowed value of a terminal as mathematical data, if it carries one.
pub open spec fn stowed_view(held: Option<Stowed>) -> Option<StowedView> {
    match held {
        Some(stowed) => Some(stowed@),
        None => None,
    }
}

/// A structured node: a construct behind its handle, the table of its named
/// children, and the two caches that belong to this node alone.
#[derive(Debug)]
pub struct AstLeaf {
    pub data: Intern<Spanned<Tree>>,
    /// Whether the node was built rather than read.
    pub synthetic: bool,
    /// The children that have a name, by name.
    pub children: NameMap<Child>,
    /// The side table: what later passes attached to this node.
    pub keys: NameMap<Attachment>,
    /// The named-child cache: the slot of what was first read under each
    /// name.
    pub names: NameMap<usize>,
}

/// The untyped tree value that every typed view projects onto.
#[derive(Debug)]
pub enum GreenTree {
    /// A syntactic construct.
    Leaf(AstLeaf),
    /// An anonymous group of tree values.
    Vec(Vec<GreenTree>),
    /// A terminal, with the typed value that was read from it, if one was
    /// stowed.
    Token(Lexeme<Option<Stowed>>),
    /// Nothing is here, and nothing is meant to be.
    Absent,
    /// A broken region: it failed to parse, and the rest goes on without it.
    Empty,
}

/// A tree value as mathematical data. The caches of a node are no part of it:
/// they are not part of the identity of a tree.
pub enum TreeValue {
    Leaf { data: Intern<Spanned<Tree>>, synthetic: bool },
    Vec(Seq<TreeValue>),
    Token { token: TokenView, span: Loc, is_none: bool, held: Option<StowedView> },
    Absent,
    Empty,
}

/// The named children of a construct, by name: of two children with one name,
/// the later one.
pub open spec fn named_children(children: Seq<Named<Child>>) -> Map<Seq<char>, Child>
    decreases children.len(),
{
    if children.len() == 0 {
        Map::empty()
    } else {
        let rest = named_children(children.drop_last());
        match children.last().name {
            Some(name) => rest.insert(name@, children.last().value),
            None => rest,
        }
    }
}

/// The children of the construct of a tree value; none for everything that is
/// not a structured node.
pub open spec fn children_of(tree: TreeValue) -> Seq<Named<Child>> {
    match tree {
        TreeValue::Leaf { data, .. } => data.value.value.children@,
        _ => Seq::empty(),
    }
}

/// Children under other names do not change what is declared under `name`:
/// where none of the children from position `from` on is declared under
/// `name`, all children and the first `from` of them agree on `name`.
pub proof fn lemma_named_children_later(children: Seq<Named<Child>>, from: int, name: Seq<char>)
    requires
        0 <= from <= children.len(),
        forall|k: int|
            from <= k < children.len() ==> name_view((#[trigger] children[k]).name) != Some(name),
    ensures
        named_children(children).contains_key(name) == named_children(
            children.take(from),
        ).contains_key(name),
        named_children(children).contains_key(name) ==> named_children(children)[name]
            == named_children(children.take(from))[name],
    decreases children.len() - from,
{
    if from == children.len() {
        assert(children.take(from) == children);
    } else {
        let shorter = children.drop_last();
        assert(children.last() == children[children.len() - 1]);
        assert forall|k: int| from <= k < shorter.len() implies name_view(
            (#[trigger] shorter[k]).name,
        ) != Some(name) by {
            assert(shorter[k] == children[k]);
        }
        lemma_named_children_later(shorter, from, name);
        assert(shorter.take(from) == children.take(from));
    }
}

/// The child declared under `name` among `children`: of two children with one
/// name, the later one.
pub fn named_child<'a>(children: &'a Vec<Named<Child>>, name: &str) -> (child: Option<&'a Child>)
    ensures
        match child {
            Some(child) => named_children(children@).contains_key(name@) && *child
                == named_children(children@)[name@],
            None => !named_children(children@).contains_key(name@),
        },
{
    let mut i: usize = children.len();
    while i > 0
        invariant
            0 <= i <= children@.len(),
            forall|k: int|
                i <= k < children@.len() ==> name_view((#[trigger] children@[k]).name) != Some(
                    name@,
                ),
        decreases i,
    {
        i -= 1;
        let found = match children[i].name {
            Some(declared) => str_eq(declared, name),
            None => false,
        };
        if found {
            proof {
                lemma_named_children_later(children@, i + 1, name@);
                let upto = children@.take(i + 1);
                assert(upto.drop_last() == children@.take(i as int));
                assert(upto.last() == children@[i as int]);
            }
            return Some(&children[i].value);
        }
    }
    proof {
        lemma_named_children_later(children@, 0, name@);
        assert(children@.take(0).len() == 0);
    }
    None
}

/// A node that is sound where there are some slots is sound where there are
/// more.
pub proof fn lemma_sound_grows(tree: GreenTree, fewer: nat, more: nat)
    requires
        tree.sound(fewer),
        fewer <= more,
    ensures
        tree.sound(more),
{
}

/// Computes the table of the named children of a construct.
pub fn children(data: &Intern<Spanned<Tree>>) -> (table: NameMap<Child>)
    ensures
        table@ == named_children(data.value.value.children@),
{
    let mut table: NameMap<Child> = NameMap::new();
    let all = &data.value.value.children;
    let mut i: usize = 0;
    while i < all.len()
        invariant
            0 <= i <= all@.len(),
            table@ == named_children(all@.take(i as int)),
        decreases all@.len() - i,
    {
        proof {
            assert(all@.take(i + 1).drop_last() == all@.take(i as int));
        }
        let child = &all[i];
        match child.name {
            Some(name) => {
                table.insert(name, child.value.share());
            },
            None => {},
        }
        i += 1;
    }
    proof {
        assert(all@.take(i as int) == all@);
    }
    table
}

impl GreenTree {
    /// This tree value as mathematical data.
    pub open spec fn value(&self) -> TreeValue
        decreases self,
    {
        match self {
            GreenTree::Leaf(leaf) => TreeValue::Leaf { data: leaf.data, synthetic: leaf.synthetic },
            GreenTree::Vec(items) => TreeValue::Vec(
                Seq::new(
                    items@.len(),
                    |i: int|
                        if 0 <= i < items@.len() {
                            items@[i].value()
                        } else {
                            TreeValue::Empty
                        },
                ),
            ),
            GreenTree::Token(lexeme) => TreeValue::Token {
                token: lexeme.token.value.value@,
                span: lexeme.token.value.span,
                is_none: lexeme.is_none,
                held: stowed_view(lexeme.value),
            },
            GreenTree::Absent => TreeValue::Absent,
            GreenTree::Empty => TreeValue::Empty,
        }
    }
}

/// A copy of a table of handles that shares what is behind them.
fn duplicate_children(table: &NameMap<Child>) -> (copy: NameMap<Child>)
    ensures
        copy.entries@ == table.entries@,
{
    let mut copy: NameMap<Child> = NameMap::new();
    let mut i: usize = 0;
    while i < table.entries.len()
        invariant
            0 <= i <= table.entries@.len(),
            copy.entries@ == table.entries@.take(i as int),
        decreases table.entries@.len() - i,
    {
        let entry = &table.entries[i];
        copy.insert(entry.0, entry.1.share());
        proof {
            assert(table.entries@.take(i + 1) == table.entries@.take(i as int).push(
                table.entries@[i as int],
            ));
        }
        i += 1;
    }
    proof {
        assert(table.entries@.take(i as int) == table.entries@);
    }
    copy
}

impl GreenTree {
    /// The named-child cache of this node: the slot of what was first read
    /// under each name. Only a structured node has one.
    pub open spec fn names(&self) -> Map<Seq<char>, usize> {
        match self {
            GreenTree::Leaf(leaf) => leaf.names@,
            _ => Map::empty(),
        }
    }

    /// The side table of this node. Only a structured node has one.
    pub open spec fn keys(&self) -> Map<Seq<char>, Attachment> {
        match self {
            GreenTree::Leaf(leaf) => leaf.keys@,
            _ => Map::empty(),
        }
    }

    /// The table of the named children of this node. Only a structured node
    /// has one.
    pub open spec fn named(&self) -> Map<Seq<char>, Child> {
        match self {
            GreenTree::Leaf(leaf) => leaf.children@,
            _ => Map::empty(),
        }
    }

    /// Whether this node is sound where there are `slots` slots: the table of
    /// its named children is that of its construct, and every slot that its
    /// named-child cache holds is one of the slots. Everything that is not a
    /// structured node is sound. Constructors make sound nodes, and what
    /// fills the cache keeps a node sound.
    pub open spec fn sound(&self, slots: nat) -> bool {
        &&& self.named() == named_children(self.child_seq())
        &&& forall|name: Seq<char>| #[trigger]
            self.names().contains_key(name) ==> self.names()[name] < slots
    }

    /// A copy of this tree value that shares nothing with it but what is
    /// behind handles: the same value, the same named children, and caches
    /// that hold the same, the named-child cache pointing to the same slots.
    pub fn duplicate(&self) -> (copy: GreenTree)
        ensures
            copy@ == self@,
            copy.names() == self.names(),
            copy.keys() == self.keys(),
            copy.named() == self.named(),
        decreases self,
    {
        match self {
            GreenTree::Leaf(leaf) => GreenTree::Leaf(
                AstLeaf {
                    data: leaf.data.share(),
                    synthetic: leaf.synthetic,
                    children: duplicate_children(&leaf.children),
                    keys: leaf.keys.duplicate(),
                    names: leaf.names.duplicate(),
                },
            ),
            GreenTree::Vec(items) => {
                let mut copies: Vec<GreenTree> = Vec::new();
                let mut i: usize = 0;
                while i < items.len()
                    invariant
                        0 <= i <= items@.len(),
                        *self == GreenTree::Vec(*items),
                        copies@.len() == i,
                        forall|k: int| 0 <= k < i ==> (#[trigger] copies@[k]).value() == items@[k].value(),
                    decreases items@.len() - i,
                {
                    proof {
                        let ghost this = *self;
                        assert(decreases_to!(this => this->Vec_0@[i as int]));
                    }
                    let copy = items[i].duplicate();
                    copies.push(copy);
                    i += 1;
                }
                let copy = GreenTree::Vec(copies);
                proof {
                    assert(copy@->Vec_0 =~= self@->Vec_0);
                }
                copy
            },
            GreenTree::Token(lexeme) => GreenTree::Token(
                Lexeme {
                    token: lexeme.token.share(),
                    value: match &lexeme.value {
                        Some(stowed) => Some(stowed.duplicate()),
                        None => None,
                    },
                    is_none: lexeme.is_none,
                },
            ),
            GreenTree::Absent => GreenTree::Absent,
            GreenTree::Empty => GreenTree::Empty,
        }
    }
}

/// Whether `handle` is the handle of the default token: a handle of no
/// interner to the token of unreadable text, read from nowhere.
pub open spec fn is_default_token(handle: Intern<Spanned<Token>>) -> bool {
    handle.slot == SYNTHETIC && handle.value.span == Loc::Synthetic && handle.value.value
        == Token::Error
}

/// Whether `handle` is the handle of a built construct of `kind` without
/// children: a handle of no interner, read from nowhere.
pub open spec fn is_built_tree(handle: Intern<Spanned<Tree>>, kind: TreeKind) -> bool {
    handle.slot == SYNTHETIC && handle.value.span == Loc::Synthetic && handle.value.value.kind
        == kind && handle.value.value.children@.len() == 0
}

/// The handle of the default token.
pub fn default_token() -> (handle: Intern<Spanned<Token>>)
    ensures
        is_default_token(handle),
{
    Intern::synthetic(Spanned::new(Loc::Synthetic, Token::Error))
}

/// The handle of a built construct of `kind` without children.
pub fn built_tree(kind: TreeKind) -> (handle: Intern<Spanned<Tree>>)
    ensures
        is_built_tree(handle, kind),
{
    Intern::synthetic(Spanned::new(Loc::Synthetic, Tree::new(kind)))
}

impl GreenTree {
    /// The structured node of an interned construct, with empty caches.
    pub fn new(data: Intern<Spanned<Tree>>) -> (tree: Self)
        ensures
            tree@ == (TreeValue::Leaf { data, synthetic: false }),
            tree.named() == named_children(data.value.value.children@),
            tree.names() == Map::<Seq<char>, usize>::empty(),
            tree.keys() == Map::<Seq<char>, Attachment>::empty(),
            tree.sound(0),
    {
        let named = children(&data);
        GreenTree::Leaf(
            AstLeaf {
                data,
                synthetic: false,
                children: named,
                keys: NameMap::new(),
                names: NameMap::new(),
            },
        )
    }

    /// A built structured node of `kind`, without children and with empty
    /// caches.
    pub fn of(kind: TreeKind) -> (tree: Self)
        ensures
            tree@ matches TreeValue::Leaf { data, synthetic } && synthetic && is_built_tree(
                data,
                kind,
            ),
            tree.named() == Map::<Seq<char>, Child>::empty(),
            tree.names() == Map::<Seq<char>, usize>::empty(),
            tree.keys() == Map::<Seq<char>, Attachment>::empty(),
            tree.sound(0),
    {
        GreenTree::Leaf(
            AstLeaf {
                data: built_tree(kind),
                synthetic: true,
                children: NameMap::new(),
                keys: NameMap::new(),
                names: NameMap::new(),
            },
        )
    }

    /// The kind of this node: the kind of its construct, and the error kind
    /// for everything that is not a structured node.
    pub open spec fn spec_kind(&self) -> TreeKind {
        match self {
            GreenTree::Leaf(leaf) => leaf.data.value.value.kind,
            _ => TreeKind::Error,
        }
    }

    #[verifier::when_used_as_spec(spec_kind)]
    pub fn kind(&self) -> (kind: TreeKind)
        ensures
            kind == self.spec_kind(),
    {
        match self {
            GreenTree::Leaf(leaf) => leaf.data.value.value.kind,
            _ => TreeKind::Error,
        }
    }

    /// Whether the child at position `nth` is a token of `kind`; `false` for
    /// everything that is not a structured node.
    pub open spec fn spec_matches(&self, nth: usize, kind: TokenKind) -> bool {
        match self {
            GreenTree::Leaf(leaf) => leaf.data.value.value.matches(nth, kind),
            _ => false,
        }
    }

    #[verifier::when_used_as_spec(spec_matches)]
    pub fn matches(&self, nth: usize, kind: TokenKind) -> (matches: bool)
        ensures
            matches == self.spec_matches(nth, kind),
    {
        match self {
            GreenTree::Leaf(leaf) => leaf.data.value.value.matches(nth, kind),
            _ => false,
        }
    }

    /// The construct of this node; a built construct of the error kind for
    /// everything that is not a structured node.
    pub fn or_empty(self) -> (data: Intern<Spanned<Tree>>)
        ensures
            match self {
                GreenTree::Leaf(leaf) => data == leaf.data,
                _ => is_built_tree(data, TreeKind::Error),
            },
    {
        match self {
            GreenTree::Leaf(leaf) => leaf.data,
            _ => built_tree(TreeKind::Error),
        }
    }

    /// Where this node was read from: the location of its construct or of its
    /// token, and nowhere for everything else.
    pub open spec fn spec_location(&self) -> Loc {
        match self {
            GreenTree::Leaf(leaf) => leaf.data.value.span,
            GreenTree::Token(lexeme) => lexeme.token.value.span,
            _ => Loc::Synthetic,
        }
    }

    #[verifier::when_used_as_spec(spec_location)]
    pub fn location(&self) -> (loc: Loc)
        ensures
            loc == self.spec_location(),
    {
        match self {
            GreenTree::Leaf(leaf) => leaf.data.value.span,
            GreenTree::Token(lexeme) => lexeme.token.value.span,
            _ => Loc::Synthetic,
        }
    }

    /// The location of this node, carrying no value.
    pub fn spanned(&self) -> (spanned: Spanned<()>)
        ensures
            spanned.span == self.spec_location(),
    {
        Spanned::new(self.location(), ())
    }

    /// Whether this node is one thing alone: a construct with exactly one
    /// child, or a token.
    pub open spec fn spec_is_single(&self) -> bool {
        match self {
            GreenTree::Leaf(leaf) => leaf.data.value.value.is_single(),
            GreenTree::Token(_) => true,
            _ => false,
        }
    }

    #[verifier::when_used_as_spec(spec_is_single)]
    pub fn is_single(&self) -> (single: bool)
        ensures
            single == self.spec_is_single(),
    {
        match self {
            GreenTree::Leaf(leaf) => leaf.data.value.value.is_single(),
            GreenTree::Token(_) => true,
            _ => false,
        }
    }

    /// The children of the construct of this node, in source order; `None`
    /// for everything that is not a structured node. A node holds its
    /// construct behind a handle, so they are read here and cannot be
    /// changed: a construct is changed while it is put together, through the
    /// field of [`Tree`], before it gets a handle.
    pub fn children(&self) -> (children: Option<&Vec<Named<Child>>>)
        ensures
            match self {
                GreenTree::Leaf(leaf) => children == Some(&leaf.data.value.value.children),
                _ => children is None,
            },
    {
        match self {
            GreenTree::Leaf(leaf) => Some(&leaf.data.value.value.children),
            _ => None,
        }
    }

    /// The children of this node as mathematical data: those of its construct,
    /// and none for everything that is not a structured node.
    pub open spec fn child_seq(&self) -> Seq<Named<Child>> {
        match self {
            GreenTree::Leaf(leaf) => leaf.data.value.value.children@,
            _ => Seq::empty(),
        }
    }

    /// The handles of the tokens of `kind` among the children of this node, in
    /// order; none for everything that is not a structured node.
    pub fn any_token(&self, kind: TokenKind) -> (tokens: Vec<Intern<Spanned<Token>>>)
        ensures
            tokens@ == tokens_of_kind(self.child_seq(), kind),
    {
        match self {
            GreenTree::Leaf(leaf) => leaf.data.value.value.token(kind),
            _ => Vec::new(),
        }
    }

    /// The handle of the first token of `kind` among the children of this
    /// node; the default token where there is none.
    pub fn token(&self, kind: TokenKind) -> (token: Intern<Spanned<Token>>)
        ensures
            match tokens_of_kind(self.child_seq(), kind).len() > 0 {
                true => token == tokens_of_kind(self.child_seq(), kind)[0],
                false => is_default_token(token),
            },
    {
        let tokens = self.any_token(kind);
        if tokens.len() > 0 {
            tokens[0].share()
        } else {
            default_token()
        }
    }

    /// Whether this node has a child declared under `name`.
    pub fn has(&self, name: &str) -> (has: bool)
        ensures
            has == self.named().contains_key(name@),
    {
        match self {
            GreenTree::Leaf(leaf) => leaf.children.contains(name),
            _ => false,
        }
    }

    /// A fresh node over the same tree value: a structured node gets the table
    /// of its named children computed anew and starts with empty caches,
    /// whatever the caches of this node hold; everything else is copied.
    pub fn as_new_node(&self) -> (tree: Self)
        ensures
            tree@ == self@,
            tree.names() == Map::<Seq<char>, usize>::empty(),
            tree.keys() == Map::<Seq<char>, Attachment>::empty(),
            tree.named() == named_children(self.child_seq()),
            tree.sound(0),
    {
        match self {
            GreenTree::Leaf(leaf) => GreenTree::Leaf(
                AstLeaf {
                    data: leaf.data.share(),
                    synthetic: leaf.synthetic,
                    children: children(&leaf.data),
                    keys: NameMap::new(),
                    names: NameMap::new(),
                },
            ),
            _ => self.duplicate(),
        }
    }

    /// Attaches `value` under `key` in the side table of this node, in place
    /// of what was attached there, and returns it. Only a structured node has
    /// a side table: on everything else nothing is stored. The tree value and
    /// the named-child cache stay as they are.
    pub fn insert_key<K: Key>(&mut self, key: K, value: Attachment) -> (stored: Attachment)
        ensures
            stored == value,
            final(self)@ == old(self)@,
            final(self).names() == old(self).names(),
            final(self).named() == old(self).named(),
            final(self).keys() == if *old(self) is Leaf {
                old(self).keys().insert(key.spec_name(), value)
            } else {
                old(self).keys()
            },
    {
        match self {
            GreenTree::Leaf(leaf) => {
                leaf.keys.insert(key.name(), value);
            },
            _ => {},
        }
        value
    }

    /// What is attached under `key` in the side table of this node. Where
    /// nothing is attached yet, the default attachment is, from now on; on
    /// everything that is not a structured node the default attachment is
    /// returned and nothing is stored.
    pub fn key<K: Key>(&mut self, key: K) -> (found: Attachment)
        ensures
            final(self)@ == old(self)@,
            final(self).names() == old(self).names(),
            final(self).named() == old(self).named(),
            found == if old(self).keys().contains_key(key.spec_name()) {
                old(self).keys()[key.spec_name()]
            } else {
                Attachment::Nothing
            },
            final(self).keys() == if *old(self) is Leaf {
                old(self).keys().insert(key.spec_name(), found)
            } else {
                old(self).keys()
            },
    {
        match self {
            GreenTree::Leaf(leaf) => {
                let name = key.name();
                let found = match leaf.keys.get(name) {
                    Some(found) => Some(*found),
                    None => None,
                };
                match found {
                    Some(found) => {
                        proof {
                            assert(leaf.keys@.insert(name@, found) =~= leaf.keys@);
                        }
                        found
                    },
                    None => {
                        leaf.keys.insert(name, Attachment::Nothing);
                        Attachment::Nothing
                    },
                }
            },
            _ => Attachment::Nothing,
        }
    }
}

impl GreenTree {
    /// The handles of the tokens under the first `n` members of a group, in
    /// order; none for everything that is not a group.
    pub open spec fn tokens_upto(&self, n: nat) -> Seq<Intern<Spanned<Token>>>
        decreases self, n,
    {
        match self {
            GreenTree::Vec(items) => if n == 0 || n > items@.len() {
                Seq::empty()
            } else {
                self.tokens_upto((n - 1) as nat) + items@[n - 1].all_tokens()
            },
            _ => Seq::empty(),
        }
    }

    /// The number of members of a group; zero for everything that is not a
    /// group.
    pub open spec fn width(&self) -> nat {
        match self {
            GreenTree::Vec(items) => items@.len(),
            _ => 0,
        }
    }

    /// The handles of all tokens under this tree value, in source order:
    /// those under the construct of a structured node, those under the
    /// members of a group, the token of a terminal, and none for the absent
    /// marker and for a broken region.
    pub open spec fn all_tokens(&self) -> Seq<Intern<Spanned<Token>>>
        decreases self, self.width() + 1,
    {
        match self {
            GreenTree::Leaf(leaf) => tokens_under(leaf.data.value.value),
            GreenTree::Vec(items) => self.tokens_upto(self.width()),
            GreenTree::Token(lexeme) => seq![lexeme.token],
            GreenTree::Absent => Seq::empty(),
            GreenTree::Empty => Seq::empty(),
        }
    }
}

impl HasTokens for GreenTree {
    open spec fn spec_tokens(&self) -> Seq<Intern<Spanned<Token>>> {
        self.all_tokens()
    }

    fn tokens(&self) -> (tokens: Vec<Intern<Spanned<Token>>>)
        decreases self,
    {
        match self {
            GreenTree::Leaf(leaf) => leaf.data.value.value.all_tokens(),
            GreenTree::Vec(items) => {
                let mut tokens: Vec<Intern<Spanned<Token>>> = Vec::new();
                let mut i: usize = 0;
                while i < items.len()
                    invariant
                        0 <= i <= items@.len(),
                        *self == GreenTree::Vec(*items),
                        tokens@ == self.tokens_upto(i as nat),
                    decreases items@.len() - i,
                {
                    proof {
                        let ghost this = *self;
                        assert(decreases_to!(this => this->Vec_0@[i as int]));
                    }
                    let under = items[i].tokens();
                    extend_tokens(&mut tokens, &under);
                    i += 1;
                }
                tokens
            },
            GreenTree::Token(lexeme) => {
                let mut tokens: Vec<Intern<Spanned<Token>>> = Vec::new();
                tokens.push(lexeme.token.share());
                tokens
            },
            GreenTree::Absent => Vec::new(),
            GreenTree::Empty => Vec::new(),
        }
    }
}

impl Clone for GreenTree {
    /// A copy of this tree value; see [`GreenTree::duplicate`].
    fn clone(&self) -> (copy: Self)
        ensures
            copy@ == self@,
            copy.names() == self.names(),
            copy.keys() == self.keys(),
            copy.named() == self.named(),
    {
        self.duplicate()
    }
}

impl Default for GreenTree {
    /// A structured node over a built construct of the error kind.
    fn default() -> (tree: Self)
        ensures
            tree@ matches TreeValue::Leaf { data, synthetic } && !synthetic && is_built_tree(
                data,
                TreeKind::Error,
            ),
            tree.named() == Map::<Seq<char>, Child>::empty(),
            tree.names() == Map::<Seq<char>, usize>::empty(),
            tree.keys() == Map::<Seq<char>, Attachment>::empty(),
            tree.sound(0),
    {
        GreenTree::Leaf(
            AstLeaf {
                data: built_tree(TreeKind::Error),
                synthetic: false,
                children: NameMap::new(),
                keys: NameMap::new(),
                names: NameMap::new(),
            },
        )
    }
}

impl View for GreenTree {
    type V = TreeValue;

    open spec fn view(&self) -> TreeValue {
        self.value()
    }
}

} // verus!
