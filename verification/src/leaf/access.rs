//! Typed access to tree values: reading children as typed nodes, by position
//! and by name; cursors onto what was read; and the named-child cache.

use vstd::prelude::*;
use crate::leaf::cursor::{
    blank_slot_of, content, given, grown, Cursor, SlotView, Slots,
};
use crate::leaf::green::{children_of, named_child, named_children, GreenTree, TreeValue};
use crate::leaf::value::Value;
use crate::leaf::lexeme::Lexeme;
use crate::leaf::node::{leaf_value, token_value, Leaf, Node, Terminal};
use crate::leaf::tree::{Child, LeafKey, Named};

verus! {

/// What a read finds and what a slot holds, as far as a reader can tell: a
/// typed value that stands for a tree value, or a tree location.
pub enum Found {
    /// A typed value of its own that stands for this tree value.
    Held(TreeValue),
    /// The tree location of this tree value.
    Lazy(TreeValue),
}

impl<T: Leaf> Value<T> {
    /// Whether this is what `found` says.
    pub open spec fn holds(&self, found: Found) -> bool {
        match found {
            Found::Held(tree) => *self is Ref && self.tree() == tree,
            Found::Lazy(tree) => *self is Green && self.tree() == tree,
        }
    }
}

impl<T: Leaf> Cursor<T> {
    /// Whether the slot of this cursor holds what `found` says: a typed value
    /// that stands for the tree value, which reading the cursor gives back,
    /// or the tree location and nothing else.
    pub open spec fn holds(&self, slots: Seq<SlotView>, found: Found) -> bool {
        match found {
            Found::Held(tree) => self.content(slots).held && self.content(slots).tree == tree
                && self.read(slots) == tree,
            Found::Lazy(tree) => self.content(slots) == blank_slot_of(tree),
        }
    }
}

/// The tree value of the node of type `T` read from `child`, if the child is
/// of the type: a construct that the type makes, or a token that it reads.
pub open spec fn read_child<T: Leaf>(child: Child) -> Option<TreeValue> {
    match child {
        Child::Tree(data) => if T::makes(leaf_value(data)) {
            Some(T::built(leaf_value(data)))
        } else {
            None
        },
        Child::Token(token) => if T::reads(token.value.value@) {
            Some(T::built(token_value(token)))
        } else {
            None
        },
    }
}

/// The node of type `T` read from `child`, if the child is of the type.
pub fn node_of<T: Leaf>(child: &Child) -> (node: Option<T>)
    ensures
        match read_child::<T>(*child) {
            Some(tree) => node matches Some(node) && node.tree() == tree,
            None => node is None,
        },
{
    match child {
        Child::Tree(data) => T::make(GreenTree::new(data.share())),
        Child::Token(token) => T::terminal(token.share()),
    }
}

/// The tree values of the nodes of type `T` among `children`, in order: each
/// child that is of the type, read as a node of it.
pub open spec fn kept<T: Leaf>(children: Seq<Named<Child>>) -> Seq<TreeValue>
    decreases children.len(),
{
    if children.len() == 0 {
        Seq::empty()
    } else {
        let rest = kept::<T>(children.drop_last());
        match read_child::<T>(children.last().value) {
            Some(tree) => rest.push(tree),
            None => rest,
        }
    }
}

/// Every node that is kept was read from one of the children.
pub proof fn lemma_kept_from_children<T: Leaf>(children: Seq<Named<Child>>)
    ensures
        forall|k: int|
            0 <= k < kept::<T>(children).len() ==> exists|i: int|
                0 <= i < children.len() && read_child::<T>(#[trigger] children[i].value) == Some(
                    #[trigger] kept::<T>(children)[k],
                ),
    decreases children.len(),
{
    if children.len() > 0 {
        let shorter = children.drop_last();
        lemma_kept_from_children::<T>(shorter);
        assert forall|k: int| 0 <= k < kept::<T>(children).len() implies exists|i: int|
            0 <= i < children.len() && read_child::<T>(#[trigger] children[i].value) == Some(
                #[trigger] kept::<T>(children)[k],
            ) by {
            if k < kept::<T>(shorter).len() {
                let i = choose|i: int|
                    0 <= i < shorter.len() && read_child::<T>(#[trigger] shorter[i].value) == Some(
                        kept::<T>(shorter)[k],
                    );
                assert(children[i] == shorter[i]);
            } else {
                let i = children.len() - 1;
                assert(read_child::<T>(children[i].value) == Some(kept::<T>(children)[k]));
            }
        }
    }
}

/// What is found under `name` of the tree value `tree`; see
/// [`GreenTree::found_named`].
pub open spec fn named_found<T: Leaf>(tree: TreeValue, name: Seq<char>) -> Found {
    if !(tree is Leaf) {
        Found::Lazy(TreeValue::Empty)
    } else if !named_children(children_of(tree)).contains_key(name) {
        Found::Lazy(TreeValue::Empty)
    } else {
        match named_children(children_of(tree))[name] {
            Child::Tree(_) => found_child::<T>(named_children(children_of(tree))[name]),
            Child::Token(_) => match read_child::<T>(named_children(children_of(tree))[name]) {
                Some(read) => Found::Held(read),
                None => Found::Lazy(TreeValue::Empty),
            },
        }
    }
}

/// What reading a child by position or by name finds: the node of the child
/// where it is of the type, and the absent marker where it is not.
pub open spec fn found_child<T: Leaf>(child: Child) -> Found {
    match read_child::<T>(child) {
        Some(tree) => Found::Held(tree),
        None => Found::Lazy(TreeValue::Absent),
    }
}

impl GreenTree {
    /// This tree value as a node of type `T`: the node that the type makes of
    /// it, or the empty node of the type where it is not of the type.
    pub fn as_node<T: Leaf>(&self) -> (node: T)
        ensures
            node.tree() == if T::makes(self@) {
                T::built(self@)
            } else {
                T::built(TreeValue::Empty)
            },
    {
        match T::make(self.duplicate()) {
            Some(node) => node,
            None => T::new(GreenTree::Empty),
        }
    }

    /// What `filter` finds: the nodes of type `T` among the children of a
    /// structured node, as a sequence of its own, possibly empty; the empty
    /// cursor on everything that is not a structured node.
    pub open spec fn filtered<T: Leaf>(&self) -> Found {
        match self {
            GreenTree::Leaf(leaf) => Found::Held(
                TreeValue::Vec(kept::<T>(leaf.data.value.value.children@)),
            ),
            _ => Found::Lazy(TreeValue::Empty),
        }
    }

    /// The children of this node that are of type `T`, in source order, as a
    /// sequence of its own. A structured node without any such child gives the
    /// empty sequence.
    pub fn read_filter<T: Leaf>(&self) -> (found: Value<Vec<T>>)
        ensures
            found.holds(self.filtered::<T>()),
    {
        match self {
            GreenTree::Leaf(leaf) => {
                let children = &leaf.data.value.value.children;
                let mut nodes: Vec<T> = Vec::new();
                let mut i: usize = 0;
                while i < children.len()
                    invariant
                        0 <= i <= children@.len(),
                        crate::leaf::node::trees_of(nodes@) == kept::<T>(children@.take(i as int)),
                    decreases children@.len() - i,
                {
                    proof {
                        assert(children@.take(i + 1).drop_last() == children@.take(i as int));
                    }
                    let ghost before = nodes@;
                    match node_of::<T>(&children[i].value) {
                        Some(node) => {
                            nodes.push(node);
                            proof {
                                assert(crate::leaf::node::trees_of(nodes@)
                                    =~= crate::leaf::node::trees_of(before).push(node.tree()));
                            }
                        },
                        None => {},
                    }
                    i += 1;
                }
                proof {
                    assert(children@.take(i as int) == children@);
                }
                Value::of(nodes)
            },
            _ => Value::empty(),
        }
    }

    /// The tokens among the children of this node that a value of type `T` can
    /// be read from, as lexemes, in source order.
    pub fn read_filter_terminal<T: Terminal>(&self) -> (found: Value<Vec<Lexeme<T>>>)
        ensures
            found.holds(self.filtered::<Lexeme<T>>()),
    {
        self.read_filter::<Lexeme<T>>()
    }

    /// What `at` finds: the child at position `nth` of a structured node read
    /// as a node of type `T`; a broken region where there is no such child.
    pub open spec fn found_at<T: Leaf>(&self, nth: usize) -> Found {
        match self {
            GreenTree::Leaf(leaf) => if nth < leaf.data.value.value.children@.len() {
                found_child::<T>(leaf.data.value.value.children@[nth as int].value)
            } else {
                Found::Lazy(TreeValue::Empty)
            },
            _ => Found::Lazy(TreeValue::Empty),
        }
    }

    /// The child at position `nth`, read as a node of type `T`.
    pub fn read_at<T: Leaf>(&self, nth: usize) -> (found: Value<T>)
        ensures
            found.holds(self.found_at::<T>(nth)),
    {
        match self {
            GreenTree::Leaf(leaf) => {
                let children = &leaf.data.value.value.children;
                if nth < children.len() {
                    Value::from_option(node_of::<T>(&children[nth].value))
                } else {
                    Value::empty()
                }
            },
            _ => Value::empty(),
        }
    }

    /// What `terminal` finds: the token at position `nth` of a structured node
    /// read as a lexeme of type `T`; a broken region where the child at that
    /// position is no token or there is no such child.
    pub open spec fn found_terminal<T: Terminal>(&self, nth: usize) -> Found {
        match self {
            GreenTree::Leaf(leaf) => if nth < leaf.data.value.value.children@.len()
                && leaf.data.value.value.children@[nth as int].value is Token {
                found_child::<Lexeme<T>>(leaf.data.value.value.children@[nth as int].value)
            } else {
                Found::Lazy(TreeValue::Empty)
            },
            _ => Found::Lazy(TreeValue::Empty),
        }
    }

    /// The token at position `nth`, read as a lexeme of type `T`, with the
    /// handle of the child as its token.
    pub fn read_terminal<T: Terminal>(&self, nth: usize) -> (found: Value<Lexeme<T>>)
        ensures
            found.holds(self.found_terminal::<T>(nth)),
            found matches Value::Ref(lexeme) ==> Child::Token(lexeme.token)
                == self.child_seq()[nth as int].value,
    {
        match self {
            GreenTree::Leaf(leaf) => {
                let children = &leaf.data.value.value.children;
                if nth < children.len() {
                    match &children[nth].value {
                        Child::Token(token) => Value::from_option(
                            <Lexeme<T> as Leaf>::terminal(token.share()),
                        ),
                        Child::Tree(_) => Value::empty(),
                    }
                } else {
                    Value::empty()
                }
            },
            _ => Value::empty(),
        }
    }

    /// What is found under `name`, the named-child cache aside. On a
    /// structured node: the child
    /// declared under the name, read as a node of type `T`, where a token that
    /// is not of the type gives a broken region and a construct that is not
    /// of the type the absent marker; a broken region where no child is
    /// declared under the name. A broken region on everything that is not a
    /// structured node.
    pub open spec fn found_named<T: Leaf>(&self, name: Seq<char>) -> Found {
        named_found::<T>(self@, name)
    }

    /// The child declared under `name`, read as a node of type `T`. The
    /// named-child cache is not asked.
    pub fn read_named<T: Leaf>(&self, name: &str) -> (found: Value<T>)
        ensures
            found.holds(self.found_named::<T>(name@)),
    {
        match self {
            GreenTree::Leaf(leaf) => {
                match named_child(&leaf.data.value.value.children, name) {
                    Some(child) => match child {
                        Child::Tree(_) => Value::from_option(node_of::<T>(child)),
                        Child::Token(_) => match node_of::<T>(child) {
                            Some(node) => Value::of(node),
                            None => Value::empty(),
                        },
                    },
                    None => Value::empty(),
                }
            },
            _ => Value::empty(),
        }
    }

    /// What is found as a terminal under `name`, the named-child cache aside.
    /// On a structured node: the token
    /// declared under the name, read as a lexeme of type `T`, or the absent
    /// marker where no value of the type can be read from it; a broken region
    /// where a construct or nothing is declared under the name. The empty
    /// cursor on everything that is not a structured node.
    pub open spec fn found_named_terminal<T: Terminal>(&self, name: Seq<char>) -> Found {
        if !(self is Leaf) {
            Found::Lazy(TreeValue::Empty)
        } else if !named_children(self.child_seq()).contains_key(name) {
            Found::Lazy(TreeValue::Empty)
        } else {
            match named_children(self.child_seq())[name] {
                Child::Tree(_) => Found::Lazy(TreeValue::Empty),
                Child::Token(_) => found_child::<Lexeme<T>>(named_children(self.child_seq())[name]),
            }
        }
    }

    /// The token declared under `name`, read as a lexeme of type `T`, with the
    /// handle of the child as its token. The named-child cache is not asked.
    pub fn read_named_terminal<T: Terminal>(&self, name: &str) -> (found: Value<Lexeme<T>>)
        ensures
            found.holds(self.found_named_terminal::<T>(name@)),
            found matches Value::Ref(lexeme) ==> Child::Token(lexeme.token) == named_children(self.child_seq())[name@],
    {
        match self {
            GreenTree::Leaf(leaf) => {
                match named_child(&leaf.data.value.value.children, name) {
                    Some(child) => match child {
                        Child::Tree(_) => Value::empty(),
                        Child::Token(token) => Value::from_option(
                            <Lexeme<T> as Leaf>::terminal(token.share()),
                        ),
                    },
                    None => Value::empty(),
                }
            },
            _ => Value::empty(),
        }
    }
}

/// Whether `cursor` stands for a new slot, added to `before` at its end, that
/// holds what `found` says.
pub open spec fn fresh<T: Leaf>(
    cursor: Cursor<T>,
    before: Seq<SlotView>,
    after: Seq<SlotView>,
    found: Found,
) -> bool {
    cursor.slot == before.len() && grown(before, after) && cursor.holds(after, found)
}

/// A step of the named-child cache, on the cache alone: what the cache holds
/// afterwards and which slot is handed out, when `name` is asked for and the
/// next free slot is `free`. What is cached is handed out and the cache stays
/// as it is; what is not cached goes into the free slot, which is cached and
/// handed out.
pub open spec fn memo_step(names: Map<Seq<char>, usize>, name: Seq<char>, free: usize) -> (
    Map<Seq<char>, usize>,
    usize,
) {
    if names.contains_key(name) {
        (names, names[name])
    } else {
        (names.insert(name, free), free)
    }
}

impl GreenTree {
    /// The slot that the named-child cache of this node holds under `name`, if
    /// it holds one.
    pub open spec fn cached(&self, name: Seq<char>) -> Option<usize> {
        if self.names().contains_key(name) {
            Some(self.names()[name])
        } else {
            None
        }
    }

    /// Decides [`GreenTree::cached`].
    pub fn cached_slot(&self, name: &str) -> (slot: Option<usize>)
        ensures
            slot == self.cached(name@),
    {
        match self {
            GreenTree::Leaf(leaf) => match leaf.names.get(name) {
                Some(slot) => Some(*slot),
                None => None,
            },
            _ => None,
        }
    }

    /// A cursor onto a new slot that holds the children of this node that are
    /// of type `T`, in source order.
    pub fn filter<T: Leaf>(&self, slots: &mut Slots) -> (cursor: Cursor<Vec<T>>)
        ensures
            fresh(cursor, old(slots)@, final(slots)@, self.filtered::<T>()),
    {
        Cursor::put(slots, self.read_filter::<T>())
    }

    /// A cursor onto a new slot that holds the tokens among the children of
    /// this node that a value of type `T` can be read from, as lexemes.
    pub fn filter_terminal<T: Terminal>(&self, slots: &mut Slots) -> (cursor: Cursor<
        Vec<Lexeme<T>>,
    >)
        ensures
            fresh(cursor, old(slots)@, final(slots)@, self.filtered::<Lexeme<T>>()),
    {
        Cursor::put(slots, self.read_filter_terminal::<T>())
    }

    /// A cursor onto a new slot that holds the child at position `nth`, read
    /// as a node of type `T`.
    pub fn at<T: Leaf>(&self, slots: &mut Slots, nth: usize) -> (cursor: Cursor<T>)
        ensures
            fresh(cursor, old(slots)@, final(slots)@, self.found_at::<T>(nth)),
    {
        Cursor::put(slots, self.read_at::<T>(nth))
    }

    /// A cursor onto a new slot that holds the token at position `nth`, read
    /// as a lexeme of type `T`. The lexeme holds the handle of the child.
    pub fn terminal<T: Terminal>(&self, slots: &mut Slots, nth: usize) -> (cursor: Cursor<
        Lexeme<T>,
    >)
        ensures
            fresh(cursor, old(slots)@, final(slots)@, self.found_terminal::<T>(nth)),
            self.found_terminal::<T>(nth) is Held ==> holds_token(
                *final(slots),
                cursor.slot,
                self.child_seq()[nth as int].value,
            ),
    {
        put_lexeme(slots, self.read_terminal::<T>(nth))
    }

    /// A cursor onto the child declared under `name`, read as a node of type
    /// `T`. Where the named-child cache holds a slot under the name, the
    /// cursor stands for that slot and nothing changes; elsewhere it stands
    /// for a new slot that holds what is found under the name. The cache is
    /// read, not filled.
    pub fn named_at<T: Leaf>(&self, slots: &mut Slots, name: &str) -> (cursor: Cursor<T>)
        ensures
            match self.cached(name@) {
                Some(slot) => cursor.slot == slot && final(slots)@ == old(slots)@,
                None => fresh(cursor, old(slots)@, final(slots)@, self.found_named::<T>(name@)),
            },
            self.sound(old(slots)@.len()) ==> cursor.slot < final(slots)@.len(),
    {
        match self.cached_slot(name) {
            Some(slot) => Cursor { slot, marker: std::marker::PhantomData },
            None => Cursor::put(slots, self.read_named::<T>(name)),
        }
    }

    /// A cursor onto the token declared under `name`, read as a lexeme of type
    /// `T`. Where the named-child cache holds a slot under the name, the
    /// cursor stands for that slot and nothing changes; elsewhere it stands
    /// for a new slot that holds what is found under the name, and the lexeme
    /// there holds the handle of the child. The cache is read, not filled.
    pub fn named_terminal<T: Terminal>(&self, slots: &mut Slots, name: &str) -> (cursor: Cursor<
        Lexeme<T>,
    >)
        ensures
            match self.cached(name@) {
                Some(slot) => cursor.slot == slot && final(slots)@ == old(slots)@,
                None => fresh(
                    cursor,
                    old(slots)@,
                    final(slots)@,
                    self.found_named_terminal::<T>(name@),
                ) && (self.found_named_terminal::<T>(name@) is Held ==> holds_token(
                    *final(slots),
                    cursor.slot,
                    named_children(self.child_seq())[name@],
                )),
            },
            self.sound(old(slots)@.len()) ==> cursor.slot < final(slots)@.len(),
    {
        match self.cached_slot(name) {
            Some(slot) => Cursor { slot, marker: std::marker::PhantomData },
            None => put_lexeme(slots, self.read_named_terminal::<T>(name)),
        }
    }

    /// Puts the typed node `value` into a new slot and the slot under `name`
    /// in the named-child cache of this node, in place of what was cached
    /// there. Only a structured node has a cache: on everything else nothing
    /// happens. The tree value and the side table stay as they are.
    pub fn insert<T: Leaf>(&mut self, slots: &mut Slots, name: LeafKey, value: T)
        ensures
            final(self)@ == old(self)@,
            final(self).keys() == old(self).keys(),
            final(self).named() == old(self).named(),
            !(*old(self) is Leaf) ==> final(self).names() == old(self).names() && final(slots)@
                == old(slots)@,
            *old(self) is Leaf ==> ({
                let slot = final(self).names()[name@];
                &&& slot == old(slots)@.len()
                &&& final(self).names() == old(self).names().insert(name@, slot)
                &&& grown(old(slots)@, final(slots)@)
                &&& content(final(slots)@, slot).held
                &&& content(final(slots)@, slot).tree == value.tree()
                &&& T::restored(content(final(slots)@, slot).tree) == value.tree()
            }),
            old(self).sound(old(slots)@.len()) ==> final(self).sound(final(slots)@.len()),
    {
        match self {
            GreenTree::Leaf(leaf) => {
                let cursor = Cursor::of(slots, value);
                leaf.names.insert(name, cursor.slot);
            },
            _ => {},
        }
        proof {
            if old(self).sound(old(slots)@.len()) {
                assert forall|other: Seq<char>| #[trigger]
                    self.names().contains_key(other) implies self.names()[other] < slots@.len() by {
                    if other != name@ {
                        assert(old(self).names().contains_key(other));
                    }
                }
            }
        }
    }

    /// The child under `name` through the named-child cache. On the first call
    /// for a name `f` computes what is found, which goes into a new slot; the
    /// slot is cached under the name and a cursor onto it is handed out. On
    /// every later call the cursor onto the cached slot is handed out: the
    /// same slot, whatever was put there since; `f` is not called and nothing
    /// changes. On everything that is not a structured node the result is an
    /// empty cursor and nothing is cached. The tree value, the named children
    /// and the side table stay as they are.
    pub fn memoized<T: Leaf, F: Fn(&GreenTree) -> Value<T>>(
        &mut self,
        slots: &mut Slots,
        name: LeafKey,
        f: F,
    ) -> (cursor: Cursor<T>)
        requires
            *old(self) is Leaf && !old(self).names().contains_key(name@) ==> f.requires(
                (&*old(self),),
            ),
        ensures
            final(self)@ == old(self)@,
            final(self).keys() == old(self).keys(),
            final(self).named() == old(self).named(),
            !(*old(self) is Leaf) ==> final(self).names() == old(self).names() && fresh(
                cursor,
                old(slots)@,
                final(slots)@,
                Found::Lazy(TreeValue::Empty),
            ),
            *old(self) is Leaf ==> (final(self).names(), cursor.slot) == memo_step(
                old(self).names(),
                name@,
                cursor.slot,
            ),
            *old(self) is Leaf && old(self).names().contains_key(name@) ==> final(slots)@ == old(slots)@,
            *old(self) is Leaf && !old(self).names().contains_key(name@) ==> cursor.slot == old(
                slots
            )@.len() && grown(old(slots)@, final(slots)@) && exists|found: Value<T>| #[trigger]
                f.ensures((&*old(self),), found) && cursor.content(final(slots)@).tree
                    == found.tree() && cursor.content(final(slots)@).held == (found is Ref) && (
                found is Ref ==> cursor.read(final(slots)@) == found.tree()),
            old(self).sound(old(slots)@.len()) ==> final(self).sound(final(slots)@.len())
                && cursor.slot < final(slots)@.len(),
    {
        match self {
            GreenTree::Leaf(_) => {},
            _ => {
                return Cursor::empty(slots);
            },
        }
        match self.cached_slot(name) {
            Some(slot) => {
                return Cursor { slot, marker: std::marker::PhantomData };
            },
            None => {},
        }
        let found = f(&*self);
        let ghost held = found is Ref;
        let ghost tree = found.tree();
        let cursor = Cursor::put(slots, found);
        assert(f.ensures((&*old(self),), found) && cursor.content(slots@).tree == tree
            && cursor.content(slots@).held == held && (found is Ref ==> cursor.read(slots@)
            == found.tree()));
        match self {
            GreenTree::Leaf(leaf) => {
                leaf.names.insert(name, cursor.slot);
            },
            _ => {},
        }
        cursor
    }
}

/// Whether `tree` is a copy of the node that a slot holds as `slot` says: the
/// same tree value with the same three tables.
pub open spec fn copy_of(tree: GreenTree, slot: SlotView) -> bool {
    tree@ == slot.tree && tree.names() == slot.names && tree.keys() == slot.keys && tree.named()
        == slot.named
}

impl<T: Leaf> Cursor<T> {
    /// The child under `name` of the node in the slot of this cursor, through
    /// the named-child cache of that node. The cache that is asked and filled
    /// is the one in the slot, so what is cached through one cursor onto the
    /// slot every cursor onto it finds cached. On the first call for a name
    /// `f` computes what is found from a copy of the node, which goes into a
    /// new slot; on every later call the cursor onto the cached slot is
    /// handed out, `f` is not called and nothing changes. Where the slot
    /// holds no structured node, or there is no slot, the result is an empty
    /// cursor and nothing is cached.
    pub fn memoized<U: Leaf, F: Fn(&GreenTree) -> Value<U>>(
        &self,
        slots: &mut Slots,
        name: LeafKey,
        f: F,
    ) -> (cursor: Cursor<U>)
        requires
            self.content(old(slots)@).tree is Leaf && !self.content(old(slots)@).names.contains_key(
                name@,
            ) ==> forall|tree: GreenTree|
                copy_of(tree, self.content(old(slots)@)) ==> #[trigger] f.requires((&tree,)),
        ensures
            !(self.content(old(slots)@).tree is Leaf) ==> fresh(
                cursor,
                old(slots)@,
                final(slots)@,
                Found::Lazy(TreeValue::Empty),
            ),
            self.content(old(slots)@).tree is Leaf && self.content(old(slots)@).names.contains_key(
                name@,
            ) ==> cursor.slot == self.content(old(slots)@).names[name@] && final(slots)@ == old(
                slots
            )@,
            self.content(old(slots)@).tree is Leaf && !self.content(old(slots)@).names.contains_key(
                name@,
            ) ==> cursor.slot == old(slots)@.len() && final(slots)@ == given(
                old(slots)@,
                self.slot,
                SlotView {
                    names: self.content(old(slots)@).names.insert(name@, cursor.slot),
                    ..self.content(old(slots)@)
                },
            ).push(cursor.content(final(slots)@)) && exists|tree: GreenTree, found: Value<U>|
                copy_of(tree, self.content(old(slots)@)) && #[trigger] f.ensures((&tree,), found)
                    && cursor.content(final(slots)@).tree == found.tree() && cursor.content(
                    final(slots)@,
                ).held == (found is Ref) && (found is Ref ==> cursor.read(final(slots)@)
                    == found.tree()),
            self.content(old(slots)@).sound(old(slots)@.len()) ==> self.content(
                final(slots)@,
            ).sound(final(slots)@.len()) && cursor.slot < final(slots)@.len(),
    {
        let mut tree = slots.tree_at(self.slot);
        let held = slots.held_at(self.slot);
        let ghost copy = tree;
        let cursor = tree.memoized(slots, name, f);
        let ghost grown = slots@;
        slots.store(self.slot, tree, held);
        proof {
            let before = self.content(old(slots)@);
            if !(before.tree is Leaf) {
                assert(slots@ =~= grown);
            } else if before.names.contains_key(name@) {
                assert(slots@ =~= old(slots)@);
            } else {
                let found = choose|found: Value<U>| #[trigger]
                    f.ensures((&copy,), found) && content(grown, cursor.slot).tree == found.tree()
                        && content(grown, cursor.slot).held == (found is Ref) && (found is Ref
                        ==> cursor.read(grown) == found.tree());
                assert(slots@ =~= given(
                    old(slots)@,
                    self.slot,
                    SlotView { names: before.names.insert(name@, cursor.slot), ..before },
                ).push(cursor.content(slots@)));
                assert(copy_of(copy, before) && f.ensures((&copy,), found) && cursor.content(
                    slots@,
                ).tree == found.tree() && cursor.content(slots@).held == (found is Ref) && (
                found is Ref ==> cursor.read(slots@) == found.tree()));
            }
        }
        cursor
    }
}

/// Whether the slot at `slot` holds a terminal whose token is the very handle
/// of the child `child`.
pub open spec fn holds_token(slots: Slots, slot: usize, child: Child) -> bool {
    slot < slots.slots@.len() && (slots.slots@[slot as int].tree matches GreenTree::Token(held)
        && Child::Token(held.token) == child)
}

/// A cursor onto a new slot that holds `found`; a lexeme goes there with its
/// own token handle.
fn put_lexeme<T: Terminal>(slots: &mut Slots, found: Value<Lexeme<T>>) -> (cursor: Cursor<
    Lexeme<T>,
>)
    ensures
        cursor.slot == old(slots)@.len(),
        grown(old(slots)@, final(slots)@),
        cursor.content(final(slots)@).tree == found.tree(),
        cursor.content(final(slots)@).held == (found is Ref),
        found is Ref ==> cursor.read(final(slots)@) == found.tree(),
        found matches Value::Ref(lexeme) ==> holds_token(
            *final(slots),
            cursor.slot,
            Child::Token(lexeme.token),
        ),
{
    match found {
        Value::Green(tree) => Cursor::new(slots, tree),
        Value::Ref(lexeme) => {
            proof {
                lexeme.lemma_restored();
            }
            let tree = lexeme.duplicate().unwrap();
            Cursor { slot: slots.add(tree, true), marker: std::marker::PhantomData }
        },
    }
}

/// Cache stability: once a name was asked for, asking for it again hands out
/// the same slot and leaves the cache as it is, however many slots were added
/// in between.
pub proof fn lemma_cache_stable(
    names: Map<Seq<char>, usize>,
    name: Seq<char>,
    first: usize,
    second: usize,
)
    ensures
        memo_step(memo_step(names, name, first).0, name, second) == memo_step(names, name, first),
{
}

/// Detach isolation: the cache of a detached node is empty, as `as_new_node`
/// leaves it, whatever the cache of the node it was detached from holds. So a
/// name that is cached on the node is not cached on the detached one, and a
/// name that is then cached on the detached one is all that its cache holds.
pub proof fn lemma_detach_isolated(
    node: GreenTree,
    detached: GreenTree,
    name: Seq<char>,
    free: usize,
)
    requires
        detached.names() == Map::<Seq<char>, usize>::empty(),
    ensures
        memo_step(node.names(), name, free).0.contains_key(name),
        !detached.names().contains_key(name),
        memo_step(detached.names(), name, free).0 == Map::<Seq<char>, usize>::empty().insert(
            name,
            free,
        ),
{
}

/// The accessors are total: on everything that is not a structured node, be
/// it a broken region, the absent marker, a terminal or a group, reading a
/// child by position or by name and filtering the children all find a broken
/// region, and reading that gives the empty node of the type.
pub proof fn lemma_accessors_are_total<T: Leaf, L: Terminal>(
    tree: GreenTree,
    nth: usize,
    name: Seq<char>,
)
    requires
        !(tree is Leaf),
    ensures
        tree.found_at::<T>(nth) == Found::Lazy(TreeValue::Empty),
        tree.found_terminal::<L>(nth) == Found::Lazy(TreeValue::Empty),
        tree.found_named::<T>(name) == Found::Lazy(TreeValue::Empty),
        tree.found_named_terminal::<L>(name) == Found::Lazy(TreeValue::Empty),
        tree.filtered::<T>() == Found::Lazy(TreeValue::Empty),
        tree.cached(name) is None,
        forall|found: Value<T>| #[trigger]
            found.holds(Found::Lazy(TreeValue::Empty)) ==> found.is_empty_value() && found.read()
                == T::built(TreeValue::Empty),
        forall|cursor: Cursor<T>, slots: Seq<SlotView>| #[trigger]
            cursor.holds(slots, Found::Lazy(TreeValue::Empty)) ==> cursor.is_empty_cursor(slots)
                && cursor.read(slots) == T::built(TreeValue::Empty),
{
}

} // verus!
