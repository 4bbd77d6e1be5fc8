//! Cursors and the slots they stand for. A slot is a place that holds a tree
//! location or a typed value; the table of the slots owns them all, and a
//! cursor is the stable index of one. Whoever holds the index reads the same
//! slot, so what one holder puts there every other holder finds.

use vstd::prelude::*;
use std::marker::PhantomData;
use std::rc::Rc;
use crate::leaf::green::{
    children_of, named_children, Attachment, GreenTree, Key, TreeValue,
};
use crate::leaf::node::{Leaf, Node};
use crate::leaf::tree::Child;
use crate::leaf::value::{located_as, location_as, Value};
use crate::span::Spanned;

verus! {

/// What a slot holds: a tree value, and whether that is a typed value that was
/// put there, which is then the authority, or a location of the tree. A typed
/// value is kept as the tree value it was taken for, and a read restores it.
#[derive(Debug)]
pub struct Slot {
    pub tree: GreenTree,
    /// Whether the slot holds a typed value that was put there.
    pub held: bool,
}

/// A slot as mathematical data: its tree value, whether it holds a typed
/// value, and the three tables of the node it holds.
pub struct SlotView {
    pub tree: TreeValue,
    pub held: bool,
    pub names: Map<Seq<char>, usize>,
    pub keys: Map<Seq<char>, Attachment>,
    pub named: Map<Seq<char>, Child>,
}

impl View for Slot {
    type V = SlotView;

    open spec fn view(&self) -> SlotView {
        SlotView {
            tree: self.tree@,
            held: self.held,
            names: self.tree.names(),
            keys: self.tree.keys(),
            named: self.tree.named(),
        }
    }
}

impl SlotView {
    /// Whether what the slot holds is sound where there are `slots` slots:
    /// the table of the named children is that of the construct, and every
    /// slot that the named-child cache holds is one of the slots. As
    /// [`GreenTree::sound`] says it of the node in the slot.
    pub open spec fn sound(self, slots: nat) -> bool {
        &&& self.named == named_children(children_of(self.tree))
        &&& forall|name: Seq<char>| #[trigger]
            self.names.contains_key(name) ==> self.names[name] < slots
    }
}

/// The slot that holds a broken region and nothing else: what is read where
/// there is no slot.
pub open spec fn blank_slot() -> SlotView {
    SlotView {
        tree: TreeValue::Empty,
        held: false,
        names: Map::empty(),
        keys: Map::empty(),
        named: Map::empty(),
    }
}

/// What the slot at `slot` holds; the blank slot where there is no such slot.
pub open spec fn content(slots: Seq<SlotView>, slot: usize) -> SlotView {
    if slot < slots.len() {
        slots[slot as int]
    } else {
        blank_slot()
    }
}

/// Whether `after` is `before` with one more slot at its end.
pub open spec fn grown(before: Seq<SlotView>, after: Seq<SlotView>) -> bool {
    after.len() == before.len() + 1 && after.take(before.len() as int) == before
}

/// The slots after `slot` was given `with`: the table updated at that index,
/// and the table as it was where there is no such slot.
pub open spec fn given(slots: Seq<SlotView>, slot: usize, with: SlotView) -> Seq<SlotView> {
    if slot < slots.len() {
        slots.update(slot as int, with)
    } else {
        slots
    }
}

/// The table of the slots.
#[derive(Debug)]
pub struct Slots {
    pub slots: Vec<Slot>,
}

impl View for Slots {
    type V = Seq<SlotView>;

    open spec fn view(&self) -> Seq<SlotView> {
        self.slots@.map_values(|slot: Slot| slot@)
    }
}

impl Slots {
    /// A table without slots.
    pub fn new() -> (slots: Slots)
        ensures
            slots@.len() == 0,
    {
        Slots { slots: Vec::new() }
    }

    /// The number of slots.
    pub fn len(&self) -> (len: usize)
        ensures
            len == self@.len(),
    {
        self.slots.len()
    }

    /// A copy of the tree value that the slot at `slot` holds, with its
    /// tables.
    pub fn tree_at(&self, slot: usize) -> (tree: GreenTree)
        ensures
            tree@ == content(self@, slot).tree,
            tree.names() == content(self@, slot).names,
            tree.keys() == content(self@, slot).keys,
            tree.named() == content(self@, slot).named,
    {
        if slot < self.slots.len() {
            self.slots[slot].tree.duplicate()
        } else {
            GreenTree::Empty
        }
    }

    /// Whether the slot at `slot` holds a typed value that was put there.
    pub fn held_at(&self, slot: usize) -> (held: bool)
        ensures
            held == content(self@, slot).held,
    {
        if slot < self.slots.len() {
            self.slots[slot].held
        } else {
            false
        }
    }

    /// Adds a slot that holds `tree` and gives its index.
    pub fn add(&mut self, tree: GreenTree, held: bool) -> (slot: usize)
        ensures
            slot == old(self)@.len(),
            final(self).slots@ == old(self).slots@.push(Slot { tree, held }),
            final(self)@ == old(self)@.push((Slot { tree, held })@),
            grown(old(self)@, final(self)@),
            tree.sound(old(self)@.len()) ==> final(self)@[slot as int].sound(final(self)@.len()),
    {
        let slot = self.slots.len();
        self.slots.push(Slot { tree, held });
        proof {
            assert(self@ =~= old(self)@.push((Slot { tree, held })@));
            assert(self@.take(old(self)@.len() as int) =~= old(self)@);
        }
        slot
    }

    /// Adds a slot that holds `value` and gives its index.
    pub fn put<T: Node>(&mut self, value: Value<T>) -> (slot: usize)
        ensures
            slot == old(self)@.len(),
            grown(old(self)@, final(self)@),
            final(self)@[slot as int].tree == value.tree(),
            final(self)@[slot as int].held == (value is Ref),
            value is Ref ==> T::restored(final(self)@[slot as int].tree) == value.tree(),
            value matches Value::Green(tree) ==> final(self)@[slot as int] == (Slot {
                tree,
                held: false,
            })@,
    {
        match value {
            Value::Green(tree) => self.add(tree, false),
            Value::Ref(node) => {
                proof {
                    node.lemma_restored();
                }
                let tree = node.duplicate().unwrap();
                self.add(tree, true)
            },
        }
    }

    /// Gives the slot at `slot` the tree value `tree`, in place of what it
    /// held. Where there is no such slot, nothing happens.
    pub fn store(&mut self, slot: usize, tree: GreenTree, held: bool)
        ensures
            final(self)@ == given(old(self)@, slot, (Slot { tree, held })@),
    {
        if slot < self.slots.len() {
            self.slots.set(slot, Slot { tree, held });
            proof {
                assert(self@ =~= old(self)@.update(slot as int, (Slot { tree, held })@));
            }
        }
    }
}

/// A typed handle onto a slot: the index of the slot. Reading it gives a value
/// of type `T`, whatever the slot holds. A copy of a cursor stands for the
/// same slot.
#[derive(Debug)]
pub struct Cursor<T> {
    pub slot: usize,
    pub marker: PhantomData<T>,
}

impl<T> Clone for Cursor<T> {
    /// Another cursor onto the same slot.
    fn clone(&self) -> (cursor: Self)
        ensures
            cursor.slot == self.slot,
    {
        Cursor { slot: self.slot, marker: PhantomData }
    }
}

impl<T: Leaf> Cursor<T> {
    /// What the slot of this cursor holds.
    pub open spec fn content(&self, slots: Seq<SlotView>) -> SlotView {
        content(slots, self.slot)
    }

    /// Whether this cursor is an empty cursor: its slot holds a broken region,
    /// and no typed value.
    pub open spec fn is_empty_cursor(&self, slots: Seq<SlotView>) -> bool {
        self.content(slots).tree is Empty && !self.content(slots).held
    }

    /// The tree value of the typed value that reading this cursor gives: that
    /// of the typed value that the slot holds, restored, or else that of the
    /// node of the type built from the location in the slot.
    pub open spec fn read(&self, slots: Seq<SlotView>) -> TreeValue {
        if self.content(slots).held {
            T::restored(self.content(slots).tree)
        } else {
            T::built(self.content(slots).tree)
        }
    }

    /// Whether reading this cursor step by step gives a value: its slot holds
    /// a typed value, a structured node, a group, or a terminal of the type.
    pub open spec fn yields(&self, slots: Seq<SlotView>) -> bool {
        self.content(slots).held || Value::<T>::steps(self.content(slots).tree)
    }

    /// A cursor onto a new slot that holds `value`.
    pub fn put(slots: &mut Slots, value: Value<T>) -> (cursor: Self)
        ensures
            cursor.slot == old(slots)@.len(),
            grown(old(slots)@, final(slots)@),
            cursor.content(final(slots)@).tree == value.tree(),
            cursor.content(final(slots)@).held == (value is Ref),
            value is Ref ==> cursor.read(final(slots)@) == value.tree(),
            value matches Value::Green(tree) ==> cursor.content(final(slots)@) == (Slot {
                tree,
                held: false,
            })@,
    {
        Cursor { slot: slots.put(value), marker: PhantomData }
    }

    /// An empty cursor, onto a new slot.
    pub fn empty(slots: &mut Slots) -> (cursor: Self)
        ensures
            cursor.slot == old(slots)@.len(),
            final(slots)@ == old(slots)@.push(blank_slot()),
            grown(old(slots)@, final(slots)@),
            cursor.is_empty_cursor(final(slots)@),
    {
        Cursor { slot: slots.add(GreenTree::Empty, false), marker: PhantomData }
    }

    /// A cursor onto a new slot that holds the tree location `value`.
    pub fn new(slots: &mut Slots, value: GreenTree) -> (cursor: Self)
        ensures
            cursor.slot == old(slots)@.len(),
            final(slots).slots@ == old(slots).slots@.push(Slot { tree: value, held: false }),
            final(slots)@ == old(slots)@.push((Slot { tree: value, held: false })@),
            grown(old(slots)@, final(slots)@),
            value.sound(old(slots)@.len()) ==> cursor.content(final(slots)@).sound(
                final(slots)@.len(),
            ),
    {
        Cursor { slot: slots.add(value, false), marker: PhantomData }
    }

    /// A cursor onto a new slot that holds the typed value `value`. Reading
    /// the cursor gives that value back: a node that stands for the tree value
    /// that `value` stands for.
    pub fn of(slots: &mut Slots, value: T) -> (cursor: Self)
        ensures
            cursor.slot == old(slots)@.len(),
            grown(old(slots)@, final(slots)@),
            cursor.content(final(slots)@).tree == value.tree(),
            cursor.content(final(slots)@).held,
            cursor.read(final(slots)@) == value.tree(),
            cursor.yields(final(slots)@),
    {
        proof {
            value.lemma_restored();
        }
        let tree = value.unwrap();
        Cursor { slot: slots.add(tree, true), marker: PhantomData }
    }

    /// Puts what the slot of `value` holds into the slot of this cursor, in
    /// place of what it held. The whole slot is replaced, nothing is merged;
    /// every cursor onto this slot reads the new content from then on, and
    /// the slot of `value` stays as it is and stays a slot of its own.
    pub fn set(&self, slots: &mut Slots, value: Cursor<T>)
        ensures
            final(slots)@ == given(old(slots)@, self.slot, content(old(slots)@, value.slot)),
    {
        let tree = slots.tree_at(value.slot);
        let held = slots.held_at(value.slot);
        proof {
            assert((Slot { tree, held })@ == content(slots@, value.slot));
        }
        slots.store(self.slot, tree, held);
    }

    /// Puts the typed value `value` into the slot of this cursor, in place of
    /// what it held. Every cursor of this type onto the slot reads that value
    /// from then on.
    pub fn replace(&self, slots: &mut Slots, value: T)
        ensures
            final(slots)@ == given(
                old(slots)@,
                self.slot,
                content(final(slots)@, self.slot),
            ),
            self.slot < old(slots)@.len() ==> self.content(final(slots)@).tree == value.tree()
                && self.content(final(slots)@).held && self.read(final(slots)@) == value.tree(),
    {
        proof {
            value.lemma_restored();
        }
        let tree = value.unwrap();
        slots.store(self.slot, tree, true);
        proof {
            if self.slot < old(slots)@.len() {
                assert(slots@ =~= old(slots)@.update(self.slot as int, slots@[self.slot as int]));
            }
        }
    }

    /// Puts the shared typed value `value` into the slot of this cursor, in
    /// place of what it held.
    pub fn replace_rc(&self, slots: &mut Slots, value: Rc<T>)
        ensures
            final(slots)@ == given(
                old(slots)@,
                self.slot,
                content(final(slots)@, self.slot),
            ),
            self.slot < old(slots)@.len() ==> self.content(final(slots)@).tree == value.tree()
                && self.content(final(slots)@).held && self.read(final(slots)@) == value.tree(),
    {
        self.replace(slots, value.duplicate());
    }

    /// A cursor onto a new slot that holds a fresh copy of what the slot of
    /// this cursor holds. The copy stands for the same tree value, and is a
    /// typed value where this slot holds one; its named children are computed
    /// anew, and its named-child cache and side table are empty, whatever
    /// those of this slot hold. This slot stays as it is.
    pub fn as_new_node(&self, slots: &mut Slots) -> (cursor: Self)
        ensures
            cursor.slot == old(slots)@.len(),
            final(slots)@ == old(slots)@.push(
                SlotView {
                    tree: self.content(old(slots)@).tree,
                    held: self.content(old(slots)@).held,
                    names: Map::empty(),
                    keys: Map::empty(),
                    named: named_children(children_of(self.content(old(slots)@).tree)),
                },
            ),
            cursor.content(final(slots)@).sound(0),
    {
        let tree = slots.tree_at(self.slot).as_new_node();
        let held = slots.held_at(self.slot);
        Cursor { slot: slots.add(tree, held), marker: PhantomData }
    }

    /// What the slot of this cursor holds, as content of its own: the typed
    /// value, restored, or the location.
    pub fn value(&self, slots: &Slots) -> (value: Value<T>)
        ensures
            value is Ref == self.content(slots@).held,
            value.read() == self.read(slots@),
            value is Green ==> value.tree() == self.content(slots@).tree,
    {
        let tree = slots.tree_at(self.slot);
        if slots.held_at(self.slot) {
            Value::Ref(Rc::new(T::restore(tree)))
        } else {
            Value::Green(tree)
        }
    }

    /// The typed value at this cursor, shared: the typed value that was put
    /// into the slot, or else the node of the type over the location in the
    /// slot. Never fails: on a location of the wrong shape it gives the empty
    /// node of the type.
    pub fn as_leaf(&self, slots: &Slots) -> (node: Rc<T>)
        ensures
            node.tree() == self.read(slots@),
    {
        Rc::new(self.get(slots))
    }

    /// The typed value at this cursor: the typed value that was put into the
    /// slot, or else the node of the type over the location in the slot.
    /// Never fails: on a location of the wrong shape, on the absent marker, on
    /// a broken region and where there is no slot it gives the empty node of
    /// the type.
    pub fn get(&self, slots: &Slots) -> (node: T)
        ensures
            node.tree() == self.read(slots@),
    {
        let tree = slots.tree_at(self.slot);
        if slots.held_at(self.slot) {
            T::restore(tree)
        } else {
            T::new(tree)
        }
    }

    /// The typed value at this cursor, if reading step by step gives one, and
    /// then the value that `get` gives: `None` on the absent marker, on a
    /// broken region, and on a terminal of another type.
    pub fn try_get(&self, slots: &Slots) -> (node: Option<Rc<T>>)
        ensures
            node is Some <==> self.yields(slots@),
            node matches Some(node) ==> node.tree() == self.read(slots@),
    {
        self.value(slots).try_get()
    }

    /// Whether this cursor is onto the absent marker.
    pub fn is_none(&self, slots: &Slots) -> (none: bool)
        ensures
            none == (self.content(slots@).tree is Absent),
    {
        match slots.tree_at(self.slot) {
            GreenTree::Absent => true,
            _ => false,
        }
    }

    /// Whether this cursor is onto a structured node that has children.
    pub fn is_empty(&self, slots: &Slots) -> (has_children: bool)
        ensures
            has_children == (children_of(self.content(slots@).tree).len() > 0),
    {
        match slots.tree_at(self.slot) {
            GreenTree::Leaf(leaf) => leaf.data.value.value.children.len() > 0,
            _ => false,
        }
    }

    /// The typed value at this cursor together with the location that it was
    /// read from: nowhere, where the slot holds a terminal of another type.
    pub fn location(&self, slots: &Slots) -> (located: Spanned<Rc<T>>)
        ensures
            located.span == location_as::<T>(self.content(slots@).tree),
            located.value.tree() == self.read(slots@),
    {
        let span = located_as::<T>(slots.tree_at(self.slot));
        Spanned::new(span, self.as_leaf(slots))
    }

    /// The next step of a chain of reads. Where this cursor gives a value, the
    /// result is a cursor onto a new slot that holds what `f` makes of it;
    /// where it gives none, the result is an empty cursor and `f` is not
    /// called.
    pub fn and_then<U: Leaf, F: FnOnce(Rc<T>) -> Value<U>>(
        self,
        slots: &mut Slots,
        f: F,
    ) -> (next: Cursor<U>)
        requires
            self.yields(old(slots)@) ==> forall|node: Rc<T>|
                node.tree() == self.read(old(slots)@) ==> f.requires((node,)),
        ensures
            next.slot == old(slots)@.len(),
            grown(old(slots)@, final(slots)@),
            !self.yields(old(slots)@) ==> final(slots)@ == old(slots)@.push(blank_slot()),
            self.yields(old(slots)@) ==> exists|node: Rc<T>, found: Value<U>|
                node.tree() == self.read(old(slots)@) && f.ensures((node,), found)
                    && next.content(final(slots)@).tree == found.tree() && next.content(
                    final(slots)@,
                ).held == (found is Ref) && (found is Ref ==> next.read(final(slots)@)
                    == found.tree()),
    {
        match self.try_get(slots) {
            Some(node) => {
                let found = f(node);
                let next = Cursor::put(slots, found);
                assert(node.tree() == self.read(old(slots)@) && f.ensures((node,), found)
                    && next.content(slots@).tree == found.tree() && next.content(slots@).held
                    == (found is Ref));
                next
            },
            None => Cursor::empty(slots),
        }
    }

    /// Attaches `value` under `key` in the side table of the node in the slot
    /// of this cursor, in place of what was attached there, and returns it.
    /// Every cursor onto this slot finds it there from then on. Where the
    /// slot holds no structured node, or there is no slot, nothing is stored.
    pub fn insert_key<K: Key>(&self, slots: &mut Slots, key: K, value: Attachment) -> (stored:
        Attachment)
        ensures
            stored == value,
            final(slots)@ == if self.content(old(slots)@).tree is Leaf {
                given(
                    old(slots)@,
                    self.slot,
                    SlotView {
                        keys: self.content(old(slots)@).keys.insert(key.spec_name(), value),
                        ..self.content(old(slots)@)
                    },
                )
            } else {
                old(slots)@
            },
    {
        let mut tree = slots.tree_at(self.slot);
        let held = slots.held_at(self.slot);
        tree.insert_key(key, value);
        slots.store(self.slot, tree, held);
        proof {
            if !(self.content(old(slots)@).tree is Leaf) && self.slot < old(slots)@.len() {
                assert(slots@ =~= old(slots)@);
            }
        }
        value
    }

    /// What is attached under `key` in the side table of the node in the slot
    /// of this cursor. Where nothing is attached yet, the default attachment
    /// is, from now on; where the slot holds no structured node, or there is
    /// no slot, the default attachment is returned and nothing is stored.
    pub fn key<K: Key>(&self, slots: &mut Slots, key: K) -> (found: Attachment)
        ensures
            found == if self.content(old(slots)@).keys.contains_key(key.spec_name()) {
                self.content(old(slots)@).keys[key.spec_name()]
            } else {
                Attachment::Nothing
            },
            final(slots)@ == if self.content(old(slots)@).tree is Leaf {
                given(
                    old(slots)@,
                    self.slot,
                    SlotView {
                        keys: self.content(old(slots)@).keys.insert(key.spec_name(), found),
                        ..self.content(old(slots)@)
                    },
                )
            } else {
                old(slots)@
            },
    {
        let mut tree = slots.tree_at(self.slot);
        let held = slots.held_at(self.slot);
        let found = tree.key(key);
        slots.store(self.slot, tree, held);
        proof {
            if !(self.content(old(slots)@).tree is Leaf) && self.slot < old(slots)@.len() {
                assert(slots@ =~= old(slots)@);
            }
        }
        found
    }
}

impl<T: Leaf> Cursor<Vec<T>> {
    /// The tree values of the nodes of the sequence at this cursor.
    pub open spec fn items(&self, slots: Seq<SlotView>) -> Seq<TreeValue> {
        self.read(slots)->Vec_0
    }

    /// A cursor onto a new slot that holds the first node of the sequence at
    /// this cursor, or the absent marker where the sequence is empty.
    pub fn first(self, slots: &mut Slots) -> (cursor: Cursor<T>)
        ensures
            cursor.slot == old(slots)@.len(),
            grown(old(slots)@, final(slots)@),
            match self.items(old(slots)@).len() > 0 {
                true => cursor.content(final(slots)@).held && cursor.content(
                    final(slots)@,
                ).tree == self.items(old(slots)@)[0] && cursor.read(final(slots)@)
                    == self.items(old(slots)@)[0],
                false => cursor.content(final(slots)@) == blank_slot_of(TreeValue::Absent),
            },
    {
        let nodes = self.get(slots);
        let first = Value::of(nodes).first();
        Cursor::put(slots, first)
    }

    /// A cursor onto a new slot that holds the sequence at this cursor without
    /// its first `n` nodes; the empty sequence where it has no more than `n`.
    pub fn skip(self, slots: &mut Slots, n: usize) -> (cursor: Cursor<Vec<T>>)
        ensures
            cursor.slot == old(slots)@.len(),
            grown(old(slots)@, final(slots)@),
            cursor.content(final(slots)@).held,
            cursor.content(final(slots)@).tree == TreeValue::Vec(
                if n <= self.items(old(slots)@).len() {
                    self.items(old(slots)@).skip(n as int)
                } else {
                    Seq::<TreeValue>::empty()
                },
            ),
            cursor.read(final(slots)@) == cursor.content(final(slots)@).tree,
    {
        let nodes = self.get(slots);
        let rest = Value::of(nodes).skip(n);
        Cursor::put(slots, rest)
    }
}

/// The slot that holds the tree location `tree`, where that is no structured
/// node, and nothing else.
pub open spec fn blank_slot_of(tree: TreeValue) -> SlotView {
    SlotView { tree, ..blank_slot() }
}

/// A chain of reads stops at the first step that gives nothing: an empty
/// cursor, and a cursor onto the absent marker, give nothing, so every later
/// step of the chain is an empty cursor again.
pub proof fn lemma_chain_short_circuits<T: Leaf>(cursor: Cursor<T>, slots: Seq<SlotView>)
    requires
        cursor.is_empty_cursor(slots) || (cursor.content(slots).tree is Absent && !cursor.content(
            slots,
        ).held),
    ensures
        !cursor.yields(slots),
{
}

/// What one cursor puts into a slot, every cursor onto that slot reads; what
/// is put into one slot, no cursor onto another slot reads.
pub proof fn lemma_set_is_seen<T: Leaf>(
    slots: Seq<SlotView>,
    writer: Cursor<T>,
    reader: Cursor<T>,
    with: SlotView,
)
    requires
        writer.slot < slots.len(),
    ensures
        reader.slot == writer.slot ==> reader.content(given(slots, writer.slot, with)) == with,
        reader.slot != writer.slot ==> reader.content(given(slots, writer.slot, with))
            == reader.content(slots),
{
}

} // verus!
