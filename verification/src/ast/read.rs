//! Reading the children of a tree value as typed nodes of their own.

use vstd::prelude::*;
use crate::leaf::access::{fresh, kept, memo_step, named_found, Found};
use crate::leaf::cursor::{Cursor, Slots};
use crate::leaf::value::Value;
use crate::leaf::green::{GreenTree, TreeValue};
use crate::leaf::node::{trees_of, Leaf, Node};
use crate::leaf::tree::LeafKey;

verus! {

/// The tree value of the node of type `T` that reading a cursor gives, when
/// the cursor holds what `found` says.
pub open spec fn found_tree<T: Node>(found: Found) -> TreeValue {
    match found {
        Found::Held(tree) => tree,
        Found::Lazy(tree) => T::built(tree),
    }
}

/// The tree value of the node of type `T` read under `name` of `tree`.
pub open spec fn named_tree<T: Leaf>(tree: TreeValue, name: Seq<char>) -> TreeValue {
    found_tree::<T>(named_found::<T>(tree, name))
}

/// The node of type `T` under `name` of `tree`; the empty node of the type
/// where nothing of the type is declared under the name.
pub fn read_named<T: Leaf>(tree: &GreenTree, name: &str) -> (node: T)
    ensures
        node.tree() == named_tree::<T>(tree@, name@),
{
    tree.read_named::<T>(name).get()
}

/// The tree values of the children of type `T` of `tree`, in order; none where
/// `tree` is not a structured node.
pub open spec fn all_trees<T: Leaf>(tree: TreeValue) -> Seq<TreeValue> {
    match tree {
        TreeValue::Leaf { data, .. } => kept::<T>(data.value.value.children@),
        _ => Seq::empty(),
    }
}

/// The children of type `T` of `tree`, in order.
pub fn read_all<T: Leaf>(tree: &GreenTree) -> (nodes: Vec<T>)
    ensures
        trees_of(nodes@) == all_trees::<T>(tree@),
{
    let nodes = tree.read_filter::<T>().get();
    proof {
        assert(nodes.tree()->Vec_0 == trees_of(nodes@));
        if !(*tree is Leaf) {
            assert(<Vec<T> as Node>::built(TreeValue::Empty)->Vec_0 == Seq::<TreeValue>::empty());
        }
    }
    nodes
}

/// The tree value of the first child of type `T` of `tree`: that of the empty
/// optional node of the type where there is none.
pub open spec fn first_tree<T: Leaf>(tree: TreeValue) -> TreeValue {
    if all_trees::<T>(tree).len() > 0 {
        all_trees::<T>(tree)[0]
    } else {
        T::built(TreeValue::Absent)
    }
}

/// The first child of type `T` of `tree`; the node of the type built from the
/// absent marker where there is none.
pub fn read_first<T: Leaf>(tree: &GreenTree) -> (node: T)
    ensures
        node.tree() == first_tree::<T>(tree@),
{
    let all = tree.read_filter::<T>();
    proof {
        if !(*tree is Leaf) {
            assert(<Vec<T> as Node>::built(TreeValue::Empty)->Vec_0 == Seq::<TreeValue>::empty());
        }
    }
    all.first().get()
}

/// What a cursor onto the first child of type `T` of `tree` holds: the node of
/// that child, or the absent marker where there is none.
pub open spec fn first_found<T: Leaf>(tree: TreeValue) -> Found {
    if all_trees::<T>(tree).len() > 0 {
        Found::Held(all_trees::<T>(tree)[0])
    } else {
        Found::Lazy(TreeValue::Absent)
    }
}

/// The first child of type `T` of `tree`, as content for a slot.
pub fn first_of<T: Leaf>(tree: &GreenTree) -> (found: Value<T>)
    ensures
        found.holds(first_found::<T>(tree@)),
{
    let all = tree.read_filter::<T>();
    proof {
        if !(*tree is Leaf) {
            assert(<Vec<T> as Node>::built(TreeValue::Empty)->Vec_0 == Seq::<TreeValue>::empty());
        }
    }
    all.first()
}

/// A cursor onto the first child of type `T` of `tree`, through the
/// named-child cache of `tree` under `name`: computed, put into a new slot and
/// cached at the first call, the cached slot handed out at every later one. On
/// everything that is not a structured node the result is an empty cursor.
pub fn cached_first<T: Leaf>(tree: &mut GreenTree, slots: &mut Slots, name: LeafKey) -> (cursor:
    Cursor<T>)
    ensures
        final(tree)@ == old(tree)@,
        final(tree).keys() == old(tree).keys(),
        final(tree).named() == old(tree).named(),
        !(*old(tree) is Leaf) ==> final(tree).names() == old(tree).names() && fresh(
            cursor,
            old(slots)@,
            final(slots)@,
            Found::Lazy(TreeValue::Empty),
        ),
        *old(tree) is Leaf ==> (final(tree).names(), cursor.slot) == memo_step(
            old(tree).names(),
            name@,
            cursor.slot,
        ),
        *old(tree) is Leaf && old(tree).names().contains_key(name@) ==> final(slots)@ == old(slots)@,
        *old(tree) is Leaf && !old(tree).names().contains_key(name@) ==> fresh(
            cursor,
            old(slots)@,
            final(slots)@,
            first_found::<T>(old(tree)@),
        ),
        old(tree).sound(old(slots)@.len()) ==> final(tree).sound(final(slots)@.len())
            && cursor.slot < final(slots)@.len(),
{
    tree.memoized(slots, name, first_of::<T>)
}

} // verus!
