//! What a slot can be given and what a read finds: a tree location or a typed
//! value of its own.

use vstd::prelude::*;
use std::rc::Rc;
use crate::leaf::green::{GreenTree, TreeValue};
use crate::leaf::interner::rc_share;
use crate::leaf::node::{trees_of, Leaf, Node};
use crate::span::{Loc, Spanned};

verus! {

/// What is found in the tree or given to a slot: a tree location, from which
/// the typed value is derived at each read, or a typed value of its own, which
/// is then the authority.
#[derive(Debug)]
pub enum Value<T> {
    Green(GreenTree),
    Ref(Rc<T>),
}

impl<T: Node> Value<T> {
    /// The tree value that is held: that of the location, or the one that the
    /// typed value stands for.
    pub open spec fn tree(&self) -> TreeValue {
        match self {
            Value::Green(tree) => tree@,
            Value::Ref(node) => node.tree(),
        }
    }

    /// The tree value that is held, as a tree of its own.
    pub fn green(&self) -> (tree: GreenTree)
        ensures
            tree@ == self.tree(),
    {
        match self {
            Value::Green(tree) => tree.duplicate(),
            Value::Ref(node) => node.duplicate().unwrap(),
        }
    }

    /// A copy of what is held: the same kind of content, standing for the same
    /// tree value; a typed value is shared, not copied.
    pub fn duplicate(&self) -> (copy: Self)
        ensures
            copy.tree() == self.tree(),
            match *self {
                Value::Green(tree) => copy matches Value::Green(other) && other.names()
                    == tree.names() && other.keys() == tree.keys() && other.named() == tree.named(),
                Value::Ref(node) => copy == Value::Ref(node),
            },
    {
        match self {
            Value::Green(tree) => Value::Green(tree.duplicate()),
            Value::Ref(node) => Value::Ref(rc_share(node)),
        }
    }
}

impl<T: Node> Clone for Value<T> {
    /// A copy of what is held; see [`Value::duplicate`].
    fn clone(&self) -> (copy: Self)
        ensures
            copy.tree() == self.tree(),
    {
        self.duplicate()
    }
}

impl<T: Leaf> Value<T> {
    /// Whether this is the empty content: the location of a broken region.
    pub open spec fn is_empty_value(&self) -> bool {
        *self == Value::<T>::Green(GreenTree::Empty)
    }

    /// Whether a step-by-step read of the location `tree` gives a value: it
    /// is a structured node, a group, or a terminal of the type. The absent
    /// marker, a broken region and a terminal of another type give none.
    pub open spec fn steps(tree: TreeValue) -> bool {
        match tree {
            TreeValue::Leaf { .. } => true,
            TreeValue::Vec(_) => true,
            TreeValue::Token { .. } => T::makes(tree),
            TreeValue::Absent => false,
            TreeValue::Empty => false,
        }
    }

    /// Whether reading this step by step gives a value: it holds a typed
    /// value, or a location a step-by-step read of which gives one.
    pub open spec fn yields(&self) -> bool {
        match *self {
            Value::Ref(_) => true,
            Value::Green(tree) => Self::steps(tree@),
        }
    }

    /// The empty content.
    pub fn empty() -> (found: Self)
        ensures
            found.is_empty_value(),
    {
        Value::Green(GreenTree::Empty)
    }

    /// The tree location `value`.
    pub fn new(value: GreenTree) -> (found: Self)
        ensures
            found == Value::<T>::Green(value),
    {
        Value::Green(value)
    }

    /// The typed value `value`: reading it gives exactly
    /// that value.
    pub fn of(value: T) -> (found: Self)
        ensures
            found matches Value::Ref(held) && *held == value,
    {
        Value::Ref(Rc::new(value))
    }

    /// The shared typed value `value`.
    pub fn from_rc(value: Rc<T>) -> (found: Self)
        ensures
            found == Value::Ref(value),
    {
        Value::Ref(value)
    }

    /// The typed value `value`, or the absent marker where
    /// there is no value.
    pub fn from_option(value: Option<T>) -> (found: Self)
        ensures
            match value {
                Some(value) => found matches Value::Ref(held) && *held == value,
                None => found == Value::<T>::Green(GreenTree::Absent),
            },
    {
        match value {
            Some(value) => Value::of(value),
            None => Value::Green(GreenTree::Absent),
        }
    }

    /// The typed value of this content: the value that it holds, or else the
    /// node of type `T` over its tree location. Never fails: on a location of
    /// the wrong shape it gives the empty node of the type.
    pub fn as_leaf(&self) -> (node: Rc<T>)
        ensures
            match *self {
                Value::Ref(held) => node == held,
                Value::Green(tree) => node.tree() == T::built(tree@),
            },
    {
        match self {
            Value::Green(tree) => Rc::new(T::new(tree.duplicate())),
            Value::Ref(node) => rc_share(node),
        }
    }

    /// The tree value of the typed value that reading this gives.
    pub open spec fn read(&self) -> TreeValue {
        match *self {
            Value::Ref(held) => held.tree(),
            Value::Green(tree) => T::built(tree@),
        }
    }

    /// The typed value of this content, as a value of its own. Never fails: on
    /// a location of the wrong shape, on the absent marker and on a broken
    /// region it gives the empty node of the type.
    pub fn get(&self) -> (node: T)
        ensures
            node.tree() == self.read(),
    {
        match self {
            Value::Green(tree) => T::new(tree.duplicate()),
            Value::Ref(node) => node.duplicate(),
        }
    }

    /// The typed value of this content, if reading step by step gives one,
    /// and then the value that `as_leaf` gives: `None` on the absent marker,
    /// on a broken region, and on a terminal of another type.
    pub fn try_get(&self) -> (node: Option<Rc<T>>)
        ensures
            node is Some <==> self.yields(),
            node matches Some(node) ==> self.gives(node),
    {
        match self {
            Value::Ref(node) => Some(rc_share(node)),
            Value::Green(tree) => match tree {
                GreenTree::Leaf(_) => Some(Rc::new(T::new(tree.duplicate()))),
                GreenTree::Vec(_) => Some(Rc::new(T::new(tree.duplicate()))),
                GreenTree::Token(_) => match T::make(tree.duplicate()) {
                    Some(node) => Some(Rc::new(node)),
                    None => None,
                },
                GreenTree::Absent => None,
                GreenTree::Empty => None,
            },
        }
    }

    /// Whether this is the absent marker.
    pub fn is_none(&self) -> (none: bool)
        ensures
            none == (self.tree() is Absent),
    {
        match self.green() {
            GreenTree::Absent => true,
            _ => false,
        }
    }

    /// Whether this is a structured node that has children.
    pub fn is_empty(&self) -> (has_children: bool)
        ensures
            has_children == (self.tree() matches TreeValue::Leaf { data, .. }
                && data.value.value.children@.len() > 0),
    {
        match self.green() {
            GreenTree::Leaf(leaf) => leaf.data.value.value.children.len() > 0,
            _ => false,
        }
    }
}

impl<T: Leaf> Default for Value<T> {
    /// The empty content.
    fn default() -> (found: Self)
        ensures
            found.is_empty_value(),
    {
        Value::empty()
    }
}

/// A tree location.
impl<T: Leaf> From<GreenTree> for Value<T> {
    fn from(value: GreenTree) -> (found: Self) {
        Value::new(value)
    }
}

impl<T: Leaf> vstd::std_specs::convert::FromSpecImpl<GreenTree> for Value<T> {
    open spec fn obeys_from_spec() -> bool {
        true
    }

    open spec fn from_spec(value: GreenTree) -> Self {
        Value::Green(value)
    }
}

/// A shared typed value.
impl<T: Leaf> From<Rc<T>> for Value<T> {
    fn from(value: Rc<T>) -> (found: Self) {
        Value::from_rc(value)
    }
}

impl<T: Leaf> vstd::std_specs::convert::FromSpecImpl<Rc<T>> for Value<T> {
    open spec fn obeys_from_spec() -> bool {
        true
    }

    open spec fn from_spec(value: Rc<T>) -> Self {
        Value::Ref(value)
    }
}

/// Where a tree value was read from: the location of its construct or of its
/// token, and nowhere for everything else.
pub open spec fn tree_location(tree: TreeValue) -> Loc {
    match tree {
        TreeValue::Leaf { data, .. } => data.value.span,
        TreeValue::Token { span, .. } => span,
        _ => Loc::Synthetic,
    }
}

/// Where a node of type `T` over `tree` was read from: the location of the
/// construct of a structured node, that of the token of a terminal of the
/// type, and nowhere for everything else, a terminal of another type
/// included.
pub open spec fn location_as<T: Leaf>(tree: TreeValue) -> Loc {
    match tree {
        TreeValue::Leaf { data, .. } => data.value.span,
        TreeValue::Token { span, .. } => if T::makes(tree) {
            span
        } else {
            Loc::Synthetic
        },
        _ => Loc::Synthetic,
    }
}

/// Decides [`location_as`].
pub fn located_as<T: Leaf>(tree: GreenTree) -> (loc: Loc)
    ensures
        loc == location_as::<T>(tree@),
{
    match tree {
        GreenTree::Leaf(leaf) => leaf.data.value.span,
        GreenTree::Token(_) => {
            let span = tree.location();
            match T::make(tree) {
                Some(_) => span,
                None => Loc::Synthetic,
            }
        },
        _ => Loc::Synthetic,
    }
}

impl<T: Leaf> Value<T> {
    /// Whether `node` is a value that reading this may give: the typed value
    /// that is held, or one that stands for what the type builds from the
    /// location.
    pub open spec fn gives(&self, node: Rc<T>) -> bool {
        match *self {
            Value::Ref(held) => node == held,
            Value::Green(tree) => node.tree() == T::built(tree@),
        }
    }

    /// The typed value of this content together with the location that it
    /// was read from.
    pub fn location(&self) -> (located: Spanned<Rc<T>>)
        ensures
            located.span == location_as::<T>(self.tree()),
            self.gives(located.value),
    {
        let span = located_as::<T>(self.green());
        Spanned::new(span, self.as_leaf())
    }

    /// The next step of a chain of reads. Where this gives a value,
    /// the result is what `f` makes of it; where it gives none, the result is
    /// the empty content and `f` is not called.
    pub fn and_then<U: Leaf, F: FnOnce(Rc<T>) -> Value<U>>(self, f: F) -> (next: Value<U>)
        requires
            self.yields() ==> forall|node: Rc<T>| self.gives(node) ==> f.requires((node,)),
        ensures
            !self.yields() ==> next.is_empty_value(),
            self.yields() ==> exists|node: Rc<T>| self.gives(node) && f.ensures((node,), next),
    {
        match self.try_get() {
            Some(node) => {
                assert(self.gives(node));
                let next = f(node);
                assert(self.gives(node) && f.ensures((node,), next));
                next
            },
            None => Value::empty(),
        }
    }
}

/// A chain of reads stops at the first step that gives nothing: the empty
/// content, and the absent marker, give nothing, so every later step of the
/// chain is the empty content again.
pub proof fn lemma_chain_short_circuits<T: Leaf>(found: Value<T>)
    requires
        found.is_empty_value() || found == Value::<T>::Green(GreenTree::Absent),
    ensures
        !found.yields(),
{
}

impl<T: Leaf> Value<Vec<T>> {
    /// The tree values of the nodes of the sequence that this holds.
    pub open spec fn items(&self) -> Seq<TreeValue> {
        match *self {
            Value::Ref(held) => trees_of(held@),
            Value::Green(tree) => <Vec<T> as Node>::built(tree@)->Vec_0,
        }
    }

    /// The first node of the sequence that this holds; the absent marker
    /// where the sequence is empty.
    pub fn first(self) -> (found: Value<T>)
        ensures
            match self.items().len() > 0 {
                true => found is Ref && found.tree() == self.items()[0],
                false => found == Value::<T>::Green(GreenTree::Absent),
            },
    {
        let nodes = self.as_leaf();
        if nodes.len() > 0 {
            Value::of(nodes[0].duplicate())
        } else {
            Value::Green(GreenTree::Absent)
        }
    }

    /// The sequence that this holds without its first `n`
    /// nodes; the empty sequence where it has no more than `n`.
    pub fn skip(self, n: usize) -> (found: Value<Vec<T>>)
        ensures
            found is Ref,
            found.items() == if n <= self.items().len() {
                self.items().skip(n as int)
            } else {
                Seq::<TreeValue>::empty()
            },
    {
        let nodes = self.as_leaf();
        let mut rest: Vec<T> = Vec::new();
        let mut i: usize = n;
        while i < nodes.len()
            invariant
                n <= i,
                i <= nodes@.len() || n > nodes@.len(),
                rest@.len() == if n <= nodes@.len() { i - n } else { 0 },
                forall|k: int| 0 <= k < rest@.len() ==> (#[trigger] rest@[k]).tree() == nodes@[n + k].tree(),
            decreases nodes@.len() - i,
        {
            rest.push(nodes[i].duplicate());
            i += 1;
        }
        proof {
            if n <= nodes@.len() {
                assert(trees_of(rest@) =~= trees_of(nodes@).skip(n as int));
            } else {
                assert(trees_of(rest@) =~= Seq::<TreeValue>::empty());
            }
        }
        Value::of(rest)
    }
}

} // verus!
