//! Interning: one shared handle for all fragments of the same shape.

use vstd::prelude::*;
use std::rc::Rc;
use crate::span::Spanned;

verus! {

/// `Rc::clone`: another pointer to the same allocation, hence to the same
/// value.
#[verifier::external_body]
pub(crate) fn rc_share<T>(rc: &Rc<T>) -> (shared: Rc<T>)
    ensures
        shared == *rc,
{
    Rc::clone(rc)
}

/// What can be interned: a value with a shape, the part of it that interning
/// compares.
pub trait Fragment: Sized {
    /// The shape of a fragment, as mathematical data.
    type Shape;

    /// The shape of this fragment.
    spec fn shape(&self) -> Self::Shape;

    /// Whether the two fragments have the same shape.
    fn same_shape(&self, other: &Self) -> (same: bool)
        ensures
            same == (self.shape() == other.shape()),
    ;
}

/// The shape of a located value is the shape of the value: where it was read
/// does not count.
impl<T: Fragment> Fragment for Spanned<T> {
    type Shape = T::Shape;

    open spec fn shape(&self) -> T::Shape {
        self.value.shape()
    }

    fn same_shape(&self, other: &Self) -> (same: bool) {
        self.value.same_shape(&other.value)
    }
}

/// The slot of a handle that no interner gave out.
pub const SYNTHETIC: usize = usize::MAX;

/// A handle to a shared, immutable value. Handles given out by one interner
/// are the same exactly when their slots are; handles of no interner all have
/// the slot [`SYNTHETIC`] and are the same where their shapes are.
#[derive(Debug)]
pub struct Intern<T> {
    pub slot: usize,
    pub value: Rc<T>,
}

impl<T> Intern<T> {
    /// A handle to `value` that belongs to no interner.
    pub fn synthetic(value: T) -> (handle: Intern<T>)
        ensures
            handle.slot == SYNTHETIC,
            *handle.value == value,
    {
        Intern { slot: SYNTHETIC, value: Rc::new(value) }
    }

    /// The value behind this handle.
    pub fn get(&self) -> (value: &T)
        ensures
            *value == *self.value,
    {
        &self.value
    }

    /// Another handle to the same value.
    pub fn share(&self) -> (handle: Intern<T>)
        ensures
            handle == *self,
    {
        Intern { slot: self.slot, value: rc_share(&self.value) }
    }

    /// The hash of this handle, in constant time: handles that are the same
    /// have the same hash.
    pub fn hash_code(&self) -> (hash: usize)
        ensures
            hash == self.slot,
    {
        self.slot
    }
}

impl<T: Fragment> Intern<T> {
    /// Whether the two handles are the same: they have the same slot, and,
    /// where no interner gave them out, what is behind them has the same
    /// shape.
    pub open spec fn spec_same(&self, other: &Intern<T>) -> bool {
        self.slot == other.slot && (self.slot == SYNTHETIC ==> self.value.shape()
            == other.value.shape())
    }

    /// Whether the two handles are the same. Handles that an interner gave out
    /// are compared by slot, in constant time; handles of no interner by the
    /// shape of what is behind them.
    #[verifier::when_used_as_spec(spec_same)]
    pub fn same(&self, other: &Intern<T>) -> (same: bool)
        ensures
            same == self.spec_same(other),
    {
        self.slot == other.slot && (self.slot != SYNTHETIC || self.get().same_shape(other.get()))
    }
}

impl<T> Clone for Intern<T> {
    /// Another handle to the same value.
    fn clone(&self) -> (handle: Intern<T>)
        ensures
            handle == *self,
    {
        self.share()
    }
}

/// Whether no shape occurs twice in `shapes`.
pub open spec fn distinct<S>(shapes: Seq<S>) -> bool {
    forall|i: int, j: int| 0 <= i < j < shapes.len() ==> shapes[i] != shapes[j]
}

/// Whether `shape` occurs in `shapes`.
pub open spec fn known<S>(shapes: Seq<S>, shape: S) -> bool {
    exists|i: int| 0 <= i < shapes.len() && shapes[i] == shape
}

/// The slot of `shape` in a table that holds `shapes`: where it occurs, or the
/// next free slot where it does not occur yet.
pub open spec fn slot_of<S>(shapes: Seq<S>, shape: S) -> int {
    if known(shapes, shape) {
        choose|i: int| 0 <= i < shapes.len() && shapes[i] == shape
    } else {
        shapes.len() as int
    }
}

/// The shapes of a table that held `shapes`, after `shape` was interned.
pub open spec fn interned<S>(shapes: Seq<S>, shape: S) -> Seq<S> {
    if known(shapes, shape) {
        shapes
    } else {
        shapes.push(shape)
    }
}

/// The table of an interner: every fragment that was interned, once.
pub struct Interner<T: Fragment> {
    table: Vec<Intern<T>>,
}

impl<T: Fragment> Interner<T> {
    /// The handles that this interner has given out, by slot.
    pub closed spec fn handles(&self) -> Seq<Intern<T>> {
        self.table@
    }

    /// The shapes that this interner holds, by slot.
    pub open spec fn shapes(&self) -> Seq<T::Shape> {
        self.handles().map_values(|h: Intern<T>| h.value.shape())
    }

    /// Whether this interner gave out `handle`.
    pub open spec fn owns(&self, handle: Intern<T>) -> bool {
        0 <= handle.slot < self.handles().len() && self.handles()[handle.slot as int] == handle
    }

    /// Every handle stands in its own slot, and no shape has two slots.
    pub open spec fn well_formed(&self) -> bool {
        &&& forall|i: int| 0 <= i < self.handles().len() ==> (#[trigger] self.handles()[i]).slot == i
        &&& distinct(self.shapes())
    }

    #[verifier::type_invariant]
    spec fn type_inv(self) -> bool {
        self.well_formed()
    }

    /// An interner that holds nothing.
    pub fn new() -> (interner: Self)
        ensures
            interner.well_formed(),
            interner.handles().len() == 0,
    {
        Interner { table: Vec::new() }
    }

    /// How many fragments this interner holds.
    pub fn len(&self) -> (len: usize)
        ensures
            len == self.handles().len(),
    {
        self.table.len()
    }

    /// The handle in `slot`, if the slot is taken.
    pub fn lookup(&self, slot: usize) -> (handle: Option<Intern<T>>)
        ensures
            self.well_formed(),
            match handle {
                Some(handle) => slot < self.handles().len() && handle == self.handles()[slot as int]
                    && self.owns(handle),
                None => slot >= self.handles().len(),
            },
    {
        proof {
            use_type_invariant(self);
        }
        if slot < self.table.len() {
            Some(self.table[slot].share())
        } else {
            None
        }
    }

    /// The handle of `fragment`: the one that was given out for a fragment of
    /// the same shape, if there was one, and a new one in the next free slot
    /// otherwise. Never fails.
    pub fn intern(&mut self, fragment: T) -> (handle: Intern<T>)
        ensures
            final(self).well_formed(),
            final(self).owns(handle),
            handle.value.shape() == fragment.shape(),
            handle.slot == slot_of(old(self).shapes(), fragment.shape()),
            forall|i: int|
                0 <= i < old(self).shapes().len() && #[trigger] old(self).shapes()[i]
                    == fragment.shape() ==> handle.slot == i,
            final(self).shapes() == interned(old(self).shapes(), fragment.shape()),
            known(old(self).shapes(), fragment.shape()) ==> final(self).handles() == old(
                self
            ).handles(),
            !known(old(self).shapes(), fragment.shape()) ==> final(self).handles() == old(
                self
            ).handles().push(handle) && *handle.value == fragment,
    {
        proof {
            use_type_invariant(&*self);
        }
        let ghost shapes = self.shapes();
        let mut i: usize = 0;
        while i < self.table.len()
            invariant
                0 <= i <= self.table@.len(),
                self.table == old(self).table,
                self.well_formed(),
                shapes == self.shapes(),
                forall|k: int| 0 <= k < i ==> shapes[k] != fragment.shape(),
            decreases self.table@.len() - i,
        {
            if fragment.same_shape(&self.table[i].value) {
                let handle = self.table[i].share();
                proof {
                    assert(shapes[i as int] == fragment.shape());
                    assert(known(shapes, fragment.shape()));
                    let at = slot_of(shapes, fragment.shape());
                    assert(at == i) by {
                        if at < i {
                            assert(shapes[at] != shapes[i as int]);
                        } else if at > i {
                            assert(shapes[i as int] != shapes[at]);
                        }
                    }
                }
                return handle;
            }
            i += 1;
        }
        assert(!known(shapes, fragment.shape()));
        let ghost shape = fragment.shape();
        let handle = Intern { slot: self.table.len(), value: Rc::new(fragment) };
        let shared = handle.share();
        let mut table: Vec<Intern<T>> = Vec::new();
        std::mem::swap(&mut table, &mut self.table);
        table.push(handle);
        proof {
            let after = table@.map_values(|h: Intern<T>| h.value.shape());
            assert(after =~= shapes.push(shape));
            assert forall|a: int, b: int| 0 <= a < b < after.len() implies after[a] != after[b] by {
                if b < shapes.len() {
                    assert(shapes[a] != shapes[b]);
                } else {
                    assert(shapes[a] != shape);
                }
            }
        }
        self.table = table;
        shared
    }
}

/// Interning is idempotent: once a fragment of some shape was interned,
/// interning another fragment of that shape gives the same slot, hence the
/// same handle and the same hash, and leaves the table as it is.
pub proof fn lemma_interning_idempotent<S>(shapes: Seq<S>, a: S, b: S)
    requires
        distinct(shapes),
        a == b,
    ensures
        distinct(interned(shapes, a)),
        slot_of(interned(shapes, a), b) == slot_of(shapes, a),
        interned(interned(shapes, a), b) == interned(shapes, a),
{
    lemma_interning_keeps_slots(shapes, a, b);
}

/// Interning keeps what was interned: a table without repeated shapes stays
/// so, and a shape that was known keeps its slot when any other fragment is
/// interned after it.
pub proof fn lemma_interning_keeps_slots<S>(shapes: Seq<S>, a: S, b: S)
    requires
        distinct(shapes),
    ensures
        distinct(interned(shapes, a)),
        known(interned(shapes, a), a),
        0 <= slot_of(interned(shapes, a), a) < interned(shapes, a).len(),
        interned(shapes, a)[slot_of(interned(shapes, a), a)] == a,
        slot_of(interned(shapes, a), a) == slot_of(shapes, a),
        known(shapes, b) ==> slot_of(interned(shapes, a), b) == slot_of(shapes, b),
{
    let after = interned(shapes, a);
    if known(shapes, a) {
    } else {
        assert(after[shapes.len() as int] == a);
        assert forall|i: int, j: int| 0 <= i < j < after.len() implies after[i] != after[j] by {
            if j < shapes.len() {
                assert(shapes[i] != shapes[j]);
            } else {
                assert(shapes[i] != a);
            }
        }
        let at = slot_of(after, a);
        if at != shapes.len() {
            assert(shapes[at] == a);
        }
    }
    if known(shapes, b) {
        let at = slot_of(shapes, b);
        assert(after[at] == b);
        let now = slot_of(after, b);
        if now < at {
            assert(after[now] != after[at]);
        } else if now > at {
            assert(after[at] != after[now]);
        }
    }
}

/// Among the handles of one interner, being the same handle is having the same
/// shape.
pub proof fn lemma_handles_agree<T: Fragment>(interner: Interner<T>, a: Intern<T>, b: Intern<T>)
    requires
        interner.well_formed(),
        interner.owns(a),
        interner.owns(b),
    ensures
        (a.slot == b.slot) <==> (a.value.shape() == b.value.shape()),
        a.same(&b) <==> (a.value.shape() == b.value.shape()),
        a.slot == b.slot ==> a == b,
{
    let shapes = interner.shapes();
    assert(shapes[a.slot as int] == a.value.shape());
    assert(shapes[b.slot as int] == b.value.shape());
    if a.slot < b.slot {
        assert(shapes[a.slot as int] != shapes[b.slot as int]);
    } else if b.slot < a.slot {
        assert(shapes[b.slot as int] != shapes[a.slot as int]);
    }
}

} // verus!
