//! Small tables keyed by name, as the caches of a node hold them. A node
//! declares a handful of names, and a name is a text that is compared
//! character by character: the tables are lists, searched from their end.

use vstd::prelude::*;
use crate::leaf::tree::LeafKey;
use crate::text::str_eq;

verus! {

/// A table from names to values, kept as the list of what was inserted, in
/// the order of insertion. The latest value inserted under a name is the one
/// found under it.
#[derive(Debug)]
pub struct NameMap<V> {
    pub entries: Vec<(LeafKey, V)>,
}

/// The table that a list of insertions amounts to.
pub open spec fn map_of<V>(entries: Seq<(LeafKey, V)>) -> Map<Seq<char>, V>
    decreases entries.len(),
{
    if entries.len() == 0 {
        Map::empty()
    } else {
        map_of(entries.drop_last()).insert(entries.last().0@, entries.last().1)
    }
}

/// Insertions under other names do not change what is found under `name`:
/// where none of the insertions from position `from` on is under `name`, the
/// whole list and its first `from` insertions agree on `name`.
pub proof fn lemma_map_of_later_names<V>(entries: Seq<(LeafKey, V)>, from: int, name: Seq<char>)
    requires
        0 <= from <= entries.len(),
        forall|k: int| from <= k < entries.len() ==> (#[trigger] entries[k]).0@ != name,
    ensures
        map_of(entries).contains_key(name) == map_of(entries.take(from)).contains_key(name),
        map_of(entries).contains_key(name) ==> map_of(entries)[name] == map_of(
            entries.take(from),
        )[name],
    decreases entries.len() - from,
{
    if from == entries.len() {
        assert(entries.take(from) == entries);
    } else {
        let shorter = entries.drop_last();
        assert(entries.last() == entries[entries.len() - 1]);
        assert forall|k: int| from <= k < shorter.len() implies (#[trigger] shorter[k]).0@
            != name by {
            assert(shorter[k] == entries[k]);
        }
        lemma_map_of_later_names(shorter, from, name);
        assert(shorter.take(from) == entries.take(from));
    }
}

impl<V> View for NameMap<V> {
    type V = Map<Seq<char>, V>;

    open spec fn view(&self) -> Map<Seq<char>, V> {
        map_of(self.entries@)
    }
}

impl<V> NameMap<V> {
    /// The empty table.
    pub fn new() -> (table: Self)
        ensures
            table@ == Map::<Seq<char>, V>::empty(),
            table.entries@.len() == 0,
    {
        NameMap { entries: Vec::new() }
    }

    /// The value under `name`, if there is one.
    pub fn get(&self, name: &str) -> (value: Option<&V>)
        ensures
            match value {
                Some(value) => self@.contains_key(name@) && *value == self@[name@],
                None => !self@.contains_key(name@),
            },
    {
        let mut i: usize = self.entries.len();
        while i > 0
            invariant
                0 <= i <= self.entries@.len(),
                forall|k: int| i <= k < self.entries@.len() ==> (#[trigger] self.entries@[k]).0@ != name@,
            decreases i,
        {
            i -= 1;
            if str_eq(self.entries[i].0, name) {
                proof {
                    lemma_map_of_later_names(self.entries@, i + 1, name@);
                    let upto = self.entries@.take(i + 1);
                    assert(upto.drop_last() == self.entries@.take(i as int));
                    assert(upto.last() == self.entries@[i as int]);
                }
                return Some(&self.entries[i].1);
            }
        }
        proof {
            lemma_map_of_later_names(self.entries@, 0, name@);
            assert(self.entries@.take(0).len() == 0);
        }
        None
    }

    /// Whether there is a value under `name`.
    pub fn contains(&self, name: &str) -> (found: bool)
        ensures
            found == self@.contains_key(name@),
    {
        self.get(name).is_some()
    }

    /// Puts `value` under `name`, in place of what was there.
    pub fn insert(&mut self, name: LeafKey, value: V)
        ensures
            final(self)@ == old(self)@.insert(name@, value),
            final(self).entries@ == old(self).entries@.push((name, value)),
    {
        self.entries.push((name, value));
        proof {
            assert(self.entries@.drop_last() == old(self).entries@);
        }
    }
}

impl<V: Copy> NameMap<V> {
    /// A copy of this table.
    pub fn duplicate(&self) -> (copy: Self)
        ensures
            copy.entries@ == self.entries@,
    {
        let mut copy: NameMap<V> = NameMap::new();
        let mut i: usize = 0;
        while i < self.entries.len()
            invariant
                0 <= i <= self.entries@.len(),
                copy.entries@ == self.entries@.take(i as int),
            decreases self.entries@.len() - i,
        {
            let entry = &self.entries[i];
            copy.insert(entry.0, entry.1);
            proof {
                assert(self.entries@.take(i + 1) == self.entries@.take(i as int).push(
                    self.entries@[i as int],
                ));
            }
            i += 1;
        }
        proof {
            assert(self.entries@.take(i as int) == self.entries@);
        }
        copy
    }
}

} // verus!
