//! A small association table.
//!
//! The tables of this crate have a handful of entries and are filled once.
//! A `Table` keeps its entries in the order in which they were added and
//! finds one by walking them; to contracts it is the map from each key to
//! the value that was added for it last.

use vstd::prelude::*;

verus! {

/// Keys that can be compared at run time.
pub trait TableKey: Sized {
    /// Whether the two keys are the same value.
    fn same(&self, other: &Self) -> (b: bool)
        ensures
            b == (self == other),
    ;
}

/// The map that a sequence of entries stands for: a later entry for a key
/// overrides an earlier one.
pub open spec fn entries_map<K, V>(entries: Seq<(K, V)>) -> Map<K, V>
    decreases entries.len(),
{
    if entries.len() == 0 {
        Map::empty()
    } else {
        entries_map(entries.drop_last()).insert(entries.last().0, entries.last().1)
    }
}

pub struct Table<K, V> {
    entries: Vec<(K, V)>,
}

impl<K, V> View for Table<K, V> {
    type V = Map<K, V>;

    closed spec fn view(&self) -> Map<K, V> {
        entries_map(self.entries@)
    }
}

impl<K: TableKey, V> Table<K, V> {
    /// The table without entries.
    pub fn new() -> (table: Self)
        ensures
            table@ == Map::<K, V>::empty(),
    {
        Table { entries: Vec::new() }
    }

    /// Binds `key` to `value`, in place of what it was bound to before.
    pub fn insert(&mut self, key: K, value: V)
        ensures
            final(self)@ == old(self)@.insert(key, value),
    {
        proof {
            assert(self.entries@.push((key, value)).drop_last() =~= self.entries@);
        }
        self.entries.push((key, value));
    }

    /// The value that `key` is bound to, if it is bound.
    pub fn get(&self, key: &K) -> (found: Option<&V>)
        ensures
            self@.contains_key(*key) ==> found == Some(&self@[*key]),
            !self@.contains_key(*key) ==> found is None,
    {
        let mut i: usize = self.entries.len();
        proof {
            assert(self.entries@.take(i as int) =~= self.entries@);
        }
        while i > 0
            invariant
                i <= self.entries@.len(),
                entries_map(self.entries@).contains_key(*key) == entries_map(
                    self.entries@.take(i as int),
                ).contains_key(*key),
                entries_map(self.entries@).contains_key(*key) ==> entries_map(self.entries@)[*key]
                    == entries_map(self.entries@.take(i as int))[*key],
            decreases i,
        {
            let ghost prefix = self.entries@.take(i as int);
            proof {
                assert(prefix.drop_last() =~= self.entries@.take(i - 1));
            }
            i = i - 1;
            if self.entries[i].0.same(key) {
                return Some(&self.entries[i].1);
            }
        }
        None
    }
}

} // verus!
