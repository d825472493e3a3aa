//! A map keyed by module specifier that keeps its entries in the order in
//! which their keys first came.

use vstd::prelude::*;
use crate::specifier::ModuleSpecifier;

verus! {

/// The index at which `key` stands in `keys`, where it stands there.
pub open spec fn key_index(keys: Seq<Seq<char>>, key: Seq<char>) -> Option<int> {
    if keys.contains(key) {
        Some(keys.index_of(key))
    } else {
        None
    }
}

/// Values by specifier. No specifier occurs twice; entries stand in the order
/// in which their specifiers were first inserted.
#[derive(Debug)]
pub struct SpecifierMap<V> {
    keys: Vec<ModuleSpecifier>,
    values: Vec<V>,
}

impl<V> SpecifierMap<V> {
    /// The specifiers of the entries, in order.
    pub closed spec fn keys(&self) -> Seq<Seq<char>> {
        self.keys.deep_view()
    }

    /// The values of the entries, in order.
    pub closed spec fn values(&self) -> Seq<V> {
        self.values@
    }

    /// No specifier occurs twice, and each has its value.
    pub open spec fn wf(&self) -> bool {
        &&& self.keys().len() == self.values().len()
        &&& self.keys().no_duplicates()
    }

    /// The value stored for `key`, where there is one.
    pub open spec fn lookup(&self, key: Seq<char>) -> Option<V> {
        match key_index(self.keys(), key) {
            Some(i) => Some(self.values()[i]),
            None => None,
        }
    }

    /// The entries as a mathematical map.
    pub open spec fn as_map(&self) -> Map<Seq<char>, V> {
        Map::new(|key: Seq<char>| self.keys().contains(key), |key: Seq<char>| self.lookup(key)->0)
    }

    /// The empty map.
    pub fn new() -> (map: Self)
        ensures
            map.wf(),
            map.keys() == Seq::<Seq<char>>::empty(),
            map.values() == Seq::<V>::empty(),
            map.as_map() == Map::<Seq<char>, V>::empty(),
    {
        let map = SpecifierMap { keys: Vec::new(), values: Vec::new() };
        map
    }

    /// The number of entries.
    pub fn len(&self) -> (n: usize)
        requires
            self.wf(),
        ensures
            n == self.keys().len(),
            n == self.values().len(),
    {
        self.keys.len()
    }

    /// The index of the entry for `key`, where there is one.
    pub fn position(&self, key: &ModuleSpecifier) -> (found: Option<usize>)
        requires
            self.wf(),
        ensures
            match found {
                Some(i) => key_index(self.keys(), key@) == Some(i as int) && i < self.keys().len()
                    && self.keys()[i as int] == key@,
                None => key_index(self.keys(), key@).is_none() && !self.keys().contains(key@),
            },
            found is Some <==> self.as_map().contains_key(key@),
            found is Some ==> self.as_map()[key@] == self.values()[found->0 as int],
    {
        let mut i: usize = 0;
        while i < self.keys.len()
            invariant
                i <= self.keys.len(),
                self.wf(),
                forall|j: int| 0 <= j < i ==> self.keys()[j] != key@,
            decreases self.keys.len() - i,
        {
            if self.keys[i].same(key) {
                assert(self.keys()[i as int] == key@);
                return Some(i);
            }
            i += 1;
        }
        None
    }

    /// The specifier of the entry at `index`.
    pub fn key_at(&self, index: usize) -> (key: &ModuleSpecifier)
        requires
            self.wf(),
            index < self.keys().len(),
        ensures
            key@ == self.keys()[index as int],
    {
        &self.keys[index]
    }

    /// The value of the entry at `index`.
    pub fn value_at(&self, index: usize) -> (value: &V)
        requires
            self.wf(),
            index < self.values().len(),
        ensures
            *value == self.values()[index as int],
    {
        &self.values[index]
    }

    /// Puts `value` in place of the value at `index` and hands the old one
    /// back.
    pub fn replace_at(&mut self, index: usize, value: V) -> (previous: V)
        requires
            old(self).wf(),
            index < old(self).values().len(),
        ensures
            final(self).wf(),
            final(self).keys() == old(self).keys(),
            final(self).values() == old(self).values().update(index as int, value),
            previous == old(self).values()[index as int],
            final(self).as_map() == old(self).as_map().insert(
                old(self).keys()[index as int],
                value,
            ),
    {
        self.values.push(value);
        let previous = self.values.swap_remove(index);
        previous
    }

    /// Adds an entry for a specifier that has none yet.
    pub fn push(&mut self, key: ModuleSpecifier, value: V)
        requires
            old(self).wf(),
            !old(self).keys().contains(key@),
        ensures
            final(self).wf(),
            final(self).keys() == old(self).keys().push(key@),
            final(self).values() == old(self).values().push(value),
            final(self).as_map() == old(self).as_map().insert(key@, value),
    {
        self.keys.push(key);
        self.values.push(value);
        assert(self.keys.deep_view() =~= old(self).keys.deep_view().push(key@));
        proof {
            let before = old(self).keys();
            let after = self.keys();
            assert(after[before.len() as int] == key@);
            assert forall|k: Seq<char>| before.contains(k) implies after.contains(k)
                && after.index_of(k) == before.index_of(k) by {
                let i = before.index_of(k);
                assert(after[i] == k);
            }
        }
    }

    /// Takes the entry at `index` out; those behind it move up.
    pub fn remove_at(&mut self, index: usize) -> (removed: V)
        requires
            old(self).wf(),
            index < old(self).values().len(),
        ensures
            final(self).wf(),
            final(self).keys() == old(self).keys().remove(index as int),
            final(self).values() == old(self).values().remove(index as int),
            removed == old(self).values()[index as int],
            final(self).as_map() == old(self).as_map().remove(old(self).keys()[index as int]),
    {
        let _ = self.keys.remove(index);
        let removed = self.values.remove(index);
        assert(self.keys.deep_view() =~= old(self).keys.deep_view().remove(index as int));
        proof {
            let before = old(self).keys();
            let after = self.keys();
            let gone = before[index as int];
            assert forall|k: Seq<char>| before.contains(k) && k != gone implies after.contains(k)
                && self.values()[after.index_of(k)] == old(self).values()[before.index_of(k)] by {
                let i = before.index_of(k);
                if i < index {
                    assert(after[i] == k);
                } else {
                    assert(after[i - 1] == k);
                }
            }
        }
        removed
    }

    /// Takes every entry out.
    pub fn clear(&mut self)
        ensures
            final(self).wf(),
            final(self).keys() == Seq::<Seq<char>>::empty(),
            final(self).values() == Seq::<V>::empty(),
            final(self).as_map() == Map::<Seq<char>, V>::empty(),
    {
        self.keys.clear();
        self.values.clear();
    }
}

} // verus!
