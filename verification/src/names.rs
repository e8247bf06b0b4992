//! A table of values filed under names.

use crate::views::{each_view, lemma_each_view_push};
use vstd::prelude::*;

verus! {

/// Values filed under names, in the order in which the names first came.
/// No name occurs twice.
#[derive(Debug)]
pub struct NameMap<V> {
    pub names: Vec<String>,
    pub values: Vec<V>,
}

impl<V> NameMap<V> {
    /// The names, in order.
    pub open spec fn keys(&self) -> Seq<Seq<char>> {
        each_view(self.names@)
    }

    /// Every name has its value, and no name occurs twice.
    pub open spec fn wf(&self) -> bool {
        &&& self.names@.len() == self.values@.len()
        &&& self.keys().no_duplicates()
    }

    /// Whether something is filed under `name`.
    pub open spec fn contains(&self, name: Seq<char>) -> bool {
        self.keys().contains(name)
    }

    /// Where `name` stands among the names.
    pub open spec fn index_of(&self, name: Seq<char>) -> int {
        self.keys().index_of(name)
    }

    /// The table as a map from names to what `f` makes of their values.
    pub open spec fn mapped<W>(&self, f: spec_fn(V) -> W) -> Map<Seq<char>, W> {
        Map::new(|name: Seq<char>| self.contains(name), |name: Seq<char>| f(self.values@[self.index_of(name)]))
    }

    /// The table as a map from names to values.
    pub open spec fn map(&self) -> Map<Seq<char>, V> {
        self.mapped(|value: V| value)
    }

    /// In a well-formed table a name stands at one index only.
    pub proof fn lemma_index_of(&self, i: int)
        requires
            self.wf(),
            0 <= i < self.names@.len(),
        ensures
            self.contains(self.keys()[i]),
            self.index_of(self.keys()[i]) == i,
    {
        let name = self.keys()[i];
        assert(self.keys().contains(name));
        let j = self.keys().index_of(name);
        assert(0 <= j < self.keys().len() && self.keys()[j] == name);
    }

    /// Changing the value at one index changes the map at that name only.
    pub proof fn lemma_update<W>(&self, after: &Self, i: int, f: spec_fn(V) -> W)
        requires
            self.wf(),
            0 <= i < self.names@.len(),
            after.keys() == self.keys(),
            after.values@.len() == self.values@.len(),
            forall|k: int| 0 <= k < self.values@.len() && k != i ==> after.values@[k] == self.values@[k],
        ensures
            after.wf(),
            after.mapped(f) == self.mapped(f).insert(self.keys()[i], f(after.values@[i])),
    {
        self.lemma_index_of(i);
        assert forall|name: Seq<char>| self.contains(name) implies #[trigger] after.mapped(f)[name]
            == self.mapped(f).insert(self.keys()[i], f(after.values@[i]))[name] by {
            let j = self.index_of(name);
            assert(0 <= j < self.keys().len() && self.keys()[j] == name);
            if j == i {
            } else {
                assert(name != self.keys()[i]);
            }
        }
        assert(after.mapped(f) =~= self.mapped(f).insert(self.keys()[i], f(after.values@[i])));
    }

    /// Filing a value under a new name adds that name to the map.
    pub proof fn lemma_append<W>(&self, after: &Self, f: spec_fn(V) -> W)
        requires
            self.wf(),
            after.names@.len() == self.names@.len() + 1,
            after.values@.len() == self.values@.len() + 1,
            after.keys().drop_last() == self.keys(),
            after.values@.drop_last() == self.values@,
            !self.contains(after.keys().last()),
        ensures
            after.wf(),
            after.mapped(f) == self.mapped(f).insert(after.keys().last(), f(after.values@.last())),
    {
        let n = self.names@.len() as int;
        let new_name = after.keys()[n];
        assert(after.keys().len() == n + 1);
        assert forall|a: int, b: int| 0 <= a < b < n + 1 implies after.keys()[a] != after.keys()[b] by {
            assert(after.keys()[a] == after.keys().drop_last()[a]);
            if b < n {
                assert(after.keys()[b] == after.keys().drop_last()[b]);
            } else {
                assert(self.keys().contains(self.keys()[a]));
            }
        }
        assert(after.wf());
        after.lemma_index_of(n);
        let target = self.mapped(f).insert(new_name, f(after.values@[n]));
        assert forall|name: Seq<char>| after.contains(name) <==> target.dom().contains(name) by {
            if after.contains(name) {
                let j = after.keys().index_of(name);
                assert(0 <= j <= n && after.keys()[j] == name);
                if j < n {
                    assert(self.keys()[j] == after.keys().drop_last()[j]);
                    assert(self.keys().contains(name));
                }
            }
            if self.contains(name) {
                let j = self.keys().index_of(name);
                assert(0 <= j < n && self.keys()[j] == name);
                assert(after.keys().drop_last()[j] == after.keys()[j]);
                assert(after.keys().contains(name));
            }
        }
        assert forall|name: Seq<char>| after.contains(name) implies #[trigger] after.mapped(f)[name]
            == target[name] by {
            let j = after.index_of(name);
            assert(0 <= j <= n && after.keys()[j] == name);
            if j < n {
                assert(self.keys()[j] == after.keys().drop_last()[j]);
                self.lemma_index_of(j);
                assert(after.values@[j] == after.values@.drop_last()[j]);
            }
        }
        assert(after.mapped(f) =~= target);
    }

    /// An empty table.
    pub fn new() -> (out: Self)
        ensures
            out.wf(),
            out.names@.len() == 0,
            forall|name: Seq<char>| !out.contains(name),
    {
        NameMap { names: Vec::new(), values: Vec::new() }
    }

    /// The number of names.
    pub fn len(&self) -> (n: usize)
        ensures
            n == self.names@.len(),
    {
        self.names.len()
    }

    /// The index at which `name` stands.
    pub fn position(&self, name: &String) -> (found: Option<usize>)
        requires
            self.wf(),
        ensures
            match found {
                Some(i) => i < self.names@.len() && self.keys()[i as int] == name@ && self.contains(
                    name@,
                ) && self.index_of(name@) == i,
                None => !self.contains(name@),
            },
    {
        let mut i: usize = 0;
        while i < self.names.len()
            invariant
                i <= self.names@.len(),
                self.wf(),
                forall|k: int| 0 <= k < i ==> self.keys()[k] != name@,
            decreases self.names@.len() - i,
        {
            if self.names[i] == *name {
                proof {
                    self.lemma_index_of(i as int);
                }
                return Some(i);
            }
            i += 1;
        }
        None
    }

    /// Whether something is filed under `name`.
    pub fn contains_key(&self, name: &str) -> (b: bool)
        requires
            self.wf(),
        ensures
            b == self.contains(name@),
    {
        self.position(&String::from_str(name)).is_some()
    }

    /// What is filed under `name`.
    pub fn get(&self, name: &str) -> (found: Option<&V>)
        requires
            self.wf(),
        ensures
            match found {
                Some(value) => self.contains(name@) && *value == self.map()[name@],
                None => !self.contains(name@),
            },
    {
        match self.position(&String::from_str(name)) {
            Some(i) => Some(&self.values[i]),
            None => None,
        }
    }

    /// Whether this table is `before` with `value` filed under `name`.
    pub open spec fn is_insert_of(&self, before: &Self, name: Seq<char>, value: V) -> bool {
        if before.contains(name) {
            &&& self.keys() == before.keys()
            &&& self.values@ == before.values@.update(before.index_of(name), value)
        } else {
            &&& self.keys() == before.keys().push(name)
            &&& self.values@ == before.values@.push(value)
        }
    }

    /// Filing a value under a name sets the map at that name.
    pub proof fn lemma_insert<W>(&self, after: &Self, name: Seq<char>, value: V, f: spec_fn(V) -> W)
        requires
            self.wf(),
            after.is_insert_of(self, name, value),
        ensures
            after.wf(),
            after.mapped(f) == self.mapped(f).insert(name, f(value)),
    {
        if self.contains(name) {
            let i = self.index_of(name);
            assert(0 <= i < self.keys().len() && self.keys()[i] == name);
            self.lemma_update(after, i, f);
        } else {
            assert(after.keys().drop_last() =~= self.keys());
            assert(after.values@.drop_last() =~= self.values@);
            self.lemma_append(after, f);
        }
    }

    /// Files `value` under `name`, in place of what was there.
    pub fn insert(&mut self, name: String, value: V)
        requires
            old(self).wf(),
        ensures
            final(self).wf(),
            final(self).is_insert_of(old(self), name@, value),
            final(self).map() == old(self).map().insert(name@, value),
    {
        let ghost before = *self;
        match self.position(&name) {
            Some(i) => {
                self.values[i] = value;
                assert(self.values@ =~= before.values@.update(i as int, value));
            },
            None => {
                proof {
                    lemma_each_view_push(self.names@, name);
                }
                self.names.push(name);
                self.values.push(value);
            },
        }
        proof {
            before.lemma_insert(self, name@, value, |v: V| v);
        }
    }
}

} // verus!
