//! A table of values keyed by metric name, with unique names.
use vstd::prelude::*;
use vstd::string::StringExecFns;

verus! {

/// Names and their values, in registration order; no name occurs twice.
pub struct Registry<V> {
    names: Vec<String>,
    values: Vec<V>,
}

/// In a sequence without duplicates, `index_of` finds the one position of an element.
proof fn lemma_index_of_unique(s: Seq<Seq<char>>, i: int)
    requires
        s.no_duplicates(),
        0 <= i < s.len(),
    ensures
        s.index_of(s[i]) == i,
{
    assert(s.contains(s[i]));
    let j = s.index_of(s[i]);
    assert(0 <= j < s.len() && s[j] == s[i]);
}

/// Replacing the value at a registered position replaces the value of its name.
proof fn lemma_update<V>(before: Registry<V>, after: Registry<V>, i: int, value: V)
    requires
        before.wf(),
        0 <= i < before.names@.len(),
        after.names@ == before.names@,
        after.values@ == before.values@.update(i, value),
    ensures
        after.wf(),
        after.view() == before.view().insert(before.names@[i]@, value),
{
    let name = before.names@[i]@;
    assert(after.keys() == before.keys());
    assert forall|k: Seq<char>| #[trigger]
        after.view().contains_key(k) implies after.view()[k] == before.view().insert(
        name,
        value,
    )[k] by {
        if k != name {
            let j = after.keys().index_of(k);
            assert(after.keys()[i] == name);
            assert(j != i);
        } else {
            assert(after.keys()[i] == name);
            lemma_index_of_unique(after.keys(), i);
        }
    }
    assert(after.keys()[i] == name);
    assert(after.view() =~= before.view().insert(name, value));
}

impl<V> Registry<V> {
    /// The registered names, as character sequences.
    pub closed spec fn keys(&self) -> Seq<Seq<char>> {
        self.names@.map_values(|s: String| s@)
    }

    pub closed spec fn wf(&self) -> bool {
        &&& self.names@.len() == self.values@.len()
        &&& self.keys().no_duplicates()
    }

    /// The table as a map from name to value.
    pub closed spec fn view(&self) -> Map<Seq<char>, V> {
        Map::new(
            |k: Seq<char>| self.keys().contains(k),
            |k: Seq<char>| self.values@[self.keys().index_of(k)],
        )
    }

    /// Facts about the position of a name that is registered.
    proof fn lemma_at(&self, i: int)
        requires
            self.wf(),
            0 <= i < self.names@.len(),
        ensures
            self.view().contains_key(self.names@[i]@),
            self.view()[self.names@[i]@] == self.values@[i],
    {
        assert(self.keys()[i] == self.names@[i]@);
        lemma_index_of_unique(self.keys(), i);
    }

    pub fn new() -> (r: Self)
        ensures
            r.wf(),
            r.view() == Map::<Seq<char>, V>::empty(),
    {
        let r = Registry { names: Vec::new(), values: Vec::new() };
        assert(r.keys() =~= Seq::<Seq<char>>::empty());
        assert(r.view() =~= Map::<Seq<char>, V>::empty());
        r
    }

    /// Number of registered names.
    pub fn len(&self) -> (r: usize)
        requires
            self.wf(),
        ensures
            r == self.view().len(),
    {
        proof {
            assert(self.view().dom() =~= self.keys().to_set());
            self.keys().unique_seq_to_set();
        }
        self.names.len()
    }

    /// Position of `name`, if registered.
    fn find(&self, name: &str) -> (r: Option<usize>)
        requires
            self.wf(),
        ensures
            match r {
                Some(i) => i < self.names@.len() && self.names@[i as int]@ == name@,
                None => !self.view().contains_key(name@),
            },
    {
        let key = String::from_str(name);
        let mut i: usize = 0;
        while i < self.names.len()
            invariant
                0 <= i <= self.names@.len(),
                key@ == name@,
                forall|j: int| 0 <= j < i ==> self.names@[j]@ != name@,
            decreases self.names@.len() - i,
        {
            if self.names[i] == key {
                return Some(i);
            }
            i = i + 1;
        }
        proof {
            if self.keys().contains(name@) {
                let j = self.keys().index_of(name@);
                assert(self.keys()[j] == self.names@[j]@);
            }
        }
        None
    }

    /// The value registered under `name`.
    pub fn get(&self, name: &str) -> (r: Option<&V>)
        requires
            self.wf(),
        ensures
            r is Some == self.view().contains_key(name@),
            r is Some ==> *r.unwrap() == self.view()[name@],
    {
        match self.find(name) {
            Some(i) => {
                proof {
                    self.lemma_at(i as int);
                }
                Some(&self.values[i])
            },
            None => None,
        }
    }

    /// Registers `name` with `value`, replacing any earlier value.
    pub fn set(&mut self, name: &str, value: V)
        requires
            old(self).wf(),
        ensures
            final(self).wf(),
            final(self).view() == old(self).view().insert(name@, value),
    {
        match self.find(name) {
            Some(i) => {
                let ghost before = *self;
                self.values.set(i, value);
                proof {
                    lemma_update(before, *self, i as int, value);
                }
            },
            None => {
                let ghost before = *self;
                self.names.push(String::from_str(name));
                self.values.push(value);
                proof {
                    assert(self.keys() =~= before.keys().push(name@));
                    assert(self.keys().no_duplicates()) by {
                        assert forall|a: int, b: int|
                            0 <= a < self.keys().len() && 0 <= b < self.keys().len() && a != b
                            implies self.keys()[a] != self.keys()[b] by {
                            if a == before.keys().len() {
                                assert(before.keys().contains(self.keys()[b]));
                            } else if b == before.keys().len() {
                                assert(before.keys().contains(self.keys()[a]));
                            }
                        }
                    }
                    assert forall|k: Seq<char>| #[trigger]
                        self.view().contains_key(k) implies self.view()[k] == before.view().insert(
                        name@,
                        value,
                    )[k] by {
                        if k != name@ {
                            let j = before.keys().index_of(k);
                            assert(self.keys()[j] == k);
                            lemma_index_of_unique(self.keys(), j);
                        } else {
                            let n = before.keys().len() as int;
                            assert(self.keys()[n] == name@);
                            lemma_index_of_unique(self.keys(), n);
                        }
                    }
                    assert forall|k: Seq<char>|
                        #[trigger] before.view().insert(name@, value).contains_key(k)
                        implies self.view().contains_key(k) by {
                        if k != name@ {
                            let j = before.keys().index_of(k);
                            assert(self.keys()[j] == k);
                        } else {
                            assert(self.keys()[before.keys().len() as int] == name@);
                        }
                    }
                    assert(self.view() =~= before.view().insert(name@, value));
                }
            },
        }
    }
}

impl Registry<Vec<i64>> {
    /// Appends `x` to the sequence registered under `name`, registering an
    /// empty sequence first if the name is new.
    pub fn append(&mut self, name: &str, x: i64)
        requires
            old(self).wf(),
        ensures
            final(self).wf(),
            final(self).view().dom() == old(self).view().dom().insert(name@),
            final(self).view()[name@]@ == (if old(self).view().contains_key(name@) {
                old(self).view()[name@]@
            } else {
                Seq::empty()
            }).push(x),
            forall|k: Seq<char>|
                k != name@ && #[trigger] old(self).view().contains_key(k) ==> final(self).view()[k]
                    == old(self).view()[k],
    {
        match self.find(name) {
            Some(i) => {
                let ghost before = *self;
                proof {
                    before.lemma_at(i as int);
                }
                let mut v: Vec<i64> = Vec::new();
                std::mem::swap(&mut v, &mut self.values[i]);
                v.push(x);
                std::mem::swap(&mut v, &mut self.values[i]);
                proof {
                    assert(self.values@ =~= before.values@.update(i as int, self.values@[i as int]));
                    lemma_update(before, *self, i as int, self.values@[i as int]);
                }
            },
            None => {
                let mut v: Vec<i64> = Vec::new();
                v.push(x);
                self.set(name, v);
            },
        }
    }
}

} // verus!
