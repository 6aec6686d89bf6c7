//! A map from names to values.
use vstd::prelude::*;

verus! {

/// A map from names to values. Each name occurs once.
pub struct NameTable<V> {
    entries: Vec<(String, V)>,
}

impl<V> View for NameTable<V> {
    type V = Map<Seq<char>, V>;

    closed spec fn view(&self) -> Map<Seq<char>, V> {
        Map::new(
            |name: Seq<char>| exists|i: int| self.holds_at(name, i),
            |name: Seq<char>| self.entries@[choose|i: int| self.holds_at(name, i)].1,
        )
    }
}

impl<V> NameTable<V> {
    /// Whether `name` stands in row `i`.
    spec fn holds_at(self, name: Seq<char>, i: int) -> bool {
        0 <= i < self.entries@.len() && self.entries@[i].0@ == name
    }

    /// Each name occurs once.
    pub closed spec fn wf(self) -> bool {
        forall|i: int, j: int|
            #![trigger self.entries@[i], self.entries@[j]]
            0 <= i < j < self.entries@.len() ==> self.entries@[i].0@ != self.entries@[j].0@
    }

    /// How many rows the table has.
    pub closed spec fn size(self) -> nat {
        self.entries@.len()
    }

    /// The name in row `i`.
    pub closed spec fn name_at(self, i: int) -> Seq<char> {
        self.entries@[i].0@
    }

    /// The rows hold each name of the table once, and no other name.
    pub proof fn lemma_rows(self)
        requires
            self.wf(),
        ensures
            forall|i: int|
                #![trigger self.name_at(i)]
                0 <= i < self.size() ==> self@.contains_key(self.name_at(i)),
            forall|i: int, j: int|
                #![trigger self.name_at(i), self.name_at(j)]
                0 <= i < j < self.size() ==> self.name_at(i) != self.name_at(j),
            forall|name: Seq<char>| #[trigger]
                self@.contains_key(name) ==> exists|i: int|
                    0 <= i < self.size() && #[trigger] self.name_at(i) == name,
    {
        assert forall|i: int|
            #![trigger self.name_at(i)]
            0 <= i < self.size() implies self@.contains_key(self.name_at(i)) by {
            self.lemma_found(i);
        }
        assert forall|name: Seq<char>| #[trigger] self@.contains_key(name) implies exists|i: int|
            0 <= i < self.size() && #[trigger] self.name_at(i) == name by {
            let i = choose|i: int| self.holds_at(name, i);
            assert(self.name_at(i) == name);
        }
    }

    proof fn lemma_found(self, i: int)
        requires
            self.wf(),
            0 <= i < self.entries@.len(),
        ensures
            self@.contains_key(self.entries@[i].0@),
            self@[self.entries@[i].0@] == self.entries@[i].1,
    {
        let name = self.entries@[i].0@;
        assert(self.holds_at(name, i));
        let j = choose|j: int| self.holds_at(name, j);
        assert(self.holds_at(name, j));
    }

    /// A table without any name.
    pub fn new() -> (table: Self)
        ensures
            table.wf(),
            table@ == Map::<Seq<char>, V>::empty(),
    {
        let table = NameTable { entries: Vec::new() };
        proof {
            assert(table@ =~= Map::<Seq<char>, V>::empty());
        }
        table
    }

    /// The row in which `name` stands.
    fn find(&self, name: &str) -> (found: Option<usize>)
        requires
            self.wf(),
        ensures
            match found {
                Some(i) => self.holds_at(name@, i as int),
                None => !self@.contains_key(name@),
            },
    {
        let wanted: String = name.to_owned();
        let mut i: usize = 0;
        while i < self.entries.len()
            invariant
                wanted@ == name@,
                i <= self.entries@.len(),
                forall|j: int| 0 <= j < i ==> !#[trigger] self.holds_at(name@, j),
            decreases self.entries@.len() - i,
        {
            if self.entries[i].0 == wanted {
                return Some(i);
            }
            i += 1;
        }
        None
    }

    /// Puts `value` under `name` and returns what stood there.
    pub fn insert(&mut self, name: String, value: V) -> (previous: Option<V>)
        requires
            old(self).wf(),
        ensures
            final(self).wf(),
            final(self)@ == old(self)@.insert(name@, value),
            previous == (if old(self)@.contains_key(name@) {
                Some(old(self)@[name@])
            } else {
                None
            }),
    {
        let ghost before = *self;
        match self.find(name.as_str()) {
            Some(i) => {
                let mut entry = (name, value);
                self.entries.set_and_swap(i, &mut entry);
                proof {
                    before.lemma_found(i as int);
                    lemma_updated(before, *self, i as int);
                }
                Some(entry.1)
            },
            None => {
                self.entries.push((name, value));
                proof {
                    lemma_pushed(before, *self);
                }
                None
            },
        }
    }

    /// The value under `name`.
    pub fn get(&self, name: &str) -> (value: Option<&V>)
        requires
            self.wf(),
        ensures
            value == (if self@.contains_key(name@) {
                Some(&self@[name@])
            } else {
                None
            }),
    {
        match self.find(name) {
            Some(i) => {
                proof {
                    self.lemma_found(i as int);
                }
                Some(&self.entries[i].1)
            },
            None => None,
        }
    }

    /// The value under `name`, to be changed in place.
    pub fn get_mut(&mut self, name: &str) -> (value: Option<&mut V>)
        requires
            old(self).wf(),
        ensures
            final(self).wf(),
            match value {
                Some(value) => {
                    &&& old(self)@.contains_key(name@)
                    &&& *value == old(self)@[name@]
                    &&& final(self)@ == old(self)@.insert(name@, *final(value))
                },
                None => !old(self)@.contains_key(name@) && final(self)@ == old(self)@,
            },
    {
        match self.find(name) {
            Some(i) => {
                let ghost before = *self;
                proof {
                    before.lemma_found(i as int);
                    assert forall|after: Self|
                        #![trigger after.wf()]
                        #![trigger after@]
                        after.entries@.len() == before.entries@.len() && after.entries@
                            == before.entries@.update(i as int, after.entries@[i as int])
                            && after.entries@[i as int].0@ == name@ implies after.wf() && after@
                        == before@.insert(name@, after.entries@[i as int].1) by {
                        lemma_updated(before, after, i as int);
                    }
                }
                Some(&mut self.entries[i].1)
            },
            None => None,
        }
    }

    /// Takes `name` out of the table and returns what stood under it.
    pub fn remove(&mut self, name: &str) -> (removed: Option<V>)
        requires
            old(self).wf(),
        ensures
            final(self).wf(),
            final(self)@ == old(self)@.remove(name@),
            removed == (if old(self)@.contains_key(name@) {
                Some(old(self)@[name@])
            } else {
                None
            }),
    {
        let ghost before = *self;
        match self.find(name) {
            Some(i) => {
                let entry = self.entries.remove(i);
                proof {
                    before.lemma_found(i as int);
                    lemma_removed(before, *self, i as int);
                }
                Some(entry.1)
            },
            None => {
                proof {
                    assert(before@.remove(name@) =~= before@);
                }
                None
            },
        }
    }

    /// How many rows the table has.
    pub fn len(&self) -> (rows: usize)
        ensures
            rows == self.size(),
    {
        self.entries.len()
    }

    /// The name and the value in row `i`.
    pub fn row(&self, i: usize) -> (row: (&String, &V))
        requires
            self.wf(),
            i < self.size(),
        ensures
            row.0@ == self.name_at(i as int),
            self@.contains_key(row.0@),
            *row.1 == self@[row.0@],
    {
        proof {
            self.lemma_found(i as int);
        }
        (&self.entries[i].0, &self.entries[i].1)
    }
}

/// Replacing the value in row `i` changes the map at that name only.
proof fn lemma_updated<V>(before: NameTable<V>, after: NameTable<V>, i: int)
    requires
        before.wf(),
        0 <= i < before.entries@.len(),
        after.entries@ == before.entries@.update(i, after.entries@[i]),
        after.entries@[i].0@ == before.entries@[i].0@,
    ensures
        after.wf(),
        after@ == before@.insert(before.entries@[i].0@, after.entries@[i].1),
{
    let key = before.entries@[i].0@;
    assert forall|k: int, j: int|
        #![trigger after.entries@[k], after.entries@[j]]
        0 <= k < j < after.entries@.len() implies after.entries@[k].0@
        != after.entries@[j].0@ by {
        assert(before.entries@[k].0@ != before.entries@[j].0@);
    }
    assert forall|other: Seq<char>| after@.contains_key(other) == (other == key
        || before@.contains_key(other)) by {
        if before@.contains_key(other) {
            let j = choose|j: int| before.holds_at(other, j);
            assert(after.holds_at(other, j));
        }
        if after@.contains_key(other) {
            let j = choose|j: int| after.holds_at(other, j);
            assert(before.holds_at(other, j));
        }
        assert(after.holds_at(key, i));
    }
    assert forall|other: Seq<char>| after@.contains_key(other) implies #[trigger] after@[other]
        == before@.insert(key, after.entries@[i].1)[other] by {
        let j = choose|j: int| after.holds_at(other, j);
        after.lemma_found(j);
        before.lemma_found(j);
    }
    assert(after@ =~= before@.insert(key, after.entries@[i].1));
}

/// A row for a name that is new adds that name to the map.
proof fn lemma_pushed<V>(before: NameTable<V>, after: NameTable<V>)
    requires
        before.wf(),
        after.entries@ == before.entries@.push(after.entries@.last()),
        !before@.contains_key(after.entries@.last().0@),
    ensures
        after.wf(),
        after@ == before@.insert(after.entries@.last().0@, after.entries@.last().1),
{
    let n = before.entries@.len() as int;
    let key = after.entries@[n].0@;
    let value = after.entries@[n].1;
    assert forall|k: int, j: int|
        #![trigger after.entries@[k], after.entries@[j]]
        0 <= k < j < after.entries@.len() implies after.entries@[k].0@
        != after.entries@[j].0@ by {
        if j == n {
            before.lemma_found(k);
        } else {
            assert(before.entries@[k].0@ != before.entries@[j].0@);
        }
    }
    assert forall|other: Seq<char>| after@.contains_key(other) == (other == key
        || before@.contains_key(other)) by {
        if before@.contains_key(other) {
            let j = choose|j: int| before.holds_at(other, j);
            assert(after.holds_at(other, j));
        }
        if after@.contains_key(other) {
            let j = choose|j: int| after.holds_at(other, j);
            assert(j == n || before.holds_at(other, j));
        }
        assert(after.holds_at(key, n));
    }
    assert forall|other: Seq<char>| after@.contains_key(other) implies #[trigger] after@[other]
        == before@.insert(key, value)[other] by {
        let j = choose|j: int| after.holds_at(other, j);
        after.lemma_found(j);
        if j < n {
            before.lemma_found(j);
        }
    }
    assert(after@ =~= before@.insert(key, value));
}

/// Taking row `i` out takes its name out of the map.
proof fn lemma_removed<V>(before: NameTable<V>, after: NameTable<V>, i: int)
    requires
        before.wf(),
        0 <= i < before.entries@.len(),
        after.entries@ == before.entries@.remove(i),
    ensures
        after.wf(),
        after@ == before@.remove(before.entries@[i].0@),
{
    let key = before.entries@[i].0@;
    let n = before.entries@.len();
    assert(forall|j: int| 0 <= j < i ==> after.entries@[j] == before.entries@[j]);
    assert(forall|j: int| i <= j < n - 1 ==> after.entries@[j] == before.entries@[j + 1]);
    assert forall|k: int, j: int|
        #![trigger after.entries@[k], after.entries@[j]]
        0 <= k < j < after.entries@.len() implies after.entries@[k].0@
        != after.entries@[j].0@ by {
        let k0 = if k < i { k } else { k + 1 };
        let j0 = if j < i { j } else { j + 1 };
        assert(before.entries@[k0].0@ != before.entries@[j0].0@);
    }
    assert forall|other: Seq<char>| after@.contains_key(other) == (other != key
        && before@.contains_key(other)) by {
        if before@.contains_key(other) && other != key {
            let j = choose|j: int| before.holds_at(other, j);
            assert(after.holds_at(other, if j < i { j } else { j - 1 }));
        }
        if after@.contains_key(other) {
            let j = choose|j: int| after.holds_at(other, j);
            let j0 = if j < i { j } else { j + 1 };
            assert(before.holds_at(other, j0));
            assert(before.entries@[i].0@ != before.entries@[j0].0@);
        }
    }
    assert forall|other: Seq<char>| after@.contains_key(other) implies #[trigger] after@[other]
        == before@[other] by {
        let j = choose|j: int| after.holds_at(other, j);
        after.lemma_found(j);
        before.lemma_found(if j < i { j } else { j + 1 });
    }
    assert(after@ =~= before@.remove(key));
}

} // verus!
