use vstd::prelude::*;
use crate::text::same_text;

verus! {

/// Values kept under unique names, in the order the names were first added.
pub struct Table<V> {
    entries: Vec<(String, V)>,
}

impl<V> View for Table<V> {
    type V = Map<Seq<char>, V>;

    closed spec fn view(&self) -> Map<Seq<char>, V> {
        Map::new(
            |k: Seq<char>| exists|i: int| 0 <= i < self.entries.len() && #[trigger] self.entries[i].0@ == k,
            |k: Seq<char>|
                self.entries[choose|i: int|
                    0 <= i < self.entries.len() && #[trigger] self.entries[i].0@ == k].1,
        )
    }
}

impl<V> Table<V> {
    /// No name stands twice.
    pub closed spec fn wf(&self) -> bool {
        forall|i: int, j: int|
            0 <= i < self.entries.len() && 0 <= j < self.entries.len() && i != j
                ==> #[trigger] self.entries[i].0@ != #[trigger] self.entries[j].0@
    }

    /// The names, each once, in the order they were first added.
    pub closed spec fn keys(&self) -> Seq<Seq<char>> {
        self.entries@.map_values(|e: (String, V)| e.0@)
    }

    proof fn lemma_entry(&self, i: int)
        requires
            self.wf(),
            0 <= i < self.entries.len(),
        ensures
            self@.contains_key(self.entries[i].0@),
            self@[self.entries[i].0@] == self.entries[i].1,
    {
        let k = self.entries[i].0@;
        assert(self@.dom().contains(k));
        let j = choose|j: int| 0 <= j < self.entries.len() && #[trigger] self.entries[j].0@ == k;
        assert(self.entries[j].0@ == k);
    }

    /// The keys are the names of the table, each once; there are as many as
    /// the table has entries.
    pub proof fn lemma_keys(&self)
        requires
            self.wf(),
        ensures
            self.keys().no_duplicates(),
            self@.dom() == self.keys().to_set(),
            self@.dom().finite(),
            self@.dom().len() == self.keys().len(),
    {
        assert forall|k: Seq<char>| #[trigger] self@.contains_key(k) <==> self.keys().contains(k) by {
            if self@.contains_key(k) {
                let j = choose|j: int| 0 <= j < self.entries.len() && #[trigger] self.entries[j].0@ == k;
                assert(self.keys()[j] == k);
            }
            if self.keys().contains(k) {
                let j = choose|j: int| 0 <= j < self.keys().len() && self.keys()[j] == k;
                assert(self.entries[j].0@ == k);
            }
        }
        assert(self@.dom() =~= self.keys().to_set());
        self.keys().unique_seq_to_set();
    }

    proof fn lemma_replace(a: Table<V>, b: Table<V>, i: int, v: V)
        requires
            a.wf(),
            0 <= i < a.entries.len(),
            b.entries.len() == a.entries.len(),
            forall|j: int| 0 <= j < a.entries.len() && j != i ==> b.entries[j] == a.entries[j],
            b.entries[i].0@ == a.entries[i].0@,
            b.entries[i].1 == v,
        ensures
            b.wf(),
            b@ == a@.insert(a.entries[i].0@, v),
            b.keys() == a.keys(),
    {
        assert(b.wf());
        a.lemma_entry(i);
        b.lemma_entry(i);
        assert forall|k: Seq<char>| #[trigger] b@.contains_key(k) <==> a@.insert(a.entries[i].0@, v).contains_key(k) by {
            if a@.contains_key(k) {
                let j = choose|j: int| 0 <= j < a.entries.len() && #[trigger] a.entries[j].0@ == k;
                assert(b.entries[j].0@ == k);
            }
            if b@.contains_key(k) {
                let j = choose|j: int| 0 <= j < b.entries.len() && #[trigger] b.entries[j].0@ == k;
                assert(a.entries[j].0@ == k);
            }
        }
        assert forall|k: Seq<char>| #[trigger] b@.contains_key(k) implies b@[k] == a@.insert(a.entries[i].0@, v)[k] by {
            let j = choose|j: int| 0 <= j < b.entries.len() && #[trigger] b.entries[j].0@ == k;
            b.lemma_entry(j);
            if j != i {
                a.lemma_entry(j);
            }
        }
        assert(b@ =~= a@.insert(a.entries[i].0@, v));
        assert(b.keys() =~= a.keys());
    }

    proof fn lemma_push(a: Table<V>, b: Table<V>, k: Seq<char>, v: V)
        requires
            a.wf(),
            !a@.contains_key(k),
            b.entries@.len() == a.entries@.len() + 1,
            b.entries@.drop_last() == a.entries@,
            b.entries@.last().0@ == k,
            b.entries@.last().1 == v,
        ensures
            b.wf(),
            b@ == a@.insert(k, v),
            b.keys() == a.keys().push(k),
    {
        let n = a.entries.len() as int;
        assert forall|j: int| 0 <= j < n implies b.entries[j] == a.entries[j] by {
            assert(b.entries@.drop_last()[j] == b.entries@[j]);
        }
        assert forall|j: int| 0 <= j < n implies #[trigger] a.entries[j].0@ != k by {
            a.lemma_entry(j);
        }
        assert(b.wf());
        b.lemma_entry(n);
        assert forall|x: Seq<char>| #[trigger] b@.contains_key(x) <==> a@.insert(k, v).contains_key(x) by {
            if a@.contains_key(x) {
                let j = choose|j: int| 0 <= j < a.entries.len() && #[trigger] a.entries[j].0@ == x;
                assert(b.entries[j].0@ == x);
            }
        }
        assert forall|x: Seq<char>| #[trigger] b@.contains_key(x) implies b@[x] == a@.insert(k, v)[x] by {
            let j = choose|j: int| 0 <= j < b.entries.len() && #[trigger] b.entries[j].0@ == x;
            b.lemma_entry(j);
            if j != n {
                a.lemma_entry(j);
            }
        }
        assert(b@ =~= a@.insert(k, v));
        assert(b.keys() =~= a.keys().push(k));
    }

    fn find(&self, name: &str) -> (r: Option<usize>)
        requires
            self.wf(),
        ensures
            match r {
                Some(i) => i < self.entries.len() && self.entries[i as int].0@ == name@
                    && self@.contains_key(name@) && self@[name@] == self.entries[i as int].1,
                None => !self@.contains_key(name@),
            },
    {
        let mut i: usize = 0;
        while i < self.entries.len()
            invariant
                i <= self.entries.len(),
                self.wf(),
                forall|j: int| 0 <= j < i ==> #[trigger] self.entries[j].0@ != name@,
            decreases self.entries.len() - i,
        {
            if same_text(self.entries[i].0.as_str(), name) {
                proof {
                    self.lemma_entry(i as int);
                }
                return Some(i);
            }
            i = i + 1;
        }
        proof {
            if self@.contains_key(name@) {
                let j = choose|j: int| 0 <= j < self.entries.len() && #[trigger] self.entries[j].0@ == name@;
            }
        }
        None
    }

    /// An empty table.
    pub fn new() -> (r: Self)
        ensures
            r.wf(),
            r@ == Map::<Seq<char>, V>::empty(),
            r.keys() == Seq::<Seq<char>>::empty(),
    {
        let r = Table { entries: Vec::new() };
        assert(r@ =~= Map::<Seq<char>, V>::empty());
        assert(r.keys() =~= Seq::<Seq<char>>::empty());
        r
    }

    /// The number of names.
    pub fn len(&self) -> (r: usize)
        requires
            self.wf(),
        ensures
            r == self@.len(),
            r == self.keys().len(),
    {
        proof {
            self.lemma_keys();
        }
        self.entries.len()
    }

    /// The value under that name, if any.
    pub fn get(&self, name: &str) -> (r: Option<&V>)
        requires
            self.wf(),
        ensures
            match r {
                Some(v) => self@.contains_key(name@) && *v == self@[name@],
                None => !self@.contains_key(name@),
            },
    {
        match self.find(name) {
            Some(i) => Some(&self.entries[i].1),
            None => None,
        }
    }

    /// The value under that name, to change in place, if any.
    pub fn get_mut(&mut self, name: &str) -> (r: Option<&mut V>)
        requires
            old(self).wf(),
        ensures
            final(self).wf(),
            final(self).keys() == old(self).keys(),
            match r {
                Some(v) => old(self)@.contains_key(name@) && *v == old(self)@[name@] && final(self)@
                    == old(self)@.insert(name@, *final(v)),
                None => !old(self)@.contains_key(name@) && final(self)@ == old(self)@,
            },
    {
        match self.find(name) {
            Some(i) => {
                proof {
                    let a = *self;
                    assert forall|b: Table<V>, v: V|
                        #![trigger b@, a@.insert(name@, v)]
                        #![trigger b.wf(), a@.insert(name@, v)]
                        #![trigger b.keys(), a@.insert(name@, v)]
                        b.entries@ == a.entries@.update(i as int, (a.entries[i as int].0, v)) implies b.wf()
                            && b@ == a@.insert(name@, v) && b.keys() == a.keys() by {
                        Self::lemma_replace(a, b, i as int, v);
                    }
                }
                let entry = &mut self.entries[i];
                Some(&mut entry.1)
            },
            None => None,
        }
    }

    /// Puts the value under that name, replacing any value of the name; a
    /// new name goes last.
    pub fn insert(&mut self, name: &str, value: V)
        requires
            old(self).wf(),
        ensures
            final(self).wf(),
            final(self)@ == old(self)@.insert(name@, value),
            old(self)@.contains_key(name@) ==> final(self).keys() == old(self).keys(),
            !old(self)@.contains_key(name@) ==> final(self).keys() == old(self).keys().push(name@),
    {
        match self.find(name) {
            Some(i) => {
                let ghost a = *self;
                self.entries.set(i, (name.to_owned(), value));
                proof {
                    Self::lemma_replace(a, *self, i as int, value);
                }
            },
            None => {
                let ghost a = *self;
                self.entries.push((name.to_owned(), value));
                proof {
                    assert(self.entries@.drop_last() =~= a.entries@);
                    Self::lemma_push(a, *self, name@, value);
                }
            },
        }
    }

    /// The name and value at position `i` of `keys`.
    pub fn entry(&self, i: usize) -> (r: (&String, &V))
        requires
            self.wf(),
            i < self.keys().len(),
        ensures
            r.0@ == self.keys()[i as int],
            self@.contains_key(r.0@),
            *r.1 == self@[r.0@],
    {
        proof {
            self.lemma_entry(i as int);
        }
        (&self.entries[i].0, &self.entries[i].1)
    }
}

} // verus!
