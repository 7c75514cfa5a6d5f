use vstd::prelude::*;

verus! {

/// A map keyed by strings, kept as a list of entries that holds each key at
/// most once.
pub struct StringMap<V> {
    pub entries: Vec<(String, V)>,
}

/// Native-denomination balances of fee payers, keyed by address.
pub type FeeTank = StringMap<u128>;

impl<V> StringMap<V> {
    /// No address occurs twice.
    pub open spec fn wf(&self) -> bool {
        forall|i: int, j: int|
            0 <= i < j < self.entries@.len() ==> #[trigger] self.entries@[i].0@
                != #[trigger] self.entries@[j].0@
    }

    /// The addresses that hold an entry.
    pub open spec fn holds(&self, key: Seq<char>) -> bool {
        exists|i: int| 0 <= i < self.entries@.len() && #[trigger] self.entries@[i].0@ == key
    }

    /// The value stored for `key`.
    pub open spec fn value_at(&self, key: Seq<char>) -> V {
        self.entries@[choose|i: int|
            0 <= i < self.entries@.len() && #[trigger] self.entries@[i].0@ == key].1
    }
}

impl<V> View for StringMap<V> {
    type V = Map<Seq<char>, V>;

    open spec fn view(&self) -> Map<Seq<char>, V> {
        Map::new(|k: Seq<char>| self.holds(k), |k: Seq<char>| self.value_at(k))
    }
}

impl<V> StringMap<V> {
    /// An entry's balance is what the view gives for its address.
    pub proof fn lemma_entry(&self, i: int)
        requires
            self.wf(),
            0 <= i < self.entries@.len(),
        ensures
            self@.contains_key(self.entries@[i].0@),
            self@[self.entries@[i].0@] == self.entries@[i].1,
    {
        let k = self.entries@[i].0@;
        assert(self.holds(k));
        let j = choose|j: int| 0 <= j < self.entries@.len() && #[trigger] self.entries@[j].0@ == k;
        if i < j {
            assert(self.entries@[i].0@ != self.entries@[j].0@);
        } else if j < i {
            assert(self.entries@[j].0@ != self.entries@[i].0@);
        }
    }

    /// A map with no entry.
    pub fn new() -> (res: StringMap<V>)
        ensures
            res.wf(),
            res@ == Map::<Seq<char>, V>::empty(),
            res.entries@.len() == 0,
    {
        let res = StringMap { entries: Vec::new() };
        assert(res@ =~= Map::<Seq<char>, V>::empty());
        res
    }

    /// The position of `key` among the entries, where it has one.
    fn position(&self, key: &String) -> (res: Option<usize>)
        requires
            self.wf(),
        ensures
            match res {
                Some(i) => i < self.entries@.len() && self.entries@[i as int].0@ == key@,
                None => !self@.contains_key(key@),
            },
    {
        let mut i: usize = 0;
        while i < self.entries.len()
            invariant
                i <= self.entries@.len(),
                forall|j: int| 0 <= j < i ==> #[trigger] self.entries@[j].0@ != key@,
            decreases self.entries@.len() - i,
        {
            if self.entries[i].0 == *key {
                return Some(i);
            }
            i = i + 1;
        }
        None
    }

    /// The value of `key`, or `None` where it holds no entry.
    pub fn get(&self, key: &String) -> (res: Option<&V>)
        requires
            self.wf(),
        ensures
            match res {
                Some(v) => self@.contains_key(key@) && self@[key@] == *v,
                None => !self@.contains_key(key@),
            },
    {
        match self.position(key) {
            Some(i) => {
                proof {
                    self.lemma_entry(i as int);
                }
                Some(&self.entries[i].1)
            },
            None => None,
        }
    }

    /// Stores `amount` as the value of `key`.
    pub fn set(&mut self, key: &String, amount: V)
        requires
            old(self).wf(),
        ensures
            final(self).wf(),
            final(self)@ == old(self)@.insert(key@, amount),
            !old(self)@.contains_key(key@) ==> final(self).entries@ == old(self).entries@.push(
                (*key, amount),
            ),
    {
        let ghost before = self@;
        match self.position(key) {
            Some(i) => {
                let k = self.entries[i].0.clone();
                self.entries.set(i, (k, amount));
                proof {
                    assert forall|j: int| 0 <= j < self.entries@.len() && j != i implies #[trigger]
                        self.entries@[j] == old(self).entries@[j] by {}
                    assert forall|k2: Seq<char>| #[trigger] self@.contains_key(k2) == before.insert(
                        key@,
                        amount,
                    ).contains_key(k2) by {
                        if self.holds(k2) {
                            let j = choose|j: int|
                                0 <= j < self.entries@.len() && #[trigger] self.entries@[j].0@
                                    == k2;
                            assert(old(self).entries@[j].0@ == k2);
                        }
                        if old(self).holds(k2) {
                            let j = choose|j: int|
                                0 <= j < old(self).entries@.len() && #[trigger] old(
                                    self,
                                ).entries@[j].0@ == k2;
                            assert(self.entries@[j].0@ == k2);
                        }
                    }
                    assert forall|k2: Seq<char>| #[trigger] self@.contains_key(k2) implies self@[k2]
                        == before.insert(key@, amount)[k2] by {
                        let j = choose|j: int|
                            0 <= j < self.entries@.len() && #[trigger] self.entries@[j].0@ == k2;
                        self.lemma_entry(j);
                        if j != i {
                            old(self).lemma_entry(j);
                        }
                    }
                    assert(self@ =~= before.insert(key@, amount));
                }
            },
            None => {
                self.entries.push((key.clone(), amount));
                proof {
                    let n = old(self).entries@.len();
                    assert forall|j: int| 0 <= j < n implies #[trigger] self.entries@[j]
                        == old(self).entries@[j] by {}
                    assert(self.entries@[n as int].0@ == key@);
                    assert forall|k2: Seq<char>| #[trigger] self@.contains_key(k2) == before.insert(
                        key@,
                        amount,
                    ).contains_key(k2) by {
                        if self.holds(k2) {
                            let j = choose|j: int|
                                0 <= j < self.entries@.len() && #[trigger] self.entries@[j].0@
                                    == k2;
                            if j < n {
                                assert(old(self).entries@[j].0@ == k2);
                            }
                        }
                        if old(self).holds(k2) {
                            let j = choose|j: int|
                                0 <= j < old(self).entries@.len() && #[trigger] old(
                                    self,
                                ).entries@[j].0@ == k2;
                            assert(self.entries@[j].0@ == k2);
                        }
                        if k2 == key@ {
                            assert(self.entries@[n as int].0@ == k2);
                        }
                    }
                    assert forall|k2: Seq<char>| #[trigger] self@.contains_key(k2) implies self@[k2]
                        == before.insert(key@, amount)[k2] by {
                        let j = choose|j: int|
                            0 <= j < self.entries@.len() && #[trigger] self.entries@[j].0@ == k2;
                        self.lemma_entry(j);
                        if j < n {
                            old(self).lemma_entry(j);
                        }
                    }
                    assert(self@ =~= before.insert(key@, amount));
                }
            },
        }
    }
}

} // verus!
