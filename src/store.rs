use vstd::prelude::*;

verus! {

/// An identity-keyed table of records, kept as two parallel vectors whose
/// keys are pairwise distinct. Its abstract value is a finite map from the
/// key's characters to the record.
pub struct KeyedStore<T> {
    keys: Vec<String>,
    vals: Vec<T>,
}

impl<T> KeyedStore<T> {
    /// The position of `k`, if some slot holds it.
    spec fn slot_of(&self, k: Seq<char>) -> int {
        choose|i: int| 0 <= i < self.keys@.len() && #[trigger] self.keys@[i]@ == k
    }

    spec fn holds(&self, k: Seq<char>) -> bool {
        exists|i: int| 0 <= i < self.keys@.len() && #[trigger] self.keys@[i]@ == k
    }

    /// Parallel vectors of one length, and no key twice.
    pub closed spec fn wf(&self) -> bool {
        &&& self.keys@.len() == self.vals@.len()
        &&& forall|i: int, j: int|
            0 <= i < self.keys@.len() && 0 <= j < self.keys@.len() && i != j
                ==> #[trigger] self.keys@[i]@ != #[trigger] self.keys@[j]@
    }

    proof fn lemma_slot(&self, i: int)
        requires
            self.wf(),
            0 <= i < self.keys@.len(),
        ensures
            self@.contains_key(self.keys@[i]@),
            self@[self.keys@[i]@] == self.vals@[i],
    {
        let k = self.keys@[i]@;
        assert(self.holds(k));
        let j = self.slot_of(k);
        assert(self.keys@[j]@ == k);
    }

    /// An empty store.
    pub fn new() -> (r: Self)
        ensures
            r.wf(),
            r@ == Map::<Seq<char>, T>::empty(),
    {
        let r = KeyedStore { keys: Vec::new(), vals: Vec::new() };
        assert(r@ =~= Map::<Seq<char>, T>::empty());
        r
    }

    /// The number of records held.
    pub fn len(&self) -> (r: usize)
        requires
            self.wf(),
        ensures
            r == self@.len(),
    {
        proof {
            self.lemma_dom_len();
        }
        self.keys.len()
    }

    /// Whether no record is held.
    pub fn is_empty(&self) -> (r: bool)
        requires
            self.wf(),
        ensures
            r == (self@ == Map::<Seq<char>, T>::empty()),
    {
        proof {
            self.lemma_dom_len();
            if self@ == Map::<Seq<char>, T>::empty() {
                assert(self@.dom() =~= Set::<Seq<char>>::empty());
            }
            if self.keys.len() == 0 {
                assert(self@ =~= Map::<Seq<char>, T>::empty());
            }
        }
        self.keys.len() == 0
    }

    proof fn lemma_dom_len(&self)
        requires
            self.wf(),
        ensures
            self@.dom().len() == self.keys@.len(),
            self@.dom().finite(),
        decreases self.keys@.len(),
    {
        let ks = self.keys@.map_values(|s: String| s@);
        assert forall|k: Seq<char>| #[trigger] self@.dom().contains(k) <==> ks.contains(k) by {
            if self@.dom().contains(k) {
                let i = self.slot_of(k);
                assert(ks[i] == k);
            }
            if ks.contains(k) {
                let i = choose|i: int| 0 <= i < ks.len() && ks[i] == k;
                assert(self.keys@[i]@ == k);
                assert(self.holds(k));
            }
        }
        assert(ks.no_duplicates()) by {
            assert forall|i: int, j: int| 0 <= i < ks.len() && 0 <= j < ks.len() && i != j
                implies ks[i] != ks[j] by {
                assert(self.keys@[i]@ != self.keys@[j]@);
            }
        }
        assert(self@.dom() =~= ks.to_set());
        ks.unique_seq_to_set();
    }

    /// The slot that holds `k`, or `None` where no record has that key.
    fn find(&self, k: &String) -> (r: Option<usize>)
        requires
            self.wf(),
        ensures
            match r {
                Some(i) => i < self.keys@.len() && self.keys@[i as int]@ == k@
                    && self@.contains_key(k@) && self@[k@] == self.vals@[i as int],
                None => !self@.contains_key(k@),
            },
    {
        let mut i: usize = 0;
        while i < self.keys.len()
            invariant
                self.wf(),
                i <= self.keys@.len(),
                forall|j: int| 0 <= j < i ==> #[trigger] self.keys@[j]@ != k@,
            decreases self.keys@.len() - i,
        {
            if self.keys[i] == *k {
                proof {
                    self.lemma_slot(i as int);
                }
                return Some(i);
            }
            i = i + 1;
        }
        proof {
            if self.holds(k@) {
                let j = self.slot_of(k@);
                assert(self.keys@[j]@ == k@);
            }
        }
        None
    }

    /// The record stored under `k`.
    pub fn get(&self, k: &String) -> (r: Option<&T>)
        requires
            self.wf(),
        ensures
            match r {
                Some(v) => self@.contains_key(k@) && *v == self@[k@],
                None => !self@.contains_key(k@),
            },
    {
        match self.find(k) {
            Some(i) => Some(&self.vals[i]),
            None => None,
        }
    }

    /// Whether some record is stored under `k`.
    pub fn contains_key(&self, k: &String) -> (r: bool)
        requires
            self.wf(),
        ensures
            r == self@.contains_key(k@),
    {
        self.find(k).is_some()
    }

    /// Stores `v` under `k`, replacing any record held there.
    pub fn insert(&mut self, k: String, v: T)
        requires
            old(self).wf(),
        ensures
            final(self).wf(),
            final(self)@ == old(self)@.insert(k@, v),
    {
        let ghost pre = *self;
        match self.find(&k) {
            Some(i) => {
                self.vals.set(i, v);
                proof {
                    assert forall|q: Seq<char>| #[trigger] self@.contains_key(q)
                        <==> pre@.insert(k@, v).contains_key(q) by {
                        if pre.holds(q) {
                            let j = pre.slot_of(q);
                            assert(self.keys@[j]@ == q);
                            assert(self.holds(q));
                        }
                        if self.holds(q) {
                            let j = self.slot_of(q);
                            assert(pre.keys@[j]@ == q);
                            assert(pre.holds(q));
                        }
                    }
                    assert forall|q: Seq<char>| #[trigger] self@.contains_key(q)
                        implies self@[q] == pre@.insert(k@, v)[q] by {
                        let j = self.slot_of(q);
                        self.lemma_slot(j);
                        if j != i {
                            pre.lemma_slot(j);
                        }
                    }
                    assert(self@ =~= pre@.insert(k@, v));
                }
            },
            None => {
                self.keys.push(k);
                self.vals.push(v);
                proof {
                    let n = pre.keys@.len() as int;
                    assert(self.keys@[n]@ == k@);
                    assert forall|q: Seq<char>| #[trigger] self@.contains_key(q)
                        <==> pre@.insert(k@, v).contains_key(q) by {
                        if pre.holds(q) {
                            let j = pre.slot_of(q);
                            assert(self.keys@[j]@ == q);
                            assert(self.holds(q));
                        }
                        if q == k@ {
                            assert(self.holds(q));
                        }
                        if self.holds(q) && q != k@ {
                            let j = self.slot_of(q);
                            assert(pre.keys@[j]@ == q);
                            assert(pre.holds(q));
                        }
                    }
                    assert forall|q: Seq<char>| #[trigger] self@.contains_key(q)
                        implies self@[q] == pre@.insert(k@, v)[q] by {
                        let j = self.slot_of(q);
                        self.lemma_slot(j);
                        if j != n {
                            pre.lemma_slot(j);
                        }
                    }
                    assert(self@ =~= pre@.insert(k@, v));
                }
            },
        }
    }
}

impl<T> View for KeyedStore<T> {
    type V = Map<Seq<char>, T>;

    closed spec fn view(&self) -> Map<Seq<char>, T> {
        Map::new(|k: Seq<char>| self.holds(k), |k: Seq<char>| self.vals@[self.slot_of(k)])
    }
}

} // verus!
