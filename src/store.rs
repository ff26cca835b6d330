//! Records addressed by a caller-chosen string identifier.
use vstd::prelude::*;

verus! {

/// A table of records, each under a distinct string key.
pub struct KeyedStore<T> {
    keys: Vec<String>,
    values: Vec<T>,
    model: Ghost<Map<Seq<char>, T>>,
}

impl<T> View for KeyedStore<T> {
    type V = Map<Seq<char>, T>;

    closed spec fn view(&self) -> Map<Seq<char>, T> {
        self.model@
    }
}

impl<T> KeyedStore<T> {
    /// Keys are distinct, and the table holds exactly the records of the model.
    pub closed spec fn wf(&self) -> bool {
        &&& self.keys@.len() == self.values@.len()
        &&& forall|i: int, j: int|
            0 <= i < j < self.keys@.len() ==> self.keys@[i]@ != self.keys@[j]@
        &&& forall|i: int|
            0 <= i < self.keys@.len() ==> {
                &&& #[trigger] self.model@.contains_key(self.keys@[i]@)
                &&& self.model@[self.keys@[i]@] == self.values@[i]
            }
        &&& forall|k: Seq<char>|
            #[trigger] self.model@.contains_key(k) ==> exists|i: int|
                0 <= i < self.keys@.len() && self.keys@[i]@ == k
    }

    /// An empty table.
    pub fn new() -> (r: KeyedStore<T>)
        ensures
            r.wf(),
            r@ == Map::<Seq<char>, T>::empty(),
    {
        KeyedStore { keys: Vec::new(), values: Vec::new(), model: Ghost(Map::empty()) }
    }

    /// Position of `key` in the table, if it is there.
    fn position(&self, key: &String) -> (r: Option<usize>)
        requires
            self.wf(),
        ensures
            match r {
                Some(i) => i < self.keys@.len() && self.keys@[i as int]@ == key@,
                None => !self@.contains_key(key@),
            },
    {
        let mut i: usize = 0;
        while i < self.keys.len()
            invariant
                self.wf(),
                i <= self.keys@.len(),
                forall|j: int| 0 <= j < i ==> self.keys@[j]@ != key@,
            decreases self.keys@.len() - i,
        {
            if self.keys[i] == *key {
                return Some(i);
            }
            i = i + 1;
        }
        None
    }

    /// Whether a record is stored under `key`.
    pub fn contains(&self, key: &String) -> (r: bool)
        requires
            self.wf(),
        ensures
            r == self@.contains_key(key@),
    {
        self.position(key).is_some()
    }

    /// The record stored under `key`, if any.
    pub fn get(&self, key: &String) -> (r: Option<&T>)
        requires
            self.wf(),
        ensures
            match r {
                Some(v) => self@.contains_key(key@) && *v == self@[key@],
                None => !self@.contains_key(key@),
            },
    {
        match self.position(key) {
            Some(i) => {
                assert(self.model@.contains_key(self.keys@[i as int]@));
                Some(&self.values[i])
            },
            None => None,
        }
    }

    /// Stores `value` under `key`, replacing any record already there.
    pub fn insert(&mut self, key: String, value: T)
        requires
            old(self).wf(),
        ensures
            final(self).wf(),
            final(self)@ == old(self)@.insert(key@, value),
    {
        let ghost k = key@;
        let ghost v = value;
        match self.position(&key) {
            Some(i) => {
                self.values.set(i, value);
                self.model = Ghost(self.model@.insert(k, v));
                assert forall|j: int| 0 <= j < self.keys@.len() implies {
                    &&& #[trigger] self.model@.contains_key(self.keys@[j]@)
                    &&& self.model@[self.keys@[j]@] == self.values@[j]
                } by {
                    assert(old(self).model@.contains_key(old(self).keys@[j]@));
                    if j != i {
                        assert(self.keys@[j]@ != k);
                    }
                }
            },
            None => {
                self.keys.push(key);
                self.values.push(value);
                self.model = Ghost(self.model@.insert(k, v));
                assert forall|kk: Seq<char>| #[trigger] self.model@.contains_key(kk) implies exists|
                    j: int,
                | 0 <= j < self.keys@.len() && self.keys@[j]@ == kk by {
                    if kk == k {
                        assert(self.keys@[self.keys@.len() - 1]@ == kk);
                    } else {
                        let j = choose|j: int| 0 <= j < old(self).keys@.len() && old(self).keys@[j]@ == kk;
                        assert(self.keys@[j]@ == kk);
                    }
                }
            },
        }
    }
}

} // verus!
