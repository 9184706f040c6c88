use crate::storage::Storage;
use vstd::prelude::*;

verus! {

/// The in-memory backend: a table of entries with pairwise distinct keys,
/// with no eviction, expiry or capacity limit.
pub struct HashStorage {
    data: Vec<(String, String)>,
    model: Ghost<Map<Seq<char>, Seq<char>>>,
}

impl HashStorage {
    /// An empty store.
    pub fn new() -> (r: HashStorage)
        ensures
            r.well_formed(),
            r.contents() == Map::<Seq<char>, Seq<char>>::empty(),
    {
        HashStorage { data: Vec::new(), model: Ghost(Map::empty()) }
    }

    /// Index of the entry whose key is `key`, if there is one.
    fn find(&self, key: &String) -> (r: Option<usize>)
        requires
            self.well_formed(),
        ensures
            match r {
                Some(i) => i < self.data@.len() && self.data@[i as int].0@ == key@,
                None => !self.contents().contains_key(key@),
            },
    {
        let mut i: usize = 0;
        while i < self.data.len()
            invariant
                self.well_formed(),
                i <= self.data@.len(),
                forall|j: int| 0 <= j < i ==> #[trigger] self.data@[j].0@ != key@,
            decreases self.data@.len() - i,
        {
            if self.data[i].0 == *key {
                return Some(i);
            }
            i = i + 1;
        }
        None
    }
}

impl Storage for HashStorage {
    closed spec fn contents(&self) -> Map<Seq<char>, Seq<char>> {
        self.model@
    }

    closed spec fn well_formed(&self) -> bool {
        &&& self.model@.dom().finite()
        &&& self.model@.dom().len() == self.data@.len()
        &&& forall|i: int, j: int|
            0 <= i < j < self.data@.len() ==> #[trigger] self.data@[i].0@ != #[trigger] self.data@[j].0@
        &&& forall|i: int|
            0 <= i < self.data@.len() ==> {
                &&& self.model@.contains_key(#[trigger] self.data@[i].0@)
                &&& self.model@[self.data@[i].0@] == self.data@[i].1@
            }
        &&& forall|k: Seq<char>|
            #[trigger] self.model@.contains_key(k) ==> exists|i: int|
                0 <= i < self.data@.len() && #[trigger] self.data@[i].0@ == k
    }

    fn put(&mut self, key: String, value: String) -> (r: Option<String>) {
        match self.find(&key) {
            Some(i) => {
                let previous = self.data[i].1.clone();
                let ghost k = key@;
                let ghost v = value@;
                self.data.set(i, (key, value));
                self.model = Ghost(self.model@.insert(k, v));
                proof {
                    assert(self.model@.dom() =~= old(self).model@.dom());
                    assert forall|k2: Seq<char>| #[trigger] self.model@.contains_key(k2) implies
                        exists|j: int| 0 <= j < self.data@.len() && #[trigger] self.data@[j].0@ == k2 by {
                        if k2 != k {
                            let j = choose|j: int| 0 <= j < old(self).data@.len() && #[trigger] old(self).data@[j].0@ == k2;
                            assert(self.data@[j].0@ == k2);
                        } else {
                            assert(self.data@[i as int].0@ == k2);
                        }
                    }
                }
                Some(previous)
            },
            None => {
                let ghost k = key@;
                let ghost v = value@;
                self.data.push((key, value));
                self.model = Ghost(self.model@.insert(k, v));
                proof {
                    let n = old(self).data@.len() as int;
                    assert(self.data@[n].0@ == k);
                    assert forall|k2: Seq<char>| #[trigger] self.model@.contains_key(k2) implies
                        exists|j: int| 0 <= j < self.data@.len() && #[trigger] self.data@[j].0@ == k2 by {
                        if k2 != k {
                            let j = choose|j: int| 0 <= j < old(self).data@.len() && #[trigger] old(self).data@[j].0@ == k2;
                            assert(self.data@[j].0@ == k2);
                        }
                    }
                }
                None
            },
        }
    }

    fn get(&self, key: &String) -> (r: Option<String>) {
        match self.find(key) {
            Some(i) => Some(self.data[i].1.clone()),
            None => None,
        }
    }

    fn len(&self) -> (r: usize) {
        self.data.len()
    }
}

} // verus!
