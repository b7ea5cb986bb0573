//! A storage map keyed by byte strings (the encoded key), as the runtime's
//! `decl_storage` maps are.

use vstd::prelude::*;
use crate::bytes::bytes_eq;

verus! {

/// The amount stored under `k` in `m`; a key never written holds nothing.
pub open spec fn amount_at(m: Map<Seq<u8>, u128>, k: Seq<u8>) -> nat {
    if m.contains_key(k) {
        m[k] as nat
    } else {
        0
    }
}

/// A finite map from byte-string keys to values, stored as two parallel
/// vectors with no key twice.
pub struct Table<T> {
    keys: Vec<Vec<u8>>,
    vals: Vec<T>,
    contents: Ghost<Map<Seq<u8>, T>>,
}

impl<T> View for Table<T> {
    type V = Map<Seq<u8>, T>;

    closed spec fn view(&self) -> Map<Seq<u8>, T> {
        self.contents@
    }
}

impl<T: Copy> Table<T> {
    /// The vectors agree with the map, and no key occurs twice.
    pub closed spec fn wf(&self) -> bool {
        &&& self.keys.len() == self.vals.len()
        &&& forall|i: int, j: int|
            0 <= i < j < self.keys.len() ==> #[trigger] self.keys[i]@ != #[trigger] self.keys[j]@
        &&& forall|i: int|
            0 <= i < self.keys.len() ==> self.contents@.contains_key(#[trigger] self.keys[i]@)
                && self.contents@[self.keys[i]@] == self.vals[i]
        &&& forall|k: Seq<u8>|
            #[trigger] self.contents@.contains_key(k) ==> exists|i: int|
                0 <= i < self.keys.len() && self.keys[i]@ == k
    }

    /// An empty table.
    pub fn new() -> (t: Self)
        ensures
            t.wf(),
            t@ == Map::<Seq<u8>, T>::empty(),
    {
        Table { keys: Vec::new(), vals: Vec::new(), contents: Ghost(Map::empty()) }
    }

    /// The position of `key`, if it is stored.
    fn find(&self, key: &[u8]) -> (pos: Option<usize>)
        requires
            self.wf(),
        ensures
            match pos {
                Some(i) => i < self.keys.len() && self.keys[i as int]@ == key@,
                None => !self@.contains_key(key@),
            },
    {
        let n = self.keys.len();
        let mut i: usize = 0;
        while i < n
            invariant
                self.wf(),
                n == self.keys.len(),
                i <= n,
                forall|j: int| 0 <= j < i ==> self.keys[j]@ != key@,
            decreases n - i,
        {
            if bytes_eq(self.keys[i].as_slice(), key) {
                return Some(i);
            }
            i = i + 1;
        }
        None
    }

    /// The value stored under `key`, if any.
    pub fn get(&self, key: &[u8]) -> (v: Option<T>)
        requires
            self.wf(),
        ensures
            v == (if self@.contains_key(key@) {
                Some(self@[key@])
            } else {
                None
            }),
    {
        match self.find(key) {
            Some(i) => Some(self.vals[i]),
            None => None,
        }
    }

    /// Stores `v` under `key`, replacing what was stored there.
    pub fn insert(&mut self, key: Vec<u8>, v: T)
        requires
            old(self).wf(),
        ensures
            final(self).wf(),
            final(self)@ == old(self)@.insert(key@, v),
    {
        let ghost k = key@;
        match self.find(key.as_slice()) {
            Some(i) => {
                self.vals.set(i, v);
                self.contents = Ghost(self.contents@.insert(k, v));
                assert forall|c: Seq<u8>| #[trigger] self.contents@.contains_key(c) implies exists|j: int|
                    0 <= j < self.keys.len() && self.keys[j]@ == c by {
                    if c != k {
                        assert(old(self).contents@.contains_key(c));
                        let j = choose|j: int| 0 <= j < old(self).keys.len() && old(self).keys[j]@ == c;
                        assert(self.keys[j]@ == c);
                    } else {
                        assert(self.keys[i as int]@ == c);
                    }
                }
            },
            None => {
                self.keys.push(key);
                self.vals.push(v);
                self.contents = Ghost(self.contents@.insert(k, v));
                let ghost n = self.keys.len() - 1;
                assert forall|i: int| 0 <= i < self.keys.len() implies self.contents@.contains_key(
                    #[trigger] self.keys[i]@,
                ) && self.contents@[self.keys[i]@] == self.vals[i] by {
                    if i < n {
                        assert(old(self).keys[i] == self.keys[i]);
                        assert(old(self).contents@.contains_key(old(self).keys[i]@));
                    }
                }
                assert forall|c: Seq<u8>| #[trigger] self.contents@.contains_key(c) implies exists|j: int|
                    0 <= j < self.keys.len() && self.keys[j]@ == c by {
                    if c == k {
                        assert(self.keys[n]@ == c);
                    } else {
                        assert(old(self).contents@.contains_key(c));
                        let j = choose|j: int| 0 <= j < old(self).keys.len() && old(self).keys[j]@ == c;
                        assert(self.keys[j] == old(self).keys[j]);
                    }
                }
                assert forall|i: int, j: int| 0 <= i < j < self.keys.len() implies #[trigger] self.keys[i]@
                    != #[trigger] self.keys[j]@ by {
                    if j == n {
                        assert(old(self).keys[i] == self.keys[i]);
                        assert(old(self).contents@.contains_key(old(self).keys[i]@));
                    } else {
                        assert(old(self).keys[i] == self.keys[i]);
                        assert(old(self).keys[j] == self.keys[j]);
                    }
                }
            },
        }
    }
}

} // verus!
