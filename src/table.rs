use crate::address::Address;
use vstd::prelude::*;

verus! {

/// A keyed store of records: each address holds at most one record.
pub struct Table<T> {
    keys: Vec<Address>,
    vals: Vec<T>,
    contents: Ghost<Map<Seq<u8>, T>>,
}

impl<T> View for Table<T> {
    type V = Map<Seq<u8>, T>;

    closed spec fn view(&self) -> Map<Seq<u8>, T> {
        self.contents@
    }
}

impl<T> Table<T> {
    pub closed spec fn wf(&self) -> bool {
        &&& self.keys@.len() == self.vals@.len()
        &&& self.contents@.dom().finite()
        &&& forall|i: int|
            0 <= i < self.keys@.len() ==> #[trigger] self.contents@.contains_key(self.keys@[i]@)
                && self.contents@[self.keys@[i]@] == self.vals@[i]
        &&& forall|k: Seq<u8>| #[trigger]
            self.contents@.contains_key(k) ==> exists|i: int|
                0 <= i < self.keys@.len() && #[trigger] self.keys@[i]@ == k
        &&& forall|i: int, j: int|
            0 <= i < self.keys@.len() && 0 <= j < self.keys@.len() && i != j ==> #[trigger] self.keys@[i]@
                != #[trigger] self.keys@[j]@
    }

    /// Number of stored records.
    pub closed spec fn len(&self) -> int {
        self.keys@.len() as int
    }

    /// The address of the `i`-th stored record.
    pub closed spec fn key_at(&self, i: int) -> Seq<u8> {
        self.keys@[i]@
    }

    pub proof fn lemma_finite(&self)
        requires
            self.wf(),
        ensures
            self@.dom().finite(),
    {
    }

    pub fn new() -> (r: Self)
        ensures
            r.wf(),
            r@ == Map::<Seq<u8>, T>::empty(),
    {
        Table { keys: Vec::new(), vals: Vec::new(), contents: Ghost(Map::empty()) }
    }

    /// Where the record at `key` stands, if there is one.
    pub fn find(&self, key: &Address) -> (r: Option<usize>)
        requires
            self.wf(),
        ensures
            match r {
                Some(i) => i < self.len() && self.key_at(i as int) == key@ && self@.contains_key(key@),
                None => !self@.contains_key(key@),
            },
    {
        let mut i: usize = 0;
        while i < self.keys.len()
            invariant
                self.wf(),
                0 <= i <= self.keys@.len(),
                forall|j: int| 0 <= j < i ==> self.keys@[j]@ != key@,
            decreases self.keys@.len() - i,
        {
            if self.keys[i].same(key) {
                return Some(i);
            }
            i = i + 1;
        }
        None
    }

    pub fn contains(&self, key: &Address) -> (r: bool)
        requires
            self.wf(),
        ensures
            r == self@.contains_key(key@),
    {
        self.find(key).is_some()
    }

    /// The record at position `i`.
    pub fn get(&self, i: usize) -> (r: &T)
        requires
            self.wf(),
            i < self.len(),
        ensures
            self@.contains_key(self.key_at(i as int)),
            *r == self@[self.key_at(i as int)],
    {
        &self.vals[i]
    }

    /// Stores `val` at the unused address `key`.
    pub fn insert(&mut self, key: Address, val: T)
        requires
            old(self).wf(),
            !old(self)@.contains_key(key@),
        ensures
            final(self).wf(),
            final(self)@ == old(self)@.insert(key@, val),
    {
        let ghost k = key@;
        let ghost v = val;
        let ghost old_keys = self.keys@;
        self.keys.push(key);
        self.vals.push(val);
        self.contents = Ghost(self.contents@.insert(k, v));
        assert forall|c: Seq<u8>| #[trigger] self.contents@.contains_key(c) implies exists|i: int|
            0 <= i < self.keys@.len() && #[trigger] self.keys@[i]@ == c by {
            if c == k {
                assert(self.keys@[old_keys.len() as int]@ == c);
            } else {
                let w = choose|i: int| 0 <= i < old_keys.len() && #[trigger] old_keys[i]@ == c;
                assert(self.keys@[w]@ == c);
            }
        }
    }

    /// Takes out the record at position `i`, with its address.
    pub fn remove(&mut self, i: usize) -> (r: (Address, T))
        requires
            old(self).wf(),
            i < old(self).len(),
        ensures
            final(self).wf(),
            r.0@ == old(self).key_at(i as int),
            old(self)@.contains_key(r.0@),
            r.1 == old(self)@[r.0@],
            final(self)@ == old(self)@.remove(r.0@),
    {
        let ghost old_keys = self.keys@;
        let ghost old_vals = self.vals@;
        let ghost old_map = self.contents@;
        assert(forall|j: int|
            0 <= j < old_keys.len() ==> #[trigger] old_map.contains_key(old_keys[j]@)
                && old_map[old_keys[j]@] == old_vals[j]);
        let key = self.keys.remove(i);
        let val = self.vals.remove(i);
        self.contents = Ghost(self.contents@.remove(key@));
        assert forall|c: Seq<u8>| #[trigger] self.contents@.contains_key(c) implies exists|j: int|
            0 <= j < self.keys@.len() && #[trigger] self.keys@[j]@ == c by {
            let w = choose|j: int| 0 <= j < old_keys.len() && #[trigger] old_keys[j]@ == c;
            assert(w != i);
            if w < i {
                assert(self.keys@[w]@ == c);
            } else {
                assert(self.keys@[w - 1]@ == c);
            }
        }
        assert forall|a: int| 0 <= a < self.keys@.len() implies #[trigger] self.contents@.contains_key(
            self.keys@[a]@,
        ) && self.contents@[self.keys@[a]@] == self.vals@[a] by {
            let b = if a < i {
                a
            } else {
                a + 1
            };
            assert(self.keys@[a] == old_keys[b] && self.vals@[a] == old_vals[b]);
            assert(old_keys[b]@ != old_keys[i as int]@);
            assert(0 <= b < old_keys.len());
            assert(old_map.contains_key(old_keys[b]@));
            assert(old_map[old_keys[b]@] == old_vals[b]);
            assert(self.contents@ == old_map.remove(old_keys[i as int]@));
        }
        (key, val)
    }
}

} // verus!
