//! A deterministic in-memory backend of the mapping.

use crate::storage::{Error, Storage};
use vstd::prelude::*;

verus! {

/// The stored pairs, in the order of their insertion, beside the map that
/// they stand for.
struct Entries {
    keys: Vec<String>,
    urls: Vec<String>,
    model: Ghost<Map<Seq<char>, Seq<char>>>,
}

impl Entries {
    /// Every pair is in the map, every key of the map is stored, exactly once.
    spec fn well_formed(self) -> bool {
        &&& self.keys@.len() == self.urls@.len()
        &&& self.model@.dom().finite()
        &&& self.model@.len() == self.keys@.len()
        &&& forall|i: int|
            0 <= i < self.keys@.len() ==> self.model@.contains_key(#[trigger] self.keys@[i]@)
                && self.model@[self.keys@[i]@] == self.urls@[i]@
        &&& forall|k: Seq<char>|
            self.model@.contains_key(k) ==> exists|i: int|
                0 <= i < self.keys@.len() && #[trigger] self.keys@[i]@ == k
    }

    fn empty() -> (entries: Self)
        ensures
            entries.well_formed(),
            entries.model@ == Map::<Seq<char>, Seq<char>>::empty(),
    {
        Entries { keys: Vec::new(), urls: Vec::new(), model: Ghost(Map::empty()) }
    }

    /// The position of `key` among the stored keys.
    fn position(&self, key: &str) -> (at: Option<usize>)
        requires
            self.well_formed(),
        ensures
            at is Some <==> self.model@.contains_key(key@),
            at matches Some(i) ==> i < self.keys@.len() && self.keys@[i as int]@ == key@,
    {
        let wanted: String = key.to_owned();
        let mut i: usize = 0;
        while i < self.keys.len()
            invariant
                self.well_formed(),
                i <= self.keys@.len(),
                wanted@ == key@,
                forall|j: int| 0 <= j < i ==> self.keys@[j]@ != key@,
            decreases self.keys@.len() - i,
        {
            if self.keys[i] == wanted {
                return Some(i);
            }
            i = i + 1;
        }
        None
    }

    /// Appends a pair whose key is not stored yet.
    fn insert(&mut self, key: &str, value: &str)
        requires
            old(self).well_formed(),
            !old(self).model@.contains_key(key@),
        ensures
            final(self).well_formed(),
            final(self).model@ == old(self).model@.insert(key@, value@),
    {
        let ghost before = self.model@;
        let ghost old_keys = self.keys@;
        self.keys.push(key.to_owned());
        self.urls.push(value.to_owned());
        self.model = Ghost(before.insert(key@, value@));
        proof {
            assert forall|k: Seq<char>| #[trigger]
                self.model@.contains_key(k) implies exists|i: int|
                0 <= i < self.keys@.len() && #[trigger] self.keys@[i]@ == k by {
                if k == key@ {
                    assert(self.keys@[self.keys@.len() - 1]@ == k);
                } else {
                    let i = choose|i: int| 0 <= i < old_keys.len() && #[trigger] old_keys[i]@ == k;
                    assert(self.keys@[i]@ == k);
                }
            }
        }
    }
}

/// A mapping held in process memory. It is exact: it holds what was written
/// to it and nothing else, and it never fails but for a taken key.
pub struct MemoryStorage {
    entries: Entries,
}

impl MemoryStorage {
    #[verifier::type_invariant]
    spec fn well_formed(self) -> bool {
        self.entries.well_formed()
    }

    /// An empty mapping.
    pub fn new() -> (store: Self)
        ensures
            store.contents() == Map::<Seq<char>, Seq<char>>::empty(),
            store.exact(),
    {
        MemoryStorage { entries: Entries::empty() }
    }
}

impl Storage for MemoryStorage {
    open spec fn exact(&self) -> bool {
        true
    }

    closed spec fn contents(&self) -> Map<Seq<char>, Seq<char>> {
        self.entries.model@
    }

    fn get(&self, key: &str) -> (found: Option<String>) {
        proof {
            use_type_invariant(self);
        }
        match self.entries.position(key) {
            Some(i) => Some(self.entries.urls[i].clone()),
            None => None,
        }
    }

    fn set(&mut self, key: &str, value: &str) -> (written: Result<(), Error>)
        ensures
            written is Ok <==> !old(self).contents().contains_key(key@),
    {
        proof {
            use_type_invariant(&*self);
        }
        if self.entries.position(key).is_some() {
            return Err(Error::DuplicateKey);
        }
        let mut entries = Entries::empty();
        std::mem::swap(&mut entries, &mut self.entries);
        entries.insert(key, value);
        self.entries = entries;
        Ok(())
    }

    fn key_count(&self) -> (count: u64) {
        proof {
            use_type_invariant(self);
        }
        self.entries.keys.len() as u64
    }
}

} // verus!
