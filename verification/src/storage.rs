//! The mapping from short codes to target URLs, as a capability set that
//! interchangeable backends provide.

pub mod memory;
pub mod sqlite;

use vstd::prelude::*;

verus! {

/// Why a write to the mapping was refused.
#[derive(Debug, Clone, Copy, PartialEq, Eq)]
pub enum Error {
    /// The key is already mapped; the mapping is unchanged.
    DuplicateKey,
    /// The backend failed for any other reason; the mapping is unchanged.
    GenericError,
}

/// A durable map from short codes to target URLs.
///
/// A backend that is `exact` holds precisely the map `contents`: every
/// committed write is seen by every later lookup, an aborted write leaves
/// nothing behind, and no write fails but for a taken key. Of a backend that
/// is not exact nothing is known beyond the meaning of its answers; that is
/// what a backend is unless it says otherwise.
pub trait Storage: Send {
    /// Whether the backend holds precisely the map `contents`.
    open spec fn exact(&self) -> bool {
        false
    }

    /// The committed mappings.
    open spec fn contents(&self) -> Map<Seq<char>, Seq<char>> {
        Map::empty()
    }

    /// Looks `key` up: the mapped URL, or `None` where the key is absent.
    fn get(&self, key: &str) -> (found: Option<String>)
        ensures
            self.exact() ==> (found is Some <==> self.contents().contains_key(key@)),
            self.exact() ==> (found matches Some(url) ==> url@ == self.contents()[key@]),
    ;

    /// Maps `key` to `value` unless the key is taken. The write is atomic:
    /// it either commits the one new mapping or leaves the map as it was.
    fn set(&mut self, key: &str, value: &str) -> (written: Result<(), Error>)
        ensures
            final(self).exact() == old(self).exact(),
            old(self).exact() ==> match written {
                Ok(()) => {
                    &&& !old(self).contents().contains_key(key@)
                    &&& final(self).contents() == old(self).contents().insert(key@, value@)
                },
                Err(Error::DuplicateKey) => {
                    &&& old(self).contents().contains_key(key@)
                    &&& final(self).contents() == old(self).contents()
                },
                Err(Error::GenericError) => false,
            },
    ;

    /// The number of mapped keys.
    fn key_count(&self) -> (count: u64)
        ensures
            self.exact() ==> self.contents().dom().finite() && count == self.contents().len(),
    ;
}

} // verus!
