use crate::storage::StorageError;
use std::collections::HashMap;
use vstd::prelude::*;

verus! {

broadcast use vstd::std_specs::hash::group_hash_axioms;

/// A storage backend that keeps the bytes of each photo in memory.
pub struct InMemoryStorageBackend {
    store: HashMap<u128, Vec<u8>>,
}

impl View for InMemoryStorageBackend {
    type V = Map<u128, Seq<u8>>;

    closed spec fn view(&self) -> Map<u128, Seq<u8>> {
        self.store@.map_values(|bytes: Vec<u8>| bytes@)
    }
}

/// What a read of `id` gives back from a store holding `m`.
pub open spec fn stored_bytes(m: Map<u128, Seq<u8>>, id: u128) -> Option<Seq<u8>> {
    if m.contains_key(id) {
        Some(m[id])
    } else {
        None
    }
}

/// The message a read of a missing id fails with.
pub open spec fn missing_message() -> Seq<char> {
    "No value with that key."@
}

impl InMemoryStorageBackend {
    /// An empty store.
    pub fn new() -> (s: Self)
        ensures
            s@ == Map::<u128, Seq<u8>>::empty(),
    {
        let s = InMemoryStorageBackend { store: HashMap::new() };
        assert(s@ =~= Map::<u128, Seq<u8>>::empty());
        s
    }

    /// Removes the bytes stored under `id`, if any. A missing id is not an
    /// error.
    pub fn delete(&mut self, id: u128) -> (res: Result<(), StorageError>)
        ensures
            res is Ok,
            final(self)@ == old(self)@.remove(id),
    {
        let _ = self.store.remove(&id);
        assert(self@ =~= old(self)@.remove(id));
        Ok(())
    }

    /// The bytes stored under `id`; `NotFound` where there are none.
    pub fn find(&self, id: u128) -> (res: Result<Vec<u8>, StorageError>)
        ensures
            match stored_bytes(self@, id) {
                Some(bytes) => res matches Ok(found) && found@ == bytes,
                None => res matches Err(StorageError::NotFound(m)) && m@ == missing_message(),
            },
    {
        match self.store.get(&id) {
            Some(bytes) => {
                let copy = bytes.clone();
                assert(copy@ =~= bytes@);
                Ok(copy)
            },
            None => Err(StorageError::NotFound(String::from_str("No value with that key."))),
        }
    }

    /// Stores `bytes` under `id`, replacing what was there.
    pub fn save(&mut self, id: u128, bytes: Vec<u8>) -> (res: Result<(), StorageError>)
        ensures
            res is Ok,
            final(self)@ == old(self)@.insert(id, bytes@),
    {
        let ghost b = bytes@;
        let _ = self.store.insert(id, bytes);
        assert(self@ =~= old(self)@.insert(id, b));
        Ok(())
    }
}

impl Default for InMemoryStorageBackend {
    fn default() -> (s: Self)
        ensures
            s@ == Map::<u128, Seq<u8>>::empty(),
    {
        InMemoryStorageBackend::new()
    }
}

/// Saving bytes under an id and then reading the id gives the bytes back.
pub proof fn save_then_find_round_trips(m: Map<u128, Seq<u8>>, id: u128, bytes: Seq<u8>)
    ensures
        stored_bytes(m.insert(id, bytes), id) == Some(bytes),
{
}

/// Saving under one id leaves what a read of any other id gives unchanged.
pub proof fn save_leaves_other_ids(m: Map<u128, Seq<u8>>, id: u128, bytes: Seq<u8>, other: u128)
    requires
        other != id,
    ensures
        stored_bytes(m.insert(id, bytes), other) == stored_bytes(m, other),
{
}

/// A read of an id that was never saved finds nothing.
pub proof fn find_on_missing_id_returns_not_found(m: Map<u128, Seq<u8>>, id: u128)
    requires
        !m.contains_key(id),
    ensures
        stored_bytes(m, id) is None,
{
}

/// After a delete of an id, a read of it finds nothing.
pub proof fn delete_removes_stored_bytes(m: Map<u128, Seq<u8>>, id: u128)
    ensures
        stored_bytes(m.remove(id), id) is None,
{
}

/// Deleting an id that holds nothing leaves the store as it was.
pub proof fn delete_on_missing_id_is_idempotent(m: Map<u128, Seq<u8>>, id: u128)
    requires
        !m.contains_key(id),
    ensures
        m.remove(id) == m,
{
    assert(m.remove(id) =~= m);
}

/// Deleting an id leaves what a read of any other id gives unchanged.
pub proof fn delete_leaves_other_ids(m: Map<u128, Seq<u8>>, id: u128, other: u128)
    requires
        other != id,
    ensures
        stored_bytes(m.remove(id), other) == stored_bytes(m, other),
{
}

} // verus!
