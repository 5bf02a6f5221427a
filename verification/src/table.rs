//! The meaning of the storage operations on one table: a finite map from
//! 128-bit keys to byte strings. Each operation either yields the new table
//! (or the value read) or the error the backend reports for it.
use vstd::prelude::*;
use crate::errors::StorageError;

verus! {

/// Inserting is refused when the key is present; the error carries the key
/// truncated to its low 64 bits.
pub open spec fn spec_insert(t: Map<u128, Seq<u8>>, key: u128, value: Seq<u8>) -> Result<
    Map<u128, Seq<u8>>,
    StorageError,
> {
    if t.contains_key(key) {
        Err(StorageError::KeyExists(key as u64))
    } else {
        Ok(t.insert(key, value))
    }
}

/// The value stored under a key, if any.
pub open spec fn spec_get(t: Map<u128, Seq<u8>>, key: u128) -> Option<Seq<u8>> {
    if t.contains_key(key) {
        Some(t[key])
    } else {
        None
    }
}

/// Deleting is refused when the key is absent.
pub open spec fn spec_delete(t: Map<u128, Seq<u8>>, key: u128) -> Result<
    Map<u128, Seq<u8>>,
    StorageError,
> {
    if t.contains_key(key) {
        Ok(t.remove(key))
    } else {
        Err(StorageError::KeyNotFound(key as u64))
    }
}

/// Updating replaces the value of a present key and is refused otherwise.
pub open spec fn spec_update(t: Map<u128, Seq<u8>>, key: u128, value: Seq<u8>) -> Result<
    Map<u128, Seq<u8>>,
    StorageError,
> {
    if t.contains_key(key) {
        Ok(t.insert(key, value))
    } else {
        Err(StorageError::KeyNotFound(key as u64))
    }
}

/// Upserting stores the value whether or not the key is present.
pub open spec fn spec_upsert(t: Map<u128, Seq<u8>>, key: u128, value: Seq<u8>) -> Map<
    u128,
    Seq<u8>,
> {
    t.insert(key, value)
}

/// A key exists when a value is stored under it.
pub open spec fn spec_exists(t: Map<u128, Seq<u8>>, key: u128) -> bool {
    t.contains_key(key)
}

/// A read gives back what a successful insert wrote.
pub proof fn law_get_after_insert(t: Map<u128, Seq<u8>>, key: u128, value: Seq<u8>)
    requires
        spec_insert(t, key, value) is Ok,
    ensures
        spec_get(spec_insert(t, key, value)->Ok_0, key) == Some(value),
{
}

/// Inserting succeeds exactly when the key is absent; a refused insert names
/// the key.
pub proof fn law_insert_refused_iff_present(t: Map<u128, Seq<u8>>, key: u128, value: Seq<u8>)
    ensures
        spec_insert(t, key, value) is Ok <==> !spec_exists(t, key),
        spec_exists(t, key) ==> spec_insert(t, key, value) == Err::<Map<u128, Seq<u8>>, StorageError>(
            StorageError::KeyExists(key as u64),
        ),
{
}

/// A read gives back what an upsert wrote, whatever was there before.
pub proof fn law_get_after_upsert(t: Map<u128, Seq<u8>>, key: u128, value: Seq<u8>)
    ensures
        spec_get(spec_upsert(t, key, value), key) == Some(value),
{
}

/// After a successful update a read gives back the new value; an update of an
/// absent key is refused.
pub proof fn law_get_after_update(t: Map<u128, Seq<u8>>, key: u128, value: Seq<u8>)
    ensures
        spec_update(t, key, value) is Ok <==> spec_exists(t, key),
        spec_update(t, key, value) matches Ok(t2) ==> spec_get(t2, key) == Some(value),
        !spec_exists(t, key) ==> spec_update(t, key, value) == Err::<Map<u128, Seq<u8>>, StorageError>(
            StorageError::KeyNotFound(key as u64),
        ),
{
}

/// After a successful delete the key is gone; deleting an absent key is
/// refused.
pub proof fn law_get_after_delete(t: Map<u128, Seq<u8>>, key: u128)
    ensures
        spec_delete(t, key) is Ok <==> spec_exists(t, key),
        spec_delete(t, key) matches Ok(t2) ==> spec_get(t2, key) is None,
        !spec_exists(t, key) ==> spec_delete(t, key) == Err::<Map<u128, Seq<u8>>, StorageError>(
            StorageError::KeyNotFound(key as u64),
        ),
{
}

/// Deleting a key that was just inserted gives back the table as it was.
pub proof fn law_delete_undoes_insert(t: Map<u128, Seq<u8>>, key: u128, value: Seq<u8>)
    requires
        spec_insert(t, key, value) is Ok,
    ensures
        spec_delete(spec_insert(t, key, value)->Ok_0, key) == Ok::<Map<u128, Seq<u8>>, StorageError>(t),
{
    assert(t.insert(key, value).remove(key) =~= t);
}

/// Every operation leaves the entries of other keys as they were.
pub proof fn law_other_keys_unchanged(
    t: Map<u128, Seq<u8>>,
    key: u128,
    other: u128,
    value: Seq<u8>,
)
    requires
        key != other,
    ensures
        spec_insert(t, key, value) matches Ok(t2) ==> spec_get(t2, other) == spec_get(t, other),
        spec_update(t, key, value) matches Ok(t2) ==> spec_get(t2, other) == spec_get(t, other),
        spec_delete(t, key) matches Ok(t2) ==> spec_get(t2, other) == spec_get(t, other),
        spec_get(spec_upsert(t, key, value), other) == spec_get(t, other),
{
}

/// A key exists exactly when a read finds a value under it.
pub proof fn law_exists_iff_get(t: Map<u128, Seq<u8>>, key: u128)
    ensures
        spec_exists(t, key) <==> spec_get(t, key) is Some,
{
}

/// Upserting a value that is already stored changes nothing.
pub proof fn law_upsert_idempotent(t: Map<u128, Seq<u8>>, key: u128, value: Seq<u8>)
    ensures
        spec_upsert(spec_upsert(t, key, value), key, value) == spec_upsert(t, key, value),
{
    assert(spec_upsert(spec_upsert(t, key, value), key, value) =~= spec_upsert(t, key, value));
}

} // verus!
