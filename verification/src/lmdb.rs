//! The storage backend: named tables of 128-bit keys and byte-string values,
//! kept in an LMDB environment.
//!
//! Each operation runs in one engine transaction. The `*_in_txn` functions are
//! the operations' logic on a transaction, stated exactly over what the
//! transaction sees (see `crate::table` for their meaning and laws); the
//! `*_outcome` functions say what each outcome of an engine call is reported
//! as. The backend's methods find the table, begin the transaction, run that
//! logic and commit.
//!
//! What a backend method finds depends on the committed state on disk and on
//! other writers (clones share the environment). So each method states what a
//! transaction of its environment saw of the named table and what it made of
//! it (`changed_in`, `seen_in`, `read_in`), by the meaning in `crate::table`;
//! its other errors are errors the engine reported. The writing methods find
//! the table before they begin their write transaction, so that no write
//! transaction is begun while one is held. Table names hold no NUL character:
//! the engine cannot name such a table.
use vstd::prelude::*;
use std::sync::Arc;
use dashmap::DashMap;
use heed::byteorder::BigEndian;
use heed::types::{Bytes, U128};
use heed::{Database, Env, RoTxn, RwTxn, WithoutTls};
use parking_lot::Mutex;
use crate::cache::{cached_table, hold_open_lock, new_open_lock, new_table_cache, remember_table, CachedTable};
use crate::errors::{from_engine, spec_error_of_failure, StorageError};
use crate::heed_ops::{
    begin_read, begin_write, clear_stale_readers, commit_write, create_table_in, database_env,
    delete_entry, engine_failure_of, env_identity, environment_info, force_sync, get_entry,
    get_or_put_entry, is_handle_of, open_table, put_entry, read_view, ro_txn_env, rw_txn_env,
    table_in, table_index, table_missing, table_names, with_table, write_as_read, write_view,
};
use crate::table::{spec_delete, spec_get, spec_insert, spec_update, spec_upsert};
use crate::text::same_text;

verus! {

/// `Arc::clone`: another pointer to the same environment.
#[verifier::external_body]
fn share_environment(env: &Arc<Env<WithoutTls>>) -> (r: Arc<Env<WithoutTls>>)
    ensures
        r == *env,
{
    env.clone()
}

/// `Arc::ptr_eq`: whether two pointers point at the same environment.
#[verifier::external_body]
fn same_environment(a: &Arc<Env<WithoutTls>>, b: &Arc<Env<WithoutTls>>) -> (r: bool)
    ensures
        r ==> *a == *b,
{
    Arc::ptr_eq(a, b)
}

/// The errors that finding a table of an environment can give: an error the
/// engine reported, or the table does not exist, which a write transaction of
/// the environment saw.
pub open spec fn lookup_failure(env_id: int, name: Seq<char>, e: StorageError) -> bool {
    ||| from_engine(e)
    ||| (e matches StorageError::TableError(m) && m@ == "Table not found"@ && table_missing(
        env_id,
        name,
    ))
}

/// The bytes of a value found, if any.
pub open spec fn bytes_of(found: Option<Vec<u8>>) -> Option<Seq<u8>> {
    match found {
        Some(v) => Some(v@),
        None => None,
    }
}

/// The entries of the table `db` in a write transaction.
pub open spec fn write_table(db: Database<U128<BigEndian>, Bytes>, txn: RwTxn) -> Map<u128, Seq<u8>> {
    table_in(write_view(txn), table_index(db))
}

/// A write transaction of the environment saw the table `db` hold `before`
/// and then, after one change that touched no other table, `after`.
pub open spec fn changed_through(
    env_id: int,
    db: Database<U128<BigEndian>, Bytes>,
    before: Map<u128, Seq<u8>>,
    after: Map<u128, Seq<u8>>,
) -> bool {
    exists|t0: RwTxn, t1: RwTxn|
        #![trigger write_table(db, t0), write_table(db, t1)]
        {
            &&& rw_txn_env(t0) == env_id
            &&& rw_txn_env(t1) == env_id
            &&& write_table(db, t0) == before
            &&& write_table(db, t1) == after
            &&& write_view(t1) == with_table(write_view(t0), table_index(db), after)
        }
}

/// As `changed_through`, for the named table.
pub open spec fn changed_in(
    env_id: int,
    name: Seq<char>,
    before: Map<u128, Seq<u8>>,
    after: Map<u128, Seq<u8>>,
) -> bool {
    exists|db: Database<U128<BigEndian>, Bytes>|
        #![trigger changed_through(env_id, db, before, after)]
        is_handle_of(env_id, name, db) && changed_through(env_id, db, before, after)
}

/// A write transaction of the environment saw the named table hold `seen`.
pub open spec fn seen_in(env_id: int, name: Seq<char>, seen: Map<u128, Seq<u8>>) -> bool {
    exists|db: Database<U128<BigEndian>, Bytes>, t: RwTxn|
        #![trigger write_table(db, t)]
        is_handle_of(env_id, name, db) && rw_txn_env(t) == env_id && write_table(db, t) == seen
}

/// A read transaction of the environment found `found` under `key` in the
/// table `db`.
pub open spec fn read_through(
    env_id: int,
    db: Database<U128<BigEndian>, Bytes>,
    key: u128,
    found: Option<Seq<u8>>,
) -> bool {
    exists|t: RoTxn<WithoutTls>|
        #![trigger table_in(read_view(t), table_index(db))]
        ro_txn_env(t) == env_id && found == spec_get(table_in(read_view(t), table_index(db)), key)
}

/// As `read_through`, for the named table.
pub open spec fn read_in(env_id: int, name: Seq<char>, key: u128, found: Option<Seq<u8>>) -> bool {
    exists|db: Database<U128<BigEndian>, Bytes>|
        #![trigger read_through(env_id, db, key, found)]
        is_handle_of(env_id, name, db) && read_through(env_id, db, key, found)
}

/// The error an engine error is reported as.
pub open spec fn engine_result<T>(err: heed::Error) -> Result<T, StorageError> {
    Err(spec_error_of_failure(engine_failure_of(err)))
}

/// What the outcome of storing a value unless its key is present is reported
/// as: stored, refused because the key is present, or the engine's error.
pub fn insert_outcome(key: u128, outcome: Result<Option<Vec<u8>>, heed::Error>) -> (r: Result<
    (),
    StorageError,
>)
    ensures
        match outcome {
            Ok(None) => r is Ok,
            Ok(Some(_)) => r == Err::<(), StorageError>(StorageError::KeyExists(key as u64)),
            Err(e) => r == engine_result::<()>(e),
        },
{
    match outcome {
        Ok(None) => Ok(()),
        Ok(Some(_)) => Err(StorageError::KeyExists(key as u64)),
        Err(e) => Err(StorageError::from_engine_error(e)),
    }
}

/// What the outcome of removing a key is reported as: removed, refused
/// because the key is absent, or the engine's error.
pub fn delete_outcome(key: u128, outcome: Result<bool, heed::Error>) -> (r: Result<(), StorageError>)
    ensures
        match outcome {
            Ok(true) => r is Ok,
            Ok(false) => r == Err::<(), StorageError>(StorageError::KeyNotFound(key as u64)),
            Err(e) => r == engine_result::<()>(e),
        },
{
    match outcome {
        Ok(true) => Ok(()),
        Ok(false) => Err(StorageError::KeyNotFound(key as u64)),
        Err(e) => Err(StorageError::from_engine_error(e)),
    }
}

/// What looking up a key before replacing its value is reported as: go on
/// when the key is present, refused when it is absent, or the engine's error.
pub fn presence_outcome(key: u128, outcome: Result<Option<Vec<u8>>, heed::Error>) -> (r: Result<
    (),
    StorageError,
>)
    ensures
        match outcome {
            Ok(Some(_)) => r is Ok,
            Ok(None) => r == Err::<(), StorageError>(StorageError::KeyNotFound(key as u64)),
            Err(e) => r == engine_result::<()>(e),
        },
{
    match outcome {
        Ok(Some(_)) => Ok(()),
        Ok(None) => Err(StorageError::KeyNotFound(key as u64)),
        Err(e) => Err(StorageError::from_engine_error(e)),
    }
}

/// What a step that only the engine can fail is reported as.
pub fn step_outcome<T>(outcome: Result<T, heed::Error>) -> (r: Result<T, StorageError>)
    ensures
        match outcome {
            Ok(v) => r == Ok::<T, StorageError>(v),
            Err(e) => r == engine_result::<T>(e),
        },
{
    match outcome {
        Ok(v) => Ok(v),
        Err(e) => Err(StorageError::from_engine_error(e)),
    }
}

/// What opening a table is reported as: its handle, "Table not found" when
/// the environment has no such table, or the engine's error.
pub fn table_outcome(outcome: Result<Option<Database<U128<BigEndian>, Bytes>>, heed::Error>) -> (r:
    Result<Database<U128<BigEndian>, Bytes>, StorageError>)
    ensures
        match outcome {
            Ok(Some(db)) => r == Ok::<Database<U128<BigEndian>, Bytes>, StorageError>(db),
            Ok(None) => r matches Err(StorageError::TableError(m)) && m@ == "Table not found"@,
            Err(e) => r == engine_result::<Database<U128<BigEndian>, Bytes>>(e),
        },
{
    match outcome {
        Ok(Some(db)) => Ok(db),
        Ok(None) => {
            proof {
                reveal_strlit("Table not found");
            }
            Err(StorageError::TableError(String::from_str("Table not found")))
        },
        Err(e) => Err(StorageError::from_engine_error(e)),
    }
}

/// Stores `value` under `key` unless the key is present.
pub fn insert_in_txn(
    db: &Database<U128<BigEndian>, Bytes>,
    txn: &mut RwTxn,
    key: u128,
    value: &[u8],
) -> (r: Result<(), StorageError>)
    requires
        database_env(*db) == rw_txn_env(*old(txn)),
    ensures
        rw_txn_env(*final(txn)) == rw_txn_env(*old(txn)),
        ({
            let expected = spec_insert(write_table(*db, *old(txn)), key, value@);
            match r {
                Ok(()) => expected matches Ok(after) && write_view(*final(txn)) == with_table(
                    write_view(*old(txn)),
                    table_index(*db),
                    after,
                ),
                Err(e) => (expected == Err::<Map<u128, Seq<u8>>, StorageError>(e) && write_view(
                    *final(txn),
                ) == write_view(*old(txn))) || from_engine(e),
            }
        }),
        spec_insert(write_table(*db, *old(txn)), key, value@) is Err ==> r is Err,
{
    insert_outcome(key, get_or_put_entry(db, txn, key, value))
}

/// The value stored under `key`, as the transaction sees it.
pub fn read_in_txn(
    db: &Database<U128<BigEndian>, Bytes>,
    txn: &RoTxn<WithoutTls>,
    key: u128,
) -> (r: Result<Option<Vec<u8>>, StorageError>)
    requires
        database_env(*db) == ro_txn_env(*txn),
    ensures
        match r {
            Ok(found) => bytes_of(found) == spec_get(
                table_in(read_view(*txn), table_index(*db)),
                key,
            ),
            Err(e) => from_engine(e),
        },
{
    step_outcome(get_entry(db, txn, key))
}

/// Removes `key`; refused when the key is absent.
pub fn delete_in_txn(
    db: &Database<U128<BigEndian>, Bytes>,
    txn: &mut RwTxn,
    key: u128,
) -> (r: Result<(), StorageError>)
    requires
        database_env(*db) == rw_txn_env(*old(txn)),
    ensures
        rw_txn_env(*final(txn)) == rw_txn_env(*old(txn)),
        ({
            let expected = spec_delete(write_table(*db, *old(txn)), key);
            match r {
                Ok(()) => expected matches Ok(after) && write_view(*final(txn)) == with_table(
                    write_view(*old(txn)),
                    table_index(*db),
                    after,
                ),
                Err(e) => (expected == Err::<Map<u128, Seq<u8>>, StorageError>(e) && write_view(
                    *final(txn),
                ) == write_view(*old(txn))) || from_engine(e),
            }
        }),
        spec_delete(write_table(*db, *old(txn)), key) is Err ==> r is Err,
{
    delete_outcome(key, delete_entry(db, txn, key))
}

/// Replaces the value of a present key; refused when the key is absent.
pub fn update_in_txn(
    db: &Database<U128<BigEndian>, Bytes>,
    txn: &mut RwTxn,
    key: u128,
    value: &[u8],
) -> (r: Result<(), StorageError>)
    requires
        database_env(*db) == rw_txn_env(*old(txn)),
    ensures
        rw_txn_env(*final(txn)) == rw_txn_env(*old(txn)),
        ({
            let expected = spec_update(write_table(*db, *old(txn)), key, value@);
            match r {
                Ok(()) => expected matches Ok(after) && write_view(*final(txn)) == with_table(
                    write_view(*old(txn)),
                    table_index(*db),
                    after,
                ),
                Err(e) => (expected == Err::<Map<u128, Seq<u8>>, StorageError>(e) && write_view(
                    *final(txn),
                ) == write_view(*old(txn))) || from_engine(e),
            }
        }),
        spec_update(write_table(*db, *old(txn)), key, value@) is Err ==> r is Err,
{
    presence_outcome(key, get_entry(db, write_as_read(txn), key))?;
    step_outcome(put_entry(db, txn, key, value))
}

/// Stores `value` under `key`, replacing what was there; `true` on success.
pub fn upsert_in_txn(
    db: &Database<U128<BigEndian>, Bytes>,
    txn: &mut RwTxn,
    key: u128,
    value: &[u8],
) -> (r: Result<bool, StorageError>)
    requires
        database_env(*db) == rw_txn_env(*old(txn)),
    ensures
        rw_txn_env(*final(txn)) == rw_txn_env(*old(txn)),
        match r {
            Ok(stored) => stored && write_view(*final(txn)) == with_table(
                write_view(*old(txn)),
                table_index(*db),
                spec_upsert(write_table(*db, *old(txn)), key, value@),
            ),
            Err(e) => from_engine(e),
        },
{
    step_outcome(put_entry(db, txn, key, value))?;
    Ok(true)
}

/// Within one write transaction, a read of a key gives back what the last
/// successful insert, update or upsert of it wrote, and nothing after a
/// successful delete; the other tables are left as they were.
pub proof fn law_transaction_reads_back_writes(
    db: Database<U128<BigEndian>, Bytes>,
    before: RwTxn,
    after: RwTxn,
    key: u128,
    value: Seq<u8>,
    other_dbi: u32,
)
    requires
        other_dbi != table_index(db),
    ensures
        spec_insert(write_table(db, before), key, value) matches Ok(t) && write_view(after)
            == with_table(write_view(before), table_index(db), t) ==> spec_get(
            write_table(db, after),
            key,
        ) == Some(value) && table_in(write_view(after), other_dbi) == table_in(
            write_view(before),
            other_dbi,
        ),
        spec_update(write_table(db, before), key, value) matches Ok(t) && write_view(after)
            == with_table(write_view(before), table_index(db), t) ==> spec_get(
            write_table(db, after),
            key,
        ) == Some(value),
        write_view(after) == with_table(
            write_view(before),
            table_index(db),
            spec_upsert(write_table(db, before), key, value),
        ) ==> spec_get(write_table(db, after), key) == Some(value),
        spec_delete(write_table(db, before), key) matches Ok(t) && write_view(after)
            == with_table(write_view(before), table_index(db), t) ==> spec_get(
            write_table(db, after),
            key,
        ) is None,
{
}

/// The map size rounded to the nearest multiple of the page size, a half
/// page rounding up; `usize::MAX` when that multiple does not fit in `usize`;
/// 0 when there is no page size to round to.
pub open spec fn spec_rounded_map_size(map_size: int, page_size: int) -> int {
    if page_size == 0 {
        0
    } else {
        spec_rounded_to_pages(map_size, page_size)
    }
}

/// The map size rounded to the nearest multiple of a positive page size.
pub open spec fn spec_rounded_to_pages(map_size: int, page_size: int) -> int {
    let down = (map_size / page_size) * page_size;
    let nearest = if 2 * (map_size % page_size) >= page_size {
        down + page_size
    } else {
        down
    };
    if nearest > usize::MAX {
        usize::MAX as int
    } else {
        nearest
    }
}

/// Rounds the requested map size of an environment to whole pages.
pub fn rounded_map_size(map_size: usize, page_size: usize) -> (r: usize)
    ensures
        r == spec_rounded_map_size(map_size as int, page_size as int),
        page_size > 0 ==> r % page_size == 0 || r == usize::MAX,
{
    if page_size == 0 {
        return 0;
    }
    let q = map_size / page_size;
    let rem = map_size % page_size;
    proof {
        vstd::arithmetic::div_mod::lemma_fundamental_div_mod(map_size as int, page_size as int);
        vstd::arithmetic::mul::lemma_mul_is_commutative(q as int, page_size as int);
    }
    let down = q * page_size;
    proof {
        vstd::arithmetic::div_mod::lemma_mod_multiples_basic(q as int, page_size as int);
        vstd::arithmetic::div_mod::lemma_mod_multiples_basic(q as int + 1, page_size as int);
        vstd::arithmetic::mul::lemma_mul_is_distributive_add_other_way(page_size as int, q as int, 1);
    }
    if rem >= page_size - rem {
        match down.checked_add(page_size) {
            Some(up) => up,
            None => usize::MAX,
        }
    } else {
        down
    }
}

/// A handle on an LMDB environment and a cache of its table handles. Clones
/// share the environment and the cache.
#[derive(Debug, Clone)]
pub struct StorageBackend {
    pub env: Arc<Env<WithoutTls>>,
    dbs: Arc<DashMap<String, Arc<CachedTable>>>,
    dbi_open_lock: Arc<Mutex<()>>,
}

impl StorageBackend {
    /// The shared environment this backend works on.
    pub closed spec fn environment(self) -> Arc<Env<WithoutTls>> {
        self.env
    }

    /// The identity of the environment this backend works on.
    pub open spec fn env_id(self) -> int {
        env_identity(*self.environment())
    }

    /// A backend on an opened environment, with an empty table cache.
    pub fn from_environment(env: Env<WithoutTls>) -> (r: Self)
        ensures
            *r.environment() == env,
    {
        StorageBackend {
            env: Arc::new(env),
            dbs: Arc::new(new_table_cache()),
            dbi_open_lock: Arc::new(new_open_lock()),
        }
    }

    /// Stores `value` under `key` in `table`; refused with `KeyExists` when
    /// the key is present.
    pub fn insert(&self, table: &str, key: u128, value: Vec<u8>) -> (r: Result<(), StorageError>)
        requires
            !table@.contains('\0'),
        ensures
            r is Ok ==> exists|before: Map<u128, Seq<u8>>, after: Map<u128, Seq<u8>>|
                #[trigger] changed_in(self.env_id(), table@, before, after) && spec_insert(
                    before,
                    key,
                    value@,
                ) == Ok::<Map<u128, Seq<u8>>, StorageError>(after),
            r matches Err(e) ==> lookup_failure(self.env_id(), table@, e) || (e
                == StorageError::KeyExists(key as u64) && exists|before: Map<u128, Seq<u8>>|
                #[trigger] seen_in(self.env_id(), table@, before) && before.contains_key(key)),
    {
        let db = self.get_db(table)?;
        let mut rw_txn = step_outcome(begin_write(&self.env))?;
        let ghost t0 = rw_txn;
        let done = insert_in_txn(&db, &mut rw_txn, key, value.as_slice());
        let ghost t1 = rw_txn;
        proof {
            let before = write_table(db, t0);
            assert(seen_in(self.env_id(), table@, before));
            if done is Ok {
                assert(changed_through(self.env_id(), db, before, write_table(db, t1)));
                assert(changed_in(self.env_id(), table@, before, write_table(db, t1)));
            }
        }
        done?;
        step_outcome(commit_write(rw_txn))
    }

    /// The value stored under `key` in `table`, if any.
    pub fn get(&self, table: &str, key: u128) -> (r: Result<Option<Vec<u8>>, StorageError>)
        requires
            !table@.contains('\0'),
        ensures
            r matches Ok(found) ==> read_in(self.env_id(), table@, key, bytes_of(found)),
            r matches Err(e) ==> lookup_failure(self.env_id(), table@, e),
    {
        let db = self.get_db(table)?;
        let found = self.get_with(db, key);
        proof {
            if found is Ok {
                assert(read_in(self.env_id(), table@, key, bytes_of(found->Ok_0)));
            }
        }
        found
    }

    /// The value stored under `key` in the table of the handle `db`, if any.
    pub fn get_with(&self, db: Database<U128<BigEndian>, Bytes>, key: u128) -> (r: Result<
        Option<Vec<u8>>,
        StorageError,
    >)
        requires
            database_env(db) == self.env_id(),
        ensures
            r matches Ok(found) ==> read_through(self.env_id(), db, key, bytes_of(found)),
            r matches Err(e) ==> from_engine(e),
    {
        let ro_txn = step_outcome(begin_read(&self.env))?;
        let found = read_in_txn(&db, &ro_txn, key);
        proof {
            if found is Ok {
                assert(read_through(self.env_id(), db, key, bytes_of(found->Ok_0)));
            }
        }
        found
    }

    /// Removes `key` from `table`; refused with `KeyNotFound` when it is
    /// absent.
    pub fn delete(&self, table: &str, key: u128) -> (r: Result<(), StorageError>)
        requires
            !table@.contains('\0'),
        ensures
            r is Ok ==> exists|before: Map<u128, Seq<u8>>, after: Map<u128, Seq<u8>>|
                #[trigger] changed_in(self.env_id(), table@, before, after) && spec_delete(
                    before,
                    key,
                ) == Ok::<Map<u128, Seq<u8>>, StorageError>(after),
            r matches Err(e) ==> lookup_failure(self.env_id(), table@, e) || (e
                == StorageError::KeyNotFound(key as u64) && exists|before: Map<u128, Seq<u8>>|
                #[trigger] seen_in(self.env_id(), table@, before) && !before.contains_key(key)),
    {
        let db = self.get_db(table)?;
        let mut rw_txn = step_outcome(begin_write(&self.env))?;
        let ghost t0 = rw_txn;
        let done = delete_in_txn(&db, &mut rw_txn, key);
        let ghost t1 = rw_txn;
        proof {
            let before = write_table(db, t0);
            assert(seen_in(self.env_id(), table@, before));
            if done is Ok {
                assert(changed_through(self.env_id(), db, before, write_table(db, t1)));
                assert(changed_in(self.env_id(), table@, before, write_table(db, t1)));
            }
        }
        done?;
        step_outcome(commit_write(rw_txn))
    }

    /// Replaces the value under `key` in `table`; refused with `KeyNotFound`
    /// when the key is absent.
    pub fn update(&self, table: &str, key: u128, value: Vec<u8>) -> (r: Result<(), StorageError>)
        requires
            !table@.contains('\0'),
        ensures
            r is Ok ==> exists|before: Map<u128, Seq<u8>>, after: Map<u128, Seq<u8>>|
                #[trigger] changed_in(self.env_id(), table@, before, after) && spec_update(
                    before,
                    key,
                    value@,
                ) == Ok::<Map<u128, Seq<u8>>, StorageError>(after),
            r matches Err(e) ==> lookup_failure(self.env_id(), table@, e) || (e
                == StorageError::KeyNotFound(key as u64) && exists|before: Map<u128, Seq<u8>>|
                #[trigger] seen_in(self.env_id(), table@, before) && !before.contains_key(key)),
    {
        let db = self.get_db(table)?;
        let mut rw_txn = step_outcome(begin_write(&self.env))?;
        let ghost t0 = rw_txn;
        let done = update_in_txn(&db, &mut rw_txn, key, value.as_slice());
        let ghost t1 = rw_txn;
        proof {
            let before = write_table(db, t0);
            assert(seen_in(self.env_id(), table@, before));
            if done is Ok {
                assert(changed_through(self.env_id(), db, before, write_table(db, t1)));
                assert(changed_in(self.env_id(), table@, before, write_table(db, t1)));
            }
        }
        done?;
        step_outcome(commit_write(rw_txn))
    }

    /// Stores `value` under `key` in `table` whether or not the key is
    /// present; `true` on success.
    pub fn upsert(&self, table: &str, key: u128, value: Vec<u8>) -> (r: Result<bool, StorageError>)
        requires
            !table@.contains('\0'),
        ensures
            r matches Ok(stored) ==> stored && exists|
                before: Map<u128, Seq<u8>>,
                after: Map<u128, Seq<u8>>,
            |
                #[trigger] changed_in(self.env_id(), table@, before, after) && after == spec_upsert(
                    before,
                    key,
                    value@,
                ),
            r matches Err(e) ==> lookup_failure(self.env_id(), table@, e),
    {
        let db = self.get_db(table)?;
        let r = self.upsert_with(db, key, value);
        proof {
            if r is Ok {
                let (before, after) = choose|before: Map<u128, Seq<u8>>, after: Map<u128, Seq<u8>>|
                    #[trigger] changed_through(self.env_id(), db, before, after) && after
                        == spec_upsert(before, key, value@);
                assert(changed_in(self.env_id(), table@, before, after));
            }
        }
        r
    }

    /// Stores `value` under `key` in the table of the handle `db`, whether or
    /// not the key is present; `true` on success.
    pub fn upsert_with(&self, db: Database<U128<BigEndian>, Bytes>, key: u128, value: Vec<u8>) -> (r:
        Result<bool, StorageError>)
        requires
            database_env(db) == self.env_id(),
        ensures
            r matches Ok(stored) ==> stored && exists|
                before: Map<u128, Seq<u8>>,
                after: Map<u128, Seq<u8>>,
            |
                #[trigger] changed_through(self.env_id(), db, before, after) && after
                    == spec_upsert(before, key, value@),
            r matches Err(e) ==> from_engine(e),
    {
        let mut rw_txn = step_outcome(begin_write(&self.env))?;
        let ghost t0 = rw_txn;
        let done = upsert_in_txn(&db, &mut rw_txn, key, value.as_slice());
        let ghost t1 = rw_txn;
        proof {
            if done is Ok {
                assert(changed_through(self.env_id(), db, write_table(db, t0), write_table(db, t1)));
            }
        }
        done?;
        step_outcome(commit_write(rw_txn))?;
        Ok(true)
    }

    /// Whether a value is stored under `key` in `table`.
    pub fn key_exists(&self, table: &str, key: u128) -> (r: Result<bool, StorageError>)
        requires
            !table@.contains('\0'),
        ensures
            r matches Ok(b) ==> exists|found: Option<Seq<u8>>|
                #[trigger] read_in(self.env_id(), table@, key, found) && b == found is Some,
            r matches Err(e) ==> lookup_failure(self.env_id(), table@, e),
    {
        let found = self.get(table, key)?;
        proof {
            assert(read_in(self.env_id(), table@, key, bytes_of(found)));
        }
        Ok(found.is_some())
    }

    /// Whether the environment has a table of this name; a table found is
    /// cached.
    pub fn table_exists(&self, table: &str) -> (r: Result<bool, StorageError>)
        requires
            !table@.contains('\0'),
        ensures
            r matches Ok(found) ==> if found {
                exists|db: Database<U128<BigEndian>, Bytes>| #[trigger]
                    is_handle_of(self.env_id(), table@, db)
            } else {
                table_missing(self.env_id(), table@)
            },
            r matches Err(e) ==> from_engine(e),
    {
        let found = self.find_table(table)?;
        Ok(found.is_some())
    }

    /// The handle of the named table, or `None` when the environment has no
    /// such table; a table found is cached.
    pub fn find_table(&self, table: &str) -> (r: Result<Option<Database<U128<BigEndian>, Bytes>>, StorageError>)
        requires
            !table@.contains('\0'),
        ensures
            r matches Ok(found) ==> match found {
                Some(db) => is_handle_of(self.env_id(), table@, db),
                None => table_missing(self.env_id(), table@),
            },
            r matches Err(e) ==> from_engine(e),
    {
        if let Some(db) = self.cached_handle(table) {
            return Ok(Some(db));
        }
        let _lock = hold_open_lock(&self.dbi_open_lock);
        if let Some(db) = self.cached_handle(table) {
            return Ok(Some(db));
        }
        let rw_txn = step_outcome(begin_write(&self.env))?;
        let ghost t = rw_txn;
        let opened = step_outcome(open_table(&self.env, &rw_txn, table))?;
        match opened {
            Some(db) => {
                proof {
                    assert(table_names(t).contains_key(table@));
                    assert(is_handle_of(self.env_id(), table@, db));
                }
                step_outcome(commit_write(rw_txn))?;
                let entry = CachedTable::new(db, share_environment(&self.env), table.to_string());
                remember_table(&self.dbs, table.to_string(), Arc::new(entry));
                Ok(Some(db))
            },
            None => {
                proof {
                    assert(!table_names(t).contains_key(table@));
                    assert(table_missing(self.env_id(), table@));
                }
                Ok(None)
            },
        }
    }

    /// A description of the environment: the engine's name and version, then
    /// the environment's statistics.
    pub fn details(&self) -> (r: String)
        ensures
            exists|info: Seq<char>| r@ == "LMDB (heed 0.22.1): "@ + info,
    {
        let info = environment_info(&self.env);
        let mut text = String::from_str("LMDB (heed 0.22.1): ");
        text.append(info.as_str());
        text
    }

    /// Frees stale reader slots, then flushes the environment to disk.
    pub fn flush(&self) -> (r: Result<(), StorageError>)
        ensures
            r matches Err(e) ==> from_engine(e),
    {
        step_outcome(clear_stale_readers(&self.env))?;
        step_outcome(force_sync(&self.env))
    }

    /// Creates the table if it does not exist and caches its handle.
    pub fn create_table(&self, table: &str) -> (r: Result<(), StorageError>)
        requires
            !table@.contains('\0'),
        ensures
            r is Ok ==> exists|db: Database<U128<BigEndian>, Bytes>| #[trigger]
                is_handle_of(self.env_id(), table@, db),
            r matches Err(e) ==> from_engine(e),
    {
        let db = self.create_table_handle(table)?;
        Ok(())
    }

    /// The handle of the named table, created empty when it does not exist
    /// yet; the handle is cached.
    pub fn create_table_handle(&self, table: &str) -> (r: Result<Database<U128<BigEndian>, Bytes>, StorageError>)
        requires
            !table@.contains('\0'),
        ensures
            r matches Ok(db) ==> is_handle_of(self.env_id(), table@, db),
            r matches Err(e) ==> from_engine(e),
    {
        let mut rw_txn = step_outcome(begin_write(&self.env))?;
        let db = step_outcome(create_table_in(&self.env, &mut rw_txn, table))?;
        let ghost t1 = rw_txn;
        proof {
            assert(table_names(t1).contains_key(table@));
            assert(is_handle_of(self.env_id(), table@, db));
        }
        step_outcome(commit_write(rw_txn))?;
        let entry = CachedTable::new(db, share_environment(&self.env), table.to_string());
        remember_table(&self.dbs, table.to_string(), Arc::new(entry));
        Ok(db)
    }

    /// Flushes the environment; the backend stays usable.
    pub fn close(&self) -> (r: Result<(), StorageError>)
        ensures
            r matches Err(e) ==> from_engine(e),
    {
        self.flush()?;
        Ok(())
    }

    /// The shared environment.
    pub fn get_env(&self) -> (r: Arc<Env<WithoutTls>>)
        ensures
            r == self.environment(),
    {
        share_environment(&self.env)
    }

    /// The cached handle of `table`, if the cache holds one for this
    /// environment under that name.
    fn cached_handle(&self, table: &str) -> (r: Option<Database<U128<BigEndian>, Bytes>>)
        ensures
            r matches Some(db) ==> is_handle_of(self.env_id(), table@, db),
    {
        match cached_table(&self.dbs, table) {
            Some(entry) => {
                let (db, env, name) = entry.parts();
                if same_environment(env, &self.env) && same_text(name, table) {
                    Some(db)
                } else {
                    None
                }
            },
            None => None,
        }
    }

    /// The handle of `table`: from the cache, or else opened (under the
    /// opening lock, checking the cache again first) and cached.
    fn get_db(&self, table: &str) -> (r: Result<Database<U128<BigEndian>, Bytes>, StorageError>)
        requires
            !table@.contains('\0'),
        ensures
            match r {
                Ok(db) => is_handle_of(self.env_id(), table@, db),
                Err(e) => lookup_failure(self.env_id(), table@, e),
            },
    {
        if let Some(db) = self.cached_handle(table) {
            return Ok(db);
        }
        let _lock = hold_open_lock(&self.dbi_open_lock);
        if let Some(db) = self.cached_handle(table) {
            return Ok(db);
        }
        let rw_txn = step_outcome(begin_write(&self.env))?;
        let ghost t = rw_txn;
        let opened = open_table(&self.env, &rw_txn, table);
        proof {
            if opened matches Ok(None) {
                assert(!table_names(t).contains_key(table@));
                assert(table_missing(self.env_id(), table@));
            }
        }
        let db = table_outcome(opened)?;
        proof {
            assert(table_names(t).contains_key(table@));
            assert(is_handle_of(self.env_id(), table@, db));
        }
        step_outcome(commit_write(rw_txn))?;
        let entry = CachedTable::new(db, share_environment(&self.env), table.to_string());
        remember_table(&self.dbs, table.to_string(), Arc::new(entry));
        Ok(db)
    }
}

} // verus!
