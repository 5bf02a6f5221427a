//! The LMDB engine as the storage layer sees it: the engine's types, names for
//! what its transactions hold, and one trusted wrapper per engine call.
//!
//! A write transaction is modelled as a collection: `write_view` names, for
//! each table (by its database index), the entries the transaction sees. A
//! read transaction has `read_view` likewise. What a fresh transaction sees
//! depends on what is on disk and on other writers, so the functions that
//! begin one state nothing of its contents.
//!
//! The engine asserts that a table handle, or the environment a table is
//! opened through, belongs to the environment of the transaction it is used
//! with, and panics otherwise: `env_identity`, `rw_txn_env`, `ro_txn_env` and
//! `database_env` name the environment each belongs to, and the wrappers
//! require them to agree. Within a write transaction, `table_names` names the
//! database index that each named table has there.
//!
//! `Env::write_txn` does not return while the calling thread holds a write
//! transaction of the same environment. Which transactions a thread holds is
//! not a value of the call, so no contract below excludes that; this crate
//! never begins a write transaction while holding one.
use vstd::prelude::*;
use heed::byteorder::BigEndian;
use heed::types::{Bytes, U128};
use heed::{Database, Env, RoTxn, RwTxn, WithoutTls};
use crate::errors::EngineFailure;

verus! {

#[verifier::external_type_specification]
#[verifier::external_body]
#[verifier::reject_recursive_types(T)]
pub struct ExEnv<T>(heed::Env<T>);

#[verifier::external_type_specification]
#[verifier::external_body]
pub struct ExWithoutTls(heed::WithoutTls);

#[verifier::external_type_specification]
#[verifier::external_body]
pub struct ExAnyTls(heed::AnyTls);

#[verifier::external_type_specification]
#[verifier::external_body]
#[verifier::reject_recursive_types(T)]
pub struct ExRoTxn<'e, T>(heed::RoTxn<'e, T>);

#[verifier::external_type_specification]
#[verifier::external_body]
pub struct ExRwTxn<'p>(heed::RwTxn<'p>);

#[verifier::external_type_specification]
#[verifier::external_body]
#[verifier::reject_recursive_types(KC)]
#[verifier::reject_recursive_types(DC)]
#[verifier::reject_recursive_types(C)]
#[verifier::reject_recursive_types(CDUP)]
pub struct ExDatabase<KC, DC, C, CDUP>(heed::Database<KC, DC, C, CDUP>);

#[verifier::external_type_specification]
#[verifier::external_body]
#[verifier::reject_recursive_types(O)]
pub struct ExU128<O>(heed::types::U128<O>);

#[verifier::external_type_specification]
#[verifier::external_body]
pub struct ExBigEndian(heed::byteorder::BigEndian);

#[verifier::external_type_specification]
#[verifier::external_body]
pub struct ExBytes(heed::types::Bytes);

#[verifier::external_type_specification]
#[verifier::external_body]
pub struct ExDefaultComparator(heed::DefaultComparator);

#[verifier::external_type_specification]
#[verifier::external_body]
pub struct ExHeedError(heed::Error);

/// The entries of every table as a write transaction sees them, keyed by the
/// table's database index.
pub uninterp spec fn write_view(txn: RwTxn) -> Map<u32, Map<u128, Seq<u8>>>;

/// The entries of every table as a read transaction sees them, keyed by the
/// table's database index.
pub uninterp spec fn read_view(txn: RoTxn<WithoutTls>) -> Map<u32, Map<u128, Seq<u8>>>;

/// The database index of a table handle.
pub uninterp spec fn table_index(db: Database<U128<BigEndian>, Bytes>) -> u32;

/// The environment an environment handle refers to.
pub uninterp spec fn env_identity(env: Env<WithoutTls>) -> int;

/// The environment a write transaction belongs to.
pub uninterp spec fn rw_txn_env(txn: RwTxn) -> int;

/// The environment a read transaction belongs to.
pub uninterp spec fn ro_txn_env(txn: RoTxn<WithoutTls>) -> int;

/// The environment a table handle was opened in.
pub uninterp spec fn database_env(db: Database<U128<BigEndian>, Bytes>) -> int;

/// The named tables a write transaction sees, with the database index each
/// has there.
pub uninterp spec fn table_names(txn: RwTxn) -> Map<Seq<char>, u32>;

/// What an engine error is reported as.
pub uninterp spec fn engine_failure_of(err: heed::Error) -> EngineFailure;

/// A table handle is the handle of the named table of an environment: it was
/// opened in that environment, and a write transaction of the environment
/// gives the name that handle's index.
pub open spec fn is_handle_of(env_id: int, name: Seq<char>, db: Database<U128<BigEndian>, Bytes>) -> bool {
    &&& database_env(db) == env_id
    &&& exists|t: RwTxn|
        #![trigger table_names(t)]
        rw_txn_env(t) == env_id && table_names(t).contains_key(name) && table_names(t)[name]
            == table_index(db)
}

/// A write transaction of the environment sees no table of that name.
pub open spec fn table_missing(env_id: int, name: Seq<char>) -> bool {
    exists|t: RwTxn| #![trigger table_names(t)] rw_txn_env(t) == env_id && !table_names(t).contains_key(name)
}

/// The entries of one table in a view; a table the view does not hold is empty.
pub open spec fn table_in(view: Map<u32, Map<u128, Seq<u8>>>, dbi: u32) -> Map<u128, Seq<u8>> {
    if view.contains_key(dbi) {
        view[dbi]
    } else {
        Map::empty()
    }
}

/// A view in which one table has been replaced.
pub open spec fn with_table(
    view: Map<u32, Map<u128, Seq<u8>>>,
    dbi: u32,
    table: Map<u128, Seq<u8>>,
) -> Map<u32, Map<u128, Seq<u8>>> {
    view.insert(dbi, table)
}

/// `Env::write_txn`: begins a write transaction. Nothing is claimed of what it
/// sees (that is the state on disk). The engine lets one writer in at a time,
/// so the call waits while another write transaction of the environment is
/// open (see the module documentation).
#[verifier::external_body]
pub(crate) fn begin_write(env: &Env<WithoutTls>) -> (r: Result<RwTxn<'_>, heed::Error>)
    ensures
        r matches Ok(txn) ==> rw_txn_env(txn) == env_identity(*env),
{
    env.write_txn()
}

/// `Env::read_txn`: begins a read transaction. Nothing is claimed of what it
/// sees (that is the state on disk).
#[verifier::external_body]
pub(crate) fn begin_read(env: &Env<WithoutTls>) -> (r: Result<RoTxn<'_, WithoutTls>, heed::Error>)
    ensures
        r matches Ok(txn) ==> ro_txn_env(txn) == env_identity(*env),
{
    env.read_txn()
}

/// `Deref` of `RwTxn`: a write transaction read as a read transaction sees its
/// own writes.
#[verifier::external_body]
pub(crate) fn write_as_read<'a, 'p>(txn: &'a RwTxn<'p>) -> (r: &'a RoTxn<'p, WithoutTls>)
    ensures
        read_view(*r) == write_view(*txn),
        ro_txn_env(*r) == rw_txn_env(*txn),
{
    txn
}

/// `RwTxn::commit`: ends the transaction and makes its writes durable.
#[verifier::external_body]
pub(crate) fn commit_write(txn: RwTxn) -> (r: Result<(), heed::Error>) {
    txn.commit()
}

/// `Database::get`: the value stored under `key` in the table, as the
/// transaction sees it.
#[verifier::external_body]
pub(crate) fn get_entry(
    db: &Database<U128<BigEndian>, Bytes>,
    txn: &RoTxn<WithoutTls>,
    key: u128,
) -> (r: Result<Option<Vec<u8>>, heed::Error>)
    requires
        database_env(*db) == ro_txn_env(*txn),
    ensures
        r matches Ok(found) ==> {
            let table = table_in(read_view(*txn), table_index(*db));
            match found {
                Some(v) => table.contains_key(key) && v@ == table[key],
                None => !table.contains_key(key),
            }
        },
{
    match db.get(txn, &key) {
        Ok(found) => Ok(found.map(|v| v.to_vec())),
        Err(e) => Err(e),
    }
}

/// `Database::get_or_put`: stores `value` under `key` unless the key is
/// present, in which case it hands back the stored value and changes nothing.
#[verifier::external_body]
pub(crate) fn get_or_put_entry(
    db: &Database<U128<BigEndian>, Bytes>,
    txn: &mut RwTxn,
    key: u128,
    value: &[u8],
) -> (r: Result<Option<Vec<u8>>, heed::Error>)
    requires
        database_env(*db) == rw_txn_env(*old(txn)),
    ensures
        rw_txn_env(*final(txn)) == rw_txn_env(*old(txn)),
        table_names(*final(txn)) == table_names(*old(txn)),
        r matches Ok(found) ==> {
            let dbi = table_index(*db);
            let before = table_in(write_view(*old(txn)), dbi);
            match found {
                None => !before.contains_key(key) && write_view(*final(txn)) == with_table(
                    write_view(*old(txn)),
                    dbi,
                    before.insert(key, value@),
                ),
                Some(v) => before.contains_key(key) && v@ == before[key] && write_view(*final(txn))
                    == write_view(*old(txn)),
            }
        },
{
    match db.get_or_put(txn, &key, value) {
        Ok(found) => Ok(found.map(|v| v.to_vec())),
        Err(e) => Err(e),
    }
}

/// `Database::put`: stores `value` under `key`, replacing what was there.
#[verifier::external_body]
pub(crate) fn put_entry(
    db: &Database<U128<BigEndian>, Bytes>,
    txn: &mut RwTxn,
    key: u128,
    value: &[u8],
) -> (r: Result<(), heed::Error>)
    requires
        database_env(*db) == rw_txn_env(*old(txn)),
    ensures
        rw_txn_env(*final(txn)) == rw_txn_env(*old(txn)),
        table_names(*final(txn)) == table_names(*old(txn)),
        r is Ok ==> write_view(*final(txn)) == with_table(
            write_view(*old(txn)),
            table_index(*db),
            table_in(write_view(*old(txn)), table_index(*db)).insert(key, value@),
        ),
{
    db.put(txn, &key, value)
}

/// `Database::delete`: removes `key`; `true` when it was present.
#[verifier::external_body]
pub(crate) fn delete_entry(
    db: &Database<U128<BigEndian>, Bytes>,
    txn: &mut RwTxn,
    key: u128,
) -> (r: Result<bool, heed::Error>)
    requires
        database_env(*db) == rw_txn_env(*old(txn)),
    ensures
        rw_txn_env(*final(txn)) == rw_txn_env(*old(txn)),
        table_names(*final(txn)) == table_names(*old(txn)),
        r matches Ok(removed) ==> {
            let dbi = table_index(*db);
            let before = table_in(write_view(*old(txn)), dbi);
            &&& removed == before.contains_key(key)
            &&& removed ==> write_view(*final(txn)) == with_table(
                write_view(*old(txn)),
                dbi,
                before.remove(key),
            )
            &&& !removed ==> write_view(*final(txn)) == write_view(*old(txn))
        },
{
    db.delete(txn, &key)
}

/// `Env::open_database`: the handle of the named table, `None` when the
/// transaction sees no such table. heed turns the name into a C string and
/// panics on a name holding a NUL character.
#[verifier::external_body]
pub(crate) fn open_table(
    env: &Env<WithoutTls>,
    txn: &RwTxn,
    name: &str,
) -> (r: Result<Option<Database<U128<BigEndian>, Bytes>>, heed::Error>)
    requires
        env_identity(*env) == rw_txn_env(*txn),
        !name@.contains('\0'),
    ensures
        r matches Ok(found) ==> match found {
            Some(db) => {
                &&& database_env(db) == env_identity(*env)
                &&& table_names(*txn).contains_key(name@)
                &&& table_names(*txn)[name@] == table_index(db)
            },
            None => !table_names(*txn).contains_key(name@),
        },
{
    env.open_database::<U128<BigEndian>, Bytes>(txn, Some(name))
}

/// `Env::create_database`: the handle of the named table, created empty when
/// the transaction does not see it yet. heed turns the name into a C string and panics on a
/// name holding a NUL character.
#[verifier::external_body]
pub(crate) fn create_table_in(
    env: &Env<WithoutTls>,
    txn: &mut RwTxn,
    name: &str,
) -> (r: Result<Database<U128<BigEndian>, Bytes>, heed::Error>)
    requires
        env_identity(*env) == rw_txn_env(*old(txn)),
        !name@.contains('\0'),
    ensures
        rw_txn_env(*final(txn)) == rw_txn_env(*old(txn)),
        r matches Ok(db) ==> {
            &&& database_env(db) == env_identity(*env)
            &&& table_names(*final(txn)).contains_key(name@)
            &&& table_names(*final(txn))[name@] == table_index(db)
            &&& !table_names(*old(txn)).contains_key(name@) ==> table_in(
                write_view(*final(txn)),
                table_index(db),
            ) == Map::<u128, Seq<u8>>::empty()
        },
{
    env.create_database::<U128<BigEndian>, Bytes>(txn, Some(name))
}

/// `Env::clear_stale_readers`: frees reader slots of dead processes.
#[verifier::external_body]
pub(crate) fn clear_stale_readers(env: &Env<WithoutTls>) -> (r: Result<usize, heed::Error>) {
    env.clear_stale_readers()
}

/// `Env::force_sync`: flushes the environment's buffers to disk.
#[verifier::external_body]
pub(crate) fn force_sync(env: &Env<WithoutTls>) -> (r: Result<(), heed::Error>) {
    env.force_sync()
}

/// `Env::info`, rendered with its `Debug` form.
#[verifier::external_body]
pub(crate) fn environment_info(env: &Env<WithoutTls>) -> (r: String) {
    format!("{:?}", env.info())
}

/// The variants of `heed::Error`, with the messages its `Display` gives.
#[verifier::external_body]
pub(crate) fn classify_engine_error(err: heed::Error) -> (r: EngineFailure)
    ensures
        r == engine_failure_of(err),
{
    match err {
        heed::Error::Io(e) => EngineFailure::Io(e),
        heed::Error::Encoding(e) => EngineFailure::Encoding(e.to_string()),
        heed::Error::Decoding(e) => EngineFailure::Decoding(e.to_string()),
        other => EngineFailure::Other(other.to_string()),
    }
}

} // verus!
