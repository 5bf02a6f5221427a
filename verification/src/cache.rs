//! The table-handle cache of the storage backend: a concurrent map from table
//! name to handle, and the lock that serialises opening a table.
//!
//! Both are shared between clones of the backend and changed through shared
//! references, by any thread. What a lookup finds therefore depends on what
//! other threads did before it, so the lookups state nothing of their result.
//! What holds of every cached entry is the type invariant of `CachedTable`.
use vstd::prelude::*;
use std::sync::Arc;
use dashmap::DashMap;
use heed::byteorder::BigEndian;
use heed::types::{Bytes, U128};
use heed::{Database, Env, WithoutTls};
use parking_lot::{Mutex, MutexGuard};
use crate::heed_ops::{env_identity, is_handle_of};

verus! {

#[verifier::external_type_specification]
#[verifier::external_body]
#[verifier::reject_recursive_types(K)]
#[verifier::reject_recursive_types(V)]
#[verifier::reject_recursive_types(S)]
pub struct ExDashMap<K, V, S>(dashmap::DashMap<K, V, S>);

#[verifier::external_type_specification]
#[verifier::external_body]
pub struct ExRawMutex(parking_lot::RawMutex);

#[verifier::external_type_specification]
#[verifier::external_body]
#[verifier::reject_recursive_types(R)]
#[verifier::reject_recursive_types(T)]
pub struct ExLockMutex<R, T: ?Sized>(parking_lot::lock_api::Mutex<R, T>);

/// Holds the table-opening lock until dropped. The lock's guard type sits in
/// a private field: `lock_api::MutexGuard` cannot be declared as an outside
/// type, since its `RawMutex` bound does not resolve there.
#[verifier::external_body]
pub struct OpenLockHold<'a> {
    _guard: MutexGuard<'a, ()>,
}

/// A cached table handle, with the environment it was opened in and the
/// table's name.
#[derive(Debug)]
pub struct CachedTable {
    pub(crate) db: Database<U128<BigEndian>, Bytes>,
    pub(crate) env: Arc<Env<WithoutTls>>,
    pub(crate) name: String,
}

impl CachedTable {
    /// The handle is that of the named table of the environment.
    #[verifier::type_invariant]
    pub(crate) closed spec fn well_formed(self) -> bool {
        is_handle_of(env_identity(*self.env), self.name@, self.db)
    }

    /// The environment the handle was opened in.
    pub(crate) closed spec fn environment(self) -> Arc<Env<WithoutTls>> {
        self.env
    }

    /// The name of the table.
    pub(crate) closed spec fn table_name(self) -> Seq<char> {
        self.name@
    }

    /// The table handle.
    pub(crate) closed spec fn handle(self) -> Database<U128<BigEndian>, Bytes> {
        self.db
    }

    /// Pairs a handle with its environment and name.
    pub(crate) fn new(db: Database<U128<BigEndian>, Bytes>, env: Arc<Env<WithoutTls>>, name: String) -> (r: Self)
        requires
            is_handle_of(env_identity(*env), name@, db),
        ensures
            r.handle() == db,
            r.environment() == env,
            r.table_name() == name@,
    {
        CachedTable { db, env, name }
    }

    /// The handle, with what the invariant says of it.
    pub(crate) fn parts(&self) -> (r: (Database<U128<BigEndian>, Bytes>, &Arc<Env<WithoutTls>>, &str))
        ensures
            r.0 == self.handle(),
            *r.1 == self.environment(),
            r.2@ == self.table_name(),
            is_handle_of(env_identity(*self.environment()), self.table_name(), self.handle()),
    {
        proof {
            use_type_invariant(self);
        }
        (self.db, &self.env, self.name.as_str())
    }
}

/// `DashMap::new`: an empty cache.
#[verifier::external_body]
pub(crate) fn new_table_cache() -> (r: DashMap<String, Arc<CachedTable>>) {
    DashMap::new()
}

/// `DashMap::get`: the entry cached under the name, cloned out of the map
/// before the map's shard lock is released.
#[verifier::external_body]
pub(crate) fn cached_table(cache: &DashMap<String, Arc<CachedTable>>, name: &str) -> (r: Option<Arc<CachedTable>>) {
    match cache.get(name) {
        Some(entry) => Some(entry.clone()),
        None => None,
    }
}

/// `DashMap::insert`: caches an entry under the name.
#[verifier::external_body]
pub(crate) fn remember_table(
    cache: &DashMap<String, Arc<CachedTable>>,
    name: String,
    entry: Arc<CachedTable>,
) {
    cache.insert(name, entry);
}

/// `Mutex::new`: the lock that serialises opening tables.
#[verifier::external_body]
pub(crate) fn new_open_lock() -> (r: Mutex<()>) {
    Mutex::new(())
}

/// `Mutex::lock`: waits for the lock and holds it until the guard is dropped.
#[verifier::external_body]
pub(crate) fn hold_open_lock(lock: &Mutex<()>) -> (r: OpenLockHold<'_>) {
    OpenLockHold { _guard: lock.lock() }
}

} // verus!
