//! The persistent key/value store, an embedded sled database.
//!
//! Every call lands on a store that lives on disk, so no outcome can be
//! promised: a read may fail, a write may fail, an open may fail. The
//! wrappers here only convert between the store's types and plain values;
//! the cache manager is verified to cope with every outcome.

use vstd::prelude::*;

verus! {

#[verifier::external_type_specification]
#[verifier::external_body]
pub struct ExDb(sled::Db);

/// The store failed to read or write.
pub struct StoreError;

/// Relies on `sled::open`: opens the embedded store rooted at `path`,
/// creating the directory if it does not exist. Success depends on the
/// state of the disk, so nothing is promised of the outcome.
#[verifier::external_body]
pub(crate) fn store_open(path: &str) -> Option<sled::Db> {
    sled::open(path).ok()
}

/// Relies on `sled::Tree::get`: reads the value stored under `key`, if any.
/// The result depends on what is on disk, so nothing is promised of it.
#[verifier::external_body]
pub(crate) fn store_get(db: &sled::Db, key: &str) -> Result<Option<Vec<u8>>, StoreError> {
    match db.get(key) {
        Ok(Some(v)) => Ok(Some(v.to_vec())),
        Ok(None) => Ok(None),
        Err(_) => Err(StoreError),
    }
}

/// Relies on `sled::Tree::insert`: stores `value` under `key`, replacing
/// any previous value.
#[verifier::external_body]
pub(crate) fn store_put(db: &sled::Db, key: &str, value: &[u8]) -> Result<(), StoreError> {
    match db.insert(key, value) {
        Ok(_) => Ok(()),
        Err(_) => Err(StoreError),
    }
}

/// Relies on `remove_dir_all::remove_dir_all`: recursively deletes the
/// store's directory. A missing directory, like any other failure, is
/// ignored: the caller reopens the store either way.
#[verifier::external_body]
pub(crate) fn store_destroy(path: &str) {
    let _ = remove_dir_all::remove_dir_all(path);
}

} // verus!
