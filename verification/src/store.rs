//! The store: a thin, verified handle over the embedded engine.
//!
//! The engine (sled) keeps byte values under byte keys, durably and
//! crash-safely; this module treats it as a black box. Its contents are
//! modelled as a mathematical map from key character sequences to value
//! byte sequences, named by `db_contents`, and every trusted wrapper's
//! contract is stated over that map. Absence of a key is never an engine
//! error here: `get` signals it with `None` and `delete` with `false`,
//! while engine-level faults (I/O, corruption) surface as `StoreError`.

use vstd::prelude::*;

verus! {

/// The engine's database handle, opaque to the verifier.
#[verifier::external_type_specification]
#[verifier::external_body]
pub struct ExDb(sled::Db);

/// The engine's error type, opaque to the verifier; it is mapped to
/// [`StoreError`] before any verified caller looks at a result.
#[verifier::external_type_specification]
#[verifier::external_body]
pub struct ExSledError(sled::Error);

/// The contents of an open database: the current value bytes under each
/// key. Keys reach the engine as the UTF-8 bytes of the key string, so
/// the model is keyed by the character sequence itself.
pub uninterp spec fn db_contents(db: sled::Db) -> Map<Seq<char>, Seq<u8>>;

/// An engine-level failure (I/O, corruption, internal fault). The cause
/// is deliberately not carried: callers treat it uniformly and
/// clients receive no diagnostic detail.
#[derive(Clone, Copy, Debug, PartialEq, Eq, Structural)]
pub struct StoreError;

/// Relies on sled::Config::open: opens (creating if absent) the store
/// directory at `path`. The contents of a freshly opened store are
/// whatever the directory durably holds, so nothing is claimed of them.
#[verifier::external_body]
fn db_open(path: &str) -> Result<sled::Db, sled::Error> {
    sled::Config::default().path(path).use_compression(false).open()
}

/// Relies on sled::Config::open with `temporary`: opens an ephemeral
/// store at a fresh private location, so it starts empty, and its
/// files are removed when the handle is dropped.
#[verifier::external_body]
fn db_open_temporary() -> (r: Result<sled::Db, sled::Error>)
    ensures
        (r matches Ok(db) ==> db_contents(db) == Map::<Seq<char>, Seq<u8>>::empty()),
{
    sled::Config::default().temporary(true).open()
}

/// Relies on sled::Tree::get: returns the value stored under the key,
/// if any; a missing key is `Ok(None)`, never an error.
#[verifier::external_body]
fn db_get(db: &sled::Db, key: &str) -> (r: Result<Option<Vec<u8>>, sled::Error>)
    ensures
        (r matches Ok(Some(v)) ==> db_contents(*db).contains_key(key@)
            && v@ == db_contents(*db)[key@]),
        (r matches Ok(None) ==> !db_contents(*db).contains_key(key@)),
{
    match db.get(key.as_bytes()) {
        Ok(Some(v)) => Ok(Some(v.to_vec())),
        Ok(None) => Ok(None),
        Err(e) => Err(e),
    }
}

/// Relies on sled::Tree::insert: sets the key to the value, replacing
/// any prior value atomically. On an engine failure nothing is claimed
/// of the contents.
#[verifier::external_body]
fn db_insert(db: &mut sled::Db, key: &str, value: &Vec<u8>) -> (r: Result<(), sled::Error>)
    ensures
        (r is Ok ==> db_contents(*final(db)) == db_contents(*old(db)).insert(key@, value@)),
{
    match db.insert(key.as_bytes(), value.as_slice()) {
        Ok(_prior) => Ok(()),
        Err(e) => Err(e),
    }
}

/// Relies on sled::Tree::remove: removes the key, returning the prior
/// value if one existed; a missing key is `Ok(None)`, never an error.
/// On an engine failure nothing is claimed of the contents.
#[verifier::external_body]
fn db_remove(db: &mut sled::Db, key: &str) -> (r: Result<Option<Vec<u8>>, sled::Error>)
    ensures
        (r matches Ok(prior) ==> {
            &&& (prior is Some <==> db_contents(*old(db)).contains_key(key@))
            &&& db_contents(*final(db)) == db_contents(*old(db)).remove(key@)
            &&& (prior matches Some(v) ==> v@ == db_contents(*old(db))[key@])
        }),
{
    match db.remove(key.as_bytes()) {
        Ok(Some(v)) => Ok(Some(v.to_vec())),
        Ok(None) => Ok(None),
        Err(e) => Err(e),
    }
}

/// Relies on sled::Db::size_on_disk: reports the on-disk footprint.
/// The number depends on the machine and the engine's own layout, so
/// only the success or failure of the probe carries meaning.
#[verifier::external_body]
fn db_size_on_disk(db: &sled::Db) -> Result<u64, sled::Error> {
    db.size_on_disk()
}

/// The single open store of the process: the engine handle behind the
/// four operations the service needs. Its view is the map of current
/// records.
pub struct StoreHandle {
    db: sled::Db,
}

impl View for StoreHandle {
    type V = Map<Seq<char>, Seq<u8>>;

    closed spec fn view(&self) -> Map<Seq<char>, Seq<u8>> {
        db_contents(self.db)
    }
}

impl StoreHandle {
    /// Opens (creating if absent) the store directory at `path`. The
    /// records of the opened store are whatever the directory durably
    /// holds from earlier runs.
    pub fn open(path: &str) -> Result<StoreHandle, StoreError> {
        match db_open(path) {
            Ok(db) => Ok(StoreHandle { db }),
            Err(_) => Err(StoreError),
        }
    }

    /// Opens an ephemeral store that starts empty and leaves nothing
    /// on disk once the handle is dropped.
    pub fn open_temporary() -> (r: Result<StoreHandle, StoreError>)
        ensures
            (r matches Ok(h) ==> h@ == Map::<Seq<char>, Seq<u8>>::empty()),
    {
        match db_open_temporary() {
            Ok(db) => Ok(StoreHandle { db }),
            Err(_) => Err(StoreError),
        }
    }

    /// Reads the current value under `key`; `None` when the key holds
    /// no record.
    pub fn get(&self, key: &str) -> (r: Result<Option<Vec<u8>>, StoreError>)
        ensures
            (r matches Ok(Some(v)) ==> self@.contains_key(key@) && v@ == self@[key@]),
            (r matches Ok(None) ==> !self@.contains_key(key@)),
    {
        match db_get(&self.db, key) {
            Ok(v) => Ok(v),
            Err(_) => Err(StoreError),
        }
    }

    /// Writes `value` under `key`, replacing any prior record.
    pub fn put(&mut self, key: &str, value: &Vec<u8>) -> (r: Result<(), StoreError>)
        ensures
            (r is Ok ==> final(self)@ == old(self)@.insert(key@, value@)),
    {
        match db_insert(&mut self.db, key, value) {
            Ok(()) => Ok(()),
            Err(_) => Err(StoreError),
        }
    }

    /// Removes the record under `key`; the result tells whether one
    /// existed.
    pub fn delete(&mut self, key: &str) -> (r: Result<bool, StoreError>)
        ensures
            (r matches Ok(existed) ==> {
                &&& (existed <==> old(self)@.contains_key(key@))
                &&& final(self)@ == old(self)@.remove(key@)
            }),
    {
        match db_remove(&mut self.db, key) {
            Ok(Some(_prior)) => Ok(true),
            Ok(None) => Ok(false),
            Err(_) => Err(StoreError),
        }
    }

    /// Probes the engine; only success or failure carries meaning, the
    /// number itself is the engine's on-disk footprint and is not
    /// interpreted.
    pub fn health(&self) -> Result<u64, StoreError> {
        match db_size_on_disk(&self.db) {
            Ok(size) => Ok(size),
            Err(_) => Err(StoreError),
        }
    }
}

} // verus!
