//! The seen-set: the persistent set of fingerprints that were submitted or are
//! known to the backend, kept in a `sled` database.
use vstd::prelude::*;
use vstd::utf8::encode_utf8;

verus! {

/// `sled::Db`, the handle of an open database. Nothing of its inside is
/// visible here; what it holds is spoken of through [`stored_keys`].
#[verifier::external_type_specification]
#[verifier::external_body]
pub struct ExDb(sled::Db);

/// The keys that the default tree of `db` holds a value for.
pub uninterp spec fn stored_keys(db: sled::Db) -> Set<Seq<u8>>;

/// What `sled::Db::was_recovered` says of `db`: whether it was opened over
/// files that an earlier process left, and not freshly created.
pub uninterp spec fn recovered(db: sled::Db) -> bool;

/// `sled::Tree::contains_key` on the default tree. When the lookup succeeds
/// it tells whether `key` is among the stored keys; it may also fail, on an
/// I/O error or on corrupted storage, and then gives the text of the error.
#[verifier::external_body]
fn db_contains_key(db: &sled::Db, key: &[u8]) -> (r: Result<bool, String>)
    ensures
        r matches Ok(found) ==> found == stored_keys(*db).contains(key@),
{
    db.contains_key(key).map_err(|e| e.to_string())
}

/// `sled::Tree::insert` on the default tree, with an empty value. On success
/// `key` has joined the stored keys, no other key came or went, and the
/// result tells whether `key` was among them before. On failure the write may
/// or may not have taken place, and the text of the error is returned.
#[verifier::external_body]
fn db_insert(db: &mut sled::Db, key: &[u8]) -> (r: Result<bool, String>)
    ensures
        r is Ok ==> stored_keys(*final(db)) == stored_keys(*old(db)).insert(key@),
        r matches Ok(known) ==> known == stored_keys(*old(db)).contains(key@),
        r is Err ==> stored_keys(*final(db)) == stored_keys(*old(db)) || stored_keys(*final(db))
            == stored_keys(*old(db)).insert(key@),
        recovered(*final(db)) == recovered(*old(db)),
{
    db.insert(key, b"").map(|v| v.is_some()).map_err(|e| e.to_string())
}

/// `sled::Tree::flush`: writes what is pending to disk and returns the number
/// of bytes written, or the text of the error.
#[verifier::external_body]
fn db_flush(db: &sled::Db) -> (r: Result<usize, String>) {
    db.flush().map_err(|e| e.to_string())
}

/// `sled::Db::was_recovered`.
#[verifier::external_body]
fn db_was_recovered(db: &sled::Db) -> (r: bool)
    ensures
        r == recovered(*db),
{
    db.was_recovered()
}

/// A failure of the persistent set: an I/O error or corrupted storage.
#[derive(Clone, Debug, PartialEq)]
pub struct StoreError {
    pub message: String,
}

/// The key under which a fingerprint is stored: its UTF-8 bytes.
pub open spec fn key_of(fingerprint: Seq<char>) -> Seq<u8> {
    encode_utf8(fingerprint)
}

/// The set of the fingerprints that were submitted or are known to the
/// backend. It only grows.
pub struct SeenStore {
    db: sled::Db,
}

impl View for SeenStore {
    type V = Set<Seq<u8>>;

    /// The keys that the set holds.
    closed spec fn view(&self) -> Set<Seq<u8>> {
        stored_keys(self.db)
    }
}

/// Whether `found`, the outcome of looking `fingerprint` up in a set with the
/// keys `keys`, is right where it is not an error.
pub open spec fn lookup_agrees(
    keys: Set<Seq<u8>>,
    fingerprint: Seq<char>,
    found: Result<bool, StoreError>,
) -> bool {
    found matches Ok(known) ==> known == keys.contains(key_of(fingerprint))
}

/// Whether `inserted`, the outcome of inserting `fingerprint` into a set with
/// the keys `keys`, goes with `later` as the keys after it. An insertion that
/// succeeds adds the key and tells whether it is new; one that fails may or
/// may not have added it.
pub open spec fn insert_agrees(
    keys: Set<Seq<u8>>,
    fingerprint: Seq<char>,
    inserted: Result<bool, StoreError>,
    later: Set<Seq<u8>>,
) -> bool {
    match inserted {
        Ok(fresh) => later == keys.insert(key_of(fingerprint)) && fresh == !keys.contains(
            key_of(fingerprint),
        ),
        Err(_) => later == keys || later == keys.insert(key_of(fingerprint)),
    }
}

/// The seen-set only grows: whatever comes of an insertion, every key that
/// was in the set is in it afterwards.
pub proof fn lemma_store_only_grows(
    keys: Set<Seq<u8>>,
    fingerprint: Seq<char>,
    inserted: Result<bool, StoreError>,
    later: Set<Seq<u8>>,
    key: Seq<u8>,
)
    requires
        insert_agrees(keys, fingerprint, inserted, later),
        keys.contains(key),
    ensures
        later.contains(key),
{
}

/// Insertion is idempotent: to insert a fingerprint once more after it was
/// inserted leaves the set as it is and is no error of its own; where it
/// succeeds, it tells that the fingerprint is not new.
pub proof fn lemma_insert_is_idempotent(
    keys: Set<Seq<u8>>,
    fingerprint: Seq<char>,
    first: Result<bool, StoreError>,
    once: Set<Seq<u8>>,
    second: Result<bool, StoreError>,
    twice: Set<Seq<u8>>,
)
    requires
        first is Ok,
        insert_agrees(keys, fingerprint, first, once),
        insert_agrees(once, fingerprint, second, twice),
    ensures
        twice == once,
        second is Ok ==> second == Ok::<bool, StoreError>(false),
{
    assert(once.insert(key_of(fingerprint)) =~= once);
}

impl SeenStore {
    /// Whether `fingerprint` is in the set.
    pub open spec fn has(&self, fingerprint: Seq<char>) -> bool {
        self@.contains(key_of(fingerprint))
    }

    /// Whether the database was recovered from the files of an earlier run,
    /// and not freshly created.
    pub closed spec fn recovered(&self) -> bool {
        recovered(self.db)
    }

    /// The set that `db` holds. `db` is the only handle of its database that
    /// is in use while the set lives.
    pub fn new(db: sled::Db) -> (store: SeenStore)
        ensures
            store@ == stored_keys(db),
            store.recovered() == recovered(db),
    {
        SeenStore { db }
    }

    /// Whether the database was recovered from the files of an earlier run.
    pub fn was_recovered(&self) -> (r: bool)
        ensures
            r == self.recovered(),
    {
        db_was_recovered(&self.db)
    }

    /// Looks `fingerprint` up. The lookup itself can fail.
    pub fn lookup(&self, fingerprint: &str) -> (found: Result<bool, StoreError>)
        ensures
            lookup_agrees(self@, fingerprint@, found),
    {
        match db_contains_key(&self.db, fingerprint.as_bytes()) {
            Ok(known) => Ok(known),
            Err(message) => Err(StoreError { message }),
        }
    }

    /// Whether `fingerprint` is known to be in the set. A lookup that fails
    /// counts as absent.
    pub fn contains(&self, fingerprint: &str) -> (known: bool)
        ensures
            known ==> self.has(fingerprint@),
    {
        seen(&self.lookup(fingerprint))
    }

    /// Puts `fingerprint` into the set, and tells whether it is new there.
    /// To insert what is present already changes nothing and is no error.
    pub fn insert(&mut self, fingerprint: &str) -> (inserted: Result<bool, StoreError>)
        ensures
            insert_agrees(old(self)@, fingerprint@, inserted, final(self)@),
            final(self).recovered() == old(self).recovered(),
    {
        match db_insert(&mut self.db, fingerprint.as_bytes()) {
            Ok(known) => Ok(!known),
            Err(message) => Err(StoreError { message }),
        }
    }

    /// Writes the set to disk, so that it outlasts the process.
    pub fn flush(&self) -> (flushed: Result<(), StoreError>) {
        match db_flush(&self.db) {
            Ok(_) => Ok(()),
            Err(message) => Err(StoreError { message }),
        }
    }
}

/// Whether a lookup with the outcome `found` shows the fingerprint to be in
/// the set: it does when it succeeded and found it.
pub fn seen(found: &Result<bool, StoreError>) -> (known: bool)
    ensures
        known == (*found matches Ok(true)),
{
    match found {
        Ok(known) => *known,
        Err(_) => false,
    }
}

} // verus!
