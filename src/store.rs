//! The embedded ordered key-value store and the byte checks the cache needs,
//! each reached through one small trusted item.
use vstd::prelude::*;
use vstd::utf8::{decode_utf8, valid_utf8};

use crate::order::is_greatest_key;

verus! {

/// sled's database handle; opaque here, its contents are `db_entries`.
#[verifier::external_type_specification]
#[verifier::external_body]
pub struct ExDb(sled::Db);

/// sled's error type, carried through unread.
#[verifier::external_type_specification]
#[verifier::external_body]
pub struct ExSledError(sled::Error);

/// The entries of a store handle, key bytes to value bytes.
pub uninterp spec fn db_entries(db: sled::Db) -> Map<Seq<u8>, Seq<u8>>;

/// The directory path a store handle was opened at.
pub uninterp spec fn store_root(db: sled::Db) -> Seq<char>;

/// Whether a byte string parses as a JSON document.
pub uninterp spec fn json_valid(bytes: Seq<u8>) -> bool;

/// Relies on `sled::open`: opens or creates the store rooted at `path`.
/// What the store then holds is whatever lies on disk, finitely many entries.
#[verifier::external_body]
pub(crate) fn open_db(path: &str) -> (r: Result<sled::Db, sled::Error>)
    ensures
        r matches Ok(db) ==> store_root(db) == path@,
        r matches Ok(db) ==> db_entries(db).dom().finite(),
{
    sled::open(path)
}

/// Relies on `sled::Tree::insert` (through `Db`'s deref): on success the key
/// maps to the value and every other entry is kept. The write links one
/// change of this key only, and an error may come after it was linked
/// (`pagecache::link` completes the log reservation after the swap), so after
/// an error the entries are either unchanged or changed as on success. A
/// tree holds finitely many entries; the handle stays rooted where it was.
#[verifier::external_body]
pub(crate) fn db_insert(db: &mut sled::Db, key: &[u8], value: &[u8]) -> (r: Result<(), sled::Error>)
    ensures
        r is Ok ==> db_entries(*final(db)) == db_entries(*old(db)).insert(key@, value@),
        r is Err ==> db_entries(*final(db)) == db_entries(*old(db)) || db_entries(*final(db))
            == db_entries(*old(db)).insert(key@, value@),
        db_entries(*old(db)).dom().finite() && db_entries(*final(db)).dom().finite(),
        store_root(*final(db)) == store_root(*old(db)),
{
    db.insert(key, value).map(|_| ())
}

/// Relies on `sled::Tree::remove` (through `Db`'s deref): on success the key
/// has no entry and every other entry is kept, whether or not it had one.
/// As with `insert`, after an error the entries are either unchanged or
/// changed as on success; the tree holds finitely many entries and the handle
/// stays rooted where it was.
#[verifier::external_body]
pub(crate) fn db_remove(db: &mut sled::Db, key: &[u8]) -> (r: Result<(), sled::Error>)
    ensures
        r is Ok ==> db_entries(*final(db)) == db_entries(*old(db)).remove(key@),
        r is Err ==> db_entries(*final(db)) == db_entries(*old(db)) || db_entries(*final(db))
            == db_entries(*old(db)).remove(key@),
        db_entries(*old(db)).dom().finite() && db_entries(*final(db)).dom().finite(),
        store_root(*final(db)) == store_root(*old(db)),
{
    db.remove(key).map(|_| ())
}

/// Relies on `sled::Tree::last` (through `Db`'s deref): the entry whose key
/// is greatest in byte order (`IVec` orders as its bytes), or none when the
/// store is empty.
#[verifier::external_body]
pub(crate) fn db_last(db: &sled::Db) -> (r: Result<Option<(Vec<u8>, Vec<u8>)>, sled::Error>)
    ensures
        r matches Ok(None) ==> db_entries(*db).is_empty(),
        r matches Ok(Some(kv)) ==> is_greatest_key(db_entries(*db), kv.0@) && db_entries(
            *db,
        )[kv.0@] == kv.1@,
{
    db.last().map(|o| o.map(|(k, v)| (k.to_vec(), v.to_vec())))
}

/// Relies on `serde_json::from_slice` into `serde_json::Value`: whether the
/// bytes are one well-formed JSON document.
#[verifier::external_body]
pub(crate) fn parses_as_json(bytes: &[u8]) -> (r: bool)
    ensures
        r == json_valid(bytes@),
{
    serde_json::from_slice::<serde_json::Value>(bytes).is_ok()
}

/// Relies on `String::from_utf8`: succeeds exactly on valid UTF-8 and then
/// holds the decoded characters.
#[verifier::external_body]
pub(crate) fn string_from_utf8(bytes: Vec<u8>) -> (r: Option<String>)
    ensures
        r is Some <==> valid_utf8(bytes@),
        r matches Some(s) ==> s@ == decode_utf8(bytes@),
{
    String::from_utf8(bytes).ok()
}

} // verus!
