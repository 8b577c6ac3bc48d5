//! The task store: upsert, most-recent-by-key and delete over task records.
use vstd::prelude::*;
use vstd::utf8::{decode_utf8_encode_utf8, encode_utf8, valid_utf8};

use crate::order::is_greatest_key;
use crate::store::{
    db_entries, db_insert, db_last, db_remove, json_valid, open_db, parses_as_json, store_root,
    string_from_utf8,
};

verus! {

/// One task as the store keeps it: its id and the encoded bytes of the whole
/// task (a JSON document).
pub struct TaskRecord {
    pub id: String,
    pub encoded: Vec<u8>,
}

impl View for TaskRecord {
    type V = (Seq<char>, Seq<u8>);

    open spec fn view(&self) -> (Seq<char>, Seq<u8>) {
        (self.id@, self.encoded@)
    }
}

/// Why a store operation failed.
#[derive(Debug)]
pub enum TaskCacheError {
    /// The store could not be opened or created at the given path.
    StorageUnavailable(sled::Error),
    /// The record's bytes are not a JSON document, so it was not stored.
    Serialization,
    /// The most recent entry's key is not UTF-8 or its value is not JSON.
    Deserialization,
    /// The store could not read its entries.
    StorageRead(sled::Error),
    /// The store rejected a write or a removal.
    StorageWrite(sled::Error),
}

/// The key under which a task id is stored: its UTF-8 bytes.
pub open spec fn key_of(id: Seq<char>) -> Seq<u8> {
    encode_utf8(id)
}

/// Whether an entry can be read back as a task record.
pub open spec fn entry_readable(key: Seq<u8>, value: Seq<u8>) -> bool {
    valid_utf8(key) && json_valid(value)
}

/// What `put_task` of a record `(id, encoded)` does to the entries `before`,
/// giving `res` and the entries `after`. A storage failure may come after the
/// write took effect, so the entries are then either unchanged or written.
pub open spec fn put_post(
    before: Map<Seq<u8>, Seq<u8>>,
    id: Seq<char>,
    encoded: Seq<u8>,
    res: Result<(), TaskCacheError>,
    after: Map<Seq<u8>, Seq<u8>>,
) -> bool {
    if !json_valid(encoded) {
        res matches Err(TaskCacheError::Serialization) && after == before
    } else {
        match res {
            Ok(()) => after == before.insert(key_of(id), encoded),
            Err(e) => e is StorageWrite && (after == before || after == before.insert(
                key_of(id),
                encoded,
            )),
        }
    }
}

/// What `get_last_task` returns on the entries `m`. A read failure of the
/// store may come on any entries.
pub open spec fn last_post(m: Map<Seq<u8>, Seq<u8>>, res: Result<Option<TaskRecord>, TaskCacheError>) -> bool {
    match res {
        Ok(None) => m.is_empty(),
        Ok(Some(t)) => is_greatest_key(m, key_of(t.id@)) && m[key_of(t.id@)] == t.encoded@
            && json_valid(t.encoded@),
        Err(TaskCacheError::Deserialization) => exists|k: Seq<u8>|
            is_greatest_key(m, k) && !entry_readable(k, #[trigger] m[k]),
        Err(TaskCacheError::StorageRead(_)) => true,
        Err(_) => false,
    }
}

/// What `delete_task` of `id` does to the entries `before`, giving `res` and
/// the entries `after`. A storage failure may come after the removal took
/// effect, so the entries are then either unchanged or without the key.
pub open spec fn delete_post(
    before: Map<Seq<u8>, Seq<u8>>,
    id: Seq<char>,
    res: Result<(), TaskCacheError>,
    after: Map<Seq<u8>, Seq<u8>>,
) -> bool {
    match res {
        Ok(()) => after == before.remove(key_of(id)),
        Err(e) => e is StorageWrite && (after == before || after == before.remove(key_of(id))),
    }
}

/// A handle on the durable store of task records, owned for its lifetime.
pub struct TaskCache {
    db: sled::Db,
}

impl View for TaskCache {
    type V = Map<Seq<u8>, Seq<u8>>;

    /// The stored entries, key bytes to value bytes.
    closed spec fn view(&self) -> Map<Seq<u8>, Seq<u8>> {
        db_entries(self.db)
    }
}

impl TaskCache {
    /// The directory the store is rooted at.
    pub closed spec fn root(&self) -> Seq<char> {
        store_root(self.db)
    }

    /// Opens, or creates, the store rooted at the directory `db_path`.
    pub fn new(db_path: &String) -> (r: Result<Self, TaskCacheError>)
        ensures
            r matches Ok(c) ==> c.root() == db_path@ && c@.dom().finite(),
            r is Err ==> r->Err_0 is StorageUnavailable,
    {
        match open_db(db_path.as_str()) {
            Ok(db) => Ok(TaskCache { db }),
            Err(e) => Err(TaskCacheError::StorageUnavailable(e)),
        }
    }

    /// Stores `task_wrapper` under the bytes of its id, replacing any entry
    /// held there. The id must not be empty.
    pub fn put_task(&mut self, task_wrapper: &TaskRecord) -> (r: Result<(), TaskCacheError>)
        requires
            task_wrapper.id@.len() > 0,
        ensures
            put_post(old(self)@, task_wrapper.id@, task_wrapper.encoded@, r, final(self)@),
            r is Ok ==> final(self)@.dom().finite() && final(self)@.len() == old(self)@.len() + (
            if old(self)@.contains_key(key_of(task_wrapper.id@)) {
                0int
            } else {
                1int
            }),
            final(self).root() == old(self).root(),
    {
        if !parses_as_json(task_wrapper.encoded.as_slice()) {
            return Err(TaskCacheError::Serialization);
        }
        match db_insert(&mut self.db, task_wrapper.id.as_str().as_bytes(), task_wrapper.encoded.as_slice()) {
            Ok(()) => Ok(()),
            Err(e) => Err(TaskCacheError::StorageWrite(e)),
        }
    }

    /// The record whose key is greatest in byte order, or none when the store
    /// is empty.
    pub fn get_last_task(&self) -> (r: Result<Option<TaskRecord>, TaskCacheError>)
        ensures
            last_post(self@, r),
    {
        match db_last(&self.db) {
            Err(e) => Err(TaskCacheError::StorageRead(e)),
            Ok(None) => Ok(None),
            Ok(Some((k, v))) => {
                let ghost key = k@;
                if !parses_as_json(v.as_slice()) {
                    return Err(TaskCacheError::Deserialization);
                }
                match string_from_utf8(k) {
                    None => Err(TaskCacheError::Deserialization),
                    Some(id) => {
                        proof {
                            decode_utf8_encode_utf8(key);
                        }
                        Ok(Some(TaskRecord { id, encoded: v }))
                    },
                }
            },
        }
    }

    /// Removes the entry of `task_id`; succeeds too when there is none.
    pub fn delete_task(&mut self, task_id: String) -> (r: Result<(), TaskCacheError>)
        ensures
            delete_post(old(self)@, task_id@, r, final(self)@),
            final(self)@.dom().finite(),
            final(self).root() == old(self).root(),
    {
        match db_remove(&mut self.db, task_id.as_str().as_bytes()) {
            Ok(()) => Ok(()),
            Err(e) => Err(TaskCacheError::StorageWrite(e)),
        }
    }
}

} // verus!
