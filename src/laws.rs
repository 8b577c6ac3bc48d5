//! Properties of the task store that relate its operations to one another,
//! stated over the entries that the operations' own contracts speak of.
use vstd::prelude::*;
use vstd::utf8::{encode_utf8_decode_utf8, encode_utf8_valid_utf8};

use crate::cache::{delete_post, key_of, last_post, put_post, TaskCacheError, TaskRecord};
use crate::order::{is_greatest_key, lemma_greatest_key_unique};

verus! {

/// A read of the most recent record that the store itself did not fail.
pub open spec fn not_read_failure(res: Result<Option<TaskRecord>, TaskCacheError>) -> bool {
    !(res matches Err(TaskCacheError::StorageRead(_)))
}

/// On entries whose greatest key is that of `id`, holding `encoded`, which
/// is JSON, the most recent record is `(id, encoded)`.
proof fn lemma_last_is(
    m: Map<Seq<u8>, Seq<u8>>,
    id: Seq<char>,
    encoded: Seq<u8>,
    res: Result<Option<TaskRecord>, TaskCacheError>,
)
    requires
        is_greatest_key(m, key_of(id)),
        m[key_of(id)] == encoded,
        crate::store::json_valid(encoded),
        last_post(m, res),
        not_read_failure(res),
    ensures
        res matches Ok(Some(t)) && t@ == (id, encoded),
{
    broadcast use encode_utf8_valid_utf8;

    match res {
        Ok(Some(t)) => {
            lemma_greatest_key_unique(m, key_of(t.id@), key_of(id));
            encode_utf8_decode_utf8(t.id@);
            encode_utf8_decode_utf8(id);
        },
        Err(TaskCacheError::Deserialization) => {
            let k = choose|k: Seq<u8>|
                is_greatest_key(m, k) && !crate::cache::entry_readable(k, #[trigger] m[k]);
            lemma_greatest_key_unique(m, k, key_of(id));
        },
        _ => {},
    }
}

/// Round trip: once a record is stored, and its id is the greatest stored
/// id, reading the most recent record gives back that same record.
pub proof fn lemma_put_then_get_last(
    before: Map<Seq<u8>, Seq<u8>>,
    record: TaskRecord,
    after: Map<Seq<u8>, Seq<u8>>,
    res: Result<Option<TaskRecord>, TaskCacheError>,
)
    requires
        put_post(before, record.id@, record.encoded@, Ok(()), after),
        is_greatest_key(after, key_of(record.id@)),
        last_post(after, res),
        not_read_failure(res),
    ensures
        res matches Ok(Some(t)) && t@ == record@,
{
    lemma_last_is(after, record.id@, record.encoded@, res);
}

/// Storing a second record under an id already stored replaces the first
/// one's bytes and adds no key; when that id is the greatest, the most recent
/// record carries the new bytes.
pub proof fn lemma_put_replaces(
    before: Map<Seq<u8>, Seq<u8>>,
    id: Seq<char>,
    first: Seq<u8>,
    second: Seq<u8>,
    middle: Map<Seq<u8>, Seq<u8>>,
    after: Map<Seq<u8>, Seq<u8>>,
    res: Result<Option<TaskRecord>, TaskCacheError>,
)
    requires
        put_post(before, id, first, Ok(()), middle),
        put_post(middle, id, second, Ok(()), after),
    ensures
        after.dom() == middle.dom(),
        after == before.insert(key_of(id), second),
        is_greatest_key(after, key_of(id)) && last_post(after, res) && not_read_failure(res)
            ==> (res matches Ok(Some(t)) && t@ == (id, second)),
{
    assert(after =~= before.insert(key_of(id), second));
    assert(after.dom() =~= middle.dom());
    if is_greatest_key(after, key_of(id)) && last_post(after, res) && not_read_failure(res) {
        lemma_last_is(after, id, second, res);
    }
}

/// Deleting a stored id removes it; when it was the only entry, there is no
/// most recent record afterwards.
pub proof fn lemma_delete_only_entry(
    before: Map<Seq<u8>, Seq<u8>>,
    id: Seq<char>,
    after: Map<Seq<u8>, Seq<u8>>,
    res: Result<Option<TaskRecord>, TaskCacheError>,
)
    requires
        before.contains_key(key_of(id)),
        delete_post(before, id, Ok(()), after),
    ensures
        !after.contains_key(key_of(id)),
        before.dom() == set![key_of(id)] && last_post(after, res) && not_read_failure(res)
            ==> (res matches Ok(None)),
{
    if before.dom() == set![key_of(id)] && last_post(after, res) && not_read_failure(res) {
        assert(after.dom() =~= Set::<Seq<u8>>::empty());
        match res {
            Ok(Some(t)) => {
                assert(after.contains_key(key_of(t.id@)));
            },
            Err(TaskCacheError::Deserialization) => {
                let k = choose|k: Seq<u8>|
                    is_greatest_key(after, k) && !crate::cache::entry_readable(k, #[trigger] after[k]);
                assert(after.dom().contains(k));
            },
            _ => {},
        }
    }
}

/// Deleting an id that is not stored, when it succeeds, leaves the entries
/// as they were.
pub proof fn lemma_delete_absent(
    before: Map<Seq<u8>, Seq<u8>>,
    id: Seq<char>,
    after: Map<Seq<u8>, Seq<u8>>,
)
    requires
        !before.contains_key(key_of(id)),
        delete_post(before, id, Ok(()), after),
    ensures
        after == before,
{
    assert(after =~= before);
}

/// The most recent record of an empty store is none, not an error.
pub proof fn lemma_last_of_empty(
    m: Map<Seq<u8>, Seq<u8>>,
    res: Result<Option<TaskRecord>, TaskCacheError>,
)
    requires
        m.is_empty(),
        last_post(m, res),
        not_read_failure(res),
    ensures
        res matches Ok(None),
{
    match res {
        Ok(Some(t)) => {
            assert(m.dom().contains(key_of(t.id@)));
        },
        Err(TaskCacheError::Deserialization) => {
            let k = choose|k: Seq<u8>|
                is_greatest_key(m, k) && !crate::cache::entry_readable(k, #[trigger] m[k]);
            assert(m.dom().contains(k));
        },
        _ => {},
    }
}

} // verus!
