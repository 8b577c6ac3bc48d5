use task_cache::cache::{TaskCache, TaskCacheError, TaskRecord};
use task_cache::evictor::{ClearCacheCoordinatorListener, Eviction, SubmitProofRequest};

fn fresh_path(name: &str) -> String {
    let nanos = std::time::SystemTime::now()
        .duration_since(std::time::UNIX_EPOCH)
        .unwrap()
        .as_nanos();
    format!("/tmp/task_cache_tests/{}_{}", name, nanos)
}

fn record(id: &str, payload: &str) -> TaskRecord {
    TaskRecord {
        id: id.to_string(),
        encoded: format!("{{\"id\":\"{}\",\"payload\":\"{}\"}}", id, payload).into_bytes(),
    }
}

fn assert_same(got: &TaskRecord, want: &TaskRecord) {
    assert_eq!(got.id, want.id);
    assert_eq!(got.encoded, want.encoded);
}

#[test]
fn empty_store_has_no_last_task() {
    let cache = TaskCache::new(&fresh_path("empty")).unwrap();
    assert!(matches!(cache.get_last_task(), Ok(None)));
}

#[test]
fn put_then_get_last_returns_the_record() {
    let mut cache = TaskCache::new(&fresh_path("round_trip")).unwrap();
    let r = record("0007", "seven");
    cache.put_task(&r).unwrap();
    let got = cache.get_last_task().unwrap().unwrap();
    assert_same(&got, &r);
    assert_eq!(got.id, "0007");
}

#[test]
fn get_last_follows_key_order_not_insertion_order() {
    let mut cache = TaskCache::new(&fresh_path("order")).unwrap();
    cache.put_task(&record("0009", "nine")).unwrap();
    cache.put_task(&record("0003", "three")).unwrap();
    cache.put_task(&record("00010", "ten")).unwrap();
    let got = cache.get_last_task().unwrap().unwrap();
    assert_same(&got, &record("0009", "nine"));
}

#[test]
fn put_with_existing_id_replaces_payload() {
    let mut cache = TaskCache::new(&fresh_path("replace")).unwrap();
    cache.put_task(&record("0001", "old")).unwrap();
    cache.put_task(&record("0001", "new")).unwrap();
    let got = cache.get_last_task().unwrap().unwrap();
    assert_same(&got, &record("0001", "new"));
    cache.delete_task("0001".to_string()).unwrap();
    assert!(matches!(cache.get_last_task(), Ok(None)));
}

#[test]
fn putting_the_same_record_twice_is_observably_one_put() {
    let mut cache = TaskCache::new(&fresh_path("replay")).unwrap();
    let r = record("0004", "four");
    cache.put_task(&r).unwrap();
    cache.put_task(&r).unwrap();
    assert_same(&cache.get_last_task().unwrap().unwrap(), &r);
    cache.delete_task("0004".to_string()).unwrap();
    assert!(matches!(cache.get_last_task(), Ok(None)));
}

#[test]
fn delete_of_only_entry_leaves_store_empty() {
    let mut cache = TaskCache::new(&fresh_path("delete_only")).unwrap();
    cache.put_task(&record("0001", "A")).unwrap();
    cache.delete_task("0001".to_string()).unwrap();
    assert!(matches!(cache.get_last_task(), Ok(None)));
}

#[test]
fn delete_of_missing_id_succeeds_and_changes_nothing() {
    let mut cache = TaskCache::new(&fresh_path("delete_missing")).unwrap();
    assert!(cache.delete_task("0042".to_string()).is_ok());
    assert!(matches!(cache.get_last_task(), Ok(None)));
    cache.put_task(&record("0001", "A")).unwrap();
    assert!(cache.delete_task("0042".to_string()).is_ok());
    assert_same(&cache.get_last_task().unwrap().unwrap(), &record("0001", "A"));
}

#[test]
fn scenario_two_puts_then_get_last() {
    let mut cache = TaskCache::new(&fresh_path("scenario_puts")).unwrap();
    assert!(matches!(cache.get_last_task(), Ok(None)));
    cache.put_task(&record("0001", "A")).unwrap();
    cache.put_task(&record("0002", "B")).unwrap();
    assert_same(&cache.get_last_task().unwrap().unwrap(), &record("0002", "B"));
}

#[test]
fn scenario_delete_greatest_then_get_last() {
    let mut cache = TaskCache::new(&fresh_path("scenario_delete")).unwrap();
    cache.put_task(&record("0001", "A")).unwrap();
    cache.put_task(&record("0002", "B")).unwrap();
    assert_same(&cache.get_last_task().unwrap().unwrap(), &record("0002", "B"));
    cache.delete_task("0002".to_string()).unwrap();
    assert_same(&cache.get_last_task().unwrap().unwrap(), &record("0001", "A"));
}

#[test]
fn scenario_evictor_deletes_and_repeats_quietly() {
    let mut cache = TaskCache::new(&fresh_path("scenario_evictor")).unwrap();
    cache.put_task(&record("0001", "A")).unwrap();
    let listener = ClearCacheCoordinatorListener {};
    let req = SubmitProofRequest { task_id: "0001".to_string() };
    assert!(matches!(listener.on_proof_submitted(&mut cache, &req), Eviction::Deleted));
    assert!(matches!(cache.get_last_task(), Ok(None)));
    assert!(matches!(listener.on_proof_submitted(&mut cache, &req), Eviction::Deleted));
    assert!(matches!(cache.get_last_task(), Ok(None)));
}

#[test]
fn evictor_leaves_other_records() {
    let mut cache = TaskCache::new(&fresh_path("evictor_other")).unwrap();
    cache.put_task(&record("0001", "A")).unwrap();
    cache.put_task(&record("0002", "B")).unwrap();
    let listener = ClearCacheCoordinatorListener {};
    let req = SubmitProofRequest { task_id: "0002".to_string() };
    assert!(matches!(listener.on_proof_submitted(&mut cache, &req), Eviction::Deleted));
    assert_same(&cache.get_last_task().unwrap().unwrap(), &record("0001", "A"));
}

#[test]
fn put_of_bytes_that_are_not_json_is_refused() {
    let mut cache = TaskCache::new(&fresh_path("not_json")).unwrap();
    let bad = TaskRecord { id: "0001".to_string(), encoded: b"{not json".to_vec() };
    assert!(matches!(cache.put_task(&bad), Err(TaskCacheError::Serialization)));
    assert!(matches!(cache.get_last_task(), Ok(None)));
}

#[test]
fn last_entry_with_non_json_value_is_a_decoding_error() {
    let path = fresh_path("stored_not_json");
    {
        let db = sled::open(&path).unwrap();
        db.insert(b"0001", b"{broken".to_vec()).unwrap();
        db.flush().unwrap();
    }
    let cache = TaskCache::new(&path).unwrap();
    assert!(matches!(cache.get_last_task(), Err(TaskCacheError::Deserialization)));
}

#[test]
fn last_entry_with_non_utf8_key_is_a_decoding_error() {
    let path = fresh_path("stored_bad_key");
    {
        let db = sled::open(&path).unwrap();
        db.insert(vec![0xffu8, 0xfe], b"{}".to_vec()).unwrap();
        db.flush().unwrap();
    }
    let cache = TaskCache::new(&path).unwrap();
    assert!(matches!(cache.get_last_task(), Err(TaskCacheError::Deserialization)));
}

#[test]
fn records_survive_reopening_the_store() {
    let path = fresh_path("reopen");
    {
        let mut cache = TaskCache::new(&path).unwrap();
        cache.put_task(&record("0005", "five")).unwrap();
    }
    let cache = TaskCache::new(&path).unwrap();
    assert_same(&cache.get_last_task().unwrap().unwrap(), &record("0005", "five"));
}

#[test]
fn open_fails_where_no_directory_can_be_made() {
    let r = TaskCache::new(&"/proc/task_cache_store".to_string());
    assert!(matches!(r, Err(TaskCacheError::StorageUnavailable(_))));
}
