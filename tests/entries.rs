use entry_store::dynamo_service::{
    apply_updates, entries_page, exclusive_start_key, put_outcome, single_entry, AttrValue,
    EntryRepository,
};
use entry_store::error::ServiceError;
use entry_store::parameters::{GetEntriesQueryParams, UpdateEntryBodyParams};
use entry_store::structs::{LastEvaluatedKey, SPATableEntry};

fn entry(id: &str, user_id: &str, last_modified: u64, title: &str, description: &str) -> SPATableEntry {
    SPATableEntry::from_parts(id.to_string(), user_id, title, description, Some(last_modified))
}

#[test]
fn last_evaluated_key_new_copies_fields() {
    let k = LastEvaluatedKey::new("abc", "u1", &42);
    assert_eq!(k.id, "abc");
    assert_eq!(k.user_id, "u1");
    assert_eq!(k.last_modified, 42);
}

#[test]
fn new_entry_has_generated_id_and_current_time() {
    let a = SPATableEntry::new("u1", "Buy milk", "2%");
    let b = SPATableEntry::new("u1", "Buy milk", "2%");
    assert_eq!(a.id.len(), 36);
    assert_eq!(a.id.chars().filter(|c| *c == '-').count(), 4);
    assert_ne!(a.id, b.id);
    assert_eq!(a.user_id, "u1");
    assert_eq!(a.title, "Buy milk");
    assert_eq!(a.description, "2%");
    assert!(a.last_modified > 0);
}

#[test]
fn unreadable_clock_stamps_zero() {
    let e = SPATableEntry::from_parts("x".to_string(), "u", "t", "d", None);
    assert_eq!(e.last_modified, 0);
    let e = SPATableEntry::from_parts("x".to_string(), "u", "t", "d", Some(1_700_000_000));
    assert_eq!(e.last_modified, 1_700_000_000);
}

#[test]
fn create_then_get_round_trip() {
    let repo = EntryRepository::new("entries");
    let put = repo.register_entry("u", "t", "d");
    assert_eq!(put.table_name, "entries");
    let created = put_outcome(put, Ok(())).unwrap();
    let get = repo.get_entry_single(&created.id);
    assert_eq!(get.key_value, created.id);
    let found = single_entry(&created.id, 1, Some(vec![created.clone()])).unwrap();
    assert_eq!(found.id, created.id);
    assert_eq!(found.title, "t");
    assert_eq!(found.description, "d");
    assert!(found.last_modified > 0);
}

#[test]
fn failed_write_reports_storage_error() {
    let repo = EntryRepository::new("entries");
    let put = repo.register_entry("u", "t", "d");
    let err = ServiceError::Storage { detail: "unreachable".to_string() };
    assert_eq!(put_outcome(put, Err(err.clone())).unwrap_err(), err);
}

#[test]
fn partial_update_merges() {
    let current = entry("id1", "u", 100, "A", "B");
    let updates = UpdateEntryBodyParams { title: Some("C".to_string()), description: None };
    let r = apply_updates(current, updates, Some(150));
    assert_eq!(r.title, "C");
    assert_eq!(r.description, "B");
    assert_eq!(r.id, "id1");
    assert_eq!(r.user_id, "u");
    assert!(r.last_modified >= 100);
    assert_eq!(r.last_modified, 150);
}

#[test]
fn empty_patch_bumps_timestamp() {
    let current = entry("id1", "u", 100, "A", "B");
    let updates = UpdateEntryBodyParams { title: None, description: None };
    let r = apply_updates(current, updates, Some(101));
    assert_eq!(r.title, "A");
    assert_eq!(r.description, "B");
    assert_eq!(r.last_modified, 101);
}

#[test]
fn unreadable_clock_keeps_previous_timestamp() {
    let current = entry("id1", "u", 100, "A", "B");
    let updates = UpdateEntryBodyParams { title: None, description: Some("E".to_string()) };
    let r = apply_updates(current, updates, None);
    assert_eq!(r.last_modified, 100);
    assert_eq!(r.description, "E");
}

#[test]
fn create_then_update_description() {
    let repo = EntryRepository::new("entries");
    let created = put_outcome(repo.register_entry("u1", "Buy milk", "2%"), Ok(())).unwrap();
    assert_eq!(created.user_id, "u1");
    assert_eq!(created.title, "Buy milk");
    assert_eq!(created.description, "2%");
    let t0 = created.last_modified;
    let read = single_entry(&created.id, 1, Some(vec![created.clone()])).unwrap();
    let updates = UpdateEntryBodyParams { title: None, description: Some("whole".to_string()) };
    let put = repo.update_entry_with_clock(read, updates, Some(t0 + 5));
    let updated = put_outcome(put, Ok(())).unwrap();
    assert_eq!(updated.id, created.id);
    assert_eq!(updated.user_id, "u1");
    assert_eq!(updated.title, "Buy milk");
    assert_eq!(updated.description, "whole");
    assert!(updated.last_modified >= t0);
}

#[test]
fn lookup_of_missing_id_is_not_found() {
    let expected = ServiceError::NotFound { id: "gone".to_string() };
    assert_eq!(single_entry("gone", 0, Some(vec![])).unwrap_err(), expected);
    assert_eq!(single_entry("gone", 0, None).unwrap_err(), expected);
    assert_eq!(single_entry("gone", 1, Some(vec![])).unwrap_err(), expected);
    let e = entry("gone", "u", 1, "t", "d");
    assert_eq!(single_entry("gone", 0, Some(vec![e])).unwrap_err(), expected);
}

#[test]
fn lookup_takes_first_item() {
    let a = entry("a", "u", 1, "t1", "d1");
    let b = entry("b", "u", 2, "t2", "d2");
    let r = single_entry("a", 2, Some(vec![a, b])).unwrap();
    assert_eq!(r.id, "a");
    assert_eq!(r.title, "t1");
}

#[test]
fn delete_request_is_unconditional() {
    let repo = EntryRepository::new("entries");
    let d = repo.delete_entry("no-such-id");
    assert_eq!(d.table_name, "entries");
    assert_eq!(d.key_attribute, "id");
    assert_eq!(d.key_value, AttrValue::S("no-such-id".to_string()));
}

#[test]
fn missing_table_name_is_config_error() {
    assert_eq!(EntryRepository::from_config(None).err(), Some(ServiceError::Config));
    let repo = EntryRepository::from_config(Some("t".to_string())).unwrap();
    assert_eq!(repo.table_name, "t");
}

#[test]
fn get_request_queries_primary_key() {
    let repo = EntryRepository::new("entries");
    let q = repo.get_entry_single("abc");
    assert_eq!(q.table_name, "entries");
    assert_eq!(q.index_name, None);
    assert_eq!(q.scan_index_forward, None);
    assert_eq!(q.key_condition_expression, "#name = :value");
    assert_eq!(q.key_attribute, "id");
    assert_eq!(q.key_value, "abc");
    assert!(q.exclusive_start_key.is_none());
}

#[test]
fn list_request_scans_user_index_descending() {
    let repo = EntryRepository::new("entries");
    let q = repo.query_entries("u1", None);
    assert_eq!(q.index_name, Some("gsi-userid".to_string()));
    assert_eq!(q.scan_index_forward, Some(false));
    assert_eq!(q.key_condition_expression, "#name = :value");
    assert_eq!(q.key_attribute, "user_id");
    assert_eq!(q.key_value, "u1");
    assert!(q.exclusive_start_key.is_none());
}

#[test]
fn list_request_resumes_after_cursor() {
    let repo = EntryRepository::new("entries");
    let c = LastEvaluatedKey::new("abc", "u1", &1_700_000_123);
    let q = repo.query_entries("u1", Some(c));
    let key = q.exclusive_start_key.unwrap();
    assert_eq!(
        key,
        vec![
            ("id".to_string(), AttrValue::S("abc".to_string())),
            ("user_id".to_string(), AttrValue::S("u1".to_string())),
            ("last_modified".to_string(), AttrValue::N("1700000123".to_string())),
        ]
    );
}

#[test]
fn start_key_writes_timestamp_in_decimal() {
    let k = exclusive_start_key(LastEvaluatedKey::new("a", "u", &0));
    assert_eq!(k[2].1, AttrValue::N("0".to_string()));
    let k = exclusive_start_key(LastEvaluatedKey::new("a", "u", &u64::MAX));
    assert_eq!(k[2].1, AttrValue::N("18446744073709551615".to_string()));
}

#[test]
fn query_params_build_cursor_only_when_complete() {
    let p = GetEntriesQueryParams { user_id: "u".to_string(), id: Some("a".to_string()), last_modified: Some(7) };
    let c = p.cursor().unwrap();
    assert_eq!(c, LastEvaluatedKey::new("a", "u", &7));
    let p = GetEntriesQueryParams { user_id: "u".to_string(), id: Some("a".to_string()), last_modified: None };
    assert!(p.cursor().is_none());
    let p = GetEntriesQueryParams { user_id: "u".to_string(), id: None, last_modified: Some(7) };
    assert!(p.cursor().is_none());
}

#[test]
fn page_without_items_is_storage_error() {
    match entries_page(None, None) {
        Err(ServiceError::Storage { .. }) => {}
        _ => panic!("expected a storage error"),
    }
}

#[test]
fn unknown_user_gets_empty_page() {
    let (entries, next) = entries_page(Some(vec![]), None).unwrap();
    assert!(entries.is_empty());
    assert!(next.is_none());
}

/// A table-side page of the scan `scan` after the start key, at most `limit` items.
fn serve(scan: &[SPATableEntry], start: &Option<Vec<(String, AttrValue)>>, limit: usize) -> (Vec<SPATableEntry>, Option<LastEvaluatedKey>) {
    let from = match start {
        None => 0,
        Some(key) => {
            let id = match &key[0].1 {
                AttrValue::S(s) => s.clone(),
                AttrValue::N(s) => s.clone(),
            };
            scan.iter().position(|e| e.id == id).unwrap() + 1
        }
    };
    let end = std::cmp::min(from + limit, scan.len());
    let items: Vec<SPATableEntry> = scan[from..end].to_vec();
    let next = if end < scan.len() {
        let last = &scan[end - 1];
        Some(LastEvaluatedKey::new(&last.id, &last.user_id, &last.last_modified))
    } else {
        None
    };
    (items, next)
}

#[test]
fn paging_returns_every_entry_once_in_order() {
    let repo = EntryRepository::new("entries");
    let scan: Vec<SPATableEntry> = (0..7u64)
        .map(|i| entry(&format!("id{}", i), "u1", 1000 - i * 10, "t", "d"))
        .collect();
    let mut seen: Vec<String> = Vec::new();
    let mut cursor: Option<LastEvaluatedKey> = None;
    let mut calls = 0;
    loop {
        let q = repo.query_entries("u1", cursor.clone());
        let (items, last) = serve(&scan, &q.exclusive_start_key, 3);
        let (entries, next) = entries_page(Some(items), last).unwrap();
        seen.extend(entries.into_iter().map(|e| e.id));
        calls += 1;
        match next {
            Some(c) => cursor = Some(c),
            None => break,
        }
    }
    assert_eq!(calls, 3);
    let expected: Vec<String> = (0..7).map(|i| format!("id{}", i)).collect();
    assert_eq!(seen, expected);
}

#[test]
fn update_reads_the_clock() {
    let repo = EntryRepository::new("entries");
    let current = entry("id1", "u", 100, "A", "B");
    let updates = UpdateEntryBodyParams { title: Some("C".to_string()), description: None };
    let put = repo.update_entry_single(current, updates);
    assert_eq!(put.item.title, "C");
    assert_eq!(put.item.description, "B");
    assert!(put.item.last_modified > 100);
}
