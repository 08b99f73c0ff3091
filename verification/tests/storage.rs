use metallian_photos::storage::in_memory::InMemoryStorageBackend;
use metallian_photos::storage::{read_failure, StorageError};

fn fresh_id() -> u128 {
    uuid::Uuid::new_v4().as_u128()
}

#[test]
fn in_memory_save_then_find_round_trips() {
    let mut storage = InMemoryStorageBackend::new();
    let id = fresh_id();
    let bytes = vec![1u8, 2, 3, 4];

    storage.save(id, bytes.clone()).unwrap();
    let found = storage.find(id).unwrap();

    assert_eq!(found, bytes);
}

#[test]
fn in_memory_find_on_missing_id_returns_not_found() {
    let storage = InMemoryStorageBackend::new();
    let missing_id = fresh_id();

    let result = storage.find(missing_id);

    assert!(matches!(result, Err(StorageError::NotFound(_))));
}

#[test]
fn in_memory_delete_removes_stored_bytes() {
    let mut storage = InMemoryStorageBackend::new();
    let id = fresh_id();
    storage.save(id, vec![1u8]).unwrap();

    storage.delete(id).unwrap();
    let result = storage.find(id);

    assert!(matches!(result, Err(StorageError::NotFound(_))));
}

#[test]
fn in_memory_delete_on_missing_id_is_idempotent() {
    let mut storage = InMemoryStorageBackend::new();
    let missing_id = fresh_id();

    let result = storage.delete(missing_id);

    assert!(result.is_ok());
}

#[test]
fn in_memory_save_replaces_and_leaves_other_ids() {
    let mut storage = InMemoryStorageBackend::default();
    storage.save(1, vec![1u8]).unwrap();
    storage.save(2, vec![2u8]).unwrap();
    storage.save(1, vec![9u8, 9]).unwrap();
    assert_eq!(storage.find(1).unwrap(), vec![9u8, 9]);
    assert_eq!(storage.find(2).unwrap(), vec![2u8]);
    storage.delete(1).unwrap();
    assert_eq!(storage.find(2).unwrap(), vec![2u8]);
}

#[test]
fn in_memory_not_found_message() {
    let storage = InMemoryStorageBackend::new();
    match storage.find(3) {
        Err(StorageError::NotFound(m)) => assert_eq!(m, "No value with that key."),
        _ => panic!("expected NotFound"),
    }
}

#[test]
fn storage_error_status_codes_and_messages() {
    let not_found = StorageError::NotFound("abc".to_string());
    let failed = StorageError::Operation("disk on fire".to_string());
    assert_eq!(not_found.status_code(), 404);
    assert_eq!(failed.status_code(), 500);
    assert_eq!(not_found.message(), "File not found: abc");
    assert_eq!(failed.message(), "disk on fire");
}

#[test]
fn read_failure_tells_missing_from_failed() {
    assert!(matches!(
        read_failure(true, "id".to_string(), "x".to_string()),
        StorageError::NotFound(m) if m == "id"
    ));
    assert!(matches!(
        read_failure(false, "id".to_string(), "timeout".to_string()),
        StorageError::Operation(m) if m == "timeout"
    ));
}
