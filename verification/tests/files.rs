use helix_storage::error::HelixError;
use helix_storage::state::Pubkey;
use helix_storage::{delete_file, initialize, register_file, update_file, RecordStore};

fn pk(n: u64) -> Pubkey {
    Pubkey(n, 0, 0, 0)
}

fn valid_id() -> String {
    "A".repeat(43)
}

fn store_with_one_file() -> (RecordStore, Pubkey, String) {
    let mut store = initialize(pk(1), 0);
    let owner = pk(2);
    register_file(
        &mut store,
        owner,
        valid_id(),
        Some(String::from("secret-name")),
        String::from("image/png"),
        100,
        true,
        1_000,
    )
    .unwrap();
    (store, owner, valid_id())
}

#[test]
fn registration_appends_a_fresh_record_and_counts_it() {
    let mut store = initialize(pk(1), 0);
    let ev = register_file(
        &mut store,
        pk(2),
        valid_id(),
        Some(String::from("secret-name")),
        String::from("image/png"),
        100,
        true,
        1_000,
    )
    .unwrap();
    assert_eq!(store.registry.total_files, 1);
    assert_eq!(store.files.len(), 1);
    let f = &store.files[0];
    assert_eq!(f.owner, pk(2));
    assert_eq!(f.transaction_id, valid_id());
    assert_eq!(f.encrypted_name, Some(String::from("secret-name")));
    assert_eq!(f.mime_type, "image/png");
    assert_eq!(f.size, 100);
    assert!(f.is_encrypted);
    assert!(!f.is_deleted);
    assert_eq!(f.created_at, 1_000);
    assert_eq!(f.updated_at, 1_000);
    assert_eq!(f.share_count, 0);
    assert_eq!(ev.owner, pk(2));
    assert_eq!(ev.transaction_id, valid_id());
    assert_eq!(ev.size, 100);
    assert!(ev.is_encrypted);
    assert_eq!(ev.timestamp, 1_000);
}

#[test]
fn duplicate_registration_is_a_state_conflict_and_counts_once() {
    let (mut store, _, _) = store_with_one_file();
    let r = register_file(
        &mut store,
        pk(7),
        valid_id(),
        None,
        String::from("text/plain"),
        5,
        false,
        2_000,
    );
    assert_eq!(r.unwrap_err(), HelixError::DuplicateTransactionId);
    // The counter grew by exactly one, on the first attempt only.
    assert_eq!(store.registry.total_files, 1);
    assert_eq!(store.files.len(), 1);
}

#[test]
fn registration_rejects_an_overlong_identifier() {
    let mut store = initialize(pk(1), 0);
    let r = register_file(
        &mut store,
        pk(2),
        "A".repeat(44),
        None,
        String::from("image/png"),
        100,
        false,
        1_000,
    );
    assert_eq!(r.unwrap_err(), HelixError::TransactionIdTooLong);
}

#[test]
fn registration_rejects_a_malformed_identifier() {
    let mut store = initialize(pk(1), 0);
    let r = register_file(
        &mut store,
        pk(2),
        "A".repeat(42),
        None,
        String::from("image/png"),
        100,
        false,
        1_000,
    );
    assert_eq!(r.unwrap_err(), HelixError::InvalidTransactionId);
}

#[test]
fn registration_rejects_an_overlong_name() {
    let mut store = initialize(pk(1), 0);
    let r = register_file(
        &mut store,
        pk(2),
        valid_id(),
        Some("n".repeat(257)),
        String::from("image/png"),
        100,
        false,
        1_000,
    );
    assert_eq!(r.unwrap_err(), HelixError::EncryptedNameTooLong);
}

#[test]
fn registration_rejects_an_overlong_mime_type() {
    let mut store = initialize(pk(1), 0);
    let mime = format!("a/{}", "b".repeat(127));
    assert_eq!(mime.len(), 129);
    let r = register_file(&mut store, pk(2), valid_id(), None, mime, 100, false, 1_000);
    assert_eq!(r.unwrap_err(), HelixError::MimeTypeTooLong);
}

#[test]
fn registration_rejects_a_malformed_mime_type() {
    let mut store = initialize(pk(1), 0);
    let r = register_file(
        &mut store,
        pk(2),
        valid_id(),
        None,
        String::from("imagepng"),
        100,
        false,
        1_000,
    );
    assert_eq!(r.unwrap_err(), HelixError::InvalidMimeType);
}

#[test]
fn registration_rejects_a_zero_size() {
    let mut store = initialize(pk(1), 0);
    let r = register_file(
        &mut store,
        pk(2),
        valid_id(),
        None,
        String::from("image/png"),
        0,
        false,
        1_000,
    );
    assert_eq!(r.unwrap_err(), HelixError::InvalidFileSize);
    assert!(store.files.is_empty());
}

#[test]
fn update_overwrites_and_clears_the_name() {
    let (mut store, owner, id) = store_with_one_file();
    assert!(update_file(&mut store, owner, &id, Some(String::from("renamed")), 2_000).is_ok());
    assert_eq!(store.files[0].encrypted_name, Some(String::from("renamed")));
    assert_eq!(store.files[0].updated_at, 2_000);
    assert_eq!(store.files[0].created_at, 1_000);
    assert!(update_file(&mut store, owner, &id, None, 3_000).is_ok());
    assert_eq!(store.files[0].encrypted_name, None);
    assert_eq!(store.files[0].updated_at, 3_000);
}

#[test]
fn update_by_a_stranger_is_refused() {
    let (mut store, _, id) = store_with_one_file();
    assert_eq!(
        update_file(&mut store, pk(9), &id, None, 2_000),
        Err(HelixError::UnauthorizedOwner)
    );
    assert_eq!(
        store.files[0].encrypted_name,
        Some(String::from("secret-name"))
    );
}

#[test]
fn update_of_an_unknown_identifier_is_refused() {
    let (mut store, owner, _) = store_with_one_file();
    let other = "B".repeat(43);
    assert_eq!(
        update_file(&mut store, owner, &other, None, 2_000),
        Err(HelixError::FileNotFound)
    );
}

#[test]
fn update_rejects_an_overlong_name() {
    let (mut store, owner, id) = store_with_one_file();
    assert_eq!(
        update_file(&mut store, owner, &id, Some("n".repeat(257)), 2_000),
        Err(HelixError::EncryptedNameTooLong)
    );
    assert_eq!(store.files[0].updated_at, 1_000);
}

#[test]
fn deletion_sets_the_tombstone_and_shrinks_the_counter() {
    let (mut store, owner, id) = store_with_one_file();
    let ev = delete_file(&mut store, owner, &id, 2_000).unwrap();
    assert!(store.files[0].is_deleted);
    assert_eq!(store.files[0].updated_at, 2_000);
    assert_eq!(store.registry.total_files, 0);
    assert_eq!(store.files.len(), 1);
    assert_eq!(ev.file, id);
    assert_eq!(ev.owner, owner);
    assert_eq!(ev.timestamp, 2_000);
}

#[test]
fn deletion_is_one_way() {
    let (mut store, owner, id) = store_with_one_file();
    delete_file(&mut store, owner, &id, 2_000).unwrap();
    assert_eq!(
        delete_file(&mut store, owner, &id, 3_000).unwrap_err(),
        HelixError::FileAlreadyDeleted
    );
    assert_eq!(store.registry.total_files, 0);
}

#[test]
fn deletion_by_a_stranger_is_refused() {
    let (mut store, _, id) = store_with_one_file();
    assert_eq!(
        delete_file(&mut store, pk(9), &id, 2_000).unwrap_err(),
        HelixError::UnauthorizedOwner
    );
    assert!(!store.files[0].is_deleted);
    assert_eq!(store.registry.total_files, 1);
}

#[test]
fn a_deleted_record_is_frozen_against_updates() {
    let (mut store, owner, id) = store_with_one_file();
    delete_file(&mut store, owner, &id, 2_000).unwrap();
    assert_eq!(
        update_file(&mut store, owner, &id, Some(String::from("x")), 3_000),
        Err(HelixError::FileAlreadyDeleted)
    );
    assert_eq!(
        store.files[0].encrypted_name,
        Some(String::from("secret-name"))
    );
    assert_eq!(store.files[0].updated_at, 2_000);
}

#[test]
fn two_files_under_distinct_identifiers_coexist() {
    let (mut store, owner, _) = store_with_one_file();
    let second = "B".repeat(43);
    register_file(
        &mut store,
        owner,
        second.clone(),
        None,
        String::from("text/plain"),
        7,
        false,
        1_500,
    )
    .unwrap();
    assert_eq!(store.registry.total_files, 2);
    assert_eq!(store.files.len(), 2);
    assert_eq!(store.files[1].transaction_id, second);
}
