use helix_storage::state::{FileRecord, Pubkey, ShareLink};

fn pk(n: u64) -> Pubkey {
    Pubkey(n, 0, 0, 0)
}

fn plain_link() -> ShareLink {
    ShareLink {
        file: "A".repeat(43),
        owner: pk(2),
        recipient: None,
        encrypted_key: None,
        expires_at: None,
        max_downloads: None,
        download_count: 0,
        is_revoked: false,
        created_at: 1_000,
    }
}

fn plain_file() -> FileRecord {
    FileRecord {
        owner: pk(2),
        transaction_id: "A".repeat(43),
        encrypted_name: None,
        mime_type: String::from("image/png"),
        size: 100,
        is_encrypted: false,
        is_deleted: false,
        created_at: 1_000,
        updated_at: 1_000,
        share_count: 0,
    }
}

#[test]
fn an_unbounded_link_is_valid_at_any_time() {
    let link = plain_link();
    assert!(link.is_valid(i64::MIN));
    assert!(link.is_valid(0));
    assert!(link.is_valid(i64::MAX));
}

#[test]
fn a_revoked_link_is_never_valid() {
    let mut link = plain_link();
    link.is_revoked = true;
    assert!(!link.is_valid(0));
}

#[test]
fn validity_ends_strictly_after_the_expiration_instant() {
    let mut link = plain_link();
    link.expires_at = Some(5_000);
    assert!(link.is_valid(4_999));
    assert!(link.is_valid(5_000));
    assert!(!link.is_valid(5_001));
}

#[test]
fn validity_never_returns_as_time_advances() {
    let mut link = plain_link();
    link.expires_at = Some(5_000);
    let mut was_valid = true;
    for now in [4_000i64, 4_999, 5_000, 5_001, 6_000, i64::MAX] {
        let v = link.is_valid(now);
        assert!(!v || was_valid, "validity returned at {}", now);
        was_valid = v;
    }
}

#[test]
fn validity_ends_when_the_cap_is_reached() {
    let mut link = plain_link();
    link.max_downloads = Some(2);
    link.download_count = 1;
    assert!(link.is_valid(0));
    link.download_count = 2;
    assert!(!link.is_valid(0));
    link.download_count = 3;
    assert!(!link.is_valid(0));
}

#[test]
fn a_public_link_admits_anyone_while_valid() {
    let link = plain_link();
    assert!(link.can_access(&pk(5), 0));
    assert!(link.can_access(&pk(6), 0));
}

#[test]
fn a_restricted_link_admits_only_its_recipient() {
    let mut link = plain_link();
    link.recipient = Some(pk(5));
    assert!(link.can_access(&pk(5), 0));
    assert!(!link.can_access(&pk(6), 0));
    link.is_revoked = true;
    assert!(!link.can_access(&pk(5), 0));
}

#[test]
fn recording_a_download_advances_the_counter_and_reports_the_cap() {
    let mut link = plain_link();
    link.max_downloads = Some(2);
    assert!(link.record_download());
    assert_eq!(link.download_count, 1);
    assert!(link.record_download());
    assert_eq!(link.download_count, 2);
    assert!(!link.record_download());
    assert_eq!(link.download_count, 3);
}

#[test]
fn recording_a_download_saturates_at_the_top_of_the_range() {
    let mut link = plain_link();
    link.download_count = u32::MAX;
    assert!(link.record_download());
    assert_eq!(link.download_count, u32::MAX);
}

#[test]
fn a_file_is_accessible_until_its_tombstone_is_set() {
    let mut file = plain_file();
    assert!(file.is_accessible());
    file.is_deleted = true;
    assert!(!file.is_accessible());
}

#[test]
fn the_retrieval_url_is_the_gateway_prefix_plus_the_identifier() {
    let file = plain_file();
    assert_eq!(
        file.arweave_url(),
        format!("https://arweave.net/{}", "A".repeat(43))
    );
}
