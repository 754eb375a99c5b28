use helix_storage::error::{
    validate_mime_type, validate_optional_string_length, validate_string_length,
    validate_transaction_id, HelixError,
};

fn id_of_len(n: usize) -> String {
    "A".repeat(n)
}

#[test]
fn transaction_id_of_exact_length_and_alphabet_passes() {
    let id = "abcXYZ0123456789-_abcXYZ0123456789-_abcXYZ0";
    assert_eq!(id.len(), 43);
    assert!(validate_transaction_id(id).is_ok());
}

#[test]
fn transaction_id_all_same_letter_passes() {
    assert!(validate_transaction_id(&id_of_len(43)).is_ok());
}

#[test]
fn transaction_id_too_short_fails() {
    assert_eq!(
        validate_transaction_id(&id_of_len(42)),
        Err(HelixError::InvalidTransactionId)
    );
}

#[test]
fn transaction_id_too_long_fails() {
    assert_eq!(
        validate_transaction_id(&id_of_len(44)),
        Err(HelixError::InvalidTransactionId)
    );
}

#[test]
fn transaction_id_empty_fails() {
    assert_eq!(
        validate_transaction_id(""),
        Err(HelixError::InvalidTransactionId)
    );
}

#[test]
fn transaction_id_with_forbidden_character_fails() {
    let id = format!("{}!", id_of_len(42));
    assert_eq!(id.len(), 43);
    assert_eq!(
        validate_transaction_id(&id),
        Err(HelixError::InvalidTransactionId)
    );
}

#[test]
fn transaction_id_with_space_fails() {
    let id = format!("{} {}", id_of_len(21), id_of_len(21));
    assert_eq!(id.len(), 43);
    assert_eq!(
        validate_transaction_id(&id),
        Err(HelixError::InvalidTransactionId)
    );
}

#[test]
fn transaction_id_with_slash_fails() {
    let id = format!("{}/", id_of_len(42));
    assert_eq!(
        validate_transaction_id(&id),
        Err(HelixError::InvalidTransactionId)
    );
}

#[test]
fn mime_type_simple_form_passes() {
    assert!(validate_mime_type("image/png").is_ok());
    assert!(validate_mime_type("a/b").is_ok());
    assert!(validate_mime_type("application/octet-stream").is_ok());
}

#[test]
fn mime_type_empty_fails() {
    assert_eq!(validate_mime_type(""), Err(HelixError::InvalidMimeType));
}

#[test]
fn mime_type_without_separator_fails() {
    assert_eq!(
        validate_mime_type("imagepng"),
        Err(HelixError::InvalidMimeType)
    );
}

#[test]
fn mime_type_with_empty_left_side_fails() {
    assert_eq!(validate_mime_type("/png"), Err(HelixError::InvalidMimeType));
}

#[test]
fn mime_type_with_empty_right_side_fails() {
    assert_eq!(
        validate_mime_type("image/"),
        Err(HelixError::InvalidMimeType)
    );
}

#[test]
fn mime_type_with_two_separators_fails() {
    assert_eq!(
        validate_mime_type("a/b/c"),
        Err(HelixError::InvalidMimeType)
    );
    assert_eq!(validate_mime_type("a//b"), Err(HelixError::InvalidMimeType));
}

#[test]
fn mime_type_of_only_a_separator_fails() {
    assert_eq!(validate_mime_type("/"), Err(HelixError::InvalidMimeType));
}

#[test]
fn string_length_at_maximum_passes() {
    assert!(validate_string_length(&id_of_len(256), 256, HelixError::EncryptedNameTooLong).is_ok());
}

#[test]
fn string_length_over_maximum_reports_the_given_error() {
    assert_eq!(
        validate_string_length(&id_of_len(257), 256, HelixError::EncryptedNameTooLong),
        Err(HelixError::EncryptedNameTooLong)
    );
    assert_eq!(
        validate_string_length(&id_of_len(513), 512, HelixError::EncryptedKeyTooLong),
        Err(HelixError::EncryptedKeyTooLong)
    );
}

#[test]
fn absent_optional_string_always_passes() {
    assert!(validate_optional_string_length(&None, 0, HelixError::EncryptedNameTooLong).is_ok());
}

#[test]
fn present_optional_string_is_checked() {
    assert!(validate_optional_string_length(
        &Some(id_of_len(256)),
        256,
        HelixError::EncryptedNameTooLong
    )
    .is_ok());
    assert_eq!(
        validate_optional_string_length(
            &Some(id_of_len(257)),
            256,
            HelixError::EncryptedNameTooLong
        ),
        Err(HelixError::EncryptedNameTooLong)
    );
}
