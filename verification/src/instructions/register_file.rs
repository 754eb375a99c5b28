use vstd::prelude::*;
use crate::error::{
    valid_mime_type, valid_transaction_id, validate_mime_type, validate_optional_string_length,
    validate_string_length, validate_transaction_id, HelixError,
};
use crate::state::{
    FileDeleted, FileRecord, FileRegistered, Pubkey, StorageRegistry, MAX_ENCRYPTED_NAME_LEN,
    MAX_MIME_TYPE_LEN, MAX_TRANSACTION_ID_LEN,
};

verus! {

/// First failure among the registration gate and the input checks, in
/// the order they are applied: the pause gate, then the content
/// identifier, the encrypted name, the MIME type, and the size.
pub open spec fn register_input_err(
    registry: StorageRegistry,
    transaction_id: Seq<char>,
    encrypted_name: Option<Seq<char>>,
    mime_type: Seq<char>,
    size: u64,
) -> Option<HelixError> {
    if registry.is_paused {
        Some(HelixError::RegistryPaused)
    } else if transaction_id.len() > MAX_TRANSACTION_ID_LEN {
        Some(HelixError::TransactionIdTooLong)
    } else if !valid_transaction_id(transaction_id) {
        Some(HelixError::InvalidTransactionId)
    } else if encrypted_name matches Some(n) && n.len() > MAX_ENCRYPTED_NAME_LEN {
        Some(HelixError::EncryptedNameTooLong)
    } else if mime_type.len() > MAX_MIME_TYPE_LEN {
        Some(HelixError::MimeTypeTooLong)
    } else if !valid_mime_type(mime_type) {
        Some(HelixError::InvalidMimeType)
    } else if size == 0 {
        Some(HelixError::InvalidFileSize)
    } else {
        None
    }
}

/// Run the pause gate and every input check, in order, without touching
/// any state.
pub fn check_register_inputs(
    registry: StorageRegistry,
    transaction_id: &str,
    encrypted_name: &Option<String>,
    mime_type: &str,
    size: u64,
) -> (r: Result<(), HelixError>)
    ensures
        r is Ok <==> register_input_err(
            registry,
            transaction_id@,
            encrypted_name.deep_view(),
            mime_type@,
            size,
        ) is None,
        r is Err ==> Some(r->Err_0) == register_input_err(
            registry,
            transaction_id@,
            encrypted_name.deep_view(),
            mime_type@,
            size,
        ),
{
    if registry.is_paused {
        return Err(HelixError::RegistryPaused);
    }
    match validate_string_length(
        transaction_id,
        MAX_TRANSACTION_ID_LEN,
        HelixError::TransactionIdTooLong,
    ) {
        Err(e) => return Err(e),
        Ok(()) => {},
    }
    match validate_transaction_id(transaction_id) {
        Err(e) => return Err(e),
        Ok(()) => {},
    }
    match validate_optional_string_length(
        encrypted_name,
        MAX_ENCRYPTED_NAME_LEN,
        HelixError::EncryptedNameTooLong,
    ) {
        Err(e) => return Err(e),
        Ok(()) => {},
    }
    match validate_string_length(mime_type, MAX_MIME_TYPE_LEN, HelixError::MimeTypeTooLong) {
        Err(e) => return Err(e),
        Ok(()) => {},
    }
    match validate_mime_type(mime_type) {
        Err(e) => return Err(e),
        Ok(()) => {},
    }
    if size == 0 {
        return Err(HelixError::InvalidFileSize);
    }
    Ok(())
}

/// Outcome of a registration against a registry, uniqueness of the
/// identifier being the caller's concern: the input checks, then the
/// file counter's overflow check.
pub open spec fn register_handler_err(
    registry: StorageRegistry,
    transaction_id: Seq<char>,
    encrypted_name: Option<Seq<char>>,
    mime_type: Seq<char>,
    size: u64,
) -> Option<HelixError> {
    match register_input_err(registry, transaction_id, encrypted_name, mime_type, size) {
        Some(e) => Some(e),
        None => if registry.total_files == u64::MAX {
            Some(HelixError::ArithmeticOverflow)
        } else {
            None
        },
    }
}

/// Register one file: gate, validate, build the record, and count it.
/// Nothing is mutated on any failure. The caller must ensure that no
/// record already exists under this identifier.
pub fn handler(
    registry: &mut StorageRegistry,
    owner: Pubkey,
    transaction_id: String,
    encrypted_name: Option<String>,
    mime_type: String,
    size: u64,
    is_encrypted: bool,
    now: i64,
) -> (r: Result<(FileRecord, FileRegistered), HelixError>)
    ensures
        r is Ok <==> register_handler_err(
            *old(registry),
            transaction_id@,
            encrypted_name.deep_view(),
            mime_type@,
            size,
        ) is None,
        r is Err ==> Some(r->Err_0) == register_handler_err(
            *old(registry),
            transaction_id@,
            encrypted_name.deep_view(),
            mime_type@,
            size,
        ) && *final(registry) == *old(registry),
        r is Ok ==> ({
            &&& *final(registry) == (StorageRegistry {
                total_files: (old(registry).total_files + 1) as u64,
                ..*old(registry)
            })
            &&& r->Ok_0.0 == (FileRecord {
                owner,
                transaction_id,
                encrypted_name,
                mime_type,
                size,
                is_encrypted,
                is_deleted: false,
                created_at: now,
                updated_at: now,
                share_count: 0,
            })
            &&& r->Ok_0.1 == (FileRegistered {
                owner,
                transaction_id,
                size,
                is_encrypted,
                timestamp: now,
            })
            &&& r->Ok_0.0.wf()
        }),
{
    match check_register_inputs(*registry, transaction_id.as_str(), &encrypted_name,
        mime_type.as_str(), size) {
        Err(e) => return Err(e),
        Ok(()) => {},
    }
    let total = match registry.total_files.checked_add(1) {
        Some(t) => t,
        None => return Err(HelixError::ArithmeticOverflow),
    };
    let event = FileRegistered {
        owner,
        transaction_id: transaction_id.clone(),
        size,
        is_encrypted,
        timestamp: now,
    };
    let record = FileRecord {
        owner,
        transaction_id,
        encrypted_name,
        mime_type,
        size,
        is_encrypted,
        is_deleted: false,
        created_at: now,
        updated_at: now,
        share_count: 0,
    };
    registry.total_files = total;
    Ok((record, event))
}

/// Outcome of a metadata update: ownership, the tombstone guard, then
/// the new name's length.
pub open spec fn update_err(
    file: FileRecord,
    caller: Pubkey,
    encrypted_name: Option<Seq<char>>,
) -> Option<HelixError> {
    if caller != file.owner {
        Some(HelixError::UnauthorizedOwner)
    } else if file.is_deleted {
        Some(HelixError::FileAlreadyDeleted)
    } else if encrypted_name matches Some(n) && n.len() > MAX_ENCRYPTED_NAME_LEN {
        Some(HelixError::EncryptedNameTooLong)
    } else {
        None
    }
}

/// Overwrite the encrypted name (including clearing it) and refresh the
/// update timestamp. Restricted to the record's owner; a deleted record
/// is frozen.
pub fn update_handler(
    file_record: &mut FileRecord,
    caller: Pubkey,
    encrypted_name: Option<String>,
    now: i64,
) -> (r: Result<(), HelixError>)
    ensures
        r is Ok <==> update_err(*old(file_record), caller, encrypted_name.deep_view()) is None,
        r is Err ==> Some(r->Err_0) == update_err(
            *old(file_record),
            caller,
            encrypted_name.deep_view(),
        ) && *final(file_record) == *old(file_record),
        r is Ok ==> *final(file_record) == (FileRecord {
            encrypted_name,
            updated_at: now,
            ..*old(file_record)
        }),
        r is Ok && old(file_record).wf() ==> final(file_record).wf(),
{
    if caller != file_record.owner {
        return Err(HelixError::UnauthorizedOwner);
    }
    if file_record.is_deleted {
        return Err(HelixError::FileAlreadyDeleted);
    }
    match validate_optional_string_length(
        &encrypted_name,
        MAX_ENCRYPTED_NAME_LEN,
        HelixError::EncryptedNameTooLong,
    ) {
        Err(e) => return Err(e),
        Ok(()) => {},
    }
    file_record.encrypted_name = encrypted_name;
    file_record.updated_at = now;
    Ok(())
}

/// Outcome of a deletion: ownership, then the tombstone guard.
pub open spec fn delete_err(file: FileRecord, caller: Pubkey) -> Option<HelixError> {
    if caller != file.owner {
        Some(HelixError::UnauthorizedOwner)
    } else if file.is_deleted {
        Some(HelixError::FileAlreadyDeleted)
    } else {
        None
    }
}

/// A tombstoned record is frozen: no caller, its owner included, can
/// update it again or delete it a second time.
pub proof fn lemma_deleted_record_frozen(
    file: FileRecord,
    caller: Pubkey,
    encrypted_name: Option<Seq<char>>,
)
    requires
        file.is_deleted,
    ensures
        update_err(file, caller, encrypted_name) is Some,
        delete_err(file, caller) is Some,
{
}

/// Set the tombstone flag, refresh the update timestamp, and let the
/// file counter shrink, clamping at zero. The tombstone is one-way: a
/// deleted record never accepts another mutation.
pub fn delete_handler(
    registry: &mut StorageRegistry,
    file_record: &mut FileRecord,
    caller: Pubkey,
    now: i64,
) -> (r: Result<FileDeleted, HelixError>)
    ensures
        r is Ok <==> delete_err(*old(file_record), caller) is None,
        r is Err ==> Some(r->Err_0) == delete_err(*old(file_record), caller) && *final(registry)
            == *old(registry) && *final(file_record) == *old(file_record),
        r is Ok ==> ({
            &&& *final(file_record) == (FileRecord {
                is_deleted: true,
                updated_at: now,
                ..*old(file_record)
            })
            &&& *final(registry) == (StorageRegistry {
                total_files: if old(registry).total_files > 0 {
                    (old(registry).total_files - 1) as u64
                } else {
                    0
                },
                ..*old(registry)
            })
            &&& r->Ok_0 == (FileDeleted {
                file: old(file_record).transaction_id,
                owner: old(file_record).owner,
                timestamp: now,
            })
        }),
{
    if caller != file_record.owner {
        return Err(HelixError::UnauthorizedOwner);
    }
    if file_record.is_deleted {
        return Err(HelixError::FileAlreadyDeleted);
    }
    let event = FileDeleted {
        file: file_record.transaction_id.clone(),
        owner: file_record.owner,
        timestamp: now,
    };
    file_record.is_deleted = true;
    file_record.updated_at = now;
    registry.total_files = registry.total_files.saturating_sub(1);
    Ok(event)
}

} // verus!
