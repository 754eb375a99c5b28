use vstd::prelude::*;
use crate::error::{validate_optional_string_length, HelixError};
use crate::state::{
    FileRecord, Pubkey, ShareCreated, ShareLink, StorageRegistry, MAX_ENCRYPTED_KEY_LEN,
};

verus! {

/// Outcome of creating a share link: ownership, the tombstone guard,
/// the expiration and cap checks, the key length, then the two counter
/// overflow checks.
pub open spec fn create_err(
    registry: StorageRegistry,
    file: FileRecord,
    owner: Pubkey,
    expires_at: Option<i64>,
    max_downloads: Option<u32>,
    encrypted_key: Option<Seq<char>>,
    now: i64,
) -> Option<HelixError> {
    if owner != file.owner {
        Some(HelixError::UnauthorizedOwner)
    } else if file.is_deleted {
        Some(HelixError::CannotShareDeletedFile)
    } else if expires_at matches Some(e) && e <= now {
        Some(HelixError::ExpirationInPast)
    } else if max_downloads matches Some(m) && m == 0 {
        Some(HelixError::InvalidMaxDownloads)
    } else if encrypted_key matches Some(k) && k.len() > MAX_ENCRYPTED_KEY_LEN {
        Some(HelixError::EncryptedKeyTooLong)
    } else if file.share_count == u32::MAX {
        Some(HelixError::ArithmeticOverflow)
    } else if registry.total_shares == u64::MAX {
        Some(HelixError::ArithmeticOverflow)
    } else {
        None
    }
}

/// Create a share link against a live file: the link starts unrevoked
/// with no downloads, and both the file's share counter and the global
/// share counter grow by one. Either overflow aborts the whole
/// operation; nothing is mutated on any failure.
pub fn handler(
    registry: &mut StorageRegistry,
    file_record: &mut FileRecord,
    owner: Pubkey,
    recipient: Option<Pubkey>,
    expires_at: Option<i64>,
    max_downloads: Option<u32>,
    encrypted_key: Option<String>,
    now: i64,
) -> (r: Result<(ShareLink, ShareCreated), HelixError>)
    ensures
        r is Ok <==> create_err(
            *old(registry),
            *old(file_record),
            owner,
            expires_at,
            max_downloads,
            encrypted_key.deep_view(),
            now,
        ) is None,
        r is Err ==> Some(r->Err_0) == create_err(
            *old(registry),
            *old(file_record),
            owner,
            expires_at,
            max_downloads,
            encrypted_key.deep_view(),
            now,
        ) && *final(registry) == *old(registry) && *final(file_record) == *old(file_record),
        r is Ok ==> ({
            &&& *final(file_record) == (FileRecord {
                share_count: (old(file_record).share_count + 1) as u32,
                ..*old(file_record)
            })
            &&& *final(registry) == (StorageRegistry {
                total_shares: (old(registry).total_shares + 1) as u64,
                ..*old(registry)
            })
            &&& r->Ok_0.0 == (ShareLink {
                file: old(file_record).transaction_id,
                owner,
                recipient,
                encrypted_key,
                expires_at,
                max_downloads,
                download_count: 0,
                is_revoked: false,
                created_at: now,
            })
            &&& r->Ok_0.1 == (ShareCreated {
                file: old(file_record).transaction_id,
                owner,
                recipient,
                expires_at,
                timestamp: now,
            })
            &&& r->Ok_0.0.wf()
        }),
{
    if owner != file_record.owner {
        return Err(HelixError::UnauthorizedOwner);
    }
    if file_record.is_deleted {
        return Err(HelixError::CannotShareDeletedFile);
    }
    if let Some(exp) = expires_at {
        if exp <= now {
            return Err(HelixError::ExpirationInPast);
        }
    }
    if let Some(max) = max_downloads {
        if max == 0 {
            return Err(HelixError::InvalidMaxDownloads);
        }
    }
    match validate_optional_string_length(
        &encrypted_key,
        MAX_ENCRYPTED_KEY_LEN,
        HelixError::EncryptedKeyTooLong,
    ) {
        Err(e) => return Err(e),
        Ok(()) => {},
    }
    let share_count = match file_record.share_count.checked_add(1) {
        Some(c) => c,
        None => return Err(HelixError::ArithmeticOverflow),
    };
    let total_shares = match registry.total_shares.checked_add(1) {
        Some(t) => t,
        None => return Err(HelixError::ArithmeticOverflow),
    };
    let share_link = ShareLink {
        file: file_record.transaction_id.clone(),
        owner,
        recipient,
        encrypted_key,
        expires_at,
        max_downloads,
        download_count: 0,
        is_revoked: false,
        created_at: now,
    };
    let event = ShareCreated {
        file: file_record.transaction_id.clone(),
        owner,
        recipient,
        expires_at,
        timestamp: now,
    };
    file_record.share_count = share_count;
    registry.total_shares = total_shares;
    Ok((share_link, event))
}

/// A tombstoned file never accepts a new share link, whatever the other
/// arguments are.
pub proof fn lemma_deleted_file_never_shared(
    registry: StorageRegistry,
    file: FileRecord,
    owner: Pubkey,
    expires_at: Option<i64>,
    max_downloads: Option<u32>,
    encrypted_key: Option<Seq<char>>,
    now: i64,
)
    requires
        file.is_deleted,
    ensures
        create_err(registry, file, owner, expires_at, max_downloads, encrypted_key, now)
            is Some,
{
}

/// Outcome of a revocation: ownership, the link's back-reference, then
/// the one-way revocation guard.
pub open spec fn revoke_err(file: FileRecord, share: ShareLink, caller: Pubkey) -> Option<
    HelixError,
> {
    if caller != share.owner {
        Some(HelixError::UnauthorizedOwner)
    } else if share.file@ != file.transaction_id@ {
        Some(HelixError::InvalidShareLink)
    } else if share.is_revoked {
        Some(HelixError::ShareRevoked)
    } else {
        None
    }
}

/// Revoke a share link: set the one-way flag and let the file's share
/// counter and the global share counter shrink, both clamping at zero.
/// The record itself remains, so history stays queryable.
pub fn revoke_handler(
    registry: &mut StorageRegistry,
    file_record: &mut FileRecord,
    share_link: &mut ShareLink,
    caller: Pubkey,
) -> (r: Result<(), HelixError>)
    ensures
        r is Ok <==> revoke_err(*old(file_record), *old(share_link), caller) is None,
        r is Err ==> Some(r->Err_0) == revoke_err(*old(file_record), *old(share_link), caller)
            && *final(registry) == *old(registry) && *final(file_record) == *old(file_record)
            && *final(share_link) == *old(share_link),
        r is Ok ==> ({
            &&& *final(share_link) == (ShareLink { is_revoked: true, ..*old(share_link) })
            &&& *final(file_record) == (FileRecord {
                share_count: if old(file_record).share_count > 0 {
                    (old(file_record).share_count - 1) as u32
                } else {
                    0
                },
                ..*old(file_record)
            })
            &&& *final(registry) == (StorageRegistry {
                total_shares: if old(registry).total_shares > 0 {
                    (old(registry).total_shares - 1) as u64
                } else {
                    0
                },
                ..*old(registry)
            })
        }),
{
    if caller != share_link.owner {
        return Err(HelixError::UnauthorizedOwner);
    }
    if !(share_link.file == file_record.transaction_id) {
        return Err(HelixError::InvalidShareLink);
    }
    if share_link.is_revoked {
        return Err(HelixError::ShareRevoked);
    }
    share_link.is_revoked = true;
    file_record.share_count = file_record.share_count.saturating_sub(1);
    registry.total_shares = registry.total_shares.saturating_sub(1);
    Ok(())
}

/// Outcome of recording a download, in the order the gates are applied:
/// revocation, expiration, the download cap, then the recipient
/// restriction. The cap is checked before any increment, so a download
/// that fails never advances the counter.
pub open spec fn download_err(share: ShareLink, downloader: Pubkey, now: i64) -> Option<
    HelixError,
> {
    if share.is_revoked {
        Some(HelixError::InvalidShareLink)
    } else if share.expires_at matches Some(e) && now > e {
        Some(HelixError::InvalidShareLink)
    } else if share.max_downloads matches Some(m) && share.download_count >= m {
        Some(HelixError::MaxDownloadsReached)
    } else if share.recipient matches Some(rec) && downloader != rec {
        Some(HelixError::ShareAccessDenied)
    } else {
        None
    }
}

/// The download gates agree with the access predicate: a download is
/// admitted exactly when the link is accessible to the requester.
pub proof fn lemma_download_gate_matches_access(share: ShareLink, downloader: Pubkey, now: i64)
    ensures
        download_err(share, downloader, now) is None <==> share.spec_can_access(downloader, now),
{
}

/// Record one download against a share link: every gate runs first, and
/// only then does the counter advance by one, saturating at the top of
/// its range.
pub fn record_download_handler(share_link: &mut ShareLink, downloader: Pubkey, now: i64) -> (r:
    Result<(), HelixError>)
    ensures
        r is Ok <==> download_err(*old(share_link), downloader, now) is None,
        r is Err ==> Some(r->Err_0) == download_err(*old(share_link), downloader, now)
            && *final(share_link) == *old(share_link),
        r is Ok ==> *final(share_link) == (ShareLink {
            download_count: if old(share_link).download_count < u32::MAX {
                (old(share_link).download_count + 1) as u32
            } else {
                old(share_link).download_count
            },
            ..*old(share_link)
        }),
{
    if share_link.is_revoked {
        return Err(HelixError::InvalidShareLink);
    }
    if let Some(expires_at) = share_link.expires_at {
        if now > expires_at {
            return Err(HelixError::InvalidShareLink);
        }
    }
    if let Some(max) = share_link.max_downloads {
        if share_link.download_count >= max {
            return Err(HelixError::MaxDownloadsReached);
        }
    }
    if let Some(recipient) = share_link.recipient {
        if downloader != recipient {
            return Err(HelixError::ShareAccessDenied);
        }
    }
    let within_limit = share_link.record_download();
    if !within_limit {
        return Err(HelixError::MaxDownloadsReached);
    }
    Ok(())
}

/// Read-only access check for external retrieval gateways: a deleted
/// file is never served; otherwise the link's access predicate decides.
pub fn validate_access(
    file_record: &FileRecord,
    share_link: &ShareLink,
    wallet: &Pubkey,
    now: i64,
) -> (r: bool)
    ensures
        r == (!file_record.is_deleted && share_link.spec_can_access(*wallet, now)),
{
    if file_record.is_deleted {
        return false;
    }
    share_link.can_access(wallet, now)
}

} // verus!
