use vstd::prelude::*;
use vstd::string::StringExecFns;
use crate::error::{valid_mime_type, valid_transaction_id};

verus! {

/// Maximum length, in characters, of a content identifier.
pub const MAX_TRANSACTION_ID_LEN: usize = 43;

/// Maximum length, in characters, of an encrypted file name.
pub const MAX_ENCRYPTED_NAME_LEN: usize = 256;

/// Maximum length, in characters, of a MIME type string.
pub const MAX_MIME_TYPE_LEN: usize = 128;

/// Maximum length, in characters, of an encrypted sharing key.
pub const MAX_ENCRYPTED_KEY_LEN: usize = 512;

/// A 256-bit wallet identity, held as four 64-bit words.
/// The registry only ever compares identities for equality.
#[derive(Clone, Copy, Debug, PartialEq, Eq, Structural)]
pub struct Pubkey(pub u64, pub u64, pub u64, pub u64);

/// Global storage registry configuration: program-wide settings,
/// the administrative authority, and the aggregate counters.
#[derive(Clone, Copy, Debug, PartialEq, Eq, Structural)]
pub struct StorageRegistry {
    /// Identity permitted to perform administrative actions.
    pub authority: Pubkey,
    /// Base fee in lamports for file registration (informational).
    pub base_fee_lamports: u64,
    /// Number of registered files that have not been deleted.
    pub total_files: u64,
    /// Number of share links that have not been revoked.
    pub total_shares: u64,
    /// Gate blocking new file registration.
    pub is_paused: bool,
}

/// One registered file: a wallet's claim on an externally stored,
/// content-addressed object, plus its metadata and tombstone flag.
#[derive(Debug)]
pub struct FileRecord {
    /// Identity that registered the file.
    pub owner: Pubkey,
    /// Content identifier: exactly 43 characters from the base64url alphabet.
    pub transaction_id: String,
    /// Client-encrypted file name, if any.
    pub encrypted_name: Option<String>,
    /// MIME type of the file, of the form `type/subtype`.
    pub mime_type: String,
    /// File size in bytes; always strictly positive.
    pub size: u64,
    /// Whether the stored bytes are encrypted (not enforced here).
    pub is_encrypted: bool,
    /// Tombstone flag; once set it is never cleared.
    pub is_deleted: bool,
    /// Timestamp of registration.
    pub created_at: i64,
    /// Timestamp of the most recent mutation.
    pub updated_at: i64,
    /// Number of active (non-revoked) share links for this file.
    pub share_count: u32,
}

impl FileRecord {
    /// Structural well-formedness: every constructor establishes this
    /// and every mutation preserves it.
    pub open spec fn wf(&self) -> bool {
        &&& valid_transaction_id(self.transaction_id@)
        &&& self.mime_type@.len() <= MAX_MIME_TYPE_LEN
        &&& valid_mime_type(self.mime_type@)
        &&& (self.encrypted_name matches Some(n) ==> n@.len() <= MAX_ENCRYPTED_NAME_LEN)
        &&& self.size > 0
    }

    /// A file is accessible exactly while it carries no tombstone.
    pub fn is_accessible(&self) -> (r: bool)
        ensures
            r == !self.is_deleted,
    {
        !self.is_deleted
    }

    /// Retrieval URL of the externally stored bytes.
    pub fn arweave_url(&self) -> (url: String)
        ensures
            url@ == "https://arweave.net/"@ + self.transaction_id@,
    {
        let mut url = String::from_str("https://arweave.net/");
        url.append(self.transaction_id.as_str());
        url
    }
}

/// One access grant: a time- and count-bounded capability on a file.
#[derive(Debug)]
pub struct ShareLink {
    /// Content identifier of the file this link grants access to.
    pub file: String,
    /// Identity that created the link (the file's owner at creation time).
    pub owner: Pubkey,
    /// Identity the grant is restricted to; absent means public.
    pub recipient: Option<Pubkey>,
    /// Encrypted decryption material for the recipient, if any.
    pub encrypted_key: Option<String>,
    /// Expiration timestamp; absent means the link never expires.
    pub expires_at: Option<i64>,
    /// Cap on downloads; absent means unlimited.
    pub max_downloads: Option<u32>,
    /// Number of downloads recorded so far.
    pub download_count: u32,
    /// One-way revocation flag.
    pub is_revoked: bool,
    /// Timestamp of creation.
    pub created_at: i64,
}

impl ShareLink {
    /// Structural well-formedness of a share link.
    pub open spec fn wf(&self) -> bool {
        &&& (self.encrypted_key matches Some(k) ==> k@.len() <= MAX_ENCRYPTED_KEY_LEN)
        &&& (self.max_downloads matches Some(m) ==> m > 0)
    }

    /// Validity is a pure function of the revocation flag, the expiration,
    /// the download counter, and the current time.
    pub open spec fn spec_is_valid(&self, now: i64) -> bool {
        &&& !self.is_revoked
        &&& (self.expires_at matches Some(e) ==> now <= e)
        &&& (self.max_downloads matches Some(m) ==> self.download_count < m)
    }

    /// Whether the link is still usable at `current_timestamp`.
    pub fn is_valid(&self, current_timestamp: i64) -> (r: bool)
        ensures
            r == self.spec_is_valid(current_timestamp),
    {
        if self.is_revoked {
            return false;
        }
        if let Some(expires_at) = self.expires_at {
            if current_timestamp > expires_at {
                return false;
            }
        }
        if let Some(max) = self.max_downloads {
            if self.download_count >= max {
                return false;
            }
        }
        true
    }

    /// Access eligibility: validity, and the recipient restriction if one is set.
    pub open spec fn spec_can_access(&self, wallet: Pubkey, now: i64) -> bool {
        &&& self.spec_is_valid(now)
        &&& (self.recipient matches Some(r) ==> wallet == r)
    }

    /// Whether `wallet` may use this link at `current_timestamp`.
    pub fn can_access(&self, wallet: &Pubkey, current_timestamp: i64) -> (r: bool)
        ensures
            r == self.spec_can_access(*wallet, current_timestamp),
    {
        if !self.is_valid(current_timestamp) {
            return false;
        }
        match &self.recipient {
            Some(recipient) => *wallet == *recipient,
            None => true,
        }
    }

    /// Advance the download counter by one, saturating at the top of its
    /// range, and report whether the new count is still within the cap.
    pub fn record_download(&mut self) -> (within_limit: bool)
        ensures
            *final(self) == (ShareLink { download_count: final(self).download_count, ..*old(self) }),
            final(self).download_count == if old(self).download_count < u32::MAX {
                old(self).download_count + 1
            } else {
                old(self).download_count as int
            },
            within_limit == (final(self).max_downloads matches Some(m) ==> final(self).download_count <= m),
    {
        self.download_count = self.download_count.saturating_add(1);
        if let Some(max) = self.max_downloads {
            self.download_count <= max
        } else {
            true
        }
    }
}

/// Validity never returns as time advances: a link that is valid at a
/// later time was already valid at every earlier time.
pub proof fn lemma_is_valid_monotonic_in_time(link: ShareLink, earlier: i64, later: i64)
    requires
        earlier <= later,
    ensures
        link.spec_is_valid(later) ==> link.spec_is_valid(earlier),
{
}

/// Validity never returns as downloads accumulate: of two links equal in
/// all but the download counter, validity of the one with more downloads
/// implies validity of the one with fewer.
pub proof fn lemma_is_valid_monotonic_in_downloads(fewer: ShareLink, more: ShareLink, now: i64)
    requires
        fewer.download_count <= more.download_count,
        more == (ShareLink { download_count: more.download_count, ..fewer }),
    ensures
        more.spec_is_valid(now) ==> fewer.spec_is_valid(now),
{
}

/// A revoked link is invalid and inaccessible for every requester at
/// every time.
pub proof fn lemma_revoked_link_inaccessible(link: ShareLink, wallet: Pubkey, now: i64)
    requires
        link.is_revoked,
    ensures
        !link.spec_is_valid(now),
        !link.spec_can_access(wallet, now),
{
}

/// Event recording a successful file registration.
#[derive(Debug)]
pub struct FileRegistered {
    pub owner: Pubkey,
    pub transaction_id: String,
    pub size: u64,
    pub is_encrypted: bool,
    pub timestamp: i64,
}

/// Event recording a successful share creation.
#[derive(Debug)]
pub struct ShareCreated {
    pub file: String,
    pub owner: Pubkey,
    pub recipient: Option<Pubkey>,
    pub expires_at: Option<i64>,
    pub timestamp: i64,
}

/// Event recording a successful share revocation.
#[derive(Debug)]
pub struct ShareRevoked {
    pub share: u64,
    pub owner: Pubkey,
    pub timestamp: i64,
}

/// Event recording a successful file deletion.
#[derive(Debug)]
pub struct FileDeleted {
    pub file: String,
    pub owner: Pubkey,
    pub timestamp: i64,
}

} // verus!
