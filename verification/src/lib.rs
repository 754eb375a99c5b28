use vstd::prelude::*;

pub mod error;
pub mod instructions;
pub mod state;

use crate::error::HelixError;
use crate::instructions::create_share::{create_err, download_err, revoke_err};
use crate::instructions::register_file::{delete_err, register_input_err, update_err};
use crate::state::{
    FileDeleted, FileRecord, FileRegistered, Pubkey, ShareCreated, ShareLink, ShareRevoked,
    StorageRegistry,
};

verus! {

/// The whole registry state: the singleton configuration record, every
/// file record keyed by its content identifier, and every share link
/// keyed by its position (its sequence number at creation time).
/// Records are never physically removed; files and shares carry
/// one-way tombstone and revocation flags instead.
pub struct RecordStore {
    /// The singleton configuration and counter record.
    pub registry: StorageRegistry,
    /// Every file record ever registered, in registration order.
    pub files: Vec<FileRecord>,
    /// Every share link ever created, in creation order.
    pub shares: Vec<ShareLink>,
}

impl RecordStore {
    /// Whether some file record carries this content identifier.
    pub open spec fn spec_contains_file(&self, transaction_id: Seq<char>) -> bool {
        exists|i: int|
            0 <= i < self.files@.len() && (#[trigger] self.files@[i]).transaction_id@
                == transaction_id
    }

    /// Position of the file record carrying this content identifier;
    /// meaningful only when one exists, and then unique.
    pub open spec fn spec_file_index(&self, transaction_id: Seq<char>) -> int {
        choose|i: int|
            0 <= i < self.files@.len() && (#[trigger] self.files@[i]).transaction_id@
                == transaction_id
    }

    /// Well-formedness of the whole store: every record is well formed,
    /// content identifiers are unique, and every share link points back
    /// at a file record that exists.
    pub open spec fn wf(&self) -> bool {
        &&& forall|i: int| 0 <= i < self.files@.len() ==> (#[trigger] self.files@[i]).wf()
        &&& forall|i: int, j: int|
            0 <= i < j < self.files@.len() ==> (#[trigger] self.files@[i]).transaction_id@ != (
            #[trigger] self.files@[j]).transaction_id@
        &&& forall|k: int| 0 <= k < self.shares@.len() ==> (#[trigger] self.shares@[k]).wf()
        &&& forall|k: int|
            0 <= k < self.shares@.len() ==> self.spec_contains_file(
                (#[trigger] self.shares@[k]).file@,
            )
    }

    /// Two stores hold the same observable state: the same configuration
    /// record, the same file table, and the same share table.
    pub open spec fn same_state(&self, other: &RecordStore) -> bool {
        &&& self.registry == other.registry
        &&& self.files@ == other.files@
        &&& self.shares@ == other.shares@
    }

    /// In a well-formed store, a position holding a given identifier is
    /// the one `spec_file_index` names.
    pub proof fn lemma_file_index_agrees(&self, transaction_id: Seq<char>, i: int)
        requires
            self.wf(),
            0 <= i < self.files@.len(),
            self.files@[i].transaction_id@ == transaction_id,
        ensures
            self.spec_contains_file(transaction_id),
            self.spec_file_index(transaction_id) == i,
    {
        assert(self.spec_contains_file(transaction_id));
        let c = self.spec_file_index(transaction_id);
        assert(0 <= c < self.files@.len() && self.files@[c].transaction_id@ == transaction_id);
        if c < i {
            assert(self.files@[c].transaction_id@ != self.files@[i].transaction_id@);
        } else if i < c {
            assert(self.files@[i].transaction_id@ != self.files@[c].transaction_id@);
        }
    }

    /// Look a file record up by its content identifier.
    pub fn find_file(&self, transaction_id: &String) -> (r: Option<usize>)
        ensures
            match r {
                Some(i) => i < self.files@.len() && self.files@[i as int].transaction_id@
                    == transaction_id@,
                None => !self.spec_contains_file(transaction_id@),
            },
    {
        let n = self.files.len();
        let mut i: usize = 0;
        while i < n
            invariant
                i <= n,
                n == self.files@.len(),
                forall|j: int|
                    0 <= j < i ==> (#[trigger] self.files@[j]).transaction_id@ != transaction_id@,
            decreases n - i,
        {
            if self.files[i].transaction_id == *transaction_id {
                return Some(i);
            }
            i += 1;
        }
        None
    }
}

/// Well-formedness survives any mutation that keeps the two tables'
/// lengths, every file's identifier and well-formedness, and every
/// share's back-reference and well-formedness.
proof fn lemma_wf_preserved(pre: RecordStore, post: RecordStore)
    requires
        pre.wf(),
        post.files@.len() == pre.files@.len(),
        forall|i: int|
            0 <= i < pre.files@.len() ==> (#[trigger] post.files@[i]).wf()
                && post.files@[i].transaction_id@ == pre.files@[i].transaction_id@,
        post.shares@.len() == pre.shares@.len(),
        forall|k: int|
            0 <= k < pre.shares@.len() ==> (#[trigger] post.shares@[k]).wf()
                && post.shares@[k].file@ == pre.shares@[k].file@,
    ensures
        post.wf(),
{
    assert forall|i: int, j: int| 0 <= i < j < post.files@.len() implies (
    #[trigger] post.files@[i]).transaction_id@ != (#[trigger] post.files@[j]).transaction_id@ by {
        assert(pre.files@[i].transaction_id@ != pre.files@[j].transaction_id@);
    }
    assert forall|k: int| 0 <= k < post.shares@.len() implies post.spec_contains_file(
        (#[trigger] post.shares@[k]).file@,
    ) by {
        assert(pre.spec_contains_file(pre.shares@[k].file@));
        let f = pre.spec_file_index(pre.shares@[k].file@);
        assert(0 <= f < pre.files@.len() && pre.files@[f].transaction_id@
            == pre.shares@[k].file@);
        assert(post.files@[f].transaction_id@ == post.shares@[k].file@);
    }
}

/// Well-formedness survives appending a fresh, well-formed file record
/// whose identifier no existing record carries.
proof fn lemma_wf_after_file_push(pre: RecordStore, post: RecordStore, record: FileRecord)
    requires
        pre.wf(),
        post.files@ == pre.files@.push(record),
        record.wf(),
        !pre.spec_contains_file(record.transaction_id@),
        post.shares@ == pre.shares@,
    ensures
        post.wf(),
{
    assert forall|i: int| 0 <= i < pre.files@.len() implies (
    #[trigger] pre.files@[i]).transaction_id@ != record.transaction_id@ by {
        if pre.files@[i].transaction_id@ == record.transaction_id@ {
            assert(pre.spec_contains_file(record.transaction_id@));
        }
    }
    assert forall|i: int, j: int| 0 <= i < j < post.files@.len() implies (
    #[trigger] post.files@[i]).transaction_id@ != (#[trigger] post.files@[j]).transaction_id@ by {
        if j < pre.files@.len() {
            assert(pre.files@[i].transaction_id@ != pre.files@[j].transaction_id@);
        } else {
            assert(post.files@[j] == record);
            assert(post.files@[i] == pre.files@[i]);
        }
    }
    assert forall|k: int| 0 <= k < post.shares@.len() implies post.spec_contains_file(
        (#[trigger] post.shares@[k]).file@,
    ) by {
        assert(pre.spec_contains_file(pre.shares@[k].file@));
        let f = pre.spec_file_index(pre.shares@[k].file@);
        assert(0 <= f < pre.files@.len() && pre.files@[f].transaction_id@
            == pre.shares@[k].file@);
        assert(post.files@[f].transaction_id@ == post.shares@[k].file@);
    }
}

/// Well-formedness survives appending a well-formed share link whose
/// back-reference resolves, alongside a file mutation that keeps every
/// identifier and every record's well-formedness.
proof fn lemma_wf_after_share_push(pre: RecordStore, post: RecordStore, share: ShareLink)
    requires
        pre.wf(),
        post.files@.len() == pre.files@.len(),
        forall|i: int|
            0 <= i < pre.files@.len() ==> (#[trigger] post.files@[i]).wf()
                && post.files@[i].transaction_id@ == pre.files@[i].transaction_id@,
        post.shares@ == pre.shares@.push(share),
        share.wf(),
        pre.spec_contains_file(share.file@),
    ensures
        post.wf(),
{
    assert forall|i: int, j: int| 0 <= i < j < post.files@.len() implies (
    #[trigger] post.files@[i]).transaction_id@ != (#[trigger] post.files@[j]).transaction_id@ by {
        assert(pre.files@[i].transaction_id@ != pre.files@[j].transaction_id@);
    }
    assert forall|k: int| 0 <= k < post.shares@.len() implies post.spec_contains_file(
        (#[trigger] post.shares@[k]).file@,
    ) by {
        let id = post.shares@[k].file@;
        assert(pre.spec_contains_file(id));
        let f = pre.spec_file_index(id);
        assert(0 <= f < pre.files@.len() && pre.files@[f].transaction_id@ == id);
        assert(post.files@[f].transaction_id@ == id);
    }
}

/// Create the whole registry state: the singleton configuration record
/// with both counters at zero and registration not paused, and the two
/// empty record tables. The substrate creates this state exactly once;
/// there is no way to re-run creation against an existing store.
pub fn initialize(authority: Pubkey, base_fee_lamports: u64) -> (store: RecordStore)
    ensures
        store.wf(),
        store.registry == (StorageRegistry {
            authority,
            base_fee_lamports,
            total_files: 0,
            total_shares: 0,
            is_paused: false,
        }),
        store.files@ == Seq::<FileRecord>::empty(),
        store.shares@ == Seq::<ShareLink>::empty(),
{
    RecordStore {
        registry: instructions::initialize::handler(authority, base_fee_lamports),
        files: Vec::new(),
        shares: Vec::new(),
    }
}

/// Outcome of a registration against the whole store: the pause gate
/// and input checks, then uniqueness of the identifier, then the file
/// counter's overflow check.
pub open spec fn register_file_err(
    store: RecordStore,
    transaction_id: Seq<char>,
    encrypted_name: Option<Seq<char>>,
    mime_type: Seq<char>,
    size: u64,
) -> Option<HelixError> {
    match register_input_err(store.registry, transaction_id, encrypted_name, mime_type, size) {
        Some(e) => Some(e),
        None => if store.spec_contains_file(transaction_id) {
            Some(HelixError::DuplicateTransactionId)
        } else if store.registry.total_files == u64::MAX {
            Some(HelixError::ArithmeticOverflow)
        } else {
            None
        },
    }
}

/// A store already holding a content identifier refuses another
/// registration of it with a state conflict, whatever the other
/// arguments are, so the file counter can only have grown by one.
pub proof fn lemma_duplicate_registration_refused(
    store: RecordStore,
    transaction_id: Seq<char>,
    encrypted_name: Option<Seq<char>>,
    mime_type: Seq<char>,
    size: u64,
)
    requires
        store.spec_contains_file(transaction_id),
    ensures
        register_file_err(store, transaction_id, encrypted_name, mime_type, size) is Some,
{
}

/// Register a new file under a fresh content identifier. On success the
/// new record is appended, carrying the given metadata, no tombstone,
/// no shares, and both timestamps at `now`; the file counter grows by
/// one. On any failure nothing is mutated.
pub fn register_file(
    store: &mut RecordStore,
    owner: Pubkey,
    transaction_id: String,
    encrypted_name: Option<String>,
    mime_type: String,
    size: u64,
    is_encrypted: bool,
    now: i64,
) -> (r: Result<FileRegistered, HelixError>)
    requires
        old(store).wf(),
    ensures
        final(store).wf(),
        r is Ok <==> register_file_err(
            *old(store),
            transaction_id@,
            encrypted_name.deep_view(),
            mime_type@,
            size,
        ) is None,
        r is Err ==> Some(r->Err_0) == register_file_err(
            *old(store),
            transaction_id@,
            encrypted_name.deep_view(),
            mime_type@,
            size,
        ) && final(store).same_state(old(store)),
        r is Ok ==> ({
            &&& final(store).files@ == old(store).files@.push(
                (FileRecord {
                    owner,
                    transaction_id,
                    encrypted_name,
                    mime_type,
                    size,
                    is_encrypted,
                    is_deleted: false,
                    created_at: now,
                    updated_at: now,
                    share_count: 0,
                }),
            )
            &&& final(store).registry == (StorageRegistry {
                total_files: (old(store).registry.total_files + 1) as u64,
                ..old(store).registry
            })
            &&& final(store).shares@ == old(store).shares@
            &&& r->Ok_0 == (FileRegistered {
                owner,
                transaction_id,
                size,
                is_encrypted,
                timestamp: now,
            })
        }),
{
    match instructions::register_file::check_register_inputs(
        store.registry,
        transaction_id.as_str(),
        &encrypted_name,
        mime_type.as_str(),
        size,
    ) {
        Err(e) => return Err(e),
        Ok(()) => {},
    }
    match store.find_file(&transaction_id) {
        Some(_) => return Err(HelixError::DuplicateTransactionId),
        None => {},
    }
    let (record, event) = match instructions::register_file::handler(
        &mut store.registry,
        owner,
        transaction_id,
        encrypted_name,
        mime_type,
        size,
        is_encrypted,
        now,
    ) {
        Ok(p) => p,
        Err(e) => return Err(e),
    };
    store.files.push(record);
    proof {
        lemma_wf_after_file_push(*old(store), *store, record);
    }
    Ok(event)
}

/// Outcome of a metadata update against the whole store: the lookup,
/// then ownership, the tombstone guard, and the new name's length.
pub open spec fn update_file_err(
    store: RecordStore,
    caller: Pubkey,
    transaction_id: Seq<char>,
    encrypted_name: Option<Seq<char>>,
) -> Option<HelixError> {
    if !store.spec_contains_file(transaction_id) {
        Some(HelixError::FileNotFound)
    } else {
        update_err(store.files@[store.spec_file_index(transaction_id)], caller, encrypted_name)
    }
}

/// Overwrite a file's encrypted name (including clearing it) and
/// refresh its update timestamp. Restricted to the record's owner; a
/// deleted record is frozen. On any failure nothing is mutated.
pub fn update_file(
    store: &mut RecordStore,
    caller: Pubkey,
    transaction_id: &String,
    encrypted_name: Option<String>,
    now: i64,
) -> (r: Result<(), HelixError>)
    requires
        old(store).wf(),
    ensures
        final(store).wf(),
        r is Ok <==> update_file_err(
            *old(store),
            caller,
            transaction_id@,
            encrypted_name.deep_view(),
        ) is None,
        r is Err ==> Some(r->Err_0) == update_file_err(
            *old(store),
            caller,
            transaction_id@,
            encrypted_name.deep_view(),
        ) && final(store).same_state(old(store)),
        r is Ok ==> ({
            let idx = old(store).spec_file_index(transaction_id@);
            &&& final(store).files@ == old(store).files@.update(
                idx,
                (FileRecord { encrypted_name, updated_at: now, ..old(store).files@[idx] }),
            )
            &&& final(store).registry == old(store).registry
            &&& final(store).shares@ == old(store).shares@
        }),
{
    let idx = match store.find_file(transaction_id) {
        Some(i) => i,
        None => return Err(HelixError::FileNotFound),
    };
    proof {
        store.lemma_file_index_agrees(transaction_id@, idx as int);
    }
    match instructions::register_file::update_handler(
        &mut store.files[idx],
        caller,
        encrypted_name,
        now,
    ) {
        Err(e) => {
            proof {
                assert(store.files@ =~= old(store).files@);
            }
            return Err(e);
        },
        Ok(()) => {},
    }
    proof {
        lemma_wf_preserved(*old(store), *store);
    }
    Ok(())
}

/// Outcome of a deletion against the whole store: the lookup, then
/// ownership and the tombstone guard.
pub open spec fn delete_file_err(
    store: RecordStore,
    caller: Pubkey,
    transaction_id: Seq<char>,
) -> Option<HelixError> {
    if !store.spec_contains_file(transaction_id) {
        Some(HelixError::FileNotFound)
    } else {
        delete_err(store.files@[store.spec_file_index(transaction_id)], caller)
    }
}

/// Tombstone a file: one-way, owner-only. The update timestamp is
/// refreshed and the file counter shrinks, clamping at zero. Share
/// links against the file are not revoked by this action. On any
/// failure nothing is mutated.
pub fn delete_file(
    store: &mut RecordStore,
    caller: Pubkey,
    transaction_id: &String,
    now: i64,
) -> (r: Result<FileDeleted, HelixError>)
    requires
        old(store).wf(),
    ensures
        final(store).wf(),
        r is Ok <==> delete_file_err(*old(store), caller, transaction_id@) is None,
        r is Err ==> Some(r->Err_0) == delete_file_err(*old(store), caller, transaction_id@)
            && final(store).same_state(old(store)),
        r is Ok ==> ({
            let idx = old(store).spec_file_index(transaction_id@);
            &&& final(store).files@ == old(store).files@.update(
                idx,
                (FileRecord { is_deleted: true, updated_at: now, ..old(store).files@[idx] }),
            )
            &&& final(store).registry == (StorageRegistry {
                total_files: if old(store).registry.total_files > 0 {
                    (old(store).registry.total_files - 1) as u64
                } else {
                    0
                },
                ..old(store).registry
            })
            &&& final(store).shares@ == old(store).shares@
            &&& r->Ok_0 == (FileDeleted {
                file: old(store).files@[idx].transaction_id,
                owner: old(store).files@[idx].owner,
                timestamp: now,
            })
        }),
{
    let idx = match store.find_file(transaction_id) {
        Some(i) => i,
        None => return Err(HelixError::FileNotFound),
    };
    proof {
        store.lemma_file_index_agrees(transaction_id@, idx as int);
    }
    let event = match instructions::register_file::delete_handler(
        &mut store.registry,
        &mut store.files[idx],
        caller,
        now,
    ) {
        Ok(ev) => ev,
        Err(e) => {
            proof {
                assert(store.files@ =~= old(store).files@);
            }
            return Err(e);
        },
    };
    proof {
        lemma_wf_preserved(*old(store), *store);
    }
    Ok(event)
}

/// Outcome of creating a share against the whole store: the lookup,
/// then ownership, the tombstone guard, the expiration, cap and key
/// checks, and the two counter overflow checks.
pub open spec fn create_share_err(
    store: RecordStore,
    caller: Pubkey,
    transaction_id: Seq<char>,
    expires_at: Option<i64>,
    max_downloads: Option<u32>,
    encrypted_key: Option<Seq<char>>,
    now: i64,
) -> Option<HelixError> {
    if !store.spec_contains_file(transaction_id) {
        Some(HelixError::FileNotFound)
    } else {
        create_err(
            store.registry,
            store.files@[store.spec_file_index(transaction_id)],
            caller,
            expires_at,
            max_downloads,
            encrypted_key,
            now,
        )
    }
}

/// Create a share link against a live file. On success the link is
/// appended (its position is its sequence number), unrevoked, with no
/// downloads yet, and the file's share counter and the global share
/// counter grow by one; either overflow aborts the whole operation.
/// On any failure nothing is mutated.
pub fn create_share(
    store: &mut RecordStore,
    caller: Pubkey,
    transaction_id: &String,
    recipient: Option<Pubkey>,
    expires_at: Option<i64>,
    max_downloads: Option<u32>,
    encrypted_key: Option<String>,
    now: i64,
) -> (r: Result<ShareCreated, HelixError>)
    requires
        old(store).wf(),
    ensures
        final(store).wf(),
        r is Ok <==> create_share_err(
            *old(store),
            caller,
            transaction_id@,
            expires_at,
            max_downloads,
            encrypted_key.deep_view(),
            now,
        ) is None,
        r is Err ==> Some(r->Err_0) == create_share_err(
            *old(store),
            caller,
            transaction_id@,
            expires_at,
            max_downloads,
            encrypted_key.deep_view(),
            now,
        ) && final(store).same_state(old(store)),
        r is Ok ==> ({
            let idx = old(store).spec_file_index(transaction_id@);
            let file = old(store).files@[idx];
            &&& final(store).shares@ == old(store).shares@.push(
                (ShareLink {
                    file: file.transaction_id,
                    owner: caller,
                    recipient,
                    encrypted_key,
                    expires_at,
                    max_downloads,
                    download_count: 0,
                    is_revoked: false,
                    created_at: now,
                }),
            )
            &&& final(store).files@ == old(store).files@.update(
                idx,
                (FileRecord { share_count: (file.share_count + 1) as u32, ..file }),
            )
            &&& final(store).registry == (StorageRegistry {
                total_shares: (old(store).registry.total_shares + 1) as u64,
                ..old(store).registry
            })
            &&& r->Ok_0 == (ShareCreated {
                file: file.transaction_id,
                owner: caller,
                recipient,
                expires_at,
                timestamp: now,
            })
        }),
{
    let idx = match store.find_file(transaction_id) {
        Some(i) => i,
        None => return Err(HelixError::FileNotFound),
    };
    proof {
        store.lemma_file_index_agrees(transaction_id@, idx as int);
    }
    let (share_link, event) = match instructions::create_share::handler(
        &mut store.registry,
        &mut store.files[idx],
        caller,
        recipient,
        expires_at,
        max_downloads,
        encrypted_key,
        now,
    ) {
        Ok(p) => p,
        Err(e) => {
            proof {
                assert(store.files@ =~= old(store).files@);
            }
            return Err(e);
        },
    };
    proof {
        assert(old(store).spec_contains_file(share_link.file@));
    }
    store.shares.push(share_link);
    proof {
        lemma_wf_after_share_push(*old(store), *store, share_link);
    }
    Ok(event)
}

/// Outcome of revoking a share against the whole store: the lookup by
/// sequence number, then ownership and the one-way revocation guard.
pub open spec fn revoke_share_err(store: RecordStore, caller: Pubkey, share: int) -> Option<
    HelixError,
> {
    if !(0 <= share < store.shares@.len()) {
        Some(HelixError::InvalidShareLink)
    } else {
        revoke_err(
            store.files@[store.spec_file_index(store.shares@[share].file@)],
            store.shares@[share],
            caller,
        )
    }
}

/// Revocation is one-way: a second revocation of the same link is
/// refused with a state conflict, so the counters the first revocation
/// decremented stay untouched.
pub proof fn lemma_second_revocation_refused(store: RecordStore, caller: Pubkey, share: int)
    requires
        0 <= share < store.shares@.len(),
        store.shares@[share].is_revoked,
    ensures
        revoke_share_err(store, caller, share) is Some,
{
}

/// Revoke a share link by its sequence number: one-way, owner-only.
/// The file's share counter and the global share counter shrink,
/// both clamping at zero; the link itself remains queryable. On any
/// failure nothing is mutated.
pub fn revoke_share(store: &mut RecordStore, caller: Pubkey, share: usize, now: i64) -> (r: Result<
    ShareRevoked,
    HelixError,
>)
    requires
        old(store).wf(),
    ensures
        final(store).wf(),
        r is Ok <==> revoke_share_err(*old(store), caller, share as int) is None,
        r is Err ==> Some(r->Err_0) == revoke_share_err(*old(store), caller, share as int)
            && final(store).same_state(old(store)),
        r is Ok ==> ({
            let k = share as int;
            let idx = old(store).spec_file_index(old(store).shares@[k].file@);
            let file = old(store).files@[idx];
            &&& final(store).shares@ == old(store).shares@.update(
                k,
                (ShareLink { is_revoked: true, ..old(store).shares@[k] }),
            )
            &&& final(store).files@ == old(store).files@.update(
                idx,
                (FileRecord {
                    share_count: if file.share_count > 0 {
                        (file.share_count - 1) as u32
                    } else {
                        0
                    },
                    ..file
                }),
            )
            &&& final(store).registry == (StorageRegistry {
                total_shares: if old(store).registry.total_shares > 0 {
                    (old(store).registry.total_shares - 1) as u64
                } else {
                    0
                },
                ..old(store).registry
            })
            &&& r->Ok_0 == (ShareRevoked {
                share: share as u64,
                owner: old(store).shares@[k].owner,
                timestamp: now,
            })
        }),
{
    if share >= store.shares.len() {
        return Err(HelixError::InvalidShareLink);
    }
    let file_idx = match store.find_file(&store.shares[share].file) {
        Some(i) => i,
        None => {
            // Well-formedness guarantees the back-reference resolves.
            proof {
                assert(false);
            }
            0
        },
    };
    proof {
        store.lemma_file_index_agrees(store.shares@[share as int].file@, file_idx as int);
    }
    match instructions::create_share::revoke_handler(
        &mut store.registry,
        &mut store.files[file_idx],
        &mut store.shares[share],
        caller,
    ) {
        Err(e) => {
            proof {
                assert(store.files@ =~= old(store).files@);
                assert(store.shares@ =~= old(store).shares@);
            }
            return Err(e);
        },
        Ok(()) => {},
    }
    let owner = store.shares[share].owner;
    proof {
        lemma_wf_preserved(*old(store), *store);
    }
    Ok(ShareRevoked { share: share as u64, owner, timestamp: now })
}

/// Outcome of recording a download against the whole store: the lookup
/// by sequence number, then the revocation, expiration, cap and
/// recipient gates.
pub open spec fn record_download_err(
    store: RecordStore,
    requester: Pubkey,
    share: int,
    now: i64,
) -> Option<HelixError> {
    if !(0 <= share < store.shares@.len()) {
        Some(HelixError::InvalidShareLink)
    } else {
        download_err(store.shares@[share], requester, now)
    }
}

/// A revoked share link never admits another download: the request is
/// refused as invalid, for every requester and at every time.
pub proof fn lemma_revoked_download_refused(
    store: RecordStore,
    requester: Pubkey,
    share: int,
    now: i64,
)
    requires
        0 <= share < store.shares@.len(),
        store.shares@[share].is_revoked,
    ensures
        record_download_err(store, requester, share, now) == Some(HelixError::InvalidShareLink),
{
}

/// Record one download against a share link named by its sequence
/// number. Every gate runs before the counter advances, so a failed
/// download never changes any state.
pub fn record_download(store: &mut RecordStore, requester: Pubkey, share: usize, now: i64) -> (r:
    Result<(), HelixError>)
    requires
        old(store).wf(),
    ensures
        final(store).wf(),
        r is Ok <==> record_download_err(*old(store), requester, share as int, now) is None,
        r is Err ==> Some(r->Err_0) == record_download_err(
            *old(store),
            requester,
            share as int,
            now,
        ) && final(store).same_state(old(store)),
        r is Ok ==> ({
            let k = share as int;
            &&& final(store).shares@ == old(store).shares@.update(
                k,
                (ShareLink {
                    download_count: if old(store).shares@[k].download_count < u32::MAX {
                        (old(store).shares@[k].download_count + 1) as u32
                    } else {
                        old(store).shares@[k].download_count
                    },
                    ..old(store).shares@[k]
                }),
            )
            &&& final(store).files@ == old(store).files@
            &&& final(store).registry == old(store).registry
        }),
{
    if share >= store.shares.len() {
        return Err(HelixError::InvalidShareLink);
    }
    match instructions::create_share::record_download_handler(
        &mut store.shares[share],
        requester,
        now,
    ) {
        Err(e) => {
            proof {
                assert(store.shares@ =~= old(store).shares@);
            }
            return Err(e);
        },
        Ok(()) => {},
    }
    proof {
        lemma_wf_preserved(*old(store), *store);
    }
    Ok(())
}

} // verus!
