use vstd::prelude::*;
use crate::error::HelixError;
use crate::state::{Pubkey, StorageRegistry};

verus! {

/// The administrative gate: only the current authority may configure
/// the registry.
pub open spec fn is_authority(registry: StorageRegistry, caller: Pubkey) -> bool {
    caller == registry.authority
}

/// Create the singleton registry: both counters at zero, registration
/// not paused, the given identity in charge.
pub fn handler(authority: Pubkey, base_fee_lamports: u64) -> (registry: StorageRegistry)
    ensures
        registry == (StorageRegistry {
            authority,
            base_fee_lamports,
            total_files: 0,
            total_shares: 0,
            is_paused: false,
        }),
{
    StorageRegistry {
        authority,
        base_fee_lamports,
        total_files: 0,
        total_shares: 0,
        is_paused: false,
    }
}

/// Overwrite the base fee. Restricted to the current authority.
pub fn update_fee_handler(registry: &mut StorageRegistry, caller: Pubkey, new_fee: u64) -> (r:
    Result<(), HelixError>)
    ensures
        r is Ok <==> is_authority(*old(registry), caller),
        r is Ok ==> *final(registry) == (StorageRegistry {
            base_fee_lamports: new_fee,
            ..*old(registry)
        }),
        r is Err ==> *final(registry) == *old(registry) && r->Err_0
            == HelixError::UnauthorizedAuthority,
{
    if caller != registry.authority {
        return Err(HelixError::UnauthorizedAuthority);
    }
    registry.base_fee_lamports = new_fee;
    Ok(())
}

/// Set or clear the registration pause gate. Restricted to the current
/// authority; affects file registration only.
pub fn set_paused_handler(registry: &mut StorageRegistry, caller: Pubkey, paused: bool) -> (r:
    Result<(), HelixError>)
    ensures
        r is Ok <==> is_authority(*old(registry), caller),
        r is Ok ==> *final(registry) == (StorageRegistry { is_paused: paused, ..*old(registry) }),
        r is Err ==> *final(registry) == *old(registry) && r->Err_0
            == HelixError::UnauthorizedAuthority,
{
    if caller != registry.authority {
        return Err(HelixError::UnauthorizedAuthority);
    }
    registry.is_paused = paused;
    Ok(())
}

/// Hand the registry over to a new authority. Restricted to the current
/// authority; the former authority loses all administrative rights at
/// once.
pub fn transfer_authority_handler(
    registry: &mut StorageRegistry,
    caller: Pubkey,
    new_authority: Pubkey,
) -> (r: Result<(), HelixError>)
    ensures
        r is Ok <==> is_authority(*old(registry), caller),
        r is Ok ==> *final(registry) == (StorageRegistry {
            authority: new_authority,
            ..*old(registry)
        }),
        r is Err ==> *final(registry) == *old(registry) && r->Err_0
            == HelixError::UnauthorizedAuthority,
{
    if caller != registry.authority {
        return Err(HelixError::UnauthorizedAuthority);
    }
    registry.authority = new_authority;
    Ok(())
}

/// An authority transfer is exclusive: as soon as the registry names the
/// new authority, the former identity fails the administrative gate and
/// the new one passes it.
pub proof fn lemma_transfer_excludes_former_authority(
    before: StorageRegistry,
    after: StorageRegistry,
    former: Pubkey,
    new_authority: Pubkey,
)
    requires
        after == (StorageRegistry { authority: new_authority, ..before }),
        former != new_authority,
    ensures
        !is_authority(after, former),
        is_authority(after, new_authority),
{
}

} // verus!
