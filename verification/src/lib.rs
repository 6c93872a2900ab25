//! Custodial vesting ledger: linear release schedules with a cliff, a
//! single administrator per vault, and atomic batch provisioning of
//! vesting records at program-derived addresses.

pub mod accounts;
pub mod address;
pub mod batch;
pub mod error;
pub mod events;
pub mod guarantees;
pub mod layout;
pub mod schedule;
pub mod state;
pub mod vault_ops;
pub mod vesting_ops;

pub use accounts::{
    AccountSlot, AdminClaim, BatchInitializeVesting, Claim, EmergencyRecover, FundVaultExisting,
    GetClaimable, InitializeVault, InitializeVesting, InstantUnlock, PauseOrUnpause, PauseVault,
    ReinitializeVesting, RevokeVesting, UpdateAdmin,
};
pub use address::{expected_vesting_address, program_address, system_owner, vesting_address, Address};
pub use batch::{
    batch_initialize_vesting, batch_initialize_vesting_v2, check_pairing, create_paired_record,
    process_single_vesting_account, same_mint_throughout, store_record, MAX_BATCH,
};
pub use error::VestingError;
pub use events::{
    BatchInitializeVestingEvent, ClaimEvent, EmergencyRecoverEvent, FundVaultExistingEvent,
    InstantUnlockEvent, PauseEvent, PauseVaultEvent, RevokeVestingEvent, UnpauseEvent,
    UnpauseVaultEvent, UpdateAdminEvent, VaultInitializedEvent, VestingInitializedEvent,
    VestingReinitializedEvent,
};
pub use guarantees::ClaimAttempt;
pub use layout::{decode_vault, decode_vesting_account, encode_vault, encode_vesting_account};
pub use schedule::{
    compute_admin_claimable, compute_preview_claimable, compute_strict_claimable, elapsed_since,
    vested_amount, SKEW_TOLERANCE,
};
pub use state::{validate_schedule, BatchVestingArgs, Vault, VestingAccount};
pub use vault_ops::{
    emergency_recover, fund_vault_existing, initialize_vault, pause_vault, unpause_vault,
    update_admin,
};
pub use vesting_ops::{
    admin_claim, claim, get_claimable, initialize_vesting, instant_unlock, pause,
    reinitialize_vesting, revoke_vesting, unpause,
};
