use vstd::prelude::*;
use crate::address::Address;

verus! {

/// Units were released from a vesting record to its beneficiary.
#[derive(Clone, Copy, Debug, PartialEq, Eq)]
pub struct ClaimEvent {
    pub vesting_account: Address,
    pub beneficiary: Address,
    pub amount: u64,
    pub mint: Address,
}

#[derive(Clone, Copy, Debug, PartialEq, Eq)]
pub struct PauseEvent {
    pub vesting_account: Address,
    pub admin: Address,
    pub mint: Address,
}

#[derive(Clone, Copy, Debug, PartialEq, Eq)]
pub struct UnpauseEvent {
    pub vesting_account: Address,
    pub admin: Address,
    pub mint: Address,
}

#[derive(Clone, Copy, Debug, PartialEq, Eq)]
pub struct RevokeVestingEvent {
    pub vesting_account: Address,
    pub admin: Address,
    pub remaining_amount: u64,
    pub mint: Address,
}

#[derive(Clone, Copy, Debug, PartialEq, Eq)]
pub struct InstantUnlockEvent {
    pub vesting_account: Address,
    pub beneficiary: Address,
    pub admin: Address,
    pub amount: u64,
    pub mint: Address,
}

#[derive(Clone, Copy, Debug, PartialEq, Eq)]
pub struct EmergencyRecoverEvent {
    pub vault: Address,
    pub admin: Address,
    pub amount: u64,
    pub mint: Address,
}

#[derive(Clone, Copy, Debug, PartialEq, Eq)]
pub struct FundVaultExistingEvent {
    pub vault: Address,
    pub admin: Address,
    pub amount: u64,
    pub mint: Address,
}

#[derive(Clone, Copy, Debug, PartialEq, Eq)]
pub struct UpdateAdminEvent {
    pub vault: Address,
    pub old_admin: Address,
    pub new_admin: Address,
    pub mint: Address,
}

#[derive(Clone, Copy, Debug, PartialEq, Eq)]
pub struct PauseVaultEvent {
    pub vault: Address,
    pub admin: Address,
    pub mint: Address,
}

#[derive(Clone, Copy, Debug, PartialEq, Eq)]
pub struct UnpauseVaultEvent {
    pub vault: Address,
    pub admin: Address,
    pub mint: Address,
}

/// One record of a batch was created.
#[derive(Clone, Copy, Debug, PartialEq, Eq)]
pub struct BatchInitializeVestingEvent {
    pub vault: Address,
    pub admin: Address,
    pub num_accounts: u64,
    pub vesting_account: Address,
    pub mint: Address,
}

#[derive(Clone, Copy, Debug, PartialEq, Eq)]
pub struct VaultInitializedEvent {
    pub vault: Address,
    pub admin: Address,
    pub mint: Address,
}

#[derive(Clone, Copy, Debug, PartialEq, Eq)]
pub struct VestingInitializedEvent {
    pub vesting_account: Address,
    pub beneficiary: Address,
    pub mint: Address,
    pub total_amount: u64,
}

#[derive(Clone, Copy, Debug, PartialEq, Eq)]
pub struct VestingReinitializedEvent {
    pub vesting_account: Address,
    pub beneficiary: Address,
    pub mint: Address,
    pub total_amount: u64,
}

} // verus!
