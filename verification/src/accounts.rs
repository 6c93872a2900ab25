use vstd::prelude::*;
use crate::address::Address;
use crate::state::{Vault, VestingAccount};

verus! {

/// What one storage slot handed to a batch holds: its address, the program
/// that owns it, and the vesting record stored there, if its contents read
/// as one.
#[derive(Clone, Copy, Debug, PartialEq, Eq)]
pub struct AccountSlot {
    pub key: Address,
    pub owner: Address,
    pub record: Option<VestingAccount>,
}

impl AccountSlot {
    /// Whether a live vesting record already occupies the slot.
    pub open spec fn spec_is_occupied(&self) -> bool {
        self.record matches Some(existing) && existing.initialized
    }

    /// Whether a live vesting record already occupies the slot.
    #[verifier::when_used_as_spec(spec_is_occupied)]
    pub fn is_occupied(&self) -> (r: bool)
        ensures
            r == self.spec_is_occupied(),
    {
        match self.record {
            Some(existing) => existing.initialized,
            None => false,
        }
    }
}

/// Creating the vault of `mint`; the payer becomes its administrator.
#[derive(Clone, Copy, Debug, PartialEq, Eq)]
pub struct InitializeVault {
    pub vault: Vault,
    pub vault_key: Address,
    pub mint: Address,
    pub payer: Address,
    pub bump: u8,
}

/// Re-granting a revoked record.
#[derive(Clone, Copy, Debug, PartialEq, Eq)]
pub struct ReinitializeVesting {
    pub vesting_account: VestingAccount,
    pub vesting_account_key: Address,
    pub vault: Vault,
    pub mint: Address,
    pub admin: Address,
}

/// Handing the administrator role to another identity.
#[derive(Clone, Copy, Debug, PartialEq, Eq)]
pub struct UpdateAdmin {
    pub vault: Vault,
    pub vault_key: Address,
    pub mint: Address,
    pub admin: Address,
}

/// Granting one vesting record at a fresh address.
#[derive(Clone, Copy, Debug, PartialEq, Eq)]
pub struct InitializeVesting {
    pub vesting_account: VestingAccount,
    pub vesting_account_key: Address,
    pub vault: Vault,
    pub mint: Address,
    pub beneficiary: Address,
    pub admin: Address,
    pub bump: u8,
}

/// A beneficiary claiming what has vested.
#[derive(Clone, Copy, Debug, PartialEq, Eq)]
pub struct Claim {
    pub vesting_account: VestingAccount,
    pub vesting_account_key: Address,
    pub vault: Vault,
    pub mint: Address,
    pub beneficiary: Address,
}

/// The administrator claiming on a beneficiary's behalf.
#[derive(Clone, Copy, Debug, PartialEq, Eq)]
pub struct AdminClaim {
    pub vesting_account: VestingAccount,
    pub vesting_account_key: Address,
    pub vault: Vault,
    pub mint: Address,
    pub admin: Address,
}

/// Previewing what could be claimed.
#[derive(Clone, Copy, Debug, PartialEq, Eq)]
pub struct GetClaimable {
    pub vesting_account: VestingAccount,
    pub vault: Vault,
}

/// Pausing or resuming one vesting record.
#[derive(Clone, Copy, Debug, PartialEq, Eq)]
pub struct PauseOrUnpause {
    pub vesting_account: VestingAccount,
    pub vesting_account_key: Address,
    pub vault: Vault,
    pub mint: Address,
    pub admin: Address,
}

/// Revoking one vesting record.
#[derive(Clone, Copy, Debug, PartialEq, Eq)]
pub struct RevokeVesting {
    pub vesting_account: VestingAccount,
    pub vesting_account_key: Address,
    pub vault: Vault,
    pub mint: Address,
    pub admin: Address,
}

/// Releasing everything that remains of one vesting record at once.
#[derive(Clone, Copy, Debug, PartialEq, Eq)]
pub struct InstantUnlock {
    pub vesting_account: VestingAccount,
    pub vesting_account_key: Address,
    pub vault: Vault,
    pub mint: Address,
    pub admin: Address,
}

/// Sweeping the vault's whole custodial balance.
#[derive(Clone, Copy, Debug, PartialEq, Eq)]
pub struct EmergencyRecover {
    pub vault: Vault,
    pub vault_key: Address,
    pub vault_balance: u64,
    pub mint: Address,
    pub admin: Address,
}

/// Granting several vesting records in one unit of work. The slots are
/// the storage locations supplied beside the grants.
#[derive(Debug, PartialEq, Eq)]
pub struct BatchInitializeVesting {
    pub vault: Vault,
    pub vault_key: Address,
    pub mint: Address,
    pub admin: Address,
    pub program_id: Address,
    pub remaining_accounts: Vec<AccountSlot>,
}

/// Pausing or resuming a whole vault.
#[derive(Clone, Copy, Debug, PartialEq, Eq)]
pub struct PauseVault {
    pub vault: Vault,
    pub vault_key: Address,
    pub mint: Address,
    pub admin: Address,
}

/// Moving funds from a source the payer owns into custody.
#[derive(Clone, Copy, Debug, PartialEq, Eq)]
pub struct FundVaultExisting {
    pub vault: Vault,
    pub vault_key: Address,
    pub source_owner: Address,
    pub mint: Address,
    pub admin: Address,
    pub payer: Address,
}

} // verus!
