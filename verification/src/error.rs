use vstd::prelude::*;

verus! {

/// Every way an operation of the ledger can be refused.
#[derive(Clone, Copy, Debug, PartialEq, Eq, Structural)]
pub enum VestingError {
    CliffNotReached,
    NothingToClaim,
    NotInitialized,
    Paused,
    VaultPaused,
    NotEnoughAccounts,
    AlreadyInitialized,
    InvalidAccountOwner,
    Unauthorized,
    InvalidTimestamp,
    InvalidDuration,
    InvalidCliffPeriod,
    InvalidAmount,
    TooManyAccounts,
    VaultNotInitialized,
    VestingRevoked,
    InvalidAccount,
    NotRevoked,
    InvalidAccountCount,
}

impl VestingError {
    /// The text shown to a caller for this error.
    pub open spec fn spec_message(self) -> Seq<char> {
        match self {
            VestingError::CliffNotReached => "Cliff period not yet reached."@,
            VestingError::NothingToClaim => "No tokens available to claim."@,
            VestingError::NotInitialized => "Vesting not initialized."@,
            VestingError::Paused => "Vesting is currently paused."@,
            VestingError::VaultPaused => "Vault is currently paused."@,
            VestingError::NotEnoughAccounts => "Too few vesting accounts provided."@,
            VestingError::AlreadyInitialized => "Vesting already initialized."@,
            VestingError::InvalidAccountOwner => "Invalid account owner."@,
            VestingError::Unauthorized => "Unauthorized admin."@,
            VestingError::InvalidTimestamp => "Invalid timestamp: current time is before start time."@,
            VestingError::InvalidDuration => "Duration must be positive."@,
            VestingError::InvalidCliffPeriod => "Cliff period must be non-negative and less than or equal to duration."@,
            VestingError::InvalidAmount => "Total amount must be positive."@,
            VestingError::TooManyAccounts => "Too many accounts to process in one transaction."@,
            VestingError::VaultNotInitialized => "Vault not initialized."@,
            VestingError::VestingRevoked => "Vesting account has been revoked."@,
            VestingError::InvalidAccount => "Invalid vesting account PDA."@,
            VestingError::NotRevoked => "Vesting account is not revoked."@,
            VestingError::InvalidAccountCount => "Invalid number of accounts provided."@,
        }
    }

    /// The text shown to a caller for this error.
    pub fn message(self) -> (m: &'static str)
        ensures
            m@ == self.spec_message(),
    {
        match self {
            VestingError::CliffNotReached => "Cliff period not yet reached.",
            VestingError::NothingToClaim => "No tokens available to claim.",
            VestingError::NotInitialized => "Vesting not initialized.",
            VestingError::Paused => "Vesting is currently paused.",
            VestingError::VaultPaused => "Vault is currently paused.",
            VestingError::NotEnoughAccounts => "Too few vesting accounts provided.",
            VestingError::AlreadyInitialized => "Vesting already initialized.",
            VestingError::InvalidAccountOwner => "Invalid account owner.",
            VestingError::Unauthorized => "Unauthorized admin.",
            VestingError::InvalidTimestamp => "Invalid timestamp: current time is before start time.",
            VestingError::InvalidDuration => "Duration must be positive.",
            VestingError::InvalidCliffPeriod => "Cliff period must be non-negative and less than or equal to duration.",
            VestingError::InvalidAmount => "Total amount must be positive.",
            VestingError::TooManyAccounts => "Too many accounts to process in one transaction.",
            VestingError::VaultNotInitialized => "Vault not initialized.",
            VestingError::VestingRevoked => "Vesting account has been revoked.",
            VestingError::InvalidAccount => "Invalid vesting account PDA.",
            VestingError::NotRevoked => "Vesting account is not revoked.",
            VestingError::InvalidAccountCount => "Invalid number of accounts provided.",
        }
    }
}

} // verus!
