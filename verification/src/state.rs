use vstd::prelude::*;
use crate::address::Address;
use crate::error::VestingError;

verus! {

/// The custody record of one asset type: who administers it and whether
/// releases are suspended for every vesting record under it.
#[derive(Clone, Copy, Debug, PartialEq, Eq)]
pub struct Vault {
    pub bump: u8,
    pub admin: Address,
    pub paused: bool,
    pub initialized: bool,
}

impl Vault {
    /// Stored size in bytes: bump, admin, paused, initialized.
    pub const LEN: usize = 1 + 32 + 1 + 1;

    /// Whether `caller` is this vault's administrator.
    pub fn is_admin(&self, caller: &Address) -> (r: bool)
        ensures
            r == (caller@ == self.admin@),
    {
        caller.same_as(&self.admin)
    }
}

/// The release schedule and running total of one beneficiary for one asset.
#[derive(Clone, Copy, Debug, PartialEq, Eq)]
pub struct VestingAccount {
    pub beneficiary: Address,
    pub mint: Address,
    pub start_time: i64,
    pub cliff_period: i64,
    pub duration: i64,
    pub total_amount: u64,
    pub claimed_amount: u64,
    pub paused: bool,
    pub initialized: bool,
    pub revoked: bool,
    pub bump: u8,
}

impl VestingAccount {
    /// Stored size in bytes: two identities, five 8-byte numbers, three
    /// flags and the bump.
    pub const LEN: usize = 32 + 32 + 8 + 8 + 8 + 8 + 8 + 1 + 1 + 1 + 1;

    /// What holds of every record between operations: never more claimed
    /// than granted, and a live record has a positive duration with its
    /// cliff inside it.
    pub open spec fn wf(self) -> bool {
        &&& self.claimed_amount <= self.total_amount
        &&& self.initialized ==> self.duration > 0 && 0 <= self.cliff_period <= self.duration
    }

    /// Decides `wf` at run time, for records read from storage.
    pub fn is_well_formed(&self) -> (r: bool)
        ensures
            r == self.wf(),
    {
        self.claimed_amount <= self.total_amount && (!self.initialized || (self.duration > 0
            && 0 <= self.cliff_period && self.cliff_period <= self.duration))
    }

    /// A record as it stands right after it has been granted.
    pub open spec fn spec_fresh(
        beneficiary: Address,
        mint: Address,
        start_time: i64,
        cliff_period: i64,
        duration: i64,
        total_amount: u64,
        bump: u8,
    ) -> VestingAccount {
        VestingAccount {
            beneficiary,
            mint,
            start_time,
            cliff_period,
            duration,
            total_amount,
            claimed_amount: 0,
            paused: false,
            initialized: true,
            revoked: false,
            bump,
        }
    }

    /// Builds a record as it stands right after it has been granted.
    pub fn fresh(
        beneficiary: Address,
        mint: Address,
        start_time: i64,
        cliff_period: i64,
        duration: i64,
        total_amount: u64,
        bump: u8,
    ) -> (v: VestingAccount)
        ensures
            v == Self::spec_fresh(beneficiary, mint, start_time, cliff_period, duration, total_amount, bump),
    {
        VestingAccount {
            beneficiary,
            mint,
            start_time,
            cliff_period,
            duration,
            total_amount,
            claimed_amount: 0,
            paused: false,
            initialized: true,
            revoked: false,
            bump,
        }
    }
}

/// One grant of a batch: who receives, of which asset, on what schedule.
#[derive(Clone, Copy, Debug, PartialEq, Eq)]
pub struct BatchVestingArgs {
    pub beneficiary: Address,
    pub mint: Address,
    pub start_time: i64,
    pub cliff_period: i64,
    pub duration: i64,
    pub total_amount: u64,
}

/// The first rule a schedule breaks, if any: the duration must be
/// positive, the cliff must lie in `0..=duration`, the amount must be
/// positive.
pub open spec fn schedule_check(cliff_period: i64, duration: i64, total_amount: u64) -> Result<(), VestingError> {
    if duration <= 0 {
        Err(VestingError::InvalidDuration)
    } else if cliff_period < 0 || cliff_period > duration {
        Err(VestingError::InvalidCliffPeriod)
    } else if total_amount == 0 {
        Err(VestingError::InvalidAmount)
    } else {
        Ok(())
    }
}

/// Checks a schedule's parameters, reporting the first rule broken.
pub fn validate_schedule(cliff_period: i64, duration: i64, total_amount: u64) -> (r: Result<(), VestingError>)
    ensures
        r == schedule_check(cliff_period, duration, total_amount),
{
    if duration <= 0 {
        Err(VestingError::InvalidDuration)
    } else if cliff_period < 0 || cliff_period > duration {
        Err(VestingError::InvalidCliffPeriod)
    } else if total_amount == 0 {
        Err(VestingError::InvalidAmount)
    } else {
        Ok(())
    }
}

/// A freshly granted record with a valid schedule is well formed.
pub proof fn lemma_fresh_is_well_formed(
    beneficiary: Address,
    mint: Address,
    start_time: i64,
    cliff_period: i64,
    duration: i64,
    total_amount: u64,
    bump: u8,
)
    requires
        schedule_check(cliff_period, duration, total_amount) is Ok,
    ensures
        VestingAccount::spec_fresh(beneficiary, mint, start_time, cliff_period, duration, total_amount, bump).wf(),
{
}

} // verus!
