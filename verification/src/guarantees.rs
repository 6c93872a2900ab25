use vstd::prelude::*;
use crate::accounts::{InstantUnlock, PauseOrUnpause};
use crate::error::VestingError;
use crate::schedule::{admin_claimable, preview_claimable, strict_claimable};
use crate::state::VestingAccount;
use crate::vesting_ops::{
    instant_unlock_spec, lemma_claim_stays_within_grant, revoked_record, set_paused_spec,
    with_claimed,
};

verus! {

/// One attempt to claim against a record: who makes it, when, and whether
/// the vault is paused at that moment.
pub struct ClaimAttempt {
    pub by_admin: bool,
    pub vault_paused: bool,
    pub now: i64,
}

/// The record after one claim attempt: more is claimed where the attempt
/// succeeds, nothing changes where it is refused.
pub open spec fn after_attempt(v: VestingAccount, attempt: ClaimAttempt) -> VestingAccount {
    let elapsed = attempt.now - v.start_time;
    let outcome = if attempt.by_admin {
        admin_claimable(v, attempt.vault_paused, elapsed)
    } else {
        strict_claimable(v, attempt.vault_paused, elapsed)
    };
    match outcome {
        Ok(amount) => with_claimed(v, amount),
        Err(_) => v,
    }
}

/// The record after a run of claim attempts, first to last.
pub open spec fn after_attempts(v: VestingAccount, attempts: Seq<ClaimAttempt>) -> VestingAccount
    decreases attempts.len(),
{
    if attempts.len() == 0 {
        v
    } else {
        after_attempts(after_attempt(v, attempts[0]), attempts.drop_first())
    }
}

/// One claim attempt never lowers the claimed total, never lifts it above
/// the grant, and touches nothing else.
pub proof fn lemma_attempt_is_monotonic(v: VestingAccount, attempt: ClaimAttempt)
    requires
        v.wf(),
    ensures
        after_attempt(v, attempt).wf(),
        v.claimed_amount <= after_attempt(v, attempt).claimed_amount <= v.total_amount,
        after_attempt(v, attempt) == (VestingAccount {
            claimed_amount: after_attempt(v, attempt).claimed_amount,
            ..v
        }),
{
    lemma_claim_stays_within_grant(v, attempt.vault_paused, attempt.now - v.start_time);
}

/// Over any run of claims, by the beneficiary or by the administrator,
/// the claimed total never decreases and never exceeds the grant, and the
/// grant and schedule stay as they were.
pub proof fn lemma_claims_are_monotonic(v: VestingAccount, attempts: Seq<ClaimAttempt>)
    requires
        v.wf(),
    ensures
        after_attempts(v, attempts).wf(),
        v.claimed_amount <= after_attempts(v, attempts).claimed_amount <= v.total_amount,
        after_attempts(v, attempts) == (VestingAccount {
            claimed_amount: after_attempts(v, attempts).claimed_amount,
            ..v
        }),
    decreases attempts.len(),
{
    if attempts.len() > 0 {
        lemma_attempt_is_monotonic(v, attempts[0]);
        lemma_claims_are_monotonic(after_attempt(v, attempts[0]), attempts.drop_first());
    }
}

/// Revocation freezes the grant at what had been claimed, and from then
/// on every claim and every preview against the live record is refused as
/// revoked, whenever it is made.
pub proof fn lemma_revocation_is_final(v: VestingAccount, vault_paused: bool, elapsed: int)
    requires
        v.initialized,
    ensures
        v.wf() ==> revoked_record(v).wf(),
        revoked_record(v).total_amount == v.claimed_amount,
        revoked_record(v).claimed_amount == v.claimed_amount,
        strict_claimable(revoked_record(v), vault_paused, elapsed) == Err::<u64, VestingError>(
            VestingError::VestingRevoked,
        ),
        admin_claimable(revoked_record(v), vault_paused, elapsed) == Err::<u64, VestingError>(
            VestingError::VestingRevoked,
        ),
        preview_claimable(revoked_record(v), vault_paused, elapsed) == Err::<u64, VestingError>(
            VestingError::VestingRevoked,
        ),
{
}

/// An instant unlock leaves the whole grant claimed in one step, and a
/// second one right after it is refused because nothing remains.
pub proof fn lemma_instant_unlock_only_once(ctx: InstantUnlock)
    requires
        ctx.vesting_account.claimed_amount <= ctx.vesting_account.total_amount,
        instant_unlock_spec(ctx) is Ok,
    ensures
        instant_unlock_spec(ctx)->Ok_0.0.vesting_account.claimed_amount == ctx.vesting_account.total_amount,
        instant_unlock_spec(ctx)->Ok_0.0.vesting_account.total_amount == ctx.vesting_account.total_amount,
        instant_unlock_spec(ctx)->Ok_0.1.amount == ctx.vesting_account.total_amount
            - ctx.vesting_account.claimed_amount,
        instant_unlock_spec(ctx)->Ok_0.1.amount > 0,
        instant_unlock_spec(instant_unlock_spec(ctx)->Ok_0.0) == Err::<
            (InstantUnlock, crate::events::InstantUnlockEvent),
            VestingError,
        >(VestingError::NothingToClaim),
{
}

/// Up to and including the cliff a releasable record previews as zero
/// while a beneficiary's claim is refused; past the cliff the preview
/// shows exactly what a claim would release, whenever that is more than
/// nothing.
pub proof fn lemma_preview_and_claim_part_at_the_cliff(v: VestingAccount, vault_paused: bool, elapsed: int)
    requires
        v.initialized,
        !v.revoked,
        !v.paused,
        !vault_paused,
        0 <= elapsed,
    ensures
        elapsed <= v.cliff_period ==> preview_claimable(v, vault_paused, elapsed) == Ok::<u64, VestingError>(0)
            && strict_claimable(v, vault_paused, elapsed) == Err::<u64, VestingError>(
            VestingError::CliffNotReached,
        ),
        elapsed > v.cliff_period ==> (strict_claimable(v, vault_paused, elapsed) matches Ok(amount)
            ==> preview_claimable(v, vault_paused, elapsed) == Ok::<u64, VestingError>(amount)),
        elapsed > v.cliff_period ==> (preview_claimable(v, vault_paused, elapsed) matches Ok(amount) ==> amount
            == 0 || strict_claimable(v, vault_paused, elapsed) == Ok::<u64, VestingError>(amount)),
{
}

/// Pausing a record and resuming it leaves an unpaused record exactly as
/// it was: the schedule does not shift and nothing is claimed meanwhile.
pub proof fn lemma_pause_then_unpause_changes_nothing(ctx: PauseOrUnpause)
    requires
        !ctx.vesting_account.paused,
        set_paused_spec(ctx, true) is Ok,
    ensures
        set_paused_spec(set_paused_spec(ctx, true)->Ok_0, false) == Ok::<PauseOrUnpause, VestingError>(ctx),
        set_paused_spec(ctx, true)->Ok_0.vesting_account == (VestingAccount {
            paused: true,
            ..ctx.vesting_account
        }),
{
}

} // verus!
