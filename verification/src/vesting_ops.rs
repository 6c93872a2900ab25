use vstd::prelude::*;
use crate::accounts::{
    AdminClaim, Claim, GetClaimable, InitializeVesting, InstantUnlock, PauseOrUnpause,
    ReinitializeVesting, RevokeVesting,
};
use crate::error::VestingError;
use crate::events::{
    ClaimEvent, InstantUnlockEvent, PauseEvent, RevokeVestingEvent, UnpauseEvent,
    VestingInitializedEvent, VestingReinitializedEvent,
};
use crate::schedule::{
    admin_claimable, check_releasable, compute_admin_claimable, compute_preview_claimable,
    compute_strict_claimable, preview_claimable, strict_claimable,
};
use crate::state::{schedule_check, validate_schedule, VestingAccount};

verus! {

/// The record granted and the notice of it, or the first reason for
/// refusal: caller not the administrator, vault not set up, a schedule
/// rule broken, or the address already taken.
pub open spec fn initialize_vesting_spec(
    ctx: InitializeVesting,
    start_time: i64,
    cliff_period: i64,
    duration: i64,
    total_amount: u64,
) -> Result<(InitializeVesting, VestingInitializedEvent), VestingError> {
    if ctx.admin@ != ctx.vault.admin@ {
        Err(VestingError::Unauthorized)
    } else if !ctx.vault.initialized {
        Err(VestingError::VaultNotInitialized)
    } else if schedule_check(cliff_period, duration, total_amount) is Err {
        Err(schedule_check(cliff_period, duration, total_amount)->Err_0)
    } else if ctx.vesting_account.initialized {
        Err(VestingError::AlreadyInitialized)
    } else {
        Ok(
            (
                InitializeVesting {
                    vesting_account: VestingAccount::spec_fresh(
                        ctx.beneficiary,
                        ctx.mint,
                        start_time,
                        cliff_period,
                        duration,
                        total_amount,
                        ctx.bump,
                    ),
                    ..ctx
                },
                VestingInitializedEvent {
                    vesting_account: ctx.vesting_account_key,
                    beneficiary: ctx.beneficiary,
                    mint: ctx.mint,
                    total_amount,
                },
            ),
        )
    }
}

/// Grants one vesting record with a linear schedule.
pub fn initialize_vesting(
    ctx: &mut InitializeVesting,
    start_time: i64,
    cliff_period: i64,
    duration: i64,
    total_amount: u64,
) -> (r: Result<VestingInitializedEvent, VestingError>)
    ensures
        match initialize_vesting_spec(*old(ctx), start_time, cliff_period, duration, total_amount) {
            Ok(done) => r == Ok::<VestingInitializedEvent, VestingError>(done.1) && *final(ctx) == done.0
                && final(ctx).vesting_account.wf(),
            Err(e) => r == Err::<VestingInitializedEvent, VestingError>(e) && *final(ctx) == *old(ctx),
        },
{
    if !ctx.vault.is_admin(&ctx.admin) {
        return Err(VestingError::Unauthorized);
    }
    if !ctx.vault.initialized {
        return Err(VestingError::VaultNotInitialized);
    }
    match validate_schedule(cliff_period, duration, total_amount) {
        Err(e) => { return Err(e); },
        Ok(_) => {},
    }
    if ctx.vesting_account.initialized {
        return Err(VestingError::AlreadyInitialized);
    }
    ctx.vesting_account = VestingAccount::fresh(
        ctx.beneficiary,
        ctx.mint,
        start_time,
        cliff_period,
        duration,
        total_amount,
        ctx.bump,
    );
    Ok(
        VestingInitializedEvent {
            vesting_account: ctx.vesting_account_key,
            beneficiary: ctx.beneficiary,
            mint: ctx.mint,
            total_amount,
        },
    )
}

/// The record with `amount` more claimed.
pub open spec fn with_claimed(v: VestingAccount, amount: u64) -> VestingAccount {
    VestingAccount { claimed_amount: (v.claimed_amount + amount) as u64, ..v }
}

/// A beneficiary's claim at `now`: the record afterwards and the release
/// to make, or why the claim is refused. Only the beneficiary may claim.
pub open spec fn claim_spec(ctx: Claim, now: i64) -> Result<(Claim, ClaimEvent), VestingError> {
    if ctx.beneficiary@ != ctx.vesting_account.beneficiary@ {
        Err(VestingError::Unauthorized)
    } else {
        match strict_claimable(ctx.vesting_account, ctx.vault.paused, now - ctx.vesting_account.start_time) {
            Err(e) => Err(e),
            Ok(amount) => Ok(
                (
                    Claim { vesting_account: with_claimed(ctx.vesting_account, amount), ..ctx },
                    ClaimEvent {
                        vesting_account: ctx.vesting_account_key,
                        beneficiary: ctx.beneficiary,
                        amount,
                        mint: ctx.mint,
                    },
                ),
            ),
        }
    }
}

/// Releases to the beneficiary what has vested and is not yet claimed.
/// The amount to move out of custody is the event's.
pub fn claim(ctx: &mut Claim, now: i64) -> (r: Result<ClaimEvent, VestingError>)
    ensures
        match claim_spec(*old(ctx), now) {
            Ok(done) => r == Ok::<ClaimEvent, VestingError>(done.1) && *final(ctx) == done.0,
            Err(e) => r == Err::<ClaimEvent, VestingError>(e) && *final(ctx) == *old(ctx),
        },
        r is Ok ==> old(ctx).vesting_account.claimed_amount < final(ctx).vesting_account.claimed_amount
            <= final(ctx).vesting_account.total_amount,
        old(ctx).vesting_account.wf() ==> final(ctx).vesting_account.wf(),
{
    if !ctx.beneficiary.same_as(&ctx.vesting_account.beneficiary) {
        return Err(VestingError::Unauthorized);
    }
    let amount: u64 = match compute_strict_claimable(&ctx.vesting_account, ctx.vault.paused, now) {
        Err(e) => { return Err(e); },
        Ok(amount) => amount,
    };
    proof {
        lemma_claim_stays_within_grant(ctx.vesting_account, ctx.vault.paused, now - ctx.vesting_account.start_time);
    }
    ctx.vesting_account.claimed_amount = ctx.vesting_account.claimed_amount + amount;
    Ok(
        ClaimEvent {
            vesting_account: ctx.vesting_account_key,
            beneficiary: ctx.beneficiary,
            amount,
            mint: ctx.mint,
        },
    )
}

/// Whatever either claim path releases, the running total afterwards is
/// no more than the grant.
pub proof fn lemma_claim_stays_within_grant(v: VestingAccount, vault_paused: bool, elapsed: int)
    ensures
        strict_claimable(v, vault_paused, elapsed) matches Ok(amount) ==> 0 < amount && v.claimed_amount
            + amount <= v.total_amount,
        admin_claimable(v, vault_paused, elapsed) matches Ok(amount) ==> v.claimed_amount + amount
            <= v.total_amount || amount == 0,
        preview_claimable(v, vault_paused, elapsed) matches Ok(amount) ==> v.claimed_amount + amount
            <= v.total_amount || amount == 0,
{
    let counted = if elapsed < 0 { 0 } else { elapsed };
    if counted < v.duration {
        crate::schedule::lemma_vested_bounds(v.total_amount as int, v.duration as int, counted);
    }
}

/// The administrator's claim at `now`: the record afterwards and the
/// release to make, `None` where nothing is due.
pub open spec fn admin_claim_spec(ctx: AdminClaim, now: i64) -> Result<(AdminClaim, Option<ClaimEvent>), VestingError> {
    if ctx.admin@ != ctx.vault.admin@ {
        Err(VestingError::Unauthorized)
    } else {
        match admin_claimable(ctx.vesting_account, ctx.vault.paused, now - ctx.vesting_account.start_time) {
            Err(e) => Err(e),
            Ok(amount) => if amount == 0 {
                Ok((ctx, None))
            } else {
                Ok(
                    (
                        AdminClaim { vesting_account: with_claimed(ctx.vesting_account, amount), ..ctx },
                        Some(
                            ClaimEvent {
                                vesting_account: ctx.vesting_account_key,
                                beneficiary: ctx.vesting_account.beneficiary,
                                amount,
                                mint: ctx.mint,
                            },
                        ),
                    ),
                )
            },
        }
    }
}

/// Releases on the beneficiary's behalf what has vested, forgiving a
/// clock that runs slightly behind the origin. With nothing due it
/// succeeds, changes nothing and asks for no release.
pub fn admin_claim(ctx: &mut AdminClaim, now: i64) -> (r: Result<Option<ClaimEvent>, VestingError>)
    ensures
        match admin_claim_spec(*old(ctx), now) {
            Ok(done) => r == Ok::<Option<ClaimEvent>, VestingError>(done.1) && *final(ctx) == done.0,
            Err(e) => r == Err::<Option<ClaimEvent>, VestingError>(e) && *final(ctx) == *old(ctx),
        },
        r is Ok ==> old(ctx).vesting_account.claimed_amount <= final(ctx).vesting_account.claimed_amount
            <= final(ctx).vesting_account.total_amount || *final(ctx) == *old(ctx),
        old(ctx).vesting_account.wf() ==> final(ctx).vesting_account.wf(),
{
    if !ctx.vault.is_admin(&ctx.admin) {
        return Err(VestingError::Unauthorized);
    }
    let amount: u64 = match compute_admin_claimable(&ctx.vesting_account, ctx.vault.paused, now) {
        Err(e) => { return Err(e); },
        Ok(amount) => amount,
    };
    if amount == 0 {
        return Ok(None);
    }
    proof {
        lemma_claim_stays_within_grant(ctx.vesting_account, ctx.vault.paused, now - ctx.vesting_account.start_time);
    }
    ctx.vesting_account.claimed_amount = ctx.vesting_account.claimed_amount + amount;
    Ok(
        Some(
            ClaimEvent {
                vesting_account: ctx.vesting_account_key,
                beneficiary: ctx.vesting_account.beneficiary,
                amount,
                mint: ctx.mint,
            },
        ),
    )
}

/// Reports what a claim at `now` could release, changing nothing.
pub fn get_claimable(ctx: &GetClaimable, now: i64) -> (r: Result<u64, VestingError>)
    ensures
        r == preview_claimable(ctx.vesting_account, ctx.vault.paused, now - ctx.vesting_account.start_time),
{
    compute_preview_claimable(&ctx.vesting_account, ctx.vault.paused, now)
}

/// The record with its pause flag set to `paused`, if the caller is the
/// vault's administrator. Neither the schedule nor the claimed total moves.
pub open spec fn set_paused_spec(ctx: PauseOrUnpause, paused: bool) -> Result<PauseOrUnpause, VestingError> {
    if ctx.admin@ != ctx.vault.admin@ {
        Err(VestingError::Unauthorized)
    } else {
        Ok(PauseOrUnpause { vesting_account: VestingAccount { paused, ..ctx.vesting_account }, ..ctx })
    }
}

/// Blocks claims against one vesting record until it is resumed.
pub fn pause(ctx: &mut PauseOrUnpause) -> (r: Result<PauseEvent, VestingError>)
    ensures
        match set_paused_spec(*old(ctx), true) {
            Ok(next) => *final(ctx) == next && r == Ok::<PauseEvent, VestingError>(
                PauseEvent {
                    vesting_account: old(ctx).vesting_account_key,
                    admin: old(ctx).admin,
                    mint: old(ctx).mint,
                },
            ),
            Err(e) => r == Err::<PauseEvent, VestingError>(e) && *final(ctx) == *old(ctx),
        },
        old(ctx).vesting_account.wf() ==> final(ctx).vesting_account.wf(),
{
    if !ctx.vault.is_admin(&ctx.admin) {
        return Err(VestingError::Unauthorized);
    }
    ctx.vesting_account.paused = true;
    Ok(PauseEvent { vesting_account: ctx.vesting_account_key, admin: ctx.admin, mint: ctx.mint })
}

/// Lets claims against one vesting record resume.
pub fn unpause(ctx: &mut PauseOrUnpause) -> (r: Result<UnpauseEvent, VestingError>)
    ensures
        match set_paused_spec(*old(ctx), false) {
            Ok(next) => *final(ctx) == next && r == Ok::<UnpauseEvent, VestingError>(
                UnpauseEvent {
                    vesting_account: old(ctx).vesting_account_key,
                    admin: old(ctx).admin,
                    mint: old(ctx).mint,
                },
            ),
            Err(e) => r == Err::<UnpauseEvent, VestingError>(e) && *final(ctx) == *old(ctx),
        },
        old(ctx).vesting_account.wf() ==> final(ctx).vesting_account.wf(),
{
    if !ctx.vault.is_admin(&ctx.admin) {
        return Err(VestingError::Unauthorized);
    }
    ctx.vesting_account.paused = false;
    Ok(UnpauseEvent { vesting_account: ctx.vesting_account_key, admin: ctx.admin, mint: ctx.mint })
}

/// A record after revocation: the grant shrinks to what was already
/// claimed and the record is marked revoked.
pub open spec fn revoked_record(v: VestingAccount) -> VestingAccount {
    VestingAccount { total_amount: v.claimed_amount, revoked: true, ..v }
}

/// Revocation by the administrator: the frozen record and the unclaimed
/// remainder to send to the recovery destination.
pub open spec fn revoke_vesting_spec(ctx: RevokeVesting) -> Result<(RevokeVesting, RevokeVestingEvent), VestingError> {
    if ctx.admin@ != ctx.vault.admin@ {
        Err(VestingError::Unauthorized)
    } else {
        Ok(
            (
                RevokeVesting { vesting_account: revoked_record(ctx.vesting_account), ..ctx },
                RevokeVestingEvent {
                    vesting_account: ctx.vesting_account_key,
                    admin: ctx.admin,
                    remaining_amount: (ctx.vesting_account.total_amount
                        - ctx.vesting_account.claimed_amount) as u64,
                    mint: ctx.mint,
                },
            ),
        )
    }
}

/// Takes back what a record has not yet released and freezes it. The
/// amount to move to the recovery destination is the event's.
pub fn revoke_vesting(ctx: &mut RevokeVesting) -> (r: Result<RevokeVestingEvent, VestingError>)
    requires
        old(ctx).vesting_account.claimed_amount <= old(ctx).vesting_account.total_amount,
    ensures
        match revoke_vesting_spec(*old(ctx)) {
            Ok(done) => r == Ok::<RevokeVestingEvent, VestingError>(done.1) && *final(ctx) == done.0,
            Err(e) => r == Err::<RevokeVestingEvent, VestingError>(e) && *final(ctx) == *old(ctx),
        },
        old(ctx).vesting_account.wf() ==> final(ctx).vesting_account.wf(),
{
    if !ctx.vault.is_admin(&ctx.admin) {
        return Err(VestingError::Unauthorized);
    }
    let remaining: u64 = ctx.vesting_account.total_amount - ctx.vesting_account.claimed_amount;
    ctx.vesting_account.total_amount = ctx.vesting_account.claimed_amount;
    ctx.vesting_account.revoked = true;
    Ok(
        RevokeVestingEvent {
            vesting_account: ctx.vesting_account_key,
            admin: ctx.admin,
            remaining_amount: remaining,
            mint: ctx.mint,
        },
    )
}

/// Instant unlock by the administrator: the record with everything
/// claimed and the remainder to send to the beneficiary. Refused unless
/// the record is live, unpaused, under an unpaused vault, and something
/// remains.
pub open spec fn instant_unlock_spec(ctx: InstantUnlock) -> Result<(InstantUnlock, InstantUnlockEvent), VestingError> {
    let v = ctx.vesting_account;
    if ctx.admin@ != ctx.vault.admin@ {
        Err(VestingError::Unauthorized)
    } else if !v.initialized {
        Err(VestingError::NotInitialized)
    } else if v.revoked {
        Err(VestingError::VestingRevoked)
    } else if v.paused {
        Err(VestingError::Paused)
    } else if ctx.vault.paused {
        Err(VestingError::VaultPaused)
    } else if v.total_amount == v.claimed_amount {
        Err(VestingError::NothingToClaim)
    } else {
        Ok(
            (
                InstantUnlock { vesting_account: VestingAccount { claimed_amount: v.total_amount, ..v }, ..ctx },
                InstantUnlockEvent {
                    vesting_account: ctx.vesting_account_key,
                    beneficiary: v.beneficiary,
                    admin: ctx.admin,
                    amount: (v.total_amount - v.claimed_amount) as u64,
                    mint: ctx.mint,
                },
            ),
        )
    }
}

/// Releases everything that remains of a record at once, whatever time
/// has passed. The amount to move to the beneficiary is the event's.
pub fn instant_unlock(ctx: &mut InstantUnlock) -> (r: Result<InstantUnlockEvent, VestingError>)
    requires
        old(ctx).vesting_account.claimed_amount <= old(ctx).vesting_account.total_amount,
    ensures
        match instant_unlock_spec(*old(ctx)) {
            Ok(done) => r == Ok::<InstantUnlockEvent, VestingError>(done.1) && *final(ctx) == done.0,
            Err(e) => r == Err::<InstantUnlockEvent, VestingError>(e) && *final(ctx) == *old(ctx),
        },
        old(ctx).vesting_account.wf() ==> final(ctx).vesting_account.wf(),
{
    if !ctx.vault.is_admin(&ctx.admin) {
        return Err(VestingError::Unauthorized);
    }
    match check_releasable(&ctx.vesting_account, ctx.vault.paused) {
        Err(e) => { return Err(e); },
        Ok(_) => {},
    }
    let remaining: u64 = ctx.vesting_account.total_amount - ctx.vesting_account.claimed_amount;
    if remaining == 0 {
        return Err(VestingError::NothingToClaim);
    }
    ctx.vesting_account.claimed_amount = ctx.vesting_account.total_amount;
    Ok(
        InstantUnlockEvent {
            vesting_account: ctx.vesting_account_key,
            beneficiary: ctx.vesting_account.beneficiary,
            admin: ctx.admin,
            amount: remaining,
            mint: ctx.mint,
        },
    )
}

/// A re-grant of a revoked record: only the administrator, only on a
/// revoked record, and only with a positive duration that holds the cliff.
/// The record starts over under the new schedule with nothing claimed.
pub open spec fn reinitialize_vesting_spec(
    ctx: ReinitializeVesting,
    start_time: i64,
    cliff_period: i64,
    duration: i64,
    total_amount: u64,
) -> Result<(ReinitializeVesting, VestingReinitializedEvent), VestingError> {
    if ctx.admin@ != ctx.vault.admin@ {
        Err(VestingError::Unauthorized)
    } else if !ctx.vesting_account.revoked {
        Err(VestingError::NotRevoked)
    } else if duration <= 0 {
        Err(VestingError::InvalidDuration)
    } else if cliff_period < 0 || cliff_period > duration {
        Err(VestingError::InvalidCliffPeriod)
    } else {
        Ok(
            (
                ReinitializeVesting {
                    vesting_account: VestingAccount::spec_fresh(
                        ctx.vesting_account.beneficiary,
                        ctx.mint,
                        start_time,
                        cliff_period,
                        duration,
                        total_amount,
                        ctx.vesting_account.bump,
                    ),
                    ..ctx
                },
                VestingReinitializedEvent {
                    vesting_account: ctx.vesting_account_key,
                    beneficiary: ctx.vesting_account.beneficiary,
                    mint: ctx.mint,
                    total_amount,
                },
            ),
        )
    }
}

/// Grants a revoked record anew at the address it already occupies.
pub fn reinitialize_vesting(
    ctx: &mut ReinitializeVesting,
    start_time: i64,
    cliff_period: i64,
    duration: i64,
    total_amount: u64,
) -> (r: Result<VestingReinitializedEvent, VestingError>)
    ensures
        match reinitialize_vesting_spec(*old(ctx), start_time, cliff_period, duration, total_amount) {
            Ok(done) => r == Ok::<VestingReinitializedEvent, VestingError>(done.1) && *final(ctx) == done.0
                && final(ctx).vesting_account.wf(),
            Err(e) => r == Err::<VestingReinitializedEvent, VestingError>(e) && *final(ctx) == *old(ctx),
        },
{
    if !ctx.vault.is_admin(&ctx.admin) {
        return Err(VestingError::Unauthorized);
    }
    if !ctx.vesting_account.revoked {
        return Err(VestingError::NotRevoked);
    }
    if duration <= 0 {
        return Err(VestingError::InvalidDuration);
    }
    if cliff_period < 0 || cliff_period > duration {
        return Err(VestingError::InvalidCliffPeriod);
    }
    ctx.vesting_account = VestingAccount::fresh(
        ctx.vesting_account.beneficiary,
        ctx.mint,
        start_time,
        cliff_period,
        duration,
        total_amount,
        ctx.vesting_account.bump,
    );
    Ok(
        VestingReinitializedEvent {
            vesting_account: ctx.vesting_account_key,
            beneficiary: ctx.vesting_account.beneficiary,
            mint: ctx.mint,
            total_amount,
        },
    )
}

} // verus!
