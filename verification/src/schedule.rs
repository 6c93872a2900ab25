use vstd::prelude::*;
use crate::error::VestingError;
use crate::state::VestingAccount;

verus! {

/// The clock skew, in seconds, that an administrative claim forgives.
pub const SKEW_TOLERANCE: i64 = 60;

/// Units released by a linear schedule after `elapsed` of `duration`:
/// everything once the duration has passed, else the floor of the
/// proportional share.
pub open spec fn linear_vested(total_amount: int, duration: int, elapsed: int) -> int {
    if elapsed >= duration {
        total_amount
    } else {
        (total_amount * elapsed) / duration
    }
}

/// `linear_vested` as 64-bit arithmetic computes it: `None` where the
/// product `total_amount * elapsed` does not fit in 64 bits.
pub open spec fn spec_vested_amount(total_amount: u64, duration: i64, elapsed: int) -> Option<u64> {
    if elapsed < duration && total_amount * elapsed > u64::MAX {
        None
    } else {
        Some(linear_vested(total_amount as int, duration as int, elapsed) as u64)
    }
}

/// Time passed since the schedule's origin; negative before it.
pub fn elapsed_since(start_time: i64, now: i64) -> (e: i128)
    ensures
        e == now - start_time,
{
    now as i128 - start_time as i128
}

/// The linear schedule never releases less than nothing nor more than the
/// grant.
pub proof fn lemma_vested_bounds(total_amount: int, duration: int, elapsed: int)
    requires
        0 <= total_amount,
        0 < duration,
        0 <= elapsed,
    ensures
        0 <= linear_vested(total_amount, duration, elapsed) <= total_amount,
{
    if elapsed < duration {
        assert(0 <= (total_amount * elapsed) / duration <= total_amount) by (nonlinear_arith)
            requires
                0 <= total_amount,
                0 <= elapsed < duration,
        ;
    }
}

/// Once the whole duration has passed, exactly the grant is vested.
pub proof fn lemma_fully_vested(total_amount: u64, duration: i64, elapsed: int)
    requires
        elapsed >= duration,
    ensures
        linear_vested(total_amount as int, duration as int, elapsed) == total_amount,
        spec_vested_amount(total_amount, duration, elapsed) == Some(total_amount),
{
}

/// Later never means less: the vested amount does not decrease as time
/// passes.
pub proof fn lemma_vested_monotonic(total_amount: int, duration: int, earlier: int, later: int)
    requires
        0 <= total_amount,
        0 < duration,
        0 <= earlier <= later,
    ensures
        linear_vested(total_amount, duration, earlier) <= linear_vested(total_amount, duration, later),
{
    lemma_vested_bounds(total_amount, duration, earlier);
    if later < duration {
        assert((total_amount * earlier) / duration <= (total_amount * later) / duration)
            by (nonlinear_arith)
            requires
                0 <= total_amount,
                0 < duration,
                0 <= earlier <= later,
        ;
    }
}

/// Wherever the checked computation yields an amount at two moments, the
/// later amount is no less than the earlier, and neither exceeds the
/// grant.
pub proof fn lemma_vested_amount_monotonic(total_amount: u64, duration: i64, earlier: int, later: int)
    requires
        0 < duration,
        0 <= earlier <= later,
        spec_vested_amount(total_amount, duration, earlier) is Some,
        spec_vested_amount(total_amount, duration, later) is Some,
    ensures
        spec_vested_amount(total_amount, duration, earlier)->Some_0 <= spec_vested_amount(
            total_amount,
            duration,
            later,
        )->Some_0 <= total_amount,
{
    lemma_vested_bounds(total_amount as int, duration as int, earlier);
    lemma_vested_bounds(total_amount as int, duration as int, later);
    lemma_vested_monotonic(total_amount as int, duration as int, earlier, later);
}

/// Computes the vested amount with every step checked: `None` where the
/// intermediate product overflows.
pub fn vested_amount(total_amount: u64, duration: i64, elapsed: i128) -> (r: Option<u64>)
    requires
        0 <= elapsed,
    ensures
        r == spec_vested_amount(total_amount, duration, elapsed as int),
        r matches Some(v) ==> v <= total_amount,
{
    if elapsed >= duration as i128 {
        return Some(total_amount);
    }
    let steps: u64 = elapsed as u64;
    let span: u64 = duration as u64;
    proof {
        lemma_vested_bounds(total_amount as int, duration as int, elapsed as int);
    }
    match total_amount.checked_mul(steps) {
        None => None,
        Some(product) => Some(product / span),
    }
}

/// What a beneficiary's claim releases at `elapsed` after the origin, or
/// why it is refused. At the cliff itself nothing may be claimed yet.
pub open spec fn strict_claimable(v: VestingAccount, vault_paused: bool, elapsed: int) -> Result<u64, VestingError> {
    if !v.initialized {
        Err(VestingError::NotInitialized)
    } else if v.revoked {
        Err(VestingError::VestingRevoked)
    } else if v.paused {
        Err(VestingError::Paused)
    } else if vault_paused {
        Err(VestingError::VaultPaused)
    } else if elapsed < 0 {
        Err(VestingError::InvalidTimestamp)
    } else if elapsed <= v.cliff_period {
        Err(VestingError::CliffNotReached)
    } else {
        match spec_vested_amount(v.total_amount, v.duration, elapsed) {
            None => Err(VestingError::InvalidAmount),
            Some(vested) => if vested < v.claimed_amount {
                Err(VestingError::InvalidAmount)
            } else if vested == v.claimed_amount {
                Err(VestingError::NothingToClaim)
            } else {
                Ok((vested - v.claimed_amount) as u64)
            },
        }
    }
}

/// What a claim made by the administrator releases. A clock that runs up
/// to the tolerance behind the origin counts as the origin itself; nothing
/// to release is a success of zero.
pub open spec fn admin_claimable(v: VestingAccount, vault_paused: bool, elapsed: int) -> Result<u64, VestingError> {
    if !v.initialized {
        Err(VestingError::NotInitialized)
    } else if v.revoked {
        Err(VestingError::VestingRevoked)
    } else if v.paused {
        Err(VestingError::Paused)
    } else if vault_paused {
        Err(VestingError::VaultPaused)
    } else if elapsed <= -SKEW_TOLERANCE {
        Err(VestingError::InvalidTimestamp)
    } else {
        let counted = if elapsed < 0 { 0 } else { elapsed };
        if counted <= v.cliff_period {
            Ok(0)
        } else {
            match spec_vested_amount(v.total_amount, v.duration, counted) {
                None => Err(VestingError::InvalidAmount),
                Some(vested) => if vested < v.claimed_amount {
                    Err(VestingError::InvalidAmount)
                } else {
                    Ok((vested - v.claimed_amount) as u64)
                },
            }
        }
    }
}

/// What the read-only preview reports: zero up to and including the
/// cliff, and zero where more has been claimed than has vested.
pub open spec fn preview_claimable(v: VestingAccount, vault_paused: bool, elapsed: int) -> Result<u64, VestingError> {
    if !v.initialized {
        Err(VestingError::NotInitialized)
    } else if v.revoked {
        Err(VestingError::VestingRevoked)
    } else if v.paused {
        Err(VestingError::Paused)
    } else if vault_paused {
        Err(VestingError::VaultPaused)
    } else if elapsed < 0 {
        Err(VestingError::InvalidTimestamp)
    } else if elapsed <= v.cliff_period {
        Ok(0)
    } else {
        match spec_vested_amount(v.total_amount, v.duration, elapsed) {
            None => Err(VestingError::InvalidAmount),
            Some(vested) => if vested < v.claimed_amount {
                Ok(0)
            } else {
                Ok((vested - v.claimed_amount) as u64)
            },
        }
    }
}

/// The lifecycle gate shared by every release: the record must be live,
/// not revoked, not paused, and its vault not paused.
pub fn check_releasable(v: &VestingAccount, vault_paused: bool) -> (r: Result<(), VestingError>)
    ensures
        r == (if !v.initialized {
            Err::<(), VestingError>(VestingError::NotInitialized)
        } else if v.revoked {
            Err(VestingError::VestingRevoked)
        } else if v.paused {
            Err(VestingError::Paused)
        } else if vault_paused {
            Err(VestingError::VaultPaused)
        } else {
            Ok(())
        }),
{
    if !v.initialized {
        Err(VestingError::NotInitialized)
    } else if v.revoked {
        Err(VestingError::VestingRevoked)
    } else if v.paused {
        Err(VestingError::Paused)
    } else if vault_paused {
        Err(VestingError::VaultPaused)
    } else {
        Ok(())
    }
}

/// Computes what a beneficiary's claim at `now` releases.
pub fn compute_strict_claimable(v: &VestingAccount, vault_paused: bool, now: i64) -> (r: Result<u64, VestingError>)
    ensures
        r == strict_claimable(*v, vault_paused, now - v.start_time),
{
    match check_releasable(v, vault_paused) {
        Err(e) => { return Err(e); },
        Ok(_) => {},
    }
    let elapsed: i128 = elapsed_since(v.start_time, now);
    if elapsed < 0 {
        return Err(VestingError::InvalidTimestamp);
    }
    if elapsed <= v.cliff_period as i128 {
        return Err(VestingError::CliffNotReached);
    }
    match vested_amount(v.total_amount, v.duration, elapsed) {
        None => Err(VestingError::InvalidAmount),
        Some(vested) => {
            if vested < v.claimed_amount {
                Err(VestingError::InvalidAmount)
            } else if vested == v.claimed_amount {
                Err(VestingError::NothingToClaim)
            } else {
                Ok(vested - v.claimed_amount)
            }
        },
    }
}

/// Computes what a claim made by the administrator at `now` releases.
pub fn compute_admin_claimable(v: &VestingAccount, vault_paused: bool, now: i64) -> (r: Result<u64, VestingError>)
    ensures
        r == admin_claimable(*v, vault_paused, now - v.start_time),
{
    match check_releasable(v, vault_paused) {
        Err(e) => { return Err(e); },
        Ok(_) => {},
    }
    let elapsed: i128 = elapsed_since(v.start_time, now);
    if elapsed <= -(SKEW_TOLERANCE as i128) {
        return Err(VestingError::InvalidTimestamp);
    }
    let counted: i128 = if elapsed < 0 { 0 } else { elapsed };
    if counted <= v.cliff_period as i128 {
        return Ok(0);
    }
    match vested_amount(v.total_amount, v.duration, counted) {
        None => Err(VestingError::InvalidAmount),
        Some(vested) => {
            if vested < v.claimed_amount {
                Err(VestingError::InvalidAmount)
            } else {
                Ok(vested - v.claimed_amount)
            }
        },
    }
}

/// Computes what the preview at `now` reports.
pub fn compute_preview_claimable(v: &VestingAccount, vault_paused: bool, now: i64) -> (r: Result<u64, VestingError>)
    ensures
        r == preview_claimable(*v, vault_paused, now - v.start_time),
{
    match check_releasable(v, vault_paused) {
        Err(e) => { return Err(e); },
        Ok(_) => {},
    }
    let elapsed: i128 = elapsed_since(v.start_time, now);
    if elapsed < 0 {
        return Err(VestingError::InvalidTimestamp);
    }
    if elapsed <= v.cliff_period as i128 {
        return Ok(0);
    }
    match vested_amount(v.total_amount, v.duration, elapsed) {
        None => Err(VestingError::InvalidAmount),
        Some(vested) => {
            if vested < v.claimed_amount {
                Ok(0)
            } else {
                Ok(vested - v.claimed_amount)
            }
        },
    }
}

} // verus!
