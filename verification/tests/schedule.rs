use shorthusk_vesting::{
    admin_claim, claim, compute_admin_claimable, compute_preview_claimable,
    compute_strict_claimable, elapsed_since, get_claimable, revoke_vesting, validate_schedule,
    vested_amount, Address, AdminClaim, Claim, ClaimEvent, GetClaimable, RevokeVesting,
    Vault, VestingAccount, VestingError, SKEW_TOLERANCE,
};

fn key(n: u8) -> Address {
    Address::new([n; 32])
}

fn vault() -> Vault {
    Vault { bump: 254, admin: key(1), paused: false, initialized: true }
}

fn record() -> VestingAccount {
    VestingAccount::fresh(key(2), key(3), 0, 100, 1000, 1000, 253)
}

fn claim_ctx(v: VestingAccount) -> Claim {
    Claim { vesting_account: v, vesting_account_key: key(4), vault: vault(), mint: key(3), beneficiary: key(2) }
}

#[test]
fn fully_vested_once_duration_has_passed() {
    assert_eq!(vested_amount(1000, 1000, 1000), Some(1000));
    assert_eq!(vested_amount(1000, 1000, 5000), Some(1000));
    assert_eq!(vested_amount(u64::MAX, 10, 10), Some(u64::MAX));
    assert_eq!(vested_amount(u64::MAX, 10, i64::MAX as i128 + 5), Some(u64::MAX));
}

#[test]
fn vested_is_the_floor_of_the_share() {
    assert_eq!(vested_amount(1000, 1000, 500), Some(500));
    assert_eq!(vested_amount(1000, 3, 1), Some(333));
    assert_eq!(vested_amount(1000, 3, 2), Some(666));
    assert_eq!(vested_amount(10, 4, 3), Some(7));
    assert_eq!(vested_amount(7, 1000, 0), Some(0));
    assert_eq!(vested_amount(1, 1000, 999), Some(0));
}

#[test]
fn vested_never_decreases_with_time() {
    let mut last = 0u64;
    for elapsed in 0..1200i128 {
        let now = vested_amount(997, 1100, elapsed).unwrap();
        assert!(now >= last);
        assert!(now <= 997);
        last = now;
    }
    assert_eq!(last, 997);
}

#[test]
fn overflowing_product_is_rejected() {
    assert_eq!(vested_amount(u64::MAX, i64::MAX, 2), None);
    assert_eq!(vested_amount(u64::MAX, i64::MAX, 1), Some(2));
    let v = VestingAccount::fresh(key(2), key(3), 0, 0, i64::MAX, u64::MAX, 1);
    assert_eq!(compute_strict_claimable(&v, false, 2), Err(VestingError::InvalidAmount));
    assert_eq!(compute_admin_claimable(&v, false, 2), Err(VestingError::InvalidAmount));
    assert_eq!(compute_preview_claimable(&v, false, 2), Err(VestingError::InvalidAmount));
}

#[test]
fn elapsed_is_exact_at_the_extremes() {
    assert_eq!(elapsed_since(0, 500), 500);
    assert_eq!(elapsed_since(500, 0), -500);
    assert_eq!(elapsed_since(i64::MIN, i64::MAX), u64::MAX as i128);
    assert_eq!(elapsed_since(i64::MAX, i64::MIN), -(u64::MAX as i128));
}

#[test]
fn claim_far_after_a_very_early_start_is_fully_vested() {
    let v = VestingAccount::fresh(key(2), key(3), i64::MIN, 0, 10, 40, 1);
    assert_eq!(compute_strict_claimable(&v, false, i64::MAX), Ok(40));
}

#[test]
fn first_claim_halfway() {
    let mut ctx = claim_ctx(record());
    assert_eq!(vested_amount(1000, 1000, 500), Some(500));
    let event = claim(&mut ctx, 500).unwrap();
    assert_eq!(event, ClaimEvent { vesting_account: key(4), beneficiary: key(2), amount: 500, mint: key(3) });
    assert_eq!(ctx.vesting_account.claimed_amount, 500);
    assert_eq!(ctx.vesting_account.total_amount, 1000);
}

#[test]
fn at_the_cliff_claim_is_refused_and_preview_is_zero() {
    let mut ctx = claim_ctx(record());
    assert_eq!(claim(&mut ctx, 100), Err(VestingError::CliffNotReached));
    assert_eq!(ctx, claim_ctx(record()));
    let preview = GetClaimable { vesting_account: record(), vault: vault() };
    assert_eq!(get_claimable(&preview, 100), Ok(0));
    assert_eq!(get_claimable(&preview, 0), Ok(0));
    assert_eq!(get_claimable(&preview, 101), Ok(101));
    assert_eq!(claim(&mut ctx, 101).unwrap().amount, 101);
}

#[test]
fn second_claim_then_revocation() {
    let mut ctx = claim_ctx(record());
    claim(&mut ctx, 500).unwrap();
    assert_eq!(vested_amount(1000, 1000, 999), Some(999));
    let event = claim(&mut ctx, 999).unwrap();
    assert_eq!(event.amount, 499);
    assert_eq!(ctx.vesting_account.claimed_amount, 999);
    let mut revoke = RevokeVesting {
        vesting_account: ctx.vesting_account,
        vesting_account_key: key(4),
        vault: vault(),
        mint: key(3),
        admin: key(1),
    };
    let revoked = revoke_vesting(&mut revoke).unwrap();
    assert_eq!(revoked.remaining_amount, 1);
    assert_eq!(revoke.vesting_account.total_amount, 999);
    assert_eq!(revoke.vesting_account.claimed_amount, 999);
    assert!(revoke.vesting_account.revoked);
}

#[test]
fn admin_claim_forgives_small_clock_skew() {
    let mut ctx = AdminClaim {
        vesting_account: record(),
        vesting_account_key: key(4),
        vault: vault(),
        mint: key(3),
        admin: key(1),
    };
    let before = ctx;
    assert_eq!(admin_claim(&mut ctx, -30), Ok(None));
    assert_eq!(ctx, before);
    assert_eq!(compute_admin_claimable(&record(), false, -30), Ok(0));
}

#[test]
fn admin_claim_skew_tolerance_edge() {
    assert_eq!(SKEW_TOLERANCE, 60);
    assert_eq!(compute_admin_claimable(&record(), false, -1), Ok(0));
    assert_eq!(compute_admin_claimable(&record(), false, -59), Ok(0));
    assert_eq!(compute_admin_claimable(&record(), false, -60), Err(VestingError::InvalidTimestamp));
    assert_eq!(compute_admin_claimable(&record(), false, -61), Err(VestingError::InvalidTimestamp));
    assert_eq!(compute_admin_claimable(&record(), false, i64::MIN), Err(VestingError::InvalidTimestamp));
}

#[test]
fn admin_claim_releases_what_has_vested() {
    let mut ctx = AdminClaim {
        vesting_account: record(),
        vesting_account_key: key(4),
        vault: vault(),
        mint: key(3),
        admin: key(1),
    };
    assert_eq!(admin_claim(&mut ctx, 100), Ok(None));
    let event = admin_claim(&mut ctx, 250).unwrap().unwrap();
    assert_eq!(event, ClaimEvent { vesting_account: key(4), beneficiary: key(2), amount: 250, mint: key(3) });
    assert_eq!(ctx.vesting_account.claimed_amount, 250);
    assert_eq!(admin_claim(&mut ctx, 250), Ok(None));
    let rest = admin_claim(&mut ctx, 2000).unwrap().unwrap();
    assert_eq!(rest.amount, 750);
    assert_eq!(ctx.vesting_account.claimed_amount, 1000);
    assert_eq!(admin_claim(&mut ctx, 3000), Ok(None));
}

#[test]
fn admin_claim_is_for_the_admin_only() {
    let mut ctx = AdminClaim {
        vesting_account: record(),
        vesting_account_key: key(4),
        vault: vault(),
        mint: key(3),
        admin: key(2),
    };
    assert_eq!(admin_claim(&mut ctx, 500), Err(VestingError::Unauthorized));
    assert_eq!(ctx.vesting_account, record());
}

#[test]
fn claimed_more_than_vested_is_an_error_for_claims_and_zero_for_preview() {
    let mut v = record();
    v.claimed_amount = 800;
    assert_eq!(compute_strict_claimable(&v, false, 500), Err(VestingError::InvalidAmount));
    assert_eq!(compute_admin_claimable(&v, false, 500), Err(VestingError::InvalidAmount));
    assert_eq!(compute_preview_claimable(&v, false, 500), Ok(0));
    assert_eq!(compute_strict_claimable(&v, false, 800), Err(VestingError::NothingToClaim));
    assert_eq!(compute_admin_claimable(&v, false, 800), Ok(0));
}

#[test]
fn preview_before_the_start_is_refused() {
    assert_eq!(compute_preview_claimable(&record(), false, -1), Err(VestingError::InvalidTimestamp));
    assert_eq!(compute_strict_claimable(&record(), false, -1), Err(VestingError::InvalidTimestamp));
}

#[test]
fn lifecycle_gate_comes_before_timing() {
    let mut v = record();
    v.initialized = false;
    v.revoked = true;
    assert_eq!(compute_preview_claimable(&v, true, -1), Err(VestingError::NotInitialized));
    v.initialized = true;
    v.paused = true;
    assert_eq!(compute_preview_claimable(&v, true, -1), Err(VestingError::VestingRevoked));
    v.revoked = false;
    assert_eq!(compute_preview_claimable(&v, true, -1), Err(VestingError::Paused));
    v.paused = false;
    assert_eq!(compute_preview_claimable(&v, true, -1), Err(VestingError::VaultPaused));
    assert_eq!(compute_admin_claimable(&v, true, 500), Err(VestingError::VaultPaused));
    assert_eq!(compute_strict_claimable(&v, true, 500), Err(VestingError::VaultPaused));
}

#[test]
fn schedule_rules_are_checked_in_order() {
    assert_eq!(validate_schedule(0, 10, 5), Ok(()));
    assert_eq!(validate_schedule(10, 10, 5), Ok(()));
    assert_eq!(validate_schedule(-1, 0, 0), Err(VestingError::InvalidDuration));
    assert_eq!(validate_schedule(0, -5, 5), Err(VestingError::InvalidDuration));
    assert_eq!(validate_schedule(-1, 10, 0), Err(VestingError::InvalidCliffPeriod));
    assert_eq!(validate_schedule(11, 10, 5), Err(VestingError::InvalidCliffPeriod));
    assert_eq!(validate_schedule(5, 10, 0), Err(VestingError::InvalidAmount));
}

#[test]
fn errors_have_messages() {
    assert_eq!(VestingError::CliffNotReached.message(), "Cliff period not yet reached.");
    assert_eq!(VestingError::Unauthorized.message(), "Unauthorized admin.");
    assert_eq!(VestingError::NotRevoked.message(), "Vesting account is not revoked.");
    assert_eq!(VestingError::InvalidAccountCount.message(), "Invalid number of accounts provided.");
}

#[test]
fn record_sizes() {
    assert_eq!(Vault::LEN, 35);
    assert_eq!(VestingAccount::LEN, 108);
}

#[test]
fn well_formedness_is_decided() {
    assert!(record().is_well_formed());
    let mut v = record();
    v.claimed_amount = 1001;
    assert!(!v.is_well_formed());
    let mut w = record();
    w.cliff_period = 1001;
    assert!(!w.is_well_formed());
    w.initialized = false;
    assert!(w.is_well_formed());
}
