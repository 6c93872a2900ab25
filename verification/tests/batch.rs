use shorthusk_vesting::{
    batch_initialize_vesting, batch_initialize_vesting_v2, check_pairing, create_paired_record,
    process_single_vesting_account, same_mint_throughout, store_record, system_owner,
    vesting_address, AccountSlot, Address, BatchInitializeVesting, BatchInitializeVestingEvent,
    BatchVestingArgs, Vault, VestingAccount, VestingError, MAX_BATCH,
};

fn id(n: u8) -> Address {
    Address::new([n; 32])
}

const ADMIN: u8 = 1;
const MINT: u8 = 3;
const VAULT: u8 = 5;
const PROGRAM: u8 = 6;
const STRANGER: u8 = 9;

fn derived(beneficiary: u8) -> (Address, u8) {
    vesting_address(&id(VAULT), &id(MINT), &id(beneficiary), &id(PROGRAM)).unwrap()
}

fn target(beneficiary: u8) -> AccountSlot {
    AccountSlot { key: derived(beneficiary).0, owner: system_owner(), record: None }
}

fn holder(beneficiary: u8) -> AccountSlot {
    AccountSlot { key: id(beneficiary), owner: system_owner(), record: None }
}

fn grant(beneficiary: u8) -> BatchVestingArgs {
    BatchVestingArgs {
        beneficiary: id(beneficiary),
        mint: id(MINT),
        start_time: 10,
        cliff_period: 20,
        duration: 100,
        total_amount: 1000 + beneficiary as u64,
    }
}

fn created(beneficiary: u8) -> AccountSlot {
    AccountSlot {
        key: derived(beneficiary).0,
        owner: id(PROGRAM),
        record: Some(VestingAccount::fresh(
            id(beneficiary),
            id(MINT),
            10,
            20,
            100,
            1000 + beneficiary as u64,
            derived(beneficiary).1,
        )),
    }
}

fn notice(beneficiary: u8) -> BatchInitializeVestingEvent {
    BatchInitializeVestingEvent {
        vault: id(VAULT),
        admin: id(ADMIN),
        num_accounts: 1,
        vesting_account: derived(beneficiary).0,
        mint: id(MINT),
    }
}

fn batch(slots: Vec<AccountSlot>) -> BatchInitializeVesting {
    BatchInitializeVesting {
        vault: Vault { bump: 254, admin: id(ADMIN), paused: false, initialized: true },
        vault_key: id(VAULT),
        mint: id(MINT),
        admin: id(ADMIN),
        program_id: id(PROGRAM),
        remaining_accounts: slots,
    }
}

#[test]
fn paired_batch_with_a_slot_missing_is_refused_up_front() {
    let slots = vec![target(20), holder(20), target(21)];
    let mut ctx = batch(slots.clone());
    let r = batch_initialize_vesting_v2(&mut ctx, &vec![grant(20), grant(21)]);
    assert_eq!(r, Err(VestingError::InvalidAccountCount));
    assert_eq!(ctx, batch(slots));
}

#[test]
fn paired_batch_creates_every_record() {
    let mut ctx = batch(vec![target(20), holder(20), target(21), holder(21)]);
    let events = batch_initialize_vesting_v2(&mut ctx, &vec![grant(20), grant(21)]).unwrap();
    assert_eq!(events, vec![notice(20), notice(21)]);
    assert_eq!(ctx, batch(vec![created(20), holder(20), created(21), holder(21)]));
    let record = ctx.remaining_accounts[2].record.unwrap();
    assert!(record.is_well_formed());
    assert_eq!(record.claimed_amount, 0);
    assert!(record.initialized && !record.revoked && !record.paused);
}

#[test]
fn paired_batch_of_three_is_the_most() {
    assert_eq!(MAX_BATCH, 3);
    let mut ctx = batch(vec![target(20), holder(20), target(21), holder(21), target(22), holder(22)]);
    let events = batch_initialize_vesting_v2(&mut ctx, &vec![grant(20), grant(21), grant(22)]).unwrap();
    assert_eq!(events.len(), 3);
    let mut ctx = batch(vec![
        target(20), holder(20), target(21), holder(21), target(22), holder(22), target(23), holder(23),
    ]);
    let r = batch_initialize_vesting_v2(&mut ctx, &vec![grant(20), grant(21), grant(22), grant(23)]);
    assert_eq!(r, Err(VestingError::TooManyAccounts));
}

#[test]
fn paired_batch_refusals_before_any_record_is_looked_at() {
    let slots = vec![target(20), holder(20)];
    let mut ctx = batch(slots.clone());
    ctx.vault.initialized = false;
    ctx.admin = id(STRANGER);
    assert_eq!(batch_initialize_vesting_v2(&mut ctx, &vec![]), Err(VestingError::Unauthorized));
    ctx.admin = id(ADMIN);
    assert_eq!(batch_initialize_vesting_v2(&mut ctx, &vec![]), Err(VestingError::VaultNotInitialized));
    ctx.vault.initialized = true;
    assert_eq!(batch_initialize_vesting_v2(&mut ctx, &vec![]), Err(VestingError::NotEnoughAccounts));
    let mut other_mint = grant(20);
    other_mint.mint = id(STRANGER);
    assert_eq!(batch_initialize_vesting_v2(&mut ctx, &vec![other_mint]), Err(VestingError::InvalidAccount));
    assert_eq!(ctx, batch(slots));
}

#[test]
fn paired_batch_checks_every_pairing_before_creating() {
    let slots = vec![target(20), holder(20), target(99), holder(21)];
    let mut ctx = batch(slots.clone());
    let mut bad_schedule = grant(20);
    bad_schedule.duration = 0;
    let r = batch_initialize_vesting_v2(&mut ctx, &vec![bad_schedule, grant(21)]);
    assert_eq!(r, Err(VestingError::InvalidAccount));
    assert_eq!(ctx, batch(slots));
    let slots = vec![target(20), holder(20), target(21), holder(99)];
    let mut ctx = batch(slots.clone());
    let r = batch_initialize_vesting_v2(&mut ctx, &vec![grant(20), grant(21)]);
    assert_eq!(r, Err(VestingError::InvalidAccount));
    assert_eq!(ctx, batch(slots));
}

#[test]
fn paired_batch_is_all_or_nothing() {
    let slots = vec![target(20), holder(20), target(21), holder(21)];
    for (field, expected) in [
        (0, VestingError::InvalidDuration),
        (1, VestingError::InvalidCliffPeriod),
        (2, VestingError::InvalidAmount),
    ] {
        let mut second = grant(21);
        match field {
            0 => second.duration = -4,
            1 => second.cliff_period = 101,
            _ => second.total_amount = 0,
        }
        let mut ctx = batch(slots.clone());
        assert_eq!(batch_initialize_vesting_v2(&mut ctx, &vec![grant(20), second]), Err(expected));
        assert_eq!(ctx, batch(slots.clone()));
    }
}

#[test]
fn paired_batch_refuses_occupied_or_allocated_storage() {
    let slots = vec![target(20), holder(20), created(21), holder(21)];
    let mut ctx = batch(slots.clone());
    let r = batch_initialize_vesting_v2(&mut ctx, &vec![grant(20), grant(21)]);
    assert_eq!(r, Err(VestingError::AlreadyInitialized));
    assert_eq!(ctx, batch(slots));
    let foreign = AccountSlot { owner: id(STRANGER), ..target(21) };
    let slots = vec![target(20), holder(20), foreign, holder(21)];
    let mut ctx = batch(slots.clone());
    let r = batch_initialize_vesting_v2(&mut ctx, &vec![grant(20), grant(21)]);
    assert_eq!(r, Err(VestingError::InvalidAccountOwner));
    assert_eq!(ctx, batch(slots));
}

#[test]
fn paired_batch_refuses_the_same_beneficiary_twice() {
    let slots = vec![target(20), holder(20), target(20), holder(20)];
    let mut ctx = batch(slots.clone());
    let r = batch_initialize_vesting_v2(&mut ctx, &vec![grant(20), grant(20)]);
    assert_eq!(r, Err(VestingError::AlreadyInitialized));
    assert_eq!(ctx, batch(slots));
}

#[test]
fn revoked_record_at_the_address_counts_as_occupied() {
    let mut taken = created(20);
    let mut record = taken.record.unwrap();
    record.revoked = true;
    taken.record = Some(record);
    let mut ctx = batch(vec![taken, holder(20)]);
    assert_eq!(batch_initialize_vesting_v2(&mut ctx, &vec![grant(20)]), Err(VestingError::AlreadyInitialized));
}

#[test]
fn single_slot_batch_creates_every_record() {
    let mut ctx = batch(vec![target(20), target(21), target(22)]);
    let events = batch_initialize_vesting(&mut ctx, &vec![grant(20), grant(21), grant(22)]).unwrap();
    assert_eq!(events, vec![notice(20), notice(21), notice(22)]);
    assert_eq!(ctx, batch(vec![created(20), created(21), created(22)]));
}

#[test]
fn single_slot_batch_refusals() {
    let slots = vec![target(20), target(21)];
    let mut ctx = batch(slots.clone());
    ctx.vault.initialized = false;
    ctx.admin = id(STRANGER);
    assert_eq!(batch_initialize_vesting(&mut ctx, &vec![grant(20)]), Err(VestingError::Unauthorized));
    ctx.admin = id(ADMIN);
    assert_eq!(batch_initialize_vesting(&mut ctx, &vec![grant(20)]), Err(VestingError::VaultNotInitialized));
    ctx.vault.initialized = true;
    assert_eq!(batch_initialize_vesting(&mut ctx, &vec![]), Err(VestingError::NotEnoughAccounts));
    assert_eq!(
        batch_initialize_vesting(&mut ctx, &vec![grant(20), grant(21), grant(22), grant(23)]),
        Err(VestingError::TooManyAccounts)
    );
    let mut other_mint = grant(21);
    other_mint.mint = id(STRANGER);
    assert_eq!(batch_initialize_vesting(&mut ctx, &vec![grant(20), other_mint]), Err(VestingError::InvalidAccount));
    assert_eq!(
        batch_initialize_vesting(&mut ctx, &vec![grant(20), grant(21), grant(22)]),
        Err(VestingError::NotEnoughAccounts)
    );
    assert_eq!(batch_initialize_vesting(&mut ctx, &vec![grant(21), grant(20)]), Err(VestingError::InvalidAccount));
    assert_eq!(ctx, batch(slots));
}

#[test]
fn single_slot_batch_is_all_or_nothing() {
    let slots = vec![target(20), target(21), target(22)];
    let mut ctx = batch(slots.clone());
    let mut last = grant(22);
    last.total_amount = 0;
    let r = batch_initialize_vesting(&mut ctx, &vec![grant(20), grant(21), last]);
    assert_eq!(r, Err(VestingError::InvalidAmount));
    assert_eq!(ctx, batch(slots));
    let slots = vec![target(20), target(20)];
    let mut ctx = batch(slots.clone());
    let r = batch_initialize_vesting(&mut ctx, &vec![grant(20), grant(20)]);
    assert_eq!(r, Err(VestingError::AlreadyInitialized));
    assert_eq!(ctx, batch(slots));
}

#[test]
fn one_grant_against_one_slot() {
    let mut slots = vec![target(20), target(21)];
    let key = process_single_vesting_account(1, &grant(21), &id(VAULT), &id(PROGRAM), &mut slots).unwrap();
    assert_eq!(key, derived(21).0);
    assert_eq!(slots, vec![target(20), created(21)]);
    let r = process_single_vesting_account(1, &grant(21), &id(VAULT), &id(PROGRAM), &mut slots);
    assert_eq!(r, Err(VestingError::AlreadyInitialized));
    let r = process_single_vesting_account(0, &grant(21), &id(VAULT), &id(PROGRAM), &mut slots);
    assert_eq!(r, Err(VestingError::InvalidAccount));
    let r = process_single_vesting_account(2, &grant(20), &id(VAULT), &id(PROGRAM), &mut slots);
    assert_eq!(r, Err(VestingError::NotEnoughAccounts));
    let r = process_single_vesting_account(0, &grant(20), &id(STRANGER), &id(PROGRAM), &mut slots);
    assert_eq!(r, Err(VestingError::InvalidAccount));
    let mut bad = grant(20);
    bad.cliff_period = -1;
    let r = process_single_vesting_account(7, &bad, &id(VAULT), &id(PROGRAM), &mut slots);
    assert_eq!(r, Err(VestingError::InvalidCliffPeriod));
    slots[0].owner = id(PROGRAM);
    let r = process_single_vesting_account(0, &grant(20), &id(VAULT), &id(PROGRAM), &mut slots);
    assert_eq!(r, Err(VestingError::InvalidAccountOwner));
    assert_eq!(slots[1], created(21));
}

#[test]
fn pairing_rule_for_one_grant() {
    let slots = vec![target(20), holder(20), holder(21), target(21)];
    assert_eq!(check_pairing(0, &grant(20), &id(VAULT), &id(MINT), &id(PROGRAM), &slots), Ok(derived(20).1));
    assert_eq!(
        check_pairing(1, &grant(21), &id(VAULT), &id(MINT), &id(PROGRAM), &slots),
        Err(VestingError::InvalidAccount)
    );
    assert_eq!(
        check_pairing(2, &grant(21), &id(VAULT), &id(MINT), &id(PROGRAM), &slots),
        Err(VestingError::NotEnoughAccounts)
    );
    assert_eq!(
        check_pairing(0, &grant(20), &id(VAULT), &id(STRANGER), &id(PROGRAM), &slots),
        Err(VestingError::InvalidAccount)
    );
    let odd = vec![target(20), holder(20), target(21)];
    assert_eq!(
        check_pairing(1, &grant(21), &id(VAULT), &id(MINT), &id(PROGRAM), &odd),
        Err(VestingError::NotEnoughAccounts)
    );
}

#[test]
fn creating_a_paired_record() {
    let mut slots = vec![target(20), holder(20), target(21)];
    let bump = derived(21).1;
    let key = create_paired_record(1, &grant(21), &id(MINT), &id(PROGRAM), bump, &mut slots).unwrap();
    assert_eq!(key, derived(21).0);
    assert_eq!(slots, vec![target(20), holder(20), created(21)]);
    let r = create_paired_record(2, &grant(21), &id(MINT), &id(PROGRAM), bump, &mut slots);
    assert_eq!(r, Err(VestingError::NotEnoughAccounts));
}

#[test]
fn writing_reaches_every_slot_of_the_address() {
    let record = VestingAccount::fresh(id(20), id(MINT), 0, 0, 10, 10, 1);
    let mut slots = vec![holder(20), holder(21), holder(20)];
    store_record(&mut slots, &id(20), &id(PROGRAM), record);
    let written = AccountSlot { key: id(20), owner: id(PROGRAM), record: Some(record) };
    assert_eq!(slots, vec![written, holder(21), written]);
}

#[test]
fn grants_must_share_the_vaults_asset() {
    assert!(same_mint_throughout(&vec![], &id(MINT)));
    assert!(same_mint_throughout(&vec![grant(20), grant(21)], &id(MINT)));
    let mut other = grant(21);
    other.mint = id(STRANGER);
    assert!(!same_mint_throughout(&vec![grant(20), other], &id(MINT)));
}
