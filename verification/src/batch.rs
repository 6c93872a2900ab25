use vstd::prelude::*;
use crate::accounts::{AccountSlot, BatchInitializeVesting};
use crate::address::{expected_vesting_address, spec_system_owner, system_owner, vesting_address, Address};
use crate::error::VestingError;
use crate::events::BatchInitializeVestingEvent;
use crate::state::{schedule_check, validate_schedule, BatchVestingArgs, VestingAccount};

verus! {

/// The most records one batch may grant.
pub const MAX_BATCH: usize = 3;

/// Storage after `record` has been written at address `key` under
/// `owner`: every slot that stands for that address shows the new
/// contents, every other slot is untouched.
pub open spec fn write_record(slots: Seq<AccountSlot>, key: Seq<u8>, owner: Address, record: VestingAccount) -> Seq<AccountSlot> {
    Seq::new(
        slots.len(),
        |i: int|
            if slots[i].key@ == key {
                AccountSlot { key: slots[i].key, owner, record: Some(record) }
            } else {
                slots[i]
            },
    )
}

/// Writes `record` at address `key` under `owner`, in every slot that
/// stands for that address.
pub fn store_record(slots: &mut Vec<AccountSlot>, key: &Address, owner: &Address, record: VestingAccount)
    ensures
        final(slots)@ == write_record(old(slots)@, key@, *owner, record),
{
    let ghost before = slots@;
    let n: usize = slots.len();
    let mut i: usize = 0;
    while i < n
        invariant
            i <= n,
            slots@.len() == n,
            before.len() == n,
            forall|j: int| 0 <= j < i ==> slots@[j] == write_record(before, key@, *owner, record)[j],
            forall|j: int| i <= j < n ==> slots@[j] == before[j],
        decreases n - i,
    {
        let slot: AccountSlot = slots[i];
        if slot.key.same_as(key) {
            slots.set(i, AccountSlot { key: slot.key, owner: *owner, record: Some(record) });
        }
        i += 1;
    }
    assert(slots@ =~= write_record(before, key@, *owner, record));
}

/// The record that a grant creates.
pub open spec fn granted_record(arg: BatchVestingArgs, mint: Address, bump: u8) -> VestingAccount {
    VestingAccount::spec_fresh(
        arg.beneficiary,
        mint,
        arg.start_time,
        arg.cliff_period,
        arg.duration,
        arg.total_amount,
        bump,
    )
}

/// One grant of a batch that supplies one slot per grant: storage after
/// the record is created at slot `index`, or the first reason for
/// refusal. The schedule must be valid, the slot must exist and carry the
/// derived address of `(vault, mint, beneficiary)`, no live record may
/// stand there, and the storage must still be unallocated.
pub open spec fn single_record_spec(
    index: int,
    arg: BatchVestingArgs,
    vault_key: Address,
    program_id: Address,
    slots: Seq<AccountSlot>,
) -> Result<Seq<AccountSlot>, VestingError> {
    if schedule_check(arg.cliff_period, arg.duration, arg.total_amount) is Err {
        Err(schedule_check(arg.cliff_period, arg.duration, arg.total_amount)->Err_0)
    } else if index < 0 || index >= slots.len() {
        Err(VestingError::NotEnoughAccounts)
    } else {
        match expected_vesting_address(vault_key@, arg.mint@, arg.beneficiary@, program_id@) {
            None => Err(VestingError::InvalidAccount),
            Some(derived) => if slots[index].key@ != derived.0 {
                Err(VestingError::InvalidAccount)
            } else if slots[index].is_occupied() {
                Err(VestingError::AlreadyInitialized)
            } else if slots[index].owner@ != spec_system_owner() {
                Err(VestingError::InvalidAccountOwner)
            } else {
                Ok(write_record(slots, slots[index].key@, program_id, granted_record(arg, arg.mint, derived.1)))
            },
        }
    }
}

/// Validates one grant against the slot at `index` and creates its
/// record there. Returns the record's address. On refusal the slots are
/// left as they were.
pub fn process_single_vesting_account(
    index: usize,
    arg: &BatchVestingArgs,
    vault_key: &Address,
    program_id: &Address,
    remaining_accounts: &mut Vec<AccountSlot>,
) -> (r: Result<Address, VestingError>)
    ensures
        match single_record_spec(index as int, *arg, *vault_key, *program_id, old(remaining_accounts)@) {
            Ok(next) => r == Ok::<Address, VestingError>(old(remaining_accounts)@[index as int].key)
                && final(remaining_accounts)@ == next,
            Err(e) => r == Err::<Address, VestingError>(e) && final(remaining_accounts)@ == old(
                remaining_accounts,
            )@,
        },
{
    match validate_schedule(arg.cliff_period, arg.duration, arg.total_amount) {
        Err(e) => { return Err(e); },
        Ok(_) => {},
    }
    if index >= remaining_accounts.len() {
        return Err(VestingError::NotEnoughAccounts);
    }
    let slot: AccountSlot = remaining_accounts[index];
    let bump: u8 = match vesting_address(vault_key, &arg.mint, &arg.beneficiary, program_id) {
        None => { return Err(VestingError::InvalidAccount); },
        Some(derived) => {
            if !slot.key.same_as(&derived.0) {
                return Err(VestingError::InvalidAccount);
            }
            derived.1
        },
    };
    if slot.is_occupied() {
        return Err(VestingError::AlreadyInitialized);
    }
    let unallocated: Address = system_owner();
    if !slot.owner.same_as(&unallocated) {
        return Err(VestingError::InvalidAccountOwner);
    }
    let record = VestingAccount::fresh(
        arg.beneficiary,
        arg.mint,
        arg.start_time,
        arg.cliff_period,
        arg.duration,
        arg.total_amount,
        bump,
    );
    store_record(remaining_accounts, &slot.key, program_id, record);
    Ok(slot.key)
}

/// Storage after the grants from `from` on have been created in order,
/// one slot per grant, or the refusal of the first grant that fails.
pub open spec fn create_from(
    from: int,
    args: Seq<BatchVestingArgs>,
    vault_key: Address,
    program_id: Address,
    slots: Seq<AccountSlot>,
) -> Result<Seq<AccountSlot>, VestingError>
    decreases args.len() - from,
{
    if from < 0 || from >= args.len() {
        Ok(slots)
    } else {
        match single_record_spec(from, args[from], vault_key, program_id, slots) {
            Err(e) => Err(e),
            Ok(next) => create_from(from + 1, args, vault_key, program_id, next),
        }
    }
}

/// Whether every grant is denominated in `mint`.
pub open spec fn all_in_mint(args: Seq<BatchVestingArgs>, mint: Address) -> bool {
    forall|i: int| 0 <= i < args.len() ==> (#[trigger] args[i]).mint@ == mint@
}

/// Decides whether every grant is denominated in `mint`.
pub fn same_mint_throughout(args: &Vec<BatchVestingArgs>, mint: &Address) -> (r: bool)
    ensures
        r == all_in_mint(args@, *mint),
{
    let mut i: usize = 0;
    while i < args.len()
        invariant
            i <= args.len(),
            forall|j: int| 0 <= j < i ==> (#[trigger] args@[j]).mint@ == mint@,
        decreases args.len() - i,
    {
        if !args[i].mint.same_as(mint) {
            return false;
        }
        i += 1;
    }
    true
}

/// A batch with one slot per grant: storage after every record has been
/// created, or the refusal. The caller must be the vault's
/// administrator, the vault set up, the batch neither empty nor larger
/// than the maximum,
/// every grant in the vault's asset, and every grant acceptable in turn.
pub open spec fn batch_spec(ctx: BatchInitializeVesting, args: Seq<BatchVestingArgs>) -> Result<Seq<AccountSlot>, VestingError> {
    if ctx.admin@ != ctx.vault.admin@ {
        Err(VestingError::Unauthorized)
    } else if !ctx.vault.initialized {
        Err(VestingError::VaultNotInitialized)
    } else if args.len() > MAX_BATCH {
        Err(VestingError::TooManyAccounts)
    } else if !all_in_mint(args, ctx.mint) {
        Err(VestingError::InvalidAccount)
    } else {
        match create_from(0, args, ctx.vault_key, ctx.program_id, ctx.remaining_accounts@) {
            Err(e) => Err(e),
            Ok(next) => if args.len() == 0 {
                Err(VestingError::NotEnoughAccounts)
            } else {
                Ok(next)
            },
        }
    }
}

/// The notice that the record at `vesting_account` was created.
pub open spec fn created_event(ctx: BatchInitializeVesting, vesting_account: Address) -> BatchInitializeVestingEvent {
    BatchInitializeVestingEvent {
        vault: ctx.vault_key,
        admin: ctx.admin,
        num_accounts: 1,
        vesting_account,
        mint: ctx.mint,
    }
}

/// A copy of the slots to work on, so that a refused batch leaves the
/// caller's slots untouched.
fn stage(slots: &Vec<AccountSlot>) -> (copy: Vec<AccountSlot>)
    ensures
        copy@ == slots@,
{
    let mut copy: Vec<AccountSlot> = Vec::new();
    let mut i: usize = 0;
    while i < slots.len()
        invariant
            i <= slots.len(),
            copy@.len() == i,
            forall|j: int| 0 <= j < i ==> copy@[j] == slots@[j],
        decreases slots.len() - i,
    {
        copy.push(slots[i]);
        i += 1;
    }
    assert(copy@ =~= slots@);
    copy
}

/// Writing a record never moves a slot to another address.
pub proof fn lemma_write_keeps_keys(slots: Seq<AccountSlot>, key: Seq<u8>, owner: Address, record: VestingAccount)
    ensures
        write_record(slots, key, owner, record).len() == slots.len(),
        forall|j: int|
            0 <= j < slots.len() ==> (#[trigger] write_record(slots, key, owner, record)[j]).key
                == slots[j].key,
{
}

/// Grants up to three vesting records as one unit of work, one slot per
/// grant. Either every record is created and one notice per record comes
/// back, or nothing changes.
pub fn batch_initialize_vesting(ctx: &mut BatchInitializeVesting, args: &Vec<BatchVestingArgs>) -> (r: Result<
    Vec<BatchInitializeVestingEvent>,
    VestingError,
>)
    ensures
        match batch_spec(*old(ctx), args@) {
            Ok(next) => {
                &&& r matches Ok(events)
                &&& events@.len() == args@.len()
                &&& args@.len() <= old(ctx).remaining_accounts@.len()
                &&& forall|i: int|
                    0 <= i < args@.len() ==> events@[i] == created_event(
                        *old(ctx),
                        old(ctx).remaining_accounts@[i].key,
                    )
                &&& final(ctx).remaining_accounts@ == next
                &&& final(ctx).vault == old(ctx).vault
                &&& final(ctx).vault_key == old(ctx).vault_key
                &&& final(ctx).mint == old(ctx).mint
                &&& final(ctx).admin == old(ctx).admin
                &&& final(ctx).program_id == old(ctx).program_id
            },
            Err(e) => r == Err::<Vec<BatchInitializeVestingEvent>, VestingError>(e) && *final(ctx) == *old(ctx),
        },
{
    if !ctx.vault.is_admin(&ctx.admin) {
        return Err(VestingError::Unauthorized);
    }
    if !ctx.vault.initialized {
        return Err(VestingError::VaultNotInitialized);
    }
    if args.len() > MAX_BATCH {
        return Err(VestingError::TooManyAccounts);
    }
    if !same_mint_throughout(args, &ctx.mint) {
        return Err(VestingError::InvalidAccount);
    }
    let mut staged: Vec<AccountSlot> = stage(&ctx.remaining_accounts);
    let mut events: Vec<BatchInitializeVestingEvent> = Vec::new();
    let mut i: usize = 0;
    while i < args.len()
        invariant
            i <= args.len(),
            *ctx == *old(ctx),
            ctx.vault.initialized,
            ctx.admin@ == ctx.vault.admin@,
            args@.len() <= MAX_BATCH,
            all_in_mint(args@, ctx.mint),
            events@.len() == i,
            i <= staged@.len(),
            staged@.len() == ctx.remaining_accounts@.len(),
            forall|j: int| 0 <= j < staged@.len() ==> (#[trigger] staged@[j]).key == ctx.remaining_accounts@[j].key,
            forall|j: int|
                0 <= j < i ==> events@[j] == created_event(*ctx, ctx.remaining_accounts@[j].key),
            create_from(0, args@, ctx.vault_key, ctx.program_id, ctx.remaining_accounts@) == create_from(
                i as int,
                args@,
                ctx.vault_key,
                ctx.program_id,
                staged@,
            ),
        decreases args.len() - i,
    {
        let ghost before = staged@;
        match process_single_vesting_account(i, &args[i], &ctx.vault_key, &ctx.program_id, &mut staged) {
            Err(e) => {
                assert(create_from(i as int, args@, ctx.vault_key, ctx.program_id, before) == Err::<
                    Seq<AccountSlot>,
                    VestingError,
                >(e));
                return Err(e);
            },
            Ok(key) => {
                proof {
                    lemma_write_keeps_keys(
                        before,
                        before[i as int].key@,
                        ctx.program_id,
                        granted_record(
                            args@[i as int],
                            args@[i as int].mint,
                            expected_vesting_address(
                                ctx.vault_key@,
                                args@[i as int].mint@,
                                args@[i as int].beneficiary@,
                                ctx.program_id@,
                            )->Some_0.1,
                        ),
                    );
                }
                events.push(
                    BatchInitializeVestingEvent {
                        vault: ctx.vault_key,
                        admin: ctx.admin,
                        num_accounts: 1,
                        vesting_account: key,
                        mint: ctx.mint,
                    },
                );
            },
        }
        i += 1;
    }
    if events.len() == 0 {
        return Err(VestingError::NotEnoughAccounts);
    }
    ctx.remaining_accounts = staged;
    Ok(events)
}

/// The pairing rule for one grant of a batch that supplies two slots per
/// grant: slot `2 * index` must carry the derived address of
/// `(vault, mint, beneficiary)` and slot `2 * index + 1` the beneficiary's
/// own identity.
pub open spec fn pairing_check(
    index: int,
    arg: BatchVestingArgs,
    vault_key: Address,
    mint: Address,
    program_id: Address,
    slots: Seq<AccountSlot>,
) -> Result<(), VestingError> {
    if index < 0 || 2 * index + 1 >= slots.len() {
        Err(VestingError::NotEnoughAccounts)
    } else if slots[2 * index + 1].key@ != arg.beneficiary@ {
        Err(VestingError::InvalidAccount)
    } else {
        match expected_vesting_address(vault_key@, mint@, arg.beneficiary@, program_id@) {
            None => Err(VestingError::InvalidAccount),
            Some(derived) => if slots[2 * index].key@ != derived.0 {
                Err(VestingError::InvalidAccount)
            } else {
                Ok(())
            },
        }
    }
}

/// The bump of the derived address of a grant's record; meaningful only
/// where the derivation succeeds.
pub open spec fn expected_bump(arg: BatchVestingArgs, vault_key: Address, mint: Address, program_id: Address) -> u8 {
    expected_vesting_address(vault_key@, mint@, arg.beneficiary@, program_id@)->Some_0.1
}

/// Checks the pairing rule for one grant and returns the bump of its
/// record's address.
pub fn check_pairing(
    index: usize,
    arg: &BatchVestingArgs,
    vault_key: &Address,
    mint: &Address,
    program_id: &Address,
    slots: &Vec<AccountSlot>,
) -> (r: Result<u8, VestingError>)
    ensures
        match pairing_check(index as int, *arg, *vault_key, *mint, *program_id, slots@) {
            Ok(_) => r == Ok::<u8, VestingError>(expected_bump(*arg, *vault_key, *mint, *program_id)),
            Err(e) => r == Err::<u8, VestingError>(e),
        },
{
    if index >= slots.len() / 2 {
        return Err(VestingError::NotEnoughAccounts);
    }
    let target: AccountSlot = slots[2 * index];
    let holder: AccountSlot = slots[2 * index + 1];
    if !holder.key.same_as(&arg.beneficiary) {
        return Err(VestingError::InvalidAccount);
    }
    match vesting_address(vault_key, mint, &arg.beneficiary, program_id) {
        None => Err(VestingError::InvalidAccount),
        Some(derived) => {
            if !target.key.same_as(&derived.0) {
                Err(VestingError::InvalidAccount)
            } else {
                Ok(derived.1)
            }
        },
    }
}

/// The first grant from `from` on that breaks the pairing rule, if any.
pub open spec fn pairing_check_from(
    from: int,
    args: Seq<BatchVestingArgs>,
    vault_key: Address,
    mint: Address,
    program_id: Address,
    slots: Seq<AccountSlot>,
) -> Result<(), VestingError>
    decreases args.len() - from,
{
    if from < 0 || from >= args.len() {
        Ok(())
    } else {
        match pairing_check(from, args[from], vault_key, mint, program_id, slots) {
            Err(e) => Err(e),
            Ok(_) => pairing_check_from(from + 1, args, vault_key, mint, program_id, slots),
        }
    }
}

/// One grant of a batch with paired slots, once the pairing holds:
/// storage after the record is created at slot `2 * index`, or the first
/// reason for refusal. No live record may stand there, the storage must
/// still be unallocated, and the schedule must be valid.
pub open spec fn paired_record_spec(
    index: int,
    arg: BatchVestingArgs,
    mint: Address,
    program_id: Address,
    bump: u8,
    slots: Seq<AccountSlot>,
) -> Result<Seq<AccountSlot>, VestingError> {
    if index < 0 || 2 * index >= slots.len() {
        Err(VestingError::NotEnoughAccounts)
    } else if slots[2 * index].is_occupied() {
        Err(VestingError::AlreadyInitialized)
    } else if slots[2 * index].owner@ != spec_system_owner() {
        Err(VestingError::InvalidAccountOwner)
    } else if schedule_check(arg.cliff_period, arg.duration, arg.total_amount) is Err {
        Err(schedule_check(arg.cliff_period, arg.duration, arg.total_amount)->Err_0)
    } else {
        Ok(write_record(slots, slots[2 * index].key@, program_id, granted_record(arg, mint, bump)))
    }
}

/// Creates the record of one grant at slot `2 * index`, whose pairing
/// has been checked. Returns the record's address. On refusal the slots
/// are left as they were.
pub fn create_paired_record(
    index: usize,
    arg: &BatchVestingArgs,
    mint: &Address,
    program_id: &Address,
    bump: u8,
    slots: &mut Vec<AccountSlot>,
) -> (r: Result<Address, VestingError>)
    ensures
        match paired_record_spec(index as int, *arg, *mint, *program_id, bump, old(slots)@) {
            Ok(next) => r == Ok::<Address, VestingError>(old(slots)@[2 * index].key) && final(slots)@
                == next,
            Err(e) => r == Err::<Address, VestingError>(e) && final(slots)@ == old(slots)@,
        },
{
    if index >= slots.len() / 2 + slots.len() % 2 {
        return Err(VestingError::NotEnoughAccounts);
    }
    let target: AccountSlot = slots[2 * index];
    if target.is_occupied() {
        return Err(VestingError::AlreadyInitialized);
    }
    let unallocated: Address = system_owner();
    if !target.owner.same_as(&unallocated) {
        return Err(VestingError::InvalidAccountOwner);
    }
    match validate_schedule(arg.cliff_period, arg.duration, arg.total_amount) {
        Err(e) => { return Err(e); },
        Ok(_) => {},
    }
    let record = VestingAccount::fresh(
        arg.beneficiary,
        *mint,
        arg.start_time,
        arg.cliff_period,
        arg.duration,
        arg.total_amount,
        bump,
    );
    store_record(slots, &target.key, program_id, record);
    Ok(target.key)
}

/// Storage after the grants from `from` on have been created in order at
/// their paired slots, or the refusal of the first grant that fails.
pub open spec fn create_paired_from(
    from: int,
    args: Seq<BatchVestingArgs>,
    vault_key: Address,
    mint: Address,
    program_id: Address,
    slots: Seq<AccountSlot>,
) -> Result<Seq<AccountSlot>, VestingError>
    decreases args.len() - from,
{
    if from < 0 || from >= args.len() {
        Ok(slots)
    } else {
        match paired_record_spec(
            from,
            args[from],
            mint,
            program_id,
            expected_bump(args[from], vault_key, mint, program_id),
            slots,
        ) {
            Err(e) => Err(e),
            Ok(next) => create_paired_from(from + 1, args, vault_key, mint, program_id, next),
        }
    }
}

/// A batch with two slots per grant: storage after every record has been
/// created, or the refusal. The whole batch is validated before anything
/// is created: the caller must be the vault's administrator, the vault
/// set up, the batch neither empty nor larger than the maximum, exactly
/// two slots
/// supplied per grant, every grant in the vault's asset, and every pair
/// of slots as the pairing rule asks. Only then are the records created
/// in turn.
pub open spec fn batch_v2_spec(ctx: BatchInitializeVesting, args: Seq<BatchVestingArgs>) -> Result<Seq<AccountSlot>, VestingError> {
    if ctx.admin@ != ctx.vault.admin@ {
        Err(VestingError::Unauthorized)
    } else if !ctx.vault.initialized {
        Err(VestingError::VaultNotInitialized)
    } else if args.len() == 0 {
        Err(VestingError::NotEnoughAccounts)
    } else if args.len() > MAX_BATCH {
        Err(VestingError::TooManyAccounts)
    } else if ctx.remaining_accounts@.len() != 2 * args.len() {
        Err(VestingError::InvalidAccountCount)
    } else if !all_in_mint(args, ctx.mint) {
        Err(VestingError::InvalidAccount)
    } else if pairing_check_from(0, args, ctx.vault_key, ctx.mint, ctx.program_id, ctx.remaining_accounts@) is Err {
        Err(
            pairing_check_from(
                0,
                args,
                ctx.vault_key,
                ctx.mint,
                ctx.program_id,
                ctx.remaining_accounts@,
            )->Err_0,
        )
    } else {
        create_paired_from(0, args, ctx.vault_key, ctx.mint, ctx.program_id, ctx.remaining_accounts@)
    }
}

/// Grants up to three vesting records as one unit of work, two slots per
/// grant: the record's address, then the beneficiary. Either every record
/// is created and one notice per record comes back, or nothing changes.
pub fn batch_initialize_vesting_v2(ctx: &mut BatchInitializeVesting, args: &Vec<BatchVestingArgs>) -> (r: Result<
    Vec<BatchInitializeVestingEvent>,
    VestingError,
>)
    ensures
        match batch_v2_spec(*old(ctx), args@) {
            Ok(next) => {
                &&& r matches Ok(events)
                &&& events@.len() == args@.len()
                &&& forall|i: int|
                    0 <= i < args@.len() ==> events@[i] == created_event(
                        *old(ctx),
                        old(ctx).remaining_accounts@[2 * i].key,
                    )
                &&& final(ctx).remaining_accounts@ == next
                &&& final(ctx).vault == old(ctx).vault
                &&& final(ctx).vault_key == old(ctx).vault_key
                &&& final(ctx).mint == old(ctx).mint
                &&& final(ctx).admin == old(ctx).admin
                &&& final(ctx).program_id == old(ctx).program_id
            },
            Err(e) => r == Err::<Vec<BatchInitializeVestingEvent>, VestingError>(e) && *final(ctx) == *old(ctx),
        },
{
    if !ctx.vault.is_admin(&ctx.admin) {
        return Err(VestingError::Unauthorized);
    }
    if !ctx.vault.initialized {
        return Err(VestingError::VaultNotInitialized);
    }
    if args.len() == 0 {
        return Err(VestingError::NotEnoughAccounts);
    }
    if args.len() > MAX_BATCH {
        return Err(VestingError::TooManyAccounts);
    }
    if ctx.remaining_accounts.len() != args.len() * 2 {
        return Err(VestingError::InvalidAccountCount);
    }
    if !same_mint_throughout(args, &ctx.mint) {
        return Err(VestingError::InvalidAccount);
    }
    let mut bumps: Vec<u8> = Vec::new();
    let mut i: usize = 0;
    while i < args.len()
        invariant
            i <= args.len(),
            bumps@.len() == i,
            forall|j: int|
                0 <= j < i ==> bumps@[j] == expected_bump(args@[j], ctx.vault_key, ctx.mint, ctx.program_id),
            pairing_check_from(0, args@, ctx.vault_key, ctx.mint, ctx.program_id, ctx.remaining_accounts@)
                == pairing_check_from(
                i as int,
                args@,
                ctx.vault_key,
                ctx.mint,
                ctx.program_id,
                ctx.remaining_accounts@,
            ),
            *ctx == *old(ctx),
            ctx.vault.initialized,
            ctx.admin@ == ctx.vault.admin@,
            0 < args@.len() <= MAX_BATCH,
            ctx.remaining_accounts@.len() == 2 * args@.len(),
            all_in_mint(args@, ctx.mint),
        decreases args.len() - i,
    {
        match check_pairing(i, &args[i], &ctx.vault_key, &ctx.mint, &ctx.program_id, &ctx.remaining_accounts) {
            Err(e) => { return Err(e); },
            Ok(bump) => { bumps.push(bump); },
        }
        i += 1;
    }
    let mut staged: Vec<AccountSlot> = stage(&ctx.remaining_accounts);
    let mut events: Vec<BatchInitializeVestingEvent> = Vec::new();
    let mut k: usize = 0;
    while k < args.len()
        invariant
            k <= args.len(),
            bumps@.len() == args@.len(),
            forall|j: int|
                0 <= j < args@.len() ==> bumps@[j] == expected_bump(
                    args@[j],
                    ctx.vault_key,
                    ctx.mint,
                    ctx.program_id,
                ),
            pairing_check_from(0, args@, ctx.vault_key, ctx.mint, ctx.program_id, ctx.remaining_accounts@) is Ok,
            *ctx == *old(ctx),
            ctx.vault.initialized,
            ctx.admin@ == ctx.vault.admin@,
            0 < args@.len() <= MAX_BATCH,
            ctx.remaining_accounts@.len() == 2 * args@.len(),
            all_in_mint(args@, ctx.mint),
            events@.len() == k,
            staged@.len() == ctx.remaining_accounts@.len(),
            forall|j: int| 0 <= j < staged@.len() ==> (#[trigger] staged@[j]).key == ctx.remaining_accounts@[j].key,
            forall|j: int|
                0 <= j < k ==> events@[j] == created_event(*ctx, ctx.remaining_accounts@[2 * j].key),
            create_paired_from(0, args@, ctx.vault_key, ctx.mint, ctx.program_id, ctx.remaining_accounts@)
                == create_paired_from(k as int, args@, ctx.vault_key, ctx.mint, ctx.program_id, staged@),
        decreases args.len() - k,
    {
        let ghost before = staged@;
        match create_paired_record(k, &args[k], &ctx.mint, &ctx.program_id, bumps[k], &mut staged) {
            Err(e) => {
                assert(create_paired_from(k as int, args@, ctx.vault_key, ctx.mint, ctx.program_id, before)
                    == Err::<Seq<AccountSlot>, VestingError>(e));
                return Err(e);
            },
            Ok(key) => {
                proof {
                    lemma_write_keeps_keys(
                        before,
                        before[2 * k].key@,
                        ctx.program_id,
                        granted_record(args@[k as int], ctx.mint, bumps@[k as int]),
                    );
                }
                events.push(
                    BatchInitializeVestingEvent {
                        vault: ctx.vault_key,
                        admin: ctx.admin,
                        num_accounts: 1,
                        vesting_account: key,
                        mint: ctx.mint,
                    },
                );
            },
        }
        k += 1;
    }
    ctx.remaining_accounts = staged;
    Ok(events)
}

/// A grant that is accepted with one slot per grant creates a well-formed,
/// live, unclaimed record at the derived address of its
/// `(vault, mint, beneficiary)`, where no live record stood before, and
/// leaves every slot of another address as it was.
pub proof fn lemma_single_record_lands_at_its_address(
    index: int,
    arg: BatchVestingArgs,
    vault_key: Address,
    program_id: Address,
    slots: Seq<AccountSlot>,
)
    requires
        single_record_spec(index, arg, vault_key, program_id, slots) is Ok,
    ensures
        ({
            let next = single_record_spec(index, arg, vault_key, program_id, slots)->Ok_0;
            let derived = expected_vesting_address(vault_key@, arg.mint@, arg.beneficiary@, program_id@);
            let record = granted_record(arg, arg.mint, derived->Some_0.1);
            &&& 0 <= index < slots.len() == next.len()
            &&& derived is Some
            &&& next[index].key@ == derived->Some_0.0
            &&& next[index].owner == program_id
            &&& next[index].record == Some(record)
            &&& record.wf() && record.initialized && !record.revoked && !record.paused
            &&& record.claimed_amount == 0
            &&& !slots[index].is_occupied()
            &&& forall|j: int|
                0 <= j < slots.len() && slots[j].key@ != slots[index].key@ ==> #[trigger] next[j] == slots[j]
        }),
{
}

/// A grant that is accepted with paired slots creates a well-formed,
/// live, unclaimed record at slot `2 * index`, where no live record stood
/// before, and leaves every slot of another address as it was.
pub proof fn lemma_paired_record_lands_at_its_slot(
    index: int,
    arg: BatchVestingArgs,
    mint: Address,
    program_id: Address,
    bump: u8,
    slots: Seq<AccountSlot>,
)
    requires
        paired_record_spec(index, arg, mint, program_id, bump, slots) is Ok,
    ensures
        ({
            let next = paired_record_spec(index, arg, mint, program_id, bump, slots)->Ok_0;
            let record = granted_record(arg, mint, bump);
            &&& 0 <= 2 * index < slots.len() == next.len()
            &&& next[2 * index].key == slots[2 * index].key
            &&& next[2 * index].owner == program_id
            &&& next[2 * index].record == Some(record)
            &&& record.wf() && record.initialized && !record.revoked && !record.paused
            &&& record.claimed_amount == 0
            &&& !slots[2 * index].is_occupied()
            &&& forall|j: int|
                0 <= j < slots.len() && slots[j].key@ != slots[2 * index].key@ ==> #[trigger] next[j]
                    == slots[j]
        }),
{
}

} // verus!
