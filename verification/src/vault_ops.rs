use vstd::prelude::*;
use crate::accounts::{EmergencyRecover, FundVaultExisting, InitializeVault, PauseVault, UpdateAdmin};
use crate::address::Address;
use crate::error::VestingError;
use crate::events::{
    EmergencyRecoverEvent, FundVaultExistingEvent, PauseVaultEvent, UnpauseVaultEvent,
    UpdateAdminEvent, VaultInitializedEvent,
};
use crate::state::Vault;

verus! {

/// The vault after creation and the notice of it, or the refusal when a
/// vault already stands there.
pub open spec fn initialize_vault_spec(ctx: InitializeVault) -> Result<(InitializeVault, VaultInitializedEvent), VestingError> {
    if ctx.vault.initialized {
        Err(VestingError::AlreadyInitialized)
    } else {
        Ok(
            (
                InitializeVault {
                    vault: Vault { bump: ctx.bump, admin: ctx.payer, paused: false, initialized: true },
                    ..ctx
                },
                VaultInitializedEvent { vault: ctx.vault_key, admin: ctx.payer, mint: ctx.mint },
            ),
        )
    }
}

/// Creates the vault of an asset; whoever pays becomes its administrator.
pub fn initialize_vault(ctx: &mut InitializeVault) -> (r: Result<VaultInitializedEvent, VestingError>)
    ensures
        match initialize_vault_spec(*old(ctx)) {
            Ok(done) => r == Ok::<VaultInitializedEvent, VestingError>(done.1) && *final(ctx) == done.0,
            Err(e) => r == Err::<VaultInitializedEvent, VestingError>(e) && *final(ctx) == *old(ctx),
        },
{
    if ctx.vault.initialized {
        return Err(VestingError::AlreadyInitialized);
    }
    ctx.vault.bump = ctx.bump;
    ctx.vault.admin = ctx.payer;
    ctx.vault.paused = false;
    ctx.vault.initialized = true;
    Ok(VaultInitializedEvent { vault: ctx.vault_key, admin: ctx.vault.admin, mint: ctx.mint })
}

/// The vault with its pause flag set to `paused`, if the caller is its
/// administrator.
pub open spec fn set_vault_paused_spec(ctx: PauseVault, paused: bool) -> Result<PauseVault, VestingError> {
    if ctx.admin@ != ctx.vault.admin@ {
        Err(VestingError::Unauthorized)
    } else {
        Ok(PauseVault { vault: Vault { paused, ..ctx.vault }, ..ctx })
    }
}

/// Suspends releases for every vesting record under the vault.
pub fn pause_vault(ctx: &mut PauseVault) -> (r: Result<PauseVaultEvent, VestingError>)
    ensures
        match set_vault_paused_spec(*old(ctx), true) {
            Ok(next) => *final(ctx) == next && r == Ok::<PauseVaultEvent, VestingError>(
                PauseVaultEvent { vault: old(ctx).vault_key, admin: old(ctx).admin, mint: old(ctx).mint },
            ),
            Err(e) => r == Err::<PauseVaultEvent, VestingError>(e) && *final(ctx) == *old(ctx),
        },
{
    if !ctx.vault.is_admin(&ctx.admin) {
        return Err(VestingError::Unauthorized);
    }
    ctx.vault.paused = true;
    Ok(PauseVaultEvent { vault: ctx.vault_key, admin: ctx.admin, mint: ctx.mint })
}

/// Lifts the vault-wide suspension.
pub fn unpause_vault(ctx: &mut PauseVault) -> (r: Result<UnpauseVaultEvent, VestingError>)
    ensures
        match set_vault_paused_spec(*old(ctx), false) {
            Ok(next) => *final(ctx) == next && r == Ok::<UnpauseVaultEvent, VestingError>(
                UnpauseVaultEvent { vault: old(ctx).vault_key, admin: old(ctx).admin, mint: old(ctx).mint },
            ),
            Err(e) => r == Err::<UnpauseVaultEvent, VestingError>(e) && *final(ctx) == *old(ctx),
        },
{
    if !ctx.vault.is_admin(&ctx.admin) {
        return Err(VestingError::Unauthorized);
    }
    ctx.vault.paused = false;
    Ok(UnpauseVaultEvent { vault: ctx.vault_key, admin: ctx.admin, mint: ctx.mint })
}

/// The vault under its new administrator and the notice of the change.
pub open spec fn update_admin_spec(ctx: UpdateAdmin, new_admin: Address) -> Result<(UpdateAdmin, UpdateAdminEvent), VestingError> {
    if ctx.admin@ != ctx.vault.admin@ {
        Err(VestingError::Unauthorized)
    } else {
        Ok(
            (
                UpdateAdmin { vault: Vault { admin: new_admin, ..ctx.vault }, ..ctx },
                UpdateAdminEvent {
                    vault: ctx.vault_key,
                    old_admin: ctx.vault.admin,
                    new_admin,
                    mint: ctx.mint,
                },
            ),
        )
    }
}

/// Hands the administrator role to `new_admin`.
pub fn update_admin(ctx: &mut UpdateAdmin, new_admin: Address) -> (r: Result<UpdateAdminEvent, VestingError>)
    ensures
        match update_admin_spec(*old(ctx), new_admin) {
            Ok(done) => r == Ok::<UpdateAdminEvent, VestingError>(done.1) && *final(ctx) == done.0,
            Err(e) => r == Err::<UpdateAdminEvent, VestingError>(e) && *final(ctx) == *old(ctx),
        },
{
    if !ctx.vault.is_admin(&ctx.admin) {
        return Err(VestingError::Unauthorized);
    }
    let old_admin = ctx.vault.admin;
    ctx.vault.admin = new_admin;
    Ok(UpdateAdminEvent { vault: ctx.vault_key, old_admin, new_admin, mint: ctx.mint })
}

/// The sweep of the whole custodial balance, or why it is refused.
pub open spec fn emergency_recover_spec(ctx: EmergencyRecover) -> Result<EmergencyRecoverEvent, VestingError> {
    if ctx.admin@ != ctx.vault.admin@ {
        Err(VestingError::Unauthorized)
    } else if ctx.vault_balance == 0 {
        Err(VestingError::NothingToClaim)
    } else {
        Ok(
            EmergencyRecoverEvent {
                vault: ctx.vault_key,
                admin: ctx.admin,
                amount: ctx.vault_balance,
                mint: ctx.mint,
            },
        )
    }
}

/// Authorizes sweeping the vault's whole balance to the recovery
/// destination; the amount to move is the event's.
pub fn emergency_recover(ctx: &EmergencyRecover) -> (r: Result<EmergencyRecoverEvent, VestingError>)
    ensures
        r == emergency_recover_spec(*ctx),
{
    if !ctx.vault.is_admin(&ctx.admin) {
        return Err(VestingError::Unauthorized);
    }
    let amount = ctx.vault_balance;
    if amount == 0 {
        return Err(VestingError::NothingToClaim);
    }
    Ok(EmergencyRecoverEvent { vault: ctx.vault_key, admin: ctx.admin, amount, mint: ctx.mint })
}

/// The deposit of `amount` into custody, or why it is refused: the
/// caller must be the administrator and own the source, and the amount
/// must be positive.
pub open spec fn fund_vault_existing_spec(ctx: FundVaultExisting, amount: u64) -> Result<FundVaultExistingEvent, VestingError> {
    if ctx.admin@ != ctx.vault.admin@ || ctx.source_owner@ != ctx.payer@ {
        Err(VestingError::Unauthorized)
    } else if amount == 0 {
        Err(VestingError::InvalidAmount)
    } else {
        Ok(FundVaultExistingEvent { vault: ctx.vault_key, admin: ctx.admin, amount, mint: ctx.mint })
    }
}

/// Authorizes moving `amount` from the payer's own holding into custody.
pub fn fund_vault_existing(ctx: &FundVaultExisting, amount: u64) -> (r: Result<FundVaultExistingEvent, VestingError>)
    ensures
        r == fund_vault_existing_spec(*ctx, amount),
{
    if !ctx.vault.is_admin(&ctx.admin) {
        return Err(VestingError::Unauthorized);
    }
    if !ctx.source_owner.same_as(&ctx.payer) {
        return Err(VestingError::Unauthorized);
    }
    if amount == 0 {
        return Err(VestingError::InvalidAmount);
    }
    Ok(FundVaultExistingEvent { vault: ctx.vault_key, admin: ctx.admin, amount, mint: ctx.mint })
}

} // verus!
