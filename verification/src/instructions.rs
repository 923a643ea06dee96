use vstd::prelude::*;
use crate::accounts::{
    admin_check, create_token_saving_check, increment_token_saving_check, sol_saving_check,
    withdraw_token_saving_check, CreateSolSaving, CreateTokenSaving, IncrementSolSaving,
    IncrementTokenSaving, Initialize, JoinBitsave, WithdrawSolSaving, WithdrawTokenSaving,
};
use crate::errors::{check_then, BitsaveError, ConstraintViolation, InstructionError};
use crate::key::{zero_key, AccountKey};
use crate::state::{
    initial_global_state, locked_less, locked_more, one_more_user, opened_saving, topped_up,
    withdrawal_amount, withdrawal_computes, withdrawal_payout, GlobalState, Saving, UserVault,
    JOIN_FEE, SAVING_FEE,
};

verus! {

/// A movement of funds that an instruction asks for. The instruction's state
/// changes stand only if every transfer it returns succeeds, in order.
#[derive(Clone, Copy, Debug)]
pub enum Transfer {
    /// System-program transfer of lamports, signed by `from`.
    Lamports { from: AccountKey, to: AccountKey, amount: u64 },
    /// Token-program transfer between token accounts, signed by `authority`.
    Token { from: AccountKey, to: AccountKey, authority: AccountKey, amount: u64 },
    /// Token-program transfer out of a vault token account, signed by the
    /// vault `vault` of user `vault_owner`.
    VaultToken { from: AccountKey, to: AccountKey, vault: AccountKey, vault_owner: AccountKey, amount: u64 },
    /// Lamports taken directly from the vault `from` and credited to `to`.
    VaultLamports { from: AccountKey, to: AccountKey, amount: u64 },
}

/// The transfers of a native SOL saving's creation: the saving fee from the
/// user to the admin, then the deposit from the user to the vault.
pub open spec fn create_sol_transfers(
    user: AccountKey,
    admin: AccountKey,
    fee: u64,
    vault: AccountKey,
    amount: u64,
) -> Seq<Transfer> {
    seq![
        Transfer::Lamports { from: user, to: admin, amount: fee },
        Transfer::Lamports { from: user, to: vault, amount },
    ]
}

/// The transfer of a native SOL top-up: from the user to the vault.
pub open spec fn increment_sol_transfers(user: AccountKey, vault: AccountKey, amount: u64) -> Seq<Transfer> {
    seq![Transfer::Lamports { from: user, to: vault, amount }]
}

/// The transfer of a native SOL withdrawal: from the vault to the user.
pub open spec fn withdraw_sol_transfers(vault: AccountKey, user: AccountKey, amount: u64) -> Seq<Transfer> {
    seq![Transfer::VaultLamports { from: vault, to: user, amount }]
}

/// Writes the global state: the given admin and mints, the default fees, and
/// nothing locked and no users yet.
pub fn initialize(
    ctx: &mut Initialize,
    stable_coin_mint: AccountKey,
    cs_token_mint: AccountKey,
) -> (r: Result<(), InstructionError>)
    ensures
        r is Ok,
        final(ctx).admin == old(ctx).admin,
        final(ctx).global_state == initial_global_state(old(ctx).admin, stable_coin_mint, cs_token_mint),
{
    ctx.global_state = GlobalState {
        admin: ctx.admin,
        stable_coin_mint,
        cs_token_mint,
        join_fee: JOIN_FEE,
        saving_fee: SAVING_FEE,
        total_value_locked: 0,
        user_count: 0,
    };
    Ok(())
}

/// Registers the user. The fee account must be the admin (else the
/// `Address` violation, and nothing changes); then the join fee goes to the
/// admin, the vault is written with the user as owner and one more user is
/// counted.
pub fn join_bitsave(ctx: &mut JoinBitsave) -> (r: Result<Vec<Transfer>, InstructionError>)
    requires
        admin_check(old(ctx).global_state, old(ctx).admin_account) is Ok
            ==> old(ctx).global_state.user_count < u64::MAX,
    ensures
        r is Ok <==> admin_check(old(ctx).global_state, old(ctx).admin_account) is Ok,
        r matches Err(e) ==> e == InstructionError::Constraint(ConstraintViolation::Address)
            && *final(ctx) == *old(ctx),
        r matches Ok(t) ==> {
            &&& t@ == seq![
                Transfer::Lamports {
                    from: old(ctx).user,
                    to: old(ctx).global_state.admin,
                    amount: old(ctx).global_state.join_fee,
                },
            ]
            &&& final(ctx).global_state == one_more_user(old(ctx).global_state)
            &&& final(ctx).user_vault == (UserVault { owner: old(ctx).user })
            &&& final(ctx).user == old(ctx).user
            &&& final(ctx).admin_account == old(ctx).admin_account
        },
{
    if let Err(v) = ctx.check_accounts() {
        return Err(InstructionError::Constraint(v));
    }
    let mut transfers: Vec<Transfer> = Vec::new();
    transfers.push(
        Transfer::Lamports { from: ctx.user, to: ctx.global_state.admin, amount: ctx.global_state.join_fee },
    );
    ctx.user_vault = UserVault { owner: ctx.user };
    ctx.global_state.user_count = ctx.global_state.user_count + 1;
    Ok(transfers)
}

/// Whether a create instruction with this maturity and mode, at time `now`,
/// goes ahead.
pub open spec fn create_accepted(maturity_time: i64, safe_mode: bool, now: i64) -> bool {
    now < maturity_time && !safe_mode
}

/// The error of a create instruction that does not go ahead.
pub open spec fn create_error(maturity_time: i64, now: i64) -> BitsaveError {
    if maturity_time <= now {
        BitsaveError::InvalidTime
    } else {
        BitsaveError::NotSupported
    }
}

fn check_create(maturity_time: i64, safe_mode: bool, now: i64) -> (r: Result<(), BitsaveError>)
    ensures
        r is Ok <==> create_accepted(maturity_time, safe_mode, now),
        r matches Err(e) ==> e == create_error(maturity_time, now),
{
    if maturity_time <= now {
        return Err(BitsaveError::InvalidTime);
    }
    if safe_mode {
        return Err(BitsaveError::NotSupported);
    }
    Ok(())
}

/// Opens a native SOL saving at time `now`. The fee account must be the
/// admin (else the `Address` violation); then the maturity must lie after
/// `now` (else `InvalidTime`) and safe mode is refused (`NotSupported`).
/// On failure nothing changes. On success the saving fee goes to the admin,
/// the deposit to the user's vault, the saving is written and its principal
/// is counted as locked.
pub fn create_sol_saving(
    ctx: &mut CreateSolSaving,
    name: String,
    maturity_time: i64,
    penalty: u8,
    safe_mode: bool,
    amount: u64,
    now: i64,
) -> (r: Result<Vec<Transfer>, InstructionError>)
    requires
        admin_check(old(ctx).global_state, old(ctx).admin_account) is Ok
            && create_accepted(maturity_time, safe_mode, now)
            ==> old(ctx).global_state.total_value_locked + amount <= u64::MAX,
    ensures
        r is Ok <==> admin_check(old(ctx).global_state, old(ctx).admin_account) is Ok
            && create_accepted(maturity_time, safe_mode, now),
        r matches Err(e) ==> e == check_then(
            admin_check(old(ctx).global_state, old(ctx).admin_account),
            create_error(maturity_time, now),
        ) && *final(ctx) == *old(ctx),
        r matches Ok(t) ==> {
            &&& t@ == create_sol_transfers(old(ctx).user, old(ctx).global_state.admin,
                old(ctx).global_state.saving_fee, old(ctx).user_vault, amount)
            &&& opened_saving(final(ctx).saving, old(ctx).user, name, amount, zero_key(), now,
                maturity_time, penalty)
            &&& final(ctx).global_state == locked_more(old(ctx).global_state, amount as int)
            &&& final(ctx).user_vault == old(ctx).user_vault
            &&& final(ctx).user == old(ctx).user
            &&& final(ctx).admin_account == old(ctx).admin_account
        },
{
    if let Err(v) = ctx.check_accounts() {
        return Err(InstructionError::Constraint(v));
    }
    if let Err(e) = check_create(maturity_time, safe_mode, now) {
        return Err(InstructionError::Bitsave(e));
    }
    let mut transfers: Vec<Transfer> = Vec::new();
    transfers.push(
        Transfer::Lamports { from: ctx.user, to: ctx.global_state.admin, amount: ctx.global_state.saving_fee },
    );
    transfers.push(Transfer::Lamports { from: ctx.user, to: ctx.user_vault, amount });
    ctx.saving = Saving {
        owner: ctx.user,
        name,
        amount,
        token_mint: AccountKey::zero(),
        start_time: now,
        maturity_time,
        penalty_percentage: penalty,
        is_safe_mode: safe_mode,
        is_valid: true,
    };
    ctx.global_state.total_value_locked = ctx.global_state.total_value_locked + amount;
    Ok(transfers)
}

/// Opens a token saving at time `now`. The accounts must pass
/// `CreateTokenSaving::check_accounts` (else its violation); then the
/// maturity must lie after `now` (else `InvalidTime`) and safe mode is
/// refused (`NotSupported`). On failure nothing changes. On success the
/// saving fee goes to the admin, the deposit moves from the user's token
/// account to the vault token account, the saving is written with the given
/// mint and its principal is counted as locked.
pub fn create_token_saving(
    ctx: &mut CreateTokenSaving,
    name: String,
    maturity_time: i64,
    penalty: u8,
    safe_mode: bool,
    amount: u64,
    now: i64,
) -> (r: Result<Vec<Transfer>, InstructionError>)
    requires
        create_token_saving_check(*old(ctx)) is Ok && create_accepted(maturity_time, safe_mode, now)
            ==> old(ctx).global_state.total_value_locked + amount <= u64::MAX,
    ensures
        r is Ok <==> create_token_saving_check(*old(ctx)) is Ok
            && create_accepted(maturity_time, safe_mode, now),
        r matches Err(e) ==> e == check_then(create_token_saving_check(*old(ctx)), create_error(maturity_time, now))
            && *final(ctx) == *old(ctx),
        r matches Ok(t) ==> {
            &&& t@ == seq![
                Transfer::Lamports {
                    from: old(ctx).user,
                    to: old(ctx).global_state.admin,
                    amount: old(ctx).global_state.saving_fee,
                },
                Transfer::Token {
                    from: old(ctx).user_token_account.key,
                    to: old(ctx).vault_token_account.key,
                    authority: old(ctx).user,
                    amount,
                },
            ]
            &&& opened_saving(final(ctx).saving, old(ctx).user, name, amount, old(ctx).token_mint@,
                now, maturity_time, penalty)
            &&& final(ctx).global_state == locked_more(old(ctx).global_state, amount as int)
            &&& final(ctx).user_vault == old(ctx).user_vault
            &&& final(ctx).user == old(ctx).user
            &&& final(ctx).admin_account == old(ctx).admin_account
            &&& final(ctx).token_mint == old(ctx).token_mint
            &&& final(ctx).user_token_account == old(ctx).user_token_account
            &&& final(ctx).vault_token_account == old(ctx).vault_token_account
        },
{
    if let Err(v) = ctx.check_accounts() {
        return Err(InstructionError::Constraint(v));
    }
    if let Err(e) = check_create(maturity_time, safe_mode, now) {
        return Err(InstructionError::Bitsave(e));
    }
    let mut transfers: Vec<Transfer> = Vec::new();
    transfers.push(
        Transfer::Lamports { from: ctx.user, to: ctx.global_state.admin, amount: ctx.global_state.saving_fee },
    );
    transfers.push(
        Transfer::Token {
            from: ctx.user_token_account.key,
            to: ctx.vault_token_account.key,
            authority: ctx.user,
            amount,
        },
    );
    ctx.saving = Saving {
        owner: ctx.user,
        name,
        amount,
        token_mint: ctx.token_mint,
        start_time: now,
        maturity_time,
        penalty_percentage: penalty,
        is_safe_mode: safe_mode,
        is_valid: true,
    };
    ctx.global_state.total_value_locked = ctx.global_state.total_value_locked + amount;
    Ok(transfers)
}

/// A top-up of `s` goes ahead only before its maturity.
pub open spec fn increment_accepted(s: Saving, now: i64) -> bool {
    now < s.maturity_time
}

/// Adds `amount` of native SOL to the saving at time `now`. The saving must
/// be valid, the user's and in native SOL (else the `Raw` violation); then it
/// is refused with `InvalidTime` from its maturity on. On failure nothing
/// changes. On success the deposit goes to the user's vault and the saving's
/// principal and the locked total both grow by `amount`.
pub fn increment_sol_saving(
    ctx: &mut IncrementSolSaving,
    amount: u64,
    now: i64,
) -> (r: Result<Vec<Transfer>, InstructionError>)
    requires
        sol_saving_check(old(ctx).saving, old(ctx).user) is Ok && increment_accepted(old(ctx).saving, now) ==> {
            &&& old(ctx).saving.amount + amount <= u64::MAX
            &&& old(ctx).global_state.total_value_locked + amount <= u64::MAX
        },
    ensures
        r is Ok <==> sol_saving_check(old(ctx).saving, old(ctx).user) is Ok
            && increment_accepted(old(ctx).saving, now),
        r matches Err(e) ==> e == check_then(sol_saving_check(old(ctx).saving, old(ctx).user), BitsaveError::InvalidTime)
            && *final(ctx) == *old(ctx),
        r matches Ok(t) ==> {
            &&& t@ == increment_sol_transfers(old(ctx).user, old(ctx).user_vault, amount)
            &&& final(ctx).saving == topped_up(old(ctx).saving, amount as int)
            &&& final(ctx).global_state == locked_more(old(ctx).global_state, amount as int)
            &&& final(ctx).user_vault == old(ctx).user_vault
            &&& final(ctx).user == old(ctx).user
        },
{
    if let Err(v) = ctx.check_accounts() {
        return Err(InstructionError::Constraint(v));
    }
    if ctx.saving.maturity_time <= now {
        return Err(InstructionError::Bitsave(BitsaveError::InvalidTime));
    }
    let mut transfers: Vec<Transfer> = Vec::new();
    transfers.push(Transfer::Lamports { from: ctx.user, to: ctx.user_vault, amount });
    ctx.saving.amount = ctx.saving.amount + amount;
    ctx.global_state.total_value_locked = ctx.global_state.total_value_locked + amount;
    Ok(transfers)
}

/// Adds `amount` of the saving's token at time `now`. The accounts must
/// pass `IncrementTokenSaving::check_accounts` (else its violation); then the
/// top-up is refused with `InvalidTime` from the saving's maturity on. On
/// failure nothing changes. On success the deposit moves from the user's
/// token account to the vault token account and the saving's principal and
/// the locked total both grow by `amount`.
pub fn increment_token_saving(
    ctx: &mut IncrementTokenSaving,
    amount: u64,
    now: i64,
) -> (r: Result<Vec<Transfer>, InstructionError>)
    requires
        increment_token_saving_check(*old(ctx)) is Ok && increment_accepted(old(ctx).saving, now) ==> {
            &&& old(ctx).saving.amount + amount <= u64::MAX
            &&& old(ctx).global_state.total_value_locked + amount <= u64::MAX
        },
    ensures
        r is Ok <==> increment_token_saving_check(*old(ctx)) is Ok && increment_accepted(old(ctx).saving, now),
        r matches Err(e) ==> e == check_then(increment_token_saving_check(*old(ctx)), BitsaveError::InvalidTime)
            && *final(ctx) == *old(ctx),
        r matches Ok(t) ==> {
            &&& t@ == seq![
                Transfer::Token {
                    from: old(ctx).user_token_account.key,
                    to: old(ctx).vault_token_account.key,
                    authority: old(ctx).user,
                    amount,
                },
            ]
            &&& final(ctx).saving == topped_up(old(ctx).saving, amount as int)
            &&& final(ctx).global_state == locked_more(old(ctx).global_state, amount as int)
            &&& final(ctx).user_vault == old(ctx).user_vault
            &&& final(ctx).user == old(ctx).user
            &&& final(ctx).user_token_account == old(ctx).user_token_account
            &&& final(ctx).vault_token_account == old(ctx).vault_token_account
        },
{
    if let Err(v) = ctx.check_accounts() {
        return Err(InstructionError::Constraint(v));
    }
    if ctx.saving.maturity_time <= now {
        return Err(InstructionError::Bitsave(BitsaveError::InvalidTime));
    }
    let mut transfers: Vec<Transfer> = Vec::new();
    transfers.push(
        Transfer::Token {
            from: ctx.user_token_account.key,
            to: ctx.vault_token_account.key,
            authority: ctx.user,
            amount,
        },
    );
    ctx.saving.amount = ctx.saving.amount + amount;
    ctx.global_state.total_value_locked = ctx.global_state.total_value_locked + amount;
    Ok(transfers)
}

/// Pays out the saving at time `now` from the user's vault to the user. The
/// saving must be valid, the user's and in native SOL (else the `Raw`
/// violation, and nothing changes). The payout is the whole principal from
/// maturity on, the principal less the penalty share before it. The whole
/// principal leaves the locked total. The saving's account itself is closed
/// by the caller once the transfers succeed.
pub fn withdraw_sol_saving(ctx: &mut WithdrawSolSaving, now: i64) -> (r: Result<Vec<Transfer>, InstructionError>)
    requires
        sol_saving_check(old(ctx).saving, old(ctx).user) is Ok ==> {
            &&& withdrawal_computes(old(ctx).saving, now)
            &&& old(ctx).saving.amount <= old(ctx).global_state.total_value_locked
        },
    ensures
        r is Ok <==> sol_saving_check(old(ctx).saving, old(ctx).user) is Ok,
        r matches Err(e) ==> e == InstructionError::Constraint(ConstraintViolation::Raw) && *final(ctx) == *old(ctx),
        r matches Ok(t) ==> {
            &&& t@ == withdraw_sol_transfers(old(ctx).user_vault, old(ctx).user,
                withdrawal_amount(old(ctx).saving, now) as u64)
            &&& final(ctx).global_state == locked_less(old(ctx).global_state, old(ctx).saving.amount as int)
            &&& final(ctx).saving == old(ctx).saving
            &&& final(ctx).user_vault == old(ctx).user_vault
            &&& final(ctx).user == old(ctx).user
        },
{
    if let Err(v) = ctx.check_accounts() {
        return Err(InstructionError::Constraint(v));
    }
    let amount_to_withdraw = withdrawal_payout(&ctx.saving, now);
    let mut transfers: Vec<Transfer> = Vec::new();
    transfers.push(Transfer::VaultLamports { from: ctx.user_vault, to: ctx.user, amount: amount_to_withdraw });
    ctx.global_state.total_value_locked = ctx.global_state.total_value_locked - ctx.saving.amount;
    Ok(transfers)
}

/// Pays out the saving at time `now` from the vault token account to the
/// user's token account, signed by the user's vault. The accounts must pass
/// `WithdrawTokenSaving::check_accounts` (else its violation, and nothing
/// changes). The payout is the whole principal from maturity on, the
/// principal less the penalty share before it. The whole principal leaves
/// the locked total. The saving's account itself is closed by the caller
/// once the transfers succeed.
pub fn withdraw_token_saving(ctx: &mut WithdrawTokenSaving, now: i64) -> (r: Result<Vec<Transfer>, InstructionError>)
    requires
        withdraw_token_saving_check(*old(ctx)) is Ok ==> {
            &&& withdrawal_computes(old(ctx).saving, now)
            &&& old(ctx).saving.amount <= old(ctx).global_state.total_value_locked
        },
    ensures
        r is Ok <==> withdraw_token_saving_check(*old(ctx)) is Ok,
        r matches Err(e) ==> withdraw_token_saving_check(*old(ctx)) matches Err(v)
            && e == InstructionError::Constraint(v) && *final(ctx) == *old(ctx),
        r matches Ok(t) ==> {
            &&& t@ == seq![
                Transfer::VaultToken {
                    from: old(ctx).vault_token_account.key,
                    to: old(ctx).user_token_account.key,
                    vault: old(ctx).user_vault,
                    vault_owner: old(ctx).user,
                    amount: withdrawal_amount(old(ctx).saving, now) as u64,
                },
            ]
            &&& final(ctx).global_state == locked_less(old(ctx).global_state, old(ctx).saving.amount as int)
            &&& final(ctx).saving == old(ctx).saving
            &&& final(ctx).user_vault == old(ctx).user_vault
            &&& final(ctx).user == old(ctx).user
            &&& final(ctx).user_token_account == old(ctx).user_token_account
            &&& final(ctx).vault_token_account == old(ctx).vault_token_account
        },
{
    if let Err(v) = ctx.check_accounts() {
        return Err(InstructionError::Constraint(v));
    }
    let amount_to_withdraw = withdrawal_payout(&ctx.saving, now);
    let mut transfers: Vec<Transfer> = Vec::new();
    transfers.push(
        Transfer::VaultToken {
            from: ctx.vault_token_account.key,
            to: ctx.user_token_account.key,
            vault: ctx.user_vault,
            vault_owner: ctx.user,
            amount: amount_to_withdraw,
        },
    );
    ctx.global_state.total_value_locked = ctx.global_state.total_value_locked - ctx.saving.amount;
    Ok(transfers)
}

} // verus!
