//! What each operation decides, stated in terms of its inputs alone, with
//! the protocol's numbers written out.
use vstd::prelude::*;
use crate::accounts::{
    admin_check, create_token_saving_check, increment_token_saving_check, sol_saving_check,
    withdraw_token_saving_check, CreateTokenSaving, IncrementTokenSaving, WithdrawTokenSaving,
};
use crate::errors::{check_then, BitsaveError, ConstraintViolation, InstructionError};
use crate::instructions::{create_accepted, create_error, increment_accepted};
use crate::interest::{crp, interest};
use crate::key::{zero_key, AccountKey};
use crate::state::{
    initial_global_state, locked_less, locked_more, one_more_user, opened_saving, topped_up, withdrawal_amount,
    GlobalState, Saving,
};

verus! {

/// Before maturity a withdrawal pays the principal times the kept
/// percentage, divided by 100 and rounded down, however much of the term
/// has passed; from maturity on it pays the whole principal.
pub proof fn withdrawal_pays_principal_less_penalty(s: Saving, now: i64)
    ensures
        now < s.maturity_time ==> withdrawal_amount(s, now) == s.amount * (100 - s.penalty_percentage) / 100,
        now >= s.maturity_time ==> withdrawal_amount(s, now) == s.amount,
{
}

/// A create goes ahead exactly when the maturity lies after `now` and safe
/// mode is off, however far ahead the maturity lies; a maturity not after
/// `now` is `InvalidTime`, and safe mode with a later maturity is
/// `NotSupported`.
pub proof fn create_accepted_exactly_for_future_maturity(maturity_time: i64, safe_mode: bool, now: i64)
    ensures
        create_accepted(maturity_time, safe_mode, now) <==> (now < maturity_time && !safe_mode),
        maturity_time <= now ==> create_error(maturity_time, now) == BitsaveError::InvalidTime,
        now < maturity_time ==> create_error(maturity_time, now) == BitsaveError::NotSupported,
{
}

/// A top-up goes ahead exactly before the saving's maturity, however much of
/// the term has passed.
pub proof fn top_up_accepted_exactly_before_maturity(s: Saving, now: i64)
    ensures
        increment_accepted(s, now) <==> now < s.maturity_time,
{
}

/// A failed account check is reported as that violation; otherwise the
/// instruction's own error is.
pub proof fn account_check_failure_comes_first(check: Result<(), ConstraintViolation>, e: BitsaveError)
    ensures
        check matches Err(v) ==> check_then(check, e) == InstructionError::Constraint(v),
        check is Ok ==> check_then(check, e) == InstructionError::Bitsave(e),
{
}

/// The fee account passes exactly when it is the admin of the global state.
pub proof fn admin_check_exactly_admin(g: GlobalState, admin_account: AccountKey)
    ensures
        admin_check(g, admin_account) == if admin_account@ == g.admin@ {
            Ok::<(), ConstraintViolation>(())
        } else {
            Err(ConstraintViolation::Address)
        },
{
}

/// A native SOL instruction accepts exactly a valid saving of the user whose
/// mint is the zero address.
pub proof fn sol_saving_check_exactly(s: Saving, user: AccountKey)
    ensures
        sol_saving_check(s, user) == if s.is_valid && s.owner@ == user@ && s.token_mint@ == Seq::new(
            32,
            |i: int| 0u8,
        ) {
            Ok::<(), ConstraintViolation>(())
        } else {
            Err(ConstraintViolation::Raw)
        },
{
}

/// A token saving is created exactly when the fee account is the admin and
/// both token accounts hold the given mint, the user's owned by the user and
/// the vault's by the vault; whichever mint that is, the protocol's own
/// mints included. The first failing check, in that order and owner before
/// mint, is reported.
pub proof fn create_token_saving_check_exactly(c: CreateTokenSaving)
    ensures
        create_token_saving_check(c) == if c.admin_account@ != c.global_state.admin@ {
            Err(ConstraintViolation::Address)
        } else if c.user_token_account.owner@ != c.user@ {
            Err(ConstraintViolation::TokenOwner)
        } else if c.user_token_account.mint@ != c.token_mint@ {
            Err(ConstraintViolation::TokenMint)
        } else if c.vault_token_account.owner@ != c.user_vault@ {
            Err(ConstraintViolation::TokenOwner)
        } else if c.vault_token_account.mint@ != c.token_mint@ {
            Err(ConstraintViolation::TokenMint)
        } else {
            Ok::<(), ConstraintViolation>(())
        },
{
}

/// A token top-up is accepted exactly for a valid token saving of the user
/// whose token accounts hold its mint, the user's owned by the user and the
/// vault's by the vault; the first failing check is reported.
pub proof fn increment_token_saving_check_exactly(c: IncrementTokenSaving)
    ensures
        increment_token_saving_check(c) == if !(c.saving.is_valid && c.saving.owner@ == c.user@
            && c.saving.token_mint@ != Seq::new(32, |i: int| 0u8)) {
            Err(ConstraintViolation::Raw)
        } else if c.user_token_account.owner@ != c.user@ {
            Err(ConstraintViolation::TokenOwner)
        } else if c.user_token_account.mint@ != c.saving.token_mint@ {
            Err(ConstraintViolation::TokenMint)
        } else if c.vault_token_account.owner@ != c.user_vault@ {
            Err(ConstraintViolation::TokenOwner)
        } else if c.vault_token_account.mint@ != c.saving.token_mint@ {
            Err(ConstraintViolation::TokenMint)
        } else {
            Ok::<(), ConstraintViolation>(())
        },
{
}

/// A token withdrawal is accepted exactly for a valid token saving of the
/// user whose receiving account holds its mint (whoever owns it) and whose
/// vault token account holds its mint and is owned by the vault; the first
/// failing check is reported.
pub proof fn withdraw_token_saving_check_exactly(c: WithdrawTokenSaving)
    ensures
        withdraw_token_saving_check(c) == if !(c.saving.is_valid && c.saving.owner@ == c.user@
            && c.saving.token_mint@ != Seq::new(32, |i: int| 0u8)) {
            Err(ConstraintViolation::Raw)
        } else if c.user_token_account.mint@ != c.saving.token_mint@ {
            Err(ConstraintViolation::TokenMint)
        } else if c.vault_token_account.owner@ != c.user_vault@ {
            Err(ConstraintViolation::TokenOwner)
        } else if c.vault_token_account.mint@ != c.saving.token_mint@ {
            Err(ConstraintViolation::TokenMint)
        } else {
            Ok::<(), ConstraintViolation>(())
        },
{
}

/// The zero address is 32 zero bytes.
pub proof fn zero_key_is_zero_bytes()
    ensures
        zero_key().len() == 32,
        forall|i: int| 0 <= i < 32 ==> zero_key()[i] == 0u8,
{
}

/// A fresh global state charges 100,000 lamports for joining and for each
/// saving, locks nothing and counts no users.
pub proof fn fresh_state_fees_and_counters(admin: AccountKey, stable_coin_mint: AccountKey, cs_token_mint: AccountKey)
    ensures
        initial_global_state(admin, stable_coin_mint, cs_token_mint).admin == admin,
        initial_global_state(admin, stable_coin_mint, cs_token_mint).stable_coin_mint == stable_coin_mint,
        initial_global_state(admin, stable_coin_mint, cs_token_mint).cs_token_mint == cs_token_mint,
        initial_global_state(admin, stable_coin_mint, cs_token_mint).join_fee == 100_000,
        initial_global_state(admin, stable_coin_mint, cs_token_mint).saving_fee == 100_000,
        initial_global_state(admin, stable_coin_mint, cs_token_mint).total_value_locked == 0,
        initial_global_state(admin, stable_coin_mint, cs_token_mint).user_count == 0,
{
}

/// Locking more adds exactly the amount to the locked total, locking less
/// takes exactly the amount off, a join adds exactly one user, and a top-up
/// adds exactly the amount to the principal; nothing else changes.
pub proof fn state_steps_change_one_counter(g: GlobalState, s: Saving, amount: u64)
    ensures
        g.total_value_locked + amount <= u64::MAX ==> locked_more(g, amount as int)
            == (GlobalState { total_value_locked: (g.total_value_locked + amount) as u64, ..g })
            && locked_more(g, amount as int).total_value_locked == g.total_value_locked + amount,
        amount <= g.total_value_locked ==> locked_less(g, amount as int)
            == (GlobalState { total_value_locked: (g.total_value_locked - amount) as u64, ..g })
            && locked_less(g, amount as int).total_value_locked == g.total_value_locked - amount,
        g.user_count < u64::MAX ==> one_more_user(g).user_count == g.user_count + 1
            && one_more_user(g) == (GlobalState { user_count: one_more_user(g).user_count, ..g }),
        s.amount + amount <= u64::MAX ==> topped_up(s, amount as int).amount == s.amount + amount
            && topped_up(s, amount as int) == (Saving { amount: topped_up(s, amount as int).amount, ..s }),
{
}

/// The reward percentage, scaled by 10^18: 100 for an empty vault, else
/// (15,000,000 - vault state) / vault state * 100.
pub proof fn reward_percentage_values(vault_state: int)
    ensures
        vault_state == 0 ==> crp(vault_state) == 100 * 1_000_000_000_000_000_000,
        vault_state != 0 ==> crp(vault_state)
            == (15_000_000 - vault_state) * 1_000_000_000_000_000_000 / vault_state * 100,
{
}

/// A non-positive time earns nothing.
pub proof fn no_interest_without_time(principal: int, time_interval: int, vault_state: int, total_value_locked: int)
    requires
        time_interval <= 0,
    ensures
        interest(principal, time_interval, vault_state, total_value_locked) == 0,
{
}

/// With an empty vault and 1,000 locked the rate is 1,000, so a year earns
/// one percent of the principal, rounded down.
pub proof fn empty_vault_year_earns_one_percent(principal: int)
    requires
        principal >= 0,
    ensures
        interest(principal, 31_536_000, 0, 1000) == principal / 100,
{
    let s: int = 1_000_000_000_000_000_000;
    assert(crp(0) == 100 * s);
    assert((100 * s) * 1000 / s == 100_000);
    assert(100_000_000 * s / 100_000 == 1000 * s);
    assert(31_536_000 * s / 31_536_000 == s);
    assert(principal * (1000 * s) / s == principal * 1000) by (nonlinear_arith)
        requires
            s > 0,
    {
        assert(principal * (1000 * s) == (principal * 1000) * s);
    }
    assert((principal * 1000) * s / s == principal * 1000) by (nonlinear_arith)
        requires
            s > 0,
    ;
    assert((principal * 1000) * s / 100_000 == principal * 10_000_000_000_000_000);
    assert(principal * 10_000_000_000_000_000 / s == principal / 100);
}

/// With 5,000,000 in the vault and 1,000 locked the reward percentage is
/// 200 and the rate 500, so a year earns half a percent of the principal,
/// rounded down.
pub proof fn half_full_vault_year_earns_half_percent(principal: int)
    requires
        principal >= 0,
    ensures
        interest(principal, 31_536_000, 5_000_000, 1000) == principal / 200,
{
    let s: int = 1_000_000_000_000_000_000;
    assert(crp(5_000_000) == 200 * s);
    assert((200 * s) * 1000 / s == 200_000);
    assert(100_000_000 * s / 200_000 == 500 * s);
    assert(31_536_000 * s / 31_536_000 == s);
    assert(principal * (500 * s) / s == principal * 500) by (nonlinear_arith)
        requires
            s > 0,
    {
        assert(principal * (500 * s) == (principal * 500) * s);
    }
    assert((principal * 500) * s / s == principal * 500) by (nonlinear_arith)
        requires
            s > 0,
    ;
    assert((principal * 500) * s / 100_000 == principal * 5_000_000_000_000_000);
    assert(principal * 5_000_000_000_000_000 / s == principal / 200);
}

/// With nothing locked the rate is 1, so a year earns a hundred-thousandth
/// of the principal, rounded down, whatever the vault state.
pub proof fn nothing_locked_year_earns_hundred_thousandth(principal: int, vault_state: int)
    requires
        principal >= 0,
        0 <= vault_state <= 15_000_000,
    ensures
        interest(principal, 31_536_000, vault_state, 0) == principal / 100_000,
{
    let s: int = 1_000_000_000_000_000_000;
    assert(crp(vault_state) * 0 == 0);
    assert(31_536_000 * s / 31_536_000 == s);
    assert(principal * s / s == principal) by (nonlinear_arith)
        requires
            s > 0,
    ;
    assert(principal * s / 100_000 == principal * 10_000_000_000_000);
    assert(principal * 10_000_000_000_000 / s == principal / 100_000);
}

/// A saving written by a create instruction holds exactly the given owner,
/// name, amount, mint, start time `now`, maturity and penalty, and is valid
/// and not in safe mode.
pub proof fn opened_saving_holds_the_request(
    s: Saving,
    owner: AccountKey,
    name: String,
    amount: u64,
    mint: Seq<u8>,
    now: i64,
    maturity_time: i64,
    penalty: u8,
)
    ensures
        opened_saving(s, owner, name, amount, mint, now, maturity_time, penalty) <==> (
            s.owner == owner && s.name == name && s.amount == amount && s.token_mint@ == mint
            && s.start_time == now && s.maturity_time == maturity_time && s.penalty_percentage == penalty
            && !s.is_safe_mode && s.is_valid
        ),
{
}

} // verus!
