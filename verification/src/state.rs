use vstd::prelude::*;
use crate::key::AccountKey;

verus! {

/// Fee, in lamports, that a user pays to the admin when joining.
pub const JOIN_FEE: u64 = 100_000;

/// Fee, in lamports, that a user pays to the admin for each saving created.
pub const SAVING_FEE: u64 = 100_000;

/// The protocol-wide configuration and counters.
#[derive(Clone, Copy, Debug)]
pub struct GlobalState {
    pub admin: AccountKey,
    pub stable_coin_mint: AccountKey,
    pub cs_token_mint: AccountKey,
    pub join_fee: u64,
    pub saving_fee: u64,
    /// Sum of the principals of the savings not yet withdrawn.
    pub total_value_locked: u64,
    /// Number of users that have joined.
    pub user_count: u64,
}

/// A user's profile; its address also holds the user's native SOL savings
/// and is the authority over the user's vault token accounts.
#[derive(Clone, Copy, Debug)]
pub struct UserVault {
    pub owner: AccountKey,
}

/// One savings plan of a user.
#[derive(Clone, Debug)]
pub struct Saving {
    pub owner: AccountKey,
    pub name: String,
    /// Principal deposited so far.
    pub amount: u64,
    /// Mint of the saved token; the zero address for native SOL.
    pub token_mint: AccountKey,
    pub start_time: i64,
    pub maturity_time: i64,
    /// Share of the principal, in percent, kept back on a withdrawal before maturity.
    pub penalty_percentage: u8,
    pub is_safe_mode: bool,
    pub is_valid: bool,
}

/// What the protocol reads of a token account: its address, its mint and its owner.
#[derive(Clone, Copy, Debug)]
pub struct TokenAccount {
    pub key: AccountKey,
    pub mint: AccountKey,
    pub owner: AccountKey,
}

/// The global state that `initialize` writes.
pub open spec fn initial_global_state(
    admin: AccountKey,
    stable_coin_mint: AccountKey,
    cs_token_mint: AccountKey,
) -> GlobalState {
    GlobalState {
        admin,
        stable_coin_mint,
        cs_token_mint,
        join_fee: JOIN_FEE,
        saving_fee: SAVING_FEE,
        total_value_locked: 0,
        user_count: 0,
    }
}

/// `g` with `amount` more locked.
pub open spec fn locked_more(g: GlobalState, amount: int) -> GlobalState {
    GlobalState { total_value_locked: (g.total_value_locked + amount) as u64, ..g }
}

/// `g` with `amount` less locked.
pub open spec fn locked_less(g: GlobalState, amount: int) -> GlobalState {
    GlobalState { total_value_locked: (g.total_value_locked - amount) as u64, ..g }
}

/// `g` with one more user.
pub open spec fn one_more_user(g: GlobalState) -> GlobalState {
    GlobalState { user_count: (g.user_count + 1) as u64, ..g }
}

/// `s` is the saving that a create instruction at time `now` writes: owned
/// by `owner`, holding `amount` of the mint at address `mint` (the zero
/// address for native SOL), running from `now` to `maturity_time`, valid and
/// not in safe mode.
pub open spec fn opened_saving(
    s: Saving,
    owner: AccountKey,
    name: String,
    amount: u64,
    mint: Seq<u8>,
    now: i64,
    maturity_time: i64,
    penalty: u8,
) -> bool {
    &&& s.owner == owner
    &&& s.name == name
    &&& s.amount == amount
    &&& s.token_mint@ == mint
    &&& s.start_time == now
    &&& s.maturity_time == maturity_time
    &&& s.penalty_percentage == penalty
    &&& !s.is_safe_mode
    &&& s.is_valid
}

/// `s` with `amount` more principal.
pub open spec fn topped_up(s: Saving, amount: int) -> Saving {
    Saving { amount: (s.amount + amount) as u64, ..s }
}

/// What a withdrawal at time `now` pays out of saving `s`: the whole
/// principal from maturity on, and before it the principal less the penalty
/// share, rounded down.
pub open spec fn withdrawal_amount(s: Saving, now: i64) -> int {
    if now < s.maturity_time {
        s.amount * (100 - s.penalty_percentage) / 100
    } else {
        s.amount as int
    }
}

/// The withdrawal at `now` of `s` computes without overflow: before maturity
/// the penalty is at most 100 percent and the principal times the kept
/// percentage fits in 64 bits.
pub open spec fn withdrawal_computes(s: Saving, now: i64) -> bool {
    now < s.maturity_time ==> {
        &&& s.penalty_percentage <= 100
        &&& s.amount * (100 - s.penalty_percentage) <= u64::MAX
    }
}

/// Computes what a withdrawal at time `now` pays out of `s`.
pub fn withdrawal_payout(s: &Saving, now: i64) -> (r: u64)
    requires
        withdrawal_computes(*s, now),
    ensures
        r == withdrawal_amount(*s, now),
{
    let mut amount_to_withdraw = s.amount;
    if now < s.maturity_time {
        amount_to_withdraw = amount_to_withdraw * (100 - s.penalty_percentage as u64) / 100;
    }
    amount_to_withdraw
}

} // verus!
