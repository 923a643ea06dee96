use vstd::prelude::*;
use crate::accounts::{sol_saving_of, token_saving_of};
use crate::instructions::{
    create_accepted, create_sol_transfers, increment_sol_transfers, withdraw_sol_transfers, Transfer,
};
use crate::interest::{bs_rate, crp, interest, interest_product, years_taken, SCALE, TOTAL_SUPPLY};
use crate::key::AccountKey;
use crate::state::{
    initial_global_state, one_more_user, locked_less, locked_more, opened_saving, topped_up, withdrawal_amount, GlobalState, Saving,
};

verus! {

/// A withdrawal never pays out more than the saving's principal, and never
/// a negative amount, whenever the penalty is at most 100 percent.
pub proof fn withdrawal_never_exceeds_principal(s: Saving, now: i64)
    requires
        s.penalty_percentage <= 100,
    ensures
        0 <= withdrawal_amount(s, now) <= s.amount,
{
    if now < s.maturity_time {
        let k = 100 - s.penalty_percentage;
        assert(0 <= s.amount * k <= s.amount * 100) by (nonlinear_arith)
            requires
                0 <= k <= 100,
        ;
    }
}

/// From the maturity time on, a withdrawal pays out the whole principal.
pub proof fn withdrawal_in_full_from_maturity(s: Saving, now: i64)
    requires
        s.maturity_time <= now,
    ensures
        withdrawal_amount(s, now) == s.amount,
{
}

/// Before maturity, a higher penalty never pays out more.
pub proof fn higher_penalty_pays_less(s: Saving, penalty: u8, now: i64)
    requires
        s.penalty_percentage <= penalty <= 100,
    ensures
        withdrawal_amount(Saving { penalty_percentage: penalty, ..s }, now) <= withdrawal_amount(s, now),
{
    if now < s.maturity_time {
        let hi = 100 - s.penalty_percentage;
        let lo = 100 - penalty;
        assert(s.amount * lo <= s.amount * hi) by (nonlinear_arith)
            requires
                0 <= lo <= hi,
        ;
        vstd::arithmetic::div_mod::lemma_div_is_ordered(s.amount * lo, s.amount * hi, 100);
    }
}

/// The locked total and the saving after topping up, in turn, with each of
/// `amounts`.
pub open spec fn after_top_ups(g: GlobalState, s: Saving, amounts: Seq<u64>) -> (GlobalState, Saving)
    decreases amounts.len(),
{
    if amounts.len() == 0 {
        (g, s)
    } else {
        let (g1, s1) = after_top_ups(g, s, amounts.drop_last());
        (locked_more(g1, amounts.last() as int), topped_up(s1, amounts.last() as int))
    }
}

/// Each top-up in turn keeps the locked total within 64 bits.
pub open spec fn top_ups_fit(g: GlobalState, s: Saving, amounts: Seq<u64>) -> bool
    decreases amounts.len(),
{
    if amounts.len() == 0 {
        true
    } else {
        let (g1, s1) = after_top_ups(g, s, amounts.drop_last());
        &&& top_ups_fit(g, s, amounts.drop_last())
        &&& g1.total_value_locked + amounts.last() <= u64::MAX
        &&& s1.amount + amounts.last() <= u64::MAX
    }
}

/// Topping up a saving grows the locked total exactly as much as the
/// saving's principal, and changes nothing else of either.
pub proof fn top_ups_lock_what_they_add(g: GlobalState, s: Saving, amounts: Seq<u64>)
    requires
        top_ups_fit(g, s, amounts),
    ensures
        after_top_ups(g, s, amounts).0.total_value_locked - after_top_ups(g, s, amounts).1.amount
            == g.total_value_locked - s.amount,
        after_top_ups(g, s, amounts).0 == (GlobalState {
            total_value_locked: after_top_ups(g, s, amounts).0.total_value_locked,
            ..g
        }),
        after_top_ups(g, s, amounts).1 == (Saving { amount: after_top_ups(g, s, amounts).1.amount, ..s }),
    decreases amounts.len(),
{
    if amounts.len() > 0 {
        top_ups_lock_what_they_add(g, s, amounts.drop_last());
    }
}

/// Opening a saving, topping it up any number of times and withdrawing it
/// leaves the global state as it was before the saving was opened.
pub proof fn withdrawal_undoes_deposits(g: GlobalState, opened: Saving, amounts: Seq<u64>)
    requires
        g.total_value_locked + opened.amount <= u64::MAX,
        top_ups_fit(locked_more(g, opened.amount as int), opened, amounts),
    ensures
        locked_less(
            after_top_ups(locked_more(g, opened.amount as int), opened, amounts).0,
            after_top_ups(locked_more(g, opened.amount as int), opened, amounts).1.amount as int,
        ) == g,
{
    top_ups_lock_what_they_add(locked_more(g, opened.amount as int), opened, amounts);
}

/// A saving that a create instruction accepts and writes matures strictly
/// after it starts.
pub proof fn opened_saving_matures_after_start(
    s: Saving,
    owner: AccountKey,
    name: String,
    amount: u64,
    mint: Seq<u8>,
    now: i64,
    maturity_time: i64,
    penalty: u8,
    safe_mode: bool,
)
    requires
        create_accepted(maturity_time, safe_mode, now),
        opened_saving(s, owner, name, amount, mint, now, maturity_time, penalty),
    ensures
        s.start_time < s.maturity_time,
        s.is_valid,
        !s.is_safe_mode,
{
}

/// No saving passes both the native SOL check and the token check.
pub proof fn sol_and_token_savings_are_disjoint(s: Saving, user: AccountKey)
    ensures
        !(sol_saving_of(s, user) && token_saving_of(s, user)),
{
}

/// The reward percentage is never negative while the vault state is within
/// the supply.
proof fn crp_nonnegative(vault_state: int)
    requires
        0 <= vault_state <= TOTAL_SUPPLY,
    ensures
        crp(vault_state) >= 0,
{
    if vault_state != 0 {
        let a = (TOTAL_SUPPLY as int) - vault_state;
        assert(a * (SCALE as int) >= 0) by (nonlinear_arith)
            requires
                a >= 0,
        ;
        vstd::arithmetic::div_mod::lemma_div_pos_is_pos(a * (SCALE as int), vault_state);
    }
}

/// The rate is never negative while the vault state is within the supply.
proof fn bs_rate_nonnegative(vault_state: int, total_value_locked: int)
    requires
        0 <= vault_state <= TOTAL_SUPPLY,
        total_value_locked >= 0,
    ensures
        bs_rate(vault_state, total_value_locked) >= 0,
{
    crp_nonnegative(vault_state);
    let c = crp(vault_state);
    assert(c * total_value_locked >= 0) by (nonlinear_arith)
        requires
            c >= 0,
            total_value_locked >= 0,
    ;
    vstd::arithmetic::div_mod::lemma_div_pos_is_pos(c * total_value_locked, SCALE as int);
    let d = c * total_value_locked / (SCALE as int);
    if d != 0 {
        vstd::arithmetic::div_mod::lemma_div_pos_is_pos(
            (crate::interest::MAX_SUPPLY as int) * (SCALE as int),
            d,
        );
    }
}

/// `x * k / d` grows with `x`, for non-negative `k` and positive `d`.
proof fn scaled_quotient_ordered(x: int, y: int, k: int, d: int)
    requires
        0 <= x <= y,
        k >= 0,
        d > 0,
    ensures
        0 <= x * k / d <= y * k / d,
{
    assert(0 <= x * k <= y * k) by (nonlinear_arith)
        requires
            0 <= x <= y,
            k >= 0,
    ;
    vstd::arithmetic::div_mod::lemma_div_is_ordered(x * k, y * k, d);
    vstd::arithmetic::div_mod::lemma_div_pos_is_pos(x * k, d);
}

/// More principal never earns less interest, other things equal.
pub proof fn interest_grows_with_principal(
    p1: int,
    p2: int,
    time_interval: int,
    vault_state: int,
    total_value_locked: int,
)
    requires
        0 <= p1 <= p2,
        0 <= vault_state <= TOTAL_SUPPLY,
        total_value_locked >= 0,
    ensures
        0 <= interest(p1, time_interval, vault_state, total_value_locked)
            <= interest(p2, time_interval, vault_state, total_value_locked),
{
    if time_interval > 0 {
        let s = SCALE as int;
        let rate = bs_rate(vault_state, total_value_locked);
        bs_rate_nonnegative(vault_state, total_value_locked);
        let years = years_taken(time_interval);
        scaled_quotient_ordered(time_interval, time_interval, s, crate::interest::YEAR_IN_SECONDS as int);
        scaled_quotient_ordered(p1, p2, rate, s);
        scaled_quotient_ordered(p1 * rate / s, p2 * rate / s, years, s);
        let q1 = interest_product(p1, time_interval, vault_state, total_value_locked);
        let q2 = interest_product(p2, time_interval, vault_state, total_value_locked);
        scaled_quotient_ordered(q1, q2, s, 100 * (crate::interest::DIVISOR as int));
        let a1 = q1 * s / (100 * (crate::interest::DIVISOR as int));
        let a2 = q2 * s / (100 * (crate::interest::DIVISOR as int));
        scaled_quotient_ordered(a1, a2, 1, s);
        assert(a1 * 1 == a1 && a2 * 1 == a2);
    }
}

/// A longer time never earns less interest, other things equal.
pub proof fn interest_grows_with_time(
    principal: int,
    t1: int,
    t2: int,
    vault_state: int,
    total_value_locked: int,
)
    requires
        principal >= 0,
        t1 <= t2,
        0 <= vault_state <= TOTAL_SUPPLY,
        total_value_locked >= 0,
    ensures
        0 <= interest(principal, t1, vault_state, total_value_locked)
            <= interest(principal, t2, vault_state, total_value_locked),
{
    if t2 > 0 {
        let s = SCALE as int;
        let d = 100 * (crate::interest::DIVISOR as int);
        let rate = bs_rate(vault_state, total_value_locked);
        bs_rate_nonnegative(vault_state, total_value_locked);
        scaled_quotient_ordered(principal, principal, rate, s);
        let base = principal * rate / s;
        let y2 = years_taken(t2);
        scaled_quotient_ordered(t2, t2, s, crate::interest::YEAR_IN_SECONDS as int);
        scaled_quotient_ordered(base, base, y2, s);
        let q2 = interest_product(principal, t2, vault_state, total_value_locked);
        scaled_quotient_ordered(q2, q2, s, d);
        scaled_quotient_ordered(q2 * s / d, q2 * s / d, 1, s);
        assert((q2 * s / d) * 1 == q2 * s / d);
        if t1 > 0 {
            let y1 = years_taken(t1);
            scaled_quotient_ordered(t1, t2, s, crate::interest::YEAR_IN_SECONDS as int);
            scaled_quotient_ordered(y1, y2, base, s);
            assert(base * y1 == y1 * base && base * y2 == y2 * base) by (nonlinear_arith);
            let q1 = interest_product(principal, t1, vault_state, total_value_locked);
            scaled_quotient_ordered(q1, q2, s, d);
            scaled_quotient_ordered(q1 * s / d, q2 * s / d, 1, s);
            assert((q1 * s / d) * 1 == q1 * s / d);
        }
    }
}

/// Sum of the principals of `savings`.
pub open spec fn principal_sum(savings: Seq<Saving>) -> int
    decreases savings.len(),
{
    if savings.len() == 0 {
        0
    } else {
        principal_sum(savings.drop_last()) + savings.last().amount
    }
}

proof fn principal_sum_nonnegative(savings: Seq<Saving>)
    ensures
        principal_sum(savings) >= 0,
    decreases savings.len(),
{
    if savings.len() > 0 {
        principal_sum_nonnegative(savings.drop_last());
    }
}

proof fn principal_sum_update(savings: Seq<Saving>, i: int, s: Saving)
    requires
        0 <= i < savings.len(),
    ensures
        principal_sum(savings.update(i, s)) == principal_sum(savings) - savings[i].amount + s.amount,
    decreases savings.len(),
{
    let u = savings.update(i, s);
    if i == savings.len() - 1 {
        assert(u.drop_last() =~= savings.drop_last());
    } else {
        principal_sum_update(savings.drop_last(), i, s);
        assert(u.drop_last() =~= savings.drop_last().update(i, s));
    }
}

proof fn principal_sum_remove(savings: Seq<Saving>, i: int)
    requires
        0 <= i < savings.len(),
    ensures
        principal_sum(savings.remove(i)) == principal_sum(savings) - savings[i].amount,
    decreases savings.len(),
{
    let r = savings.remove(i);
    if i == savings.len() - 1 {
        assert(r =~= savings.drop_last());
    } else {
        principal_sum_remove(savings.drop_last(), i);
        assert(r.drop_last() =~= savings.drop_last().remove(i));
    }
}

/// Where the locked total is the sum of the principals of the live savings,
/// opening a saving of `amount` keeps it so: the new locked total is the sum
/// over the live savings and the new one.
pub proof fn opening_keeps_locked_total_the_sum(g: GlobalState, live: Seq<Saving>, opened: Saving, amount: u64)
    requires
        g.total_value_locked == principal_sum(live),
        opened.amount == amount,
        g.total_value_locked + amount <= u64::MAX,
    ensures
        locked_more(g, amount as int).total_value_locked == principal_sum(live.push(opened)),
{
    assert(live.push(opened).drop_last() =~= live);
}

/// Where the locked total is the sum of the principals of the live savings,
/// topping up the live saving at `i` with `amount` keeps it so.
pub proof fn topping_up_keeps_locked_total_the_sum(g: GlobalState, live: Seq<Saving>, i: int, amount: u64)
    requires
        g.total_value_locked == principal_sum(live),
        0 <= i < live.len(),
        g.total_value_locked + amount <= u64::MAX,
        live[i].amount + amount <= u64::MAX,
    ensures
        locked_more(g, amount as int).total_value_locked
            == principal_sum(live.update(i, topped_up(live[i], amount as int))),
{
    principal_sum_update(live, i, topped_up(live[i], amount as int));
}

/// Where the locked total is the sum of the principals of the live savings,
/// withdrawing the live saving at `i` keeps it so, whatever the penalty:
/// its whole principal leaves the locked total.
pub proof fn withdrawing_keeps_locked_total_the_sum(g: GlobalState, live: Seq<Saving>, i: int)
    requires
        g.total_value_locked == principal_sum(live),
        0 <= i < live.len(),
    ensures
        live[i].amount <= g.total_value_locked,
        locked_less(g, live[i].amount as int).total_value_locked == principal_sum(live.remove(i)),
{
    principal_sum_remove(live, i);
    principal_sum_nonnegative(live.remove(i));
}

/// Lamports that the transfers `ts` move into account `k` less those they
/// move out of it.
pub open spec fn net_lamports(ts: Seq<Transfer>, k: AccountKey) -> int
    decreases ts.len(),
{
    if ts.len() == 0 {
        0
    } else {
        net_lamports(ts.drop_last(), k) + match ts.last() {
            Transfer::Lamports { from, to, amount } | Transfer::VaultLamports { from, to, amount } => {
                (if to@ == k@ { amount as int } else { 0 }) - (if from@ == k@ { amount as int } else { 0 })
            },
            _ => 0,
        }
    }
}

proof fn net_lamports_append(a: Seq<Transfer>, b: Seq<Transfer>, k: AccountKey)
    ensures
        net_lamports(a + b, k) == net_lamports(a, k) + net_lamports(b, k),
    decreases b.len(),
{
    if b.len() == 0 {
        assert(a + b =~= a);
    } else {
        net_lamports_append(a, b.drop_last(), k);
        assert((a + b).drop_last() =~= a + b.drop_last());
    }
}

/// Sum of `amounts`.
pub open spec fn amount_sum(amounts: Seq<u64>) -> int
    decreases amounts.len(),
{
    if amounts.len() == 0 {
        0
    } else {
        amount_sum(amounts.drop_last()) + amounts.last()
    }
}

/// The transfers of native SOL top-ups by `user` into `vault` with each of
/// `amounts` in turn.
pub open spec fn top_up_transfers(user: AccountKey, vault: AccountKey, amounts: Seq<u64>) -> Seq<Transfer>
    decreases amounts.len(),
{
    if amounts.len() == 0 {
        seq![]
    } else {
        top_up_transfers(user, vault, amounts.drop_last()) + increment_sol_transfers(user, vault, amounts.last())
    }
}

proof fn top_ups_move_their_sum(user: AccountKey, vault: AccountKey, amounts: Seq<u64>)
    requires
        user@ != vault@,
    ensures
        net_lamports(top_up_transfers(user, vault, amounts), vault) == amount_sum(amounts),
        net_lamports(top_up_transfers(user, vault, amounts), user) == -amount_sum(amounts),
    decreases amounts.len(),
{
    if amounts.len() > 0 {
        top_ups_move_their_sum(user, vault, amounts.drop_last());
        let last = increment_sol_transfers(user, vault, amounts.last());
        net_lamports_append(top_up_transfers(user, vault, amounts.drop_last()), last, vault);
        net_lamports_append(top_up_transfers(user, vault, amounts.drop_last()), last, user);
        assert(last.drop_last() =~= Seq::<Transfer>::empty());
        assert(net_lamports(last.drop_last(), vault) == 0);
        assert(net_lamports(last.drop_last(), user) == 0);
    }
}

proof fn top_ups_add_their_sum(g: GlobalState, s: Saving, amounts: Seq<u64>)
    requires
        top_ups_fit(g, s, amounts),
    ensures
        after_top_ups(g, s, amounts).1.amount == s.amount + amount_sum(amounts),
    decreases amounts.len(),
{
    if amounts.len() > 0 {
        top_ups_add_their_sum(g, s, amounts.drop_last());
    }
}

/// Opening a native SOL saving, topping it up any number of times and
/// withdrawing it from maturity on moves, all transfers together, no
/// lamports into or out of the vault: the user gets every deposit back and
/// only the saving fee goes to the admin.
pub proof fn matured_saving_returns_every_deposit(
    user: AccountKey,
    admin: AccountKey,
    vault: AccountKey,
    fee: u64,
    g: GlobalState,
    opened: Saving,
    amounts: Seq<u64>,
    now: i64,
)
    requires
        user@ != vault@,
        user@ != admin@,
        admin@ != vault@,
        g.total_value_locked + opened.amount <= u64::MAX,
        top_ups_fit(locked_more(g, opened.amount as int), opened, amounts),
        opened.maturity_time <= now,
    ensures
        ({
            let last = after_top_ups(locked_more(g, opened.amount as int), opened, amounts).1;
            let all = create_sol_transfers(user, admin, fee, vault, opened.amount)
                + top_up_transfers(user, vault, amounts)
                + withdraw_sol_transfers(vault, user, withdrawal_amount(last, now) as u64);
            &&& net_lamports(all, vault) == 0
            &&& net_lamports(all, user) == -fee
            &&& net_lamports(all, admin) == fee
        }),
{
    let g1 = locked_more(g, opened.amount as int);
    top_ups_lock_what_they_add(g1, opened, amounts);
    top_ups_add_their_sum(g1, opened, amounts);
    let last = after_top_ups(g1, opened, amounts).1;
    assert(last.maturity_time == opened.maturity_time);
    let c = create_sol_transfers(user, admin, fee, vault, opened.amount);
    let t = top_up_transfers(user, vault, amounts);
    let w = withdraw_sol_transfers(vault, user, withdrawal_amount(last, now) as u64);
    top_ups_move_their_sum(user, vault, amounts);
    net_lamports_append(c + t, w, vault);
    net_lamports_append(c, t, vault);
    net_lamports_append(c + t, w, user);
    net_lamports_append(c, t, user);
    net_lamports_append(c + t, w, admin);
    net_lamports_append(c, t, admin);
    assert(c.drop_last().drop_last() =~= Seq::<Transfer>::empty());
    assert(w.drop_last() =~= Seq::<Transfer>::empty());
    reveal_with_fuel(net_lamports, 3);
    top_ups_admin_untouched(user, vault, admin, amounts);
}

proof fn top_ups_admin_untouched(user: AccountKey, vault: AccountKey, admin: AccountKey, amounts: Seq<u64>)
    requires
        user@ != admin@,
        vault@ != admin@,
    ensures
        net_lamports(top_up_transfers(user, vault, amounts), admin) == 0,
    decreases amounts.len(),
{
    if amounts.len() > 0 {
        top_ups_admin_untouched(user, vault, admin, amounts.drop_last());
        let last = increment_sol_transfers(user, vault, amounts.last());
        net_lamports_append(top_up_transfers(user, vault, amounts.drop_last()), last, admin);
        assert(last.drop_last() =~= Seq::<Transfer>::empty());
        assert(net_lamports(last.drop_last(), admin) == 0);
    }
}

/// The global state after a run of join instructions, where `accepted[i]`
/// says whether the `i`-th passed its account check: an accepted join writes
/// one vault and counts one more user, a refused one changes nothing.
pub open spec fn after_joins(g: GlobalState, accepted: Seq<bool>) -> GlobalState
    decreases accepted.len(),
{
    if accepted.len() == 0 {
        g
    } else if accepted.last() {
        one_more_user(after_joins(g, accepted.drop_last()))
    } else {
        after_joins(g, accepted.drop_last())
    }
}

/// Number of accepted joins, that is of vaults written.
pub open spec fn vaults_written(accepted: Seq<bool>) -> int
    decreases accepted.len(),
{
    if accepted.len() == 0 {
        0
    } else {
        vaults_written(accepted.drop_last()) + if accepted.last() { 1int } else { 0int }
    }
}

proof fn vaults_written_bounds(accepted: Seq<bool>)
    ensures
        0 <= vaults_written(accepted) <= accepted.len(),
    decreases accepted.len(),
{
    if accepted.len() > 0 {
        vaults_written_bounds(accepted.drop_last());
    }
}

/// From a freshly initialized global state, after any run of joins the user
/// count is the number of vaults written, and nothing else of the global
/// state has changed.
pub proof fn user_count_counts_vaults(
    admin: AccountKey,
    stable_coin_mint: AccountKey,
    cs_token_mint: AccountKey,
    accepted: Seq<bool>,
)
    requires
        accepted.len() <= u64::MAX,
    ensures
        ({
            let g0 = initial_global_state(admin, stable_coin_mint, cs_token_mint);
            &&& after_joins(g0, accepted).user_count == vaults_written(accepted)
            &&& after_joins(g0, accepted) == (GlobalState { user_count: after_joins(g0, accepted).user_count, ..g0 })
        }),
    decreases accepted.len(),
{
    vaults_written_bounds(accepted);
    if accepted.len() > 0 {
        user_count_counts_vaults(admin, stable_coin_mint, cs_token_mint, accepted.drop_last());
        vaults_written_bounds(accepted.drop_last());
    }
}

} // verus!
