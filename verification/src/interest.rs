use vstd::prelude::*;
use crate::errors::BitsaveError;

verus! {

/// Token supply the formula works with.
pub const TOTAL_SUPPLY: u128 = 15_000_000;

/// Maximal token supply.
pub const MAX_SUPPLY: u128 = 100_000_000;

/// Seconds in a year of 365 days.
pub const YEAR_IN_SECONDS: u128 = 31_536_000;

/// Fixed-point scale: 10^18 stands for 1.
pub const SCALE: u128 = 1_000_000_000_000_000_000;

/// Divisor of the accumulated interest.
pub const DIVISOR: u128 = 1000;

/// `a / b` in fixed point: the quotient scaled by `SCALE`, rounded down.
pub open spec fn fixed_div(a: int, b: int) -> int {
    a * (SCALE as int) / b
}

/// The product of `a` and `b`, where one of them is scaled, brought back to
/// the scale of the other, rounded down.
pub open spec fn fixed_mul(a: int, b: int) -> int {
    a * b / (SCALE as int)
}

/// The current reward percentage, scaled: (supply - vault state) / vault
/// state * 100, and 100 when the vault state is zero. Both branches carry the
/// same scale, as the rate below divides the product with the locked total by
/// the scale once; the percentage is not divided by the scale a second time.
pub open spec fn crp(vault_state: int) -> int {
    if vault_state == 0 {
        100 * (SCALE as int)
    } else {
        fixed_div((TOTAL_SUPPLY as int) - vault_state, vault_state) * 100
    }
}

/// The reward percentage times the locked total.
pub open spec fn rate_denominator(vault_state: int, total_value_locked: int) -> int {
    fixed_mul(crp(vault_state), total_value_locked)
}

/// The rate, scaled: the maximal supply over the reward percentage times the
/// locked total, and 1 when that product is zero.
pub open spec fn bs_rate(vault_state: int, total_value_locked: int) -> int {
    if rate_denominator(vault_state, total_value_locked) == 0 {
        SCALE as int
    } else {
        fixed_div(MAX_SUPPLY as int, rate_denominator(vault_state, total_value_locked))
    }
}

/// The elapsed time in years, scaled.
pub open spec fn years_taken(time_interval: int) -> int {
    fixed_div(time_interval, YEAR_IN_SECONDS as int)
}

/// Principal times rate times years, in units of the principal.
pub open spec fn interest_product(principal: int, time_interval: int, vault_state: int, total_value_locked: int) -> int {
    fixed_mul(fixed_mul(principal, bs_rate(vault_state, total_value_locked)), years_taken(time_interval))
}

/// The interest earned on `principal` over `time_interval` seconds: none for
/// a non-positive interval, else principal times rate times years divided
/// by 100 times the divisor, every division rounded down in fixed point.
pub open spec fn interest(principal: int, time_interval: int, vault_state: int, total_value_locked: int) -> int {
    if time_interval <= 0 {
        0
    } else {
        fixed_div(
            interest_product(principal, time_interval, vault_state, total_value_locked),
            100 * (DIVISOR as int),
        ) / (SCALE as int)
    }
}

/// Every step of the 128-bit computation of the interest stays in range:
/// the vault state does not exceed the supply and no product overflows.
pub open spec fn interest_computes(principal: u64, time_interval: i64, vault_state: u64, total_value_locked: u64) -> bool {
    time_interval > 0 ==> {
        &&& vault_state <= TOTAL_SUPPLY
        &&& crp(vault_state as int) * total_value_locked <= u128::MAX
        &&& principal * bs_rate(vault_state as int, total_value_locked as int) <= u128::MAX
        &&& fixed_mul(principal as int, bs_rate(vault_state as int, total_value_locked as int))
            * years_taken(time_interval as int) <= u128::MAX
        &&& interest_product(principal as int, time_interval as int, vault_state as int, total_value_locked as int)
            * (SCALE as int) <= u128::MAX
    }
}

/// Computes the interest on `principal` over `time_interval` seconds, given
/// the vault state and the locked total, in 128-bit fixed point. Inputs on
/// which a step would overflow are left out; a caller that passes one anyway
/// gets `MathOverflow`.
pub fn calculate_interest_with_bts(
    principal: u64,
    time_interval: i64,
    vault_state: u64,
    total_value_locked: u64,
) -> (r: Result<u64, BitsaveError>)
    requires
        interest_computes(principal, time_interval, vault_state, total_value_locked),
    ensures
        r matches Ok(v) && v == interest(principal as int, time_interval as int, vault_state as int, total_value_locked as int),
{
    match try_calculate_interest(principal, time_interval, vault_state, total_value_locked) {
        Some(v) => Ok(v),
        None => Err(BitsaveError::MathOverflow),
    }
}

/// Computes the interest as `calculate_interest_with_bts` does where every
/// step stays in range, and returns `None` where a step would overflow.
pub fn try_calculate_interest(
    principal: u64,
    time_interval: i64,
    vault_state: u64,
    total_value_locked: u64,
) -> (r: Option<u64>)
    ensures
        r is Some <==> interest_computes(principal, time_interval, vault_state, total_value_locked),
        r matches Some(v) ==> v == interest(principal as int, time_interval as int, vault_state as int, total_value_locked as int),
{
    if time_interval <= 0 {
        return Some(0);
    }
    let principal = principal as u128;
    let time_interval = time_interval as u128;
    let vault_state = vault_state as u128;
    let total_value_locked = total_value_locked as u128;
    if vault_state > TOTAL_SUPPLY {
        return None;
    }
    let crp: u128 = if vault_state == 0 {
        SCALE * 100
    } else {
        (TOTAL_SUPPLY - vault_state) * SCALE / vault_state * 100
    };
    let weighted = match crp.checked_mul(total_value_locked) {
        Some(w) => w,
        None => return None,
    };
    let bs_rate_denominator = weighted / SCALE;
    let bs_rate: u128 = if bs_rate_denominator == 0 {
        SCALE
    } else {
        MAX_SUPPLY * SCALE / bs_rate_denominator
    };
    let years_taken = time_interval * SCALE / YEAR_IN_SECONDS;
    let scaled_principal = match principal.checked_mul(bs_rate) {
        Some(x) => x,
        None => return None,
    };
    let timed = match (scaled_principal / SCALE).checked_mul(years_taken) {
        Some(x) => x,
        None => return None,
    };
    let product = timed / SCALE;
    let accumulated_interest = match product.checked_mul(SCALE) {
        Some(x) => x / (100 * DIVISOR),
        None => return None,
    };
    let result = accumulated_interest / SCALE;
    assert(result <= u64::MAX);
    Some(result as u64)
}

} // verus!
