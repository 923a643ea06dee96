use bitsave::accounts::{
    CreateSolSaving, CreateTokenSaving, IncrementSolSaving, IncrementTokenSaving, Initialize,
    JoinBitsave, WithdrawSolSaving, WithdrawTokenSaving,
};
use bitsave::errors::{BitsaveError, ConstraintViolation, InstructionError};
use bitsave::instructions::{
    create_sol_saving, create_token_saving, increment_sol_saving, increment_token_saving,
    initialize, join_bitsave, withdraw_sol_saving, withdraw_token_saving, Transfer,
};
use bitsave::interest::{calculate_interest_with_bts, try_calculate_interest};
use bitsave::key::AccountKey;
use bitsave::state::{withdrawal_payout, GlobalState, Saving, TokenAccount, UserVault, JOIN_FEE, SAVING_FEE};

const SOL: u64 = 1_000_000_000;
const NOW: i64 = 1_700_000_000;

fn key(b: u8) -> AccountKey {
    AccountKey { bytes: [b; 32] }
}

fn admin() -> AccountKey {
    key(1)
}
fn user() -> AccountKey {
    key(2)
}
fn vault() -> AccountKey {
    key(3)
}
fn mint() -> AccountKey {
    key(4)
}

fn empty_global() -> GlobalState {
    GlobalState {
        admin: AccountKey::zero(),
        stable_coin_mint: AccountKey::zero(),
        cs_token_mint: AccountKey::zero(),
        join_fee: 0,
        saving_fee: 0,
        total_value_locked: 0,
        user_count: 0,
    }
}

fn empty_saving() -> Saving {
    Saving {
        owner: AccountKey::zero(),
        name: String::new(),
        amount: 0,
        token_mint: AccountKey::zero(),
        start_time: 0,
        maturity_time: 0,
        penalty_percentage: 0,
        is_safe_mode: false,
        is_valid: false,
    }
}

fn initialized() -> GlobalState {
    let mut ctx = Initialize { global_state: empty_global(), admin: admin() };
    assert!(initialize(&mut ctx, key(7), key(8)).is_ok());
    ctx.global_state
}

fn token_account(k: u8, m: AccountKey, owner: AccountKey) -> TokenAccount {
    TokenAccount { key: key(k), mint: m, owner }
}

fn sol_saving(amount: u64, penalty: u8, maturity: i64) -> Saving {
    Saving {
        owner: user(),
        name: "My_SOL_Saving".to_string(),
        amount,
        token_mint: AccountKey::zero(),
        start_time: NOW,
        maturity_time: maturity,
        penalty_percentage: penalty,
        is_safe_mode: false,
        is_valid: true,
    }
}

fn lamports(t: &Transfer) -> (AccountKey, AccountKey, u64) {
    match t {
        Transfer::Lamports { from, to, amount } => (*from, *to, *amount),
        _ => panic!("expected a lamport transfer"),
    }
}

#[test]
fn initialize_writes_admin_mints_and_default_fees() {
    let g = initialized();
    assert_eq!(g.admin.bytes, admin().bytes);
    assert_eq!(g.stable_coin_mint.bytes, key(7).bytes);
    assert_eq!(g.cs_token_mint.bytes, key(8).bytes);
    assert_eq!(g.join_fee, 100_000);
    assert_eq!(g.saving_fee, 100_000);
    assert_eq!(JOIN_FEE, 100_000);
    assert_eq!(SAVING_FEE, 100_000);
    assert_eq!(g.total_value_locked, 0);
    assert_eq!(g.user_count, 0);
}

#[test]
fn joining_pays_fee_sets_owner_and_counts_user() {
    let mut ctx = JoinBitsave {
        global_state: initialized(),
        user_vault: UserVault { owner: AccountKey::zero() },
        user: user(),
        admin_account: admin(),
    };
    assert_eq!(ctx.check_accounts(), Ok(()));
    let t = join_bitsave(&mut ctx).unwrap();
    assert_eq!(t.len(), 1);
    let (from, to, amount) = lamports(&t[0]);
    assert_eq!(from.bytes, user().bytes);
    assert_eq!(to.bytes, admin().bytes);
    assert_eq!(amount, 100_000);
    assert_eq!(ctx.user_vault.owner.bytes, user().bytes);
    assert_eq!(ctx.global_state.user_count, 1);
    assert!(join_bitsave(&mut ctx).is_ok());
    assert_eq!(ctx.global_state.user_count, 2);
}

#[test]
fn joining_with_wrong_fee_account_is_refused() {
    let ctx = JoinBitsave {
        global_state: initialized(),
        user_vault: UserVault { owner: AccountKey::zero() },
        user: user(),
        admin_account: key(9),
    };
    assert_eq!(ctx.check_accounts(), Err(ConstraintViolation::Address));
}

#[test]
fn creating_sol_saving_records_plan_and_locks_deposit() {
    let mut ctx = CreateSolSaving {
        global_state: initialized(),
        user_vault: vault(),
        saving: empty_saving(),
        user: user(),
        admin_account: admin(),
    };
    assert_eq!(ctx.check_accounts(), Ok(()));
    let t = create_sol_saving(&mut ctx, "My_SOL_Saving".to_string(), NOW + 10, 10, false, SOL, NOW).unwrap();
    assert_eq!(t.len(), 2);
    let (f0, t0, a0) = lamports(&t[0]);
    assert_eq!((f0.bytes, t0.bytes, a0), (user().bytes, admin().bytes, 100_000));
    let (f1, t1, a1) = lamports(&t[1]);
    assert_eq!((f1.bytes, t1.bytes, a1), (user().bytes, vault().bytes, SOL));
    assert_eq!(ctx.saving.amount, SOL);
    assert!(ctx.saving.is_valid);
    assert!(!ctx.saving.is_safe_mode);
    assert_eq!(ctx.saving.name, "My_SOL_Saving");
    assert_eq!(ctx.saving.owner.bytes, user().bytes);
    assert!(ctx.saving.token_mint.is_zero());
    assert_eq!(ctx.saving.start_time, NOW);
    assert_eq!(ctx.saving.maturity_time, NOW + 10);
    assert_eq!(ctx.saving.penalty_percentage, 10);
    assert_eq!(ctx.global_state.total_value_locked, SOL);
}

#[test]
fn creating_saving_with_past_maturity_is_invalid_time() {
    let mut ctx = CreateSolSaving {
        global_state: initialized(),
        user_vault: vault(),
        saving: empty_saving(),
        user: user(),
        admin_account: admin(),
    };
    let r = create_sol_saving(&mut ctx, "a".to_string(), NOW, 10, false, SOL, NOW);
    assert!(matches!(r, Err(InstructionError::Bitsave(BitsaveError::InvalidTime))));
    // The time check comes before the safe-mode check.
    let r = create_sol_saving(&mut ctx, "a".to_string(), NOW - 1, 10, true, SOL, NOW);
    assert!(matches!(r, Err(InstructionError::Bitsave(BitsaveError::InvalidTime))));
    assert_eq!(ctx.global_state.total_value_locked, 0);
    assert!(!ctx.saving.is_valid);
}

#[test]
fn creating_safe_mode_saving_is_not_supported() {
    let mut ctx = CreateSolSaving {
        global_state: initialized(),
        user_vault: vault(),
        saving: empty_saving(),
        user: user(),
        admin_account: admin(),
    };
    let r = create_sol_saving(&mut ctx, "a".to_string(), NOW + 10, 10, true, SOL, NOW);
    assert!(matches!(r, Err(InstructionError::Bitsave(BitsaveError::NotSupported))));
    assert_eq!(ctx.global_state.total_value_locked, 0);
}

#[test]
fn creating_token_saving_moves_tokens_and_records_mint() {
    let mut ctx = CreateTokenSaving {
        global_state: initialized(),
        user_vault: vault(),
        saving: empty_saving(),
        user: user(),
        admin_account: admin(),
        token_mint: mint(),
        user_token_account: token_account(10, mint(), user()),
        vault_token_account: token_account(11, mint(), vault()),
    };
    assert_eq!(ctx.check_accounts(), Ok(()));
    let t = create_token_saving(&mut ctx, "My_Token_Saving".to_string(), NOW + 10, 10, false, 100, NOW).unwrap();
    assert_eq!(t.len(), 2);
    let (f0, t0, a0) = lamports(&t[0]);
    assert_eq!((f0.bytes, t0.bytes, a0), (user().bytes, admin().bytes, 100_000));
    match t[1] {
        Transfer::Token { from, to, authority, amount } => {
            assert_eq!(from.bytes, key(10).bytes);
            assert_eq!(to.bytes, key(11).bytes);
            assert_eq!(authority.bytes, user().bytes);
            assert_eq!(amount, 100);
        }
        _ => panic!("expected a token transfer"),
    }
    assert_eq!(ctx.saving.token_mint.bytes, mint().bytes);
    assert_eq!(ctx.saving.amount, 100);
    assert!(ctx.saving.is_valid);
    assert_eq!(ctx.global_state.total_value_locked, 100);
}

#[test]
fn token_accounts_are_checked_for_owner_then_mint() {
    let mut ctx = CreateTokenSaving {
        global_state: initialized(),
        user_vault: vault(),
        saving: empty_saving(),
        user: user(),
        admin_account: admin(),
        token_mint: mint(),
        user_token_account: token_account(10, key(5), key(6)),
        vault_token_account: token_account(11, mint(), vault()),
    };
    assert_eq!(ctx.check_accounts(), Err(ConstraintViolation::TokenOwner));
    ctx.user_token_account.owner = user();
    assert_eq!(ctx.check_accounts(), Err(ConstraintViolation::TokenMint));
    ctx.user_token_account.mint = mint();
    ctx.vault_token_account.owner = user();
    assert_eq!(ctx.check_accounts(), Err(ConstraintViolation::TokenOwner));
    ctx.vault_token_account.owner = vault();
    ctx.admin_account = key(9);
    assert_eq!(ctx.check_accounts(), Err(ConstraintViolation::Address));
}

#[test]
fn incrementing_adds_to_the_saving_and_the_locked_total() {
    let mut g = initialized();
    g.total_value_locked = SOL;
    let mut ctx = IncrementSolSaving { global_state: g, user_vault: vault(), saving: sol_saving(SOL, 10, NOW + 10), user: user() };
    assert_eq!(ctx.check_accounts(), Ok(()));
    let t = increment_sol_saving(&mut ctx, SOL / 2, NOW).unwrap();
    let (f, to, a) = lamports(&t[0]);
    assert_eq!((f.bytes, to.bytes, a), (user().bytes, vault().bytes, SOL / 2));
    assert_eq!(ctx.saving.amount, SOL + SOL / 2);
    assert_eq!(ctx.global_state.total_value_locked, SOL + SOL / 2);
    assert_eq!(ctx.saving.maturity_time, NOW + 10);
}

#[test]
fn incrementing_at_or_after_maturity_is_invalid_time() {
    let mut ctx = IncrementSolSaving { global_state: initialized(), user_vault: vault(), saving: sol_saving(SOL, 10, NOW), user: user() };
    assert!(matches!(increment_sol_saving(&mut ctx, 5, NOW), Err(InstructionError::Bitsave(BitsaveError::InvalidTime))));
    assert_eq!(ctx.saving.amount, SOL);
}

#[test]
fn sol_instructions_refuse_foreign_invalid_or_token_savings() {
    let mut ctx = IncrementSolSaving { global_state: initialized(), user_vault: vault(), saving: sol_saving(SOL, 10, NOW + 10), user: key(9) };
    assert_eq!(ctx.check_accounts(), Err(ConstraintViolation::Raw));
    ctx.user = user();
    ctx.saving.is_valid = false;
    assert_eq!(ctx.check_accounts(), Err(ConstraintViolation::Raw));
    ctx.saving.is_valid = true;
    ctx.saving.token_mint = mint();
    assert_eq!(ctx.check_accounts(), Err(ConstraintViolation::Raw));
    let w = WithdrawSolSaving { global_state: initialized(), user_vault: vault(), saving: ctx.saving.clone(), user: user() };
    assert_eq!(w.check_accounts(), Err(ConstraintViolation::Raw));
}

#[test]
fn incrementing_token_saving_moves_tokens() {
    let mut s = sol_saving(100, 10, NOW + 10);
    s.token_mint = mint();
    let mut g = initialized();
    g.total_value_locked = 100;
    let mut ctx = IncrementTokenSaving {
        global_state: g,
        user_vault: vault(),
        saving: s,
        user: user(),
        user_token_account: token_account(10, mint(), user()),
        vault_token_account: token_account(11, mint(), vault()),
    };
    assert_eq!(ctx.check_accounts(), Ok(()));
    let t = increment_token_saving(&mut ctx, 50, NOW).unwrap();
    match t[0] {
        Transfer::Token { from, to, authority, amount } => {
            assert_eq!((from.bytes, to.bytes, authority.bytes, amount), (key(10).bytes, key(11).bytes, user().bytes, 50));
        }
        _ => panic!("expected a token transfer"),
    }
    assert_eq!(ctx.saving.amount, 150);
    assert_eq!(ctx.global_state.total_value_locked, 150);
    ctx.vault_token_account.mint = key(5);
    assert_eq!(ctx.check_accounts(), Err(ConstraintViolation::TokenMint));
}

#[test]
fn premature_withdrawal_keeps_back_the_penalty() {
    let mut g = initialized();
    g.total_value_locked = 3 * SOL;
    let mut ctx = WithdrawSolSaving { global_state: g, user_vault: vault(), saving: sol_saving(SOL, 10, NOW + 10), user: user() };
    assert_eq!(ctx.check_accounts(), Ok(()));
    let t = withdraw_sol_saving(&mut ctx, NOW).unwrap();
    match t[0] {
        Transfer::VaultLamports { from, to, amount } => {
            assert_eq!(from.bytes, vault().bytes);
            assert_eq!(to.bytes, user().bytes);
            assert_eq!(amount, 900_000_000);
        }
        _ => panic!("expected a vault lamport transfer"),
    }
    // The whole principal leaves the locked total, the penalty included.
    assert_eq!(ctx.global_state.total_value_locked, 2 * SOL);
}

#[test]
fn withdrawal_from_maturity_pays_in_full() {
    let s = sol_saving(SOL, 10, NOW);
    assert_eq!(withdrawal_payout(&s, NOW), SOL);
    assert_eq!(withdrawal_payout(&s, NOW + 100), SOL);
    assert_eq!(withdrawal_payout(&s, NOW - 1), 900_000_000);
}

#[test]
fn withdrawal_rounds_the_payout_down() {
    let s = sol_saving(999, 33, NOW + 1);
    // 999 * 67 / 100 = 669.33
    assert_eq!(withdrawal_payout(&s, NOW), 669);
    let all = sol_saving(999, 100, NOW + 1);
    assert_eq!(withdrawal_payout(&all, NOW), 0);
    let none = sol_saving(999, 0, NOW + 1);
    assert_eq!(withdrawal_payout(&none, NOW), 999);
}

#[test]
fn token_withdrawal_is_signed_by_the_vault() {
    let mut s = sol_saving(100, 10, NOW + 10);
    s.token_mint = mint();
    let mut g = initialized();
    g.total_value_locked = 100;
    let mut ctx = WithdrawTokenSaving {
        global_state: g,
        user_vault: vault(),
        saving: s,
        user: user(),
        user_token_account: token_account(10, mint(), key(12)),
        vault_token_account: token_account(11, mint(), vault()),
    };
    // The receiving account's owner is not checked.
    assert_eq!(ctx.check_accounts(), Ok(()));
    let t = withdraw_token_saving(&mut ctx, NOW + 10).unwrap();
    match t[0] {
        Transfer::VaultToken { from, to, vault: v, vault_owner, amount } => {
            assert_eq!(from.bytes, key(11).bytes);
            assert_eq!(to.bytes, key(10).bytes);
            assert_eq!(v.bytes, vault().bytes);
            assert_eq!(vault_owner.bytes, user().bytes);
            assert_eq!(amount, 100);
        }
        _ => panic!("expected a vault token transfer"),
    }
    assert_eq!(ctx.global_state.total_value_locked, 0);
    ctx.user_token_account.mint = key(5);
    assert_eq!(ctx.check_accounts(), Err(ConstraintViolation::TokenMint));
    ctx.saving.token_mint = AccountKey::zero();
    assert_eq!(ctx.check_accounts(), Err(ConstraintViolation::Raw));
}

#[test]
fn deposit_top_up_and_withdrawal_restore_the_locked_total() {
    let start = 5 * SOL;
    let mut g = initialized();
    g.total_value_locked = start;
    let mut create = CreateSolSaving { global_state: g, user_vault: vault(), saving: empty_saving(), user: user(), admin_account: admin() };
    create_sol_saving(&mut create, "x".to_string(), NOW + 100, 25, false, 3 * SOL, NOW).unwrap();
    let mut inc = IncrementSolSaving { global_state: create.global_state, user_vault: vault(), saving: create.saving, user: user() };
    increment_sol_saving(&mut inc, 7, NOW + 1).unwrap();
    increment_sol_saving(&mut inc, 11, NOW + 2).unwrap();
    let mut w = WithdrawSolSaving { global_state: inc.global_state, user_vault: vault(), saving: inc.saving, user: user() };
    withdraw_sol_saving(&mut w, NOW + 3).unwrap();
    assert_eq!(w.global_state.total_value_locked, start);
    assert_eq!(w.global_state.user_count, 0);
}

#[test]
fn interest_is_zero_for_no_elapsed_time() {
    assert_eq!(calculate_interest_with_bts(1_000_000, 0, 5_000_000, 1000), Ok(0));
    assert_eq!(calculate_interest_with_bts(1_000_000, -5, 5_000_000, 1000), Ok(0));
    assert_eq!(try_calculate_interest(1_000_000, -5, 50_000_000, 1000), Some(0));
}

#[test]
fn interest_exact_values() {
    // Nothing locked: the rate is 1, one year of 10^6 gives 10^6 / 10^5.
    assert_eq!(calculate_interest_with_bts(1_000_000, 31_536_000, 0, 0), Ok(10));
    // Reward percentage (15e6 - 5e6) / 5e6 * 100 = 200, rate 10^8 / (200 * 1000) = 500,
    // one year: 100_000 * 500 / 100_000 = 500.
    assert_eq!(calculate_interest_with_bts(100_000, 31_536_000, 5_000_000, 1000), Ok(500));
    assert_eq!(try_calculate_interest(100_000, 31_536_000, 5_000_000, 1000), Some(500));
    // Half a year earns half.
    assert_eq!(calculate_interest_with_bts(1_000_000, 15_768_000, 0, 0), Ok(5));
    // The rate rounds the interest down to zero for a small principal.
    assert_eq!(calculate_interest_with_bts(1000, 31_536_000, 5_000_000, 10_000_000_000_000_000), Ok(0));
}

#[test]
fn interest_out_of_range_is_refused_by_the_checked_form() {
    assert_eq!(try_calculate_interest(1000, 10, 15_000_001, 0), None);
    assert_eq!(try_calculate_interest(1000, 31_536_000, 1, u64::MAX), None);
    assert_eq!(try_calculate_interest(u64::MAX, 31_536_000, 5_000_000, 10_000_000_000_000_000), Some(9223));
}

#[test]
fn interest_grows_with_principal_and_time() {
    let a = calculate_interest_with_bts(1_000, 31_536_000, 5_000_000, 1000).unwrap();
    let b = calculate_interest_with_bts(2_000, 31_536_000, 5_000_000, 1000).unwrap();
    let c = calculate_interest_with_bts(2_000, 63_072_000, 5_000_000, 1000).unwrap();
    assert_eq!((a, b, c), (5, 10, 20));
}

#[test]
fn instructions_refuse_accounts_that_fail_their_checks() {
    let g = initialized();
    let mut join = JoinBitsave {
        global_state: g,
        user_vault: UserVault { owner: AccountKey::zero() },
        user: user(),
        admin_account: key(9),
    };
    assert!(matches!(join_bitsave(&mut join), Err(InstructionError::Constraint(ConstraintViolation::Address))));
    assert_eq!(join.global_state.user_count, 0);
    assert!(join.user_vault.owner.is_zero());

    let mut create = CreateSolSaving { global_state: g, user_vault: vault(), saving: empty_saving(), user: user(), admin_account: key(9) };
    // The account check comes before the time check.
    let r = create_sol_saving(&mut create, "a".to_string(), NOW - 1, 10, false, SOL, NOW);
    assert!(matches!(r, Err(InstructionError::Constraint(ConstraintViolation::Address))));
    assert_eq!(create.global_state.total_value_locked, 0);

    let mut ct = CreateTokenSaving {
        global_state: g,
        user_vault: vault(),
        saving: empty_saving(),
        user: user(),
        admin_account: admin(),
        token_mint: mint(),
        user_token_account: token_account(10, mint(), user()),
        vault_token_account: token_account(11, mint(), key(9)),
    };
    let r = create_token_saving(&mut ct, "t".to_string(), NOW + 10, 10, false, 100, NOW);
    assert!(matches!(r, Err(InstructionError::Constraint(ConstraintViolation::TokenOwner))));
    assert!(!ct.saving.is_valid);

    let mut inc = IncrementSolSaving { global_state: g, user_vault: vault(), saving: sol_saving(SOL, 10, NOW + 10), user: key(9) };
    assert!(matches!(increment_sol_saving(&mut inc, 5, NOW), Err(InstructionError::Constraint(ConstraintViolation::Raw))));
    assert_eq!(inc.saving.amount, SOL);

    let mut s = sol_saving(100, 10, NOW + 10);
    s.token_mint = mint();
    let mut it = IncrementTokenSaving {
        global_state: g,
        user_vault: vault(),
        saving: s.clone(),
        user: user(),
        user_token_account: token_account(10, key(5), user()),
        vault_token_account: token_account(11, mint(), vault()),
    };
    assert!(matches!(increment_token_saving(&mut it, 5, NOW), Err(InstructionError::Constraint(ConstraintViolation::TokenMint))));
    assert_eq!(it.saving.amount, 100);

    let mut gw = g;
    gw.total_value_locked = SOL;
    let mut ws = WithdrawSolSaving { global_state: gw, user_vault: vault(), saving: s.clone(), user: user() };
    assert!(matches!(withdraw_sol_saving(&mut ws, NOW), Err(InstructionError::Constraint(ConstraintViolation::Raw))));
    assert_eq!(ws.global_state.total_value_locked, SOL);

    let mut foreign = s.clone();
    foreign.owner = key(9);
    let mut wt = WithdrawTokenSaving {
        global_state: gw,
        user_vault: vault(),
        saving: foreign,
        user: user(),
        user_token_account: token_account(10, mint(), user()),
        vault_token_account: token_account(11, mint(), vault()),
    };
    assert!(matches!(withdraw_token_saving(&mut wt, NOW), Err(InstructionError::Constraint(ConstraintViolation::Raw))));
    assert_eq!(wt.global_state.total_value_locked, SOL);
}

#[test]
fn matured_saving_returns_every_deposit_to_the_user() {
    let mut g = initialized();
    g.total_value_locked = 0;
    let mut create = CreateSolSaving { global_state: g, user_vault: vault(), saving: empty_saving(), user: user(), admin_account: admin() };
    let mut moves = create_sol_saving(&mut create, "x".to_string(), NOW + 100, 25, false, 3 * SOL, NOW).unwrap();
    let mut inc = IncrementSolSaving { global_state: create.global_state, user_vault: vault(), saving: create.saving, user: user() };
    moves.extend(increment_sol_saving(&mut inc, 7, NOW + 1).unwrap());
    let mut w = WithdrawSolSaving { global_state: inc.global_state, user_vault: vault(), saving: inc.saving, user: user() };
    moves.extend(withdraw_sol_saving(&mut w, NOW + 100).unwrap());
    let mut vault_net: i128 = 0;
    let mut user_net: i128 = 0;
    for t in moves.iter() {
        if let Transfer::Lamports { from, to, amount } | Transfer::VaultLamports { from, to, amount } = t {
            if to.same_as(&vault()) { vault_net += *amount as i128; }
            if from.same_as(&vault()) { vault_net -= *amount as i128; }
            if to.same_as(&user()) { user_net += *amount as i128; }
            if from.same_as(&user()) { user_net -= *amount as i128; }
        }
    }
    assert_eq!(vault_net, 0);
    assert_eq!(user_net, -(SAVING_FEE as i128));
}

#[test]
fn keys_compare_by_bytes() {
    assert!(key(3).same_as(&key(3)));
    assert!(!key(3).same_as(&key(4)));
    let mut k = AccountKey::zero();
    assert!(k.is_zero());
    k.bytes[31] = 1;
    assert!(!k.is_zero());
}

#[test]
fn user_count_counts_the_accepted_joins() {
    let mut g = initialized();
    let mut vaults = 0u64;
    for (i, fee_account) in [admin(), key(9), admin(), admin(), key(8)].iter().enumerate() {
        let mut ctx = JoinBitsave {
            global_state: g,
            user_vault: UserVault { owner: AccountKey::zero() },
            user: key(20 + i as u8),
            admin_account: *fee_account,
        };
        if join_bitsave(&mut ctx).is_ok() {
            vaults += 1;
        }
        g = ctx.global_state;
    }
    assert_eq!(vaults, 3);
    assert_eq!(g.user_count, 3);
    assert_eq!(g.total_value_locked, 0);
}
