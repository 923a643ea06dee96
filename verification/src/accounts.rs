use vstd::prelude::*;
use crate::errors::ConstraintViolation;
use crate::key::{zero_key, AccountKey};
use crate::state::{GlobalState, Saving, TokenAccount, UserVault};

verus! {

/// Accounts of `initialize`: the global state being created and its admin.
pub struct Initialize {
    pub global_state: GlobalState,
    pub admin: AccountKey,
}

/// Accounts of `join_bitsave`.
pub struct JoinBitsave {
    pub global_state: GlobalState,
    /// The user's vault being created.
    pub user_vault: UserVault,
    pub user: AccountKey,
    /// The account that receives the join fee.
    pub admin_account: AccountKey,
}

/// Accounts of `create_sol_saving`.
pub struct CreateSolSaving {
    pub global_state: GlobalState,
    /// Address of the user's vault, which receives the deposit.
    pub user_vault: AccountKey,
    /// The saving being created.
    pub saving: Saving,
    pub user: AccountKey,
    /// The account that receives the saving fee.
    pub admin_account: AccountKey,
}

/// Accounts of `create_token_saving`.
pub struct CreateTokenSaving {
    pub global_state: GlobalState,
    /// Address of the user's vault, the authority over the vault token account.
    pub user_vault: AccountKey,
    /// The saving being created.
    pub saving: Saving,
    pub user: AccountKey,
    /// The account that receives the saving fee.
    pub admin_account: AccountKey,
    pub token_mint: AccountKey,
    pub user_token_account: TokenAccount,
    pub vault_token_account: TokenAccount,
}

/// Accounts of `increment_sol_saving`.
pub struct IncrementSolSaving {
    pub global_state: GlobalState,
    /// Address of the user's vault, which receives the deposit.
    pub user_vault: AccountKey,
    pub saving: Saving,
    pub user: AccountKey,
}

/// Accounts of `increment_token_saving`.
pub struct IncrementTokenSaving {
    pub global_state: GlobalState,
    /// Address of the user's vault, the authority over the vault token account.
    pub user_vault: AccountKey,
    pub saving: Saving,
    pub user: AccountKey,
    pub user_token_account: TokenAccount,
    pub vault_token_account: TokenAccount,
}

/// Accounts of `withdraw_sol_saving`.
pub struct WithdrawSolSaving {
    pub global_state: GlobalState,
    /// Address of the user's vault, which pays the withdrawal.
    pub user_vault: AccountKey,
    pub saving: Saving,
    pub user: AccountKey,
}

/// Accounts of `withdraw_token_saving`.
pub struct WithdrawTokenSaving {
    pub global_state: GlobalState,
    /// Address of the user's vault, the authority over the vault token account.
    pub user_vault: AccountKey,
    pub saving: Saving,
    pub user: AccountKey,
    pub user_token_account: TokenAccount,
    pub vault_token_account: TokenAccount,
}

/// The saving may be used by `user` for native SOL.
pub open spec fn sol_saving_of(saving: Saving, user: AccountKey) -> bool {
    saving.is_valid && saving.owner@ == user@ && saving.token_mint@ == zero_key()
}

/// The saving may be used by `user` for a token.
pub open spec fn token_saving_of(saving: Saving, user: AccountKey) -> bool {
    saving.is_valid && saving.owner@ == user@ && saving.token_mint@ != zero_key()
}

/// The saving check of the native SOL instructions.
pub open spec fn sol_saving_check(saving: Saving, user: AccountKey) -> Result<(), ConstraintViolation> {
    if sol_saving_of(saving, user) {
        Ok(())
    } else {
        Err(ConstraintViolation::Raw)
    }
}

/// First failing check of a token account against an expected authority
/// (when one is given) and mint: the authority is checked first.
pub open spec fn token_account_check(
    account: TokenAccount,
    authority: Option<AccountKey>,
    mint: AccountKey,
) -> Result<(), ConstraintViolation> {
    if authority is Some && account.owner@ != authority->0@ {
        Err(ConstraintViolation::TokenOwner)
    } else if account.mint@ != mint@ {
        Err(ConstraintViolation::TokenMint)
    } else {
        Ok(())
    }
}

/// The fee account is the admin named by the global state.
pub open spec fn admin_check(g: GlobalState, admin_account: AccountKey) -> Result<(), ConstraintViolation> {
    if admin_account@ == g.admin@ {
        Ok(())
    } else {
        Err(ConstraintViolation::Address)
    }
}

/// Checks a token account against an expected authority (when one is given)
/// and mint.
pub fn check_token_account(
    account: &TokenAccount,
    authority: Option<&AccountKey>,
    mint: &AccountKey,
) -> (r: Result<(), ConstraintViolation>)
    ensures
        r == token_account_check(
            *account,
            match authority {
                Some(a) => Some(*a),
                None => None,
            },
            *mint,
        ),
{
    match authority {
        Some(a) => {
            if !account.owner.same_as(a) {
                return Err(ConstraintViolation::TokenOwner);
            }
        },
        None => {},
    }
    if !account.mint.same_as(mint) {
        return Err(ConstraintViolation::TokenMint);
    }
    Ok(())
}

fn check_admin(g: &GlobalState, admin_account: &AccountKey) -> (r: Result<(), ConstraintViolation>)
    ensures
        r == admin_check(*g, *admin_account),
{
    if admin_account.same_as(&g.admin) {
        Ok(())
    } else {
        Err(ConstraintViolation::Address)
    }
}

fn check_sol_saving(saving: &Saving, user: &AccountKey) -> (r: bool)
    ensures
        r == sol_saving_of(*saving, *user),
{
    saving.is_valid && saving.owner.same_as(user) && saving.token_mint.is_zero()
}

fn check_token_saving(saving: &Saving, user: &AccountKey) -> (r: bool)
    ensures
        r == token_saving_of(*saving, *user),
{
    saving.is_valid && saving.owner.same_as(user) && !saving.token_mint.is_zero()
}

impl JoinBitsave {
    /// Checks the accounts in the order the instruction lists them: the fee
    /// account must be the admin.
    pub fn check_accounts(&self) -> (r: Result<(), ConstraintViolation>)
        ensures
            r == admin_check(self.global_state, self.admin_account),
    {
        check_admin(&self.global_state, &self.admin_account)
    }
}

impl CreateSolSaving {
    /// Checks the accounts in the order the instruction lists them: the fee
    /// account must be the admin.
    pub fn check_accounts(&self) -> (r: Result<(), ConstraintViolation>)
        ensures
            r == admin_check(self.global_state, self.admin_account),
    {
        check_admin(&self.global_state, &self.admin_account)
    }
}

/// First failing check of the accounts of `create_token_saving`.
pub open spec fn create_token_saving_check(c: CreateTokenSaving) -> Result<(), ConstraintViolation> {
    if admin_check(c.global_state, c.admin_account) is Err {
        admin_check(c.global_state, c.admin_account)
    } else if token_account_check(c.user_token_account, Some(c.user), c.token_mint) is Err {
        token_account_check(c.user_token_account, Some(c.user), c.token_mint)
    } else {
        token_account_check(c.vault_token_account, Some(c.user_vault), c.token_mint)
    }
}

impl CreateTokenSaving {
    /// Checks the accounts in the order the instruction lists them: the fee
    /// account must be the admin, the user's token account must be owned by
    /// the user and the vault token account by the vault, both of the given mint.
    pub fn check_accounts(&self) -> (r: Result<(), ConstraintViolation>)
        ensures
            r == create_token_saving_check(*self),
    {
        check_admin(&self.global_state, &self.admin_account)?;
        check_token_account(&self.user_token_account, Some(&self.user), &self.token_mint)?;
        check_token_account(&self.vault_token_account, Some(&self.user_vault), &self.token_mint)
    }
}

impl IncrementSolSaving {
    /// The saving must be valid, the user's, and in native SOL.
    pub fn check_accounts(&self) -> (r: Result<(), ConstraintViolation>)
        ensures
            r == sol_saving_check(self.saving, self.user),
    {
        if check_sol_saving(&self.saving, &self.user) {
            Ok(())
        } else {
            Err(ConstraintViolation::Raw)
        }
    }
}

/// First failing check of the accounts of `increment_token_saving`.
pub open spec fn increment_token_saving_check(c: IncrementTokenSaving) -> Result<(), ConstraintViolation> {
    if !token_saving_of(c.saving, c.user) {
        Err(ConstraintViolation::Raw)
    } else if token_account_check(c.user_token_account, Some(c.user), c.saving.token_mint) is Err {
        token_account_check(c.user_token_account, Some(c.user), c.saving.token_mint)
    } else {
        token_account_check(c.vault_token_account, Some(c.user_vault), c.saving.token_mint)
    }
}

impl IncrementTokenSaving {
    /// Checks the accounts in the order the instruction lists them: the
    /// saving must be valid, the user's, and in a token; the user's token
    /// account must be owned by the user and the vault token account by the
    /// vault, both of the saving's mint.
    pub fn check_accounts(&self) -> (r: Result<(), ConstraintViolation>)
        ensures
            r == increment_token_saving_check(*self),
    {
        if !check_token_saving(&self.saving, &self.user) {
            return Err(ConstraintViolation::Raw);
        }
        check_token_account(&self.user_token_account, Some(&self.user), &self.saving.token_mint)?;
        check_token_account(&self.vault_token_account, Some(&self.user_vault), &self.saving.token_mint)
    }
}

impl WithdrawSolSaving {
    /// The saving must be valid, the user's, and in native SOL.
    pub fn check_accounts(&self) -> (r: Result<(), ConstraintViolation>)
        ensures
            r == sol_saving_check(self.saving, self.user),
    {
        if check_sol_saving(&self.saving, &self.user) {
            Ok(())
        } else {
            Err(ConstraintViolation::Raw)
        }
    }
}

/// First failing check of the accounts of `withdraw_token_saving`.
pub open spec fn withdraw_token_saving_check(c: WithdrawTokenSaving) -> Result<(), ConstraintViolation> {
    if !token_saving_of(c.saving, c.user) {
        Err(ConstraintViolation::Raw)
    } else if token_account_check(c.user_token_account, None, c.saving.token_mint) is Err {
        token_account_check(c.user_token_account, None, c.saving.token_mint)
    } else {
        token_account_check(c.vault_token_account, Some(c.user_vault), c.saving.token_mint)
    }
}

impl WithdrawTokenSaving {
    /// Checks the accounts in the order the instruction lists them: the
    /// saving must be valid, the user's, and in a token; the receiving token
    /// account must be of the saving's mint, and the vault token account of
    /// that mint and owned by the vault.
    pub fn check_accounts(&self) -> (r: Result<(), ConstraintViolation>)
        ensures
            r == withdraw_token_saving_check(*self),
    {
        if !check_token_saving(&self.saving, &self.user) {
            return Err(ConstraintViolation::Raw);
        }
        check_token_account(&self.user_token_account, None, &self.saving.token_mint)?;
        check_token_account(&self.vault_token_account, Some(&self.user_vault), &self.saving.token_mint)
    }
}

} // verus!
