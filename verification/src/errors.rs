use vstd::prelude::*;

verus! {

/// Failures that the protocol's instructions report themselves.
#[derive(Clone, Copy, Debug, PartialEq, Eq, Structural)]
pub enum BitsaveError {
    /// Admin only call required.
    AdminCallRequired,
    /// User not registered.
    UserNotRegistered,
    /// Insufficient funds to pay fee.
    NotEnoughToPayFee,
    /// Invalid maturity time.
    InvalidTime,
    /// Invalid saving name or already exists.
    InvalidSaving,
    /// Safe mode not yet supported.
    NotSupported,
    /// Arithmetic overflow.
    MathOverflow,
    /// Invalid token mint.
    InvalidMint,
    /// Invalid account owner.
    InvalidOwner,
}

/// Which check on the accounts handed to an instruction failed, before the
/// instruction itself runs.
#[derive(Clone, Copy, Debug, PartialEq, Eq, Structural)]
pub enum ConstraintViolation {
    /// A boolean condition over the accounts does not hold.
    Raw,
    /// An account is not at the address that the protocol state names.
    Address,
    /// A token account is not owned by the expected authority.
    TokenOwner,
    /// A token account holds another mint than the expected one.
    TokenMint,
}

/// Why an instruction failed: a check on its accounts, or the instruction's
/// own decision.
#[derive(Clone, Copy, Debug, PartialEq, Eq, Structural)]
pub enum InstructionError {
    Constraint(ConstraintViolation),
    Bitsave(BitsaveError),
}

/// The failure of an instruction whose account check gave `check` and whose
/// own decision, where the check passes, is the error `e`: the account check
/// comes first.
pub open spec fn check_then(check: Result<(), ConstraintViolation>, e: BitsaveError) -> InstructionError {
    match check {
        Err(v) => InstructionError::Constraint(v),
        Ok(_) => InstructionError::Bitsave(e),
    }
}

} // verus!
