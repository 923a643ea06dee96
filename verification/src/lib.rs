//! Bookkeeping and decision logic of the Bitsave savings protocol: the state
//! held in its accounts, the checks made on the accounts handed to an
//! instruction, what each instruction changes and which transfers it asks for,
//! and the interest formula.
pub mod key;
pub mod errors;
pub mod state;
pub mod accounts;
pub mod instructions;
pub mod interest;
pub mod laws;
pub mod decisions;
