//! Access rules for the accounts of a transaction.
//!
//! A validator may write only to accounts that were handed to it. The checks here decide, for a
//! transaction and the accounts that it loaded, whether it writes to any other account, and refuse
//! it if so.
//!
//! * [`access_permissions`] checks a transaction that was loaded and not yet run.
//! * [`svm`] checks a transaction that was run, and records a refusal in its status and logs.
//! * [`escrow`] derives the address of a fee payer's escrow.
//! * [`laws`] and [`outcomes`] state what holds of the checks, here and under [`svm`].
//! * [`message`], [`account`] and [`transaction`] hold what the checks read.
//! * [`pubkey`], [`base58`] and [`decimal`] hold keys and the text that logs are made of.

pub mod access_permissions;
pub mod account;
pub mod base58;
pub mod decimal;
pub mod escrow;
pub mod laws;
pub mod message;
pub mod outcomes;
pub mod program_ids;
pub mod pubkey;
pub mod svm;
pub mod transaction;
