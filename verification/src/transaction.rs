//! What the access checks read and record of a transaction.

use crate::account::AccountSharedData;
use crate::pubkey::Pubkey;
use vstd::prelude::*;

verus! {

/// Why a transaction failed.
#[derive(Clone, Copy, Debug, PartialEq, Eq, Structural)]
pub enum TransactionError {
    /// The fee payer may not pay the fee.
    InvalidAccountForFee,
    /// The transaction writes to an account that it may not write.
    InvalidWritableAccount,
    /// Any other failure, under the number that the runtime gave it.
    Other(u32),
}

/// A transaction with its accounts loaded.
#[derive(Debug)]
pub struct LoadedTransaction {
    /// The accounts in the order of the account keys of the message, each with its key. The fee
    /// payer comes first.
    pub accounts: Vec<(Pubkey, AccountSharedData)>,
}

/// How the execution of a transaction ended.
#[derive(Debug)]
pub struct TransactionExecutionDetails {
    /// Success, or the reason of the failure.
    pub status: Result<(), TransactionError>,
    /// The log lines, where they were recorded.
    pub log_messages: Option<Vec<String>>,
}

/// A transaction that was executed.
#[derive(Debug)]
pub struct ExecutedTransaction {
    pub loaded_transaction: LoadedTransaction,
    pub execution_details: TransactionExecutionDetails,
}

impl ExecutedTransaction {
    /// The accounts of the transaction.
    pub open spec fn accounts(self) -> Seq<(Pubkey, AccountSharedData)> {
        self.loaded_transaction.accounts@
    }

    /// The transaction succeeded.
    pub open spec fn successful(self) -> bool {
        self.execution_details.status is Ok
    }

    /// The text of the log lines; none where no line was recorded.
    pub open spec fn log_lines(self) -> Seq<Seq<char>> {
        match self.execution_details.log_messages {
            Some(lines) => lines@.map_values(|line: String| line@),
            None => Seq::empty(),
        }
    }

    /// Whether the transaction succeeded.
    pub fn was_successful(&self) -> (successful: bool)
        ensures
            successful == self.successful(),
    {
        match self.execution_details.status {
            Ok(_) => true,
            Err(_) => false,
        }
    }
}

} // verus!
