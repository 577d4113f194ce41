//! The check itself.

use crate::base58::base58;
use crate::decimal::{append_decimal, decimal};
use crate::message::Message;
use crate::pubkey::{pubkey_text, Pubkey};
use crate::svm::privileged_access::{granted_access, privileged_access, PrivilegedAccess};
use crate::transaction::{ExecutedTransaction, TransactionError};
use vstd::prelude::*;

verus! {

/// The log line for a fee payer that changed without being delegated.
pub open spec fn fee_payer_line(key: Seq<u8>) -> Seq<char> {
    "Program log: Feepayer "@ + base58(key) + " was modified without being delegated"@
}

/// The log line for an illegal write to the account at `position`.
pub open spec fn account_line(position: nat, key: Seq<u8>) -> Seq<char> {
    "Program log: Account "@ + decimal(position) + ": "@ + base58(key)
        + " was illegally used as writable"@
}

/// The log line that ends a transaction with an illegal write.
pub open spec fn failure_line() -> Seq<char> {
    "Program Magic11111111111111111111111111111111111111 failed: InvalidWritableAccount"@
}

/// Writes the log line for a fee payer that changed without being delegated.
pub fn fee_payer_log(key: &Pubkey) -> (line: String)
    ensures
        line@ == fee_payer_line(key@),
{
    let mut line = String::from_str("Program log: Feepayer ");
    line.append(pubkey_text(key).as_str());
    line.append(" was modified without being delegated");
    line
}

/// Writes the log line for an illegal write to the account at `position`.
pub fn account_log(position: usize, key: &Pubkey) -> (line: String)
    ensures
        line@ == account_line(position as nat, key@),
{
    let mut line = String::from_str("Program log: Account ");
    append_decimal(&mut line, position);
    line.append(": ");
    line.append(pubkey_text(key).as_str());
    line.append(" was illegally used as writable");
    line
}

impl ExecutedTransaction {
    /// The fee payer is privileged.
    pub open spec fn privileged_payer(self) -> bool {
        self.accounts().len() > 0 && self.accounts()[0].1.privileged
    }

    /// What the fee payer may do beyond the access rules.
    pub open spec fn access(self, message: Message) -> PrivilegedAccess {
        if self.privileged_payer() {
            granted_access(message)
        } else {
            PrivilegedAccess::NoAccess
        }
    }

    /// The balance of the fee payer changed, and it is not delegated.
    pub open spec fn illegal_fee(self, message: Message) -> bool {
        &&& self.accounts().len() > 0
        &&& !self.access(message).fee_payer_write()
        &&& !self.accounts()[0].1.delegated
        &&& self.accounts()[0].1.lamports_changed
    }

    /// The message marks the account at position `i` as writable, and it is not delegated. The fee
    /// payer is left out.
    pub open spec fn illegal_write(self, message: Message, i: int) -> bool {
        &&& 1 <= i < self.accounts().len()
        &&& message.writable_at(i)
        &&& !self.accounts()[i].1.delegated
        &&& !self.access(message).account_write(i)
    }

    /// The account at position `i` is the first that is illegally writable.
    pub open spec fn first_illegal_write(self, message: Message, i: int) -> bool {
        &&& self.illegal_write(message, i)
        &&& forall|j: int| j < i ==> !#[trigger] self.illegal_write(message, j)
    }

    /// The transaction keeps to the access rules.
    pub open spec fn legal(self, message: Message) -> bool {
        !self.illegal_fee(message) && forall|i: int| !self.illegal_write(message, i)
    }

    /// `self` is `before` with `error` for its status and `lines` behind its log lines.
    pub open spec fn refused(
        self,
        before: ExecutedTransaction,
        error: TransactionError,
        lines: Seq<Seq<char>>,
    ) -> bool {
        &&& self.loaded_transaction == before.loaded_transaction
        &&& self.execution_details.status == Err::<(), TransactionError>(error)
        &&& self.execution_details.log_messages is Some
        &&& self.log_lines() == before.log_lines() + lines
    }

    /// `self` is what the check makes of `before`.
    pub open spec fn checked(self, before: ExecutedTransaction, message: Message) -> bool {
        if !before.successful() || before.legal(message) {
            self == before
        } else if before.illegal_fee(message) {
            self.refused(
                before,
                TransactionError::InvalidAccountForFee,
                seq![fee_payer_line(before.accounts()[0].0@)],
            )
        } else {
            exists|i: int| #[trigger]
                before.first_illegal_write(message, i) && self.refused(
                    before,
                    TransactionError::InvalidWritableAccount,
                    seq![account_line(i as nat, before.accounts()[i].0@), failure_line()],
                )
        }
    }

    /// Writes `line` behind the log lines.
    fn log(&mut self, line: String)
        ensures
            final(self).loaded_transaction == old(self).loaded_transaction,
            final(self).execution_details.status == old(self).execution_details.status,
            final(self).execution_details.log_messages is Some,
            final(self).log_lines() == old(self).log_lines().push(line@),
    {
        let mut lines = match self.execution_details.log_messages.take() {
            Some(lines) => lines,
            None => Vec::new(),
        };
        lines.push(line);
        self.execution_details.log_messages = Some(lines);
        assert(self.log_lines() =~= old(self).log_lines().push(line@));
    }

    /// Refuses a transaction that wrote to an account which it may not change.
    ///
    /// Any account that the message marks as writable, the fee payer left out, must be delegated.
    /// Read-only accounts are not looked at. The fee payer must be delegated if its balance changed.
    /// A privileged fee payer is held to these rules as far as [`privileged_access`] does not free it
    /// from them.
    ///
    /// A refused transaction gets the error for its status, and log lines that name the first
    /// account at fault. One that failed before is left as it is.
    pub fn validate_accounts_access(&mut self, message: &Message)
        ensures
            final(self).checked(*old(self), *message),
    {
        if !self.was_successful() {
            return;
        }
        let mut access = PrivilegedAccess::NoAccess;
        if self.loaded_transaction.accounts.len() > 0 {
            let (key, payer) = self.loaded_transaction.accounts[0];
            if payer.privileged {
                access = privileged_access(message);
            }
            if access == PrivilegedAccess::Full {
                return;
            }
            if !access.allows_fee_payer_write() && !payer.delegated && payer.lamports_changed {
                self.execution_details.status = Err(TransactionError::InvalidAccountForFee);
                self.log(fee_payer_log(&key));
                assert(self.log_lines() =~= old(self).log_lines() + seq![fee_payer_line(key@)]);
                return;
            }
        }
        let mut i: usize = 1;
        while i < self.loaded_transaction.accounts.len()
            invariant
                1 <= i,
                *self == *old(self),
                old(self).successful(),
                access == old(self).access(*message),
                !old(self).illegal_fee(*message),
                forall|j: int| j < i ==> !#[trigger] old(self).illegal_write(*message, j),
            decreases self.loaded_transaction.accounts.len() - i,
        {
            let (key, account) = self.loaded_transaction.accounts[i];
            if message.is_writable(i) && !account.delegated && !access.allows_account_write(i) {
                assert(old(self).first_illegal_write(*message, i as int));
                self.execution_details.status = Err(TransactionError::InvalidWritableAccount);
                self.log(account_log(i, &key));
                self.log(
                    String::from_str(
                        "Program Magic11111111111111111111111111111111111111 failed: InvalidWritableAccount",
                    ),
                );
                assert(self.log_lines() =~= old(self).log_lines() + seq![
                    account_line(i as nat, key@),
                    failure_line(),
                ]);
                return;
            }
            i += 1;
        }
    }
}

} // verus!
