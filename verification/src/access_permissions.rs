//! The access check of a transaction that was loaded and not yet run.

use crate::message::{discriminant, instruction_discriminant, listed, Message};
use crate::program_ids::MAGIC_PROGRAM_ID;
use crate::pubkey::{same_key, Pubkey};
use crate::transaction::{LoadedTransaction, TransactionError};
use vstd::prelude::*;

verus! {

/// The control instructions of the Magic program that a privileged fee payer may send past the
/// check.
pub const PRIVILEGED_MAGIC_DISCRIMINANTS: [u32; 9] = [0, 8, 9, 16, 17, 18, 19, 20, 22];

/// Instruction `i` is a control instruction of the Magic program.
pub open spec fn is_control(message: Message, i: int) -> bool {
    &&& message.program(i) == Some(MAGIC_PROGRAM_ID@)
    &&& discriminant(message.instructions@[i].data@) matches Some(d)
        && PRIVILEGED_MAGIC_DISCRIMINANTS@.contains(d)
}

/// Every instruction of the message is a control instruction of the Magic program.
pub open spec fn only_control(message: Message) -> bool {
    forall|i: int| 0 <= i < message.instructions@.len() ==> #[trigger] is_control(message, i)
}

impl LoadedTransaction {
    /// The check is waived: the fee payer is privileged and sends control instructions only.
    pub open spec fn waived(self, message: Message) -> bool {
        self.accounts@.len() > 0 && self.accounts@[0].1.privileged && only_control(message)
    }

    /// The message marks the account at position `i` as writable, and none of its flags allows
    /// that. The fee payer is left out.
    pub open spec fn illegal_write(self, message: Message, i: int) -> bool {
        &&& 1 <= i < self.accounts@.len()
        &&& message.writable_at(i)
        &&& !self.accounts@[i].1.mutable()
    }

    /// The account at position `i` is the first that is illegally writable.
    pub open spec fn first_illegal_write(self, message: Message, i: int) -> bool {
        &&& self.illegal_write(message, i)
        &&& forall|j: int| j < i ==> !#[trigger] self.illegal_write(message, j)
    }

    /// The transaction keeps to the access rules, or is free from them.
    pub open spec fn legal(self, message: Message) -> bool {
        self.waived(message) || forall|i: int| !self.illegal_write(message, i)
    }

    /// `result` is the answer of the check: success for a legal transaction, else the first account
    /// at fault.
    pub open spec fn answered(
        self,
        message: Message,
        result: Result<(), (TransactionError, Pubkey)>,
    ) -> bool {
        match result {
            Ok(_) => self.legal(message),
            Err((error, key)) => {
                &&& !self.legal(message)
                &&& error == TransactionError::InvalidWritableAccount
                &&& exists|i: int| #[trigger]
                    self.first_illegal_write(message, i) && key == self.accounts@[i].0
            },
        }
    }

    /// Checks that the transaction writes only to accounts that it may change.
    ///
    /// Any account that the message marks as writable, the fee payer left out, must be delegated,
    /// undelegating, ephemeral or confined. Otherwise the first account that is not is refused, by
    /// its key. Read-only accounts are not looked at.
    ///
    /// A privileged fee payer passes if every instruction is a listed control instruction of the
    /// Magic program.
    pub fn validate_accounts_access(&self, message: &Message) -> (result: Result<
        (),
        (TransactionError, Pubkey),
    >)
        ensures
            self.answered(*message, result),
    {
        let privileged = self.accounts.len() > 0 && self.accounts[0].1.privileged;
        if privileged && sends_only_control(message) {
            return Ok(());
        }
        let mut i: usize = 1;
        while i < self.accounts.len()
            invariant
                1 <= i,
                !self.waived(*message),
                forall|j: int| j < i ==> !#[trigger] self.illegal_write(*message, j),
            decreases self.accounts.len() - i,
        {
            if message.is_writable(i) && !self.accounts[i].1.is_mutable() {
                assert(self.first_illegal_write(*message, i as int));
                return Err((TransactionError::InvalidWritableAccount, self.accounts[i].0));
            }
            i += 1;
        }
        Ok(())
    }
}

/// Whether every instruction of the message is a control instruction of the Magic program.
fn sends_only_control(message: &Message) -> (only: bool)
    ensures
        only == only_control(*message),
{
    let mut i: usize = 0;
    while i < message.instructions.len()
        invariant
            i <= message.instructions.len(),
            forall|j: int| 0 <= j < i ==> #[trigger] is_control(*message, j),
        decreases message.instructions.len() - i,
    {
        let instruction = &message.instructions[i];
        let at = instruction.program_id_index as usize;
        let control = at < message.account_keys.len() && same_key(
            &message.account_keys[at],
            &MAGIC_PROGRAM_ID,
        ) && match instruction_discriminant(instruction) {
            Some(d) => listed(&PRIVILEGED_MAGIC_DISCRIMINANTS, d),
            None => false,
        };
        assert(control == is_control(*message, i as int));
        if !control {
            return false;
        }
        i += 1;
    }
    true
}

} // verus!
