//! What a privileged fee payer may do beyond the access rules.

use crate::message::{discriminant, instruction_discriminant, listed, Message};
use crate::program_ids::{MAGIC_PROGRAM_ID, POST_DELEGATION_ACTION_EXECUTOR_PROGRAM_ID};
use crate::pubkey::{same_key, Pubkey};
use vstd::prelude::*;

verus! {

/// The control instructions of the Magic program that a privileged fee payer may send past the
/// check.
pub const PRIVILEGED_MAGIC_DISCRIMINANTS: [u32; 11] = [0, 8, 9, 16, 17, 18, 19, 20, 21, 22, 24];

/// The Magic instruction that clones an account.
pub const CLONE_ACCOUNT_DISCRIMINANT: u32 = 16;

/// The Magic instruction that goes on with the clone of an account.
pub const CLONE_ACCOUNT_CONTINUE_DISCRIMINANT: u32 = 18;

/// Position of the cloned account among the accounts of a clone instruction.
pub const CLONED_ACCOUNT_INSTRUCTION_ACCOUNT_INDEX: usize = 1;

/// What the fee payer may do beyond the access rules.
#[derive(Clone, Copy, Debug, PartialEq, Eq, Structural)]
pub enum PrivilegedAccess {
    /// Nothing.
    NoAccess,
    /// Anything.
    Full,
    /// Write to itself and to the account that the message clones.
    CloneWithPostDelegationActionExecutor { cloned_account: usize },
}

impl PrivilegedAccess {
    /// The fee payer may change although it is not delegated.
    pub open spec fn fee_payer_write(self) -> bool {
        !(self is NoAccess)
    }

    /// The account at position `index` may be written whatever its flags are.
    pub open spec fn account_write(self, index: int) -> bool {
        match self {
            PrivilegedAccess::NoAccess => false,
            PrivilegedAccess::Full => true,
            PrivilegedAccess::CloneWithPostDelegationActionExecutor { cloned_account } => {
                cloned_account == index
            },
        }
    }

    /// Whether the fee payer may change although it is not delegated.
    pub fn allows_fee_payer_write(&self) -> (allowed: bool)
        ensures
            allowed == self.fee_payer_write(),
    {
        match self {
            PrivilegedAccess::NoAccess => false,
            PrivilegedAccess::Full => true,
            PrivilegedAccess::CloneWithPostDelegationActionExecutor { .. } => true,
        }
    }

    /// Whether the account at `index` may be written whatever its flags are.
    pub fn allows_account_write(&self, index: usize) -> (allowed: bool)
        ensures
            allowed == self.account_write(index as int),
    {
        match self {
            PrivilegedAccess::CloneWithPostDelegationActionExecutor { cloned_account } => {
                *cloned_account == index
            },
            PrivilegedAccess::Full => true,
            PrivilegedAccess::NoAccess => false,
        }
    }
}

/// Instruction `i` is a listed control instruction of the Magic program.
pub open spec fn is_exempt(message: Message, i: int) -> bool {
    &&& message.program(i) == Some(MAGIC_PROGRAM_ID@)
    &&& discriminant(message.instructions@[i].data@) matches Some(d)
        && PRIVILEGED_MAGIC_DISCRIMINANTS@.contains(d)
}

/// Every instruction is exempt.
pub open spec fn only_exempt(message: Message) -> bool {
    forall|i: int| 0 <= i < message.instructions@.len() ==> #[trigger] is_exempt(message, i)
}

/// The message calls the Magic program, then the executor of post-delegation actions, and no more.
pub open spec fn is_post_action(message: Message) -> bool {
    &&& message.instructions@.len() == 2
    &&& message.program(0) == Some(MAGIC_PROGRAM_ID@)
    &&& message.program(1) == Some(POST_DELEGATION_ACTION_EXECUTOR_PROGRAM_ID@)
}

/// The position of the account that the first instruction clones, if it is a clone and the second
/// instruction works on the same account.
pub open spec fn cloned_account(message: Message) -> Option<u8> {
    let at = CLONED_ACCOUNT_INSTRUCTION_ACCOUNT_INDEX as int;
    let clone = message.instructions@[0];
    let action = message.instructions@[1];
    if {
        &&& message.instructions@.len() >= 2
        &&& {
            ||| discriminant(clone.data@) == Some(CLONE_ACCOUNT_DISCRIMINANT)
            ||| discriminant(clone.data@) == Some(CLONE_ACCOUNT_CONTINUE_DISCRIMINANT)
        }
        &&& at < clone.accounts@.len()
        &&& at < action.accounts@.len()
        &&& clone.accounts@[at] == action.accounts@[at]
    } {
        Some(clone.accounts@[at])
    } else {
        None
    }
}

/// The access that the cloned account, if there is one, opens.
pub open spec fn clone_access(message: Message) -> PrivilegedAccess {
    match cloned_account(message) {
        Some(account) => PrivilegedAccess::CloneWithPostDelegationActionExecutor {
            cloned_account: account as usize,
        },
        None => PrivilegedAccess::NoAccess,
    }
}

/// The access that the message opens to a privileged fee payer.
pub open spec fn granted_access(message: Message) -> PrivilegedAccess {
    if is_post_action(message) {
        clone_access(message)
    } else if only_exempt(message) {
        PrivilegedAccess::Full
    } else {
        PrivilegedAccess::NoAccess
    }
}

/// Whether instruction `i` calls `program`.
fn calls(message: &Message, i: usize, program: &Pubkey) -> (calls: bool)
    requires
        i < message.instructions@.len(),
    ensures
        calls == (message.program(i as int) == Some(program@)),
{
    let at = message.instructions[i].program_id_index as usize;
    at < message.account_keys.len() && same_key(&message.account_keys[at], program)
}

/// The access that `message` opens to a privileged fee payer.
///
/// Full access takes a message whose instructions are all listed control instructions of the Magic
/// program. A call of the Magic program followed by one of the executor of post-delegation actions,
/// and by nothing else, opens the account that both work on, if the first is a clone. An instruction
/// without a program among the account keys opens nothing.
pub fn privileged_access(message: &Message) -> (access: PrivilegedAccess)
    ensures
        access == granted_access(*message),
{
    let n = message.instructions.len();
    if n == 2 && calls(message, 0, &MAGIC_PROGRAM_ID) && calls(
        message,
        1,
        &POST_DELEGATION_ACTION_EXECUTOR_PROGRAM_ID,
    ) {
        return clone_with_post_delegation_action_executor_access(message);
    }
    assert(!is_post_action(*message));
    let mut i: usize = 0;
    while i < n
        invariant
            i <= n,
            n == message.instructions@.len(),
            !is_post_action(*message),
            forall|j: int| 0 <= j < i ==> #[trigger] is_exempt(*message, j),
        decreases n - i,
    {
        let exempt = calls(message, i, &MAGIC_PROGRAM_ID) && match instruction_discriminant(
            &message.instructions[i],
        ) {
            Some(d) => listed(&PRIVILEGED_MAGIC_DISCRIMINANTS, d),
            None => false,
        };
        assert(exempt == is_exempt(*message, i as int));
        if !exempt {
            return PrivilegedAccess::NoAccess;
        }
        i += 1;
    }
    PrivilegedAccess::Full
}

/// The access that a clone opens: the first instruction must be a clone, and the second must name
/// the cloned account at the same place among its accounts.
pub fn clone_with_post_delegation_action_executor_access(message: &Message) -> (access:
    PrivilegedAccess)
    ensures
        access == clone_access(*message),
{
    if message.instructions.len() < 2 {
        return PrivilegedAccess::NoAccess;
    }
    let clone = &message.instructions[0];
    let action = &message.instructions[1];
    let is_clone = match instruction_discriminant(clone) {
        Some(d) => d == CLONE_ACCOUNT_DISCRIMINANT || d == CLONE_ACCOUNT_CONTINUE_DISCRIMINANT,
        None => false,
    };
    let at: usize = CLONED_ACCOUNT_INSTRUCTION_ACCOUNT_INDEX;
    if !is_clone || at >= clone.accounts.len() || at >= action.accounts.len() {
        return PrivilegedAccess::NoAccess;
    }
    if clone.accounts[at] != action.accounts[at] {
        return PrivilegedAccess::NoAccess;
    }
    PrivilegedAccess::CloneWithPostDelegationActionExecutor {
        cloned_account: clone.accounts[at] as usize,
    }
}

} // verus!
