//! What the check of an executed transaction comes to, told from the fields of the message and of the
//! accounts.

use crate::base58::base58;
use crate::decimal::decimal;
use crate::message::Message;
use crate::program_ids::{MAGIC_PROGRAM_ID, POST_DELEGATION_ACTION_EXECUTOR_PROGRAM_ID};
use crate::svm::access_permissions::{account_line, failure_line, fee_payer_line};
use crate::svm::privileged_access::{
    clone_access, granted_access, is_exempt, is_post_action, only_exempt, PrivilegedAccess,
    PRIVILEGED_MAGIC_DISCRIMINANTS,
};
use crate::transaction::{ExecutedTransaction, TransactionError};
use vstd::prelude::*;

verus! {

/// The listed control instructions.
pub proof fn listed_control_instructions(d: u32)
    ensures
        PRIVILEGED_MAGIC_DISCRIMINANTS@.contains(d) <==> d == 0 || d == 8 || d == 9 || 16 <= d <= 22
            || d == 24,
{
    let list = PRIVILEGED_MAGIC_DISCRIMINANTS@;
    assert(list[0] == 0 && list[1] == 8 && list[2] == 9 && list[3] == 16 && list[4] == 17 && list[5]
        == 18 && list[6] == 19 && list[7] == 20 && list[8] == 21 && list[9] == 22 && list[10] == 24);
}

/// An instruction is exempt exactly if its index picks the Magic program and its data starts with a
/// listed number, in one byte and three zero bytes.
pub proof fn exempt_instruction_by_fields(message: Message, i: int)
    ensures
        is_exempt(message, i) <==> {
            let instruction = message.instructions@[i];
            &&& instruction.program_id_index < message.account_keys@.len()
            &&& message.account_keys@[instruction.program_id_index as int]@ == MAGIC_PROGRAM_ID@
            &&& instruction.data@.len() >= 4
            &&& PRIVILEGED_MAGIC_DISCRIMINANTS@.contains(instruction.data@[0] as u32)
            &&& instruction.data@[1] == 0
            &&& instruction.data@[2] == 0
            &&& instruction.data@[3] == 0
        },
{
    let data = message.instructions@[i].data@;
    let d = (data[0] + data[1] * 0x100 + data[2] * 0x1_0000 + data[3] * 0x100_0000) as u32;
    listed_control_instructions(d);
    listed_control_instructions(data[0] as u32);
}

/// Full access is opened by a message of listed control instructions of the Magic program, however
/// many and with whatever payload, and by no other.
pub proof fn full_access_by_fields(message: Message)
    ensures
        granted_access(message) == PrivilegedAccess::Full <==> forall|i: int|
            0 <= i < message.instructions@.len() ==> {
                let instruction = #[trigger] message.instructions@[i];
                &&& instruction.program_id_index < message.account_keys@.len()
                &&& message.account_keys@[instruction.program_id_index as int]@ == MAGIC_PROGRAM_ID@
                &&& instruction.data@.len() >= 4
                &&& PRIVILEGED_MAGIC_DISCRIMINANTS@.contains(instruction.data@[0] as u32)
                &&& instruction.data@[1] == 0
                &&& instruction.data@[2] == 0
                &&& instruction.data@[3] == 0
            },
{
    assert forall|i: int| 0 <= i < message.instructions@.len() implies is_exempt(message, i) == {
        let instruction = #[trigger] message.instructions@[i];
        &&& instruction.program_id_index < message.account_keys@.len()
        &&& message.account_keys@[instruction.program_id_index as int]@ == MAGIC_PROGRAM_ID@
        &&& instruction.data@.len() >= 4
        &&& PRIVILEGED_MAGIC_DISCRIMINANTS@.contains(instruction.data@[0] as u32)
        &&& instruction.data@[1] == 0
        &&& instruction.data@[2] == 0
        &&& instruction.data@[3] == 0
    } by {
        exempt_instruction_by_fields(message, i);
    }
    assert(POST_DELEGATION_ACTION_EXECUTOR_PROGRAM_ID@[1] != MAGIC_PROGRAM_ID@[1]);
    if is_post_action(message) {
        assert(!is_exempt(message, 1));
        let _ = message.instructions@[1];
    } else if only_exempt(message) {
        assert forall|i: int| 0 <= i < message.instructions@.len() implies {
            let instruction = #[trigger] message.instructions@[i];
            &&& instruction.program_id_index < message.account_keys@.len()
            &&& message.account_keys@[instruction.program_id_index as int]@ == MAGIC_PROGRAM_ID@
            &&& instruction.data@.len() >= 4
            &&& PRIVILEGED_MAGIC_DISCRIMINANTS@.contains(instruction.data@[0] as u32)
            &&& instruction.data@[1] == 0
            &&& instruction.data@[2] == 0
            &&& instruction.data@[3] == 0
        } by {
            assert(is_exempt(message, i));
        }
    } else {
        let i = choose|i: int|
            0 <= i < message.instructions@.len() && !#[trigger] is_exempt(message, i);
        let _ = message.instructions@[i];
    }
}

/// One account is opened by a message of two instructions, to the Magic program and to the executor of
/// post-delegation actions. The first starts with the number of a clone, and both have the account at
/// the second place of their accounts. No other message opens an account alone.
pub proof fn opened_account_by_fields(message: Message, account: usize)
    ensures
        granted_access(message) == (PrivilegedAccess::CloneWithPostDelegationActionExecutor {
            cloned_account: account,
        }) <==> {
            let clone = message.instructions@[0];
            let action = message.instructions@[1];
            &&& message.instructions@.len() == 2
            &&& clone.program_id_index < message.account_keys@.len()
            &&& message.account_keys@[clone.program_id_index as int]@ == MAGIC_PROGRAM_ID@
            &&& action.program_id_index < message.account_keys@.len()
            &&& message.account_keys@[action.program_id_index as int]@
                == POST_DELEGATION_ACTION_EXECUTOR_PROGRAM_ID@
            &&& clone.data@.len() >= 4
            &&& clone.data@[0] == 16 || clone.data@[0] == 18
            &&& clone.data@[1] == 0
            &&& clone.data@[2] == 0
            &&& clone.data@[3] == 0
            &&& clone.accounts@.len() > 1
            &&& action.accounts@.len() > 1
            &&& clone.accounts@[1] == account
            &&& action.accounts@[1] == account
        },
{
}

/// What a clone opens depends on the first two instructions only: on the number that the first starts
/// with, and on the second of the accounts of each. It is one account or nothing.
pub proof fn clone_access_by_fields(message: Message, account: usize)
    ensures
        clone_access(message) == (PrivilegedAccess::CloneWithPostDelegationActionExecutor {
            cloned_account: account,
        }) <==> {
            let clone = message.instructions@[0];
            let action = message.instructions@[1];
            &&& message.instructions@.len() >= 2
            &&& clone.data@.len() >= 4
            &&& clone.data@[0] == 16 || clone.data@[0] == 18
            &&& clone.data@[1] == 0
            &&& clone.data@[2] == 0
            &&& clone.data@[3] == 0
            &&& clone.accounts@.len() > 1
            &&& action.accounts@.len() > 1
            &&& clone.accounts@[1] == account
            &&& action.accounts@[1] == account
        },
        clone_access(message) != PrivilegedAccess::Full,
{
}

/// Exempt messages stay exempt when their instructions are put one after the other, and an exempt
/// message has only exempt parts.
pub proof fn full_access_adds_up(m: Message, n: Message, both: Message)
    requires
        both.account_keys@ == m.account_keys@,
        both.account_keys@ == n.account_keys@,
        both.instructions@ == m.instructions@ + n.instructions@,
    ensures
        granted_access(both) == PrivilegedAccess::Full <==> granted_access(m)
            == PrivilegedAccess::Full && granted_access(n) == PrivilegedAccess::Full,
{
    full_access_by_fields(m);
    full_access_by_fields(n);
    full_access_by_fields(both);
    let split = m.instructions@.len() as int;
    assert forall|i: int| 0 <= i < split implies #[trigger] m.instructions@[i]
        == both.instructions@[i] by {}
    assert forall|i: int| 0 <= i < n.instructions@.len() implies #[trigger] n.instructions@[i]
        == both.instructions@[split + i] by {}
    assert forall|i: int| 0 <= i < both.instructions@.len() implies #[trigger] both.instructions@[i]
        == (if i < split {
        m.instructions@[i]
    } else {
        n.instructions@[i - split]
    }) by {}
}

/// What each access allows: nothing, everything, or the fee payer and one account.
pub proof fn access_allows(access: PrivilegedAccess, i: int)
    ensures
        access == PrivilegedAccess::NoAccess ==> !access.fee_payer_write() && !access.account_write(
            i,
        ),
        access == PrivilegedAccess::Full ==> access.fee_payer_write() && access.account_write(i),
        access matches PrivilegedAccess::CloneWithPostDelegationActionExecutor { cloned_account }
            ==> access.fee_payer_write() && (access.account_write(i) <==> i == cloned_account),
{
}

/// A transaction that failed is left as it is, whatever its accounts are.
pub proof fn failure_is_final(
    before: ExecutedTransaction,
    after: ExecutedTransaction,
    message: Message,
)
    requires
        after.checked(before, message),
        before.execution_details.status is Err,
    ensures
        after == before,
{
}

/// A transaction is left as it is if the fee payer kept its balance, is delegated or is freed, and
/// each account behind it that the message flags as writable is delegated or opened.
pub proof fn lawful_transaction_is_left_alone(
    before: ExecutedTransaction,
    after: ExecutedTransaction,
    message: Message,
)
    requires
        after.checked(before, message),
        ({
            let accounts = before.loaded_transaction.accounts@;
            let access = granted_access(message);
            &&& accounts.len() > 0 ==> {
                ||| accounts[0].1.delegated
                ||| !accounts[0].1.lamports_changed
                ||| accounts[0].1.privileged && access != PrivilegedAccess::NoAccess
            }
            &&& forall|i: int|
                1 <= i < accounts.len() && i < message.writable@.len() && message.writable@[i] ==> {
                    ||| (#[trigger] accounts[i]).1.delegated
                    ||| accounts[0].1.privileged && access == PrivilegedAccess::Full
                    ||| accounts[0].1.privileged && (access matches
                        PrivilegedAccess::CloneWithPostDelegationActionExecutor { cloned_account }
                        && cloned_account == i)
                }
        }),
    ensures
        after == before,
{
    assert forall|i: int| !#[trigger] before.illegal_write(message, i) by {
        if 1 <= i < before.accounts().len() {
            let _ = before.loaded_transaction.accounts@[i];
        }
    }
}

/// A successful transaction whose fee payer is not delegated and changed its balance is refused,
/// unless the fee payer is privileged and freed by its message. The refusal keeps the accounts and
/// the log lines, and adds one line.
pub proof fn changed_fee_payer_is_refused(
    before: ExecutedTransaction,
    after: ExecutedTransaction,
    message: Message,
)
    requires
        after.checked(before, message),
        before.execution_details.status is Ok,
        before.loaded_transaction.accounts@.len() > 0,
        !before.loaded_transaction.accounts@[0].1.delegated,
        before.loaded_transaction.accounts@[0].1.lamports_changed,
        !before.loaded_transaction.accounts@[0].1.privileged || granted_access(message)
            == PrivilegedAccess::NoAccess,
    ensures
        after.loaded_transaction == before.loaded_transaction,
        after.execution_details.status == Err::<(), TransactionError>(
            TransactionError::InvalidAccountForFee,
        ),
        after.execution_details.log_messages is Some,
        ({
            let old_lines = match before.execution_details.log_messages {
                Some(lines) => lines@,
                None => Seq::empty(),
            };
            let lines = after.execution_details.log_messages->0@;
            &&& lines.len() == old_lines.len() + 1
            &&& forall|k: int| 0 <= k < old_lines.len() ==> (#[trigger] lines[k])@ == old_lines[k]@
            &&& lines[old_lines.len() as int]@ == "Program log: Feepayer "@ + base58(
                before.loaded_transaction.accounts@[0].0@,
            ) + " was modified without being delegated"@
        }),
{
    let added = seq![fee_payer_line(before.accounts()[0].0@)];
    lemma_added_lines(before, after, added);
    assert(added[0] == fee_payer_line(before.accounts()[0].0@));
}

/// A successful transaction whose fee payer did no wrong is refused for the first account behind it
/// that the message flags as writable and that is neither delegated nor opened. The refusal keeps the
/// accounts and the log lines, and adds two lines.
pub proof fn first_unlawful_write_is_refused(
    before: ExecutedTransaction,
    after: ExecutedTransaction,
    message: Message,
    i: int,
)
    requires
        after.checked(before, message),
        before.execution_details.status is Ok,
        ({
            let accounts = before.loaded_transaction.accounts@;
            let access = granted_access(message);
            &&& {
                ||| accounts[0].1.delegated
                ||| !accounts[0].1.lamports_changed
                ||| accounts[0].1.privileged && access != PrivilegedAccess::NoAccess
            }
            &&& 1 <= i < accounts.len()
            &&& i < message.writable@.len()
            &&& message.writable@[i]
            &&& !accounts[i].1.delegated
            &&& accounts[0].1.privileged ==> access != PrivilegedAccess::Full && (access matches
                PrivilegedAccess::CloneWithPostDelegationActionExecutor { cloned_account }
                ==> cloned_account != i)
            &&& forall|j: int|
                1 <= j < i && message.writable@[j] ==> {
                    ||| (#[trigger] accounts[j]).1.delegated
                    ||| accounts[0].1.privileged && (access matches
                        PrivilegedAccess::CloneWithPostDelegationActionExecutor { cloned_account }
                        && cloned_account == j)
                }
        }),
    ensures
        after.loaded_transaction == before.loaded_transaction,
        after.execution_details.status == Err::<(), TransactionError>(
            TransactionError::InvalidWritableAccount,
        ),
        after.execution_details.log_messages is Some,
        ({
            let old_lines = match before.execution_details.log_messages {
                Some(lines) => lines@,
                None => Seq::empty(),
            };
            let lines = after.execution_details.log_messages->0@;
            &&& lines.len() == old_lines.len() + 2
            &&& forall|k: int| 0 <= k < old_lines.len() ==> (#[trigger] lines[k])@ == old_lines[k]@
            &&& lines[old_lines.len() as int]@ == "Program log: Account "@ + decimal(i as nat)
                + ": "@ + base58(before.loaded_transaction.accounts@[i].0@)
                + " was illegally used as writable"@
            &&& lines[old_lines.len() as int + 1]@
                == "Program Magic11111111111111111111111111111111111111 failed: InvalidWritableAccount"@
        }),
{
    assert(before.illegal_write(message, i));
    assert forall|j: int| j < i implies !#[trigger] before.illegal_write(message, j) by {
        if 1 <= j {
            let _ = before.loaded_transaction.accounts@[j];
        }
    }
    let first = choose|k: int| #[trigger]
        before.first_illegal_write(message, k) && after.refused(
            before,
            TransactionError::InvalidWritableAccount,
            seq![account_line(k as nat, before.accounts()[k].0@), failure_line()],
        );
    assert(before.illegal_write(message, first));
    assert(first == i);
    let added = seq![account_line(i as nat, before.accounts()[i].0@), failure_line()];
    lemma_added_lines(before, after, added);
    assert(added[0] == account_line(i as nat, before.accounts()[i].0@));
    assert(added[1] == failure_line());
}

/// Without privilege no flagged write to an account that is not delegated goes through, at any
/// position.
pub proof fn no_unlawful_write_goes_through(
    before: ExecutedTransaction,
    after: ExecutedTransaction,
    message: Message,
    i: int,
)
    requires
        after.checked(before, message),
        !before.loaded_transaction.accounts@[0].1.privileged,
        1 <= i < before.loaded_transaction.accounts@.len(),
        i < message.writable@.len(),
        message.writable@[i],
        !before.loaded_transaction.accounts@[i].1.delegated,
    ensures
        after.execution_details.status is Err,
{
    assert(before.illegal_write(message, i));
}

/// A refusal has the old log lines in their places, and the added ones behind them.
proof fn lemma_added_lines(
    before: ExecutedTransaction,
    after: ExecutedTransaction,
    added: Seq<Seq<char>>,
)
    requires
        after.execution_details.log_messages is Some,
        after.log_lines() == before.log_lines() + added,
    ensures
        ({
            let old_lines = match before.execution_details.log_messages {
                Some(lines) => lines@,
                None => Seq::empty(),
            };
            let lines = after.execution_details.log_messages->0@;
            &&& lines.len() == old_lines.len() + added.len()
            &&& forall|k: int| 0 <= k < old_lines.len() ==> (#[trigger] lines[k])@ == old_lines[k]@
            &&& forall|k: int|
                0 <= k < added.len() ==> lines[old_lines.len() + k]@ == #[trigger] added[k]
        }),
{
    let old_lines = match before.execution_details.log_messages {
        Some(lines) => lines@,
        None => Seq::empty(),
    };
    let lines = after.execution_details.log_messages->0@;
    assert(old_lines.len() == before.log_lines().len());
    assert(lines.len() == after.log_lines().len());
    assert forall|k: int| 0 <= k < old_lines.len() implies (#[trigger] lines[k])@
        == old_lines[k]@ by {
        assert(after.log_lines()[k] == before.log_lines()[k]);
    }
    assert forall|k: int| 0 <= k < added.len() implies lines[old_lines.len() + k]@
        == #[trigger] added[k] by {
        assert(after.log_lines()[old_lines.len() + k] == added[k]);
    }
}

/// The line for the fee payer starts and ends alike for every key, and shows the key in between.
pub proof fn fee_payer_line_shows_the_key(key: Seq<u8>)
    ensures
        ({
            let line = fee_payer_line(key);
            let front = "Program log: Feepayer "@;
            let back = " was modified without being delegated"@;
            &&& line.len() == front.len() + base58(key).len() + back.len()
            &&& front.is_prefix_of(line)
            &&& back.is_suffix_of(line)
            &&& line.subrange(front.len() as int, line.len() - back.len()) == base58(key)
        }),
{
    let line = fee_payer_line(key);
    let front = "Program log: Feepayer "@;
    let back = " was modified without being delegated"@;
    assert(line.subrange(front.len() as int, line.len() - back.len()) =~= base58(key));
    assert(line.subrange(0, front.len() as int) =~= front);
    assert(line.subrange(line.len() - back.len(), line.len() as int) =~= back);
}

/// The line for an account starts and ends alike for all accounts, and shows the position and the key
/// in between.
pub proof fn account_line_shows_position_and_key(position: nat, key: Seq<u8>)
    ensures
        ({
            let line = account_line(position, key);
            let front = "Program log: Account "@;
            let back = " was illegally used as writable"@;
            let shown = decimal(position) + ": "@ + base58(key);
            &&& line.len() == front.len() + shown.len() + back.len()
            &&& front.is_prefix_of(line)
            &&& back.is_suffix_of(line)
            &&& line.subrange(front.len() as int, line.len() - back.len()) == shown
        }),
{
    let line = account_line(position, key);
    let front = "Program log: Account "@;
    let back = " was illegally used as writable"@;
    let shown = decimal(position) + ": "@ + base58(key);
    assert(line.subrange(front.len() as int, line.len() - back.len()) =~= shown);
    assert(line.subrange(0, front.len() as int) =~= front);
    assert(line.subrange(line.len() - back.len(), line.len() as int) =~= back);
}

} // verus!
