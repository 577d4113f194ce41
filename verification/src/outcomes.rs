//! What the check of a loaded transaction comes to, told from the fields of the message and of the
//! accounts.

use crate::access_permissions::{is_control, only_control, PRIVILEGED_MAGIC_DISCRIMINANTS};
use crate::message::Message;
use crate::program_ids::MAGIC_PROGRAM_ID;
use crate::pubkey::Pubkey;
use crate::transaction::{LoadedTransaction, TransactionError};
use vstd::prelude::*;

verus! {

/// The listed control instructions.
pub proof fn listed_control_instructions(d: u32)
    ensures
        PRIVILEGED_MAGIC_DISCRIMINANTS@.contains(d) <==> d == 0 || d == 8 || d == 9 || 16 <= d <= 20
            || d == 22,
{
    let list = PRIVILEGED_MAGIC_DISCRIMINANTS@;
    assert(list[0] == 0 && list[1] == 8 && list[2] == 9 && list[3] == 16 && list[4] == 17 && list[5]
        == 18 && list[6] == 19 && list[7] == 20 && list[8] == 22);
}

/// An instruction is a control instruction exactly if its index picks the Magic program and its data
/// starts with a listed number, in one byte and three zero bytes.
pub proof fn control_instruction_by_fields(message: Message, i: int)
    ensures
        is_control(message, i) <==> {
            let instruction = message.instructions@[i];
            &&& instruction.program_id_index < message.account_keys@.len()
            &&& message.account_keys@[instruction.program_id_index as int]@ == MAGIC_PROGRAM_ID@
            &&& instruction.data@.len() >= 4
            &&& PRIVILEGED_MAGIC_DISCRIMINANTS@.contains(instruction.data@[0] as u32)
            &&& instruction.data@[1] == 0
            &&& instruction.data@[2] == 0
            &&& instruction.data@[3] == 0
        },
{
    let data = message.instructions@[i].data@;
    let d = (data[0] + data[1] * 0x100 + data[2] * 0x1_0000 + data[3] * 0x100_0000) as u32;
    listed_control_instructions(d);
    listed_control_instructions(data[0] as u32);
}

/// A privileged fee payer that sends control instructions only passes, however many there are and
/// whatever is writable.
pub proof fn privileged_control_instructions_pass(
    tx: LoadedTransaction,
    message: Message,
    result: Result<(), (TransactionError, Pubkey)>,
)
    requires
        tx.answered(message, result),
        tx.accounts@.len() > 0,
        tx.accounts@[0].1.privileged,
        forall|i: int|
            0 <= i < message.instructions@.len() ==> {
                let instruction = #[trigger] message.instructions@[i];
                &&& instruction.program_id_index < message.account_keys@.len()
                &&& message.account_keys@[instruction.program_id_index as int]@ == MAGIC_PROGRAM_ID@
                &&& instruction.data@.len() >= 4
                &&& PRIVILEGED_MAGIC_DISCRIMINANTS@.contains(instruction.data@[0] as u32)
                &&& instruction.data@[1] == 0
                &&& instruction.data@[2] == 0
                &&& instruction.data@[3] == 0
            },
    ensures
        result is Ok,
{
    assert forall|i: int| 0 <= i < message.instructions@.len() implies #[trigger] is_control(
        message,
        i,
    ) by {
        control_instruction_by_fields(message, i);
        let _ = message.instructions@[i];
    }
}

/// A transaction passes if each account behind the fee payer that the message flags as writable is
/// delegated, undelegating, ephemeral or confined.
pub proof fn flagged_accounts_that_are_mutable_pass(
    tx: LoadedTransaction,
    message: Message,
    result: Result<(), (TransactionError, Pubkey)>,
)
    requires
        tx.answered(message, result),
        forall|i: int|
            1 <= i < tx.accounts@.len() && i < message.writable@.len() && message.writable@[i] ==> {
                let account = (#[trigger] tx.accounts@[i]).1;
                account.delegated || account.undelegating || account.ephemeral || account.confined
            },
    ensures
        result is Ok,
{
    assert forall|i: int| !#[trigger] tx.illegal_write(message, i) by {
        if 1 <= i < tx.accounts@.len() {
            let _ = tx.accounts@[i];
        }
    }
}

/// Without privilege a transaction is refused for the first account behind the fee payer that the
/// message flags as writable and that has none of the four flags.
pub proof fn first_flagged_account_is_refused(
    tx: LoadedTransaction,
    message: Message,
    result: Result<(), (TransactionError, Pubkey)>,
    i: int,
)
    requires
        tx.answered(message, result),
        !tx.accounts@[0].1.privileged,
        1 <= i < tx.accounts@.len(),
        i < message.writable@.len(),
        message.writable@[i],
        !tx.accounts@[i].1.delegated,
        !tx.accounts@[i].1.undelegating,
        !tx.accounts@[i].1.ephemeral,
        !tx.accounts@[i].1.confined,
        forall|j: int|
            1 <= j < i && message.writable@[j] ==> {
                let account = (#[trigger] tx.accounts@[j]).1;
                account.delegated || account.undelegating || account.ephemeral || account.confined
            },
    ensures
        result == Err::<(), (TransactionError, Pubkey)>(
            (TransactionError::InvalidWritableAccount, tx.accounts@[i].0),
        ),
{
    lemma_first_refusal(tx, message, result, i);
}

/// One instruction that is no control instruction takes the privilege away: the transaction is
/// refused for the first account at fault, as it is without privilege.
pub proof fn first_flagged_account_is_refused_beside_other_instructions(
    tx: LoadedTransaction,
    message: Message,
    result: Result<(), (TransactionError, Pubkey)>,
    i: int,
    at: int,
)
    requires
        tx.answered(message, result),
        0 <= at < message.instructions@.len(),
        ({
            let instruction = message.instructions@[at];
            ||| instruction.program_id_index >= message.account_keys@.len()
            ||| message.account_keys@[instruction.program_id_index as int]@ != MAGIC_PROGRAM_ID@
            ||| instruction.data@.len() < 4
            ||| !PRIVILEGED_MAGIC_DISCRIMINANTS@.contains(instruction.data@[0] as u32)
            ||| instruction.data@[1] != 0
            ||| instruction.data@[2] != 0
            ||| instruction.data@[3] != 0
        }),
        1 <= i < tx.accounts@.len(),
        i < message.writable@.len(),
        message.writable@[i],
        !tx.accounts@[i].1.delegated,
        !tx.accounts@[i].1.undelegating,
        !tx.accounts@[i].1.ephemeral,
        !tx.accounts@[i].1.confined,
        forall|j: int|
            1 <= j < i && message.writable@[j] ==> {
                let account = (#[trigger] tx.accounts@[j]).1;
                account.delegated || account.undelegating || account.ephemeral || account.confined
            },
    ensures
        result == Err::<(), (TransactionError, Pubkey)>(
            (TransactionError::InvalidWritableAccount, tx.accounts@[i].0),
        ),
{
    control_instruction_by_fields(message, at);
    assert(!is_control(message, at));
    lemma_first_refusal(tx, message, result, i);
}

/// A transaction that is not waived is refused for the first account at fault.
proof fn lemma_first_refusal(
    tx: LoadedTransaction,
    message: Message,
    result: Result<(), (TransactionError, Pubkey)>,
    i: int,
)
    requires
        tx.answered(message, result),
        !tx.waived(message),
        tx.illegal_write(message, i),
        forall|j: int|
            1 <= j < i && message.writable@[j] ==> (#[trigger] tx.accounts@[j]).1.mutable(),
    ensures
        result == Err::<(), (TransactionError, Pubkey)>(
            (TransactionError::InvalidWritableAccount, tx.accounts@[i].0),
        ),
{
    let first = choose|k: int| #[trigger]
        tx.first_illegal_write(message, k) && result->Err_0.1 == tx.accounts@[k].0;
    assert(tx.illegal_write(message, first));
    let _ = tx.accounts@[first];
    assert(first == i);
    assert(result->Err_0 == (TransactionError::InvalidWritableAccount, tx.accounts@[i].0));
}

/// Messages of control instructions stay such when their instructions are put one after the other,
/// and a message of control instructions has only such parts.
pub proof fn control_instructions_add_up(m: Message, n: Message, both: Message)
    requires
        both.account_keys@ == m.account_keys@,
        both.account_keys@ == n.account_keys@,
        both.instructions@ == m.instructions@ + n.instructions@,
    ensures
        only_control(both) <==> only_control(m) && only_control(n),
{
    let split = m.instructions@.len() as int;
    assert forall|i: int| 0 <= i < split implies is_control(m, i) == #[trigger] is_control(
        both,
        i,
    ) by {
        assert(both.instructions@[i] == m.instructions@[i]);
    }
    assert forall|i: int| 0 <= i < n.instructions@.len() implies #[trigger] is_control(n, i)
        == is_control(both, split + i) by {
        assert(both.instructions@[split + i] == n.instructions@[i]);
    }
    if only_control(both) {
        assert forall|i: int| 0 <= i < split implies #[trigger] is_control(m, i) by {
            assert(is_control(both, i));
        }
        assert forall|i: int| 0 <= i < n.instructions@.len() implies #[trigger] is_control(n, i) by {
            assert(is_control(both, split + i));
        }
    }
    if only_control(m) && only_control(n) {
        assert forall|i: int| 0 <= i < both.instructions@.len() implies #[trigger] is_control(
            both,
            i,
        ) by {
            if i < split {
                assert(is_control(m, i));
            } else {
                assert(is_control(n, i - split));
                assert(split + (i - split) == i);
            }
        }
    }
}

} // verus!
