//! Laws of the check of a loaded transaction, and how it relates to the check of an executed one.

use crate::access_permissions::{is_control, only_control};
use crate::message::Message;
use crate::program_ids::{MAGIC_PROGRAM_ID, POST_DELEGATION_ACTION_EXECUTOR_PROGRAM_ID};
use crate::pubkey::Pubkey;
use crate::svm::access_permissions::{account_line, failure_line};
use crate::svm::privileged_access::{granted_access, is_exempt, is_post_action, PrivilegedAccess};
use crate::transaction::{ExecutedTransaction, LoadedTransaction, TransactionError};
use vstd::prelude::*;

verus! {

/// Two messages send the same instructions: the same data and accounts to the same programs.
pub open spec fn same_instructions(m: Message, n: Message) -> bool {
    &&& m.instructions@.len() == n.instructions@.len()
    &&& forall|i: int|
        #![trigger m.program(i)]
        #![trigger n.program(i)]
        #![trigger m.instructions@[i]]
        #![trigger n.instructions@[i]]
        0 <= i < m.instructions@.len() ==> {
            &&& m.program(i) == n.program(i)
            &&& m.instructions@[i].data@ == n.instructions@[i].data@
            &&& m.instructions@[i].accounts@ == n.instructions@[i].accounts@
        }
}

/// Two messages mark the same accounts as writable, the fee payer left out.
pub open spec fn same_writable(m: Message, n: Message) -> bool {
    forall|i: int| 1 <= i ==> #[trigger] m.writable_at(i) == #[trigger] n.writable_at(i)
}

/// The message marks the account at position `i` of the transaction as writable. The fee payer is
/// left out.
pub open spec fn writes(tx: LoadedTransaction, message: Message, i: int) -> bool {
    1 <= i < tx.accounts@.len() && message.writable_at(i)
}

/// Where the fee payer is not privileged, a transaction that passes writes to delegated,
/// undelegating, ephemeral and confined accounts only.
pub proof fn passing_writes_are_legal(
    tx: LoadedTransaction,
    message: Message,
    result: Result<(), (TransactionError, Pubkey)>,
)
    requires
        tx.answered(message, result),
        result is Ok,
        tx.accounts@.len() > 0 ==> !tx.accounts@[0].1.privileged,
    ensures
        forall|i: int|
            1 <= i < tx.accounts@.len() && #[trigger] message.writable_at(i)
                ==> tx.accounts@[i].1.mutable(),
{
    assert forall|i: int| 1 <= i < tx.accounts@.len() && #[trigger] message.writable_at(i) implies
        tx.accounts@[i].1.mutable() by {
        assert(!tx.illegal_write(message, i));
    }
}

/// A write that the rules forbid passes for a privileged fee payer alone, and only if every
/// instruction is a listed control instruction of the Magic program.
pub proof fn passing_illegal_write_takes_privilege(
    tx: LoadedTransaction,
    message: Message,
    result: Result<(), (TransactionError, Pubkey)>,
    i: int,
)
    requires
        tx.answered(message, result),
        result is Ok,
        tx.illegal_write(message, i),
    ensures
        tx.accounts@[0].1.privileged,
        only_control(message),
{
}

/// The check has one answer for each transaction.
pub proof fn answer_is_unique(
    tx: LoadedTransaction,
    message: Message,
    a: Result<(), (TransactionError, Pubkey)>,
    b: Result<(), (TransactionError, Pubkey)>,
)
    requires
        tx.answered(message, a),
        tx.answered(message, b),
    ensures
        a == b,
{
    if a is Err && b is Err {
        let i = choose|i: int| #[trigger]
            tx.first_illegal_write(message, i) && a->Err_0.1 == tx.accounts@[i].0;
        let j = choose|j: int| #[trigger]
            tx.first_illegal_write(message, j) && b->Err_0.1 == tx.accounts@[j].0;
        assert(i == j);
        assert(a->Err_0 == b->Err_0);
    } else if a is Ok && b is Ok {
        assert(a->Ok_0 == b->Ok_0);
    }
}

/// Read-only accounts are not looked at: two transactions with the same fee payer and the same
/// writable accounts get the same answer.
pub proof fn read_only_accounts_are_ignored(
    a: LoadedTransaction,
    b: LoadedTransaction,
    message: Message,
    result: Result<(), (TransactionError, Pubkey)>,
)
    requires
        a.accounts@.len() == b.accounts@.len(),
        a.accounts@.len() > 0 ==> a.accounts@[0] == b.accounts@[0],
        forall|i: int|
            1 <= i < a.accounts@.len() && #[trigger] message.writable_at(i) ==> a.accounts@[i]
                == b.accounts@[i],
        a.answered(message, result),
    ensures
        b.answered(message, result),
{
    assert forall|i: int| #[trigger]
        a.illegal_write(message, i) == b.illegal_write(message, i) by {
        let _ = message.writable_at(i);
    }
    if result is Err {
        let i = choose|i: int| #[trigger]
            a.first_illegal_write(message, i) && result->Err_0.1 == a.accounts@[i].0;
        assert(a.illegal_write(message, i));
        assert(b.first_illegal_write(message, i)) by {
            assert forall|j: int| j < i implies !#[trigger] b.illegal_write(message, j) by {
                assert(!a.illegal_write(message, j));
            }
        }
    } else {
        assert forall|i: int| !b.waived(message) implies !#[trigger] b.illegal_write(message, i) by {
            assert(!a.illegal_write(message, i));
        }
    }
}

/// Whether the fee payer is marked as writable makes no difference.
pub proof fn payer_writability_is_ignored(
    tx: LoadedTransaction,
    m: Message,
    n: Message,
    result: Result<(), (TransactionError, Pubkey)>,
)
    requires
        same_instructions(m, n),
        same_writable(m, n),
        tx.answered(m, result),
    ensures
        tx.answered(n, result),
{
    assert forall|i: int| #[trigger] tx.illegal_write(m, i) == tx.illegal_write(n, i) by {
        let _ = m.writable_at(i) == n.writable_at(i);
    }
    if only_control(m) {
        assert forall|i: int| 0 <= i < n.instructions@.len() implies #[trigger] is_control(n, i) by {
            assert(is_control(m, i));
        }
    }
    if only_control(n) {
        assert forall|i: int| 0 <= i < m.instructions@.len() implies #[trigger] is_control(m, i) by {
            assert(is_control(n, i));
        }
    }
    if result is Err {
        let i = choose|i: int| #[trigger]
            tx.first_illegal_write(m, i) && result->Err_0.1 == tx.accounts@[i].0;
        assert(tx.illegal_write(m, i));
        assert forall|j: int| j < i implies !#[trigger] tx.illegal_write(n, j) by {
            assert(!tx.illegal_write(m, j));
        }
        assert(tx.first_illegal_write(n, i));
    } else {
        assert forall|i: int| !tx.waived(n) implies !#[trigger] tx.illegal_write(n, i) by {
            assert(!tx.illegal_write(m, i));
        }
    }
}

/// Without privilege the answer depends on nothing but the writable accounts: two transactions with
/// writable accounts at the same positions, with the same keys and alike in whether they may be
/// written, get the same answer whatever instructions are sent.
pub proof fn only_writable_accounts_matter_without_privilege(
    a: LoadedTransaction,
    m: Message,
    b: LoadedTransaction,
    n: Message,
    result: Result<(), (TransactionError, Pubkey)>,
)
    requires
        a.accounts@.len() > 0 ==> !a.accounts@[0].1.privileged,
        b.accounts@.len() > 0 ==> !b.accounts@[0].1.privileged,
        forall|i: int| #[trigger] writes(a, m, i) == #[trigger] writes(b, n, i),
        forall|i: int| #[trigger]
            writes(a, m, i) ==> {
                &&& a.accounts@[i].0 == b.accounts@[i].0
                &&& a.accounts@[i].1.mutable() == b.accounts@[i].1.mutable()
            },
        a.answered(m, result),
    ensures
        b.answered(n, result),
{
    assert forall|i: int| a.illegal_write(m, i) == #[trigger] b.illegal_write(n, i) by {
        assert(writes(a, m, i) == writes(b, n, i));
    }
    if result is Err {
        let i = choose|i: int| #[trigger]
            a.first_illegal_write(m, i) && result->Err_0.1 == a.accounts@[i].0;
        assert(writes(a, m, i));
        assert forall|j: int| j < i implies !#[trigger] b.illegal_write(n, j) by {
            assert(!a.illegal_write(m, j));
        }
        assert(b.illegal_write(n, i));
        assert(b.first_illegal_write(n, i));
    } else {
        assert forall|i: int| !#[trigger] b.illegal_write(n, i) by {
            assert(!a.illegal_write(m, i));
        }
    }
}

/// A message of control instructions, which waives the check of a loaded transaction, opens full
/// access in the check of the executed one.
pub proof fn waiver_is_full_access(message: Message)
    requires
        only_control(message),
    ensures
        granted_access(message) == PrivilegedAccess::Full,
{
    let listed_before = crate::access_permissions::PRIVILEGED_MAGIC_DISCRIMINANTS@;
    let listed_after = crate::svm::privileged_access::PRIVILEGED_MAGIC_DISCRIMINANTS@;
    assert forall|d: u32| listed_before.contains(d) implies listed_after.contains(d) by {
        let at = choose|at: int| 0 <= at < listed_before.len() && listed_before[at] == d;
        assert(listed_after[if at < 8 { at } else { 9 }] == d);
    }
    assert forall|i: int| 0 <= i < message.instructions@.len() implies #[trigger] is_exempt(
        message,
        i,
    ) by {
        assert(is_control(message, i));
    }
    if is_post_action(message) {
        assert(is_control(message, 1));
        assert(MAGIC_PROGRAM_ID@[1] != POST_DELEGATION_ACTION_EXECUTOR_PROGRAM_ID@[1]);
    }
}

/// Take a transaction whose fee payer is not privileged, and whose execution succeeded and left the
/// fee payer alone or found it delegated. If every writable account that is undelegating, ephemeral
/// or confined is delegated as well, the transaction is refused after execution exactly if it is
/// refused when it is loaded, for the same account.
pub proof fn checks_agree_without_privilege(
    before: ExecutedTransaction,
    after: ExecutedTransaction,
    message: Message,
    result: Result<(), (TransactionError, Pubkey)>,
)
    requires
        before.loaded_transaction.answered(message, result),
        after.checked(before, message),
        before.successful(),
        !before.privileged_payer(),
        before.accounts().len() > 0 ==> before.accounts()[0].1.delegated
            || !before.accounts()[0].1.lamports_changed,
        forall|i: int|
            1 <= i < before.accounts().len() && #[trigger] message.writable_at(i)
                && before.accounts()[i].1.mutable() ==> before.accounts()[i].1.delegated,
    ensures
        result is Ok ==> after == before,
        result matches Err((error, key)) ==> exists|i: int| #[trigger]
            before.first_illegal_write(message, i) && before.accounts()[i].0 == key
                && after.refused(before, error, seq![account_line(i as nat, key@), failure_line()]),
{
    let loaded = before.loaded_transaction;
    assert forall|i: int| #[trigger]
        loaded.illegal_write(message, i) == before.illegal_write(message, i) by {
        let _ = message.writable_at(i);
    }
    if result is Ok {
        assert forall|i: int| !#[trigger] before.illegal_write(message, i) by {
            assert(!loaded.illegal_write(message, i));
        }
    } else {
        let key = result->Err_0.1;
        let i = choose|i: int| #[trigger]
            loaded.first_illegal_write(message, i) && key == loaded.accounts@[i].0;
        assert(loaded.illegal_write(message, i));
        assert(before.illegal_write(message, i));
        let j = choose|j: int| #[trigger]
            before.first_illegal_write(message, j) && after.refused(
                before,
                TransactionError::InvalidWritableAccount,
                seq![account_line(j as nat, before.accounts()[j].0@), failure_line()],
            );
        assert(loaded.illegal_write(message, j));
        assert(i == j);
    }
}

/// The check of the executed transaction is the stricter one: where the fee payer is not privileged,
/// what passes it passes the check of the loaded transaction too.
pub proof fn executed_check_is_stricter_without_privilege(
    before: ExecutedTransaction,
    after: ExecutedTransaction,
    message: Message,
    result: Result<(), (TransactionError, Pubkey)>,
)
    requires
        before.loaded_transaction.answered(message, result),
        after.checked(before, message),
        before.successful(),
        after.successful(),
        !before.privileged_payer(),
    ensures
        result is Ok,
{
    assert forall|i: int| !#[trigger] before.loaded_transaction.illegal_write(message, i) by {
        assert(!before.illegal_write(message, i));
    }
}

} // verus!
