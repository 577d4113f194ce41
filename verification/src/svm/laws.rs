//! Laws of the check of an executed transaction.

use crate::account::AccountSharedData;
use crate::laws::{same_instructions, same_writable};
use crate::message::{discriminant, Message};
use crate::program_ids::{MAGIC_PROGRAM_ID, POST_DELEGATION_ACTION_EXECUTOR_PROGRAM_ID};
use crate::svm::access_permissions::{account_line, failure_line};
use crate::svm::privileged_access::{
    cloned_account, granted_access, is_exempt, is_post_action, only_exempt, PrivilegedAccess,
    PRIVILEGED_MAGIC_DISCRIMINANTS,
};
use crate::transaction::{ExecutedTransaction, TransactionError};
use vstd::prelude::*;

verus! {

/// Two transactions ended alike: with the same status, and the same log lines or none recorded.
pub open spec fn ended_alike(a: ExecutedTransaction, b: ExecutedTransaction) -> bool {
    &&& a.execution_details.status == b.execution_details.status
    &&& a.execution_details.log_messages is Some == b.execution_details.log_messages is Some
    &&& a.log_lines() == b.log_lines()
}

/// A transaction that failed before the check is left as it is.
pub proof fn failed_transaction_is_untouched(
    before: ExecutedTransaction,
    after: ExecutedTransaction,
    message: Message,
)
    requires
        after.checked(before, message),
        !before.successful(),
    ensures
        after == before,
{
}

/// A transaction that succeeded stays successful exactly if it keeps to the access rules, and is then
/// left as it is.
pub proof fn success_is_kept_by_legal_transactions(
    before: ExecutedTransaction,
    after: ExecutedTransaction,
    message: Message,
)
    requires
        after.checked(before, message),
        before.successful(),
    ensures
        after.successful() <==> before.legal(message),
        after.successful() ==> after == before,
{
}

/// The check leaves the accounts alone and takes no log line away.
pub proof fn accounts_and_logs_are_kept(
    before: ExecutedTransaction,
    after: ExecutedTransaction,
    message: Message,
)
    requires
        after.checked(before, message),
    ensures
        after.loaded_transaction == before.loaded_transaction,
        before.log_lines().is_prefix_of(after.log_lines()),
{
}

/// A refusal has one of two reasons, and a change of the fee payer comes before any other.
pub proof fn reason_of_refusal(
    before: ExecutedTransaction,
    after: ExecutedTransaction,
    message: Message,
)
    requires
        after.checked(before, message),
        before.successful(),
        !after.successful(),
    ensures
        after.execution_details.status == Err::<(), TransactionError>(
            if before.illegal_fee(message) {
                TransactionError::InvalidAccountForFee
            } else {
                TransactionError::InvalidWritableAccount
            },
        ),
{
}

/// A second check changes nothing.
pub proof fn check_is_idempotent(
    before: ExecutedTransaction,
    once: ExecutedTransaction,
    twice: ExecutedTransaction,
    message: Message,
)
    requires
        once.checked(before, message),
        twice.checked(once, message),
    ensures
        twice == once,
{
}

/// The check has one outcome for each transaction.
pub proof fn outcome_is_unique(
    before: ExecutedTransaction,
    a: ExecutedTransaction,
    b: ExecutedTransaction,
    message: Message,
)
    requires
        a.checked(before, message),
        b.checked(before, message),
    ensures
        a.loaded_transaction == b.loaded_transaction,
        ended_alike(a, b),
{
}

/// Where the fee payer is not privileged, a transaction that passes wrote to delegated accounts only,
/// and the fee payer did not change unless it is delegated.
pub proof fn passing_writes_are_legal(
    before: ExecutedTransaction,
    after: ExecutedTransaction,
    message: Message,
)
    requires
        after.checked(before, message),
        before.successful(),
        after.successful(),
        !before.privileged_payer(),
    ensures
        forall|i: int|
            1 <= i < before.accounts().len() && #[trigger] message.writable_at(i)
                ==> before.accounts()[i].1.delegated,
        before.accounts().len() > 0 && before.accounts()[0].1.lamports_changed
            ==> before.accounts()[0].1.delegated,
{
    assert forall|i: int|
        1 <= i < before.accounts().len() && #[trigger] message.writable_at(i) implies
        before.accounts()[i].1.delegated by {
        assert(!before.illegal_write(message, i));
    }
}

/// A write to an account that is not delegated passes for a privileged fee payer alone, and only in
/// two cases: every instruction is a listed control instruction of the Magic program; or the message
/// clones this very account and hands it to the executor of post-delegation actions.
pub proof fn passing_illegal_write_takes_privilege(
    before: ExecutedTransaction,
    after: ExecutedTransaction,
    message: Message,
    i: int,
)
    requires
        after.checked(before, message),
        before.successful(),
        after.successful(),
        1 <= i < before.accounts().len(),
        message.writable_at(i),
        !before.accounts()[i].1.delegated,
    ensures
        before.privileged_payer(),
        ({
            ||| !is_post_action(message) && only_exempt(message)
            ||| is_post_action(message) && cloned_account(message) == Some(i as u8) && i <= u8::MAX
        }),
{
    assert(!before.illegal_write(message, i));
}

/// A fee payer that is not delegated may change only under privilege, and only in the same two
/// cases.
pub proof fn passing_fee_payer_change_takes_privilege(
    before: ExecutedTransaction,
    after: ExecutedTransaction,
    message: Message,
)
    requires
        after.checked(before, message),
        before.successful(),
        after.successful(),
        before.accounts().len() > 0,
        before.accounts()[0].1.lamports_changed,
        !before.accounts()[0].1.delegated,
    ensures
        before.privileged_payer(),
        only_exempt(message) || is_post_action(message) && cloned_account(message) is Some,
{
}

/// Without privilege the instructions make no difference, only which accounts are writable, the fee
/// payer left out.
pub proof fn instructions_do_not_matter_without_privilege(
    before: ExecutedTransaction,
    after: ExecutedTransaction,
    m: Message,
    n: Message,
)
    requires
        !before.privileged_payer(),
        same_writable(m, n),
        after.checked(before, m),
    ensures
        after.checked(before, n),
{
    assert forall|i: int| before.illegal_write(m, i) == #[trigger] before.illegal_write(n, i) by {
        let _ = m.writable_at(i) == n.writable_at(i);
    }
    lemma_same_violations(before, after, m, n);
}

/// Privilege only adds: a transaction that passes without it passes with it.
pub proof fn privilege_never_hurts(
    plain: ExecutedTransaction,
    privileged: ExecutedTransaction,
    plain_after: ExecutedTransaction,
    privileged_after: ExecutedTransaction,
    message: Message,
)
    requires
        plain.successful(),
        privileged.successful(),
        plain.accounts().len() == privileged.accounts().len(),
        forall|i: int|
            1 <= i < plain.accounts().len() ==> #[trigger] plain.accounts()[i]
                == privileged.accounts()[i],
        plain.accounts().len() > 0 ==> privileged.accounts()[0].1 == (AccountSharedData {
            privileged: true,
            ..plain.accounts()[0].1
        }),
        !plain.privileged_payer(),
        plain_after.checked(plain, message),
        privileged_after.checked(privileged, message),
        plain_after.successful(),
    ensures
        privileged_after.successful(),
{
    assert forall|i: int| !#[trigger] privileged.illegal_write(message, i) by {
        assert(!plain.illegal_write(message, i));
        if 1 <= i < plain.accounts().len() {
            assert(plain.accounts()[i] == privileged.accounts()[i]);
        }
    }
}

/// What the check finds in a message decides what it does: where it finds the same in another, the
/// outcome is the same.
proof fn lemma_same_violations(
    before: ExecutedTransaction,
    after: ExecutedTransaction,
    m: Message,
    n: Message,
)
    requires
        before.illegal_fee(m) == before.illegal_fee(n),
        forall|i: int| before.illegal_write(m, i) == #[trigger] before.illegal_write(n, i),
        after.checked(before, m),
    ensures
        after.checked(before, n),
{
    if before.legal(m) {
        assert forall|i: int| !#[trigger] before.illegal_write(n, i) by {
            assert(!before.illegal_write(m, i));
        }
    } else if before.legal(n) {
        assert forall|i: int| !#[trigger] before.illegal_write(m, i) by {
            assert(!before.illegal_write(n, i));
        }
    } else if before.successful() && !before.illegal_fee(m) {
        let i = choose|i: int| #[trigger]
            before.first_illegal_write(m, i) && after.refused(
                before,
                TransactionError::InvalidWritableAccount,
                seq![account_line(i as nat, before.accounts()[i].0@), failure_line()],
            );
        assert(before.illegal_write(n, i));
        assert forall|j: int| j < i implies !#[trigger] before.illegal_write(n, j) by {
            assert(!before.illegal_write(m, j));
        }
        assert(before.first_illegal_write(n, i));
    }
}

/// Read-only accounts are not looked at: two transactions that ended alike, with the same fee payer
/// and the same writable accounts, end alike after the check.
pub proof fn read_only_accounts_are_ignored(
    a: ExecutedTransaction,
    a_after: ExecutedTransaction,
    b: ExecutedTransaction,
    b_after: ExecutedTransaction,
    message: Message,
)
    requires
        ended_alike(a, b),
        a.accounts().len() == b.accounts().len(),
        a.accounts().len() > 0 ==> a.accounts()[0] == b.accounts()[0],
        forall|i: int|
            1 <= i < a.accounts().len() && #[trigger] message.writable_at(i) ==> a.accounts()[i]
                == b.accounts()[i],
        a_after.checked(a, message),
        b_after.checked(b, message),
    ensures
        ended_alike(a_after, b_after),
{
    assert forall|i: int| a.illegal_write(message, i) == #[trigger] b.illegal_write(message, i) by {
        let _ = message.writable_at(i);
    }
    if a.legal(message) {
        assert forall|i: int| !#[trigger] b.illegal_write(message, i) by {
            assert(!a.illegal_write(message, i));
        }
    } else if b.legal(message) {
        assert forall|i: int| !#[trigger] a.illegal_write(message, i) by {
            assert(!b.illegal_write(message, i));
        }
    } else if a.successful() && !a.illegal_fee(message) {
        let i = choose|i: int| #[trigger]
            a.first_illegal_write(message, i) && a_after.refused(
                a,
                TransactionError::InvalidWritableAccount,
                seq![account_line(i as nat, a.accounts()[i].0@), failure_line()],
            );
        let j = choose|j: int| #[trigger]
            b.first_illegal_write(message, j) && b_after.refused(
                b,
                TransactionError::InvalidWritableAccount,
                seq![account_line(j as nat, b.accounts()[j].0@), failure_line()],
            );
        assert(b.illegal_write(message, i));
        assert(a.illegal_write(message, j));
        assert(i == j);
        assert(message.writable_at(i));
    }
}

/// Whether the fee payer is marked as writable makes no difference.
pub proof fn payer_writability_is_ignored(
    before: ExecutedTransaction,
    after: ExecutedTransaction,
    m: Message,
    n: Message,
)
    requires
        same_instructions(m, n),
        same_writable(m, n),
        after.checked(before, m),
    ensures
        after.checked(before, n),
{
    lemma_same_access(m, n);
    assert forall|i: int| before.illegal_write(m, i) == #[trigger] before.illegal_write(n, i) by {
        let _ = m.writable_at(i) == n.writable_at(i);
    }
    lemma_same_violations(before, after, m, n);
}

/// The access that a message opens depends on its instructions only.
proof fn lemma_same_access(m: Message, n: Message)
    requires
        same_instructions(m, n),
    ensures
        granted_access(m) == granted_access(n),
{
    if only_exempt(m) {
        assert forall|i: int| 0 <= i < n.instructions@.len() implies #[trigger] is_exempt(n, i) by {
            assert(is_exempt(m, i));
        }
    }
    if only_exempt(n) {
        assert forall|i: int| 0 <= i < m.instructions@.len() implies #[trigger] is_exempt(m, i) by {
            assert(is_exempt(n, i));
        }
    }
}

/// Full access is for listed control instructions of the Magic program only.
pub proof fn full_access_takes_control_instructions(message: Message, i: int)
    requires
        granted_access(message) == PrivilegedAccess::Full,
        0 <= i < message.instructions@.len(),
    ensures
        message.program(i) == Some(MAGIC_PROGRAM_ID@),
        discriminant(message.instructions@[i].data@) matches Some(d)
            && PRIVILEGED_MAGIC_DISCRIMINANTS@.contains(d),
{
    assert(is_exempt(message, i));
}

/// A message that calls any program but the Magic program opens full access to nobody.
pub proof fn foreign_program_closes_full_access(message: Message, i: int)
    requires
        0 <= i < message.instructions@.len(),
        message.program(i) != Some(MAGIC_PROGRAM_ID@),
    ensures
        granted_access(message) != PrivilegedAccess::Full,
{
    assert(!is_exempt(message, i));
}

/// A message that calls the executor of post-delegation actions opens at most the one account that
/// it clones.
pub proof fn executor_opens_the_cloned_account_only(message: Message, i: int, account: int)
    requires
        0 <= i < message.instructions@.len(),
        message.program(i) == Some(POST_DELEGATION_ACTION_EXECUTOR_PROGRAM_ID@),
        granted_access(message).account_write(account),
    ensures
        is_post_action(message),
        cloned_account(message) == Some(account as u8),
        0 <= account <= u8::MAX,
{
    assert(POST_DELEGATION_ACTION_EXECUTOR_PROGRAM_ID@[1] != MAGIC_PROGRAM_ID@[1]);
    foreign_program_closes_full_access(message, i);
}

} // verus!
