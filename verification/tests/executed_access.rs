use solana_message::{
    compiled_instruction::CompiledInstruction, LegacyMessage, MessageHeader, SanitizedMessage,
};
use solana_svm_transaction::svm_message::SVMMessage;
use std::collections::HashSet;
use svm_access::account::AccountSharedData;
use svm_access::message::{Instruction, Message};
use svm_access::program_ids::{MAGIC_PROGRAM_ID, POST_DELEGATION_ACTION_EXECUTOR_PROGRAM_ID};
use svm_access::pubkey::Pubkey;
use svm_access::svm::privileged_access::{
    clone_with_post_delegation_action_executor_access, privileged_access, PrivilegedAccess,
    CLONE_ACCOUNT_CONTINUE_DISCRIMINANT, CLONE_ACCOUNT_DISCRIMINANT,
    PRIVILEGED_MAGIC_DISCRIMINANTS,
};
use svm_access::transaction::{
    ExecutedTransaction, LoadedTransaction, TransactionError, TransactionExecutionDetails,
};

const FAILURE: &str =
    "Program Magic11111111111111111111111111111111111111 failed: InvalidWritableAccount";

fn new_unique() -> Pubkey {
    solana_pubkey::Pubkey::new_unique().to_bytes()
}

fn text(key: Pubkey) -> String {
    solana_pubkey::Pubkey::from(key).to_string()
}

fn privileged_account() -> AccountSharedData {
    AccountSharedData {
        privileged: true,
        ..AccountSharedData::default()
    }
}

fn executed(accounts: Vec<(Pubkey, AccountSharedData)>) -> ExecutedTransaction {
    ExecutedTransaction {
        loaded_transaction: LoadedTransaction { accounts },
        execution_details: TransactionExecutionDetails {
            status: Ok(()),
            log_messages: None,
        },
    }
}

fn executed_transaction(payer: Pubkey, writable: Pubkey) -> ExecutedTransaction {
    executed_transaction_with_writable_accounts(payer, vec![writable])
}

fn executed_transaction_with_writable_accounts(
    payer: Pubkey,
    writable_accounts: Vec<Pubkey>,
) -> ExecutedTransaction {
    let mut accounts = vec![(payer, privileged_account())];
    accounts.extend(
        writable_accounts
            .into_iter()
            .map(|pubkey| (pubkey, AccountSharedData::default())),
    );
    accounts.push((MAGIC_PROGRAM_ID, AccountSharedData::default()));
    accounts.push((
        POST_DELEGATION_ACTION_EXECUTOR_PROGRAM_ID,
        AccountSharedData::default(),
    ));
    executed(accounts)
}

fn read(message: &impl SVMMessage) -> Message {
    let keys = message.account_keys();
    Message {
        account_keys: keys.iter().map(|key| key.to_bytes()).collect(),
        instructions: message
            .instructions_iter()
            .map(|ix| Instruction {
                program_id_index: ix.program_id_index,
                accounts: ix.accounts.to_vec(),
                data: ix.data.to_vec(),
            })
            .collect(),
        writable: (0..keys.len()).map(|i| message.is_writable(i)).collect(),
    }
}

fn message(program: Pubkey, data: Vec<u8>) -> Message {
    read(&SanitizedMessage::Legacy(LegacyMessage::new(
        solana_message::Message {
            account_keys: vec![new_unique().into(), new_unique().into(), program.into()],
            header: MessageHeader {
                num_required_signatures: 1,
                num_readonly_signed_accounts: 0,
                num_readonly_unsigned_accounts: 1,
            },
            instructions: vec![CompiledInstruction {
                program_id_index: 2,
                accounts: vec![1],
                data,
            }],
            recent_blockhash: solana_hash::Hash::default(),
        },
        &HashSet::new(),
    )))
}

fn message_with_programs(instructions: Vec<(Pubkey, Vec<u8>)>) -> Message {
    message_with_program_accounts(
        1,
        instructions
            .into_iter()
            .map(|(program, data)| (program, data, vec![0, 1]))
            .collect(),
    )
}

fn message_with_program_accounts(
    num_writable_accounts: u8,
    instructions: Vec<(Pubkey, Vec<u8>, Vec<u8>)>,
) -> Message {
    let mut account_keys = vec![solana_pubkey::Pubkey::new_unique()];
    account_keys
        .extend((0..num_writable_accounts).map(|_| solana_pubkey::Pubkey::new_unique()));
    let program_id_start = account_keys.len();
    account_keys.extend(
        instructions
            .iter()
            .map(|(program, _, _)| solana_pubkey::Pubkey::from(*program)),
    );

    read(&SanitizedMessage::Legacy(LegacyMessage::new(
        solana_message::Message {
            account_keys,
            header: MessageHeader {
                num_required_signatures: 1,
                num_readonly_signed_accounts: 0,
                num_readonly_unsigned_accounts: instructions.len() as u8,
            },
            instructions: instructions
                .into_iter()
                .enumerate()
                .map(|(idx, (_, data, accounts))| CompiledInstruction {
                    program_id_index: (program_id_start + idx) as u8,
                    accounts,
                    data,
                })
                .collect(),
            recent_blockhash: solana_hash::Hash::default(),
        },
        &HashSet::new(),
    )))
}

#[test]
fn access_permissions_privileged_payer_allows_magic_control_instruction() {
    let payer = new_unique();
    let writable = new_unique();
    let mut tx = executed_transaction(payer, writable);
    let message = message(MAGIC_PROGRAM_ID, 8u32.to_le_bytes().to_vec());

    tx.validate_accounts_access(&message);

    assert_eq!(tx.execution_details.status, Ok(()));
}

#[test]
fn privileged_payer_allows_clone_with_post_delegation_action_executor() {
    let payer = new_unique();
    let writable = new_unique();
    let mut tx = executed_transaction(payer, writable);
    let message = message_with_programs(vec![
        (
            MAGIC_PROGRAM_ID,
            CLONE_ACCOUNT_DISCRIMINANT.to_le_bytes().to_vec(),
        ),
        (POST_DELEGATION_ACTION_EXECUTOR_PROGRAM_ID, vec![]),
    ]);

    tx.validate_accounts_access(&message);

    assert_eq!(tx.execution_details.status, Ok(()));
}

#[test]
fn privileged_payer_allows_clone_continue_with_post_delegation_action_executor() {
    let payer = new_unique();
    let writable = new_unique();
    let mut tx = executed_transaction(payer, writable);
    let message = message_with_programs(vec![
        (
            MAGIC_PROGRAM_ID,
            CLONE_ACCOUNT_CONTINUE_DISCRIMINANT.to_le_bytes().to_vec(),
        ),
        (POST_DELEGATION_ACTION_EXECUTOR_PROGRAM_ID, vec![]),
    ]);

    tx.validate_accounts_access(&message);

    assert_eq!(tx.execution_details.status, Ok(()));
}

#[test]
fn privileged_payer_rejects_post_delegation_action_executor_without_clone() {
    let payer = new_unique();
    let writable = new_unique();
    let mut tx = executed_transaction(payer, writable);
    let message = message_with_programs(vec![
        (MAGIC_PROGRAM_ID, 1u32.to_le_bytes().to_vec()),
        (POST_DELEGATION_ACTION_EXECUTOR_PROGRAM_ID, vec![]),
    ]);

    tx.validate_accounts_access(&message);

    assert_eq!(
        tx.execution_details.status,
        Err(TransactionError::InvalidWritableAccount)
    );
}

#[test]
fn privileged_payer_rejects_post_delegation_action_executor_with_extra_ix() {
    let payer = new_unique();
    let writable = new_unique();
    let mut tx = executed_transaction(payer, writable);
    let message = message_with_programs(vec![
        (
            MAGIC_PROGRAM_ID,
            CLONE_ACCOUNT_DISCRIMINANT.to_le_bytes().to_vec(),
        ),
        (POST_DELEGATION_ACTION_EXECUTOR_PROGRAM_ID, vec![]),
        (
            MAGIC_PROGRAM_ID,
            CLONE_ACCOUNT_DISCRIMINANT.to_le_bytes().to_vec(),
        ),
    ]);

    tx.validate_accounts_access(&message);

    assert_eq!(
        tx.execution_details.status,
        Err(TransactionError::InvalidWritableAccount)
    );
}

#[test]
fn privileged_payer_rejects_post_delegation_action_executor_with_extra_clone_writable_account() {
    let payer = new_unique();
    let writable = new_unique();
    let extra_writable = new_unique();
    let mut tx = executed_transaction_with_writable_accounts(payer, vec![writable, extra_writable]);
    let message = message_with_program_accounts(
        2,
        vec![
            (
                MAGIC_PROGRAM_ID,
                CLONE_ACCOUNT_DISCRIMINANT.to_le_bytes().to_vec(),
                vec![0, 1, 2],
            ),
            (
                POST_DELEGATION_ACTION_EXECUTOR_PROGRAM_ID,
                vec![],
                vec![0, 1, 2],
            ),
        ],
    );

    tx.validate_accounts_access(&message);

    assert_eq!(
        tx.execution_details.status,
        Err(TransactionError::InvalidWritableAccount)
    );
    let extra_writable = text(extra_writable);
    assert_eq!(
        tx.execution_details.log_messages.as_ref().unwrap(),
        &vec![
            format!("Program log: Account 2: {extra_writable} was illegally used as writable"),
            "Program Magic11111111111111111111111111111111111111 failed: InvalidWritableAccount"
                .to_string(),
        ]
    );
}

#[test]
fn access_permissions_privileged_payer_rejects_non_magic_write() {
    let payer = new_unique();
    let writable = new_unique();
    let mut tx = executed_transaction(payer, writable);
    let message = message(new_unique(), 8u32.to_le_bytes().to_vec());

    tx.validate_accounts_access(&message);

    assert_eq!(
        tx.execution_details.status,
        Err(TransactionError::InvalidWritableAccount)
    );
    let writable = text(writable);
    assert_eq!(
        tx.execution_details.log_messages.as_ref().unwrap(),
        &vec![
            format!("Program log: Account 1: {writable} was illegally used as writable"),
            "Program Magic11111111111111111111111111111111111111 failed: InvalidWritableAccount"
                .to_string(),
        ]
    );
}

#[test]
fn access_permissions_privileged_payer_rejects_unlisted_magic_instruction() {
    let payer = new_unique();
    let writable = new_unique();
    let mut tx = executed_transaction(payer, writable);
    let message = message(MAGIC_PROGRAM_ID, 1u32.to_le_bytes().to_vec());

    tx.validate_accounts_access(&message);

    assert_eq!(
        tx.execution_details.status,
        Err(TransactionError::InvalidWritableAccount)
    );
}

#[test]
fn executed_check_knows_its_control_instructions() {
    assert_eq!(
        PRIVILEGED_MAGIC_DISCRIMINANTS,
        [0, 8, 9, 16, 17, 18, 19, 20, 21, 22, 24]
    );
    for d in 0..40u32 {
        let message = message(MAGIC_PROGRAM_ID, d.to_le_bytes().to_vec());
        let expected = if PRIVILEGED_MAGIC_DISCRIMINANTS.contains(&d) {
            PrivilegedAccess::Full
        } else {
            PrivilegedAccess::NoAccess
        };
        assert_eq!(privileged_access(&message), expected);
    }
}

#[test]
fn only_the_magic_program_opens_full_access() {
    let loader = solana_sdk_ids::loader_v4::ID.to_bytes();
    assert_eq!(
        privileged_access(&message(loader, vec![])),
        PrivilegedAccess::NoAccess
    );
    let control = 24u32.to_le_bytes().to_vec();
    assert_eq!(
        privileged_access(&message_with_programs(vec![
            (loader, vec![1]),
            (MAGIC_PROGRAM_ID, control.clone()),
            (loader, vec![]),
        ])),
        PrivilegedAccess::NoAccess
    );
    assert_eq!(
        privileged_access(&message_with_programs(vec![
            (MAGIC_PROGRAM_ID, control.clone()),
            (new_unique(), control.clone()),
        ])),
        PrivilegedAccess::NoAccess
    );
    assert_eq!(
        privileged_access(&message_with_programs(vec![
            (MAGIC_PROGRAM_ID, control.clone()),
            (MAGIC_PROGRAM_ID, control),
        ])),
        PrivilegedAccess::Full
    );
}

#[test]
fn instruction_without_a_program_opens_nothing() {
    let control = 8u32.to_le_bytes().to_vec();
    for first in [MAGIC_PROGRAM_ID, new_unique()] {
        let mut message = message_with_programs(vec![
            (first, control.clone()),
            (MAGIC_PROGRAM_ID, control.clone()),
        ]);
        message.instructions[1].program_id_index = 200;
        assert_eq!(privileged_access(&message), PrivilegedAccess::NoAccess);
    }
}

#[test]
fn message_without_instructions_opens_full_access() {
    assert_eq!(
        privileged_access(&message_with_programs(vec![])),
        PrivilegedAccess::Full
    );
}

#[test]
fn short_instruction_data_opens_nothing() {
    assert_eq!(
        privileged_access(&message(MAGIC_PROGRAM_ID, vec![8, 0, 0])),
        PrivilegedAccess::NoAccess
    );
}

#[test]
fn executor_before_the_magic_program_opens_nothing() {
    let clone = CLONE_ACCOUNT_DISCRIMINANT.to_le_bytes().to_vec();
    assert_eq!(
        privileged_access(&message_with_programs(vec![
            (POST_DELEGATION_ACTION_EXECUTOR_PROGRAM_ID, clone.clone()),
            (MAGIC_PROGRAM_ID, clone),
        ])),
        PrivilegedAccess::NoAccess
    );
}

#[test]
fn two_control_instructions_open_full_access() {
    let clone = CLONE_ACCOUNT_DISCRIMINANT.to_le_bytes().to_vec();
    assert_eq!(
        privileged_access(&message_with_programs(vec![
            (MAGIC_PROGRAM_ID, clone.clone()),
            (MAGIC_PROGRAM_ID, clone),
        ])),
        PrivilegedAccess::Full
    );
}

#[test]
fn clone_opens_the_account_that_both_instructions_name() {
    let clone = CLONE_ACCOUNT_DISCRIMINANT.to_le_bytes().to_vec();
    let of = |data: &Vec<u8>, first: Vec<u8>, second: Vec<u8>| {
        let message = message_with_program_accounts(
            3,
            vec![
                (MAGIC_PROGRAM_ID, data.clone(), first),
                (POST_DELEGATION_ACTION_EXECUTOR_PROGRAM_ID, vec![], second),
            ],
        );
        let access = privileged_access(&message);
        assert_eq!(
            clone_with_post_delegation_action_executor_access(&message),
            access
        );
        access
    };
    let opens = |account| PrivilegedAccess::CloneWithPostDelegationActionExecutor {
        cloned_account: account,
    };
    assert_eq!(of(&clone, vec![0, 2], vec![0, 2]), opens(2));
    assert_eq!(of(&clone, vec![0, 3, 1], vec![1, 3]), opens(3));
    assert_eq!(of(&clone, vec![0, 2], vec![0, 3]), PrivilegedAccess::NoAccess);
    assert_eq!(of(&clone, vec![2], vec![2, 2]), PrivilegedAccess::NoAccess);
    assert_eq!(of(&clone, vec![2, 2], vec![2]), PrivilegedAccess::NoAccess);
    let control = 8u32.to_le_bytes().to_vec();
    assert_eq!(of(&control, vec![0, 2], vec![0, 2]), PrivilegedAccess::NoAccess);
    assert_eq!(of(&vec![16], vec![0, 2], vec![0, 2]), PrivilegedAccess::NoAccess);
}

#[test]
fn clone_access_takes_two_instructions() {
    let clone = CLONE_ACCOUNT_DISCRIMINANT.to_le_bytes().to_vec();
    let none = message_with_programs(vec![]);
    let one = message_with_programs(vec![(MAGIC_PROGRAM_ID, clone)]);
    for message in [none, one] {
        assert_eq!(
            clone_with_post_delegation_action_executor_access(&message),
            PrivilegedAccess::NoAccess
        );
    }
}

#[test]
fn each_access_allows_what_it_says() {
    let clone = PrivilegedAccess::CloneWithPostDelegationActionExecutor { cloned_account: 5 };
    assert!(!PrivilegedAccess::NoAccess.allows_fee_payer_write());
    assert!(PrivilegedAccess::Full.allows_fee_payer_write());
    assert!(clone.allows_fee_payer_write());
    for i in 0..10 {
        assert!(!PrivilegedAccess::NoAccess.allows_account_write(i));
        assert!(PrivilegedAccess::Full.allows_account_write(i));
        assert_eq!(clone.allows_account_write(i), i == 5);
    }
}

#[test]
fn changed_fee_payer_must_be_delegated() {
    let none = AccountSharedData::default();
    let changed = AccountSharedData { lamports_changed: true, ..none };
    let refused = Err(TransactionError::InvalidAccountForFee);
    for (payer, expected) in [
        (none, Ok(())),
        (changed, refused),
        (AccountSharedData { delegated: true, ..changed }, Ok(())),
        (AccountSharedData { ephemeral: true, ..changed }, refused),
        (AccountSharedData { undelegating: true, ..changed }, refused),
        (AccountSharedData { confined: true, ..changed }, refused),
        (AccountSharedData { privileged: true, ..changed }, refused),
    ] {
        let key = new_unique();
        let mut tx = executed(vec![(key, payer)]);
        tx.validate_accounts_access(&message(new_unique(), vec![]));
        assert_eq!(tx.execution_details.status, expected);
        let logs = expected.err().map(|_| {
            vec![format!(
                "Program log: Feepayer {} was modified without being delegated",
                text(key)
            )]
        });
        assert_eq!(tx.execution_details.log_messages, logs);
    }
}

#[test]
fn fee_payer_comes_before_other_accounts() {
    let none = AccountSharedData::default();
    let changed = AccountSharedData { lamports_changed: true, ..none };
    let mut tx = executed(vec![(new_unique(), changed), (new_unique(), none)]);
    tx.validate_accounts_access(&message(new_unique(), vec![]));
    assert_eq!(
        tx.execution_details.status,
        Err(TransactionError::InvalidAccountForFee)
    );
    assert_eq!(tx.execution_details.log_messages.unwrap().len(), 1);
}

#[test]
fn clone_frees_the_changed_fee_payer() {
    let mut tx = executed_transaction(new_unique(), new_unique());
    tx.loaded_transaction.accounts[0].1.lamports_changed = true;
    let message = message_with_programs(vec![
        (
            MAGIC_PROGRAM_ID,
            CLONE_ACCOUNT_DISCRIMINANT.to_le_bytes().to_vec(),
        ),
        (POST_DELEGATION_ACTION_EXECUTOR_PROGRAM_ID, vec![]),
    ]);
    tx.validate_accounts_access(&message);
    assert_eq!(tx.execution_details.status, Ok(()));
    assert_eq!(tx.execution_details.log_messages, None);
}

#[test]
fn control_instruction_without_privilege_is_checked() {
    let none = AccountSharedData::default();
    let mut tx = executed(vec![(new_unique(), none), (new_unique(), none)]);
    tx.validate_accounts_access(&message(MAGIC_PROGRAM_ID, 8u32.to_le_bytes().to_vec()));
    assert_eq!(
        tx.execution_details.status,
        Err(TransactionError::InvalidWritableAccount)
    );
}

#[test]
fn executed_check_passes_delegated_accounts_only() {
    let none = AccountSharedData::default();
    for (account, passes) in [
        (none, false),
        (AccountSharedData { delegated: true, ..none }, true),
        (AccountSharedData { undelegating: true, ..none }, false),
        (AccountSharedData { ephemeral: true, ..none }, false),
        (AccountSharedData { confined: true, ..none }, false),
        (AccountSharedData { privileged: true, ..none }, false),
        (AccountSharedData { lamports_changed: true, ..none }, false),
    ] {
        for payer in [none, privileged_account()] {
            let mut tx = executed(vec![(new_unique(), payer), (new_unique(), account)]);
            tx.validate_accounts_access(&message(new_unique(), vec![]));
            let expected = if passes {
                Ok(())
            } else {
                Err(TransactionError::InvalidWritableAccount)
            };
            assert_eq!(tx.execution_details.status, expected);
        }
    }
}

#[test]
fn what_passes_the_executed_check_passes_the_loaded_check() {
    let none = AccountSharedData::default();
    let delegated = AccountSharedData { delegated: true, ..none };
    let ephemeral = AccountSharedData { ephemeral: true, ..none };
    for (account, loaded, executed_passes) in
        [(none, false, false), (ephemeral, true, false), (delegated, true, true)]
    {
        let mut tx = executed(vec![(new_unique(), none), (new_unique(), account)]);
        let message = message(new_unique(), vec![]);
        let answer = tx.loaded_transaction.validate_accounts_access(&message);
        tx.validate_accounts_access(&message);
        assert_eq!(answer.is_ok(), loaded);
        assert_eq!(tx.was_successful(), executed_passes);
    }
}

#[test]
fn executed_check_ignores_the_payer_and_read_only_accounts() {
    let none = AccountSharedData::default();
    let delegated = AccountSharedData { delegated: true, ..none };
    let keys: Vec<Pubkey> = (0..3).map(|_| new_unique()).collect();
    for read_only in [none, delegated] {
        for payer_writable in [false, true] {
            let mut tx = executed(vec![(keys[0], none), (keys[1], read_only), (keys[2], none)]);
            let message = Message {
                account_keys: keys.clone(),
                instructions: vec![],
                writable: vec![payer_writable, false, true],
            };
            tx.validate_accounts_access(&message);
            assert_eq!(
                tx.execution_details.log_messages,
                Some(vec![
                    format!(
                        "Program log: Account 2: {} was illegally used as writable",
                        text(keys[2])
                    ),
                    FAILURE.to_string(),
                ])
            );
        }
    }
}

#[test]
fn failed_transaction_is_left_as_it_is() {
    for error in [
        TransactionError::InvalidAccountForFee,
        TransactionError::InvalidWritableAccount,
        TransactionError::Other(7),
    ] {
        let mut tx = executed_transaction(new_unique(), new_unique());
        tx.execution_details.status = Err(error);
        tx.execution_details.log_messages = Some(vec!["first".to_string()]);
        tx.validate_accounts_access(&message(new_unique(), vec![]));
        assert_eq!(tx.execution_details.status, Err(error));
        assert_eq!(
            tx.execution_details.log_messages,
            Some(vec!["first".to_string()])
        );
    }
}

#[test]
fn log_lines_are_kept_and_the_second_check_changes_nothing() {
    let writable = new_unique();
    let mut tx = executed_transaction(new_unique(), writable);
    tx.execution_details.log_messages = Some(vec!["first".to_string()]);
    let accounts = tx.loaded_transaction.accounts.clone();
    let message = message(new_unique(), vec![]);
    for _ in 0..2 {
        tx.validate_accounts_access(&message);
        assert_eq!(
            tx.execution_details.status,
            Err(TransactionError::InvalidWritableAccount)
        );
        assert_eq!(
            tx.execution_details.log_messages,
            Some(vec![
                "first".to_string(),
                format!(
                    "Program log: Account 1: {} was illegally used as writable",
                    text(writable)
                ),
                FAILURE.to_string(),
            ])
        );
        assert_eq!(tx.loaded_transaction.accounts, accounts);
    }
}

#[test]
fn transaction_without_accounts_passes() {
    let mut tx = executed(vec![]);
    tx.validate_accounts_access(&message(new_unique(), vec![]));
    assert!(tx.was_successful());
    assert_eq!(tx.execution_details.log_messages, None);
}

#[test]
fn checks_agree_on_unprivileged_payers() {
    let none = AccountSharedData::default();
    let delegated = AccountSharedData { delegated: true, ..none };
    for (account, writable) in [(none, true), (none, false), (delegated, true)] {
        let mut tx = executed(vec![(new_unique(), none), (new_unique(), account)]);
        let mut message = message(new_unique(), vec![]);
        message.writable[1] = writable;
        let answer = tx.loaded_transaction.validate_accounts_access(&message);
        tx.validate_accounts_access(&message);
        assert_eq!(
            tx.execution_details.status,
            answer.map_err(|(error, _)| error)
        );
    }
}

#[test]
fn privilege_adds_access() {
    let none = AccountSharedData::default();
    let delegated = AccountSharedData { delegated: true, ..none };
    for payer in [none, privileged_account()] {
        let mut tx = executed(vec![(new_unique(), payer), (new_unique(), delegated)]);
        tx.validate_accounts_access(&message(new_unique(), vec![]));
        assert!(tx.was_successful());
    }
}

#[test]
fn waiver_of_the_loaded_check_is_full_access() {
    for d in svm_access::access_permissions::PRIVILEGED_MAGIC_DISCRIMINANTS {
        let message = message(MAGIC_PROGRAM_ID, d.to_le_bytes().to_vec());
        let mut tx = executed_transaction(new_unique(), new_unique());
        assert_eq!(
            tx.loaded_transaction.validate_accounts_access(&message),
            Ok(())
        );
        assert_eq!(privileged_access(&message), PrivilegedAccess::Full);
        tx.validate_accounts_access(&message);
        assert!(tx.was_successful());
    }
}

#[test]
fn instructions_do_not_matter_without_privilege() {
    let none = AccountSharedData::default();
    let clone = CLONE_ACCOUNT_DISCRIMINANT.to_le_bytes().to_vec();
    for program in [MAGIC_PROGRAM_ID, new_unique()] {
        let mut tx = executed(vec![(new_unique(), none), (new_unique(), none)]);
        let mut message = message_with_programs(vec![
            (program, clone.clone()),
            (POST_DELEGATION_ACTION_EXECUTOR_PROGRAM_ID, vec![]),
        ]);
        message.instructions[1].program_id_index = 200;
        message.writable[0] = program == MAGIC_PROGRAM_ID;
        tx.validate_accounts_access(&message);
        assert_eq!(
            tx.execution_details.status,
            Err(TransactionError::InvalidWritableAccount)
        );
    }
}
