use solana_message::{
    compiled_instruction::CompiledInstruction, LegacyMessage, MessageHeader, SanitizedMessage,
};
use solana_svm_transaction::svm_message::SVMMessage;
use std::collections::HashSet;
use svm_access::access_permissions::PRIVILEGED_MAGIC_DISCRIMINANTS;
use svm_access::account::AccountSharedData;
use svm_access::message::{Instruction, Message};
use svm_access::program_ids::MAGIC_PROGRAM_ID;
use svm_access::pubkey::Pubkey;
use svm_access::transaction::{LoadedTransaction, TransactionError};

fn new_unique() -> Pubkey {
    solana_pubkey::Pubkey::new_unique().to_bytes()
}

fn privileged_account() -> AccountSharedData {
    AccountSharedData {
        privileged: true,
        ..AccountSharedData::default()
    }
}

fn loaded_transaction(
    payer: Pubkey,
    payer_account: AccountSharedData,
    writable: Pubkey,
) -> LoadedTransaction {
    LoadedTransaction {
        accounts: vec![
            (payer, payer_account),
            (writable, AccountSharedData::default()),
            (MAGIC_PROGRAM_ID, AccountSharedData::default()),
        ],
    }
}

fn read(message: &impl SVMMessage) -> Message {
    let keys = message.account_keys();
    Message {
        account_keys: keys.iter().map(|key| key.to_bytes()).collect(),
        instructions: message
            .instructions_iter()
            .map(|ix| Instruction {
                program_id_index: ix.program_id_index,
                accounts: ix.accounts.to_vec(),
                data: ix.data.to_vec(),
            })
            .collect(),
        writable: (0..keys.len()).map(|i| message.is_writable(i)).collect(),
    }
}

fn message(program: Pubkey, data: Vec<u8>) -> Message {
    read(&SanitizedMessage::Legacy(LegacyMessage::new(
        solana_message::Message {
            account_keys: vec![new_unique().into(), new_unique().into(), program.into()],
            header: MessageHeader {
                num_required_signatures: 1,
                num_readonly_signed_accounts: 0,
                num_readonly_unsigned_accounts: 1,
            },
            instructions: vec![CompiledInstruction {
                program_id_index: 2,
                accounts: vec![1],
                data,
            }],
            recent_blockhash: solana_hash::Hash::default(),
        },
        &HashSet::new(),
    )))
}

#[test]
fn privileged_payer_allows_magic_control_instruction() {
    let payer = new_unique();
    let writable = new_unique();
    let tx = loaded_transaction(payer, privileged_account(), writable);
    let message = message(MAGIC_PROGRAM_ID, 8u32.to_le_bytes().to_vec());

    assert_eq!(tx.validate_accounts_access(&message), Ok(()));
}

#[test]
fn privileged_payer_rejects_non_magic_write() {
    let payer = new_unique();
    let writable = new_unique();
    let tx = loaded_transaction(payer, privileged_account(), writable);
    let message = message(new_unique(), 8u32.to_le_bytes().to_vec());

    assert_eq!(
        tx.validate_accounts_access(&message),
        Err((TransactionError::InvalidWritableAccount, writable))
    );
}

#[test]
fn privileged_payer_rejects_unlisted_magic_instruction() {
    let payer = new_unique();
    let writable = new_unique();
    let tx = loaded_transaction(payer, privileged_account(), writable);
    let message = message(MAGIC_PROGRAM_ID, 1u32.to_le_bytes().to_vec());

    assert_eq!(
        tx.validate_accounts_access(&message),
        Err((TransactionError::InvalidWritableAccount, writable))
    );
}

#[test]
fn loaded_check_knows_its_control_instructions() {
    assert_eq!(
        PRIVILEGED_MAGIC_DISCRIMINANTS,
        [0, 8, 9, 16, 17, 18, 19, 20, 22]
    );
    for d in 0..40u32 {
        let tx = loaded_transaction(new_unique(), privileged_account(), new_unique());
        let message = message(MAGIC_PROGRAM_ID, d.to_le_bytes().to_vec());
        let passes = tx.validate_accounts_access(&message).is_ok();
        assert_eq!(passes, PRIVILEGED_MAGIC_DISCRIMINANTS.contains(&d));
    }
}

#[test]
fn loaded_check_refuses_short_instruction_data() {
    let writable = new_unique();
    let tx = loaded_transaction(new_unique(), privileged_account(), writable);
    assert_eq!(
        tx.validate_accounts_access(&message(MAGIC_PROGRAM_ID, vec![8, 0, 0])),
        Err((TransactionError::InvalidWritableAccount, writable))
    );
    assert_eq!(
        tx.validate_accounts_access(&message(MAGIC_PROGRAM_ID, vec![8, 0, 0, 0, 9])),
        Ok(())
    );
}

#[test]
fn loaded_check_refuses_a_program_beyond_the_keys() {
    let writable = new_unique();
    let tx = loaded_transaction(new_unique(), privileged_account(), writable);
    let mut message = message(MAGIC_PROGRAM_ID, 8u32.to_le_bytes().to_vec());
    message.instructions[0].program_id_index = 3;
    assert_eq!(
        tx.validate_accounts_access(&message),
        Err((TransactionError::InvalidWritableAccount, writable))
    );
}

#[test]
fn loaded_check_needs_a_privileged_payer_for_the_waiver() {
    let writable = new_unique();
    let tx = loaded_transaction(new_unique(), AccountSharedData::default(), writable);
    assert_eq!(
        tx.validate_accounts_access(&message(MAGIC_PROGRAM_ID, 8u32.to_le_bytes().to_vec())),
        Err((TransactionError::InvalidWritableAccount, writable))
    );
}

#[test]
fn loaded_check_lets_a_privileged_payer_send_nothing() {
    let tx = loaded_transaction(new_unique(), privileged_account(), new_unique());
    let mut message = message(new_unique(), vec![]);
    message.instructions.clear();
    assert_eq!(tx.validate_accounts_access(&message), Ok(()));
}

#[test]
fn loaded_check_passes_each_kind_of_mutable_account() {
    let none = AccountSharedData::default();
    for (account, passes) in [
        (none, false),
        (AccountSharedData { delegated: true, ..none }, true),
        (AccountSharedData { undelegating: true, ..none }, true),
        (AccountSharedData { ephemeral: true, ..none }, true),
        (AccountSharedData { confined: true, ..none }, true),
        (AccountSharedData { privileged: true, ..none }, false),
        (AccountSharedData { lamports_changed: true, ..none }, false),
    ] {
        let writable = new_unique();
        let mut tx = loaded_transaction(new_unique(), none, writable);
        tx.accounts[1].1 = account;
        assert_eq!(account.is_mutable(), passes);
        let expected = if passes {
            Ok(())
        } else {
            Err((TransactionError::InvalidWritableAccount, writable))
        };
        assert_eq!(
            tx.validate_accounts_access(&message(new_unique(), vec![])),
            expected
        );
    }
}

#[test]
fn loaded_check_names_the_first_account_at_fault() {
    let none = AccountSharedData::default();
    let keys: Vec<Pubkey> = (0..4).map(|_| new_unique()).collect();
    let tx = LoadedTransaction {
        accounts: keys.iter().map(|key| (*key, none)).collect(),
    };
    let mut message = Message {
        account_keys: keys.clone(),
        instructions: vec![],
        writable: vec![true, false, true, true],
    };
    let refuse = |i: usize| Err((TransactionError::InvalidWritableAccount, keys[i]));
    assert_eq!(tx.validate_accounts_access(&message), refuse(2));
    message.writable[2] = false;
    assert_eq!(tx.validate_accounts_access(&message), refuse(3));
    message.writable.truncate(3);
    assert_eq!(tx.validate_accounts_access(&message), Ok(()));
}

#[test]
fn loaded_check_ignores_the_payer_and_read_only_accounts() {
    let none = AccountSharedData::default();
    let delegated = AccountSharedData { delegated: true, ..none };
    let keys: Vec<Pubkey> = (0..3).map(|_| new_unique()).collect();
    for read_only in [none, delegated] {
        for payer_writable in [false, true] {
            let tx = LoadedTransaction {
                accounts: vec![(keys[0], none), (keys[1], read_only), (keys[2], none)],
            };
            let message = Message {
                account_keys: keys.clone(),
                instructions: vec![],
                writable: vec![payer_writable, false, true],
            };
            assert_eq!(
                tx.validate_accounts_access(&message),
                Err((TransactionError::InvalidWritableAccount, keys[2]))
            );
        }
    }
}

#[test]
fn loaded_check_passes_a_transaction_without_accounts() {
    let tx = LoadedTransaction { accounts: vec![] };
    assert_eq!(
        tx.validate_accounts_access(&message(new_unique(), vec![])),
        Ok(())
    );
}

#[test]
fn only_writable_accounts_matter_to_the_loaded_check_without_privilege() {
    let none = AccountSharedData::default();
    let confined = AccountSharedData { confined: true, ..none };
    let undelegating = AccountSharedData { undelegating: true, ..none };
    let (first, second) = (new_unique(), new_unique());
    for (mutable, program, payer_writable) in [
        (confined, MAGIC_PROGRAM_ID, true),
        (undelegating, new_unique(), false),
    ] {
        let tx = LoadedTransaction {
            accounts: vec![
                (new_unique(), mutable),
                (first, mutable),
                (new_unique(), none),
                (second, none),
            ],
        };
        let message = Message {
            account_keys: vec![program],
            instructions: vec![Instruction {
                program_id_index: 0,
                accounts: vec![],
                data: 8u32.to_le_bytes().to_vec(),
            }],
            writable: vec![payer_writable, true, false, true],
        };
        assert_eq!(
            tx.validate_accounts_access(&message),
            Err((TransactionError::InvalidWritableAccount, second))
        );
    }
}
