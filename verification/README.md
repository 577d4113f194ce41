# svm_access

Access rules for the accounts of a transaction, verified with Verus.

A validator may write only to accounts that were handed to it. Two checks hold a transaction to that:

* `access_permissions` checks a transaction that was loaded and not yet run. Every writable account
  but the fee payer must be delegated, undelegating, ephemeral or confined. The check returns the
  first account at fault.
* `svm::access_permissions` checks a transaction that was run. Every writable account but the fee
  payer must be delegated, and so must the fee payer if its balance changed. The check records a
  refusal in the status and the logs of the transaction. `svm::privileged_access` decides what a
  privileged fee payer may do beyond the rules.

`escrow` derives the address of a fee payer's escrow. `laws` and `svm::laws` state what holds of the
checks as a whole.

What is taken on trust are the two calls of an outside crate: the base58 text of a key
(`pubkey::pubkey_text`) and the derivation of program addresses (`escrow::try_find_program_address`).

`app/` runs the checks on the types of the Solana runtime.
