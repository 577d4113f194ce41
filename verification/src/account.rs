//! What the access checks read of a loaded account.

use vstd::prelude::*;

verus! {

/// The flags of a loaded account.
#[derive(Clone, Copy, Debug, PartialEq, Eq, Structural)]
pub struct AccountSharedData {
    /// The account is privileged: as fee payer it may send control instructions past the checks.
    pub privileged: bool,
    /// The account was delegated to this validator.
    pub delegated: bool,
    /// The delegation of the account is being undone.
    pub undelegating: bool,
    /// The account is an ephemeral one.
    pub ephemeral: bool,
    /// The account is a confined one.
    pub confined: bool,
    /// The balance of the account changed since it was loaded.
    pub lamports_changed: bool,
}

impl AccountSharedData {
    /// A loaded transaction may have this account for a writable one.
    pub open spec fn mutable(self) -> bool {
        self.delegated || self.undelegating || self.ephemeral || self.confined
    }

    /// Whether a loaded transaction may have this account for a writable one.
    pub fn is_mutable(&self) -> (allowed: bool)
        ensures
            allowed == self.mutable(),
    {
        self.delegated || self.undelegating || self.ephemeral || self.confined
    }
}

impl Default for AccountSharedData {
    /// An account without any flag.
    fn default() -> (account: Self)
        ensures
            account == (AccountSharedData {
                privileged: false,
                delegated: false,
                undelegating: false,
                ephemeral: false,
                confined: false,
                lamports_changed: false,
            }),
    {
        AccountSharedData {
            privileged: false,
            delegated: false,
            undelegating: false,
            ephemeral: false,
            confined: false,
            lamports_changed: false,
        }
    }
}

/// Each of four flags alone makes an account mutable, and no other flag does.
pub proof fn mutable_by_one_of_four_flags(account: AccountSharedData)
    ensures
        account.delegated ==> account.mutable(),
        account.undelegating ==> account.mutable(),
        account.ephemeral ==> account.mutable(),
        account.confined ==> account.mutable(),
        !account.delegated && !account.undelegating && !account.ephemeral && !account.confined
            ==> !account.mutable(),
{
}

} // verus!
