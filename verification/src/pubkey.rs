//! Account keys.

use crate::base58::base58;
use vstd::prelude::*;

verus! {

/// The key of an account or a program.
pub type Pubkey = [u8; 32];

/// Whether two keys are the same.
pub fn same_key(a: &Pubkey, b: &Pubkey) -> (same: bool)
    ensures
        same == (a@ == b@),
{
    let mut i: usize = 0;
    while i < 32
        invariant
            i <= 32,
            forall|j: int| 0 <= j < i ==> a@[j] == b@[j],
        decreases 32 - i,
    {
        if a[i] != b[i] {
            return false;
        }
        i += 1;
    }
    assert(a@ =~= b@);
    true
}

/// The text of a key, as logs show it.
///
/// Calls `to_string` of `solana_pubkey::Pubkey`, which displays the 32 bytes of a key in base58.
#[verifier::external_body]
pub(crate) fn pubkey_text(key: &Pubkey) -> (text: String)
    ensures
        text@ == base58(key@),
{
    solana_pubkey::Pubkey::new_from_array(*key).to_string()
}

} // verus!
