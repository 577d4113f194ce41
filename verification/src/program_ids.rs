//! The programs that the access checks know.

use crate::base58::{all_digits, base58, base58_value, big_endian, lemma_base58_text};
use crate::pubkey::Pubkey;
use vstd::prelude::*;

verus! {

/// The Magic program, `Magic11111111111111111111111111111111111111`.
pub const MAGIC_PROGRAM_ID: Pubkey = [
    5, 69, 180, 36, 176, 218, 112, 149, 236, 185, 214, 222, 195, 119, 215, 40, 145, 182, 231, 142,
    146, 234, 18, 214, 223, 187, 58, 64, 0, 0, 0, 0,
];

/// The program that runs actions after a delegation, `PostAct111111111111111111111111111111111111`.
pub const POST_DELEGATION_ACTION_EXECUTOR_PROGRAM_ID: Pubkey = [
    5, 215, 200, 56, 54, 191, 95, 234, 252, 233, 174, 45, 209, 55, 212, 114, 221, 48, 165, 37, 66,
    234, 27, 233, 140, 186, 156, 208, 0, 0, 0, 0,
];

/// The key of the Magic program is the one that its text shows.
#[verifier::rlimit(60)]
pub proof fn magic_program_id_text()
    ensures
        base58(MAGIC_PROGRAM_ID@) == "Magic11111111111111111111111111111111111111"@,
{
    let text = "Magic11111111111111111111111111111111111111"@;
    reveal_strlit("Magic11111111111111111111111111111111111111");
    assert(all_digits(text, 43)) by {
        reveal_with_fuel(all_digits, 44);
    }
    assert(big_endian(MAGIC_PROGRAM_ID@, 32) == 2384719993911367029706328394703110203869296270766600374971558528962422374400nat) by {
        reveal_with_fuel(big_endian, 33);
    }
    assert(base58_value(text, 43) == 2384719993911367029706328394703110203869296270766600374971558528962422374400nat) by {
        reveal_with_fuel(base58_value, 44);
    }
    lemma_base58_text(MAGIC_PROGRAM_ID@, text);
}

/// The key of the post-delegation action executor is the one that its text shows.
#[verifier::rlimit(60)]
pub proof fn post_delegation_action_executor_program_id_text()
    ensures
        base58(POST_DELEGATION_ACTION_EXECUTOR_PROGRAM_ID@)
            == "PostAct111111111111111111111111111111111111"@,
{
    let text = "PostAct111111111111111111111111111111111111"@;
    reveal_strlit("PostAct111111111111111111111111111111111111");
    assert(all_digits(text, 43)) by {
        reveal_with_fuel(all_digits, 44);
    }
    assert(big_endian(POST_DELEGATION_ACTION_EXECUTOR_PROGRAM_ID@, 32) == 2642818226635646772791935726071966406720550044198140020954509239971469066240nat) by {
        reveal_with_fuel(big_endian, 33);
    }
    assert(base58_value(text, 43) == 2642818226635646772791935726071966406720550044198140020954509239971469066240nat) by {
        reveal_with_fuel(base58_value, 44);
    }
    lemma_base58_text(POST_DELEGATION_ACTION_EXECUTOR_PROGRAM_ID@, text);
}

} // verus!
