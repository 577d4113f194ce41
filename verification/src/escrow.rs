//! The escrow of a fee payer.

use crate::base58::{all_digits, base58, base58_value, big_endian, lemma_base58_text};
use crate::pubkey::Pubkey;
use vstd::prelude::*;

verus! {

/// The delegation program, `DELeGGvXpWV2fqJUhqcF5ZSYMS4JTLjteaAMARRSaeSh`. It owns the escrows.
pub const DELEGATION_PROGRAM_ID: Pubkey = [
    181, 183, 0, 225, 242, 87, 58, 192, 204, 6, 34, 1, 52, 74, 207, 151, 184, 53, 6, 235, 140, 229,
    25, 152, 204, 98, 126, 24, 147, 128, 167, 62,
];

/// The seed that marks an escrow: the word `balance`.
const BALANCE_SEED: [u8; 7] = [0x62, 0x61, 0x6c, 0x61, 0x6e, 0x63, 0x65];

/// The address that `program_id` derives from `seeds`, with its bump seed.
///
/// It names the result of `try_find_program_address` of `solana_pubkey::Pubkey`.
pub uninterp spec fn program_address(seeds: Seq<Seq<u8>>, program_id: Seq<u8>) -> Option<
    (Seq<u8>, u8),
>;

/// Derives an address of `program_id` from `seeds`.
///
/// Calls `try_find_program_address` of `solana_pubkey::Pubkey`. It hashes the seeds, a bump seed and
/// the program with SHA-256 and returns the first hash, over the bump seeds from 255 down to 1, that
/// is no point of the curve; there is none where no bump seed serves or the seeds are too many or
/// too long. The contract claims that the seeds and the program alone decide the result.
#[verifier::external_body]
fn try_find_program_address(seeds: &[&[u8]], program_id: &Pubkey) -> (found: Option<(Pubkey, u8)>)
    ensures
        found matches Some(pair) ==> program_address(seeds.deep_view(), program_id@) == Some(
            (pair.0@, pair.1),
        ),
        found is None ==> program_address(seeds.deep_view(), program_id@) is None,
{
    solana_pubkey::Pubkey::try_find_program_address(seeds, &(*program_id).into()).map(
        |pair| (pair.0.to_bytes(), pair.1),
    )
}

/// The seeds of the escrow of `payer`: the word `balance`, the payer, and the index zero.
pub open spec fn escrow_seeds(payer: Seq<u8>) -> Seq<Seq<u8>> {
    seq![seq![0x62, 0x61, 0x6c, 0x61, 0x6e, 0x63, 0x65], payer, seq![0]]
}

/// The address of the escrow of `payer`, if the delegation program can derive one.
pub open spec fn escrow_address(payer: Seq<u8>) -> Option<Seq<u8>> {
    match program_address(escrow_seeds(payer), DELEGATION_PROGRAM_ID@) {
        Some(pair) => Some(pair.0),
        None => None,
    }
}

/// Derives the address of the escrow of `payer` with its bump seed.
fn try_find_escrow(payer: &Pubkey) -> (found: Option<(Pubkey, u8)>)
    ensures
        found matches Some(pair) ==> escrow_address(payer@) == Some(pair.0@),
        found is None ==> escrow_address(payer@) is None,
{
    let index: [u8; 1] = [0];
    let seeds: [&[u8]; 3] = [&BALANCE_SEED, payer, &index];
    assert(seeds.deep_view() =~~= escrow_seeds(payer@));
    try_find_program_address(&seeds, &DELEGATION_PROGRAM_ID)
}

/// Derives the address of the escrow of `payer`, a program address of the delegation program.
///
/// Where it is not known that there is one, use [`try_ephemeral_balance_pda_from_payer`].
pub fn ephemeral_balance_pda_from_payer(payer: &Pubkey) -> (pda: Pubkey)
    requires
        escrow_address(payer@) is Some,
    ensures
        escrow_address(payer@) == Some(pda@),
        program_address(
            seq![seq![0x62u8, 0x61, 0x6c, 0x61, 0x6e, 0x63, 0x65], payer@, seq![0u8]],
            DELEGATION_PROGRAM_ID@,
        ) matches Some(pair) && pair.0 == pda@,
{
    try_find_escrow(payer).unwrap().0
}

/// Derives the address of the escrow of `payer`, if the delegation program can derive one.
pub fn try_ephemeral_balance_pda_from_payer(payer: &Pubkey) -> (pda: Option<Pubkey>)
    ensures
        pda matches Some(key) ==> escrow_address(payer@) == Some(key@),
        pda is None ==> escrow_address(payer@) is None,
{
    match try_find_escrow(payer) {
        Some(_) => Some(ephemeral_balance_pda_from_payer(payer)),
        None => None,
    }
}

/// The seeds are three for every payer: the same first one, the payer, and the single byte zero.
pub proof fn escrow_seeds_hold_the_payer(payer: Seq<u8>, other: Seq<u8>)
    ensures
        escrow_seeds(payer).len() == 3,
        escrow_seeds(payer)[0] == escrow_seeds(other)[0],
        escrow_seeds(payer)[1] == payer,
        escrow_seeds(payer)[2] == seq![0u8],
{
}

/// The first seed spells the word `balance`.
pub proof fn escrow_seeds_spell_balance(payer: Seq<u8>)
    ensures
        escrow_seeds(payer)[0].len() == "balance"@.len(),
        forall|i: int|
            0 <= i < "balance"@.len() ==> #[trigger] escrow_seeds(payer)[0][i] as nat
                == "balance"@[i] as nat,
{
    reveal_strlit("balance");
}

/// The escrow of any payer is the address that the delegation program derives from the word
/// `balance`, the payer and the byte zero; where it derives none, there is no escrow.
pub proof fn escrow_is_derived_by_the_delegation_program(payer: Seq<u8>, word: Seq<u8>)
    requires
        word.len() == "balance"@.len(),
        forall|i: int|
            0 <= i < word.len() ==> #[trigger] word[i] as nat == "balance"@[i] as nat,
    ensures
        program_address(seq![word, payer, seq![0u8]], DELEGATION_PROGRAM_ID@) matches Some(pair)
            ==> escrow_address(payer) == Some(pair.0),
        program_address(seq![word, payer, seq![0u8]], DELEGATION_PROGRAM_ID@) is None
            ==> escrow_address(payer) is None,
{
    reveal_strlit("balance");
    assert(word =~= escrow_seeds(payer)[0]);
    assert(seq![word, payer, seq![0u8]] =~= escrow_seeds(payer));
}

/// Two payers have seeds that differ.
pub proof fn escrow_seeds_tell_payers_apart(payer: Seq<u8>, other: Seq<u8>)
    requires
        escrow_seeds(payer) == escrow_seeds(other),
    ensures
        payer == other,
{
    assert(escrow_seeds(payer)[1] == escrow_seeds(other)[1]);
}

/// The key of the delegation program is the one that its text shows.
#[verifier::rlimit(60)]
pub proof fn delegation_program_id_text()
    ensures
        base58(DELEGATION_PROGRAM_ID@) == "DELeGGvXpWV2fqJUhqcF5ZSYMS4JTLjteaAMARRSaeSh"@,
{
    let text = "DELeGGvXpWV2fqJUhqcF5ZSYMS4JTLjteaAMARRSaeSh"@;
    reveal_strlit("DELeGGvXpWV2fqJUhqcF5ZSYMS4JTLjteaAMARRSaeSh");
    assert(all_digits(text, 44)) by {
        reveal_with_fuel(all_digits, 45);
    }
    assert(big_endian(DELEGATION_PROGRAM_ID@, 32) == 82191964697935119457304698719014317153249058529023526996863877687928147715902nat) by {
        reveal_with_fuel(big_endian, 33);
    }
    assert(base58_value(text, 44) == 82191964697935119457304698719014317153249058529023526996863877687928147715902nat) by {
        reveal_with_fuel(base58_value, 45);
    }
    lemma_base58_text(DELEGATION_PROGRAM_ID@, text);
}

} // verus!
