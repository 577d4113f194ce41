//! What the access checks read of a transaction message.

use crate::pubkey::Pubkey;
use vstd::prelude::*;

verus! {

/// One instruction of a message.
#[derive(Debug)]
pub struct Instruction {
    /// Position of the program in the account keys of the message.
    pub program_id_index: u8,
    /// Positions, in the account keys of the message, of the accounts handed to the program.
    pub accounts: Vec<u8>,
    /// Input of the program.
    pub data: Vec<u8>,
}

/// The message of a transaction.
#[derive(Debug)]
pub struct Message {
    /// All account keys, loaded ones at the end. The fee payer comes first.
    pub account_keys: Vec<Pubkey>,
    /// The instructions in order.
    pub instructions: Vec<Instruction>,
    /// Whether the account at each position may be written.
    pub writable: Vec<bool>,
}

/// The number that the first four bytes of `data` spell, least significant byte first.
pub open spec fn discriminant(data: Seq<u8>) -> Option<u32> {
    if data.len() < 4 {
        None
    } else {
        Some((data[0] + data[1] * 0x100 + data[2] * 0x1_0000 + data[3] * 0x100_0000) as u32)
    }
}

impl Message {
    /// The key of the program that instruction `i` calls, if its position is one of a key.
    pub open spec fn program(self, i: int) -> Option<Seq<u8>> {
        let at = self.instructions@[i].program_id_index as int;
        if at < self.account_keys@.len() {
            Some(self.account_keys@[at]@)
        } else {
            None
        }
    }

    /// The account at position `i` may be written. No account is beyond the last position.
    pub open spec fn writable_at(self, i: int) -> bool {
        0 <= i < self.writable@.len() && self.writable@[i]
    }

    /// Whether the account at `index` may be written.
    pub fn is_writable(&self, index: usize) -> (writable: bool)
        ensures
            writable == self.writable_at(index as int),
            writable <==> index < self.writable@.len() && self.writable@[index as int],
    {
        index < self.writable.len() && self.writable[index]
    }
}

/// The discriminant of an instruction: its first four bytes of data as a number, least significant
/// byte first. There is none where the data is shorter.
pub fn instruction_discriminant(instruction: &Instruction) -> (found: Option<u32>)
    ensures
        found == discriminant(instruction.data@),
        found is Some <==> instruction.data@.len() >= 4,
        found matches Some(d) ==> d == instruction.data@[0] + instruction.data@[1] * 0x100
            + instruction.data@[2] * 0x1_0000 + instruction.data@[3] * 0x100_0000,
{
    let data = &instruction.data;
    if data.len() < 4 {
        None
    } else {
        Some(
            data[0] as u32 + data[1] as u32 * 0x100 + data[2] as u32 * 0x1_0000 + data[3] as u32
                * 0x100_0000,
        )
    }
}

/// Whether `discriminants` holds `d`.
pub fn listed(discriminants: &[u32], d: u32) -> (found: bool)
    ensures
        found == discriminants@.contains(d),
{
    let mut i: usize = 0;
    while i < discriminants.len()
        invariant
            i <= discriminants.len(),
            forall|j: int| 0 <= j < i ==> discriminants@[j] != d,
        decreases discriminants.len() - i,
    {
        if discriminants[i] == d {
            return true;
        }
        i += 1;
    }
    false
}

/// An account may be written exactly if the message has a flag for its position and the flag is set,
/// whatever the position.
pub proof fn writable_is_the_flag(message: Message, i: int)
    ensures
        message.writable_at(i) <==> 0 <= i < message.writable@.len() && message.writable@[i],
{
}

/// The program of an instruction is the key that its index picks, and there is none beyond the keys.
pub proof fn program_is_the_key_at_its_index(message: Message, i: int, key: Seq<u8>)
    ensures
        message.program(i) == Some(key) <==> message.instructions@[i].program_id_index
            < message.account_keys@.len()
            && message.account_keys@[message.instructions@[i].program_id_index as int]@ == key,
        message.program(i) is None <==> message.instructions@[i].program_id_index
            >= message.account_keys@.len(),
{
}

/// Data has a discriminant exactly if it has four bytes.
pub proof fn discriminant_takes_four_bytes(data: Seq<u8>)
    ensures
        discriminant(data) is Some <==> data.len() >= 4,
{
}

/// What follows the first four bytes makes no difference to the discriminant.
pub proof fn discriminant_ignores_the_payload(data: Seq<u8>, other: Seq<u8>)
    requires
        data.len() >= 4,
        other.len() >= 4,
        data.take(4) == other.take(4),
    ensures
        discriminant(data) == discriminant(other),
        discriminant(data) == discriminant(data.take(4)),
{
    assert forall|i: int| 0 <= i < 4 implies data[i] == other[i] by {
        assert(data.take(4)[i] == other.take(4)[i]);
    }
}

/// Writing a number in front of any payload, least significant byte first, and reading the
/// discriminant gives the number back.
pub proof fn discriminant_reads_what_was_written(d: u32, rest: Seq<u8>)
    ensures
        discriminant(
            seq![
                (d % 0x100) as u8,
                (d / 0x100 % 0x100) as u8,
                (d / 0x1_0000 % 0x100) as u8,
                (d / 0x100_0000) as u8,
            ] + rest,
        ) == Some(d),
{
}

/// Two discriminants are the same only if the four bytes are.
pub proof fn discriminant_tells_bytes_apart(data: Seq<u8>, other: Seq<u8>)
    requires
        data.len() >= 4,
        other.len() >= 4,
        discriminant(data) == discriminant(other),
    ensures
        data.take(4) == other.take(4),
{
    assert(data.take(4) =~= other.take(4));
}

} // verus!
