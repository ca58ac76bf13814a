//! The cipher: ten rounds over one block under an expanded key.

use super::key::key_schedule;
use super::transform::{
    add_round_key, add_round_key_spec, mix_columns, mix_columns_spec, shift_rows,
    shift_rows_spec, sub_bytes, sub_bytes_spec,
};
use super::word::{words_of, AESWord};
use vstd::prelude::*;

verus! {

/// The four words of the schedule that make up the key of round `round`.
pub open spec fn round_key(schedule: Seq<Seq<u8>>, round: int) -> Seq<Seq<u8>> {
    schedule.subrange(4 * round, 4 * round + 4)
}

/// One of rounds 1 to 9: SubBytes, ShiftRows, MixColumns, AddRoundKey.
pub open spec fn full_round(s: Seq<u8>, key: Seq<Seq<u8>>) -> Seq<u8> {
    add_round_key_spec(mix_columns_spec(shift_rows_spec(sub_bytes_spec(s))), key)
}

/// Round 10: SubBytes, ShiftRows, AddRoundKey, without MixColumns.
pub open spec fn final_round(s: Seq<u8>, key: Seq<Seq<u8>>) -> Seq<u8> {
    add_round_key_spec(shift_rows_spec(sub_bytes_spec(s)), key)
}

/// The state after the initial AddRoundKey and `n` full rounds.
pub open spec fn after_rounds(schedule: Seq<Seq<u8>>, block: Seq<u8>, n: nat) -> Seq<u8>
    decreases n,
{
    if n == 0 {
        add_round_key_spec(block, round_key(schedule, 0))
    } else {
        full_round(after_rounds(schedule, block, (n - 1) as nat), round_key(schedule, n as int))
    }
}

/// The ciphertext of `block` under an expanded key of 44 words.
pub open spec fn cipher(schedule: Seq<Seq<u8>>, block: Seq<u8>) -> Seq<u8> {
    final_round(after_rounds(schedule, block, 9), round_key(schedule, 10))
}

/// The AES-128 ciphertext of the 16-byte `block` under the 16-byte `key`.
pub open spec fn aes128(key: Seq<u8>, block: Seq<u8>) -> Seq<u8> {
    cipher(key_schedule(key), block)
}

/// Encryption is a function of the key and the block alone: however often
/// it is asked for, equal keys and equal blocks give equal ciphertexts.
pub proof fn lemma_aes128_deterministic(
    key: Seq<u8>,
    block: Seq<u8>,
    same_key: Seq<u8>,
    same_block: Seq<u8>,
)
    requires
        key.len() == 16,
        block.len() == 16,
        same_key == key,
        same_block == block,
    ensures
        aes128(same_key, same_block) == aes128(key, block),
{
}

/// A ciphertext is one block long.
pub proof fn lemma_cipher_len(schedule: Seq<Seq<u8>>, block: Seq<u8>)
    ensures
        cipher(schedule, block).len() == 16,
{
}

/// Copies the four words of round `round` out of the schedule.
fn round_key_of(schedule: &[AESWord; 44], round: usize) -> (key: [AESWord; 4])
    requires
        round <= 10,
    ensures
        words_of(key@) == round_key(words_of(schedule@), round as int),
{
    let key: [AESWord; 4] = [
        schedule[4 * round],
        schedule[4 * round + 1],
        schedule[4 * round + 2],
        schedule[4 * round + 3],
    ];
    assert(words_of(key@) =~= round_key(words_of(schedule@), round as int));
    key
}

/// Encrypts one block under an expanded key: the initial AddRoundKey, nine
/// full rounds, and the final round without MixColumns.
pub fn encrypt_block(schedule: &[AESWord; 44], block: &[u8; 16]) -> (out: [u8; 16])
    ensures
        out@ == cipher(words_of(schedule@), block@),
{
    let mut state: [u8; 16] = *block;
    let first: [AESWord; 4] = round_key_of(schedule, 0);
    add_round_key(&mut state, &first);
    for round in 1..10
        invariant
            state@ == after_rounds(words_of(schedule@), block@, (round - 1) as nat),
    {
        let key: [AESWord; 4] = round_key_of(schedule, round);
        sub_bytes(&mut state);
        shift_rows(&mut state);
        mix_columns(&mut state);
        add_round_key(&mut state, &key);
    }
    let last: [AESWord; 4] = round_key_of(schedule, 10);
    sub_bytes(&mut state);
    shift_rows(&mut state);
    add_round_key(&mut state, &last);
    state
}

} // verus!
