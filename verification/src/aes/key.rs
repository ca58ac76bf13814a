//! The 128-bit key and its expansion into eleven round keys.

use super::error::AesError;
use super::gf::{gf_mul, gf_multiply, lemma_gf_mul_two_three, xtime};
use super::word::{rot_word, sub_word, words_of, xor_word, AESWord};
use vstd::prelude::*;

verus! {

/// Number of bytes in a key.
pub const KEY_SIZE: usize = 16;

/// The round constant of round `i`, for `i >= 1`: x^(i-1) in GF(2^8).
pub open spec fn rcon(i: nat) -> u8
    decreases i,
{
    if i <= 1 {
        1
    } else {
        gf_mul(rcon((i - 1) as nat), 2)
    }
}

/// The round constant of round `i` as a word: the constant, then three zero
/// bytes.
pub open spec fn rcon_word(i: nat) -> Seq<u8> {
    seq![rcon(i), 0u8, 0u8, 0u8]
}

/// Word `i` of the schedule that the 16-byte key `key` expands to.
pub open spec fn schedule_word(key: Seq<u8>, i: nat) -> Seq<u8>
    decreases i,
{
    if i < 4 {
        key.subrange(4 * i as int, 4 * i as int + 4)
    } else if i % 4 == 0 {
        xor_word(
            schedule_word(key, (i - 4) as nat),
            xor_word(sub_word(rot_word(schedule_word(key, (i - 1) as nat))), rcon_word(i / 4)),
        )
    } else {
        xor_word(schedule_word(key, (i - 4) as nat), schedule_word(key, (i - 1) as nat))
    }
}

/// The whole schedule of `key`: 44 words.
pub open spec fn key_schedule(key: Seq<u8>) -> Seq<Seq<u8>> {
    Seq::new(44, |i: int| schedule_word(key, i as nat))
}

/// A schedule has 44 words, whatever the bytes of the key.
pub proof fn lemma_key_schedule_len(key: Seq<u8>)
    requires
        key.len() == 16,
    ensures
        key_schedule(key).len() == 44,
        forall|i: int| 0 <= i < 44 ==> (#[trigger] key_schedule(key)[i]).len() == 4,
{
    assert forall|i: int| 0 <= i < 44 implies (#[trigger] key_schedule(key)[i]).len() == 4 by {
        lemma_schedule_word_len(key, i as nat);
    }
}

/// Every word of a schedule has four bytes.
pub proof fn lemma_schedule_word_len(key: Seq<u8>, i: nat)
    requires
        key.len() == 16,
    ensures
        schedule_word(key, i).len() == 4,
    decreases i,
{
    if i >= 4 {
        lemma_schedule_word_len(key, (i - 4) as nat);
        lemma_schedule_word_len(key, (i - 1) as nat);
    }
}

/// The ten round constants of AES-128.
pub proof fn lemma_rcon_values()
    ensures
        rcon(1) == 0x01,
        rcon(2) == 0x02,
        rcon(3) == 0x04,
        rcon(4) == 0x08,
        rcon(5) == 0x10,
        rcon(6) == 0x20,
        rcon(7) == 0x40,
        rcon(8) == 0x80,
        rcon(9) == 0x1b,
        rcon(10) == 0x36,
{
    reveal_with_fuel(rcon, 11);
    lemma_gf_mul_two_three(0x01);
    lemma_gf_mul_two_three(0x02);
    lemma_gf_mul_two_three(0x04);
    lemma_gf_mul_two_three(0x08);
    lemma_gf_mul_two_three(0x10);
    lemma_gf_mul_two_three(0x20);
    lemma_gf_mul_two_three(0x40);
    lemma_gf_mul_two_three(0x80);
    lemma_gf_mul_two_three(0x1b);
    assert(xtime(0x01) == 0x02 && xtime(0x02) == 0x04 && xtime(0x04) == 0x08 && xtime(0x08)
        == 0x10 && xtime(0x10) == 0x20 && xtime(0x20) == 0x40 && xtime(0x40) == 0x80 && xtime(
        0x80,
    ) == 0x1b && xtime(0x1b) == 0x36) by (bit_vector);
}

/// A 128-bit key.
#[derive(Copy, Clone, Debug, PartialEq, Eq)]
pub struct Key {
    pub bytes: [u8; 16],
}

impl View for Key {
    type V = Seq<u8>;

    open spec fn view(&self) -> Seq<u8> {
        self.bytes@
    }
}

impl Key {
    /// Makes a key of the given bytes, which must be exactly 16.
    pub fn new(bytes: &[u8]) -> (made: Result<Key, AesError>)
        ensures
            bytes@.len() == 16 ==> made.is_ok() && made.unwrap()@ == bytes@,
            bytes@.len() != 16 ==> made == Err::<Key, AesError>(AesError::InvalidKeyLength),
    {
        if bytes.len() != KEY_SIZE {
            return Err(AesError::InvalidKeyLength);
        }
        let mut key = Key { bytes: [0; 16] };
        for i in 0..16
            invariant
                bytes@.len() == 16,
                forall|j: int| 0 <= j < i ==> key.bytes@[j] == bytes@[j],
        {
            key.bytes[i] = bytes[i];
        }
        assert(key@ =~= bytes@);
        Ok(key)
    }

    /// Word `i` of the key: its bytes `4i` to `4i + 3`.
    pub fn word(&self, i: usize) -> (w: AESWord)
        requires
            i < 4,
        ensures
            w@ == self@.subrange(4 * i as int, 4 * i as int + 4),
    {
        let w = AESWord {
            bytes: [
                self.bytes[4 * i],
                self.bytes[4 * i + 1],
                self.bytes[4 * i + 2],
                self.bytes[4 * i + 3],
            ],
        };
        assert(w@ =~= self@.subrange(4 * i as int, 4 * i as int + 4));
        w
    }

    /// The ten round constants, each in the first byte of a word.
    pub fn generate_rconi() -> (rconi: [AESWord; 10])
        ensures
            forall|i: int| 0 <= i < 10 ==> (#[trigger] rconi@[i])@ == rcon_word((i + 1) as nat),
    {
        let mut rconi: [AESWord; 10] = [AESWord { bytes: [0, 0, 0, 0] }; 10];
        let mut value: u8 = 1;
        for i in 0..10
            invariant
                value == rcon((i + 1) as nat),
                forall|j: int| 0 <= j < i ==> (#[trigger] rconi@[j])@ == rcon_word((j + 1) as nat),
        {
            let w = AESWord { bytes: [value, 0, 0, 0] };
            assert(w@ =~= rcon_word((i + 1) as nat));
            rconi[i] = w;
            value = gf_multiply(value, 2);
        }
        rconi
    }

    /// Expands the key into the 44 words of its schedule.
    pub fn expand(&self) -> (words: [AESWord; 44])
        ensures
            words@.len() == 44,
            words_of(words@) == key_schedule(self@),
    {
        let rconi: [AESWord; 10] = Self::generate_rconi();
        let mut words: [AESWord; 44] = [AESWord { bytes: [0, 0, 0, 0] }; 44];
        for i in 0..44
            invariant
                forall|j: int| 0 <= j < 10 ==> (#[trigger] rconi@[j])@ == rcon_word((j + 1) as nat),
                forall|j: int|
                    0 <= j < i ==> (#[trigger] words@[j])@ == schedule_word(self@, j as nat),
        {
            if i < 4 {
                words[i] = self.word(i);
            } else if i % 4 == 0 {
                words[i] = words[i - 4] ^ (words[i - 1].rot_word().sub_word() ^ rconi[i / 4 - 1]);
            } else {
                words[i] = words[i - 4] ^ words[i - 1];
            }
        }
        assert(words_of(words@) =~= key_schedule(self@));
        words
    }
}

} // verus!
