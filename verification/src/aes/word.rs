//! Four-byte words, the unit of the key schedule.

use super::sbox::{s_box_lookup, sbox};
use vstd::prelude::*;

verus! {

/// The bytewise sum (XOR) of two words.
pub open spec fn xor_word(a: Seq<u8>, b: Seq<u8>) -> Seq<u8> {
    seq![a[0] ^ b[0], a[1] ^ b[1], a[2] ^ b[2], a[3] ^ b[3]]
}

/// The word with every byte replaced by its S-box substitution.
pub open spec fn sub_word(w: Seq<u8>) -> Seq<u8> {
    seq![sbox(w[0]), sbox(w[1]), sbox(w[2]), sbox(w[3])]
}

/// The word rotated left by one byte: byte 0 moves to the end.
pub open spec fn rot_word(w: Seq<u8>) -> Seq<u8> {
    seq![w[1], w[2], w[3], w[0]]
}

/// The byte sequences of a sequence of words.
pub open spec fn words_of(words: Seq<AESWord>) -> Seq<Seq<u8>> {
    Seq::new(words.len(), |i: int| words[i]@)
}

/// Four bytes handled as one unit.
#[derive(Copy, Clone, Debug, PartialEq, Eq)]
pub struct AESWord {
    pub bytes: [u8; 4],
}

impl View for AESWord {
    type V = Seq<u8>;

    open spec fn view(&self) -> Seq<u8> {
        self.bytes@
    }
}

impl AESWord {
    /// The first byte of the word.
    pub fn get_0th(self) -> (byte: u8)
        ensures
            byte == self@[0],
    {
        self.bytes[0]
    }

    /// Substitutes each of the four bytes through the S-box.
    pub fn sub_word(self) -> (out: AESWord)
        ensures
            out@ == sub_word(self@),
    {
        let out = AESWord {
            bytes: [
                s_box_lookup(self.bytes[0]),
                s_box_lookup(self.bytes[1]),
                s_box_lookup(self.bytes[2]),
                s_box_lookup(self.bytes[3]),
            ],
        };
        assert(out@ =~= sub_word(self@));
        out
    }

    /// Rotates the word left by one byte.
    pub fn rot_word(self) -> (out: AESWord)
        ensures
            out@ == rot_word(self@),
    {
        let out = AESWord { bytes: [self.bytes[1], self.bytes[2], self.bytes[3], self.bytes[0]] };
        assert(out@ =~= rot_word(self@));
        out
    }

    /// The word of four zero bytes.
    pub fn zeroes() -> (out: AESWord)
        ensures
            out@ == seq![0u8, 0u8, 0u8, 0u8],
    {
        let out = AESWord { bytes: [0, 0, 0, 0] };
        assert(out@ =~= seq![0u8, 0u8, 0u8, 0u8]);
        out
    }
}

impl vstd::std_specs::ops::BitXorSpecImpl for AESWord {
    open spec fn obeys_bitxor_spec() -> bool {
        true
    }

    open spec fn bitxor_req(self, rhs: AESWord) -> bool {
        true
    }

    open spec fn bitxor_spec(self, rhs: AESWord) -> AESWord {
        AESWord {
            bytes: [
                self.bytes[0] ^ rhs.bytes[0],
                self.bytes[1] ^ rhs.bytes[1],
                self.bytes[2] ^ rhs.bytes[2],
                self.bytes[3] ^ rhs.bytes[3],
            ],
        }
    }
}

impl core::ops::BitXor for AESWord {
    type Output = AESWord;

    /// The bytewise XOR of two words.
    fn bitxor(self, rhs: AESWord) -> (out: AESWord)
        ensures
            out@ == xor_word(self@, rhs@),
    {
        let out = AESWord {
            bytes: [
                self.bytes[0] ^ rhs.bytes[0],
                self.bytes[1] ^ rhs.bytes[1],
                self.bytes[2] ^ rhs.bytes[2],
                self.bytes[3] ^ rhs.bytes[3],
            ],
        };
        assert(out@ =~= xor_word(self@, rhs@));
        out
    }
}

} // verus!
