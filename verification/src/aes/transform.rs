//! The four round transformations on a 16-byte state.
//!
//! The state is a 4x4 matrix of bytes stored column by column: the byte in
//! row `r` and column `c` is at index `4 * c + r`.

use super::gf::{gf_mul, gf_multiply, lemma_gf_mul_distributes_right};
use super::sbox::{s_box_lookup, sbox};
use super::word::{words_of, xor_word, AESWord};
use vstd::prelude::*;

verus! {

/// Row `r` of a state, from column 0 to column 3.
pub open spec fn row(s: Seq<u8>, r: int) -> Seq<u8> {
    seq![s[r], s[4 + r], s[8 + r], s[12 + r]]
}

/// Column `c` of a state, from row 0 to row 3.
pub open spec fn column(s: Seq<u8>, c: int) -> Seq<u8> {
    s.subrange(4 * c, 4 * c + 4)
}

/// Four bytes shifted cyclically to the left by `n` places.
pub open spec fn rotate_left(w: Seq<u8>, n: int) -> Seq<u8> {
    Seq::new(4, |j: int| w[(j + n) % 4])
}

/// SubBytes: every byte replaced by its S-box substitution.
pub open spec fn sub_bytes_spec(s: Seq<u8>) -> Seq<u8> {
    Seq::new(16, |i: int| sbox(s[i]))
}

/// ShiftRows: the state with row 1, 2 and 3 shifted left by as many places.
pub open spec fn shift_rows_spec(s: Seq<u8>) -> Seq<u8> {
    seq![
        s[0], s[5], s[10], s[15],
        s[4], s[9], s[14], s[3],
        s[8], s[13], s[2], s[7],
        s[12], s[1], s[6], s[11],
    ]
}

/// One column multiplied by the MixColumns matrix over GF(2^8).
pub open spec fn mix_column(c: Seq<u8>) -> Seq<u8> {
    seq![
        gf_mul(2, c[0]) ^ gf_mul(3, c[1]) ^ c[2] ^ c[3],
        c[0] ^ gf_mul(2, c[1]) ^ gf_mul(3, c[2]) ^ c[3],
        c[0] ^ c[1] ^ gf_mul(2, c[2]) ^ gf_mul(3, c[3]),
        gf_mul(3, c[0]) ^ c[1] ^ c[2] ^ gf_mul(2, c[3]),
    ]
}

/// MixColumns: each of the four columns multiplied by the matrix.
pub open spec fn mix_columns_spec(s: Seq<u8>) -> Seq<u8> {
    Seq::new(16, |i: int| mix_column(column(s, i / 4))[i % 4])
}

/// AddRoundKey: column `c` of the state summed with word `c` of the round key.
pub open spec fn add_round_key_spec(s: Seq<u8>, round_key: Seq<Seq<u8>>) -> Seq<u8> {
    Seq::new(16, |i: int| s[i] ^ round_key[i / 4][i % 4])
}

/// ShiftRows leaves row 0 as it is and shifts row `r` left by `r` places:
/// a row `[a, b, c, d]` becomes `[b, c, d, a]` in row 1, `[c, d, a, b]` in
/// row 2 and `[d, a, b, c]` in row 3.
pub proof fn lemma_shift_rows_by_row(s: Seq<u8>)
    requires
        s.len() == 16,
    ensures
        shift_rows_spec(s).len() == 16,
        forall|r: int| 0 <= r < 4 ==> #[trigger] row(shift_rows_spec(s), r) == rotate_left(row(s, r), r),
        row(shift_rows_spec(s), 0) == row(s, 0),
        row(shift_rows_spec(s), 1) == seq![s[5], s[9], s[13], s[1]],
        row(shift_rows_spec(s), 2) == seq![s[10], s[14], s[2], s[6]],
        row(shift_rows_spec(s), 3) == seq![s[15], s[3], s[7], s[11]],
{
    let t = shift_rows_spec(s);
    assert forall|r: int| 0 <= r < 4 implies #[trigger] row(t, r) == rotate_left(row(s, r), r) by {
        assert(row(t, r) =~= rotate_left(row(s, r), r));
    }
    assert(row(t, 0) =~= row(s, 0));
    assert(row(t, 1) =~= seq![s[5], s[9], s[13], s[1]]);
    assert(row(t, 2) =~= seq![s[10], s[14], s[2], s[6]]);
    assert(row(t, 3) =~= seq![s[15], s[3], s[7], s[11]]);
}

proof fn lemma_xor_regroup4(u0: u8, u1: u8, u2: u8, u3: u8, v0: u8, v1: u8, v2: u8, v3: u8)
    ensures
        (u0 ^ v0) ^ (u1 ^ v1) ^ (u2 ^ v2) ^ (u3 ^ v3) == (u0 ^ u1 ^ u2 ^ u3) ^ (v0 ^ v1 ^ v2 ^ v3),
{
    assert((u0 ^ v0) ^ (u1 ^ v1) ^ (u2 ^ v2) ^ (u3 ^ v3) == (u0 ^ u1 ^ u2 ^ u3) ^ (v0 ^ v1 ^ v2
        ^ v3)) by (bit_vector);
}

/// MixColumns is linear over GF(2^8): the image of a sum of two columns is
/// the sum of their images.
pub proof fn lemma_mix_column_linear(c1: Seq<u8>, c2: Seq<u8>)
    requires
        c1.len() == 4,
        c2.len() == 4,
    ensures
        xor_word(mix_column(c1), mix_column(c2)) == mix_column(xor_word(c1, c2)),
{
    lemma_gf_mul_distributes_right(2, c1[0], c2[0]);
    lemma_gf_mul_distributes_right(2, c1[1], c2[1]);
    lemma_gf_mul_distributes_right(2, c1[2], c2[2]);
    lemma_gf_mul_distributes_right(2, c1[3], c2[3]);
    lemma_gf_mul_distributes_right(3, c1[0], c2[0]);
    lemma_gf_mul_distributes_right(3, c1[1], c2[1]);
    lemma_gf_mul_distributes_right(3, c1[2], c2[2]);
    lemma_gf_mul_distributes_right(3, c1[3], c2[3]);
    lemma_xor_regroup4(
        gf_mul(2, c1[0]), gf_mul(3, c1[1]), c1[2], c1[3],
        gf_mul(2, c2[0]), gf_mul(3, c2[1]), c2[2], c2[3],
    );
    lemma_xor_regroup4(
        c1[0], gf_mul(2, c1[1]), gf_mul(3, c1[2]), c1[3],
        c2[0], gf_mul(2, c2[1]), gf_mul(3, c2[2]), c2[3],
    );
    lemma_xor_regroup4(
        c1[0], c1[1], gf_mul(2, c1[2]), gf_mul(3, c1[3]),
        c2[0], c2[1], gf_mul(2, c2[2]), gf_mul(3, c2[3]),
    );
    lemma_xor_regroup4(
        gf_mul(3, c1[0]), c1[1], c1[2], gf_mul(2, c1[3]),
        gf_mul(3, c2[0]), c2[1], c2[2], gf_mul(2, c2[3]),
    );
    assert(xor_word(mix_column(c1), mix_column(c2)) =~= mix_column(xor_word(c1, c2)));
}

/// MixColumns is linear on whole states as well.
pub proof fn lemma_mix_columns_linear(s1: Seq<u8>, s2: Seq<u8>)
    requires
        s1.len() == 16,
        s2.len() == 16,
    ensures
        Seq::new(16, |i: int| mix_columns_spec(s1)[i] ^ mix_columns_spec(s2)[i])
            == mix_columns_spec(Seq::new(16, |i: int| s1[i] ^ s2[i])),
{
    let sum = Seq::new(16, |i: int| s1[i] ^ s2[i]);
    assert forall|c: int| 0 <= c < 4 implies xor_word(
        mix_column(column(s1, c)),
        mix_column(column(s2, c)),
    ) == mix_column(#[trigger] column(sum, c)) by {
        lemma_mix_column_linear(column(s1, c), column(s2, c));
        assert(column(sum, c) =~= xor_word(column(s1, c), column(s2, c)));
    }
    assert forall|i: int| 0 <= i < 16 implies mix_columns_spec(s1)[i] ^ mix_columns_spec(s2)[i]
        == #[trigger] mix_columns_spec(sum)[i] by {
        let c = i / 4;
        assert(mix_column(column(sum, c)) == xor_word(
            mix_column(column(s1, c)),
            mix_column(column(s2, c)),
        ));
    }
    assert(Seq::new(16, |i: int| mix_columns_spec(s1)[i] ^ mix_columns_spec(s2)[i])
        =~= mix_columns_spec(sum));
}

/// SubBytes: replaces every byte of the state by its S-box substitution.
pub fn sub_bytes(state: &mut [u8; 16])
    ensures
        final(state)@ == sub_bytes_spec(old(state)@),
{
    let ghost before = state@;
    for i in 0..16
        invariant
            before.len() == 16,
            forall|j: int| 0 <= j < i ==> state@[j] == sbox(before[j]),
            forall|j: int| i <= j < 16 ==> state@[j] == before[j],
    {
        state[i] = s_box_lookup(state[i]);
    }
    assert(state@ =~= sub_bytes_spec(before));
}

/// ShiftRows: shifts row `r` of the state left by `r` places.
pub fn shift_rows(state: &mut [u8; 16])
    ensures
        final(state)@ == shift_rows_spec(old(state)@),
{
    let s: [u8; 16] = *state;
    state[1] = s[5];
    state[5] = s[9];
    state[9] = s[13];
    state[13] = s[1];
    state[2] = s[10];
    state[6] = s[14];
    state[10] = s[2];
    state[14] = s[6];
    state[3] = s[15];
    state[7] = s[3];
    state[11] = s[7];
    state[15] = s[11];
    assert(state@ =~= shift_rows_spec(s@));
}

/// MixColumns: multiplies each column of the state by the fixed matrix.
pub fn mix_columns(state: &mut [u8; 16])
    ensures
        final(state)@ == mix_columns_spec(old(state)@),
{
    let ghost before = state@;
    for c in 0..4
        invariant
            before.len() == 16,
            forall|j: int| 0 <= j < 4 * c ==> state@[j] == mix_columns_spec(before)[j],
            forall|j: int| 4 * c <= j < 16 ==> state@[j] == before[j],
    {
        let s0: u8 = state[4 * c];
        let s1: u8 = state[4 * c + 1];
        let s2: u8 = state[4 * c + 2];
        let s3: u8 = state[4 * c + 3];
        assert(column(before, c as int) =~= seq![s0, s1, s2, s3]);
        state[4 * c] = gf_multiply(2, s0) ^ gf_multiply(3, s1) ^ s2 ^ s3;
        state[4 * c + 1] = s0 ^ gf_multiply(2, s1) ^ gf_multiply(3, s2) ^ s3;
        state[4 * c + 2] = s0 ^ s1 ^ gf_multiply(2, s2) ^ gf_multiply(3, s3);
        state[4 * c + 3] = gf_multiply(3, s0) ^ s1 ^ s2 ^ gf_multiply(2, s3);
        assert forall|j: int| 4 * c <= j < 4 * c + 4 implies state@[j] == mix_columns_spec(
            before,
        )[j] by {
            assert(j / 4 == c && j % 4 == j - 4 * c);
        }
    }
    assert(state@ =~= mix_columns_spec(before));
}

/// AddRoundKey: XORs column `c` of the state with word `c` of the round key.
pub fn add_round_key(state: &mut [u8; 16], round_key: &[AESWord; 4])
    ensures
        final(state)@ == add_round_key_spec(old(state)@, words_of(round_key@)),
{
    let ghost before = state@;
    let ghost key = words_of(round_key@);
    for i in 0..16
        invariant
            before.len() == 16,
            key == words_of(round_key@),
            forall|j: int| 0 <= j < i ==> state@[j] == before[j] ^ key[j / 4][j % 4],
            forall|j: int| i <= j < 16 ==> state@[j] == before[j],
    {
        state[i] = state[i] ^ round_key[i / 4].bytes[i % 4];
    }
    assert(state@ =~= add_round_key_spec(before, key));
}

} // verus!
