use aes_block::aes::key::Key;
use aes_block::aes::transform::{add_round_key, mix_columns, shift_rows, sub_bytes};
use aes_block::aes::{gf_multiply, s_box_lookup, AESWord, AesError, AES_SBOX};

fn block(hex: &str) -> [u8; 16] {
    let mut out = [0u8; 16];
    for i in 0..16 {
        out[i] = u8::from_str_radix(&hex[2 * i..2 * i + 2], 16).unwrap();
    }
    out
}

#[test]
fn gf_multiply_by_zero_and_one() {
    for a in 0..=255u8 {
        assert_eq!(gf_multiply(a, 0), 0);
        assert_eq!(gf_multiply(0, a), 0);
        assert_eq!(gf_multiply(a, 1), a);
        assert_eq!(gf_multiply(1, a), a);
    }
}

#[test]
fn gf_multiply_known_products() {
    assert_eq!(gf_multiply(0x57, 0x83), 0xc1);
    assert_eq!(gf_multiply(0x57, 0x13), 0xfe);
    assert_eq!(gf_multiply(0x57, 0x02), 0xae);
    assert_eq!(gf_multiply(0x57, 0x04), 0x47);
    assert_eq!(gf_multiply(0x57, 0x08), 0x8e);
    assert_eq!(gf_multiply(0x57, 0x10), 0x07);
    assert_eq!(gf_multiply(0x53, 0xca), 0x01);
}

#[test]
fn gf_multiply_reduces_when_the_top_bit_leaves() {
    assert_eq!(gf_multiply(0x80, 0x02), 0x1b);
    assert_eq!(gf_multiply(0xff, 0x02), 0xe5);
    assert_eq!(gf_multiply(0x7f, 0x02), 0xfe);
}

#[test]
fn gf_multiply_commutes_and_distributes() {
    for a in [0x00u8, 0x01, 0x02, 0x1b, 0x57, 0x80, 0xc3, 0xff] {
        for b in [0x00u8, 0x03, 0x13, 0x83, 0xfe] {
            assert_eq!(gf_multiply(a, b), gf_multiply(b, a));
            for c in [0x01u8, 0x0e, 0x9d] {
                assert_eq!(gf_multiply(a ^ b, c), gf_multiply(a, c) ^ gf_multiply(b, c));
                assert_eq!(gf_multiply(c, a ^ b), gf_multiply(c, a) ^ gf_multiply(c, b));
            }
        }
    }
}

#[test]
fn s_box_known_entries() {
    assert_eq!(s_box_lookup(0x00), 0x63);
    assert_eq!(s_box_lookup(0x01), 0x7c);
    assert_eq!(s_box_lookup(0x53), 0xed);
    assert_eq!(s_box_lookup(0xff), 0x16);
    assert_eq!(AES_SBOX.len(), 256);
}

#[test]
fn s_box_is_the_affine_image_of_the_inverse() {
    for b in 0..=255u8 {
        let mut inverse = 0u8;
        for x in 1..=255u8 {
            if gf_multiply(b, x) == 1 {
                inverse = x;
            }
        }
        let affine = inverse
            ^ inverse.rotate_left(1)
            ^ inverse.rotate_left(2)
            ^ inverse.rotate_left(3)
            ^ inverse.rotate_left(4)
            ^ 0x63;
        assert_eq!(s_box_lookup(b), affine);
    }
}

#[test]
fn word_operations() {
    let w = AESWord { bytes: [0x09, 0xcf, 0x4f, 0x3c] };
    assert_eq!(w.get_0th(), 0x09);
    assert_eq!(w.rot_word().bytes, [0xcf, 0x4f, 0x3c, 0x09]);
    assert_eq!(w.rot_word().sub_word().bytes, [0x8a, 0x84, 0xeb, 0x01]);
    assert_eq!(AESWord::zeroes().bytes, [0, 0, 0, 0]);
    let x = w ^ AESWord { bytes: [0xff, 0x0f, 0x00, 0x3c] };
    assert_eq!(x.bytes, [0xf6, 0xc0, 0x4f, 0x00]);
}

#[test]
fn round_constants() {
    let rconi = Key::generate_rconi();
    let firsts: Vec<u8> = rconi.iter().map(|w| w.bytes[0]).collect();
    assert_eq!(firsts, vec![0x01, 0x02, 0x04, 0x08, 0x10, 0x20, 0x40, 0x80, 0x1b, 0x36]);
    for w in rconi.iter() {
        assert_eq!(&w.bytes[1..], &[0u8, 0, 0]);
    }
}

#[test]
fn key_takes_exactly_sixteen_bytes() {
    let bytes = block("2b7e151628aed2a6abf7158809cf4f3c");
    assert_eq!(Key::new(&bytes).unwrap().bytes, bytes);
    assert_eq!(Key::new(&bytes[..15]).err(), Some(AesError::InvalidKeyLength));
    assert_eq!(Key::new(&[0u8; 17]).err(), Some(AesError::InvalidKeyLength));
    assert_eq!(Key::new(&[]).err(), Some(AesError::InvalidKeyLength));
}

#[test]
fn key_words() {
    let key = Key { bytes: block("2b7e151628aed2a6abf7158809cf4f3c") };
    assert_eq!(key.word(0).bytes, [0x2b, 0x7e, 0x15, 0x16]);
    assert_eq!(key.word(3).bytes, [0x09, 0xcf, 0x4f, 0x3c]);
}

#[test]
fn key_expansion_has_44_words() {
    assert_eq!(Key { bytes: [0x00; 16] }.expand().len(), 44);
    assert_eq!(Key { bytes: [0xff; 16] }.expand().len(), 44);
}

#[test]
fn key_expansion_of_the_standard_example() {
    let key = Key { bytes: block("2b7e151628aed2a6abf7158809cf4f3c") };
    let w = key.expand();
    assert_eq!(w[0].bytes, [0x2b, 0x7e, 0x15, 0x16]);
    assert_eq!(w[3].bytes, [0x09, 0xcf, 0x4f, 0x3c]);
    assert_eq!(w[4].bytes, [0xa0, 0xfa, 0xfe, 0x17]);
    assert_eq!(w[5].bytes, [0x88, 0x54, 0x2c, 0xb1]);
    assert_eq!(w[6].bytes, [0x23, 0xa3, 0x39, 0x39]);
    assert_eq!(w[7].bytes, [0x2a, 0x6c, 0x76, 0x05]);
    assert_eq!(w[8].bytes, [0xf2, 0xc2, 0x95, 0xf2]);
    assert_eq!(w[36].bytes, [0xac, 0x77, 0x66, 0xf3]);
    assert_eq!(w[40].bytes, [0xd0, 0x14, 0xf9, 0xa8]);
    assert_eq!(w[41].bytes, [0xc9, 0xee, 0x25, 0x89]);
    assert_eq!(w[42].bytes, [0xe1, 0x3f, 0x0c, 0xc8]);
    assert_eq!(w[43].bytes, [0xb6, 0x63, 0x0c, 0xa6]);
}

#[test]
fn key_expansion_of_the_zero_key() {
    let w = Key { bytes: [0; 16] }.expand();
    assert_eq!(w[4].bytes, [0x62, 0x63, 0x63, 0x63]);
    assert_eq!(w[43].bytes, [0x6f, 0x8f, 0x18, 0x8e]);
}

#[test]
fn sub_bytes_substitutes_every_byte() {
    let mut state = block("00102030405060708090a0b0c0d0e0f0");
    sub_bytes(&mut state);
    assert_eq!(state, block("63cab7040953d051cd60e0e7ba70e18c"));
}

#[test]
fn shift_rows_shifts_row_r_by_r() {
    // Row r holds 4r, 4r + 1, 4r + 2, 4r + 3; the state is stored by columns.
    let mut state = [0u8, 4, 8, 12, 1, 5, 9, 13, 2, 6, 10, 14, 3, 7, 11, 15];
    shift_rows(&mut state);
    let row = |r: usize| [state[r], state[4 + r], state[8 + r], state[12 + r]];
    assert_eq!(row(0), [0, 1, 2, 3]);
    assert_eq!(row(1), [5, 6, 7, 4]);
    assert_eq!(row(2), [10, 11, 8, 9]);
    assert_eq!(row(3), [15, 12, 13, 14]);
}

#[test]
fn shift_rows_of_the_standard_example() {
    let mut state = block("63cab7040953d051cd60e0e7ba70e18c");
    shift_rows(&mut state);
    assert_eq!(state, block("6353e08c0960e104cd70b751bacad0e7"));
}

#[test]
fn mix_columns_of_the_standard_example() {
    let mut state = block("6353e08c0960e104cd70b751bacad0e7");
    mix_columns(&mut state);
    assert_eq!(state, block("5f72641557f5bc92f7be3b291db9f91a"));
}

#[test]
fn mix_columns_known_columns() {
    let mut state = block("db135345f20a225c01010101c6c6c6c6");
    mix_columns(&mut state);
    assert_eq!(state, block("8e4da1bc9fdc589d01010101c6c6c6c6"));
    let mut state = block("d4d4d4d52d26314c0000000000000000");
    mix_columns(&mut state);
    assert_eq!(state, block("d5d5d7d64d7ebdf80000000000000000"));
}

#[test]
fn mix_columns_is_linear() {
    let a = block("6353e08c0960e104cd70b751bacad0e7");
    let b = block("db135345f20a225c01010101c6c6c6c6");
    let mut sum = [0u8; 16];
    for i in 0..16 {
        sum[i] = a[i] ^ b[i];
    }
    let (mut ma, mut mb) = (a, b);
    mix_columns(&mut ma);
    mix_columns(&mut mb);
    mix_columns(&mut sum);
    for i in 0..16 {
        assert_eq!(ma[i] ^ mb[i], sum[i]);
    }
}

#[test]
fn add_round_key_xors_column_with_word() {
    let mut state = block("00112233445566778899aabbccddeeff");
    let key = [
        AESWord { bytes: [0x00, 0x01, 0x02, 0x03] },
        AESWord { bytes: [0x04, 0x05, 0x06, 0x07] },
        AESWord { bytes: [0x08, 0x09, 0x0a, 0x0b] },
        AESWord { bytes: [0x0c, 0x0d, 0x0e, 0x0f] },
    ];
    add_round_key(&mut state, &key);
    assert_eq!(state, block("00102030405060708090a0b0c0d0e0f0"));
    add_round_key(&mut state, &key);
    assert_eq!(state, block("00112233445566778899aabbccddeeff"));
}
