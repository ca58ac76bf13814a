use aes_block::aes::key::Key;
use aes_block::aes::{encrypt_block, AesError, STATE};

fn bytes(hex: &str) -> Vec<u8> {
    (0..hex.len() / 2).map(|i| u8::from_str_radix(&hex[2 * i..2 * i + 2], 16).unwrap()).collect()
}

fn encrypt(key: &[u8], plaintext: &[u8]) -> Vec<u8> {
    let mut state = STATE::init(key).ok().unwrap();
    state.update(plaintext, plaintext.len()).unwrap();
    let mut out = vec![0u8; 16];
    state.encrypt(&mut out).unwrap();
    out
}

#[test]
fn known_answer_nist_vector() {
    let key = bytes("000102030405060708090a0b0c0d0e0f");
    let plaintext = bytes("00112233445566778899aabbccddeeff");
    assert_eq!(encrypt(&key, &plaintext), bytes("69c4e0d86a7b0430d8cdb78070b4c55a"));
}

#[test]
fn known_answer_cipher_example() {
    let key = bytes("2b7e151628aed2a6abf7158809cf4f3c");
    let plaintext = bytes("3243f6a8885a308d313198a2e0370734");
    assert_eq!(encrypt(&key, &plaintext), bytes("3925841d02dc09fbdc118597196a0b32"));
}

#[test]
fn known_answer_zero_key_zero_block() {
    assert_eq!(encrypt(&[0; 16], &[0; 16]), bytes("66e94bd4ef8a2c3b884cfa59ca342b2e"));
}

#[test]
fn known_answer_all_ones_key() {
    let key = [0xffu8; 16];
    let out = encrypt(&key, &[0; 16]);
    assert_eq!(out, bytes("a1f6258c877d5fcd8964484538bfc92c"));
}

#[test]
fn encrypt_is_deterministic() {
    let key = bytes("2b7e151628aed2a6abf7158809cf4f3c");
    let plaintext = bytes("6bc1bee22e409f96e93d7e117393172a");
    let first = encrypt(&key, &plaintext);
    let second = encrypt(&key, &plaintext);
    assert_eq!(first, second);
    assert_eq!(first, bytes("3ad77bb40d7a3660a89ecaf32466ef97"));
}

#[test]
fn encrypt_block_under_an_expanded_key() {
    let key = Key::new(&bytes("000102030405060708090a0b0c0d0e0f")).unwrap();
    let schedule = key.expand();
    let mut block = [0u8; 16];
    block.copy_from_slice(&bytes("00112233445566778899aabbccddeeff"));
    let out = encrypt_block(&schedule, &block);
    assert_eq!(out.to_vec(), bytes("69c4e0d86a7b0430d8cdb78070b4c55a"));
    // The schedule is read only: a second block under it gives its own answer.
    let zero = encrypt_block(&schedule, &[0u8; 16]);
    assert_eq!(zero.to_vec(), bytes("c6a13b37878f5b826f4f8162a1c8d879"));
}

#[test]
fn init_rejects_a_key_of_the_wrong_length() {
    assert_eq!(STATE::init(&[0u8; 15]).err(), Some(AesError::InvalidKeyLength));
    assert_eq!(STATE::init(&[0u8; 17]).err(), Some(AesError::InvalidKeyLength));
    assert_eq!(STATE::init(&[]).err(), Some(AesError::InvalidKeyLength));
    assert_eq!(STATE::init(&[0u8; 32]).err(), Some(AesError::InvalidKeyLength));
    assert!(STATE::init(&[0u8; 16]).is_ok());
}

#[test]
fn init_holds_the_zero_block() {
    let state = STATE::init(&[7u8; 16]).ok().unwrap();
    assert!(state.is_initialized());
    assert_eq!(state.data(), [0u8; 16]);
}

#[test]
fn update_rejects_a_block_of_the_wrong_length() {
    let mut state = STATE::init(&[0u8; 16]).ok().unwrap();
    state.update(&[9u8; 16], 16).unwrap();
    assert_eq!(state.update(&[1u8; 15], 15), Err(AesError::InvalidBlockLength));
    assert_eq!(state.update(&[1u8; 17], 17), Err(AesError::InvalidBlockLength));
    assert_eq!(state.update(&[], 0), Err(AesError::InvalidBlockLength));
    // Neither a long slice cut to 16 nor a short count of a full slice is taken.
    assert_eq!(state.update(&[1u8; 17], 16), Err(AesError::InvalidBlockLength));
    assert_eq!(state.update(&[1u8; 16], 15), Err(AesError::InvalidBlockLength));
    assert_eq!(state.update(&[1u8; 16], 17), Err(AesError::InvalidBlockLength));
    // A refused block leaves the loaded one in place.
    assert_eq!(state.data(), [9u8; 16]);
}

#[test]
fn update_loads_the_block() {
    let mut state = STATE::new();
    let block = bytes("00112233445566778899aabbccddeeff");
    assert_eq!(state.update(&block, 16), Ok(()));
    assert_eq!(state.data().to_vec(), block);
    assert!(!state.is_initialized());
}

#[test]
fn encrypt_without_a_key_is_refused() {
    let mut state = STATE::new();
    state.update(&[1u8; 16], 16).unwrap();
    let mut out = [0xaau8; 16];
    assert_eq!(state.encrypt(&mut out), Err(AesError::NotInitialized));
    assert_eq!(out, [0xaau8; 16]);
    // The missing key is reported before the length of the buffer.
    let mut short = [0xaau8; 3];
    assert_eq!(STATE::new().encrypt(&mut short), Err(AesError::NotInitialized));
}

#[test]
fn encrypt_into_a_buffer_of_the_wrong_length_is_refused() {
    let mut short = [0xaau8; 15];
    let state = STATE::init(&[0u8; 16]).ok().unwrap();
    assert_eq!(state.encrypt(&mut short), Err(AesError::InvalidBlockLength));
    assert_eq!(short, [0xaau8; 15]);
    let mut long = [0xaau8; 17];
    let state = STATE::init(&[0u8; 16]).ok().unwrap();
    assert_eq!(state.encrypt(&mut long), Err(AesError::InvalidBlockLength));
    assert_eq!(long, [0xaau8; 17]);
}

#[test]
fn with_key_is_init_without_the_length_check() {
    let key = Key { bytes: [0u8; 16] };
    let mut out = [0u8; 16];
    STATE::with_key(key).encrypt(&mut out).unwrap();
    assert_eq!(out.to_vec(), bytes("66e94bd4ef8a2c3b884cfa59ca342b2e"));
}
