//! The cipher driver: a key, the block it is about to encrypt, and the
//! checks on what comes in and goes out.

use super::cipher::{aes128, encrypt_block};
use super::error::AesError;
use super::key::{key_schedule, Key};
use super::word::{words_of, AESWord};
use vstd::prelude::*;

verus! {

/// Number of bytes in a block.
pub const BLOCK_SIZE: usize = 16;

/// Sixteen zero bytes.
pub open spec fn zero_block() -> Seq<u8> {
    Seq::new(16, |i: int| 0u8)
}

/// One encryption in progress: the block loaded so far and, once a key has
/// been set, that key with its schedule.
pub struct STATE {
    data: [u8; 16],
    key: Option<Key>,
    schedule: [AESWord; 44],
}

impl STATE {
    #[verifier::type_invariant]
    spec fn schedule_matches_key(self) -> bool {
        self.key matches Some(k) ==> words_of(self.schedule@) == key_schedule(k@)
    }

    /// The block that `encrypt` will encrypt.
    pub closed spec fn block(self) -> Seq<u8> {
        self.data@
    }

    /// The bytes of the key, once one has been set.
    pub closed spec fn key(self) -> Option<Seq<u8>> {
        match self.key {
            Some(k) => Some(k@),
            None => None,
        }
    }

    /// A state without a key, holding the zero block.
    pub fn new() -> (state: STATE)
        ensures
            state.key() is None,
            state.block() == zero_block(),
    {
        let state = STATE {
            data: [0; 16],
            key: None,
            schedule: [AESWord { bytes: [0, 0, 0, 0] }; 44],
        };
        assert(state.data@ =~= zero_block());
        state
    }

    /// A state under the given key, holding the zero block. The key is
    /// expanded here, once.
    pub fn with_key(key: Key) -> (state: STATE)
        ensures
            state.key() == Some(key@),
            state.block() == zero_block(),
    {
        let schedule: [AESWord; 44] = key.expand();
        let state = STATE { data: [0; 16], key: Some(key), schedule };
        assert(state.data@ =~= zero_block());
        state
    }

    /// A state under the key of the given bytes, which must be exactly 16.
    pub fn init(key: &[u8]) -> (made: Result<STATE, AesError>)
        ensures
            key@.len() == 16 ==> made.is_ok() && made.unwrap().key() == Some(key@)
                && made.unwrap().block() == zero_block(),
            key@.len() != 16 ==> made is Err && made->Err_0 == AesError::InvalidKeyLength,
    {
        match Key::new(key) {
            Ok(k) => Ok(STATE::with_key(k)),
            Err(e) => Err(e),
        }
    }

    /// Whether a key has been set.
    pub fn is_initialized(&self) -> (yes: bool)
        ensures
            yes == self.key() is Some,
    {
        self.key.is_some()
    }

    /// The block that `encrypt` will encrypt.
    pub fn data(&self) -> (block: [u8; 16])
        ensures
            block@ == self.block(),
    {
        self.data
    }

    /// Loads the block to encrypt. `len` is the number of bytes of `new_data`
    /// that the caller offers; it and the length of `new_data` must both be
    /// exactly 16, or the state stays as it was.
    pub fn update(&mut self, new_data: &[u8], len: usize) -> (done: Result<(), AesError>)
        ensures
            final(self).key() == old(self).key(),
            len == 16 && new_data@.len() == 16 ==> done is Ok && final(self).block() == new_data@,
            len != 16 || new_data@.len() != 16 ==> done is Err && done->Err_0
                == AesError::InvalidBlockLength && final(self).block() == old(self).block(),
    {
        if len != BLOCK_SIZE || new_data.len() != BLOCK_SIZE {
            return Err(AesError::InvalidBlockLength);
        }
        let mut data: [u8; 16] = [0; 16];
        for i in 0..16
            invariant
                new_data@.len() == 16,
                forall|j: int| 0 <= j < i ==> data@[j] == new_data@[j],
        {
            data[i] = new_data[i];
        }
        assert(data@ =~= new_data@);
        proof {
            use_type_invariant(&*self);
        }
        self.data = data;
        Ok(())
    }

    /// Encrypts the loaded block under the key and writes the ciphertext to
    /// `output_buffer`, which must be exactly 16 bytes long. On an error
    /// nothing is written.
    pub fn encrypt(self, output_buffer: &mut [u8]) -> (done: Result<(), AesError>)
        ensures
            self.key() is None ==> done is Err && done->Err_0 == AesError::NotInitialized,
            self.key() is Some && old(output_buffer)@.len() != 16 ==> done is Err && done->Err_0
                == AesError::InvalidBlockLength,
            self.key() is Some && old(output_buffer)@.len() == 16 ==> done is Ok,
            done is Ok ==> final(output_buffer)@ == aes128(self.key().unwrap(), self.block()),
            done is Err ==> final(output_buffer)@ == old(output_buffer)@,
    {
        proof {
            use_type_invariant(&self);
        }
        if self.key.is_none() {
            return Err(AesError::NotInitialized);
        }
        if output_buffer.len() != BLOCK_SIZE {
            return Err(AesError::InvalidBlockLength);
        }
        let out: [u8; 16] = encrypt_block(&self.schedule, &self.data);
        for i in 0..16
            invariant
                output_buffer@.len() == 16,
                forall|j: int| 0 <= j < i ==> output_buffer@[j] == out@[j],
        {
            output_buffer[i] = out[i];
        }
        assert(output_buffer@ =~= out@);
        Ok(())
    }
}

} // verus!
