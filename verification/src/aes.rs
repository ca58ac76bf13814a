//! AES-128 encryption of one 16-byte block: field arithmetic, the S-box, the
//! key schedule, the four round transformations and the cipher itself.

pub mod cipher;
pub mod error;
pub mod gf;
pub mod key;
pub mod sbox;
pub mod sbox_definition;
pub mod state;
pub mod transform;
pub mod word;

pub use cipher::encrypt_block;
pub use error::AesError;
pub use gf::gf_multiply;
pub use key::Key;
pub use sbox::{s_box_lookup, AES_SBOX};
pub use state::STATE;
pub use word::AESWord;
