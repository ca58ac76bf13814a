//! Single-block AES-128 encryption with machine-checked contracts, together
//! with a little-endian multi-byte integer type and a small vector type.

pub mod aes;
pub mod big_int;
pub mod test;
