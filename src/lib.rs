//! Password-encrypted wallet files: checking and decoding the keystore
//! record, the steps that create a wallet file without overwriting one or
//! leaving a partial file behind, and turning a decrypted key into a key pair
//! and a shell line.

pub mod create;
pub mod error;
pub mod hex;
pub mod keystore;
pub mod load;
pub mod record;
pub mod signer;
