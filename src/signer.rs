use vstd::prelude::*;
use alloy::signers::k256::ecdsa::SigningKey;
use alloy::signers::local::{LocalSigner, LocalSignerError};
use eth_keystore::KeystoreError as EthKeystoreError;
use crate::error::KeystoreError;
use crate::hex::{bytes_equal, encode_hex, hex_of};

verus! {

#[verifier::external_type_specification]
#[verifier::external_body]
pub struct ExLocalSignerError(LocalSignerError);

/// The Ethereum address (20 bytes) of the secp256k1 private key `secret`.
pub uninterp spec fn address_of(secret: Seq<u8>) -> Seq<u8>;

/// The EIP-55 mixed-case text of the 20-byte address `a`, `0x` included.
pub uninterp spec fn checksum_of(a: Seq<u8>) -> Seq<char>;

/// The unsigned big-endian integer that `b` spells.
pub open spec fn be_value(b: Seq<u8>) -> nat
    decreases b.len(),
{
    if b.len() == 0 {
        0
    } else {
        be_value(b.drop_last()) * 256 + b.last() as nat
    }
}

/// The order of the secp256k1 group.
pub open spec fn curve_order() -> nat {
    0xFFFFFFFFFFFFFFFFFFFFFFFFFFFFFFFEnat * 0x10000000000000000nat * 0x10000000000000000nat
        + 0xBAAEDCE6AF48A03BBFD25E8CD0364141nat
}

/// Whether 32 bytes are a secp256k1 private key: a big-endian scalar that
/// is neither zero nor at or above the group order.
pub open spec fn is_valid_secret(s: Seq<u8>) -> bool {
    s.len() == 32 && 0 < be_value(s) && be_value(s) < curve_order()
}

/// Relies on `LocalSigner::from_slice` (for 32 bytes, `SecretKey::from_bytes`,
/// which refuses a big-endian scalar that is zero or not below the group
/// order) and `LocalSigner::address` (20 bytes, derived from the key alone).
#[verifier::external_body]
fn address_from_secret(secret: &[u8]) -> (r: Option<Vec<u8>>)
    requires
        secret@.len() == 32,
    ensures
        r is Some <==> is_valid_secret(secret@),
        r matches Some(a) ==> a@.len() == 20 && a@ == address_of(secret@),
{
    match LocalSigner::<SigningKey>::from_slice(secret) {
        Ok(s) => Some(s.address().to_vec()),
        Err(_) => None,
    }
}

/// Relies on `Address::to_checksum` with no chain id: the EIP-55 text of the address.
#[verifier::external_body]
fn checksum_text(a: &[u8]) -> (r: String)
    requires
        a@.len() == 20,
    ensures
        r@ == checksum_of(a@),
{
    alloy::primitives::Address::from_slice(a).to_checksum(None)
}

/// The kinds of failure that the signer library reports for a keystore file.
#[derive(Debug, Clone, Copy, PartialEq, Eq, Structural)]
pub enum SignerFailure {
    /// The stored MAC does not match the one derived from the password.
    MacMismatch,
    /// Reading or writing the file failed.
    Io,
    /// The file is no valid keystore JSON.
    Json,
    /// The key-derivation parameters were refused.
    KdfParams,
    /// The cipher key or nonce had the wrong length.
    CipherParams,
    /// The decrypted bytes are no valid private key.
    InvalidKey,
    /// Hexadecimal text could not be decoded.
    Hex,
}

/// Relies on the variants of `LocalSignerError` and of `eth_keystore::KeystoreError`,
/// telling them apart one for one.
#[verifier::external_body]
fn signer_failure(e: &LocalSignerError) -> (r: SignerFailure) {
    match e {
        LocalSignerError::EthKeystoreError(EthKeystoreError::MacMismatch) => SignerFailure::MacMismatch,
        LocalSignerError::EthKeystoreError(EthKeystoreError::StdIo(_)) => SignerFailure::Io,
        LocalSignerError::EthKeystoreError(EthKeystoreError::SerdeJson(_)) => SignerFailure::Json,
        LocalSignerError::EthKeystoreError(EthKeystoreError::ScryptInvalidParams(_)) => SignerFailure::KdfParams,
        LocalSignerError::EthKeystoreError(EthKeystoreError::ScryptInvalidOuputLen(_)) => SignerFailure::KdfParams,
        LocalSignerError::EthKeystoreError(EthKeystoreError::AesInvalidKeyNonceLength(_)) => SignerFailure::CipherParams,
        LocalSignerError::EthKeystoreError(EthKeystoreError::K256Error(_)) => SignerFailure::InvalidKey,
        LocalSignerError::EcdsaError(_) => SignerFailure::InvalidKey,
        LocalSignerError::HexError(_) => SignerFailure::Hex,
        LocalSignerError::IoError(_) => SignerFailure::Io,
    }
}

/// The library's error for a failure of the signer library.
///
/// A MAC mismatch and an undecodable key both mean that the password is wrong
/// or the file was altered, and both become `IntegrityFailure`.
pub open spec fn failure_error_spec(f: SignerFailure) -> KeystoreError {
    match f {
        SignerFailure::MacMismatch | SignerFailure::InvalidKey => KeystoreError::IntegrityFailure,
        SignerFailure::Io => KeystoreError::Io,
        SignerFailure::Json | SignerFailure::Hex => KeystoreError::MalformedKeystore,
        SignerFailure::KdfParams | SignerFailure::CipherParams => KeystoreError::InvalidParameters,
    }
}

/// The library's error for a failure of the signer library.
pub fn failure_error(f: SignerFailure) -> (r: KeystoreError)
    ensures
        r == failure_error_spec(f),
{
    match f {
        SignerFailure::MacMismatch | SignerFailure::InvalidKey => KeystoreError::IntegrityFailure,
        SignerFailure::Io => KeystoreError::Io,
        SignerFailure::Json | SignerFailure::Hex => KeystoreError::MalformedKeystore,
        SignerFailure::KdfParams | SignerFailure::CipherParams => KeystoreError::InvalidParameters,
    }
}

/// The library's error for an error of the signer library: one of the kinds
/// that `failure_error` gives, never `AlreadyExists` or `NotFound`.
pub fn signer_error(e: &LocalSignerError) -> (r: KeystoreError)
    ensures
        exists|f: SignerFailure| r == failure_error_spec(f),
        r != KeystoreError::AlreadyExists && r != KeystoreError::NotFound,
{
    let f = signer_failure(e);
    failure_error(f)
}

/// The kind of an error of the signer library, or the key bytes unchanged.
pub fn classify_outcome(outcome: Result<Vec<u8>, LocalSignerError>) -> (r: Result<Vec<u8>, SignerFailure>)
    ensures
        outcome matches Ok(b) ==> r == Ok::<Vec<u8>, SignerFailure>(b),
        outcome is Err ==> r is Err,
{
    match outcome {
        Ok(b) => Ok(b),
        Err(e) => Err(signer_failure(&e)),
    }
}

/// The key pair of the key bytes that the signer library handed out, or the
/// error for its failure. Bytes that are no valid 32-byte key give
/// `IntegrityFailure`.
pub fn pair_from_outcome(outcome: Result<Vec<u8>, SignerFailure>) -> (r: Result<KeyPair, KeystoreError>)
    ensures
        outcome matches Err(f) ==> r == Err::<KeyPair, KeystoreError>(failure_error_spec(f)),
        outcome matches Ok(s) && s@.len() != 32 ==> r == Err::<KeyPair, KeystoreError>(KeystoreError::IntegrityFailure),
        r matches Ok(p) ==> outcome matches Ok(s) && p.wf() && p.secret_spec() == s@,
        outcome matches Ok(s) ==> (r is Ok <==> is_valid_secret(s@)),
        outcome is Ok ==> (r matches Err(e) ==> e == KeystoreError::IntegrityFailure),
{
    match outcome {
        Err(f) => Err(failure_error(f)),
        Ok(secret) => {
            if secret.len() != 32 {
                return Err(KeystoreError::IntegrityFailure);
            }
            match KeyPair::from_secret(secret) {
                Some(pair) => Ok(pair),
                None => Err(KeystoreError::IntegrityFailure),
            }
        },
    }
}

/// A private key with the address that belongs to it.
pub struct KeyPair {
    secret: Vec<u8>,
    address: Vec<u8>,
}

impl KeyPair {
    /// The 32-byte private key.
    pub closed spec fn secret_spec(&self) -> Seq<u8> {
        self.secret@
    }

    /// The 20-byte address.
    pub closed spec fn address_spec(&self) -> Seq<u8> {
        self.address@
    }

    /// The key is a valid secp256k1 key and the address is the one derived
    /// from it.
    pub open spec fn wf(&self) -> bool {
        &&& is_valid_secret(self.secret_spec())
        &&& self.secret_spec().len() == 32
        &&& self.address_spec().len() == 20
        &&& self.address_spec() == address_of(self.secret_spec())
    }

    /// The key pair of a 32-byte private key; `None` where the bytes are no
    /// valid secp256k1 scalar.
    pub fn from_secret(secret: Vec<u8>) -> (r: Option<KeyPair>)
        requires
            secret@.len() == 32,
        ensures
            r is Some <==> is_valid_secret(secret@),
            r matches Some(p) ==> p.wf() && p.secret_spec() == secret@,
    {
        match address_from_secret(secret.as_slice()) {
            Some(address) => Some(KeyPair { secret, address }),
            None => None,
        }
    }

    /// The raw private key.
    pub fn secret(&self) -> (r: Vec<u8>)
        ensures
            r@ == self.secret_spec(),
    {
        self.secret.clone()
    }

    /// The raw address.
    pub fn address(&self) -> (r: Vec<u8>)
        ensures
            r@ == self.address_spec(),
    {
        self.address.clone()
    }

    /// The private key as `0x` followed by lowercase hexadecimal.
    pub fn secret_text(&self) -> (r: Vec<u8>)
        ensures
            r@ == prefixed_hex(self.secret_spec()),
    {
        let mut r: Vec<u8> = vec![48u8, 120u8];
        let mut h = encode_hex(self.secret.as_slice());
        r.append(&mut h);
        r
    }

    /// The address in EIP-55 mixed-case form, `0x` included.
    pub fn address_text(&self) -> (r: String)
        requires
            self.wf(),
        ensures
            r@ == checksum_of(self.address_spec()),
    {
        checksum_text(self.address.as_slice())
    }

    /// The key pair itself where `stored` is absent or names its address;
    /// `IntegrityFailure` where the record names another address.
    pub fn check_address(self, stored: Option<Vec<u8>>) -> (r: Result<KeyPair, KeystoreError>)
        ensures
            match stored {
                None => r == Ok::<KeyPair, KeystoreError>(self),
                Some(a) => if a@ == self.address_spec() {
                    r == Ok::<KeyPair, KeystoreError>(self)
                } else {
                    r == Err::<KeyPair, KeystoreError>(KeystoreError::IntegrityFailure)
                },
            },
    {
        match stored {
            None => Ok(self),
            Some(a) => {
                if bytes_equal(a.as_slice(), self.address.as_slice()) {
                    Ok(self)
                } else {
                    Err(KeystoreError::IntegrityFailure)
                }
            },
        }
    }
}

/// `0x` followed by the lowercase hexadecimal text of `b`.
pub open spec fn prefixed_hex(b: Seq<u8>) -> Seq<u8> {
    seq![48u8, 120u8] + hex_of(b)
}

} // verus!

verus! {

/// A MAC mismatch (wrong password, or altered ciphertext or MAC) and
/// decrypted bytes that are no key are both reported as `IntegrityFailure`,
/// so a caller cannot tell a bad password from a corrupted file.
pub proof fn lemma_integrity_failure_uniform()
    ensures
        failure_error_spec(SignerFailure::MacMismatch) == KeystoreError::IntegrityFailure,
        failure_error_spec(SignerFailure::InvalidKey) == KeystoreError::IntegrityFailure,
{
}

} // verus!
