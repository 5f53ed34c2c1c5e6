use vstd::prelude::*;
use crate::error::KeystoreError;
use crate::record::{decode_record, decoded_as, record_wf, KeystoreRecord};
use crate::signer::{address_of, failure_error_spec, is_valid_secret, pair_from_outcome, KeyPair, SignerFailure};

verus! {

/// The record of a wallet file: `NotFound` where no file is present, `Io`
/// where it could not be read (`contents` is `None`), else the result of
/// decoding and checking what was read.
pub fn open_record(exists: bool, contents: Option<Vec<u8>>) -> (r: Result<KeystoreRecord, KeystoreError>)
    ensures
        !exists ==> r == Err::<KeystoreRecord, KeystoreError>(KeystoreError::NotFound),
        exists && contents is None ==> r == Err::<KeystoreRecord, KeystoreError>(KeystoreError::Io),
        exists ==> r != Err::<KeystoreRecord, KeystoreError>(KeystoreError::NotFound),
        exists ==> (contents matches Some(t) ==> decoded_as(t@, r)),
        r matches Err(e) ==> e == KeystoreError::NotFound || e == KeystoreError::Io
            || e == KeystoreError::MalformedKeystore || e == KeystoreError::InvalidParameters,
        r matches Ok(rec) ==> record_wf(rec),
{
    if !exists {
        return Err(KeystoreError::NotFound);
    }
    match contents {
        Some(text) => decode_record(text.as_slice()),
        None => Err(KeystoreError::Io),
    }
}

/// Whether a load of `rec` accepts the decrypted key bytes `s`: they are a
/// valid key, and the record stores that key's address.
pub open spec fn load_accepts(rec: KeystoreRecord, s: Seq<u8>) -> bool {
    is_valid_secret(s) && rec.address@ == address_of(s)
}

/// A wallet loads back as it was made: where decryption gives back the key
/// of the pair made at creation, and the record stores that pair's address, the load accepts the key, and the pair it returns has the
/// same key and address as the one made.
pub proof fn lemma_round_trip(made: KeyPair, rec: KeystoreRecord, loaded: KeyPair)
    requires
        made.wf(),
        rec.address@ == made.address_spec(),
        loaded.wf(),
        loaded.secret_spec() == made.secret_spec(),
    ensures
        load_accepts(rec, made.secret_spec()),
        loaded.address_spec() == made.address_spec(),
{
}

/// Turns the outcome of decrypting the wallet file of `rec` into the key
/// pair, or the error reported for it.
///
/// A failure of the decryption is reported as `failure_error` says, so a MAC
/// mismatch gives `IntegrityFailure` and no key. Decrypted bytes that are no
/// valid key, or whose address is not the one the record stores, also give
/// `IntegrityFailure`.
pub fn finish_load(rec: &KeystoreRecord, decrypted: Result<Vec<u8>, SignerFailure>) -> (r: Result<KeyPair, KeystoreError>)
    ensures
        decrypted matches Err(f) ==> r == Err::<KeyPair, KeystoreError>(failure_error_spec(f)),
        decrypted matches Ok(s) && s@.len() != 32 ==> r == Err::<KeyPair, KeystoreError>(KeystoreError::IntegrityFailure),
        r matches Ok(p) ==> decrypted matches Ok(s) && p.wf() && p.secret_spec() == s@ && rec.address@ == p.address_spec(),
        decrypted is Ok ==> (r matches Err(e) ==> e == KeystoreError::IntegrityFailure),
        decrypted matches Ok(s) ==> (r is Ok <==> load_accepts(*rec, s@)),
{
    match pair_from_outcome(decrypted) {
        Ok(pair) => {
            pair.check_address(Some(rec.address.clone()))
        },
        Err(e) => Err(e),
    }
}

} // verus!
