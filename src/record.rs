use vstd::prelude::*;
use serde_json::Value;
use crate::error::KeystoreError;
use crate::hex::{bytes_equal, bytes_of_hex, decode_hex, is_hex_text};

verus! {

/// The string at `path` (member names, from the top) in the JSON document
/// `text`, as bytes; `None` where the text is no JSON, a member on the path
/// is missing, or the value there is no string.
pub uninterp spec fn json_text_at(text: Seq<u8>, path: Seq<Seq<char>>) -> Option<Seq<u8>>;

/// The number at `path` in the JSON document `text`, where it is a `u64`.
pub uninterp spec fn json_u64_at(text: Seq<u8>, path: Seq<Seq<char>>) -> Option<u64>;

/// Whether the JSON document `text` holds an object at `path`.
pub uninterp spec fn json_object_at(text: Seq<u8>, path: Seq<Seq<char>>) -> bool;

/// Relies on `serde_json::from_slice`, `Value::get` and `Value::is_object`.
#[verifier::external_body]
fn json_object1(text: &[u8], k1: &str) -> (r: bool)
    ensures
        r == json_object_at(text@, seq![k1@]),
{
    match serde_json::from_slice::<Value>(text) {
        Ok(v) => match v.get(k1) {
            Some(x) => x.is_object(),
            None => false,
        },
        Err(_) => false,
    }
}

/// Relies on `serde_json::from_slice`, `Value::get` and `Value::is_object`.
#[verifier::external_body]
fn json_object2(text: &[u8], k1: &str, k2: &str) -> (r: bool)
    ensures
        r == json_object_at(text@, seq![k1@, k2@]),
{
    match serde_json::from_slice::<Value>(text) {
        Ok(v) => match v.get(k1).and_then(|x| x.get(k2)) {
            Some(x) => x.is_object(),
            None => false,
        },
        Err(_) => false,
    }
}

/// Relies on `serde_json::from_slice`, `Value::get` and `Value::as_str`.
#[verifier::external_body]
fn json_text1(text: &[u8], k1: &str) -> (r: Option<Vec<u8>>)
    ensures
        bytes_view(r) == json_text_at(text@, seq![k1@]),
{
    let v = serde_json::from_slice::<Value>(text).ok()?;
    Some(v.get(k1)?.as_str()?.as_bytes().to_vec())
}

/// Relies on `serde_json::from_slice`, `Value::get` and `Value::as_str`.
#[verifier::external_body]
fn json_text2(text: &[u8], k1: &str, k2: &str) -> (r: Option<Vec<u8>>)
    ensures
        bytes_view(r) == json_text_at(text@, seq![k1@, k2@]),
{
    let v = serde_json::from_slice::<Value>(text).ok()?;
    Some(v.get(k1)?.get(k2)?.as_str()?.as_bytes().to_vec())
}

/// Relies on `serde_json::from_slice`, `Value::get` and `Value::as_str`.
#[verifier::external_body]
fn json_text3(text: &[u8], k1: &str, k2: &str, k3: &str) -> (r: Option<Vec<u8>>)
    ensures
        bytes_view(r) == json_text_at(text@, seq![k1@, k2@, k3@]),
{
    let v = serde_json::from_slice::<Value>(text).ok()?;
    Some(v.get(k1)?.get(k2)?.get(k3)?.as_str()?.as_bytes().to_vec())
}

/// Relies on `serde_json::from_slice`, `Value::get` and `Value::as_u64`.
#[verifier::external_body]
fn json_u64_1(text: &[u8], k1: &str) -> (r: Option<u64>)
    ensures
        r == json_u64_at(text@, seq![k1@]),
{
    let v = serde_json::from_slice::<Value>(text).ok()?;
    v.get(k1)?.as_u64()
}

/// Relies on `serde_json::from_slice`, `Value::get` and `Value::as_u64`.
#[verifier::external_body]
fn json_u64_3(text: &[u8], k1: &str, k2: &str, k3: &str) -> (r: Option<u64>)
    ensures
        r == json_u64_at(text@, seq![k1@, k2@, k3@]),
{
    let v = serde_json::from_slice::<Value>(text).ok()?;
    v.get(k1)?.get(k2)?.get(k3)?.as_u64()
}

/// The bytes held, if any.
pub open spec fn bytes_view(o: Option<Vec<u8>>) -> Option<Seq<u8>> {
    match o {
        Some(v) => Some(v@),
        None => None,
    }
}

/// The fields of a keystore file as read from its JSON, before any check.
/// Texts are the bytes of JSON strings; a field that is absent, or of
/// another JSON type, is `None`.
pub struct RawRecord {
    pub version: Option<u64>,
    pub id: Option<Vec<u8>>,
    pub address: Option<Vec<u8>>,
    pub cipher: Option<Vec<u8>>,
    pub iv: Option<Vec<u8>>,
    pub ciphertext: Option<Vec<u8>>,
    pub mac: Option<Vec<u8>>,
    pub kdf: Option<Vec<u8>>,
    pub salt: Option<Vec<u8>>,
    pub dklen: Option<u64>,
    pub n: Option<u64>,
    pub r: Option<u64>,
    pub p: Option<u64>,
    pub c: Option<u64>,
    pub prf: Option<Vec<u8>>,
}

/// The key-derivation function of a record, with its cost parameters.
pub enum Kdf {
    /// scrypt with cost `n`, block size `r` and parallelism `p`.
    Scrypt { n: u64, r: u64, p: u64 },
    /// PBKDF2 with HMAC-SHA256 and `c` iterations.
    Pbkdf2 { c: u64 },
}

/// A checked keystore record (version 3, AES-128-CTR, 32-byte derived key).
pub struct KeystoreRecord {
    pub id: Vec<u8>,
    pub address: Vec<u8>,
    pub iv: Vec<u8>,
    pub ciphertext: Vec<u8>,
    pub mac: Vec<u8>,
    pub salt: Vec<u8>,
    pub kdf: Kdf,
}

/// The bytes of `aes-128-ctr`.
pub open spec fn aes_128_ctr() -> Seq<u8> {
    seq![97u8, 101u8, 115u8, 45u8, 49u8, 50u8, 56u8, 45u8, 99u8, 116u8, 114u8]
}

/// The bytes of `scrypt`.
pub open spec fn scrypt_name() -> Seq<u8> {
    seq![115u8, 99u8, 114u8, 121u8, 112u8, 116u8]
}

/// The bytes of `pbkdf2`.
pub open spec fn pbkdf2_name() -> Seq<u8> {
    seq![112u8, 98u8, 107u8, 100u8, 102u8, 50u8]
}

/// The bytes of `hmac-sha256`.
pub open spec fn hmac_sha256() -> Seq<u8> {
    seq![104u8, 109u8, 97u8, 99u8, 45u8, 115u8, 104u8, 97u8, 50u8, 53u8, 54u8]
}

/// `t` without a leading `0x`, if it has one.
pub open spec fn unprefixed(t: Seq<u8>) -> Seq<u8> {
    if t.len() >= 2 && t[0] == 48 && t[1] == 120 {
        t.subrange(2, t.len() as int)
    } else {
        t
    }
}

/// Whether `x` is present and below 2^32.
pub open spec fn fits_u32(x: Option<u64>) -> bool {
    x matches Some(v) && v <= 0xFFFF_FFFF
}

/// Whether `t` is present and holds exactly the bytes `s`.
pub open spec fn text_is(t: Option<Vec<u8>>, s: Seq<u8>) -> bool {
    t matches Some(v) && v@ == s
}

/// Whether `t` is present and is the hexadecimal text of `len` bytes.
pub open spec fn hex_of_len(t: Option<Vec<u8>>, len: nat) -> bool {
    t matches Some(v) && is_hex_text(v@) && v@.len() == 2 * len
}

/// Whether every field that the record needs is present and has its form:
/// version 3, AES-128-CTR with a 16-byte IV, a 32-byte ciphertext and MAC,
/// a 32-byte salt and derived key, a known KDF with all its parameters, an
/// identifier, and the 20-byte address, with or without `0x`. Cost
/// parameters are 32-bit numbers.
pub open spec fn well_formed(raw: RawRecord) -> bool {
    &&& raw.version == Some(3u64)
    &&& raw.id is Some
    &&& (raw.address matches Some(v) && is_hex_text(unprefixed(v@)) && unprefixed(v@).len() == 40)
    &&& text_is(raw.cipher, aes_128_ctr())
    &&& hex_of_len(raw.iv, 16)
    &&& hex_of_len(raw.ciphertext, 32)
    &&& hex_of_len(raw.mac, 32)
    &&& hex_of_len(raw.salt, 32)
    &&& raw.dklen == Some(32u64)
    &&& ((text_is(raw.kdf, scrypt_name()) && fits_u32(raw.n) && fits_u32(raw.r) && fits_u32(raw.p))
        || (text_is(raw.kdf, pbkdf2_name()) && fits_u32(raw.c) && text_is(raw.prf, hmac_sha256())))
}

/// Whether `n` is a power of two.
pub open spec fn is_pow2(n: nat) -> bool
    decreases n,
{
    if n <= 1 {
        n == 1
    } else {
        n % 2 == 0 && is_pow2(n / 2)
    }
}

/// Whether the cost parameters can be used: none is zero, and scrypt's cost
/// is a power of two, at least 2.
pub open spec fn usable_costs(raw: RawRecord) -> bool {
    if text_is(raw.kdf, scrypt_name()) {
        raw.n.unwrap() >= 2 && is_pow2(raw.n.unwrap() as nat) && raw.r.unwrap() >= 1 && raw.p.unwrap() >= 1
    } else {
        raw.c.unwrap() >= 1
    }
}

/// The lengths that a checked record has: a 16-byte IV, a 32-byte salt,
/// ciphertext and MAC, and a 20-byte address.
pub open spec fn record_wf(rec: KeystoreRecord) -> bool {
    &&& rec.iv@.len() == 16
    &&& rec.salt@.len() == 32
    &&& rec.ciphertext@.len() == 32
    &&& rec.mac@.len() == 32
    &&& rec.address@.len() == 20
}

/// The error that checking `raw` gives, if any.
pub open spec fn check_error(raw: RawRecord) -> Option<KeystoreError> {
    if !well_formed(raw) {
        Some(KeystoreError::MalformedKeystore)
    } else if !usable_costs(raw) {
        Some(KeystoreError::InvalidParameters)
    } else {
        None
    }
}

/// Whether `rec` holds the values that `raw` spells.
pub open spec fn record_matches(rec: KeystoreRecord, raw: RawRecord) -> bool {
    &&& rec.id@ == raw.id.unwrap()@
    &&& rec.address@ == bytes_of_hex(unprefixed(raw.address.unwrap()@))
    &&& rec.iv@ == bytes_of_hex(raw.iv.unwrap()@)
    &&& rec.ciphertext@ == bytes_of_hex(raw.ciphertext.unwrap()@)
    &&& rec.mac@ == bytes_of_hex(raw.mac.unwrap()@)
    &&& rec.salt@ == bytes_of_hex(raw.salt.unwrap()@)
    &&& (if text_is(raw.kdf, scrypt_name()) {
        rec.kdf == Kdf::Scrypt { n: raw.n.unwrap(), r: raw.r.unwrap(), p: raw.p.unwrap() }
    } else {
        rec.kdf == Kdf::Pbkdf2 { c: raw.c.unwrap() }
    })
}

fn strip_0x(v: &[u8]) -> (r: Vec<u8>)
    ensures
        r@ == unprefixed(v@),
{
    let start: usize = if v.len() >= 2 && v[0] == 48 && v[1] == 120 { 2 } else { 0 };
    let mut r: Vec<u8> = Vec::new();
    let mut i: usize = start;
    while i < v.len()
        invariant
            start <= i <= v@.len(),
            r@ == v@.subrange(start as int, i as int),
        decreases v@.len() - i,
    {
        r.push(v[i]);
        assert(v@.subrange(start as int, i + 1) =~= v@.subrange(start as int, i as int).push(v@[i as int]));
        i = i + 1;
    }
    assert(v@.subrange(0, v@.len() as int) =~= v@);
    r
}

fn power_of_two(n: u64) -> (r: bool)
    requires
        n >= 1,
    ensures
        r == is_pow2(n as nat),
{
    let mut m: u64 = n;
    while m > 1 && m % 2 == 0
        invariant
            m >= 1,
            is_pow2(m as nat) == is_pow2(n as nat),
        decreases m,
    {
        assert(is_pow2(m as nat) == is_pow2((m / 2) as nat));
        m = m / 2;
    }
    m == 1
}

fn text_equals(t: &Option<Vec<u8>>, s: &[u8]) -> (r: bool)
    ensures
        r == text_is(*t, s@),
{
    match t {
        Some(v) => bytes_equal(v.as_slice(), s),
        None => false,
    }
}

fn hex_field(t: &Option<Vec<u8>>, len: usize) -> (r: Option<Vec<u8>>)
    ensures
        r is Some == hex_of_len(*t, len as nat),
        r matches Some(b) ==> b@ == bytes_of_hex(t.unwrap()@),
{
    match t {
        Some(v) => {
            if v.len() / 2 != len || v.len() % 2 != 0 {
                return None;
            }
            decode_hex(v.as_slice())
        },
        None => None,
    }
}

/// Checks the fields of a keystore file and turns them into a record.
///
/// `MalformedKeystore` where a field is missing or out of form,
/// `InvalidParameters` where the cost parameters cannot be used.
pub fn check_record(raw: &RawRecord) -> (r: Result<KeystoreRecord, KeystoreError>)
    ensures
        match check_error(*raw) {
            Some(e) => r == Err::<KeystoreRecord, KeystoreError>(e),
            None => r matches Ok(rec) && record_matches(rec, *raw),
        },
        r matches Ok(rec) ==> record_wf(rec),
{
    let malformed = Err(KeystoreError::MalformedKeystore);
    match raw.version {
        Some(v) => {
            if v != 3 {
                return malformed;
            }
        },
        None => return malformed,
    }
    let id = match &raw.id {
        Some(t) => t.clone(),
        None => return malformed,
    };
    let address = match &raw.address {
        Some(v) => {
            let t = strip_0x(v.as_slice());
            if t.len() != 40 {
                return malformed;
            }
            match decode_hex(t.as_slice()) {
                Some(a) => a,
                None => return malformed,
            }
        },
        None => return malformed,
    };
    let aes: Vec<u8> = vec![97u8, 101u8, 115u8, 45u8, 49u8, 50u8, 56u8, 45u8, 99u8, 116u8, 114u8];
    assert(aes@ =~= aes_128_ctr());
    if !text_equals(&raw.cipher, aes.as_slice()) {
        return malformed;
    }
    let iv = match hex_field(&raw.iv, 16) {
        Some(b) => b,
        None => return malformed,
    };
    let ciphertext = match hex_field(&raw.ciphertext, 32) {
        Some(b) => b,
        None => return malformed,
    };
    let mac = match hex_field(&raw.mac, 32) {
        Some(b) => b,
        None => return malformed,
    };
    let salt = match hex_field(&raw.salt, 32) {
        Some(b) => b,
        None => return malformed,
    };
    match raw.dklen {
        Some(d) => {
            if d != 32 {
                return malformed;
            }
        },
        None => return malformed,
    }
    let scrypt: Vec<u8> = vec![115u8, 99u8, 114u8, 121u8, 112u8, 116u8];
    assert(scrypt@ =~= scrypt_name());
    let pbkdf2: Vec<u8> = vec![112u8, 98u8, 107u8, 100u8, 102u8, 50u8];
    assert(pbkdf2@ =~= pbkdf2_name());
    let hmac: Vec<u8> = vec![104u8, 109u8, 97u8, 99u8, 45u8, 115u8, 104u8, 97u8, 50u8, 53u8, 54u8];
    assert(hmac@ =~= hmac_sha256());
    let kdf = if text_equals(&raw.kdf, scrypt.as_slice()) {
        match (raw.n, raw.r, raw.p) {
            (Some(n), Some(r), Some(p)) => {
                if n > 0xFFFF_FFFF || r > 0xFFFF_FFFF || p > 0xFFFF_FFFF {
                    return malformed;
                }
                if n < 2 || !power_of_two(n) || r < 1 || p < 1 {
                    return Err(KeystoreError::InvalidParameters);
                }
                Kdf::Scrypt { n, r, p }
            },
            _ => return malformed,
        }
    } else if text_equals(&raw.kdf, pbkdf2.as_slice()) {
        match raw.c {
            Some(c) => {
                if c > 0xFFFF_FFFF || !text_equals(&raw.prf, hmac.as_slice()) {
                    return malformed;
                }
                if c < 1 {
                    return Err(KeystoreError::InvalidParameters);
                }
                Kdf::Pbkdf2 { c }
            },
            None => return malformed,
        }
    } else {
        return malformed;
    };
    Ok(KeystoreRecord { id, address, iv, ciphertext, mac, salt, kdf })
}

/// Whether `text` holds the objects `crypto`, `crypto.cipherparams` and
/// `crypto.kdfparams` that every keystore file has.
pub open spec fn has_sections(text: Seq<u8>) -> bool {
    &&& json_object_at(text, seq!["crypto"@])
    &&& json_object_at(text, seq!["crypto"@, "cipherparams"@])
    &&& json_object_at(text, seq!["crypto"@, "kdfparams"@])
}

/// Whether each field of `raw` is what `text` holds at its place.
pub open spec fn fields_at(text: Seq<u8>, raw: RawRecord) -> bool {
    &&& raw.version == json_u64_at(text, seq!["version"@])
    &&& bytes_view(raw.id) == json_text_at(text, seq!["id"@])
    &&& bytes_view(raw.address) == json_text_at(text, seq!["address"@])
    &&& bytes_view(raw.cipher) == json_text_at(text, seq!["crypto"@, "cipher"@])
    &&& bytes_view(raw.iv) == json_text_at(text, seq!["crypto"@, "cipherparams"@, "iv"@])
    &&& bytes_view(raw.ciphertext) == json_text_at(text, seq!["crypto"@, "ciphertext"@])
    &&& bytes_view(raw.mac) == json_text_at(text, seq!["crypto"@, "mac"@])
    &&& bytes_view(raw.kdf) == json_text_at(text, seq!["crypto"@, "kdf"@])
    &&& bytes_view(raw.salt) == json_text_at(text, seq!["crypto"@, "kdfparams"@, "salt"@])
    &&& raw.dklen == json_u64_at(text, seq!["crypto"@, "kdfparams"@, "dklen"@])
    &&& raw.n == json_u64_at(text, seq!["crypto"@, "kdfparams"@, "n"@])
    &&& raw.r == json_u64_at(text, seq!["crypto"@, "kdfparams"@, "r"@])
    &&& raw.p == json_u64_at(text, seq!["crypto"@, "kdfparams"@, "p"@])
    &&& raw.c == json_u64_at(text, seq!["crypto"@, "kdfparams"@, "c"@])
    &&& bytes_view(raw.prf) == json_text_at(text, seq!["crypto"@, "kdfparams"@, "prf"@])
}

/// Reads the fields of a keystore file from its JSON text; `None` exactly
/// where the text lacks the `crypto`, `cipherparams` or `kdfparams` objects.
/// Unknown members are ignored.
pub fn read_fields(text: &[u8]) -> (r: Option<RawRecord>)
    ensures
        r is Some <==> has_sections(text@),
        r matches Some(raw) ==> fields_at(text@, raw),
{
    if !json_object1(text, "crypto") || !json_object2(text, "crypto", "cipherparams")
        || !json_object2(text, "crypto", "kdfparams") {
        return None;
    }
    Some(RawRecord {
        version: json_u64_1(text, "version"),
        id: json_text1(text, "id"),
        address: json_text1(text, "address"),
        cipher: json_text2(text, "crypto", "cipher"),
        iv: json_text3(text, "crypto", "cipherparams", "iv"),
        ciphertext: json_text2(text, "crypto", "ciphertext"),
        mac: json_text2(text, "crypto", "mac"),
        kdf: json_text2(text, "crypto", "kdf"),
        salt: json_text3(text, "crypto", "kdfparams", "salt"),
        dklen: json_u64_3(text, "crypto", "kdfparams", "dklen"),
        n: json_u64_3(text, "crypto", "kdfparams", "n"),
        r: json_u64_3(text, "crypto", "kdfparams", "r"),
        p: json_u64_3(text, "crypto", "kdfparams", "p"),
        c: json_u64_3(text, "crypto", "kdfparams", "c"),
        prf: json_text3(text, "crypto", "kdfparams", "prf"),
    })
}

/// Whether `r` is what checking `raw` gives.
pub open spec fn checked_as(raw: RawRecord, r: Result<KeystoreRecord, KeystoreError>) -> bool {
    match check_error(raw) {
        Some(e) => r == Err::<KeystoreRecord, KeystoreError>(e),
        None => r matches Ok(rec) && record_matches(rec, raw),
    }
}

/// Whether `r` is what decoding the text `text` gives: `MalformedKeystore`
/// where the text lacks the keystore's objects, else the result of checking
/// the fields that it holds.
pub open spec fn decoded_as(text: Seq<u8>, r: Result<KeystoreRecord, KeystoreError>) -> bool {
    &&& !has_sections(text) ==> r == Err::<KeystoreRecord, KeystoreError>(KeystoreError::MalformedKeystore)
    &&& forall|raw: RawRecord| #[trigger] fields_at(text, raw) ==> has_sections(text) ==> checked_as(raw, r)
    &&& r matches Ok(rec) ==> record_wf(rec)
}

/// Two field sets that hold the same values are checked alike.
proof fn lemma_same_fields(text: Seq<u8>, a: RawRecord, b: RawRecord, r: Result<KeystoreRecord, KeystoreError>)
    requires
        fields_at(text, a),
        fields_at(text, b),
        checked_as(a, r),
    ensures
        checked_as(b, r),
{
    assert(check_error(a) == check_error(b));
    if let Ok(rec) = r {
        if check_error(a) is None {
            assert(record_matches(rec, b));
        }
    }
}

/// Decodes and checks the text of a keystore file.
pub fn decode_record(text: &[u8]) -> (r: Result<KeystoreRecord, KeystoreError>)
    ensures
        decoded_as(text@, r),
        r matches Err(e) ==> e == KeystoreError::MalformedKeystore || e == KeystoreError::InvalidParameters,
{
    match read_fields(text) {
        Some(raw) => {
            let r = check_record(&raw);
            assert forall|b: RawRecord| #[trigger] fields_at(text@, b) implies has_sections(text@) ==> checked_as(b, r) by {
                lemma_same_fields(text@, raw, b, r);
            }
            r
        },
        None => Err(KeystoreError::MalformedKeystore),
    }
}

} // verus!

verus! {

/// A record without its version, identifier, address, cipher, IV, ciphertext, MAC,
/// KDF name, salt or derived-key length, or with an IV, salt, ciphertext or
/// MAC of the wrong length, is refused as malformed, never filled in with a
/// default.
pub proof fn lemma_missing_field_is_malformed(raw: RawRecord)
    requires
        raw.version is None || raw.id is None || raw.address is None || raw.cipher is None || raw.iv is None
            || raw.ciphertext is None || raw.mac is None || raw.kdf is None || raw.salt is None
            || raw.dklen is None
            || (raw.iv matches Some(t) && t@.len() != 32)
            || (raw.salt matches Some(t) && t@.len() != 64)
            || (raw.ciphertext matches Some(t) && t@.len() != 64)
            || (raw.mac matches Some(t) && t@.len() != 64),
    ensures
        check_error(raw) == Some(KeystoreError::MalformedKeystore),
{
}

} // verus!
