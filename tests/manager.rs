use ki::create::{CreateAction, CreateEvent, CreateFlow, CreatePhase};
use ki::error::KeystoreError;
use ki::hex::decode_hex;
use ki::keystore::{export_line, Keystore, PasswordStep};
use ki::load::{finish_load, open_record};
use ki::record::{check_record, RawRecord};
use alloy::signers::local::LocalSignerError;
use ki::signer::{classify_outcome, failure_error, pair_from_outcome, signer_error, KeyPair, SignerFailure};

fn key_one() -> Vec<u8> {
    let mut k = vec![0u8; 32];
    k[31] = 1;
    k
}

fn keystore(password: Option<&str>) -> Keystore {
    Keystore { name: "dev".to_string(), password: password.map(|p| p.to_string()), path: "./wallets".to_string() }
}

fn record_with_address(address: Option<&str>) -> ki::record::KeystoreRecord {
    let t = |s: &str| Some(s.as_bytes().to_vec());
    let raw = RawRecord {
        version: Some(3),
        id: t("id"),
        address: address.and_then(t),
        cipher: t("aes-128-ctr"),
        iv: t("76f07196b3c94f25b8f34d869493f640"),
        ciphertext: t("4f784cd629a7caf34b488e36fb96aad8a8f943a6ce31c7deab950c5e3a5b1c43"),
        mac: t("5b5433575a2418c1c813337a88b4099baa2f534e5dabeba86979d538c1f594d8"),
        kdf: t("scrypt"),
        salt: t("1e7be4ce8351dd1710b0885438414b1748a81f1af510eda11e4d1f99c8d43975"),
        dklen: Some(32),
        n: Some(8192),
        r: Some(8),
        p: Some(1),
        c: None,
        prf: None,
    };
    check_record(&raw).ok().unwrap()
}

#[test]
fn given_password_is_used() {
    match keystore(Some("hunter2")).password(true) {
        PasswordStep::Use(p) => assert_eq!(p, "hunter2"),
        other => panic!("unexpected {:?}", other),
    }
}

#[test]
fn missing_password_is_prompted() {
    assert!(matches!(keystore(None).password(true), PasswordStep::Prompt { confirm: true }));
    assert!(matches!(keystore(None).password(false), PasswordStep::Prompt { confirm: false }));
}

#[test]
fn wallet_file_is_name_under_directory() {
    let k = keystore(None);
    assert_eq!(k.file_path(), "./wallets/dev");
    assert_eq!(k.temp_name(), ".dev.partial");
    assert_eq!(k.temp_path(), "./wallets/.dev.partial");
    let slash = Keystore { name: "dev".to_string(), password: None, path: "/tmp/".to_string() };
    assert_eq!(slash.file_path(), "/tmp/dev");
    let absolute = Keystore { name: "/etc/dev".to_string(), password: None, path: "w".to_string() };
    assert_eq!(absolute.file_path(), "/etc/dev");
    let empty = Keystore { name: "dev".to_string(), password: None, path: "".to_string() };
    assert_eq!(empty.file_path(), "dev");
}

#[test]
fn key_one_has_its_known_address() {
    let pair = KeyPair::from_secret(key_one()).unwrap();
    assert_eq!(pair.address(), decode_hex(b"7e5f4552091a69125d5dfcb7b8c2659029395bdf").unwrap());
    assert_eq!(pair.address_text(), "0x7E5F4552091A69125d5DfCb7b8C2659029395Bdf");
    assert_eq!(pair.secret(), key_one());
}

#[test]
fn zero_is_no_key() {
    assert!(KeyPair::from_secret(vec![0u8; 32]).is_none());
    assert!(KeyPair::from_secret(vec![0xffu8; 32]).is_none());
}

#[test]
fn secret_text_is_prefixed_hex() {
    let pair = KeyPair::from_secret(key_one()).unwrap();
    assert_eq!(
        String::from_utf8(pair.secret_text()).unwrap(),
        "0x0000000000000000000000000000000000000000000000000000000000000001"
    );
}

#[test]
fn fish_gets_set_syntax() {
    let pair = KeyPair::from_secret(key_one()).unwrap();
    let line = String::from_utf8(export_line(b"/usr/bin/fish", &pair)).unwrap();
    assert_eq!(line, "set PRIVATE_KEY 0x0000000000000000000000000000000000000000000000000000000000000001");
}

#[test]
fn other_shells_get_assignment_syntax() {
    let pair = KeyPair::from_secret(key_one()).unwrap();
    let line = String::from_utf8(export_line(b"/bin/bash", &pair)).unwrap();
    assert_eq!(line, "PRIVATE_KEY=0x0000000000000000000000000000000000000000000000000000000000000001");
    let line = String::from_utf8(export_line(b"fis", &pair)).unwrap();
    assert_eq!(line, "PRIVATE_KEY=0x0000000000000000000000000000000000000000000000000000000000000001");
}

#[test]
fn check_address_accepts_match_and_refuses_other() {
    let pair = KeyPair::from_secret(key_one()).unwrap();
    let a = pair.address();
    assert!(pair.check_address(Some(a)).is_ok());
    let pair = KeyPair::from_secret(key_one()).unwrap();
    assert!(matches!(pair.check_address(Some(vec![0u8; 20])), Err(KeystoreError::IntegrityFailure)));
    let pair = KeyPair::from_secret(key_one()).unwrap();
    assert!(pair.check_address(None).is_ok());
}

#[test]
fn create_on_free_path_writes_then_publishes() {
    let mut f = CreateFlow::new();
    assert!(matches!(f.step(CreateEvent::Begin), CreateAction::CheckTarget));
    assert!(matches!(f.step(CreateEvent::TargetChecked { exists: false }), CreateAction::WriteTemp));
    assert!(matches!(f.step(CreateEvent::Completed(Ok(()))), CreateAction::Publish));
    assert!(matches!(f.step(CreateEvent::Completed(Ok(()))), CreateAction::Finish(Ok(()))));
    assert!(matches!(f.phase, CreatePhase::Done(Ok(()))));
    assert!(!f.accepts(&CreateEvent::Begin));
}

#[test]
fn create_on_taken_path_is_already_exists() {
    let mut f = CreateFlow::new();
    f.step(CreateEvent::Begin);
    assert!(matches!(
        f.step(CreateEvent::TargetChecked { exists: true }),
        CreateAction::Finish(Err(KeystoreError::AlreadyExists))
    ));
    assert!(!f.accepts(&CreateEvent::Completed(Ok(()))));
}

#[test]
fn failed_write_removes_temp_file() {
    let mut f = CreateFlow::new();
    f.step(CreateEvent::Begin);
    f.step(CreateEvent::TargetChecked { exists: false });
    assert!(matches!(f.step(CreateEvent::Completed(Err(KeystoreError::Io))), CreateAction::RemoveTemp));
    assert!(matches!(f.step(CreateEvent::Completed(Ok(()))), CreateAction::Finish(Err(KeystoreError::Io))));
}

#[test]
fn failed_publish_removes_temp_file() {
    let mut f = CreateFlow::new();
    f.step(CreateEvent::Begin);
    f.step(CreateEvent::TargetChecked { exists: false });
    f.step(CreateEvent::Completed(Ok(())));
    assert!(matches!(
        f.step(CreateEvent::Completed(Err(KeystoreError::AlreadyExists))),
        CreateAction::RemoveTemp
    ));
    assert!(matches!(
        f.step(CreateEvent::Completed(Err(KeystoreError::Io))),
        CreateAction::Finish(Err(KeystoreError::AlreadyExists))
    ));
}

#[test]
fn flow_accepts_only_the_awaited_event() {
    let f = CreateFlow::new();
    assert!(f.accepts(&CreateEvent::Begin));
    assert!(!f.accepts(&CreateEvent::TargetChecked { exists: false }));
}

#[test]
fn failures_map_to_errors() {
    assert_eq!(failure_error(SignerFailure::MacMismatch), KeystoreError::IntegrityFailure);
    assert_eq!(failure_error(SignerFailure::InvalidKey), KeystoreError::IntegrityFailure);
    assert_eq!(failure_error(SignerFailure::Io), KeystoreError::Io);
    assert_eq!(failure_error(SignerFailure::Json), KeystoreError::MalformedKeystore);
    assert_eq!(failure_error(SignerFailure::Hex), KeystoreError::MalformedKeystore);
    assert_eq!(failure_error(SignerFailure::KdfParams), KeystoreError::InvalidParameters);
    assert_eq!(failure_error(SignerFailure::CipherParams), KeystoreError::InvalidParameters);
}

#[test]
fn absent_file_is_not_found() {
    assert!(matches!(open_record(false, None), Err(KeystoreError::NotFound)));
    assert!(matches!(open_record(true, None), Err(KeystoreError::Io)));
    assert!(matches!(open_record(true, Some(b"{".to_vec())), Err(KeystoreError::MalformedKeystore)));
}

#[test]
fn mac_mismatch_gives_no_key() {
    let rec = record_with_address(Some("7e5f4552091a69125d5dfcb7b8c2659029395bdf"));
    assert!(matches!(finish_load(&rec, Err(SignerFailure::MacMismatch)), Err(KeystoreError::IntegrityFailure)));
}

#[test]
fn short_key_is_integrity_failure() {
    let rec = record_with_address(Some("7e5f4552091a69125d5dfcb7b8c2659029395bdf"));
    assert!(matches!(finish_load(&rec, Ok(vec![1u8; 31])), Err(KeystoreError::IntegrityFailure)));
    assert!(matches!(finish_load(&rec, Ok(vec![0u8; 32])), Err(KeystoreError::IntegrityFailure)));
}

#[test]
fn stored_address_must_match() {
    let rec = record_with_address(Some("7e5f4552091a69125d5dfcb7b8c2659029395bdf"));
    let pair = finish_load(&rec, Ok(key_one())).ok().unwrap();
    assert_eq!(pair.secret(), key_one());
    let rec = record_with_address(Some("00000398232e2064f896018496b4b44b3d62751f"));
    assert!(matches!(finish_load(&rec, Ok(key_one())), Err(KeystoreError::IntegrityFailure)));
}

#[test]
fn signer_errors_map_by_kind() {
    let mac = LocalSignerError::EthKeystoreError(eth_keystore::KeystoreError::MacMismatch);
    assert_eq!(signer_error(&mac), KeystoreError::IntegrityFailure);
    let json = LocalSignerError::EthKeystoreError(eth_keystore::KeystoreError::SerdeJson("eof".to_string()));
    assert_eq!(signer_error(&json), KeystoreError::MalformedKeystore);
    let io = LocalSignerError::EthKeystoreError(eth_keystore::KeystoreError::StdIo("disk full".to_string()));
    assert_eq!(signer_error(&io), KeystoreError::Io);
    let key = LocalSignerError::EcdsaError(alloy::signers::k256::ecdsa::Error::new());
    assert_eq!(signer_error(&key), KeystoreError::IntegrityFailure);
}

#[test]
fn decryption_outcome_becomes_key_or_error() {
    let ok: Result<Vec<u8>, LocalSignerError> = Ok(key_one());
    let pair = pair_from_outcome(classify_outcome(ok)).ok().unwrap();
    assert_eq!(pair.secret(), key_one());
    let bad: Result<Vec<u8>, LocalSignerError> =
        Err(LocalSignerError::EthKeystoreError(eth_keystore::KeystoreError::MacMismatch));
    assert!(matches!(classify_outcome(bad), Err(SignerFailure::MacMismatch)));
    assert!(matches!(pair_from_outcome(Err(SignerFailure::Json)), Err(KeystoreError::MalformedKeystore)));
    assert!(matches!(pair_from_outcome(Ok(vec![7u8; 20])), Err(KeystoreError::IntegrityFailure)));
}

#[test]
fn keys_up_to_the_group_order_are_valid() {
    let order = decode_hex(b"fffffffffffffffffffffffffffffffebaaedce6af48a03bbfd25e8cd0364141").unwrap();
    assert!(KeyPair::from_secret(order.clone()).is_none());
    let mut below = order;
    below[31] -= 1;
    let pair = KeyPair::from_secret(below.clone()).unwrap();
    assert_eq!(pair.secret(), below);
    assert_eq!(pair.address().len(), 20);
}
