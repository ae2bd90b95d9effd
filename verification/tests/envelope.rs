use config_updater::crypto::SecretKey;
use config_updater::crypto::public_key_of;
use config_updater::errors::VerificationError;
use config_updater::messages;
use config_updater::tx::TxConfig;

fn signer() -> SecretKey {
    SecretKey::new(vec![42u8; 32]).unwrap()
}

fn signed_envelope_bytes() -> Vec<u8> {
    let sk = signer();
    let pk = public_key_of(&sk);
    let m = TxConfig::create_signed(&pk, &vec![1, 2, 3, 4], 100, &sk);
    m.encode()
}

#[test]
fn correctly_signed_message_passes() {
    let bytes = signed_envelope_bytes();
    let m = messages::verify(&bytes).unwrap();
    assert_eq!(m.author.bytes, public_key_of(&signer()).bytes);
    assert_eq!(m.raw.service_id, 1);
    assert_eq!(m.raw.message_id, 0);
}

#[test]
fn mutated_author_fails_verification() {
    let mut bytes = signed_envelope_bytes();
    bytes[0] ^= 0x01;
    assert!(matches!(
        messages::verify(&bytes),
        Err(VerificationError::BadSignature)
    ));
}

#[test]
fn mutated_signature_fails_verification() {
    let mut bytes = signed_envelope_bytes();
    bytes[40] ^= 0x01;
    assert!(matches!(
        messages::verify(&bytes),
        Err(VerificationError::BadSignature)
    ));
}

#[test]
fn mutated_payload_fails_verification() {
    let mut bytes = signed_envelope_bytes();
    let last = bytes.len() - 1;
    bytes[last] ^= 0x01;
    assert!(matches!(
        messages::verify(&bytes),
        Err(VerificationError::BadSignature)
    ));
}

#[test]
fn wrong_author_fails_verification() {
    let sk = signer();
    let other = public_key_of(&SecretKey::new(vec![7u8; 32]).unwrap());
    let m = TxConfig::create_signed(&other, &vec![1, 2, 3, 4], 100, &sk);
    assert!(matches!(
        messages::verify(&m.encode()),
        Err(VerificationError::BadSignature)
    ));
}

#[test]
fn short_envelope_is_rejected() {
    assert!(matches!(
        messages::verify(&vec![0u8; 99]),
        Err(VerificationError::TooShort)
    ));
}
