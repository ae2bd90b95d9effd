use config_updater::crypto::PublicKey;
use config_updater::errors::DecodeError;
use config_updater::errors::ExecutionError;
use config_updater::schema::StoredConfiguration;
use config_updater::tx::RawTransaction;
use config_updater::tx::TxConfig;
use config_updater::wire;

fn sample_key_bytes() -> Vec<u8> {
    (0u8..32u8).collect()
}

#[test]
fn u16_le_exact_bytes() {
    let mut out: Vec<u8> = Vec::new();
    wire::encode_u16_le(0x0102, &mut out);
    assert_eq!(out, vec![0x02, 0x01]);
    assert_eq!(wire::decode_u16_le(&out, 0), 0x0102);
}

#[test]
fn u32_le_exact_bytes() {
    let mut out: Vec<u8> = Vec::new();
    wire::encode_u32_le(0xDEAD_BEEF, &mut out);
    assert_eq!(out, vec![0xEF, 0xBE, 0xAD, 0xDE]);
    assert_eq!(wire::decode_u32_le(&out, 0), 0xDEAD_BEEF);
}

#[test]
fn u64_le_exact_bytes() {
    let mut out: Vec<u8> = Vec::new();
    wire::encode_u64_le(0x0102_0304_0506_0708, &mut out);
    assert_eq!(out, vec![0x08, 0x07, 0x06, 0x05, 0x04, 0x03, 0x02, 0x01]);
    assert_eq!(wire::decode_u64_le(&out, 0), 0x0102_0304_0506_0708);
}

#[test]
fn tx_config_payload_exact_bytes() {
    let from = PublicKey::new(sample_key_bytes()).unwrap();
    let tx = TxConfig::new(from, vec![0xAA, 0xBB], 0x0102_0304_0506_0708);
    let payload = tx.encode();
    let mut expected = sample_key_bytes();
    expected.extend_from_slice(&[0x02, 0x00, 0x00, 0x00]);
    expected.extend_from_slice(&[0xAA, 0xBB]);
    expected.extend_from_slice(&[0x08, 0x07, 0x06, 0x05, 0x04, 0x03, 0x02, 0x01]);
    assert_eq!(payload, expected);
}

#[test]
fn tx_config_round_trip() {
    let from = PublicKey::new(sample_key_bytes()).unwrap();
    let config = vec![9, 8, 7, 6, 5];
    let tx = TxConfig::new(from, config.clone(), 77);
    let payload = tx.encode();
    let decoded = TxConfig::decode(&payload).unwrap();
    assert_eq!(decoded.from.bytes, sample_key_bytes());
    assert_eq!(decoded.config, config);
    assert_eq!(decoded.actual_from, 77);
}

#[test]
fn tx_config_round_trip_empty_config() {
    let from = PublicKey::new(vec![7u8; 32]).unwrap();
    let tx = TxConfig::new(from, Vec::new(), 0);
    let decoded = TxConfig::decode(&tx.encode()).unwrap();
    assert_eq!(decoded.from.bytes, vec![7u8; 32]);
    assert_eq!(decoded.config, Vec::<u8>::new());
    assert_eq!(decoded.actual_from, 0);
}

#[test]
fn tx_config_decode_rejects_short_and_trailing() {
    assert!(matches!(
        TxConfig::decode(&vec![0u8; 43]),
        Err(DecodeError::MalformedPayload)
    ));
    let from = PublicKey::new(sample_key_bytes()).unwrap();
    let mut payload = TxConfig::new(from, vec![1, 2, 3], 5).encode();
    payload.push(0);
    assert!(matches!(
        TxConfig::decode(&payload),
        Err(DecodeError::MalformedPayload)
    ));
}

#[test]
fn raw_transaction_round_trip() {
    let raw = RawTransaction { service_id: 1, message_id: 0, payload: vec![1, 2, 3] };
    let bytes = raw.encode();
    assert_eq!(bytes, vec![0x01, 0x00, 0x00, 0x00, 1, 2, 3]);
    let decoded = RawTransaction::decode(&bytes).unwrap();
    assert_eq!(decoded.service_id, 1);
    assert_eq!(decoded.message_id, 0);
    assert_eq!(decoded.payload, vec![1, 2, 3]);
}

#[test]
fn raw_transaction_decode_rejects_short() {
    assert!(matches!(
        RawTransaction::decode(&vec![0u8; 3]),
        Err(DecodeError::MalformedPayload)
    ));
}

#[test]
fn stored_configuration_round_trip() {
    let doc = StoredConfiguration { content: vec![10, 20, 30] };
    let bytes = doc.serialize();
    assert_eq!(bytes, vec![0x03, 0x00, 0x00, 0x00, 10, 20, 30]);
    let parsed = StoredConfiguration::try_deserialize(&bytes).unwrap();
    assert_eq!(parsed.content, vec![10, 20, 30]);
}

#[test]
fn stored_configuration_rejects_bad_length_prefix() {
    assert!(matches!(
        StoredConfiguration::try_deserialize(&vec![1, 2, 3]),
        Err(ExecutionError::MalformedConfig)
    ));
    assert!(matches!(
        StoredConfiguration::try_deserialize(&vec![0x05, 0x00, 0x00, 0x00, 1]),
        Err(ExecutionError::MalformedConfig)
    ));
}

#[test]
fn public_key_new_checks_length() {
    assert!(PublicKey::new(vec![0u8; 32]).is_some());
    assert!(PublicKey::new(vec![0u8; 31]).is_none());
    assert!(PublicKey::new(vec![0u8; 33]).is_none());
}
