use config_updater::crypto::PublicKey;
use config_updater::crypto::SecretKey;
use config_updater::crypto::public_key_of;
use config_updater::errors::DecodeError;
use config_updater::errors::ExecutionError;
use config_updater::errors::RegistrationError;
use config_updater::messages;
use config_updater::registry::ServiceKind;
use config_updater::registry::ServiceRegistry;
use config_updater::schema::Schema;
use config_updater::schema::StoredConfiguration;
use config_updater::service::ConfigUpdateService;
use config_updater::service::ConfigUpdaterTransactions;
use config_updater::store::Fork;
use config_updater::tx::RawTransaction;
use config_updater::tx::TxConfig;

use sha2::Digest;

fn sample_key() -> PublicKey {
    PublicKey::new(vec![5u8; 32]).unwrap()
}

fn serialized_doc(content: &[u8]) -> Vec<u8> {
    StoredConfiguration { content: content.to_vec() }.serialize()
}

fn sha256(bytes: &[u8]) -> Vec<u8> {
    sha2::Sha256::digest(bytes).to_vec()
}

fn config_registry() -> ServiceRegistry {
    let mut registry = ServiceRegistry::new();
    registry
        .register(ServiceKind::ConfigUpdate(ConfigUpdateService::new()))
        .unwrap();
    registry
}

#[test]
fn service_metadata() {
    let svc = ConfigUpdateService::new();
    assert_eq!(svc.service_name(), "sandbox_config_updater");
    assert_eq!(svc.service_id(), 1);
    let fork = Fork::new();
    assert!(svc.state_hash(&fork.snapshot()).is_empty());
}

#[test]
fn dispatch_decodes_tx_config() {
    let registry = config_registry();
    let tx = TxConfig::new(sample_key(), vec![1, 2, 3], 55);
    let raw = RawTransaction { service_id: 1, message_id: 0, payload: tx.encode() };
    match registry.dispatch(raw) {
        Ok(ConfigUpdaterTransactions::TxConfig(decoded)) => {
            assert_eq!(decoded.from.bytes, vec![5u8; 32]);
            assert_eq!(decoded.config, vec![1, 2, 3]);
            assert_eq!(decoded.actual_from, 55);
        }
        other => panic!("expected a decoded TxConfig, got {:?}", other),
    }
}

#[test]
fn dispatch_rejects_unknown_message_id() {
    let registry = config_registry();
    let tx = TxConfig::new(sample_key(), vec![1, 2, 3], 55);
    let raw = RawTransaction { service_id: 1, message_id: 9, payload: tx.encode() };
    assert!(matches!(
        registry.dispatch(raw),
        Err(DecodeError::UnknownMessageId)
    ));
}

#[test]
fn dispatch_rejects_unknown_service_id() {
    let registry = config_registry();
    let tx = TxConfig::new(sample_key(), vec![1, 2, 3], 55);
    let raw = RawTransaction { service_id: 7, message_id: 0, payload: tx.encode() };
    assert!(matches!(
        registry.dispatch(raw),
        Err(DecodeError::UnknownServiceId)
    ));
}

#[test]
fn dispatch_rejects_malformed_payload() {
    let registry = config_registry();
    let raw = RawTransaction { service_id: 1, message_id: 0, payload: vec![0u8; 10] };
    assert!(matches!(
        registry.dispatch(raw),
        Err(DecodeError::MalformedPayload)
    ));
}

#[test]
fn duplicate_service_id_is_fatal_at_registration() {
    let mut registry = config_registry();
    assert!(matches!(
        registry.register(ServiceKind::ConfigUpdate(ConfigUpdateService::new())),
        Err(RegistrationError::DuplicateServiceId)
    ));
}

#[test]
fn activation_gating() {
    let mut fork = Fork::new();
    let first = serialized_doc(b"first parameters");
    let tx1 = TxConfig::new(sample_key(), first.clone(), 100);
    tx1.execute(&mut fork).unwrap();

    let snap = fork.snapshot();
    assert_eq!(Schema::active_configuration_at(&snap, 0), None);
    assert_eq!(Schema::active_configuration_at(&snap, 99), None);
    assert_eq!(Schema::active_configuration_at(&snap, 100), Some(first.clone()));
    assert_eq!(Schema::active_configuration_at(&snap, 101), Some(first.clone()));

    let second = serialized_doc(b"second parameters");
    let tx2 = TxConfig::new(sample_key(), second.clone(), 200);
    tx2.execute(&mut fork).unwrap();

    let snap = fork.snapshot();
    assert_eq!(Schema::active_configuration_at(&snap, 150), Some(first));
    assert_eq!(Schema::active_configuration_at(&snap, 200), Some(second.clone()));
    assert_eq!(Schema::active_configuration_at(&snap, u64::MAX), Some(second));
}

#[test]
fn equal_activation_heights_latest_commit_wins() {
    let mut fork = Fork::new();
    let first = serialized_doc(b"one");
    let second = serialized_doc(b"two");
    TxConfig::new(sample_key(), first, 50).execute(&mut fork).unwrap();
    TxConfig::new(sample_key(), second.clone(), 50).execute(&mut fork).unwrap();
    let snap = fork.snapshot();
    assert_eq!(Schema::active_configuration_at(&snap, 50), Some(second));
}

#[test]
fn malformed_config_fails_execution_and_leaves_store_unchanged() {
    let mut fork = Fork::new();
    let good = serialized_doc(b"kept");
    TxConfig::new(sample_key(), good.clone(), 10).execute(&mut fork).unwrap();

    let bad = TxConfig::new(sample_key(), vec![0xFF, 0xFF, 0xFF], 20);
    assert!(matches!(
        bad.execute(&mut fork),
        Err(ExecutionError::MalformedConfig)
    ));

    assert_eq!(fork.configs.len(), 1);
    assert_eq!(fork.activations.len(), 1);
    let snap = fork.snapshot();
    assert_eq!(Schema::active_configuration_at(&snap, 20), Some(good));
}

#[test]
fn end_to_end_config_update() {
    let sk1 = SecretKey::new(vec![11u8; 32]).unwrap();
    let pk1 = public_key_of(&sk1);
    let doc = serialized_doc(b"genesis replacement");

    let signed = TxConfig::create_signed(&pk1, &doc, 100, &sk1);
    let wire_bytes = signed.encode();

    let m = messages::verify(&wire_bytes).unwrap();
    assert_eq!(m.author.bytes, pk1.bytes);

    let registry = config_registry();
    let tx = match registry.dispatch(m.raw) {
        Ok(ConfigUpdaterTransactions::TxConfig(tx)) => tx,
        other => panic!("expected a decoded TxConfig, got {:?}", other),
    };
    assert_eq!(tx.from.bytes, pk1.bytes);
    assert_eq!(tx.config, doc);
    assert_eq!(tx.actual_from, 100);

    let mut fork = Fork::new();
    tx.execute(&mut fork).unwrap();

    let digest = sha256(&doc);
    assert_eq!(fork.configs.len(), 1);
    assert_eq!(fork.configs[0], (digest.clone(), doc.clone()));
    assert_eq!(fork.activations.len(), 1);
    assert_eq!(fork.activations[0], (100, digest.clone()));

    let snap = fork.snapshot();
    assert_eq!(Schema::get_configuration(&snap, &digest), Some(doc.clone()));
    assert_eq!(Schema::active_configuration_at(&snap, 99), None);
    assert_eq!(Schema::active_configuration_at(&snap, 100), Some(doc));
}
