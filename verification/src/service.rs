//! The configuration-update service.
//!
//! One transaction kind, `TxConfig`, schedules a configuration document for
//! future activation. The service's dispatcher is a closed enum: a message
//! id either decodes to exactly one typed transaction or fails with a
//! `DecodeError`, and never falls through to another variant.

use vstd::prelude::*;

use crate::CONFIG_SERVICE;
use crate::crypto::PublicKey;
use crate::crypto::SecretKey;
use crate::crypto::public_of;
use crate::crypto::sha256_of;
use crate::crypto::sig_checks;
use crate::errors::DecodeError;
use crate::errors::ExecutionError;
use crate::messages;
use crate::messages::SignedMessage;
use crate::schema::Schema;
use crate::schema::StoredConfiguration;
use crate::schema::spec_deserialize_config;
use crate::schema::spec_serialize_config;
use crate::store::Fork;
use crate::store::Snapshot;
use crate::tx::Height;
use crate::tx::RawTransaction;
use crate::tx::TxConfig;
use crate::tx::spec_decode_tx_config;
use crate::tx::spec_encode_tx_config;
use crate::wire::copy_bytes;

verus! {

/// The message id under which `TxConfig` is registered with the service's
/// dispatcher.
pub const TX_CONFIG_MESSAGE_ID: u16 = 0;

/// The closed set of transaction kinds the configuration-update service
/// dispatches; a new kind is added by extending this enum.
#[derive(Debug)]
pub enum ConfigUpdaterTransactions {
    TxConfig(TxConfig),
}

impl ConfigUpdaterTransactions {
    /// Interprets a raw transaction's message id and payload as one of the
    /// service's transaction kinds. An unrecognised message id and a
    /// payload that does not parse are recoverable errors, never a crash.
    pub fn tx_from_raw(raw: RawTransaction) -> (r: Result<
        ConfigUpdaterTransactions,
        DecodeError,
    >)
        ensures
            raw.message_id == TX_CONFIG_MESSAGE_ID ==> match spec_decode_tx_config(raw.payload@) {
                Some(fields) => r matches Ok(t) && t matches
                    ConfigUpdaterTransactions::TxConfig(tx) && tx.from.bytes@ == fields.0
                    && tx.config@ == fields.1 && tx.actual_from == fields.2,
                None => r matches Err(e) && e == DecodeError::MalformedPayload,
            },
            raw.message_id != TX_CONFIG_MESSAGE_ID ==> (r matches Err(e) && e
                == DecodeError::UnknownMessageId),
    {
        if raw.message_id == TX_CONFIG_MESSAGE_ID {
            match TxConfig::decode(&raw.payload) {
                Ok(tx) => Ok(ConfigUpdaterTransactions::TxConfig(tx)),
                Err(e) => Err(e),
            }
        } else {
            Err(DecodeError::UnknownMessageId)
        }
    }
}

impl TxConfig {
    /// Builds and signs a configuration-update transaction: the payload
    /// encodes the field tuple, the envelope carries `from` as author and
    /// the signer's signature over the serialized transaction.
    pub fn create_signed(
        from: &PublicKey,
        config: &Vec<u8>,
        actual_from: Height,
        signer: &SecretKey,
    ) -> (m: SignedMessage)
        requires
            from.wf(),
            signer.wf(),
            config@.len() <= u32::MAX,
        ensures
            m.raw.service_id == CONFIG_SERVICE,
            m.raw.message_id == TX_CONFIG_MESSAGE_ID,
            m.raw.payload@ == spec_encode_tx_config(from.bytes@, config@, actual_from),
            m.author.bytes@ == from.bytes@,
            m.signature.bytes@ == crate::crypto::sign_of(signer.bytes@, m.spec_payload_bytes()),
            sig_checks(public_of(signer.bytes@), m.spec_payload_bytes(), m.signature.bytes@),
            m.wf(),
    {
        let tx = TxConfig {
            from: PublicKey { bytes: copy_bytes(&from.bytes) },
            config: copy_bytes(config),
            actual_from,
        };
        let payload = tx.encode();
        let raw = RawTransaction {
            service_id: CONFIG_SERVICE,
            message_id: TX_CONFIG_MESSAGE_ID,
            payload,
        };
        messages::sign_transaction(raw, PublicKey { bytes: copy_bytes(&from.bytes) }, signer)
    }

    /// Executes the transaction against a fork: deserializes the carried
    /// configuration bytes and commits the document with this transaction's
    /// activation height. A document that does not deserialize is a
    /// deterministic execution error that leaves the store unchanged.
    pub fn execute(&self, fork: &mut Fork) -> (r: Result<(), ExecutionError>)
        ensures
            match spec_deserialize_config(self.config@) {
                Some(_) => r is Ok && final(fork).configs_model() == old(fork).configs_model().push(
                    (sha256_of(self.config@), self.config@),
                ) && final(fork).activations_model() == old(fork).activations_model().push(
                    (self.actual_from, sha256_of(self.config@)),
                ),
                None => (r matches Err(e) && e == ExecutionError::MalformedConfig) && final(
                    fork
                ).configs_model() == old(fork).configs_model() && final(fork).activations_model()
                    == old(fork).activations_model(),
            },
    {
        let parsed = match StoredConfiguration::try_deserialize(&self.config) {
            Ok(c) => c,
            Err(e) => {
                return Err(e);
            },
        };
        proof {
            crate::schema::lemma_config_serialization_canonical(self.config@);
            assert(spec_serialize_config(parsed.content@) == self.config@);
        }
        Schema::commit_configuration(fork, &parsed, self.actual_from);
        Ok(())
    }
}

/// The concrete service specified here: a named, numbered unit owning the
/// `ConfigUpdaterTransactions` dispatcher.
#[derive(Clone, Copy, Debug)]
pub struct ConfigUpdateService {}

impl Default for ConfigUpdateService {
    fn default() -> (r: Self)
        ensures
            r == (ConfigUpdateService {  }),
    {
        ConfigUpdateService {  }
    }
}

impl ConfigUpdateService {
    pub fn new() -> (r: Self)
        ensures
            r == (ConfigUpdateService {  }),
    {
        ConfigUpdateService::default()
    }

    /// The service's diagnostic label; not used for routing.
    pub fn service_name(&self) -> (r: &'static str)
        ensures
            r@ == "sandbox_config_updater"@,
    {
        "sandbox_config_updater"
    }

    /// The service's stable, globally unique routing id.
    pub fn service_id(&self) -> (r: u16)
        ensures
            r == CONFIG_SERVICE,
    {
        CONFIG_SERVICE
    }

    /// The service's contribution to the global state digest: deliberately
    /// empty, so this service is transparent to the digest.
    pub fn state_hash(&self, _snapshot: &Snapshot) -> (r: Vec<Vec<u8>>)
        ensures
            r@.len() == 0,
    {
        Vec::new()
    }

    /// Decodes a raw transaction routed to this service into one of its
    /// typed transaction kinds.
    pub fn tx_from_raw(&self, raw: RawTransaction) -> (r: Result<
        ConfigUpdaterTransactions,
        DecodeError,
    >)
        ensures
            raw.message_id == TX_CONFIG_MESSAGE_ID ==> match spec_decode_tx_config(raw.payload@) {
                Some(fields) => r matches Ok(t) && t matches
                    ConfigUpdaterTransactions::TxConfig(tx) && tx.from.bytes@ == fields.0
                    && tx.config@ == fields.1 && tx.actual_from == fields.2,
                None => r matches Err(e) && e == DecodeError::MalformedPayload,
            },
            raw.message_id != TX_CONFIG_MESSAGE_ID ==> (r matches Err(e) && e
                == DecodeError::UnknownMessageId),
    {
        ConfigUpdaterTransactions::tx_from_raw(raw)
    }
}

} // verus!
