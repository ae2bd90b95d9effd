//! Transaction types and their wire codec.
//!
//! A `RawTransaction` routes a payload by service id and message id; a
//! `TxConfig` is the one typed transaction of the configuration-update
//! service. Both encodings are defined once as spec functions; the
//! executable encoders and decoders are proved against them, and the
//! round-trip lemmas show that decoding undoes encoding.

use vstd::prelude::*;

use crate::crypto::PublicKey;
use crate::errors::DecodeError;
use crate::wire;

verus! {

/// The sequential position of a block in the ledger; configuration
/// activation is gated on it.
pub type Height = u64;

/// Byte length of the `from` field of a `TxConfig` payload.
pub const FROM_LEN: usize = 32;

/// Bytes of a `TxConfig` payload besides the configuration document: the
/// 32-byte `from` key, the 4-byte document length and the 8-byte height.
pub const TX_CONFIG_OVERHEAD: usize = 44;

/// Header bytes of a `RawTransaction`: service id and message id.
pub const RAW_HEADER_LEN: usize = 4;

/// An untyped transaction as received: which service, which of its message
/// kinds, and the payload bytes that kind decodes.
#[derive(Debug)]
pub struct RawTransaction {
    pub service_id: u16,
    pub message_id: u16,
    pub payload: Vec<u8>,
}

/// The configuration-update transaction: schedule the carried configuration
/// document to become active at `actual_from`.
#[derive(Debug)]
pub struct TxConfig {
    pub from: PublicKey,
    pub config: Vec<u8>,
    pub actual_from: Height,
}

impl TxConfig {
    pub open spec fn wf(&self) -> bool {
        &&& self.from.wf()
        &&& self.config@.len() <= u32::MAX
    }

    pub fn new(from: PublicKey, config: Vec<u8>, actual_from: Height) -> (r: TxConfig)
        ensures
            r.from == from,
            r.config == config,
            r.actual_from == actual_from,
    {
        TxConfig { from, config, actual_from }
    }
}

/// The payload encoding of a `TxConfig`: the signer key, the
/// length-prefixed configuration document, the activation height.
pub open spec fn spec_encode_tx_config(from: Seq<u8>, config: Seq<u8>, actual_from: u64) -> Seq<
    u8,
> {
    from + wire::u32_le_bytes(config.len() as u32) + config + wire::u64_le_bytes(actual_from)
}

/// The one decoding of a `TxConfig` payload, total over byte strings: the
/// fields, or nothing where the bytes are not an encoding.
pub open spec fn spec_decode_tx_config(b: Seq<u8>) -> Option<(Seq<u8>, Seq<u8>, u64)> {
    if b.len() < TX_CONFIG_OVERHEAD {
        None
    } else {
        let from = b.subrange(0, FROM_LEN as int);
        let clen = wire::u32_from_le(b.subrange(FROM_LEN as int, FROM_LEN + 4)) as int;
        if b.len() == TX_CONFIG_OVERHEAD + clen {
            let config = b.subrange(FROM_LEN + 4, FROM_LEN + 4 + clen);
            let actual_from = wire::u64_from_le(b.subrange(FROM_LEN + 4 + clen, b.len() as int));
            Some((from, config, actual_from))
        } else {
            None
        }
    }
}

/// The envelope encoding of a `RawTransaction`: service id, message id,
/// payload.
pub open spec fn spec_encode_raw(service_id: u16, message_id: u16, payload: Seq<u8>) -> Seq<u8> {
    wire::u16_le_bytes(service_id) + wire::u16_le_bytes(message_id) + payload
}

/// The one decoding of a `RawTransaction`, total over byte strings.
pub open spec fn spec_decode_raw(b: Seq<u8>) -> Option<(u16, u16, Seq<u8>)> {
    if b.len() < RAW_HEADER_LEN {
        None
    } else {
        let service_id = wire::u16_from_le(b.subrange(0, 2));
        let message_id = wire::u16_from_le(b.subrange(2, 4));
        Some((service_id, message_id, b.subrange(RAW_HEADER_LEN as int, b.len() as int)))
    }
}

/// Round trip of the `TxConfig` payload codec: decoding an encoded field
/// tuple yields that tuple, for every well-formed tuple.
pub proof fn lemma_tx_config_round_trip(from: Seq<u8>, config: Seq<u8>, actual_from: u64)
    requires
        from.len() == FROM_LEN,
        config.len() <= u32::MAX,
    ensures
        spec_decode_tx_config(spec_encode_tx_config(from, config, actual_from)) == Some(
            (from, config, actual_from),
        ),
{
    let e = spec_encode_tx_config(from, config, actual_from);
    let clen_bytes = wire::u32_le_bytes(config.len() as u32);
    assert(e.len() == TX_CONFIG_OVERHEAD + config.len());
    assert(e.subrange(0, FROM_LEN as int) =~= from);
    assert(e.subrange(FROM_LEN as int, FROM_LEN + 4) =~= clen_bytes);
    wire::lemma_u32_le_round_trip(config.len() as u32);
    assert(wire::u32_from_le(clen_bytes) == config.len());
    assert(e.subrange(FROM_LEN + 4, FROM_LEN + 4 + config.len()) =~= config);
    assert(e.subrange(FROM_LEN + 4 + config.len(), e.len() as int) =~= wire::u64_le_bytes(
        actual_from,
    ));
    wire::lemma_u64_le_round_trip(actual_from);
}

/// Round trip of the `RawTransaction` codec: decoding an encoded triple
/// yields that triple.
pub proof fn lemma_raw_round_trip(service_id: u16, message_id: u16, payload: Seq<u8>)
    ensures
        spec_decode_raw(spec_encode_raw(service_id, message_id, payload)) == Some(
            (service_id, message_id, payload),
        ),
{
    let e = spec_encode_raw(service_id, message_id, payload);
    assert(e.subrange(0, 2) =~= wire::u16_le_bytes(service_id));
    assert(e.subrange(2, 4) =~= wire::u16_le_bytes(message_id));
    assert(e.subrange(RAW_HEADER_LEN as int, e.len() as int) =~= payload);
    wire::lemma_u16_le_round_trip(service_id);
    wire::lemma_u16_le_round_trip(message_id);
}

impl TxConfig {
    /// The payload bytes that stand for this transaction on the wire.
    pub fn encode(&self) -> (r: Vec<u8>)
        requires
            self.wf(),
        ensures
            r@ == spec_encode_tx_config(self.from.bytes@, self.config@, self.actual_from),
    {
        let mut out: Vec<u8> = Vec::new();
        wire::append_bytes(&self.from.bytes, &mut out);
        wire::encode_u32_le(self.config.len() as u32, &mut out);
        wire::append_bytes(&self.config, &mut out);
        wire::encode_u64_le(self.actual_from, &mut out);
        proof {
            assert(out@ =~= spec_encode_tx_config(
                self.from.bytes@,
                self.config@,
                self.actual_from,
            ));
        }
        out
    }

    /// Decodes payload bytes into a `TxConfig`; fails exactly where the
    /// bytes are not an encoding.
    pub fn decode(b: &Vec<u8>) -> (r: Result<TxConfig, DecodeError>)
        ensures
            match spec_decode_tx_config(b@) {
                Some(fields) => r matches Ok(tx) && tx.from.bytes@ == fields.0 && tx.config@
                    == fields.1 && tx.actual_from == fields.2 && tx.wf(),
                None => r matches Err(e) && e == DecodeError::MalformedPayload,
            },
    {
        let n = b.len();
        if n < TX_CONFIG_OVERHEAD {
            return Err(DecodeError::MalformedPayload);
        }
        let clen = wire::decode_u32_le(b, FROM_LEN);
        if n - TX_CONFIG_OVERHEAD != clen as usize {
            return Err(DecodeError::MalformedPayload);
        }
        let from_bytes = wire::sub_bytes(b, 0, FROM_LEN);
        let config = wire::sub_bytes(b, FROM_LEN + 4, clen as usize);
        let actual_from = wire::decode_u64_le(b, FROM_LEN + 4 + clen as usize);
        proof {
            assert(b@.subrange(FROM_LEN + 4 + clen as int, b@.len() as int) =~= b@.subrange(
                FROM_LEN + 4 + clen as int,
                FROM_LEN + 4 + clen + 8,
            ));
        }
        Ok(TxConfig { from: PublicKey { bytes: from_bytes }, config, actual_from })
    }
}

impl RawTransaction {
    /// The byte string that stands for this transaction on the wire.
    pub fn encode(&self) -> (r: Vec<u8>)
        ensures
            r@ == spec_encode_raw(self.service_id, self.message_id, self.payload@),
    {
        let mut out: Vec<u8> = Vec::new();
        wire::encode_u16_le(self.service_id, &mut out);
        wire::encode_u16_le(self.message_id, &mut out);
        wire::append_bytes(&self.payload, &mut out);
        proof {
            assert(out@ =~= spec_encode_raw(self.service_id, self.message_id, self.payload@));
        }
        out
    }

    /// Decodes a byte string into a `RawTransaction`; fails exactly where
    /// the bytes are shorter than the routing header.
    pub fn decode(b: &Vec<u8>) -> (r: Result<RawTransaction, DecodeError>)
        ensures
            match spec_decode_raw(b@) {
                Some(fields) => r matches Ok(raw) && raw.service_id == fields.0 && raw.message_id
                    == fields.1 && raw.payload@ == fields.2,
                None => r matches Err(e) && e == DecodeError::MalformedPayload,
            },
    {
        let n = b.len();
        if n < RAW_HEADER_LEN {
            return Err(DecodeError::MalformedPayload);
        }
        let service_id = wire::decode_u16_le(b, 0);
        let message_id = wire::decode_u16_le(b, 2);
        let payload = wire::sub_bytes(b, RAW_HEADER_LEN, n - RAW_HEADER_LEN);
        Ok(RawTransaction { service_id, message_id, payload })
    }
}

} // verus!
