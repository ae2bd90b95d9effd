//! The signed envelope: a payload wrapped with its signer and signature.
//!
//! On the wire an envelope is the 32-byte author key, the 64-byte signature,
//! then the serialized `RawTransaction`. The signature is checked over
//! exactly those payload bytes before the payload is trusted; an envelope
//! that fails the check never reaches any service.

use vstd::prelude::*;

use crate::crypto;
use crate::crypto::PublicKey;
use crate::crypto::SecretKey;
use crate::crypto::Signature;
use crate::crypto::public_of;
use crate::crypto::sig_checks;
use crate::crypto::sign_of;
use crate::errors::VerificationError;
use crate::tx::RawTransaction;
use crate::tx::spec_decode_raw;
use crate::tx::spec_encode_raw;
use crate::wire;

verus! {

/// Envelope bytes besides the payload: the author key and the signature.
pub const SIGNED_OVERHEAD: usize = 96;

/// The shortest well-formed envelope: overhead plus the payload's routing
/// header.
pub const MIN_SIGNED_LEN: usize = 100;

/// A payload wrapped with a signer identity and a signature, verifiable
/// independent of payload semantics.
#[derive(Debug)]
pub struct SignedMessage {
    pub raw: RawTransaction,
    pub author: PublicKey,
    pub signature: Signature,
}

impl SignedMessage {
    pub open spec fn wf(&self) -> bool {
        &&& self.author.wf()
        &&& self.signature.wf()
    }

    /// The payload bytes the signature is checked over.
    pub open spec fn spec_payload_bytes(&self) -> Seq<u8> {
        spec_encode_raw(self.raw.service_id, self.raw.message_id, self.raw.payload@)
    }

    /// Whether the signature verifies over the payload bytes under the
    /// author key.
    pub open spec fn spec_verified(&self) -> bool {
        sig_checks(self.author.bytes@, self.spec_payload_bytes(), self.signature.bytes@)
    }

    /// The byte string that stands for this envelope on the wire.
    pub fn encode(&self) -> (r: Vec<u8>)
        requires
            self.wf(),
        ensures
            r@ == self.author.bytes@ + self.signature.bytes@ + self.spec_payload_bytes(),
    {
        let mut out: Vec<u8> = Vec::new();
        wire::append_bytes(&self.author.bytes, &mut out);
        wire::append_bytes(&self.signature.bytes, &mut out);
        let payload = self.raw.encode();
        wire::append_bytes(&payload, &mut out);
        proof {
            assert(out@ =~= self.author.bytes@ + self.signature.bytes@
                + self.spec_payload_bytes());
        }
        out
    }
}

/// An unmodified envelope whose signature verifies under its author key
/// always passes verification: its encoded byte string is long enough,
/// splits back into the author key, the signature and the payload bytes,
/// satisfies the signature check of `verify`, and its payload decodes to
/// the very transaction the envelope carries.
pub proof fn lemma_encoded_envelope_passes(m: SignedMessage)
    requires
        m.wf(),
        m.spec_verified(),
    ensures
        ({
            let e = m.author.bytes@ + m.signature.bytes@ + m.spec_payload_bytes();
            &&& e.len() >= MIN_SIGNED_LEN
            &&& e.subrange(0, 32) == m.author.bytes@
            &&& e.subrange(32, SIGNED_OVERHEAD as int) == m.signature.bytes@
            &&& e.subrange(SIGNED_OVERHEAD as int, e.len() as int) == m.spec_payload_bytes()
            &&& sig_checks(
                e.subrange(0, 32),
                e.subrange(SIGNED_OVERHEAD as int, e.len() as int),
                e.subrange(32, SIGNED_OVERHEAD as int),
            )
            &&& spec_decode_raw(e.subrange(SIGNED_OVERHEAD as int, e.len() as int)) == Some(
                (m.raw.service_id, m.raw.message_id, m.raw.payload@),
            )
        }),
{
    let e = m.author.bytes@ + m.signature.bytes@ + m.spec_payload_bytes();
    assert(e.subrange(0, 32) =~= m.author.bytes@);
    assert(e.subrange(32, SIGNED_OVERHEAD as int) =~= m.signature.bytes@);
    assert(e.subrange(SIGNED_OVERHEAD as int, e.len() as int) =~= m.spec_payload_bytes());
    crate::tx::lemma_raw_round_trip(m.raw.service_id, m.raw.message_id, m.raw.payload@);
}

/// Signs a raw transaction: the envelope carries the transaction, the given
/// author key, and the signer's signature over the serialized transaction
/// bytes. The signature verifies under the signer's derived public key, so
/// an envelope whose author is that key passes verification unmodified.
pub fn sign_transaction(raw: RawTransaction, author: PublicKey, signer: &SecretKey) -> (m:
    SignedMessage)
    requires
        author.wf(),
        signer.wf(),
    ensures
        m.raw.service_id == raw.service_id,
        m.raw.message_id == raw.message_id,
        m.raw.payload@ == raw.payload@,
        m.author.bytes@ == author.bytes@,
        m.signature.bytes@ == sign_of(signer.bytes@, m.spec_payload_bytes()),
        sig_checks(public_of(signer.bytes@), m.spec_payload_bytes(), m.signature.bytes@),
        m.wf(),
{
    let payload = raw.encode();
    let sig_bytes = crypto::ed25519_sign(signer, &payload);
    SignedMessage { raw, author, signature: Signature { bytes: sig_bytes } }
}

/// Verifies an envelope's byte string: checks that the signature validates
/// against the embedded public key over the exact payload bytes, and that
/// the payload decodes to a routable `RawTransaction`. Read-only; an
/// envelope that fails is discarded before reaching any service.
pub fn verify(bytes: &Vec<u8>) -> (r: Result<SignedMessage, VerificationError>)
    ensures
        bytes@.len() < MIN_SIGNED_LEN ==> (r matches Err(e) && e == VerificationError::TooShort),
        bytes@.len() >= MIN_SIGNED_LEN && !sig_checks(
            bytes@.subrange(0, 32),
            bytes@.subrange(SIGNED_OVERHEAD as int, bytes@.len() as int),
            bytes@.subrange(32, SIGNED_OVERHEAD as int),
        ) ==> (r matches Err(e) && e == VerificationError::BadSignature),
        bytes@.len() >= MIN_SIGNED_LEN && sig_checks(
            bytes@.subrange(0, 32),
            bytes@.subrange(SIGNED_OVERHEAD as int, bytes@.len() as int),
            bytes@.subrange(32, SIGNED_OVERHEAD as int),
        ) ==> (r matches Ok(m) && m.wf() && m.spec_verified() && m.author.bytes@
            == bytes@.subrange(0, 32) && m.signature.bytes@ == bytes@.subrange(
            32,
            SIGNED_OVERHEAD as int,
        ) && Some((m.raw.service_id, m.raw.message_id, m.raw.payload@)) == spec_decode_raw(
            bytes@.subrange(SIGNED_OVERHEAD as int, bytes@.len() as int),
        )),
{
    let n = bytes.len();
    if n < MIN_SIGNED_LEN {
        return Err(VerificationError::TooShort);
    }
    let author_bytes = wire::sub_bytes(bytes, 0, 32);
    let sig_bytes = wire::sub_bytes(bytes, 32, 64);
    let payload = wire::sub_bytes(bytes, SIGNED_OVERHEAD, n - SIGNED_OVERHEAD);
    if !crypto::ed25519_verify(&author_bytes, &payload, &sig_bytes) {
        return Err(VerificationError::BadSignature);
    }
    match RawTransaction::decode(&payload) {
        Ok(raw) => {
            proof {
                wire::lemma_u16_le_bytes_inverse(payload@.subrange(0, 2));
                wire::lemma_u16_le_bytes_inverse(payload@.subrange(2, 4));
                assert(spec_encode_raw(raw.service_id, raw.message_id, raw.payload@)
                    =~= payload@);
            }
            Ok(
                SignedMessage {
                    raw,
                    author: PublicKey { bytes: author_bytes },
                    signature: Signature { bytes: sig_bytes },
                },
            )
        },
        Err(_) => {
            proof {
                assert(false);
            }
            Err(VerificationError::TooShort)
        },
    }
}

} // verus!
