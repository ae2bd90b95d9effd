//! Cryptographic primitives, used as black boxes.
//!
//! Hashing and Ed25519 signing live in outside crates; the library only
//! states what it relies on: each result is a pure function of the input
//! bytes, named by an uninterpreted spec function, and a signature produced
//! over a message verifies under the signer's public key.

use vstd::prelude::*;

use sha2::Digest;

verus! {

/// Byte length of a public key and of a secret-key seed.
pub const KEY_LEN: usize = 32;

/// Byte length of a signature.
pub const SIGNATURE_LEN: usize = 64;

/// A 32-byte Ed25519 public key, as carried on the wire.
#[derive(Debug)]
pub struct PublicKey {
    pub bytes: Vec<u8>,
}

/// A 32-byte Ed25519 secret-key seed.
#[derive(Debug)]
pub struct SecretKey {
    pub bytes: Vec<u8>,
}

/// A 64-byte Ed25519 signature.
#[derive(Debug)]
pub struct Signature {
    pub bytes: Vec<u8>,
}

impl PublicKey {
    pub open spec fn wf(&self) -> bool {
        self.bytes@.len() == KEY_LEN
    }

    pub fn new(bytes: Vec<u8>) -> (r: Option<PublicKey>)
        ensures
            bytes@.len() == KEY_LEN ==> (r matches Some(k) && k.bytes@ == bytes@ && k.wf()),
            bytes@.len() != KEY_LEN ==> r is None,
    {
        if bytes.len() == KEY_LEN {
            Some(PublicKey { bytes })
        } else {
            None
        }
    }
}

impl SecretKey {
    pub open spec fn wf(&self) -> bool {
        self.bytes@.len() == KEY_LEN
    }

    pub fn new(bytes: Vec<u8>) -> (r: Option<SecretKey>)
        ensures
            bytes@.len() == KEY_LEN ==> (r matches Some(k) && k.bytes@ == bytes@ && k.wf()),
            bytes@.len() != KEY_LEN ==> r is None,
    {
        if bytes.len() == KEY_LEN {
            Some(SecretKey { bytes })
        } else {
            None
        }
    }
}

impl Signature {
    pub open spec fn wf(&self) -> bool {
        self.bytes@.len() == SIGNATURE_LEN
    }
}

/// The SHA-256 digest of a byte string.
pub uninterp spec fn sha256_of(data: Seq<u8>) -> Seq<u8>;

/// The Ed25519 signature over a message under a secret-key seed.
pub uninterp spec fn sign_of(secret: Seq<u8>, message: Seq<u8>) -> Seq<u8>;

/// The public key derived from a secret-key seed.
pub uninterp spec fn public_of(secret: Seq<u8>) -> Seq<u8>;

/// Whether Ed25519 verification accepts a signature over a message under
/// public-key bytes.
pub uninterp spec fn sig_checks(public: Seq<u8>, message: Seq<u8>, signature: Seq<u8>) -> bool;

/// Relies on sha2::Sha256 through sha2::Digest::digest: the SHA-256 digest is
/// a 32-byte pure function of the input bytes.
#[verifier::external_body]
pub(crate) fn sha256(data: &Vec<u8>) -> (r: Vec<u8>)
    ensures
        r@ == sha256_of(data@),
        r@.len() == 32,
{
    sha2::Sha256::digest(data.as_slice()).to_vec()
}

/// Relies on ed25519_dalek::SigningKey::from_bytes and
/// ed25519_dalek::SigningKey::verifying_key: the verifying key is a 32-byte
/// pure function of the 32-byte secret seed.
#[verifier::external_body]
pub(crate) fn ed25519_public_of(secret: &SecretKey) -> (r: Vec<u8>)
    requires
        secret.wf(),
    ensures
        r@ == public_of(secret.bytes@),
        r@.len() == 32,
{
    let seed: [u8; 32] = secret.bytes.as_slice().try_into().unwrap();
    ed25519_dalek::SigningKey::from_bytes(&seed).verifying_key().to_bytes().to_vec()
}

/// Relies on ed25519_dalek::Signer::sign for ed25519_dalek::SigningKey:
/// RFC 8032 signing is deterministic, so the 64-byte signature is a pure
/// function of the secret seed and the message; the crate's documentation
/// promises that the produced signature verifies under the derived public
/// key.
#[verifier::external_body]
pub(crate) fn ed25519_sign(secret: &SecretKey, message: &Vec<u8>) -> (r: Vec<u8>)
    requires
        secret.wf(),
    ensures
        r@ == sign_of(secret.bytes@, message@),
        r@.len() == 64,
        sig_checks(public_of(secret.bytes@), message@, r@),
{
    let seed: [u8; 32] = secret.bytes.as_slice().try_into().unwrap();
    let key = ed25519_dalek::SigningKey::from_bytes(&seed);
    ed25519_dalek::Signer::sign(&key, message.as_slice()).to_bytes().to_vec()
}

/// Relies on ed25519_dalek::VerifyingKey::from_bytes and
/// ed25519_dalek::Verifier::verify: acceptance is a pure function of the
/// public-key bytes, the message and the signature bytes; key bytes that do
/// not decode to a curve point accept nothing.
#[verifier::external_body]
pub(crate) fn ed25519_verify(public: &Vec<u8>, message: &Vec<u8>, signature: &Vec<u8>) -> (r: bool)
    requires
        public@.len() == 32,
        signature@.len() == 64,
    ensures
        r == sig_checks(public@, message@, signature@),
{
    let pk_bytes: [u8; 32] = public.as_slice().try_into().unwrap();
    let sig_bytes: [u8; 64] = signature.as_slice().try_into().unwrap();
    let sig = ed25519_dalek::Signature::from_bytes(&sig_bytes);
    match ed25519_dalek::VerifyingKey::from_bytes(&pk_bytes) {
        Ok(vk) => ed25519_dalek::Verifier::verify(&vk, message.as_slice(), &sig).is_ok(),
        Err(_) => false,
    }
}

/// The public key that belongs to a secret-key seed.
pub fn public_key_of(secret: &SecretKey) -> (r: PublicKey)
    requires
        secret.wf(),
    ensures
        r.bytes@ == public_of(secret.bytes@),
        r.wf(),
{
    PublicKey { bytes: ed25519_public_of(secret) }
}

} // verus!
