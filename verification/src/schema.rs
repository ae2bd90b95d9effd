//! The configuration schema: a typed accessor over the store.
//!
//! A `StoredConfiguration` is the structured configuration document; its
//! serialized form is a length-prefixed byte string, and deserialization is
//! fallible and total. `Schema` writes a committed document keyed by its
//! SHA-256 digest, records its activation height, and resolves the active
//! configuration as of a height.

use vstd::prelude::*;

use crate::crypto;
use crate::crypto::sha256_of;
use crate::errors::ExecutionError;
use crate::store;
use crate::store::Fork;
use crate::store::Snapshot;
use crate::wire;

verus! {

/// The structured configuration document persisted by the schema; its
/// internal structure is carried as opaque content bytes.
#[derive(Debug)]
pub struct StoredConfiguration {
    pub content: Vec<u8>,
}

/// The serialized form of a configuration document: its content, prefixed
/// with the content length as four little-endian bytes.
pub open spec fn spec_serialize_config(content: Seq<u8>) -> Seq<u8> {
    wire::u32_le_bytes(content.len() as u32) + content
}

/// The one deserialization of a configuration document, total over byte
/// strings: the content, or nothing where the bytes are not a serialized
/// document.
pub open spec fn spec_deserialize_config(b: Seq<u8>) -> Option<Seq<u8>> {
    if b.len() < 4 {
        None
    } else if b.len() == 4 + wire::u32_from_le(b.subrange(0, 4)) {
        Some(b.subrange(4, b.len() as int))
    } else {
        None
    }
}

/// Round trip of the document codec: deserializing a serialized document
/// yields its content, for every content that fits the length prefix.
pub proof fn lemma_config_round_trip(content: Seq<u8>)
    requires
        content.len() <= u32::MAX,
    ensures
        spec_deserialize_config(spec_serialize_config(content)) == Some(content),
{
    let e = spec_serialize_config(content);
    assert(e.subrange(0, 4) =~= wire::u32_le_bytes(content.len() as u32));
    wire::lemma_u32_le_round_trip(content.len() as u32);
    assert(e.subrange(4, e.len() as int) =~= content);
}

/// A byte string that deserializes is exactly the serialization of what it
/// deserializes to: the serialized form is canonical.
pub proof fn lemma_config_serialization_canonical(b: Seq<u8>)
    ensures
        match spec_deserialize_config(b) {
            Some(content) => b == spec_serialize_config(content),
            None => true,
        },
{
    match spec_deserialize_config(b) {
        Some(content) => {
            assert(wire::u32_from_le(b.subrange(0, 4)) == content.len());
            crate::wire::lemma_u32_le_bytes_inverse(b.subrange(0, 4));
            assert(b =~= spec_serialize_config(content));
        },
        None => {},
    }
}

impl StoredConfiguration {
    pub open spec fn wf(&self) -> bool {
        self.content@.len() <= u32::MAX
    }

    /// The byte string that stands for this document in the store.
    pub fn serialize(&self) -> (r: Vec<u8>)
        requires
            self.wf(),
        ensures
            r@ == spec_serialize_config(self.content@),
    {
        let mut out: Vec<u8> = Vec::new();
        wire::encode_u32_le(self.content.len() as u32, &mut out);
        wire::append_bytes(&self.content, &mut out);
        proof {
            assert(out@ =~= spec_serialize_config(self.content@));
        }
        out
    }

    /// Deserializes a byte string into a document; fails exactly where the
    /// bytes are not a serialized document.
    pub fn try_deserialize(b: &Vec<u8>) -> (r: Result<StoredConfiguration, ExecutionError>)
        ensures
            match spec_deserialize_config(b@) {
                Some(content) => r matches Ok(c) && c.content@ == content && c.wf(),
                None => r matches Err(e) && e == ExecutionError::MalformedConfig,
            },
    {
        let n = b.len();
        if n < 4 {
            return Err(ExecutionError::MalformedConfig);
        }
        let clen = wire::decode_u32_le(b, 0);
        if n - 4 != clen as usize {
            return Err(ExecutionError::MalformedConfig);
        }
        let content = wire::sub_bytes(b, 4, n - 4);
        Ok(StoredConfiguration { content })
    }
}

/// The typed accessor over the store's configuration tables.
pub struct Schema;

impl Schema {
    /// Commits a configuration document through a fork: stores its
    /// serialized form keyed by its SHA-256 digest, and records that the
    /// document activates at `actual_from`.
    ///
    /// The schema records the height it is given. That `actual_from` lies
    /// strictly in the future is deliberately not checked here: only the
    /// block-validation layer upstream knows the current height at commit
    /// time, so the check is its to make.
    pub fn commit_configuration(
        fork: &mut Fork,
        config: &StoredConfiguration,
        actual_from: u64,
    )
        requires
            config.wf(),
        ensures
            final(fork).configs_model() == old(fork).configs_model().push(
                (
                    sha256_of(spec_serialize_config(config.content@)),
                    spec_serialize_config(config.content@),
                ),
            ),
            final(fork).activations_model() == old(fork).activations_model().push(
                (actual_from, sha256_of(spec_serialize_config(config.content@))),
            ),
    {
        let doc = config.serialize();
        let digest = crypto::sha256(&doc);
        let digest_again = wire::copy_bytes(&digest);
        let ghost cfgs0 = fork.configs_model();
        let ghost acts0 = fork.activations_model();
        fork.configs.push((digest, doc));
        fork.activations.push((actual_from, digest_again));
        proof {
            assert(fork.configs_model() =~= cfgs0.push(
                (
                    sha256_of(spec_serialize_config(config.content@)),
                    spec_serialize_config(config.content@),
                ),
            ));
            assert(fork.activations_model() =~= acts0.push(
                (actual_from, sha256_of(spec_serialize_config(config.content@))),
            ));
        }
    }

    /// The serialized document committed under a digest, if any: the most
    /// recently committed entry with that digest.
    pub fn get_configuration(snapshot: &Snapshot, digest: &Vec<u8>) -> (r: Option<Vec<u8>>)
        ensures
            match store::spec_lookup_config(snapshot.configs_model(), digest@) {
                Some(doc) => r matches Some(d) && d@ == doc,
                None => r is None,
            },
    {
        let n = snapshot.configs.len();
        let mut i: usize = n;
        proof {
            assert(snapshot.configs_model().subrange(0, n as int) =~= snapshot.configs_model());
        }
        while i > 0
            invariant
                i <= n,
                n == snapshot.configs@.len(),
                store::spec_lookup_config(snapshot.configs_model(), digest@)
                    == store::spec_lookup_config(
                    snapshot.configs_model().subrange(0, i as int),
                    digest@,
                ),
            decreases i,
        {
            i = i - 1;
            if bytes_eq(&snapshot.configs[i].0, digest) {
                proof {
                    let pre = snapshot.configs_model().subrange(0, i + 1);
                    assert(pre.last() == (snapshot.configs@[i as int].0@,
                    snapshot.configs@[i as int].1@));
                }
                return Some(wire::copy_bytes(&snapshot.configs[i].1));
            }
            proof {
                let pre = snapshot.configs_model().subrange(0, i + 1);
                assert(pre.last() == (snapshot.configs@[i as int].0@,
                snapshot.configs@[i as int].1@));
                assert(pre.drop_last() =~= snapshot.configs_model().subrange(0, i as int));
            }
        }
        proof {
            assert(snapshot.configs_model().subrange(0, 0) =~= Seq::<(Seq<u8>, Seq<u8>)>::empty());
        }
        None
    }

    /// The serialized configuration document active as of height `h`.
    pub fn active_configuration_at(snapshot: &Snapshot, h: u64) -> (r: Option<Vec<u8>>)
        ensures
            match store::spec_active_config(
                snapshot.configs_model(),
                snapshot.activations_model(),
                h,
            ) {
                Some(doc) => r matches Some(d) && d@ == doc,
                None => r is None,
            },
    {
        let best = best_activation(snapshot, h);
        match best {
            Some(digest) => Schema::get_configuration(snapshot, &digest),
            None => None,
        }
    }
}

/// Whether two byte strings are equal.
pub fn bytes_eq(a: &Vec<u8>, b: &Vec<u8>) -> (r: bool)
    ensures
        r == (a@ == b@),
{
    if a.len() != b.len() {
        proof {
            assert(a@.len() != b@.len());
        }
        return false;
    }
    let n = a.len();
    let mut i: usize = 0;
    while i < n
        invariant
            i <= n,
            n == a@.len(),
            n == b@.len(),
            forall|j: int| 0 <= j < i ==> a@[j] == b@[j],
        decreases n - i,
    {
        if a[i] != b[i] {
            return false;
        }
        i = i + 1;
    }
    proof {
        assert(a@ =~= b@);
    }
    true
}

/// The digest named by the activation record that governs height `h`.
fn best_activation(snapshot: &Snapshot, h: u64) -> (r: Option<Vec<u8>>)
    ensures
        match store::spec_best_activation(snapshot.activations_model(), h) {
            Some(best) => r matches Some(d) && d@ == best.1,
            None => r is None,
        },
{
    let n = snapshot.activations.len();
    let mut i: usize = 0;
    let mut best: Option<usize> = None;
    while i < n
        invariant
            i <= n,
            n == snapshot.activations@.len(),
            match best {
                Some(k) => k < i && store::spec_best_activation(
                    snapshot.activations_model().subrange(0, i as int),
                    h,
                ) == Some(snapshot.activations_model()[k as int]),
                None => store::spec_best_activation(
                    snapshot.activations_model().subrange(0, i as int),
                    h,
                ) is None,
            },
        decreases n - i,
    {
        proof {
            let pre = snapshot.activations_model().subrange(0, i + 1);
            assert(pre.last() == (snapshot.activations@[i as int].0,
            snapshot.activations@[i as int].1@));
            assert(pre.drop_last() =~= snapshot.activations_model().subrange(0, i as int));
        }
        if snapshot.activations[i].0 <= h {
            match best {
                Some(k) => {
                    if snapshot.activations[i].0 >= snapshot.activations[k].0 {
                        best = Some(i);
                    }
                },
                None => {
                    best = Some(i);
                },
            }
        }
        i = i + 1;
    }
    proof {
        assert(snapshot.activations_model().subrange(0, n as int)
            =~= snapshot.activations_model());
    }
    match best {
        Some(k) => Some(wire::copy_bytes(&snapshot.activations[k].1)),
        None => None,
    }
}

} // verus!
