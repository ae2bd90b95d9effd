//! The versioned key-value store, at its interface.
//!
//! The storage engine itself is an external collaborator; what transaction
//! execution needs of it is modelled here as plain data: an append-only list
//! of committed configuration documents keyed by digest, and an append-only
//! list of activation records from height to digest. A `Fork` is the
//! single-writer view a block's execution mutates; a `Snapshot` is an
//! immutable copy safe to read concurrently.

use vstd::prelude::*;

use crate::crypto::sha256_of;
use crate::wire::copy_bytes;

verus! {

/// An isolated, mutable view of the store, checked out for one block's
/// execution; writes are invisible elsewhere until the caller commits it.
#[derive(Debug)]
pub struct Fork {
    /// Committed configuration documents: digest of the serialized document,
    /// then the serialized document.
    pub configs: Vec<(Vec<u8>, Vec<u8>)>,
    /// Activation records: activation height, then the digest of the
    /// document that becomes active there.
    pub activations: Vec<(u64, Vec<u8>)>,
}

/// An immutable, read-only view of the store at a fixed point.
#[derive(Debug)]
pub struct Snapshot {
    pub configs: Vec<(Vec<u8>, Vec<u8>)>,
    pub activations: Vec<(u64, Vec<u8>)>,
}

/// The mathematical content of the configuration table.
pub open spec fn configs_view(configs: Seq<(Vec<u8>, Vec<u8>)>) -> Seq<(Seq<u8>, Seq<u8>)> {
    configs.map_values(|p: (Vec<u8>, Vec<u8>)| (p.0@, p.1@))
}

/// The mathematical content of the activation table.
pub open spec fn activations_view(activations: Seq<(u64, Vec<u8>)>) -> Seq<(u64, Seq<u8>)> {
    activations.map_values(|p: (u64, Vec<u8>)| (p.0, p.1@))
}

impl Fork {
    pub open spec fn configs_model(&self) -> Seq<(Seq<u8>, Seq<u8>)> {
        configs_view(self.configs@)
    }

    pub open spec fn activations_model(&self) -> Seq<(u64, Seq<u8>)> {
        activations_view(self.activations@)
    }

    /// An empty store, as a fresh ledger checks it out.
    pub fn new() -> (r: Fork)
        ensures
            r.configs_model() == Seq::<(Seq<u8>, Seq<u8>)>::empty(),
            r.activations_model() == Seq::<(u64, Seq<u8>)>::empty(),
    {
        let r = Fork { configs: Vec::new(), activations: Vec::new() };
        proof {
            assert(r.configs_model() =~= Seq::<(Seq<u8>, Seq<u8>)>::empty());
            assert(r.activations_model() =~= Seq::<(u64, Seq<u8>)>::empty());
        }
        r
    }

    /// A read-only copy of this fork's state.
    pub fn snapshot(&self) -> (r: Snapshot)
        ensures
            configs_view(r.configs@) == self.configs_model(),
            activations_view(r.activations@) == self.activations_model(),
    {
        Snapshot {
            configs: copy_config_table(&self.configs),
            activations: copy_activation_table(&self.activations),
        }
    }
}

/// A copy of the configuration table, entry for entry.
fn copy_config_table(src: &Vec<(Vec<u8>, Vec<u8>)>) -> (r: Vec<(Vec<u8>, Vec<u8>)>)
    ensures
        configs_view(r@) == configs_view(src@),
{
    let mut out: Vec<(Vec<u8>, Vec<u8>)> = Vec::new();
    let mut i: usize = 0;
    while i < src.len()
        invariant
            i <= src@.len(),
            out@.len() == i,
            forall|j: int|
                0 <= j < i ==> (#[trigger] out@[j]).0@ == src@[j].0@ && out@[j].1@ == src@[j].1@,
        decreases src@.len() - i,
    {
        let digest = copy_bytes(&src[i].0);
        let doc = copy_bytes(&src[i].1);
        out.push((digest, doc));
        i = i + 1;
    }
    proof {
        assert(configs_view(out@) =~= configs_view(src@));
    }
    out
}

/// A copy of the activation table, entry for entry.
fn copy_activation_table(src: &Vec<(u64, Vec<u8>)>) -> (r: Vec<(u64, Vec<u8>)>)
    ensures
        activations_view(r@) == activations_view(src@),
{
    let mut out: Vec<(u64, Vec<u8>)> = Vec::new();
    let mut i: usize = 0;
    while i < src.len()
        invariant
            i <= src@.len(),
            out@.len() == i,
            forall|j: int|
                0 <= j < i ==> (#[trigger] out@[j]).0 == src@[j].0 && out@[j].1@ == src@[j].1@,
        decreases src@.len() - i,
    {
        let digest = copy_bytes(&src[i].1);
        out.push((src[i].0, digest));
        i = i + 1;
    }
    proof {
        assert(activations_view(out@) =~= activations_view(src@));
    }
    out
}

impl Snapshot {
    pub open spec fn configs_model(&self) -> Seq<(Seq<u8>, Seq<u8>)> {
        configs_view(self.configs@)
    }

    pub open spec fn activations_model(&self) -> Seq<(u64, Seq<u8>)> {
        activations_view(self.activations@)
    }
}

/// The activation record that governs height `h`: among the records whose
/// activation height is at most `h`, the one with the greatest height, the
/// most recently committed on a tie.
pub open spec fn spec_best_activation(acts: Seq<(u64, Seq<u8>)>, h: u64) -> Option<(u64, Seq<u8>)>
    decreases acts.len(),
{
    if acts.len() == 0 {
        None
    } else {
        let last = acts.last();
        let rest = spec_best_activation(acts.drop_last(), h);
        if last.0 <= h {
            match rest {
                Some(b) => if last.0 >= b.0 {
                    Some(last)
                } else {
                    Some(b)
                },
                None => Some(last),
            }
        } else {
            rest
        }
    }
}

/// The document committed under a digest: the most recently committed entry
/// with that digest.
pub open spec fn spec_lookup_config(cfgs: Seq<(Seq<u8>, Seq<u8>)>, digest: Seq<u8>) -> Option<
    Seq<u8>,
>
    decreases cfgs.len(),
{
    if cfgs.len() == 0 {
        None
    } else if cfgs.last().0 == digest {
        Some(cfgs.last().1)
    } else {
        spec_lookup_config(cfgs.drop_last(), digest)
    }
}

/// The serialized configuration document active as of height `h`: the one
/// the governing activation record names.
pub open spec fn spec_active_config(
    cfgs: Seq<(Seq<u8>, Seq<u8>)>,
    acts: Seq<(u64, Seq<u8>)>,
    h: u64,
) -> Option<Seq<u8>> {
    match spec_best_activation(acts, h) {
        Some(best) => spec_lookup_config(cfgs, best.1),
        None => None,
    }
}

/// The governing activation record is one of the records, and its height is
/// at most the queried height.
pub proof fn lemma_best_activation_is_entry(acts: Seq<(u64, Seq<u8>)>, h: u64)
    ensures
        match spec_best_activation(acts, h) {
            Some(best) => best.0 <= h && exists|i: int|
                0 <= i < acts.len() && acts[i] == best,
            None => true,
        },
    decreases acts.len(),
{
    if acts.len() > 0 {
        lemma_best_activation_is_entry(acts.drop_last(), h);
        match spec_best_activation(acts, h) {
            Some(best) => {
                if acts.last().0 <= h && best == acts.last() {
                    assert(acts[acts.len() - 1] == best);
                } else {
                    let i = choose|i: int|
                        0 <= i < acts.drop_last().len() && acts.drop_last()[i] == best;
                    assert(acts[i] == best);
                }
            },
            None => {},
        }
    }
}

/// Appending an activation record with a height above `h` does not change
/// which record governs `h`.
pub proof fn lemma_best_activation_push_above(
    acts: Seq<(u64, Seq<u8>)>,
    entry: (u64, Seq<u8>),
    h: u64,
)
    requires
        entry.0 > h,
    ensures
        spec_best_activation(acts.push(entry), h) == spec_best_activation(acts, h),
{
    assert(acts.push(entry).drop_last() =~= acts);
}

/// Appending an activation record whose height is at most `h` and at least
/// every prior height makes it the governing record for `h`.
pub proof fn lemma_best_activation_push_wins(
    acts: Seq<(u64, Seq<u8>)>,
    entry: (u64, Seq<u8>),
    h: u64,
)
    requires
        entry.0 <= h,
        forall|i: int| 0 <= i < acts.len() ==> (#[trigger] acts[i]).0 <= entry.0,
    ensures
        spec_best_activation(acts.push(entry), h) == Some(entry),
{
    assert(acts.push(entry).drop_last() =~= acts);
    lemma_best_activation_is_entry(acts, h);
}

/// Appending a configuration entry only changes lookups of its own digest,
/// which afterwards yield its document.
pub proof fn lemma_lookup_config_push(
    cfgs: Seq<(Seq<u8>, Seq<u8>)>,
    entry: (Seq<u8>, Seq<u8>),
    digest: Seq<u8>,
)
    ensures
        spec_lookup_config(cfgs.push(entry), digest) == if digest == entry.0 {
            Some(entry.1)
        } else {
            spec_lookup_config(cfgs, digest)
        },
{
    assert(cfgs.push(entry).drop_last() =~= cfgs);
    assert(cfgs.push(entry).last() == entry);
}

/// Activation gating. Committing a document `doc` with activation height
/// `h_act` — appending `(sha256_of(doc), doc)` to the configuration table
/// and `(h_act, sha256_of(doc))` to the activation table — leaves the
/// active configuration unchanged at every height below `h_act`, and makes
/// `doc` the active configuration at every height at or above it; provided
/// every prior activation height is at most `h_act` and no prior activation
/// record already names the digest of `doc`.
pub proof fn lemma_activation_gating(
    cfgs: Seq<(Seq<u8>, Seq<u8>)>,
    acts: Seq<(u64, Seq<u8>)>,
    doc: Seq<u8>,
    h_act: u64,
    q: u64,
)
    requires
        forall|i: int| 0 <= i < acts.len() ==> (#[trigger] acts[i]).0 <= h_act,
        forall|i: int| 0 <= i < acts.len() ==> (#[trigger] acts[i]).1 != sha256_of(doc),
    ensures
        q >= h_act ==> spec_active_config(
            cfgs.push((sha256_of(doc), doc)),
            acts.push((h_act, sha256_of(doc))),
            q,
        ) == Some(doc),
        q < h_act ==> spec_active_config(
            cfgs.push((sha256_of(doc), doc)),
            acts.push((h_act, sha256_of(doc))),
            q,
        ) == spec_active_config(cfgs, acts, q),
{
    let digest = sha256_of(doc);
    let cfgs2 = cfgs.push((digest, doc));
    let acts2 = acts.push((h_act, digest));
    if q >= h_act {
        lemma_best_activation_push_wins(acts, (h_act, digest), q);
        lemma_lookup_config_push(cfgs, (digest, doc), digest);
        assert(spec_active_config(cfgs2, acts2, q) == Some(doc));
    } else {
        lemma_best_activation_push_above(acts, (h_act, digest), q);
        lemma_best_activation_is_entry(acts, q);
        match spec_best_activation(acts, q) {
            Some(best) => {
                assert(best.1 != digest);
                lemma_lookup_config_push(cfgs, (digest, doc), best.1);
            },
            None => {},
        }
    }
}

} // verus!
