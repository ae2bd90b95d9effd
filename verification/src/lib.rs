//! The transaction-execution core of a replicated state machine: signed,
//! typed transactions are routed by numeric service id to a registered
//! service and deterministically applied against a versioned key-value
//! store. The concrete service here is the configuration updater: its one
//! transaction commits a configuration document so that it takes effect
//! from a given future block height.

use vstd::prelude::*;

pub mod crypto;
pub mod errors;
pub mod messages;
pub mod registry;
pub mod schema;
pub mod service;
pub mod store;
pub mod tx;
pub mod wire;

verus! {

/// Numeric identifier under which the configuration-update service is
/// registered; routing keys on it.
pub const CONFIG_SERVICE: u16 = 1;

} // verus!
