//! The service registry: the node's explicit routing table.
//!
//! Built and validated once at startup — registration fails on a duplicate
//! numeric id — and then consulted to route each raw transaction to the
//! service that owns its service id. A transaction whose service id no
//! registered service carries is rejected, never routed anywhere.

use vstd::prelude::*;

use crate::CONFIG_SERVICE;
use crate::errors::DecodeError;
use crate::errors::RegistrationError;
use crate::service::ConfigUpdateService;
use crate::service::ConfigUpdaterTransactions;
use crate::service::TX_CONFIG_MESSAGE_ID;
use crate::tx::RawTransaction;
use crate::tx::spec_decode_tx_config;

verus! {

/// The closed set of services this node can host.
#[derive(Clone, Copy, Debug)]
pub enum ServiceKind {
    ConfigUpdate(ConfigUpdateService),
}

/// The routing id a service kind carries.
pub open spec fn spec_kind_id(kind: ServiceKind) -> u16 {
    match kind {
        ServiceKind::ConfigUpdate(_) => CONFIG_SERVICE,
    }
}

impl ServiceKind {
    pub fn id(&self) -> (r: u16)
        ensures
            r == spec_kind_id(*self),
    {
        match self {
            ServiceKind::ConfigUpdate(svc) => svc.service_id(),
        }
    }
}

/// The registry of services, keyed by their numeric ids.
#[derive(Debug)]
pub struct ServiceRegistry {
    pub services: Vec<ServiceKind>,
}

impl ServiceRegistry {
    /// The registered routing ids, in registration order.
    pub open spec fn ids(&self) -> Seq<u16> {
        self.services@.map_values(|k: ServiceKind| spec_kind_id(k))
    }

    /// Registered ids are collision-free.
    pub open spec fn wf(&self) -> bool {
        forall|i: int, j: int|
            0 <= i < j < self.ids().len() ==> self.ids()[i] != self.ids()[j]
    }

    /// Whether some registered service carries `id`.
    pub open spec fn spec_has_id(&self, id: u16) -> bool {
        exists|i: int| 0 <= i < self.ids().len() && self.ids()[i] == id
    }

    /// An empty registry, as node startup begins.
    pub fn new() -> (r: ServiceRegistry)
        ensures
            r.ids() == Seq::<u16>::empty(),
            r.wf(),
    {
        let r = ServiceRegistry { services: Vec::new() };
        proof {
            assert(r.ids() =~= Seq::<u16>::empty());
        }
        r
    }

    /// Whether some registered service carries `id`.
    pub fn has_id(&self, id: u16) -> (r: bool)
        ensures
            r == self.spec_has_id(id),
    {
        let n = self.services.len();
        let mut i: usize = 0;
        while i < n
            invariant
                i <= n,
                n == self.services@.len(),
                forall|j: int| 0 <= j < i ==> self.ids()[j] != id,
            decreases n - i,
        {
            if self.services[i].id() == id {
                proof {
                    assert(self.ids()[i as int] == id);
                }
                return true;
            }
            i = i + 1;
        }
        false
    }

    /// Registers a service: appends it, unless its id collides with one
    /// already registered — a fatal startup error that leaves the registry
    /// unchanged.
    pub fn register(&mut self, kind: ServiceKind) -> (r: Result<(), RegistrationError>)
        requires
            old(self).wf(),
        ensures
            final(self).wf(),
            old(self).spec_has_id(spec_kind_id(kind)) ==> (r matches Err(e) && e
                == RegistrationError::DuplicateServiceId) && final(self).services@ == old(
                self,
            ).services@,
            !old(self).spec_has_id(spec_kind_id(kind)) ==> r is Ok && final(self).services@ == old(
                self,
            ).services@.push(kind),
    {
        if self.has_id(kind.id()) {
            return Err(RegistrationError::DuplicateServiceId);
        }
        let ghost ids0 = self.ids();
        self.services.push(kind);
        proof {
            assert(self.ids() =~= ids0.push(spec_kind_id(kind)));
        }
        Ok(())
    }

    /// Routes a raw transaction to the service that carries its service id
    /// and decodes it there; a service id nobody carries is rejected here
    /// and reaches no service.
    pub fn dispatch(&self, raw: RawTransaction) -> (r: Result<
        ConfigUpdaterTransactions,
        DecodeError,
    >)
        ensures
            !self.spec_has_id(raw.service_id) ==> (r matches Err(e) && e
                == DecodeError::UnknownServiceId),
            self.spec_has_id(raw.service_id) ==> raw.service_id == CONFIG_SERVICE && (
            raw.message_id == TX_CONFIG_MESSAGE_ID ==> match spec_decode_tx_config(raw.payload@) {
                Some(fields) => r matches Ok(t) && t matches
                    ConfigUpdaterTransactions::TxConfig(tx) && tx.from.bytes@ == fields.0
                    && tx.config@ == fields.1 && tx.actual_from == fields.2,
                None => r matches Err(e) && e == DecodeError::MalformedPayload,
            }) && (raw.message_id != TX_CONFIG_MESSAGE_ID ==> (r matches Err(e) && e
                == DecodeError::UnknownMessageId)),
    {
        let n = self.services.len();
        let mut i: usize = 0;
        while i < n
            invariant
                i <= n,
                n == self.services@.len(),
                forall|j: int| 0 <= j < i ==> self.ids()[j] != raw.service_id,
            decreases n - i,
        {
            if self.services[i].id() == raw.service_id {
                proof {
                    assert(self.ids()[i as int] == raw.service_id);
                }
                match self.services[i] {
                    ServiceKind::ConfigUpdate(svc) => {
                        return svc.tx_from_raw(raw);
                    },
                }
            }
            i = i + 1;
        }
        Err(DecodeError::UnknownServiceId)
    }
}

} // verus!
