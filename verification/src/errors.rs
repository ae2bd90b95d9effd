//! The error taxonomy of the transaction-execution core.
//!
//! Each variant is terminal for the failing unit only: a verification or
//! decode failure drops that one transaction, an execution failure is
//! recorded against it, and a registration failure is fatal at startup.

use vstd::prelude::*;

verus! {

/// The signed envelope was rejected before dispatch.
#[derive(Clone, Copy, Debug, PartialEq, Eq, Structural)]
pub enum VerificationError {
    /// The byte string is too short to hold a key, a signature and a
    /// routable payload.
    TooShort,
    /// The signature does not verify over the payload bytes under the
    /// embedded public key.
    BadSignature,
}

/// A verified envelope could not be interpreted as a typed transaction.
#[derive(Clone, Copy, Debug, PartialEq, Eq, Structural)]
pub enum DecodeError {
    /// No registered service carries the transaction's service id.
    UnknownServiceId,
    /// The service does not recognise the message id.
    UnknownMessageId,
    /// The payload bytes do not parse as the variant the message id names.
    MalformedPayload,
}

/// A typed transaction failed while executing against a fork.
#[derive(Clone, Copy, Debug, PartialEq, Eq, Structural)]
pub enum ExecutionError {
    /// The carried configuration bytes do not deserialize to a
    /// configuration document.
    MalformedConfig,
}

/// Service registration failed at node startup.
#[derive(Clone, Copy, Debug, PartialEq, Eq, Structural)]
pub enum RegistrationError {
    /// Another registered service already carries this numeric id.
    DuplicateServiceId,
}

} // verus!
