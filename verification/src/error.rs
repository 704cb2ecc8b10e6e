//! The error taxonomy of a payout run: which step failed, and how.

use vstd::prelude::*;

verus! {

/// The four stages of a payout run, in the order they are dispatched.
#[derive(Clone, Copy, Debug, PartialEq, Eq, Structural)]
pub enum Step {
    /// Registering the payee as a contact.
    Contact,
    /// Registering the payee's bank account against the contact.
    FundAccount,
    /// Creating the payout itself.
    Payout,
    /// Approving the created payout.
    Approval,
}

/// Why a stage of the run failed.
#[derive(Debug, PartialEq, Eq)]
pub enum ErrorKind {
    /// The request never completed: a connection, DNS or timeout failure,
    /// with the message the transport reported. The failed step may be
    /// retried, subject to the idempotency-token rule.
    TransportError(String),
    /// The remote service answered with a non-success HTTP status.
    RemoteRejection(u16),
    /// A success status whose body held no identifier: a contract mismatch,
    /// not a transient condition.
    DecodeError,
    /// A success status whose identifier was empty: logically impossible
    /// content, a breach of the remote contract.
    InvariantViolation,
    /// A credential the run needs was missing at construction; fatal, the
    /// caller must fix the configuration before re-invoking.
    ConfigurationError,
}

/// The first failure of a run: the step that produced it and its kind.
/// The orchestrator wraps each step's error with the step's identity and
/// returns it verbatim; no error kind is caught or downgraded.
#[derive(Debug, PartialEq, Eq)]
pub struct PayError {
    pub step: Step,
    pub kind: ErrorKind,
}

} // verus!
