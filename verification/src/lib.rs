//! A verified payout orchestration pipeline.
//!
//! A payout against the remote payment-processor API is a chain of four
//! dependent remote calls: register the payee as a contact, register the
//! payee's bank account as a fund account, create the payout, and approve it.
//! Each step consumes the identifier returned by the previous one, and a
//! failure at any step must halt the run without touching later endpoints.
//!
//! This crate holds the verified core of that workflow: the request bodies
//! each step sends, the error taxonomy, and the run state machine that
//! threads identifiers forward, short-circuits on the first failure, and
//! keeps one idempotency token for the whole run. The unverified edge that
//! actually performs the HTTP calls drives the state machine from outside:
//! it asks for the next action, dispatches it, and reports the outcome back.

pub mod error;
pub mod model;
pub mod pipeline;
pub mod laws;
