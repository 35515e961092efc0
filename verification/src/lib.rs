//! Core of a cross-chain intent settlement protocol.
//!
//! A solver opens an `Intent` for a user's request, whitelisted validators
//! attest to its hash until a quorum is reached, the solver then stages a
//! `Proposal` bounded by the intent's fee caps, a trusted bridging authority
//! countersigns it, and a settlement step consumes both records exactly once,
//! guarded by a fulfillment marker.
//!
//! Every operation is modelled as one atomic step over plain values: the
//! hosting ledger hands in the records an operation touches, the current
//! time, and the co-located signature-verification instruction, and applies
//! the state changes only when the operation returns `Ok`.

pub mod bytes;
pub mod errors;
pub mod instructions;
pub mod laws;
pub mod math;
pub mod pda;
pub mod serial;
pub mod sigs;
pub mod state;
pub mod types;
pub mod whitelist;
