//! Reconciliation of a host's public addresses with the A and AAAA records
//! that a DNS provider publishes for it.
//!
//! The library holds the decisions: which records are matched, which of them
//! need an update and with what payload, and the per-cycle state machine that
//! tells the caller which request to make next. Performing the requests and
//! sleeping between cycles is left to the caller.
pub mod cycle;
pub mod plan;
pub mod record;
