//! Core of a two-radio Bluetooth LE test harness.
//!
//! A server process leases one radio adapter per role from a pool,
//! advertises on request of a remote client, and a client process scans
//! for the advertisement and matches it against an expected fingerprint
//! within a bounded timeout.  This crate holds the orchestration logic of
//! that harness — the adapter pool, the discovery-matching state machine,
//! the per-connection session state and the loop decisions — stated and
//! verified over plain values.  The radio stack, the RPC transport and the
//! async runtime stay outside, in the unverified shell that drives this
//! library.

pub mod address;
pub mod adv;
pub mod errors;
pub mod matcher;
pub mod orchestrator;
pub mod plan;
pub mod pool;
pub mod retry;
pub mod session;
