//! Certificate provisioning and storage reconciliation for a trust-chain
//! participant.
//!
//! The library models the idempotent bootstrap/refresh workflow (ensure the
//! CA certificate, ensure the private identity, fetch and overwrite the
//! verification chain), the storage record that backends persist, namespace
//! resolution for the cluster backend, and the run-once / run-forever
//! scheduling decision. Network and disk I/O live outside the library and
//! hand plain values in and out.

pub mod certs;
pub mod errors;
pub mod namespace;
pub mod scheduler;
pub mod storage;
pub mod workflow;
