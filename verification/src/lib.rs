//! Machine-identity attestation: a local hardware fingerprint (CPU brand and
//! primary MAC address) is read with sentinel fallbacks, then registered with
//! or queried against a remote registry of authorized machines under a
//! failure-tolerant decision policy.

pub mod attest;
pub mod config;
pub mod fingerprint;
pub mod identity;
pub mod registry;
