//! Orchestration core of a command-line tool for Intel SGX/TDX attestation
//! quotes: it normalizes the quote file's bytes, chooses where collateral is
//! fetched from, sequences retrieval and verification, and decides what each
//! command prints.
//!
//! Parsing, verification and hex coding are done by the `dcap-qvl` and `hex`
//! crates. Every call into them stands behind a small function whose contract
//! is trusted; everything around those calls is verified.

pub mod collateral;
pub mod dispatch;
pub mod failure;
pub mod normalize;
pub mod quote;
pub mod report;
pub mod retrieval;
pub mod verify;
