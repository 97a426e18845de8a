//! Decoding core of a transaction-indexing pipeline: given the flattened,
//! depth-erased instruction trace of one ledger transaction, it reconstructs
//! every occurrence of a set of tracked programs as a self-contained bundle
//! of the occurrence and the nested instructions attributed to it, routes
//! each bundle to a decoder by program id, and turns program-specific binary
//! payloads into typed records.

pub mod bubblegum;
pub mod candy_machine_core;
pub mod error;
pub mod instruction;
pub mod keys;
pub mod registry;
