//! The records that the JSON-RPC gateway exchanges: what it answers its
//! callers, and what the ledger-history service answers it.

pub mod horizon;
pub mod rpc;
