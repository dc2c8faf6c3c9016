//! Routing and asset-abstraction core of an AMM swap protocol.
//!
//! The library unifies two asset representations (a native ledger coin and a
//! contract-managed token) behind one interface, computes tax-aware transfer
//! amounts, and sequences multi-hop swap operations into the outbound
//! messages for each hop. All ledger lookups (balances, pair records, tax,
//! token symbols) are external collaborators: their results enter the
//! library as plain values, and every decision made on them is verified.

pub mod asset;
pub mod codec;
pub mod messages;
pub mod operations;
