//! A small poll ledger for a CosmWasm chain: callers create polls that are
//! keyed by their question, cast "yes" and "no" votes on them, and read the
//! tallies and the configuration back.
//!
//! The records live in the chain's key-value storage, which is reached through
//! `cw-storage-plus`. The module `host` holds the handles to that storage and
//! states, without proof, what each call does to the stored records.
//! Everything else is verified against those statements:
//!
//! - `ledger` is the mathematical model of the stored records and of each
//!   request, and `laws` proves what holds of that model;
//! - `contract` holds the requests themselves, each with a contract that ties
//!   it to the model;
//! - `state`, `msg`, `response` and `error` hold the plain data that goes in
//!   and out.

pub mod contract;
pub mod error;
pub mod host;
pub mod laws;
pub mod ledger;
pub mod msg;
pub mod response;
pub mod state;
