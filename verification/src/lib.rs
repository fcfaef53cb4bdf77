//! Local-first persistence and synchronization layer for a personal-finance
//! ledger: a relational store of transactions, recurring-payment templates and
//! configuration entries, a mapper between loosely typed documents and typed
//! rows, and the pull / push / restore synchronization flows.

pub mod doc;
pub mod json;
pub mod mapper;
pub mod store;
pub mod sync;
