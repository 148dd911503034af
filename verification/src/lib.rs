//! A minimal marketplace ledger: sellers list items, buyers purchase them, and
//! aggregate statistics are kept in step with every change.
//!
//! The crate is split into the records that are stored, the mathematical model
//! of the marketplace, the rules that decide each operation from the records it
//! touches, an in-memory store, and the operations on that store.

pub mod contract;
pub mod identity;
pub mod laws;
pub mod ledger;
pub mod model;
pub mod records;
pub mod rules;
