//! A confidential record store for a transparent ledger.
//!
//! Writes reach the store with a sender identity that the host has already
//! authenticated. Reads carry no identity at all, so each read presents a
//! viewing key: a bearer token bound to one owner and one record index.
//!
//! * [`encoding`]: the byte encodings the stored keys are built from,
//!   and the proofs that they can be told apart.
//! * [`keys`]: the storage key of every record and every viewing key.
//! * [`backend`]: the key-value backend and the toolkit calls made on it.
//! * [`ledger`]: the records and viewing keys that a backend state stands for.
//! * [`generator`]: the derivation of a viewing key.
//! * [`contract`]: the operations.
//! * [`laws`]: what holds of every sequence of operations.

pub mod backend;
pub mod contract;
pub mod encoding;
pub mod error;
pub mod generator;
pub mod keys;
pub mod laws;
pub mod ledger;
pub mod msg;
pub mod state;
