//! The transaction core of a Mimblewimble ledger: the entities of a
//! confidential transaction, the builders that assemble them, and the checks
//! that make a transaction consistent in itself; beside it, the bookkeeping of
//! the peer-to-peer layer.
//!
//! The elliptic-curve primitives come from `tari_crypto` and are taken on
//! trust, in `primitives`. All else is verified against contracts that speak
//! of the 32-byte encodings of keys and points.

pub mod block;
pub mod comms;
pub mod decimal;
pub mod ordering;
pub mod primitives;
pub mod transaction;
pub mod transaction_protocol;
pub mod types;
