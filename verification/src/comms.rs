//! The bookkeeping of the peer-to-peer layer: message envelopes, peers and the
//! connections that are open to them.

pub mod connection;
pub mod connection_manager;
pub mod peer_manager;
