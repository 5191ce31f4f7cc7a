//! The peers a node knows of.

pub mod node_id;
pub mod peer;
