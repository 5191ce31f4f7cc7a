//! The connections that are open to peers, and the ports they are bound to.

pub mod container;
pub mod error;
pub mod manager;
