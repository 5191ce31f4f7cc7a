//! What travels over a connection, and where a connection leads.

pub mod message;
pub mod net_address;
