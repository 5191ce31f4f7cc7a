//! The address of a peer.

use vstd::prelude::*;

verus! {

/// Where a peer can be reached: a host and, for the kinds of address that
/// have one, a port.
#[derive(Clone, Debug, PartialEq, Eq)]
pub struct NetAddress {
    pub host: String,
    pub port: Option<u16>,
}

impl NetAddress {
    /// The address of the given host and port.
    pub fn new(host: String, port: Option<u16>) -> (address: NetAddress)
        ensures
            address.host == host,
            address.port == port,
    {
        NetAddress { host, port }
    }

    /// The port of the address, where it has one.
    pub fn maybe_port(&self) -> (port: Option<u16>)
        ensures
            port == self.port,
    {
        self.port
    }
}

} // verus!
