//! The errors of the connection manager.

use vstd::prelude::*;

verus! {

/// Why the connection manager could not do what was asked.
#[derive(Clone, Copy, Debug, PartialEq, Eq, Structural)]
pub enum ConnectionManagerError {
    /// There is no connection to the peer.
    PeerConnectionNotFound,
    /// Every port of the range is taken.
    NoAvailablePeerConnectionPort,
}

} // verus!
