//! A peer: a node of the network as another node knows it.

use crate::comms::connection::net_address::NetAddress;
use crate::comms::peer_manager::node_id::NodeId;
use vstd::prelude::*;

verus! {

/// What a node holds against or for a peer, one bit each.
#[derive(Clone, Copy, Debug, PartialEq, Eq, Structural, PartialOrd, Ord, Hash)]
pub struct PeerFlags {
    bits: u8,
}

impl PeerFlags {
    /// The flags as a byte.
    pub closed spec fn spec_bits(&self) -> u8 {
        self.bits
    }

    /// Only the bits that name a flag are ever set.
    #[verifier::type_invariant]
    spec fn known_bits_only(self) -> bool {
        self.bits & !1u8 == 0
    }

    /// No flag set.
    pub fn empty() -> (flags: PeerFlags)
        ensures
            flags.spec_bits() == 0,
    {
        assert(0u8 & !1u8 == 0) by (bit_vector);
        PeerFlags { bits: 0 }
    }

    /// The flag of a banned peer, bit 0.
    pub fn banned() -> (flags: PeerFlags)
        ensures
            flags.spec_bits() == 1,
    {
        assert(1u8 & !1u8 == 0) by (bit_vector);
        PeerFlags { bits: 1 }
    }

    /// The flags with the given bits, where every bit names a flag.
    pub fn from_bits(bits: u8) -> (flags: Option<PeerFlags>)
        ensures
            flags is Some <==> bits & !1u8 == 0,
            flags matches Some(f) ==> f.spec_bits() == bits,
    {
        if bits & !1u8 == 0 {
            Some(PeerFlags { bits })
        } else {
            None
        }
    }

    /// The flags as a byte.
    #[verifier::when_used_as_spec(spec_bits)]
    pub fn bits(&self) -> (bits: u8)
        ensures
            bits == self.spec_bits(),
            bits & !1u8 == 0,
    {
        proof {
            use_type_invariant(self);
        }
        self.bits
    }

    /// Whether every flag of `other` is set in these flags.
    pub fn contains(&self, other: PeerFlags) -> (contained: bool)
        ensures
            contained == (self.spec_bits() & other.spec_bits() == other.spec_bits()),
    {
        self.bits & other.bits == other.bits
    }

    /// Sets the flags of `other` where `value` is true, and clears them
    /// where it is false.
    pub fn set(&mut self, other: PeerFlags, value: bool)
        ensures
            final(self).spec_bits() == if value {
                old(self).spec_bits() | other.spec_bits()
            } else {
                old(self).spec_bits() & !other.spec_bits()
            },
    {
        proof {
            use_type_invariant(&*self);
            use_type_invariant(other);
        }
        let a = self.bits;
        let b = other.bits;
        if value {
            assert((a & !1u8 == 0 && b & !1u8 == 0) ==> (a | b) & !1u8 == 0) by (bit_vector);
            self.bits = a | b;
        } else {
            assert(a & !1u8 == 0 ==> (a & !b) & !1u8 == 0) by (bit_vector);
            self.bits = a & !b;
        }
    }
}

impl Default for PeerFlags {
    fn default() -> (flags: PeerFlags)
        ensures
            flags.spec_bits() == 0,
    {
        PeerFlags::empty()
    }
}

/// An address of a peer, with what is known of its use.
#[derive(Clone, Debug, PartialEq, Eq)]
pub struct NetAddressWithStats {
    /// The address.
    pub net_address: NetAddress,
    /// When the peer was last reached at the address, in milliseconds since
    /// the Unix epoch; nothing where it never was.
    pub last_seen: Option<i64>,
}

/// The addresses of a peer.
#[derive(Clone, Debug, PartialEq, Eq)]
pub struct NetAddresses {
    pub addresses: Vec<NetAddressWithStats>,
}

/// The latest of the times at which the addresses were last seen; nothing
/// where none ever was.
pub open spec fn latest_seen(addresses: Seq<NetAddressWithStats>) -> Option<i64>
    decreases addresses.len(),
{
    if addresses.len() == 0 {
        None
    } else {
        match (latest_seen(addresses.drop_last()), addresses.last().last_seen) {
            (Some(a), Some(b)) => Some(
                if a < b {
                    b
                } else {
                    a
                },
            ),
            (Some(a), None) => Some(a),
            (None, b) => b,
        }
    }
}

impl NetAddresses {
    /// The addresses that hold the given address alone, never seen.
    pub fn from(net_address: NetAddress) -> (addresses: NetAddresses)
        ensures
            addresses.addresses@ == seq![NetAddressWithStats { net_address, last_seen: None }],
    {
        let mut addresses: Vec<NetAddressWithStats> = Vec::new();
        addresses.push(NetAddressWithStats { net_address, last_seen: None });
        NetAddresses { addresses }
    }

    /// When the peer was last reached at any of the addresses.
    pub fn last_seen(&self) -> (seen: Option<i64>)
        ensures
            seen == latest_seen(self.addresses@),
    {
        let mut latest: Option<i64> = None;
        let mut i: usize = 0;
        while i < self.addresses.len()
            invariant
                i <= self.addresses.len(),
                latest == latest_seen(self.addresses@.take(i as int)),
            decreases self.addresses.len() - i,
        {
            assert(self.addresses@.take(i + 1).drop_last() =~= self.addresses@.take(i as int));
            if let Some(seen) = self.addresses[i].last_seen {
                latest = match latest {
                    Some(so_far) => Some(
                        if so_far < seen {
                            seen
                        } else {
                            so_far
                        },
                    ),
                    None => Some(seen),
                };
            }
            i += 1;
        }
        assert(self.addresses@.take(i as int) =~= self.addresses@);
        latest
    }
}

/// A peer: its public key, its node identifier, its addresses and its flags.
#[derive(Debug)]
pub struct Peer<K> {
    pub public_key: K,
    pub node_id: NodeId,
    pub addresses: NetAddresses,
    pub flags: PeerFlags,
}

impl<K> Peer<K> {
    /// A new peer.
    pub fn new(public_key: K, node_id: NodeId, addresses: NetAddresses, flags: PeerFlags) -> (peer:
        Peer<K>)
        ensures
            peer.public_key == public_key,
            peer.node_id == node_id,
            peer.addresses == addresses,
            peer.flags == flags,
    {
        Peer { public_key, node_id, addresses, flags }
    }

    /// When the peer was last reached, in milliseconds since the Unix epoch.
    pub fn last_seen(&self) -> (seen: Option<i64>)
        ensures
            seen == latest_seen(self.addresses.addresses@),
    {
        self.addresses.last_seen()
    }

    /// Whether the peer is banned.
    pub fn is_banned(&self) -> (banned: bool)
        ensures
            banned == (self.flags.bits() & 1 == 1),
    {
        self.flags.contains(PeerFlags::banned())
    }

    /// Bans the peer or lifts the ban. The other flags stay as they are.
    pub fn set_banned(&mut self, ban_flag: bool)
        ensures
            final(self).flags.bits() == if ban_flag {
                old(self).flags.bits() | 1
            } else {
                old(self).flags.bits() & !1u8
            },
            final(self).public_key == old(self).public_key,
            final(self).node_id == old(self).node_id,
            final(self).addresses == old(self).addresses,
    {
        self.flags.set(PeerFlags::banned(), ban_flag);
    }
}

} // verus!
