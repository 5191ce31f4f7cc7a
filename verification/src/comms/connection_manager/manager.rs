//! The connection manager: which peers a node is connected to, and which of
//! its ports those connections hold.
//!
//! Making and starting a connection is the caller's business, and so is
//! asking a connection whether it is live, or a port whether it can be bound.
//! What is decided here is what follows from the answers.

use crate::comms::connection::net_address::NetAddress;
use crate::comms::connection_manager::container::ConnectionContainer;
use crate::comms::connection_manager::container::ConnectionWrapper;
use crate::comms::connection_manager::error::ConnectionManagerError;
use crate::comms::peer_manager::node_id::NodeId;
use std::ops::Range;
use vstd::prelude::*;

verus! {

/// What a connection manager is set up with.
pub struct ConnectionManagerConfig {
    /// The largest message a connection accepts, in bytes.
    pub max_message_size: u64,
    /// How often a connection is tried before it is given up.
    pub max_connect_retries: u16,
    /// The SOCKS proxy that outbound connections go through, if any.
    pub socks_proxy_address: Option<NetAddress>,
    /// The in-process address to which inbound messages are handed on.
    pub consumer_address: String,
    /// The ports that inbound connections may be bound to, the end excluded.
    pub port_range: Range<u16>,
    /// The host that inbound connections are bound on.
    pub host: String,
}

/// Whether `port` is among `ports`.
pub open spec fn allocated(ports: Seq<u16>, port: u16) -> bool {
    ports.contains(port)
}

/// Whether `port` lies in the range and is not among `ports`.
pub open spec fn is_free(range: Range<u16>, ports: Seq<u16>, port: u16) -> bool {
    range.start <= port < range.end && !allocated(ports, port)
}

/// The connections of a node and the ports they hold.
pub struct ConnectionManager<C> {
    container: ConnectionContainer<C>,
    config: ConnectionManagerConfig,
    port_allocations: Vec<u16>,
}

impl<C> ConnectionManager<C> {
    /// The manager is well formed: no node has two connections, and no port
    /// is allocated twice. Every manager this module hands out is, and every
    /// operation keeps it so.
    pub closed spec fn wf(&self) -> bool {
        self.container.wf() && self.port_allocations@.no_duplicates()
    }

    /// The connections, by node.
    pub closed spec fn connections(&self) -> Map<Seq<u8>, ConnectionWrapper<C>> {
        self.container@
    }

    /// The ports that are allocated, in the order of their allocation.
    pub closed spec fn ports(&self) -> Seq<u16> {
        self.port_allocations@
    }

    /// What the manager was set up with. No operation changes it.
    pub closed spec fn configuration(&self) -> ConnectionManagerConfig {
        self.config
    }

    /// The range of ports that the manager allocates from.
    pub open spec fn port_range(&self) -> Range<u16> {
        self.configuration().port_range
    }

    /// The host that allocated addresses are on.
    pub open spec fn host(&self) -> String {
        self.configuration().host
    }

    /// A manager without connections or allocated ports.
    pub fn new(config: ConnectionManagerConfig) -> (manager: ConnectionManager<C>)
        ensures
            manager.wf(),
            manager.connections() == Map::<Seq<u8>, ConnectionWrapper<C>>::empty(),
            manager.ports() == Seq::<u16>::empty(),
            manager.configuration() == config,
    {
        ConnectionManager {
            container: ConnectionContainer::new(),
            config,
            port_allocations: Vec::new(),
        }
    }

    /// What the manager was set up with.
    pub fn config(&self) -> (config: &ConnectionManagerConfig)
        ensures
            *config == self.configuration(),
    {
        &self.config
    }

    /// The connection to the given node as the table holds it, live or not.
    pub fn find_connection(&self, node_id: &NodeId) -> (found: Option<&ConnectionWrapper<C>>)
        requires
            self.wf(),
        ensures
            found is Some <==> self.connections().dom().contains(node_id@),
            found matches Some(w) ==> *w == self.connections()[node_id@],
    {
        self.container.get_connection(node_id)
    }

    /// The connection to the given node, where there is one and `active` says
    /// that it is live. A connection that is no longer live is taken out of
    /// the table, and its port released.
    pub fn get_connection(&mut self, node_id: &NodeId, active: bool) -> (live: Option<&C>)
        requires
            old(self).wf(),
        ensures
            final(self).wf(),
            final(self).configuration() == old(self).configuration(),
            !old(self).connections().dom().contains(node_id@) ==> live is None
                && final(self).connections() == old(self).connections()
                && final(self).ports() == old(self).ports(),
            old(self).connections().dom().contains(node_id@) && active ==> live == Some(
                &old(self).connections()[node_id@].connection,
            ) && final(self).connections() == old(self).connections() && final(self).ports()
                == old(self).ports(),
            old(self).connections().dom().contains(node_id@) && !active ==> live is None
                && final(self).connections() == old(self).connections().remove(node_id@)
                && final(self).ports() == released(
                old(self).ports(),
                old(self).connections()[node_id@].address.port,
            ),
    {
        if active {
            match self.container.get_connection(node_id) {
                Some(wrapped) => Some(&wrapped.connection),
                None => None,
            }
        } else {
            let _ = self.drop_connection(node_id);
            None
        }
    }

    /// Puts a connection to the given node, made to the given address, into
    /// the table, in place of the one that was there.
    pub fn register_connection(&mut self, node_id: NodeId, connection: C, address: NetAddress)
        requires
            old(self).wf(),
        ensures
            final(self).wf(),
            final(self).connections() == old(self).connections().insert(
                node_id@,
                ConnectionWrapper { connection, address },
            ),
            final(self).ports() == old(self).ports(),
            final(self).configuration() == old(self).configuration(),
    {
        let _ = self.container.insert_connection(node_id, ConnectionWrapper::from((connection, address)));
    }

    /// Drops the connection to the given node and releases its port, where
    /// its address has one. An error where there is no such connection.
    pub fn drop_connection(&mut self, node_id: &NodeId) -> (dropped: Result<
        (),
        ConnectionManagerError,
    >)
        requires
            old(self).wf(),
        ensures
            final(self).wf(),
            final(self).configuration() == old(self).configuration(),
            dropped is Ok <==> old(self).connections().dom().contains(node_id@),
            dropped matches Err(e) ==> e == ConnectionManagerError::PeerConnectionNotFound
                && final(self).connections() == old(self).connections() && final(self).ports()
                == old(self).ports(),
            dropped is Ok ==> final(self).connections() == old(self).connections().remove(
                node_id@,
            ) && final(self).ports() == released(
                old(self).ports(),
                old(self).connections()[node_id@].address.port,
            ),
    {
        let port = match self.container.get_connection(node_id) {
            Some(wrapper) => wrapper.address.maybe_port(),
            None => {
                return Err(ConnectionManagerError::PeerConnectionNotFound);
            },
        };
        if let Some(port) = port {
            let _ = self.release_port(port);
        }
        match self.container.remove_connection(node_id) {
            Ok(_) => Ok(()),
            Err(e) => Err(e),
        }
    }

    /// Releases a port: takes it out of the allocated ports and hands it
    /// back, or nothing where it was not allocated.
    pub fn release_port(&mut self, port: u16) -> (freed: Option<u16>)
        requires
            old(self).wf(),
        ensures
            final(self).wf(),
            final(self).connections() == old(self).connections(),
            final(self).configuration() == old(self).configuration(),
            final(self).ports() == without(old(self).ports(), port),
            freed == if allocated(old(self).ports(), port) {
                Some(port)
            } else {
                None
            },
    {
        let mut i: usize = 0;
        while i < self.port_allocations.len()
            invariant
                i <= self.port_allocations.len(),
                *self == *old(self),
                self.wf(),
                forall|j: int| 0 <= j < i ==> self.port_allocations@[j] != port,
            decreases self.port_allocations.len() - i,
        {
            if self.port_allocations[i] == port {
                proof {
                    lemma_without_found(self.port_allocations@, port, i as int);
                }
                let freed = self.port_allocations.remove(i);
                return Some(freed);
            }
            i += 1;
        }
        proof {
            lemma_without_absent(self.port_allocations@, port);
        }
        None
    }

    /// The first port from `from` on that lies in the range and is not
    /// allocated; nothing where there is none.
    pub fn next_free_port(&self, from: u16) -> (port: Option<u16>)
        ensures
            port matches Some(p) ==> from <= p && is_free(self.port_range(), self.ports(), p)
                && forall|q: u16| from <= q < p ==> !is_free(self.port_range(), self.ports(), q),
            port is None ==> forall|q: u16| from <= q ==> !is_free(
                self.port_range(),
                self.ports(),
                q,
            ),
    {
        let start = if from < self.config.port_range.start {
            self.config.port_range.start
        } else {
            from
        };
        let mut port = start;
        while port < self.config.port_range.end
            invariant
                start <= port,
                start == if from < self.config.port_range.start {
                    self.config.port_range.start
                } else {
                    from
                },
                forall|q: u16| from <= q < port ==> !is_free(self.port_range(), self.ports(), q),
            decreases self.config.port_range.end - port,
        {
            if !self.is_allocated(port) {
                return Some(port);
            }
            port += 1;
        }
        None
    }

    /// The first port after `port` that lies in the range and is not
    /// allocated; nothing where there is none.
    pub fn next_free_port_after(&self, port: u16) -> (next: Option<u16>)
        ensures
            next matches Some(p) ==> port < p && is_free(self.port_range(), self.ports(), p)
                && forall|q: u16| port < q < p ==> !is_free(self.port_range(), self.ports(), q),
            next is None ==> forall|q: u16| port < q ==> !is_free(
                self.port_range(),
                self.ports(),
                q,
            ),
    {
        if port == u16::MAX {
            None
        } else {
            self.next_free_port(port + 1)
        }
    }

    /// Whether the port is allocated.
    pub fn is_allocated(&self, port: u16) -> (taken: bool)
        ensures
            taken == allocated(self.ports(), port),
    {
        let mut i: usize = 0;
        while i < self.port_allocations.len()
            invariant
                i <= self.port_allocations.len(),
                forall|j: int| 0 <= j < i ==> self.port_allocations@[j] != port,
            decreases self.port_allocations.len() - i,
        {
            if self.port_allocations[i] == port {
                return true;
            }
            i += 1;
        }
        false
    }

    /// Allocates a port that was found free and can be bound, and gives the
    /// address on the manager's host with that port; nothing, and no change,
    /// where the port is not free.
    pub fn claim_port(&mut self, port: u16) -> (address: Option<NetAddress>)
        requires
            old(self).wf(),
        ensures
            final(self).wf(),
            final(self).connections() == old(self).connections(),
            final(self).configuration() == old(self).configuration(),
            address is Some <==> is_free(old(self).port_range(), old(self).ports(), port),
            address matches Some(a) ==> a.port == Some(port) && a.host@ == old(self).host()@
                && final(self).ports() == old(self).ports().push(port),
            address is None ==> final(self).ports() == old(self).ports(),
    {
        if port < self.config.port_range.start || port >= self.config.port_range.end
            || self.is_allocated(port) {
            return None;
        }
        self.port_allocations.push(port);
        assert(self.port_allocations@.no_duplicates()) by {
            let ports = self.port_allocations@;
            assert forall|i: int, j: int| 0 <= i < ports.len() && 0 <= j < ports.len() && i != j
            implies ports[i] != ports[j] by {
                if i == ports.len() - 1 {
                    assert(old(self).port_allocations@[j] == ports[j]);
                } else if j == ports.len() - 1 {
                    assert(old(self).port_allocations@[i] == ports[i]);
                } else {
                    assert(old(self).port_allocations@[i] == ports[i]);
                    assert(old(self).port_allocations@[j] == ports[j]);
                }
            }
        }
        Some(NetAddress::new(self.config.host.clone(), Some(port)))
    }
}

/// The ports without the given one.
pub open spec fn without(ports: Seq<u16>, port: u16) -> Seq<u16> {
    ports.filter(|p: u16| p != port)
}

/// The ports once the port of a dropped connection, if it had one, is
/// released.
pub open spec fn released(ports: Seq<u16>, port: Option<u16>) -> Seq<u16> {
    match port {
        Some(p) => without(ports, p),
        None => ports,
    }
}

/// Among ports of which none occurs twice, the ports without the one at `i`
/// are the ports with the place `i` taken out.
proof fn lemma_without_found(ports: Seq<u16>, port: u16, i: int)
    requires
        ports.no_duplicates(),
        0 <= i < ports.len(),
        ports[i] == port,
    ensures
        without(ports, port) == ports.remove(i),
        ports.remove(i).no_duplicates(),
        allocated(ports, port),
    decreases ports.len(),
{
    reveal(Seq::filter);
    let keep = |p: u16| p != port;
    if i == ports.len() - 1 {
        assert(ports.remove(i) =~= ports.drop_last());
        lemma_without_absent(ports.drop_last(), port);
    } else {
        let last = ports.last();
        assert(last != port);
        lemma_without_found(ports.drop_last(), port, i);
        assert(ports.drop_last().remove(i).push(last) =~= ports.remove(i));
    }
    assert forall|a: int, b: int|
        0 <= a < ports.remove(i).len() && 0 <= b < ports.remove(i).len() && a != b implies ports.remove(
        i,
    )[a] != ports.remove(i)[b] by {
        let a0 = if a < i { a } else { a + 1 };
        let b0 = if b < i { b } else { b + 1 };
        assert(ports.remove(i)[a] == ports[a0]);
        assert(ports.remove(i)[b] == ports[b0]);
    }
}

/// Where the port is not among the ports, taking it out changes nothing.
proof fn lemma_without_absent(ports: Seq<u16>, port: u16)
    requires
        forall|j: int| 0 <= j < ports.len() ==> ports[j] != port,
    ensures
        without(ports, port) == ports,
        !allocated(ports, port),
    decreases ports.len(),
{
    reveal(Seq::filter);
    if ports.len() > 0 {
        lemma_without_absent(ports.drop_last(), port);
        assert(ports.drop_last().push(ports.last()) =~= ports);
    }
}

} // verus!
