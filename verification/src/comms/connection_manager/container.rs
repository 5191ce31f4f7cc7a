//! The table of live connections, one for each peer at most.
//!
//! The rows are kept in a vector and found by comparing node identifiers byte
//! by byte, so that every operation is proved against the map from
//! identifiers to connections that the table stands for. A node has few
//! connections at a time, and a scan of them is cheap.

use crate::comms::connection::net_address::NetAddress;
use crate::comms::connection_manager::error::ConnectionManagerError;
use crate::comms::peer_manager::node_id::NodeId;
use vstd::prelude::*;

verus! {

/// A connection together with the address it was made to.
pub struct ConnectionWrapper<T> {
    pub connection: T,
    pub address: NetAddress,
}

impl<T> ConnectionWrapper<T> {
    /// The connection, without its address.
    pub fn unwrap(self) -> (connection: T)
        ensures
            connection == self.connection,
    {
        self.connection
    }

    /// The wrapper of a connection and its address.
    pub fn from(pair: (T, NetAddress)) -> (wrapper: ConnectionWrapper<T>)
        ensures
            wrapper.connection == pair.0,
            wrapper.address == pair.1,
    {
        let (data, address) = pair;
        ConnectionWrapper { connection: data, address }
    }
}

/// One row of the table.
struct Entry<C> {
    node_id: NodeId,
    wrapper: ConnectionWrapper<C>,
}

/// Whether some row of the table is for the given node.
spec fn holds<C>(entries: Seq<Entry<C>>, id: Seq<u8>) -> bool {
    exists|i: int| 0 <= i < entries.len() && #[trigger] entries[i].node_id@ == id
}

/// The row of the table that is for the given node.
spec fn position<C>(entries: Seq<Entry<C>>, id: Seq<u8>) -> int {
    choose|i: int| 0 <= i < entries.len() && #[trigger] entries[i].node_id@ == id
}

/// No two rows of the table are for the same node.
spec fn distinct<C>(entries: Seq<Entry<C>>) -> bool {
    forall|i: int, j: int|
        0 <= i < j < entries.len() ==> #[trigger] entries[i].node_id@ != #[trigger] entries[j].node_id@
}

/// What the table maps each node to.
spec fn table<C>(entries: Seq<Entry<C>>) -> Map<Seq<u8>, ConnectionWrapper<C>> {
    Map::new(|id: Seq<u8>| holds(entries, id), |id: Seq<u8>| entries[position(entries, id)].wrapper)
}

/// In a table without repeats, the row found for a node is the row.
proof fn lemma_position<C>(entries: Seq<Entry<C>>, i: int)
    requires
        distinct(entries),
        0 <= i < entries.len(),
    ensures
        holds(entries, entries[i].node_id@),
        position(entries, entries[i].node_id@) == i,
{
    let id = entries[i].node_id@;
    let j = position(entries, id);
    assert(0 <= j < entries.len() && entries[j].node_id@ == id);
    if j < i {
        assert(entries[j].node_id@ != entries[i].node_id@);
    } else if i < j {
        assert(entries[i].node_id@ != entries[j].node_id@);
    }
}

/// Taking a row out of a table without repeats takes its node out of the map
/// and leaves the rest.
proof fn lemma_remove<C>(entries: Seq<Entry<C>>, i: int)
    requires
        distinct(entries),
        0 <= i < entries.len(),
    ensures
        distinct(entries.remove(i)),
        table(entries.remove(i)) == table(entries).remove(entries[i].node_id@),
{
    let rest = entries.remove(i);
    let gone = entries[i].node_id@;
    assert forall|a: int, b: int| 0 <= a < b < rest.len() implies #[trigger] rest[a].node_id@
        != #[trigger] rest[b].node_id@ by {
        let a0 = if a < i { a } else { a + 1 };
        let b0 = if b < i { b } else { b + 1 };
        assert(rest[a] == entries[a0]);
        assert(rest[b] == entries[b0]);
        assert(entries[a0].node_id@ != entries[b0].node_id@);
    }
    assert forall|id: Seq<u8>| #[trigger] holds(rest, id) <==> (holds(entries, id) && id != gone) by {
        if holds(rest, id) {
            let a = position(rest, id);
            let a0 = if a < i { a } else { a + 1 };
            assert(rest[a] == entries[a0]);
            assert(entries[a0].node_id@ == id);
            if a0 < i {
                assert(entries[a0].node_id@ != entries[i].node_id@);
            } else {
                assert(entries[i].node_id@ != entries[a0].node_id@);
            }
        }
        if holds(entries, id) && id != gone {
            let a0 = position(entries, id);
            let a = if a0 < i { a0 } else { a0 - 1 };
            assert(rest[a] == entries[a0]);
            assert(rest[a].node_id@ == id);
        }
    }
    assert forall|id: Seq<u8>| holds(rest, id) implies #[trigger] rest[position(rest, id)].wrapper
        == entries[position(entries, id)].wrapper by {
        let a = position(rest, id);
        let a0 = if a < i { a } else { a + 1 };
        assert(rest[a] == entries[a0]);
        lemma_position(entries, a0);
    }
    assert(table(rest) =~= table(entries).remove(gone));
}

/// Adding a row for a node that has none adds the node to the map.
proof fn lemma_push<C>(entries: Seq<Entry<C>>, entry: Entry<C>)
    requires
        distinct(entries),
        !holds(entries, entry.node_id@),
    ensures
        distinct(entries.push(entry)),
        table(entries.push(entry)) == table(entries).insert(entry.node_id@, entry.wrapper),
{
    let more = entries.push(entry);
    let id0 = entry.node_id@;
    assert forall|a: int, b: int| 0 <= a < b < more.len() implies #[trigger] more[a].node_id@
        != #[trigger] more[b].node_id@ by {
        if b < entries.len() {
            assert(entries[a].node_id@ != entries[b].node_id@);
        } else {
            assert(more[a] == entries[a]);
            if entries[a].node_id@ == id0 {
                assert(holds(entries, id0));
            }
        }
    }
    assert forall|id: Seq<u8>| #[trigger] holds(more, id) <==> (holds(entries, id) || id == id0) by {
        if holds(more, id) {
            let a = position(more, id);
            if a < entries.len() {
                assert(more[a] == entries[a]);
                assert(entries[a].node_id@ == id);
            }
        }
        if holds(entries, id) {
            let a = position(entries, id);
            assert(more[a] == entries[a]);
            assert(more[a].node_id@ == id);
        }
        if id == id0 {
            assert(more[entries.len() as int].node_id@ == id);
        }
    }
    assert forall|id: Seq<u8>| holds(more, id) implies #[trigger] more[position(more, id)].wrapper
        == (if id == id0 {
        entry.wrapper
    } else {
        entries[position(entries, id)].wrapper
    }) by {
        let a = position(more, id);
        lemma_position(more, a);
        if id == id0 {
            lemma_position(more, entries.len() as int);
        } else {
            let a0 = position(entries, id);
            assert(more[a0] == entries[a0]);
            lemma_position(more, a0);
        }
    }
    assert(table(more) =~= table(entries).insert(id0, entry.wrapper));
}

/// The live connections, by the node each one leads to. No node has two.
pub struct ConnectionContainer<C> {
    entries: Vec<Entry<C>>,
}

impl<C> View for ConnectionContainer<C> {
    type V = Map<Seq<u8>, ConnectionWrapper<C>>;

    closed spec fn view(&self) -> Map<Seq<u8>, ConnectionWrapper<C>> {
        table(self.entries@)
    }
}

impl<C> ConnectionContainer<C> {
    /// No node has two connections. Every table this module hands out is
    /// well formed, and every operation keeps it so.
    pub closed spec fn wf(&self) -> bool {
        distinct(self.entries@)
    }

    /// The row that is for the given node, if there is one.
    fn find(&self, node_id: &NodeId) -> (found: Option<usize>)
        requires
            self.wf(),
        ensures
            found is Some <==> holds(self.entries@, node_id@),
            found matches Some(i) ==> i < self.entries.len() && self.entries[i as int].node_id@
                == node_id@ && position(self.entries@, node_id@) == i,
    {
        let mut i: usize = 0;
        while i < self.entries.len()
            invariant
                i <= self.entries.len(),
                distinct(self.entries@),
                forall|j: int| 0 <= j < i ==> self.entries[j].node_id@ != node_id@,
            decreases self.entries.len() - i,
        {
            if self.entries[i].node_id.equals(node_id) {
                proof {
                    lemma_position(self.entries@, i as int);
                }
                return Some(i);
            }
            i += 1;
        }
        None
    }

    /// A table without connections.
    pub fn new() -> (container: ConnectionContainer<C>)
        ensures
            container.wf(),
            container@ == Map::<Seq<u8>, ConnectionWrapper<C>>::empty(),
    {
        let container = ConnectionContainer { entries: Vec::new() };
        assert(container@ =~= Map::<Seq<u8>, ConnectionWrapper<C>>::empty());
        container
    }

    /// The number of connections in the table.
    pub fn len(&self) -> (n: usize)
        ensures
            n == self.spec_len(),
    {
        self.entries.len()
    }

    /// The number of connections in the table.
    pub closed spec fn spec_len(&self) -> nat {
        self.entries@.len()
    }

    /// The connection to the given node, if there is one.
    pub fn get_connection(&self, node_id: &NodeId) -> (found: Option<&ConnectionWrapper<C>>)
        requires
            self.wf(),
        ensures
            found is Some <==> self@.dom().contains(node_id@),
            found matches Some(w) ==> *w == self@[node_id@],
    {
        match self.find(node_id) {
            Some(i) => Some(&self.entries[i].wrapper),
            None => None,
        }
    }

    /// Takes the connection to the given node out of the table and hands it
    /// over; an error where there is none, and then the table stays as it is.
    pub fn remove_connection(&mut self, node_id: &NodeId) -> (removed: Result<
        ConnectionWrapper<C>,
        ConnectionManagerError,
    >)
        requires
            old(self).wf(),
        ensures
            final(self).wf(),
            old(self)@.dom().contains(node_id@) ==> removed == Ok::<
                ConnectionWrapper<C>,
                ConnectionManagerError,
            >(old(self)@[node_id@]) && final(self)@ == old(self)@.remove(node_id@),
            !old(self)@.dom().contains(node_id@) ==> removed == Err::<
                ConnectionWrapper<C>,
                ConnectionManagerError,
            >(ConnectionManagerError::PeerConnectionNotFound) && final(self)@ == old(self)@,
    {
        match self.find(node_id) {
            Some(i) => {
                proof {
                    lemma_remove(self.entries@, i as int);
                }
                let entry = self.entries.remove(i);
                Ok(entry.wrapper)
            },
            None => Err(ConnectionManagerError::PeerConnectionNotFound),
        }
    }

    /// Puts a connection to the given node into the table, in place of the
    /// one that was there, which is handed back.
    pub fn insert_connection(&mut self, node_id: NodeId, wrapper: ConnectionWrapper<C>) -> (replaced:
        Option<ConnectionWrapper<C>>)
        requires
            old(self).wf(),
        ensures
            final(self).wf(),
            final(self)@ == old(self)@.insert(node_id@, wrapper),
            old(self)@.dom().contains(node_id@) ==> replaced == Some(old(self)@[node_id@]),
            !old(self)@.dom().contains(node_id@) ==> replaced is None,
    {
        let replaced = match self.find(&node_id) {
            Some(i) => {
                proof {
                    lemma_remove(self.entries@, i as int);
                }
                let entry = self.entries.remove(i);
                Some(entry.wrapper)
            },
            None => None,
        };
        proof {
            lemma_push(self.entries@, Entry { node_id, wrapper });
            assert(old(self)@.remove(node_id@).insert(node_id@, wrapper) =~= old(self)@.insert(
                node_id@,
                wrapper,
            ));
        }
        self.entries.push(Entry { node_id, wrapper });
        replaced
    }
}

} // verus!
