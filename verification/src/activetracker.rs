//! The connections that are open, each with the address of its peer.

use std::collections::HashMap;
use vstd::prelude::*;
use vstd::std_specs::iter::IteratorSpec;

verus! {

/// The IP address of a peer.
#[derive(Debug, Clone, Copy, PartialEq, Eq, Structural)]
pub enum PeerIp {
    V4(u32),
    V6(u128),
}

/// The socket address of a peer.
#[derive(Debug, Clone, Copy, PartialEq, Eq, Structural)]
pub struct PeerAddr {
    pub ip: PeerIp,
    pub port: u16,
}

/// The open connections by id.
#[derive(Debug)]
pub struct ActiveConnections {
    map: HashMap<u64, PeerAddr>,
}

impl ActiveConnections {
    /// The peers of the open connections, by connection id.
    pub closed spec fn view(&self) -> Map<u64, PeerAddr> {
        self.map@
    }

    /// A tracker without connections.
    pub fn new() -> (tracker: Self)
        ensures
            tracker@ == Map::<u64, PeerAddr>::empty(),
    {
        ActiveConnections { map: HashMap::new() }
    }

    /// Forgets every connection.
    pub fn reset(&mut self)
        ensures
            final(self)@ == Map::<u64, PeerAddr>::empty(),
    {
        self.map.clear();
    }

    /// Notes that the connection `id` is open, with its peer.
    pub fn put(&mut self, id: u64, addr: PeerAddr)
        ensures
            final(self)@ == old(self)@.insert(id, addr),
    {
        self.map.insert(id, addr);
    }

    /// Notes that the connection `id` is closed.
    pub fn remove(&mut self, id: u64)
        ensures
            final(self)@ == old(self)@.remove(id),
    {
        self.map.remove(&id);
    }

    /// The number of open connections.
    pub fn len(&self) -> (n: usize)
        ensures
            n == self@.dom().len(),
    {
        self.map.len()
    }

    /// The open connections with their peers, each once, in no stated order.
    pub fn get_active_list(&self) -> (list: Vec<(u64, PeerAddr)>)
        ensures
            list@.len() == self@.dom().len(),
            forall|i: int|
                0 <= i < list@.len() ==> self@.contains_key((#[trigger] list@[i]).0) && self@[list@[i].0]
                    == list@[i].1,
            forall|id: u64| self@.contains_key(id) ==> list@.contains((id, self@[id])),
    {
        let mut result: Vec<(u64, PeerAddr)> = Vec::new();
        let ghost all = self.map.iter().remaining();
        proof {
            broadcast use vstd::std_specs::hash::axiom_spec_hash_map_iter;

            assert(all.len() == self@.dom().len());
        }
        for pair in it: self.map.iter()
            invariant
                it.seq() == all,
                result@.len() == it.index(),
                forall|k: int|
                    0 <= k < result@.len() ==> (#[trigger] result@[k]) == (*all[k].0, *all[k].1),
        {
            let (id, addr) = pair;
            result.push((*id, *addr));
        }
        proof {
            broadcast use vstd::std_specs::hash::axiom_spec_hash_map_iter;

            assert forall|id: u64| self@.contains_key(id) implies result@.contains(
                (id, self@[id]),
            ) by {
                assert(all.contains((&id, &self.map@[id])));
                let k = all.index_of((&id, &self.map@[id]));
                assert(result@[k] == (id, self@[id]));
            }
        }
        result
    }
}

} // verus!
