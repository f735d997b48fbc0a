//! The tables of the network: the nodes by identifier, the nodes by IP
//! address, and the sets of clogged nodes and links. Each is a hash table
//! keyed by an integer, seen as a map or set over the library's own types.

use crate::addr::IpAddr;
use crate::node::{Node, NodeView};
use crate::task::NodeId;
use std::collections::{HashMap, HashSet};
use vstd::prelude::*;

verus! {

broadcast use vstd::std_specs::hash::group_hash_axioms;

/// The nodes of a network, by identifier.
pub struct NodeTable<S: ?Sized> {
    nodes: HashMap<u64, Node<S>>,
}

impl<S: ?Sized> View for NodeTable<S> {
    type V = Map<NodeId, NodeView<S>>;

    closed spec fn view(&self) -> Map<NodeId, NodeView<S>> {
        Map::new(|id: NodeId| self.nodes@.contains_key(id.0), |id: NodeId| self.nodes@[id.0]@)
    }
}

impl<S: ?Sized> NodeTable<S> {
    /// The table without nodes.
    pub fn new() -> (table: NodeTable<S>)
        ensures
            table@ == Map::<NodeId, NodeView<S>>::empty(),
    {
        let table = NodeTable { nodes: HashMap::new() };
        table
    }

    /// Whether the table has a node `id`.
    pub fn contains(&self, id: NodeId) -> (found: bool)
        ensures
            found == self@.contains_key(id),
    {
        self.nodes.contains_key(&id.0)
    }

    /// The node `id`, if the table has it.
    pub fn get(&self, id: NodeId) -> (node: Option<&Node<S>>)
        ensures
            match node {
                Some(node) => self@.contains_key(id) && node@ == self@[id],
                None => !self@.contains_key(id),
            },
    {
        self.nodes.get(&id.0)
    }

    /// Takes the node `id` out of the table.
    pub fn take(&mut self, id: NodeId) -> (node: Node<S>)
        requires
            old(self)@.contains_key(id),
        ensures
            final(self)@ == old(self)@.remove(id),
            node@ == old(self)@[id],
    {
        let node = self.nodes.remove(&id.0);
        node.unwrap()
    }

    /// Puts `node` into the table as the node `id`, in place of any other.
    pub fn put(&mut self, id: NodeId, node: Node<S>)
        ensures
            final(self)@ == old(self)@.insert(id, node@),
    {
        let _ = self.nodes.insert(id.0, node);
    }
}

/// The node of each assigned IP address.
pub struct IpIndex {
    v4: HashMap<u32, u64>,
    v6: HashMap<u128, u64>,
}

impl View for IpIndex {
    type V = Map<IpAddr, NodeId>;

    closed spec fn view(&self) -> Map<IpAddr, NodeId> {
        Map::new(
            |ip: IpAddr|
                match ip {
                    IpAddr::V4(bits) => self.v4@.contains_key(bits),
                    IpAddr::V6(bits) => self.v6@.contains_key(bits),
                },
            |ip: IpAddr|
                match ip {
                    IpAddr::V4(bits) => NodeId(self.v4@[bits]),
                    IpAddr::V6(bits) => NodeId(self.v6@[bits]),
                },
        )
    }
}

impl IpIndex {
    /// The index without addresses.
    pub fn new() -> (index: IpIndex)
        ensures
            index@ == Map::<IpAddr, NodeId>::empty(),
    {
        let index = IpIndex { v4: HashMap::new(), v6: HashMap::new() };
        index
    }

    /// The node that has the address `ip`, if one has.
    pub fn get(&self, ip: IpAddr) -> (owner: Option<NodeId>)
        ensures
            owner == self@.get(ip),
    {
        let found = match ip {
            IpAddr::V4(bits) => self.v4.get(&bits),
            IpAddr::V6(bits) => self.v6.get(&bits),
        };
        match found {
            Some(id) => Some(NodeId(*id)),
            None => None,
        }
    }

    /// Gives the address `ip` to the node `id`.
    pub fn insert(&mut self, ip: IpAddr, id: NodeId)
        ensures
            final(self)@ == old(self)@.insert(ip, id),
    {
        match ip {
            IpAddr::V4(bits) => {
                let _ = self.v4.insert(bits, id.0);
            },
            IpAddr::V6(bits) => {
                let _ = self.v6.insert(bits, id.0);
            },
        }
    }

    /// Takes the address `ip` from the node that has it.
    pub fn remove(&mut self, ip: IpAddr)
        ensures
            final(self)@ == old(self)@.remove(ip),
    {
        match ip {
            IpAddr::V4(bits) => {
                let _ = self.v4.remove(&bits);
            },
            IpAddr::V6(bits) => {
                let _ = self.v6.remove(&bits);
            },
        }
    }
}

/// A set of nodes.
pub struct NodeSet {
    ids: HashSet<u64>,
}

impl View for NodeSet {
    type V = Set<NodeId>;

    closed spec fn view(&self) -> Set<NodeId> {
        Set::new(|id: NodeId| self.ids@.contains(id.0))
    }
}

impl NodeSet {
    /// The empty set.
    pub fn new() -> (set: NodeSet)
        ensures
            set@ == Set::<NodeId>::empty(),
    {
        let set = NodeSet { ids: HashSet::new() };
        set
    }

    /// Whether `id` is in the set.
    pub fn contains(&self, id: NodeId) -> (found: bool)
        ensures
            found == self@.contains(id),
    {
        self.ids.contains(&id.0)
    }

    /// Adds `id` to the set.
    pub fn insert(&mut self, id: NodeId)
        ensures
            final(self)@ == old(self)@.insert(id),
    {
        let _ = self.ids.insert(id.0);
    }

    /// Takes `id` out of the set.
    pub fn remove(&mut self, id: NodeId)
        ensures
            final(self)@ == old(self)@.remove(id),
    {
        let _ = self.ids.remove(&id.0);
    }
}

/// The key of the link from `src` to `dst`: the two identifiers side by side.
pub open spec fn link_key(src: NodeId, dst: NodeId) -> u128 {
    (src.0 * 0x1_0000_0000_0000_0000 + dst.0) as u128
}

/// A set of links, each an ordered pair of nodes.
pub struct LinkSet {
    keys: HashSet<u128>,
}

impl View for LinkSet {
    type V = Set<(NodeId, NodeId)>;

    closed spec fn view(&self) -> Set<(NodeId, NodeId)> {
        Set::new(|link: (NodeId, NodeId)| self.keys@.contains(link_key(link.0, link.1)))
    }
}

impl LinkSet {
    /// The key of the link from `src` to `dst`.
    fn key(src: NodeId, dst: NodeId) -> (key: u128)
        ensures
            key == link_key(src, dst),
    {
        src.0 as u128 * 0x1_0000_0000_0000_0000 + dst.0 as u128
    }

    /// The empty set.
    pub fn new() -> (set: LinkSet)
        ensures
            set@ == Set::<(NodeId, NodeId)>::empty(),
    {
        let set = LinkSet { keys: HashSet::new() };
        set
    }

    /// Whether the link from `src` to `dst` is in the set.
    pub fn contains(&self, src: NodeId, dst: NodeId) -> (found: bool)
        ensures
            found == self@.contains((src, dst)),
    {
        let key = Self::key(src, dst);
        self.keys.contains(&key)
    }

    /// Adds the link from `src` to `dst` to the set.
    pub fn insert(&mut self, src: NodeId, dst: NodeId)
        ensures
            final(self)@ == old(self)@.insert((src, dst)),
    {
        let _ = self.keys.insert(Self::key(src, dst));
    }

    /// Takes the link from `src` to `dst` out of the set.
    pub fn remove(&mut self, src: NodeId, dst: NodeId)
        ensures
            final(self)@ == old(self)@.remove((src, dst)),
    {
        let key = Self::key(src, dst);
        let _ = self.keys.remove(&key);
    }
}

} // verus!
