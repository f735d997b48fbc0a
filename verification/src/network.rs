//! The simulated network: address resolution, link faults, the link oracle
//! and the dispatcher. It does not care about specific communication
//! protocols.

use crate::addr::{IpAddr, IpProtocol, SocketAddr};
use crate::config::{lemma_covers_none_or_all, Config, Duration, Stat};
use crate::index::{IpIndex, LinkSet, NodeSet, NodeTable};
use crate::node::{BindError, Node, NodeView};
use crate::rng::GlobalRng;
use crate::task::NodeId;
use async_task::{FallibleTask, Task};
use std::ops::Range;
use std::sync::Arc;
use vstd::prelude::*;

verus! {

/// Upper-level protocol should implement its own socket type.
///
/// The network never calls a socket: it hands the socket out to the sender,
/// who calls it once the latency has passed.
pub trait Socket: Send + Sync {
    /// What `deliver` carries.
    type Payload;

    /// The sending end of a new connection.
    type Sender;

    /// The receiving end of a new connection.
    type Receiver;

    /// Deliver a message from other socket.
    fn deliver(&self, _src: SocketAddr, _dst: SocketAddr, _msg: Self::Payload) {
    }

    /// A new connection request.
    fn new_connection(
        &self,
        _src: SocketAddr,
        _dst: SocketAddr,
        _tx: Self::Sender,
        _rx: Self::Receiver,
    ) {
    }
}

/// Direction of a link.
#[derive(Debug, Clone, Copy, PartialEq, Eq, Structural, Hash)]
pub enum Direction {
    /// Towards the node.
    In,
    /// Away from the node.
    Out,
    /// Both ways.
    Both,
}

/// What a network is, seen from outside.
pub struct NetworkView<S: ?Sized> {
    /// The state of the random number generator.
    pub rand: u64,
    /// The configuration.
    pub config: Config,
    /// The number of packets that the link oracle has admitted.
    pub msg_count: u64,
    /// The nodes, by identifier.
    pub nodes: Map<NodeId, NodeView<S>>,
    /// The node of each assigned IP address.
    pub addr_to_node: Map<IpAddr, NodeId>,
    /// The nodes that take no packet in.
    pub clogged_in: Set<NodeId>,
    /// The nodes that let no packet out.
    pub clogged_out: Set<NodeId>,
    /// The links, from the first node to the second, that carry no packet.
    pub clogged_link: Set<(NodeId, NodeId)>,
}

impl<S: ?Sized> NetworkView<S> {
    /// What holds of every network: the configuration is valid; every
    /// clogged node and both ends of every clogged link are nodes of the
    /// network; and an IP address leads to a node exactly when that node has
    /// the address, so that no two nodes share one.
    pub open spec fn well_formed(self) -> bool {
        &&& self.config.is_valid()
        &&& forall|id: NodeId| #[trigger] self.clogged_in.contains(id) ==> self.nodes.contains_key(id)
        &&& forall|id: NodeId| #[trigger]
            self.clogged_out.contains(id) ==> self.nodes.contains_key(id)
        &&& forall|src: NodeId, dst: NodeId| #[trigger]
            self.clogged_link.contains((src, dst)) ==> self.nodes.contains_key(src)
                && self.nodes.contains_key(dst)
        &&& forall|ip: IpAddr| #[trigger]
            self.addr_to_node.contains_key(ip) ==> self.nodes.contains_key(self.addr_to_node[ip])
                && self.nodes[self.addr_to_node[ip]].ip == Some(ip)
        &&& forall|id: NodeId| #[trigger]
            self.nodes.contains_key(id) ==> (self.nodes[id].ip matches Some(ip)
                ==> self.addr_to_node.contains_key(ip) && self.addr_to_node[ip] == id)
    }

    /// A network without nodes.
    pub open spec fn empty(seed: u64, config: Config) -> Self {
        NetworkView {
            rand: seed,
            config,
            msg_count: 0,
            nodes: Map::empty(),
            addr_to_node: Map::empty(),
            clogged_in: Set::empty(),
            clogged_out: Set::empty(),
            clogged_link: Set::empty(),
        }
    }

    /// The network with another configuration.
    pub open spec fn with_config(self, config: Config) -> Self {
        NetworkView { config, ..self }
    }

    /// The network with the node `id` replaced by `node`.
    pub open spec fn with_node(self, id: NodeId, node: NodeView<S>) -> Self {
        NetworkView { nodes: self.nodes.insert(id, node), ..self }
    }

    /// The network after `insert_node`: with a new, empty node `id`.
    pub open spec fn insert_node(self, id: NodeId) -> Self {
        self.with_node(id, NodeView::empty())
    }

    /// The network after `reset_node`: the node `id` keeps its address and
    /// loses its sockets and its deliveries.
    pub open spec fn reset_node(self, id: NodeId) -> Self {
        self.with_node(id, self.nodes[id].reset())
    }

    /// Whether the node `id` may take the address `ip`: no other node has
    /// it.
    pub open spec fn ip_free_for(self, id: NodeId, ip: IpAddr) -> bool {
        self.addr_to_node.contains_key(ip) ==> self.addr_to_node[ip] == id
    }

    /// The network after `set_ip`: the node `id` has the address `ip`, the
    /// address that it had before leads nowhere, and `ip` leads to it.
    pub open spec fn set_ip(self, id: NodeId, ip: IpAddr) -> Self {
        let node = self.nodes[id];
        let freed = match node.ip {
            Some(before) => self.addr_to_node.remove(before),
            None => self.addr_to_node,
        };
        NetworkView {
            nodes: self.nodes.insert(
                id,
                NodeView { ip: Some(ip), sockets: node.sockets, tasks: node.tasks },
            ),
            addr_to_node: freed.insert(ip, id),
            ..self
        }
    }

    /// The network after `clog_node`.
    pub open spec fn clog_node(self, id: NodeId, direction: Direction) -> Self {
        NetworkView {
            clogged_in: if direction != Direction::Out {
                self.clogged_in.insert(id)
            } else {
                self.clogged_in
            },
            clogged_out: if direction != Direction::In {
                self.clogged_out.insert(id)
            } else {
                self.clogged_out
            },
            ..self
        }
    }

    /// The network after `unclog_node`.
    pub open spec fn unclog_node(self, id: NodeId, direction: Direction) -> Self {
        NetworkView {
            clogged_in: if direction != Direction::Out {
                self.clogged_in.remove(id)
            } else {
                self.clogged_in
            },
            clogged_out: if direction != Direction::In {
                self.clogged_out.remove(id)
            } else {
                self.clogged_out
            },
            ..self
        }
    }

    /// The network after `clog_link`.
    pub open spec fn clog_link(self, src: NodeId, dst: NodeId) -> Self {
        NetworkView { clogged_link: self.clogged_link.insert((src, dst)), ..self }
    }

    /// The network after `unclog_link`.
    pub open spec fn unclog_link(self, src: NodeId, dst: NodeId) -> Self {
        NetworkView { clogged_link: self.clogged_link.remove((src, dst)), ..self }
    }

    /// Whether the link from `src` to `dst` is clogged: `src` lets nothing
    /// out, or `dst` takes nothing in, or the link itself is clogged.
    pub open spec fn link_clogged(self, src: NodeId, dst: NodeId) -> bool {
        ||| self.clogged_out.contains(src)
        ||| self.clogged_in.contains(dst)
        ||| self.clogged_link.contains((src, dst))
    }

    /// What `bind` answers on the node `id`.
    pub open spec fn bind_result(self, id: NodeId, addr: SocketAddr, protocol: IpProtocol) -> Result<
        SocketAddr,
        BindError,
    > {
        self.nodes[id].bind_result(addr, protocol)
    }

    /// The network after `bind` on the node `id`.
    pub open spec fn bind(
        self,
        id: NodeId,
        addr: SocketAddr,
        protocol: IpProtocol,
        socket: Arc<S>,
    ) -> Self {
        self.with_node(id, self.nodes[id].bind(addr, protocol, socket))
    }

    /// The network after `close` on the node `id`.
    pub open spec fn close(self, id: NodeId, addr: SocketAddr, protocol: IpProtocol) -> Self {
        self.with_node(id, self.nodes[id].close(addr, protocol))
    }

    /// The network after `abort_task_on_reset`: the node `id` holds one
    /// more handle, `handle`, after those it held.
    pub open spec fn hold(self, id: NodeId, handle: FallibleTask<()>) -> Self {
        let node = self.nodes[id];
        self.with_node(
            id,
            NodeView { ip: node.ip, sockets: node.sockets, tasks: node.tasks.push(handle) },
        )
    }

    /// The node that a packet from the node `id` to `dst` goes to.
    ///
    /// A loopback address, or an address that the sender itself has a socket
    /// on, leads back to the sender. Otherwise a sender without an address
    /// reaches nobody, and one with an address reaches the node that has the
    /// IP address of `dst`, if one has.
    pub open spec fn resolve_dest_node(
        self,
        id: NodeId,
        dst: SocketAddr,
        protocol: IpProtocol,
    ) -> Option<NodeId> {
        if dst.ip.is_loopback() || self.nodes[id].sockets.contains_key((dst, protocol)) {
            Some(id)
        } else if self.nodes[id].ip is None {
            None
        } else {
            self.addr_to_node.get(dst.ip)
        }
    }

    /// The roll of the generator that decides on the loss of the next packet.
    pub open spec fn loss_roll(self) -> u64 {
        GlobalRng::next_word(self.rand)
    }

    /// The roll of the generator that decides on the latency of the next
    /// packet, if that is not lost.
    pub open spec fn latency_roll(self) -> u64 {
        GlobalRng::next_word(GlobalRng::next_state(self.rand))
    }

    /// Whether the link oracle admits the next packet from `src` to `dst`:
    /// the link is not clogged and the loss roll is not below the loss rate.
    pub open spec fn admits(self, src: NodeId, dst: NodeId) -> bool {
        !self.link_clogged(src, dst) && !self.config.loses(self.loss_roll())
    }

    /// Whether the next packet from the node `id` to `dst` is admitted: the
    /// destination resolves to a node and the link oracle admits the packet
    /// to it. Such a packet is counted, whether or not a socket receives it.
    pub open spec fn admitted(self, id: NodeId, dst: SocketAddr, protocol: IpProtocol) -> bool {
        self.resolve_dest_node(id, dst, protocol) matches Some(dst_node) && self.admits(id, dst_node)
    }

    /// The latency of the next packet from `src` to `dst`, if the link
    /// oracle admits it.
    pub open spec fn link_latency(self, src: NodeId, dst: NodeId) -> Option<Duration> {
        if self.admits(src, dst) {
            Some(self.config.latency(self.latency_roll()))
        } else {
            None
        }
    }

    /// The network after the link oracle was asked about a packet from
    /// `src` to `dst`. A clogged link uses no roll; a lost packet uses one;
    /// an admitted packet uses two and is counted.
    pub open spec fn test_link(self, src: NodeId, dst: NodeId) -> Self {
        if self.link_clogged(src, dst) {
            self
        } else if self.config.loses(self.loss_roll()) {
            NetworkView { rand: GlobalRng::next_state(self.rand), ..self }
        } else {
            NetworkView {
                rand: GlobalRng::next_state(GlobalRng::next_state(self.rand)),
                msg_count: (self.msg_count + 1) as u64,
                ..self
            }
        }
    }

    /// The IP address that a packet from the node `id` to `dst` shows as
    /// its source: the loopback address for a loopback destination, else the
    /// address of the sender.
    pub open spec fn source_ip(self, id: NodeId, dst: SocketAddr) -> IpAddr {
        if dst.ip.is_loopback() {
            IpAddr::localhost()
        } else {
            self.nodes[id].ip.unwrap()
        }
    }

    /// Whether a packet from the node `id` to `dst` has a source address to
    /// show: it has none where a sender without an address sends to a
    /// socket of its own that is not on a loopback address. `try_send` may
    /// lose such a packet, but cannot deliver it.
    pub open spec fn can_send(self, id: NodeId, dst: SocketAddr, protocol: IpProtocol) -> bool {
        ||| dst.ip.is_loopback()
        ||| self.nodes[id].ip is Some
        ||| !self.nodes[id].sockets.contains_key((dst, protocol))
    }

    /// What `try_send` answers: the source address to show, the node and
    /// the socket that receive, and the latency; or nothing, where the
    /// destination resolves to no node, the link oracle does not admit the
    /// packet, or no socket is bound at the destination.
    pub open spec fn delivery(self, id: NodeId, dst: SocketAddr, protocol: IpProtocol) -> Option<
        (IpAddr, NodeId, Arc<S>, Duration),
    > {
        match self.resolve_dest_node(id, dst, protocol) {
            None => None,
            Some(dst_node) => match self.link_latency(id, dst_node) {
                None => None,
                Some(latency) => match self.nodes[dst_node].receiver(dst, protocol) {
                    None => None,
                    Some(socket) => Some((self.source_ip(id, dst), dst_node, socket, latency)),
                },
            },
        }
    }

    /// The network after `try_send`: the link oracle was asked if and only
    /// if the destination resolved to a node.
    pub open spec fn try_send(self, id: NodeId, dst: SocketAddr, protocol: IpProtocol) -> Self {
        match self.resolve_dest_node(id, dst, protocol) {
            None => self,
            Some(dst_node) => self.test_link(id, dst_node),
        }
    }

    /// A valid configuration may take the place of another.
    pub proof fn lemma_with_config_well_formed(self, config: Config)
        requires
            self.well_formed(),
            config.is_valid(),
        ensures
            self.with_config(config).well_formed(),
    {
    }

    /// A node may be replaced by one with the same address.
    pub proof fn lemma_with_node_well_formed(self, id: NodeId, node: NodeView<S>)
        requires
            self.well_formed(),
            self.nodes.contains_key(id),
            node.ip == self.nodes[id].ip,
        ensures
            self.with_node(id, node).well_formed(),
    {
    }

    /// `insert_node` keeps a network well formed.
    pub proof fn lemma_insert_node_well_formed(self, id: NodeId)
        requires
            self.well_formed(),
            !self.nodes.contains_key(id),
        ensures
            self.insert_node(id).well_formed(),
    {
    }

    /// `set_ip` keeps a network well formed.
    pub proof fn lemma_set_ip_well_formed(self, id: NodeId, ip: IpAddr)
        requires
            self.well_formed(),
            self.nodes.contains_key(id),
            self.ip_free_for(id, ip),
        ensures
            self.set_ip(id, ip).well_formed(),
    {
    }

    /// The clogging of nodes and links keeps a network well formed.
    pub proof fn lemma_clog_well_formed(self, src: NodeId, dst: NodeId, direction: Direction)
        requires
            self.well_formed(),
            self.nodes.contains_key(src),
            self.nodes.contains_key(dst),
        ensures
            self.clog_node(src, direction).well_formed(),
            self.unclog_node(src, direction).well_formed(),
            self.clog_link(src, dst).well_formed(),
            self.unclog_link(src, dst).well_formed(),
    {
    }
}

/// A simulated network.
///
/// This object manages the links and address resolution.
pub struct Network<S: Socket + ?Sized> {
    rand: GlobalRng,
    config: Config,
    stat: Stat,
    nodes: NodeTable<S>,
    /// Maps the global IP to its node.
    addr_to_node: IpIndex,
    clogged_node_in: NodeSet,
    clogged_node_out: NodeSet,
    clogged_link: LinkSet,
}

impl<S: Socket + ?Sized> View for Network<S> {
    type V = NetworkView<S>;

    closed spec fn view(&self) -> NetworkView<S> {
        NetworkView {
            rand: self.rand@,
            config: self.config,
            msg_count: self.stat.msg_count,
            nodes: self.nodes@,
            addr_to_node: self.addr_to_node@,
            clogged_in: self.clogged_node_in@,
            clogged_out: self.clogged_node_out@,
            clogged_link: self.clogged_link@,
        }
    }
}

impl<S: Socket + ?Sized> Network<S> {
    /// The network is in order: see `NetworkView::well_formed`.
    pub open spec fn wf(&self) -> bool {
        self@.well_formed()
    }

    /// A network without nodes, with the generator `rand` and the
    /// configuration `config`.
    pub fn new(rand: GlobalRng, config: Config) -> (network: Network<S>)
        requires
            config.is_valid(),
        ensures
            network.wf(),
            network@ == NetworkView::<S>::empty(rand@, config),
    {
        Network {
            rand,
            config,
            stat: Stat::default(),
            nodes: NodeTable::new(),
            addr_to_node: IpIndex::new(),
            clogged_node_in: NodeSet::new(),
            clogged_node_out: NodeSet::new(),
            clogged_link: LinkSet::new(),
        }
    }

    /// Replaces the configuration by what `f` makes of it. The new
    /// configuration holds from the next `try_send` on.
    pub fn update_config<F: FnOnce(Config) -> Config>(&mut self, f: F)
        requires
            old(self).wf(),
            call_requires(f, (old(self)@.config,)),
            forall|config: Config|
                call_ensures(f, (old(self)@.config,), config) ==> config.is_valid(),
        ensures
            final(self).wf(),
            call_ensures(f, (old(self)@.config,), final(self)@.config),
            final(self)@ == old(self)@.with_config(final(self)@.config),
    {
        let current = Config {
            packet_loss_rate: self.config.packet_loss_rate,
            send_latency: Range {
                start: self.config.send_latency.start,
                end: self.config.send_latency.end,
            },
        };
        self.config = f(current);
        proof {
            old(self)@.lemma_with_config_well_formed(self.config);
        }
    }

    /// The configuration.
    pub fn config(&self) -> (config: &Config)
        ensures
            *config == self@.config,
    {
        &self.config
    }

    /// The statistics: the number of packets that the link oracle has
    /// admitted.
    pub fn stat(&self) -> (stat: &Stat)
        ensures
            stat.msg_count == self@.msg_count,
    {
        &self.stat
    }

    /// Whether the network has a node `id`.
    pub fn contains_node(&self, id: NodeId) -> (found: bool)
        ensures
            found == self@.nodes.contains_key(id),
    {
        self.nodes.contains(id)
    }

    /// The IP address of the node `id`, if it has one.
    pub fn node_ip(&self, id: NodeId) -> (ip: Option<IpAddr>)
        requires
            self@.nodes.contains_key(id),
        ensures
            ip == self@.nodes[id].ip,
    {
        self.nodes.get(id).unwrap().ip()
    }

    /// The node that has the IP address `ip`, if one has.
    pub fn ip_owner(&self, ip: IpAddr) -> (owner: Option<NodeId>)
        ensures
            owner == self@.addr_to_node.get(ip),
    {
        self.addr_to_node.get(ip)
    }

    /// Whether the node `id` has a socket bound to `addr` with `protocol`.
    pub fn is_bound(&self, id: NodeId, addr: SocketAddr, protocol: IpProtocol) -> (bound: bool)
        requires
            self@.nodes.contains_key(id),
        ensures
            bound == self@.nodes[id].sockets.contains_key((addr, protocol)),
    {
        self.nodes.get(id).unwrap().is_bound(addr, protocol)
    }

    /// Adds the node `id`, without address, sockets or deliveries.
    pub fn insert_node(&mut self, id: NodeId)
        requires
            old(self).wf(),
            !old(self)@.nodes.contains_key(id),
        ensures
            final(self).wf(),
            final(self)@ == old(self)@.insert_node(id),
    {
        proof {
            self@.lemma_insert_node_well_formed(id);
        }
        self.nodes.put(id, Node::new());
    }

    /// Closes every socket of the node `id` and cancels every delivery on
    /// its way to it. The node keeps its address; no other node changes.
    pub fn reset_node(&mut self, id: NodeId)
        requires
            old(self).wf(),
            old(self)@.nodes.contains_key(id),
        ensures
            final(self).wf(),
            final(self)@ == old(self)@.reset_node(id),
    {
        proof {
            self@.lemma_with_node_well_formed(id, self@.nodes[id].reset());
        }
        let mut node = self.nodes.take(id);
        node.reset();
        self.nodes.put(id, node);
        assert(self.nodes@ =~= old(self)@.nodes.insert(id, old(self)@.nodes[id].reset()));
    }

    /// Gives the node `id` the address `ip`, in place of the one it had.
    /// The sockets of the node stay bound to the addresses they were bound
    /// to.
    pub fn set_ip(&mut self, id: NodeId, ip: IpAddr)
        requires
            old(self).wf(),
            old(self)@.nodes.contains_key(id),
            old(self)@.ip_free_for(id, ip),
        ensures
            final(self).wf(),
            final(self)@ == old(self)@.set_ip(id, ip),
    {
        let mut node = self.nodes.take(id);
        if let Some(before) = node.ip() {
            self.addr_to_node.remove(before);
        }
        node.set_ip(ip);
        self.addr_to_node.insert(ip, id);
        self.nodes.put(id, node);
        assert(self.nodes@ =~= old(self)@.set_ip(id, ip).nodes);
    }

    /// Clogs the node `id` in the given direction.
    pub fn clog_node(&mut self, id: NodeId, direction: Direction)
        requires
            old(self).wf(),
            old(self)@.nodes.contains_key(id),
        ensures
            final(self).wf(),
            final(self)@ == old(self)@.clog_node(id, direction),
    {
        proof {
            self@.lemma_clog_well_formed(id, id, direction);
        }
        match direction {
            Direction::In => {
                self.clogged_node_in.insert(id);
            },
            Direction::Out => {
                self.clogged_node_out.insert(id);
            },
            Direction::Both => {
                self.clogged_node_in.insert(id);
                self.clogged_node_out.insert(id);
            },
        }
    }

    /// Unclogs the node `id` in the given direction.
    pub fn unclog_node(&mut self, id: NodeId, direction: Direction)
        requires
            old(self).wf(),
            old(self)@.nodes.contains_key(id),
        ensures
            final(self).wf(),
            final(self)@ == old(self)@.unclog_node(id, direction),
    {
        proof {
            self@.lemma_clog_well_formed(id, id, direction);
        }
        match direction {
            Direction::In => {
                self.clogged_node_in.remove(id);
            },
            Direction::Out => {
                self.clogged_node_out.remove(id);
            },
            Direction::Both => {
                self.clogged_node_in.remove(id);
                self.clogged_node_out.remove(id);
            },
        }
    }

    /// Clogs the link from `src` to `dst`.
    pub fn clog_link(&mut self, src: NodeId, dst: NodeId)
        requires
            old(self).wf(),
            old(self)@.nodes.contains_key(src),
            old(self)@.nodes.contains_key(dst),
        ensures
            final(self).wf(),
            final(self)@ == old(self)@.clog_link(src, dst),
    {
        proof {
            self@.lemma_clog_well_formed(src, dst, Direction::Both);
        }
        self.clogged_link.insert(src, dst);
    }

    /// Unclogs the link from `src` to `dst`.
    pub fn unclog_link(&mut self, src: NodeId, dst: NodeId)
        requires
            old(self).wf(),
            old(self)@.nodes.contains_key(src),
            old(self)@.nodes.contains_key(dst),
        ensures
            final(self).wf(),
            final(self)@ == old(self)@.unclog_link(src, dst),
    {
        proof {
            self@.lemma_clog_well_formed(src, dst, Direction::Both);
        }
        self.clogged_link.remove(src, dst);
    }

    /// Returns whether the link from `src` to `dst` is clogged.
    pub fn link_clogged(&self, src: NodeId, dst: NodeId) -> (clogged: bool)
        ensures
            clogged == self@.link_clogged(src, dst),
    {
        self.clogged_node_out.contains(src) || self.clogged_node_in.contains(dst)
            || self.clogged_link.contains(src, dst)
    }

    /// Bind a socket to the specified address.
    ///
    /// A wildcard or loopback address is always taken; any other must be
    /// the address of the node. Port `0` asks for the least free port of
    /// the node from 1 on. The answer is the bound address, or the reason
    /// why nothing was bound.
    pub fn bind(
        &mut self,
        node_id: NodeId,
        addr: SocketAddr,
        protocol: IpProtocol,
        socket: Arc<S>,
    ) -> (result: Result<SocketAddr, BindError>)
        requires
            old(self).wf(),
            old(self)@.nodes.contains_key(node_id),
        ensures
            final(self).wf(),
            result == old(self)@.bind_result(node_id, addr, protocol),
            final(self)@ == old(self)@.bind(node_id, addr, protocol, socket),
    {
        let mut node = self.nodes.take(node_id);
        let result = node.bind(addr, protocol, socket);
        self.nodes.put(node_id, node);
        assert(self.nodes@ =~= old(self)@.bind(node_id, addr, protocol, socket).nodes);
        result
    }

    /// Close a socket.
    pub fn close(&mut self, node: NodeId, addr: SocketAddr, protocol: IpProtocol)
        requires
            old(self).wf(),
            old(self)@.nodes.contains_key(node),
        ensures
            final(self).wf(),
            final(self)@ == old(self)@.close(node, addr, protocol),
    {
        let mut entry = self.nodes.take(node);
        entry.close(addr, protocol);
        self.nodes.put(node, entry);
        assert(self.nodes@ =~= old(self)@.close(node, addr, protocol).nodes);
    }

    /// Returns the latency of sending a packet. If packet loss, returns
    /// `None`.
    ///
    /// A packet that is not lost is counted, so the count must have room
    /// for it.
    fn test_link(&mut self, src: NodeId, dst: NodeId) -> (latency: Option<Duration>)
        requires
            old(self).wf(),
            old(self)@.msg_count < u64::MAX || !old(self)@.admits(src, dst),
        ensures
            final(self).wf(),
            latency == old(self)@.link_latency(src, dst),
            final(self)@ == old(self)@.test_link(src, dst),
            latency is Some == old(self)@.admits(src, dst),
            latency is Some ==> final(self)@.msg_count == old(self)@.msg_count + 1,
            latency is None ==> final(self)@.msg_count == old(self)@.msg_count,
    {
        if self.link_clogged(src, dst) {
            return None;
        }
        let loss_roll = self.rand.next_u64();
        if self.config.loses(loss_roll) {
            return None;
        }
        self.stat.msg_count = self.stat.msg_count + 1;
        let latency_roll = self.rand.next_u64();
        Some(self.config.latency(latency_roll))
    }

    /// Whether the link oracle admits the next packet from `src` to `dst`.
    /// The generator stays as it is: the roll is looked at, not used.
    pub fn admits(&self, src: NodeId, dst: NodeId) -> (admitted: bool)
        requires
            self.wf(),
        ensures
            admitted == self@.admits(src, dst),
    {
        if self.link_clogged(src, dst) {
            return false;
        }
        let mut rand = self.rand;
        let loss_roll = rand.next_u64();
        !self.config.loses(loss_roll)
    }

    /// Resolve destination node from IP address.
    pub fn resolve_dest_node(&self, node: NodeId, dst: SocketAddr, protocol: IpProtocol) -> (dst_node:
        Option<NodeId>)
        requires
            self.wf(),
            self@.nodes.contains_key(node),
        ensures
            dst_node == self@.resolve_dest_node(node, dst, protocol),
            dst_node matches Some(id) ==> self@.nodes.contains_key(id),
    {
        let sender = self.nodes.get(node).unwrap();
        if dst.ip().is_loopback() || sender.is_bound(dst, protocol) {
            Some(node)
        } else if sender.ip().is_none() {
            None
        } else {
            self.addr_to_node.get(dst.ip())
        }
    }

    /// Whether a packet from `node` to `dst` has a source address to show.
    pub fn can_send(&self, node: NodeId, dst: SocketAddr, protocol: IpProtocol) -> (able: bool)
        requires
            self@.nodes.contains_key(node),
        ensures
            able == self@.can_send(node, dst, protocol),
    {
        let sender = self.nodes.get(node).unwrap();
        dst.ip().is_loopback() || sender.ip().is_some() || !sender.is_bound(dst, protocol)
    }

    /// Try sending a message to the destination.
    ///
    /// If destination is not found or packet loss, returns `None`.
    /// Otherwise returns the source IP, the receiving node, its socket and
    /// the latency. The caller delivers to the socket once the latency has
    /// passed, and leaves the handle of that delivery with
    /// `abort_task_on_reset`.
    ///
    /// A packet that comes back to its sender passes the link oracle like
    /// any other: it is lost where the sender is clogged, and it is counted.
    ///
    /// Two calls are left out: one that would deliver a packet without a
    /// source address (see `can_send`), and one that would count a packet
    /// beyond the range of the count. A packet that is lost is neither.
    pub fn try_send(&mut self, node: NodeId, dst: SocketAddr, protocol: IpProtocol) -> (delivery:
        Option<(IpAddr, NodeId, Arc<S>, Duration)>)
        requires
            old(self).wf(),
            old(self)@.nodes.contains_key(node),
            old(self)@.can_send(node, dst, protocol) || old(self)@.delivery(node, dst, protocol) is None,
            old(self)@.msg_count < u64::MAX || !old(self)@.admitted(node, dst, protocol),
        ensures
            final(self).wf(),
            delivery == old(self)@.delivery(node, dst, protocol),
            final(self)@ == old(self)@.try_send(node, dst, protocol),
            // the count grows by one with an admitted packet, and with no other
            final(self)@.msg_count == old(self)@.msg_count + (if old(self)@.admitted(
                node,
                dst,
                protocol,
            ) {
                1int
            } else {
                0int
            }),
            // a delivery goes to the resolved node, to a socket that it has
            delivery matches Some(to) ==> old(self)@.admitted(node, dst, protocol) && Some(to.1)
                == old(self)@.resolve_dest_node(node, dst, protocol) && Some(to.2)
                == old(self)@.nodes[to.1].receiver(dst, protocol),
            // without loss and clogging a packet to a bound destination arrives
            old(self)@.config.packet_loss_rate.is_zero() && (old(self)@.resolve_dest_node(
                node,
                dst,
                protocol,
            ) matches Some(dst_node) && !old(self)@.link_clogged(node, dst_node)
                && old(self)@.nodes[dst_node].receiver(dst, protocol) is Some) ==> delivery is Some,
            // with a loss rate of one nothing arrives and nothing is counted
            old(self)@.config.packet_loss_rate.is_one() ==> delivery is None && final(self)@.msg_count
                == old(self)@.msg_count,
    {
        proof {
            lemma_covers_none_or_all(self@.config.packet_loss_rate, self@.loss_roll());
        }
        let dst_node = match self.resolve_dest_node(node, dst, protocol) {
            Some(dst_node) => dst_node,
            None => {
                return None;
            },
        };
        let latency = match self.test_link(node, dst_node) {
            Some(latency) => latency,
            None => {
                return None;
            },
        };
        let socket = match self.nodes.get(dst_node).unwrap().receiver(dst, protocol) {
            Some(socket) => socket,
            None => {
                return None;
            },
        };
        let src_ip = if dst.ip().is_loopback() {
            IpAddr::localhost()
        } else {
            self.node_ip(node).unwrap()
        };
        Some((src_ip, dst_node, socket, latency))
    }

    /// Has the task of `handle` cancelled when the node is reset: the
    /// node holds the handle, and a reset drops it.
    pub fn abort_task_on_reset(&mut self, node: NodeId, handle: Task<()>)
        requires
            old(self).wf(),
            old(self)@.nodes.contains_key(node),
        ensures
            final(self).wf(),
            final(self)@.nodes.contains_key(node),
            final(self)@.nodes[node].tasks.len() == old(self)@.nodes[node].tasks.len() + 1,
            final(self)@ == old(self)@.hold(node, final(self)@.nodes[node].tasks.last()),
    {
        let mut entry = self.nodes.take(node);
        let held = handle.fallible();
        entry.hold(held);
        self.nodes.put(node, entry);
        assert(self.nodes@ =~= old(self)@.hold(node, held).nodes);
    }
}

} // verus!
