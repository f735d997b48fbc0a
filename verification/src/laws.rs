//! What holds of every network, whatever its nodes, its faults and its seed.

use crate::addr::{IpProtocol, SocketAddr};
use crate::config::{lemma_covers_all, lemma_covers_none};
use crate::network::{Direction, Network, NetworkView, Socket};
use crate::node::{BindError, ErrorKind};
use crate::rng::GlobalRng;
use crate::task::NodeId;
use std::sync::Arc;
use vstd::prelude::*;

verus! {

/// Without packet loss and without clogging, a packet to a bound
/// destination is delivered: where the loss rate is zero, the destination
/// resolves to a node, the link to that node is not clogged and the node has
/// a socket for the destination, `try_send` answers with a delivery to that
/// node and that socket.
pub proof fn lemma_lossless_network_delivers<S: ?Sized>(
    net: NetworkView<S>,
    id: NodeId,
    dst: SocketAddr,
    protocol: IpProtocol,
)
    requires
        net.config.packet_loss_rate.is_zero(),
        net.resolve_dest_node(id, dst, protocol) matches Some(dst_node) && !net.link_clogged(
            id,
            dst_node,
        ) && net.nodes[dst_node].receiver(dst, protocol) is Some,
    ensures
        net.delivery(id, dst, protocol) matches Some(delivery) && Some(delivery.1)
            == net.resolve_dest_node(id, dst, protocol) && Some(delivery.2)
            == net.nodes[delivery.1].receiver(dst, protocol),
{
    lemma_covers_none(net.config.packet_loss_rate, net.loss_roll());
}

/// Where nothing is clogged, no link is clogged.
pub proof fn lemma_nothing_clogged<S: ?Sized>(net: NetworkView<S>, src: NodeId, dst: NodeId)
    requires
        net.clogged_in == Set::<NodeId>::empty(),
        net.clogged_out == Set::<NodeId>::empty(),
        net.clogged_link == Set::<(NodeId, NodeId)>::empty(),
    ensures
        !net.link_clogged(src, dst),
{
}

/// With a loss rate of one every packet is lost: `try_send` answers with
/// nothing and the count of messages stays.
pub proof fn lemma_total_loss_delivers_nothing<S: ?Sized>(
    net: NetworkView<S>,
    id: NodeId,
    dst: SocketAddr,
    protocol: IpProtocol,
)
    requires
        net.config.packet_loss_rate.is_one(),
    ensures
        net.delivery(id, dst, protocol) is None,
        net.try_send(id, dst, protocol).msg_count == net.msg_count,
{
    lemma_covers_all(net.config.packet_loss_rate, net.loss_roll());
}

/// One act of clogging: a node in a direction, or a link.
pub enum Clog {
    /// The node, in the direction.
    Node(NodeId, Direction),
    /// The link from the first node to the second.
    Link(NodeId, NodeId),
}

impl Clog {
    /// The network after this clogging.
    pub open spec fn clog<S: ?Sized>(self, net: NetworkView<S>) -> NetworkView<S> {
        match self {
            Clog::Node(id, direction) => net.clog_node(id, direction),
            Clog::Link(src, dst) => net.clog_link(src, dst),
        }
    }

    /// The network after the unclogging that reverses this clogging.
    pub open spec fn unclog<S: ?Sized>(self, net: NetworkView<S>) -> NetworkView<S> {
        match self {
            Clog::Node(id, direction) => net.unclog_node(id, direction),
            Clog::Link(src, dst) => net.unclog_link(src, dst),
        }
    }

    /// Whether this clogging adds nothing to the network: what it clogs is
    /// clogged already, in part or in whole.
    pub open spec fn overlaps<S: ?Sized>(self, net: NetworkView<S>) -> bool {
        match self {
            Clog::Node(id, direction) => {
                ||| direction != Direction::Out && net.clogged_in.contains(id)
                ||| direction != Direction::In && net.clogged_out.contains(id)
            },
            Clog::Link(src, dst) => net.clogged_link.contains((src, dst)),
        }
    }
}

/// The network after the cloggings of `clogs`, first to last.
pub open spec fn clog_all<S: ?Sized>(net: NetworkView<S>, clogs: Seq<Clog>) -> NetworkView<S>
    decreases clogs.len(),
{
    if clogs.len() == 0 {
        net
    } else {
        clogs.last().clog(clog_all(net, clogs.drop_last()))
    }
}

/// The network after the uncloggings that reverse `clogs`, first to last.
pub open spec fn unclog_all<S: ?Sized>(net: NetworkView<S>, clogs: Seq<Clog>) -> NetworkView<S>
    decreases clogs.len(),
{
    if clogs.len() == 0 {
        net
    } else {
        clogs.last().unclog(unclog_all(net, clogs.drop_last()))
    }
}

/// Whether `id` is clogged inwards by one of `clogs`.
pub open spec fn clogs_in(clogs: Seq<Clog>, id: NodeId) -> bool {
    exists|i: int|
        0 <= i < clogs.len() && (#[trigger] clogs[i] matches Clog::Node(node, direction) && node == id
            && direction != Direction::Out)
}

/// Whether `id` is clogged outwards by one of `clogs`.
pub open spec fn clogs_out(clogs: Seq<Clog>, id: NodeId) -> bool {
    exists|i: int|
        0 <= i < clogs.len() && (#[trigger] clogs[i] matches Clog::Node(node, direction) && node == id
            && direction != Direction::In)
}

/// Whether the link from `src` to `dst` is clogged by one of `clogs`.
pub open spec fn clogs_link(clogs: Seq<Clog>, src: NodeId, dst: NodeId) -> bool {
    exists|i: int| 0 <= i < clogs.len() && #[trigger] clogs[i] == Clog::Link(src, dst)
}

/// Clogging adds to the three sets what the cloggings name, and changes
/// nothing else.
pub proof fn lemma_clog_all<S: ?Sized>(net: NetworkView<S>, clogs: Seq<Clog>)
    ensures
        clog_all(net, clogs).clogged_in == net.clogged_in.union(Set::new(|id: NodeId| clogs_in(clogs, id))),
        clog_all(net, clogs).clogged_out == net.clogged_out.union(
            Set::new(|id: NodeId| clogs_out(clogs, id)),
        ),
        clog_all(net, clogs).clogged_link == net.clogged_link.union(
            Set::new(|link: (NodeId, NodeId)| clogs_link(clogs, link.0, link.1)),
        ),
        clog_all(net, clogs) == (NetworkView {
            clogged_in: clog_all(net, clogs).clogged_in,
            clogged_out: clog_all(net, clogs).clogged_out,
            clogged_link: clog_all(net, clogs).clogged_link,
            ..net
        }),
    decreases clogs.len(),
{
    lemma_named(clogs);
    if clogs.len() > 0 {
        lemma_clog_all(net, clogs.drop_last());
    }
    let after = clog_all(net, clogs);
    assert(after.clogged_in =~= net.clogged_in.union(Set::new(|id: NodeId| clogs_in(clogs, id))));
    assert(after.clogged_out =~= net.clogged_out.union(Set::new(|id: NodeId| clogs_out(clogs, id))));
    assert(after.clogged_link =~= net.clogged_link.union(
        Set::new(|link: (NodeId, NodeId)| clogs_link(clogs, link.0, link.1)),
    ));
}

/// Unclogging takes from the three sets what the cloggings name, and
/// changes nothing else.
pub proof fn lemma_unclog_all<S: ?Sized>(net: NetworkView<S>, clogs: Seq<Clog>)
    ensures
        unclog_all(net, clogs).clogged_in == net.clogged_in.difference(
            Set::new(|id: NodeId| clogs_in(clogs, id)),
        ),
        unclog_all(net, clogs).clogged_out == net.clogged_out.difference(
            Set::new(|id: NodeId| clogs_out(clogs, id)),
        ),
        unclog_all(net, clogs).clogged_link == net.clogged_link.difference(
            Set::new(|link: (NodeId, NodeId)| clogs_link(clogs, link.0, link.1)),
        ),
        unclog_all(net, clogs) == (NetworkView {
            clogged_in: unclog_all(net, clogs).clogged_in,
            clogged_out: unclog_all(net, clogs).clogged_out,
            clogged_link: unclog_all(net, clogs).clogged_link,
            ..net
        }),
    decreases clogs.len(),
{
    lemma_named(clogs);
    if clogs.len() > 0 {
        lemma_unclog_all(net, clogs.drop_last());
    }
    let after = unclog_all(net, clogs);
    assert(after.clogged_in =~= net.clogged_in.difference(Set::new(|id: NodeId| clogs_in(clogs, id))));
    assert(after.clogged_out =~= net.clogged_out.difference(Set::new(|id: NodeId| clogs_out(clogs, id))));
    assert(after.clogged_link =~= net.clogged_link.difference(
        Set::new(|link: (NodeId, NodeId)| clogs_link(clogs, link.0, link.1)),
    ));
}

/// What the cloggings name: nothing where there are none; else what the
/// last of them names and what those before it name.
proof fn lemma_named(clogs: Seq<Clog>)
    ensures
        clogs.len() == 0 ==> forall|a: NodeId, b: NodeId|
            !clogs_in(clogs, a) && !clogs_out(clogs, a) && !clogs_link(clogs, a, b),
        clogs.len() > 0 ==> forall|a: NodeId|
            clogs_in(clogs, a) <==> (clogs_in(clogs.drop_last(), a) || (clogs.last() matches Clog::Node(
                node,
                direction,
            ) && node == a && direction != Direction::Out)),
        clogs.len() > 0 ==> forall|a: NodeId|
            clogs_out(clogs, a) <==> (clogs_out(clogs.drop_last(), a) || (clogs.last() matches Clog::Node(
                node,
                direction,
            ) && node == a && direction != Direction::In)),
        clogs.len() > 0 ==> forall|a: NodeId, b: NodeId|
            clogs_link(clogs, a, b) <==> (clogs_link(clogs.drop_last(), a, b) || clogs.last()
                == Clog::Link(a, b)),
{
    if clogs.len() > 0 {
        assert forall|a: NodeId|
            clogs_in(clogs, a) <==> (clogs_in(clogs.drop_last(), a) || (clogs.last() matches Clog::Node(
                node,
                direction,
            ) && node == a && direction != Direction::Out)) by {
            lemma_position(clogs, a, a);
        }
        assert forall|a: NodeId|
            clogs_out(clogs, a) <==> (clogs_out(clogs.drop_last(), a) || (clogs.last() matches Clog::Node(
                node,
                direction,
            ) && node == a && direction != Direction::In)) by {
            lemma_position(clogs, a, a);
        }
        assert forall|a: NodeId, b: NodeId|
            clogs_link(clogs, a, b) <==> (clogs_link(clogs.drop_last(), a, b) || clogs.last()
                == Clog::Link(a, b)) by {
            lemma_position(clogs, a, b);
        }
    }
}

/// What one of `clogs` names is named by the last of them or by one of
/// those before it.
proof fn lemma_position(clogs: Seq<Clog>, a: NodeId, b: NodeId)
    requires
        clogs.len() > 0,
    ensures
        clogs_in(clogs, a) <==> (clogs_in(clogs.drop_last(), a) || (clogs.last() matches Clog::Node(
            node,
            direction,
        ) && node == a && direction != Direction::Out)),
        clogs_out(clogs, a) <==> (clogs_out(clogs.drop_last(), a) || (clogs.last() matches Clog::Node(
            node,
            direction,
        ) && node == a && direction != Direction::In)),
        clogs_link(clogs, a, b) <==> (clogs_link(clogs.drop_last(), a, b) || clogs.last() == Clog::Link(
            a,
            b,
        )),
{
    let front = clogs.drop_last();
    let end = clogs.len() - 1;
    assert(clogs[end] == clogs.last());
    assert forall|i: int| 0 <= i < front.len() implies #[trigger] front[i] == clogs[i] by {}
    if clogs_in(front, a) {
        let i = choose|i: int|
            0 <= i < front.len() && (#[trigger] front[i] matches Clog::Node(node, direction) && node == a
                && direction != Direction::Out);
        assert(clogs[i] == front[i]);
    }
    if clogs_out(front, a) {
        let i = choose|i: int|
            0 <= i < front.len() && (#[trigger] front[i] matches Clog::Node(node, direction) && node == a
                && direction != Direction::In);
        assert(clogs[i] == front[i]);
    }
    if clogs_link(front, a, b) {
        let i = choose|i: int| 0 <= i < front.len() && #[trigger] front[i] == Clog::Link(a, b);
        assert(clogs[i] == front[i]);
    }
    if clogs_in(clogs, a) {
        let i = choose|i: int|
            0 <= i < clogs.len() && (#[trigger] clogs[i] matches Clog::Node(node, direction) && node == a
                && direction != Direction::Out);
        if i < end {
            assert(front[i] == clogs[i]);
        }
    }
    if clogs_out(clogs, a) {
        let i = choose|i: int|
            0 <= i < clogs.len() && (#[trigger] clogs[i] matches Clog::Node(node, direction) && node == a
                && direction != Direction::In);
        if i < end {
            assert(front[i] == clogs[i]);
        }
    }
    if clogs_link(clogs, a, b) {
        let i = choose|i: int| 0 <= i < clogs.len() && #[trigger] clogs[i] == Clog::Link(a, b);
        if i < end {
            assert(front[i] == clogs[i]);
        }
    }
}

/// Unclogging what was clogged restores the network: after any cloggings,
/// none of which names what was clogged before, and the uncloggings that
/// reverse them, the network is what it was, and so every link is clogged
/// or not as it was.
pub proof fn lemma_unclog_reverses_clog<S: ?Sized>(net: NetworkView<S>, clogs: Seq<Clog>)
    requires
        forall|i: int| 0 <= i < clogs.len() ==> !(#[trigger] clogs[i]).overlaps(net),
    ensures
        unclog_all(clog_all(net, clogs), clogs) == net,
        forall|a: NodeId, b: NodeId|
            unclog_all(clog_all(net, clogs), clogs).link_clogged(a, b) == net.link_clogged(a, b),
{
    let clogged = clog_all(net, clogs);
    let after = unclog_all(clogged, clogs);
    lemma_clog_all(net, clogs);
    lemma_unclog_all(clogged, clogs);
    assert forall|id: NodeId| net.clogged_in.contains(id) implies !clogs_in(clogs, id) by {
        if clogs_in(clogs, id) {
            let i = choose|i: int|
                0 <= i < clogs.len() && (#[trigger] clogs[i] matches Clog::Node(node, direction) && node
                    == id && direction != Direction::Out);
            assert(clogs[i].overlaps(net));
        }
    }
    assert forall|id: NodeId| net.clogged_out.contains(id) implies !clogs_out(clogs, id) by {
        if clogs_out(clogs, id) {
            let i = choose|i: int|
                0 <= i < clogs.len() && (#[trigger] clogs[i] matches Clog::Node(node, direction) && node
                    == id && direction != Direction::In);
            assert(clogs[i].overlaps(net));
        }
    }
    assert forall|src: NodeId, dst: NodeId| net.clogged_link.contains((src, dst)) implies !clogs_link(
        clogs,
        src,
        dst,
    ) by {
        if clogs_link(clogs, src, dst) {
            let i = choose|i: int| 0 <= i < clogs.len() && #[trigger] clogs[i] == Clog::Link(src, dst);
            assert(clogs[i].overlaps(net));
        }
    }
    assert(after.clogged_in =~= net.clogged_in);
    assert(after.clogged_out =~= net.clogged_out);
    assert(after.clogged_link =~= net.clogged_link);
}

/// The count of messages grows by exactly one with each packet that the
/// link oracle admits, and with no other: after `try_send` it is one more
/// where the destination resolves to a node and the oracle admits the
/// packet to it, whether or not a socket receives it, and what it was
/// otherwise.
pub proof fn lemma_count_follows_admission<S: ?Sized>(
    net: NetworkView<S>,
    id: NodeId,
    dst: SocketAddr,
    protocol: IpProtocol,
)
    requires
        net.msg_count < u64::MAX || !net.admitted(id, dst, protocol),
    ensures
        net.try_send(id, dst, protocol).msg_count == (if net.admitted(id, dst, protocol) {
            net.msg_count + 1
        } else {
            net.msg_count as int
        }),
        net.delivery(id, dst, protocol) is Some ==> net.admitted(id, dst, protocol),
{
}

/// `try_send` uses the generator in a fixed order and changes nothing but
/// the generator and the count: no roll where the destination resolves to
/// no node or the link is clogged, one roll where the packet is lost, two
/// where it is admitted. The count never falls.
pub proof fn lemma_try_send_uses_rolls_in_order<S: ?Sized>(
    net: NetworkView<S>,
    id: NodeId,
    dst: SocketAddr,
    protocol: IpProtocol,
)
    requires
        net.msg_count < u64::MAX || !net.admitted(id, dst, protocol),
    ensures
        ({
            let after = net.try_send(id, dst, protocol);
            let once = GlobalRng::next_state(net.rand);
            &&& after == (NetworkView { rand: after.rand, msg_count: after.msg_count, ..net })
            &&& after.msg_count >= net.msg_count
            &&& match net.resolve_dest_node(id, dst, protocol) {
                None => after.rand == net.rand,
                Some(dst_node) => if net.link_clogged(id, dst_node) {
                    after.rand == net.rand
                } else if net.config.loses(net.loss_roll()) {
                    after.rand == once
                } else {
                    after.rand == GlobalRng::next_state(once)
                },
            }
        }),
{
}

/// A second bind to a bound address is refused: after a bind that gave
/// the address `bound`, a bind of the same node to `bound` with the same
/// protocol fails because the address is in use, and changes nothing.
pub proof fn lemma_second_bind_is_refused<S: ?Sized>(
    net: NetworkView<S>,
    id: NodeId,
    addr: SocketAddr,
    protocol: IpProtocol,
    first: Arc<S>,
    second: Arc<S>,
)
    requires
        net.bind_result(id, addr, protocol) is Ok,
    ensures
        ({
            let bound = net.bind_result(id, addr, protocol)->Ok_0;
            let after = net.bind(id, addr, protocol, first);
            &&& bound.port != 0
            &&& addr.port != 0 ==> bound == addr
            &&& after.bind_result(id, bound, protocol) == Err::<SocketAddr, BindError>(
                BindError::AddressInUse(bound),
            )
            &&& after.bind_result(id, bound, protocol)->Err_0.kind() == ErrorKind::AddrInUse
            &&& after.bind(id, bound, protocol, second) == after
        }),
{
    let node = net.nodes[id];
    let bound = net.bind_result(id, addr, protocol)->Ok_0;
    let after = net.bind(id, addr, protocol, first);
    if addr.port == 0 {
        let port = choose|port: u16| node.is_first_free_port(addr.ip, protocol, port);
        assert(node.is_first_free_port(addr.ip, protocol, port));
    }
    assert(after.nodes[id].sockets.contains_key((bound, protocol)));
    assert(after.nodes.insert(id, after.nodes[id]) =~= after.nodes);
}

/// Binds on different nodes are independent: a bind on one node changes
/// the answer to no bind on another.
pub proof fn lemma_bind_is_per_node<S: ?Sized>(
    net: NetworkView<S>,
    id: NodeId,
    addr: SocketAddr,
    protocol: IpProtocol,
    socket: Arc<S>,
    other: NodeId,
    other_addr: SocketAddr,
    other_protocol: IpProtocol,
)
    requires
        id != other,
    ensures
        net.bind(id, addr, protocol, socket).bind_result(other, other_addr, other_protocol)
            == net.bind_result(other, other_addr, other_protocol),
        net.bind(id, addr, protocol, socket).nodes[other] == net.nodes[other],
{
}

/// A reset node receives nothing: after `reset_node`, whoever sends and
/// wherever to, no delivery goes to the node. It holds no handle of a
/// delivery either, and every other node is what it was.
pub proof fn lemma_reset_node_receives_nothing<S: ?Sized>(
    net: NetworkView<S>,
    node: NodeId,
    id: NodeId,
    dst: SocketAddr,
    protocol: IpProtocol,
)
    ensures
        net.reset_node(node).delivery(id, dst, protocol) matches Some(delivery) ==> delivery.1 != node,
        net.reset_node(node).nodes[node].sockets == Map::<(SocketAddr, IpProtocol), Arc<S>>::empty(),
        net.reset_node(node).nodes[node].tasks.len() == 0,
        net.reset_node(node).nodes[node].ip == net.nodes[node].ip,
        forall|other: NodeId|
            other != node && net.nodes.contains_key(other) ==> net.reset_node(node).nodes[other]
                == net.nodes[other],
{
}

/// A node without sockets receives nothing, and stays without sockets
/// until one is bound: `try_send` changes no node.
pub proof fn lemma_node_without_sockets_receives_nothing<S: ?Sized>(
    net: NetworkView<S>,
    node: NodeId,
    id: NodeId,
    dst: SocketAddr,
    protocol: IpProtocol,
)
    requires
        net.nodes[node].sockets == Map::<(SocketAddr, IpProtocol), Arc<S>>::empty(),
    ensures
        net.delivery(id, dst, protocol) matches Some(delivery) ==> delivery.1 != node,
        net.try_send(id, dst, protocol).nodes == net.nodes,
{
}

/// A run is determined by what the network is: two networks that are the
/// same, seed included, answer the same `try_send` alike, loss and latency
/// included, and are the same afterwards.
pub proof fn lemma_equal_networks_answer_alike<S: Socket + ?Sized>(
    one: &Network<S>,
    two: &Network<S>,
    id: NodeId,
    dst: SocketAddr,
    protocol: IpProtocol,
)
    requires
        one@ == two@,
    ensures
        one@.delivery(id, dst, protocol) == two@.delivery(id, dst, protocol),
        one@.try_send(id, dst, protocol) == two@.try_send(id, dst, protocol),
{
}

} // verus!
