use madsim::addr::{IpAddr, IpProtocol, SocketAddr};
use madsim::config::{Config, Duration, Probability};
use madsim::network::{Direction, Network, Socket};
use madsim::node::{BindError, ErrorKind};
use madsim::rng::GlobalRng;
use madsim::task::NodeId;
use std::sync::atomic::{AtomicUsize, Ordering};
use std::sync::Arc;

struct Probe {
    tag: u32,
    delivered: AtomicUsize,
}

impl Socket for Probe {
    type Payload = u8;
    type Sender = ();
    type Receiver = ();

    fn deliver(&self, _src: SocketAddr, _dst: SocketAddr, _msg: u8) {
        self.delivered.fetch_add(1, Ordering::SeqCst);
    }
}

fn probe(tag: u32) -> Arc<Probe> {
    Arc::new(Probe {
        tag,
        delivered: AtomicUsize::new(0),
    })
}

fn config(rate: f64) -> Config {
    Config {
        packet_loss_rate: Probability::from_bits(rate.to_bits()),
        send_latency: Duration::from_millis(1)..Duration::from_millis(10),
    }
}

fn network(seed: u64, rate: f64) -> Network<Probe> {
    Network::new(GlobalRng::new_with_seed(seed), config(rate))
}

const A: NodeId = NodeId(1);
const B: NodeId = NodeId(2);
const C: NodeId = NodeId(3);

fn ip_a() -> IpAddr {
    IpAddr::v4(10, 0, 0, 1)
}

fn ip_b() -> IpAddr {
    IpAddr::v4(10, 0, 0, 2)
}

/// Two nodes with addresses, and a datagram socket on the second.
fn pair(seed: u64, rate: f64) -> (Network<Probe>, SocketAddr) {
    let mut net = network(seed, rate);
    net.insert_node(A);
    net.insert_node(B);
    net.set_ip(A, ip_a());
    net.set_ip(B, ip_b());
    let at = net
        .bind(B, SocketAddr::new(ip_b(), 9000), IpProtocol::Udp, probe(7))
        .unwrap();
    (net, at)
}

#[test]
fn new_network_is_empty() {
    let net = network(5, 0.0);
    assert!(!net.contains_node(A));
    assert_eq!(net.stat().msg_count, 0);
    assert_eq!(net.ip_owner(ip_a()), None);
    assert!(!net.link_clogged(A, B));
    assert_eq!(*net.config(), Config::default());
}

#[test]
fn insert_node_adds_an_empty_node() {
    let mut net = network(5, 0.0);
    net.insert_node(A);
    assert!(net.contains_node(A));
    assert!(!net.contains_node(B));
    assert_eq!(net.node_ip(A), None);
    assert!(!net.is_bound(A, SocketAddr::new(ip_a(), 80), IpProtocol::Tcp));
}

#[test]
fn loopback_self_delivery() {
    let mut net = network(0, 0.0);
    net.insert_node(A);
    net.set_ip(A, ip_a());
    let at = SocketAddr::new(IpAddr::v4(127, 0, 0, 1), 7000);
    assert_eq!(net.bind(A, at, IpProtocol::Udp, probe(1)), Ok(at));
    assert_eq!(net.resolve_dest_node(A, at, IpProtocol::Udp), Some(A));
    let (src_ip, dst_node, socket, latency) = net.try_send(A, at, IpProtocol::Udp).unwrap();
    assert_eq!(src_ip, IpAddr::v4(127, 0, 0, 1));
    assert_eq!(src_ip, IpAddr::localhost());
    assert_eq!(dst_node, A);
    assert_eq!(socket.tag, 1);
    assert_eq!(latency, Duration::from_nanos(8_355_700));
}

#[test]
fn loopback_passes_the_link_oracle() {
    let mut net = network(0, 0.0);
    net.insert_node(A);
    net.insert_node(B);
    net.set_ip(A, ip_a());
    let at = SocketAddr::new(IpAddr::v4(127, 0, 0, 1), 7000);
    net.bind(A, at, IpProtocol::Udp, probe(1)).unwrap();
    net.clog_link(A, B);
    assert!(net.try_send(A, at, IpProtocol::Udp).is_some());
    assert_eq!(net.stat().msg_count, 1);
    net.clog_node(A, Direction::Out);
    assert!(net.try_send(A, at, IpProtocol::Udp).is_none());
    net.unclog_node(A, Direction::Out);
    net.clog_link(A, A);
    assert!(net.try_send(A, at, IpProtocol::Udp).is_none());
    assert_eq!(net.stat().msg_count, 1);
}

#[test]
fn wildcard_bind() {
    let mut net = network(0, 0.0);
    net.insert_node(A);
    net.insert_node(B);
    net.set_ip(A, ip_a());
    net.set_ip(B, ip_b());
    let wildcard = SocketAddr::new(IpAddr::v4(0, 0, 0, 0), 50051);
    assert_eq!(net.bind(B, wildcard, IpProtocol::Tcp, probe(2)), Ok(wildcard));
    let dst = SocketAddr::new(ip_b(), 50051);
    assert!(!net.is_bound(B, dst, IpProtocol::Tcp));
    let (src_ip, dst_node, socket, _) = net.try_send(A, dst, IpProtocol::Tcp).unwrap();
    assert_eq!(src_ip, ip_a());
    assert_eq!(dst_node, B);
    assert_eq!(socket.tag, 2);
    // the protocol is part of the key
    assert!(net.try_send(A, dst, IpProtocol::Udp).is_none());
    // and so is the port
    assert!(net
        .try_send(A, SocketAddr::new(ip_b(), 50052), IpProtocol::Tcp)
        .is_none());
}

#[test]
fn exact_bind_wins_over_wildcard() {
    let mut net = network(0, 0.0);
    net.insert_node(A);
    net.insert_node(B);
    net.set_ip(A, ip_a());
    net.set_ip(B, ip_b());
    let wildcard = SocketAddr::new(IpAddr::unspecified(), 50051);
    let exact = SocketAddr::new(ip_b(), 50051);
    net.bind(B, wildcard, IpProtocol::Tcp, probe(2)).unwrap();
    net.bind(B, exact, IpProtocol::Tcp, probe(3)).unwrap();
    let (_, _, socket, _) = net.try_send(A, exact, IpProtocol::Tcp).unwrap();
    assert_eq!(socket.tag, 3);
    net.close(B, exact, IpProtocol::Tcp);
    let (_, _, socket, _) = net.try_send(A, exact, IpProtocol::Tcp).unwrap();
    assert_eq!(socket.tag, 2);
}

#[test]
fn ip_conflict() {
    let mut net = network(0, 0.0);
    net.insert_node(A);
    net.insert_node(B);
    net.set_ip(A, ip_a());
    // B may not take the address: it leads to A.
    assert_eq!(net.ip_owner(ip_a()), Some(A));
    assert_ne!(net.ip_owner(ip_a()), Some(B));
    assert_eq!(net.ip_owner(ip_b()), None);
    // A may take it again.
    net.set_ip(A, ip_a());
    assert_eq!(net.ip_owner(ip_a()), Some(A));
    assert_eq!(net.node_ip(A), Some(ip_a()));
}

#[test]
fn set_ip_frees_the_previous_address() {
    let mut net = network(0, 0.0);
    net.insert_node(A);
    net.insert_node(B);
    net.set_ip(A, ip_a());
    net.set_ip(A, IpAddr::v4(10, 0, 0, 9));
    assert_eq!(net.ip_owner(ip_a()), None);
    assert_eq!(net.ip_owner(IpAddr::v4(10, 0, 0, 9)), Some(A));
    net.set_ip(B, ip_a());
    assert_eq!(net.ip_owner(ip_a()), Some(B));
    assert_eq!(net.node_ip(B), Some(ip_a()));
}

#[test]
fn version_6_addresses() {
    let mut net = network(0, 0.0);
    net.insert_node(A);
    net.insert_node(B);
    let a6 = IpAddr::V6(0xfd00_0000_0000_0000_0000_0000_0000_0001);
    let b6 = IpAddr::V6(0xfd00_0000_0000_0000_0000_0000_0000_0002);
    net.set_ip(A, a6);
    net.set_ip(B, b6);
    assert_eq!(net.ip_owner(b6), Some(B));
    let at = SocketAddr::new(b6, 53);
    assert_eq!(net.bind(B, at, IpProtocol::Udp, probe(6)), Ok(at));
    assert_eq!(
        net.bind(B, at, IpProtocol::Udp, probe(6)),
        Err(BindError::AddressInUse(at))
    );
    assert_eq!(net.bind(B, at, IpProtocol::Tcp, probe(8)), Ok(at));
    let (src_ip, dst_node, socket, _) = net.try_send(A, at, IpProtocol::Udp).unwrap();
    assert_eq!((src_ip, dst_node, socket.tag), (a6, B, 6));
    net.close(B, at, IpProtocol::Udp);
    assert!(net.try_send(A, at, IpProtocol::Udp).is_none());
    assert!(net.try_send(A, at, IpProtocol::Tcp).is_some());
    // `::1` is a loopback address, `::` a wildcard
    assert!(IpAddr::V6(1).is_loopback());
    assert!(IpAddr::V6(0).is_unspecified());
    assert!(!a6.is_loopback());
    let port = net
        .bind(B, SocketAddr::new(IpAddr::V6(1), 0), IpProtocol::Udp, probe(9))
        .unwrap();
    assert_eq!(port, SocketAddr::new(IpAddr::V6(1), 1));
}

#[test]
fn ephemeral_port() {
    let mut net = network(0, 0.0);
    net.insert_node(A);
    let any = SocketAddr::new(IpAddr::unspecified(), 0);
    let first = net.bind(A, any, IpProtocol::Udp, probe(1)).unwrap();
    assert_eq!(first.port(), 1);
    assert_eq!(first.ip(), IpAddr::unspecified());
    let second = net.bind(A, any, IpProtocol::Udp, probe(2)).unwrap();
    assert_eq!(second.port(), 2);
    // a closed port is handed out again, being the least
    net.close(A, first, IpProtocol::Udp);
    let third = net.bind(A, any, IpProtocol::Udp, probe(3)).unwrap();
    assert_eq!(third.port(), 1);
    // ports are per protocol, per address and per node
    assert_eq!(net.bind(A, any, IpProtocol::Tcp, probe(4)).unwrap().port(), 1);
    let loopback = SocketAddr::new(IpAddr::localhost(), 0);
    assert_eq!(net.bind(A, loopback, IpProtocol::Udp, probe(5)).unwrap().port(), 1);
    net.insert_node(B);
    assert_eq!(net.bind(B, any, IpProtocol::Udp, probe(6)).unwrap().port(), 1);
}

#[test]
fn ephemeral_port_skips_taken_ports() {
    let mut net = network(0, 0.0);
    net.insert_node(A);
    let ip = IpAddr::unspecified();
    net.bind(A, SocketAddr::new(ip, 1), IpProtocol::Tcp, probe(1)).unwrap();
    net.bind(A, SocketAddr::new(ip, 2), IpProtocol::Tcp, probe(2)).unwrap();
    net.bind(A, SocketAddr::new(ip, 4), IpProtocol::Tcp, probe(4)).unwrap();
    let got = net.bind(A, SocketAddr::new(ip, 0), IpProtocol::Tcp, probe(3)).unwrap();
    assert_eq!(got, SocketAddr::new(ip, 3));
    let got = net.bind(A, SocketAddr::new(ip, 0), IpProtocol::Tcp, probe(5)).unwrap();
    assert_eq!(got, SocketAddr::new(ip, 5));
}

#[test]
fn no_ephemeral_port_left() {
    let mut net = network(0, 0.0);
    net.insert_node(A);
    let ip = IpAddr::unspecified();
    for port in 1..=u16::MAX {
        let at = SocketAddr::new(ip, port);
        assert_eq!(net.bind(A, at, IpProtocol::Udp, probe(0)), Ok(at));
    }
    let result = net.bind(A, SocketAddr::new(ip, 0), IpProtocol::Udp, probe(0));
    assert_eq!(result, Err(BindError::NoEphemeralPort));
    assert_eq!(result.unwrap_err().kind(), ErrorKind::AddrInUse);
    // the other protocol has every port left
    let tcp = net.bind(A, SocketAddr::new(ip, 0), IpProtocol::Tcp, probe(0));
    assert_eq!(tcp, Ok(SocketAddr::new(ip, 1)));
    // and the last port is found when it alone is free
    net.close(A, SocketAddr::new(ip, u16::MAX), IpProtocol::Udp);
    let last = net.bind(A, SocketAddr::new(ip, 0), IpProtocol::Udp, probe(0));
    assert_eq!(last, Ok(SocketAddr::new(ip, u16::MAX)));
}

#[test]
fn bind_checks_the_address() {
    let mut net = network(0, 0.0);
    net.insert_node(A);
    net.insert_node(B);
    net.set_ip(A, ip_a());
    let foreign = SocketAddr::new(ip_b(), 80);
    let result = net.bind(A, foreign, IpProtocol::Tcp, probe(1));
    assert_eq!(result, Err(BindError::InvalidAddress(foreign)));
    assert_eq!(result.unwrap_err().kind(), ErrorKind::AddrNotAvailable);
    assert!(!net.is_bound(A, foreign, IpProtocol::Tcp));
    // its own address, a wildcard and a loopback are accepted
    let own = SocketAddr::new(ip_a(), 80);
    assert_eq!(net.bind(A, own, IpProtocol::Tcp, probe(1)), Ok(own));
    let wildcard = SocketAddr::new(IpAddr::unspecified(), 80);
    assert_eq!(net.bind(A, wildcard, IpProtocol::Tcp, probe(1)), Ok(wildcard));
    let loopback = SocketAddr::new(IpAddr::v4(127, 1, 2, 3), 80);
    assert_eq!(net.bind(A, loopback, IpProtocol::Tcp, probe(1)), Ok(loopback));
    // a node without an address has none of its own to accept
    let result = net.bind(B, foreign, IpProtocol::Tcp, probe(1));
    assert_eq!(result, Err(BindError::InvalidAddress(foreign)));
    assert!(!net.is_bound(B, foreign, IpProtocol::Tcp));
    assert_eq!(net.bind(B, wildcard, IpProtocol::Tcp, probe(1)), Ok(wildcard));
    assert_eq!(net.bind(B, loopback, IpProtocol::Tcp, probe(1)), Ok(loopback));
    // once it has the address, the address is accepted
    net.set_ip(B, ip_b());
    assert_eq!(net.bind(B, foreign, IpProtocol::Tcp, probe(1)), Ok(foreign));
}

#[test]
fn bind_on_a_node_without_address_refuses_other_addresses() {
    let mut net = network(0, 0.0);
    net.insert_node(A);
    let at = SocketAddr::new(IpAddr::v4(10, 0, 0, 9), 80);
    let result = net.bind(A, at, IpProtocol::Udp, probe(1));
    assert_eq!(result, Err(BindError::InvalidAddress(at)));
    assert_eq!(result.unwrap_err().kind(), ErrorKind::AddrNotAvailable);
    assert!(!net.is_bound(A, at, IpProtocol::Udp));
    // port 0 does not help
    let any_port = SocketAddr::new(IpAddr::v4(10, 0, 0, 9), 0);
    assert_eq!(
        net.bind(A, any_port, IpProtocol::Udp, probe(1)),
        Err(BindError::InvalidAddress(any_port))
    );
    assert!(!net.is_bound(A, SocketAddr::new(IpAddr::v4(10, 0, 0, 9), 1), IpProtocol::Udp));
}

#[test]
fn bind_twice_is_refused() {
    let mut net = network(0, 0.0);
    net.insert_node(A);
    net.insert_node(B);
    let at = SocketAddr::new(IpAddr::unspecified(), 8080);
    assert_eq!(net.bind(A, at, IpProtocol::Tcp, probe(1)), Ok(at));
    let again = net.bind(A, at, IpProtocol::Tcp, probe(2));
    assert_eq!(again, Err(BindError::AddressInUse(at)));
    assert_eq!(again.unwrap_err().kind(), ErrorKind::AddrInUse);
    // the first socket stays
    net.set_ip(A, ip_a());
    let (_, _, socket, _) = net
        .try_send(A, SocketAddr::new(ip_a(), 8080), IpProtocol::Tcp)
        .unwrap();
    assert_eq!(socket.tag, 1);
    // the same key on another node is free
    assert_eq!(net.bind(B, at, IpProtocol::Tcp, probe(3)), Ok(at));
    // and after a close it is free on the first node too
    net.close(A, at, IpProtocol::Tcp);
    assert_eq!(net.bind(A, at, IpProtocol::Tcp, probe(4)), Ok(at));
}

#[test]
fn close_of_an_unbound_address_changes_nothing() {
    let (mut net, at) = pair(0, 0.0);
    net.close(B, SocketAddr::new(ip_b(), 9001), IpProtocol::Udp);
    net.close(B, at, IpProtocol::Tcp);
    assert!(net.is_bound(B, at, IpProtocol::Udp));
    assert!(net.try_send(A, at, IpProtocol::Udp).is_some());
}

#[test]
fn resolve_follows_the_four_steps() {
    let mut net = network(0, 0.0);
    net.insert_node(A);
    net.insert_node(B);
    net.insert_node(C);
    net.set_ip(B, ip_b());
    let to_b = SocketAddr::new(ip_b(), 1);
    // a loopback address leads back to the sender
    let loopback = SocketAddr::new(IpAddr::v4(127, 0, 0, 1), 1);
    assert_eq!(net.resolve_dest_node(A, loopback, IpProtocol::Tcp), Some(A));
    // a sender without an address reaches nobody
    assert_eq!(net.resolve_dest_node(A, to_b, IpProtocol::Tcp), None);
    // unless it has a socket of its own on the address
    let wildcard = SocketAddr::new(IpAddr::unspecified(), 1);
    net.bind(C, wildcard, IpProtocol::Tcp, probe(1)).unwrap();
    assert_eq!(net.resolve_dest_node(C, wildcard, IpProtocol::Tcp), Some(C));
    assert_eq!(net.resolve_dest_node(C, wildcard, IpProtocol::Udp), None);
    assert_eq!(net.resolve_dest_node(A, wildcard, IpProtocol::Tcp), None);
    // a sender with an address reaches the node that has the address
    net.set_ip(A, ip_a());
    assert_eq!(net.resolve_dest_node(A, to_b, IpProtocol::Tcp), Some(B));
    assert_eq!(
        net.resolve_dest_node(A, SocketAddr::new(IpAddr::v4(10, 0, 0, 77), 1), IpProtocol::Tcp),
        None
    );
    // its own socket comes before the node that has the address
    net.bind(B, to_b, IpProtocol::Tcp, probe(2)).unwrap();
    net.set_ip(B, IpAddr::v4(10, 0, 0, 3));
    net.set_ip(C, ip_b());
    assert_eq!(net.resolve_dest_node(A, to_b, IpProtocol::Tcp), Some(C));
    assert_eq!(net.resolve_dest_node(B, to_b, IpProtocol::Tcp), Some(B));
}

#[test]
fn sender_without_address_cannot_name_itself() {
    let mut net = network(0, 0.0);
    net.insert_node(A);
    let own = SocketAddr::new(IpAddr::unspecified(), 80);
    net.bind(A, own, IpProtocol::Tcp, probe(1)).unwrap();
    assert!(!net.can_send(A, own, IpProtocol::Tcp));
    assert!(net.can_send(A, own, IpProtocol::Udp));
    assert!(net.can_send(A, SocketAddr::new(IpAddr::localhost(), 80), IpProtocol::Tcp));
    // the packet would be admitted: the send is not to be made
    assert!(net.admits(A, A));
    // a packet that is lost needs no source address
    net.clog_node(A, Direction::Out);
    assert!(!net.admits(A, A));
    assert!(net.try_send(A, own, IpProtocol::Tcp).is_none());
    assert_eq!(net.stat().msg_count, 0);
    net.unclog_node(A, Direction::Out);
    net.update_config(|_| config(1.0));
    assert!(!net.admits(A, A));
    assert!(net.try_send(A, own, IpProtocol::Tcp).is_none());
    assert_eq!(net.stat().msg_count, 0);
    net.update_config(|_| config(0.0));
    // with an address the packet comes back to the sender
    net.set_ip(A, ip_a());
    assert!(net.can_send(A, own, IpProtocol::Tcp));
    let (src_ip, dst_node, _, _) = net.try_send(A, own, IpProtocol::Tcp).unwrap();
    assert_eq!((src_ip, dst_node), (ip_a(), A));
}

#[test]
fn admits_looks_at_the_roll_and_leaves_it() {
    let (mut net, at) = pair(42, 0.5);
    let expected = [true, false, false, false, true, true, true, false];
    for outcome in expected {
        for _ in 0..3 {
            assert_eq!(net.admits(A, B), outcome);
        }
        assert_eq!(net.try_send(A, at, IpProtocol::Udp).is_some(), outcome);
    }
    net.clog_link(A, B);
    assert!(!net.admits(A, B));
    assert_eq!(net.admits(B, A), net.try_send(B, at, IpProtocol::Udp).is_some());
}

#[test]
fn lossless_network_delivers_every_packet() {
    for seed in 0..20 {
        let (mut net, at) = pair(seed, 0.0);
        for sent in 1..=50 {
            let (src_ip, dst_node, socket, latency) =
                net.try_send(A, at, IpProtocol::Udp).unwrap();
            assert_eq!((src_ip, dst_node, socket.tag), (ip_a(), B, 7));
            assert!(Duration::from_millis(1) <= latency && latency < Duration::from_millis(10));
            assert_eq!(net.stat().msg_count, sent);
        }
    }
}

#[test]
fn total_loss_delivers_nothing() {
    for seed in 0..20 {
        let (mut net, at) = pair(seed, 1.0);
        for _ in 0..50 {
            assert!(net.try_send(A, at, IpProtocol::Udp).is_none());
            assert_eq!(net.stat().msg_count, 0);
        }
    }
}

#[test]
fn negative_zero_is_no_loss() {
    let mut net = network(3, -0.0);
    net.insert_node(A);
    let at = SocketAddr::new(IpAddr::localhost(), 1);
    net.bind(A, at, IpProtocol::Udp, probe(1)).unwrap();
    for _ in 0..50 {
        assert!(net.try_send(A, at, IpProtocol::Udp).is_some());
    }
}

#[test]
fn latency_is_the_second_roll_modulo_the_range() {
    let (mut net, at) = pair(0, 0.0);
    let expected = [8_355_700u128, 3_542_444, 4_162_090];
    for nanos in expected {
        let (_, _, _, latency) = net.try_send(A, at, IpProtocol::Udp).unwrap();
        assert_eq!(latency.as_nanos(), nanos);
    }
}

#[test]
fn half_loss_follows_the_rolls() {
    let (mut net, at) = pair(42, 0.5);
    let expected: [Option<u128>; 8] = [
        Some(7_892_291),
        None,
        None,
        None,
        Some(1_624_925),
        Some(1_482_005),
        Some(3_294_207),
        None,
    ];
    let mut admitted = 0;
    for outcome in expected {
        let got = net.try_send(A, at, IpProtocol::Udp);
        assert_eq!(got.map(|delivery| delivery.3.as_nanos()), outcome);
        if outcome.is_some() {
            admitted += 1;
        }
        assert_eq!(net.stat().msg_count, admitted);
    }
}

#[test]
fn same_seed_same_outcomes() {
    let run = |seed: u64| {
        let (mut net, at) = pair(seed, 0.3);
        let mut outcomes = Vec::new();
        for round in 0..200u32 {
            if round == 50 {
                net.clog_link(A, B);
            }
            if round == 60 {
                net.unclog_link(A, B);
            }
            let got = net.try_send(A, at, IpProtocol::Udp);
            outcomes.push(got.map(|(ip, node, socket, latency)| (ip, node, socket.tag, latency)));
        }
        (outcomes, net.stat().msg_count)
    };
    assert_eq!(run(11), run(11));
    assert_ne!(run(11).0, run(12).0);
}

#[test]
fn clogged_link_uses_no_roll() {
    // The rolls that a clogged link would have used are still there after.
    let (mut clogged, at) = pair(42, 0.5);
    clogged.clog_node(B, Direction::In);
    for _ in 0..10 {
        assert!(clogged.try_send(A, at, IpProtocol::Udp).is_none());
    }
    clogged.unclog_node(B, Direction::In);
    let (mut fresh, _) = pair(42, 0.5);
    for _ in 0..8 {
        let one = clogged.try_send(A, at, IpProtocol::Udp).map(|d| d.3);
        let two = fresh.try_send(A, at, IpProtocol::Udp).map(|d| d.3);
        assert_eq!(one, two);
    }
}

#[test]
fn unbound_destination_still_counts() {
    // The oracle admits the packet before the socket is looked up.
    let (mut net, _) = pair(0, 0.0);
    let unbound = SocketAddr::new(ip_b(), 9999);
    assert!(net.try_send(A, unbound, IpProtocol::Udp).is_none());
    assert_eq!(net.stat().msg_count, 1);
    // an unresolved destination does not reach the oracle
    let nowhere = SocketAddr::new(IpAddr::v4(10, 9, 9, 9), 9000);
    assert!(net.try_send(A, nowhere, IpProtocol::Udp).is_none());
    assert_eq!(net.stat().msg_count, 1);
}

#[test]
fn one_way_partition() {
    let (mut net, to_b) = pair(0, 0.0);
    let to_a = net
        .bind(A, SocketAddr::new(ip_a(), 9000), IpProtocol::Udp, probe(8))
        .unwrap();
    net.clog_link(A, B);
    assert!(net.link_clogged(A, B));
    assert!(!net.link_clogged(B, A));
    assert!(net.try_send(A, to_b, IpProtocol::Udp).is_none());
    let (src_ip, dst_node, socket, _) = net.try_send(B, to_a, IpProtocol::Udp).unwrap();
    assert_eq!((src_ip, dst_node, socket.tag), (ip_b(), A, 8));
    assert_eq!(net.stat().msg_count, 1);
    net.unclog_link(A, B);
    assert!(net.try_send(A, to_b, IpProtocol::Udp).is_some());
}

#[test]
fn clog_node_by_direction() {
    let mut net = network(0, 0.0);
    net.insert_node(A);
    net.insert_node(B);
    net.clog_node(A, Direction::In);
    assert!(net.link_clogged(B, A));
    assert!(!net.link_clogged(A, B));
    net.clog_node(A, Direction::Out);
    assert!(net.link_clogged(A, B));
    net.unclog_node(A, Direction::Both);
    assert!(!net.link_clogged(A, B));
    assert!(!net.link_clogged(B, A));
    net.clog_node(A, Direction::Both);
    assert!(net.link_clogged(A, B));
    assert!(net.link_clogged(B, A));
    assert!(net.link_clogged(A, A));
    net.unclog_node(A, Direction::In);
    assert!(!net.link_clogged(B, A));
    assert!(net.link_clogged(A, B));
}

#[test]
fn unclog_reverses_clog() {
    let mut net = network(0, 0.0);
    let nodes = [A, B, C];
    for node in nodes {
        net.insert_node(node);
    }
    net.clog_node(C, Direction::In);
    let clogged = |net: &Network<Probe>| {
        let mut all = Vec::new();
        for a in nodes {
            for b in nodes {
                all.push(net.link_clogged(a, b));
            }
        }
        all
    };
    let before = clogged(&net);
    net.clog_node(A, Direction::Both);
    net.clog_link(B, A);
    net.clog_node(B, Direction::Out);
    net.clog_link(B, C);
    net.clog_link(B, A);
    assert_ne!(clogged(&net), before);
    net.unclog_link(B, C);
    net.unclog_node(B, Direction::Out);
    net.unclog_link(B, A);
    net.unclog_node(A, Direction::Both);
    net.unclog_link(B, A);
    assert_eq!(clogged(&net), before);
}

#[test]
fn unclog_takes_what_was_clogged_before() {
    let mut net = network(0, 0.0);
    net.insert_node(A);
    net.insert_node(B);
    net.clog_node(B, Direction::In);
    assert!(net.link_clogged(A, B));
    // clogging anew and unclogging does not bring the first clogging back
    net.clog_node(B, Direction::In);
    net.unclog_node(B, Direction::In);
    assert!(!net.link_clogged(A, B));
}

#[test]
fn reset_node_closes_its_sockets() {
    let (mut net, at) = pair(0, 0.0);
    net.bind(A, SocketAddr::new(ip_a(), 1), IpProtocol::Udp, probe(1))
        .unwrap();
    assert!(net.try_send(A, at, IpProtocol::Udp).is_some());
    net.reset_node(B);
    assert!(!net.is_bound(B, at, IpProtocol::Udp));
    assert!(net.try_send(A, at, IpProtocol::Udp).is_none());
    assert!(net.try_send(B, at, IpProtocol::Udp).is_none());
    // the node keeps its address, and the other node its socket
    assert_eq!(net.node_ip(B), Some(ip_b()));
    assert_eq!(net.ip_owner(ip_b()), Some(B));
    assert!(net.is_bound(A, SocketAddr::new(ip_a(), 1), IpProtocol::Udp));
    // until rebound
    assert_eq!(net.bind(B, at, IpProtocol::Udp, probe(9)), Ok(at));
    let (_, dst_node, socket, _) = net.try_send(A, at, IpProtocol::Udp).unwrap();
    assert_eq!((dst_node, socket.tag), (B, 9));
}

/// Runs what is due at `now`, and keeps the rest.
fn run_due(timers: &mut Vec<(u128, async_task::Runnable)>, now: u128) {
    let mut waiting = Vec::new();
    for (due, runnable) in timers.drain(..) {
        if due <= now {
            runnable.run();
        } else {
            waiting.push((due, runnable));
        }
    }
    *timers = waiting;
}

/// A network whose latency is always 5, with a sender that has sent one
/// packet: the delivery is scheduled and its handle is with the receiver.
fn in_flight() -> (Network<Probe>, Arc<Probe>, Vec<(u128, async_task::Runnable)>) {
    let (mut net, at) = pair(0, 0.0);
    net.update_config(|_| Config {
        packet_loss_rate: Probability::zero(),
        send_latency: Duration::from_nanos(5)..Duration::from_nanos(6),
    });
    let now = 0;
    let (src_ip, dst_node, socket, latency) = net.try_send(A, at, IpProtocol::Udp).unwrap();
    assert_eq!(latency.as_nanos(), 5);
    let sink = socket.clone();
    let src = SocketAddr::new(src_ip, 1);
    let (runnable, task) = async_task::spawn(
        async move {
            sink.deliver(src, at, 0);
        },
        |_runnable: async_task::Runnable| {},
    );
    net.abort_task_on_reset(dst_node, task);
    (net, socket, vec![(now + latency.as_nanos(), runnable)])
}

#[test]
fn reset_cancels_in_flight() {
    let (mut net, socket, mut timers) = in_flight();
    run_due(&mut timers, 2);
    assert_eq!(timers.len(), 1);
    // the destination is reset before the latency has passed
    net.reset_node(B);
    run_due(&mut timers, 5);
    assert!(timers.is_empty());
    assert_eq!(socket.delivered.load(Ordering::SeqCst), 0);
}

#[test]
fn delivery_runs_without_a_reset() {
    let (mut net, socket, mut timers) = in_flight();
    run_due(&mut timers, 2);
    // a reset of another node leaves the delivery alone
    net.reset_node(A);
    run_due(&mut timers, 4);
    assert_eq!(socket.delivered.load(Ordering::SeqCst), 0);
    run_due(&mut timers, 5);
    assert_eq!(socket.delivered.load(Ordering::SeqCst), 1);
    // a later reset of the destination changes nothing any more
    net.reset_node(B);
    assert_eq!(socket.delivered.load(Ordering::SeqCst), 1);
}

#[test]
fn try_send_hands_out_the_bound_socket() {
    let mut net = network(0, 0.0);
    net.insert_node(A);
    let bound = probe(5);
    let at = SocketAddr::new(IpAddr::localhost(), 5);
    net.bind(A, at, IpProtocol::Tcp, bound.clone()).unwrap();
    let (_, _, socket, _) = net.try_send(A, at, IpProtocol::Tcp).unwrap();
    assert!(Arc::ptr_eq(&socket, &bound));
    // one handle here, one in the table, one handed out
    assert_eq!(Arc::strong_count(&bound), 3);
}

#[test]
fn update_config_holds_from_the_next_send() {
    let (mut net, at) = pair(0, 0.0);
    assert!(net.try_send(A, at, IpProtocol::Udp).is_some());
    net.update_config(|mut config: Config| {
        config.packet_loss_rate = Probability::one();
        config
    });
    assert_eq!(net.config().packet_loss_rate, Probability::one());
    assert!(net.try_send(A, at, IpProtocol::Udp).is_none());
    net.update_config(|_| Config {
        packet_loss_rate: Probability::zero(),
        send_latency: Duration::from_nanos(5)..Duration::from_nanos(6),
    });
    let (_, _, _, latency) = net.try_send(A, at, IpProtocol::Udp).unwrap();
    assert_eq!(latency, Duration::from_nanos(5));
}
