//! One simulated host: its address, its bound sockets and the handles of the
//! deliveries that are on their way to it.

use crate::addr::{IpAddr, IpProtocol, SocketAddr};
use crate::sockets::SocketTable;
use async_task::FallibleTask;
use std::sync::Arc;
use vstd::prelude::*;

verus! {

/// The class of a failed `bind`.
#[derive(Debug, Clone, Copy, PartialEq, Eq, Structural, Hash)]
pub enum ErrorKind {
    /// The address does not belong to the node.
    AddrNotAvailable,
    /// The address is taken, or no port is left.
    AddrInUse,
}

/// Why a `bind` failed.
#[derive(Debug, Clone, Copy, PartialEq, Eq, Structural, Hash)]
pub enum BindError {
    /// The address is neither a wildcard, nor a loopback, nor the address
    /// of the node.
    InvalidAddress(SocketAddr),
    /// Port `0` was asked for and every port from 1 to 65535 is taken.
    NoEphemeralPort,
    /// A socket is already bound to the address with the same protocol.
    AddressInUse(SocketAddr),
}

impl BindError {
    /// The class of the failure.
    pub open spec fn spec_kind(&self) -> ErrorKind {
        match *self {
            BindError::InvalidAddress(_) => ErrorKind::AddrNotAvailable,
            BindError::NoEphemeralPort => ErrorKind::AddrInUse,
            BindError::AddressInUse(_) => ErrorKind::AddrInUse,
        }
    }

    /// The class of the failure.
    #[verifier::when_used_as_spec(spec_kind)]
    pub fn kind(&self) -> (kind: ErrorKind)
        ensures
            kind == self.spec_kind(),
    {
        match *self {
            BindError::InvalidAddress(_) => ErrorKind::AddrNotAvailable,
            BindError::NoEphemeralPort => ErrorKind::AddrInUse,
            BindError::AddressInUse(_) => ErrorKind::AddrInUse,
        }
    }
}

/// What a node is, seen from outside.
pub struct NodeView<S: ?Sized> {
    /// The assigned IP address, if any.
    pub ip: Option<IpAddr>,
    /// The bound sockets, by address and protocol.
    pub sockets: Map<(SocketAddr, IpProtocol), Arc<S>>,
    /// The handles of the deliveries on their way to the node, oldest first.
    pub tasks: Seq<FallibleTask<()>>,
}

impl<S: ?Sized> NodeView<S> {
    /// A node without address, sockets or deliveries.
    pub open spec fn empty() -> Self {
        NodeView { ip: None, sockets: Map::empty(), tasks: Seq::empty() }
    }

    /// The node after a reset: it keeps its address and nothing else.
    pub open spec fn reset(self) -> Self {
        NodeView { ip: self.ip, sockets: Map::empty(), tasks: Seq::empty() }
    }

    /// Whether a socket may be bound to `ip` on this node: to a wildcard or
    /// a loopback always, to another address only if it is the address of
    /// the node. A node without an address takes wildcards and loopbacks
    /// only.
    pub open spec fn accepts(self, ip: IpAddr) -> bool {
        ||| ip.is_unspecified()
        ||| ip.is_loopback()
        ||| self.ip == Some(ip)
    }

    /// Whether a socket is bound to `ip:port` with `protocol`.
    pub open spec fn port_taken(self, ip: IpAddr, protocol: IpProtocol, port: u16) -> bool {
        self.sockets.contains_key((SocketAddr { ip, port }, protocol))
    }

    /// Whether `port` is the least port from 1 on that is free on `ip` for
    /// `protocol`.
    pub open spec fn is_first_free_port(self, ip: IpAddr, protocol: IpProtocol, port: u16) -> bool {
        &&& port >= 1
        &&& !self.port_taken(ip, protocol, port)
        &&& forall|below: u16| 1 <= below < port ==> #[trigger] self.port_taken(ip, protocol, below)
    }

    /// The least port from 1 on that is free on `ip` for `protocol`, if one
    /// is.
    pub open spec fn first_free_port(self, ip: IpAddr, protocol: IpProtocol) -> Option<u16> {
        if exists|port: u16| self.is_first_free_port(ip, protocol, port) {
            Some(choose|port: u16| self.is_first_free_port(ip, protocol, port))
        } else {
            None
        }
    }

    /// What `bind` answers: the bound address, with the ephemeral port
    /// filled in where port `0` was given, or the reason for the refusal.
    pub open spec fn bind_result(self, addr: SocketAddr, protocol: IpProtocol) -> Result<
        SocketAddr,
        BindError,
    > {
        if !self.accepts(addr.ip) {
            Err(BindError::InvalidAddress(addr))
        } else if addr.port == 0 {
            match self.first_free_port(addr.ip, protocol) {
                Some(port) => Ok(SocketAddr { ip: addr.ip, port }),
                None => Err(BindError::NoEphemeralPort),
            }
        } else if self.sockets.contains_key((addr, protocol)) {
            Err(BindError::AddressInUse(addr))
        } else {
            Ok(addr)
        }
    }

    /// The node after `bind`: with the socket at the bound address, or
    /// unchanged where the bind was refused.
    pub open spec fn bind(self, addr: SocketAddr, protocol: IpProtocol, socket: Arc<S>) -> Self {
        match self.bind_result(addr, protocol) {
            Ok(bound) => NodeView {
                ip: self.ip,
                sockets: self.sockets.insert((bound, protocol), socket),
                tasks: self.tasks,
            },
            Err(_) => self,
        }
    }

    /// The node after closing the socket at `addr` with `protocol`.
    pub open spec fn close(self, addr: SocketAddr, protocol: IpProtocol) -> Self {
        NodeView { ip: self.ip, sockets: self.sockets.remove((addr, protocol)), tasks: self.tasks }
    }

    /// The socket that receives what is sent to `dst` with `protocol`: the
    /// one bound to exactly `dst`, else the one bound to the version 4
    /// wildcard address with the port of `dst`.
    pub open spec fn receiver(self, dst: SocketAddr, protocol: IpProtocol) -> Option<Arc<S>> {
        let wildcard = SocketAddr { ip: IpAddr::unspecified(), port: dst.port };
        if self.sockets.contains_key((dst, protocol)) {
            Some(self.sockets[(dst, protocol)])
        } else if self.sockets.contains_key((wildcard, protocol)) {
            Some(self.sockets[(wildcard, protocol)])
        } else {
            None
        }
    }
}

/// A node in the network.
pub struct Node<S: ?Sized> {
    /// IP address of the node. A node has at most one.
    ip: Option<IpAddr>,
    /// Sockets in the node.
    sockets: SocketTable<S>,
    /// Dropped, and so cancelled, when the node is reset.
    tasks: Vec<FallibleTask<()>>,
}

impl<S: ?Sized> View for Node<S> {
    type V = NodeView<S>;

    closed spec fn view(&self) -> NodeView<S> {
        NodeView { ip: self.ip, sockets: self.sockets@, tasks: self.tasks@ }
    }
}

impl<S: ?Sized> Node<S> {
    /// A node without address, sockets or deliveries.
    pub fn new() -> (node: Node<S>)
        ensures
            node@ == NodeView::<S>::empty(),
    {
        Node { ip: None, sockets: SocketTable::new(), tasks: Vec::new() }
    }

    /// The assigned IP address, if any.
    pub fn ip(&self) -> (ip: Option<IpAddr>)
        ensures
            ip == self@.ip,
    {
        self.ip
    }

    /// Assigns the IP address.
    pub fn set_ip(&mut self, ip: IpAddr)
        ensures
            final(self)@ == (NodeView { ip: Some(ip), ..old(self)@ }),
    {
        self.ip = Some(ip);
    }

    /// Whether a socket is bound to `addr` with `protocol`.
    pub fn is_bound(&self, addr: SocketAddr, protocol: IpProtocol) -> (bound: bool)
        ensures
            bound == self@.sockets.contains_key((addr, protocol)),
    {
        self.sockets.contains(addr, protocol)
    }

    /// The socket that receives what is sent to `dst` with `protocol`.
    pub fn receiver(&self, dst: SocketAddr, protocol: IpProtocol) -> (socket: Option<Arc<S>>)
        ensures
            socket == self@.receiver(dst, protocol),
    {
        match self.sockets.get(dst, protocol) {
            Some(socket) => Some(socket),
            None => self.sockets.get(SocketAddr::new(IpAddr::unspecified(), dst.port()), protocol),
        }
    }

    /// The least port from 1 on that is free on `ip` for `protocol`, if one
    /// is.
    fn first_free_port(&self, ip: IpAddr, protocol: IpProtocol) -> (free: Option<u16>)
        ensures
            free == self@.first_free_port(ip, protocol),
    {
        let mut port: u16 = 1;
        loop
            invariant
                port >= 1,
                forall|below: u16| 1 <= below < port ==> #[trigger] self@.port_taken(ip, protocol, below),
            decreases u16::MAX - port,
        {
            if !self.is_bound(SocketAddr::new(ip, port), protocol) {
                assert(self@.is_first_free_port(ip, protocol, port));
                return Some(port);
            }
            if port == u16::MAX {
                assert forall|any: u16| !self@.is_first_free_port(ip, protocol, any) by {
                    if any >= 1 {
                        assert(self@.port_taken(ip, protocol, any));
                    }
                }
                return None;
            }
            port = port + 1;
        }
    }

    /// Binds `socket` to `addr` with `protocol`, to the least free port
    /// where the port of `addr` is `0`.
    pub fn bind(&mut self, addr: SocketAddr, protocol: IpProtocol, socket: Arc<S>) -> (result:
        Result<SocketAddr, BindError>)
        ensures
            result == old(self)@.bind_result(addr, protocol),
            final(self)@ == old(self)@.bind(addr, protocol, socket),
    {
        let ip = addr.ip();
        if !ip.is_unspecified() && !ip.is_loopback() {
            let own = match self.ip {
                Some(own) => own == ip,
                None => false,
            };
            if !own {
                return Err(BindError::InvalidAddress(addr));
            }
        }
        let mut bound = addr;
        if addr.port() == 0 {
            match self.first_free_port(ip, protocol) {
                Some(port) => {
                    bound.set_port(port);
                },
                None => {
                    return Err(BindError::NoEphemeralPort);
                },
            }
        } else if self.is_bound(addr, protocol) {
            return Err(BindError::AddressInUse(addr));
        }
        self.sockets.insert(bound, protocol, socket);
        Ok(bound)
    }

    /// Closes the socket bound to `addr` with `protocol`, if one is.
    pub fn close(&mut self, addr: SocketAddr, protocol: IpProtocol)
        ensures
            final(self)@ == old(self)@.close(addr, protocol),
    {
        self.sockets.remove(addr, protocol);
    }

    /// Closes every socket and drops, and so cancels, every delivery on its
    /// way to the node. The address stays.
    pub fn reset(&mut self)
        ensures
            final(self)@ == old(self)@.reset(),
    {
        self.sockets.clear();
        self.tasks.clear();
    }

    /// Keeps the handle of a delivery on its way to the node.
    pub fn hold(&mut self, handle: FallibleTask<()>)
        ensures
            final(self)@ == (NodeView { tasks: old(self)@.tasks.push(handle), ..old(self)@ }),
    {
        self.tasks.push(handle);
    }
}

} // verus!
