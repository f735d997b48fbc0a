//! The sockets of one node, by address and protocol.

use crate::addr::{IpAddr, IpProtocol, SocketAddr};
use std::collections::HashMap;
use std::sync::Arc;
use vstd::prelude::*;

verus! {

broadcast use vstd::std_specs::hash::group_hash_axioms;

/// The key of a port with a protocol: the port, then one bit for the
/// protocol.
pub open spec fn port_key(port: u16, protocol: IpProtocol) -> u32 {
    (port * 2 + if protocol == IpProtocol::Tcp {
        0int
    } else {
        1int
    }) as u32
}

/// The key of a version 4 socket address with a protocol: the address,
/// then the key of the port with the protocol.
pub open spec fn v4_key(bits: u32, port: u16, protocol: IpProtocol) -> u64 {
    (bits * 0x2_0000 + port_key(port, protocol)) as u64
}

/// `Clone::clone` of `std::sync::Arc`: a second handle to the same value.
#[verifier::external_body]
fn share<S: ?Sized>(socket: &Arc<S>) -> (shared: Arc<S>)
    ensures
        shared == *socket,
{
    socket.clone()
}

/// The sockets of a node. No two have the same address and protocol.
///
/// The sockets on version 4 addresses stand in one table; those on version
/// 6 addresses in one table for each address.
pub struct SocketTable<S: ?Sized> {
    v4: HashMap<u64, Arc<S>>,
    v6: HashMap<u128, HashMap<u32, Arc<S>>>,
}

impl<S: ?Sized> View for SocketTable<S> {
    type V = Map<(SocketAddr, IpProtocol), Arc<S>>;

    closed spec fn view(&self) -> Map<(SocketAddr, IpProtocol), Arc<S>> {
        Map::new(
            |k: (SocketAddr, IpProtocol)|
                match k.0.ip {
                    IpAddr::V4(bits) => self.v4@.contains_key(v4_key(bits, k.0.port, k.1)),
                    IpAddr::V6(bits) => self.v6@.contains_key(bits) && self.v6@[bits]@.contains_key(
                        port_key(k.0.port, k.1),
                    ),
                },
            |k: (SocketAddr, IpProtocol)|
                match k.0.ip {
                    IpAddr::V4(bits) => self.v4@[v4_key(bits, k.0.port, k.1)],
                    IpAddr::V6(bits) => self.v6@[bits]@[port_key(k.0.port, k.1)],
                },
        )
    }
}

impl<S: ?Sized> SocketTable<S> {
    /// The key of a port with a protocol.
    fn port_key(port: u16, protocol: IpProtocol) -> (key: u32)
        ensures
            key == port_key(port, protocol),
    {
        let bit: u32 = match protocol {
            IpProtocol::Tcp => 0,
            IpProtocol::Udp => 1,
        };
        port as u32 * 2 + bit
    }

    /// The key of a version 4 socket address with a protocol.
    fn v4_key(bits: u32, port: u16, protocol: IpProtocol) -> (key: u64)
        ensures
            key == v4_key(bits, port, protocol),
    {
        bits as u64 * 0x2_0000 + Self::port_key(port, protocol) as u64
    }

    /// The table without sockets.
    pub fn new() -> (table: SocketTable<S>)
        ensures
            table@ == Map::<(SocketAddr, IpProtocol), Arc<S>>::empty(),
    {
        let table = SocketTable { v4: HashMap::new(), v6: HashMap::new() };
        table
    }

    /// Whether a socket is bound to `addr` with `protocol`.
    pub fn contains(&self, addr: SocketAddr, protocol: IpProtocol) -> (found: bool)
        ensures
            found == self@.contains_key((addr, protocol)),
    {
        match addr.ip() {
            IpAddr::V4(bits) => {
                let key = Self::v4_key(bits, addr.port(), protocol);
                self.v4.contains_key(&key)
            },
            IpAddr::V6(bits) => match self.v6.get(&bits) {
                Some(ports) => {
                    let key = Self::port_key(addr.port(), protocol);
                    ports.contains_key(&key)
                },
                None => false,
            },
        }
    }

    /// The socket bound to `addr` with `protocol`, if one is.
    pub fn get(&self, addr: SocketAddr, protocol: IpProtocol) -> (socket: Option<Arc<S>>)
        ensures
            socket == self@.get((addr, protocol)),
    {
        let found = match addr.ip() {
            IpAddr::V4(bits) => {
                let key = Self::v4_key(bits, addr.port(), protocol);
                self.v4.get(&key)
            },
            IpAddr::V6(bits) => match self.v6.get(&bits) {
                Some(ports) => {
                    let key = Self::port_key(addr.port(), protocol);
                    ports.get(&key)
                },
                None => None,
            },
        };
        match found {
            Some(socket) => Some(share(socket)),
            None => None,
        }
    }

    /// Binds `socket` to `addr` with `protocol`, in place of any other.
    pub fn insert(&mut self, addr: SocketAddr, protocol: IpProtocol, socket: Arc<S>)
        ensures
            final(self)@ == old(self)@.insert((addr, protocol), socket),
    {
        match addr.ip() {
            IpAddr::V4(bits) => {
                let _ = self.v4.insert(Self::v4_key(bits, addr.port(), protocol), socket);
            },
            IpAddr::V6(bits) => {
                let mut ports = match self.v6.remove(&bits) {
                    Some(ports) => ports,
                    None => HashMap::new(),
                };
                let _ = ports.insert(Self::port_key(addr.port(), protocol), socket);
                let _ = self.v6.insert(bits, ports);
            },
        }
    }

    /// Unbinds the socket bound to `addr` with `protocol`, if one is.
    pub fn remove(&mut self, addr: SocketAddr, protocol: IpProtocol)
        ensures
            final(self)@ == old(self)@.remove((addr, protocol)),
    {
        match addr.ip() {
            IpAddr::V4(bits) => {
                let key = Self::v4_key(bits, addr.port(), protocol);
                let _ = self.v4.remove(&key);
            },
            IpAddr::V6(bits) => {
                match self.v6.remove(&bits) {
                    Some(ports) => {
                        let mut ports = ports;
                        let key = Self::port_key(addr.port(), protocol);
                        let _ = ports.remove(&key);
                        let _ = self.v6.insert(bits, ports);
                    },
                    None => {},
                }
            },
        }
    }

    /// Unbinds every socket.
    pub fn clear(&mut self)
        ensures
            final(self)@ == Map::<(SocketAddr, IpProtocol), Arc<S>>::empty(),
    {
        self.v4.clear();
        self.v6.clear();
    }
}

} // verus!
