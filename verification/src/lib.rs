//! A deterministic simulated network: nodes with IP addresses and sockets,
//! links with latency, loss and faults, and a dispatcher whose every
//! decision follows from the seed. Beside it stand the values of leader
//! election and the replies of the greeting service.

pub mod addr;
pub mod config;
pub mod election;
pub mod greeter;
pub mod index;
pub mod laws;
pub mod network;
pub mod node;
pub mod rng;
pub mod sockets;
pub mod task;
