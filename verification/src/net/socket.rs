//! Socket addresses.

use vstd::prelude::*;
use crate::net::ip::Ipv4Address;

verus! {

/// An IPv4 address and port.
#[derive(Debug, Clone, Copy)]
pub struct SocketAddr {
    pub ip: Ipv4Address,
    pub port: u16,
}

/// A socket identified by its address.
pub struct Socket {
    pub addr: SocketAddr,
}

} // verus!
