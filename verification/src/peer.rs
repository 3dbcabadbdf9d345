use vstd::prelude::*;

verus! {

/// A socket address held as plain numbers: the address bytes read big-endian, and the port.
#[derive(Debug, Copy, Clone, PartialEq, Eq, Structural, PartialOrd, Ord, Hash)]
pub enum RemoteAddress {
    V4 { address: u32, port: u16 },
    V6 { address: u128, port: u16, flow_info: u32, scope_id: u32 },
}

/// Where a packet came from or goes to.
#[derive(Debug, Copy, Clone, PartialEq, Eq, Structural)]
pub enum RadiusPeer {
    Udp { remote_address: RemoteAddress },
}

impl RadiusPeer {
    pub fn remote_address(&self) -> (remote_address: RemoteAddress)
        ensures
            match *self {
                RadiusPeer::Udp { remote_address: address } => remote_address == address,
            },
    {
        match self {
            RadiusPeer::Udp { remote_address } => *remote_address,
        }
    }
}

} // verus!
