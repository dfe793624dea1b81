use vstd::prelude::*;

verus! {

/// The network address of a peer: an IPv4 or IPv6 address and a port. An
/// IPv4 address is held in the low 32 bits of `ip`.
#[derive(Debug, Clone, Copy, Hash, PartialEq, Eq, PartialOrd, Ord, Structural)]
pub struct PeerAddr {
    pub v6: bool,
    pub ip: u128,
    pub port: u16,
}

impl PeerAddr {
    /// An IPv4 address given by its four octets, with a port.
    pub fn v4(octets: [u8; 4], port: u16) -> (r: PeerAddr)
        ensures
            !r.v6,
            r.ip == octets[0] as nat * 0x1000000 + octets[1] as nat * 0x10000 + octets[2] as nat
                * 0x100 + octets[3] as nat,
            r.port == port,
    {
        let ip: u128 = octets[0] as u128 * 0x1000000 + octets[1] as u128 * 0x10000
            + octets[2] as u128 * 0x100 + octets[3] as u128;
        PeerAddr { v6: false, ip, port }
    }
}

} // verus!
