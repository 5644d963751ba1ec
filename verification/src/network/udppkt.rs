//! Placeholder handler for raw UDP packets; it produces no reply bytes.

use vstd::prelude::*;
use crate::network::addr::NetworkAddress;

verus! {

/// An error report from the raw packet handler.
#[derive(Debug)]
pub struct Error(pub String);

/// A handler bound to the local address; its packet handling is not yet
/// specified, so it accepts every packet and replies with nothing.
pub struct UdpPacketHandler {
    pub local_ip: NetworkAddress,
}

impl UdpPacketHandler {
    /// Binds a handler to the local address.
    pub fn new(local_ip: NetworkAddress) -> (h: UdpPacketHandler)
        ensures
            h.local_ip == local_ip,
    {
        UdpPacketHandler { local_ip }
    }

    /// Accepts any packet and produces an empty reply: the send buffer is
    /// left as it was and the reply length is zero.
    pub fn handle(&self, rbuf: &[u8], sbuf: &mut Vec<u8>) -> (r: Result<usize, Error>)
        ensures
            r matches Ok(n) && n == 0,
            final(sbuf)@ == old(sbuf)@,
    {
        Ok(0)
    }
}

} // verus!
