//! The discovery protocol: validate a fixed magic header and serialize the
//! server's advertised IPv4 address and TCP port into a 10-byte reply.

use vstd::prelude::*;
use crate::network::addr::NetworkAddress;

verus! {

/// A reply may never exceed one Ethernet data frame's UDP payload.
pub const RESP_SIZE: usize = 1472;

/// What can go wrong while handling one discovery datagram.
#[derive(Debug)]
pub enum Error {
    /// The request failed magic-number validation; the datagram is dropped.
    ParseError(String),
    /// The handler produced an oversized reply: a protocol-format defect,
    /// reported with the offending length.
    ResponseTooLong(usize),
}

/// Whether the request bytes start with the protocol's 4-byte magic number.
pub open spec fn is_valid_request(r: Seq<u8>) -> bool {
    r.len() >= 4 && r[0] == 0x2Du8 && r[1] == 0x0Au8 && r[2] == 0xA0u8 && r[3] == 0xD2u8
}

/// The 10-byte reply for a server at `ip` handing off to TCP port `port`:
/// the echoed magic number, the address octets most significant first, and
/// the port least significant byte first.
pub open spec fn response_bytes(ip: NetworkAddress, port: u16) -> Seq<u8> {
    seq![
        0x2Du8,
        0x0Au8,
        0xA0u8,
        0xD2u8,
        ip.o0,
        ip.o1,
        ip.o2,
        ip.o3,
        (port & 0xFF) as u8,
        ((port >> 8) & 0xFF) as u8,
    ]
}

/// The whole exchange as a function of the request bytes and the bound
/// identity: a valid request earns the fixed reply, anything else earns none.
pub open spec fn spec_handle(r: Seq<u8>, ip: NetworkAddress, port: u16) -> Option<Seq<u8>> {
    if is_valid_request(r) {
        Some(response_bytes(ip, port))
    } else {
        None
    }
}

/// A discovery handler bound to the identity it advertises.
pub struct UdpRequestHandler {
    pub local_ip: NetworkAddress,
    pub tcp_port: u16,
}

impl UdpRequestHandler {
    /// Binds a handler to the advertised address and TCP port.
    pub fn new(local_ip: NetworkAddress, tcp_port: u16) -> (h: UdpRequestHandler)
        ensures
            h.local_ip == local_ip,
            h.tcp_port == tcp_port,
    {
        UdpRequestHandler { local_ip, tcp_port }
    }

    fn handle_pkt_impl(&self, rbuf: &[u8], sbuf: &mut Vec<u8>) -> (r: Result<usize, Error>)
        requires
            old(sbuf).len() >= 10,
        ensures
            final(sbuf)@.len() == old(sbuf)@.len(),
            match r {
                Ok(n) => n == 10 && is_valid_request(rbuf@)
                    && final(sbuf)@.subrange(0, 10) == response_bytes(self.local_ip, self.tcp_port)
                    && final(sbuf)@.skip(10) == old(sbuf)@.skip(10),
                Err(e) => !is_valid_request(rbuf@) && final(sbuf)@ == old(sbuf)@
                    && (e matches Error::ParseError(_)),
            },
    {
        if rbuf.len() < 4 {
            return Err(Error::ParseError(String::from_str("magic number invalid")));
        }
        if !(rbuf[0] == 0x2D && rbuf[1] == 0x0A && rbuf[2] == 0xA0 && rbuf[3] == 0xD2) {
            return Err(Error::ParseError(String::from_str("magic number invalid")));
        }

        // Echo the magic number.
        sbuf.set(0, 0x2D);
        sbuf.set(1, 0x0A);
        sbuf.set(2, 0xA0);
        sbuf.set(3, 0xD2);

        // Advertised IPv4 address, most significant octet first.
        sbuf.set(4, self.local_ip.o0);
        sbuf.set(5, self.local_ip.o1);
        sbuf.set(6, self.local_ip.o2);
        sbuf.set(7, self.local_ip.o3);

        // Advertised TCP port, least significant byte first.
        sbuf.set(8, (self.tcp_port & 0xFF) as u8);
        sbuf.set(9, ((self.tcp_port >> 8) & 0xFF) as u8);

        proof {
            assert(sbuf@.subrange(0, 10) =~= response_bytes(self.local_ip, self.tcp_port));
            assert(sbuf@.skip(10) =~= old(sbuf)@.skip(10));
        }
        Ok(10)
    }

    /// Handles one discovery datagram: a request opening with the magic
    /// number `0x2D 0x0A 0xA0 0xD2` has the 10-byte reply written into the
    /// front of `sbuf` and earns `Ok(10)`; any other request leaves `sbuf`
    /// untouched and earns a magic-number parse error. The reply length is
    /// checked against the datagram-payload bound even though the fixed
    /// 10-byte format cannot reach it.
    pub fn handle(&self, rbuf: &[u8], sbuf: &mut Vec<u8>) -> (r: Result<usize, Error>)
        requires
            old(sbuf).len() >= 10,
        ensures
            final(sbuf)@.len() == old(sbuf)@.len(),
            match r {
                Ok(n) => n == 10
                    && spec_handle(rbuf@, self.local_ip, self.tcp_port)
                        == Some(final(sbuf)@.subrange(0, 10))
                    && final(sbuf)@.skip(10) == old(sbuf)@.skip(10),
                Err(e) => spec_handle(rbuf@, self.local_ip, self.tcp_port) is None
                    && final(sbuf)@ == old(sbuf)@ && (e matches Error::ParseError(_)),
            },
    {
        match self.handle_pkt_impl(rbuf, sbuf) {
            Ok(size) => if size <= RESP_SIZE {
                Ok(size)
            } else {
                Err(Error::ResponseTooLong(size))
            },
            Err(err) => Err(err),
        }
    }
}

/// The handler is pure: the outcome of an exchange is a function of the
/// request bytes and the bound identity alone, so handling the same request
/// twice with the same identity yields byte-identical outcomes.
pub proof fn lemma_handle_idempotent(
    r: Seq<u8>,
    ip: NetworkAddress,
    port: u16,
    out1: Option<Seq<u8>>,
    out2: Option<Seq<u8>>,
)
    requires
        out1 == spec_handle(r, ip, port),
        out2 == spec_handle(r, ip, port),
    ensures
        out1 == out2,
{
}

/// A malformed request earns no reply, and a well-formed request handled
/// afterwards still earns the correct reply: one bad datagram cannot change
/// what any later datagram is answered with.
pub proof fn lemma_service_resilience(bad: Seq<u8>, good: Seq<u8>, ip: NetworkAddress, port: u16)
    requires
        !is_valid_request(bad),
        is_valid_request(good),
    ensures
        spec_handle(bad, ip, port) is None,
        spec_handle(good, ip, port) == Some(response_bytes(ip, port)),
{
}

} // verus!
