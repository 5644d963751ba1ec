//! Connection-manager bootstrap library: a host advertises its IPv4 address
//! and a TCP handoff port over a fixed UDP discovery exchange. This crate
//! holds the logic — interface filtering, startup address selection, and the
//! datagram protocol — while the socket loop around it stays outside.

use vstd::prelude::*;

pub mod network;

use crate::network::addr::NetworkAddress;
use crate::network::netif;

verus! {

/// The service's configuration: an optional configuration-file path and the
/// UDP and TCP ports to listen on.
#[derive(Debug)]
pub struct Args {
    /// Path to an RDMA configuration file.
    pub config: Option<String>,
    /// UDP port to listen on.
    pub udpport: u16,
    /// TCP port to listen on.
    pub tcpport: u16,
}

impl Default for Args {
    /// No configuration file, UDP port 3369, TCP port 3370.
    fn default() -> (a: Args)
        ensures
            a.config is None,
            a.udpport == 3369,
            a.tcpport == 3370,
    {
        Args { config: None, udpport: 3369, tcpport: 3370 }
    }
}

/// A fatal startup error of the service.
#[derive(Debug)]
pub enum Error {
    /// Interface resolution failed, or no address matched the subnet filter.
    NetInterfaceError(netif::Error),
    /// A socket could not be bound, read or written; the payload carries the
    /// platform's report.
    IOError(String),
}

impl From<netif::Error> for Error {
    fn from(err: netif::Error) -> (r: Error) {
        Error::NetInterfaceError(err)
    }
}

impl vstd::std_specs::convert::FromSpecImpl<netif::Error> for Error {
    open spec fn obeys_from_spec() -> bool {
        true
    }

    open spec fn from_spec(err: netif::Error) -> Error {
        Error::NetInterfaceError(err)
    }
}

/// Picks the address the service will advertise: the first resolved address,
/// or the fatal no-matching-interface error when resolution found none.
pub fn select_advertised_addr(addrs: &Vec<NetworkAddress>) -> (r: Result<NetworkAddress, Error>)
    ensures
        match r {
            Ok(a) => addrs@.len() > 0 && a == addrs@[0],
            Err(e) => addrs@.len() == 0
                && e == Error::NetInterfaceError(netif::Error::NoMatch),
        },
{
    if addrs.len() == 0 {
        return Err(Error::NetInterfaceError(netif::Error::NoMatch));
    }
    Ok(addrs[0])
}

} // verus!
