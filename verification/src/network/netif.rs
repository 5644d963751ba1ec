//! Network-interface enumeration and IPv4 subnet filtering.

use vstd::prelude::*;
use crate::network::addr::NetworkAddress;

verus! {

/// What can go wrong while resolving the local IPv4 addresses.
#[derive(Clone, Copy, PartialEq, Eq, Structural, Debug)]
pub enum Error {
    /// The platform could not produce its interface list.
    InterfaceNotExist,
    /// An interface carried no usable address.
    IpAddrNotExist,
    /// No enumerated IPv4 address satisfied the caller's filter.
    NoMatch,
}

/// The address whose octets, most significant first, spell out the
/// big-endian 32-bit value `ip`.
pub open spec fn addr_of_u32(ip: u32) -> NetworkAddress {
    (NetworkAddress {
        o0: ((ip >> 24) & 0xFF) as u8,
        o1: ((ip >> 16) & 0xFF) as u8,
        o2: ((ip >> 8) & 0xFF) as u8,
        o3: (ip & 0xFF) as u8,
    })
}

/// Splits a big-endian 32-bit IPv4 value into its four octets.
pub fn u32_to_addr(ip: u32) -> (a: NetworkAddress)
    ensures
        a == addr_of_u32(ip),
{
    proof {
        assert((ip >> 24) & 0xFF < 256 && (ip >> 16) & 0xFF < 256 && (ip >> 8) & 0xFF < 256
            && ip & 0xFF < 256) by (bit_vector);
    }
    NetworkAddress {
        o0: ((ip >> 24) & 0xFF) as u8,
        o1: ((ip >> 16) & 0xFF) as u8,
        o2: ((ip >> 8) & 0xFF) as u8,
        o3: (ip & 0xFF) as u8,
    }
}

/// The addresses that an enumeration `raw` yields under the keep-decisions
/// `keep`, in enumeration order: entries that carried no IPv4 address are
/// discarded, and an IPv4 entry stays exactly where its decision says so.
pub open spec fn selected(raw: Seq<Option<u32>>, keep: Seq<bool>) -> Seq<NetworkAddress>
    decreases raw.len(),
{
    if raw.len() == 0 || keep.len() == 0 {
        Seq::empty()
    } else {
        let init = selected(raw.drop_last(), keep.drop_last());
        match raw.last() {
            Option::Some(ip) => if keep.last() {
                init.push(addr_of_u32(ip))
            } else {
                init
            },
            Option::None => init,
        }
    }
}

/// Whether each keep-decision is one the filter itself could have made: for
/// every IPv4 entry, the decision is a possible outcome of the filter on
/// that entry's address.
pub open spec fn decisions_of_filter<F: Fn(NetworkAddress) -> bool>(
    raw: Seq<Option<u32>>,
    keep: Seq<bool>,
    filt: F,
) -> bool {
    &&& keep.len() == raw.len()
    &&& forall|i: int|
        0 <= i < raw.len() ==> match #[trigger] raw[i] {
            Option::Some(ip) => call_ensures(filt, (addr_of_u32(ip),), keep[i]),
            Option::None => true,
        }
}

/// Applies the caller's filter to a raw interface enumeration: each entry is
/// the interface's IPv4 address as a big-endian 32-bit value where it has
/// one. The result holds, in enumeration order, exactly the IPv4 addresses
/// the filter accepted.
pub fn filter_netif_addrs<F: Fn(NetworkAddress) -> bool>(
    raw: &Vec<Option<u32>>,
    filt: &F,
) -> (out: Vec<NetworkAddress>)
    requires
        forall|a: NetworkAddress| #[trigger] call_requires(*filt, (a,)),
    ensures
        exists|keep: Seq<bool>|
            decisions_of_filter(raw@, keep, *filt) && out@ == #[trigger] selected(raw@, keep),
{
    let mut out: Vec<NetworkAddress> = Vec::new();
    let ghost mut keep: Seq<bool> = Seq::empty();
    let mut idx: usize = 0;
    while idx < raw.len()
        invariant
            forall|a: NetworkAddress| #[trigger] call_requires(*filt, (a,)),
            idx <= raw.len(),
            keep.len() == idx,
            out@ == selected(raw@.subrange(0, idx as int), keep),
            forall|i: int|
                0 <= i < idx ==> match #[trigger] raw@[i] {
                    Option::Some(ip) => call_ensures(*filt, (addr_of_u32(ip),), keep[i]),
                    Option::None => true,
                },
        decreases raw.len() - idx,
    {
        let ghost prev_keep = keep;
        match raw[idx] {
            Option::Some(ip) => {
                let a = u32_to_addr(ip);
                let kept = filt(a);
                if kept {
                    out.push(a);
                }
                proof {
                    keep = keep.push(kept);
                }
            },
            Option::None => {
                proof {
                    keep = keep.push(false);
                }
            },
        }
        idx += 1;
        proof {
            let sub = raw@.subrange(0, idx as int);
            assert(sub.drop_last() =~= raw@.subrange(0, idx - 1));
            assert(keep.drop_last() =~= prev_keep);
            assert(sub.last() == raw@[idx - 1]);
        }
    }
    proof {
        assert(raw@.subrange(0, raw@.len() as int) =~= raw@);
        assert(decisions_of_filter(raw@, keep, *filt) && out@ == selected(raw@, keep));
    }
    out
}

/// Relies on `nix::ifaddrs::getifaddrs` for the platform's interface list,
/// and on `SockaddrStorage::as_sockaddr_in` and `SockaddrIn::ip` to read an
/// entry's IPv4 address where it has one, handed back as the address's
/// big-endian 32-bit value; an entry without an IPv4 address becomes `None`.
/// The list depends on the host's configuration, so nothing is promised of
/// its contents, and a failure of the platform call is handed back as `Err`.
#[verifier::external_body]
fn enumerate_netif_ipv4() -> (r: Result<Vec<Option<u32>>, ()>) {
    match nix::ifaddrs::getifaddrs() {
        Err(_) => Err(()),
        Ok(ifaddrs) => Ok(
            ifaddrs.map(
                |ifa| ifa.address.and_then(|a| a.as_sockaddr_in().map(|s| u32::from(s.ip()))),
            ).collect(),
        ),
    }
}

/// Resolves the local IPv4 addresses that satisfy `filt`: the platform's
/// interfaces are enumerated once, interfaces without an IPv4 address are
/// discarded, and the rest are filtered. On success the result holds, in
/// enumeration order, exactly the addresses of some such enumeration that
/// the filter accepted; when the platform cannot produce its interface
/// list, resolution fails with the enumeration error.
pub fn get_netif_ipv4addrs<F: Fn(NetworkAddress) -> bool>(filt: F) -> (r: Result<
    Vec<NetworkAddress>,
    Error,
>)
    requires
        forall|a: NetworkAddress| #[trigger] call_requires(filt, (a,)),
    ensures
        match r {
            Ok(out) => exists|raw: Seq<Option<u32>>, keep: Seq<bool>|
                decisions_of_filter(raw, keep, filt) && out@ == #[trigger] selected(raw, keep),
            Err(e) => e == Error::InterfaceNotExist,
        },
{
    match enumerate_netif_ipv4() {
        Err(_) => Err(Error::InterfaceNotExist),
        Ok(raw) => {
            let out = filter_netif_addrs(&raw, &filt);
            proof {
                let keep = choose|keep: Seq<bool>|
                    decisions_of_filter(raw@, keep, filt) && out@ == #[trigger] selected(
                        raw@,
                        keep,
                    );
                assert(decisions_of_filter(raw@, keep, filt) && out@ == selected(raw@, keep));
            }
            Ok(out)
        },
    }
}

} // verus!
