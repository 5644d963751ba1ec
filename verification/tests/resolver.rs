//! Tests of interface-address filtering, startup address selection, and the
//! default configuration.

use rdmgr::network::addr::NetworkAddress;
use rdmgr::network::netif::{self, Error as NetifError};
use rdmgr::{select_advertised_addr, Args, Error};

#[test]
fn filter_picks_matching_subnet() {
    // A synthetic enumeration: 10.0.2.175, a non-IPv4 entry, 192.168.1.5.
    let raw = vec![Some(0x0A0002AFu32), None, Some(0xC0A80105u32)];
    let filt = |a: NetworkAddress| a.o0 == 10 && a.o1 == 0;
    let out = netif::filter_netif_addrs(&raw, &filt);
    assert_eq!(out, vec![NetworkAddress::new(10, 0, 2, 175)]);
}

#[test]
fn filter_keeps_enumeration_order() {
    let raw = vec![
        Some(0x0A000001u32),
        Some(0xC0A80105u32),
        Some(0x0A0002AFu32),
    ];
    let filt = |a: NetworkAddress| a.o0 == 10 && a.o1 == 0;
    let out = netif::filter_netif_addrs(&raw, &filt);
    assert_eq!(
        out,
        vec![
            NetworkAddress::new(10, 0, 0, 1),
            NetworkAddress::new(10, 0, 2, 175),
        ]
    );
}

#[test]
fn filter_with_no_match_yields_empty() {
    let raw = vec![Some(0xC0A80105u32), None];
    let filt = |a: NetworkAddress| a.o0 == 10 && a.o1 == 0;
    let out = netif::filter_netif_addrs(&raw, &filt);
    assert!(out.is_empty());
}

#[test]
fn empty_resolution_is_fatal_no_match() {
    let addrs: Vec<NetworkAddress> = Vec::new();
    let r = select_advertised_addr(&addrs);
    assert!(matches!(
        r,
        Err(Error::NetInterfaceError(NetifError::NoMatch))
    ));
}

#[test]
fn first_resolved_address_is_selected() {
    let addrs = vec![
        NetworkAddress::new(10, 0, 2, 175),
        NetworkAddress::new(10, 0, 7, 7),
    ];
    let r = select_advertised_addr(&addrs);
    assert!(matches!(r, Ok(a) if a == NetworkAddress::new(10, 0, 2, 175)));
}

#[test]
fn u32_to_addr_splits_octets() {
    assert_eq!(
        netif::u32_to_addr(0x0A0002AF),
        NetworkAddress::new(10, 0, 2, 175)
    );
    assert_eq!(netif::u32_to_addr(0), NetworkAddress::new(0, 0, 0, 0));
    assert_eq!(
        netif::u32_to_addr(0xFFFFFFFF),
        NetworkAddress::new(255, 255, 255, 255)
    );
}

#[test]
fn address_octets_in_order() {
    let a = NetworkAddress::new(10, 0, 2, 175);
    assert_eq!(a.octets(), [10, 0, 2, 175]);
}

#[test]
fn default_args_use_documented_ports() {
    let args = Args::default();
    assert!(args.config.is_none());
    assert_eq!(args.udpport, 3369);
    assert_eq!(args.tcpport, 3370);
}

#[test]
fn real_enumeration_runs() {
    // Against the live platform only the error split can be checked: either
    // an enumeration was produced or the enumeration itself failed.
    match netif::get_netif_ipv4addrs(|_a| true) {
        Ok(_) => {}
        Err(e) => assert_eq!(e, NetifError::InterfaceNotExist),
    }
}
