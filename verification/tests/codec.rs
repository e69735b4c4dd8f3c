//! Byte-level checks: addresses, prefixes, attribute encoding, and the
//! tunnel attribute lists, against known-good values.

use ftth_rtnl::nla::{align_nla, encode_nlas, u32_be_octets, u32_le_octets, RawNla};
use ftth_rtnl::types::{Ipv4Address, Ipv4Prefix, Ipv6Address, Ipv6Prefix, MacAddr};
use ftth_rtnl::virtual_interface::{
    build_info_data, gre_nlas, iptunnel_v4_nlas, GreConfig, InfoPayload, IpIpConfig,
};

#[test]
fn ipv4_octets_are_network_order() {
    let a = Ipv4Address::new(0xC0000201);
    assert_eq!(a.octets(), vec![192, 0, 2, 1]);
}

#[test]
fn ipv6_octets_are_network_order() {
    let a = Ipv6Address::new(0x2001_0db8_0000_0000_0000_0000_0000_0001u128);
    assert_eq!(
        a.octets(),
        vec![0x20, 0x01, 0x0d, 0xb8, 0, 0, 0, 0, 0, 0, 0, 0, 0, 0, 0, 1]
    );
}

#[test]
fn ipv4_multicast_detection() {
    assert!(Ipv4Address::new(0xE0000001).is_multicast());
    assert!(Ipv4Address::new(0xEFFFFFFF).is_multicast());
    assert!(!Ipv4Address::new(0xDFFFFFFF).is_multicast());
    assert!(!Ipv4Address::new(0xF0000000).is_multicast());
}

#[test]
fn ipv6_multicast_detection() {
    assert!(Ipv6Address::new(0xff02_0000_0000_0000_0000_0000_0000_0001u128).is_multicast());
    assert!(!Ipv6Address::new(0xfe80_0000_0000_0000_0000_0000_0000_0001u128).is_multicast());
}

#[test]
fn broadcast_of_slash_24() {
    // 192.0.2.1/24 -> broadcast 192.0.2.255
    let p = Ipv4Prefix::new(Ipv4Address::new(0xC0000201), 24).unwrap();
    assert_eq!(p.broadcast(), Ipv4Address::new(0xC00002FF));
}

#[test]
fn broadcast_of_slash_32_is_the_address() {
    let p = Ipv4Prefix::new(Ipv4Address::new(0xC0000201), 32).unwrap();
    assert_eq!(p.broadcast(), Ipv4Address::new(0xC0000201));
}

#[test]
fn broadcast_of_slash_zero_is_all_ones() {
    let p = Ipv4Prefix::new(Ipv4Address::new(0), 0).unwrap();
    assert_eq!(p.broadcast(), Ipv4Address::new(0xFFFFFFFF));
}

#[test]
fn prefix_rejects_bad_lengths() {
    assert!(Ipv4Prefix::new(Ipv4Address::new(0), 33).is_none());
    assert!(Ipv6Prefix::new(Ipv6Address::new(0), 129).is_none());
    assert!(Ipv4Prefix::new(Ipv4Address::new(0), 32).is_some());
    assert!(Ipv6Prefix::new(Ipv6Address::new(0), 128).is_some());
}

#[test]
fn prefix_contains_masks_host_bits() {
    let p = Ipv4Prefix::new(Ipv4Address::new(0xC0000200), 24).unwrap();
    assert!(p.contains(Ipv4Address::new(0xC0000201)));
    assert!(p.contains(Ipv4Address::new(0xC00002FF)));
    assert!(!p.contains(Ipv4Address::new(0xC0000301)));
    let all = Ipv4Prefix::new(Ipv4Address::new(0), 0).unwrap();
    assert!(all.contains(Ipv4Address::new(0xDEADBEEF)));
}

#[test]
fn ipv6_prefix_contains() {
    let p = Ipv6Prefix::new(
        Ipv6Address::new(0x2001_0db8_0000_0000_0000_0000_0000_0000u128),
        32,
    )
    .unwrap();
    assert!(p.contains(Ipv6Address::new(0x2001_0db8_0000_0000_0000_0000_0000_0001u128)));
    assert!(!p.contains(Ipv6Address::new(0x2001_0db9_0000_0000_0000_0000_0000_0001u128)));
}

#[test]
fn mac_addr_new_and_default() {
    let m = MacAddr::new([1, 2, 3, 4, 5, 6]);
    assert_eq!(m.inner, [1, 2, 3, 4, 5, 6]);
    assert_eq!(MacAddr::default().inner, [0; 6]);
}

#[test]
fn align_rounds_up_to_four() {
    assert_eq!(align_nla(0), 0);
    assert_eq!(align_nla(1), 4);
    assert_eq!(align_nla(4), 4);
    assert_eq!(align_nla(5), 8);
    assert_eq!(align_nla(8), 8);
}

#[test]
fn u32_octet_helpers() {
    assert_eq!(u32_be_octets(0x01020304), vec![1, 2, 3, 4]);
    assert_eq!(u32_le_octets(0x01020304), vec![4, 3, 2, 1]);
}

#[test]
fn encode_one_aligned_attribute() {
    let nlas = vec![RawNla::new(2, vec![1, 2, 3, 4])];
    // total length 8 (little endian), type 2 (little endian), payload
    assert_eq!(encode_nlas(&nlas), vec![8, 0, 2, 0, 1, 2, 3, 4]);
}

#[test]
fn encode_pads_to_four_byte_boundary() {
    let nlas = vec![RawNla::new(9, vec![7])];
    assert_eq!(encode_nlas(&nlas), vec![5, 0, 9, 0, 7, 0, 0, 0]);
}

#[test]
fn encode_concatenates_in_order() {
    let nlas = vec![RawNla::new(1, vec![0xAA]), RawNla::new(2, vec![0xBB, 0xCC])];
    assert_eq!(
        encode_nlas(&nlas),
        vec![5, 0, 1, 0, 0xAA, 0, 0, 0, 6, 0, 2, 0, 0xBB, 0xCC, 0, 0]
    );
}

#[test]
fn gre_attribute_list_layout() {
    let cfg = GreConfig {
        local: Ipv4Address::new(0x0A000001),
        remote: Ipv4Address::new(0x0A000002),
        ttl: Some(64),
        tos: None,
        key: Some(0x01020304),
        encap_limit: None,
        pmtudisc: true,
        ignore_df: false,
        link: Some(7),
    };
    let nlas = gre_nlas(&cfg);
    let kinds: Vec<u16> = nlas.iter().map(|n| n.kind).collect();
    // local, remote, ttl, ikey, okey, encap limit, pmtudisc, ignore-df, link
    assert_eq!(kinds, vec![6, 7, 8, 4, 5, 11, 10, 19, 1]);
    assert_eq!(nlas[0].value, vec![10, 0, 0, 1]);
    assert_eq!(nlas[1].value, vec![10, 0, 0, 2]);
    assert_eq!(nlas[2].value, vec![64]);
    // tunnel keys are encoded in network order, identically for both
    assert_eq!(nlas[3].value, vec![1, 2, 3, 4]);
    assert_eq!(nlas[4].value, vec![1, 2, 3, 4]);
    // an unset encapsulation limit defaults to 255
    assert_eq!(nlas[5].value, vec![255]);
    assert_eq!(nlas[6].value, vec![1]);
    assert_eq!(nlas[7].value, vec![0]);
    // the underlying link is encoded in native (least significant first) order
    assert_eq!(nlas[8].value, vec![7, 0, 0, 0]);
}

#[test]
fn iptunnel_attribute_list_layout() {
    let cfg = IpIpConfig {
        local: Ipv4Address::new(0x0A000001),
        remote: Ipv4Address::new(0x0A000002),
        ttl: None,
        tos: Some(0x10),
        encap_limit: Some(4),
        pmtudisc: false,
        link: None,
    };
    let nlas = iptunnel_v4_nlas(&cfg);
    let kinds: Vec<u16> = nlas.iter().map(|n| n.kind).collect();
    // local, remote, tos, encap limit, pmtudisc
    assert_eq!(kinds, vec![2, 3, 5, 6, 10]);
    assert_eq!(nlas[2].value, vec![0x10]);
    assert_eq!(nlas[3].value, vec![4]);
    assert_eq!(nlas[4].value, vec![0]);
}

#[test]
fn ipip_info_data_is_preencoded_bytes() {
    let cfg = IpIpConfig {
        local: Ipv4Address::new(0x0A000001),
        remote: Ipv4Address::new(0x0A000002),
        ttl: None,
        tos: None,
        encap_limit: Some(0),
        pmtudisc: true,
        link: None,
    };
    let data = ftth_rtnl::VirtualInterfaceKind::IpIp(cfg);
    match build_info_data(&data) {
        InfoPayload::Raw(bytes) => {
            assert_eq!(
                bytes,
                vec![
                    8, 0, 2, 0, 10, 0, 0, 1, // local
                    8, 0, 3, 0, 10, 0, 0, 2, // remote
                    5, 0, 6, 0, 0, 0, 0, 0, // encap limit 0
                    5, 0, 10, 0, 1, 0, 0, 0, // pmtudisc on
                ]
            );
        }
        other => panic!("unexpected payload: {:?}", other),
    }
}
