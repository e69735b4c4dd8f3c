//! Protocol-level checks: server plans, reply decoding, outcome mapping
//! and the per-subsystem policies.

use ftth_rtnl::address::{
    address_del_response, address_request_plan, address_set_response, build_ipv4_address_message,
    build_ipv6_address_message, collect_ipv4_addresses, AddressAttr, AddressMessageData,
    AddressPlan, RtnlAddressRequest, RtnlAddressResponse,
};
use ftth_rtnl::errors::RtnlErrorKind;
use ftth_rtnl::link::{
    handle_status_response, interface_get_by_name_response, interface_get_response,
    interface_list_response, link_request_plan, mac_addr_response, map_link_result, mtu_response,
    LinkAttr, LinkMessageData, LinkPlan, RtnlLinkRequest, RtnlLinkResponse,
};
use ftth_rtnl::neighbor::{
    build_delete_message, filter_neighbors, neighbor_from_message, neighbor_get_response,
    neighbor_mutation_response, neighbors_from_messages, NeighborDelete, NeighborEntry,
    NeighbourAttr, NeighbourFlags, NeighbourMessageData, NeighbourState, RtnlNeighborResponse,
};
use ftth_rtnl::route::{
    build_ipv4_route_message, build_route_message_v4, decode_ipv4_route, decode_ipv6_route,
    map_route_result, route_get_response_v4, route_list_response_v4, weight_to_hops, HopAttr,
    Ipv4Route, RouteAttr, RouteMessageData, RouteNextHopData, RouteNextHopFlags, RouteQueryV4,
    RouteTypeTag, RtnlRouteResponse,
};
use ftth_rtnl::types::{IpAddress, Ipv4Address, Ipv4Prefix, Ipv6Address, Ipv6Prefix, MacAddr};
use ftth_rtnl::virtual_interface::{
    build_create_message, netlink_error_to_response, resolve_index_response, validate_create_kind,
    virtual_interface_request_plan, InfoKindTag, InfoPayload, RtnlVirtualInterfaceRequest,
    RtnlVirtualInterfaceResponse, VirtualInterfacePlan, VirtualInterfaceSpec,
    VirtualInterfaceKind, VlanConfig,
};
use ftth_rtnl::wire::{FamilyTag, KernelOutcome};

fn v4(value: u32) -> Ipv4Address {
    Ipv4Address::new(value)
}

#[test]
fn link_index_zero_is_not_found_without_wire_contact() {
    let reqs = vec![
        RtnlLinkRequest::InterfaceGet { if_id: 0 },
        RtnlLinkRequest::MacAddrGet { if_id: 0 },
        RtnlLinkRequest::MtuGet { if_id: 0 },
        RtnlLinkRequest::MacAddrSet { if_id: 0, mac_addr: MacAddr::default() },
        RtnlLinkRequest::InterfaceSetAdmin { if_id: 0, up: true },
        RtnlLinkRequest::InterfaceSetPromisc { if_id: 0, enable: true },
        RtnlLinkRequest::InterfaceSetArp { if_id: 0, enable: false },
        RtnlLinkRequest::InterfaceSetMtu { if_id: 0, mtu: 1500 },
        RtnlLinkRequest::InterfaceRename { if_id: 0, if_name: "x".to_string() },
        RtnlLinkRequest::InterfaceSetAllMulticast { if_id: 0, enable: true },
    ];
    for req in reqs {
        assert_eq!(
            link_request_plan(&req),
            LinkPlan::Respond(RtnlLinkResponse::NotFound)
        );
    }
}

#[test]
fn link_nonzero_index_reaches_the_wire() {
    match link_request_plan(&RtnlLinkRequest::InterfaceGet { if_id: 3 }) {
        LinkPlan::GetByIndex(3) => {}
        other => panic!("unexpected plan: {:?}", other),
    }
    match link_request_plan(&RtnlLinkRequest::InterfaceSetMtu { if_id: 3, mtu: 9000 }) {
        LinkPlan::Change(m) => assert_eq!(m.index, 3),
        other => panic!("unexpected plan: {:?}", other),
    }
}

#[test]
fn address_set_and_delete_on_index_zero_fail_fast() {
    let p4 = Ipv4Prefix::new(v4(0x0A000001), 24).unwrap();
    let p6 = Ipv6Prefix::new(Ipv6Address::new(1), 64).unwrap();
    for req in [
        RtnlAddressRequest::Ipv4AddrSet { prefix: p4, if_id: 0 },
        RtnlAddressRequest::Ipv4AddrDel { prefix: p4, if_id: 0 },
        RtnlAddressRequest::Ipv6AddrSet { prefix: p6, if_id: 0 },
        RtnlAddressRequest::Ipv6AddrDel { prefix: p6, if_id: 0 },
    ] {
        assert_eq!(
            address_request_plan(&req),
            AddressPlan::Respond(RtnlAddressResponse::Failed)
        );
    }
    // a get scoped to 0 means "all interfaces" and does reach the wire
    assert_eq!(
        address_request_plan(&RtnlAddressRequest::Ipv4AddrsGet { if_id: 0 }),
        AddressPlan::GetV4 { if_id: 0 }
    );
}

#[test]
fn address_add_is_idempotent() {
    // first add: accepted; second add of the same prefix: the kernel
    // reports a conflict; both are success
    assert_eq!(
        address_set_response(KernelOutcome::Accepted),
        RtnlAddressResponse::Success
    );
    assert_eq!(
        address_set_response(KernelOutcome::AlreadyExists),
        RtnlAddressResponse::Success
    );
    assert_eq!(
        address_set_response(KernelOutcome::OtherError),
        RtnlAddressResponse::Failed
    );
}

#[test]
fn address_delete_maps_absence_to_not_found() {
    assert_eq!(
        address_del_response(KernelOutcome::NotFound),
        RtnlAddressResponse::NotFound
    );
    assert_eq!(
        address_del_response(KernelOutcome::AddressUnavailable),
        RtnlAddressResponse::NotFound
    );
    assert_eq!(
        address_del_response(KernelOutcome::Accepted),
        RtnlAddressResponse::Success
    );
    assert_eq!(
        address_del_response(KernelOutcome::OtherError),
        RtnlAddressResponse::Failed
    );
}

#[test]
fn route_add_is_not_idempotent() {
    assert_eq!(
        map_route_result(KernelOutcome::AlreadyExists),
        RtnlRouteResponse::Failed
    );
    assert_eq!(
        map_route_result(KernelOutcome::Accepted),
        RtnlRouteResponse::Success
    );
    assert_eq!(
        map_route_result(KernelOutcome::NotFound),
        RtnlRouteResponse::NotFound
    );
}

#[test]
fn v4_address_message_attaches_broadcast() {
    let p = Ipv4Prefix::new(v4(0xC0000201), 24).unwrap();
    let m = build_ipv4_address_message(&p, 2);
    assert_eq!(m.family, FamilyTag::V4);
    assert_eq!(m.if_id, 2);
    assert_eq!(m.prefix_len, 24);
    assert_eq!(
        m.attrs,
        vec![
            AddressAttr::AddressV4(v4(0xC0000201)),
            AddressAttr::LocalV4(v4(0xC0000201)),
            AddressAttr::BroadcastV4(v4(0xC00002FF)),
        ]
    );
}

#[test]
fn v4_multicast_address_message_attaches_nothing() {
    let p = Ipv4Prefix::new(v4(0xE0000001), 24).unwrap();
    let m = build_ipv4_address_message(&p, 2);
    assert!(m.attrs.is_empty());
}

#[test]
fn v6_address_message_distinguishes_multicast() {
    let uni = Ipv6Prefix::new(Ipv6Address::new(0x20010db8_0000_0000_0000_0000_0000_0001), 64)
        .unwrap();
    let m = build_ipv6_address_message(&uni, 3);
    assert_eq!(
        m.attrs,
        vec![
            AddressAttr::AddressV6(uni.addr()),
            AddressAttr::LocalV6(uni.addr()),
        ]
    );
    let mc =
        Ipv6Prefix::new(Ipv6Address::new(0xff02_0000_0000_0000_0000_0000_0000_0001), 128).unwrap();
    let m = build_ipv6_address_message(&mc, 3);
    assert_eq!(m.attrs, vec![AddressAttr::MulticastV6(mc.addr())]);
}

#[test]
fn collect_skips_other_families() {
    let msgs = vec![
        AddressMessageData {
            family: FamilyTag::V4,
            if_id: 1,
            prefix_len: 24,
            attrs: vec![
                AddressAttr::AddressV4(v4(1)),
                AddressAttr::Other,
                AddressAttr::AddressV4(v4(2)),
            ],
        },
        AddressMessageData {
            family: FamilyTag::V6,
            if_id: 1,
            prefix_len: 64,
            attrs: vec![AddressAttr::AddressV6(Ipv6Address::new(9))],
        },
        AddressMessageData {
            family: FamilyTag::V4,
            if_id: 2,
            prefix_len: 32,
            attrs: vec![AddressAttr::AddressV4(v4(3))],
        },
    ];
    match collect_ipv4_addresses(&msgs) {
        RtnlAddressResponse::Ipv4Addrs(addrs) => {
            assert_eq!(addrs, vec![v4(1), v4(2), v4(3)]);
        }
        other => panic!("unexpected response: {:?}", other),
    }
}

#[test]
fn weight_zero_wire_field_decodes_to_one() {
    let hop = RouteNextHopData {
        hops: 0,
        interface_index: 0,
        flags: RouteNextHopFlags::default(),
        attrs: vec![],
    };
    let msg = RouteMessageData {
        family: FamilyTag::V4,
        dst_prefix_len: 24,
        table: 254,
        kind: RouteTypeTag::Unicast,
        attrs: vec![
            RouteAttr::DestinationV4(v4(0x0A000000)),
            RouteAttr::MultiPath(vec![hop]),
        ],
    };
    let route = decode_ipv4_route(&msg).unwrap();
    assert_eq!(route.nexthops.len(), 1);
    assert_eq!(route.nexthops[0].weight, 1);
    assert_eq!(route.nexthops[0].if_id, None);
}

#[test]
fn weight_encoding_round_trips_and_saturates() {
    assert_eq!(weight_to_hops(1), 0);
    assert_eq!(weight_to_hops(2), 1);
    assert_eq!(weight_to_hops(256), 255);
    assert_eq!(weight_to_hops(257), 255);
    assert_eq!(weight_to_hops(u32::MAX), 255);
    assert_eq!(weight_to_hops(0), 0);
    // decode of every wire value h is h + 1; encoding that weight restores h
    for h in [0u8, 1, 7, 254, 255] {
        let weight = u32::from(h) + 1;
        assert_eq!(weight_to_hops(weight), h);
    }
}

#[test]
fn route_decode_reads_all_fields() {
    let msg = RouteMessageData {
        family: FamilyTag::V4,
        dst_prefix_len: 24,
        table: 0,
        kind: RouteTypeTag::Unicast,
        attrs: vec![
            RouteAttr::DestinationV4(v4(0x0A000000)),
            RouteAttr::GatewayV4(v4(0x0A000001)),
            RouteAttr::Priority(100),
            RouteAttr::Oif(4),
            RouteAttr::Table(254),
            RouteAttr::PrefSourceV4(v4(0x0A0000FE)),
        ],
    };
    let route = decode_ipv4_route(&msg).unwrap();
    assert_eq!(route.route, Ipv4Prefix::new(v4(0x0A000000), 24).unwrap());
    assert_eq!(route.gateway, Some(IpAddress::V4(v4(0x0A000001))));
    assert_eq!(route.metric, Some(100));
    assert_eq!(route.if_id, Some(4));
    assert_eq!(route.table, Some(254));
    assert_eq!(route.source, Some(v4(0x0A0000FE)));
}

#[test]
fn route_decode_normalizes_zeroes_to_absent() {
    let msg = RouteMessageData {
        family: FamilyTag::V4,
        dst_prefix_len: 0,
        table: 0,
        kind: RouteTypeTag::Unicast,
        attrs: vec![RouteAttr::Oif(0)],
    };
    let route = decode_ipv4_route(&msg).unwrap();
    assert_eq!(route.if_id, None);
    assert_eq!(route.table, None);
    assert_eq!(route.route, Ipv4Prefix::new(v4(0), 0).unwrap());
}

#[test]
fn route_decode_rejects_other_family() {
    let msg = RouteMessageData {
        family: FamilyTag::V6,
        dst_prefix_len: 0,
        table: 0,
        kind: RouteTypeTag::Unicast,
        attrs: vec![],
    };
    assert!(decode_ipv4_route(&msg).is_none());
    assert!(decode_ipv6_route(&msg).is_some());
}

#[test]
fn route_build_then_decode_preserves_fields() {
    let route = Ipv4Route {
        if_id: Some(4),
        gateway: Some(IpAddress::V4(v4(0x0A000001))),
        source: None,
        metric: Some(20),
        table: None,
        route: Ipv4Prefix::new(v4(0x0A000000), 24).unwrap(),
        nexthops: vec![],
    };
    let msg = build_ipv4_route_message(&route);
    assert_eq!(msg.table, 254);
    assert_eq!(msg.kind, RouteTypeTag::Unicast);
    let back = decode_ipv4_route(&msg).unwrap();
    assert_eq!(back.route, route.route);
    assert_eq!(back.gateway, route.gateway);
    assert_eq!(back.metric, route.metric);
    assert_eq!(back.if_id, route.if_id);
    // the default table byte reads back as the main table id
    assert_eq!(back.table, Some(254));
}

#[test]
fn route_build_uses_via_for_cross_family_gateway() {
    let route = Ipv4Route {
        if_id: None,
        gateway: Some(IpAddress::V6(Ipv6Address::new(0xfe80_0000_0000_0000_0000_0000_0000_0001))),
        source: None,
        metric: None,
        table: None,
        route: Ipv4Prefix::new(v4(0x0A000000), 24).unwrap(),
        nexthops: vec![],
    };
    let msg = build_ipv4_route_message(&route);
    assert!(msg
        .attrs
        .iter()
        .any(|a| matches!(a, RouteAttr::ViaV6(_))));
    assert!(!msg.attrs.iter().any(|a| matches!(a, RouteAttr::GatewayV6(_))));
}

#[test]
fn route_build_large_table_id_uses_attribute() {
    let route = Ipv4Route {
        if_id: None,
        gateway: None,
        source: None,
        metric: None,
        table: Some(1000),
        route: Ipv4Prefix::new(v4(0), 0).unwrap(),
        nexthops: vec![],
    };
    let msg = build_ipv4_route_message(&route);
    assert_eq!(msg.table, 254);
    assert!(msg.attrs.iter().any(|a| matches!(a, RouteAttr::Table(1000))));
}

#[test]
fn route_get_skips_local_and_broadcast_entries() {
    let local = RouteMessageData {
        family: FamilyTag::V4,
        dst_prefix_len: 32,
        table: 254,
        kind: RouteTypeTag::Local,
        attrs: vec![RouteAttr::DestinationV4(v4(0x0A000001))],
    };
    let unicast = RouteMessageData {
        family: FamilyTag::V4,
        dst_prefix_len: 24,
        table: 254,
        kind: RouteTypeTag::Unicast,
        attrs: vec![RouteAttr::DestinationV4(v4(0x0A000000))],
    };
    let query = RouteQueryV4::ByAddress(v4(0x0A000001));
    let r = route_get_response_v4(&vec![local, unicast], false, query);
    match r {
        RtnlRouteResponse::Ipv4Route(rt) => {
            assert_eq!(rt.route, Ipv4Prefix::new(v4(0x0A000000), 24).unwrap());
        }
        other => panic!("unexpected response: {:?}", other),
    }
}

#[test]
fn route_get_by_prefix_requires_exact_equality() {
    let msg = RouteMessageData {
        family: FamilyTag::V4,
        dst_prefix_len: 24,
        table: 254,
        kind: RouteTypeTag::Unicast,
        attrs: vec![RouteAttr::DestinationV4(v4(0x0A000000))],
    };
    let matching = RouteQueryV4::ByPrefix(Ipv4Prefix::new(v4(0x0A000000), 24).unwrap());
    let looser = RouteQueryV4::ByPrefix(Ipv4Prefix::new(v4(0x0A000000), 16).unwrap());
    assert!(matches!(
        route_get_response_v4(&vec![msg.clone()], false, matching),
        RtnlRouteResponse::Ipv4Route(_)
    ));
    assert_eq!(
        route_get_response_v4(&vec![msg], false, looser),
        RtnlRouteResponse::NotFound
    );
}

#[test]
fn route_get_failure_on_broken_stream_without_match() {
    assert_eq!(
        route_get_response_v4(&vec![], true, RouteQueryV4::ByAddress(v4(1))),
        RtnlRouteResponse::Failed
    );
    assert_eq!(
        route_get_response_v4(&vec![], false, RouteQueryV4::ByAddress(v4(1))),
        RtnlRouteResponse::NotFound
    );
}

#[test]
fn route_list_decodes_in_order() {
    let m1 = RouteMessageData {
        family: FamilyTag::V4,
        dst_prefix_len: 24,
        table: 254,
        kind: RouteTypeTag::Unicast,
        attrs: vec![RouteAttr::DestinationV4(v4(0x0A000000))],
    };
    let m2 = RouteMessageData {
        family: FamilyTag::V6,
        dst_prefix_len: 64,
        table: 254,
        kind: RouteTypeTag::Unicast,
        attrs: vec![],
    };
    match route_list_response_v4(&vec![m1, m2], false) {
        RtnlRouteResponse::Ipv4RouteList(v) => assert_eq!(v.len(), 1),
        other => panic!("unexpected response: {:?}", other),
    }
    assert_eq!(
        route_list_response_v4(&vec![], true),
        RtnlRouteResponse::Failed
    );
}

#[test]
fn neighbor_get_without_match_is_not_found() {
    let entries = vec![NeighborEntry {
        if_id: 2,
        destination: IpAddress::V4(v4(0x0A000001)),
        link_address: None,
        state: None,
        flags: None,
    }];
    let r = neighbor_get_response(entries, IpAddress::V4(v4(0x0A000002)), None);
    assert_eq!(r, RtnlNeighborResponse::NotFound);
}

#[test]
fn neighbor_get_respects_interface_filter() {
    let mk = |if_id: u32| NeighborEntry {
        if_id,
        destination: IpAddress::V4(v4(0x0A000001)),
        link_address: None,
        state: None,
        flags: None,
    };
    let r = neighbor_get_response(vec![mk(2), mk(3)], IpAddress::V4(v4(0x0A000001)), Some(3));
    match r {
        RtnlNeighborResponse::Neighbor(e) => assert_eq!(e.if_id, 3),
        other => panic!("unexpected response: {:?}", other),
    }
    let r = neighbor_get_response(vec![mk(2)], IpAddress::V4(v4(0x0A000001)), Some(3));
    assert_eq!(r, RtnlNeighborResponse::NotFound);
}

#[test]
fn neighbor_list_filter_keeps_only_matching_interface() {
    let mk = |if_id: u32, value: u32| NeighborEntry {
        if_id,
        destination: IpAddress::V4(v4(value)),
        link_address: None,
        state: None,
        flags: None,
    };
    let filtered = filter_neighbors(vec![mk(1, 10), mk(2, 20), mk(1, 30)], Some(1));
    assert_eq!(filtered.len(), 2);
    assert!(filtered.iter().all(|e| e.if_id == 1));
    // no match yields an empty list, never an error
    let empty = filter_neighbors(vec![mk(1, 10)], Some(9));
    assert!(empty.is_empty());
    // no filter keeps everything
    let all = filter_neighbors(vec![mk(1, 10), mk(2, 20)], None);
    assert_eq!(all.len(), 2);
}

#[test]
fn neighbor_decode_normalizes_state_and_flags() {
    let msg = NeighbourMessageData {
        family: FamilyTag::V4,
        ifindex: 2,
        state: NeighbourState::Unspecified,
        flags: NeighbourFlags { bits: 0 },
        attrs: vec![NeighbourAttr::DestinationV4(v4(0x0A000001))],
    };
    let e = neighbor_from_message(msg).unwrap();
    assert_eq!(e.state, None);
    assert_eq!(e.flags, None);
    assert_eq!(e.if_id, 2);

    let msg = NeighbourMessageData {
        family: FamilyTag::V4,
        ifindex: 2,
        state: NeighbourState::Reachable,
        flags: NeighbourFlags { bits: 0x80 },
        attrs: vec![
            NeighbourAttr::DestinationV4(v4(0x0A000001)),
            NeighbourAttr::LinkLocalAddress(vec![1, 2, 3, 4, 5, 6]),
        ],
    };
    let e = neighbor_from_message(msg).unwrap();
    assert_eq!(e.state, Some(NeighbourState::Reachable));
    assert_eq!(e.flags, Some(NeighbourFlags { bits: 0x80 }));
    assert_eq!(e.link_address, Some(vec![1, 2, 3, 4, 5, 6]));
}

#[test]
fn neighbor_decode_drops_unusable_destination() {
    let msg = NeighbourMessageData {
        family: FamilyTag::Other,
        ifindex: 2,
        state: NeighbourState::Reachable,
        flags: NeighbourFlags { bits: 0 },
        attrs: vec![NeighbourAttr::DestinationOther],
    };
    assert!(neighbor_from_message(msg).is_none());
    let msgs = vec![NeighbourMessageData {
        family: FamilyTag::V4,
        ifindex: 2,
        state: NeighbourState::Stale,
        flags: NeighbourFlags { bits: 0 },
        attrs: vec![],
    }];
    assert!(neighbors_from_messages(msgs).is_empty());
}

#[test]
fn neighbor_delete_message_carries_defaults() {
    let del = NeighborDelete {
        if_id: 7,
        destination: IpAddress::V6(Ipv6Address::new(1)),
        link_address: None,
        state: None,
        flags: None,
    };
    let msg = build_delete_message(&del);
    assert_eq!(msg.family, FamilyTag::V6);
    assert_eq!(msg.ifindex, 7);
    assert_eq!(msg.state, NeighbourState::Unspecified);
    assert_eq!(msg.flags, NeighbourFlags { bits: 0 });
    assert_eq!(msg.attrs.len(), 1);

    let del = NeighborDelete {
        if_id: 7,
        destination: IpAddress::V4(v4(0x0A000001)),
        link_address: Some(vec![1, 2, 3, 4, 5, 6]),
        state: Some(NeighbourState::Permanent),
        flags: Some(NeighbourFlags { bits: 0x08 }),
    };
    let msg = build_delete_message(&del);
    assert_eq!(msg.family, FamilyTag::V4);
    assert_eq!(msg.state, NeighbourState::Permanent);
    assert_eq!(msg.attrs.len(), 2);
}

#[test]
fn neighbor_mutation_outcome_mapping() {
    assert_eq!(
        neighbor_mutation_response(KernelOutcome::Accepted),
        RtnlNeighborResponse::Success
    );
    assert_eq!(
        neighbor_mutation_response(KernelOutcome::NotFound),
        RtnlNeighborResponse::NotFound
    );
    assert_eq!(
        neighbor_mutation_response(KernelOutcome::AlreadyExists),
        RtnlNeighborResponse::Failed
    );
}

#[test]
fn link_replies_decode_first_usable_message() {
    let named = LinkMessageData {
        index: 5,
        attrs: vec![LinkAttr::Other, LinkAttr::IfName("eth0".to_string())],
    };
    let unnamed = LinkMessageData { index: 6, attrs: vec![] };
    match interface_get_response(5, &vec![unnamed.clone(), named.clone()]) {
        RtnlLinkResponse::Interface(i) => {
            assert_eq!(i.if_id, 5);
            assert_eq!(i.if_name, "eth0");
        }
        other => panic!("unexpected response: {:?}", other),
    }
    assert_eq!(
        interface_get_response(5, &vec![unnamed]),
        RtnlLinkResponse::NotFound
    );
}

#[test]
fn link_get_by_name_uses_first_nonzero_index() {
    let msgs = vec![
        LinkMessageData { index: 0, attrs: vec![] },
        LinkMessageData { index: 9, attrs: vec![] },
    ];
    match interface_get_by_name_response("eth1", &msgs) {
        RtnlLinkResponse::Interface(i) => {
            assert_eq!(i.if_id, 9);
            assert_eq!(i.if_name, "eth1");
        }
        other => panic!("unexpected response: {:?}", other),
    }
    assert_eq!(
        interface_get_by_name_response("eth1", &vec![LinkMessageData { index: 0, attrs: vec![] }]),
        RtnlLinkResponse::NotFound
    );
}

#[test]
fn mac_reply_takes_first_six_payload_bytes() {
    let msgs = vec![LinkMessageData {
        index: 5,
        attrs: vec![LinkAttr::Address(vec![1, 2, 3, 4, 5, 6, 7, 8])],
    }];
    match mac_addr_response(&msgs) {
        RtnlLinkResponse::MacAddr(m) => assert_eq!(m.inner, [1, 2, 3, 4, 5, 6]),
        other => panic!("unexpected response: {:?}", other),
    }
    assert_eq!(mac_addr_response(&vec![]), RtnlLinkResponse::NotFound);
}

#[test]
fn mtu_reply_takes_first_mtu_attribute() {
    let msgs = vec![LinkMessageData {
        index: 5,
        attrs: vec![LinkAttr::Other, LinkAttr::Mtu(1500), LinkAttr::Mtu(9000)],
    }];
    assert_eq!(mtu_response(&msgs), RtnlLinkResponse::Mtu(1500));
}

#[test]
fn interface_list_drops_nameless_and_zero_index_entries() {
    let msgs = vec![
        LinkMessageData {
            index: 1,
            attrs: vec![LinkAttr::IfName("lo".to_string())],
        },
        LinkMessageData { index: 2, attrs: vec![] },
        LinkMessageData {
            index: 0,
            attrs: vec![LinkAttr::IfName("ghost".to_string())],
        },
    ];
    match interface_list_response(&msgs) {
        RtnlLinkResponse::InterfaceList(v) => {
            assert_eq!(v.len(), 1);
            assert_eq!(v[0].if_id, 1);
            assert_eq!(v[0].if_name, "lo");
        }
        other => panic!("unexpected response: {:?}", other),
    }
}

#[test]
fn link_outcome_and_status_mapping() {
    assert_eq!(
        map_link_result(KernelOutcome::NotFound),
        RtnlLinkResponse::NotFound
    );
    assert_eq!(
        map_link_result(KernelOutcome::AlreadyExists),
        RtnlLinkResponse::Failed
    );
    assert!(handle_status_response("Set MTU", RtnlLinkResponse::Success).is_ok());
    let e = handle_status_response("Set MTU", RtnlLinkResponse::NotFound).unwrap_err();
    assert_eq!(e.kind(), RtnlErrorKind::NotFound);
    assert_eq!(e.op(), "Set MTU");
    let e = handle_status_response("Set MTU", RtnlLinkResponse::Failed).unwrap_err();
    assert_eq!(e.kind(), RtnlErrorKind::Failed);
    let e = handle_status_response("Set MTU", RtnlLinkResponse::NotImplemented).unwrap_err();
    assert_eq!(e.kind(), RtnlErrorKind::Unsupported);
    let e = handle_status_response("Set MTU", RtnlLinkResponse::Mtu(9)).unwrap_err();
    assert_eq!(e.kind(), RtnlErrorKind::Unexpected);
}

#[test]
fn vlan_creation_requires_base_interface_and_id() {
    let no_base = VirtualInterfaceKind::Vlan(VlanConfig { base_ifindex: None, vlan_id: Some(7) });
    let err = validate_create_kind(&no_base).unwrap_err();
    assert_eq!(err, "VLAN creation requires a parent interface (--dev)");

    let no_id = VirtualInterfaceKind::Vlan(VlanConfig { base_ifindex: Some(2), vlan_id: None });
    let err = validate_create_kind(&no_id).unwrap_err();
    assert_eq!(err, "VLAN creation requires --vlan-id");

    // an invalid creation is answered before any wire interaction
    let spec = VirtualInterfaceSpec {
        name: "vlan7".to_string(),
        kind: no_base,
        admin_up: true,
    };
    assert_eq!(
        virtual_interface_request_plan(&RtnlVirtualInterfaceRequest::Create(spec)),
        VirtualInterfacePlan::Respond(RtnlVirtualInterfaceResponse::Failed)
    );
}

#[test]
fn vlan_creation_with_both_yields_tagged_message() {
    let kind = VirtualInterfaceKind::Vlan(VlanConfig { base_ifindex: Some(2), vlan_id: Some(7) });
    let spec = VirtualInterfaceSpec {
        name: "vlan7".to_string(),
        kind,
        admin_up: false,
    };
    let m = build_create_message(&spec).unwrap();
    assert_eq!(m.info_kind, InfoKindTag::Vlan);
    assert_eq!(m.info_data, InfoPayload::Vlan(Some(7)));
    assert_eq!(m.link, Some(2));
    assert_eq!(m.name.as_deref(), Some("vlan7"));
    assert_eq!(m.index, None);
    assert_eq!(m.admin, None);
}

#[test]
fn virtual_interface_outcome_mapping_and_resolution() {
    assert_eq!(
        netlink_error_to_response(KernelOutcome::NotFound),
        RtnlVirtualInterfaceResponse::NotFound
    );
    assert_eq!(
        netlink_error_to_response(KernelOutcome::OtherError),
        RtnlVirtualInterfaceResponse::Failed
    );
    assert_eq!(
        netlink_error_to_response(KernelOutcome::Accepted),
        RtnlVirtualInterfaceResponse::Success
    );
    let msgs = vec![
        LinkMessageData { index: 0, attrs: vec![] },
        LinkMessageData { index: 4, attrs: vec![] },
    ];
    assert_eq!(resolve_index_response(&msgs), Some(4));
    assert_eq!(resolve_index_response(&vec![]), None);
}
