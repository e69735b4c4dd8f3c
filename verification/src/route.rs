//! The route subsystem: listing, adding, replacing, deleting and looking
//! up IPv4/IPv6 routes, including weighted multipath next hops.
//!
//! A route's multipath list, when non-empty, supersedes the single
//! gateway/interface fields for wire encoding; both are retained in the
//! domain type. The wire hop-count field is zero-based: a domain weight of
//! `w` is encoded as `w - 1` (saturated at the field's maximum) and a wire
//! value of `h` decodes to weight `h + 1`.

use vstd::prelude::*;

use crate::channel::{send_request, RequestSender};
use crate::errors::{RtnlError, RtnlErrorKind};
use crate::types::{IpAddress, Ipv4Address, Ipv4Prefix, Ipv6Address, Ipv6Prefix};
use crate::wire::{FamilyTag, KernelOutcome};

verus! {

/// Per-hop flag bits of a multipath next hop, carried through unchanged.
#[derive(Clone, Copy, PartialEq, Eq, Structural, Debug, Default)]
pub struct RouteNextHopFlags {
    pub bits: u8,
}

/// One weighted alternative path within a route: optional output
/// interface, optional gateway, a weight of at least 1, and per-hop flags.
#[derive(Clone, Copy, PartialEq, Eq, Structural, Debug)]
pub struct RouteNextHopInfo {
    pub if_id: Option<u32>,
    pub gateway: Option<IpAddress>,
    pub weight: u32,
    pub flags: RouteNextHopFlags,
}

/// An IPv4 route: destination prefix plus optional output interface,
/// gateway (possibly of the other family), preferred source, metric,
/// table id, and multipath next hops.
#[derive(Clone, PartialEq, Debug)]
pub struct Ipv4Route {
    pub if_id: Option<u32>,
    pub gateway: Option<IpAddress>,
    pub source: Option<Ipv4Address>,
    pub metric: Option<u32>,
    pub table: Option<u32>,
    pub route: Ipv4Prefix,
    pub nexthops: Vec<RouteNextHopInfo>,
}

/// An IPv6 route; the same shape as the IPv4 one.
#[derive(Clone, PartialEq, Debug)]
pub struct Ipv6Route {
    pub if_id: Option<u32>,
    pub gateway: Option<IpAddress>,
    pub source: Option<Ipv6Address>,
    pub metric: Option<u32>,
    pub table: Option<u32>,
    pub route: Ipv6Prefix,
    pub nexthops: Vec<RouteNextHopInfo>,
}

/// One attribute of a multipath next-hop entry, reduced to what the
/// decoder reads.
#[derive(Clone, Copy, PartialEq, Eq, Structural, Debug)]
pub enum HopAttr {
    GatewayV4(Ipv4Address),
    GatewayV6(Ipv6Address),
    ViaV4(Ipv4Address),
    ViaV6(Ipv6Address),
    Other,
}

/// One wire multipath next-hop entry: the zero-based hop count, the
/// interface index (0 meaning none), per-hop flags, and its attributes.
#[derive(Clone, PartialEq, Debug)]
pub struct RouteNextHopData {
    pub hops: u8,
    pub interface_index: u32,
    pub flags: RouteNextHopFlags,
    pub attrs: Vec<HopAttr>,
}

/// One attribute of a kernel route message, reduced to the fields this
/// subsystem reads; every other attribute is carried as `Other`.
#[derive(Clone, PartialEq, Debug)]
pub enum RouteAttr {
    DestinationV4(Ipv4Address),
    DestinationV6(Ipv6Address),
    GatewayV4(Ipv4Address),
    GatewayV6(Ipv6Address),
    ViaV4(Ipv4Address),
    ViaV6(Ipv6Address),
    PrefSourceV4(Ipv4Address),
    PrefSourceV6(Ipv6Address),
    Priority(u32),
    Oif(u32),
    Table(u32),
    MultiPath(Vec<RouteNextHopData>),
    Other,
}

/// The route type field of a kernel route message header.
#[derive(Clone, Copy, PartialEq, Eq, Structural, Debug)]
pub enum RouteTypeTag {
    Unspec,
    Unicast,
    Local,
    Broadcast,
    Other,
}

/// One kernel route message: header fields and the attribute list.
#[derive(Clone, PartialEq, Debug)]
pub struct RouteMessageData {
    pub family: FamilyTag,
    pub dst_prefix_len: u8,
    pub table: u8,
    pub kind: RouteTypeTag,
    pub attrs: Vec<RouteAttr>,
}

/// The closed request vocabulary of the route subsystem.
#[derive(Clone, PartialEq, Debug)]
#[non_exhaustive]
pub enum RtnlRouteRequest {
    Ipv4RouteList,
    Ipv6RouteList,
    Ipv4RouteAdd(Ipv4Route),
    Ipv4RouteReplace(Ipv4Route),
    Ipv6RouteAdd(Ipv6Route),
    Ipv6RouteReplace(Ipv6Route),
    Ipv4RouteDel(Ipv4Route),
    Ipv6RouteDel(Ipv6Route),
    Ipv4RouteGet(Ipv4Address),
    Ipv6RouteGet(Ipv6Address),
    Ipv4RouteGetByPrefix(Ipv4Prefix),
    Ipv6RouteGetByPrefix(Ipv6Prefix),
}

/// The closed response vocabulary of the route subsystem.
#[derive(Clone, PartialEq, Debug)]
#[non_exhaustive]
pub enum RtnlRouteResponse {
    Success,
    Failed,
    NotImplemented,
    NotFound,
    Ipv4RouteList(Vec<Ipv4Route>),
    Ipv6RouteList(Vec<Ipv6Route>),
    Ipv4Route(Ipv4Route),
    Ipv6Route(Ipv6Route),
}

/// The domain weight a wire hop count decodes to: the count plus one.
pub open spec fn spec_hops_to_weight(h: u8) -> u32 {
    (h + 1) as u32
}

/// The wire hop count a domain weight encodes to: the weight minus one,
/// saturated into the 8-bit field.
pub open spec fn spec_weight_to_hops(w: u32) -> u8 {
    if w == 0 {
        0
    } else if w - 1 > 255 {
        255
    } else {
        ((w - 1) as u8)
    }
}

/// Converts a multipath next-hop weight to the zero-based wire hop count:
/// weight - 1, saturated at the field's maximum.
pub fn weight_to_hops(weight: u32) -> (r: u8)
    ensures
        r == spec_weight_to_hops(weight),
{
    let reduced: u32 = if weight == 0 {
        0
    } else {
        weight - 1
    };
    if reduced > 255 {
        255u8
    } else {
        reduced as u8
    }
}

/// The hop-count field and the domain weight are inverse views of each
/// other: decoding then encoding is the identity on the whole 8-bit field
/// range, and encoding then decoding is the identity on weights 1..=256.
/// Encoding saturates: every weight above 256 encodes to the field's
/// maximum, and the wire value 0 decodes to weight 1.
pub proof fn lemma_weight_hops_round_trip(h: u8, w: u32)
    ensures
        spec_weight_to_hops(spec_hops_to_weight(h)) == h,
        1 <= w <= 256 ==> spec_hops_to_weight(spec_weight_to_hops(w)) == w,
        w > 256 ==> spec_weight_to_hops(w) == 255,
        spec_hops_to_weight(0) == 1,
{
}

/// The gateway of a next-hop entry: the last gateway or "via" attribute
/// wins, each carrying its own family.
pub open spec fn spec_last_hop_gateway(attrs: Seq<HopAttr>) -> Option<IpAddress>
    decreases attrs.len(),
{
    if attrs.len() == 0 {
        None
    } else {
        match attrs.last() {
            HopAttr::GatewayV4(a) => Some(IpAddress::V4(a)),
            HopAttr::GatewayV6(a) => Some(IpAddress::V6(a)),
            HopAttr::ViaV4(a) => Some(IpAddress::V4(a)),
            HopAttr::ViaV6(a) => Some(IpAddress::V6(a)),
            HopAttr::Other => spec_last_hop_gateway(attrs.drop_last()),
        }
    }
}

/// The domain view of one wire next-hop entry: interface 0 becomes
/// absent, the weight is the hop count plus one, and the last gateway
/// attribute wins.
pub open spec fn spec_convert_hop(h: RouteNextHopData) -> RouteNextHopInfo {
    RouteNextHopInfo {
        if_id: if h.interface_index == 0 {
            None
        } else {
            Some(h.interface_index)
        },
        gateway: spec_last_hop_gateway(h.attrs@),
        weight: spec_hops_to_weight(h.hops),
        flags: h.flags,
    }
}

/// The domain view of a wire multipath list, entry by entry in order.
pub open spec fn spec_convert_hops(hops: Seq<RouteNextHopData>) -> Seq<RouteNextHopInfo> {
    hops.map_values(|h: RouteNextHopData| spec_convert_hop(h))
}

/// Converts one wire next-hop entry to its domain view.
fn convert_hop(h: &RouteNextHopData) -> (r: RouteNextHopInfo)
    ensures
        r == spec_convert_hop(*h),
{
    let mut gateway: Option<IpAddress> = None;
    let mut i: usize = 0;
    proof {
        assert(h.attrs@.take(0) =~= Seq::<HopAttr>::empty());
    }
    while i < h.attrs.len()
        invariant
            i <= h.attrs@.len(),
            gateway == spec_last_hop_gateway(h.attrs@.take(i as int)),
        decreases h.attrs@.len() - i,
    {
        proof {
            assert(h.attrs@.take(i + 1).drop_last() =~= h.attrs@.take(i as int));
            assert(h.attrs@.take(i + 1).last() == h.attrs@[i as int]);
        }
        match h.attrs[i] {
            HopAttr::GatewayV4(a) => {
                gateway = Some(IpAddress::V4(a));
            },
            HopAttr::GatewayV6(a) => {
                gateway = Some(IpAddress::V6(a));
            },
            HopAttr::ViaV4(a) => {
                gateway = Some(IpAddress::V4(a));
            },
            HopAttr::ViaV6(a) => {
                gateway = Some(IpAddress::V6(a));
            },
            HopAttr::Other => {},
        }
        i = i + 1;
    }
    proof {
        assert(h.attrs@.take(h.attrs@.len() as int) =~= h.attrs@);
    }
    let weight: u32 = (h.hops as u32) + 1;
    RouteNextHopInfo {
        if_id: if h.interface_index == 0 {
            None
        } else {
            Some(h.interface_index)
        },
        gateway,
        weight,
        flags: h.flags,
    }
}

/// Converts a wire multipath list to its domain view, in order.
pub fn convert_multipath(paths: &Vec<RouteNextHopData>) -> (r: Vec<RouteNextHopInfo>)
    ensures
        r@ == spec_convert_hops(paths@),
{
    let mut out: Vec<RouteNextHopInfo> = Vec::new();
    let mut i: usize = 0;
    while i < paths.len()
        invariant
            i <= paths@.len(),
            out@ =~= spec_convert_hops(paths@.take(i as int)),
        decreases paths@.len() - i,
    {
        out.push(convert_hop(&paths[i]));
        proof {
            assert(spec_convert_hops(paths@.take(i + 1)) =~= spec_convert_hops(
                paths@.take(i as int),
            ).push(spec_convert_hop(paths@[i as int])));
        }
        i = i + 1;
    }
    proof {
        assert(paths@.take(paths@.len() as int) =~= paths@);
        assert(out@ =~= spec_convert_hops(paths@));
    }
    out
}

/// The destination of an IPv4 route message: the last same-family
/// destination attribute wins.
pub open spec fn spec_last_dest_v4(attrs: Seq<RouteAttr>) -> Option<Ipv4Address>
    decreases attrs.len(),
{
    if attrs.len() == 0 {
        None
    } else {
        match attrs.last() {
            RouteAttr::DestinationV4(a) => Some(a),
            _ => spec_last_dest_v4(attrs.drop_last()),
        }
    }
}

/// The destination of an IPv6 route message.
pub open spec fn spec_last_dest_v6(attrs: Seq<RouteAttr>) -> Option<Ipv6Address>
    decreases attrs.len(),
{
    if attrs.len() == 0 {
        None
    } else {
        match attrs.last() {
            RouteAttr::DestinationV6(a) => Some(a),
            _ => spec_last_dest_v6(attrs.drop_last()),
        }
    }
}

/// The gateway of a route message: the last gateway or "via" attribute of
/// either family wins.
pub open spec fn spec_last_gateway(attrs: Seq<RouteAttr>) -> Option<IpAddress>
    decreases attrs.len(),
{
    if attrs.len() == 0 {
        None
    } else {
        match attrs.last() {
            RouteAttr::GatewayV4(a) => Some(IpAddress::V4(a)),
            RouteAttr::GatewayV6(a) => Some(IpAddress::V6(a)),
            RouteAttr::ViaV4(a) => Some(IpAddress::V4(a)),
            RouteAttr::ViaV6(a) => Some(IpAddress::V6(a)),
            _ => spec_last_gateway(attrs.drop_last()),
        }
    }
}

/// The preferred source of an IPv4 route message.
pub open spec fn spec_last_source_v4(attrs: Seq<RouteAttr>) -> Option<Ipv4Address>
    decreases attrs.len(),
{
    if attrs.len() == 0 {
        None
    } else {
        match attrs.last() {
            RouteAttr::PrefSourceV4(a) => Some(a),
            _ => spec_last_source_v4(attrs.drop_last()),
        }
    }
}

/// The preferred source of an IPv6 route message.
pub open spec fn spec_last_source_v6(attrs: Seq<RouteAttr>) -> Option<Ipv6Address>
    decreases attrs.len(),
{
    if attrs.len() == 0 {
        None
    } else {
        match attrs.last() {
            RouteAttr::PrefSourceV6(a) => Some(a),
            _ => spec_last_source_v6(attrs.drop_last()),
        }
    }
}

/// The metric of a route message: the last priority attribute wins.
pub open spec fn spec_last_priority(attrs: Seq<RouteAttr>) -> Option<u32>
    decreases attrs.len(),
{
    if attrs.len() == 0 {
        None
    } else {
        match attrs.last() {
            RouteAttr::Priority(v) => Some(v),
            _ => spec_last_priority(attrs.drop_last()),
        }
    }
}

/// The output interface attribute: the last one wins, not yet normalized.
pub open spec fn spec_last_oif(attrs: Seq<RouteAttr>) -> Option<u32>
    decreases attrs.len(),
{
    if attrs.len() == 0 {
        None
    } else {
        match attrs.last() {
            RouteAttr::Oif(v) => Some(v),
            _ => spec_last_oif(attrs.drop_last()),
        }
    }
}

/// The output interface of a decoded route: index 0 becomes absent.
pub open spec fn spec_oif_normalized(attrs: Seq<RouteAttr>) -> Option<u32> {
    match spec_last_oif(attrs) {
        Some(v) => if v == 0 {
            None
        } else {
            Some(v)
        },
        None => None,
    }
}

/// The table attribute: the last one wins.
pub open spec fn spec_last_table_attr(attrs: Seq<RouteAttr>) -> Option<u32>
    decreases attrs.len(),
{
    if attrs.len() == 0 {
        None
    } else {
        match attrs.last() {
            RouteAttr::Table(v) => Some(v),
            _ => spec_last_table_attr(attrs.drop_last()),
        }
    }
}

/// The table of a decoded route: a table attribute wins over the header
/// byte; a header byte of 0 means the table is unspecified.
pub open spec fn spec_route_table(header_table: u8, attrs: Seq<RouteAttr>) -> Option<u32> {
    match spec_last_table_attr(attrs) {
        Some(v) => Some(v),
        None => if header_table == 0 {
            None
        } else {
            Some(header_table as u32)
        },
    }
}

/// The multipath next hops of a route message: the converted entries of
/// every multipath attribute, concatenated in order.
pub open spec fn spec_nexthops(attrs: Seq<RouteAttr>) -> Seq<RouteNextHopInfo>
    decreases attrs.len(),
{
    if attrs.len() == 0 {
        Seq::empty()
    } else {
        spec_nexthops(attrs.drop_last()) + (match attrs.last() {
            RouteAttr::MultiPath(v) => spec_convert_hops(v@),
            _ => Seq::empty(),
        })
    }
}

/// The destination address a decoded route reports: the attribute's value,
/// or the all-zero address when the message carries none.
pub open spec fn spec_dest_or_zero_v4(attrs: Seq<RouteAttr>) -> Ipv4Address {
    match spec_last_dest_v4(attrs) {
        Some(a) => a,
        None => (Ipv4Address { value: 0 }),
    }
}

/// The destination address a decoded IPv6 route reports.
pub open spec fn spec_dest_or_zero_v6(attrs: Seq<RouteAttr>) -> Ipv6Address {
    match spec_last_dest_v6(attrs) {
        Some(a) => a,
        None => (Ipv6Address { value: 0 }),
    }
}

/// Whether `rt` is exactly the decoding of the IPv4 route message `msg`.
pub open spec fn spec_is_decoded_v4(msg: RouteMessageData, rt: Ipv4Route) -> bool {
    &&& rt.route == (Ipv4Prefix {
        addr: spec_dest_or_zero_v4(msg.attrs@),
        prefix_len: msg.dst_prefix_len,
    })
    &&& rt.gateway == spec_last_gateway(msg.attrs@)
    &&& rt.source == spec_last_source_v4(msg.attrs@)
    &&& rt.metric == spec_last_priority(msg.attrs@)
    &&& rt.table == spec_route_table(msg.table, msg.attrs@)
    &&& rt.if_id == spec_oif_normalized(msg.attrs@)
    &&& rt.nexthops@ == spec_nexthops(msg.attrs@)
}

/// Whether `rt` is exactly the decoding of the IPv6 route message `msg`.
pub open spec fn spec_is_decoded_v6(msg: RouteMessageData, rt: Ipv6Route) -> bool {
    &&& rt.route == (Ipv6Prefix {
        addr: spec_dest_or_zero_v6(msg.attrs@),
        prefix_len: msg.dst_prefix_len,
    })
    &&& rt.gateway == spec_last_gateway(msg.attrs@)
    &&& rt.source == spec_last_source_v6(msg.attrs@)
    &&& rt.metric == spec_last_priority(msg.attrs@)
    &&& rt.table == spec_route_table(msg.table, msg.attrs@)
    &&& rt.if_id == spec_oif_normalized(msg.attrs@)
    &&& rt.nexthops@ == spec_nexthops(msg.attrs@)
}

/// Whether an IPv4 route message decodes at all: the family matches and
/// the prefix length is valid.
pub open spec fn spec_decodes_v4(msg: RouteMessageData) -> bool {
    msg.family == FamilyTag::V4 && msg.dst_prefix_len <= 32
}

/// Whether an IPv6 route message decodes at all.
pub open spec fn spec_decodes_v6(msg: RouteMessageData) -> bool {
    msg.family == FamilyTag::V6 && msg.dst_prefix_len <= 128
}

/// Decodes an IPv4 route message: accepts only the matching family,
/// resolves each field by its last attribute, normalizes interface 0 and
/// table 0 to absent, and rejects an invalid prefix length.
pub fn decode_ipv4_route(message: &RouteMessageData) -> (r: Option<Ipv4Route>)
    ensures
        !spec_decodes_v4(*message) ==> r is None,
        spec_decodes_v4(*message) ==> (r matches Some(rt) && spec_is_decoded_v4(*message, rt)
            && rt.route.wf()),
{
    if message.family != FamilyTag::V4 {
        return None;
    }
    let attrs = &message.attrs;
    let mut destination: Option<Ipv4Address> = None;
    let mut gateway: Option<IpAddress> = None;
    let mut source: Option<Ipv4Address> = None;
    let mut metric: Option<u32> = None;
    let mut table_attr: Option<u32> = None;
    let mut oif: Option<u32> = None;
    let mut nexthops: Vec<RouteNextHopInfo> = Vec::new();
    let mut i: usize = 0;
    proof {
        assert(attrs@.take(0) =~= Seq::<RouteAttr>::empty());
    }
    while i < attrs.len()
        invariant
            i <= attrs@.len(),
            destination == spec_last_dest_v4(attrs@.take(i as int)),
            gateway == spec_last_gateway(attrs@.take(i as int)),
            source == spec_last_source_v4(attrs@.take(i as int)),
            metric == spec_last_priority(attrs@.take(i as int)),
            table_attr == spec_last_table_attr(attrs@.take(i as int)),
            oif == spec_last_oif(attrs@.take(i as int)),
            nexthops@ == spec_nexthops(attrs@.take(i as int)),
        decreases attrs@.len() - i,
    {
        proof {
            assert(attrs@.take(i + 1).drop_last() =~= attrs@.take(i as int));
            assert(attrs@.take(i + 1).last() == attrs@[i as int]);
        }
        match &attrs[i] {
            RouteAttr::DestinationV4(a) => {
                destination = Some(*a);
            },
            RouteAttr::GatewayV4(a) => {
                gateway = Some(IpAddress::V4(*a));
            },
            RouteAttr::GatewayV6(a) => {
                gateway = Some(IpAddress::V6(*a));
            },
            RouteAttr::ViaV4(a) => {
                gateway = Some(IpAddress::V4(*a));
            },
            RouteAttr::ViaV6(a) => {
                gateway = Some(IpAddress::V6(*a));
            },
            RouteAttr::PrefSourceV4(a) => {
                source = Some(*a);
            },
            RouteAttr::Priority(v) => {
                metric = Some(*v);
            },
            RouteAttr::Oif(v) => {
                oif = Some(*v);
            },
            RouteAttr::Table(v) => {
                table_attr = Some(*v);
            },
            RouteAttr::MultiPath(paths) => {
                let mut converted = convert_multipath(paths);
                nexthops.append(&mut converted);
            },
            _ => {},
        }
        i = i + 1;
    }
    proof {
        assert(attrs@.take(attrs@.len() as int) =~= attrs@);
    }
    let addr = match destination {
        Some(a) => a,
        None => Ipv4Address { value: 0 },
    };
    let net = match Ipv4Prefix::new(addr, message.dst_prefix_len) {
        Some(n) => n,
        None => {
            return None;
        },
    };
    let table = match table_attr {
        Some(v) => Some(v),
        None => table_from_header(message.table),
    };
    let if_id = match oif {
        Some(v) => if v == 0 {
            None
        } else {
            Some(v)
        },
        None => None,
    };
    Some(Ipv4Route { if_id, gateway, source, metric, table, route: net, nexthops })
}

/// Decodes an IPv6 route message, the mirror image of the IPv4 decoder.
pub fn decode_ipv6_route(message: &RouteMessageData) -> (r: Option<Ipv6Route>)
    ensures
        !spec_decodes_v6(*message) ==> r is None,
        spec_decodes_v6(*message) ==> (r matches Some(rt) && spec_is_decoded_v6(*message, rt)
            && rt.route.wf()),
{
    if message.family != FamilyTag::V6 {
        return None;
    }
    let attrs = &message.attrs;
    let mut destination: Option<Ipv6Address> = None;
    let mut gateway: Option<IpAddress> = None;
    let mut source: Option<Ipv6Address> = None;
    let mut metric: Option<u32> = None;
    let mut table_attr: Option<u32> = None;
    let mut oif: Option<u32> = None;
    let mut nexthops: Vec<RouteNextHopInfo> = Vec::new();
    let mut i: usize = 0;
    proof {
        assert(attrs@.take(0) =~= Seq::<RouteAttr>::empty());
    }
    while i < attrs.len()
        invariant
            i <= attrs@.len(),
            destination == spec_last_dest_v6(attrs@.take(i as int)),
            gateway == spec_last_gateway(attrs@.take(i as int)),
            source == spec_last_source_v6(attrs@.take(i as int)),
            metric == spec_last_priority(attrs@.take(i as int)),
            table_attr == spec_last_table_attr(attrs@.take(i as int)),
            oif == spec_last_oif(attrs@.take(i as int)),
            nexthops@ == spec_nexthops(attrs@.take(i as int)),
        decreases attrs@.len() - i,
    {
        proof {
            assert(attrs@.take(i + 1).drop_last() =~= attrs@.take(i as int));
            assert(attrs@.take(i + 1).last() == attrs@[i as int]);
        }
        match &attrs[i] {
            RouteAttr::DestinationV6(a) => {
                destination = Some(*a);
            },
            RouteAttr::GatewayV4(a) => {
                gateway = Some(IpAddress::V4(*a));
            },
            RouteAttr::GatewayV6(a) => {
                gateway = Some(IpAddress::V6(*a));
            },
            RouteAttr::ViaV4(a) => {
                gateway = Some(IpAddress::V4(*a));
            },
            RouteAttr::ViaV6(a) => {
                gateway = Some(IpAddress::V6(*a));
            },
            RouteAttr::PrefSourceV6(a) => {
                source = Some(*a);
            },
            RouteAttr::Priority(v) => {
                metric = Some(*v);
            },
            RouteAttr::Oif(v) => {
                oif = Some(*v);
            },
            RouteAttr::Table(v) => {
                table_attr = Some(*v);
            },
            RouteAttr::MultiPath(paths) => {
                let mut converted = convert_multipath(paths);
                nexthops.append(&mut converted);
            },
            _ => {},
        }
        i = i + 1;
    }
    proof {
        assert(attrs@.take(attrs@.len() as int) =~= attrs@);
    }
    let addr = match destination {
        Some(a) => a,
        None => Ipv6Address { value: 0 },
    };
    let net = match Ipv6Prefix::new(addr, message.dst_prefix_len) {
        Some(n) => n,
        None => {
            return None;
        },
    };
    let table = match table_attr {
        Some(v) => Some(v),
        None => table_from_header(message.table),
    };
    let if_id = match oif {
        Some(v) => if v == 0 {
            None
        } else {
            Some(v)
        },
        None => None,
    };
    Some(Ipv6Route { if_id, gateway, source, metric, table, route: net, nexthops })
}

/// The table a decoded route reports from the header byte alone: 0 means
/// unspecified.
pub fn table_from_header(value: u8) -> (r: Option<u32>)
    ensures
        value == 0 ==> r is None,
        value != 0 ==> r == Some(value as u32),
{
    if value == 0 {
        None
    } else {
        Some(value as u32)
    }
}

/// The gateway attributes of a built IPv4 next hop: a same-family gateway
/// directly, an IPv6 gateway through the "via" encoding.
pub open spec fn spec_hop_gateway_attrs_v4(g: Option<IpAddress>) -> Seq<HopAttr> {
    match g {
        Some(IpAddress::V4(a)) => seq![HopAttr::GatewayV4(a)],
        Some(IpAddress::V6(a)) => seq![HopAttr::ViaV6(a)],
        None => Seq::empty(),
    }
}

/// The gateway attributes of a built IPv6 next hop.
pub open spec fn spec_hop_gateway_attrs_v6(g: Option<IpAddress>) -> Seq<HopAttr> {
    match g {
        Some(IpAddress::V6(a)) => seq![HopAttr::GatewayV6(a)],
        Some(IpAddress::V4(a)) => seq![HopAttr::ViaV4(a)],
        None => Seq::empty(),
    }
}

/// Whether `h` is exactly the wire encoding of the IPv4 next hop `e`: the
/// weight becomes the saturated zero-based hop count, an absent interface
/// becomes index 0, the flags pass through, and the gateway is the sole
/// attribute when present.
pub open spec fn spec_is_built_hop_v4(e: RouteNextHopInfo, h: RouteNextHopData) -> bool {
    &&& h.hops == spec_weight_to_hops(e.weight)
    &&& h.interface_index == (match e.if_id {
        Some(i) => i,
        None => 0u32,
    })
    &&& h.flags == e.flags
    &&& h.attrs@ == spec_hop_gateway_attrs_v4(e.gateway)
}

/// Whether `h` is exactly the wire encoding of the IPv6 next hop `e`.
pub open spec fn spec_is_built_hop_v6(e: RouteNextHopInfo, h: RouteNextHopData) -> bool {
    &&& h.hops == spec_weight_to_hops(e.weight)
    &&& h.interface_index == (match e.if_id {
        Some(i) => i,
        None => 0u32,
    })
    &&& h.flags == e.flags
    &&& h.attrs@ == spec_hop_gateway_attrs_v6(e.gateway)
}

/// Builds the wire multipath list of an IPv4 route; an empty entry list
/// yields nothing.
pub fn build_multipath_v4(entries: &Vec<RouteNextHopInfo>) -> (r: Option<Vec<RouteNextHopData>>)
    ensures
        entries@.len() == 0 ==> r is None,
        entries@.len() > 0 ==> (r matches Some(v) && v@.len() == entries@.len() && forall|i: int|
            0 <= i < entries@.len() ==> spec_is_built_hop_v4(entries@[i], #[trigger] v@[i])),
{
    let mut nexthops: Vec<RouteNextHopData> = Vec::new();
    let mut i: usize = 0;
    while i < entries.len()
        invariant
            i <= entries@.len(),
            nexthops@.len() == i,
            forall|j: int|
                0 <= j < i ==> spec_is_built_hop_v4(entries@[j], #[trigger] nexthops@[j]),
        decreases entries@.len() - i,
    {
        let entry = &entries[i];
        let mut attrs: Vec<HopAttr> = Vec::new();
        match entry.gateway {
            Some(IpAddress::V4(a)) => {
                attrs.push(HopAttr::GatewayV4(a));
            },
            Some(IpAddress::V6(a)) => {
                attrs.push(HopAttr::ViaV6(a));
            },
            None => {},
        }
        proof {
            assert(attrs@ =~= spec_hop_gateway_attrs_v4(entry.gateway));
        }
        let hop = RouteNextHopData {
            hops: weight_to_hops(entry.weight),
            interface_index: match entry.if_id {
                Some(ix) => ix,
                None => 0,
            },
            flags: entry.flags,
            attrs,
        };
        nexthops.push(hop);
        i = i + 1;
    }
    if nexthops.is_empty() {
        None
    } else {
        Some(nexthops)
    }
}

/// Builds the wire multipath list of an IPv6 route; an empty entry list
/// yields nothing.
pub fn build_multipath_v6(entries: &Vec<RouteNextHopInfo>) -> (r: Option<Vec<RouteNextHopData>>)
    ensures
        entries@.len() == 0 ==> r is None,
        entries@.len() > 0 ==> (r matches Some(v) && v@.len() == entries@.len() && forall|i: int|
            0 <= i < entries@.len() ==> spec_is_built_hop_v6(entries@[i], #[trigger] v@[i])),
{
    let mut nexthops: Vec<RouteNextHopData> = Vec::new();
    let mut i: usize = 0;
    while i < entries.len()
        invariant
            i <= entries@.len(),
            nexthops@.len() == i,
            forall|j: int|
                0 <= j < i ==> spec_is_built_hop_v6(entries@[j], #[trigger] nexthops@[j]),
        decreases entries@.len() - i,
    {
        let entry = &entries[i];
        let mut attrs: Vec<HopAttr> = Vec::new();
        match entry.gateway {
            Some(IpAddress::V6(a)) => {
                attrs.push(HopAttr::GatewayV6(a));
            },
            Some(IpAddress::V4(a)) => {
                attrs.push(HopAttr::ViaV4(a));
            },
            None => {},
        }
        proof {
            assert(attrs@ =~= spec_hop_gateway_attrs_v6(entry.gateway));
        }
        let hop = RouteNextHopData {
            hops: weight_to_hops(entry.weight),
            interface_index: match entry.if_id {
                Some(ix) => ix,
                None => 0,
            },
            flags: entry.flags,
            attrs,
        };
        nexthops.push(hop);
        i = i + 1;
    }
    if nexthops.is_empty() {
        None
    } else {
        Some(nexthops)
    }
}

/// A built next hop decodes back to itself: for any entry whose weight
/// lies in the wire field's range and whose interface is present and
/// non-zero or absent, decoding the encoding restores the entry exactly —
/// the weight survives the zero-based hop-count field, the gateway
/// survives the direct/"via" split, and the flags pass through.
pub proof fn lemma_built_hop_round_trip_v4(e: RouteNextHopInfo, h: RouteNextHopData)
    requires
        spec_is_built_hop_v4(e, h),
        1 <= e.weight <= 256,
        e.if_id != Some(0u32),
    ensures
        spec_convert_hop(h) == e,
{
    match e.gateway {
        Some(IpAddress::V4(a)) => {
            assert(h.attrs@.last() == HopAttr::GatewayV4(a));
        },
        Some(IpAddress::V6(a)) => {
            assert(h.attrs@.last() == HopAttr::ViaV6(a));
        },
        None => {
            assert(h.attrs@.len() == 0);
        },
    }
}

/// The IPv6 counterpart of the next-hop round trip.
pub proof fn lemma_built_hop_round_trip_v6(e: RouteNextHopInfo, h: RouteNextHopData)
    requires
        spec_is_built_hop_v6(e, h),
        1 <= e.weight <= 256,
        e.if_id != Some(0u32),
    ensures
        spec_convert_hop(h) == e,
{
    match e.gateway {
        Some(IpAddress::V6(a)) => {
            assert(h.attrs@.last() == HopAttr::GatewayV6(a));
        },
        Some(IpAddress::V4(a)) => {
            assert(h.attrs@.last() == HopAttr::ViaV4(a));
        },
        None => {
            assert(h.attrs@.len() == 0);
        },
    }
}

/// The attribute list of a built IPv4 route message, short of any
/// multipath attribute: destination, then the optional non-zero output
/// interface, gateway (same-family directly, the other through "via"),
/// preferred source, metric, and a table attribute only for ids above the
/// header byte's range.
pub open spec fn spec_route_base_attrs_v4(route: Ipv4Route) -> Seq<RouteAttr> {
    seq![RouteAttr::DestinationV4(route.route.addr)] + (match route.if_id {
        Some(i) => if i != 0 {
            seq![RouteAttr::Oif(i)]
        } else {
            Seq::empty()
        },
        None => Seq::empty(),
    }) + (match route.gateway {
        Some(IpAddress::V4(a)) => seq![RouteAttr::GatewayV4(a)],
        Some(IpAddress::V6(a)) => seq![RouteAttr::ViaV6(a)],
        None => Seq::empty(),
    }) + (match route.source {
        Some(s) => seq![RouteAttr::PrefSourceV4(s)],
        None => Seq::empty(),
    }) + (match route.metric {
        Some(m) => seq![RouteAttr::Priority(m)],
        None => Seq::empty(),
    }) + (match route.table {
        Some(t) => if t > 255 {
            seq![RouteAttr::Table(t)]
        } else {
            Seq::empty()
        },
        None => Seq::empty(),
    })
}

/// The attribute list of a built IPv6 route message, short of any
/// multipath attribute.
pub open spec fn spec_route_base_attrs_v6(route: Ipv6Route) -> Seq<RouteAttr> {
    seq![RouteAttr::DestinationV6(route.route.addr)] + (match route.if_id {
        Some(i) => if i != 0 {
            seq![RouteAttr::Oif(i)]
        } else {
            Seq::empty()
        },
        None => Seq::empty(),
    }) + (match route.gateway {
        Some(IpAddress::V6(a)) => seq![RouteAttr::GatewayV6(a)],
        Some(IpAddress::V4(a)) => seq![RouteAttr::ViaV4(a)],
        None => Seq::empty(),
    }) + (match route.source {
        Some(s) => seq![RouteAttr::PrefSourceV6(s)],
        None => Seq::empty(),
    }) + (match route.metric {
        Some(m) => seq![RouteAttr::Priority(m)],
        None => Seq::empty(),
    }) + (match route.table {
        Some(t) => if t > 255 {
            seq![RouteAttr::Table(t)]
        } else {
            Seq::empty()
        },
        None => Seq::empty(),
    })
}

/// The header table byte of a built route message: the table id when it
/// fits the byte, the main table (254) otherwise or when none is given.
pub open spec fn spec_built_header_table(table: Option<u32>) -> u8 {
    match table {
        Some(t) => if t <= 255 {
            (t as u8)
        } else {
            254u8
        },
        None => 254u8,
    }
}

/// Builds the wire message of an IPv4 route for add, replace or delete: a
/// unicast message in the main table unless a table is set, carrying the
/// base attributes and, when the route has next hops, one trailing
/// multipath attribute that supersedes the single gateway/interface
/// fields on the wire.
#[verifier::rlimit(80)]
pub fn build_ipv4_route_message(route: &Ipv4Route) -> (r: RouteMessageData)
    ensures
        r.family == FamilyTag::V4,
        r.dst_prefix_len == route.route.prefix_len,
        r.kind == RouteTypeTag::Unicast,
        r.table == spec_built_header_table(route.table),
        route.nexthops@.len() == 0 ==> r.attrs@ == spec_route_base_attrs_v4(*route),
        route.nexthops@.len() > 0 ==> (r.attrs@.len() == spec_route_base_attrs_v4(*route).len() + 1
            && r.attrs@.take(spec_route_base_attrs_v4(*route).len() as int)
            == spec_route_base_attrs_v4(*route) && (r.attrs@.last() matches RouteAttr::MultiPath(v)
            && v@.len() == route.nexthops@.len() && forall|i: int|
            0 <= i < route.nexthops@.len() ==> spec_is_built_hop_v4(
                route.nexthops@[i],
                #[trigger] v@[i],
            ))),
{
    let mut attrs: Vec<RouteAttr> = Vec::new();
    attrs.push(RouteAttr::DestinationV4(route.route.addr));
    if let Some(if_id) = route.if_id {
        if if_id != 0 {
            attrs.push(RouteAttr::Oif(if_id));
        }
    }
    match route.gateway {
        Some(IpAddress::V4(a)) => {
            attrs.push(RouteAttr::GatewayV4(a));
        },
        Some(IpAddress::V6(a)) => {
            attrs.push(RouteAttr::ViaV6(a));
        },
        None => {},
    }
    if let Some(src) = route.source {
        attrs.push(RouteAttr::PrefSourceV4(src));
    }
    if let Some(metric) = route.metric {
        attrs.push(RouteAttr::Priority(metric));
    }
    let mut header_table: u8 = 254;
    if let Some(t) = route.table {
        if t > 255 {
            attrs.push(RouteAttr::Table(t));
        } else {
            header_table = t as u8;
        }
    }
    proof {
        assert(attrs@ =~= spec_route_base_attrs_v4(*route));
    }
    if !route.nexthops.is_empty() {
        if let Some(multipath) = build_multipath_v4(&route.nexthops) {
            attrs.push(RouteAttr::MultiPath(multipath));
        }
    }
    RouteMessageData {
        family: FamilyTag::V4,
        dst_prefix_len: route.route.prefix_len,
        table: header_table,
        kind: RouteTypeTag::Unicast,
        attrs,
    }
}

/// Builds the wire message of an IPv6 route for add, replace or delete.
#[verifier::rlimit(80)]
pub fn build_ipv6_route_message(route: &Ipv6Route) -> (r: RouteMessageData)
    ensures
        r.family == FamilyTag::V6,
        r.dst_prefix_len == route.route.prefix_len,
        r.kind == RouteTypeTag::Unicast,
        r.table == spec_built_header_table(route.table),
        route.nexthops@.len() == 0 ==> r.attrs@ == spec_route_base_attrs_v6(*route),
        route.nexthops@.len() > 0 ==> (r.attrs@.len() == spec_route_base_attrs_v6(*route).len() + 1
            && r.attrs@.take(spec_route_base_attrs_v6(*route).len() as int)
            == spec_route_base_attrs_v6(*route) && (r.attrs@.last() matches RouteAttr::MultiPath(v)
            && v@.len() == route.nexthops@.len() && forall|i: int|
            0 <= i < route.nexthops@.len() ==> spec_is_built_hop_v6(
                route.nexthops@[i],
                #[trigger] v@[i],
            ))),
{
    let mut attrs: Vec<RouteAttr> = Vec::new();
    attrs.push(RouteAttr::DestinationV6(route.route.addr));
    if let Some(if_id) = route.if_id {
        if if_id != 0 {
            attrs.push(RouteAttr::Oif(if_id));
        }
    }
    match route.gateway {
        Some(IpAddress::V6(a)) => {
            attrs.push(RouteAttr::GatewayV6(a));
        },
        Some(IpAddress::V4(a)) => {
            attrs.push(RouteAttr::ViaV4(a));
        },
        None => {},
    }
    if let Some(src) = route.source {
        attrs.push(RouteAttr::PrefSourceV6(src));
    }
    if let Some(metric) = route.metric {
        attrs.push(RouteAttr::Priority(metric));
    }
    let mut header_table: u8 = 254;
    if let Some(t) = route.table {
        if t > 255 {
            attrs.push(RouteAttr::Table(t));
        } else {
            header_table = t as u8;
        }
    }
    proof {
        assert(attrs@ =~= spec_route_base_attrs_v6(*route));
    }
    if !route.nexthops.is_empty() {
        if let Some(multipath) = build_multipath_v6(&route.nexthops) {
            attrs.push(RouteAttr::MultiPath(multipath));
        }
    }
    RouteMessageData {
        family: FamilyTag::V6,
        dst_prefix_len: route.route.prefix_len,
        table: header_table,
        kind: RouteTypeTag::Unicast,
        attrs,
    }
}

/// Builds the bare IPv4 lookup message of a get request: the family, the
/// prefix length, and the optional destination attribute, with every
/// header field left unspecified.
pub fn build_route_message_v4(destination: Option<Ipv4Address>, prefix_len: u8) -> (r:
    RouteMessageData)
    ensures
        r.family == FamilyTag::V4,
        r.dst_prefix_len == prefix_len,
        r.table == 0,
        r.kind == RouteTypeTag::Unspec,
        r.attrs@ == (match destination {
            Some(a) => seq![RouteAttr::DestinationV4(a)],
            None => Seq::<RouteAttr>::empty(),
        }),
{
    let mut attrs: Vec<RouteAttr> = Vec::new();
    if let Some(a) = destination {
        attrs.push(RouteAttr::DestinationV4(a));
    }
    proof {
        assert(attrs@ =~= (match destination {
            Some(a) => seq![RouteAttr::DestinationV4(a)],
            None => Seq::<RouteAttr>::empty(),
        }));
    }
    RouteMessageData {
        family: FamilyTag::V4,
        dst_prefix_len: prefix_len,
        table: 0,
        kind: RouteTypeTag::Unspec,
        attrs,
    }
}

/// Builds the bare IPv6 lookup message of a get request.
pub fn build_route_message_v6(destination: Option<Ipv6Address>, prefix_len: u8) -> (r:
    RouteMessageData)
    ensures
        r.family == FamilyTag::V6,
        r.dst_prefix_len == prefix_len,
        r.table == 0,
        r.kind == RouteTypeTag::Unspec,
        r.attrs@ == (match destination {
            Some(a) => seq![RouteAttr::DestinationV6(a)],
            None => Seq::<RouteAttr>::empty(),
        }),
{
    let mut attrs: Vec<RouteAttr> = Vec::new();
    if let Some(a) = destination {
        attrs.push(RouteAttr::DestinationV6(a));
    }
    proof {
        assert(attrs@ =~= (match destination {
            Some(a) => seq![RouteAttr::DestinationV6(a)],
            None => Seq::<RouteAttr>::empty(),
        }));
    }
    RouteMessageData {
        family: FamilyTag::V6,
        dst_prefix_len: prefix_len,
        table: 0,
        kind: RouteTypeTag::Unspec,
        attrs,
    }
}

/// What an IPv4 get request asks of a decoded route: that its prefix
/// contains the queried address, or that its prefix equals the queried
/// prefix exactly.
#[derive(Clone, Copy, PartialEq, Eq, Structural, Debug)]
pub enum RouteQueryV4 {
    ByAddress(Ipv4Address),
    ByPrefix(Ipv4Prefix),
}

/// What an IPv6 get request asks of a decoded route.
#[derive(Clone, Copy, PartialEq, Eq, Structural, Debug)]
pub enum RouteQueryV6 {
    ByAddress(Ipv6Address),
    ByPrefix(Ipv6Prefix),
}

/// The destination prefix an IPv4 route message decodes to.
pub open spec fn spec_decoded_prefix_v4(msg: RouteMessageData) -> Ipv4Prefix {
    Ipv4Prefix { addr: spec_dest_or_zero_v4(msg.attrs@), prefix_len: msg.dst_prefix_len }
}

/// The destination prefix an IPv6 route message decodes to.
pub open spec fn spec_decoded_prefix_v6(msg: RouteMessageData) -> Ipv6Prefix {
    Ipv6Prefix { addr: spec_dest_or_zero_v6(msg.attrs@), prefix_len: msg.dst_prefix_len }
}

/// Whether a reply message satisfies an IPv4 get: kernel entries of type
/// local or broadcast are excluded, the message must decode, and its
/// prefix must contain the queried address (the kernel may return a
/// looser match) or equal the queried prefix exactly.
pub open spec fn spec_msg_matches_query_v4(msg: RouteMessageData, q: RouteQueryV4) -> bool {
    &&& msg.kind != RouteTypeTag::Local
    &&& msg.kind != RouteTypeTag::Broadcast
    &&& spec_decodes_v4(msg)
    &&& match q {
        RouteQueryV4::ByAddress(a) => spec_decoded_prefix_v4(msg).spec_contains(a),
        RouteQueryV4::ByPrefix(p) => spec_decoded_prefix_v4(msg) == p,
    }
}

/// Whether a reply message satisfies an IPv6 get.
pub open spec fn spec_msg_matches_query_v6(msg: RouteMessageData, q: RouteQueryV6) -> bool {
    &&& msg.kind != RouteTypeTag::Local
    &&& msg.kind != RouteTypeTag::Broadcast
    &&& spec_decodes_v6(msg)
    &&& match q {
        RouteQueryV6::ByAddress(a) => spec_decoded_prefix_v6(msg).spec_contains(a),
        RouteQueryV6::ByPrefix(p) => spec_decoded_prefix_v6(msg) == p,
    }
}

/// The first reply message that satisfies an IPv4 get, in reply order.
pub open spec fn spec_first_match_v4(msgs: Seq<RouteMessageData>, q: RouteQueryV4) -> Option<
    RouteMessageData,
>
    decreases msgs.len(),
{
    if msgs.len() == 0 {
        None
    } else if spec_msg_matches_query_v4(msgs[0], q) {
        Some(msgs[0])
    } else {
        spec_first_match_v4(msgs.skip(1), q)
    }
}

/// The first reply message that satisfies an IPv6 get, in reply order.
pub open spec fn spec_first_match_v6(msgs: Seq<RouteMessageData>, q: RouteQueryV6) -> Option<
    RouteMessageData,
>
    decreases msgs.len(),
{
    if msgs.len() == 0 {
        None
    } else if spec_msg_matches_query_v6(msgs[0], q) {
        Some(msgs[0])
    } else {
        spec_first_match_v6(msgs.skip(1), q)
    }
}

/// Answers an IPv4 get from the collected replies: the first matching
/// message decodes to the answer; with no match the result is a failure
/// when the reply stream broke off, and not-found otherwise.
pub fn route_get_response_v4(msgs: &Vec<RouteMessageData>, had_error: bool, query: RouteQueryV4)
    -> (r: RtnlRouteResponse)
    ensures
        match spec_first_match_v4(msgs@, query) {
            Some(m) => r matches RtnlRouteResponse::Ipv4Route(rt) && spec_is_decoded_v4(m, rt),
            None => r == (if had_error {
                RtnlRouteResponse::Failed
            } else {
                RtnlRouteResponse::NotFound
            }),
        },
{
    let mut i: usize = 0;
    proof {
        assert(msgs@.skip(0) =~= msgs@);
    }
    while i < msgs.len()
        invariant
            i <= msgs@.len(),
            spec_first_match_v4(msgs@, query) == spec_first_match_v4(msgs@.skip(i as int), query),
        decreases msgs@.len() - i,
    {
        proof {
            assert(msgs@.skip(i as int)[0] == msgs@[i as int]);
            assert(msgs@.skip(i as int).skip(1) =~= msgs@.skip(i + 1));
        }
        let msg = &msgs[i];
        let excluded = match msg.kind {
            RouteTypeTag::Local => true,
            RouteTypeTag::Broadcast => true,
            _ => false,
        };
        if !excluded {
            if let Some(route) = decode_ipv4_route(msg) {
                let is_match = match query {
                    RouteQueryV4::ByAddress(a) => route.route.contains(a),
                    RouteQueryV4::ByPrefix(p) => route.route == p,
                };
                if is_match {
                    return RtnlRouteResponse::Ipv4Route(route);
                }
            }
        }
        i = i + 1;
    }
    proof {
        assert(msgs@.skip(msgs@.len() as int) =~= Seq::<RouteMessageData>::empty());
    }
    if had_error {
        RtnlRouteResponse::Failed
    } else {
        RtnlRouteResponse::NotFound
    }
}

/// Answers an IPv6 get from the collected replies.
pub fn route_get_response_v6(msgs: &Vec<RouteMessageData>, had_error: bool, query: RouteQueryV6)
    -> (r: RtnlRouteResponse)
    ensures
        match spec_first_match_v6(msgs@, query) {
            Some(m) => r matches RtnlRouteResponse::Ipv6Route(rt) && spec_is_decoded_v6(m, rt),
            None => r == (if had_error {
                RtnlRouteResponse::Failed
            } else {
                RtnlRouteResponse::NotFound
            }),
        },
{
    let mut i: usize = 0;
    proof {
        assert(msgs@.skip(0) =~= msgs@);
    }
    while i < msgs.len()
        invariant
            i <= msgs@.len(),
            spec_first_match_v6(msgs@, query) == spec_first_match_v6(msgs@.skip(i as int), query),
        decreases msgs@.len() - i,
    {
        proof {
            assert(msgs@.skip(i as int)[0] == msgs@[i as int]);
            assert(msgs@.skip(i as int).skip(1) =~= msgs@.skip(i + 1));
        }
        let msg = &msgs[i];
        let excluded = match msg.kind {
            RouteTypeTag::Local => true,
            RouteTypeTag::Broadcast => true,
            _ => false,
        };
        if !excluded {
            if let Some(route) = decode_ipv6_route(msg) {
                let is_match = match query {
                    RouteQueryV6::ByAddress(a) => route.route.contains(a),
                    RouteQueryV6::ByPrefix(p) => route.route == p,
                };
                if is_match {
                    return RtnlRouteResponse::Ipv6Route(route);
                }
            }
        }
        i = i + 1;
    }
    proof {
        assert(msgs@.skip(msgs@.len() as int) =~= Seq::<RouteMessageData>::empty());
    }
    if had_error {
        RtnlRouteResponse::Failed
    } else {
        RtnlRouteResponse::NotFound
    }
}

/// The reply messages of a listing that decode as IPv4 routes, in order.
pub open spec fn spec_decodable_msgs_v4(msgs: Seq<RouteMessageData>) -> Seq<RouteMessageData>
    decreases msgs.len(),
{
    if msgs.len() == 0 {
        Seq::empty()
    } else {
        let rest = spec_decodable_msgs_v4(msgs.drop_last());
        if spec_decodes_v4(msgs.last()) {
            rest + seq![msgs.last()]
        } else {
            rest
        }
    }
}

/// The reply messages of a listing that decode as IPv6 routes, in order.
pub open spec fn spec_decodable_msgs_v6(msgs: Seq<RouteMessageData>) -> Seq<RouteMessageData>
    decreases msgs.len(),
{
    if msgs.len() == 0 {
        Seq::empty()
    } else {
        let rest = spec_decodable_msgs_v6(msgs.drop_last());
        if spec_decodes_v6(msgs.last()) {
            rest + seq![msgs.last()]
        } else {
            rest
        }
    }
}

/// Answers an IPv4 listing from the collected replies: every message that
/// decodes contributes its route, in reply order; a broken reply stream
/// is a failure.
pub fn route_list_response_v4(msgs: &Vec<RouteMessageData>, had_error: bool) -> (r:
    RtnlRouteResponse)
    ensures
        had_error ==> r == RtnlRouteResponse::Failed,
        !had_error ==> (r matches RtnlRouteResponse::Ipv4RouteList(v) && v@.len()
            == spec_decodable_msgs_v4(msgs@).len() && forall|i: int|
            0 <= i < v@.len() ==> spec_is_decoded_v4(
                spec_decodable_msgs_v4(msgs@)[i],
                #[trigger] v@[i],
            )),
{
    if had_error {
        return RtnlRouteResponse::Failed;
    }
    let mut out: Vec<Ipv4Route> = Vec::new();
    let mut i: usize = 0;
    proof {
        assert(msgs@.take(0) =~= Seq::<RouteMessageData>::empty());
    }
    while i < msgs.len()
        invariant
            i <= msgs@.len(),
            out@.len() == spec_decodable_msgs_v4(msgs@.take(i as int)).len(),
            forall|j: int|
                0 <= j < out@.len() ==> spec_is_decoded_v4(
                    spec_decodable_msgs_v4(msgs@.take(i as int))[j],
                    #[trigger] out@[j],
                ),
        decreases msgs@.len() - i,
    {
        proof {
            assert(msgs@.take(i + 1).drop_last() =~= msgs@.take(i as int));
            assert(msgs@.take(i + 1).last() == msgs@[i as int]);
        }
        if let Some(route) = decode_ipv4_route(&msgs[i]) {
            out.push(route);
        }
        i = i + 1;
    }
    proof {
        assert(msgs@.take(msgs@.len() as int) =~= msgs@);
    }
    RtnlRouteResponse::Ipv4RouteList(out)
}

/// Answers an IPv6 listing from the collected replies.
pub fn route_list_response_v6(msgs: &Vec<RouteMessageData>, had_error: bool) -> (r:
    RtnlRouteResponse)
    ensures
        had_error ==> r == RtnlRouteResponse::Failed,
        !had_error ==> (r matches RtnlRouteResponse::Ipv6RouteList(v) && v@.len()
            == spec_decodable_msgs_v6(msgs@).len() && forall|i: int|
            0 <= i < v@.len() ==> spec_is_decoded_v6(
                spec_decodable_msgs_v6(msgs@)[i],
                #[trigger] v@[i],
            )),
{
    if had_error {
        return RtnlRouteResponse::Failed;
    }
    let mut out: Vec<Ipv6Route> = Vec::new();
    let mut i: usize = 0;
    proof {
        assert(msgs@.take(0) =~= Seq::<RouteMessageData>::empty());
    }
    while i < msgs.len()
        invariant
            i <= msgs@.len(),
            out@.len() == spec_decodable_msgs_v6(msgs@.take(i as int)).len(),
            forall|j: int|
                0 <= j < out@.len() ==> spec_is_decoded_v6(
                    spec_decodable_msgs_v6(msgs@.take(i as int))[j],
                    #[trigger] out@[j],
                ),
        decreases msgs@.len() - i,
    {
        proof {
            assert(msgs@.take(i + 1).drop_last() =~= msgs@.take(i as int));
            assert(msgs@.take(i + 1).last() == msgs@[i as int]);
        }
        if let Some(route) = decode_ipv6_route(&msgs[i]) {
            out.push(route);
        }
        i = i + 1;
    }
    proof {
        assert(msgs@.take(msgs@.len() as int) =~= msgs@);
    }
    RtnlRouteResponse::Ipv6RouteList(out)
}

/// The response a route mutation outcome maps to: a kernel not-found
/// passes through; a conflict and every other rejection is a failure.
pub open spec fn spec_map_route_result(outcome: KernelOutcome) -> RtnlRouteResponse {
    match outcome {
        KernelOutcome::Accepted => RtnlRouteResponse::Success,
        KernelOutcome::NotFound => RtnlRouteResponse::NotFound,
        KernelOutcome::AlreadyExists => RtnlRouteResponse::Failed,
        KernelOutcome::AddressUnavailable => RtnlRouteResponse::Failed,
        KernelOutcome::OtherError => RtnlRouteResponse::Failed,
    }
}

/// Maps the categorized outcome of a route add, replace or delete to the
/// subsystem response.
pub fn map_route_result(outcome: KernelOutcome) -> (r: RtnlRouteResponse)
    ensures
        r == spec_map_route_result(outcome),
{
    match outcome {
        KernelOutcome::Accepted => RtnlRouteResponse::Success,
        KernelOutcome::NotFound => RtnlRouteResponse::NotFound,
        _ => RtnlRouteResponse::Failed,
    }
}

/// Route add is not idempotent: when the kernel signals a conflict for an
/// already-present destination, the response is a failure, never a
/// success.
pub proof fn lemma_route_add_conflict_fails()
    ensures
        spec_map_route_result(KernelOutcome::AlreadyExists) == RtnlRouteResponse::Failed,
        spec_map_route_result(KernelOutcome::AlreadyExists) != RtnlRouteResponse::Success,
{
}

/// Maps a status-only route response to the caller's result.
pub fn handle_route_status(op: &str, response: RtnlRouteResponse) -> (r: Result<(), RtnlError>)
    ensures
        match response {
            RtnlRouteResponse::Success => r is Ok,
            RtnlRouteResponse::NotFound => r matches Err(e) && e.kind == RtnlErrorKind::NotFound
                && e.op@ == op@,
            RtnlRouteResponse::Failed => r matches Err(e) && e.kind == RtnlErrorKind::Failed
                && e.op@ == op@,
            RtnlRouteResponse::NotImplemented => r matches Err(e) && e.kind
                == RtnlErrorKind::Unsupported && e.op@ == op@,
            _ => r matches Err(e) && e.kind == RtnlErrorKind::Unexpected && e.op@ == op@,
        },
{
    match response {
        RtnlRouteResponse::Success => Ok(()),
        RtnlRouteResponse::NotFound => Err(RtnlError::new(RtnlErrorKind::NotFound, op)),
        RtnlRouteResponse::Failed => Err(RtnlError::new(RtnlErrorKind::Failed, op)),
        RtnlRouteResponse::NotImplemented => Err(RtnlError::new(RtnlErrorKind::Unsupported, op)),
        _ => Err(RtnlError::new(RtnlErrorKind::Unexpected, op)),
    }
}

/// Maps an IPv4-route-carrying response to the caller's result.
pub fn interpret_ipv4_route_response(op: &str, response: RtnlRouteResponse) -> (r: Result<
    Ipv4Route,
    RtnlError,
>)
    ensures
        match response {
            RtnlRouteResponse::Ipv4Route(rt) => r == Ok::<Ipv4Route, RtnlError>(rt),
            RtnlRouteResponse::NotFound => r matches Err(e) && e.kind == RtnlErrorKind::NotFound
                && e.op@ == op@,
            RtnlRouteResponse::Failed => r matches Err(e) && e.kind == RtnlErrorKind::Failed
                && e.op@ == op@,
            RtnlRouteResponse::NotImplemented => r matches Err(e) && e.kind
                == RtnlErrorKind::Unsupported && e.op@ == op@,
            _ => r matches Err(e) && e.kind == RtnlErrorKind::Unexpected && e.op@ == op@,
        },
{
    match response {
        RtnlRouteResponse::Ipv4Route(rt) => Ok(rt),
        RtnlRouteResponse::NotFound => Err(RtnlError::new(RtnlErrorKind::NotFound, op)),
        RtnlRouteResponse::Failed => Err(RtnlError::new(RtnlErrorKind::Failed, op)),
        RtnlRouteResponse::NotImplemented => Err(RtnlError::new(RtnlErrorKind::Unsupported, op)),
        _ => Err(RtnlError::new(RtnlErrorKind::Unexpected, op)),
    }
}

/// Maps an IPv6-route-carrying response to the caller's result.
pub fn interpret_ipv6_route_response(op: &str, response: RtnlRouteResponse) -> (r: Result<
    Ipv6Route,
    RtnlError,
>)
    ensures
        match response {
            RtnlRouteResponse::Ipv6Route(rt) => r == Ok::<Ipv6Route, RtnlError>(rt),
            RtnlRouteResponse::NotFound => r matches Err(e) && e.kind == RtnlErrorKind::NotFound
                && e.op@ == op@,
            RtnlRouteResponse::Failed => r matches Err(e) && e.kind == RtnlErrorKind::Failed
                && e.op@ == op@,
            RtnlRouteResponse::NotImplemented => r matches Err(e) && e.kind
                == RtnlErrorKind::Unsupported && e.op@ == op@,
            _ => r matches Err(e) && e.kind == RtnlErrorKind::Unexpected && e.op@ == op@,
        },
{
    match response {
        RtnlRouteResponse::Ipv6Route(rt) => Ok(rt),
        RtnlRouteResponse::NotFound => Err(RtnlError::new(RtnlErrorKind::NotFound, op)),
        RtnlRouteResponse::Failed => Err(RtnlError::new(RtnlErrorKind::Failed, op)),
        RtnlRouteResponse::NotImplemented => Err(RtnlError::new(RtnlErrorKind::Unsupported, op)),
        _ => Err(RtnlError::new(RtnlErrorKind::Unexpected, op)),
    }
}

/// Maps an IPv4 listing response to the caller's result.
pub fn interpret_ipv4_route_list_response(op: &str, response: RtnlRouteResponse) -> (r: Result<
    Vec<Ipv4Route>,
    RtnlError,
>)
    ensures
        match response {
            RtnlRouteResponse::Ipv4RouteList(v) => r == Ok::<Vec<Ipv4Route>, RtnlError>(v),
            RtnlRouteResponse::NotFound => r matches Err(e) && e.kind == RtnlErrorKind::NotFound
                && e.op@ == op@,
            RtnlRouteResponse::Failed => r matches Err(e) && e.kind == RtnlErrorKind::Failed
                && e.op@ == op@,
            RtnlRouteResponse::NotImplemented => r matches Err(e) && e.kind
                == RtnlErrorKind::Unsupported && e.op@ == op@,
            _ => r matches Err(e) && e.kind == RtnlErrorKind::Unexpected && e.op@ == op@,
        },
{
    match response {
        RtnlRouteResponse::Ipv4RouteList(v) => Ok(v),
        RtnlRouteResponse::NotFound => Err(RtnlError::new(RtnlErrorKind::NotFound, op)),
        RtnlRouteResponse::Failed => Err(RtnlError::new(RtnlErrorKind::Failed, op)),
        RtnlRouteResponse::NotImplemented => Err(RtnlError::new(RtnlErrorKind::Unsupported, op)),
        _ => Err(RtnlError::new(RtnlErrorKind::Unexpected, op)),
    }
}

/// Maps an IPv6 listing response to the caller's result.
pub fn interpret_ipv6_route_list_response(op: &str, response: RtnlRouteResponse) -> (r: Result<
    Vec<Ipv6Route>,
    RtnlError,
>)
    ensures
        match response {
            RtnlRouteResponse::Ipv6RouteList(v) => r == Ok::<Vec<Ipv6Route>, RtnlError>(v),
            RtnlRouteResponse::NotFound => r matches Err(e) && e.kind == RtnlErrorKind::NotFound
                && e.op@ == op@,
            RtnlRouteResponse::Failed => r matches Err(e) && e.kind == RtnlErrorKind::Failed
                && e.op@ == op@,
            RtnlRouteResponse::NotImplemented => r matches Err(e) && e.kind
                == RtnlErrorKind::Unsupported && e.op@ == op@,
            _ => r matches Err(e) && e.kind == RtnlErrorKind::Unexpected && e.op@ == op@,
        },
{
    match response {
        RtnlRouteResponse::Ipv6RouteList(v) => Ok(v),
        RtnlRouteResponse::NotFound => Err(RtnlError::new(RtnlErrorKind::NotFound, op)),
        RtnlRouteResponse::Failed => Err(RtnlError::new(RtnlErrorKind::Failed, op)),
        RtnlRouteResponse::NotImplemented => Err(RtnlError::new(RtnlErrorKind::Unsupported, op)),
        _ => Err(RtnlError::new(RtnlErrorKind::Unexpected, op)),
    }
}

/// The synchronous client of the route subsystem.
#[derive(Clone, Debug)]
pub struct RtnlRouteClient {
    client: RequestSender<RtnlRouteRequest, RtnlRouteResponse>,
}

impl RtnlRouteClient {
    pub fn new(client: RequestSender<RtnlRouteRequest, RtnlRouteResponse>) -> Self {
        RtnlRouteClient { client }
    }

    pub fn ipv4_route_add(&self, route: Ipv4Route) -> (r: Result<(), RtnlError>)
        ensures
            r matches Err(e) ==> e.op@ == "IPv4 route add"@,
    {
        match send_request(&self.client, RtnlRouteRequest::Ipv4RouteAdd(route)) {
            None => Err(RtnlError::new(RtnlErrorKind::Disconnected, "IPv4 route add")),
            Some(res) => handle_route_status("IPv4 route add", res),
        }
    }

    pub fn ipv4_route_replace(&self, route: Ipv4Route) -> (r: Result<(), RtnlError>)
        ensures
            r matches Err(e) ==> e.op@ == "IPv4 route replace"@,
    {
        match send_request(&self.client, RtnlRouteRequest::Ipv4RouteReplace(route)) {
            None => Err(RtnlError::new(RtnlErrorKind::Disconnected, "IPv4 route replace")),
            Some(res) => handle_route_status("IPv4 route replace", res),
        }
    }

    pub fn ipv4_route_del(&self, route: Ipv4Route) -> (r: Result<(), RtnlError>)
        ensures
            r matches Err(e) ==> e.op@ == "IPv4 route delete"@,
    {
        match send_request(&self.client, RtnlRouteRequest::Ipv4RouteDel(route)) {
            None => Err(RtnlError::new(RtnlErrorKind::Disconnected, "IPv4 route delete")),
            Some(res) => handle_route_status("IPv4 route delete", res),
        }
    }

    pub fn ipv4_route_list(&self) -> (r: Result<Vec<Ipv4Route>, RtnlError>)
        ensures
            r matches Err(e) ==> e.op@ == "IPv4 route list"@,
    {
        match send_request(&self.client, RtnlRouteRequest::Ipv4RouteList) {
            None => Err(RtnlError::new(RtnlErrorKind::Disconnected, "IPv4 route list")),
            Some(res) => interpret_ipv4_route_list_response("IPv4 route list", res),
        }
    }

    pub fn ipv4_route_get(&self, destination: Ipv4Address) -> (r: Result<Ipv4Route, RtnlError>)
        ensures
            r matches Err(e) ==> e.op@ == "IPv4 route get"@,
    {
        match send_request(&self.client, RtnlRouteRequest::Ipv4RouteGet(destination)) {
            None => Err(RtnlError::new(RtnlErrorKind::Disconnected, "IPv4 route get")),
            Some(res) => interpret_ipv4_route_response("IPv4 route get", res),
        }
    }

    pub fn ipv4_route_get_by_prefix(&self, prefix: Ipv4Prefix) -> (r: Result<Ipv4Route, RtnlError>)
        ensures
            r matches Err(e) ==> e.op@ == "IPv4 route get by prefix"@,
    {
        match send_request(&self.client, RtnlRouteRequest::Ipv4RouteGetByPrefix(prefix)) {
            None => Err(RtnlError::new(RtnlErrorKind::Disconnected, "IPv4 route get by prefix")),
            Some(res) => interpret_ipv4_route_response("IPv4 route get by prefix", res),
        }
    }

    pub fn ipv6_route_add(&self, route: Ipv6Route) -> (r: Result<(), RtnlError>)
        ensures
            r matches Err(e) ==> e.op@ == "IPv6 route add"@,
    {
        match send_request(&self.client, RtnlRouteRequest::Ipv6RouteAdd(route)) {
            None => Err(RtnlError::new(RtnlErrorKind::Disconnected, "IPv6 route add")),
            Some(res) => handle_route_status("IPv6 route add", res),
        }
    }

    pub fn ipv6_route_replace(&self, route: Ipv6Route) -> (r: Result<(), RtnlError>)
        ensures
            r matches Err(e) ==> e.op@ == "IPv6 route replace"@,
    {
        match send_request(&self.client, RtnlRouteRequest::Ipv6RouteReplace(route)) {
            None => Err(RtnlError::new(RtnlErrorKind::Disconnected, "IPv6 route replace")),
            Some(res) => handle_route_status("IPv6 route replace", res),
        }
    }

    pub fn ipv6_route_del(&self, route: Ipv6Route) -> (r: Result<(), RtnlError>)
        ensures
            r matches Err(e) ==> e.op@ == "IPv6 route delete"@,
    {
        match send_request(&self.client, RtnlRouteRequest::Ipv6RouteDel(route)) {
            None => Err(RtnlError::new(RtnlErrorKind::Disconnected, "IPv6 route delete")),
            Some(res) => handle_route_status("IPv6 route delete", res),
        }
    }

    pub fn ipv6_route_list(&self) -> (r: Result<Vec<Ipv6Route>, RtnlError>)
        ensures
            r matches Err(e) ==> e.op@ == "IPv6 route list"@,
    {
        match send_request(&self.client, RtnlRouteRequest::Ipv6RouteList) {
            None => Err(RtnlError::new(RtnlErrorKind::Disconnected, "IPv6 route list")),
            Some(res) => interpret_ipv6_route_list_response("IPv6 route list", res),
        }
    }

    pub fn ipv6_route_get(&self, destination: Ipv6Address) -> (r: Result<Ipv6Route, RtnlError>)
        ensures
            r matches Err(e) ==> e.op@ == "IPv6 route get"@,
    {
        match send_request(&self.client, RtnlRouteRequest::Ipv6RouteGet(destination)) {
            None => Err(RtnlError::new(RtnlErrorKind::Disconnected, "IPv6 route get")),
            Some(res) => interpret_ipv6_route_response("IPv6 route get", res),
        }
    }

    pub fn ipv6_route_get_by_prefix(&self, prefix: Ipv6Prefix) -> (r: Result<Ipv6Route, RtnlError>)
        ensures
            r matches Err(e) ==> e.op@ == "IPv6 route get by prefix"@,
    {
        match send_request(&self.client, RtnlRouteRequest::Ipv6RouteGetByPrefix(prefix)) {
            None => Err(RtnlError::new(RtnlErrorKind::Disconnected, "IPv6 route get by prefix")),
            Some(res) => interpret_ipv6_route_response("IPv6 route get by prefix", res),
        }
    }
}

} // verus!
