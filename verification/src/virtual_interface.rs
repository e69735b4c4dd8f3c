//! The virtual-interface subsystem: creation, reconfiguration and removal
//! of tunnel (GRE, GRE-tap, IPv6 GRE, IP-in-IP, IPv6 tunnel) and VLAN
//! interfaces, with hand-encoded attribute payloads for the tunnel kinds.

use vstd::prelude::*;

use crate::channel::{send_request, RequestSender};
use crate::errors::{RtnlError, RtnlErrorKind};
use crate::link::{spec_first_nonzero_index, LinkMessageData};
use crate::nla::{
    byte_vec, encode_nlas, spec_encode_nlas, spec_nlas_encodable, spec_u32_be, spec_u32_le,
    u32_be_octets, u32_le_octets, NlaModel, RawNla,
};
use crate::types::{Ipv4Address, Ipv6Address};
use crate::wire::KernelOutcome;

verus! {

pub const IFLA_GRE_LINK: u16 = 1;

pub const IFLA_GRE_IKEY: u16 = 4;

pub const IFLA_GRE_OKEY: u16 = 5;

pub const IFLA_GRE_LOCAL: u16 = 6;

pub const IFLA_GRE_REMOTE: u16 = 7;

pub const IFLA_GRE_TTL: u16 = 8;

pub const IFLA_GRE_TOS: u16 = 9;

pub const IFLA_GRE_PMTUDISC: u16 = 10;

pub const IFLA_GRE_ENCAP_LIMIT: u16 = 11;

pub const IFLA_GRE_IGNORE_DF: u16 = 19;

pub const IFLA_IPTUN_LINK: u16 = 1;

pub const IFLA_IPTUN_LOCAL: u16 = 2;

pub const IFLA_IPTUN_REMOTE: u16 = 3;

pub const IFLA_IPTUN_TTL: u16 = 4;

pub const IFLA_IPTUN_TOS: u16 = 5;

pub const IFLA_IPTUN_ENCAP_LIMIT: u16 = 6;

pub const IFLA_IPTUN_FLOWINFO: u16 = 7;

pub const IFLA_IPTUN_PMTUDISC: u16 = 10;

/// Configuration of a GRE or GRE-tap tunnel over IPv4.
#[derive(Clone, Copy, PartialEq, Eq, Structural, Debug)]
pub struct GreConfig {
    pub local: Ipv4Address,
    pub remote: Ipv4Address,
    pub ttl: Option<u8>,
    pub tos: Option<u8>,
    pub key: Option<u32>,
    pub encap_limit: Option<u8>,
    pub pmtudisc: bool,
    pub ignore_df: bool,
    pub link: Option<u32>,
}

/// Configuration of a GRE or GRE-tap tunnel over IPv6.
#[derive(Clone, Copy, PartialEq, Eq, Structural, Debug)]
pub struct Gre6Config {
    pub local: Ipv6Address,
    pub remote: Ipv6Address,
    pub hop_limit: Option<u8>,
    pub traffic_class: Option<u8>,
    pub key: Option<u32>,
    pub encap_limit: Option<u8>,
    pub pmtudisc: bool,
    pub ignore_df: bool,
    pub link: Option<u32>,
}

/// Configuration of an IP-in-IP tunnel.
#[derive(Clone, Copy, PartialEq, Eq, Structural, Debug)]
pub struct IpIpConfig {
    pub local: Ipv4Address,
    pub remote: Ipv4Address,
    pub ttl: Option<u8>,
    pub tos: Option<u8>,
    pub encap_limit: Option<u8>,
    pub pmtudisc: bool,
    pub link: Option<u32>,
}

/// Configuration of an IPv6 tunnel.
#[derive(Clone, Copy, PartialEq, Eq, Structural, Debug)]
pub struct Ip6TnlConfig {
    pub local: Ipv6Address,
    pub remote: Ipv6Address,
    pub hop_limit: Option<u8>,
    pub traffic_class: Option<u8>,
    pub flow_label: Option<u32>,
    pub encap_limit: Option<u8>,
    pub pmtudisc: bool,
    pub link: Option<u32>,
}

/// Configuration of a VLAN interface: a base interface and a VLAN id, both
/// required for creation.
#[derive(Clone, Copy, PartialEq, Eq, Structural, Debug)]
pub struct VlanConfig {
    pub base_ifindex: Option<u32>,
    pub vlan_id: Option<u16>,
}

/// The kind of a virtual interface together with its configuration.
#[derive(Clone, Copy, PartialEq, Eq, Structural, Debug)]
pub enum VirtualInterfaceKind {
    Gre(GreConfig),
    Gretap(GreConfig),
    Ip6Gre(Gre6Config),
    Ip6Gretap(Gre6Config),
    IpIp(IpIpConfig),
    Ip6Tnl(Ip6TnlConfig),
    Vlan(VlanConfig),
}

/// A request to create a virtual interface under a name, with its initial
/// administrative state.
#[derive(Clone, PartialEq, Debug)]
pub struct VirtualInterfaceSpec {
    pub name: String,
    pub kind: VirtualInterfaceKind,
    pub admin_up: bool,
}

/// A request to reconfigure a virtual interface by index: an optional
/// rename, an optional administrative-state change, and a refresh of the
/// kind-specific parameters.
#[derive(Clone, PartialEq, Debug)]
pub struct VirtualInterfaceUpdate {
    pub if_id: u32,
    pub new_name: Option<String>,
    pub kind: VirtualInterfaceKind,
    pub admin_up: Option<bool>,
}

/// A request to remove a virtual interface, by index or by name.
#[derive(Clone, PartialEq, Debug)]
pub enum VirtualInterfaceDelete {
    ByIndex(u32),
    ByName(String),
}

/// The closed request vocabulary of the virtual-interface subsystem.
#[derive(Clone, PartialEq, Debug)]
#[non_exhaustive]
pub enum RtnlVirtualInterfaceRequest {
    Create(VirtualInterfaceSpec),
    Configure(VirtualInterfaceUpdate),
    Delete(VirtualInterfaceDelete),
    GetIndexByName(String),
}

/// The closed response vocabulary of the virtual-interface subsystem.
#[derive(Clone, Copy, PartialEq, Eq, Structural, Debug)]
#[non_exhaustive]
pub enum RtnlVirtualInterfaceResponse {
    Success,
    Failed,
    NotFound,
    Index(u32),
}

/// The kernel "info kind" tag a virtual-interface kind maps to. The IPv6
/// tunnel kind is named by the string "ip6tnl" on the wire.
#[derive(Clone, Copy, PartialEq, Eq, Structural, Debug)]
pub enum InfoKindTag {
    GreTun,
    GreTap,
    GreTun6,
    GreTap6,
    IpTun,
    Ip6Tnl,
    Vlan,
}

/// The fixed info-kind tag of each virtual-interface kind.
pub open spec fn spec_info_kind(kind: VirtualInterfaceKind) -> InfoKindTag {
    match kind {
        VirtualInterfaceKind::Gre(_) => InfoKindTag::GreTun,
        VirtualInterfaceKind::Gretap(_) => InfoKindTag::GreTap,
        VirtualInterfaceKind::Ip6Gre(_) => InfoKindTag::GreTun6,
        VirtualInterfaceKind::Ip6Gretap(_) => InfoKindTag::GreTap6,
        VirtualInterfaceKind::IpIp(_) => InfoKindTag::IpTun,
        VirtualInterfaceKind::Ip6Tnl(_) => InfoKindTag::Ip6Tnl,
        VirtualInterfaceKind::Vlan(_) => InfoKindTag::Vlan,
    }
}

/// Maps a virtual-interface kind to its kernel info-kind tag.
pub fn virtual_interface_kind_to_info_kind(kind: &VirtualInterfaceKind) -> (r: InfoKindTag)
    ensures
        r == spec_info_kind(*kind),
{
    match kind {
        VirtualInterfaceKind::Gre(_) => InfoKindTag::GreTun,
        VirtualInterfaceKind::Gretap(_) => InfoKindTag::GreTap,
        VirtualInterfaceKind::Ip6Gre(_) => InfoKindTag::GreTun6,
        VirtualInterfaceKind::Ip6Gretap(_) => InfoKindTag::GreTap6,
        VirtualInterfaceKind::IpIp(_) => InfoKindTag::IpTun,
        VirtualInterfaceKind::Ip6Tnl(_) => InfoKindTag::Ip6Tnl,
        VirtualInterfaceKind::Vlan(_) => InfoKindTag::Vlan,
    }
}

/// The underlying link an interface kind is bound to, when one is set.
pub open spec fn spec_virtual_interface_link(kind: VirtualInterfaceKind) -> Option<u32> {
    match kind {
        VirtualInterfaceKind::Gre(cfg) => cfg.link,
        VirtualInterfaceKind::Gretap(cfg) => cfg.link,
        VirtualInterfaceKind::Ip6Gre(cfg) => cfg.link,
        VirtualInterfaceKind::Ip6Gretap(cfg) => cfg.link,
        VirtualInterfaceKind::IpIp(cfg) => cfg.link,
        VirtualInterfaceKind::Ip6Tnl(cfg) => cfg.link,
        VirtualInterfaceKind::Vlan(cfg) => cfg.base_ifindex,
    }
}

/// Reads the optional underlying link of a kind.
pub fn virtual_interface_link(kind: &VirtualInterfaceKind) -> (r: Option<u32>)
    ensures
        r == spec_virtual_interface_link(*kind),
{
    match kind {
        VirtualInterfaceKind::Gre(cfg) | VirtualInterfaceKind::Gretap(cfg) => cfg.link,
        VirtualInterfaceKind::Ip6Gre(cfg) | VirtualInterfaceKind::Ip6Gretap(cfg) => cfg.link,
        VirtualInterfaceKind::IpIp(cfg) => cfg.link,
        VirtualInterfaceKind::Ip6Tnl(cfg) => cfg.link,
        VirtualInterfaceKind::Vlan(cfg) => cfg.base_ifindex,
    }
}

/// An optional one-byte attribute.
pub open spec fn spec_opt_byte_nla(kind: u16, v: Option<u8>) -> Seq<NlaModel> {
    match v {
        Some(b) => seq![NlaModel { kind, value: seq![b] }],
        None => Seq::empty(),
    }
}

/// The in/out key pair attributes, both carrying the key in network order.
pub open spec fn spec_key_nlas(ikey: u16, okey: u16, v: Option<u32>) -> Seq<NlaModel> {
    match v {
        Some(k) => seq![
            NlaModel { kind: ikey, value: spec_u32_be(k) },
            NlaModel { kind: okey, value: spec_u32_be(k) },
        ],
        None => Seq::empty(),
    }
}

/// An optional native-order 32-bit link attribute.
pub open spec fn spec_opt_link_nla(kind: u16, v: Option<u32>) -> Seq<NlaModel> {
    match v {
        Some(l) => seq![NlaModel { kind, value: spec_u32_le(l) }],
        None => Seq::empty(),
    }
}

/// A one-byte flag attribute: 1 for set, 0 for clear.
pub open spec fn spec_flag_nla(kind: u16, v: bool) -> NlaModel {
    NlaModel { kind, value: seq![if v { 1u8 } else { 0u8 }] }
}

/// The encapsulation-limit attribute; an unset limit defaults to 255.
pub open spec fn spec_encap_nla(kind: u16, v: Option<u8>) -> NlaModel {
    NlaModel {
        kind,
        value: seq![
            match v {
                Some(l) => l,
                None => 0xffu8,
            },
        ],
    }
}

/// The attribute list of a GRE (or GRE-tap) tunnel over IPv4: endpoints,
/// then the optional TTL, ToS and key pair, then the encapsulation limit
/// (default 255), the path-MTU-discovery flag, the ignore-don't-fragment
/// flag, and the optional underlying link.
pub open spec fn spec_gre_nlas(cfg: GreConfig) -> Seq<NlaModel> {
    seq![
        NlaModel { kind: IFLA_GRE_LOCAL, value: cfg.local.spec_octets() },
        NlaModel { kind: IFLA_GRE_REMOTE, value: cfg.remote.spec_octets() },
    ] + spec_opt_byte_nla(IFLA_GRE_TTL, cfg.ttl) + spec_opt_byte_nla(IFLA_GRE_TOS, cfg.tos)
        + spec_key_nlas(IFLA_GRE_IKEY, IFLA_GRE_OKEY, cfg.key) + seq![
        spec_encap_nla(IFLA_GRE_ENCAP_LIMIT, cfg.encap_limit),
        spec_flag_nla(IFLA_GRE_PMTUDISC, cfg.pmtudisc),
        spec_flag_nla(IFLA_GRE_IGNORE_DF, cfg.ignore_df),
    ] + spec_opt_link_nla(IFLA_GRE_LINK, cfg.link)
}

/// The attribute list of a GRE (or GRE-tap) tunnel over IPv6, laid out as
/// the IPv4 variant with hop limit and traffic class in the TTL and ToS
/// slots.
pub open spec fn spec_gre6_nlas(cfg: Gre6Config) -> Seq<NlaModel> {
    seq![
        NlaModel { kind: IFLA_GRE_LOCAL, value: cfg.local.spec_octets() },
        NlaModel { kind: IFLA_GRE_REMOTE, value: cfg.remote.spec_octets() },
    ] + spec_opt_byte_nla(IFLA_GRE_TTL, cfg.hop_limit) + spec_opt_byte_nla(
        IFLA_GRE_TOS,
        cfg.traffic_class,
    ) + spec_key_nlas(IFLA_GRE_IKEY, IFLA_GRE_OKEY, cfg.key) + seq![
        spec_encap_nla(IFLA_GRE_ENCAP_LIMIT, cfg.encap_limit),
        spec_flag_nla(IFLA_GRE_PMTUDISC, cfg.pmtudisc),
        spec_flag_nla(IFLA_GRE_IGNORE_DF, cfg.ignore_df),
    ] + spec_opt_link_nla(IFLA_GRE_LINK, cfg.link)
}

/// The attribute list of an IP-in-IP tunnel: endpoints, optional TTL and
/// ToS, encapsulation limit (default 255), path-MTU-discovery flag, and
/// the optional underlying link.
pub open spec fn spec_iptunnel_v4_nlas(cfg: IpIpConfig) -> Seq<NlaModel> {
    seq![
        NlaModel { kind: IFLA_IPTUN_LOCAL, value: cfg.local.spec_octets() },
        NlaModel { kind: IFLA_IPTUN_REMOTE, value: cfg.remote.spec_octets() },
    ] + spec_opt_byte_nla(IFLA_IPTUN_TTL, cfg.ttl) + spec_opt_byte_nla(IFLA_IPTUN_TOS, cfg.tos)
        + seq![
        spec_encap_nla(IFLA_IPTUN_ENCAP_LIMIT, cfg.encap_limit),
        spec_flag_nla(IFLA_IPTUN_PMTUDISC, cfg.pmtudisc),
    ] + spec_opt_link_nla(IFLA_IPTUN_LINK, cfg.link)
}

/// The attribute list of an IPv6 tunnel: endpoints, optional hop limit and
/// traffic class, optional network-order flow label, encapsulation limit
/// (default 255), path-MTU-discovery flag, and the optional underlying
/// link.
pub open spec fn spec_iptunnel_v6_nlas(cfg: Ip6TnlConfig) -> Seq<NlaModel> {
    seq![
        NlaModel { kind: IFLA_IPTUN_LOCAL, value: cfg.local.spec_octets() },
        NlaModel { kind: IFLA_IPTUN_REMOTE, value: cfg.remote.spec_octets() },
    ] + spec_opt_byte_nla(IFLA_IPTUN_TTL, cfg.hop_limit) + spec_opt_byte_nla(
        IFLA_IPTUN_TOS,
        cfg.traffic_class,
    ) + (match cfg.flow_label {
        Some(f) => seq![NlaModel { kind: IFLA_IPTUN_FLOWINFO, value: spec_u32_be(f) }],
        None => Seq::empty(),
    }) + seq![
        spec_encap_nla(IFLA_IPTUN_ENCAP_LIMIT, cfg.encap_limit),
        spec_flag_nla(IFLA_IPTUN_PMTUDISC, cfg.pmtudisc),
    ] + spec_opt_link_nla(IFLA_IPTUN_LINK, cfg.link)
}

/// Builds the GRE attribute list for an IPv4 configuration.
#[verifier::rlimit(80)]
pub fn gre_nlas(cfg: &GreConfig) -> (r: Vec<RawNla>)
    ensures
        r.deep_view() == spec_gre_nlas(*cfg),
        spec_nlas_encodable(r.deep_view()),
{
    let mut nlas: Vec<RawNla> = Vec::new();
    nlas.push(RawNla::new(IFLA_GRE_LOCAL, cfg.local.octets()));
    nlas.push(RawNla::new(IFLA_GRE_REMOTE, cfg.remote.octets()));
    if let Some(ttl) = cfg.ttl {
        nlas.push(RawNla::new(IFLA_GRE_TTL, byte_vec(ttl)));
    }
    if let Some(tos) = cfg.tos {
        nlas.push(RawNla::new(IFLA_GRE_TOS, byte_vec(tos)));
    }
    if let Some(key) = cfg.key {
        nlas.push(RawNla::new(IFLA_GRE_IKEY, u32_be_octets(key)));
        nlas.push(RawNla::new(IFLA_GRE_OKEY, u32_be_octets(key)));
    }
    let limit = match cfg.encap_limit {
        Some(l) => l,
        None => 0xff,
    };
    nlas.push(RawNla::new(IFLA_GRE_ENCAP_LIMIT, byte_vec(limit)));
    nlas.push(RawNla::new(IFLA_GRE_PMTUDISC, byte_vec(if cfg.pmtudisc { 1 } else { 0 })));
    nlas.push(RawNla::new(IFLA_GRE_IGNORE_DF, byte_vec(if cfg.ignore_df { 1 } else { 0 })));
    if let Some(link) = cfg.link {
        nlas.push(RawNla::new(IFLA_GRE_LINK, u32_le_octets(link)));
    }
    proof {
        assert(nlas.deep_view() =~= spec_gre_nlas(*cfg));
    }
    nlas
}

/// Builds the GRE attribute list for an IPv6 configuration.
#[verifier::rlimit(80)]
pub fn gre6_nlas(cfg: &Gre6Config) -> (r: Vec<RawNla>)
    ensures
        r.deep_view() == spec_gre6_nlas(*cfg),
        spec_nlas_encodable(r.deep_view()),
{
    let mut nlas: Vec<RawNla> = Vec::new();
    nlas.push(RawNla::new(IFLA_GRE_LOCAL, cfg.local.octets()));
    nlas.push(RawNla::new(IFLA_GRE_REMOTE, cfg.remote.octets()));
    if let Some(hop) = cfg.hop_limit {
        nlas.push(RawNla::new(IFLA_GRE_TTL, byte_vec(hop)));
    }
    if let Some(tc) = cfg.traffic_class {
        nlas.push(RawNla::new(IFLA_GRE_TOS, byte_vec(tc)));
    }
    if let Some(key) = cfg.key {
        nlas.push(RawNla::new(IFLA_GRE_IKEY, u32_be_octets(key)));
        nlas.push(RawNla::new(IFLA_GRE_OKEY, u32_be_octets(key)));
    }
    let limit = match cfg.encap_limit {
        Some(l) => l,
        None => 0xff,
    };
    nlas.push(RawNla::new(IFLA_GRE_ENCAP_LIMIT, byte_vec(limit)));
    nlas.push(RawNla::new(IFLA_GRE_PMTUDISC, byte_vec(if cfg.pmtudisc { 1 } else { 0 })));
    nlas.push(RawNla::new(IFLA_GRE_IGNORE_DF, byte_vec(if cfg.ignore_df { 1 } else { 0 })));
    if let Some(link) = cfg.link {
        nlas.push(RawNla::new(IFLA_GRE_LINK, u32_le_octets(link)));
    }
    proof {
        assert(nlas.deep_view() =~= spec_gre6_nlas(*cfg));
    }
    nlas
}

/// Builds the tunnel attribute list for an IP-in-IP configuration.
pub fn iptunnel_v4_nlas(cfg: &IpIpConfig) -> (r: Vec<RawNla>)
    ensures
        r.deep_view() == spec_iptunnel_v4_nlas(*cfg),
        spec_nlas_encodable(r.deep_view()),
{
    let mut nlas: Vec<RawNla> = Vec::new();
    nlas.push(RawNla::new(IFLA_IPTUN_LOCAL, cfg.local.octets()));
    nlas.push(RawNla::new(IFLA_IPTUN_REMOTE, cfg.remote.octets()));
    if let Some(ttl) = cfg.ttl {
        nlas.push(RawNla::new(IFLA_IPTUN_TTL, byte_vec(ttl)));
    }
    if let Some(tos) = cfg.tos {
        nlas.push(RawNla::new(IFLA_IPTUN_TOS, byte_vec(tos)));
    }
    let limit = match cfg.encap_limit {
        Some(l) => l,
        None => 0xff,
    };
    nlas.push(RawNla::new(IFLA_IPTUN_ENCAP_LIMIT, byte_vec(limit)));
    nlas.push(RawNla::new(IFLA_IPTUN_PMTUDISC, byte_vec(if cfg.pmtudisc { 1 } else { 0 })));
    if let Some(link) = cfg.link {
        nlas.push(RawNla::new(IFLA_IPTUN_LINK, u32_le_octets(link)));
    }
    proof {
        assert(nlas.deep_view() =~= spec_iptunnel_v4_nlas(*cfg));
    }
    nlas
}

/// Builds the tunnel attribute list for an IPv6 tunnel configuration.
pub fn iptunnel_v6_nlas(cfg: &Ip6TnlConfig) -> (r: Vec<RawNla>)
    ensures
        r.deep_view() == spec_iptunnel_v6_nlas(*cfg),
        spec_nlas_encodable(r.deep_view()),
{
    let mut nlas: Vec<RawNla> = Vec::new();
    nlas.push(RawNla::new(IFLA_IPTUN_LOCAL, cfg.local.octets()));
    nlas.push(RawNla::new(IFLA_IPTUN_REMOTE, cfg.remote.octets()));
    if let Some(hop) = cfg.hop_limit {
        nlas.push(RawNla::new(IFLA_IPTUN_TTL, byte_vec(hop)));
    }
    if let Some(tc) = cfg.traffic_class {
        nlas.push(RawNla::new(IFLA_IPTUN_TOS, byte_vec(tc)));
    }
    if let Some(flow) = cfg.flow_label {
        nlas.push(RawNla::new(IFLA_IPTUN_FLOWINFO, u32_be_octets(flow)));
    }
    let limit = match cfg.encap_limit {
        Some(l) => l,
        None => 0xff,
    };
    nlas.push(RawNla::new(IFLA_IPTUN_ENCAP_LIMIT, byte_vec(limit)));
    nlas.push(RawNla::new(IFLA_IPTUN_PMTUDISC, byte_vec(if cfg.pmtudisc { 1 } else { 0 })));
    if let Some(link) = cfg.link {
        nlas.push(RawNla::new(IFLA_IPTUN_LINK, u32_le_octets(link)));
    }
    proof {
        assert(nlas.deep_view() =~= spec_iptunnel_v6_nlas(*cfg));
    }
    nlas
}

/// The kind-specific payload of a virtual-interface message: tunnel
/// attribute lists for the GRE kinds, pre-encoded raw bytes for the
/// IP-tunnel kinds, and the optional id for VLAN.
#[derive(Clone, PartialEq, Debug)]
pub enum InfoPayload {
    GreTun(Vec<RawNla>),
    GreTap(Vec<RawNla>),
    GreTun6(Vec<RawNla>),
    GreTap6(Vec<RawNla>),
    Raw(Vec<u8>),
    Vlan(Option<u16>),
}

/// Whether a creation request is rejected for lacking a VLAN base
/// interface.
pub open spec fn spec_vlan_missing_base(kind: VirtualInterfaceKind) -> bool {
    kind matches VirtualInterfaceKind::Vlan(cfg) && cfg.base_ifindex is None
}

/// Whether a creation request is rejected for lacking a VLAN id (the base
/// interface being present).
pub open spec fn spec_vlan_missing_id(kind: VirtualInterfaceKind) -> bool {
    kind matches VirtualInterfaceKind::Vlan(cfg) && cfg.base_ifindex is Some && cfg.vlan_id is None
}

/// Checks what a creation requires of its kind: VLAN creation needs both a
/// base interface and a VLAN id; every other kind passes. The error is a
/// local configuration message, produced before any wire interaction.
pub fn validate_create_kind(kind: &VirtualInterfaceKind) -> (r: Result<(), String>)
    ensures
        spec_vlan_missing_base(*kind) ==> (r matches Err(m) && m@ == (
        "VLAN creation requires a parent interface (--dev)")@),
        spec_vlan_missing_id(*kind) ==> (r matches Err(m) && m@ == (
        "VLAN creation requires --vlan-id")@),
        !spec_vlan_missing_base(*kind) && !spec_vlan_missing_id(*kind) ==> r is Ok,
{
    match kind {
        VirtualInterfaceKind::Vlan(cfg) => {
            if cfg.base_ifindex.is_none() {
                return Err("VLAN creation requires a parent interface (--dev)".to_owned());
            }
            if cfg.vlan_id.is_none() {
                return Err("VLAN creation requires --vlan-id".to_owned());
            }
            Ok(())
        },
        _ => Ok(()),
    }
}

/// Whether `data` is exactly the payload that `kind` encodes to.
pub open spec fn spec_payload_matches(data: InfoPayload, kind: VirtualInterfaceKind) -> bool {
    match kind {
        VirtualInterfaceKind::Gre(cfg) => data matches InfoPayload::GreTun(v) && v.deep_view()
            == spec_gre_nlas(cfg),
        VirtualInterfaceKind::Gretap(cfg) => data matches InfoPayload::GreTap(v) && v.deep_view()
            == spec_gre_nlas(cfg),
        VirtualInterfaceKind::Ip6Gre(cfg) => data matches InfoPayload::GreTun6(v) && v.deep_view()
            == spec_gre6_nlas(cfg),
        VirtualInterfaceKind::Ip6Gretap(cfg) => data matches InfoPayload::GreTap6(v)
            && v.deep_view() == spec_gre6_nlas(cfg),
        VirtualInterfaceKind::IpIp(cfg) => data matches InfoPayload::Raw(b) && b@
            == spec_encode_nlas(spec_iptunnel_v4_nlas(cfg)),
        VirtualInterfaceKind::Ip6Tnl(cfg) => data matches InfoPayload::Raw(b) && b@
            == spec_encode_nlas(spec_iptunnel_v6_nlas(cfg)),
        VirtualInterfaceKind::Vlan(cfg) => data == InfoPayload::Vlan(cfg.vlan_id),
    }
}

/// Builds the kind-specific payload: attribute lists for the GRE kinds,
/// manually encoded bytes for the IP-tunnel kinds, and the VLAN id when
/// provided.
pub fn build_info_data(kind: &VirtualInterfaceKind) -> (r: InfoPayload)
    ensures
        spec_payload_matches(r, *kind),
{
    match kind {
        VirtualInterfaceKind::Gre(cfg) => InfoPayload::GreTun(gre_nlas(cfg)),
        VirtualInterfaceKind::Gretap(cfg) => InfoPayload::GreTap(gre_nlas(cfg)),
        VirtualInterfaceKind::Ip6Gre(cfg) => InfoPayload::GreTun6(gre6_nlas(cfg)),
        VirtualInterfaceKind::Ip6Gretap(cfg) => InfoPayload::GreTap6(gre6_nlas(cfg)),
        VirtualInterfaceKind::IpIp(cfg) => {
            let nlas = iptunnel_v4_nlas(cfg);
            InfoPayload::Raw(encode_nlas(&nlas))
        },
        VirtualInterfaceKind::Ip6Tnl(cfg) => {
            let nlas = iptunnel_v6_nlas(cfg);
            InfoPayload::Raw(encode_nlas(&nlas))
        },
        VirtualInterfaceKind::Vlan(cfg) => InfoPayload::Vlan(cfg.vlan_id),
    }
}

/// A virtual-interface create or update message: everything the wire
/// message carries, as plain values.
#[derive(Clone, PartialEq, Debug)]
pub struct VirtualLinkMessage {
    pub index: Option<u32>,
    pub name: Option<String>,
    pub info_kind: InfoKindTag,
    pub info_data: InfoPayload,
    pub link: Option<u32>,
    pub admin: Option<bool>,
}

/// The view of an optional owned string.
pub open spec fn spec_opt_name(o: Option<String>) -> Option<Seq<char>> {
    match o {
        Some(s) => Some(s@),
        None => None,
    }
}

/// Whether `m` carries exactly the kind-derived parts for `kind`: its info
/// kind tag, its payload, and its underlying link.
pub open spec fn spec_message_matches_kind(m: VirtualLinkMessage, kind: VirtualInterfaceKind) -> bool {
    &&& m.info_kind == spec_info_kind(kind)
    &&& spec_payload_matches(m.info_data, kind)
    &&& m.link == spec_virtual_interface_link(kind)
}

/// Builds the creation message for a virtual interface. VLAN creation
/// without a base interface or without a VLAN id fails here, with a
/// configuration error, before any wire interaction; otherwise the message
/// carries the requested name, the kind's info tag and payload, the
/// optional underlying link, and the up flag only when the interface is to
/// start up.
pub fn build_create_message(spec: &VirtualInterfaceSpec) -> (r: Result<VirtualLinkMessage, String>)
    ensures
        spec_vlan_missing_base(spec.kind) ==> (r matches Err(m) && m@ == (
        "VLAN creation requires a parent interface (--dev)")@),
        spec_vlan_missing_id(spec.kind) ==> (r matches Err(m) && m@ == (
        "VLAN creation requires --vlan-id")@),
        !spec_vlan_missing_base(spec.kind) && !spec_vlan_missing_id(spec.kind) ==> (r matches Ok(m)
            && spec_message_matches_kind(m, spec.kind) && m.index is None && spec_opt_name(m.name)
            == Some(spec.name@) && m.admin == (if spec.admin_up {
            Some(true)
        } else {
            Option::<bool>::None
        })),
{
    if let Err(e) = validate_create_kind(&spec.kind) {
        return Err(e);
    }
    let info_kind = virtual_interface_kind_to_info_kind(&spec.kind);
    let info_data = build_info_data(&spec.kind);
    let link = virtual_interface_link(&spec.kind);
    Ok(
        VirtualLinkMessage {
            index: None,
            name: Some(spec.name.clone()),
            info_kind,
            info_data,
            link,
            admin: if spec.admin_up {
                Some(true)
            } else {
                None
            },
        },
    )
}

/// Builds the update message for a virtual interface: scoped to the index,
/// carrying the kind's info tag and payload, the optional rename, the
/// optional underlying link, and the optional administrative-state change.
pub fn build_update_message(update: &VirtualInterfaceUpdate) -> (r: VirtualLinkMessage)
    ensures
        spec_message_matches_kind(r, update.kind),
        r.index == Some(update.if_id),
        spec_opt_name(r.name) == spec_opt_name(update.new_name),
        r.admin == update.admin_up,
{
    let info_kind = virtual_interface_kind_to_info_kind(&update.kind);
    let info_data = build_info_data(&update.kind);
    let link = virtual_interface_link(&update.kind);
    VirtualLinkMessage {
        index: Some(update.if_id),
        name: update.new_name.clone(),
        info_kind,
        info_data,
        link,
        admin: update.admin_up,
    }
}

/// What the server does for one virtual-interface request: answer at once
/// (a creation whose configuration is invalid), or one wire interaction.
#[derive(Clone, PartialEq, Debug)]
pub enum VirtualInterfacePlan {
    Respond(RtnlVirtualInterfaceResponse),
    Create(VirtualLinkMessage),
    Configure(VirtualLinkMessage),
    DeleteIndex(u32),
    DeleteByName(String),
    ResolveIndex(String),
}

/// Decides the server's step for one virtual-interface request. A creation
/// with an invalid configuration is answered failed here, before any wire
/// operation.
pub fn virtual_interface_request_plan(req: &RtnlVirtualInterfaceRequest) -> (r:
    VirtualInterfacePlan)
    ensures
        match *req {
            RtnlVirtualInterfaceRequest::Create(spec) => if spec_vlan_missing_base(spec.kind)
                || spec_vlan_missing_id(spec.kind) {
                r == VirtualInterfacePlan::Respond(RtnlVirtualInterfaceResponse::Failed)
            } else {
                r matches VirtualInterfacePlan::Create(m) && spec_message_matches_kind(m, spec.kind)
                    && m.index is None && spec_opt_name(m.name) == Some(spec.name@) && m.admin == (
                if spec.admin_up {
                    Some(true)
                } else {
                    Option::<bool>::None
                })
            },
            RtnlVirtualInterfaceRequest::Configure(update) => r matches
                VirtualInterfacePlan::Configure(m) && spec_message_matches_kind(m, update.kind)
                && m.index == Some(update.if_id) && spec_opt_name(m.name) == spec_opt_name(
                update.new_name,
            ) && m.admin == update.admin_up,
            RtnlVirtualInterfaceRequest::Delete(del) => match del {
                VirtualInterfaceDelete::ByIndex(ix) => r == VirtualInterfacePlan::DeleteIndex(ix),
                VirtualInterfaceDelete::ByName(n) => r matches VirtualInterfacePlan::DeleteByName(
                    m,
                ) && m@ == n@,
            },
            RtnlVirtualInterfaceRequest::GetIndexByName(n) => r matches
                VirtualInterfacePlan::ResolveIndex(m) && m@ == n@,
        },
{
    match req {
        RtnlVirtualInterfaceRequest::Create(spec) => match build_create_message(spec) {
            Ok(m) => VirtualInterfacePlan::Create(m),
            Err(_) => VirtualInterfacePlan::Respond(RtnlVirtualInterfaceResponse::Failed),
        },
        RtnlVirtualInterfaceRequest::Configure(update) => VirtualInterfacePlan::Configure(
            build_update_message(update),
        ),
        RtnlVirtualInterfaceRequest::Delete(del) => match del {
            VirtualInterfaceDelete::ByIndex(ix) => VirtualInterfacePlan::DeleteIndex(*ix),
            VirtualInterfaceDelete::ByName(n) => VirtualInterfacePlan::DeleteByName(n.clone()),
        },
        RtnlVirtualInterfaceRequest::GetIndexByName(n) => VirtualInterfacePlan::ResolveIndex(
            n.clone(),
        ),
    }
}

/// Maps the categorized outcome of a create, configure or delete to the
/// subsystem response: a kernel not-found passes through; every other
/// rejection is a failure.
pub fn netlink_error_to_response(outcome: KernelOutcome) -> (r: RtnlVirtualInterfaceResponse)
    ensures
        outcome == KernelOutcome::Accepted ==> r == RtnlVirtualInterfaceResponse::Success,
        outcome == KernelOutcome::NotFound ==> r == RtnlVirtualInterfaceResponse::NotFound,
        outcome != KernelOutcome::Accepted && outcome != KernelOutcome::NotFound ==> r
            == RtnlVirtualInterfaceResponse::Failed,
{
    match outcome {
        KernelOutcome::Accepted => RtnlVirtualInterfaceResponse::Success,
        KernelOutcome::NotFound => RtnlVirtualInterfaceResponse::NotFound,
        _ => RtnlVirtualInterfaceResponse::Failed,
    }
}

/// Resolves a name to an index from the collected replies: the first
/// message reporting a non-zero index wins; none means the name did not
/// resolve.
pub fn resolve_index_response(msgs: &Vec<LinkMessageData>) -> (r: Option<u32>)
    ensures
        r == spec_first_nonzero_index(msgs@),
{
    let mut i: usize = 0;
    proof {
        assert(msgs@.skip(0) =~= msgs@);
    }
    while i < msgs.len()
        invariant
            i <= msgs@.len(),
            spec_first_nonzero_index(msgs@) == spec_first_nonzero_index(msgs@.skip(i as int)),
        decreases msgs@.len() - i,
    {
        proof {
            assert(msgs@.skip(i as int)[0] == msgs@[i as int]);
            assert(msgs@.skip(i as int).skip(1) =~= msgs@.skip(i + 1));
        }
        if msgs[i].index != 0 {
            return Some(msgs[i].index);
        }
        i = i + 1;
    }
    proof {
        assert(msgs@.skip(msgs@.len() as int) =~= Seq::<LinkMessageData>::empty());
    }
    None
}

/// Maps a status-only virtual-interface response to the caller's result.
pub fn handle_basic_response(op: &str, response: RtnlVirtualInterfaceResponse) -> (r: Result<
    (),
    RtnlError,
>)
    ensures
        match response {
            RtnlVirtualInterfaceResponse::Success => r is Ok,
            RtnlVirtualInterfaceResponse::NotFound => r matches Err(e) && e.kind
                == RtnlErrorKind::NotFound && e.op@ == op@,
            RtnlVirtualInterfaceResponse::Failed => r matches Err(e) && e.kind
                == RtnlErrorKind::Failed && e.op@ == op@,
            _ => r matches Err(e) && e.kind == RtnlErrorKind::Unexpected && e.op@ == op@,
        },
{
    match response {
        RtnlVirtualInterfaceResponse::Success => Ok(()),
        RtnlVirtualInterfaceResponse::NotFound => Err(RtnlError::new(RtnlErrorKind::NotFound, op)),
        RtnlVirtualInterfaceResponse::Failed => Err(RtnlError::new(RtnlErrorKind::Failed, op)),
        _ => Err(RtnlError::new(RtnlErrorKind::Unexpected, op)),
    }
}

/// Maps an index-carrying virtual-interface response to the caller's
/// result.
pub fn interpret_index_response(op: &str, response: RtnlVirtualInterfaceResponse) -> (r: Result<
    u32,
    RtnlError,
>)
    ensures
        match response {
            RtnlVirtualInterfaceResponse::Index(ix) => r == Ok::<u32, RtnlError>(ix),
            RtnlVirtualInterfaceResponse::NotFound => r matches Err(e) && e.kind
                == RtnlErrorKind::NotFound && e.op@ == op@,
            RtnlVirtualInterfaceResponse::Failed => r matches Err(e) && e.kind
                == RtnlErrorKind::Failed && e.op@ == op@,
            _ => r matches Err(e) && e.kind == RtnlErrorKind::Unexpected && e.op@ == op@,
        },
{
    match response {
        RtnlVirtualInterfaceResponse::Index(ix) => Ok(ix),
        RtnlVirtualInterfaceResponse::NotFound => Err(RtnlError::new(RtnlErrorKind::NotFound, op)),
        RtnlVirtualInterfaceResponse::Failed => Err(RtnlError::new(RtnlErrorKind::Failed, op)),
        _ => Err(RtnlError::new(RtnlErrorKind::Unexpected, op)),
    }
}

/// The synchronous client of the virtual-interface subsystem.
#[derive(Clone, Debug)]
pub struct RtnlVirtualInterfaceClient {
    client: RequestSender<RtnlVirtualInterfaceRequest, RtnlVirtualInterfaceResponse>,
}

impl RtnlVirtualInterfaceClient {
    pub fn new(
        client: RequestSender<RtnlVirtualInterfaceRequest, RtnlVirtualInterfaceResponse>,
    ) -> Self {
        RtnlVirtualInterfaceClient { client }
    }

    pub fn create(&self, spec: VirtualInterfaceSpec) -> (r: Result<(), RtnlError>)
        ensures
            r matches Err(e) ==> e.op@ == "Create virtual interface"@,
    {
        match send_request(&self.client, RtnlVirtualInterfaceRequest::Create(spec)) {
            None => Err(RtnlError::new(RtnlErrorKind::Disconnected, "Create virtual interface")),
            Some(res) => handle_basic_response("Create virtual interface", res),
        }
    }

    pub fn configure(&self, update: VirtualInterfaceUpdate) -> (r: Result<(), RtnlError>)
        ensures
            r matches Err(e) ==> e.op@ == "Configure virtual interface"@,
    {
        match send_request(&self.client, RtnlVirtualInterfaceRequest::Configure(update)) {
            None => Err(RtnlError::new(RtnlErrorKind::Disconnected, "Configure virtual interface")),
            Some(res) => handle_basic_response("Configure virtual interface", res),
        }
    }

    pub fn delete(&self, delete: VirtualInterfaceDelete) -> (r: Result<(), RtnlError>)
        ensures
            r matches Err(e) ==> e.op@ == "Delete virtual interface"@,
    {
        match send_request(&self.client, RtnlVirtualInterfaceRequest::Delete(delete)) {
            None => Err(RtnlError::new(RtnlErrorKind::Disconnected, "Delete virtual interface")),
            Some(res) => handle_basic_response("Delete virtual interface", res),
        }
    }

    pub fn get_index_by_name(&self, name: &str) -> (r: Result<u32, RtnlError>)
        ensures
            r matches Err(e) ==> e.op@ == "Get virtual interface index"@,
    {
        match send_request(
            &self.client,
            RtnlVirtualInterfaceRequest::GetIndexByName(name.to_owned()),
        ) {
            None => Err(
                RtnlError::new(RtnlErrorKind::Disconnected, "Get virtual interface index"),
            ),
            Some(res) => interpret_index_response("Get virtual interface index", res),
        }
    }
}

} // verus!
