//! The link subsystem: interface enumeration and lookup, MAC/MTU access,
//! and flag/state changes, as a request/response protocol.
//!
//! Every index-based operation on index 0 answers not-found before any wire
//! interaction. Enumeration drops kernel entries that report index 0 or
//! carry no name.

use vstd::prelude::*;

use crate::channel::{send_request, RequestSender};
use crate::errors::{RtnlError, RtnlErrorKind};
use crate::types::MacAddr;
use crate::wire::KernelOutcome;

verus! {

/// A kernel network interface: its non-zero index and its current name.
#[derive(Clone, PartialEq, Eq, Debug)]
pub struct Interface {
    pub if_name: String,
    pub if_id: u32,
}

/// The closed request vocabulary of the link subsystem.
#[derive(Clone, PartialEq, Debug)]
#[non_exhaustive]
pub enum RtnlLinkRequest {
    InterfaceList,
    InterfaceGet { if_id: u32 },
    InterfaceGetByName { if_name: String },
    MacAddrGet { if_id: u32 },
    MacAddrSet { if_id: u32, mac_addr: MacAddr },
    MtuGet { if_id: u32 },
    InterfaceSetAdmin { if_id: u32, up: bool },
    InterfaceSetPromisc { if_id: u32, enable: bool },
    InterfaceSetArp { if_id: u32, enable: bool },
    InterfaceSetMtu { if_id: u32, mtu: u32 },
    InterfaceRename { if_id: u32, if_name: String },
    InterfaceSetAllMulticast { if_id: u32, enable: bool },
}

/// The closed response vocabulary of the link subsystem.
#[derive(Clone, PartialEq, Debug)]
#[non_exhaustive]
pub enum RtnlLinkResponse {
    Success,
    Failed,
    NotImplemented,
    NotFound,
    InterfaceList(Vec<Interface>),
    Interface(Interface),
    MacAddr(MacAddr),
    Mtu(u32),
}

/// One attribute of a kernel link message, reduced to the fields this
/// subsystem reads; every other attribute is carried as `Other`.
#[derive(Clone, PartialEq, Debug)]
pub enum LinkAttr {
    IfName(String),
    Address(Vec<u8>),
    Mtu(u32),
    Other,
}

/// One kernel link reply message: the header index and the attribute list.
#[derive(Clone, PartialEq, Debug)]
pub struct LinkMessageData {
    pub index: u32,
    pub attrs: Vec<LinkAttr>,
}

/// The change a link "set" request applies. Each variant stands for exactly
/// one modified aspect; flag variants change only their own flag, under an
/// explicit change mask for that flag alone.
#[derive(Clone, PartialEq, Debug)]
pub enum LinkSetOp {
    Admin(bool),
    Promiscuous(bool),
    Arp(bool),
    Mtu(u32),
    Name(String),
    Address(MacAddr),
    AllMulticast(bool),
}

/// A link update message scoped to exactly one interface index.
#[derive(Clone, PartialEq, Debug)]
pub struct LinkSetMessage {
    pub index: u32,
    pub op: LinkSetOp,
}

/// What the server does for one link request: answer at once, or issue one
/// wire operation.
#[derive(Clone, PartialEq, Debug)]
pub enum LinkPlan {
    Respond(RtnlLinkResponse),
    GetByIndex(u32),
    GetByName(String),
    GetAll,
    Change(LinkSetMessage),
}

/// Whether a link request targets a specific interface index, and that
/// index is 0.
pub open spec fn spec_link_targets_index_zero(req: RtnlLinkRequest) -> bool {
    match req {
        RtnlLinkRequest::InterfaceList => false,
        RtnlLinkRequest::InterfaceGet { if_id } => if_id == 0,
        RtnlLinkRequest::InterfaceGetByName { .. } => false,
        RtnlLinkRequest::MacAddrGet { if_id } => if_id == 0,
        RtnlLinkRequest::MacAddrSet { if_id, .. } => if_id == 0,
        RtnlLinkRequest::MtuGet { if_id } => if_id == 0,
        RtnlLinkRequest::InterfaceSetAdmin { if_id, .. } => if_id == 0,
        RtnlLinkRequest::InterfaceSetPromisc { if_id, .. } => if_id == 0,
        RtnlLinkRequest::InterfaceSetArp { if_id, .. } => if_id == 0,
        RtnlLinkRequest::InterfaceSetMtu { if_id, .. } => if_id == 0,
        RtnlLinkRequest::InterfaceRename { if_id, .. } => if_id == 0,
        RtnlLinkRequest::InterfaceSetAllMulticast { if_id, .. } => if_id == 0,
    }
}

/// Decides the server's step for one link request. A request that targets
/// index 0 is answered not-found here, before any wire operation; every
/// other request maps to exactly one wire operation.
pub fn link_request_plan(req: &RtnlLinkRequest) -> (r: LinkPlan)
    ensures
        spec_link_targets_index_zero(*req) ==> r == (LinkPlan::Respond(
            RtnlLinkResponse::NotFound,
        )),
        !spec_link_targets_index_zero(*req) ==> match *req {
            RtnlLinkRequest::InterfaceList => r == LinkPlan::GetAll,
            RtnlLinkRequest::InterfaceGet { if_id } => r == LinkPlan::GetByIndex(if_id),
            RtnlLinkRequest::InterfaceGetByName { if_name } => r matches LinkPlan::GetByName(n)
                && n@ == if_name@,
            RtnlLinkRequest::MacAddrGet { if_id } => r == LinkPlan::GetByIndex(if_id),
            RtnlLinkRequest::MtuGet { if_id } => r == LinkPlan::GetByIndex(if_id),
            RtnlLinkRequest::MacAddrSet { if_id, mac_addr } => r matches LinkPlan::Change(m) && (m
                == LinkSetMessage { index: if_id, op: LinkSetOp::Address(mac_addr) }),
            RtnlLinkRequest::InterfaceSetAdmin { if_id, up } => r matches LinkPlan::Change(m) && (m
                == LinkSetMessage { index: if_id, op: LinkSetOp::Admin(up) }),
            RtnlLinkRequest::InterfaceSetPromisc { if_id, enable } => r matches LinkPlan::Change(m)
                && (m == LinkSetMessage { index: if_id, op: LinkSetOp::Promiscuous(enable) }),
            RtnlLinkRequest::InterfaceSetArp { if_id, enable } => r matches LinkPlan::Change(m) && (m
                == LinkSetMessage { index: if_id, op: LinkSetOp::Arp(enable) }),
            RtnlLinkRequest::InterfaceSetMtu { if_id, mtu } => r matches LinkPlan::Change(m) && (m
                == LinkSetMessage { index: if_id, op: LinkSetOp::Mtu(mtu) }),
            RtnlLinkRequest::InterfaceRename { if_id, if_name } => (r matches LinkPlan::Change(m)
                && m.index == if_id && (m.op matches LinkSetOp::Name(n) && n@ == if_name@)),
            RtnlLinkRequest::InterfaceSetAllMulticast { if_id, enable } => r matches LinkPlan::Change(
                m,
            ) && (m == LinkSetMessage { index: if_id, op: LinkSetOp::AllMulticast(enable) }),
        },
{
    match req {
        RtnlLinkRequest::InterfaceList => LinkPlan::GetAll,
        RtnlLinkRequest::InterfaceGet { if_id } => {
            if *if_id == 0 {
                LinkPlan::Respond(RtnlLinkResponse::NotFound)
            } else {
                LinkPlan::GetByIndex(*if_id)
            }
        },
        RtnlLinkRequest::InterfaceGetByName { if_name } => LinkPlan::GetByName(if_name.clone()),
        RtnlLinkRequest::MacAddrGet { if_id } => {
            if *if_id == 0 {
                LinkPlan::Respond(RtnlLinkResponse::NotFound)
            } else {
                LinkPlan::GetByIndex(*if_id)
            }
        },
        RtnlLinkRequest::MtuGet { if_id } => {
            if *if_id == 0 {
                LinkPlan::Respond(RtnlLinkResponse::NotFound)
            } else {
                LinkPlan::GetByIndex(*if_id)
            }
        },
        RtnlLinkRequest::MacAddrSet { if_id, mac_addr } => {
            if *if_id == 0 {
                LinkPlan::Respond(RtnlLinkResponse::NotFound)
            } else {
                LinkPlan::Change(LinkSetMessage { index: *if_id, op: LinkSetOp::Address(*mac_addr) })
            }
        },
        RtnlLinkRequest::InterfaceSetAdmin { if_id, up } => {
            if *if_id == 0 {
                LinkPlan::Respond(RtnlLinkResponse::NotFound)
            } else {
                LinkPlan::Change(LinkSetMessage { index: *if_id, op: LinkSetOp::Admin(*up) })
            }
        },
        RtnlLinkRequest::InterfaceSetPromisc { if_id, enable } => {
            if *if_id == 0 {
                LinkPlan::Respond(RtnlLinkResponse::NotFound)
            } else {
                LinkPlan::Change(
                    LinkSetMessage { index: *if_id, op: LinkSetOp::Promiscuous(*enable) },
                )
            }
        },
        RtnlLinkRequest::InterfaceSetArp { if_id, enable } => {
            if *if_id == 0 {
                LinkPlan::Respond(RtnlLinkResponse::NotFound)
            } else {
                LinkPlan::Change(LinkSetMessage { index: *if_id, op: LinkSetOp::Arp(*enable) })
            }
        },
        RtnlLinkRequest::InterfaceSetMtu { if_id, mtu } => {
            if *if_id == 0 {
                LinkPlan::Respond(RtnlLinkResponse::NotFound)
            } else {
                LinkPlan::Change(LinkSetMessage { index: *if_id, op: LinkSetOp::Mtu(*mtu) })
            }
        },
        RtnlLinkRequest::InterfaceRename { if_id, if_name } => {
            if *if_id == 0 {
                LinkPlan::Respond(RtnlLinkResponse::NotFound)
            } else {
                LinkPlan::Change(
                    LinkSetMessage { index: *if_id, op: LinkSetOp::Name(if_name.clone()) },
                )
            }
        },
        RtnlLinkRequest::InterfaceSetAllMulticast { if_id, enable } => {
            if *if_id == 0 {
                LinkPlan::Respond(RtnlLinkResponse::NotFound)
            } else {
                LinkPlan::Change(
                    LinkSetMessage { index: *if_id, op: LinkSetOp::AllMulticast(*enable) },
                )
            }
        },
    }
}

/// The name carried by a link message: the last name attribute wins.
pub open spec fn spec_last_if_name(attrs: Seq<LinkAttr>) -> Option<Seq<char>>
    decreases attrs.len(),
{
    if attrs.len() == 0 {
        None
    } else {
        match attrs.last() {
            LinkAttr::IfName(n) => Some(n@),
            _ => spec_last_if_name(attrs.drop_last()),
        }
    }
}

/// The name of the first reply message that carries a name attribute.
pub open spec fn spec_first_named(msgs: Seq<LinkMessageData>) -> Option<Seq<char>>
    decreases msgs.len(),
{
    if msgs.len() == 0 {
        None
    } else {
        match spec_last_if_name(msgs[0].attrs@) {
            Some(n) => Some(n),
            None => spec_first_named(msgs.skip(1)),
        }
    }
}

/// The index of the first reply message whose header index is non-zero.
pub open spec fn spec_first_nonzero_index(msgs: Seq<LinkMessageData>) -> Option<u32>
    decreases msgs.len(),
{
    if msgs.len() == 0 {
        None
    } else if msgs[0].index != 0 {
        Some(msgs[0].index)
    } else {
        spec_first_nonzero_index(msgs.skip(1))
    }
}

/// The payload of the first link-layer address attribute of a message.
pub open spec fn spec_first_address(attrs: Seq<LinkAttr>) -> Option<Seq<u8>>
    decreases attrs.len(),
{
    if attrs.len() == 0 {
        None
    } else {
        match attrs[0] {
            LinkAttr::Address(b) => Some(b@),
            _ => spec_first_address(attrs.skip(1)),
        }
    }
}

/// The first link-layer address found across the reply messages in order.
pub open spec fn spec_first_mac(msgs: Seq<LinkMessageData>) -> Option<Seq<u8>>
    decreases msgs.len(),
{
    if msgs.len() == 0 {
        None
    } else {
        match spec_first_address(msgs[0].attrs@) {
            Some(b) => Some(b),
            None => spec_first_mac(msgs.skip(1)),
        }
    }
}

/// The first MTU attribute of a message.
pub open spec fn spec_first_mtu_attr(attrs: Seq<LinkAttr>) -> Option<u32>
    decreases attrs.len(),
{
    if attrs.len() == 0 {
        None
    } else {
        match attrs[0] {
            LinkAttr::Mtu(m) => Some(m),
            _ => spec_first_mtu_attr(attrs.skip(1)),
        }
    }
}

/// The first MTU found across the reply messages in order.
pub open spec fn spec_first_mtu(msgs: Seq<LinkMessageData>) -> Option<u32>
    decreases msgs.len(),
{
    if msgs.len() == 0 {
        None
    } else {
        match spec_first_mtu_attr(msgs[0].attrs@) {
            Some(m) => Some(m),
            None => spec_first_mtu(msgs.skip(1)),
        }
    }
}

/// The mathematical image of an interface: index and name.
pub struct InterfaceModel {
    pub if_id: u32,
    pub if_name: Seq<char>,
}

impl DeepView for Interface {
    type V = InterfaceModel;

    open spec fn deep_view(&self) -> InterfaceModel {
        InterfaceModel { if_id: self.if_id, if_name: self.if_name@ }
    }
}

/// The interfaces an enumeration yields: every message with a non-zero
/// index and a name, in reply order.
pub open spec fn spec_interface_list(msgs: Seq<LinkMessageData>) -> Seq<InterfaceModel>
    decreases msgs.len(),
{
    if msgs.len() == 0 {
        Seq::empty()
    } else {
        let rest = spec_interface_list(msgs.drop_last());
        let m = msgs.last();
        match spec_last_if_name(m.attrs@) {
            Some(n) => if m.index != 0 {
                rest + seq![InterfaceModel { if_id: m.index, if_name: n }]
            } else {
                rest
            },
            None => rest,
        }
    }
}

/// The last name attribute of one message, computed exactly.
fn last_if_name(attrs: &Vec<LinkAttr>) -> (r: Option<String>)
    ensures
        match spec_last_if_name(attrs@) {
            Some(n) => r matches Some(s) && s@ == n,
            None => r is None,
        },
{
    let mut r: Option<String> = None;
    let mut i: usize = 0;
    while i < attrs.len()
        invariant
            i <= attrs@.len(),
            match spec_last_if_name(attrs@.take(i as int)) {
                Some(n) => r matches Some(s) && s@ == n,
                None => r is None,
            },
        decreases attrs@.len() - i,
    {
        proof {
            assert(attrs@.take(i + 1).drop_last() =~= attrs@.take(i as int));
            assert(attrs@.take(i + 1).last() == attrs@[i as int]);
        }
        match &attrs[i] {
            LinkAttr::IfName(n) => {
                r = Some(n.clone());
            },
            _ => {},
        }
        i = i + 1;
    }
    proof {
        assert(attrs@.take(attrs@.len() as int) =~= attrs@);
    }
    r
}

/// Answers an index-scoped interface lookup from the collected replies: the
/// first message carrying a name yields the interface under the requested
/// index; no named message means not-found.
pub fn interface_get_response(if_id: u32, msgs: &Vec<LinkMessageData>) -> (r: RtnlLinkResponse)
    ensures
        match spec_first_named(msgs@) {
            Some(n) => r matches RtnlLinkResponse::Interface(i) && i.if_id == if_id && i.if_name@
                == n,
            None => r == RtnlLinkResponse::NotFound,
        },
{
    let mut i: usize = 0;
    proof {
        assert(msgs@.skip(0) =~= msgs@);
    }
    while i < msgs.len()
        invariant
            i <= msgs@.len(),
            spec_first_named(msgs@) == spec_first_named(msgs@.skip(i as int)),
        decreases msgs@.len() - i,
    {
        proof {
            assert(msgs@.skip(i as int)[0] == msgs@[i as int]);
            assert(msgs@.skip(i as int).skip(1) =~= msgs@.skip(i + 1));
        }
        if let Some(name) = last_if_name(&msgs[i].attrs) {
            return RtnlLinkResponse::Interface(Interface { if_id, if_name: name });
        }
        i = i + 1;
    }
    proof {
        assert(msgs@.skip(msgs@.len() as int) =~= Seq::<LinkMessageData>::empty());
    }
    RtnlLinkResponse::NotFound
}

/// Answers a lookup by name from the collected replies: the first message
/// reporting a non-zero index yields the interface under the requested
/// name; none means not-found.
pub fn interface_get_by_name_response(if_name: &str, msgs: &Vec<LinkMessageData>) -> (r:
    RtnlLinkResponse)
    ensures
        match spec_first_nonzero_index(msgs@) {
            Some(ix) => r matches RtnlLinkResponse::Interface(i) && i.if_id == ix && i.if_name@
                == if_name@,
            None => r == RtnlLinkResponse::NotFound,
        },
{
    let mut i: usize = 0;
    proof {
        assert(msgs@.skip(0) =~= msgs@);
    }
    while i < msgs.len()
        invariant
            i <= msgs@.len(),
            spec_first_nonzero_index(msgs@) == spec_first_nonzero_index(msgs@.skip(i as int)),
        decreases msgs@.len() - i,
    {
        proof {
            assert(msgs@.skip(i as int)[0] == msgs@[i as int]);
            assert(msgs@.skip(i as int).skip(1) =~= msgs@.skip(i + 1));
        }
        if msgs[i].index != 0 {
            return RtnlLinkResponse::Interface(
                Interface { if_id: msgs[i].index, if_name: if_name.to_owned() },
            );
        }
        i = i + 1;
    }
    proof {
        assert(msgs@.skip(msgs@.len() as int) =~= Seq::<LinkMessageData>::empty());
    }
    RtnlLinkResponse::NotFound
}

/// The six MAC octets taken from an address payload: its first six bytes,
/// or all zeroes where the payload is shorter.
pub open spec fn spec_mac_bytes(b: Seq<u8>) -> Seq<u8> {
    if b.len() >= 6 {
        b.take(6)
    } else {
        Seq::new(6, |i: int| 0u8)
    }
}

/// Builds the MAC value from an address attribute payload.
fn mac_from_bytes(b: &Vec<u8>) -> (r: MacAddr)
    ensures
        r.inner@ == spec_mac_bytes(b@),
{
    if b.len() >= 6 {
        let r = MacAddr::new([b[0], b[1], b[2], b[3], b[4], b[5]]);
        proof {
            assert(r.inner@ =~= b@.take(6));
        }
        r
    } else {
        let r = MacAddr::new([0, 0, 0, 0, 0, 0]);
        proof {
            assert(r.inner@ =~= Seq::new(6, |i: int| 0u8));
        }
        r
    }
}

/// The payload of the first address attribute across the replies, exactly.
fn first_address_in(attrs: &Vec<LinkAttr>) -> (r: Option<&Vec<u8>>)
    ensures
        match spec_first_address(attrs@) {
            Some(b) => r matches Some(v) && v@ == b,
            None => r is None,
        },
{
    let mut i: usize = 0;
    proof {
        assert(attrs@.skip(0) =~= attrs@);
    }
    while i < attrs.len()
        invariant
            i <= attrs@.len(),
            spec_first_address(attrs@) == spec_first_address(attrs@.skip(i as int)),
        decreases attrs@.len() - i,
    {
        proof {
            assert(attrs@.skip(i as int)[0] == attrs@[i as int]);
            assert(attrs@.skip(i as int).skip(1) =~= attrs@.skip(i + 1));
        }
        if let LinkAttr::Address(b) = &attrs[i] {
            return Some(b);
        }
        i = i + 1;
    }
    proof {
        assert(attrs@.skip(attrs@.len() as int) =~= Seq::<LinkAttr>::empty());
    }
    None
}

/// Answers a MAC lookup from the collected replies: the first address
/// attribute yields the MAC (first six payload bytes); none means
/// not-found.
pub fn mac_addr_response(msgs: &Vec<LinkMessageData>) -> (r: RtnlLinkResponse)
    ensures
        match spec_first_mac(msgs@) {
            Some(b) => r matches RtnlLinkResponse::MacAddr(m) && m.inner@ == spec_mac_bytes(b),
            None => r == RtnlLinkResponse::NotFound,
        },
{
    let mut i: usize = 0;
    proof {
        assert(msgs@.skip(0) =~= msgs@);
    }
    while i < msgs.len()
        invariant
            i <= msgs@.len(),
            spec_first_mac(msgs@) == spec_first_mac(msgs@.skip(i as int)),
        decreases msgs@.len() - i,
    {
        proof {
            assert(msgs@.skip(i as int)[0] == msgs@[i as int]);
            assert(msgs@.skip(i as int).skip(1) =~= msgs@.skip(i + 1));
        }
        if let Some(bytes) = first_address_in(&msgs[i].attrs) {
            return RtnlLinkResponse::MacAddr(mac_from_bytes(bytes));
        }
        i = i + 1;
    }
    proof {
        assert(msgs@.skip(msgs@.len() as int) =~= Seq::<LinkMessageData>::empty());
    }
    RtnlLinkResponse::NotFound
}

/// The first MTU attribute of one message, exactly.
fn first_mtu_in(attrs: &Vec<LinkAttr>) -> (r: Option<u32>)
    ensures
        r == spec_first_mtu_attr(attrs@),
{
    let mut i: usize = 0;
    proof {
        assert(attrs@.skip(0) =~= attrs@);
    }
    while i < attrs.len()
        invariant
            i <= attrs@.len(),
            spec_first_mtu_attr(attrs@) == spec_first_mtu_attr(attrs@.skip(i as int)),
        decreases attrs@.len() - i,
    {
        proof {
            assert(attrs@.skip(i as int)[0] == attrs@[i as int]);
            assert(attrs@.skip(i as int).skip(1) =~= attrs@.skip(i + 1));
        }
        if let LinkAttr::Mtu(m) = &attrs[i] {
            return Some(*m);
        }
        i = i + 1;
    }
    proof {
        assert(attrs@.skip(attrs@.len() as int) =~= Seq::<LinkAttr>::empty());
    }
    None
}

/// Answers an MTU lookup from the collected replies: the first MTU
/// attribute wins; none means not-found.
pub fn mtu_response(msgs: &Vec<LinkMessageData>) -> (r: RtnlLinkResponse)
    ensures
        match spec_first_mtu(msgs@) {
            Some(m) => r == RtnlLinkResponse::Mtu(m),
            None => r == RtnlLinkResponse::NotFound,
        },
{
    let mut i: usize = 0;
    proof {
        assert(msgs@.skip(0) =~= msgs@);
    }
    while i < msgs.len()
        invariant
            i <= msgs@.len(),
            spec_first_mtu(msgs@) == spec_first_mtu(msgs@.skip(i as int)),
        decreases msgs@.len() - i,
    {
        proof {
            assert(msgs@.skip(i as int)[0] == msgs@[i as int]);
            assert(msgs@.skip(i as int).skip(1) =~= msgs@.skip(i + 1));
        }
        if let Some(m) = first_mtu_in(&msgs[i].attrs) {
            return RtnlLinkResponse::Mtu(m);
        }
        i = i + 1;
    }
    proof {
        assert(msgs@.skip(msgs@.len() as int) =~= Seq::<LinkMessageData>::empty());
    }
    RtnlLinkResponse::NotFound
}

/// Answers an enumeration from the collected replies, keeping exactly the
/// messages with a non-zero index and a name.
pub fn interface_list_response(msgs: &Vec<LinkMessageData>) -> (r: RtnlLinkResponse)
    ensures
        r matches RtnlLinkResponse::InterfaceList(v) && v.deep_view() == spec_interface_list(
            msgs@,
        ),
{
    let mut out: Vec<Interface> = Vec::new();
    let mut i: usize = 0;
    proof {
        assert(msgs@.skip(0) =~= msgs@);
    }
    while i < msgs.len()
        invariant
            i <= msgs@.len(),
            out.deep_view() == spec_interface_list(msgs@.take(i as int)),
        decreases msgs@.len() - i,
    {
        proof {
            assert(msgs@.take(i + 1).drop_last() =~= msgs@.take(i as int));
            assert(msgs@.take(i + 1).last() == msgs@[i as int]);
        }
        let name = last_if_name(&msgs[i].attrs);
        if msgs[i].index != 0 {
            if let Some(n) = name {
                out.push(Interface { if_id: msgs[i].index, if_name: n });
            }
        }
        proof {
            assert(out.deep_view() =~= spec_interface_list(msgs@.take(i + 1)));
        }
        i = i + 1;
    }
    proof {
        assert(msgs@.take(msgs@.len() as int) =~= msgs@);
    }
    RtnlLinkResponse::InterfaceList(out)
}

/// Maps the categorized outcome of a link update to the subsystem
/// response: a kernel not-found passes through; every other rejection is a
/// failure.
pub fn map_link_result(outcome: KernelOutcome) -> (r: RtnlLinkResponse)
    ensures
        outcome == KernelOutcome::Accepted ==> r == RtnlLinkResponse::Success,
        outcome == KernelOutcome::NotFound ==> r == RtnlLinkResponse::NotFound,
        outcome != KernelOutcome::Accepted && outcome != KernelOutcome::NotFound ==> r
            == RtnlLinkResponse::Failed,
{
    match outcome {
        KernelOutcome::Accepted => RtnlLinkResponse::Success,
        KernelOutcome::NotFound => RtnlLinkResponse::NotFound,
        _ => RtnlLinkResponse::Failed,
    }
}

/// Maps a status-only link response to the caller's result: success turns
/// into `Ok`; each recognized failure keeps its category and the
/// operation's name; any payload-carrying variant is a protocol contract
/// violation.
pub fn handle_status_response(op: &str, response: RtnlLinkResponse) -> (r: Result<(), RtnlError>)
    ensures
        match response {
            RtnlLinkResponse::Success => r is Ok,
            RtnlLinkResponse::NotFound => r matches Err(e) && e.kind == RtnlErrorKind::NotFound
                && e.op@ == op@,
            RtnlLinkResponse::Failed => r matches Err(e) && e.kind == RtnlErrorKind::Failed && e.op@
                == op@,
            RtnlLinkResponse::NotImplemented => r matches Err(e) && e.kind
                == RtnlErrorKind::Unsupported && e.op@ == op@,
            _ => r matches Err(e) && e.kind == RtnlErrorKind::Unexpected && e.op@ == op@,
        },
{
    match response {
        RtnlLinkResponse::Success => Ok(()),
        RtnlLinkResponse::NotFound => Err(RtnlError::new(RtnlErrorKind::NotFound, op)),
        RtnlLinkResponse::Failed => Err(RtnlError::new(RtnlErrorKind::Failed, op)),
        RtnlLinkResponse::NotImplemented => Err(RtnlError::new(RtnlErrorKind::Unsupported, op)),
        _ => Err(RtnlError::new(RtnlErrorKind::Unexpected, op)),
    }
}

/// Maps an interface-carrying link response to the caller's result.
pub fn interpret_interface_response(op: &str, response: RtnlLinkResponse) -> (r: Result<
    Interface,
    RtnlError,
>)
    ensures
        match response {
            RtnlLinkResponse::Interface(i) => r == Ok::<Interface, RtnlError>(i),
            RtnlLinkResponse::NotFound => r matches Err(e) && e.kind == RtnlErrorKind::NotFound
                && e.op@ == op@,
            RtnlLinkResponse::Failed => r matches Err(e) && e.kind == RtnlErrorKind::Failed && e.op@
                == op@,
            RtnlLinkResponse::NotImplemented => r matches Err(e) && e.kind
                == RtnlErrorKind::Unsupported && e.op@ == op@,
            _ => r matches Err(e) && e.kind == RtnlErrorKind::Unexpected && e.op@ == op@,
        },
{
    match response {
        RtnlLinkResponse::Interface(i) => Ok(i),
        RtnlLinkResponse::NotFound => Err(RtnlError::new(RtnlErrorKind::NotFound, op)),
        RtnlLinkResponse::Failed => Err(RtnlError::new(RtnlErrorKind::Failed, op)),
        RtnlLinkResponse::NotImplemented => Err(RtnlError::new(RtnlErrorKind::Unsupported, op)),
        _ => Err(RtnlError::new(RtnlErrorKind::Unexpected, op)),
    }
}

/// Maps an MTU-carrying link response to the caller's result.
pub fn interpret_mtu_response(op: &str, response: RtnlLinkResponse) -> (r: Result<u32, RtnlError>)
    ensures
        match response {
            RtnlLinkResponse::Mtu(m) => r == Ok::<u32, RtnlError>(m),
            RtnlLinkResponse::NotFound => r matches Err(e) && e.kind == RtnlErrorKind::NotFound
                && e.op@ == op@,
            RtnlLinkResponse::Failed => r matches Err(e) && e.kind == RtnlErrorKind::Failed && e.op@
                == op@,
            RtnlLinkResponse::NotImplemented => r matches Err(e) && e.kind
                == RtnlErrorKind::Unsupported && e.op@ == op@,
            _ => r matches Err(e) && e.kind == RtnlErrorKind::Unexpected && e.op@ == op@,
        },
{
    match response {
        RtnlLinkResponse::Mtu(m) => Ok(m),
        RtnlLinkResponse::NotFound => Err(RtnlError::new(RtnlErrorKind::NotFound, op)),
        RtnlLinkResponse::Failed => Err(RtnlError::new(RtnlErrorKind::Failed, op)),
        RtnlLinkResponse::NotImplemented => Err(RtnlError::new(RtnlErrorKind::Unsupported, op)),
        _ => Err(RtnlError::new(RtnlErrorKind::Unexpected, op)),
    }
}

/// Maps a MAC lookup response to the caller's result: absence is tolerated
/// and reported as `None`, while failures keep their category.
pub fn interpret_mac_addr_response(op: &str, response: RtnlLinkResponse) -> (r: Result<
    Option<MacAddr>,
    RtnlError,
>)
    ensures
        match response {
            RtnlLinkResponse::MacAddr(m) => r == Ok::<Option<MacAddr>, RtnlError>(Some(m)),
            RtnlLinkResponse::NotFound => r == Ok::<Option<MacAddr>, RtnlError>(None),
            RtnlLinkResponse::Failed => r matches Err(e) && e.kind == RtnlErrorKind::Failed && e.op@
                == op@,
            RtnlLinkResponse::NotImplemented => r matches Err(e) && e.kind
                == RtnlErrorKind::Unsupported && e.op@ == op@,
            _ => r matches Err(e) && e.kind == RtnlErrorKind::Unexpected && e.op@ == op@,
        },
{
    match response {
        RtnlLinkResponse::MacAddr(m) => Ok(Some(m)),
        RtnlLinkResponse::NotFound => Ok(None),
        RtnlLinkResponse::Failed => Err(RtnlError::new(RtnlErrorKind::Failed, op)),
        RtnlLinkResponse::NotImplemented => Err(RtnlError::new(RtnlErrorKind::Unsupported, op)),
        _ => Err(RtnlError::new(RtnlErrorKind::Unexpected, op)),
    }
}

/// Maps an enumeration response to the caller's result.
pub fn interpret_interface_list_response(op: &str, response: RtnlLinkResponse) -> (r: Result<
    Vec<Interface>,
    RtnlError,
>)
    ensures
        match response {
            RtnlLinkResponse::InterfaceList(v) => r == Ok::<Vec<Interface>, RtnlError>(v),
            RtnlLinkResponse::NotFound => r matches Err(e) && e.kind == RtnlErrorKind::NotFound
                && e.op@ == op@,
            RtnlLinkResponse::Failed => r matches Err(e) && e.kind == RtnlErrorKind::Failed && e.op@
                == op@,
            RtnlLinkResponse::NotImplemented => r matches Err(e) && e.kind
                == RtnlErrorKind::Unsupported && e.op@ == op@,
            _ => r matches Err(e) && e.kind == RtnlErrorKind::Unexpected && e.op@ == op@,
        },
{
    match response {
        RtnlLinkResponse::InterfaceList(v) => Ok(v),
        RtnlLinkResponse::NotFound => Err(RtnlError::new(RtnlErrorKind::NotFound, op)),
        RtnlLinkResponse::Failed => Err(RtnlError::new(RtnlErrorKind::Failed, op)),
        RtnlLinkResponse::NotImplemented => Err(RtnlError::new(RtnlErrorKind::Unsupported, op)),
        _ => Err(RtnlError::new(RtnlErrorKind::Unexpected, op)),
    }
}

/// The synchronous client of the link subsystem. Every method sends exactly
/// one request and blocks until its paired response arrives.
#[derive(Clone, Debug)]
pub struct RtnlLinkClient {
    client: RequestSender<RtnlLinkRequest, RtnlLinkResponse>,
}

impl RtnlLinkClient {
    pub fn new(client: RequestSender<RtnlLinkRequest, RtnlLinkResponse>) -> Self {
        RtnlLinkClient { client }
    }

    pub fn interface_set_up(&self, if_id: u32) -> (r: Result<(), RtnlError>)
        ensures
            r matches Err(e) ==> e.op@ == "Set interface up"@ || e.op@ == "Set interface down"@,
    {
        self.interface_set_admin_state(if_id, true)
    }

    pub fn interface_set_down(&self, if_id: u32) -> (r: Result<(), RtnlError>)
        ensures
            r matches Err(e) ==> e.op@ == "Set interface up"@ || e.op@ == "Set interface down"@,
    {
        self.interface_set_admin_state(if_id, false)
    }

    pub fn interface_set_admin_state(&self, if_id: u32, up: bool) -> (r: Result<(), RtnlError>)
        ensures
            r matches Err(e) ==> (up ==> e.op@ == "Set interface up"@) && (!up ==> e.op@
                == "Set interface down"@),
    {
        let op = if up {
            "Set interface up"
        } else {
            "Set interface down"
        };
        match send_request(&self.client, RtnlLinkRequest::InterfaceSetAdmin { if_id, up }) {
            None => Err(RtnlError::new(RtnlErrorKind::Disconnected, op)),
            Some(res) => handle_status_response(op, res),
        }
    }

    pub fn interface_set_promiscuous(&self, if_id: u32, enable: bool) -> (r: Result<(), RtnlError>)
        ensures
            r matches Err(e) ==> (enable ==> e.op@ == "Enable promiscuous mode"@) && (!enable
                ==> e.op@ == "Disable promiscuous mode"@),
    {
        let op = if enable {
            "Enable promiscuous mode"
        } else {
            "Disable promiscuous mode"
        };
        match send_request(&self.client, RtnlLinkRequest::InterfaceSetPromisc { if_id, enable }) {
            None => Err(RtnlError::new(RtnlErrorKind::Disconnected, op)),
            Some(res) => handle_status_response(op, res),
        }
    }

    pub fn interface_set_arp(&self, if_id: u32, enable: bool) -> (r: Result<(), RtnlError>)
        ensures
            r matches Err(e) ==> (enable ==> e.op@ == "Enable ARP"@) && (!enable ==> e.op@
                == "Disable ARP"@),
    {
        let op = if enable {
            "Enable ARP"
        } else {
            "Disable ARP"
        };
        match send_request(&self.client, RtnlLinkRequest::InterfaceSetArp { if_id, enable }) {
            None => Err(RtnlError::new(RtnlErrorKind::Disconnected, op)),
            Some(res) => handle_status_response(op, res),
        }
    }

    pub fn interface_set_mtu(&self, if_id: u32, mtu: u32) -> (r: Result<(), RtnlError>)
        ensures
            r matches Err(e) ==> e.op@ == "Set MTU"@,
    {
        match send_request(&self.client, RtnlLinkRequest::InterfaceSetMtu { if_id, mtu }) {
            None => Err(RtnlError::new(RtnlErrorKind::Disconnected, "Set MTU")),
            Some(res) => handle_status_response("Set MTU", res),
        }
    }

    pub fn interface_rename(&self, if_id: u32, new_name: &str) -> (r: Result<(), RtnlError>)
        ensures
            r matches Err(e) ==> e.op@ == "Rename interface"@,
    {
        match send_request(
            &self.client,
            RtnlLinkRequest::InterfaceRename { if_id, if_name: new_name.to_owned() },
        ) {
            None => Err(RtnlError::new(RtnlErrorKind::Disconnected, "Rename interface")),
            Some(res) => handle_status_response("Rename interface", res),
        }
    }

    pub fn interface_get(&self, if_id: u32) -> (r: Result<Interface, RtnlError>)
        ensures
            r matches Err(e) ==> e.op@ == "Get interface"@,
    {
        match send_request(&self.client, RtnlLinkRequest::InterfaceGet { if_id }) {
            None => Err(RtnlError::new(RtnlErrorKind::Disconnected, "Get interface")),
            Some(res) => interpret_interface_response("Get interface", res),
        }
    }

    pub fn interface_get_by_name(&self, name: &str) -> (r: Result<Interface, RtnlError>)
        ensures
            r matches Err(e) ==> e.op@ == "Get interface by name"@,
    {
        match send_request(
            &self.client,
            RtnlLinkRequest::InterfaceGetByName { if_name: name.to_owned() },
        ) {
            None => Err(RtnlError::new(RtnlErrorKind::Disconnected, "Get interface by name")),
            Some(res) => interpret_interface_response("Get interface by name", res),
        }
    }

    pub fn mac_addr_get(&self, if_id: u32) -> (r: Result<Option<MacAddr>, RtnlError>)
        ensures
            r matches Err(e) ==> e.op@ == "Get MAC address"@,
    {
        match send_request(&self.client, RtnlLinkRequest::MacAddrGet { if_id }) {
            None => Err(RtnlError::new(RtnlErrorKind::Disconnected, "Get MAC address")),
            Some(res) => interpret_mac_addr_response("Get MAC address", res),
        }
    }

    pub fn mtu_get(&self, if_id: u32) -> (r: Result<u32, RtnlError>)
        ensures
            r matches Err(e) ==> e.op@ == "Get MTU"@,
    {
        match send_request(&self.client, RtnlLinkRequest::MtuGet { if_id }) {
            None => Err(RtnlError::new(RtnlErrorKind::Disconnected, "Get MTU")),
            Some(res) => interpret_mtu_response("Get MTU", res),
        }
    }

    pub fn mac_addr_set(&self, if_id: u32, mac_addr: MacAddr) -> (r: Result<(), RtnlError>)
        ensures
            r matches Err(e) ==> e.op@ == "Set MAC address"@,
    {
        match send_request(&self.client, RtnlLinkRequest::MacAddrSet { if_id, mac_addr }) {
            None => Err(RtnlError::new(RtnlErrorKind::Disconnected, "Set MAC address")),
            Some(res) => handle_status_response("Set MAC address", res),
        }
    }

    pub fn interface_set_all_multicast(&self, if_id: u32, enable: bool) -> (r: Result<
        (),
        RtnlError,
    >)
        ensures
            r matches Err(e) ==> (enable ==> e.op@ == "Enable all-multicast"@) && (!enable ==> e.op@
                == "Disable all-multicast"@),
    {
        let op = if enable {
            "Enable all-multicast"
        } else {
            "Disable all-multicast"
        };
        match send_request(
            &self.client,
            RtnlLinkRequest::InterfaceSetAllMulticast { if_id, enable },
        ) {
            None => Err(RtnlError::new(RtnlErrorKind::Disconnected, op)),
            Some(res) => handle_status_response(op, res),
        }
    }

    pub fn interface_list(&self) -> (r: Result<Vec<Interface>, RtnlError>)
        ensures
            r matches Err(e) ==> e.op@ == "List interfaces"@,
    {
        match send_request(&self.client, RtnlLinkRequest::InterfaceList) {
            None => Err(RtnlError::new(RtnlErrorKind::Disconnected, "List interfaces")),
            Some(res) => interpret_interface_list_response("List interfaces", res),
        }
    }
}

} // verus!
