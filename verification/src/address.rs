//! The address subsystem: listing, adding and deleting IPv4/IPv6 address
//! prefixes on interfaces.
//!
//! Adding an already-present address succeeds (the operation is
//! idempotent); deleting an absent one is not-found. Every set or delete
//! on interface index 0 fails before any wire interaction.

use vstd::prelude::*;

use crate::channel::{send_request, RequestSender};
use crate::errors::{RtnlError, RtnlErrorKind};
use crate::types::{IpAddress, Ipv4Address, Ipv4Prefix, Ipv6Address, Ipv6Prefix};
use crate::wire::{FamilyTag, KernelOutcome};

verus! {

/// The closed request vocabulary of the address subsystem. A get with
/// interface 0 means "all interfaces".
#[derive(Clone, Copy, PartialEq, Eq, Structural, Debug)]
#[non_exhaustive]
pub enum RtnlAddressRequest {
    Ipv4AddrsGet { if_id: u32 },
    Ipv6AddrsGet { if_id: u32 },
    Ipv4AddrSet { prefix: Ipv4Prefix, if_id: u32 },
    Ipv6AddrSet { prefix: Ipv6Prefix, if_id: u32 },
    Ipv4AddrDel { prefix: Ipv4Prefix, if_id: u32 },
    Ipv6AddrDel { prefix: Ipv6Prefix, if_id: u32 },
}

/// The closed response vocabulary of the address subsystem.
#[derive(Clone, PartialEq, Debug)]
#[non_exhaustive]
pub enum RtnlAddressResponse {
    Success,
    Failed,
    NotImplemented,
    NotFound,
    Ipv4Addrs(Vec<Ipv4Address>),
    Ipv6Addrs(Vec<Ipv6Address>),
}

/// One attribute of a kernel address message, reduced to the fields this
/// subsystem reads or writes.
#[derive(Clone, Copy, PartialEq, Eq, Structural, Debug)]
pub enum AddressAttr {
    AddressV4(Ipv4Address),
    AddressV6(Ipv6Address),
    LocalV4(Ipv4Address),
    LocalV6(Ipv6Address),
    BroadcastV4(Ipv4Address),
    MulticastV6(Ipv6Address),
    Other,
}

/// One kernel address message: the header fields and the attribute list.
#[derive(Clone, PartialEq, Debug)]
pub struct AddressMessageData {
    pub family: FamilyTag,
    pub if_id: u32,
    pub prefix_len: u8,
    pub attrs: Vec<AddressAttr>,
}

/// The attributes of a built IPv4 address message: a multicast address
/// attaches nothing; any other attaches "address" and "local" plus the
/// derived broadcast address — the prefix address with every host bit
/// set, the address itself for a /32.
pub open spec fn spec_v4_message_attrs(prefix: Ipv4Prefix) -> Seq<AddressAttr> {
    if prefix.addr.spec_is_multicast() {
        Seq::empty()
    } else {
        seq![
            AddressAttr::AddressV4(prefix.addr),
            AddressAttr::LocalV4(prefix.addr),
            AddressAttr::BroadcastV4(prefix.spec_broadcast()),
        ]
    }
}

/// The attributes of a built IPv6 address message: a multicast address
/// attaches only the "multicast" attribute; a unicast one attaches
/// "address" and "local".
pub open spec fn spec_v6_message_attrs(prefix: Ipv6Prefix) -> Seq<AddressAttr> {
    if prefix.addr.spec_is_multicast() {
        seq![AddressAttr::MulticastV6(prefix.addr)]
    } else {
        seq![AddressAttr::AddressV6(prefix.addr), AddressAttr::LocalV6(prefix.addr)]
    }
}

/// Builds the wire message of an IPv4 address operation.
pub fn build_ipv4_address_message(prefix: &Ipv4Prefix, if_id: u32) -> (r: AddressMessageData)
    ensures
        r.family == FamilyTag::V4,
        r.if_id == if_id,
        r.prefix_len == prefix.prefix_len,
        r.attrs@ == spec_v4_message_attrs(*prefix),
{
    let mut attrs: Vec<AddressAttr> = Vec::new();
    let addr = prefix.addr();
    if !addr.is_multicast() {
        attrs.push(AddressAttr::AddressV4(addr));
        attrs.push(AddressAttr::LocalV4(addr));
        attrs.push(AddressAttr::BroadcastV4(prefix.broadcast()));
    }
    proof {
        assert(attrs@ =~= spec_v4_message_attrs(*prefix));
    }
    AddressMessageData { family: FamilyTag::V4, if_id, prefix_len: prefix.prefix_len(), attrs }
}

/// Builds the wire message of an IPv6 address operation.
pub fn build_ipv6_address_message(prefix: &Ipv6Prefix, if_id: u32) -> (r: AddressMessageData)
    ensures
        r.family == FamilyTag::V6,
        r.if_id == if_id,
        r.prefix_len == prefix.prefix_len,
        r.attrs@ == spec_v6_message_attrs(*prefix),
{
    let mut attrs: Vec<AddressAttr> = Vec::new();
    let addr = prefix.addr();
    if addr.is_multicast() {
        attrs.push(AddressAttr::MulticastV6(addr));
    } else {
        attrs.push(AddressAttr::AddressV6(addr));
        attrs.push(AddressAttr::LocalV6(addr));
    }
    proof {
        assert(attrs@ =~= spec_v6_message_attrs(*prefix));
    }
    AddressMessageData { family: FamilyTag::V6, if_id, prefix_len: prefix.prefix_len(), attrs }
}

/// The IPv4 addresses carried by one message's attributes, in order.
pub open spec fn spec_v4_addrs_in(attrs: Seq<AddressAttr>) -> Seq<Ipv4Address>
    decreases attrs.len(),
{
    if attrs.len() == 0 {
        Seq::empty()
    } else {
        spec_v4_addrs_in(attrs.drop_last()) + (match attrs.last() {
            AddressAttr::AddressV4(a) => seq![a],
            _ => Seq::empty(),
        })
    }
}

/// The IPv6 addresses carried by one message's attributes, in order.
pub open spec fn spec_v6_addrs_in(attrs: Seq<AddressAttr>) -> Seq<Ipv6Address>
    decreases attrs.len(),
{
    if attrs.len() == 0 {
        Seq::empty()
    } else {
        spec_v6_addrs_in(attrs.drop_last()) + (match attrs.last() {
            AddressAttr::AddressV6(a) => seq![a],
            _ => Seq::empty(),
        })
    }
}

/// Every IPv4 address in the replies: address attributes of messages of
/// the IPv4 family, in reply order; other families are skipped.
pub open spec fn spec_collect_v4(msgs: Seq<AddressMessageData>) -> Seq<Ipv4Address>
    decreases msgs.len(),
{
    if msgs.len() == 0 {
        Seq::empty()
    } else {
        spec_collect_v4(msgs.drop_last()) + (if msgs.last().family == FamilyTag::V4 {
            spec_v4_addrs_in(msgs.last().attrs@)
        } else {
            Seq::empty()
        })
    }
}

/// Every IPv6 address in the replies.
pub open spec fn spec_collect_v6(msgs: Seq<AddressMessageData>) -> Seq<Ipv6Address>
    decreases msgs.len(),
{
    if msgs.len() == 0 {
        Seq::empty()
    } else {
        spec_collect_v6(msgs.drop_last()) + (if msgs.last().family == FamilyTag::V6 {
            spec_v6_addrs_in(msgs.last().attrs@)
        } else {
            Seq::empty()
        })
    }
}

/// Collects the IPv4 address attributes of one message.
fn v4_addrs_in(attrs: &Vec<AddressAttr>) -> (r: Vec<Ipv4Address>)
    ensures
        r@ == spec_v4_addrs_in(attrs@),
{
    let mut out: Vec<Ipv4Address> = Vec::new();
    let mut i: usize = 0;
    proof {
        assert(attrs@.take(0) =~= Seq::<AddressAttr>::empty());
    }
    while i < attrs.len()
        invariant
            i <= attrs@.len(),
            out@ == spec_v4_addrs_in(attrs@.take(i as int)),
        decreases attrs@.len() - i,
    {
        proof {
            assert(attrs@.take(i + 1).drop_last() =~= attrs@.take(i as int));
            assert(attrs@.take(i + 1).last() == attrs@[i as int]);
        }
        if let AddressAttr::AddressV4(a) = attrs[i] {
            out.push(a);
        }
        proof {
            assert(out@ =~= spec_v4_addrs_in(attrs@.take(i + 1)));
        }
        i = i + 1;
    }
    proof {
        assert(attrs@.take(attrs@.len() as int) =~= attrs@);
    }
    out
}

/// Collects the IPv6 address attributes of one message.
fn v6_addrs_in(attrs: &Vec<AddressAttr>) -> (r: Vec<Ipv6Address>)
    ensures
        r@ == spec_v6_addrs_in(attrs@),
{
    let mut out: Vec<Ipv6Address> = Vec::new();
    let mut i: usize = 0;
    proof {
        assert(attrs@.take(0) =~= Seq::<AddressAttr>::empty());
    }
    while i < attrs.len()
        invariant
            i <= attrs@.len(),
            out@ == spec_v6_addrs_in(attrs@.take(i as int)),
        decreases attrs@.len() - i,
    {
        proof {
            assert(attrs@.take(i + 1).drop_last() =~= attrs@.take(i as int));
            assert(attrs@.take(i + 1).last() == attrs@[i as int]);
        }
        if let AddressAttr::AddressV6(a) = attrs[i] {
            out.push(a);
        }
        proof {
            assert(out@ =~= spec_v6_addrs_in(attrs@.take(i + 1)));
        }
        i = i + 1;
    }
    proof {
        assert(attrs@.take(attrs@.len() as int) =~= attrs@);
    }
    out
}

/// Answers an IPv4 address listing from the collected replies.
pub fn collect_ipv4_addresses(msgs: &Vec<AddressMessageData>) -> (r: RtnlAddressResponse)
    ensures
        r matches RtnlAddressResponse::Ipv4Addrs(v) && v@ == spec_collect_v4(msgs@),
{
    let mut out: Vec<Ipv4Address> = Vec::new();
    let mut i: usize = 0;
    proof {
        assert(msgs@.take(0) =~= Seq::<AddressMessageData>::empty());
    }
    while i < msgs.len()
        invariant
            i <= msgs@.len(),
            out@ == spec_collect_v4(msgs@.take(i as int)),
        decreases msgs@.len() - i,
    {
        proof {
            assert(msgs@.take(i + 1).drop_last() =~= msgs@.take(i as int));
            assert(msgs@.take(i + 1).last() == msgs@[i as int]);
        }
        if msgs[i].family == FamilyTag::V4 {
            let mut found = v4_addrs_in(&msgs[i].attrs);
            out.append(&mut found);
        }
        proof {
            assert(out@ =~= spec_collect_v4(msgs@.take(i + 1)));
        }
        i = i + 1;
    }
    proof {
        assert(msgs@.take(msgs@.len() as int) =~= msgs@);
    }
    RtnlAddressResponse::Ipv4Addrs(out)
}

/// Answers an IPv6 address listing from the collected replies.
pub fn collect_ipv6_addresses(msgs: &Vec<AddressMessageData>) -> (r: RtnlAddressResponse)
    ensures
        r matches RtnlAddressResponse::Ipv6Addrs(v) && v@ == spec_collect_v6(msgs@),
{
    let mut out: Vec<Ipv6Address> = Vec::new();
    let mut i: usize = 0;
    proof {
        assert(msgs@.take(0) =~= Seq::<AddressMessageData>::empty());
    }
    while i < msgs.len()
        invariant
            i <= msgs@.len(),
            out@ == spec_collect_v6(msgs@.take(i as int)),
        decreases msgs@.len() - i,
    {
        proof {
            assert(msgs@.take(i + 1).drop_last() =~= msgs@.take(i as int));
            assert(msgs@.take(i + 1).last() == msgs@[i as int]);
        }
        if msgs[i].family == FamilyTag::V6 {
            let mut found = v6_addrs_in(&msgs[i].attrs);
            out.append(&mut found);
        }
        proof {
            assert(out@ =~= spec_collect_v6(msgs@.take(i + 1)));
        }
        i = i + 1;
    }
    proof {
        assert(msgs@.take(msgs@.len() as int) =~= msgs@);
    }
    RtnlAddressResponse::Ipv6Addrs(out)
}

/// What the server does for one address request: answer at once, or one
/// wire operation.
#[derive(Clone, PartialEq, Debug)]
pub enum AddressPlan {
    Respond(RtnlAddressResponse),
    GetV4 { if_id: u32 },
    GetV6 { if_id: u32 },
    Add { if_id: u32, address: IpAddress, prefix_len: u8 },
    Del { message: AddressMessageData },
}

/// Whether an address request is a set or delete aimed at interface
/// index 0.
pub open spec fn spec_address_targets_index_zero(req: RtnlAddressRequest) -> bool {
    match req {
        RtnlAddressRequest::Ipv4AddrsGet { .. } => false,
        RtnlAddressRequest::Ipv6AddrsGet { .. } => false,
        RtnlAddressRequest::Ipv4AddrSet { if_id, .. } => if_id == 0,
        RtnlAddressRequest::Ipv6AddrSet { if_id, .. } => if_id == 0,
        RtnlAddressRequest::Ipv4AddrDel { if_id, .. } => if_id == 0,
        RtnlAddressRequest::Ipv6AddrDel { if_id, .. } => if_id == 0,
    }
}

/// Decides the server's step for one address request. A set or delete on
/// interface index 0 fails fast here, before any wire operation; a get
/// with index 0 enumerates all interfaces.
pub fn address_request_plan(req: &RtnlAddressRequest) -> (r: AddressPlan)
    ensures
        spec_address_targets_index_zero(*req) ==> r == (AddressPlan::Respond(
            RtnlAddressResponse::Failed,
        )),
        !spec_address_targets_index_zero(*req) ==> match *req {
            RtnlAddressRequest::Ipv4AddrsGet { if_id } => r == (AddressPlan::GetV4 { if_id }),
            RtnlAddressRequest::Ipv6AddrsGet { if_id } => r == (AddressPlan::GetV6 { if_id }),
            RtnlAddressRequest::Ipv4AddrSet { prefix, if_id } => r == (AddressPlan::Add {
                if_id,
                address: IpAddress::V4(prefix.addr),
                prefix_len: prefix.prefix_len,
            }),
            RtnlAddressRequest::Ipv6AddrSet { prefix, if_id } => r == (AddressPlan::Add {
                if_id,
                address: IpAddress::V6(prefix.addr),
                prefix_len: prefix.prefix_len,
            }),
            RtnlAddressRequest::Ipv4AddrDel { prefix, if_id } => (r matches AddressPlan::Del {
                message } && message.family == FamilyTag::V4 && message.if_id == if_id
                && message.prefix_len == prefix.prefix_len && message.attrs@
                == spec_v4_message_attrs(prefix)),
            RtnlAddressRequest::Ipv6AddrDel { prefix, if_id } => (r matches AddressPlan::Del {
                message } && message.family == FamilyTag::V6 && message.if_id == if_id
                && message.prefix_len == prefix.prefix_len && message.attrs@
                == spec_v6_message_attrs(prefix)),
        },
{
    match req {
        RtnlAddressRequest::Ipv4AddrsGet { if_id } => AddressPlan::GetV4 { if_id: *if_id },
        RtnlAddressRequest::Ipv6AddrsGet { if_id } => AddressPlan::GetV6 { if_id: *if_id },
        RtnlAddressRequest::Ipv4AddrSet { prefix, if_id } => {
            if *if_id == 0 {
                AddressPlan::Respond(RtnlAddressResponse::Failed)
            } else {
                AddressPlan::Add {
                    if_id: *if_id,
                    address: IpAddress::V4(prefix.addr()),
                    prefix_len: prefix.prefix_len(),
                }
            }
        },
        RtnlAddressRequest::Ipv6AddrSet { prefix, if_id } => {
            if *if_id == 0 {
                AddressPlan::Respond(RtnlAddressResponse::Failed)
            } else {
                AddressPlan::Add {
                    if_id: *if_id,
                    address: IpAddress::V6(prefix.addr()),
                    prefix_len: prefix.prefix_len(),
                }
            }
        },
        RtnlAddressRequest::Ipv4AddrDel { prefix, if_id } => {
            if *if_id == 0 {
                AddressPlan::Respond(RtnlAddressResponse::Failed)
            } else {
                AddressPlan::Del { message: build_ipv4_address_message(prefix, *if_id) }
            }
        },
        RtnlAddressRequest::Ipv6AddrDel { prefix, if_id } => {
            if *if_id == 0 {
                AddressPlan::Respond(RtnlAddressResponse::Failed)
            } else {
                AddressPlan::Del { message: build_ipv6_address_message(prefix, *if_id) }
            }
        },
    }
}

/// The response an address add maps to: an already-present address is a
/// success — the operation is idempotent — and every other rejection is a
/// failure.
pub open spec fn spec_address_set_response(outcome: KernelOutcome) -> RtnlAddressResponse {
    match outcome {
        KernelOutcome::Accepted => RtnlAddressResponse::Success,
        KernelOutcome::AlreadyExists => RtnlAddressResponse::Success,
        KernelOutcome::NotFound => RtnlAddressResponse::Failed,
        KernelOutcome::AddressUnavailable => RtnlAddressResponse::Failed,
        KernelOutcome::OtherError => RtnlAddressResponse::Failed,
    }
}

/// Maps the categorized outcome of an address add to the subsystem
/// response.
pub fn address_set_response(outcome: KernelOutcome) -> (r: RtnlAddressResponse)
    ensures
        r == spec_address_set_response(outcome),
{
    match outcome {
        KernelOutcome::Accepted => RtnlAddressResponse::Success,
        KernelOutcome::AlreadyExists => RtnlAddressResponse::Success,
        _ => RtnlAddressResponse::Failed,
    }
}

/// Address add is idempotent: whether the kernel accepts the add or
/// reports the address already present — as it does when the same prefix
/// is added a second time — the response is success.
pub proof fn lemma_address_add_idempotent()
    ensures
        spec_address_set_response(KernelOutcome::Accepted) == RtnlAddressResponse::Success,
        spec_address_set_response(KernelOutcome::AlreadyExists) == RtnlAddressResponse::Success,
{
}

/// The response an address delete maps to: an absent target — a kernel
/// not-found or "address not available" — is not-found; every other
/// rejection is a failure.
pub open spec fn spec_address_del_response(outcome: KernelOutcome) -> RtnlAddressResponse {
    match outcome {
        KernelOutcome::Accepted => RtnlAddressResponse::Success,
        KernelOutcome::NotFound => RtnlAddressResponse::NotFound,
        KernelOutcome::AddressUnavailable => RtnlAddressResponse::NotFound,
        KernelOutcome::AlreadyExists => RtnlAddressResponse::Failed,
        KernelOutcome::OtherError => RtnlAddressResponse::Failed,
    }
}

/// Maps the categorized outcome of an address delete to the subsystem
/// response.
pub fn address_del_response(outcome: KernelOutcome) -> (r: RtnlAddressResponse)
    ensures
        r == spec_address_del_response(outcome),
{
    match outcome {
        KernelOutcome::Accepted => RtnlAddressResponse::Success,
        KernelOutcome::NotFound => RtnlAddressResponse::NotFound,
        KernelOutcome::AddressUnavailable => RtnlAddressResponse::NotFound,
        _ => RtnlAddressResponse::Failed,
    }
}

/// Maps a status-only address response to the caller's result.
pub fn handle_basic_response(op: &str, response: RtnlAddressResponse) -> (r: Result<(), RtnlError>)
    ensures
        match response {
            RtnlAddressResponse::Success => r is Ok,
            RtnlAddressResponse::NotFound => r matches Err(e) && e.kind == RtnlErrorKind::NotFound
                && e.op@ == op@,
            RtnlAddressResponse::Failed => r matches Err(e) && e.kind == RtnlErrorKind::Failed
                && e.op@ == op@,
            RtnlAddressResponse::NotImplemented => r matches Err(e) && e.kind
                == RtnlErrorKind::Unsupported && e.op@ == op@,
            _ => r matches Err(e) && e.kind == RtnlErrorKind::Unexpected && e.op@ == op@,
        },
{
    match response {
        RtnlAddressResponse::Success => Ok(()),
        RtnlAddressResponse::NotFound => Err(RtnlError::new(RtnlErrorKind::NotFound, op)),
        RtnlAddressResponse::Failed => Err(RtnlError::new(RtnlErrorKind::Failed, op)),
        RtnlAddressResponse::NotImplemented => Err(RtnlError::new(RtnlErrorKind::Unsupported, op)),
        _ => Err(RtnlError::new(RtnlErrorKind::Unexpected, op)),
    }
}

/// Maps an IPv4 listing response to the caller's result.
pub fn interpret_ipv4_addrs_response(op: &str, response: RtnlAddressResponse) -> (r: Result<
    Vec<Ipv4Address>,
    RtnlError,
>)
    ensures
        match response {
            RtnlAddressResponse::Ipv4Addrs(v) => r == Ok::<Vec<Ipv4Address>, RtnlError>(v),
            RtnlAddressResponse::NotFound => r matches Err(e) && e.kind == RtnlErrorKind::NotFound
                && e.op@ == op@,
            RtnlAddressResponse::Failed => r matches Err(e) && e.kind == RtnlErrorKind::Failed
                && e.op@ == op@,
            RtnlAddressResponse::NotImplemented => r matches Err(e) && e.kind
                == RtnlErrorKind::Unsupported && e.op@ == op@,
            _ => r matches Err(e) && e.kind == RtnlErrorKind::Unexpected && e.op@ == op@,
        },
{
    match response {
        RtnlAddressResponse::Ipv4Addrs(v) => Ok(v),
        RtnlAddressResponse::NotFound => Err(RtnlError::new(RtnlErrorKind::NotFound, op)),
        RtnlAddressResponse::Failed => Err(RtnlError::new(RtnlErrorKind::Failed, op)),
        RtnlAddressResponse::NotImplemented => Err(RtnlError::new(RtnlErrorKind::Unsupported, op)),
        _ => Err(RtnlError::new(RtnlErrorKind::Unexpected, op)),
    }
}

/// Maps an IPv6 listing response to the caller's result.
pub fn interpret_ipv6_addrs_response(op: &str, response: RtnlAddressResponse) -> (r: Result<
    Vec<Ipv6Address>,
    RtnlError,
>)
    ensures
        match response {
            RtnlAddressResponse::Ipv6Addrs(v) => r == Ok::<Vec<Ipv6Address>, RtnlError>(v),
            RtnlAddressResponse::NotFound => r matches Err(e) && e.kind == RtnlErrorKind::NotFound
                && e.op@ == op@,
            RtnlAddressResponse::Failed => r matches Err(e) && e.kind == RtnlErrorKind::Failed
                && e.op@ == op@,
            RtnlAddressResponse::NotImplemented => r matches Err(e) && e.kind
                == RtnlErrorKind::Unsupported && e.op@ == op@,
            _ => r matches Err(e) && e.kind == RtnlErrorKind::Unexpected && e.op@ == op@,
        },
{
    match response {
        RtnlAddressResponse::Ipv6Addrs(v) => Ok(v),
        RtnlAddressResponse::NotFound => Err(RtnlError::new(RtnlErrorKind::NotFound, op)),
        RtnlAddressResponse::Failed => Err(RtnlError::new(RtnlErrorKind::Failed, op)),
        RtnlAddressResponse::NotImplemented => Err(RtnlError::new(RtnlErrorKind::Unsupported, op)),
        _ => Err(RtnlError::new(RtnlErrorKind::Unexpected, op)),
    }
}

/// The synchronous client of the address subsystem.
#[derive(Clone, Debug)]
pub struct RtnlAddressClient {
    client: RequestSender<RtnlAddressRequest, RtnlAddressResponse>,
}

impl RtnlAddressClient {
    pub fn new(client: RequestSender<RtnlAddressRequest, RtnlAddressResponse>) -> Self {
        RtnlAddressClient { client }
    }

    pub fn ipv4_addrs_get(&self, if_id: Option<u32>) -> (r: Result<Vec<Ipv4Address>, RtnlError>)
        ensures
            r matches Err(e) ==> e.op@ == "IPv4 addresses get"@,
    {
        let scope: u32 = match if_id {
            Some(ix) => ix,
            None => 0,
        };
        match send_request(&self.client, RtnlAddressRequest::Ipv4AddrsGet { if_id: scope }) {
            None => Err(RtnlError::new(RtnlErrorKind::Disconnected, "IPv4 addresses get")),
            Some(res) => interpret_ipv4_addrs_response("IPv4 addresses get", res),
        }
    }

    pub fn ipv6_addrs_get(&self, if_id: Option<u32>) -> (r: Result<Vec<Ipv6Address>, RtnlError>)
        ensures
            r matches Err(e) ==> e.op@ == "IPv6 addresses get"@,
    {
        let scope: u32 = match if_id {
            Some(ix) => ix,
            None => 0,
        };
        match send_request(&self.client, RtnlAddressRequest::Ipv6AddrsGet { if_id: scope }) {
            None => Err(RtnlError::new(RtnlErrorKind::Disconnected, "IPv6 addresses get")),
            Some(res) => interpret_ipv6_addrs_response("IPv6 addresses get", res),
        }
    }

    pub fn ipv4_addr_set(&self, if_id: u32, prefix: Ipv4Prefix) -> (r: Result<(), RtnlError>)
        ensures
            r matches Err(e) ==> e.op@ == "IPv4 address set"@,
    {
        match send_request(&self.client, RtnlAddressRequest::Ipv4AddrSet { prefix, if_id }) {
            None => Err(RtnlError::new(RtnlErrorKind::Disconnected, "IPv4 address set")),
            Some(res) => handle_basic_response("IPv4 address set", res),
        }
    }

    pub fn ipv6_addr_set(&self, if_id: u32, prefix: Ipv6Prefix) -> (r: Result<(), RtnlError>)
        ensures
            r matches Err(e) ==> e.op@ == "IPv6 address set"@,
    {
        match send_request(&self.client, RtnlAddressRequest::Ipv6AddrSet { prefix, if_id }) {
            None => Err(RtnlError::new(RtnlErrorKind::Disconnected, "IPv6 address set")),
            Some(res) => handle_basic_response("IPv6 address set", res),
        }
    }

    pub fn ipv4_addr_del(&self, if_id: u32, prefix: Ipv4Prefix) -> (r: Result<(), RtnlError>)
        ensures
            r matches Err(e) ==> e.op@ == "IPv4 address delete"@,
    {
        match send_request(&self.client, RtnlAddressRequest::Ipv4AddrDel { prefix, if_id }) {
            None => Err(RtnlError::new(RtnlErrorKind::Disconnected, "IPv4 address delete")),
            Some(res) => handle_basic_response("IPv4 address delete", res),
        }
    }

    pub fn ipv6_addr_del(&self, if_id: u32, prefix: Ipv6Prefix) -> (r: Result<(), RtnlError>)
        ensures
            r matches Err(e) ==> e.op@ == "IPv6 address delete"@,
    {
        match send_request(&self.client, RtnlAddressRequest::Ipv6AddrDel { prefix, if_id }) {
            None => Err(RtnlError::new(RtnlErrorKind::Disconnected, "IPv6 address delete")),
            Some(res) => handle_basic_response("IPv6 address delete", res),
        }
    }
}

} // verus!
