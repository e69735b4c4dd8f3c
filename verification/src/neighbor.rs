//! The neighbor (ARP/NDP) subsystem: adding, replacing, deleting, listing
//! and looking up neighbor table entries.
//!
//! List and get enumerate the full table and filter client-side. A
//! decoded entry whose header state is unspecified carries no state; one
//! with an empty flag set carries no flags.

use vstd::prelude::*;

use crate::channel::{send_request, RequestSender};
use crate::errors::{RtnlError, RtnlErrorKind};
use crate::types::{IpAddress, Ipv4Address, Ipv6Address};
use crate::wire::{FamilyTag, KernelOutcome};

verus! {

/// The protocol state of a neighbor entry, as the kernel reports it.
/// `Unspecified` is the wire value 0, which decodes to "no recorded
/// state"; unknown values are carried through as `Other`.
#[derive(Clone, Copy, PartialEq, Eq, Structural, Debug)]
pub enum NeighbourState {
    Incomplete,
    Reachable,
    Stale,
    Delay,
    Probe,
    Failed,
    Noarp,
    Permanent,
    Unspecified,
    Other(u16),
}

/// The flag bits of a neighbor entry (router, proxy, sticky and the
/// rest), carried through as a bit set.
#[derive(Clone, Copy, PartialEq, Eq, Structural, Debug, Default)]
pub struct NeighbourFlags {
    pub bits: u8,
}

impl NeighbourFlags {
    pub open spec fn spec_is_empty(self) -> bool {
        self.bits == 0
    }

    pub fn is_empty(&self) -> (r: bool)
        ensures
            r == self.spec_is_empty(),
    {
        self.bits == 0
    }
}

/// One neighbor table entry: destination, owning interface, optional
/// link-layer address, optional protocol state, optional flag set.
#[derive(PartialEq, Debug)]
pub struct NeighborEntry {
    pub if_id: u32,
    pub destination: IpAddress,
    pub link_address: Option<Vec<u8>>,
    pub state: Option<NeighbourState>,
    pub flags: Option<NeighbourFlags>,
}

/// A request to delete a neighbor entry: the destination and interface,
/// with optional link-layer address, state and flags for the message.
#[derive(PartialEq, Debug)]
pub struct NeighborDelete {
    pub if_id: u32,
    pub destination: IpAddress,
    pub link_address: Option<Vec<u8>>,
    pub state: Option<NeighbourState>,
    pub flags: Option<NeighbourFlags>,
}

/// The closed request vocabulary of the neighbor subsystem.
#[derive(PartialEq, Debug)]
#[non_exhaustive]
pub enum RtnlNeighborRequest {
    Add(NeighborEntry),
    Change(NeighborEntry),
    Delete(NeighborDelete),
    List { if_id: Option<u32> },
    Get { destination: IpAddress, if_id: Option<u32> },
}

/// The closed response vocabulary of the neighbor subsystem.
#[derive(PartialEq, Debug)]
#[non_exhaustive]
pub enum RtnlNeighborResponse {
    Success,
    Failed,
    NotImplemented,
    NotFound,
    Neighbors(Vec<NeighborEntry>),
    Neighbor(NeighborEntry),
}

/// One attribute of a kernel neighbor message, reduced to what this
/// subsystem reads; a destination of an unsupported family is kept as
/// `DestinationOther` so the decoder can reject the entry.
#[derive(PartialEq, Debug)]
pub enum NeighbourAttr {
    DestinationV4(Ipv4Address),
    DestinationV6(Ipv6Address),
    DestinationOther,
    LinkLocalAddress(Vec<u8>),
    Other,
}

/// One kernel neighbor message: header fields and the attribute list.
#[derive(PartialEq, Debug)]
pub struct NeighbourMessageData {
    pub family: FamilyTag,
    pub ifindex: u32,
    pub state: NeighbourState,
    pub flags: NeighbourFlags,
    pub attrs: Vec<NeighbourAttr>,
}

/// The destination carried by a neighbor message: the last destination
/// attribute wins; `Some(None)` records a destination of an unsupported
/// family.
pub open spec fn spec_last_dest(attrs: Seq<NeighbourAttr>) -> Option<Option<IpAddress>>
    decreases attrs.len(),
{
    if attrs.len() == 0 {
        None
    } else {
        match attrs.last() {
            NeighbourAttr::DestinationV4(a) => Some(Some(IpAddress::V4(a))),
            NeighbourAttr::DestinationV6(a) => Some(Some(IpAddress::V6(a))),
            NeighbourAttr::DestinationOther => Some(None),
            _ => spec_last_dest(attrs.drop_last()),
        }
    }
}

/// The link-layer address carried by a neighbor message: the last such
/// attribute wins.
pub open spec fn spec_last_lladdr(attrs: Seq<NeighbourAttr>) -> Option<Seq<u8>>
    decreases attrs.len(),
{
    if attrs.len() == 0 {
        None
    } else {
        match attrs.last() {
            NeighbourAttr::LinkLocalAddress(b) => Some(b@),
            _ => spec_last_lladdr(attrs.drop_last()),
        }
    }
}

/// Whether a neighbor message decodes to an entry: it must carry a
/// destination of a supported family.
pub open spec fn spec_neighbor_decodes(msg: NeighbourMessageData) -> bool {
    spec_last_dest(msg.attrs@) matches Some(d) && d is Some
}

/// Whether `e` is exactly the decoding of the neighbor message `msg`:
/// the last destination and link-layer attributes win, an unspecified
/// state is normalized to absent, and an empty flag set is normalized to
/// absent.
pub open spec fn spec_is_neighbor_entry(msg: NeighbourMessageData, e: NeighborEntry) -> bool {
    &&& e.if_id == msg.ifindex
    &&& (spec_last_dest(msg.attrs@) matches Some(d) && d == Some(e.destination))
    &&& (match spec_last_lladdr(msg.attrs@) {
        Some(b) => e.link_address matches Some(v) && v@ == b,
        None => e.link_address is None,
    })
    &&& e.state == (if msg.state == NeighbourState::Unspecified {
        Option::<NeighbourState>::None
    } else {
        Some(msg.state)
    })
    &&& e.flags == (if msg.flags.spec_is_empty() {
        Option::<NeighbourFlags>::None
    } else {
        Some(msg.flags)
    })
}

/// Decodes one neighbor message into a table entry; a message without a
/// destination of a supported family yields nothing.
pub fn neighbor_from_message(message: NeighbourMessageData) -> (r: Option<NeighborEntry>)
    ensures
        spec_neighbor_decodes(message) ==> (r matches Some(e) && spec_is_neighbor_entry(
            message,
            e,
        )),
        !spec_neighbor_decodes(message) ==> r is None,
{
    let NeighbourMessageData { family: _, ifindex, state, flags, attrs } = message;
    let ghost orig = attrs@;
    let mut attrs = attrs;
    let total: usize = attrs.len();
    proof {
        assert(orig.len() == total);
    }
    let mut dest: Option<Option<IpAddress>> = None;
    let mut link_address: Option<Vec<u8>> = None;
    let mut i: usize = 0;
    proof {
        assert(orig.take(0) =~= Seq::<NeighbourAttr>::empty());
        assert(attrs@ =~= orig.skip(0));
    }
    while attrs.len() > 0
        invariant
            i <= orig.len() <= usize::MAX,
            attrs@ == orig.skip(i as int),
            dest == spec_last_dest(orig.take(i as int)),
            (match spec_last_lladdr(orig.take(i as int)) {
                Some(b) => link_address matches Some(v) && v@ == b,
                None => link_address is None,
            }),
        decreases attrs@.len(),
    {
        proof {
            assert(orig.skip(i as int)[0] == orig[i as int]);
            assert(orig.skip(i as int).skip(1) =~= orig.skip(i + 1));
            assert(orig.take(i + 1).drop_last() =~= orig.take(i as int));
            assert(orig.take(i + 1).last() == orig[i as int]);
        }
        let attr = attrs.remove(0);
        match attr {
            NeighbourAttr::DestinationV4(a) => {
                dest = Some(Some(IpAddress::V4(a)));
            },
            NeighbourAttr::DestinationV6(a) => {
                dest = Some(Some(IpAddress::V6(a)));
            },
            NeighbourAttr::DestinationOther => {
                dest = Some(None);
            },
            NeighbourAttr::LinkLocalAddress(b) => {
                link_address = Some(b);
            },
            NeighbourAttr::Other => {},
        }
        i = i + 1;
    }
    proof {
        assert(orig.take(orig.len() as int) =~= orig);
    }
    let destination = match dest {
        Some(Some(d)) => d,
        _ => {
            return None;
        },
    };
    let state_opt = if state == NeighbourState::Unspecified {
        None
    } else {
        Some(state)
    };
    let flags_opt = if flags.is_empty() {
        None
    } else {
        Some(flags)
    };
    Some(
        NeighborEntry {
            if_id: ifindex,
            destination,
            link_address,
            state: state_opt,
            flags: flags_opt,
        },
    )
}

/// The reply messages that decode to entries, in order.
pub open spec fn spec_decodable_neighbors(msgs: Seq<NeighbourMessageData>) -> Seq<
    NeighbourMessageData,
>
    decreases msgs.len(),
{
    if msgs.len() == 0 {
        Seq::empty()
    } else {
        let rest = spec_decodable_neighbors(msgs.drop_last());
        if spec_neighbor_decodes(msgs.last()) {
            rest + seq![msgs.last()]
        } else {
            rest
        }
    }
}

/// Decodes a full reply sequence into table entries, skipping messages
/// without a usable destination.
pub fn neighbors_from_messages(msgs: Vec<NeighbourMessageData>) -> (r: Vec<NeighborEntry>)
    ensures
        r@.len() == spec_decodable_neighbors(msgs@).len(),
        forall|i: int|
            0 <= i < r@.len() ==> spec_is_neighbor_entry(
                spec_decodable_neighbors(msgs@)[i],
                #[trigger] r@[i],
            ),
{
    let ghost orig = msgs@;
    let mut msgs = msgs;
    let total: usize = msgs.len();
    proof {
        assert(orig.len() == total);
    }
    let mut out: Vec<NeighborEntry> = Vec::new();
    let mut i: usize = 0;
    proof {
        assert(orig.take(0) =~= Seq::<NeighbourMessageData>::empty());
        assert(msgs@ =~= orig.skip(0));
    }
    while msgs.len() > 0
        invariant
            i <= orig.len() <= usize::MAX,
            msgs@ == orig.skip(i as int),
            out@.len() == spec_decodable_neighbors(orig.take(i as int)).len(),
            forall|j: int|
                0 <= j < out@.len() ==> spec_is_neighbor_entry(
                    spec_decodable_neighbors(orig.take(i as int))[j],
                    #[trigger] out@[j],
                ),
        decreases msgs@.len(),
    {
        proof {
            assert(orig.skip(i as int)[0] == orig[i as int]);
            assert(orig.skip(i as int).skip(1) =~= orig.skip(i + 1));
            assert(orig.take(i + 1).drop_last() =~= orig.take(i as int));
            assert(orig.take(i + 1).last() == orig[i as int]);
        }
        let msg = msgs.remove(0);
        if let Some(entry) = neighbor_from_message(msg) {
            out.push(entry);
        }
        i = i + 1;
    }
    proof {
        assert(orig.take(orig.len() as int) =~= orig);
    }
    out
}

/// Whether an entry passes an optional interface filter.
pub open spec fn spec_keeps(e: NeighborEntry, if_id: Option<u32>) -> bool {
    match if_id {
        Some(ix) => e.if_id == ix,
        None => true,
    }
}

/// The entries that pass an optional interface filter, in order.
pub open spec fn spec_filter_neighbors(entries: Seq<NeighborEntry>, if_id: Option<u32>) -> Seq<
    NeighborEntry,
>
    decreases entries.len(),
{
    if entries.len() == 0 {
        Seq::empty()
    } else {
        let rest = spec_filter_neighbors(entries.drop_last(), if_id);
        if spec_keeps(entries.last(), if_id) {
            rest + seq![entries.last()]
        } else {
            rest
        }
    }
}

/// Keeps exactly the entries whose interface matches the filter; with no
/// filter every entry stays. No match yields an empty list, never an
/// error.
pub fn filter_neighbors(entries: Vec<NeighborEntry>, if_id: Option<u32>) -> (r: Vec<NeighborEntry>)
    ensures
        r@ == spec_filter_neighbors(entries@, if_id),
{
    let ghost orig = entries@;
    let mut entries = entries;
    let total: usize = entries.len();
    proof {
        assert(orig.len() == total);
    }
    let mut out: Vec<NeighborEntry> = Vec::new();
    let mut i: usize = 0;
    proof {
        assert(orig.take(0) =~= Seq::<NeighborEntry>::empty());
        assert(entries@ =~= orig.skip(0));
    }
    while entries.len() > 0
        invariant
            i <= orig.len() <= usize::MAX,
            entries@ == orig.skip(i as int),
            out@ == spec_filter_neighbors(orig.take(i as int), if_id),
        decreases entries@.len(),
    {
        proof {
            assert(orig.skip(i as int)[0] == orig[i as int]);
            assert(orig.skip(i as int).skip(1) =~= orig.skip(i + 1));
            assert(orig.take(i + 1).drop_last() =~= orig.take(i as int));
            assert(orig.take(i + 1).last() == orig[i as int]);
        }
        let entry = entries.remove(0);
        let keep = match if_id {
            Some(ix) => entry.if_id == ix,
            None => true,
        };
        if keep {
            out.push(entry);
        }
        proof {
            assert(out@ =~= spec_filter_neighbors(orig.take(i + 1), if_id));
        }
        i = i + 1;
    }
    proof {
        assert(orig.take(orig.len() as int) =~= orig);
    }
    out
}

/// A filtered listing returns only entries that pass the filter: every
/// element of the filtered sequence matches the interface filter it was
/// produced with.
pub proof fn lemma_filter_keeps_only_matching(entries: Seq<NeighborEntry>, if_id: Option<u32>)
    ensures
        forall|i: int|
            0 <= i < spec_filter_neighbors(entries, if_id).len() ==> spec_keeps(
                #[trigger] spec_filter_neighbors(entries, if_id)[i],
                if_id,
            ),
    decreases entries.len(),
{
    if entries.len() > 0 {
        lemma_filter_keeps_only_matching(entries.drop_last(), if_id);
        let f = spec_filter_neighbors(entries, if_id);
        let fr = spec_filter_neighbors(entries.drop_last(), if_id);
        if spec_keeps(entries.last(), if_id) {
            assert(f == fr + seq![entries.last()]);
            assert forall|i: int| 0 <= i < f.len() implies spec_keeps(f[i], if_id) by {
                if i < fr.len() {
                    assert(f[i] == fr[i]);
                } else {
                    assert(f[i] == entries.last());
                }
            }
        } else {
            assert(f == fr);
        }
    }
}

/// Whether an entry answers a get for `destination` under an optional
/// interface filter.
pub open spec fn spec_get_matches(e: NeighborEntry, destination: IpAddress, if_id: Option<u32>)
    -> bool {
    e.destination == destination && spec_keeps(e, if_id)
}

/// The first entry that answers a get, in table order.
pub open spec fn spec_first_neighbor(
    entries: Seq<NeighborEntry>,
    destination: IpAddress,
    if_id: Option<u32>,
) -> Option<NeighborEntry>
    decreases entries.len(),
{
    if entries.len() == 0 {
        None
    } else if spec_get_matches(entries[0], destination, if_id) {
        Some(entries[0])
    } else {
        spec_first_neighbor(entries.skip(1), destination, if_id)
    }
}

/// Answers a get from the decoded entries: the first entry with the
/// queried destination (and interface, when given) wins; no match is
/// not-found.
#[verifier::loop_isolation(false)]
pub fn neighbor_get_response(
    entries: Vec<NeighborEntry>,
    destination: IpAddress,
    if_id: Option<u32>,
) -> (r: RtnlNeighborResponse)
    ensures
        match spec_first_neighbor(entries@, destination, if_id) {
            Some(e0) => r matches RtnlNeighborResponse::Neighbor(e) && e == e0,
            None => r == RtnlNeighborResponse::NotFound,
        },
{
    let ghost orig = entries@;
    let mut rest = entries;
    let total: usize = rest.len();
    let mut i: usize = 0;
    proof {
        assert(orig.len() == total);
        assert(orig.skip(0) =~= orig);
        assert(rest@ =~= orig.skip(0));
    }
    while rest.len() > 0
        invariant
            i <= orig.len() <= usize::MAX,
            rest@ == orig.skip(i as int),
            spec_first_neighbor(orig, destination, if_id) == spec_first_neighbor(
                orig.skip(i as int),
                destination,
                if_id,
            ),
        decreases rest@.len(),
    {
        proof {
            assert(orig.skip(i as int)[0] == orig[i as int]);
            assert(orig.skip(i as int).skip(1) =~= orig.skip(i + 1));
        }
        let entry = rest.remove(0);
        let dest_matches = entry.destination == destination;
        let if_matches = match if_id {
            Some(ix) => entry.if_id == ix,
            None => true,
        };
        if dest_matches && if_matches {
            proof {
                assert(spec_first_neighbor(orig.skip(i as int), destination, if_id) == Some(
                    orig[i as int],
                ));
                assert(orig[i as int] == entry);
                assert(spec_first_neighbor(orig, destination, if_id) == Some(entry));
            }
            return RtnlNeighborResponse::Neighbor(entry);
        }
        i = i + 1;
    }
    proof {
        assert(orig.skip(orig.len() as int) =~= Seq::<NeighborEntry>::empty());
    }
    RtnlNeighborResponse::NotFound
}

/// Copies a byte buffer.
fn copy_bytes(v: &Vec<u8>) -> (r: Vec<u8>)
    ensures
        r@ == v@,
{
    let mut out: Vec<u8> = Vec::new();
    let mut i: usize = 0;
    while i < v.len()
        invariant
            i <= v@.len(),
            out@ == v@.take(i as int),
        decreases v@.len() - i,
    {
        out.push(v[i]);
        proof {
            assert(v@.take(i + 1) =~= v@.take(i as int) + seq![v@[i as int]]);
        }
        i = i + 1;
    }
    proof {
        assert(v@.take(v@.len() as int) =~= v@);
    }
    out
}

/// Builds the explicit deletion message: family from the destination's
/// own family, header state and flags defaulted when absent, the
/// destination attribute, and the link-layer address attribute only when
/// present.
pub fn build_delete_message(entry: &NeighborDelete) -> (r: NeighbourMessageData)
    ensures
        r.family == (match entry.destination {
            IpAddress::V4(_) => FamilyTag::V4,
            IpAddress::V6(_) => FamilyTag::V6,
        }),
        r.ifindex == entry.if_id,
        r.state == (match entry.state {
            Some(s) => s,
            None => NeighbourState::Unspecified,
        }),
        r.flags == (match entry.flags {
            Some(f) => f,
            None => (NeighbourFlags { bits: 0 }),
        }),
        spec_last_dest(r.attrs@) == Some(Some(entry.destination)),
        (match entry.link_address {
            Some(b) => r.attrs@.len() == 2 && (r.attrs@[1] matches NeighbourAttr::LinkLocalAddress(
                v,
            ) && v@ == b@),
            None => r.attrs@.len() == 1,
        }),
        r.attrs@[0] == (match entry.destination {
            IpAddress::V4(a) => NeighbourAttr::DestinationV4(a),
            IpAddress::V6(a) => NeighbourAttr::DestinationV6(a),
        }),
{
    let family = match entry.destination {
        IpAddress::V4(_) => FamilyTag::V4,
        IpAddress::V6(_) => FamilyTag::V6,
    };
    let state = match entry.state {
        Some(s) => s,
        None => NeighbourState::Unspecified,
    };
    let flags = match entry.flags {
        Some(f) => f,
        None => NeighbourFlags { bits: 0 },
    };
    let mut attrs: Vec<NeighbourAttr> = Vec::new();
    match entry.destination {
        IpAddress::V4(a) => {
            attrs.push(NeighbourAttr::DestinationV4(a));
        },
        IpAddress::V6(a) => {
            attrs.push(NeighbourAttr::DestinationV6(a));
        },
    }
    if let Some(b) = &entry.link_address {
        attrs.push(NeighbourAttr::LinkLocalAddress(copy_bytes(b)));
    }
    proof {
        let a = attrs@;
        if a.len() == 2 {
            assert(a.drop_last() =~= seq![a[0]]);
            assert(seq![a[0]].last() == a[0]);
            assert(spec_last_dest(seq![a[0]]) == Some(Some(entry.destination)));
            assert(spec_last_lladdr(Seq::<NeighbourAttr>::empty()) is None);
            assert(seq![a[0]].drop_last() =~= Seq::<NeighbourAttr>::empty());
            assert(spec_last_lladdr(seq![a[0]]) is None);
        } else {
            assert(a.last() == a[0]);
        }
    }
    NeighbourMessageData { family, ifindex: entry.if_id, state, flags, attrs }
}

/// The response a neighbor add, change or delete outcome maps to: a
/// kernel not-found passes through; a conflict and every other rejection
/// is a failure.
pub open spec fn spec_neighbor_mutation_response(outcome: KernelOutcome) -> RtnlNeighborResponse {
    match outcome {
        KernelOutcome::Accepted => RtnlNeighborResponse::Success,
        KernelOutcome::NotFound => RtnlNeighborResponse::NotFound,
        KernelOutcome::AlreadyExists => RtnlNeighborResponse::Failed,
        KernelOutcome::AddressUnavailable => RtnlNeighborResponse::Failed,
        KernelOutcome::OtherError => RtnlNeighborResponse::Failed,
    }
}

/// Maps the categorized outcome of a neighbor mutation to the subsystem
/// response.
pub fn neighbor_mutation_response(outcome: KernelOutcome) -> (r: RtnlNeighborResponse)
    ensures
        r == spec_neighbor_mutation_response(outcome),
{
    match outcome {
        KernelOutcome::Accepted => RtnlNeighborResponse::Success,
        KernelOutcome::NotFound => RtnlNeighborResponse::NotFound,
        _ => RtnlNeighborResponse::Failed,
    }
}

/// Maps a status-only neighbor response to the caller's result; a
/// not-found is tolerated as success only when the operation says so.
pub fn handle_neighbor_response(
    op: &str,
    response: RtnlNeighborResponse,
    allow_not_found: bool,
) -> (r: Result<(), RtnlError>)
    ensures
        match response {
            RtnlNeighborResponse::Success => r is Ok,
            RtnlNeighborResponse::NotFound => if allow_not_found {
                r is Ok
            } else {
                r matches Err(e) && e.kind == RtnlErrorKind::NotFound && e.op@ == op@
            },
            RtnlNeighborResponse::Failed => r matches Err(e) && e.kind == RtnlErrorKind::Failed
                && e.op@ == op@,
            RtnlNeighborResponse::NotImplemented => r matches Err(e) && e.kind
                == RtnlErrorKind::Unsupported && e.op@ == op@,
            _ => r matches Err(e) && e.kind == RtnlErrorKind::Unexpected && e.op@ == op@,
        },
{
    match response {
        RtnlNeighborResponse::Success => Ok(()),
        RtnlNeighborResponse::NotFound => {
            if allow_not_found {
                Ok(())
            } else {
                Err(RtnlError::new(RtnlErrorKind::NotFound, op))
            }
        },
        RtnlNeighborResponse::Failed => Err(RtnlError::new(RtnlErrorKind::Failed, op)),
        RtnlNeighborResponse::NotImplemented => Err(RtnlError::new(RtnlErrorKind::Unsupported, op)),
        _ => Err(RtnlError::new(RtnlErrorKind::Unexpected, op)),
    }
}

/// Maps an entry-carrying neighbor response to the caller's result.
pub fn interpret_neighbor_response(op: &str, response: RtnlNeighborResponse) -> (r: Result<
    NeighborEntry,
    RtnlError,
>)
    ensures
        match response {
            RtnlNeighborResponse::Neighbor(e) => r == Ok::<NeighborEntry, RtnlError>(e),
            RtnlNeighborResponse::NotFound => r matches Err(e) && e.kind == RtnlErrorKind::NotFound
                && e.op@ == op@,
            RtnlNeighborResponse::Failed => r matches Err(e) && e.kind == RtnlErrorKind::Failed
                && e.op@ == op@,
            RtnlNeighborResponse::NotImplemented => r matches Err(e) && e.kind
                == RtnlErrorKind::Unsupported && e.op@ == op@,
            _ => r matches Err(e) && e.kind == RtnlErrorKind::Unexpected && e.op@ == op@,
        },
{
    match response {
        RtnlNeighborResponse::Neighbor(e) => Ok(e),
        RtnlNeighborResponse::NotFound => Err(RtnlError::new(RtnlErrorKind::NotFound, op)),
        RtnlNeighborResponse::Failed => Err(RtnlError::new(RtnlErrorKind::Failed, op)),
        RtnlNeighborResponse::NotImplemented => Err(RtnlError::new(RtnlErrorKind::Unsupported, op)),
        _ => Err(RtnlError::new(RtnlErrorKind::Unexpected, op)),
    }
}

/// Maps a listing neighbor response to the caller's result.
pub fn interpret_neighbors_response(op: &str, response: RtnlNeighborResponse) -> (r: Result<
    Vec<NeighborEntry>,
    RtnlError,
>)
    ensures
        match response {
            RtnlNeighborResponse::Neighbors(v) => r == Ok::<Vec<NeighborEntry>, RtnlError>(v),
            RtnlNeighborResponse::NotFound => r matches Err(e) && e.kind == RtnlErrorKind::NotFound
                && e.op@ == op@,
            RtnlNeighborResponse::Failed => r matches Err(e) && e.kind == RtnlErrorKind::Failed
                && e.op@ == op@,
            RtnlNeighborResponse::NotImplemented => r matches Err(e) && e.kind
                == RtnlErrorKind::Unsupported && e.op@ == op@,
            _ => r matches Err(e) && e.kind == RtnlErrorKind::Unexpected && e.op@ == op@,
        },
{
    match response {
        RtnlNeighborResponse::Neighbors(v) => Ok(v),
        RtnlNeighborResponse::NotFound => Err(RtnlError::new(RtnlErrorKind::NotFound, op)),
        RtnlNeighborResponse::Failed => Err(RtnlError::new(RtnlErrorKind::Failed, op)),
        RtnlNeighborResponse::NotImplemented => Err(RtnlError::new(RtnlErrorKind::Unsupported, op)),
        _ => Err(RtnlError::new(RtnlErrorKind::Unexpected, op)),
    }
}

/// The synchronous client of the neighbor subsystem.
#[derive(Clone, Debug)]
pub struct RtnlNeighborClient {
    client: RequestSender<RtnlNeighborRequest, RtnlNeighborResponse>,
}

impl RtnlNeighborClient {
    pub fn new(client: RequestSender<RtnlNeighborRequest, RtnlNeighborResponse>) -> Self {
        RtnlNeighborClient { client }
    }

    pub fn add(&self, entry: NeighborEntry) -> (r: Result<(), RtnlError>)
        ensures
            r matches Err(e) ==> e.op@ == "Neighbor add"@,
    {
        match send_request(&self.client, RtnlNeighborRequest::Add(entry)) {
            None => Err(RtnlError::new(RtnlErrorKind::Disconnected, "Neighbor add")),
            Some(res) => handle_neighbor_response("Neighbor add", res, false),
        }
    }

    pub fn change(&self, entry: NeighborEntry) -> (r: Result<(), RtnlError>)
        ensures
            r matches Err(e) ==> e.op@ == "Neighbor change"@,
    {
        match send_request(&self.client, RtnlNeighborRequest::Change(entry)) {
            None => Err(RtnlError::new(RtnlErrorKind::Disconnected, "Neighbor change")),
            Some(res) => handle_neighbor_response("Neighbor change", res, false),
        }
    }

    pub fn delete(&self, entry: NeighborDelete) -> (r: Result<(), RtnlError>)
        ensures
            r matches Err(e) ==> e.op@ == "Neighbor delete"@,
    {
        match send_request(&self.client, RtnlNeighborRequest::Delete(entry)) {
            None => Err(RtnlError::new(RtnlErrorKind::Disconnected, "Neighbor delete")),
            Some(res) => handle_neighbor_response("Neighbor delete", res, false),
        }
    }

    pub fn list(&self, if_id: Option<u32>) -> (r: Result<Vec<NeighborEntry>, RtnlError>)
        ensures
            r matches Err(e) ==> e.op@ == "Neighbor list"@,
    {
        match send_request(&self.client, RtnlNeighborRequest::List { if_id }) {
            None => Err(RtnlError::new(RtnlErrorKind::Disconnected, "Neighbor list")),
            Some(res) => interpret_neighbors_response("Neighbor list", res),
        }
    }

    pub fn get(&self, destination: IpAddress, if_id: Option<u32>) -> (r: Result<
        NeighborEntry,
        RtnlError,
    >)
        ensures
            r matches Err(e) ==> e.op@ == "Neighbor get"@,
    {
        match send_request(&self.client, RtnlNeighborRequest::Get { destination, if_id }) {
            None => Err(RtnlError::new(RtnlErrorKind::Disconnected, "Neighbor get")),
            Some(res) => interpret_neighbor_response("Neighbor get", res),
        }
    }
}

} // verus!
