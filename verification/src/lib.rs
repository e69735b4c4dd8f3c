//! A synchronous, thread-safe client library for Linux network
//! configuration over the kernel's routing-configuration protocol:
//! interfaces, IP addresses, neighbor tables, routes and virtual/tunnel
//! interfaces.
//!
//! All protocol traffic is multiplexed over a single persistent connection
//! owned by a dedicated background worker; each of the five subsystems
//! talks to it over its own request channel, so operations on different
//! subsystems proceed concurrently while operations within one subsystem
//! are strictly serialized.

pub mod address;
pub mod channel;
pub mod errors;
pub mod link;
pub mod neighbor;
pub mod nla;
pub mod route;
pub mod types;
pub mod virtual_interface;
pub mod wire;

pub use errors::{RtnlError, RtnlErrorKind};
pub use link::Interface;
pub use neighbor::{NeighborDelete, NeighborEntry, NeighbourFlags, NeighbourState};
pub use route::{Ipv4Route, Ipv6Route, RouteNextHopFlags, RouteNextHopInfo};
pub use types::{IpAddress, Ipv4Address, Ipv4Prefix, Ipv6Address, Ipv6Prefix, MacAddr};
pub use virtual_interface::{
    Gre6Config, GreConfig, Ip6TnlConfig, IpIpConfig, VirtualInterfaceDelete, VirtualInterfaceKind,
    VirtualInterfaceSpec, VirtualInterfaceUpdate, VlanConfig,
};

use vstd::prelude::*;

verus! {

/// The handle to the five subsystem clients. All handles obtained from the
/// same set of channels talk to the same worker; cloning is cheap and every
/// clone may be used from any thread.
#[derive(Clone, Debug)]
pub struct RtnlClient {
    address: address::RtnlAddressClient,
    link: link::RtnlLinkClient,
    neighbor: neighbor::RtnlNeighborClient,
    route: route::RtnlRouteClient,
    virtual_interface: virtual_interface::RtnlVirtualInterfaceClient,
}

impl RtnlClient {
    /// Assembles the handle from the five subsystem clients. Spawning the
    /// worker that serves their channels is the embedder's concern; the
    /// handle itself never touches the transport.
    pub fn new(
        address: address::RtnlAddressClient,
        link: link::RtnlLinkClient,
        neighbor: neighbor::RtnlNeighborClient,
        route: route::RtnlRouteClient,
        virtual_interface: virtual_interface::RtnlVirtualInterfaceClient,
    ) -> Self {
        RtnlClient { address, link, neighbor, route, virtual_interface }
    }

    pub fn address(&self) -> address::RtnlAddressClient {
        self.address.clone()
    }

    pub fn link(&self) -> link::RtnlLinkClient {
        self.link.clone()
    }

    pub fn neighbor(&self) -> neighbor::RtnlNeighborClient {
        self.neighbor.clone()
    }

    pub fn route(&self) -> route::RtnlRouteClient {
        self.route.clone()
    }

    pub fn virtual_interface(&self) -> virtual_interface::RtnlVirtualInterfaceClient {
        self.virtual_interface.clone()
    }
}

} // verus!
