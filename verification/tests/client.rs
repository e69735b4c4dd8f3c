//! End-to-end checks of the synchronous clients over real channels: a
//! server loop running on a worker runtime answers each request, the
//! facades block for the paired response and map it.

use ftth_rtnl::address::{RtnlAddressClient, RtnlAddressRequest, RtnlAddressResponse};
use ftth_rtnl::errors::RtnlErrorKind;
use ftth_rtnl::link::{RtnlLinkClient, RtnlLinkRequest, RtnlLinkResponse};
use ftth_rtnl::neighbor::{RtnlNeighborClient, RtnlNeighborRequest, RtnlNeighborResponse};
use ftth_rtnl::route::{RtnlRouteClient, RtnlRouteRequest, RtnlRouteResponse};
use ftth_rtnl::types::{Ipv4Address, Ipv4Prefix};
use ftth_rtnl::virtual_interface::{
    RtnlVirtualInterfaceClient, RtnlVirtualInterfaceRequest, RtnlVirtualInterfaceResponse,
};
use ftth_rtnl::RtnlClient;

type Responder<T> = tokio::sync::oneshot::Sender<T>;

fn worker_runtime() -> tokio::runtime::Runtime {
    tokio::runtime::Builder::new_multi_thread()
        .worker_threads(1)
        .build()
        .expect("runtime")
}

#[test]
fn link_facade_round_trip() {
    let rt = worker_runtime();
    let (tx, mut rx) =
        tokio::sync::mpsc::channel::<(RtnlLinkRequest, Responder<RtnlLinkResponse>)>(16);
    rt.spawn(async move {
        while let Some((req, respond)) = rx.recv().await {
            let resp = match req {
                RtnlLinkRequest::MtuGet { if_id } => {
                    if if_id == 3 {
                        RtnlLinkResponse::Mtu(1500)
                    } else {
                        RtnlLinkResponse::NotFound
                    }
                }
                RtnlLinkRequest::InterfaceSetMtu { .. } => RtnlLinkResponse::Success,
                _ => RtnlLinkResponse::NotImplemented,
            };
            let _ = respond.send(resp);
        }
    });
    let client = RtnlLinkClient::new(tx);
    assert_eq!(client.mtu_get(3).unwrap(), 1500);
    let e = client.mtu_get(4).unwrap_err();
    assert_eq!(e.kind(), RtnlErrorKind::NotFound);
    assert_eq!(e.op(), "Get MTU");
    assert!(client.interface_set_mtu(3, 9000).is_ok());
    // a request the server does not implement maps to an unsupported error
    let e = client.interface_set_arp(3, true).unwrap_err();
    assert_eq!(e.kind(), RtnlErrorKind::Unsupported);
}

#[test]
fn disconnected_worker_is_an_io_level_error() {
    let (tx, rx) =
        tokio::sync::mpsc::channel::<(RtnlLinkRequest, Responder<RtnlLinkResponse>)>(16);
    drop(rx);
    let client = RtnlLinkClient::new(tx);
    let e = client.mtu_get(3).unwrap_err();
    assert_eq!(e.kind(), RtnlErrorKind::Disconnected);
}

#[test]
fn unexpected_response_variant_is_a_protocol_violation() {
    let rt = worker_runtime();
    let (tx, mut rx) =
        tokio::sync::mpsc::channel::<(RtnlLinkRequest, Responder<RtnlLinkResponse>)>(16);
    rt.spawn(async move {
        while let Some((_req, respond)) = rx.recv().await {
            // answer every request with a payload it cannot carry
            let _ = respond.send(RtnlLinkResponse::Mtu(1));
        }
    });
    let client = RtnlLinkClient::new(tx);
    let e = client.interface_set_mtu(3, 1500).unwrap_err();
    assert_eq!(e.kind(), RtnlErrorKind::Unexpected);
}

#[test]
fn two_subsystems_served_by_one_worker() {
    let rt = worker_runtime();
    let (ltx, mut lrx) =
        tokio::sync::mpsc::channel::<(RtnlLinkRequest, Responder<RtnlLinkResponse>)>(16);
    let (rtx, mut rrx) =
        tokio::sync::mpsc::channel::<(RtnlRouteRequest, Responder<RtnlRouteResponse>)>(16);
    rt.spawn(async move {
        while let Some((_req, respond)) = lrx.recv().await {
            let _ = respond.send(RtnlLinkResponse::Success);
        }
    });
    rt.spawn(async move {
        while let Some((_req, respond)) = rrx.recv().await {
            let _ = respond.send(RtnlRouteResponse::Ipv4RouteList(vec![]));
        }
    });
    let link = RtnlLinkClient::new(ltx);
    let route = RtnlRouteClient::new(rtx);
    assert!(link.interface_set_up(4).is_ok());
    assert!(route.ipv4_route_list().unwrap().is_empty());
    // each facade is independently cloneable
    let link2 = link.clone();
    assert!(link2.interface_set_down(4).is_ok());
}

#[test]
fn orchestrator_hands_out_working_facades() {
    let rt = worker_runtime();
    let (atx, mut arx) =
        tokio::sync::mpsc::channel::<(RtnlAddressRequest, Responder<RtnlAddressResponse>)>(16);
    let (ltx, mut lrx) =
        tokio::sync::mpsc::channel::<(RtnlLinkRequest, Responder<RtnlLinkResponse>)>(16);
    let (ntx, mut nrx) =
        tokio::sync::mpsc::channel::<(RtnlNeighborRequest, Responder<RtnlNeighborResponse>)>(16);
    let (rtx, mut rrx) =
        tokio::sync::mpsc::channel::<(RtnlRouteRequest, Responder<RtnlRouteResponse>)>(16);
    let (vtx, mut vrx) = tokio::sync::mpsc::channel::<(
        RtnlVirtualInterfaceRequest,
        Responder<RtnlVirtualInterfaceResponse>,
    )>(16);
    rt.spawn(async move {
        while let Some((req, respond)) = arx.recv().await {
            let resp = match req {
                // the same prefix added twice succeeds both times: the
                // server treats the kernel's conflict as success
                RtnlAddressRequest::Ipv4AddrSet { .. } => RtnlAddressResponse::Success,
                _ => RtnlAddressResponse::NotImplemented,
            };
            let _ = respond.send(resp);
        }
    });
    rt.spawn(async move {
        while let Some((_req, respond)) = lrx.recv().await {
            let _ = respond.send(RtnlLinkResponse::Success);
        }
    });
    rt.spawn(async move {
        while let Some((_req, respond)) = nrx.recv().await {
            let _ = respond.send(RtnlNeighborResponse::Neighbors(vec![]));
        }
    });
    rt.spawn(async move {
        while let Some((_req, respond)) = rrx.recv().await {
            let _ = respond.send(RtnlRouteResponse::Success);
        }
    });
    rt.spawn(async move {
        while let Some((_req, respond)) = vrx.recv().await {
            let _ = respond.send(RtnlVirtualInterfaceResponse::Index(12));
        }
    });
    let client = RtnlClient::new(
        RtnlAddressClient::new(atx),
        RtnlLinkClient::new(ltx),
        RtnlNeighborClient::new(ntx),
        RtnlRouteClient::new(rtx),
        RtnlVirtualInterfaceClient::new(vtx),
    );
    let prefix = Ipv4Prefix::new(Ipv4Address::new(0x0A000001), 24).unwrap();
    assert!(client.address().ipv4_addr_set(2, prefix).is_ok());
    assert!(client.address().ipv4_addr_set(2, prefix).is_ok());
    assert!(client.link().interface_set_up(2).is_ok());
    assert!(client.neighbor().list(None).unwrap().is_empty());
    assert_eq!(client.virtual_interface().get_index_by_name("gre1").unwrap(), 12);
    let cloned = client.clone();
    assert!(cloned.link().interface_set_down(2).is_ok());
}
