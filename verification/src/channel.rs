//! The request channel between a synchronous subsystem client and its
//! server loop: a bounded multi-producer channel carrying the request
//! together with a single-use responder.

use vstd::prelude::*;

verus! {

/// Relies on tokio's bounded mpsc `Sender` type; its values are carried
/// opaquely and used only through the operations declared here.
#[verifier::external_type_specification]
#[verifier::external_body]
#[verifier::reject_recursive_types(T)]
pub struct ExMpscSender<T>(tokio::sync::mpsc::Sender<T>);

/// Relies on tokio's oneshot `Sender` type: the single-use responder a
/// server loop answers one request through.
#[verifier::external_type_specification]
#[verifier::external_body]
#[verifier::reject_recursive_types(T)]
pub struct ExOneshotSender<T>(tokio::sync::oneshot::Sender<T>);

/// The sending half of a subsystem's request channel. Each message carries
/// the request and the one-shot responder the server answers through.
pub type RequestSender<Req, Resp> = tokio::sync::mpsc::Sender<
    (Req, tokio::sync::oneshot::Sender<Resp>),
>;

/// Relies on tokio's mpsc `Sender::clone`: the clone sends into the same
/// channel. No property of the clone is assumed.
pub assume_specification<T>[ <tokio::sync::mpsc::Sender<T> as Clone>::clone ](
    sender: &tokio::sync::mpsc::Sender<T>,
) -> tokio::sync::mpsc::Sender<T>;

/// Relies on tokio's mpsc `Sender::blocking_send` and oneshot
/// `Receiver::blocking_recv`: sends the request paired with a fresh one-shot
/// responder, then blocks the calling thread until the server loop answers.
/// `None` means the channel or the responder was closed (the worker is
/// gone); nothing is assumed about which response value arrives. Must only
/// be called from synchronous code, never inside an async runtime.
#[verifier::external_body]
pub(crate) fn send_request<Req, Resp>(sender: &RequestSender<Req, Resp>, req: Req) -> (r: Option<
    Resp,
>) {
    let (tx, rx) = tokio::sync::oneshot::channel();
    if sender.blocking_send((req, tx)).is_err() {
        return None;
    }
    rx.blocking_recv().ok()
}

} // verus!
