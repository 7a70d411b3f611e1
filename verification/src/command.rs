//! The command bus: a request travels to the one task that owns the store together with the
//! slot for its single reply.
//!
//! The slot is whatever the sender waits on, and the owner never looks into it. Serving a
//! command hands the slot back with the reply that belongs into it, so that every command
//! gets exactly one reply, and gets its own.

use vstd::prelude::*;
use crate::dispatch::{answer, apply, effect, Reply};
use crate::request::{Request, RequestView};
use crate::store::Store;

verus! {

/// A request on the bus, with the slot `resp` for its reply.
#[derive(Debug)]
pub enum Command<R> {
    Get { key: String, resp: R },
    Put { key: String, val: Vec<u8>, resp: R },
}

impl<R> Command<R> {
    /// The request that the command carries.
    pub open spec fn request(self) -> RequestView {
        match self {
            Command::Get { key, resp } => RequestView::Get { key: key@ },
            Command::Put { key, val, resp } => RequestView::Put { key: key@, value: val@ },
        }
    }

    /// The slot for the reply.
    pub open spec fn slot(self) -> R {
        match self {
            Command::Get { key, resp } => resp,
            Command::Put { key, val, resp } => resp,
        }
    }

    /// Puts a request on its way, with the slot for its reply.
    pub fn new(request: Request, resp: R) -> (command: Command<R>)
        ensures
            command.request() == request@,
            command.slot() == resp,
    {
        match request {
            Request::Get { key } => Command::Get { key, resp },
            Request::Put { key, value } => Command::Put { key, val: value, resp },
        }
    }

    /// Takes the command apart into its request and the slot for the reply.
    pub fn into_parts(self) -> (parts: (Request, R))
        ensures
            parts.0@ == self.request(),
            parts.1 == self.slot(),
    {
        match self {
            Command::Get { key, resp } => (Request::Get { key }, resp),
            Command::Put { key, val, resp } => (Request::Put { key, value: val }, resp),
        }
    }
}

/// The sending half of a reply slot: it carries one reply, once.
pub type Responder<T> = tokio::sync::oneshot::Sender<T>;

/// The sending half of a one-shot channel of `tokio`.
#[verifier::external_type_specification]
#[verifier::external_body]
#[verifier::reject_recursive_types(T)]
pub struct ExOneshotSender<T>(tokio::sync::oneshot::Sender<T>);

/// Calls `tokio::sync::oneshot::Sender::send`, which puts the reply into the slot without
/// waiting, and says whether the slot took it. Nothing is claimed of the outcome: the slot
/// takes the reply unless its receiver is gone.
#[verifier::external_body]
fn send_reply(resp: Responder<Reply>, reply: Reply) -> bool {
    resp.send(reply).is_ok()
}

/// Serves one command on the store that the caller owns: performs the request and returns
/// the command's own slot with the reply that is to go into it.
pub fn serve<S: Store, R>(store: &mut S, command: Command<R>) -> (answered: (R, Reply))
    requires
        old(store).valid(),
    ensures
        final(store).valid(),
        final(store).contents() == effect(old(store).contents(), command.request()),
        answered.0 == command.slot(),
        answered.1@ == answer(old(store).contents(), command.request()),
{
    let (request, resp) = command.into_parts();
    let reply = apply(store, &request);
    (resp, reply)
}

/// Serves one command and puts the reply into the command's slot. Says whether the slot took
/// the reply: it does not when the sender of the command has stopped waiting. The store
/// has served the request either way.
pub fn serve_and_reply<S: Store>(store: &mut S, command: Command<Responder<Reply>>) -> (delivered:
    bool)
    requires
        old(store).valid(),
    ensures
        final(store).valid(),
        final(store).contents() == effect(old(store).contents(), command.request()),
{
    let (resp, reply) = serve(store, command);
    send_reply(resp, reply)
}

} // verus!
