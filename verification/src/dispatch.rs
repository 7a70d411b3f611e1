//! Dispatch: one request becomes exactly one operation on the store and exactly one reply.

use vstd::prelude::*;
use crate::frame::{RespFrame, RespFrameView};
use crate::request::{decode, decoded, ConnectionError, Request, RequestView};
use crate::store::{lookup, Contents, Store};

verus! {

/// The reply to a request: an acknowledgement of a set, the value that a get found, or the
/// marker that the key is absent.
#[derive(Debug, PartialEq, Eq)]
pub enum Reply {
    Ack,
    Value(Vec<u8>),
    Absent,
}

/// The mathematical value of a reply.
pub enum ReplyView {
    Ack,
    Value(Seq<u8>),
    Absent,
}

impl View for Reply {
    type V = ReplyView;

    open spec fn view(&self) -> ReplyView {
        match self {
            Reply::Ack => ReplyView::Ack,
            Reply::Value(value) => ReplyView::Value(value@),
            Reply::Absent => ReplyView::Absent,
        }
    }
}

/// The text of an acknowledgement.
pub open spec fn ack_text() -> Seq<char> {
    "OK"@
}

/// The frame that carries a reply: the simple string `OK`, the value in bulk, or null.
pub open spec fn reply_frame(reply: ReplyView) -> RespFrameView {
    match reply {
        ReplyView::Ack => RespFrameView::Simple(ack_text()),
        ReplyView::Value(value) => RespFrameView::Bulk(value),
        ReplyView::Absent => RespFrameView::Null,
    }
}

/// The reply that a store with the given contents owes to a request.
pub open spec fn answer(contents: Contents, request: RequestView) -> ReplyView {
    match request {
        RequestView::Get { key } => match lookup(contents, key) {
            Some(value) => ReplyView::Value(value),
            None => ReplyView::Absent,
        },
        RequestView::Put { .. } => ReplyView::Ack,
    }
}

/// What a store with the given contents holds after it served a request.
pub open spec fn effect(contents: Contents, request: RequestView) -> Contents {
    match request {
        RequestView::Get { .. } => contents,
        RequestView::Put { key, value } => contents.insert(key, value),
    }
}

impl Reply {
    /// The frame that carries the reply to the peer.
    pub fn into_frame(self) -> (frame: RespFrame)
        ensures
            frame@ == reply_frame(self@),
    {
        match self {
            Reply::Ack => RespFrame::Simple("OK".to_owned()),
            Reply::Value(value) => RespFrame::Bulk(value),
            Reply::Absent => RespFrame::Null,
        }
    }
}

/// Serves one request on the store: a get reads the key, a set writes it.
pub fn apply<S: Store>(store: &mut S, request: &Request) -> (reply: Reply)
    requires
        old(store).valid(),
    ensures
        final(store).valid(),
        final(store).contents() == effect(old(store).contents(), request@),
        reply@ == answer(old(store).contents(), request@),
{
    match request {
        Request::Get { key } => match store.get(key.as_str()) {
            Some(value) => Reply::Value(value),
            None => Reply::Absent,
        },
        Request::Put { key, value } => {
            let _ = store.set(key.as_str(), value.as_slice());
            Reply::Ack
        },
    }
}

/// The view of what handling a frame returns.
pub open spec fn handled_view(result: Result<RespFrame, ConnectionError>) -> Result<
    RespFrameView,
    ConnectionError,
> {
    match result {
        Ok(frame) => Ok(frame@),
        Err(error) => Err(error),
    }
}

/// The response that a store with the given contents owes to a frame, or the error that ends
/// the connection.
pub open spec fn response_to(contents: Contents, frame: RespFrameView) -> Result<
    RespFrameView,
    ConnectionError,
> {
    match decoded(frame) {
        Ok(request) => Ok(reply_frame(answer(contents, request))),
        Err(error) => Err(error),
    }
}

/// What a store with the given contents holds after a frame was handled: a frame that does
/// not decode to a request leaves it as it was.
pub open spec fn contents_after(contents: Contents, frame: RespFrameView) -> Contents {
    match decoded(frame) {
        Ok(request) => effect(contents, request),
        Err(_) => contents,
    }
}

/// Handles one request frame: decodes it, serves the request on the store, and returns the
/// response frame. A frame that is no get or set is an error and leaves the store untouched.
pub fn handle_frame<S: Store>(store: &mut S, frame: &RespFrame) -> (result: Result<
    RespFrame,
    ConnectionError,
>)
    requires
        old(store).valid(),
    ensures
        final(store).valid(),
        handled_view(result) == response_to(old(store).contents(), frame@),
        final(store).contents() == contents_after(old(store).contents(), frame@),
{
    match decode(frame) {
        Ok(request) => Ok(apply(store, &request).into_frame()),
        Err(error) => Err(error),
    }
}

} // verus!
