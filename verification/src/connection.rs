//! The life of one connection: read a request, dispatch it, write the response, and again,
//! until the peer closes or an error ends the connection.
//!
//! The handler itself performs no transport work. Whoever drives it looks at the phase, does
//! what the phase waits for, and reports what came of it.

use vstd::prelude::*;
use crate::dispatch::{answer, apply, effect, reply_frame, Reply, ReplyView};
use crate::frame::{RespFrame, RespFrameView};
use crate::request::{decode, decoded, ConnectionError, Request, RequestView};
use crate::store::{Contents, Store};

verus! {

/// What reading from the transport gave.
#[derive(Debug, PartialEq, Eq)]
pub enum ReadOutcome {
    /// A complete frame.
    Frame(RespFrame),
    /// The peer closed the stream.
    EndOfStream,
    /// The bytes were not a frame.
    DecodeError,
}

/// What writing to the transport gave.
#[derive(Clone, Copy, Debug, PartialEq, Eq, Structural)]
pub enum WriteOutcome {
    Done,
    Failed,
}

/// The phase of a connection, with what the phase holds.
#[derive(Debug, PartialEq, Eq)]
pub enum Connection {
    /// Waiting for the next request.
    Reading,
    /// A request was decoded and is to be served by the store.
    Dispatching { request: Request },
    /// The response is to be written to the peer.
    Writing { response: RespFrame },
    /// The connection has ended: without an error when the peer closed it.
    Closed { error: Option<ConnectionError> },
}

/// The mathematical value of a connection.
pub enum ConnectionView {
    Reading,
    Dispatching { request: RequestView },
    Writing { response: RespFrameView },
    Closed { error: Option<ConnectionError> },
}

impl View for Connection {
    type V = ConnectionView;

    open spec fn view(&self) -> ConnectionView {
        match self {
            Connection::Reading => ConnectionView::Reading,
            Connection::Dispatching { request } => ConnectionView::Dispatching {
                request: request@,
            },
            Connection::Writing { response } => ConnectionView::Writing { response: response@ },
            Connection::Closed { error } => ConnectionView::Closed { error: *error },
        }
    }
}

/// What can happen to a connection.
pub enum Event {
    /// The transport gave a frame.
    Frame(RespFrameView),
    /// The peer closed the stream.
    EndOfStream,
    /// The transport gave bytes that are no frame.
    DecodeError,
    /// The store serves the pending request under its lock.
    Dispatch,
    /// The owner of the store answered the pending request.
    Answered(ReplyView),
    /// The owner of the store ended without an answer.
    Unanswered,
    /// The response was written.
    Written,
    /// The response could not be written.
    WriteFailed,
}

/// The connection after an event that does not involve the store. An event that the phase
/// does not wait for changes nothing.
pub open spec fn moved(connection: ConnectionView, event: Event) -> ConnectionView {
    match (connection, event) {
        (ConnectionView::Reading, Event::Frame(frame)) => match decoded(frame) {
            Ok(request) => ConnectionView::Dispatching { request },
            Err(error) => ConnectionView::Closed { error: Some(error) },
        },
        (ConnectionView::Reading, Event::EndOfStream) => ConnectionView::Closed { error: None },
        (ConnectionView::Reading, Event::DecodeError) => ConnectionView::Closed {
            error: Some(ConnectionError::Decode),
        },
        (ConnectionView::Dispatching { request }, Event::Answered(reply)) => ConnectionView::Writing {
            response: reply_frame(reply),
        },
        (ConnectionView::Dispatching { request }, Event::Unanswered) => ConnectionView::Closed {
            error: Some(ConnectionError::ReplyChannelClosed),
        },
        (ConnectionView::Writing { response }, Event::Written) => ConnectionView::Reading,
        (ConnectionView::Writing { response }, Event::WriteFailed) => ConnectionView::Closed {
            error: Some(ConnectionError::Write),
        },
        _ => connection,
    }
}

/// The transition of one connection beside the store that it shares: the connection and the
/// store's contents after an event. Only a dispatch reads and writes the store.
pub open spec fn step(connection: ConnectionView, contents: Contents, event: Event) -> (
    ConnectionView,
    Contents,
) {
    match (connection, event) {
        (ConnectionView::Dispatching { request }, Event::Dispatch) => (
            ConnectionView::Writing { response: reply_frame(answer(contents, request)) },
            effect(contents, request),
        ),
        _ => (moved(connection, event), contents),
    }
}

/// The event that a read outcome stands for.
pub open spec fn read_event(outcome: ReadOutcome) -> Event {
    match outcome {
        ReadOutcome::Frame(frame) => Event::Frame(frame@),
        ReadOutcome::EndOfStream => Event::EndOfStream,
        ReadOutcome::DecodeError => Event::DecodeError,
    }
}

/// The event that a write outcome stands for.
pub open spec fn write_event(outcome: WriteOutcome) -> Event {
    match outcome {
        WriteOutcome::Done => Event::Written,
        WriteOutcome::Failed => Event::WriteFailed,
    }
}

/// The event that the arrival, or the loss, of the owner's answer stands for.
pub open spec fn answer_event(reply: Option<Reply>) -> Event {
    match reply {
        Some(reply) => Event::Answered(reply@),
        None => Event::Unanswered,
    }
}

impl Connection {
    /// A connection that was just accepted: it waits for its first request.
    pub fn new() -> (connection: Connection)
        ensures
            connection@ == ConnectionView::Reading,
    {
        Connection::Reading
    }

    /// Whether the connection has ended.
    pub fn is_closed(&self) -> (closed: bool)
        ensures
            closed == (self@ is Closed),
    {
        match self {
            Connection::Closed { .. } => true,
            _ => false,
        }
    }

    /// Takes in what reading gave. A frame is decoded: a get or a set waits for dispatch, any
    /// other frame ends the connection with an error. The end of the stream ends it without.
    pub fn received(self, outcome: ReadOutcome) -> (next: Connection)
        ensures
            next@ == moved(self@, read_event(outcome)),
    {
        match self {
            Connection::Reading => match outcome {
                ReadOutcome::Frame(frame) => match decode(&frame) {
                    Ok(request) => Connection::Dispatching { request },
                    Err(error) => Connection::Closed { error: Some(error) },
                },
                ReadOutcome::EndOfStream => Connection::Closed { error: None },
                ReadOutcome::DecodeError => Connection::Closed {
                    error: Some(ConnectionError::Decode),
                },
            },
            other => other,
        }
    }

    /// Serves the pending request on the store and makes the response ready for writing.
    pub fn dispatch<S: Store>(self, store: &mut S) -> (next: Connection)
        requires
            old(store).valid(),
        ensures
            final(store).valid(),
            (next@, final(store).contents()) == step(self@, old(store).contents(), Event::Dispatch),
    {
        match self {
            Connection::Dispatching { request } => {
                let reply = apply(store, &request);
                Connection::Writing { response: reply.into_frame() }
            },
            other => other,
        }
    }

    /// Takes in the answer of the store's owner to the pending request, or, with `None`, the
    /// news that the owner ended without an answer.
    pub fn answered(self, reply: Option<Reply>) -> (next: Connection)
        ensures
            next@ == moved(self@, answer_event(reply)),
    {
        match self {
            Connection::Dispatching { request } => match reply {
                Some(reply) => Connection::Writing { response: reply.into_frame() },
                None => Connection::Closed { error: Some(ConnectionError::ReplyChannelClosed) },
            },
            other => other,
        }
    }

    /// Takes in what writing the response gave.
    pub fn written(self, outcome: WriteOutcome) -> (next: Connection)
        ensures
            next@ == moved(self@, write_event(outcome)),
    {
        match self {
            Connection::Writing { response } => match outcome {
                WriteOutcome::Done => Connection::Reading,
                WriteOutcome::Failed => Connection::Closed { error: Some(ConnectionError::Write) },
            },
            other => other,
        }
    }
}

/// Only a dispatch changes the store: whatever else happens to a connection leaves the
/// contents as they were.
pub proof fn law_only_dispatch_changes_store(
    connection: ConnectionView,
    contents: Contents,
    event: Event,
)
    requires
        !(event is Dispatch),
    ensures
        step(connection, contents, event).1 == contents,
{
}

/// Whether an event is a read that fails: bytes that are no frame, or a frame that does not
/// decode to a request.
pub open spec fn failed_read(event: Event) -> bool {
    match event {
        Event::DecodeError => true,
        Event::Frame(frame) => decoded(frame) is Err,
        _ => false,
    }
}

/// Connection isolation: a read that fails on one connection closes that connection with
/// an error and nothing else. The store holds what it held, so whatever happens next to
/// another connection comes out as if the failure had never been.
pub proof fn law_failed_read_is_isolated(
    failing: ConnectionView,
    failure: Event,
    contents: Contents,
    other: ConnectionView,
    next: Event,
)
    requires
        failing is Reading,
        failed_read(failure),
    ensures
        step(failing, contents, failure).0 matches ConnectionView::Closed { error: Some(_) },
        step(failing, contents, failure).1 == contents,
        step(other, step(failing, contents, failure).1, next) == step(other, contents, next),
{
}

/// One request at a time, in the order of arrival: while a request waits for its dispatch or
/// its response for the peer, a frame that arrives is not taken in. The next request is read
/// only after the response to this one was written.
pub proof fn law_one_request_at_a_time(
    connection: ConnectionView,
    contents: Contents,
    frame: RespFrameView,
)
    requires
        connection is Dispatching || connection is Writing,
    ensures
        step(connection, contents, Event::Frame(frame)) == (connection, contents),
        step(connection, contents, Event::Written).0 is Reading ==> connection is Writing,
{
}

/// A connection that has ended stays ended, and does nothing to the store.
pub proof fn law_closed_is_final(error: Option<ConnectionError>, contents: Contents, event: Event)
    ensures
        step(ConnectionView::Closed { error }, contents, event) == (
            ConnectionView::Closed { error },
            contents,
        ),
{
}

} // verus!
