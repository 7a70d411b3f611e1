//! Requests: what a frame asks of the store, as the command parser of `mini_redis` reads it.

use vstd::prelude::*;
use crate::frame::{RespFrame, RespFrameView};

verus! {

/// Why a connection ends with a failure. None of these touches the store or another
/// connection.
#[derive(Clone, Copy, Debug, PartialEq, Eq, Structural)]
pub enum ConnectionError {
    /// The request could not be decoded.
    Decode,
    /// The request was decoded but asks for something other than a get or a set.
    UnsupportedCommand,
    /// The response could not be written: the peer is gone.
    Write,
    /// The owner of the store ended before it answered.
    ReplyChannelClosed,
}

/// A request that the store serves.
#[derive(Clone, Debug, PartialEq, Eq)]
pub enum Request {
    Get { key: String },
    Put { key: String, value: Vec<u8> },
}

/// The mathematical value of a request.
pub enum RequestView {
    Get { key: Seq<char> },
    Put { key: Seq<char>, value: Seq<u8> },
}

impl View for Request {
    type V = RequestView;

    open spec fn view(&self) -> RequestView {
        match self {
            Request::Get { key } => RequestView::Get { key: key@ },
            Request::Put { key, value } => RequestView::Put { key: key@, value: value@ },
        }
    }
}

impl Request {
    /// The key that the request reads or writes.
    pub fn key(&self) -> (key: &str)
        ensures
            key@ == self@.key(),
    {
        match self {
            Request::Get { key } => key.as_str(),
            Request::Put { key, .. } => key.as_str(),
        }
    }
}

impl RequestView {
    /// The key that the request reads or writes.
    pub open spec fn key(self) -> Seq<char> {
        match self {
            RequestView::Get { key } => key,
            RequestView::Put { key, .. } => key,
        }
    }
}

/// What the command parser makes of a frame: one of its commands, or no command at all.
#[derive(Debug, PartialEq, Eq)]
pub enum Parsed {
    Get { key: String },
    Put { key: String, value: Vec<u8> },
    Publish,
    Subscribe,
    Unsubscribe,
    Unknown,
    Malformed,
}

/// The mathematical value of a parse.
pub enum ParsedView {
    Get { key: Seq<char> },
    Put { key: Seq<char>, value: Seq<u8> },
    Publish,
    Subscribe,
    Unsubscribe,
    Unknown,
    Malformed,
}

impl View for Parsed {
    type V = ParsedView;

    open spec fn view(&self) -> ParsedView {
        match self {
            Parsed::Get { key } => ParsedView::Get { key: key@ },
            Parsed::Put { key, value } => ParsedView::Put { key: key@, value: value@ },
            Parsed::Publish => ParsedView::Publish,
            Parsed::Subscribe => ParsedView::Subscribe,
            Parsed::Unsubscribe => ParsedView::Unsubscribe,
            Parsed::Unknown => ParsedView::Unknown,
            Parsed::Malformed => ParsedView::Malformed,
        }
    }
}

/// The frame type of `mini_redis`, which its command parser takes.
#[verifier::external_type_specification]
#[verifier::external_body]
pub struct ExWireFrame(mini_redis::Frame);

/// What `mini_redis::Command::from_frame` returns for a frame, as a function of the frame's
/// value alone.
pub uninterp spec fn parsed_command(frame: RespFrameView) -> ParsedView;

/// Rebuilds a frame as a `mini_redis::Frame`, variant for variant, with the bulk bytes copied
/// by `bytes::Bytes::copy_from_slice`. Nothing is claimed of the result: it is only handed on
/// to the parser.
#[verifier::external_body]
fn wire_frame(frame: &RespFrame) -> mini_redis::Frame {
    match frame {
        RespFrame::Simple(text) => mini_redis::Frame::Simple(text.clone()),
        RespFrame::Error(text) => mini_redis::Frame::Error(text.clone()),
        RespFrame::Integer(number) => mini_redis::Frame::Integer(*number),
        RespFrame::Bulk(bytes) => mini_redis::Frame::Bulk(bytes::Bytes::copy_from_slice(bytes)),
        RespFrame::Null => mini_redis::Frame::Null,
        RespFrame::Array(items) => mini_redis::Frame::Array(items.iter().map(wire_frame).collect()),
    }
}

/// Calls `mini_redis::Command::from_frame` on the frame and copies what it returns: the key of
/// a `Get`, the key and value of a `Set` (its expiry is not kept), the bare variant of any
/// other command, and `Malformed` for an error. The contract claims that the outcome is
/// `parsed_command` of the frame's value, that is, that the parser is a function of the frame.
#[verifier::external_body]
fn parse_command(frame: &RespFrame) -> (parsed: Parsed)
    ensures
        parsed@ == parsed_command(frame@),
{
    match mini_redis::Command::from_frame(wire_frame(frame)) {
        Ok(mini_redis::Command::Get(get)) => Parsed::Get { key: get.key().to_string() },
        Ok(mini_redis::Command::Set(set)) => Parsed::Put {
            key: set.key().to_string(),
            value: set.value().to_vec(),
        },
        Ok(mini_redis::Command::Publish(_)) => Parsed::Publish,
        Ok(mini_redis::Command::Subscribe(_)) => Parsed::Subscribe,
        Ok(mini_redis::Command::Unsubscribe(_)) => Parsed::Unsubscribe,
        Ok(mini_redis::Command::Unknown(_)) => Parsed::Unknown,
        Err(_) => Parsed::Malformed,
    }
}

/// The view of a decoding result.
pub open spec fn decoded_view(result: Result<Request, ConnectionError>) -> Result<
    RequestView,
    ConnectionError,
> {
    match result {
        Ok(request) => Ok(request@),
        Err(error) => Err(error),
    }
}

/// The request in a parse: a get or a set is served, any other command is unsupported, and
/// what is no command is a decoding error.
pub open spec fn classified(parsed: ParsedView) -> Result<RequestView, ConnectionError> {
    match parsed {
        ParsedView::Get { key } => Ok(RequestView::Get { key }),
        ParsedView::Put { key, value } => Ok(RequestView::Put { key, value }),
        ParsedView::Publish => Err(ConnectionError::UnsupportedCommand),
        ParsedView::Subscribe => Err(ConnectionError::UnsupportedCommand),
        ParsedView::Unsubscribe => Err(ConnectionError::UnsupportedCommand),
        ParsedView::Unknown => Err(ConnectionError::UnsupportedCommand),
        ParsedView::Malformed => Err(ConnectionError::Decode),
    }
}

/// The request that a frame decodes to, or the error that ends the connection.
pub open spec fn decoded(frame: RespFrameView) -> Result<RequestView, ConnectionError> {
    classified(parsed_command(frame))
}

/// Turns a parse into the request to serve, or into the error that ends the connection.
pub fn classify(parsed: Parsed) -> (result: Result<Request, ConnectionError>)
    ensures
        decoded_view(result) == classified(parsed@),
{
    match parsed {
        Parsed::Get { key } => Ok(Request::Get { key }),
        Parsed::Put { key, value } => Ok(Request::Put { key, value }),
        Parsed::Publish => Err(ConnectionError::UnsupportedCommand),
        Parsed::Subscribe => Err(ConnectionError::UnsupportedCommand),
        Parsed::Unsubscribe => Err(ConnectionError::UnsupportedCommand),
        Parsed::Unknown => Err(ConnectionError::UnsupportedCommand),
        Parsed::Malformed => Err(ConnectionError::Decode),
    }
}

/// Decodes a frame into the request to serve, or into the error that ends the connection.
pub fn decode(frame: &RespFrame) -> (result: Result<Request, ConnectionError>)
    ensures
        decoded_view(result) == decoded(frame@),
{
    classify(parse_command(frame))
}

} // verus!
