//! One request to one plug over TCP, without the socket.
//!
//! The caller owns the connection. It reports what the connection did as a
//! `QueryEvent`, and `Query::on_event` says what to do next: connect, send the
//! framed request, read the header of the response, read as many bytes as the
//! header announces, and hand the decrypted payload on for decoding. Whatever
//! goes wrong on the way is one and the same failure, and nothing is tried twice.

use vstd::prelude::*;
use crate::cipher::{decrypt, decrypt_spec, lemma_decrypt_encrypt};
use crate::frame::{
    announced_len,
    body_len,
    frame_spec,
    lemma_header_round_trip,
    write_frame,
    HEADER_LEN,
    MAX_PAYLOAD_LEN,
};

verus! {

/// How far a query has come.
#[derive(Clone, Copy, Debug, PartialEq, Eq, Structural)]
pub enum QueryState {
    /// Nothing was done yet.
    Start,
    /// The connection is being opened.
    Connecting,
    /// The request is being written.
    Sending,
    /// The four bytes of the response's header are awaited.
    AwaitingHeader,
    /// The `len` bytes that the header announced are awaited.
    AwaitingBody { len: usize },
    /// The response has come.
    Done,
    /// The query has failed.
    Failed,
}

/// What the connection did.
#[derive(Debug, PartialEq, Eq)]
pub enum QueryEvent {
    /// The caller is ready.
    Begin,
    /// The connection is open.
    Connected,
    /// The request is written.
    Sent,
    /// The bytes that were asked for, or fewer where the connection closed first.
    Received { bytes: Vec<u8> },
    /// Connecting, writing or reading failed or took too long.
    Failed,
}

/// What the caller does next.
#[derive(Debug, PartialEq, Eq)]
pub enum QueryAction {
    /// Open the connection.
    Connect,
    /// Write `frame`.
    Send { frame: Vec<u8> },
    /// Read exactly `len` bytes.
    Read { len: usize },
    /// Decode `payload`: it is the response.
    Deliver { payload: Vec<u8> },
    /// Give up: the query has failed.
    Fail,
}

/// A `QueryEvent` as contracts see it.
pub enum QueryEventView {
    Begin,
    Connected,
    Sent,
    Received { bytes: Seq<u8> },
    Failed,
}

/// A `QueryAction` as contracts see it.
pub enum QueryActionView {
    Connect,
    Send { frame: Seq<u8> },
    Read { len: usize },
    Deliver { payload: Seq<u8> },
    Fail,
}

impl View for QueryEvent {
    type V = QueryEventView;

    open spec fn view(&self) -> QueryEventView {
        match *self {
            QueryEvent::Begin => QueryEventView::Begin,
            QueryEvent::Connected => QueryEventView::Connected,
            QueryEvent::Sent => QueryEventView::Sent,
            QueryEvent::Received { bytes } => QueryEventView::Received { bytes: bytes@ },
            QueryEvent::Failed => QueryEventView::Failed,
        }
    }
}

impl View for QueryAction {
    type V = QueryActionView;

    open spec fn view(&self) -> QueryActionView {
        match *self {
            QueryAction::Connect => QueryActionView::Connect,
            QueryAction::Send { frame } => QueryActionView::Send { frame: frame@ },
            QueryAction::Read { len } => QueryActionView::Read { len },
            QueryAction::Deliver { payload } => QueryActionView::Deliver { payload: payload@ },
            QueryAction::Fail => QueryActionView::Fail,
        }
    }
}

/// The state that follows `state` on `event`, and what the caller does then, in
/// a query that sends `command`. An event that the state does not await fails
/// the query, and so do a command that no frame can carry and a read that did
/// not bring as many bytes as were asked for.
pub open spec fn query_step(command: Seq<u8>, state: QueryState, event: QueryEventView) -> (
    QueryState,
    QueryActionView,
) {
    match (state, event) {
        (QueryState::Start, QueryEventView::Begin) => if command.len() <= MAX_PAYLOAD_LEN {
            (QueryState::Connecting, QueryActionView::Connect)
        } else {
            (QueryState::Failed, QueryActionView::Fail)
        },
        (QueryState::Connecting, QueryEventView::Connected) => if command.len()
            <= MAX_PAYLOAD_LEN {
            (QueryState::Sending, QueryActionView::Send { frame: frame_spec(command) })
        } else {
            (QueryState::Failed, QueryActionView::Fail)
        },
        (QueryState::Sending, QueryEventView::Sent) => (
            QueryState::AwaitingHeader,
            QueryActionView::Read { len: HEADER_LEN },
        ),
        (QueryState::AwaitingHeader, QueryEventView::Received { bytes }) => if bytes.len()
            == HEADER_LEN {
            (
                QueryState::AwaitingBody { len: announced_len(bytes) as usize },
                QueryActionView::Read { len: announced_len(bytes) as usize },
            )
        } else {
            (QueryState::Failed, QueryActionView::Fail)
        },
        (QueryState::AwaitingBody { len }, QueryEventView::Received { bytes }) => if bytes.len()
            == len {
            (QueryState::Done, QueryActionView::Deliver { payload: decrypt_spec(bytes) })
        } else {
            (QueryState::Failed, QueryActionView::Fail)
        },
        _ => (QueryState::Failed, QueryActionView::Fail),
    }
}

/// A query to a plug that answers with the frame of `reply` delivers `reply`: it
/// connects, sends the frame of the command, reads the header, reads as many
/// bytes as `reply` is long, and hands `reply` on.
pub proof fn lemma_query_delivers_reply(command: Seq<u8>, reply: Seq<u8>)
    requires
        command.len() <= MAX_PAYLOAD_LEN,
        reply.len() <= MAX_PAYLOAD_LEN,
    ensures
        query_step(command, QueryState::Start, QueryEventView::Begin) == (
            QueryState::Connecting,
            QueryActionView::Connect,
        ),
        query_step(command, QueryState::Connecting, QueryEventView::Connected) == (
            QueryState::Sending,
            QueryActionView::Send { frame: frame_spec(command) },
        ),
        query_step(command, QueryState::Sending, QueryEventView::Sent) == (
            QueryState::AwaitingHeader,
            QueryActionView::Read { len: HEADER_LEN },
        ),
        query_step(
            command,
            QueryState::AwaitingHeader,
            QueryEventView::Received { bytes: frame_spec(reply).take(HEADER_LEN as int) },
        ) == (
            QueryState::AwaitingBody { len: reply.len() as usize },
            QueryActionView::Read { len: reply.len() as usize },
        ),
        query_step(
            command,
            QueryState::AwaitingBody { len: reply.len() as usize },
            QueryEventView::Received { bytes: frame_spec(reply).skip(HEADER_LEN as int) },
        ) == (QueryState::Done, QueryActionView::Deliver { payload: reply }),
{
    lemma_header_round_trip(reply.len());
    let header = frame_spec(reply).take(HEADER_LEN as int);
    let body = frame_spec(reply).skip(HEADER_LEN as int);
    assert(header =~= crate::frame::length_header(reply.len()));
    assert(body =~= crate::cipher::encrypt_spec(reply));
    lemma_decrypt_encrypt(reply);
}

/// A query that has failed stays failed, whatever comes.
pub proof fn lemma_query_stays_failed(command: Seq<u8>, event: QueryEventView)
    ensures
        query_step(command, QueryState::Failed, event) == (
            QueryState::Failed,
            QueryActionView::Fail,
        ),
{
}

/// A query: the command it sends, and how far it has come.
#[derive(Debug, PartialEq, Eq)]
pub struct Query {
    pub command: Vec<u8>,
    pub state: QueryState,
}

impl Query {
    /// A query that will send `command`.
    pub fn new(command: Vec<u8>) -> (query: Self)
        ensures
            query.command == command,
            query.state == QueryState::Start,
    {
        Query { command, state: QueryState::Start }
    }

    /// Takes note of what the connection did, and says what to do next.
    pub fn on_event(&mut self, event: QueryEvent) -> (action: QueryAction)
        ensures
            final(self).command == old(self).command,
            (final(self).state, action@) == query_step(
                old(self).command@,
                old(self).state,
                event@,
            ),
    {
        let action = match (self.state, event) {
            (QueryState::Start, QueryEvent::Begin) => {
                if self.command.len() <= MAX_PAYLOAD_LEN {
                    self.state = QueryState::Connecting;
                    QueryAction::Connect
                } else {
                    QueryAction::Fail
                }
            },
            (QueryState::Connecting, QueryEvent::Connected) => {
                let mut frame: Vec<u8> = Vec::new();
                match write_frame(&mut frame, self.command.as_slice()) {
                    Ok(()) => {
                        assert(frame@ =~= frame_spec(self.command@));
                        self.state = QueryState::Sending;
                        QueryAction::Send { frame }
                    },
                    Err(_) => QueryAction::Fail,
                }
            },
            (QueryState::Sending, QueryEvent::Sent) => {
                self.state = QueryState::AwaitingHeader;
                QueryAction::Read { len: HEADER_LEN }
            },
            (QueryState::AwaitingHeader, QueryEvent::Received { bytes }) => {
                if bytes.len() == HEADER_LEN {
                    assert(bytes@.take(HEADER_LEN as int) =~= bytes@);
                    match body_len(bytes.as_slice()) {
                        Ok(len) => {
                            self.state = QueryState::AwaitingBody { len };
                            QueryAction::Read { len }
                        },
                        Err(_) => QueryAction::Fail,
                    }
                } else {
                    QueryAction::Fail
                }
            },
            (QueryState::AwaitingBody { len }, QueryEvent::Received { bytes }) => {
                if bytes.len() == len {
                    self.state = QueryState::Done;
                    QueryAction::Deliver { payload: decrypt(bytes.as_slice()) }
                } else {
                    QueryAction::Fail
                }
            },
            _ => QueryAction::Fail,
        };
        match action {
            QueryAction::Fail => {
                self.state = QueryState::Failed;
            },
            _ => {},
        }
        action
    }
}

} // verus!
