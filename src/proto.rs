use vstd::prelude::*;
use bytes::BytesMut;
use crate::buf::bytes_mut_view;
use crate::codec::{has_crlf, is_first_line, ServerCodec};
use crate::types::{tab_free, GopherRequest, GopherResponse};

verus! {

/// Where a connection stands in its single exchange.
#[derive(Debug, Clone, Copy, PartialEq, Eq, Structural)]
pub enum Phase {
    /// No whole request line has arrived yet.
    AwaitingRequest,
    /// The request was read; its response has not been written yet.
    Responding,
    /// The response was written: the connection is to be closed.
    Closed,
}

/// What a poll of the connection's input gives.
#[derive(Debug)]
pub enum Incoming {
    /// The request of this connection.
    Request(GopherRequest),
    /// No whole line yet: wait for more bytes and poll again.
    NeedMore,
    /// This connection reads no more requests.
    Finished,
}

/// The phase after a poll in `phase` of the buffered input `input`.
pub open spec fn after_poll(phase: Phase, input: Seq<u8>) -> Phase {
    if reads_request(phase, input) {
        Phase::Responding
    } else {
        phase
    }
}

/// The phase after a response is offered in `phase`.
pub open spec fn after_send(phase: Phase) -> Phase {
    if phase == Phase::Responding {
        Phase::Closed
    } else {
        phase
    }
}

/// True when a poll in `phase` of the buffered input `input` reads a request.
pub open spec fn reads_request(phase: Phase, input: Seq<u8>) -> bool {
    phase == Phase::AwaitingRequest && has_crlf(input)
}

/// The transport of one connection: it reads a single request and writes a
/// single response, after which the connection is closed. Gopher carries
/// one request per TCP connection, and nothing in the bytes marks where a
/// connection ends, so the cap is kept here.
pub struct OneShot {
    codec: ServerCodec,
    phase: Phase,
}

impl OneShot {
    /// The phase of the connection.
    pub closed spec fn phase_of(&self) -> Phase {
        self.phase
    }

    /// A connection that awaits its request.
    pub fn new() -> (r: OneShot)
        ensures
            r.phase_of() == Phase::AwaitingRequest,
    {
        OneShot { codec: ServerCodec, phase: Phase::AwaitingRequest }
    }

    /// The phase of the connection.
    pub fn phase(&self) -> (r: Phase)
        ensures
            r == self.phase_of(),
    {
        self.phase
    }

    /// Reads the request from the front of `buf`, if this connection still
    /// awaits it and a whole line is there.
    ///
    /// Once the request was read, every later poll gives `Finished` and
    /// leaves `buf` as it is, whatever it holds.
    pub fn poll(&mut self, buf: &mut BytesMut) -> (r: Incoming)
        ensures
            final(self).phase_of() == after_poll(old(self).phase_of(), bytes_mut_view(*old(buf))),
            r is Request <==> reads_request(old(self).phase_of(), bytes_mut_view(*old(buf))),
            r is NeedMore <==> old(self).phase_of() == Phase::AwaitingRequest && !has_crlf(
                bytes_mut_view(*old(buf)),
            ),
            r is Finished <==> old(self).phase_of() != Phase::AwaitingRequest,
            !(r is Request) ==> bytes_mut_view(*final(buf)) == bytes_mut_view(*old(buf)),
            r matches Incoming::Request(req) ==> {
                &&& tab_free(req.selector@)
                &&& is_first_line(bytes_mut_view(*old(buf)), req.line())
                &&& bytes_mut_view(*final(buf)) == bytes_mut_view(*old(buf)).skip(
                    req.line().len() + 2int,
                )
            },
    {
        if self.phase != Phase::AwaitingRequest {
            return Incoming::Finished;
        }
        match self.codec.decode(buf) {
            Some(req) => {
                self.phase = Phase::Responding;
                Incoming::Request(req)
            },
            None => Incoming::NeedMore,
        }
    }

    /// Writes the response to the request that was read, and closes the
    /// connection.
    ///
    /// Returns `false`, and writes nothing, when no request awaits its
    /// response: before the request was read, or after the response was sent.
    pub fn start_send(&mut self, message: GopherResponse, buf: &mut BytesMut) -> (r: bool)
        ensures
            r <==> old(self).phase_of() == Phase::Responding,
            final(self).phase_of() == after_send(old(self).phase_of()),
            r ==> bytes_mut_view(*final(buf)) == bytes_mut_view(*old(buf)) + message.wire(),
            !r ==> bytes_mut_view(*final(buf)) == bytes_mut_view(*old(buf)),
    {
        if self.phase != Phase::Responding {
            return false;
        }
        self.codec.encode(message, buf);
        self.phase = Phase::Closed;
        true
    }

    /// True when the exchange is over and the connection is to be closed.
    pub fn is_closed(&self) -> (r: bool)
        ensures
            r <==> self.phase_of() == Phase::Closed,
    {
        self.phase == Phase::Closed
    }
}

/// The Gopher protocol as a server binds it to each new connection.
pub struct GopherServer;

impl GopherServer {
    /// The transport of a new connection: it awaits its one request.
    pub fn bind_transport(&self) -> (r: OneShot)
        ensures
            r.phase_of() == Phase::AwaitingRequest,
    {
        OneShot::new()
    }
}

/// A connection reads at most one request: once a request was read, no
/// later poll reads another, whatever bytes are buffered then and whatever
/// responses are offered in between.
pub proof fn lemma_one_request_per_connection(phase: Phase, first: Seq<u8>, later: Seq<u8>)
    requires
        reads_request(phase, first),
    ensures
        !reads_request(after_poll(phase, first), later),
        !reads_request(after_send(after_poll(phase, first)), later),
        after_send(after_poll(phase, first)) == Phase::Closed,
{
}

/// Once a connection has left `AwaitingRequest`, neither a poll nor an
/// offered response takes it back there.
pub proof fn lemma_never_awaits_again(phase: Phase, input: Seq<u8>)
    requires
        phase != Phase::AwaitingRequest,
    ensures
        after_poll(phase, input) != Phase::AwaitingRequest,
        after_send(phase) != Phase::AwaitingRequest,
        !reads_request(phase, input),
{
}

} // verus!
