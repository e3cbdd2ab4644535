use vstd::prelude::*;

verus! {

/// The keep-alive signal the handler reports to the hosting connection
/// driver. The handler itself never reports `No`: it only ever restores
/// `Yes` on new work or arms a deadline once it has gone idle. The driver
/// interprets an elapsed `Until` deadline and tears the connection down.
#[derive(Clone, Copy, Debug, PartialEq, Eq, Structural)]
pub enum KeepAlive {
    /// Keep the connection open unconditionally.
    Yes,
    /// Keep the connection open until the given instant, in milliseconds.
    Until(u64),
    /// The connection may be closed immediately.
    No,
}

/// How an outbound substream request failed to produce a negotiated stream.
#[derive(Clone, Copy, Debug, PartialEq, Eq, Structural)]
pub enum DialError {
    /// Negotiation did not finish in time.
    Timeout,
    /// The remote supports none of the candidate protocols.
    UnsupportedProtocols,
    /// A transient transport failure; the exchange may be retried.
    Io,
}

/// An outbound request command issued by the behaviour.
///
/// The request id is assigned by the behaviour and carried through
/// unchanged; the handler never generates outbound ids. The candidate
/// protocols are ordered by preference.
#[derive(Debug, PartialEq, Eq)]
pub struct OutboundMessage {
    pub request_id: u64,
    pub request: Vec<u8>,
    pub protocols: Vec<u64>,
}

/// The events the handler emits to the behaviour. Exactly one terminal
/// event is produced per request in each direction; transient outbound I/O
/// failures are retried instead of surfaced.
#[derive(Debug, PartialEq, Eq)]
pub enum Event {
    /// An inbound request has been read in full. The behaviour answers it
    /// through the single-use response acceptor created for this id.
    Request { request_id: u64, request: Vec<u8> },
    /// The response to the outbound request with this id has been received.
    Response { request_id: u64, response: Vec<u8> },
    /// The response to an inbound request has been written and the
    /// substream closed.
    ResponseSent(u64),
    /// The behaviour dropped the response acceptor of an inbound request
    /// without using it; the substream was closed without a response.
    ResponseOmission(u64),
    /// An outbound exchange timed out during negotiation or I/O.
    OutboundTimeout(u64),
    /// The remote declined every candidate protocol of an outbound request.
    OutboundUnsupportedProtocols(u64),
}

/// The request id an event speaks of.
pub open spec fn event_request_id(e: Event) -> u64 {
    match e {
        Event::Request { request_id, .. } => request_id,
        Event::Response { request_id, .. } => request_id,
        Event::ResponseSent(request_id) => request_id,
        Event::ResponseOmission(request_id) => request_id,
        Event::OutboundTimeout(request_id) => request_id,
        Event::OutboundUnsupportedProtocols(request_id) => request_id,
    }
}

/// Whether an event is the terminal outcome of an outbound request:
/// a response, a timeout, or an unsupported-protocols report.
pub open spec fn is_terminal_outbound(e: Event) -> bool {
    match e {
        Event::Response { .. } => true,
        Event::OutboundTimeout(_) => true,
        Event::OutboundUnsupportedProtocols(_) => true,
        _ => false,
    }
}

impl Event {
    /// The request id this event speaks of.
    pub fn request_id(&self) -> (id: u64)
        ensures
            id == event_request_id(*self),
    {
        match self {
            Event::Request { request_id, .. } => *request_id,
            Event::Response { request_id, .. } => *request_id,
            Event::ResponseSent(request_id) => *request_id,
            Event::ResponseOmission(request_id) => *request_id,
            Event::OutboundTimeout(request_id) => *request_id,
            Event::OutboundUnsupportedProtocols(request_id) => *request_id,
        }
    }
}

} // verus!
