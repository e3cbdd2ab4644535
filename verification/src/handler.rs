use vstd::prelude::*;

use crate::counter::RequestIdCounter;
use crate::events::{DialError, Event, KeepAlive, OutboundMessage};
use crate::worker::{
    remove_worker, remove_worker_spec, Direction, Worker, WorkerOutcome, WorkerResult,
};
use std::collections::VecDeque;

verus! {

/// An inbound request that finished its rendezvous hand-off and waits to be
/// delivered to the behaviour.
#[derive(Debug, PartialEq, Eq)]
pub struct InboundDelivery {
    pub request_id: u64,
    pub request: Vec<u8>,
}

/// What the hosting driver found ready when it entered a poll cycle: the
/// results its worker tasks finished with, in completion order; the inbound
/// requests that arrived over the rendezvous hand-off, in arrival order;
/// and the current time in milliseconds. The cycle consumes from the front
/// of both queues; whatever it leaves is carried into the next cycle.
#[derive(Debug, PartialEq, Eq)]
pub struct PollContext {
    pub worker_results: VecDeque<WorkerResult>,
    pub inbound: VecDeque<InboundDelivery>,
    pub now: u64,
}

/// What one poll cycle tells the hosting driver to do.
#[derive(Debug, PartialEq, Eq)]
pub enum PollOutput {
    /// Deliver this event to the behaviour.
    Behaviour(Event),
    /// Issue a substream-open request with these candidate protocols; its
    /// resolution belongs to the message just moved to requested-outbound.
    SubstreamRequest(Vec<u64>),
    /// Nothing to do until new work or a new completion arrives.
    Pending,
}

/// A resolution the substream negotiation layer reports for this
/// connection. The streams and agreed protocols themselves stay with the
/// hosting driver; the handler only tracks the exchange they start.
#[derive(Clone, Copy, Debug, PartialEq, Eq, Structural)]
pub enum ConnectionEvent {
    /// The remote opened a substream and a protocol was agreed.
    FullyNegotiatedInbound,
    /// A substream requested by this handler was negotiated.
    FullyNegotiatedOutbound,
    /// A substream requested by this handler failed to negotiate.
    DialUpgradeError(DialError),
}

/// The exchange the hosting driver must start after a negotiated substream.
#[derive(Debug, PartialEq, Eq)]
pub enum WorkerSpawn {
    /// Run the inbound exchange under this freshly allocated request id.
    Inbound { request_id: u64 },
    /// Run the outbound exchange sending this message.
    Outbound { message: OutboundMessage },
}

/// The outcome of draining the ready worker results at the start of a poll
/// cycle: the pool and the result queue afterwards, and the first
/// successfully completed event, if any.
pub struct DrainOutcome {
    pub pool: Seq<Worker>,
    pub rest: Seq<WorkerResult>,
    pub event: Option<Event>,
}

/// Drains worker results in completion order: each finished worker leaves
/// the pool; failures are discarded, and the first completed event ends the
/// drain and is surfaced. Completed exchanges take priority over every
/// other queue of the cycle, and completion order across workers is
/// unconstrained: the first to finish is the first reported.
pub open spec fn drain_spec(pool: Seq<Worker>, results: Seq<WorkerResult>) -> DrainOutcome
    decreases results.len(),
{
    if results.len() == 0 {
        DrainOutcome { pool, rest: results, event: Option::None }
    } else {
        let r = results[0];
        let pool1 = remove_worker_spec(pool, r.worker);
        match r.outcome {
            WorkerOutcome::Completed(ev) => DrainOutcome {
                pool: pool1,
                rest: results.drop_first(),
                event: Option::Some(ev),
            },
            WorkerOutcome::Failed => drain_spec(pool1, results.drop_first()),
        }
    }
}

/// Per-connection state of the request/response protocol engine.
pub struct Handler {
    /// The protocols offered on inbound substreams.
    pub inbound_protocols: Vec<u64>,
    /// The keep-alive timeout of idle connections, in milliseconds.
    pub keep_alive_timeout: u64,
    /// The timeout of one inbound or outbound exchange, in milliseconds.
    pub substream_timeout: u64,
    /// The current keep-alive signal.
    pub keep_alive: KeepAlive,
    /// Events waiting to be emitted to the behaviour.
    pub pending_events: VecDeque<Event>,
    /// Outbound messages waiting for a substream request to be issued.
    pub pending_outbound: VecDeque<OutboundMessage>,
    /// Outbound messages whose substream request has been issued but not
    /// yet resolved; resolutions arrive in issuance order, so the head is
    /// always the message the next resolution belongs to.
    pub requested_outbound: VecDeque<OutboundMessage>,
    /// The workers currently in flight, one per active exchange.
    pub workers: Vec<Worker>,
}

/// The configuration fields, which no transition changes.
pub open spec fn same_config(pre: Handler, post: Handler) -> bool {
    &&& post.inbound_protocols@ == pre.inbound_protocols@
    &&& post.keep_alive_timeout == pre.keep_alive_timeout
    &&& post.substream_timeout == pre.substream_timeout
}

/// How accepting an outbound command changes the handler: the message joins
/// the tail of the pending-outbound queue, the keep-alive is restored to
/// `Yes`, and nothing else moves.
pub open spec fn submit_step(pre: Handler, m: OutboundMessage, post: Handler) -> bool {
    &&& same_config(pre, post)
    &&& post.keep_alive == KeepAlive::Yes
    &&& post.pending_outbound@ == pre.pending_outbound@.push(m)
    &&& post.pending_events@ == pre.pending_events@
    &&& post.requested_outbound@ == pre.requested_outbound@
    &&& post.workers@ == pre.workers@
}

/// How a negotiated inbound substream changes the handler: the shared
/// counter hands out the next globally unique id and an inbound worker for
/// that id joins the pool; the queues and the keep-alive stay as they were.
pub open spec fn negotiated_inbound_step(
    pre: Handler,
    c_pre: RequestIdCounter,
    post: Handler,
    c_post: RequestIdCounter,
    id: u64,
) -> bool {
    &&& same_config(pre, post)
    &&& post.keep_alive == pre.keep_alive
    &&& id == c_pre.next
    &&& c_post.next == c_pre.next + 1
    &&& post.workers@ == pre.workers@.push(Worker { request_id: id, dir: Direction::Inbound })
    &&& post.pending_events@ == pre.pending_events@
    &&& post.pending_outbound@ == pre.pending_outbound@
    &&& post.requested_outbound@ == pre.requested_outbound@
}

/// How a negotiated outbound substream changes the handler: the head of the
/// requested-outbound queue is the message this resolution belongs to; it
/// leaves the queue and an outbound worker for its id joins the pool.
pub open spec fn negotiated_outbound_step(pre: Handler, post: Handler, m: OutboundMessage) -> bool {
    &&& pre.requested_outbound@.len() > 0
    &&& m == pre.requested_outbound@[0]
    &&& same_config(pre, post)
    &&& post.keep_alive == pre.keep_alive
    &&& post.requested_outbound@ == pre.requested_outbound@.drop_first()
    &&& post.workers@ == pre.workers@.push(
        Worker { request_id: m.request_id, dir: Direction::Outbound },
    )
    &&& post.pending_events@ == pre.pending_events@
    &&& post.pending_outbound@ == pre.pending_outbound@
}

/// How a failed outbound substream request changes the handler. The head of
/// the requested-outbound queue is the message the failure belongs to. A
/// timeout or an unsupported-protocols report becomes that message's
/// terminal event; a transient I/O failure re-enqueues the message onto the
/// pending-outbound queue, so a fresh substream request will be issued for
/// it, and produces no event.
pub open spec fn dial_error_step(pre: Handler, error: DialError, post: Handler) -> bool {
    &&& pre.requested_outbound@.len() > 0
    &&& same_config(pre, post)
    &&& post.keep_alive == pre.keep_alive
    &&& post.workers@ == pre.workers@
    &&& post.requested_outbound@ == pre.requested_outbound@.drop_first()
    &&& {
        let m = pre.requested_outbound@[0];
        match error {
            DialError::Timeout => {
                &&& post.pending_events@ == pre.pending_events@.push(
                    Event::OutboundTimeout(m.request_id),
                )
                &&& post.pending_outbound@ == pre.pending_outbound@
            },
            DialError::UnsupportedProtocols => {
                &&& post.pending_events@ == pre.pending_events@.push(
                    Event::OutboundUnsupportedProtocols(m.request_id),
                )
                &&& post.pending_outbound@ == pre.pending_outbound@
            },
            DialError::Io => {
                &&& post.pending_events@ == pre.pending_events@
                &&& post.pending_outbound@ == pre.pending_outbound@.push(m)
            },
        }
    }
}

/// How one poll cycle changes the handler and consumes the ready inputs,
/// and what it returns. The cycle first drains worker results — completed
/// exchanges are surfaced with priority over newly queued work — then emits
/// one pending event, then delivers one inbound request (restoring the
/// keep-alive, since receiving work must also defer idle shutdown), then
/// issues one substream-open request for the head of pending-outbound, and
/// only when all of that is empty reports `Pending`, arming the keep-alive
/// deadline if the pool has gone idle.
pub open spec fn poll_step(
    pre: Handler,
    cx_pre: PollContext,
    post: Handler,
    cx_post: PollContext,
    out: PollOutput,
) -> bool {
    let d = drain_spec(pre.workers@, cx_pre.worker_results@);
    &&& same_config(pre, post)
    &&& cx_post.now == cx_pre.now
    &&& post.workers@ == d.pool
    &&& cx_post.worker_results@ == d.rest
    &&& match d.event {
        Option::Some(ev) => {
            &&& out == PollOutput::Behaviour(ev)
            &&& post.keep_alive == pre.keep_alive
            &&& post.pending_events@ == pre.pending_events@
            &&& post.pending_outbound@ == pre.pending_outbound@
            &&& post.requested_outbound@ == pre.requested_outbound@
            &&& cx_post.inbound@ == cx_pre.inbound@
        },
        Option::None => {
            if pre.pending_events@.len() > 0 {
                &&& out == PollOutput::Behaviour(pre.pending_events@[0])
                &&& post.pending_events@ == pre.pending_events@.drop_first()
                &&& post.keep_alive == pre.keep_alive
                &&& post.pending_outbound@ == pre.pending_outbound@
                &&& post.requested_outbound@ == pre.requested_outbound@
                &&& cx_post.inbound@ == cx_pre.inbound@
            } else if cx_pre.inbound@.len() > 0 {
                let del = cx_pre.inbound@[0];
                &&& out == PollOutput::Behaviour(
                    Event::Request { request_id: del.request_id, request: del.request },
                )
                &&& cx_post.inbound@ == cx_pre.inbound@.drop_first()
                &&& post.keep_alive == KeepAlive::Yes
                &&& post.pending_events@ == pre.pending_events@
                &&& post.pending_outbound@ == pre.pending_outbound@
                &&& post.requested_outbound@ == pre.requested_outbound@
            } else if pre.pending_outbound@.len() > 0 {
                let m = pre.pending_outbound@[0];
                &&& (out matches PollOutput::SubstreamRequest(ps) && ps@ == m.protocols@)
                &&& post.pending_outbound@ == pre.pending_outbound@.drop_first()
                &&& post.requested_outbound@ == pre.requested_outbound@.push(m)
                &&& post.keep_alive == pre.keep_alive
                &&& post.pending_events@ == pre.pending_events@
                &&& cx_post.inbound@ == cx_pre.inbound@
            } else {
                &&& out == PollOutput::Pending
                &&& post.pending_events@ == pre.pending_events@
                &&& post.pending_outbound@ == pre.pending_outbound@
                &&& post.requested_outbound@ == pre.requested_outbound@
                &&& cx_post.inbound@ == cx_pre.inbound@
                &&& post.keep_alive == (if d.pool.len() == 0 && pre.keep_alive == KeepAlive::Yes {
                    KeepAlive::Until(
                        (cx_pre.now + pre.substream_timeout + pre.keep_alive_timeout) as u64,
                    )
                } else {
                    pre.keep_alive
                })
            }
        },
    }
}

impl Handler {
    /// A fresh handler for one connection.
    pub fn new(inbound_protocols: Vec<u64>, keep_alive_timeout: u64, substream_timeout: u64) -> (h:
        Handler)
        ensures
            h.inbound_protocols@ == inbound_protocols@,
            h.keep_alive_timeout == keep_alive_timeout,
            h.substream_timeout == substream_timeout,
            h.keep_alive == KeepAlive::Yes,
            h.pending_events@ == Seq::<Event>::empty(),
            h.pending_outbound@ == Seq::<OutboundMessage>::empty(),
            h.requested_outbound@ == Seq::<OutboundMessage>::empty(),
            h.workers@ == Seq::<Worker>::empty(),
    {
        Handler {
            inbound_protocols,
            keep_alive_timeout,
            substream_timeout,
            keep_alive: KeepAlive::Yes,
            pending_events: VecDeque::new(),
            pending_outbound: VecDeque::new(),
            requested_outbound: VecDeque::new(),
            workers: Vec::new(),
        }
    }

    /// Accepts an outbound request command from the behaviour. Always
    /// succeeds; new work restores the keep-alive to `Yes` so that an
    /// expiring idle timer cannot starve it.
    pub fn on_behaviour_event(&mut self, request: OutboundMessage)
        ensures
            submit_step(*old(self), request, *final(self)),
    {
        self.keep_alive = KeepAlive::Yes;
        self.pending_outbound.push_back(request);
    }

    /// The keep-alive signal the hosting driver reads.
    pub fn connection_keep_alive(&self) -> (k: KeepAlive)
        ensures
            k == self.keep_alive,
    {
        self.keep_alive
    }

    /// The candidate protocols offered when the remote opens a substream.
    pub fn listen_protocol(&self) -> (p: Vec<u64>)
        ensures
            p@ == self.inbound_protocols@,
    {
        copy_protocols(&self.inbound_protocols)
    }

    /// Registers a fully negotiated inbound substream: allocates the next
    /// globally unique inbound request id from the shared counter and adds
    /// an inbound worker for it to the pool. The returned id names the
    /// exchange the hosting driver must now run.
    pub fn on_fully_negotiated_inbound(&mut self, counter: &mut RequestIdCounter) -> (id: u64)
        requires
            old(counter).next < u64::MAX,
        ensures
            negotiated_inbound_step(*old(self), *old(counter), *final(self), *final(counter), id),
    {
        let id = counter.next_id();
        self.workers.push(Worker { request_id: id, dir: Direction::Inbound });
        id
    }

    /// Registers a fully negotiated outbound substream: pops the message at
    /// the head of the requested-outbound queue — resolutions arrive in the
    /// order substream requests were issued, so the head is the message this
    /// resolution belongs to — and adds an outbound worker for its id to the
    /// pool. The returned message is what the hosting driver must now send.
    pub fn on_fully_negotiated_outbound(&mut self) -> (m: OutboundMessage)
        requires
            old(self).requested_outbound@.len() > 0,
        ensures
            negotiated_outbound_step(*old(self), *final(self), m),
    {
        let m = match self.requested_outbound.pop_front() {
            Option::Some(m) => m,
            Option::None => unreached(),
        };
        self.workers.push(Worker { request_id: m.request_id, dir: Direction::Outbound });
        m
    }

    /// Handles a failed outbound substream request for the message at the
    /// head of the requested-outbound queue: a timeout or an
    /// unsupported-protocols report becomes that message's terminal event,
    /// and a transient I/O failure silently re-enqueues the message for a
    /// fresh attempt.
    pub fn on_dial_upgrade_error(&mut self, error: DialError)
        requires
            old(self).requested_outbound@.len() > 0,
        ensures
            dial_error_step(*old(self), error, *final(self)),
    {
        let m = match self.requested_outbound.pop_front() {
            Option::Some(m) => m,
            Option::None => unreached(),
        };
        match error {
            DialError::Timeout => {
                self.pending_events.push_back(Event::OutboundTimeout(m.request_id));
            },
            DialError::UnsupportedProtocols => {
                self.pending_events.push_back(Event::OutboundUnsupportedProtocols(m.request_id));
            },
            DialError::Io => {
                self.pending_outbound.push_back(m);
            },
        }
    }

    /// Runs one non-blocking poll cycle over the state the hosting driver
    /// found ready, and decides the single thing to do next.
    pub fn poll(&mut self, cx: &mut PollContext) -> (out: PollOutput)
        requires
            old(cx).now + old(self).substream_timeout + old(self).keep_alive_timeout <= u64::MAX,
        ensures
            poll_step(*old(self), *old(cx), *final(self), *final(cx), out),
    {
        while cx.worker_results.len() > 0
            invariant
                drain_spec(self.workers@, cx.worker_results@) == drain_spec(
                    old(self).workers@,
                    old(cx).worker_results@,
                ),
                self.pending_events@ == old(self).pending_events@,
                self.pending_outbound@ == old(self).pending_outbound@,
                self.requested_outbound@ == old(self).requested_outbound@,
                self.keep_alive == old(self).keep_alive,
                self.keep_alive_timeout == old(self).keep_alive_timeout,
                self.substream_timeout == old(self).substream_timeout,
                self.inbound_protocols@ == old(self).inbound_protocols@,
                cx.inbound@ == old(cx).inbound@,
                cx.now == old(cx).now,
            decreases cx.worker_results@.len(),
        {
            let ghost pool0 = self.workers@;
            let ghost results0 = cx.worker_results@;
            let r = match cx.worker_results.pop_front() {
                Option::Some(r) => r,
                Option::None => unreached(),
            };
            remove_worker(&mut self.workers, &r.worker);
            proof {
                assert(drain_spec(pool0, results0) == drain_spec(
                    old(self).workers@,
                    old(cx).worker_results@,
                ));
            }
            match r.outcome {
                WorkerOutcome::Completed(ev) => {
                    return PollOutput::Behaviour(ev);
                },
                WorkerOutcome::Failed => {},
            }
        }
        match self.pending_events.pop_front() {
            Option::Some(ev) => {
                return PollOutput::Behaviour(ev);
            },
            Option::None => {},
        }
        match cx.inbound.pop_front() {
            Option::Some(del) => {
                self.keep_alive = KeepAlive::Yes;
                return PollOutput::Behaviour(
                    Event::Request { request_id: del.request_id, request: del.request },
                );
            },
            Option::None => {},
        }
        match self.pending_outbound.pop_front() {
            Option::Some(m) => {
                let protocols = copy_protocols(&m.protocols);
                self.requested_outbound.push_back(m);
                return PollOutput::SubstreamRequest(protocols);
            },
            Option::None => {},
        }
        if self.workers.len() == 0 && self.connection_keep_alive() == KeepAlive::Yes {
            self.keep_alive = KeepAlive::Until(
                cx.now + self.substream_timeout + self.keep_alive_timeout,
            );
        }
        PollOutput::Pending
    }

    /// Dispatches one negotiation-layer resolution and says which exchange,
    /// if any, the hosting driver must now run. Outbound resolutions and
    /// failures belong to the head of the requested-outbound queue, so one
    /// must be there; a resolution with no matching requested message is a
    /// contract violation of the negotiation layer.
    pub fn on_connection_event(
        &mut self,
        counter: &mut RequestIdCounter,
        event: ConnectionEvent,
    ) -> (spawn: Option<WorkerSpawn>)
        requires
            event == ConnectionEvent::FullyNegotiatedInbound ==> old(counter).next < u64::MAX,
            event != ConnectionEvent::FullyNegotiatedInbound ==> old(
                self,
            ).requested_outbound@.len() > 0,
        ensures
            match event {
                ConnectionEvent::FullyNegotiatedInbound => (spawn matches Option::Some(
                    WorkerSpawn::Inbound { request_id },
                ) && negotiated_inbound_step(
                    *old(self),
                    *old(counter),
                    *final(self),
                    *final(counter),
                    request_id,
                )),
                ConnectionEvent::FullyNegotiatedOutbound => *final(counter) == *old(counter) && (
                spawn matches Option::Some(WorkerSpawn::Outbound { message })
                    && negotiated_outbound_step(*old(self), *final(self), message)),
                ConnectionEvent::DialUpgradeError(e) => *final(counter) == *old(counter) && spawn
                    is None && dial_error_step(*old(self), e, *final(self)),
            },
    {
        match event {
            ConnectionEvent::FullyNegotiatedInbound => {
                let request_id = self.on_fully_negotiated_inbound(counter);
                Option::Some(WorkerSpawn::Inbound { request_id })
            },
            ConnectionEvent::FullyNegotiatedOutbound => {
                let message = self.on_fully_negotiated_outbound();
                Option::Some(WorkerSpawn::Outbound { message })
            },
            ConnectionEvent::DialUpgradeError(e) => {
                self.on_dial_upgrade_error(e);
                Option::None
            },
        }
    }
}

/// Copies a list of protocol identifiers.
fn copy_protocols(protocols: &Vec<u64>) -> (r: Vec<u64>)
    ensures
        r@ == protocols@,
{
    let mut r: Vec<u64> = Vec::new();
    let mut i: usize = 0;
    while i < protocols.len()
        invariant
            i <= protocols.len(),
            r@ == protocols@.subrange(0, i as int),
        decreases protocols.len() - i,
    {
        r.push(protocols[i]);
        i = i + 1;
        proof {
            assert(r@ =~= protocols@.subrange(0, i as int));
        }
    }
    proof {
        assert(r@ =~= protocols@);
    }
    r
}

} // verus!
