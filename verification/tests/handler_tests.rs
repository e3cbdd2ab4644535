use std::collections::VecDeque;

use request_response::counter::RequestIdCounter;
use request_response::events::{DialError, Event, KeepAlive, OutboundMessage};
use request_response::handler::{
    ConnectionEvent, Handler, InboundDelivery, PollContext, PollOutput, WorkerSpawn,
};
use request_response::worker::{
    inbound_worker_outcome, outbound_worker_outcome, Direction, InboundWorkerRun,
    OutboundWorkerRun, Worker, WorkerOutcome, WorkerResult,
};

const KEEP_ALIVE_TIMEOUT: u64 = 10;
const SUBSTREAM_TIMEOUT: u64 = 5;

fn fresh_handler() -> Handler {
    Handler::new(vec![1], KEEP_ALIVE_TIMEOUT, SUBSTREAM_TIMEOUT)
}

fn fresh_cx(now: u64) -> PollContext {
    PollContext {
        worker_results: VecDeque::new(),
        inbound: VecDeque::new(),
        now,
    }
}

fn message(request_id: u64, request: &[u8], protocols: &[u64]) -> OutboundMessage {
    OutboundMessage {
        request_id,
        request: request.to_vec(),
        protocols: protocols.to_vec(),
    }
}

#[test]
fn outbound_success_produces_single_response_event() {
    let mut h = fresh_handler();
    let mut cx = fresh_cx(0);
    h.on_behaviour_event(message(1, b"ping", &[1]));

    // the substream request for the queued message is issued
    let out = h.poll(&mut cx);
    assert_eq!(out, PollOutput::SubstreamRequest(vec![1]));

    // negotiation succeeds with the candidate protocol; the worker is spawned
    let m = h.on_fully_negotiated_outbound();
    assert_eq!(m.request_id, 1);
    assert_eq!(m.request, b"ping".to_vec());

    // codec write and read succeed within the timeout
    let outcome = outbound_worker_outcome(1, OutboundWorkerRun::Responded { response: b"pong".to_vec() });
    cx.worker_results.push_back(WorkerResult {
        worker: Worker { request_id: 1, dir: Direction::Outbound },
        outcome,
    });
    let out = h.poll(&mut cx);
    assert_eq!(
        out,
        PollOutput::Behaviour(Event::Response { request_id: 1, response: b"pong".to_vec() })
    );

    // no other event follows
    assert_eq!(h.poll(&mut cx), PollOutput::Pending);
}

#[test]
fn outbound_read_exceeding_timeout_produces_timeout_event() {
    let mut h = fresh_handler();
    let mut cx = fresh_cx(0);
    h.on_behaviour_event(message(1, b"ping", &[1]));
    assert_eq!(h.poll(&mut cx), PollOutput::SubstreamRequest(vec![1]));
    let _ = h.on_fully_negotiated_outbound();

    // the timeout wins the race against the codec read
    let outcome = outbound_worker_outcome(1, OutboundWorkerRun::TimedOut);
    cx.worker_results.push_back(WorkerResult {
        worker: Worker { request_id: 1, dir: Direction::Outbound },
        outcome,
    });
    assert_eq!(
        h.poll(&mut cx),
        PollOutput::Behaviour(Event::OutboundTimeout(1))
    );
    // and no response event follows
    assert_eq!(h.poll(&mut cx), PollOutput::Pending);
}

#[test]
fn unsupported_protocols_is_terminal_and_nonfatal() {
    let mut h = fresh_handler();
    let mut cx = fresh_cx(0);
    h.on_behaviour_event(message(1, b"ping", &[1]));
    assert_eq!(h.poll(&mut cx), PollOutput::SubstreamRequest(vec![1]));
    h.on_dial_upgrade_error(DialError::UnsupportedProtocols);
    assert_eq!(
        h.poll(&mut cx),
        PollOutput::Behaviour(Event::OutboundUnsupportedProtocols(1))
    );

    // a later submission on the same handler still succeeds normally
    h.on_behaviour_event(message(2, b"again", &[1]));
    assert_eq!(h.poll(&mut cx), PollOutput::SubstreamRequest(vec![1]));
    let m = h.on_fully_negotiated_outbound();
    assert_eq!(m.request_id, 2);
    let outcome = outbound_worker_outcome(2, OutboundWorkerRun::Responded { response: b"ok".to_vec() });
    cx.worker_results.push_back(WorkerResult {
        worker: Worker { request_id: 2, dir: Direction::Outbound },
        outcome,
    });
    assert_eq!(
        h.poll(&mut cx),
        PollOutput::Behaviour(Event::Response { request_id: 2, response: b"ok".to_vec() })
    );
}

#[test]
fn dial_timeout_produces_timeout_event() {
    let mut h = fresh_handler();
    let mut cx = fresh_cx(0);
    h.on_behaviour_event(message(7, b"x", &[1]));
    assert_eq!(h.poll(&mut cx), PollOutput::SubstreamRequest(vec![1]));
    h.on_dial_upgrade_error(DialError::Timeout);
    assert_eq!(h.poll(&mut cx), PollOutput::Behaviour(Event::OutboundTimeout(7)));
}

#[test]
fn transient_dial_error_retries_without_event() {
    let mut h = fresh_handler();
    let mut cx = fresh_cx(0);
    h.on_behaviour_event(message(3, b"retry-me", &[1]));
    assert_eq!(h.poll(&mut cx), PollOutput::SubstreamRequest(vec![1]));

    // a transient I/O failure re-queues the message silently
    h.on_dial_upgrade_error(DialError::Io);
    // no event; instead a fresh substream request is issued for the retry
    assert_eq!(h.poll(&mut cx), PollOutput::SubstreamRequest(vec![1]));
    let m = h.on_fully_negotiated_outbound();
    assert_eq!(m.request_id, 3);
    assert_eq!(m.request, b"retry-me".to_vec());
}

#[test]
fn inbound_acceptor_dropped_produces_omission() {
    let mut h = fresh_handler();
    let mut cx = fresh_cx(0);
    let mut counter = RequestIdCounter::new();

    let id = h.on_fully_negotiated_inbound(&mut counter);
    // the request is read, handed off, and the behaviour drops the acceptor
    // without responding; the stream closes cleanly
    let outcome = inbound_worker_outcome(id, InboundWorkerRun::AcceptorDropped { close_ok: true });
    assert_eq!(outcome, WorkerOutcome::Completed(Event::ResponseOmission(id)));
    cx.worker_results.push_back(WorkerResult {
        worker: Worker { request_id: id, dir: Direction::Inbound },
        outcome,
    });
    assert_eq!(
        h.poll(&mut cx),
        PollOutput::Behaviour(Event::ResponseOmission(id))
    );
    assert_eq!(h.poll(&mut cx), PollOutput::Pending);
}

#[test]
fn inbound_acceptor_used_produces_response_sent() {
    let mut h = fresh_handler();
    let mut cx = fresh_cx(0);
    let mut counter = RequestIdCounter::new();
    let id = h.on_fully_negotiated_inbound(&mut counter);
    let outcome = inbound_worker_outcome(
        id,
        InboundWorkerRun::Responded { write_ok: true, close_ok: true },
    );
    assert_eq!(outcome, WorkerOutcome::Completed(Event::ResponseSent(id)));
    cx.worker_results.push_back(WorkerResult {
        worker: Worker { request_id: id, dir: Direction::Inbound },
        outcome,
    });
    assert_eq!(h.poll(&mut cx), PollOutput::Behaviour(Event::ResponseSent(id)));
}

#[test]
fn inbound_failures_produce_no_event() {
    assert_eq!(
        inbound_worker_outcome(4, InboundWorkerRun::TimedOut),
        WorkerOutcome::Failed
    );
    assert_eq!(
        inbound_worker_outcome(4, InboundWorkerRun::ReadFailed),
        WorkerOutcome::Failed
    );
    assert_eq!(
        inbound_worker_outcome(4, InboundWorkerRun::Responded { write_ok: false, close_ok: true }),
        WorkerOutcome::Failed
    );
    assert_eq!(
        inbound_worker_outcome(4, InboundWorkerRun::Responded { write_ok: true, close_ok: false }),
        WorkerOutcome::Failed
    );
    assert_eq!(
        inbound_worker_outcome(4, InboundWorkerRun::AcceptorDropped { close_ok: false }),
        WorkerOutcome::Failed
    );
}

#[test]
fn outbound_io_failures_produce_no_event() {
    assert_eq!(
        outbound_worker_outcome(9, OutboundWorkerRun::WriteFailed),
        WorkerOutcome::Failed
    );
    assert_eq!(
        outbound_worker_outcome(9, OutboundWorkerRun::CloseFailed),
        WorkerOutcome::Failed
    );
    assert_eq!(
        outbound_worker_outcome(9, OutboundWorkerRun::ReadFailed),
        WorkerOutcome::Failed
    );
}

#[test]
fn failed_worker_results_are_discarded_silently() {
    let mut h = fresh_handler();
    let mut cx = fresh_cx(0);
    let mut counter = RequestIdCounter::new();
    let a = h.on_fully_negotiated_inbound(&mut counter);
    let b = h.on_fully_negotiated_inbound(&mut counter);

    // the first result is a failure, the second a completion: one poll
    // cycle swallows the failure and surfaces the completion
    cx.worker_results.push_back(WorkerResult {
        worker: Worker { request_id: a, dir: Direction::Inbound },
        outcome: inbound_worker_outcome(a, InboundWorkerRun::TimedOut),
    });
    cx.worker_results.push_back(WorkerResult {
        worker: Worker { request_id: b, dir: Direction::Inbound },
        outcome: inbound_worker_outcome(b, InboundWorkerRun::Responded { write_ok: true, close_ok: true }),
    });
    assert_eq!(h.poll(&mut cx), PollOutput::Behaviour(Event::ResponseSent(b)));
    assert_eq!(h.poll(&mut cx), PollOutput::Pending);
}

#[test]
fn three_concurrent_inbound_deliveries_are_emitted_one_per_cycle() {
    let mut h = fresh_handler();
    let mut cx = fresh_cx(0);
    let mut counter = RequestIdCounter::new();

    let ids = [
        h.on_fully_negotiated_inbound(&mut counter),
        h.on_fully_negotiated_inbound(&mut counter),
        h.on_fully_negotiated_inbound(&mut counter),
    ];
    for (i, id) in ids.iter().enumerate() {
        cx.inbound.push_back(InboundDelivery {
            request_id: *id,
            request: vec![i as u8],
        });
    }

    // exactly one inbound-request event per poll cycle, in arrival order,
    // no loss and no duplication
    let mut seen = Vec::new();
    for i in 0..3u8 {
        match h.poll(&mut cx) {
            PollOutput::Behaviour(Event::Request { request_id, request }) => {
                assert_eq!(request, vec![i]);
                seen.push(request_id);
            }
            other => panic!("expected an inbound request event, got {:?}", other),
        }
    }
    assert_eq!(seen, ids.to_vec());
    // all delivered; the workers are still awaiting their acceptors
    assert!(cx.inbound.is_empty());
}

#[test]
fn inbound_request_ids_are_unique_across_handlers_sharing_a_counter() {
    let mut counter = RequestIdCounter::new();
    let mut h1 = fresh_handler();
    let mut h2 = fresh_handler();

    // interleaved allocations across two handlers of one behaviour
    let ids = [
        h1.on_fully_negotiated_inbound(&mut counter),
        h2.on_fully_negotiated_inbound(&mut counter),
        h1.on_fully_negotiated_inbound(&mut counter),
        h2.on_fully_negotiated_inbound(&mut counter),
    ];
    for i in 0..ids.len() {
        for j in (i + 1)..ids.len() {
            assert!(ids[i] < ids[j], "ids must be strictly increasing");
            assert_ne!(ids[i], ids[j]);
        }
    }
    assert_eq!(ids.to_vec(), vec![0, 1, 2, 3]);
}

#[test]
fn keep_alive_is_never_not_alive_and_arms_a_deadline_when_idle() {
    let mut h = fresh_handler();
    let mut cx = fresh_cx(100);
    assert_eq!(h.connection_keep_alive(), KeepAlive::Yes);

    // an idle poll cycle arms the deadline, preceded by the substream
    // timeout margin
    assert_eq!(h.poll(&mut cx), PollOutput::Pending);
    assert_eq!(
        h.connection_keep_alive(),
        KeepAlive::Until(100 + SUBSTREAM_TIMEOUT + KEEP_ALIVE_TIMEOUT)
    );

    // new outbound work restores `Yes`
    h.on_behaviour_event(message(1, b"w", &[1]));
    assert_eq!(h.connection_keep_alive(), KeepAlive::Yes);
    assert_ne!(h.connection_keep_alive(), KeepAlive::No);

    // while work is queued or in flight the handler stays alive
    assert_eq!(h.poll(&mut cx), PollOutput::SubstreamRequest(vec![1]));
    assert_ne!(h.connection_keep_alive(), KeepAlive::No);
    let _ = h.on_fully_negotiated_outbound();
    assert_ne!(h.connection_keep_alive(), KeepAlive::No);

    // an inbound delivery also restores `Yes`
    assert_eq!(h.poll(&mut cx), PollOutput::Pending);
    cx.inbound.push_back(InboundDelivery { request_id: 5, request: b"q".to_vec() });
    let _ = h.poll(&mut cx);
    assert_eq!(h.connection_keep_alive(), KeepAlive::Yes);
}

#[test]
fn keep_alive_deadline_waits_for_the_worker_pool() {
    let mut h = fresh_handler();
    let mut cx = fresh_cx(0);
    let mut counter = RequestIdCounter::new();
    let id = h.on_fully_negotiated_inbound(&mut counter);

    // the pool is non-empty, so an idle-looking cycle must not arm the
    // deadline
    assert_eq!(h.poll(&mut cx), PollOutput::Pending);
    assert_eq!(h.connection_keep_alive(), KeepAlive::Yes);

    // once the worker finishes and the pool drains, the next idle cycle
    // arms it
    cx.worker_results.push_back(WorkerResult {
        worker: Worker { request_id: id, dir: Direction::Inbound },
        outcome: inbound_worker_outcome(id, InboundWorkerRun::AcceptorDropped { close_ok: true }),
    });
    let _ = h.poll(&mut cx);
    assert_eq!(h.poll(&mut cx), PollOutput::Pending);
    assert_eq!(
        h.connection_keep_alive(),
        KeepAlive::Until(SUBSTREAM_TIMEOUT + KEEP_ALIVE_TIMEOUT)
    );
}

#[test]
fn completed_workers_take_priority_over_every_queue() {
    let mut h = fresh_handler();
    let mut cx = fresh_cx(0);
    let mut counter = RequestIdCounter::new();

    // load every source at once: a pending terminal event, an inbound
    // delivery, a queued outbound message and a completed worker
    h.on_behaviour_event(message(1, b"a", &[1]));
    assert_eq!(h.poll(&mut cx), PollOutput::SubstreamRequest(vec![1]));
    h.on_dial_upgrade_error(DialError::Timeout); // pending terminal event
    let inbound_id = h.on_fully_negotiated_inbound(&mut counter);
    cx.inbound.push_back(InboundDelivery { request_id: inbound_id, request: b"r".to_vec() });
    h.on_behaviour_event(message(2, b"b", &[1]));
    cx.worker_results.push_back(WorkerResult {
        worker: Worker { request_id: inbound_id, dir: Direction::Inbound },
        outcome: inbound_worker_outcome(inbound_id, InboundWorkerRun::Responded { write_ok: true, close_ok: true }),
    });

    assert_eq!(
        h.poll(&mut cx),
        PollOutput::Behaviour(Event::ResponseSent(inbound_id))
    );
    assert_eq!(h.poll(&mut cx), PollOutput::Behaviour(Event::OutboundTimeout(1)));
    assert_eq!(
        h.poll(&mut cx),
        PollOutput::Behaviour(Event::Request { request_id: inbound_id, request: b"r".to_vec() })
    );
    assert_eq!(h.poll(&mut cx), PollOutput::SubstreamRequest(vec![1]));
    assert_eq!(h.poll(&mut cx), PollOutput::Pending);
}

#[test]
fn connection_event_dispatch_matches_the_individual_handlers() {
    let mut h = fresh_handler();
    let mut cx = fresh_cx(0);
    let mut counter = RequestIdCounter::new();

    let spawn = h.on_connection_event(&mut counter, ConnectionEvent::FullyNegotiatedInbound);
    assert_eq!(spawn, Some(WorkerSpawn::Inbound { request_id: 0 }));

    h.on_behaviour_event(message(8, b"m", &[1]));
    assert_eq!(h.poll(&mut cx), PollOutput::SubstreamRequest(vec![1]));
    let spawn = h.on_connection_event(&mut counter, ConnectionEvent::FullyNegotiatedOutbound);
    match spawn {
        Some(WorkerSpawn::Outbound { message }) => assert_eq!(message.request_id, 8),
        other => panic!("expected an outbound spawn, got {:?}", other),
    }

    h.on_behaviour_event(message(9, b"n", &[1]));
    assert_eq!(h.poll(&mut cx), PollOutput::SubstreamRequest(vec![1]));
    let spawn = h.on_connection_event(
        &mut counter,
        ConnectionEvent::DialUpgradeError(DialError::UnsupportedProtocols),
    );
    assert_eq!(spawn, None);
    assert_eq!(
        h.poll(&mut cx),
        PollOutput::Behaviour(Event::OutboundUnsupportedProtocols(9))
    );
}

#[test]
fn listen_protocol_reports_the_inbound_protocols() {
    let h = Handler::new(vec![4, 2], KEEP_ALIVE_TIMEOUT, SUBSTREAM_TIMEOUT);
    assert_eq!(h.listen_protocol(), vec![4, 2]);
}

#[test]
fn event_request_id_getter() {
    assert_eq!(Event::ResponseSent(11).request_id(), 11);
    assert_eq!(Event::ResponseOmission(12).request_id(), 12);
    assert_eq!(Event::OutboundTimeout(13).request_id(), 13);
    assert_eq!(Event::OutboundUnsupportedProtocols(14).request_id(), 14);
    assert_eq!(
        Event::Request { request_id: 15, request: vec![] }.request_id(),
        15
    );
    assert_eq!(
        Event::Response { request_id: 16, response: vec![] }.request_id(),
        16
    );
}
