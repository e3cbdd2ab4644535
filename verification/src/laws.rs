use vstd::multiset::Multiset;
use vstd::prelude::*;

use crate::counter::RequestIdCounter;
use crate::events::{event_request_id, is_terminal_outbound, DialError, Event, KeepAlive, OutboundMessage};
use crate::handler::{
    dial_error_step, drain_spec, negotiated_inbound_step, negotiated_outbound_step, poll_step,
    submit_step, Handler, PollContext, PollOutput,
};
use crate::worker::{
    find_worker, lemma_find_worker, remove_worker_spec, wf_worker_result, Direction, Worker,
    WorkerOutcome, WorkerResult,
};

verus! {

// ---------------------------------------------------------------------------
// Counting request ids through a sequence.
// ---------------------------------------------------------------------------
/// The multiset of ids that `key` extracts from the elements of `s`.
pub open spec fn counted_ids<T>(s: Seq<T>, key: spec_fn(T) -> Option<u64>) -> Multiset<u64>
    decreases s.len(),
{
    if s.len() == 0 {
        Multiset::empty()
    } else {
        match key(s.last()) {
            Option::Some(id) => counted_ids(s.drop_last(), key).insert(id),
            Option::None => counted_ids(s.drop_last(), key),
        }
    }
}

proof fn lemma_counted_ids_push<T>(s: Seq<T>, key: spec_fn(T) -> Option<u64>, x: T)
    ensures
        counted_ids(s.push(x), key) == match key(x) {
            Option::Some(id) => counted_ids(s, key).insert(id),
            Option::None => counted_ids(s, key),
        },
{
    assert(s.push(x).drop_last() =~= s);
    assert(s.push(x).last() == x);
}

proof fn lemma_counted_ids_remove<T>(s: Seq<T>, key: spec_fn(T) -> Option<u64>, i: int)
    requires
        0 <= i < s.len(),
    ensures
        counted_ids(s, key) == match key(s[i]) {
            Option::Some(id) => counted_ids(s.remove(i), key).insert(id),
            Option::None => counted_ids(s.remove(i), key),
        },
    decreases s.len(),
{
    if i == s.len() - 1 {
        assert(s.remove(i) =~= s.drop_last());
    } else {
        assert(s.remove(i).last() == s.last());
        assert(s.remove(i).drop_last() =~= s.drop_last().remove(i));
        lemma_counted_ids_remove(s.drop_last(), key, i);
        match key(s[i]) {
            Option::Some(id) => {
                match key(s.last()) {
                    Option::Some(lid) => {
                        assert(counted_ids(s.remove(i), key).insert(id) =~= counted_ids(
                            s.drop_last().remove(i),
                            key,
                        ).insert(lid).insert(id));
                    },
                    Option::None => {},
                }
            },
            Option::None => {},
        }
    }
}

proof fn lemma_counted_ids_drop_first<T>(s: Seq<T>, key: spec_fn(T) -> Option<u64>)
    requires
        s.len() > 0,
    ensures
        counted_ids(s, key) == match key(s[0]) {
            Option::Some(id) => counted_ids(s.drop_first(), key).insert(id),
            Option::None => counted_ids(s.drop_first(), key),
        },
{
    assert(s.drop_first() =~= s.remove(0));
    lemma_counted_ids_remove(s, key, 0);
}

// ---------------------------------------------------------------------------
// The outbound obligation account.
// ---------------------------------------------------------------------------
/// Extracts the id of an outbound message.
pub open spec fn message_key() -> spec_fn(OutboundMessage) -> Option<u64> {
    |m: OutboundMessage| Option::Some(m.request_id)
}

/// Extracts the id of a worker when it drives an outbound exchange.
pub open spec fn outbound_worker_key() -> spec_fn(Worker) -> Option<u64> {
    |w: Worker|
        if w.dir == Direction::Outbound {
            Option::Some(w.request_id)
        } else {
            Option::None
        }
}

/// Extracts the id of an event when it is a terminal outbound outcome.
pub open spec fn terminal_event_key() -> spec_fn(Event) -> Option<u64> {
    |e: Event|
        if is_terminal_outbound(e) {
            Option::Some(event_request_id(e))
        } else {
            Option::None
        }
}

/// Every outbound request the handler still owes a terminal event for,
/// wherever it currently lives: queued, requested, in flight on a worker,
/// or already decided but not yet emitted.
pub open spec fn outbound_obligations(h: Handler) -> Multiset<u64> {
    counted_ids(h.pending_outbound@, message_key()).add(
        counted_ids(h.requested_outbound@, message_key()),
    ).add(counted_ids(h.workers@, outbound_worker_key())).add(
        counted_ids(h.pending_events@, terminal_event_key()),
    )
}

/// The terminal outbound event a poll cycle emitted, if any, as a multiset
/// of ids.
pub open spec fn emitted_terminal(out: PollOutput) -> Multiset<u64> {
    match out {
        PollOutput::Behaviour(ev) => if is_terminal_outbound(ev) {
            Multiset::empty().insert(event_request_id(ev))
        } else {
            Multiset::empty()
        },
        _ => Multiset::empty(),
    }
}

// ---------------------------------------------------------------------------
// Conservation of outbound obligations: every submitted message is owed
// exactly one terminal event, and no transition creates, duplicates or
// loses an obligation; a terminal event leaves the account exactly when it
// is emitted.
// ---------------------------------------------------------------------------
/// A handler whose queues, pool and event queue are empty — as a fresh one
/// is — owes no terminal event to anybody.
pub proof fn lemma_empty_handler_owes_nothing(h: Handler)
    requires
        h.pending_outbound@.len() == 0,
        h.requested_outbound@.len() == 0,
        h.workers@.len() == 0,
        h.pending_events@.len() == 0,
    ensures
        outbound_obligations(h) == Multiset::<u64>::empty(),
{
    assert(outbound_obligations(h) =~= Multiset::<u64>::empty());
}

/// Submitting a message opens exactly one new obligation, for its own id.
pub proof fn lemma_submit_adds_one_obligation(pre: Handler, m: OutboundMessage, post: Handler)
    requires
        submit_step(pre, m, post),
    ensures
        outbound_obligations(post) == outbound_obligations(pre).insert(m.request_id),
{
    lemma_counted_ids_push(pre.pending_outbound@, message_key(), m);
    assert(outbound_obligations(post) =~= outbound_obligations(pre).insert(m.request_id));
}

/// A negotiated inbound substream opens no outbound obligation.
pub proof fn lemma_negotiated_inbound_conserves_obligations(
    pre: Handler,
    c_pre: RequestIdCounter,
    post: Handler,
    c_post: RequestIdCounter,
    id: u64,
)
    requires
        negotiated_inbound_step(pre, c_pre, post, c_post, id),
    ensures
        outbound_obligations(post) == outbound_obligations(pre),
{
    lemma_counted_ids_push(
        pre.workers@,
        outbound_worker_key(),
        Worker { request_id: id, dir: Direction::Inbound },
    );
    assert(outbound_obligations(post) =~= outbound_obligations(pre));
}

/// A negotiated outbound substream moves its message's obligation from the
/// requested-outbound queue to the worker pool, neither losing nor
/// duplicating it.
pub proof fn lemma_negotiated_outbound_conserves_obligations(
    pre: Handler,
    post: Handler,
    m: OutboundMessage,
)
    requires
        negotiated_outbound_step(pre, post, m),
    ensures
        outbound_obligations(post) == outbound_obligations(pre),
{
    lemma_counted_ids_drop_first(pre.requested_outbound@, message_key());
    lemma_counted_ids_push(
        pre.workers@,
        outbound_worker_key(),
        Worker { request_id: m.request_id, dir: Direction::Outbound },
    );
    assert(outbound_obligations(post) =~= outbound_obligations(pre));
}

/// A failed outbound substream request conserves its message's obligation:
/// a timeout or an unsupported-protocols report turns it into a pending
/// terminal event of the same id, and a transient I/O failure re-queues it.
pub proof fn lemma_dial_error_conserves_obligations(
    pre: Handler,
    error: DialError,
    post: Handler,
)
    requires
        dial_error_step(pre, error, post),
    ensures
        outbound_obligations(post) == outbound_obligations(pre),
{
    let m = pre.requested_outbound@[0];
    lemma_counted_ids_drop_first(pre.requested_outbound@, message_key());
    match error {
        DialError::Timeout => {
            lemma_counted_ids_push(
                pre.pending_events@,
                terminal_event_key(),
                Event::OutboundTimeout(m.request_id),
            );
        },
        DialError::UnsupportedProtocols => {
            lemma_counted_ids_push(
                pre.pending_events@,
                terminal_event_key(),
                Event::OutboundUnsupportedProtocols(m.request_id),
            );
        },
        DialError::Io => {
            lemma_counted_ids_push(pre.pending_outbound@, message_key(), m);
        },
    }
    assert(outbound_obligations(post) =~= outbound_obligations(pre));
}

/// The worker results a poll cycle may consume without losing an outbound
/// obligation: each names a worker the pool holds and is well formed, and
/// every failed result belongs to an inbound worker. A failed outbound
/// worker — an I/O error of its write, close or read — is the one way an
/// obligation is discarded without a terminal event.
pub open spec fn drain_ok(pool: Seq<Worker>, results: Seq<WorkerResult>) -> bool
    decreases results.len(),
{
    if results.len() == 0 {
        true
    } else {
        let r = results[0];
        &&& find_worker(pool, r.worker) != -1
        &&& wf_worker_result(r)
        &&& match r.outcome {
            WorkerOutcome::Completed(_) => true,
            WorkerOutcome::Failed => r.worker.dir == Direction::Inbound && drain_ok(
                remove_worker_spec(pool, r.worker),
                results.drop_first(),
            ),
        }
    }
}

/// Draining well-formed worker results conserves the outbound ids held by
/// the pool: the pool loses exactly the id of the terminal event the drain
/// surfaces, and nothing when it surfaces none.
proof fn lemma_drain_conserves_outbound(pool: Seq<Worker>, results: Seq<WorkerResult>)
    requires
        drain_ok(pool, results),
    ensures
        ({
            let d = drain_spec(pool, results);
            match d.event {
                Option::Some(ev) => if is_terminal_outbound(ev) {
                    counted_ids(pool, outbound_worker_key()) == counted_ids(
                        d.pool,
                        outbound_worker_key(),
                    ).insert(event_request_id(ev))
                } else {
                    counted_ids(d.pool, outbound_worker_key()) == counted_ids(
                        pool,
                        outbound_worker_key(),
                    )
                },
                Option::None => counted_ids(d.pool, outbound_worker_key()) == counted_ids(
                    pool,
                    outbound_worker_key(),
                ),
            }
        }),
    decreases results.len(),
{
    if results.len() > 0 {
        let r = results[0];
        lemma_find_worker(pool, r.worker);
        let i = find_worker(pool, r.worker);
        lemma_counted_ids_remove(pool, outbound_worker_key(), i);
        match r.outcome {
            WorkerOutcome::Completed(ev) => {},
            WorkerOutcome::Failed => {
                lemma_drain_conserves_outbound(
                    remove_worker_spec(pool, r.worker),
                    results.drop_first(),
                );
            },
        }
    }
}

/// The event a drain surfaces belongs to a worker the pool held: it names
/// that worker's own request id, an inbound worker surfaces response-sent
/// or response-omission and nothing else, and the event is a terminal
/// outbound outcome exactly when the worker drove an outbound exchange.
pub proof fn lemma_drain_event_matches_a_worker(pool: Seq<Worker>, results: Seq<WorkerResult>)
    requires
        drain_ok(pool, results),
    ensures
        match drain_spec(pool, results).event {
            Option::Some(ev) => exists|w: Worker|
                {
                    &&& #[trigger] pool.contains(w)
                    &&& event_request_id(ev) == w.request_id
                    &&& (w.dir == Direction::Inbound ==> (ev matches Event::ResponseSent(_) || ev
                        matches Event::ResponseOmission(_)))
                    &&& (w.dir == Direction::Outbound <==> is_terminal_outbound(ev))
                },
            Option::None => true,
        },
    decreases results.len(),
{
    if results.len() > 0 {
        let r = results[0];
        lemma_find_worker(pool, r.worker);
        let i = find_worker(pool, r.worker);
        match r.outcome {
            WorkerOutcome::Completed(ev) => {
                assert(pool[i] == r.worker);
                assert(pool.contains(r.worker));
            },
            WorkerOutcome::Failed => {
                let pool1 = remove_worker_spec(pool, r.worker);
                lemma_drain_event_matches_a_worker(pool1, results.drop_first());
                match drain_spec(pool1, results.drop_first()).event {
                    Option::Some(ev) => {
                        let w = choose|w: Worker|
                            {
                                &&& #[trigger] pool1.contains(w)
                                &&& event_request_id(ev) == w.request_id
                                &&& (w.dir == Direction::Inbound ==> (ev matches
                                    Event::ResponseSent(_) || ev matches Event::ResponseOmission(
                                        _,
                                    )))
                                &&& (w.dir == Direction::Outbound <==> is_terminal_outbound(ev))
                            };
                        let k = choose|k: int| 0 <= k < pool1.len() && pool1[k] == w;
                        if k < i {
                            assert(pool[k] == w);
                        } else {
                            assert(pool[k + 1] == w);
                        }
                        assert(pool.contains(w));
                    },
                    Option::None => {},
                }
            },
        }
    }
}

/// One poll cycle conserves the outbound obligations: the account before
/// the cycle equals the account after it plus the terminal event the cycle
/// emitted, if any. In particular a cycle emits at most one event, and
/// never a terminal event for an id it owed nothing for.
pub proof fn lemma_poll_conserves_obligations(
    pre: Handler,
    cx_pre: PollContext,
    post: Handler,
    cx_post: PollContext,
    out: PollOutput,
)
    requires
        poll_step(pre, cx_pre, post, cx_post, out),
        drain_ok(pre.workers@, cx_pre.worker_results@),
    ensures
        outbound_obligations(pre) == outbound_obligations(post).add(emitted_terminal(out)),
{
    lemma_drain_conserves_outbound(pre.workers@, cx_pre.worker_results@);
    let d = drain_spec(pre.workers@, cx_pre.worker_results@);
    match d.event {
        Option::Some(ev) => {
            assert(outbound_obligations(pre) =~= outbound_obligations(post).add(
                emitted_terminal(out),
            ));
        },
        Option::None => {
            if pre.pending_events@.len() > 0 {
                lemma_counted_ids_drop_first(pre.pending_events@, terminal_event_key());
                assert(outbound_obligations(pre) =~= outbound_obligations(post).add(
                    emitted_terminal(out),
                ));
            } else if cx_pre.inbound@.len() > 0 {
                assert(outbound_obligations(pre) =~= outbound_obligations(post).add(
                    emitted_terminal(out),
                ));
            } else if pre.pending_outbound@.len() > 0 {
                lemma_counted_ids_drop_first(pre.pending_outbound@, message_key());
                lemma_counted_ids_push(
                    pre.requested_outbound@,
                    message_key(),
                    pre.pending_outbound@[0],
                );
                assert(outbound_obligations(pre) =~= outbound_obligations(post).add(
                    emitted_terminal(out),
                ));
            } else {
                assert(outbound_obligations(pre) =~= outbound_obligations(post).add(
                    emitted_terminal(out),
                ));
            }
        },
    }
}

// ---------------------------------------------------------------------------
// Keep-alive liveness: the handler never reports that the connection is not
// alive — whatever the pool and the queues hold, every transition leaves
// the keep-alive at `Yes` or at a deadline, never at `No`.
// ---------------------------------------------------------------------------
/// Accepting an outbound command leaves the keep-alive alive (it restores
/// `Yes` outright).
pub proof fn lemma_submit_keeps_alive(pre: Handler, m: OutboundMessage, post: Handler)
    requires
        submit_step(pre, m, post),
    ensures
        post.keep_alive != KeepAlive::No,
{
}

/// A negotiated substream, inbound or outbound, leaves an alive keep-alive
/// alive.
pub proof fn lemma_negotiation_keeps_alive(
    pre: Handler,
    post: Handler,
    c_pre: RequestIdCounter,
    c_post: RequestIdCounter,
    id: u64,
    m: OutboundMessage,
)
    requires
        pre.keep_alive != KeepAlive::No,
        negotiated_inbound_step(pre, c_pre, post, c_post, id) || negotiated_outbound_step(
            pre,
            post,
            m,
        ),
    ensures
        post.keep_alive != KeepAlive::No,
{
}

/// A failed outbound substream request leaves an alive keep-alive alive.
pub proof fn lemma_dial_error_keeps_alive(
    pre: Handler,
    error: DialError,
    post: Handler,
)
    requires
        pre.keep_alive != KeepAlive::No,
        dial_error_step(pre, error, post),
    ensures
        post.keep_alive != KeepAlive::No,
{
}

/// A poll cycle leaves an alive keep-alive alive: it either keeps it,
/// restores `Yes` on inbound work, or arms a deadline once the pool has
/// gone idle — it never reports `No`.
pub proof fn lemma_poll_keeps_alive(
    pre: Handler,
    cx_pre: PollContext,
    post: Handler,
    cx_post: PollContext,
    out: PollOutput,
)
    requires
        poll_step(pre, cx_pre, post, cx_post, out),
        pre.keep_alive != KeepAlive::No,
    ensures
        post.keep_alive != KeepAlive::No,
{
}

} // verus!
