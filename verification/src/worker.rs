use vstd::prelude::*;

use crate::events::{event_request_id, is_terminal_outbound, Event};

verus! {

/// Which half of an exchange a worker drives.
#[derive(Clone, Copy, Debug, PartialEq, Eq, Structural)]
pub enum Direction {
    Inbound,
    Outbound,
}

/// One in-flight worker of the pool: an asynchronous task driving a single
/// request/response exchange to a terminal outcome.
#[derive(Clone, Copy, Debug, PartialEq, Eq, Structural)]
pub struct Worker {
    pub request_id: u64,
    pub dir: Direction,
}

/// The terminal outcome of a worker.
#[derive(Debug, PartialEq, Eq)]
pub enum WorkerOutcome {
    /// The worker finished with an event for the behaviour.
    Completed(Event),
    /// The worker failed with an I/O error; the failure is discarded and
    /// produces no event.
    Failed,
}

/// A finished worker together with its outcome, as the pool reports it.
#[derive(Debug, PartialEq, Eq)]
pub struct WorkerResult {
    pub worker: Worker,
    pub outcome: WorkerOutcome,
}

/// What happened while an inbound worker ran, as the hosting driver saw it:
/// the request read, the hand-off to the behaviour, the fate of the
/// response acceptor and the response write, all raced against the
/// substream timeout.
#[derive(Debug, PartialEq, Eq)]
pub enum InboundWorkerRun {
    /// The timeout won the race; the remote presumably abandoned the
    /// request, and no request id was ever disclosed to the behaviour.
    TimedOut,
    /// Reading the request failed with an I/O error.
    ReadFailed,
    /// The behaviour answered through the acceptor and the response was
    /// written; `write_ok` and `close_ok` say whether the write and the
    /// closing of the substream succeeded.
    Responded { write_ok: bool, close_ok: bool },
    /// The behaviour dropped the acceptor without answering; `close_ok`
    /// says whether closing the substream succeeded.
    AcceptorDropped { close_ok: bool },
}

/// What happened while an outbound worker ran: the request write, the
/// closing of the write side and the response read, all raced against the
/// substream timeout.
#[derive(Debug, PartialEq, Eq)]
pub enum OutboundWorkerRun {
    /// The timeout won the race.
    TimedOut,
    /// Writing the request failed with an I/O error.
    WriteFailed,
    /// Closing the write side failed with an I/O error.
    CloseFailed,
    /// Reading the response failed with an I/O error.
    ReadFailed,
    /// The full exchange succeeded and read this response.
    Responded { response: Vec<u8> },
}

/// The outcome an inbound worker must report for a given run: response-sent
/// when the acceptor was used and both the write and the close succeeded,
/// response-omission when the acceptor was dropped and the close succeeded,
/// and a discarded failure otherwise. A timed-out or failed inbound
/// exchange produces no event at all.
pub open spec fn inbound_outcome_spec(request_id: u64, run: InboundWorkerRun) -> WorkerOutcome {
    match run {
        InboundWorkerRun::TimedOut => WorkerOutcome::Failed,
        InboundWorkerRun::ReadFailed => WorkerOutcome::Failed,
        InboundWorkerRun::Responded { write_ok, close_ok } => if write_ok && close_ok {
            WorkerOutcome::Completed(Event::ResponseSent(request_id))
        } else {
            WorkerOutcome::Failed
        },
        InboundWorkerRun::AcceptorDropped { close_ok } => if close_ok {
            WorkerOutcome::Completed(Event::ResponseOmission(request_id))
        } else {
            WorkerOutcome::Failed
        },
    }
}

/// The outcome an outbound worker must report for a given run: the response
/// tagged with the original request id on success, an outbound-timeout
/// event when the timeout won the race, and a discarded failure on an I/O
/// error.
pub open spec fn outbound_outcome_spec(request_id: u64, run: OutboundWorkerRun) -> WorkerOutcome {
    match run {
        OutboundWorkerRun::TimedOut => WorkerOutcome::Completed(
            Event::OutboundTimeout(request_id),
        ),
        OutboundWorkerRun::WriteFailed => WorkerOutcome::Failed,
        OutboundWorkerRun::CloseFailed => WorkerOutcome::Failed,
        OutboundWorkerRun::ReadFailed => WorkerOutcome::Failed,
        OutboundWorkerRun::Responded { response } => WorkerOutcome::Completed(
            Event::Response { request_id, response },
        ),
    }
}

/// Decides the terminal outcome of an inbound worker for the exchange named
/// `request_id`, given what the hosting driver observed while running it.
pub fn inbound_worker_outcome(request_id: u64, run: InboundWorkerRun) -> (r: WorkerOutcome)
    ensures
        r == inbound_outcome_spec(request_id, run),
{
    match run {
        InboundWorkerRun::TimedOut => WorkerOutcome::Failed,
        InboundWorkerRun::ReadFailed => WorkerOutcome::Failed,
        InboundWorkerRun::Responded { write_ok, close_ok } => {
            if write_ok && close_ok {
                WorkerOutcome::Completed(Event::ResponseSent(request_id))
            } else {
                WorkerOutcome::Failed
            }
        },
        InboundWorkerRun::AcceptorDropped { close_ok } => {
            if close_ok {
                WorkerOutcome::Completed(Event::ResponseOmission(request_id))
            } else {
                WorkerOutcome::Failed
            }
        },
    }
}

/// Decides the terminal outcome of an outbound worker for the exchange
/// named `request_id`, given what the hosting driver observed.
pub fn outbound_worker_outcome(request_id: u64, run: OutboundWorkerRun) -> (r: WorkerOutcome)
    ensures
        r == outbound_outcome_spec(request_id, run),
{
    match run {
        OutboundWorkerRun::TimedOut => WorkerOutcome::Completed(
            Event::OutboundTimeout(request_id),
        ),
        OutboundWorkerRun::WriteFailed => WorkerOutcome::Failed,
        OutboundWorkerRun::CloseFailed => WorkerOutcome::Failed,
        OutboundWorkerRun::ReadFailed => WorkerOutcome::Failed,
        OutboundWorkerRun::Responded { response } => WorkerOutcome::Completed(
            Event::Response { request_id, response },
        ),
    }
}

/// A worker result is well formed when its event, if any, speaks of the
/// worker's own request id and fits the worker's direction: outbound
/// workers complete with terminal outbound events, inbound workers with
/// response-sent or response-omission. Results built from
/// `inbound_worker_outcome` and `outbound_worker_outcome` are always well
/// formed.
pub open spec fn wf_worker_result(r: WorkerResult) -> bool {
    match r.outcome {
        WorkerOutcome::Completed(ev) => {
            &&& event_request_id(ev) == r.worker.request_id
            &&& (r.worker.dir == Direction::Outbound <==> is_terminal_outbound(ev))
            &&& (r.worker.dir == Direction::Inbound ==> (ev matches Event::ResponseSent(_) || ev
                matches Event::ResponseOmission(_)))
        },
        WorkerOutcome::Failed => true,
    }
}

/// The smallest index at which the pool holds this worker, or -1 when it
/// holds none.
pub open spec fn find_worker(pool: Seq<Worker>, w: Worker) -> int
    decreases pool.len(),
{
    if pool.len() == 0 {
        -1
    } else if pool[0] == w {
        0
    } else {
        let r = find_worker(pool.drop_first(), w);
        if r < 0 {
            -1
        } else {
            r + 1
        }
    }
}

/// The pool with the first occurrence of this worker removed, if any.
pub open spec fn remove_worker_spec(pool: Seq<Worker>, w: Worker) -> Seq<Worker> {
    let i = find_worker(pool, w);
    if i < 0 {
        pool
    } else {
        pool.remove(i)
    }
}

/// `find_worker` yields -1 exactly when the pool holds no such worker, and
/// otherwise the smallest matching index.
pub proof fn lemma_find_worker(pool: Seq<Worker>, w: Worker)
    ensures
        find_worker(pool, w) == -1 <==> (forall|j: int| 0 <= j < pool.len() ==> pool[j] != w),
        find_worker(pool, w) != -1 ==> {
            let i = find_worker(pool, w);
            &&& 0 <= i < pool.len()
            &&& pool[i] == w
            &&& forall|j: int| 0 <= j < i ==> pool[j] != w
        },
    decreases pool.len(),
{
    if pool.len() > 0 && pool[0] != w {
        lemma_find_worker(pool.drop_first(), w);
        assert(forall|j: int| 1 <= j < pool.len() ==> pool[j] == pool.drop_first()[j - 1]);
    }
}

/// Removes the first occurrence of a finished worker from the pool; the
/// pool stays as it was when it holds no such worker.
pub(crate) fn remove_worker(workers: &mut Vec<Worker>, w: &Worker)
    ensures
        final(workers)@ == remove_worker_spec(old(workers)@, *w),
{
    proof {
        lemma_find_worker(old(workers)@, *w);
    }
    let n = workers.len();
    let mut i: usize = 0;
    while i < n
        invariant
            n == workers@.len(),
            i <= n,
            workers@ == old(workers)@,
            forall|j: int| 0 <= j < i ==> workers@[j] != *w,
        decreases n - i,
    {
        if workers[i] == *w {
            proof {
                lemma_find_worker(workers@, *w);
                let fi = find_worker(workers@, *w);
                assert(fi != -1);
                assert(fi == i) by {
                    if fi < i {
                        assert(workers@[fi] != *w);
                    }
                    if fi > i {
                        assert(workers@[i as int] != *w);
                    }
                }
            }
            workers.remove(i);
            return ;
        }
        i = i + 1;
    }
}

/// The two successful outcomes of an inbound exchange are mutually
/// exclusive and exhaustive, and both carry the exchange's own request id:
/// response-sent is reported exactly when the behaviour used the acceptor
/// and the response was written and the substream closed, and
/// response-omission exactly when the behaviour dropped the acceptor unused
/// and the substream closed.
pub proof fn lemma_inbound_outcomes_exclusive(request_id: u64, run: InboundWorkerRun)
    ensures
        ({
            let r = inbound_outcome_spec(request_id, run);
            &&& (r == WorkerOutcome::Completed(Event::ResponseSent(request_id)) <==> run matches
                InboundWorkerRun::Responded { write_ok: true, close_ok: true })
            &&& (r == WorkerOutcome::Completed(Event::ResponseOmission(request_id)) <==> run
                matches InboundWorkerRun::AcceptorDropped { close_ok: true })
            &&& forall|ev: Event|
                r == WorkerOutcome::Completed(ev) ==> (ev == Event::ResponseSent(request_id) || ev
                    == Event::ResponseOmission(request_id))
        }),
{
}

/// An inbound worker's result is well formed for an inbound worker of the
/// same id, whatever its run looked like.
pub proof fn lemma_inbound_outcome_wf(request_id: u64, run: InboundWorkerRun)
    ensures
        wf_worker_result(
            WorkerResult {
                worker: Worker { request_id, dir: Direction::Inbound },
                outcome: inbound_outcome_spec(request_id, run),
            },
        ),
{
}

/// An outbound worker completes only with a terminal event of its own
/// request id, and fails — losing the exchange without an event — exactly
/// on an I/O error of the write, the close or the read.
pub proof fn lemma_outbound_outcome_wf(request_id: u64, run: OutboundWorkerRun)
    ensures
        wf_worker_result(
            WorkerResult {
                worker: Worker { request_id, dir: Direction::Outbound },
                outcome: outbound_outcome_spec(request_id, run),
            },
        ),
        outbound_outcome_spec(request_id, run) == WorkerOutcome::Failed <==> (run matches
            OutboundWorkerRun::WriteFailed || run matches OutboundWorkerRun::CloseFailed || run
            matches OutboundWorkerRun::ReadFailed),
{
}

} // verus!
