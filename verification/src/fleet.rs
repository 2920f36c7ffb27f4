//! Runs of a broker: how routing and supervision change its state event by
//! event, and what holds of every run.

use crate::broker::lemma_scanned;
use crate::broker::registered;
use crate::broker::scanned;
use crate::broker::without;
use crate::protocol::client_request;
use crate::protocol::dispatch_envelope;
use crate::router::backend_queue;
use crate::router::frontend_action;
use crate::router::frontend_queue;
use crate::router::FrontendActionView;
use crate::worker::worker_identity;
use vstd::prelude::*;

verus! {

/// The state of a broker between two events: the workers it has registered
/// and the workers that are ready.
pub struct Fleet {
    pub running: Seq<u32>,
    pub ready: Seq<Seq<char>>,
}

/// What changes the state of a broker.
pub enum FleetEvent {
    /// `ReadyQueue::handle_backend_talking` on these frames.
    Backend(Seq<Seq<char>>),
    /// `ReadyQueue::handle_frontend_talking` on these frames.
    Frontend(Seq<Seq<char>>),
    /// `Broker::register_worker` on this process.
    Registered(u32),
    /// `Broker::remove_worker` on this process.
    Removed(u32),
    /// `Broker::watch_workers` with these processes observed.
    Scanned(Seq<u32>),
}

/// The state of a broker after one event.
pub open spec fn fleet_next(fleet: Fleet, event: FleetEvent) -> Fleet {
    match event {
        FleetEvent::Backend(frames) => Fleet {
            running: fleet.running,
            ready: backend_queue(fleet.ready, frames),
        },
        FleetEvent::Frontend(frames) => Fleet {
            running: fleet.running,
            ready: frontend_queue(fleet.ready, frames),
        },
        FleetEvent::Registered(pid) => Fleet {
            running: registered(fleet.running, pid),
            ready: fleet.ready,
        },
        FleetEvent::Removed(pid) => Fleet { running: without(fleet.running, pid), ready: fleet.ready },
        FleetEvent::Scanned(observed) => Fleet {
            running: scanned(fleet.running, observed, true),
            ready: fleet.ready,
        },
    }
}

/// The state of a broker after a run of events.
pub open spec fn fleet_after(start: Fleet, events: Seq<FleetEvent>) -> Fleet
    decreases events.len(),
{
    if events.len() == 0 {
        start
    } else {
        fleet_next(fleet_after(start, events.drop_last()), events.last())
    }
}

/// Whether `worker` is the identity of a registered process.
pub open spec fn is_registered(running: Seq<u32>, worker: Seq<char>) -> bool {
    exists|j: int| 0 <= j < running.len() && worker == worker_identity(#[trigger] running[j])
}

/// Every ready worker is a registered process, and none is ready twice.
pub open spec fn ready_are_running(fleet: Fleet) -> bool {
    &&& fleet.ready.no_duplicates()
    &&& forall|i: int| 0 <= i < fleet.ready.len() ==> is_registered(fleet.running, #[trigger] fleet.ready[i])
}

/// The events of an orderly run: only registered workers speak on the
/// backend, and a process is only forgotten, or missed by a scan, while it is
/// not in the ready queue.
pub open spec fn orderly(fleet: Fleet, event: FleetEvent) -> bool {
    match event {
        FleetEvent::Backend(frames) => frames.len() >= 1 ==> is_registered(fleet.running, frames[0]),
        FleetEvent::Frontend(frames) => true,
        FleetEvent::Registered(pid) => true,
        FleetEvent::Removed(pid) => !fleet.ready.contains(worker_identity(pid)),
        FleetEvent::Scanned(observed) => forall|j: int|
            0 <= j < fleet.running.len() && !observed.contains(#[trigger] fleet.running[j])
                ==> !fleet.ready.contains(worker_identity(fleet.running[j])),
    }
}

/// Workers that are all registered, none of them twice in the queue, are at
/// most as many as the registered processes.
pub proof fn lemma_ready_fit_in_fleet(fleet: Fleet)
    requires
        ready_are_running(fleet),
    ensures
        fleet.ready.len() <= fleet.running.len(),
    decreases fleet.running.len(),
{
    let ready = fleet.ready;
    let running = fleet.running;
    if ready.len() > 0 {
        assert(is_registered(running, ready[0]));
        let last = running.last();
        let id = worker_identity(last);
        let fewer = running.drop_last();
        if ready.contains(id) {
            let k = choose|k: int| 0 <= k < ready.len() && ready[k] == id;
            let rest = ready.remove(k);
            assert forall|i: int| 0 <= i < rest.len() implies is_registered(
                fewer,
                #[trigger] rest[i],
            ) by {
                let from = if i < k {
                    i
                } else {
                    i + 1
                };
                assert(rest[i] == ready[from]);
                assert(is_registered(running, ready[from]));
                let j = choose|j: int|
                    0 <= j < running.len() && ready[from] == worker_identity(#[trigger] running[j]);
                assert(ready[from] != ready[k]);
                assert(fewer[j] == running[j]);
            }
            assert forall|i: int, j: int| 0 <= i < j < rest.len() implies rest[i] != rest[j] by {
                let a = if i < k {
                    i
                } else {
                    i + 1
                };
                let b = if j < k {
                    j
                } else {
                    j + 1
                };
                assert(ready[a] != ready[b]);
            }
            lemma_ready_fit_in_fleet(Fleet { running: fewer, ready: rest });
        } else {
            assert forall|i: int| 0 <= i < ready.len() implies is_registered(
                fewer,
                #[trigger] ready[i],
            ) by {
                assert(is_registered(running, ready[i]));
                let j = choose|j: int|
                    0 <= j < running.len() && ready[i] == worker_identity(#[trigger] running[j]);
                assert(fewer[j] == running[j]);
            }
            lemma_ready_fit_in_fleet(Fleet { running: fewer, ready });
        }
    }
}

/// An orderly event keeps every ready worker registered and none ready
/// twice.
pub proof fn lemma_orderly_event_keeps_ready_running(fleet: Fleet, event: FleetEvent)
    requires
        ready_are_running(fleet),
        orderly(fleet, event),
    ensures
        ready_are_running(fleet_next(fleet, event)),
{
    let next = fleet_next(fleet, event);
    match event {
        FleetEvent::Backend(frames) => {
            if frames.len() >= 1 && !fleet.ready.contains(frames[0]) {
                assert forall|i: int| 0 <= i < next.ready.len() implies is_registered(
                    next.running,
                    #[trigger] next.ready[i],
                ) by {
                    if i > 0 {
                        assert(next.ready[i] == fleet.ready[i - 1]);
                    }
                }
                assert forall|i: int, j: int| 0 <= i < j < next.ready.len() implies next.ready[i]
                    != next.ready[j] by {
                    assert(next.ready[j] == fleet.ready[j - 1]);
                    if i > 0 {
                        assert(next.ready[i] == fleet.ready[i - 1]);
                    }
                }
            }
        },
        FleetEvent::Frontend(frames) => {
            if client_request(frames) is Some && fleet.ready.len() > 0 {
                assert forall|i: int| 0 <= i < next.ready.len() implies is_registered(
                    next.running,
                    #[trigger] next.ready[i],
                ) by {
                    assert(next.ready[i] == fleet.ready[i]);
                }
            }
        },
        FleetEvent::Registered(pid) => {
            assert forall|i: int| 0 <= i < next.ready.len() implies is_registered(
                next.running,
                #[trigger] next.ready[i],
            ) by {
                assert(is_registered(fleet.running, fleet.ready[i]));
                let j = choose|j: int|
                    0 <= j < fleet.running.len() && fleet.ready[i] == worker_identity(
                        #[trigger] fleet.running[j],
                    );
                assert(next.running[j] == fleet.running[j]);
            }
        },
        FleetEvent::Removed(pid) => {
            lemma_scanned(fleet.running, seq![pid], false);
            assert forall|i: int| 0 <= i < next.ready.len() implies is_registered(
                next.running,
                #[trigger] next.ready[i],
            ) by {
                assert(is_registered(fleet.running, fleet.ready[i]));
                let j = choose|j: int|
                    0 <= j < fleet.running.len() && fleet.ready[i] == worker_identity(
                        #[trigger] fleet.running[j],
                    );
                let p = fleet.running[j];
                assert(fleet.running.contains(p));
                assert(p != pid);
                assert(!seq![pid].contains(p));
                assert(next.running.contains(p));
                let at = choose|at: int| 0 <= at < next.running.len() && next.running[at] == p;
                assert(fleet.ready[i] == worker_identity(next.running[at]));
            }
        },
        FleetEvent::Scanned(observed) => {
            lemma_scanned(fleet.running, observed, true);
            assert forall|i: int| 0 <= i < next.ready.len() implies is_registered(
                next.running,
                #[trigger] next.ready[i],
            ) by {
                assert(is_registered(fleet.running, fleet.ready[i]));
                let j = choose|j: int|
                    0 <= j < fleet.running.len() && fleet.ready[i] == worker_identity(
                        #[trigger] fleet.running[j],
                    );
                let p = fleet.running[j];
                assert(fleet.running.contains(p));
                assert(fleet.ready.contains(worker_identity(p)));
                assert(observed.contains(p));
                assert(next.running.contains(p));
                let at = choose|at: int| 0 <= at < next.running.len() && next.running[at] == p;
                assert(fleet.ready[i] == worker_identity(next.running[at]));
            }
        },
    }
}

/// An orderly run of a broker that starts with its ready workers registered
/// ends with its ready workers registered.
pub proof fn lemma_orderly_run_keeps_ready_running(start: Fleet, events: Seq<FleetEvent>)
    requires
        ready_are_running(start),
        forall|k: int|
            0 <= k < events.len() ==> orderly(
                fleet_after(start, events.take(k)),
                #[trigger] events[k],
            ),
    ensures
        ready_are_running(fleet_after(start, events)),
    decreases events.len(),
{
    if events.len() > 0 {
        let before = events.drop_last();
        assert forall|k: int| 0 <= k < before.len() implies orderly(
            fleet_after(start, before.take(k)),
            #[trigger] before[k],
        ) by {
            assert(before.take(k) =~= events.take(k));
            assert(before[k] == events[k]);
        }
        lemma_orderly_run_keeps_ready_running(start, before);
        assert(events.take(events.len() - 1) =~= before);
        assert(orderly(fleet_after(start, before), events[events.len() - 1]));
        lemma_orderly_event_keeps_ready_running(fleet_after(start, before), events.last());
    }
}

/// In every orderly run of a broker that starts with its ready workers
/// registered, the ready workers are at most as many as the registered
/// processes: at the start, and after each event of the run.
pub proof fn lemma_ready_never_outnumber_running(start: Fleet, events: Seq<FleetEvent>)
    requires
        ready_are_running(start),
        forall|k: int|
            0 <= k < events.len() ==> orderly(
                fleet_after(start, events.take(k)),
                #[trigger] events[k],
            ),
    ensures
        forall|n: int|
            0 <= n <= events.len() ==> (#[trigger] fleet_after(start, events.take(n))).ready.len()
                <= fleet_after(start, events.take(n)).running.len(),
{
    assert forall|n: int| 0 <= n <= events.len() implies (#[trigger] fleet_after(
        start,
        events.take(n),
    )).ready.len() <= fleet_after(start, events.take(n)).running.len() by {
        let prefix = events.take(n);
        assert forall|k: int| 0 <= k < prefix.len() implies orderly(
            fleet_after(start, prefix.take(k)),
            #[trigger] prefix[k],
        ) by {
            assert(prefix.take(k) =~= events.take(k));
            assert(prefix[k] == events[k]);
        }
        lemma_orderly_run_keeps_ready_running(start, prefix);
        lemma_ready_fit_in_fleet(fleet_after(start, prefix));
    }
}

/// Whether an event is an envelope that `worker` sent on the backend.
pub open spec fn speaks(event: FleetEvent, worker: Seq<char>) -> bool {
    event matches FleetEvent::Backend(frames) && frames.len() >= 1 && frames[0] == worker
}

/// A worker that is not ready does not become ready in a run in which it
/// sends nothing.
pub proof fn lemma_silent_worker_stays_out(start: Fleet, worker: Seq<char>, events: Seq<FleetEvent>)
    requires
        !start.ready.contains(worker),
        forall|k: int| 0 <= k < events.len() ==> !speaks(#[trigger] events[k], worker),
    ensures
        !fleet_after(start, events).ready.contains(worker),
    decreases events.len(),
{
    if events.len() > 0 {
        let before = events.drop_last();
        assert forall|k: int| 0 <= k < before.len() implies !speaks(
            #[trigger] before[k],
            worker,
        ) by {
            assert(before[k] == events[k]);
        }
        lemma_silent_worker_stays_out(start, worker, before);
        let fleet = fleet_after(start, before);
        let next = fleet_next(fleet, events.last());
        assert(!speaks(events[events.len() - 1], worker));
        if next.ready.contains(worker) {
            let i = choose|i: int| 0 <= i < next.ready.len() && next.ready[i] == worker;
            match events.last() {
                FleetEvent::Backend(frames) => {
                    if frames.len() >= 1 && !fleet.ready.contains(frames[0]) {
                        assert(i > 0);
                        assert(fleet.ready[i - 1] == worker);
                    }
                },
                FleetEvent::Frontend(frames) => {
                    assert(fleet.ready[i] == worker);
                },
                _ => {
                    assert(fleet.ready[i] == worker);
                },
            }
        }
    }
}

/// A worker to which a request was dispatched is not ready again until it
/// has sent an envelope on the backend: after the dispatch, and after any
/// run of events in which the worker sends nothing, it is not in the queue.
pub proof fn lemma_dispatched_worker_stays_out(
    start: Fleet,
    request: Seq<Seq<char>>,
    events: Seq<FleetEvent>,
)
    requires
        start.ready.no_duplicates(),
        start.ready.len() > 0,
        client_request(request) is Some,
        forall|k: int| 0 <= k < events.len() ==> !speaks(#[trigger] events[k], start.ready.last()),
    ensures
        match client_request(request) {
            Some((client, body)) => frontend_action(start.ready, request)
                == FrontendActionView::Dispatch(
                dispatch_envelope(start.ready.last(), client, body),
            ),
            None => false,
        },
        !fleet_after(fleet_next(start, FleetEvent::Frontend(request)), events).ready.contains(
            start.ready.last(),
        ),
{
    let worker = start.ready.last();
    let dispatched = fleet_next(start, FleetEvent::Frontend(request));
    if dispatched.ready.contains(worker) {
        let i = choose|i: int| 0 <= i < dispatched.ready.len() && dispatched.ready[i] == worker;
        assert(start.ready[i] == start.ready[start.ready.len() - 1]);
    }
    lemma_silent_worker_stays_out(dispatched, worker, events);
}

} // verus!
