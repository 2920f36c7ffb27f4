//! The broker as the supervisor of its workers: which processes it has
//! started, which of them a scan of the process table finds gone, and how a
//! worker process is started.

use crate::helpers::decimal;
use crate::helpers::decimal_text;
use crate::helpers::same_text;
use vstd::prelude::*;
use vstd::string::*;

verus! {

/// One entry of the operating system's process table.
#[derive(Debug)]
pub struct ProcessInfo {
    pub pid: u32,
    /// The process that started this one, where the system knows it.
    pub parent: Option<u32>,
    /// The name of the program that the process runs.
    pub name: String,
}

/// Whether a process is a worker of broker `id`: the broker is its parent
/// and it runs the worker program.
pub open spec fn is_worker_of(id: u32, worker_name: Seq<char>, process: ProcessInfo) -> bool {
    process.parent == Some(id) && process.name@ == worker_name
}

/// The process ids of the workers of broker `id` in a process table, in the
/// order of the table.
pub open spec fn worker_children(
    id: u32,
    worker_name: Seq<char>,
    processes: Seq<ProcessInfo>,
) -> Seq<u32>
    decreases processes.len(),
{
    if processes.len() == 0 {
        Seq::empty()
    } else {
        let rest = worker_children(id, worker_name, processes.drop_last());
        if is_worker_of(id, worker_name, processes.last()) {
            rest.push(processes.last().pid)
        } else {
            rest
        }
    }
}

/// The process ids of the children of broker `id` in a process table,
/// whatever program they run, in the order of the table.
pub open spec fn children(id: u32, processes: Seq<ProcessInfo>) -> Seq<u32>
    decreases processes.len(),
{
    if processes.len() == 0 {
        Seq::empty()
    } else {
        let rest = children(id, processes.drop_last());
        if processes.last().parent == Some(id) {
            rest.push(processes.last().pid)
        } else {
            rest
        }
    }
}

/// What one cycle of the liveness scan found.
#[derive(Debug)]
pub struct Scan {
    /// The registered workers that are gone.
    pub dead: Vec<u32>,
    /// How many workers to start in their place.
    pub replacements: usize,
}

/// Picks the workers of broker `id` out of a process table.
pub fn get_current_running_workers(id: u32, worker_name: &str, processes: &Vec<ProcessInfo>) -> (pids:
    Vec<u32>)
    ensures
        pids@ == worker_children(id, worker_name@, processes@),
{
    let mut pids: Vec<u32> = Vec::new();
    let mut i: usize = 0;
    assert(processes@.take(0) =~= Seq::empty());
    while i < processes.len()
        invariant
            i <= processes.len(),
            pids@ == worker_children(id, worker_name@, processes@.take(i as int)),
        decreases processes.len() - i,
    {
        assert(processes@.take(i + 1).drop_last() =~= processes@.take(i as int));
        let process = &processes[i];
        let child = match process.parent {
            Some(parent) => parent == id,
            None => false,
        };
        if child && same_text(process.name.as_str(), worker_name) {
            pids.push(process.pid);
        }
        i += 1;
    }
    assert(processes@.take(i as int) =~= processes@);
    pids
}

/// Those of `running` that are among `observed` (`seen`), or that are not
/// (`!seen`), in their order.
pub open spec fn scanned(running: Seq<u32>, observed: Seq<u32>, seen: bool) -> Seq<u32>
    decreases running.len(),
{
    if running.len() == 0 {
        Seq::empty()
    } else {
        let rest = scanned(running.drop_last(), observed, seen);
        if observed.contains(running.last()) == seen {
            rest.push(running.last())
        } else {
            rest
        }
    }
}

/// The registered workers after `pid` was registered: it is added at the
/// end, unless it is registered already.
pub open spec fn registered(running: Seq<u32>, pid: u32) -> Seq<u32> {
    if running.contains(pid) {
        running
    } else {
        running.push(pid)
    }
}

/// The registered workers without `pid`.
pub open spec fn without(running: Seq<u32>, pid: u32) -> Seq<u32> {
    scanned(running, seq![pid], false)
}

/// A scan yields exactly those of the registered workers that were, or were
/// not, observed; it yields none twice if none was registered twice; and
/// every registered worker is either seen or missed.
pub proof fn lemma_scanned(running: Seq<u32>, observed: Seq<u32>, seen: bool)
    ensures
        forall|pid: u32|
            scanned(running, observed, seen).contains(pid) <==> running.contains(pid)
                && observed.contains(pid) == seen,
        running.no_duplicates() ==> scanned(running, observed, seen).no_duplicates(),
        scanned(running, observed, seen).len() + scanned(running, observed, !seen).len()
            == running.len(),
    decreases running.len(),
{
    if running.len() > 0 {
        let init = running.drop_last();
        let last = running.last();
        let rest = scanned(init, observed, seen);
        lemma_scanned(init, observed, seen);
        assert forall|pid: u32|
            scanned(running, observed, seen).contains(pid) <==> running.contains(pid)
                && observed.contains(pid) == seen by {
            if running.contains(pid) {
                let k = choose|k: int| 0 <= k < running.len() && running[k] == pid;
                if k < init.len() {
                    assert(init[k] == pid);
                }
            }
            if init.contains(pid) {
                let k = choose|k: int| 0 <= k < init.len() && init[k] == pid;
                assert(running[k] == pid);
            }
            if observed.contains(last) == seen {
                assert(rest.push(last)[rest.len() as int] == last);
                if rest.contains(pid) {
                    let k = choose|k: int| 0 <= k < rest.len() && rest[k] == pid;
                    assert(rest.push(last)[k] == pid);
                }
            }
        }
        if running.no_duplicates() {
            assert forall|i: int, j: int| 0 <= i < j < init.len() implies init[i] != init[j] by {
                assert(running[i] != running[j]);
            }
            if init.contains(last) {
                let k = choose|k: int| 0 <= k < init.len() && init[k] == last;
                assert(running[k] == running[running.len() - 1]);
            }
        }
    }
}

fn holds(list: &Vec<u32>, pid: u32) -> (found: bool)
    ensures
        found == list@.contains(pid),
{
    let mut i: usize = 0;
    while i < list.len()
        invariant
            i <= list.len(),
            forall|j: int| 0 <= j < i ==> list@[j] != pid,
        decreases list.len() - i,
    {
        if list[i] == pid {
            return true;
        }
        i += 1;
    }
    false
}

fn pick(running: &Vec<u32>, observed: &Vec<u32>, seen: bool) -> (picked: Vec<u32>)
    ensures
        picked@ == scanned(running@, observed@, seen),
{
    let mut picked: Vec<u32> = Vec::new();
    let mut i: usize = 0;
    assert(running@.take(0) =~= Seq::empty());
    while i < running.len()
        invariant
            i <= running.len(),
            picked@ == scanned(running@.take(i as int), observed@, seen),
        decreases running.len() - i,
    {
        assert(running@.take(i + 1).drop_last() =~= running@.take(i as int));
        if holds(observed, running[i]) == seen {
            picked.push(running[i]);
        }
        i += 1;
    }
    assert(running@.take(i as int) =~= running@);
    picked
}

/// How long workers are given to leave before they are killed, in seconds.
pub const GRACE_SECS: u64 = 5;

/// The time between two scans of the process table, in seconds.
pub const SCAN_PERIOD_SECS: u64 = 5;

/// The arguments with which a worker process is started.
pub open spec fn worker_arguments(outpath: Seq<char>, timeout: u64) -> Seq<Seq<char>> {
    seq!["start"@, "--output"@, outpath, "--timeout"@, decimal(timeout as nat)]
}

/// The broker as the supervisor of its workers: its settings and the
/// processes it has registered.
#[derive(Debug)]
pub struct Broker {
    pub id: u32,
    pub worker_instances: usize,
    pub worker_binpath: String,
    pub worker_outpath: String,
    /// The deadline handed to each worker's watchdog, in seconds.
    pub worker_timeout: u64,
    /// The process ids of the workers that were started and not yet found
    /// gone.
    pub running_workers: Vec<u32>,
}

impl Broker {
    /// The process ids of the registered workers, in the order in which they
    /// were registered.
    pub open spec fn running(&self) -> Seq<u32> {
        self.running_workers@
    }

    /// No worker is registered twice.
    pub open spec fn wf(&self) -> bool {
        self.running().no_duplicates()
    }

    /// A broker with process id `id` that has not started a worker yet.
    pub fn new(
        id: u32,
        worker_instances: usize,
        worker_binpath: &str,
        worker_outpath: &str,
        worker_timeout: u64,
    ) -> (broker: Broker)
        ensures
            broker.id == id,
            broker.worker_instances == worker_instances,
            broker.worker_binpath@ == worker_binpath@,
            broker.worker_outpath@ == worker_outpath@,
            broker.worker_timeout == worker_timeout,
            broker.running() == Seq::<u32>::empty(),
            broker.wf(),
    {
        Broker {
            id,
            worker_instances,
            worker_binpath: String::from_str(worker_binpath),
            worker_outpath: String::from_str(worker_outpath),
            worker_timeout,
            running_workers: Vec::new(),
        }
    }

    /// Whether `pid` is registered.
    pub fn is_running(&self, pid: u32) -> (found: bool)
        ensures
            found == self.running().contains(pid),
    {
        holds(&self.running_workers, pid)
    }

    /// The arguments for starting a worker process from `worker_binpath`.
    pub fn start_worker(&self) -> (arguments: Vec<String>)
        ensures
            arguments.deep_view() == worker_arguments(self.worker_outpath@, self.worker_timeout),
    {
        let mut arguments: Vec<String> = Vec::new();
        arguments.push(String::from_str("start"));
        arguments.push(String::from_str("--output"));
        arguments.push(self.worker_outpath.clone());
        arguments.push(String::from_str("--timeout"));
        arguments.push(decimal_text(self.worker_timeout));
        assert(arguments.deep_view() =~= worker_arguments(
            self.worker_outpath@,
            self.worker_timeout,
        ));
        arguments
    }

    /// Registers a worker process that was started.
    pub fn register_worker(&mut self, pid: u32)
        ensures
            final(self).running() == registered(old(self).running(), pid),
            old(self).wf() ==> final(self).wf(),
            final(self).id == old(self).id,
            final(self).worker_instances == old(self).worker_instances,
            final(self).worker_binpath == old(self).worker_binpath,
            final(self).worker_outpath == old(self).worker_outpath,
            final(self).worker_timeout == old(self).worker_timeout,
    {
        if !holds(&self.running_workers, pid) {
            self.running_workers.push(pid);
        }
    }

    /// Forgets a worker process.
    pub fn remove_worker(&mut self, pid: u32)
        ensures
            final(self).running() == without(old(self).running(), pid),
            old(self).wf() ==> final(self).wf(),
            final(self).id == old(self).id,
            final(self).worker_instances == old(self).worker_instances,
            final(self).worker_binpath == old(self).worker_binpath,
            final(self).worker_outpath == old(self).worker_outpath,
            final(self).worker_timeout == old(self).worker_timeout,
    {
        let mut gone: Vec<u32> = Vec::new();
        gone.push(pid);
        assert(gone@ =~= seq![pid]);
        proof {
            lemma_scanned(self.running(), gone@, false);
        }
        self.running_workers = pick(&self.running_workers, &gone, false);
    }

    /// One cycle of the liveness scan, `observed` being the workers found in
    /// the process table. Every registered worker that was not observed is
    /// forgotten and reported as dead. Unless the broker is stopping, as many
    /// replacements are to be started and registered.
    pub fn watch_workers(&mut self, observed: &Vec<u32>, stop: bool) -> (scan: Scan)
        ensures
            final(self).running() == scanned(old(self).running(), observed@, true),
            scan.dead@ == scanned(old(self).running(), observed@, false),
            scan.replacements == (if stop {
                0
            } else {
                scan.dead@.len()
            }),
            old(self).wf() ==> final(self).wf(),
            final(self).id == old(self).id,
            final(self).worker_instances == old(self).worker_instances,
            final(self).worker_binpath == old(self).worker_binpath,
            final(self).worker_outpath == old(self).worker_outpath,
            final(self).worker_timeout == old(self).worker_timeout,
    {
        let dead = pick(&self.running_workers, observed, false);
        proof {
            lemma_scanned(self.running(), observed@, true);
        }
        self.running_workers = pick(&self.running_workers, observed, true);
        let replacements = if stop {
            0
        } else {
            dead.len()
        };
        Scan { dead, replacements }
    }

    /// The processes to kill once the grace window of a shutdown is over:
    /// every child of this broker that is still in the process table.
    pub fn terminate_workers(&self, processes: &Vec<ProcessInfo>) -> (pids: Vec<u32>)
        ensures
            pids@ == children(self.id, processes@),
    {
        let mut pids: Vec<u32> = Vec::new();
        let mut i: usize = 0;
        assert(processes@.take(0) =~= Seq::empty());
        while i < processes.len()
            invariant
                i <= processes.len(),
                pids@ == children(self.id, processes@.take(i as int)),
            decreases processes.len() - i,
        {
            assert(processes@.take(i + 1).drop_last() =~= processes@.take(i as int));
            let process = &processes[i];
            match process.parent {
                Some(parent) => {
                    if parent == self.id {
                        pids.push(process.pid);
                    }
                },
                None => {},
            }
            i += 1;
        }
        assert(processes@.take(i as int) =~= processes@);
        pids
    }
}

} // verus!
