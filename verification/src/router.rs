//! The router: the queue of ready workers, and what to do with each envelope
//! that arrives on the broker's two sockets.
//!
//! The backend is read always, the frontend only while a worker is ready:
//! that is what holds clients back while every worker is busy.

use crate::helpers::same_text;
use crate::protocol::client_request;
use crate::protocol::dispatch;
use crate::protocol::dispatch_envelope;
use crate::protocol::read_client_request;
use crate::protocol::response;
use crate::protocol::response_envelope;
use crate::protocol::MSG_WORKER_IS_GONE;
use crate::protocol::MSG_WORKER_IS_READY;
use std::collections::VecDeque;
use vstd::prelude::*;

verus! {

/// The queue after `worker` has made itself heard: it joins at the front,
/// unless it is waiting in the queue already.
pub open spec fn made_ready(queue: Seq<Seq<char>>, worker: Seq<char>) -> Seq<Seq<char>> {
    if queue.contains(worker) {
        queue
    } else {
        seq![worker] + queue
    }
}

/// The workers that are ready for a request, by identity. Workers join at
/// the front and are taken from the back, so the one that has waited longest
/// is served first.
#[derive(Debug)]
pub struct ReadyQueue {
    workers: VecDeque<String>,
}

impl View for ReadyQueue {
    type V = Seq<Seq<char>>;

    closed spec fn view(&self) -> Seq<Seq<char>> {
        self.workers.deep_view()
    }
}

impl ReadyQueue {
    /// No worker waits twice.
    pub open spec fn wf(&self) -> bool {
        self@.no_duplicates()
    }

    /// A queue in which no worker waits.
    pub fn new() -> (queue: ReadyQueue)
        ensures
            queue@ == Seq::<Seq<char>>::empty(),
            queue.wf(),
    {
        let queue = ReadyQueue { workers: VecDeque::new() };
        assert(queue@ =~= Seq::<Seq<char>>::empty());
        queue
    }

    /// How many workers wait.
    pub fn len(&self) -> (n: usize)
        ensures
            n == self@.len(),
    {
        self.workers.len()
    }

    /// Whether no worker waits.
    pub fn is_empty(&self) -> (empty: bool)
        ensures
            empty == (self@.len() == 0),
    {
        self.workers.len() == 0
    }

    /// Whether `worker` waits in the queue.
    pub fn contains(&self, worker: &str) -> (found: bool)
        ensures
            found == self@.contains(worker@),
    {
        let mut i: usize = 0;
        while i < self.workers.len()
            invariant
                i <= self.workers.len(),
                forall|j: int| 0 <= j < i ==> self@[j] != worker@,
            decreases self.workers.len() - i,
        {
            if same_text(self.workers[i].as_str(), worker) {
                assert(self@[i as int] == worker@);
                return true;
            }
            i += 1;
        }
        false
    }

    /// The identities in the queue, front first.
    pub fn workers(&self) -> (list: Vec<String>)
        ensures
            list.deep_view() == self@,
    {
        let mut list: Vec<String> = Vec::new();
        let mut i: usize = 0;
        while i < self.workers.len()
            invariant
                i <= self.workers.len(),
                list.deep_view() =~= self@.take(i as int),
            decreases self.workers.len() - i,
        {
            let ghost before = list.deep_view();
            let worker = self.workers[i].clone();
            list.push(worker);
            assert(list.deep_view() =~= before.push(worker@));
            assert(self@[i as int] == worker@);
            i += 1;
        }
        assert(list.deep_view() =~= self@);
        list
    }

    /// Puts a worker that has made itself heard into the queue.
    pub fn push(&mut self, worker: String)
        ensures
            final(self)@ == made_ready(old(self)@, worker@),
            old(self).wf() ==> final(self).wf(),
    {
        if !self.contains(worker.as_str()) {
            self.workers.push_front(worker);
            assert(self@ =~= seq![worker@] + old(self)@);
        }
    }

    /// Takes the worker that has waited longest.
    pub fn pop(&mut self) -> (worker: Option<String>)
        ensures
            worker is Some <==> old(self)@.len() > 0,
            worker matches Some(w) ==> w@ == old(self)@.last() && final(self)@ == old(
                self,
            )@.drop_last(),
            worker is None ==> final(self)@ == old(self)@,
            old(self).wf() ==> final(self).wf(),
    {
        let worker = self.workers.pop_back();
        if worker.is_some() {
            assert(self@ =~= old(self)@.drop_last());
        }
        worker
    }

    /// How many sockets to poll: only the backend while no worker is ready,
    /// so that no client is admitted; the backend and the frontend otherwise.
    pub fn poll_targets(&self) -> (sockets: usize)
        ensures
            sockets == (if self@.len() == 0 {
                1usize
            } else {
                2usize
            }),
    {
        if self.workers.len() == 0 {
            1
        } else {
            2
        }
    }
}

/// What the router does with an envelope from a worker.
#[derive(Debug)]
pub enum BackendAction {
    /// The worker announced that it is ready: nothing to send.
    Ready(String),
    /// The worker announced that it leaves: nothing to send.
    Gone(String),
    /// The worker replied to a client: send the envelope on the frontend.
    Forward(Vec<String>),
    /// The envelope is malformed: drop it.
    Drop,
}

/// A `BackendAction` as mathematical values.
pub enum BackendActionView {
    Ready(Seq<char>),
    Gone(Seq<char>),
    Forward(Seq<Seq<char>>),
    Drop,
}

impl View for BackendAction {
    type V = BackendActionView;

    open spec fn view(&self) -> BackendActionView {
        match self {
            BackendAction::Ready(worker) => BackendActionView::Ready(worker@),
            BackendAction::Gone(worker) => BackendActionView::Gone(worker@),
            BackendAction::Forward(envelope) => BackendActionView::Forward(envelope.deep_view()),
            BackendAction::Drop => BackendActionView::Drop,
        }
    }
}

/// What the router does with an envelope from a client.
#[derive(Debug)]
pub enum FrontendAction {
    /// Send the envelope on the backend.
    Dispatch(Vec<String>),
    /// The envelope is malformed: drop it.
    Drop,
}

/// A `FrontendAction` as mathematical values.
pub enum FrontendActionView {
    Dispatch(Seq<Seq<char>>),
    Drop,
}

impl View for FrontendAction {
    type V = FrontendActionView;

    open spec fn view(&self) -> FrontendActionView {
        match self {
            FrontendAction::Dispatch(envelope) => FrontendActionView::Dispatch(
                envelope.deep_view(),
            ),
            FrontendAction::Drop => FrontendActionView::Drop,
        }
    }
}

/// Whether the frames are an announcement of `word`: the worker's identity,
/// an empty frame and the word.
pub open spec fn announces(frames: Seq<Seq<char>>, word: Seq<char>) -> bool {
    frames.len() == 3 && frames[1].len() == 0 && frames[2] == word
}

/// Whether the frames are a worker's reply to a client: the worker's
/// identity, the client's identity, the status code and the content, set
/// apart by empty frames.
pub open spec fn replies(frames: Seq<Seq<char>>) -> bool {
    frames.len() == 7 && frames[1].len() == 0 && frames[3].len() == 0 && frames[5].len() == 0
}

/// What the router does with the frames of an envelope from a worker.
pub open spec fn backend_action(frames: Seq<Seq<char>>) -> BackendActionView {
    if announces(frames, MSG_WORKER_IS_READY@) {
        BackendActionView::Ready(frames[0])
    } else if announces(frames, MSG_WORKER_IS_GONE@) {
        BackendActionView::Gone(frames[0])
    } else if replies(frames) {
        BackendActionView::Forward(response_envelope(frames[2], frames[0], frames[4], frames[6]))
    } else {
        BackendActionView::Drop
    }
}

/// The queue after an envelope from a worker: whatever else the envelope
/// holds, the worker named in its first frame has made itself heard.
pub open spec fn backend_queue(queue: Seq<Seq<char>>, frames: Seq<Seq<char>>) -> Seq<Seq<char>> {
    if frames.len() >= 1 {
        made_ready(queue, frames[0])
    } else {
        queue
    }
}

/// What the router does with the frames of an envelope from a client, the
/// queue being `queue`: a request goes to the worker at the back.
pub open spec fn frontend_action(queue: Seq<Seq<char>>, frames: Seq<Seq<char>>) -> FrontendActionView {
    match client_request(frames) {
        Some((client, body)) => FrontendActionView::Dispatch(
            dispatch_envelope(queue.last(), client, body),
        ),
        None => FrontendActionView::Drop,
    }
}

/// The queue after an envelope from a client: a request takes the worker at
/// the back out of it.
pub open spec fn frontend_queue(queue: Seq<Seq<char>>, frames: Seq<Seq<char>>) -> Seq<Seq<char>> {
    if client_request(frames) is Some && queue.len() > 0 {
        queue.drop_last()
    } else {
        queue
    }
}

fn is_empty_frame(frames: &Vec<String>, at: usize) -> (empty: bool)
    requires
        at < frames.len(),
    ensures
        empty == (frames.deep_view()[at as int].len() == 0),
{
    frames[at].as_str().is_empty()
}

impl ReadyQueue {
    /// Handles an envelope that a worker sent on the backend.
    pub fn handle_backend_talking(&mut self, frames: &Vec<String>) -> (action: BackendAction)
        ensures
            final(self)@ == backend_queue(old(self)@, frames.deep_view()),
            action@ == backend_action(frames.deep_view()),
            old(self).wf() ==> final(self).wf(),
    {
        if frames.len() == 0 {
            return BackendAction::Drop;
        }
        self.push(frames[0].clone());
        if frames.len() == 3 && is_empty_frame(frames, 1) {
            if same_text(frames[2].as_str(), MSG_WORKER_IS_READY) {
                return BackendAction::Ready(frames[0].clone());
            }
            if same_text(frames[2].as_str(), MSG_WORKER_IS_GONE) {
                return BackendAction::Gone(frames[0].clone());
            }
        }
        if frames.len() == 7 && is_empty_frame(frames, 1) && is_empty_frame(frames, 3)
            && is_empty_frame(frames, 5) {
            return BackendAction::Forward(
                response(
                    frames[2].as_str(),
                    frames[0].as_str(),
                    frames[4].as_str(),
                    frames[6].as_str(),
                ),
            );
        }
        BackendAction::Drop
    }

    /// Handles an envelope that a client sent on the frontend. The router
    /// reads the frontend only while a worker is ready.
    pub fn handle_frontend_talking(&mut self, frames: &Vec<String>) -> (action: FrontendAction)
        requires
            old(self)@.len() > 0,
        ensures
            final(self)@ == frontend_queue(old(self)@, frames.deep_view()),
            action@ == frontend_action(old(self)@, frames.deep_view()),
            old(self).wf() ==> final(self).wf(),
    {
        match read_client_request(frames) {
            Some((client, request)) => match self.pop() {
                Some(worker) => FrontendAction::Dispatch(
                    dispatch(worker.as_str(), client.as_str(), request.as_str()),
                ),
                None => FrontendAction::Drop,
            },
            None => FrontendAction::Drop,
        }
    }
}

/// A worker that joins the queue waits its turn: the worker that is served
/// next is the same as before it joined, and once that one is taken the
/// queue is as if the newcomer had joined afterwards.
pub proof fn lemma_newcomer_waits_its_turn(queue: Seq<Seq<char>>, worker: Seq<char>)
    requires
        queue.len() > 0,
        queue.last() != worker,
    ensures
        made_ready(queue, worker).last() == queue.last(),
        made_ready(queue, worker).drop_last() == made_ready(queue.drop_last(), worker),
{
    let rest = queue.drop_last();
    if queue.contains(worker) {
        let i = choose|i: int| 0 <= i < queue.len() && queue[i] == worker;
        assert(rest[i] == worker);
        assert(rest.contains(worker));
    } else {
        if rest.contains(worker) {
            let i = choose|i: int| 0 <= i < rest.len() && rest[i] == worker;
            assert(queue[i] == worker);
        }
        assert(made_ready(queue, worker).drop_last() =~= seq![worker] + rest);
    }
}

} // verus!
