//! The worker: one renderer process that serves requests from the broker.
//!
//! The worker's rules are a function from its state and what it observed to
//! its next state and what it has to do. The program around the library owns
//! the socket and the renderer and performs what the rules decide.

use crate::helpers::decimal;
use crate::helpers::decimal_text;
use crate::helpers::same_text;
use crate::json::json_parse;
use crate::json::JsonData;
use crate::protocol::client_reply_with_error;
use crate::protocol::client_reply_with_success;
use crate::protocol::client_request;
use crate::protocol::read_client_request;
use crate::protocol::reply_envelope;
use crate::protocol::MSG_WORKER_IS_GONE;
use crate::protocol::MSG_WORKER_IS_READY;
use crate::protocol::MSG_WORKER_STOP;
use crate::protocol::REP_200_SUCCESS;
use crate::protocol::REP_400_BAD_REQUEST;
use crate::protocol::REP_502_BAD_GATEWAY;
use crate::request::plan_request;
use crate::request::request_plan;
use crate::request::url_parse;
use crate::request::RenderJob;
use crate::request::RenderJobView;
use crate::request::RequestPlan;
use crate::request::RequestPlanView;
use vstd::prelude::*;
use vstd::string::*;

verus! {

/// The identity under which worker `id` connects to the broker: `W` and the
/// decimal numeral of the process id.
pub open spec fn worker_identity(id: u32) -> Seq<char> {
    "W"@ + decimal(id as nat)
}

/// Builds the identity under which worker `id` connects to the broker.
pub fn identity_of(id: u32) -> (identity: String)
    ensures
        identity@ == worker_identity(id),
{
    let mut identity = String::from_str("W");
    identity.append(decimal_text(id as u64).as_str());
    identity
}

/// Where a worker stands in its life.
#[derive(Debug, Clone, Copy, PartialEq, Eq, Structural)]
pub enum WorkerPhase {
    /// Nothing has been done yet.
    Created,
    /// The socket is connected and the renderer is being initialised.
    Starting,
    /// The worker has announced itself and waits for requests.
    Serving,
    /// The renderer is at work on a request.
    Rendering,
    /// The worker has left, or was told to exit.
    Stopped,
}

/// What a worker observes.
#[derive(Debug)]
pub enum WorkerEvent {
    /// The process has started.
    Started,
    /// The renderer was initialised.
    RendererReady,
    /// The renderer could not be initialised.
    RendererFailed,
    /// The last action is done and nothing was received.
    Idle,
    /// A message from the broker, frame by frame, and the identifier drawn
    /// for it.
    Message { frames: Vec<String>, message_id: u64 },
    /// The renderer has written the file.
    Rendered,
    /// The renderer raised a warning.
    Warned(String),
}

/// A `WorkerEvent` as mathematical values.
pub enum WorkerEventView {
    Started,
    RendererReady,
    RendererFailed,
    Idle,
    Message { frames: Seq<Seq<char>>, message_id: u64 },
    Rendered,
    Warned(Seq<char>),
}

impl View for WorkerEvent {
    type V = WorkerEventView;

    open spec fn view(&self) -> WorkerEventView {
        match self {
            WorkerEvent::Started => WorkerEventView::Started,
            WorkerEvent::RendererReady => WorkerEventView::RendererReady,
            WorkerEvent::RendererFailed => WorkerEventView::RendererFailed,
            WorkerEvent::Idle => WorkerEventView::Idle,
            WorkerEvent::Message { frames, message_id } => WorkerEventView::Message {
                frames: frames.deep_view(),
                message_id: *message_id,
            },
            WorkerEvent::Rendered => WorkerEventView::Rendered,
            WorkerEvent::Warned(warning) => WorkerEventView::Warned(warning@),
        }
    }
}

/// What a worker has to do next.
#[derive(Debug)]
pub enum WorkerAction {
    /// Connect the service socket to the broker's backend under `identity`,
    /// with send and receive timeouts of `socket_timeout_ms`; start the
    /// watchdog with a deadline of `watchdog_secs`; initialise the renderer.
    Start { identity: String, socket_timeout_ms: u64, watchdog_secs: u64 },
    /// Send the one frame `word` and report that the worker is ready.
    Announce { word: String },
    /// Tick the heartbeat and wait for a message.
    Receive,
    /// Send the envelope and go on.
    Reply(Vec<String>),
    /// Render, and write the file.
    Render(RenderJob),
    /// Send the envelope, give it a moment to leave, and abort the process.
    ReplyAndAbort(Vec<String>),
    /// Send `farewell` where there is one, drop the renderer, disconnect and
    /// return.
    Leave { farewell: Option<String> },
    /// Exit without announcing: there is no renderer.
    Exit,
    /// Abort: the broker sent what is no dispatch.
    Abort,
    /// The event has no meaning in this phase.
    Nothing,
}

/// A `WorkerAction` as mathematical values.
pub enum WorkerActionView {
    Start { identity: Seq<char>, socket_timeout_ms: u64, watchdog_secs: u64 },
    Announce { word: Seq<char> },
    Receive,
    Reply(Seq<Seq<char>>),
    Render(RenderJobView),
    ReplyAndAbort(Seq<Seq<char>>),
    Leave { farewell: Option<Seq<char>> },
    Exit,
    Abort,
    Nothing,
}

impl View for WorkerAction {
    type V = WorkerActionView;

    open spec fn view(&self) -> WorkerActionView {
        match self {
            WorkerAction::Start { identity, socket_timeout_ms, watchdog_secs } => {
                WorkerActionView::Start {
                    identity: identity@,
                    socket_timeout_ms: *socket_timeout_ms,
                    watchdog_secs: *watchdog_secs,
                }
            },
            WorkerAction::Announce { word } => WorkerActionView::Announce { word: word@ },
            WorkerAction::Receive => WorkerActionView::Receive,
            WorkerAction::Reply(envelope) => WorkerActionView::Reply(envelope.deep_view()),
            WorkerAction::Render(job) => WorkerActionView::Render(job@),
            WorkerAction::ReplyAndAbort(envelope) => WorkerActionView::ReplyAndAbort(
                envelope.deep_view(),
            ),
            WorkerAction::Leave { farewell } => WorkerActionView::Leave {
                farewell: match farewell {
                    Some(word) => Some(word@),
                    None => None,
                },
            },
            WorkerAction::Exit => WorkerActionView::Exit,
            WorkerAction::Abort => WorkerActionView::Abort,
            WorkerAction::Nothing => WorkerActionView::Nothing,
        }
    }
}

/// How long a socket operation may take, in milliseconds.
pub const SOCKET_TIMEOUT_MS: u64 = 1000;

/// One renderer process, as the rules see it.
#[derive(Debug)]
pub struct Worker {
    id: u32,
    output_dir: String,
    timeout: u64,
    phase: WorkerPhase,
    client: String,
}

/// A `Worker` as mathematical values.
pub struct WorkerView {
    pub id: u32,
    pub output_dir: Seq<char>,
    pub timeout: u64,
    pub phase: WorkerPhase,
    /// The client whose request is being rendered; empty while none is.
    pub client: Seq<char>,
}

impl View for Worker {
    type V = WorkerView;

    closed spec fn view(&self) -> WorkerView {
        WorkerView {
            id: self.id,
            output_dir: self.output_dir@,
            timeout: self.timeout,
            phase: self.phase,
            client: self.client@,
        }
    }
}

/// The worker `w` in another phase, serving `client`.
pub open spec fn moved(w: WorkerView, phase: WorkerPhase, client: Seq<char>) -> WorkerView {
    WorkerView { id: w.id, output_dir: w.output_dir, timeout: w.timeout, phase, client }
}

/// What a serving worker does with a message: the word `STOP` in the first
/// frame makes it say `GONE` and leave; a dispatch is planned, and either
/// answered at once or rendered; anything else makes it abort.
pub open spec fn served(w: WorkerView, frames: Seq<Seq<char>>, uid: u64) -> (
    WorkerView,
    WorkerActionView,
) {
    if frames.len() >= 1 && frames[0] == MSG_WORKER_STOP@ {
        (
            moved(w, WorkerPhase::Stopped, Seq::empty()),
            WorkerActionView::Leave { farewell: Some(MSG_WORKER_IS_GONE@) },
        )
    } else {
        match client_request(frames) {
            None => (moved(w, WorkerPhase::Stopped, Seq::empty()), WorkerActionView::Abort),
            Some((client, body)) => match request_plan(w.id, client, body, uid) {
                RequestPlanView::Reply(envelope) => (w, WorkerActionView::Reply(envelope)),
                RequestPlanView::Render(job) => (
                    moved(w, WorkerPhase::Rendering, client),
                    WorkerActionView::Render(job),
                ),
            },
        }
    }
}

/// The worker's rules: its next state and what it has to do, from its state,
/// the stop flag as it reads at this moment, and what it observed.
pub open spec fn worker_next(w: WorkerView, stop: bool, event: WorkerEventView) -> (
    WorkerView,
    WorkerActionView,
) {
    match (w.phase, event) {
        (WorkerPhase::Created, WorkerEventView::Started) => (
            moved(w, WorkerPhase::Starting, Seq::empty()),
            WorkerActionView::Start {
                identity: worker_identity(w.id),
                socket_timeout_ms: SOCKET_TIMEOUT_MS,
                watchdog_secs: w.timeout,
            },
        ),
        (WorkerPhase::Starting, WorkerEventView::RendererReady) => (
            moved(w, WorkerPhase::Serving, Seq::empty()),
            WorkerActionView::Announce { word: MSG_WORKER_IS_READY@ },
        ),
        (WorkerPhase::Starting, WorkerEventView::RendererFailed) => (
            moved(w, WorkerPhase::Stopped, Seq::empty()),
            WorkerActionView::Exit,
        ),
        (WorkerPhase::Serving, WorkerEventView::Idle) => if stop {
            (moved(w, WorkerPhase::Stopped, Seq::empty()), WorkerActionView::Leave { farewell: None })
        } else {
            (w, WorkerActionView::Receive)
        },
        (WorkerPhase::Serving, WorkerEventView::Message { frames, message_id }) => served(
            w,
            frames,
            message_id,
        ),
        (WorkerPhase::Rendering, WorkerEventView::Rendered) => (
            moved(w, WorkerPhase::Serving, Seq::empty()),
            WorkerActionView::Reply(
                reply_envelope(w.client, REP_200_SUCCESS@, "PDF saved at output directory"@),
            ),
        ),
        (WorkerPhase::Rendering, WorkerEventView::Warned(warning)) => (
            moved(w, WorkerPhase::Stopped, Seq::empty()),
            WorkerActionView::ReplyAndAbort(reply_envelope(w.client, REP_502_BAD_GATEWAY@, warning)),
        ),
        _ => (w, WorkerActionView::Nothing),
    }
}

impl Worker {
    /// A worker that has done nothing yet. `timeout` is the deadline of its
    /// watchdog in seconds.
    pub fn new(id: u32, output_dir: &str, timeout: u64) -> (worker: Worker)
        ensures
            worker@ == (WorkerView {
                id,
                output_dir: output_dir@,
                timeout,
                phase: WorkerPhase::Created,
                client: Seq::empty(),
            }),
    {
        Worker {
            id,
            output_dir: String::from_str(output_dir),
            timeout,
            phase: WorkerPhase::Created,
            client: String::new(),
        }
    }

    /// The worker's process id.
    pub fn id(&self) -> (id: u32)
        ensures
            id == self@.id,
    {
        self.id
    }

    /// The directory in which the worker's files are written.
    pub fn output_dir(&self) -> (dir: &str)
        ensures
            dir@ == self@.output_dir,
    {
        self.output_dir.as_str()
    }

    /// The deadline of the worker's watchdog, in seconds.
    pub fn timeout(&self) -> (secs: u64)
        ensures
            secs == self@.timeout,
    {
        self.timeout
    }

    /// Where the worker stands in its life.
    pub fn phase(&self) -> (phase: WorkerPhase)
        ensures
            phase == self@.phase,
    {
        self.phase
    }

    /// Decides what to do with the request `request` of `client_id`, for
    /// which the identifier `message_id` was drawn.
    pub fn handle_client_request(&self, client_id: &str, request: &str, message_id: u64) -> (plan:
        RequestPlan)
        ensures
            plan@ == request_plan(self@.id, client_id@, request@, message_id),
    {
        let document = json_parse(request);
        let url = match &document {
            Some(payload) => match payload.member("url") {
                Some(value) => match &value.data {
                    JsonData::Text(text) => url_parse(text.as_str()),
                    _ => None,
                },
                None => None,
            },
            None => None,
        };
        plan_request(self.id, client_id, &document, &url, message_id)
    }

    fn serve(&mut self, frames: Vec<String>, message_id: u64) -> (action: WorkerAction)
        requires
            old(self)@.phase == WorkerPhase::Serving,
        ensures
            (final(self)@, action@) == served(old(self)@, frames.deep_view(), message_id),
    {
        if frames.len() >= 1 && same_text(frames[0].as_str(), MSG_WORKER_STOP) {
            self.phase = WorkerPhase::Stopped;
            self.client = String::new();
            return WorkerAction::Leave { farewell: Some(String::from_str(MSG_WORKER_IS_GONE)) };
        }
        match read_client_request(&frames) {
            None => {
                self.phase = WorkerPhase::Stopped;
                self.client = String::new();
                WorkerAction::Abort
            },
            Some((client, body)) => match self.handle_client_request(
                client.as_str(),
                body.as_str(),
                message_id,
            ) {
                RequestPlan::Reply(envelope) => WorkerAction::Reply(envelope),
                RequestPlan::Render(job) => {
                    self.phase = WorkerPhase::Rendering;
                    self.client = client;
                    WorkerAction::Render(job)
                },
            },
        }
    }

    /// Takes one step of the worker's rules.
    pub fn step(&mut self, stop: bool, event: WorkerEvent) -> (action: WorkerAction)
        ensures
            (final(self)@, action@) == worker_next(old(self)@, stop, event@),
    {
        match (self.phase, event) {
            (WorkerPhase::Created, WorkerEvent::Started) => {
                self.phase = WorkerPhase::Starting;
                self.client = String::new();
                WorkerAction::Start {
                    identity: identity_of(self.id),
                    socket_timeout_ms: SOCKET_TIMEOUT_MS,
                    watchdog_secs: self.timeout,
                }
            },
            (WorkerPhase::Starting, WorkerEvent::RendererReady) => {
                self.phase = WorkerPhase::Serving;
                self.client = String::new();
                WorkerAction::Announce { word: String::from_str(MSG_WORKER_IS_READY) }
            },
            (WorkerPhase::Starting, WorkerEvent::RendererFailed) => {
                self.phase = WorkerPhase::Stopped;
                self.client = String::new();
                WorkerAction::Exit
            },
            (WorkerPhase::Serving, WorkerEvent::Idle) => {
                if stop {
                    self.phase = WorkerPhase::Stopped;
                    self.client = String::new();
                    WorkerAction::Leave { farewell: None }
                } else {
                    WorkerAction::Receive
                }
            },
            (WorkerPhase::Serving, WorkerEvent::Message { frames, message_id }) => self.serve(
                frames,
                message_id,
            ),
            (WorkerPhase::Rendering, WorkerEvent::Rendered) => {
                let envelope = client_reply_with_success(
                    self.client.as_str(),
                    "PDF saved at output directory",
                );
                self.phase = WorkerPhase::Serving;
                self.client = String::new();
                WorkerAction::Reply(envelope)
            },
            (WorkerPhase::Rendering, WorkerEvent::Warned(warning)) => {
                let envelope = client_reply_with_error(
                    self.client.as_str(),
                    REP_502_BAD_GATEWAY,
                    warning.as_str(),
                );
                self.phase = WorkerPhase::Stopped;
                self.client = String::new();
                WorkerAction::ReplyAndAbort(envelope)
            },
            _ => WorkerAction::Nothing,
        }
    }
}

/// What a worker meets in one step: the stop flag as it reads at that
/// moment, and what the worker observed.
pub struct WorkerInput {
    pub stop: bool,
    pub event: WorkerEventView,
}

/// How often a worker is told to start, and with that to initialise its
/// renderer, in a run of steps.
pub open spec fn renderer_starts(w: WorkerView, inputs: Seq<WorkerInput>) -> nat
    decreases inputs.len(),
{
    if inputs.len() == 0 {
        0
    } else {
        let (next, action) = worker_next(w, inputs[0].stop, inputs[0].event);
        let starts: nat = if action is Start {
            1
        } else {
            0
        };
        starts + renderer_starts(next, inputs.drop_first())
    }
}

/// In every run of a worker the renderer is initialised at most once, and
/// never by a worker that has left the phase in which it was created.
pub proof fn lemma_renderer_initialised_at_most_once(w: WorkerView, inputs: Seq<WorkerInput>)
    ensures
        renderer_starts(w, inputs) <= 1,
        w.phase != WorkerPhase::Created ==> renderer_starts(w, inputs) == 0,
    decreases inputs.len(),
{
    if inputs.len() > 0 {
        let (next, action) = worker_next(w, inputs[0].stop, inputs[0].event);
        assert(action is Start ==> w.phase == WorkerPhase::Created && next.phase
            == WorkerPhase::Starting);
        assert(w.phase != WorkerPhase::Created ==> next.phase != WorkerPhase::Created);
        lemma_renderer_initialised_at_most_once(next, inputs.drop_first());
    }
}

/// A request that a worker has taken to its renderer is never turned down:
/// the only replies to it are a success, once it is rendered, and a bad
/// gateway, once the renderer has raised a warning. Both go to the client
/// whose request it is.
pub proof fn lemma_rendering_ends_in_success_or_bad_gateway(
    w: WorkerView,
    stop: bool,
    event: WorkerEventView,
)
    requires
        w.phase == WorkerPhase::Rendering,
    ensures
        match worker_next(w, stop, event).1 {
            WorkerActionView::Reply(envelope) => event is Rendered && envelope == reply_envelope(
                w.client,
                REP_200_SUCCESS@,
                "PDF saved at output directory"@,
            ),
            WorkerActionView::ReplyAndAbort(envelope) => event matches WorkerEventView::Warned(
                warning,
            ) && envelope == reply_envelope(w.client, REP_502_BAD_GATEWAY@, warning),
            WorkerActionView::Nothing => !(event is Rendered) && !(event is Warned),
            _ => false,
        },
{
}

/// A worker reports success only for a request that its renderer has
/// reported as rendered: a reply with the status of success answers the
/// event `Rendered`, in the phase `Rendering`.
pub proof fn lemma_success_is_reported_only_after_rendering(
    w: WorkerView,
    stop: bool,
    event: WorkerEventView,
)
    ensures
        worker_next(w, stop, event).1 matches WorkerActionView::Reply(envelope) && envelope.len()
            == 5 && envelope[2] == REP_200_SUCCESS@ ==> w.phase == WorkerPhase::Rendering
            && event is Rendered,
{
    reveal_strlit("200");
    reveal_strlit("400");
    if w.phase == WorkerPhase::Serving {
        if let WorkerEventView::Message { frames, message_id } = event {
            if let Some((client, body)) = client_request(frames) {
                let plan = request_plan(w.id, client, body, message_id);
                if let RequestPlanView::Reply(envelope) = plan {
                    assert(envelope[2] == REP_400_BAD_REQUEST@);
                    assert(REP_400_BAD_REQUEST@[0] == '4');
                    assert(REP_200_SUCCESS@[0] == '2');
                }
            }
        }
    }
}

} // verus!
