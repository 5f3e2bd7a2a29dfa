//! The request loop of the worker: one request after the other over the
//! socket of the host, each served by a child of its own.
//!
//! The loop is a state machine. Whoever drives it performs the task that is
//! pending, reports what came of it as an event, and goes on until the task
//! is to stop.

use vstd::prelude::*;
use crate::child::Child;
use crate::cpu::{measure_children, CpuUsage};
use crate::model::{PanicReason, PrepareError, PrepareJobKind, PrepareStats, UsageError};
use crate::parent::Supervisor;

verus! {

/// What the loop needs to know of a request. The code and the parameters
/// of the executor pass by it unread.
#[derive(Clone, Copy, Debug, PartialEq, Eq)]
pub struct Request {
    /// CPU time that the job is given, in whole seconds.
    pub timeout_secs: u64,
    /// What the host asks for.
    pub kind: PrepareJobKind,
}

/// In which process a fork returned, if it did.
#[derive(Clone, Copy, Debug, PartialEq, Eq)]
pub enum ForkOutcome {
    /// No child was created.
    Failed,
    /// This process is the new child.
    Child,
    /// This process is the parent, and the child runs.
    Parent,
}

/// Why no request came out of the socket.
#[derive(Clone, Debug, PartialEq, Eq)]
pub enum ReceiveError {
    /// The socket failed, or ended before a frame was whole.
    Socket(String),
    /// A frame arrived, but its payload is no request.
    Undecodable(String),
}

/// Why the worker ends.
#[derive(Clone, Debug, PartialEq, Eq)]
pub enum StopReason {
    /// The host expects another version of the worker.
    VersionMismatch,
    /// The socket failed while a request was awaited.
    Receive(String),
    /// The socket failed while a response was sent.
    Send(String),
}

/// What the worker is to do next.
#[derive(Clone, Copy, Debug, PartialEq, Eq)]
pub enum WorkerTask {
    /// Receive one framed request from the socket and decode it.
    Receive,
    /// Create the pipe between the child and the parent.
    CreatePipe,
    /// Read the cumulative CPU usage of the children.
    Measure,
    /// Fork.
    Fork,
    /// Be the child that the fork created. Control does not come back from it.
    RunChild,
    /// Supervise the child and reach a verdict.
    Supervise,
    /// Encode the response that the worker holds, frame it and send it.
    Send,
    /// End the process.
    Stop,
}

/// What came of a task.
#[derive(Debug, PartialEq, Eq)]
pub enum WorkerEvent {
    /// A request arrived, or none came out of the socket.
    Received(Result<Request, ReceiveError>),
    /// The pipe is there, or could not be created.
    PipeCreated(Result<(), String>),
    /// The children's CPU usage was read, or could not be.
    Measured(Result<CpuUsage, UsageError>),
    /// The fork returned.
    Forked(ForkOutcome),
    /// The supervisor reached its verdict.
    Supervised(Result<PrepareStats, PrepareError>),
    /// The response went out, or the socket failed.
    Sent(Result<(), String>),
}

/// The state of the worker between two tasks.
#[derive(Debug, PartialEq, Eq)]
pub enum Worker {
    /// No request is at hand.
    Idle,
    /// A request arrived.
    Piping { request: Request },
    /// The pipe is there.
    Sampling { request: Request },
    /// The usage before the fork is known.
    Forking { request: Request, usage_before: CpuUsage },
    /// This process is the child of the fork.
    InChild { request: Request },
    /// This process is the parent of a running child.
    Supervising { request: Request, usage_before: CpuUsage },
    /// The request has its response.
    Responding { response: Result<PrepareStats, PrepareError> },
    /// The worker ends.
    Stopped { reason: StopReason },
}

/// Whether the version that the host expects and the version of the worker
/// agree. Where either side names none, nothing is checked.
pub open spec fn versions_agree(node: Option<Seq<char>>, worker: Option<Seq<char>>) -> bool {
    match (node, worker) {
        (Some(expected), Some(own)) => expected == own,
        _ => true,
    }
}

impl WorkerEvent {
    /// Whether this event reports a frame that came out of the socket.
    pub open spec fn delivers_frame(self) -> bool {
        match self {
            WorkerEvent::Received(Ok(_)) => true,
            WorkerEvent::Received(Err(ReceiveError::Undecodable(_))) => true,
            _ => false,
        }
    }

    /// Whether this event reports on the given task.
    pub open spec fn answers(self, task: WorkerTask) -> bool {
        match (task, self) {
            (WorkerTask::Receive, WorkerEvent::Received(_)) => true,
            (WorkerTask::CreatePipe, WorkerEvent::PipeCreated(_)) => true,
            (WorkerTask::Measure, WorkerEvent::Measured(_)) => true,
            (WorkerTask::Fork, WorkerEvent::Forked(_)) => true,
            (WorkerTask::Supervise, WorkerEvent::Supervised(_)) => true,
            (WorkerTask::Send, WorkerEvent::Sent(_)) => true,
            _ => false,
        }
    }
}

impl Worker {
    /// The task that is pending in this state.
    pub open spec fn pending(self) -> WorkerTask {
        match self {
            Worker::Idle => WorkerTask::Receive,
            Worker::Piping { .. } => WorkerTask::CreatePipe,
            Worker::Sampling { .. } => WorkerTask::Measure,
            Worker::Forking { .. } => WorkerTask::Fork,
            Worker::InChild { .. } => WorkerTask::RunChild,
            Worker::Supervising { .. } => WorkerTask::Supervise,
            Worker::Responding { .. } => WorkerTask::Send,
            Worker::Stopped { .. } => WorkerTask::Stop,
        }
    }

    /// The state after `event`. An event that does not answer the pending
    /// task leaves the state as it is.
    pub open spec fn next(self, event: WorkerEvent) -> Worker {
        match (self, event) {
            (Worker::Idle, WorkerEvent::Received(received)) => match received {
                Ok(request) => Worker::Piping { request },
                Err(ReceiveError::Undecodable(message)) => Worker::Responding {
                    response: Err(PrepareError::Panic(PanicReason::Request(message))),
                },
                Err(ReceiveError::Socket(message)) => Worker::Stopped {
                    reason: StopReason::Receive(message),
                },
            },
            (Worker::Piping { request }, WorkerEvent::PipeCreated(created)) => match created {
                Ok(_) => Worker::Sampling { request },
                Err(message) => Worker::Responding {
                    response: Err(PrepareError::Panic(PanicReason::Pipe(message))),
                },
            },
            (Worker::Sampling { request }, WorkerEvent::Measured(reading)) => match reading {
                Ok(usage_before) => Worker::Forking { request, usage_before },
                Err(error) => Worker::Responding {
                    response: Err(PrepareError::Panic(PanicReason::Usage(error))),
                },
            },
            (Worker::Forking { request, usage_before }, WorkerEvent::Forked(outcome)) => match outcome {
                ForkOutcome::Failed => Worker::Responding {
                    response: Err(PrepareError::Panic(PanicReason::Fork)),
                },
                ForkOutcome::Child => Worker::InChild { request },
                ForkOutcome::Parent => Worker::Supervising { request, usage_before },
            },
            (Worker::Supervising { .. }, WorkerEvent::Supervised(verdict)) => Worker::Responding {
                response: verdict,
            },
            (Worker::Responding { .. }, WorkerEvent::Sent(sent)) => match sent {
                Ok(_) => Worker::Idle,
                Err(message) => Worker::Stopped { reason: StopReason::Send(message) },
            },
            _ => self,
        }
    }

    /// The state after a series of events, the first of them first.
    pub open spec fn run(self, events: Seq<WorkerEvent>) -> Worker
        decreases events.len(),
    {
        if events.len() == 0 {
            self
        } else {
            self.run(events.drop_last()).next(events.last())
        }
    }

    /// Whether a request was taken that has no response on the wire yet.
    pub open spec fn serving(self) -> bool {
        match self {
            Worker::Idle => false,
            Worker::Stopped { .. } => false,
            _ => true,
        }
    }

    /// Begins the life of a worker with the handshake on versions: where
    /// the host expects a version other than the worker's own, the worker
    /// stops before it receives anything.
    pub fn start(node_version: Option<&str>, worker_version: Option<&str>) -> (worker: Worker)
        ensures
            worker == if versions_agree(
                match node_version {
                    Some(v) => Some(v@),
                    None => None,
                },
                match worker_version {
                    Some(v) => Some(v@),
                    None => None,
                },
            ) {
                Worker::Idle
            } else {
                Worker::Stopped { reason: StopReason::VersionMismatch }
            },
    {
        match (node_version, worker_version) {
            (Some(expected), Some(own)) => {
                if expected.to_owned() == own.to_owned() {
                    Worker::Idle
                } else {
                    Worker::Stopped { reason: StopReason::VersionMismatch }
                }
            },
            _ => Worker::Idle,
        }
    }

    /// The task to perform now.
    pub fn task(&self) -> (task: WorkerTask)
        ensures
            task == self.pending(),
    {
        match self {
            Worker::Idle => WorkerTask::Receive,
            Worker::Piping { .. } => WorkerTask::CreatePipe,
            Worker::Sampling { .. } => WorkerTask::Measure,
            Worker::Forking { .. } => WorkerTask::Fork,
            Worker::InChild { .. } => WorkerTask::RunChild,
            Worker::Supervising { .. } => WorkerTask::Supervise,
            Worker::Responding { .. } => WorkerTask::Send,
            Worker::Stopped { .. } => WorkerTask::Stop,
        }
    }

    /// The machine of the sandboxed child, while this process is to be it.
    /// `tracker` says whether a memory tracker is available.
    pub fn child(&self, tracker: bool) -> (child: Option<Child>)
        ensures
            match child {
                Some(c) => self is InChild && c == Child::initial(
                    self->InChild_request.timeout_secs,
                    tracker,
                ),
                None => !(self is InChild),
            },
    {
        match self {
            Worker::InChild { request } => Some(Child::start(request.timeout_secs, tracker)),
            _ => None,
        }
    }

    /// The machine that supervises the child, while this process is to
    /// supervise it.
    pub fn supervisor(&self) -> (supervisor: Option<Supervisor>)
        ensures
            match supervisor {
                Some(s) => self is Supervising && s == Supervisor::initial(
                    self->Supervising_usage_before,
                    self->Supervising_request.timeout_secs,
                ),
                None => !(self is Supervising),
            },
    {
        match self {
            Worker::Supervising { request, usage_before } => Some(
                Supervisor::start(*usage_before, request.timeout_secs),
            ),
            _ => None,
        }
    }

    /// The response to send, while sending it is the pending task.
    pub fn response(&self) -> (response: Option<&Result<PrepareStats, PrepareError>>)
        ensures
            match response {
                Some(r) => *self == (Worker::Responding { response: *r }),
                None => !(self is Responding),
            },
    {
        match self {
            Worker::Responding { response } => Some(response),
            _ => None,
        }
    }

    /// Takes the report on the pending task and moves on.
    pub fn step(self, event: WorkerEvent) -> (next: Worker)
        ensures
            next == self.next(event),
    {
        match self {
            Worker::Idle => match event {
                WorkerEvent::Received(Ok(request)) => Worker::Piping { request },
                WorkerEvent::Received(Err(ReceiveError::Undecodable(message))) => Worker::Responding {
                    response: Err(PrepareError::Panic(PanicReason::Request(message))),
                },
                WorkerEvent::Received(Err(ReceiveError::Socket(message))) => Worker::Stopped {
                    reason: StopReason::Receive(message),
                },
                _ => Worker::Idle,
            },
            Worker::Piping { request } => match event {
                WorkerEvent::PipeCreated(Ok(_)) => Worker::Sampling { request },
                WorkerEvent::PipeCreated(Err(message)) => Worker::Responding {
                    response: Err(PrepareError::Panic(PanicReason::Pipe(message))),
                },
                _ => Worker::Piping { request },
            },
            Worker::Sampling { request } => match event {
                WorkerEvent::Measured(Ok(usage_before)) => Worker::Forking { request, usage_before },
                WorkerEvent::Measured(Err(error)) => Worker::Responding {
                    response: Err(PrepareError::Panic(PanicReason::Usage(error))),
                },
                _ => Worker::Sampling { request },
            },
            Worker::Forking { request, usage_before } => match event {
                WorkerEvent::Forked(ForkOutcome::Failed) => Worker::Responding {
                    response: Err(PrepareError::Panic(PanicReason::Fork)),
                },
                WorkerEvent::Forked(ForkOutcome::Child) => Worker::InChild { request },
                WorkerEvent::Forked(ForkOutcome::Parent) => Worker::Supervising {
                    request,
                    usage_before,
                },
                _ => Worker::Forking { request, usage_before },
            },
            Worker::InChild { request } => Worker::InChild { request },
            Worker::Supervising { request, usage_before } => match event {
                WorkerEvent::Supervised(verdict) => Worker::Responding { response: verdict },
                _ => Worker::Supervising { request, usage_before },
            },
            Worker::Responding { response } => match event {
                WorkerEvent::Sent(Ok(_)) => Worker::Idle,
                WorkerEvent::Sent(Err(message)) => Worker::Stopped {
                    reason: StopReason::Send(message),
                },
                _ => Worker::Responding { response },
            },
            Worker::Stopped { reason } => Worker::Stopped { reason },
        }
    }
}

/// Reads the cumulative CPU usage of the children and reports it to the
/// worker. To be called before the fork.
pub fn measure() -> (event: WorkerEvent)
    ensures
        event.answers(WorkerTask::Measure),
{
    WorkerEvent::Measured(measure_children())
}

/// The number of requests that the worker took in the course of `events`,
/// starting idle: the frames that arrived while it was waiting for one,
/// whether their payload could be decoded or not.
pub open spec fn requests_taken(events: Seq<WorkerEvent>) -> nat
    decreases events.len(),
{
    if events.len() == 0 {
        0
    } else {
        let before = Worker::Idle.run(events.drop_last());
        let taken: nat = if before is Idle && events.last().delivers_frame() {
            1
        } else {
            0
        };
        requests_taken(events.drop_last()) + taken
    }
}

/// The number of responses that the worker sent in the course of `events`,
/// starting idle: the successful sends while a response was waiting.
pub open spec fn responses_sent(events: Seq<WorkerEvent>) -> nat
    decreases events.len(),
{
    if events.len() == 0 {
        0
    } else {
        let before = Worker::Idle.run(events.drop_last());
        let sent: nat = if before is Responding && events.last() matches WorkerEvent::Sent(Ok(_)) {
            1
        } else {
            0
        };
        responses_sent(events.drop_last()) + sent
    }
}

/// Requests are served one at a time and in their order. Whatever happens,
/// the worker has sent a response for every request it took but the one it
/// is serving; it takes a request only when none is being served, and while
/// it waits for one none is open. So the n-th response answers the n-th
/// request.
pub proof fn lemma_worker_serves_in_order(events: Seq<WorkerEvent>)
    ensures
        ({
            let state = Worker::Idle.run(events);
            let taken = requests_taken(events);
            let sent = responses_sent(events);
            &&& sent <= taken <= sent + 1
            &&& state is Idle ==> taken == sent
            &&& state.serving() ==> taken == sent + 1
        }),
    decreases events.len(),
{
    if events.len() > 0 {
        lemma_worker_serves_in_order(events.drop_last());
    }
}

impl Worker {
    /// Whether `events` account for this state: whatever the state holds was
    /// reported by one of them.
    ///
    /// - The request at hand is one that was received.
    /// - Past the creation of the pipe, a pipe was reported created; at the
    ///   fork and after it, the usage reading at hand was reported measured.
    /// - The worker is the child, or supervises one, only after a fork was
    ///   reported to have returned there.
    /// - The response at hand is the verdict of a supervisor, or the panic
    ///   that stands for what was reported to have failed before there was a
    ///   child.
    /// - The worker is stopped for a failure of the socket that was reported.
    pub open spec fn accounted(self, events: Seq<WorkerEvent>) -> bool {
        match self {
            Worker::Idle => true,
            Worker::Piping { request } => events.contains(WorkerEvent::Received(Ok(request))),
            Worker::Sampling { request } => {
                &&& events.contains(WorkerEvent::Received(Ok(request)))
                &&& events.contains(WorkerEvent::PipeCreated(Ok(())))
            },
            Worker::Forking { request, usage_before } => {
                &&& events.contains(WorkerEvent::Received(Ok(request)))
                &&& events.contains(WorkerEvent::PipeCreated(Ok(())))
                &&& events.contains(WorkerEvent::Measured(Ok(usage_before)))
            },
            Worker::InChild { request } => {
                &&& events.contains(WorkerEvent::Received(Ok(request)))
                &&& events.contains(WorkerEvent::PipeCreated(Ok(())))
                &&& events.contains(WorkerEvent::Forked(ForkOutcome::Child))
            },
            Worker::Supervising { request, usage_before } => {
                &&& events.contains(WorkerEvent::Received(Ok(request)))
                &&& events.contains(WorkerEvent::PipeCreated(Ok(())))
                &&& events.contains(WorkerEvent::Measured(Ok(usage_before)))
                &&& events.contains(WorkerEvent::Forked(ForkOutcome::Parent))
            },
            Worker::Responding { response } => {
                ||| events.contains(WorkerEvent::Supervised(response))
                ||| response matches Err(PrepareError::Panic(PanicReason::Request(message)))
                    && events.contains(
                    WorkerEvent::Received(Err(ReceiveError::Undecodable(message))),
                )
                ||| response matches Err(PrepareError::Panic(PanicReason::Pipe(message)))
                    && events.contains(WorkerEvent::PipeCreated(Err(message)))
                ||| response matches Err(PrepareError::Panic(PanicReason::Usage(error)))
                    && events.contains(WorkerEvent::Measured(Err(error)))
                ||| response == Err::<PrepareStats, PrepareError>(
                    PrepareError::Panic(PanicReason::Fork),
                ) && events.contains(WorkerEvent::Forked(ForkOutcome::Failed))
            },
            Worker::Stopped { reason } => match reason {
                StopReason::VersionMismatch => false,
                StopReason::Receive(message) => events.contains(
                    WorkerEvent::Received(Err(ReceiveError::Socket(message))),
                ),
                StopReason::Send(message) => events.contains(WorkerEvent::Sent(Err(message))),
            },
        }
    }
}

/// What is among the events but the last is among the events.
proof fn lemma_contains_extends(events: Seq<WorkerEvent>, event: WorkerEvent)
    requires
        events.len() > 0,
        events.drop_last().contains(event),
    ensures
        events.contains(event),
{
    let i = choose|i: int| 0 <= i < events.drop_last().len() && events.drop_last()[i] == event;
    assert(events[i] == event);
}

/// A state that all events but the last account for is accounted for by all
/// of them.
proof fn lemma_accounted_extends(state: Worker, events: Seq<WorkerEvent>)
    requires
        events.len() > 0,
        state.accounted(events.drop_last()),
    ensures
        state.accounted(events),
{
    let piped = WorkerEvent::PipeCreated(Ok(()));
    match state {
        Worker::Idle => {},
        Worker::Piping { request } => {
            lemma_contains_extends(events, WorkerEvent::Received(Ok(request)));
        },
        Worker::Sampling { request } => {
            lemma_contains_extends(events, WorkerEvent::Received(Ok(request)));
            lemma_contains_extends(events, piped);
        },
        Worker::Forking { request, usage_before } => {
            lemma_contains_extends(events, WorkerEvent::Received(Ok(request)));
            lemma_contains_extends(events, piped);
            lemma_contains_extends(events, WorkerEvent::Measured(Ok(usage_before)));
        },
        Worker::InChild { request } => {
            lemma_contains_extends(events, WorkerEvent::Received(Ok(request)));
            lemma_contains_extends(events, piped);
            lemma_contains_extends(events, WorkerEvent::Forked(ForkOutcome::Child));
        },
        Worker::Supervising { request, usage_before } => {
            lemma_contains_extends(events, WorkerEvent::Received(Ok(request)));
            lemma_contains_extends(events, piped);
            lemma_contains_extends(events, WorkerEvent::Measured(Ok(usage_before)));
            lemma_contains_extends(events, WorkerEvent::Forked(ForkOutcome::Parent));
        },
        Worker::Responding { response } => {
            let earlier = events.drop_last();
            if earlier.contains(WorkerEvent::Supervised(response)) {
                lemma_contains_extends(events, WorkerEvent::Supervised(response));
            } else {
                match response {
                    Err(PrepareError::Panic(PanicReason::Request(message))) => {
                        lemma_contains_extends(
                            events,
                            WorkerEvent::Received(Err(ReceiveError::Undecodable(message))),
                        );
                    },
                    Err(PrepareError::Panic(PanicReason::Pipe(message))) => {
                        lemma_contains_extends(events, WorkerEvent::PipeCreated(Err(message)));
                    },
                    Err(PrepareError::Panic(PanicReason::Usage(error))) => {
                        lemma_contains_extends(events, WorkerEvent::Measured(Err(error)));
                    },
                    _ => {
                        lemma_contains_extends(events, WorkerEvent::Forked(ForkOutcome::Failed));
                    },
                }
            }
        },
        Worker::Stopped { reason } => match reason {
            StopReason::VersionMismatch => {},
            StopReason::Receive(message) => {
                lemma_contains_extends(
                    events,
                    WorkerEvent::Received(Err(ReceiveError::Socket(message))),
                );
            },
            StopReason::Send(message) => {
                lemma_contains_extends(events, WorkerEvent::Sent(Err(message)));
            },
        },
    }
}

/// Every state that a worker reaches after the handshake is accounted for
/// by the events that led to it. In particular it forks only with a pipe and
/// a usage reading at hand, it is bound to one request from the receipt to
/// the response, and it answers with nothing but the verdict of the
/// supervisor or the failure that kept the child from being.
pub proof fn lemma_worker_accounts(events: Seq<WorkerEvent>)
    ensures
        Worker::Idle.run(events).accounted(events),
    decreases events.len(),
{
    if events.len() > 0 {
        let before = Worker::Idle.run(events.drop_last());
        let event = events.last();
        lemma_worker_accounts(events.drop_last());
        lemma_accounted_extends(before, events);
        assert(events[events.len() - 1] == event);
        assert(events.contains(event));
        match event {
            WorkerEvent::PipeCreated(Ok(created)) => {
                assert(created == ());
            },
            _ => {},
        }
    }
}

/// Whatever the verdict on a request, the worker that can send it is ready
/// for the next request afterwards: a child that crashed or ran out of time
/// costs the request, not the worker.
pub proof fn lemma_worker_survives(
    request: Request,
    usage_before: CpuUsage,
    verdict: Result<PrepareStats, PrepareError>,
)
    ensures
        (Worker::Supervising { request, usage_before }).next(WorkerEvent::Supervised(verdict))
            == (Worker::Responding { response: verdict }),
        (Worker::Responding { response: verdict }).next(WorkerEvent::Sent(Ok(()))) == Worker::Idle,
{
}

/// Only the socket stops a worker that runs: it stops where no frame can be
/// received or no response can be sent, and nowhere else. Once stopped, and
/// once it is the child, it stays so.
pub proof fn lemma_worker_stops(state: Worker, event: WorkerEvent)
    ensures
        state is Stopped || state is InChild ==> state.next(event) == state,
        !(state is Stopped) && state.next(event) is Stopped ==> {
            ||| state is Idle && event matches WorkerEvent::Received(Err(ReceiveError::Socket(_)))
            ||| state is Responding && event matches WorkerEvent::Sent(Err(_))
        },
{
}

/// What fails around a request before there is a child is answered to the
/// host, and the worker goes on: a payload that is no request, a pipe that
/// cannot be created, a usage reading that cannot be had, a fork that fails.
pub proof fn lemma_worker_answers_failures(
    request: Request,
    usage_before: CpuUsage,
    message: String,
    error: UsageError,
)
    ensures
        Worker::Idle.next(WorkerEvent::Received(Err(ReceiveError::Undecodable(message))))
            == (Worker::Responding {
            response: Err(PrepareError::Panic(PanicReason::Request(message))),
        }),
        (Worker::Piping { request }).next(WorkerEvent::PipeCreated(Err(message)))
            == (Worker::Responding {
            response: Err(PrepareError::Panic(PanicReason::Pipe(message))),
        }),
        (Worker::Sampling { request }).next(WorkerEvent::Measured(Err(error)))
            == (Worker::Responding {
            response: Err(PrepareError::Panic(PanicReason::Usage(error))),
        }),
        (Worker::Forking { request, usage_before }).next(WorkerEvent::Forked(ForkOutcome::Failed))
            == (Worker::Responding { response: Err(PrepareError::Panic(PanicReason::Fork)) }),
{
}

} // verus!
