//! The sandboxed child: the process that is forked for one request, limits
//! its own CPU time, compiles on a thread of its own, writes one response to
//! the pipe and ends with an exit status.
//!
//! The child is a state machine. Whoever drives it performs the task that is
//! pending, reports what came of it as an event, and goes on until the task
//! is to exit.

use vstd::prelude::*;
use crate::compile::PrepareOutput;
use crate::model::{
    MemoryAllocationStats, MemoryStats, PrepareError, Response, EXIT_FAILURE, EXIT_SUCCESS,
};
use crate::sys::set_cpu_limit;

verus! {

/// How the wait for the threads of the child ended.
#[derive(Clone, Copy, Debug, PartialEq, Eq)]
pub enum WaitOutcome {
    /// The compiling thread signalled that it is done.
    Finished,
    /// A thread signalled that time ran out.
    TimedOut,
    /// Nothing was signalled.
    Pending,
}

/// What the child is to do next.
#[derive(Clone, Copy, Debug, PartialEq, Eq)]
pub enum ChildTask {
    /// Set the soft and the hard CPU-time limit of the process to `secs`.
    InstallCpuLimit { secs: u64 },
    /// Start the memory tracker, if `tracker` says so, and the compiling
    /// thread.
    SpawnThreads { tracker: bool },
    /// Wait until a thread signals an outcome.
    WaitForThreads,
    /// Join the compiling thread and take its result.
    JoinPrepare,
    /// Stop the memory tracker and take what it saw.
    CollectTrackerStats,
    /// Encode the response that the child holds and write it to the pipe.
    WriteResponse,
    /// End the process with this status.
    Exit { code: i32 },
}

/// What came of a task.
#[derive(Debug, PartialEq, Eq)]
pub enum ChildEvent {
    /// The CPU-time limit was set, or could not be set.
    LimitInstalled(bool),
    /// The threads run, or the compiling thread could not be started.
    ThreadsSpawned(bool),
    /// The wait for the threads ended.
    Waited(WaitOutcome),
    /// The compiling thread was joined and gave its result; `None` where the
    /// join failed.
    Joined(Option<Result<PrepareOutput, PrepareError>>),
    /// The memory tracker was stopped; `None` where it delivered nothing.
    TrackerStats(Option<MemoryAllocationStats>),
    /// All bytes of the response went into the pipe, or the write failed.
    ResponseWritten(bool),
}

/// The state of the child between two tasks.
#[derive(Debug, PartialEq, Eq)]
pub enum Child {
    /// Just forked.
    Start { timeout_secs: u64, tracker: bool },
    /// The CPU-time limit is in force.
    Limited { tracker: bool },
    /// The threads run.
    Running { tracker: bool },
    /// The compiling thread signalled that it is done.
    Joining { tracker: bool },
    /// Compilation succeeded; the tracker's figures are still missing.
    Collecting { output: PrepareOutput },
    /// The response is ready to be written.
    Responding { response: Result<Response, PrepareError> },
    /// Nothing is left but to exit.
    Exiting { code: i32 },
}

/// The response for a successful compilation: the artifact with the memory
/// figures that are there.
pub open spec fn success_response(
    output: PrepareOutput,
    sampled: Option<MemoryAllocationStats>,
) -> Response {
    Response {
        artifact: output.artifact,
        memory_stats: MemoryStats { memory_tracker_stats: sampled, max_rss: output.max_rss },
    }
}

impl ChildEvent {
    /// Whether this event reports on the given task.
    pub open spec fn answers(self, task: ChildTask) -> bool {
        match (task, self) {
            (ChildTask::InstallCpuLimit { .. }, ChildEvent::LimitInstalled(_)) => true,
            (ChildTask::SpawnThreads { .. }, ChildEvent::ThreadsSpawned(_)) => true,
            (ChildTask::WaitForThreads, ChildEvent::Waited(_)) => true,
            (ChildTask::JoinPrepare, ChildEvent::Joined(_)) => true,
            (ChildTask::CollectTrackerStats, ChildEvent::TrackerStats(_)) => true,
            (ChildTask::WriteResponse, ChildEvent::ResponseWritten(_)) => true,
            _ => false,
        }
    }
}

impl Child {
    /// The state of a child that was just forked for a job with the given
    /// timeout; `tracker` says whether a memory tracker is available.
    pub open spec fn initial(timeout_secs: u64, tracker: bool) -> Child {
        Child::Start { timeout_secs, tracker }
    }

    /// The task that is pending in this state.
    pub open spec fn pending(self) -> ChildTask {
        match self {
            Child::Start { timeout_secs, .. } => ChildTask::InstallCpuLimit { secs: timeout_secs },
            Child::Limited { tracker } => ChildTask::SpawnThreads { tracker },
            Child::Running { .. } => ChildTask::WaitForThreads,
            Child::Joining { .. } => ChildTask::JoinPrepare,
            Child::Collecting { .. } => ChildTask::CollectTrackerStats,
            Child::Responding { .. } => ChildTask::WriteResponse,
            Child::Exiting { code } => ChildTask::Exit { code },
        }
    }

    /// The state after `event`. An event that does not answer the pending
    /// task leaves the state as it is.
    pub open spec fn next(self, event: ChildEvent) -> Child {
        match (self, event) {
            (Child::Start { tracker, .. }, ChildEvent::LimitInstalled(ok)) => if ok {
                Child::Limited { tracker }
            } else {
                Child::Exiting { code: EXIT_FAILURE }
            },
            (Child::Limited { tracker }, ChildEvent::ThreadsSpawned(ok)) => if ok {
                Child::Running { tracker }
            } else {
                Child::Exiting { code: EXIT_FAILURE }
            },
            (Child::Running { tracker }, ChildEvent::Waited(outcome)) => match outcome {
                WaitOutcome::Finished => Child::Joining { tracker },
                _ => Child::Exiting { code: EXIT_FAILURE },
            },
            (Child::Joining { tracker }, ChildEvent::Joined(joined)) => match joined {
                None => Child::Exiting { code: EXIT_FAILURE },
                Some(Err(error)) => Child::Responding { response: Err(error) },
                Some(Ok(output)) => if tracker {
                    Child::Collecting { output }
                } else {
                    Child::Responding { response: Ok(success_response(output, None)) }
                },
            },
            (Child::Collecting { output }, ChildEvent::TrackerStats(sampled)) => Child::Responding {
                response: Ok(success_response(output, sampled)),
            },
            (Child::Responding { .. }, ChildEvent::ResponseWritten(ok)) => if ok {
                Child::Exiting { code: EXIT_SUCCESS }
            } else {
                Child::Exiting { code: EXIT_FAILURE }
            },
            _ => self,
        }
    }

    /// The state after a series of events, the first of them first.
    pub open spec fn run(self, events: Seq<ChildEvent>) -> Child
        decreases events.len(),
    {
        if events.len() == 0 {
            self
        } else {
            self.run(events.drop_last()).next(events.last())
        }
    }

    /// An upper bound on the number of tasks that are still to be performed
    /// before the child exits.
    pub open spec fn tasks_left(self) -> nat {
        match self {
            Child::Start { .. } => 6,
            Child::Limited { .. } => 5,
            Child::Running { .. } => 4,
            Child::Joining { .. } => 3,
            Child::Collecting { .. } => 2,
            Child::Responding { .. } => 1,
            Child::Exiting { .. } => 0,
        }
    }

    /// Starts the machine of a child that was just forked.
    pub fn start(timeout_secs: u64, tracker: bool) -> (child: Child)
        ensures
            child == Child::initial(timeout_secs, tracker),
    {
        Child::Start { timeout_secs, tracker }
    }

    /// The task to perform now.
    pub fn task(&self) -> (task: ChildTask)
        ensures
            task == self.pending(),
    {
        match self {
            Child::Start { timeout_secs, .. } => ChildTask::InstallCpuLimit { secs: *timeout_secs },
            Child::Limited { tracker } => ChildTask::SpawnThreads { tracker: *tracker },
            Child::Running { .. } => ChildTask::WaitForThreads,
            Child::Joining { .. } => ChildTask::JoinPrepare,
            Child::Collecting { .. } => ChildTask::CollectTrackerStats,
            Child::Responding { .. } => ChildTask::WriteResponse,
            Child::Exiting { code } => ChildTask::Exit { code: *code },
        }
    }

    /// The response to write, while writing it is the pending task.
    pub fn response(&self) -> (response: Option<&Result<Response, PrepareError>>)
        ensures
            match response {
                Some(r) => *self == (Child::Responding { response: *r }),
                None => !(self is Responding),
            },
    {
        match self {
            Child::Responding { response } => Some(response),
            _ => None,
        }
    }

    /// Takes the report on the pending task and moves on.
    pub fn step(self, event: ChildEvent) -> (next: Child)
        ensures
            next == self.next(event),
    {
        match self {
            Child::Start { timeout_secs, tracker } => match event {
                ChildEvent::LimitInstalled(ok) => if ok {
                    Child::Limited { tracker }
                } else {
                    Child::Exiting { code: EXIT_FAILURE }
                },
                _ => Child::Start { timeout_secs, tracker },
            },
            Child::Limited { tracker } => match event {
                ChildEvent::ThreadsSpawned(ok) => if ok {
                    Child::Running { tracker }
                } else {
                    Child::Exiting { code: EXIT_FAILURE }
                },
                _ => Child::Limited { tracker },
            },
            Child::Running { tracker } => match event {
                ChildEvent::Waited(WaitOutcome::Finished) => Child::Joining { tracker },
                ChildEvent::Waited(_) => Child::Exiting { code: EXIT_FAILURE },
                _ => Child::Running { tracker },
            },
            Child::Joining { tracker } => match event {
                ChildEvent::Joined(None) => Child::Exiting { code: EXIT_FAILURE },
                ChildEvent::Joined(Some(Err(error))) => Child::Responding { response: Err(error) },
                ChildEvent::Joined(Some(Ok(output))) => if tracker {
                    Child::Collecting { output }
                } else {
                    Child::Responding { response: Ok(respond(output, None)) }
                },
                _ => Child::Joining { tracker },
            },
            Child::Collecting { output } => match event {
                ChildEvent::TrackerStats(sampled) => Child::Responding {
                    response: Ok(respond(output, sampled)),
                },
                _ => Child::Collecting { output },
            },
            Child::Responding { response } => match event {
                ChildEvent::ResponseWritten(ok) => if ok {
                    Child::Exiting { code: EXIT_SUCCESS }
                } else {
                    Child::Exiting { code: EXIT_FAILURE }
                },
                _ => Child::Responding { response },
            },
            Child::Exiting { code } => Child::Exiting { code },
        }
    }
}

/// Puts the response for a successful compilation together.
pub fn respond(output: PrepareOutput, sampled: Option<MemoryAllocationStats>) -> (response: Response)
    ensures
        response == success_response(output, sampled),
{
    Response {
        artifact: output.artifact,
        memory_stats: MemoryStats { memory_tracker_stats: sampled, max_rss: output.max_rss },
    }
}

/// Asks the kernel to cap the CPU time of this process at `secs` seconds,
/// soft and hard limit alike, and reports whether it agreed.
pub fn install_cpu_limit(secs: u64) -> (event: ChildEvent)
    ensures
        event is LimitInstalled,
        event.answers(ChildTask::InstallCpuLimit { secs }),
{
    let outcome = set_cpu_limit(secs, secs);
    let event = limit_installed(outcome);
    event
}

/// The report on the CPU-time limit, given what the kernel answered to the
/// request to set it: the limit is installed exactly when the kernel
/// accepted it.
pub fn limit_installed(outcome: Result<(), nix::errno::Errno>) -> (event: ChildEvent)
    ensures
        event == ChildEvent::LimitInstalled(outcome is Ok),
{
    match outcome {
        Ok(_) => ChildEvent::LimitInstalled(true),
        Err(_) => ChildEvent::LimitInstalled(false),
    }
}

/// Whether `response` is what the child owes for the result `joined` of the
/// compiling thread: the same error, or the same artifact with the same peak
/// resident set size.
pub open spec fn reports(
    response: Result<Response, PrepareError>,
    joined: Result<PrepareOutput, PrepareError>,
) -> bool {
    match (joined, response) {
        (Err(error), Err(reported)) => reported == error,
        (Ok(output), Ok(reported)) => reported.artifact == output.artifact
            && reported.memory_stats.max_rss == output.max_rss,
        _ => false,
    }
}

/// An event that answers the pending task brings the exit nearer; any other
/// event changes nothing. No task is left exactly when the child is to exit.
pub proof fn lemma_child_progress(state: Child, event: ChildEvent)
    ensures
        event.answers(state.pending()) ==> state.next(event).tasks_left() < state.tasks_left(),
        !event.answers(state.pending()) ==> state.next(event) == state,
        state.tasks_left() == 0 <==> state is Exiting,
{
}

/// Once the child is to exit, no event changes its mind.
pub proof fn lemma_child_exit_is_final(state: Child, events: Seq<ChildEvent>)
    requires
        state is Exiting,
    ensures
        state.run(events) == state,
    decreases events.len(),
{
    if events.len() > 0 {
        lemma_child_exit_is_final(state, events.drop_last());
    }
}

/// A child that exits with success has written its response: among the
/// events there is a successful write that was taken while the response was
/// waiting to be written.
pub proof fn lemma_child_success_means_written(
    timeout_secs: u64,
    tracker: bool,
    events: Seq<ChildEvent>,
)
    requires
        Child::initial(timeout_secs, tracker).run(events) == (Child::Exiting {
            code: EXIT_SUCCESS,
        }),
    ensures
        exists|i: int|
            0 <= i < events.len() && events[i] == ChildEvent::ResponseWritten(true)
                && #[trigger] Child::initial(timeout_secs, tracker).run(events.take(i))
                is Responding,
    decreases events.len(),
{
    let start = Child::initial(timeout_secs, tracker);
    if events.len() > 0 {
        let earlier = events.drop_last();
        if start.run(earlier) is Responding {
            assert(events.take(events.len() - 1) == earlier);
        } else {
            lemma_child_success_means_written(timeout_secs, tracker, earlier);
            let i = choose|i: int|
                0 <= i < earlier.len() && earlier[i] == ChildEvent::ResponseWritten(true)
                    && #[trigger] start.run(earlier.take(i)) is Responding;
            assert(earlier.take(i) == events.take(i));
        }
    }
}

/// The response that waits to be written is the result of the compiling
/// thread: among the events there is a join whose result it reports.
pub proof fn lemma_child_response_is_joined_result(
    timeout_secs: u64,
    tracker: bool,
    events: Seq<ChildEvent>,
)
    requires
        Child::initial(timeout_secs, tracker).run(events) is Responding,
    ensures
        exists|i: int|
            0 <= i < events.len() && (#[trigger] events[i] matches ChildEvent::Joined(Some(joined))
                && reports(
                Child::initial(timeout_secs, tracker).run(events)->response,
                joined,
            )),
    decreases events.len(),
{
    let earlier = events.drop_last();
    if events.len() > 0 {
        let before = Child::initial(timeout_secs, tracker).run(earlier);
        if before is Responding {
            lemma_child_response_is_joined_result(timeout_secs, tracker, earlier);
            let i = choose|i: int|
                0 <= i < earlier.len() && (#[trigger] earlier[i] matches ChildEvent::Joined(
                    Some(joined),
                ) && reports(before->response, joined));
            assert(events[i] == earlier[i]);
        } else if before is Collecting {
            lemma_child_collecting_is_joined_output(timeout_secs, tracker, earlier);
            let i = choose|i: int|
                0 <= i < earlier.len() && #[trigger] earlier[i] == ChildEvent::Joined(
                    Some(Ok(before->output)),
                );
            assert(events[i] == earlier[i]);
        } else {
            assert(events[events.len() - 1] is Joined);
        }
    }
}

/// While the tracker's figures are awaited, the output at hand is the one
/// that the compiling thread gave when it was joined.
pub proof fn lemma_child_collecting_is_joined_output(
    timeout_secs: u64,
    tracker: bool,
    events: Seq<ChildEvent>,
)
    requires
        Child::initial(timeout_secs, tracker).run(events) is Collecting,
    ensures
        exists|i: int|
            0 <= i < events.len() && #[trigger] events[i] == ChildEvent::Joined(
                Some(Ok(Child::initial(timeout_secs, tracker).run(events)->output)),
            ),
    decreases events.len(),
{
    let earlier = events.drop_last();
    if events.len() > 0 {
        let before = Child::initial(timeout_secs, tracker).run(earlier);
        if before is Collecting {
            lemma_child_collecting_is_joined_output(timeout_secs, tracker, earlier);
            let i = choose|i: int|
                0 <= i < earlier.len() && #[trigger] earlier[i] == ChildEvent::Joined(
                    Some(Ok(before->output)),
                );
            assert(events[i] == earlier[i]);
        } else {
            assert(events[events.len() - 1] is Joined);
        }
    }
}

} // verus!
