//! The supervisor of the child: what the long-lived worker does after the
//! fork. It reads the pipe to its end, reaps the child, measures the CPU time
//! that the child took, tells a clean exit from every other ending, and
//! writes the artifact only where the child delivered one.
//!
//! The supervisor is a state machine. Whoever drives it performs the task
//! that is pending, reports what came of it as an event, and goes on until
//! the task is to return the verdict.

use vstd::prelude::*;
use crate::artifact::CompiledArtifact;
use crate::cpu::{checked_cpu_time_elapsed, measure_children, CpuUsage};
use crate::sys::wait_for_child;
use crate::model::{
    PanicReason, PrepareError, PrepareStats, Response, UsageError, EXIT_SUCCESS,
};

verus! {

/// How the reaped child ended.
#[derive(Clone, Copy, Debug, PartialEq, Eq)]
pub enum ChildExit {
    /// It exited by itself with this status.
    Exited(i32),
    /// A signal ended it.
    Signaled,
    /// Nothing is known: it was stopped or continued, or the wait failed.
    Unknown,
}

/// What the supervisor is to do next.
#[derive(Clone, Copy, Debug, PartialEq, Eq)]
pub enum SupervisorTask {
    /// Drop the writing end of the pipe that the parent still holds, so that
    /// the reading end can see the end of the data.
    DropWriter,
    /// Read the pipe to its end.
    ReadPipe,
    /// Wait for the child and take its status.
    Reap,
    /// Read the cumulative CPU usage of the children.
    Measure,
    /// Decode the bytes that the supervisor holds as the child's response.
    Decode,
    /// Write the artifact that the supervisor holds to its file.
    Persist,
    /// Hand the verdict to the host.
    Return,
}

/// What came of a task.
#[derive(Debug, PartialEq, Eq)]
pub enum SupervisorEvent {
    /// The parent's writing end of the pipe is dropped.
    WriterDropped,
    /// The pipe was read to its end, or reading failed.
    PipeRead(Result<Vec<u8>, String>),
    /// The child was waited for.
    Reaped(ChildExit),
    /// The children's CPU usage was read, or could not be.
    Measured(Result<CpuUsage, UsageError>),
    /// The bytes were decoded to the child's response, or are none.
    Decoded(Result<Result<Response, PrepareError>, String>),
    /// The artifact is in its file, or writing failed.
    Persisted(Result<(), String>),
}

/// The state of the supervisor between two tasks.
#[derive(Debug, PartialEq, Eq)]
pub enum Supervisor {
    /// The fork has just returned in the parent.
    Forked { usage_before: CpuUsage, timeout: u64 },
    /// Only the child can write to the pipe now.
    Reading { usage_before: CpuUsage, timeout: u64 },
    /// The pipe is at its end.
    Reaping { usage_before: CpuUsage, timeout: u64, read: Result<Vec<u8>, String> },
    /// The child is reaped.
    Measuring { usage_before: CpuUsage, timeout: u64, received: Vec<u8>, exit: ChildExit },
    /// The child exited cleanly after `cpu_time` seconds.
    Decoding { received: Vec<u8>, cpu_time: u64 },
    /// The child delivered an artifact.
    Persisting { artifact: CompiledArtifact, stats: PrepareStats },
    /// The verdict is reached.
    Finished { verdict: Result<PrepareStats, PrepareError> },
}

/// The verdict on a child that did not exit cleanly: it timed out if it took
/// at least as many seconds of CPU time as the job was given, and otherwise
/// nothing is known of its end.
pub open spec fn unclean_exit_error(cpu_time: u64, timeout: u64) -> PrepareError {
    if cpu_time >= timeout {
        PrepareError::TimedOut
    } else {
        PrepareError::Panic(PanicReason::UnknownChildStatus)
    }
}

/// The seconds of CPU time between two readings, as 64 bits hold them.
pub open spec fn elapsed_seconds(before: CpuUsage, after: CpuUsage) -> u64 {
    (after.total_seconds() - before.total_seconds()) as u64
}

/// What the host learns of one request, given everything that can be
/// observed of its child: what the pipe delivered, how the child ended, the
/// CPU usage of the children before the fork and after the wait, what the
/// delivered bytes decode to, and whether the artifact could be written.
///
/// A later observation counts only where the earlier ones let the supervisor
/// get that far.
pub open spec fn verdict_of(
    usage_before: CpuUsage,
    timeout: u64,
    received: Result<Vec<u8>, String>,
    exit: ChildExit,
    usage_after: Result<CpuUsage, UsageError>,
    decoded: Result<Result<Response, PrepareError>, String>,
    persisted: Result<(), String>,
) -> Result<PrepareStats, PrepareError> {
    match (received, usage_after) {
        (Err(message), _) => Err(PrepareError::Panic(PanicReason::PipeRead(message))),
        (Ok(_), Err(error)) => Err(PrepareError::Panic(PanicReason::Usage(error))),
        (Ok(_), Ok(after)) => if after.total_seconds() < usage_before.total_seconds() {
            Err(PrepareError::Panic(PanicReason::Usage(UsageError::Receded)))
        } else if exit != ChildExit::Exited(EXIT_SUCCESS) {
            Err(unclean_exit_error(elapsed_seconds(usage_before, after), timeout))
        } else {
            match decoded {
                Err(message) => Err(PrepareError::Panic(PanicReason::Decode(message))),
                Ok(Err(error)) => Err(error),
                Ok(Ok(response)) => match persisted {
                    Err(message) => Err(
                        PrepareError::Panic(PanicReason::ArtifactWrite(message)),
                    ),
                    Ok(_) => Ok(
                        PrepareStats {
                            cpu_time_elapsed: elapsed_seconds(usage_before, after),
                            memory_stats: response.memory_stats,
                        },
                    ),
                },
            }
        },
    }
}

impl SupervisorEvent {
    /// Whether this event reports on the given task.
    pub open spec fn answers(self, task: SupervisorTask) -> bool {
        match (task, self) {
            (SupervisorTask::DropWriter, SupervisorEvent::WriterDropped) => true,
            (SupervisorTask::ReadPipe, SupervisorEvent::PipeRead(_)) => true,
            (SupervisorTask::Reap, SupervisorEvent::Reaped(_)) => true,
            (SupervisorTask::Measure, SupervisorEvent::Measured(_)) => true,
            (SupervisorTask::Decode, SupervisorEvent::Decoded(_)) => true,
            (SupervisorTask::Persist, SupervisorEvent::Persisted(_)) => true,
            _ => false,
        }
    }
}

impl Supervisor {
    /// The state right after the fork, for a job that was given `timeout`
    /// seconds of CPU time, with the usage reading taken before the fork.
    pub open spec fn initial(usage_before: CpuUsage, timeout: u64) -> Supervisor {
        Supervisor::Forked { usage_before, timeout }
    }

    /// The task that is pending in this state.
    pub open spec fn pending(self) -> SupervisorTask {
        match self {
            Supervisor::Forked { .. } => SupervisorTask::DropWriter,
            Supervisor::Reading { .. } => SupervisorTask::ReadPipe,
            Supervisor::Reaping { .. } => SupervisorTask::Reap,
            Supervisor::Measuring { .. } => SupervisorTask::Measure,
            Supervisor::Decoding { .. } => SupervisorTask::Decode,
            Supervisor::Persisting { .. } => SupervisorTask::Persist,
            Supervisor::Finished { .. } => SupervisorTask::Return,
        }
    }

    /// The state after the child's CPU usage was read, for a child that
    /// ended with `exit` and left `received` in the pipe.
    pub open spec fn measured(
        usage_before: CpuUsage,
        timeout: u64,
        received: Vec<u8>,
        exit: ChildExit,
        usage_after: CpuUsage,
    ) -> Supervisor {
        if usage_after.total_seconds() < usage_before.total_seconds() {
            Supervisor::Finished {
                verdict: Err(PrepareError::Panic(PanicReason::Usage(UsageError::Receded))),
            }
        } else if exit == ChildExit::Exited(EXIT_SUCCESS) {
            Supervisor::Decoding { received, cpu_time: elapsed_seconds(usage_before, usage_after) }
        } else {
            Supervisor::Finished {
                verdict: Err(
                    unclean_exit_error(elapsed_seconds(usage_before, usage_after), timeout),
                ),
            }
        }
    }

    /// The state after `event`. An event that does not answer the pending
    /// task leaves the state as it is.
    pub open spec fn next(self, event: SupervisorEvent) -> Supervisor {
        match (self, event) {
            (Supervisor::Forked { usage_before, timeout }, SupervisorEvent::WriterDropped) => {
                Supervisor::Reading { usage_before, timeout }
            },
            (Supervisor::Reading { usage_before, timeout }, SupervisorEvent::PipeRead(read)) => {
                Supervisor::Reaping { usage_before, timeout, read }
            },
            (
                Supervisor::Reaping { usage_before, timeout, read },
                SupervisorEvent::Reaped(exit),
            ) => match read {
                Err(message) => Supervisor::Finished {
                    verdict: Err(PrepareError::Panic(PanicReason::PipeRead(message))),
                },
                Ok(bytes) => Supervisor::Measuring { usage_before, timeout, received: bytes, exit },
            },
            (
                Supervisor::Measuring { usage_before, timeout, received, exit },
                SupervisorEvent::Measured(reading),
            ) => match reading {
                Err(error) => Supervisor::Finished {
                    verdict: Err(PrepareError::Panic(PanicReason::Usage(error))),
                },
                Ok(usage_after) => Supervisor::measured(
                    usage_before,
                    timeout,
                    received,
                    exit,
                    usage_after,
                ),
            },
            (Supervisor::Decoding { cpu_time, .. }, SupervisorEvent::Decoded(decoded)) => match decoded {
                Err(message) => Supervisor::Finished {
                    verdict: Err(PrepareError::Panic(PanicReason::Decode(message))),
                },
                Ok(Err(error)) => Supervisor::Finished { verdict: Err(error) },
                Ok(Ok(response)) => Supervisor::Persisting {
                    artifact: response.artifact,
                    stats: PrepareStats {
                        cpu_time_elapsed: cpu_time,
                        memory_stats: response.memory_stats,
                    },
                },
            },
            (Supervisor::Persisting { stats, .. }, SupervisorEvent::Persisted(persisted)) => match persisted {
                Ok(_) => Supervisor::Finished { verdict: Ok(stats) },
                Err(message) => Supervisor::Finished {
                    verdict: Err(PrepareError::Panic(PanicReason::ArtifactWrite(message))),
                },
            },
            _ => self,
        }
    }

    /// The state after a series of events, the first of them first.
    pub open spec fn run(self, events: Seq<SupervisorEvent>) -> Supervisor
        decreases events.len(),
    {
        if events.len() == 0 {
            self
        } else {
            self.run(events.drop_last()).next(events.last())
        }
    }

    /// An upper bound on the number of tasks that are still to be performed
    /// before the verdict is reached.
    pub open spec fn tasks_left(self) -> nat {
        match self {
            Supervisor::Forked { .. } => 6,
            Supervisor::Reading { .. } => 5,
            Supervisor::Reaping { .. } => 4,
            Supervisor::Measuring { .. } => 3,
            Supervisor::Decoding { .. } => 2,
            Supervisor::Persisting { .. } => 1,
            Supervisor::Finished { .. } => 0,
        }
    }

    /// Starts the machine in the parent, right after the fork.
    pub fn start(usage_before: CpuUsage, timeout: u64) -> (supervisor: Supervisor)
        ensures
            supervisor == Supervisor::initial(usage_before, timeout),
    {
        Supervisor::Forked { usage_before, timeout }
    }

    /// The task to perform now.
    pub fn task(&self) -> (task: SupervisorTask)
        ensures
            task == self.pending(),
    {
        match self {
            Supervisor::Forked { .. } => SupervisorTask::DropWriter,
            Supervisor::Reading { .. } => SupervisorTask::ReadPipe,
            Supervisor::Reaping { .. } => SupervisorTask::Reap,
            Supervisor::Measuring { .. } => SupervisorTask::Measure,
            Supervisor::Decoding { .. } => SupervisorTask::Decode,
            Supervisor::Persisting { .. } => SupervisorTask::Persist,
            Supervisor::Finished { .. } => SupervisorTask::Return,
        }
    }

    /// The bytes to decode, while decoding them is the pending task.
    pub fn received(&self) -> (bytes: Option<&Vec<u8>>)
        ensures
            match bytes {
                Some(b) => self is Decoding && self->Decoding_received == *b,
                None => !(self is Decoding),
            },
    {
        match self {
            Supervisor::Decoding { received, .. } => Some(received),
            _ => None,
        }
    }

    /// The artifact to write, while writing it is the pending task.
    pub fn artifact(&self) -> (artifact: Option<&CompiledArtifact>)
        ensures
            match artifact {
                Some(a) => self is Persisting && self->artifact == *a,
                None => !(self is Persisting),
            },
    {
        match self {
            Supervisor::Persisting { artifact, .. } => Some(artifact),
            _ => None,
        }
    }

    /// The verdict, once it is reached.
    pub fn verdict(self) -> (verdict: Option<Result<PrepareStats, PrepareError>>)
        ensures
            match verdict {
                Some(v) => self == (Supervisor::Finished { verdict: v }),
                None => !(self is Finished),
            },
    {
        match self {
            Supervisor::Finished { verdict } => Some(verdict),
            _ => None,
        }
    }

    /// Takes the report on the pending task and moves on.
    pub fn step(self, event: SupervisorEvent) -> (next: Supervisor)
        ensures
            next == self.next(event),
    {
        match self {
            Supervisor::Forked { usage_before, timeout } => match event {
                SupervisorEvent::WriterDropped => Supervisor::Reading { usage_before, timeout },
                _ => Supervisor::Forked { usage_before, timeout },
            },
            Supervisor::Reading { usage_before, timeout } => match event {
                SupervisorEvent::PipeRead(read) => Supervisor::Reaping {
                    usage_before,
                    timeout,
                    read,
                },
                _ => Supervisor::Reading { usage_before, timeout },
            },
            Supervisor::Reaping { usage_before, timeout, read } => match event {
                SupervisorEvent::Reaped(exit) => match read {
                    Err(message) => Supervisor::Finished {
                        verdict: Err(PrepareError::Panic(PanicReason::PipeRead(message))),
                    },
                    Ok(bytes) => Supervisor::Measuring {
                        usage_before,
                        timeout,
                        received: bytes,
                        exit,
                    },
                },
                _ => Supervisor::Reaping { usage_before, timeout, read },
            },
            Supervisor::Measuring { usage_before, timeout, received, exit } => match event {
                SupervisorEvent::Measured(Err(error)) => Supervisor::Finished {
                    verdict: Err(PrepareError::Panic(PanicReason::Usage(error))),
                },
                SupervisorEvent::Measured(Ok(usage_after)) => judge_exit(
                    usage_before,
                    timeout,
                    received,
                    exit,
                    usage_after,
                ),
                _ => Supervisor::Measuring { usage_before, timeout, received, exit },
            },
            Supervisor::Decoding { received, cpu_time } => match event {
                SupervisorEvent::Decoded(Err(message)) => Supervisor::Finished {
                    verdict: Err(PrepareError::Panic(PanicReason::Decode(message))),
                },
                SupervisorEvent::Decoded(Ok(Err(error))) => Supervisor::Finished {
                    verdict: Err(error),
                },
                SupervisorEvent::Decoded(Ok(Ok(response))) => Supervisor::Persisting {
                    artifact: response.artifact,
                    stats: PrepareStats {
                        cpu_time_elapsed: cpu_time,
                        memory_stats: response.memory_stats,
                    },
                },
                _ => Supervisor::Decoding { received, cpu_time },
            },
            Supervisor::Persisting { artifact, stats } => match event {
                SupervisorEvent::Persisted(Ok(_)) => Supervisor::Finished { verdict: Ok(stats) },
                SupervisorEvent::Persisted(Err(message)) => Supervisor::Finished {
                    verdict: Err(PrepareError::Panic(PanicReason::ArtifactWrite(message))),
                },
                _ => Supervisor::Persisting { artifact, stats },
            },
            Supervisor::Finished { verdict } => Supervisor::Finished { verdict },
        }
    }
}

/// Judges the end of the child once its CPU time can be told: a clean exit
/// leads on to decoding, every other ending is a timeout or unknown.
pub fn judge_exit(
    usage_before: CpuUsage,
    timeout: u64,
    received: Vec<u8>,
    exit: ChildExit,
    usage_after: CpuUsage,
) -> (next: Supervisor)
    ensures
        next == Supervisor::measured(usage_before, timeout, received, exit, usage_after),
{
    match checked_cpu_time_elapsed(&usage_before, &usage_after) {
        Err(error) => Supervisor::Finished {
            verdict: Err(PrepareError::Panic(PanicReason::Usage(error))),
        },
        Ok(cpu_time) => {
            let clean = match exit {
                ChildExit::Exited(code) => code == EXIT_SUCCESS,
                _ => false,
            };
            if clean {
                Supervisor::Decoding { received, cpu_time }
            } else if cpu_time >= timeout {
                Supervisor::Finished { verdict: Err(PrepareError::TimedOut) }
            } else {
                Supervisor::Finished {
                    verdict: Err(PrepareError::Panic(PanicReason::UnknownChildStatus)),
                }
            }
        },
    }
}

/// Waits for the child and reports how it ended. A wait that fails tells
/// nothing of the child, and is reported as such.
pub fn reap() -> (event: SupervisorEvent)
    ensures
        event.answers(SupervisorTask::Reap),
{
    let outcome = wait_for_child();
    let event = reaped(outcome);
    event
}

/// Reads the cumulative CPU usage of the children and reports it to the
/// supervisor. To be called once the child is reaped: only then does the
/// reading count its time. What the reading holds is the kernel's to say;
/// what follows from it is for `judge_exit` to decide.
pub fn measure() -> (event: SupervisorEvent)
    ensures
        event.answers(SupervisorTask::Measure),
{
    SupervisorEvent::Measured(measure_children())
}

/// The report on the wait for the child, given what the wait gave: how the
/// child ended, or that nothing is known where the wait itself failed.
pub fn reaped(outcome: Result<ChildExit, nix::errno::Errno>) -> (event: SupervisorEvent)
    ensures
        event == SupervisorEvent::Reaped(
            match outcome {
                Ok(exit) => exit,
                Err(_) => ChildExit::Unknown,
            },
        ),
{
    match outcome {
        Ok(exit) => SupervisorEvent::Reaped(exit),
        Err(_) => SupervisorEvent::Reaped(ChildExit::Unknown),
    }
}

impl Supervisor {
    /// Whether `events` account for this state: whatever the state holds was
    /// reported by one of them.
    ///
    /// - Past its first task, the parent's writing end of the pipe was
    ///   reported dropped, so nothing is read before that.
    /// - The bytes at hand are those that a read of the pipe delivered.
    /// - Past the wait, a report of the reaped child is among the events, and
    ///   past the judgement of a clean exit it reports a clean exit.
    /// - An artifact at hand is the one of a decoded response.
    /// - A verdict of success follows a clean exit, a decoded response with
    ///   the same memory figures, and a successful write of the artifact.
    pub open spec fn accounted(self, events: Seq<SupervisorEvent>) -> bool {
        &&& !(self is Forked) ==> events.contains(SupervisorEvent::WriterDropped)
        &&& match self {
            Supervisor::Forked { .. } => true,
            Supervisor::Reading { .. } => true,
            Supervisor::Reaping { read, .. } => events.contains(SupervisorEvent::PipeRead(read)),
            Supervisor::Measuring { received, exit, .. } => {
                &&& events.contains(SupervisorEvent::PipeRead(Ok(received)))
                &&& events.contains(SupervisorEvent::Reaped(exit))
            },
            Supervisor::Decoding { received, .. } => {
                &&& events.contains(SupervisorEvent::PipeRead(Ok(received)))
                &&& events.contains(SupervisorEvent::Reaped(ChildExit::Exited(EXIT_SUCCESS)))
            },
            Supervisor::Persisting { artifact, stats } => {
                &&& events.contains(SupervisorEvent::Reaped(ChildExit::Exited(EXIT_SUCCESS)))
                &&& delivered(events, artifact, stats)
            },
            Supervisor::Finished { verdict } => {
                &&& exists|exit: ChildExit| #[trigger]
                    events.contains(SupervisorEvent::Reaped(exit))
                &&& verdict matches Ok(stats) ==> {
                    &&& events.contains(SupervisorEvent::Reaped(ChildExit::Exited(EXIT_SUCCESS)))
                    &&& events.contains(SupervisorEvent::Persisted(Ok(())))
                    &&& exists|artifact: CompiledArtifact| #[trigger]
                        delivered(events, artifact, stats)
                }
            },
        }
    }
}

/// Whether one of the events reports a decoded response of success that
/// holds `artifact` and the memory figures of `stats`.
pub open spec fn delivered(
    events: Seq<SupervisorEvent>,
    artifact: CompiledArtifact,
    stats: PrepareStats,
) -> bool {
    events.contains(
        SupervisorEvent::Decoded(Ok(Ok(Response { artifact, memory_stats: stats.memory_stats }))),
    )
}

/// What is among the events but the last is among the events.
proof fn lemma_contains_extends(events: Seq<SupervisorEvent>, event: SupervisorEvent)
    requires
        events.len() > 0,
        events.drop_last().contains(event),
    ensures
        events.contains(event),
{
    let i = choose|i: int| 0 <= i < events.drop_last().len() && events.drop_last()[i] == event;
    assert(events[i] == event);
}

/// A state that all events but the last account for is accounted for by all
/// of them.
proof fn lemma_accounted_extends(state: Supervisor, events: Seq<SupervisorEvent>)
    requires
        events.len() > 0,
        state.accounted(events.drop_last()),
    ensures
        state.accounted(events),
{
    let clean = SupervisorEvent::Reaped(ChildExit::Exited(EXIT_SUCCESS));
    if !(state is Forked) {
        lemma_contains_extends(events, SupervisorEvent::WriterDropped);
    }
    match state {
        Supervisor::Forked { .. } => {},
        Supervisor::Reading { .. } => {},
        Supervisor::Reaping { read, .. } => {
            lemma_contains_extends(events, SupervisorEvent::PipeRead(read));
        },
        Supervisor::Measuring { received, exit, .. } => {
            lemma_contains_extends(events, SupervisorEvent::PipeRead(Ok(received)));
            lemma_contains_extends(events, SupervisorEvent::Reaped(exit));
        },
        Supervisor::Decoding { received, .. } => {
            lemma_contains_extends(events, SupervisorEvent::PipeRead(Ok(received)));
            lemma_contains_extends(events, clean);
        },
        Supervisor::Persisting { artifact, stats } => {
            lemma_contains_extends(events, clean);
            lemma_contains_extends(
                events,
                SupervisorEvent::Decoded(
                    Ok(Ok(Response { artifact, memory_stats: stats.memory_stats })),
                ),
            );
        },
        Supervisor::Finished { verdict } => {
            let exit = choose|exit: ChildExit| #[trigger]
                events.drop_last().contains(SupervisorEvent::Reaped(exit));
            lemma_contains_extends(events, SupervisorEvent::Reaped(exit));
            if let Ok(stats) = verdict {
                lemma_contains_extends(events, clean);
                lemma_contains_extends(events, SupervisorEvent::Persisted(Ok(())));
                let artifact = choose|artifact: CompiledArtifact| #[trigger]
                    delivered(events.drop_last(), artifact, stats);
                lemma_contains_extends(
                    events,
                    SupervisorEvent::Decoded(
                        Ok(Ok(Response { artifact, memory_stats: stats.memory_stats })),
                    ),
                );
                assert(delivered(events, artifact, stats));
            }
        },
    }
}

/// Every state that the supervisor reaches is accounted for by the events
/// that led to it. In particular no verdict is reached before the child was
/// reaped, no artifact is written that the child did not deliver after a
/// clean exit, and success is reported only once the artifact is written.
pub proof fn lemma_supervisor_accounts(
    usage_before: CpuUsage,
    timeout: u64,
    events: Seq<SupervisorEvent>,
)
    ensures
        Supervisor::initial(usage_before, timeout).run(events).accounted(events),
    decreases events.len(),
{
    if events.len() > 0 {
        let before = Supervisor::initial(usage_before, timeout).run(events.drop_last());
        let event = events.last();
        lemma_supervisor_accounts(usage_before, timeout, events.drop_last());
        lemma_accounted_extends(before, events);
        assert(events[events.len() - 1] == event);
        assert(events.contains(event));
        match (before, event) {
            (Supervisor::Decoding { .. }, SupervisorEvent::Decoded(Ok(Ok(response)))) => {
                assert(response == Response {
                    artifact: response.artifact,
                    memory_stats: response.memory_stats,
                });
            },
            (Supervisor::Persisting { artifact, stats }, SupervisorEvent::Persisted(Ok(written))) => {
                assert(written == ());
                assert(delivered(events, artifact, stats));
            },
            _ => {},
        }
    }
}

/// No verdict is reached before the child was reported reaped: whatever
/// the outcome of a request, its child is waited for.
pub proof fn lemma_supervisor_reaps_first(
    usage_before: CpuUsage,
    timeout: u64,
    events: Seq<SupervisorEvent>,
)
    requires
        Supervisor::initial(usage_before, timeout).run(events) is Finished,
    ensures
        exists|exit: ChildExit| #[trigger] events.contains(SupervisorEvent::Reaped(exit)),
{
    lemma_supervisor_accounts(usage_before, timeout, events);
}

/// The artifact that is to be written is one that the child delivered: the
/// child exited cleanly, and its bytes were decoded to a response of success
/// with this artifact.
pub proof fn lemma_supervisor_writes_only_delivered(
    usage_before: CpuUsage,
    timeout: u64,
    events: Seq<SupervisorEvent>,
)
    requires
        Supervisor::initial(usage_before, timeout).run(events) is Persisting,
    ensures
        events.contains(SupervisorEvent::Reaped(ChildExit::Exited(EXIT_SUCCESS))),
        delivered(
            events,
            Supervisor::initial(usage_before, timeout).run(events)->artifact,
            Supervisor::initial(usage_before, timeout).run(events)->stats,
        ),
{
    lemma_supervisor_accounts(usage_before, timeout, events);
}

/// An event that answers the pending task brings the verdict nearer; any
/// other event changes nothing. No task is left exactly when the verdict is
/// reached.
pub proof fn lemma_supervisor_progress(state: Supervisor, event: SupervisorEvent)
    ensures
        event.answers(state.pending()) ==> state.next(event).tasks_left() < state.tasks_left(),
        !event.answers(state.pending()) ==> state.next(event) == state,
        state.tasks_left() == 0 <==> state is Finished,
{
}

/// Once the verdict is reached, no event changes it.
pub proof fn lemma_supervisor_verdict_is_final(state: Supervisor, events: Seq<SupervisorEvent>)
    requires
        state is Finished,
    ensures
        state.run(events) == state,
    decreases events.len(),
{
    if events.len() > 0 {
        lemma_supervisor_verdict_is_final(state, events.drop_last());
    }
}

/// The supervisor that is told, task by task, what came of each, reaches
/// the verdict that the observations call for.
pub proof fn lemma_supervisor_verdict(
    usage_before: CpuUsage,
    timeout: u64,
    received: Result<Vec<u8>, String>,
    exit: ChildExit,
    usage_after: Result<CpuUsage, UsageError>,
    decoded: Result<Result<Response, PrepareError>, String>,
    persisted: Result<(), String>,
)
    ensures
        Supervisor::initial(usage_before, timeout).next(SupervisorEvent::WriterDropped).next(
            SupervisorEvent::PipeRead(received),
        ).next(SupervisorEvent::Reaped(exit)).next(SupervisorEvent::Measured(usage_after)).next(
            SupervisorEvent::Decoded(decoded),
        ).next(SupervisorEvent::Persisted(persisted)) == (Supervisor::Finished {
            verdict: verdict_of(
                usage_before,
                timeout,
                received,
                exit,
                usage_after,
                decoded,
                persisted,
            ),
        }),
{
}

/// A child that did not exit cleanly is judged by its CPU time alone: it
/// timed out exactly when it took at least the seconds that the job was
/// given, and otherwise its end is unknown. Nothing is decoded and nothing is
/// written for it.
pub proof fn lemma_unclean_exit(
    usage_before: CpuUsage,
    timeout: u64,
    received: Vec<u8>,
    exit: ChildExit,
    usage_after: CpuUsage,
    decoded: Result<Result<Response, PrepareError>, String>,
    persisted: Result<(), String>,
)
    requires
        exit != ChildExit::Exited(EXIT_SUCCESS),
        usage_before.total_seconds() <= usage_after.total_seconds(),
    ensures
        ({
            let cpu_time = elapsed_seconds(usage_before, usage_after);
            let verdict = verdict_of(
                usage_before,
                timeout,
                Ok(received),
                exit,
                Ok(usage_after),
                decoded,
                persisted,
            );
            &&& cpu_time >= timeout ==> verdict == Err::<PrepareStats, PrepareError>(
                PrepareError::TimedOut,
            )
            &&& cpu_time < timeout ==> verdict == Err::<PrepareStats, PrepareError>(
                PrepareError::Panic(PanicReason::UnknownChildStatus),
            )
            &&& Supervisor::measured(usage_before, timeout, received, exit, usage_after)
                is Finished
        }),
{
}

/// An error that the child reports after a clean exit reaches the host as
/// it is, and no artifact is written.
pub proof fn lemma_reported_error(
    usage_before: CpuUsage,
    timeout: u64,
    received: Vec<u8>,
    usage_after: CpuUsage,
    error: PrepareError,
    persisted: Result<(), String>,
)
    requires
        usage_before.total_seconds() <= usage_after.total_seconds(),
    ensures
        verdict_of(
            usage_before,
            timeout,
            Ok(received),
            ChildExit::Exited(EXIT_SUCCESS),
            Ok(usage_after),
            Ok(Err(error)),
            persisted,
        ) == Err::<PrepareStats, PrepareError>(error),
        (Supervisor::Decoding {
            received,
            cpu_time: elapsed_seconds(usage_before, usage_after),
        }).next(SupervisorEvent::Decoded(Ok(Err(error)))) == (Supervisor::Finished {
            verdict: Err(error),
        }),
{
}

/// A response of success after a clean exit leads to success exactly when
/// the artifact could be written: the host then learns the CPU time between
/// the two readings and the memory figures of the response, and the artifact
/// that was to be written is the one of the response.
pub proof fn lemma_delivered_artifact(
    usage_before: CpuUsage,
    timeout: u64,
    received: Vec<u8>,
    usage_after: CpuUsage,
    response: Response,
    persisted: Result<(), String>,
)
    requires
        usage_before.total_seconds() <= usage_after.total_seconds(),
    ensures
        ({
            let cpu_time = elapsed_seconds(usage_before, usage_after);
            let verdict = verdict_of(
                usage_before,
                timeout,
                Ok(received),
                ChildExit::Exited(EXIT_SUCCESS),
                Ok(usage_after),
                Ok(Ok(response)),
                persisted,
            );
            let writing = (Supervisor::Decoding { received, cpu_time }).next(
                SupervisorEvent::Decoded(Ok(Ok(response))),
            );
            &&& verdict is Ok <==> persisted is Ok
            &&& verdict matches Ok(stats) ==> stats.cpu_time_elapsed == cpu_time
                && stats.memory_stats == response.memory_stats
            &&& persisted matches Err(message) ==> verdict == Err::<PrepareStats, PrepareError>(
                PrepareError::Panic(PanicReason::ArtifactWrite(message)),
            )
            &&& writing is Persisting && writing->artifact == response.artifact
        }),
{
}

} // verus!
