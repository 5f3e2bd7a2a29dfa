//! The compiling thread of the child: prevalidate the blob, compile it, note
//! the peak memory of the thread, and for a prechecking job also build a
//! runtime from the artifact.
//!
//! The compiler itself is not part of this library. The job is a state
//! machine: whoever drives it performs the task that is pending, reports
//! what came of it as an event, and goes on until the task is to return.

use vstd::prelude::*;
use crate::artifact::CompiledArtifact;
use crate::model::{PrepareError, PrepareJobKind};

verus! {

/// What the compiling thread hands back when it succeeded.
#[derive(Clone, Debug, PartialEq, Eq)]
pub struct PrepareOutput {
    /// The compiled code.
    pub artifact: CompiledArtifact,
    /// Peak resident set size of the thread, where the platform tells it.
    pub max_rss: Option<i64>,
}

/// What the compiling thread is to do next.
#[derive(Clone, Copy, Debug, PartialEq, Eq)]
pub enum CompileTask {
    /// Check the blob before any compilation.
    Prevalidate,
    /// Compile the prevalidated blob.
    Compile,
    /// Read the peak resident set size of this thread.
    MeasurePeakRss,
    /// Build a runtime from the artifact that the job holds.
    ConstructRuntime,
    /// Hand the result to the child.
    Return,
}

/// What came of a task. An error carries the compiler's description of it.
#[derive(Debug, PartialEq, Eq)]
pub enum CompileEvent {
    /// The blob passed prevalidation, or was rejected.
    Prevalidated(Result<(), String>),
    /// The compiler delivered an artifact, or an error.
    Compiled(Result<CompiledArtifact, String>),
    /// The peak resident set size was read; `None` where it cannot be told.
    PeakRssMeasured(Option<i64>),
    /// A runtime was built from the artifact, or could not be.
    RuntimeConstructed(Result<(), String>),
}

/// The state of the job between two tasks.
#[derive(Debug, PartialEq, Eq)]
pub enum PrepareJob {
    /// Nothing is done yet.
    Prevalidating { kind: PrepareJobKind },
    /// The blob passed prevalidation.
    Compiling { kind: PrepareJobKind },
    /// The compiler delivered an artifact.
    Measuring { kind: PrepareJobKind, artifact: CompiledArtifact },
    /// The job is a prechecking and its artifact awaits the test.
    Constructing { output: PrepareOutput },
    /// The result is there.
    Finished { result: Result<PrepareOutput, PrepareError> },
}

/// The result of a job, given what each stage of it gives: prevalidation,
/// compilation, the reading of the peak memory, and the construction of a
/// runtime.
///
/// A stage counts only where the stages before it succeeded, and the
/// construction of a runtime only for a prechecking.
pub open spec fn prepare_result(
    kind: PrepareJobKind,
    prevalidated: Result<(), String>,
    compiled: Result<CompiledArtifact, String>,
    max_rss: Option<i64>,
    constructed: Result<(), String>,
) -> Result<PrepareOutput, PrepareError> {
    match (prevalidated, compiled, kind, constructed) {
        (Err(message), _, _, _) => Err(PrepareError::Prevalidation(message)),
        (Ok(_), Err(message), _, _) => Err(PrepareError::Preparation(message)),
        (Ok(_), Ok(_), PrepareJobKind::Prechecking, Err(message)) => Err(
            PrepareError::RuntimeConstruction(message),
        ),
        (Ok(_), Ok(artifact), _, _) => Ok(PrepareOutput { artifact, max_rss }),
    }
}

impl CompileEvent {
    /// Whether this event reports on the given task.
    pub open spec fn answers(self, task: CompileTask) -> bool {
        match (task, self) {
            (CompileTask::Prevalidate, CompileEvent::Prevalidated(_)) => true,
            (CompileTask::Compile, CompileEvent::Compiled(_)) => true,
            (CompileTask::MeasurePeakRss, CompileEvent::PeakRssMeasured(_)) => true,
            (CompileTask::ConstructRuntime, CompileEvent::RuntimeConstructed(_)) => true,
            _ => false,
        }
    }
}

impl PrepareJob {
    /// The state of a job of the given kind before anything is done.
    pub open spec fn initial(kind: PrepareJobKind) -> PrepareJob {
        PrepareJob::Prevalidating { kind }
    }

    /// The task that is pending in this state.
    pub open spec fn pending(self) -> CompileTask {
        match self {
            PrepareJob::Prevalidating { .. } => CompileTask::Prevalidate,
            PrepareJob::Compiling { .. } => CompileTask::Compile,
            PrepareJob::Measuring { .. } => CompileTask::MeasurePeakRss,
            PrepareJob::Constructing { .. } => CompileTask::ConstructRuntime,
            PrepareJob::Finished { .. } => CompileTask::Return,
        }
    }

    /// The state after `event`. An event that does not answer the pending
    /// task leaves the state as it is.
    pub open spec fn next(self, event: CompileEvent) -> PrepareJob {
        match (self, event) {
            (PrepareJob::Prevalidating { kind }, CompileEvent::Prevalidated(checked)) => match checked {
                Ok(_) => PrepareJob::Compiling { kind },
                Err(message) => PrepareJob::Finished {
                    result: Err(PrepareError::Prevalidation(message)),
                },
            },
            (PrepareJob::Compiling { kind }, CompileEvent::Compiled(compiled)) => match compiled {
                Ok(artifact) => PrepareJob::Measuring { kind, artifact },
                Err(message) => PrepareJob::Finished {
                    result: Err(PrepareError::Preparation(message)),
                },
            },
            (PrepareJob::Measuring { kind, artifact }, CompileEvent::PeakRssMeasured(max_rss)) => match kind {
                PrepareJobKind::Prechecking => PrepareJob::Constructing {
                    output: PrepareOutput { artifact, max_rss },
                },
                PrepareJobKind::Compilation => PrepareJob::Finished {
                    result: Ok(PrepareOutput { artifact, max_rss }),
                },
            },
            (
                PrepareJob::Constructing { output },
                CompileEvent::RuntimeConstructed(constructed),
            ) => match constructed {
                Ok(_) => PrepareJob::Finished { result: Ok(output) },
                Err(message) => PrepareJob::Finished {
                    result: Err(PrepareError::RuntimeConstruction(message)),
                },
            },
            _ => self,
        }
    }

    /// The state after a series of events, the first of them first.
    pub open spec fn run(self, events: Seq<CompileEvent>) -> PrepareJob
        decreases events.len(),
    {
        if events.len() == 0 {
            self
        } else {
            self.run(events.drop_last()).next(events.last())
        }
    }

    /// An upper bound on the number of tasks that are still to be performed
    /// before the result is there.
    pub open spec fn tasks_left(self) -> nat {
        match self {
            PrepareJob::Prevalidating { .. } => 4,
            PrepareJob::Compiling { .. } => 3,
            PrepareJob::Measuring { .. } => 2,
            PrepareJob::Constructing { .. } => 1,
            PrepareJob::Finished { .. } => 0,
        }
    }

    /// Whether `events` account for this state of a job of kind `kind`:
    /// whatever the state holds was reported by one of them.
    ///
    /// - Past prevalidation, the blob was reported to have passed it.
    /// - The artifact at hand is the one that the compiler was reported to
    ///   have delivered.
    /// - A runtime is built only for a prechecking, and a prechecking
    ///   succeeds only after a runtime was reported to have been built.
    pub open spec fn accounted(self, kind: PrepareJobKind, events: Seq<CompileEvent>) -> bool {
        match self {
            PrepareJob::Prevalidating { kind: k } => k == kind,
            PrepareJob::Compiling { kind: k } => {
                &&& k == kind
                &&& events.contains(CompileEvent::Prevalidated(Ok(())))
            },
            PrepareJob::Measuring { kind: k, artifact } => {
                &&& k == kind
                &&& events.contains(CompileEvent::Prevalidated(Ok(())))
                &&& events.contains(CompileEvent::Compiled(Ok(artifact)))
            },
            PrepareJob::Constructing { output } => {
                &&& kind == PrepareJobKind::Prechecking
                &&& events.contains(CompileEvent::Prevalidated(Ok(())))
                &&& events.contains(CompileEvent::Compiled(Ok(output.artifact)))
                &&& events.contains(CompileEvent::PeakRssMeasured(output.max_rss))
            },
            PrepareJob::Finished { result } => result matches Ok(output) ==> {
                &&& events.contains(CompileEvent::Prevalidated(Ok(())))
                &&& events.contains(CompileEvent::Compiled(Ok(output.artifact)))
                &&& events.contains(CompileEvent::PeakRssMeasured(output.max_rss))
                &&& kind == PrepareJobKind::Prechecking ==> events.contains(
                    CompileEvent::RuntimeConstructed(Ok(())),
                )
            },
        }
    }

    /// Starts a job of the given kind.
    pub fn start(kind: PrepareJobKind) -> (job: PrepareJob)
        ensures
            job == PrepareJob::initial(kind),
    {
        PrepareJob::Prevalidating { kind }
    }

    /// The task to perform now.
    pub fn task(&self) -> (task: CompileTask)
        ensures
            task == self.pending(),
    {
        match self {
            PrepareJob::Prevalidating { .. } => CompileTask::Prevalidate,
            PrepareJob::Compiling { .. } => CompileTask::Compile,
            PrepareJob::Measuring { .. } => CompileTask::MeasurePeakRss,
            PrepareJob::Constructing { .. } => CompileTask::ConstructRuntime,
            PrepareJob::Finished { .. } => CompileTask::Return,
        }
    }

    /// The artifact to build a runtime from, while that is the pending task.
    pub fn artifact(&self) -> (artifact: Option<&CompiledArtifact>)
        ensures
            match artifact {
                Some(a) => self is Constructing && self->output.artifact == *a,
                None => !(self is Constructing),
            },
    {
        match self {
            PrepareJob::Constructing { output } => Some(&output.artifact),
            _ => None,
        }
    }

    /// The result, once it is there.
    pub fn result(self) -> (result: Option<Result<PrepareOutput, PrepareError>>)
        ensures
            match result {
                Some(r) => self == (PrepareJob::Finished { result: r }),
                None => !(self is Finished),
            },
    {
        match self {
            PrepareJob::Finished { result } => Some(result),
            _ => None,
        }
    }

    /// Takes the report on the pending task and moves on.
    pub fn step(self, event: CompileEvent) -> (next: PrepareJob)
        ensures
            next == self.next(event),
    {
        match self {
            PrepareJob::Prevalidating { kind } => match event {
                CompileEvent::Prevalidated(Ok(_)) => PrepareJob::Compiling { kind },
                CompileEvent::Prevalidated(Err(message)) => PrepareJob::Finished {
                    result: Err(PrepareError::Prevalidation(message)),
                },
                _ => PrepareJob::Prevalidating { kind },
            },
            PrepareJob::Compiling { kind } => match event {
                CompileEvent::Compiled(Ok(artifact)) => PrepareJob::Measuring { kind, artifact },
                CompileEvent::Compiled(Err(message)) => PrepareJob::Finished {
                    result: Err(PrepareError::Preparation(message)),
                },
                _ => PrepareJob::Compiling { kind },
            },
            PrepareJob::Measuring { kind, artifact } => match event {
                CompileEvent::PeakRssMeasured(max_rss) => match kind {
                    PrepareJobKind::Prechecking => PrepareJob::Constructing {
                        output: PrepareOutput { artifact, max_rss },
                    },
                    PrepareJobKind::Compilation => PrepareJob::Finished {
                        result: Ok(PrepareOutput { artifact, max_rss }),
                    },
                },
                _ => PrepareJob::Measuring { kind, artifact },
            },
            PrepareJob::Constructing { output } => match event {
                CompileEvent::RuntimeConstructed(Ok(_)) => PrepareJob::Finished {
                    result: Ok(output),
                },
                CompileEvent::RuntimeConstructed(Err(message)) => PrepareJob::Finished {
                    result: Err(PrepareError::RuntimeConstruction(message)),
                },
                _ => PrepareJob::Constructing { output },
            },
            PrepareJob::Finished { result } => PrepareJob::Finished { result },
        }
    }
}

/// What is among the events but the last is among the events.
proof fn lemma_contains_extends(events: Seq<CompileEvent>, event: CompileEvent)
    requires
        events.len() > 0,
        events.drop_last().contains(event),
    ensures
        events.contains(event),
{
    let i = choose|i: int| 0 <= i < events.drop_last().len() && events.drop_last()[i] == event;
    assert(events[i] == event);
}

/// A state that all events but the last account for is accounted for by all
/// of them.
proof fn lemma_accounted_extends(state: PrepareJob, kind: PrepareJobKind, events: Seq<CompileEvent>)
    requires
        events.len() > 0,
        state.accounted(kind, events.drop_last()),
    ensures
        state.accounted(kind, events),
{
    let passed = CompileEvent::Prevalidated(Ok(()));
    match state {
        PrepareJob::Prevalidating { .. } => {},
        PrepareJob::Compiling { .. } => {
            lemma_contains_extends(events, passed);
        },
        PrepareJob::Measuring { artifact, .. } => {
            lemma_contains_extends(events, passed);
            lemma_contains_extends(events, CompileEvent::Compiled(Ok(artifact)));
        },
        PrepareJob::Constructing { output } => {
            lemma_contains_extends(events, passed);
            lemma_contains_extends(events, CompileEvent::Compiled(Ok(output.artifact)));
            lemma_contains_extends(events, CompileEvent::PeakRssMeasured(output.max_rss));
        },
        PrepareJob::Finished { result } => {
            if let Ok(output) = result {
                lemma_contains_extends(events, passed);
                lemma_contains_extends(events, CompileEvent::Compiled(Ok(output.artifact)));
                lemma_contains_extends(events, CompileEvent::PeakRssMeasured(output.max_rss));
                if kind == PrepareJobKind::Prechecking {
                    lemma_contains_extends(events, CompileEvent::RuntimeConstructed(Ok(())));
                }
            }
        },
    }
}

/// Every state that a job reaches is accounted for by the events that led
/// to it. In particular a job succeeds only with the artifact that the
/// compiler delivered for a blob that passed prevalidation, and a
/// prechecking succeeds only where a runtime could be built.
pub proof fn lemma_job_accounts(kind: PrepareJobKind, events: Seq<CompileEvent>)
    ensures
        PrepareJob::initial(kind).run(events).accounted(kind, events),
    decreases events.len(),
{
    if events.len() > 0 {
        let before = PrepareJob::initial(kind).run(events.drop_last());
        lemma_job_accounts(kind, events.drop_last());
        lemma_accounted_extends(before, kind, events);
        assert(events[events.len() - 1] == events.last());
        match events.last() {
            CompileEvent::Prevalidated(Ok(passed)) => {
                assert(passed == ());
            },
            CompileEvent::RuntimeConstructed(Ok(built)) => {
                assert(built == ());
            },
            _ => {},
        }
    }
}

/// An event that answers the pending task brings the result nearer; any
/// other event changes nothing. No task is left exactly when the result is
/// there.
pub proof fn lemma_job_progress(state: PrepareJob, event: CompileEvent)
    ensures
        event.answers(state.pending()) ==> state.next(event).tasks_left() < state.tasks_left(),
        !event.answers(state.pending()) ==> state.next(event) == state,
        state.tasks_left() == 0 <==> state is Finished,
{
}

/// Once the result is there, no event changes it.
pub proof fn lemma_job_result_is_final(state: PrepareJob, events: Seq<CompileEvent>)
    requires
        state is Finished,
    ensures
        state.run(events) == state,
    decreases events.len(),
{
    if events.len() > 0 {
        lemma_job_result_is_final(state, events.drop_last());
    }
}

/// The job that is told, stage by stage, what came of each, ends with the
/// result that the stages call for.
pub proof fn lemma_job_result(
    kind: PrepareJobKind,
    prevalidated: Result<(), String>,
    compiled: Result<CompiledArtifact, String>,
    max_rss: Option<i64>,
    constructed: Result<(), String>,
)
    ensures
        PrepareJob::initial(kind).next(CompileEvent::Prevalidated(prevalidated)).next(
            CompileEvent::Compiled(compiled),
        ).next(CompileEvent::PeakRssMeasured(max_rss)).next(
            CompileEvent::RuntimeConstructed(constructed),
        ) == (PrepareJob::Finished {
            result: prepare_result(kind, prevalidated, compiled, max_rss, constructed),
        }),
{
}

/// A blob that fails prevalidation ends the job at once with that error:
/// nothing is compiled.
pub proof fn lemma_prevalidation_failure(kind: PrepareJobKind, message: String)
    ensures
        PrepareJob::initial(kind).next(CompileEvent::Prevalidated(Err(message)))
            == (PrepareJob::Finished { result: Err(PrepareError::Prevalidation(message)) }),
{
}

/// A prechecking whose artifact compiles but from which no runtime can be
/// built fails with that error, whatever the artifact is.
pub proof fn lemma_prechecking_gate(
    artifact: CompiledArtifact,
    max_rss: Option<i64>,
    message: String,
)
    ensures
        prepare_result(
            PrepareJobKind::Prechecking,
            Ok(()),
            Ok(artifact),
            max_rss,
            Err(message),
        ) == Err::<PrepareOutput, PrepareError>(PrepareError::RuntimeConstruction(message)),
        prepare_result(
            PrepareJobKind::Compilation,
            Ok(()),
            Ok(artifact),
            max_rss,
            Err(message),
        ) == Ok::<PrepareOutput, PrepareError>(PrepareOutput { artifact, max_rss }),
{
}

} // verus!
