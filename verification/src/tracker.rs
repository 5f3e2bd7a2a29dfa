//! The memory tracker: a thread of the child that looks at the allocator's
//! figures again and again while the compilation runs, and keeps the
//! highest of each.
//!
//! The tracker is a state machine. Whoever drives it performs the task that
//! is pending, reports what came of it as an event, and goes on until the
//! task is to return.

use vstd::prelude::*;
use crate::model::MemoryAllocationStats;

verus! {

/// What the tracker is to do next.
#[derive(Clone, Copy, Debug, PartialEq, Eq)]
pub enum TrackerTask {
    /// Read the allocator's figures.
    Snapshot,
    /// Sleep for one polling interval, or until the compilation is
    /// signalled to be over.
    Wait,
    /// Hand the result to the child.
    Return,
}

/// What came of a task. An error carries its description.
#[derive(Debug, PartialEq, Eq)]
pub enum TrackerEvent {
    /// The figures were read, or could not be.
    Sampled(Result<MemoryAllocationStats, String>),
    /// The wait ended: `true` where the compilation is over, `false` where
    /// only the interval passed.
    Waited(Result<bool, String>),
}

/// The state of the tracker between two tasks.
#[derive(Debug, PartialEq, Eq)]
pub enum Tracker {
    /// Figures are to be read; `last` says that the compilation is over and
    /// this reading closes the series.
    Sampling { peak: MemoryAllocationStats, last: bool },
    /// The series goes on after a pause.
    Waiting { peak: MemoryAllocationStats },
    /// The series is closed, or broke off with an error.
    Finished { result: Result<MemoryAllocationStats, String> },
}

/// The higher of two figures, for each figure.
pub open spec fn higher(peak: MemoryAllocationStats, sample: MemoryAllocationStats)
    -> MemoryAllocationStats {
    MemoryAllocationStats {
        resident: if sample.resident > peak.resident {
            sample.resident
        } else {
            peak.resident
        },
        allocated: if sample.allocated > peak.allocated {
            sample.allocated
        } else {
            peak.allocated
        },
    }
}

/// The highest of each figure in a series of samples; zero for an empty
/// series.
pub open spec fn peak_of(samples: Seq<MemoryAllocationStats>) -> MemoryAllocationStats
    decreases samples.len(),
{
    if samples.len() == 0 {
        MemoryAllocationStats { resident: 0, allocated: 0 }
    } else {
        higher(peak_of(samples.drop_last()), samples.last())
    }
}

impl TrackerEvent {
    /// Whether this event reports on the given task.
    pub open spec fn answers(self, task: TrackerTask) -> bool {
        match (task, self) {
            (TrackerTask::Snapshot, TrackerEvent::Sampled(_)) => true,
            (TrackerTask::Wait, TrackerEvent::Waited(_)) => true,
            _ => false,
        }
    }
}

impl Tracker {
    /// The state of a tracker that has seen nothing.
    pub open spec fn initial() -> Tracker {
        Tracker::Sampling { peak: MemoryAllocationStats { resident: 0, allocated: 0 }, last: false }
    }

    /// The task that is pending in this state.
    pub open spec fn pending(self) -> TrackerTask {
        match self {
            Tracker::Sampling { .. } => TrackerTask::Snapshot,
            Tracker::Waiting { .. } => TrackerTask::Wait,
            Tracker::Finished { .. } => TrackerTask::Return,
        }
    }

    /// The state after `event`. An event that does not answer the pending
    /// task leaves the state as it is.
    pub open spec fn next(self, event: TrackerEvent) -> Tracker {
        match (self, event) {
            (Tracker::Sampling { peak, last }, TrackerEvent::Sampled(sampled)) => match sampled {
                Err(message) => Tracker::Finished { result: Err(message) },
                Ok(sample) => if last {
                    Tracker::Finished { result: Ok(higher(peak, sample)) }
                } else {
                    Tracker::Waiting { peak: higher(peak, sample) }
                },
            },
            (Tracker::Waiting { peak }, TrackerEvent::Waited(waited)) => match waited {
                Err(message) => Tracker::Finished { result: Err(message) },
                Ok(over) => Tracker::Sampling { peak, last: over },
            },
            _ => self,
        }
    }

    /// The state after a series of events, the first of them first.
    pub open spec fn run(self, events: Seq<TrackerEvent>) -> Tracker
        decreases events.len(),
    {
        if events.len() == 0 {
            self
        } else {
            self.run(events.drop_last()).next(events.last())
        }
    }

    /// Starts a tracker that has seen nothing.
    pub fn start() -> (tracker: Tracker)
        ensures
            tracker == Tracker::initial(),
    {
        Tracker::Sampling { peak: MemoryAllocationStats { resident: 0, allocated: 0 }, last: false }
    }

    /// The task to perform now.
    pub fn task(&self) -> (task: TrackerTask)
        ensures
            task == self.pending(),
    {
        match self {
            Tracker::Sampling { .. } => TrackerTask::Snapshot,
            Tracker::Waiting { .. } => TrackerTask::Wait,
            Tracker::Finished { .. } => TrackerTask::Return,
        }
    }

    /// The result, once the series is closed or broke off.
    pub fn result(self) -> (result: Option<Result<MemoryAllocationStats, String>>)
        ensures
            match result {
                Some(r) => self == (Tracker::Finished { result: r }),
                None => !(self is Finished),
            },
    {
        match self {
            Tracker::Finished { result } => Some(result),
            _ => None,
        }
    }

    /// Takes the report on the pending task and moves on.
    pub fn step(self, event: TrackerEvent) -> (next: Tracker)
        ensures
            next == self.next(event),
    {
        match self {
            Tracker::Sampling { peak, last } => match event {
                TrackerEvent::Sampled(Err(message)) => Tracker::Finished { result: Err(message) },
                TrackerEvent::Sampled(Ok(sample)) => if last {
                    Tracker::Finished { result: Ok(raise(peak, sample)) }
                } else {
                    Tracker::Waiting { peak: raise(peak, sample) }
                },
                _ => Tracker::Sampling { peak, last },
            },
            Tracker::Waiting { peak } => match event {
                TrackerEvent::Waited(Err(message)) => Tracker::Finished { result: Err(message) },
                TrackerEvent::Waited(Ok(over)) => Tracker::Sampling { peak, last: over },
                _ => Tracker::Waiting { peak },
            },
            Tracker::Finished { result } => Tracker::Finished { result },
        }
    }
}

/// Raises each figure of `peak` to that of `sample` where the sample is
/// higher.
pub fn raise(peak: MemoryAllocationStats, sample: MemoryAllocationStats) -> (raised:
    MemoryAllocationStats)
    ensures
        raised == higher(peak, sample),
{
    let mut raised = peak;
    if sample.resident > raised.resident {
        raised.resident = sample.resident;
    }
    if sample.allocated > raised.allocated {
        raised.allocated = sample.allocated;
    }
    raised
}

/// The samples that the tracker took in the course of `events`, starting
/// with nothing seen: the readings that arrived while one was awaited.
pub open spec fn samples_taken(events: Seq<TrackerEvent>) -> Seq<MemoryAllocationStats>
    decreases events.len(),
{
    if events.len() == 0 {
        Seq::empty()
    } else {
        let before = Tracker::initial().run(events.drop_last());
        let earlier = samples_taken(events.drop_last());
        match (before, events.last()) {
            (Tracker::Sampling { .. }, TrackerEvent::Sampled(Ok(sample))) => earlier.push(sample),
            _ => earlier,
        }
    }
}

/// What the tracker holds is the peak of the samples it took: while the
/// series goes on, and in the result of a series that was closed. A series
/// is closed only by a reading that follows the signal that the compilation
/// is over.
pub proof fn lemma_tracker_keeps_peak(events: Seq<TrackerEvent>)
    ensures
        match Tracker::initial().run(events) {
            Tracker::Sampling { peak, .. } => peak == peak_of(samples_taken(events)),
            Tracker::Waiting { peak } => peak == peak_of(samples_taken(events)),
            Tracker::Finished { result: Ok(peak) } => peak == peak_of(samples_taken(events))
                && samples_taken(events).len() > 0,
            Tracker::Finished { result: Err(_) } => true,
        },
    decreases events.len(),
{
    if events.len() > 0 {
        lemma_tracker_keeps_peak(events.drop_last());
        let before = Tracker::initial().run(events.drop_last());
        let earlier = samples_taken(events.drop_last());
        match (before, events.last()) {
            (Tracker::Sampling { .. }, TrackerEvent::Sampled(Ok(sample))) => {
                assert(earlier.push(sample).drop_last() == earlier);
            },
            _ => {},
        }
    }
}

/// The peak of a series is no lower than any of its samples.
pub proof fn lemma_peak_bounds(samples: Seq<MemoryAllocationStats>, i: int)
    requires
        0 <= i < samples.len(),
    ensures
        samples[i].resident <= peak_of(samples).resident,
        samples[i].allocated <= peak_of(samples).allocated,
    decreases samples.len(),
{
    if i < samples.len() - 1 {
        lemma_peak_bounds(samples.drop_last(), i);
    }
}

/// Each figure of the peak of a series that is not empty is that figure of
/// one of its samples.
pub proof fn lemma_peak_is_reached(samples: Seq<MemoryAllocationStats>)
    requires
        samples.len() > 0,
    ensures
        exists|i: int| 0 <= i < samples.len() && samples[i].resident == peak_of(samples).resident,
        exists|i: int|
            0 <= i < samples.len() && samples[i].allocated == peak_of(samples).allocated,
    decreases samples.len(),
{
    let last = samples.len() - 1;
    let earlier = samples.drop_last();
    if earlier.len() == 0 {
        assert(samples[last].resident == peak_of(samples).resident);
        assert(samples[last].allocated == peak_of(samples).allocated);
    } else {
        lemma_peak_is_reached(earlier);
        let r = choose|i: int|
            0 <= i < earlier.len() && earlier[i].resident == peak_of(earlier).resident;
        let a = choose|i: int|
            0 <= i < earlier.len() && earlier[i].allocated == peak_of(earlier).allocated;
        if samples[last].resident > peak_of(earlier).resident {
            assert(samples[last].resident == peak_of(samples).resident);
        } else {
            assert(samples[r].resident == peak_of(samples).resident);
        }
        if samples[last].allocated > peak_of(earlier).allocated {
            assert(samples[last].allocated == peak_of(samples).allocated);
        } else {
            assert(samples[a].allocated == peak_of(samples).allocated);
        }
    }
}

} // verus!
