//! The values that travel between the host, the worker and the sandboxed
//! child: the kind of a job, its statistics and the ways it can fail.

use vstd::prelude::*;
use crate::artifact::CompiledArtifact;

verus! {

/// What the host asks for.
#[derive(Clone, Copy, Debug, PartialEq, Eq)]
pub enum PrepareJobKind {
    /// Compile the code to an artifact.
    Compilation,
    /// Compile the code and also require that a runtime can be built from
    /// the artifact.
    Prechecking,
}

/// Figures of the allocator, as the memory tracker keeps them.
#[derive(Clone, Copy, Debug, PartialEq, Eq)]
pub struct MemoryAllocationStats {
    /// Bytes resident in physical memory.
    pub resident: u64,
    /// Bytes handed out by the allocator.
    pub allocated: u64,
}

/// Memory figures of one compilation. A figure that the platform cannot
/// supply is absent, which is a value like any other.
#[derive(Clone, Copy, Debug, PartialEq, Eq)]
pub struct MemoryStats {
    /// What the memory tracker saw, if it ran and delivered.
    pub memory_tracker_stats: Option<MemoryAllocationStats>,
    /// Peak resident set size of the compiling thread, if it could be read.
    pub max_rss: Option<i64>,
}

/// What the host learns of a successful preparation.
#[derive(Clone, Copy, Debug, PartialEq, Eq)]
pub struct PrepareStats {
    /// CPU time that the child consumed, in whole seconds.
    pub cpu_time_elapsed: u64,
    /// Memory figures of the compilation.
    pub memory_stats: MemoryStats,
}

/// Why no usable reading of the children's resource usage was obtained.
#[derive(Clone, Debug, PartialEq, Eq)]
pub enum UsageError {
    /// The system call failed; the text is the system's description.
    Unavailable(String),
    /// The system reported negative times or a microsecond part that is not
    /// below one second.
    Malformed,
    /// The cumulative figure after the child was reaped lies below the one
    /// taken before the fork.
    Receded,
}

/// The unexpected events that end a request without a verdict on the code.
#[derive(Clone, Debug, PartialEq, Eq)]
pub enum PanicReason {
    /// The bytes of a request are no request.
    Request(String),
    /// No pipe to the child could be created.
    Pipe(String),
    /// No child process could be forked.
    Fork,
    /// Reading the pipe failed.
    PipeRead(String),
    /// The child's CPU time could not be measured.
    Usage(UsageError),
    /// The child left cleanly but its bytes are no response.
    Decode(String),
    /// The artifact could not be written to its file.
    ArtifactWrite(String),
    /// The child ended otherwise than by a clean exit, within its CPU budget.
    UnknownChildStatus,
    /// A message that arrived from the other side as it is.
    Reported(String),
}

/// The ways a preparation fails.
#[derive(Clone, Debug, PartialEq, Eq)]
pub enum PrepareError {
    /// The blob was rejected before compilation.
    Prevalidation(String),
    /// The compiler reported an error.
    Preparation(String),
    /// The artifact compiled, but no runtime could be built from it.
    RuntimeConstruction(String),
    /// The child used at least as much CPU time as the job was given.
    TimedOut,
    /// Something unexpected happened around the job.
    Panic(PanicReason),
}

/// What the child reports of a successful compilation.
#[derive(Clone, Debug, PartialEq, Eq)]
pub struct Response {
    /// The compiled code.
    pub artifact: CompiledArtifact,
    /// Memory figures of the compilation.
    pub memory_stats: MemoryStats,
}

/// Status with which a process reports success.
pub const EXIT_SUCCESS: i32 = 0;

/// Status with which a process reports failure.
pub const EXIT_FAILURE: i32 = 1;

impl UsageError {
    /// The text that stands for this error in a message.
    pub open spec fn text(self) -> Seq<char> {
        match self {
            UsageError::Unavailable(s) => s@,
            UsageError::Malformed => "malformed resource usage"@,
            UsageError::Receded => "resource usage of children went backwards"@,
        }
    }

    /// The text that stands for this error in a message.
    pub fn message(&self) -> (m: String)
        ensures
            m@ == self.text(),
    {
        match self {
            UsageError::Unavailable(s) => s.clone(),
            UsageError::Malformed => "malformed resource usage".to_owned(),
            UsageError::Receded => "resource usage of children went backwards".to_owned(),
        }
    }
}

impl PanicReason {
    /// The message that the host receives for this reason.
    pub open spec fn text(self) -> Seq<char> {
        match self {
            PanicReason::Request(s) => s@,
            PanicReason::Pipe(s) => s@,
            PanicReason::Fork => "error forking"@,
            PanicReason::PipeRead(s) => s@,
            PanicReason::Usage(e) => e.text(),
            PanicReason::Decode(s) => s@,
            PanicReason::ArtifactWrite(s) => s@,
            PanicReason::UnknownChildStatus => "child finished with unknown status"@,
            PanicReason::Reported(s) => s@,
        }
    }

    /// The message that the host receives for this reason.
    pub fn message(&self) -> (m: String)
        ensures
            m@ == self.text(),
    {
        match self {
            PanicReason::Request(s) => s.clone(),
            PanicReason::Pipe(s) => s.clone(),
            PanicReason::Fork => "error forking".to_owned(),
            PanicReason::PipeRead(s) => s.clone(),
            PanicReason::Usage(e) => e.message(),
            PanicReason::Decode(s) => s.clone(),
            PanicReason::ArtifactWrite(s) => s.clone(),
            PanicReason::UnknownChildStatus => "child finished with unknown status".to_owned(),
            PanicReason::Reported(s) => s.clone(),
        }
    }
}

} // verus!
