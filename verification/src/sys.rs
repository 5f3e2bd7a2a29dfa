//! The calls into the operating system that the worker's decisions rest on.
//! Nothing is proved of them: each contract is taken from the library that
//! makes the call.

use vstd::prelude::*;
use crate::parent::ChildExit;

verus! {

/// An error number of the operating system. Opaque here: it is only carried
/// from a failed call to the place that reports it.
#[verifier::external_type_specification]
#[verifier::external_body]
pub struct ExErrno(nix::errno::Errno);

/// Times of a resource-usage reading as the system call delivers them:
/// seconds and microseconds spent in user mode and in kernel mode.
#[derive(Clone, Copy, Debug, PartialEq, Eq)]
pub struct RawUsage {
    /// Whole seconds in user mode.
    pub user_secs: i64,
    /// Microseconds in user mode beyond the whole seconds.
    pub user_micros: i64,
    /// Whole seconds in kernel mode.
    pub system_secs: i64,
    /// Microseconds in kernel mode beyond the whole seconds.
    pub system_micros: i64,
}

/// Calls `nix::sys::resource::setrlimit` for `RLIMIT_CPU` with the given
/// soft and hard limit in seconds. Whether the kernel accepts the limits
/// depends on the process, so nothing is claimed of the result.
#[verifier::external_body]
pub(crate) fn set_cpu_limit(soft_secs: u64, hard_secs: u64) -> Result<(), nix::errno::Errno> {
    nix::sys::resource::setrlimit(nix::sys::resource::Resource::RLIMIT_CPU, soft_secs, hard_secs)
}

/// Calls `nix::sys::resource::getrusage` for `RUSAGE_CHILDREN` and hands out
/// the user and system times of the reading, field by field. The figures are
/// the kernel's, so nothing is claimed of them.
#[verifier::external_body]
pub(crate) fn children_usage() -> Result<RawUsage, nix::errno::Errno> {
    match nix::sys::resource::getrusage(nix::sys::resource::UsageWho::RUSAGE_CHILDREN) {
        Ok(usage) => Ok(RawUsage {
            user_secs: i64::from(usage.user_time().tv_sec()),
            user_micros: i64::from(usage.user_time().tv_usec()),
            system_secs: i64::from(usage.system_time().tv_sec()),
            system_micros: i64::from(usage.system_time().tv_usec()),
        }),
        Err(errno) => Err(errno),
    }
}

/// Calls `to_string` on an error number of `nix`, which writes its name and
/// the system's description of it. Nothing is claimed of the text.
#[verifier::external_body]
pub(crate) fn errno_text(errno: nix::errno::Errno) -> String {
    errno.to_string()
}

/// Calls `nix::sys::wait::wait`, which blocks until a child of this process
/// changes its state, and tells the kinds of its status apart: an exit with
/// its code, a death by signal, anything else. Which child ended, and how, is
/// the system's affair, so nothing is claimed of the result.
#[verifier::external_body]
pub(crate) fn wait_for_child() -> Result<ChildExit, nix::errno::Errno> {
    match nix::sys::wait::wait() {
        Ok(nix::sys::wait::WaitStatus::Exited(_, code)) => Ok(ChildExit::Exited(code)),
        Ok(nix::sys::wait::WaitStatus::Signaled(..)) => Ok(ChildExit::Signaled),
        Ok(_) => Ok(ChildExit::Unknown),
        Err(errno) => Err(errno),
    }
}

} // verus!
