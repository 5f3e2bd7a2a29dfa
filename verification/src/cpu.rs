//! CPU time as the kernel accounts it: readings of cumulative usage, the
//! whole seconds of a reading, and the seconds between two readings.

use vstd::prelude::*;
use crate::model::UsageError;
use crate::sys::{children_usage, errno_text, RawUsage};

verus! {

/// Microseconds in one second.
pub const MICROS_PER_SEC: i64 = 1_000_000;

/// One reading of cumulative CPU usage: time spent in user mode and in
/// kernel mode, each as whole seconds and microseconds below one second.
#[derive(Clone, Copy, Debug, PartialEq, Eq)]
pub struct CpuUsage {
    user_secs: i64,
    user_micros: i64,
    system_secs: i64,
    system_micros: i64,
}

/// Whether four figures make a reading: no time is negative and each
/// microsecond part stays below one second.
pub open spec fn is_reading(
    user_secs: int,
    user_micros: int,
    system_secs: int,
    system_micros: int,
) -> bool {
    &&& 0 <= user_secs
    &&& 0 <= user_micros < 1_000_000
    &&& 0 <= system_secs
    &&& 0 <= system_micros < 1_000_000
}

impl CpuUsage {
    #[verifier::type_invariant]
    spec fn well_formed(self) -> bool {
        is_reading(
            self.user_secs as int,
            self.user_micros as int,
            self.system_secs as int,
            self.system_micros as int,
        )
    }

    /// Whole seconds spent in user mode.
    pub closed spec fn user_secs(self) -> int {
        self.user_secs as int
    }

    /// Microseconds in user mode beyond the whole seconds.
    pub closed spec fn user_micros(self) -> int {
        self.user_micros as int
    }

    /// Whole seconds spent in kernel mode.
    pub closed spec fn system_secs(self) -> int {
        self.system_secs as int
    }

    /// Microseconds in kernel mode beyond the whole seconds.
    pub closed spec fn system_micros(self) -> int {
        self.system_micros as int
    }

    /// The whole seconds of CPU time in this reading: the seconds of both
    /// modes, and one more where their microseconds add up to a second.
    pub open spec fn total_seconds(self) -> int {
        self.user_secs() + self.system_secs() + (self.user_micros() + self.system_micros())
            / 1_000_000
    }

    /// Makes a reading of four figures, if they are one.
    pub fn new(user_secs: i64, user_micros: i64, system_secs: i64, system_micros: i64) -> (usage:
        Option<CpuUsage>)
        ensures
            usage is Some <==> is_reading(
                user_secs as int,
                user_micros as int,
                system_secs as int,
                system_micros as int,
            ),
            usage matches Some(u) ==> u.user_secs() == user_secs && u.user_micros() == user_micros
                && u.system_secs() == system_secs && u.system_micros() == system_micros,
    {
        if 0 <= user_secs && 0 <= user_micros && user_micros < MICROS_PER_SEC && 0 <= system_secs
            && 0 <= system_micros && system_micros < MICROS_PER_SEC {
            Some(CpuUsage { user_secs, user_micros, system_secs, system_micros })
        } else {
            None
        }
    }
}

/// The whole seconds of CPU time in a reading.
pub fn get_total_cpu_usage(rusage: &CpuUsage) -> (total: u64)
    ensures
        total == rusage.total_seconds(),
{
    proof {
        use_type_invariant(rusage);
    }
    let secs: u64 = rusage.user_secs as u64 + rusage.system_secs as u64;
    let carry: u64 = ((rusage.user_micros + rusage.system_micros) / MICROS_PER_SEC) as u64;
    secs + carry
}

/// The whole seconds of CPU time between two readings of a cumulative
/// figure, of which `before` is the earlier.
pub fn cpu_time_elapsed(before: &CpuUsage, after: &CpuUsage) -> (elapsed: u64)
    requires
        before.total_seconds() <= after.total_seconds(),
    ensures
        elapsed == after.total_seconds() - before.total_seconds(),
{
    get_total_cpu_usage(after) - get_total_cpu_usage(before)
}

/// The whole seconds of CPU time between two readings, or the reason why
/// the two do not follow one another.
pub fn checked_cpu_time_elapsed(before: &CpuUsage, after: &CpuUsage) -> (elapsed: Result<
    u64,
    UsageError,
>)
    ensures
        match elapsed {
            Ok(secs) => before.total_seconds() <= after.total_seconds() && secs
                == after.total_seconds() - before.total_seconds(),
            Err(error) => after.total_seconds() < before.total_seconds() && error
                == UsageError::Receded,
        },
{
    if get_total_cpu_usage(before) <= get_total_cpu_usage(after) {
        Ok(cpu_time_elapsed(before, after))
    } else {
        Err(UsageError::Receded)
    }
}

/// Checks the figures that the system call delivered and makes a reading of
/// them.
pub fn reading_of(raw: RawUsage) -> (reading: Result<CpuUsage, UsageError>)
    ensures
        match reading {
            Ok(usage) => is_reading(
                raw.user_secs as int,
                raw.user_micros as int,
                raw.system_secs as int,
                raw.system_micros as int,
            ) && usage.user_secs() == raw.user_secs && usage.user_micros() == raw.user_micros
                && usage.system_secs() == raw.system_secs && usage.system_micros()
                == raw.system_micros,
            Err(error) => !is_reading(
                raw.user_secs as int,
                raw.user_micros as int,
                raw.system_secs as int,
                raw.system_micros as int,
            ) && error == UsageError::Malformed,
        },
{
    match CpuUsage::new(raw.user_secs, raw.user_micros, raw.system_secs, raw.system_micros) {
        Some(usage) => Ok(usage),
        None => Err(UsageError::Malformed),
    }
}

/// Reads the cumulative CPU usage of the children of this process that have
/// ended and been waited for. What comes back is the kernel's: a reading,
/// or the reason why there is none.
pub fn measure_children() -> (reading: Result<CpuUsage, UsageError>)
    ensures
        reading matches Err(error) ==> error is Unavailable || error is Malformed,
{
    match children_usage() {
        Ok(raw) => reading_of(raw),
        Err(errno) => Err(UsageError::Unavailable(errno_text(errno))),
    }
}

} // verus!
