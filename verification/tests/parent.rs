use pvf_prepare_worker::cpu::CpuUsage;
use pvf_prepare_worker::model::{
    MemoryAllocationStats, MemoryStats, PanicReason, PrepareError, PrepareStats, Response,
    UsageError, EXIT_FAILURE, EXIT_SUCCESS,
};
use pvf_prepare_worker::parent::{
    judge_exit, measure, reap, reaped, ChildExit, Supervisor, SupervisorEvent, SupervisorTask,
};
use pvf_prepare_worker::CompiledArtifact;

fn secs(total: i64) -> CpuUsage {
    CpuUsage::new(total, 0, 0, 0).unwrap()
}

fn stats() -> MemoryStats {
    MemoryStats {
        memory_tracker_stats: Some(MemoryAllocationStats { resident: 7, allocated: 9 }),
        max_rss: Some(1234),
    }
}

fn response() -> Response {
    Response { artifact: CompiledArtifact::new(vec![0xde, 0xad]), memory_stats: stats() }
}

/// A supervisor whose child left `bytes` in the pipe and ended with `exit`,
/// with the given seconds of CPU usage before and after.
fn measured(before: i64, after: i64, timeout: u64, exit: ChildExit) -> Supervisor {
    Supervisor::start(secs(before), timeout)
        .step(SupervisorEvent::WriterDropped)
        .step(SupervisorEvent::PipeRead(Ok(vec![1, 2, 3])))
        .step(SupervisorEvent::Reaped(exit))
        .step(SupervisorEvent::Measured(Ok(secs(after))))
}

#[test]
fn supervisor_drops_the_writer_before_it_reads() {
    let supervisor = Supervisor::start(secs(0), 10);
    assert_eq!(supervisor.task(), SupervisorTask::DropWriter);
    let supervisor = supervisor.step(SupervisorEvent::PipeRead(Ok(vec![1])));
    assert_eq!(supervisor.task(), SupervisorTask::DropWriter);
    let supervisor = supervisor.step(SupervisorEvent::WriterDropped);
    assert_eq!(supervisor.task(), SupervisorTask::ReadPipe);
}

#[test]
fn supervisor_reaps_after_reading_and_before_measuring() {
    let supervisor = Supervisor::start(secs(0), 10)
        .step(SupervisorEvent::WriterDropped)
        .step(SupervisorEvent::PipeRead(Ok(vec![1])));
    assert_eq!(supervisor.task(), SupervisorTask::Reap);
    let supervisor = supervisor.step(SupervisorEvent::Reaped(ChildExit::Exited(0)));
    assert_eq!(supervisor.task(), SupervisorTask::Measure);
}

#[test]
fn supervisor_reaps_even_when_the_read_failed() {
    let supervisor = Supervisor::start(secs(0), 10)
        .step(SupervisorEvent::WriterDropped)
        .step(SupervisorEvent::PipeRead(Err("broken pipe".to_string())));
    assert_eq!(supervisor.task(), SupervisorTask::Reap);
    assert_eq!(supervisor.verdict(), None);
}

#[test]
fn failed_read_is_a_panic() {
    let supervisor = Supervisor::start(secs(0), 10)
        .step(SupervisorEvent::WriterDropped)
        .step(SupervisorEvent::PipeRead(Err("broken pipe".to_string())))
        .step(SupervisorEvent::Reaped(ChildExit::Exited(EXIT_SUCCESS)));
    assert_eq!(supervisor.task(), SupervisorTask::Return);
    assert_eq!(
        supervisor.verdict(),
        Some(Err(PrepareError::Panic(PanicReason::PipeRead("broken pipe".to_string()))))
    );
}

#[test]
fn failed_measurement_is_a_panic() {
    let supervisor = Supervisor::start(secs(0), 10)
        .step(SupervisorEvent::WriterDropped)
        .step(SupervisorEvent::PipeRead(Ok(vec![1])))
        .step(SupervisorEvent::Reaped(ChildExit::Exited(EXIT_SUCCESS)))
        .step(SupervisorEvent::Measured(Err(UsageError::Unavailable("EFAULT".to_string()))));
    assert_eq!(
        supervisor.verdict(),
        Some(Err(PrepareError::Panic(PanicReason::Usage(UsageError::Unavailable(
            "EFAULT".to_string()
        )))))
    );
}

#[test]
fn usage_that_went_backwards_is_a_panic() {
    let supervisor = measured(5, 4, 10, ChildExit::Exited(EXIT_SUCCESS));
    assert_eq!(
        supervisor.verdict(),
        Some(Err(PrepareError::Panic(PanicReason::Usage(UsageError::Receded))))
    );
}

#[test]
fn clean_exit_leads_to_decoding() {
    let supervisor = measured(2, 5, 10, ChildExit::Exited(EXIT_SUCCESS));
    assert_eq!(supervisor.task(), SupervisorTask::Decode);
    assert_eq!(supervisor.received(), Some(&vec![1, 2, 3]));
    assert_eq!(supervisor, Supervisor::Decoding { received: vec![1, 2, 3], cpu_time: 3 });
}

#[test]
fn clean_exit_is_decoded_even_beyond_the_timeout() {
    let supervisor = measured(0, 60, 10, ChildExit::Exited(EXIT_SUCCESS));
    assert_eq!(supervisor.task(), SupervisorTask::Decode);
}

#[test]
fn unclean_exit_beyond_the_timeout_timed_out() {
    for exit in [ChildExit::Signaled, ChildExit::Unknown, ChildExit::Exited(EXIT_FAILURE)] {
        let supervisor = measured(3, 14, 10, exit);
        assert_eq!(supervisor.received(), None);
        assert_eq!(supervisor.verdict(), Some(Err(PrepareError::TimedOut)));
    }
}

#[test]
fn unclean_exit_at_exactly_the_timeout_timed_out() {
    let supervisor = measured(3, 13, 10, ChildExit::Signaled);
    assert_eq!(supervisor.verdict(), Some(Err(PrepareError::TimedOut)));
}

#[test]
fn unclean_exit_within_the_timeout_is_unknown() {
    for exit in [ChildExit::Signaled, ChildExit::Unknown, ChildExit::Exited(EXIT_FAILURE), ChildExit::Exited(-1)] {
        let supervisor = measured(3, 12, 10, exit);
        assert_eq!(
            supervisor.verdict(),
            Some(Err(PrepareError::Panic(PanicReason::UnknownChildStatus)))
        );
    }
}

#[test]
fn unclean_exit_with_no_timeout_at_all_timed_out() {
    let supervisor = measured(0, 0, 0, ChildExit::Signaled);
    assert_eq!(supervisor.verdict(), Some(Err(PrepareError::TimedOut)));
}

#[test]
fn judge_exit_tells_the_three_endings_apart() {
    assert_eq!(
        judge_exit(secs(1), 5, vec![9], ChildExit::Exited(0), secs(3)),
        Supervisor::Decoding { received: vec![9], cpu_time: 2 }
    );
    assert_eq!(
        judge_exit(secs(1), 5, vec![9], ChildExit::Signaled, secs(6)),
        Supervisor::Finished { verdict: Err(PrepareError::TimedOut) }
    );
    assert_eq!(
        judge_exit(secs(1), 5, vec![9], ChildExit::Signaled, secs(5)),
        Supervisor::Finished { verdict: Err(PrepareError::Panic(PanicReason::UnknownChildStatus)) }
    );
}

#[test]
fn bytes_that_are_no_response_are_a_panic() {
    let supervisor = measured(0, 1, 10, ChildExit::Exited(EXIT_SUCCESS))
        .step(SupervisorEvent::Decoded(Err("unexpected end of input".to_string())));
    assert_eq!(
        supervisor.verdict(),
        Some(Err(PrepareError::Panic(PanicReason::Decode("unexpected end of input".to_string()))))
    );
}

#[test]
fn reported_errors_are_passed_on() {
    for error in [
        PrepareError::Prevalidation("a".to_string()),
        PrepareError::Preparation("b".to_string()),
        PrepareError::RuntimeConstruction("c".to_string()),
        PrepareError::TimedOut,
        PrepareError::Panic(PanicReason::Reported("d".to_string())),
    ] {
        let supervisor = measured(0, 1, 10, ChildExit::Exited(EXIT_SUCCESS))
            .step(SupervisorEvent::Decoded(Ok(Err(error.clone()))));
        assert_eq!(supervisor.artifact(), None);
        assert_eq!(supervisor.verdict(), Some(Err(error)));
    }
}

#[test]
fn delivered_artifact_is_the_one_to_write() {
    let supervisor = measured(2, 6, 10, ChildExit::Exited(EXIT_SUCCESS))
        .step(SupervisorEvent::Decoded(Ok(Ok(response()))));
    assert_eq!(supervisor.task(), SupervisorTask::Persist);
    assert_eq!(supervisor.artifact().map(|a| a.as_ref().to_vec()), Some(vec![0xde, 0xad]));
}

#[test]
fn written_artifact_is_success_with_statistics() {
    let supervisor = measured(2, 6, 10, ChildExit::Exited(EXIT_SUCCESS))
        .step(SupervisorEvent::Decoded(Ok(Ok(response()))))
        .step(SupervisorEvent::Persisted(Ok(())));
    assert_eq!(
        supervisor.verdict(),
        Some(Ok(PrepareStats { cpu_time_elapsed: 4, memory_stats: stats() }))
    );
}

#[test]
fn artifact_that_cannot_be_written_is_a_panic() {
    let supervisor = measured(2, 6, 10, ChildExit::Exited(EXIT_SUCCESS))
        .step(SupervisorEvent::Decoded(Ok(Ok(response()))))
        .step(SupervisorEvent::Persisted(Err("read-only file system".to_string())));
    assert_eq!(
        supervisor.verdict(),
        Some(Err(PrepareError::Panic(PanicReason::ArtifactWrite(
            "read-only file system".to_string()
        ))))
    );
}

#[test]
fn verdict_is_final() {
    let supervisor = measured(3, 14, 10, ChildExit::Signaled)
        .step(SupervisorEvent::Decoded(Ok(Ok(response()))))
        .step(SupervisorEvent::Persisted(Ok(())))
        .step(SupervisorEvent::Reaped(ChildExit::Exited(0)));
    assert_eq!(supervisor.task(), SupervisorTask::Return);
    assert_eq!(supervisor.verdict(), Some(Err(PrepareError::TimedOut)));
}

#[test]
fn supervisor_ignores_reports_it_did_not_ask_for() {
    let supervisor = Supervisor::start(secs(0), 10)
        .step(SupervisorEvent::WriterDropped)
        .step(SupervisorEvent::Reaped(ChildExit::Exited(0)))
        .step(SupervisorEvent::Persisted(Ok(())))
        .step(SupervisorEvent::Decoded(Ok(Ok(response()))));
    assert_eq!(supervisor.task(), SupervisorTask::ReadPipe);
}

#[test]
fn reaping_without_a_child_tells_nothing() {
    assert_eq!(reap(), SupervisorEvent::Reaped(ChildExit::Unknown));
}

#[test]
fn measuring_reports_to_the_supervisor() {
    let supervisor = Supervisor::start(secs(0), 10)
        .step(SupervisorEvent::WriterDropped)
        .step(SupervisorEvent::PipeRead(Ok(vec![1])))
        .step(SupervisorEvent::Reaped(ChildExit::Exited(EXIT_SUCCESS)));
    let event = measure();
    assert!(matches!(event, SupervisorEvent::Measured(Ok(_))));
    assert_eq!(supervisor.step(event).task(), SupervisorTask::Decode);
}

#[test]
fn wait_that_succeeded_reports_the_ending() {
    assert_eq!(reaped(Ok(ChildExit::Exited(0))), SupervisorEvent::Reaped(ChildExit::Exited(0)));
    assert_eq!(reaped(Ok(ChildExit::Exited(3))), SupervisorEvent::Reaped(ChildExit::Exited(3)));
    assert_eq!(reaped(Ok(ChildExit::Signaled)), SupervisorEvent::Reaped(ChildExit::Signaled));
    assert_eq!(reaped(Ok(ChildExit::Unknown)), SupervisorEvent::Reaped(ChildExit::Unknown));
}

#[test]
fn wait_that_failed_reports_an_unknown_ending() {
    for errno in [nix::errno::Errno::ECHILD, nix::errno::Errno::EINTR] {
        assert_eq!(reaped(Err(errno)), SupervisorEvent::Reaped(ChildExit::Unknown));
    }
}
