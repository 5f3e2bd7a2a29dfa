use pvf_prepare_worker::compile::{CompileEvent, CompileTask, PrepareJob, PrepareOutput};
use pvf_prepare_worker::model::{PrepareError, PrepareJobKind};
use pvf_prepare_worker::CompiledArtifact;

fn artifact() -> CompiledArtifact {
    CompiledArtifact::new(vec![0x7f, b'E', b'L', b'F'])
}

#[test]
fn job_begins_with_prevalidation() {
    assert_eq!(PrepareJob::start(PrepareJobKind::Compilation).task(), CompileTask::Prevalidate);
    assert_eq!(PrepareJob::start(PrepareJobKind::Prechecking).task(), CompileTask::Prevalidate);
}

#[test]
fn compilation_goes_through_three_stages() {
    let job = PrepareJob::start(PrepareJobKind::Compilation);
    let job = job.step(CompileEvent::Prevalidated(Ok(())));
    assert_eq!(job.task(), CompileTask::Compile);
    let job = job.step(CompileEvent::Compiled(Ok(artifact())));
    assert_eq!(job.task(), CompileTask::MeasurePeakRss);
    let job = job.step(CompileEvent::PeakRssMeasured(Some(4096)));
    assert_eq!(job.task(), CompileTask::Return);
    assert_eq!(job.artifact(), None);
    assert_eq!(job.result(), Some(Ok(PrepareOutput { artifact: artifact(), max_rss: Some(4096) })));
}

#[test]
fn prechecking_also_builds_a_runtime() {
    let job = PrepareJob::start(PrepareJobKind::Prechecking)
        .step(CompileEvent::Prevalidated(Ok(())))
        .step(CompileEvent::Compiled(Ok(artifact())))
        .step(CompileEvent::PeakRssMeasured(None));
    assert_eq!(job.task(), CompileTask::ConstructRuntime);
    assert_eq!(job.artifact(), Some(&artifact()));
    let job = job.step(CompileEvent::RuntimeConstructed(Ok(())));
    assert_eq!(job.task(), CompileTask::Return);
    assert_eq!(job.result(), Some(Ok(PrepareOutput { artifact: artifact(), max_rss: None })));
}

#[test]
fn rejected_blob_is_a_prevalidation_error() {
    let job = PrepareJob::start(PrepareJobKind::Compilation)
        .step(CompileEvent::Prevalidated(Err("truncated header".to_string())));
    assert_eq!(job.task(), CompileTask::Return);
    assert_eq!(job.result(), Some(Err(PrepareError::Prevalidation("truncated header".to_string()))));
}

#[test]
fn rejected_blob_is_never_compiled() {
    let job = PrepareJob::start(PrepareJobKind::Prechecking)
        .step(CompileEvent::Prevalidated(Err("no magic".to_string())))
        .step(CompileEvent::Compiled(Ok(artifact())))
        .step(CompileEvent::PeakRssMeasured(Some(1)))
        .step(CompileEvent::RuntimeConstructed(Ok(())));
    assert_eq!(job.result(), Some(Err(PrepareError::Prevalidation("no magic".to_string()))));
}

#[test]
fn compiler_error_is_a_preparation_error() {
    let job = PrepareJob::start(PrepareJobKind::Compilation)
        .step(CompileEvent::Prevalidated(Ok(())))
        .step(CompileEvent::Compiled(Err("invalid body".to_string())));
    assert_eq!(job.result(), Some(Err(PrepareError::Preparation("invalid body".to_string()))));
}

#[test]
fn runtime_that_cannot_be_built_fails_a_prechecking() {
    let job = PrepareJob::start(PrepareJobKind::Prechecking)
        .step(CompileEvent::Prevalidated(Ok(())))
        .step(CompileEvent::Compiled(Ok(artifact())))
        .step(CompileEvent::PeakRssMeasured(Some(10)))
        .step(CompileEvent::RuntimeConstructed(Err("cannot instantiate".to_string())));
    assert_eq!(
        job.result(),
        Some(Err(PrepareError::RuntimeConstruction("cannot instantiate".to_string())))
    );
}

#[test]
fn compilation_asks_for_no_runtime() {
    let job = PrepareJob::start(PrepareJobKind::Compilation)
        .step(CompileEvent::Prevalidated(Ok(())))
        .step(CompileEvent::Compiled(Ok(artifact())))
        .step(CompileEvent::PeakRssMeasured(Some(10)))
        .step(CompileEvent::RuntimeConstructed(Err("cannot instantiate".to_string())));
    assert_eq!(job.result(), Some(Ok(PrepareOutput { artifact: artifact(), max_rss: Some(10) })));
}

#[test]
fn job_ignores_reports_it_did_not_ask_for() {
    let job = PrepareJob::start(PrepareJobKind::Compilation)
        .step(CompileEvent::Compiled(Ok(artifact())))
        .step(CompileEvent::RuntimeConstructed(Ok(())))
        .step(CompileEvent::PeakRssMeasured(Some(3)));
    assert_eq!(job, PrepareJob::start(PrepareJobKind::Compilation));
    assert_eq!(job.result(), None);
}
