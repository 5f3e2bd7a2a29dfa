use pvf_prepare_worker::child::{Child, ChildEvent, ChildTask, WaitOutcome};
use pvf_prepare_worker::compile::{CompileEvent, CompileTask, PrepareJob, PrepareOutput};
use pvf_prepare_worker::cpu::CpuUsage;
use pvf_prepare_worker::model::{
    MemoryAllocationStats, PanicReason, PrepareError, PrepareJobKind, PrepareStats, Response,
    EXIT_SUCCESS,
};
use pvf_prepare_worker::parent::{ChildExit, Supervisor, SupervisorEvent, SupervisorTask};
use pvf_prepare_worker::worker::{ForkOutcome, Request, Worker, WorkerEvent, WorkerTask};

/// What a compiler makes of a blob.
struct Compiler {
    prevalidated: Result<(), String>,
    compiled: Result<Vec<u8>, String>,
    constructed: Result<(), String>,
}

/// How a child process ends without the help of its own code.
enum Fate {
    /// It runs to its end.
    Runs,
    /// The kernel kills it once it has used `cpu` seconds.
    Killed,
}

/// What the parent can see of a child.
struct Seen {
    pipe: Option<Result<Response, PrepareError>>,
    exit: ChildExit,
}

/// What one request left behind.
struct Served {
    response: Result<PrepareStats, PrepareError>,
    file: Option<Vec<u8>>,
}

fn compile(kind: PrepareJobKind, compiler: &Compiler) -> Result<PrepareOutput, PrepareError> {
    let mut job = PrepareJob::start(kind);
    loop {
        let event = match job.task() {
            CompileTask::Prevalidate => CompileEvent::Prevalidated(compiler.prevalidated.clone()),
            CompileTask::Compile => CompileEvent::Compiled(
                compiler.compiled.clone().map(pvf_prepare_worker::CompiledArtifact::new),
            ),
            CompileTask::MeasurePeakRss => CompileEvent::PeakRssMeasured(Some(512)),
            CompileTask::ConstructRuntime => {
                assert_eq!(job.artifact().map(|a| a.as_ref().to_vec()), compiler.compiled.clone().ok());
                CompileEvent::RuntimeConstructed(compiler.constructed.clone())
            },
            CompileTask::Return => return job.result().unwrap(),
        };
        job = job.step(event);
    }
}

fn run_child(mut child: Child, kind: PrepareJobKind, compiler: &Compiler, fate: Fate) -> Seen {
    let mut pipe = None;
    loop {
        let event = match child.task() {
            ChildTask::InstallCpuLimit { .. } => ChildEvent::LimitInstalled(true),
            ChildTask::SpawnThreads { .. } => ChildEvent::ThreadsSpawned(true),
            ChildTask::WaitForThreads => {
                if let Fate::Killed = fate {
                    return Seen { pipe: None, exit: ChildExit::Signaled };
                }
                ChildEvent::Waited(WaitOutcome::Finished)
            },
            ChildTask::JoinPrepare => ChildEvent::Joined(Some(compile(kind, compiler))),
            ChildTask::CollectTrackerStats => ChildEvent::TrackerStats(Some(MemoryAllocationStats {
                resident: 1000,
                allocated: 800,
            })),
            ChildTask::WriteResponse => {
                assert!(pipe.is_none(), "one response only");
                pipe = Some(child.response().unwrap().clone());
                ChildEvent::ResponseWritten(true)
            },
            ChildTask::Exit { code } => return Seen { pipe, exit: ChildExit::Exited(code) },
        };
        child = child.step(event);
    }
}

fn supervise(mut supervisor: Supervisor, seen: Seen, after: CpuUsage) -> Served {
    let mut seen = Some(seen);
    let mut pipe = None;
    let mut exit = None;
    let mut file = None;
    let mut reaped = false;
    loop {
        let event = match supervisor.task() {
            SupervisorTask::DropWriter => SupervisorEvent::WriterDropped,
            SupervisorTask::ReadPipe => {
                let seen = seen.take().unwrap();
                pipe = seen.pipe;
                exit = Some(seen.exit);
                SupervisorEvent::PipeRead(Ok(vec![pipe.is_some() as u8]))
            },
            SupervisorTask::Reap => {
                reaped = true;
                SupervisorEvent::Reaped(exit.take().unwrap())
            },
            SupervisorTask::Measure => SupervisorEvent::Measured(Ok(after)),
            SupervisorTask::Decode => match pipe.take() {
                Some(response) => SupervisorEvent::Decoded(Ok(response)),
                None => SupervisorEvent::Decoded(Err("no bytes".to_string())),
            },
            SupervisorTask::Persist => {
                file = supervisor.artifact().map(|a| a.as_ref().to_vec());
                SupervisorEvent::Persisted(Ok(()))
            },
            SupervisorTask::Return => {
                assert!(reaped, "no verdict before the child is reaped");
                return Served { response: supervisor.verdict().unwrap(), file };
            },
        };
        supervisor = supervisor.step(event);
    }
}

/// Serves one request on `worker` and hands back the worker with what the
/// request left behind. `cpu` is the CPU time that the child takes.
fn serve(worker: Worker, request: Request, compiler: &Compiler, fate: Fate, cpu: i64) -> (Worker, Served) {
    assert_eq!(worker.task(), WorkerTask::Receive);
    let before = CpuUsage::new(40, 0, 2, 0).unwrap();
    let after = CpuUsage::new(40 + cpu, 0, 2, 0).unwrap();
    let worker = worker
        .step(WorkerEvent::Received(Ok(request)))
        .step(WorkerEvent::PipeCreated(Ok(())))
        .step(WorkerEvent::Measured(Ok(before)));
    assert_eq!(worker.task(), WorkerTask::Fork);

    // In the child.
    let in_child = worker_after_fork(request, before, ForkOutcome::Child);
    assert_eq!(in_child.task(), WorkerTask::RunChild);
    let seen = run_child(in_child.child(true).unwrap(), request.kind, compiler, fate);

    // In the parent.
    let worker = worker.step(WorkerEvent::Forked(ForkOutcome::Parent));
    assert_eq!(worker.task(), WorkerTask::Supervise);
    let served = supervise(worker.supervisor().unwrap(), seen, after);
    let worker = worker.step(WorkerEvent::Supervised(served.response.clone()));
    assert_eq!(worker.task(), WorkerTask::Send);
    assert_eq!(worker.response(), Some(&served.response));
    let worker = worker.step(WorkerEvent::Sent(Ok(())));
    (worker, served)
}

fn worker_after_fork(request: Request, before: CpuUsage, outcome: ForkOutcome) -> Worker {
    Worker::Forking { request, usage_before: before }.step(WorkerEvent::Forked(outcome))
}

fn valid() -> Compiler {
    Compiler { prevalidated: Ok(()), compiled: Ok(vec![1, 2, 3, 4, 5]), constructed: Ok(()) }
}

fn compilation(timeout_secs: u64) -> Request {
    Request { timeout_secs, kind: PrepareJobKind::Compilation }
}

#[test]
fn valid_code_is_prepared() {
    let (worker, served) = serve(Worker::Idle, compilation(10), &valid(), Fate::Runs, 3);
    let stats = served.response.expect("the code compiles");
    assert!(stats.cpu_time_elapsed < 10);
    assert_eq!(stats.cpu_time_elapsed, 3);
    assert_eq!(stats.memory_stats.max_rss, Some(512));
    assert_eq!(
        stats.memory_stats.memory_tracker_stats,
        Some(MemoryAllocationStats { resident: 1000, allocated: 800 })
    );
    let file = served.file.expect("the artifact is written");
    assert!(!file.is_empty());
    assert_eq!(file, vec![1, 2, 3, 4, 5]);
    assert_eq!(worker, Worker::Idle);
}

#[test]
fn truncated_code_fails_prevalidation() {
    let truncated = Compiler {
        prevalidated: Err("truncated header".to_string()),
        compiled: Ok(vec![1]),
        constructed: Ok(()),
    };
    let (worker, served) = serve(Worker::Idle, compilation(10), &truncated, Fate::Runs, 0);
    assert_eq!(served.response, Err(PrepareError::Prevalidation("truncated header".to_string())));
    assert_eq!(served.file, None);
    assert_eq!(worker, Worker::Idle);
}

#[test]
fn invalid_code_fails_preparation() {
    let invalid = Compiler {
        prevalidated: Ok(()),
        compiled: Err("invalid body".to_string()),
        constructed: Ok(()),
    };
    let (worker, served) = serve(Worker::Idle, compilation(10), &invalid, Fate::Runs, 1);
    assert_eq!(served.response, Err(PrepareError::Preparation("invalid body".to_string())));
    assert_eq!(served.file, None);
    assert_eq!(worker, Worker::Idle);
}

#[test]
fn long_compilation_times_out() {
    let (worker, served) = serve(Worker::Idle, compilation(1), &valid(), Fate::Killed, 1);
    assert_eq!(served.response, Err(PrepareError::TimedOut));
    assert_eq!(served.file, None);
    assert_eq!(worker, Worker::Idle);
}

#[test]
fn prechecking_requires_a_runtime() {
    let hollow = Compiler {
        prevalidated: Ok(()),
        compiled: Ok(vec![9, 9, 9]),
        constructed: Err("cannot instantiate".to_string()),
    };
    let request = Request { timeout_secs: 10, kind: PrepareJobKind::Prechecking };
    let (_, served) = serve(Worker::Idle, request, &hollow, Fate::Runs, 2);
    assert_eq!(
        served.response,
        Err(PrepareError::RuntimeConstruction("cannot instantiate".to_string()))
    );
    assert_eq!(served.file, None);

    // The same code passes where no runtime is asked for.
    let (_, served) = serve(Worker::Idle, compilation(10), &hollow, Fate::Runs, 2);
    assert!(served.response.is_ok());
    assert_eq!(served.file, Some(vec![9, 9, 9]));
}

#[test]
fn worker_survives_a_failed_request() {
    let invalid = Compiler {
        prevalidated: Ok(()),
        compiled: Err("invalid body".to_string()),
        constructed: Ok(()),
    };
    let worker = Worker::start(Some("1.0"), Some("1.0"));
    let (worker, first) = serve(worker, compilation(10), &invalid, Fate::Runs, 1);
    assert_eq!(first.response, Err(PrepareError::Preparation("invalid body".to_string())));
    assert_eq!(worker.task(), WorkerTask::Receive);
    let (worker, second) = serve(worker, compilation(10), &valid(), Fate::Runs, 3);
    assert!(second.response.is_ok());
    assert_eq!(second.file, Some(vec![1, 2, 3, 4, 5]));
    assert_eq!(worker, Worker::Idle);
}

#[test]
fn crashed_child_costs_the_request_only() {
    let (worker, served) = serve(Worker::Idle, compilation(10), &valid(), Fate::Killed, 2);
    assert_eq!(served.response, Err(PrepareError::Panic(PanicReason::UnknownChildStatus)));
    assert_eq!(served.file, None);
    let (worker, served) = serve(worker, compilation(10), &valid(), Fate::Runs, 2);
    assert!(served.response.is_ok());
    assert_eq!(worker, Worker::Idle);
}

#[test]
fn responses_come_in_the_order_of_the_requests() {
    let mut worker = Worker::Idle;
    let mut responses = Vec::new();
    for (i, fate) in [Fate::Runs, Fate::Killed, Fate::Runs, Fate::Runs].into_iter().enumerate() {
        let compiler = Compiler {
            prevalidated: Ok(()),
            compiled: Ok(vec![i as u8]),
            constructed: Ok(()),
        };
        let (next, served) = serve(worker, compilation(5), &compiler, fate, i as i64);
        worker = next;
        responses.push((served.response.map(|s| s.cpu_time_elapsed), served.file));
    }
    assert_eq!(
        responses,
        vec![
            (Ok(0), Some(vec![0])),
            (Err(PrepareError::Panic(PanicReason::UnknownChildStatus)), None),
            (Ok(2), Some(vec![2])),
            (Ok(3), Some(vec![3])),
        ]
    );
}

#[test]
fn clean_exit_status_is_success() {
    let seen = run_child(Child::start(10, false), PrepareJobKind::Compilation, &valid(), Fate::Runs);
    assert_eq!(seen.exit, ChildExit::Exited(EXIT_SUCCESS));
    assert!(seen.pipe.is_some());
}
