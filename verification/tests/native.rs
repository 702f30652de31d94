use zk_fuzz_lab::cores::arithmetic::ArithmeticInput;
use zk_fuzz_lab::cores::fib::FibInput;
use zk_fuzz_lab::cores::io_echo::IoEchoInput;
use zk_fuzz_lab::cores::panic_test::PanicInput;
use zk_fuzz_lab::cores::simple_struct::SimpleStructInput;
use zk_fuzz_lab::cores::timeout_test::TimeoutInput;
use zk_fuzz_lab::native::{
    attempt, extract_panic_message, native_result, preflight, run_core_dispatch, time_budget,
    Attempt, PanicPayload, Preflight, RunnerError, WorkerEvent,
};
use zk_fuzz_lab::oracle::{compare, MetaEntry, MetaValue, Scalar, Status};
use zk_fuzz_lab::registry::{CoreId, CoreInput};

fn arithmetic(a: u32, b: u32, op: &str) -> CoreInput {
    CoreInput::Arithmetic(ArithmeticInput { a, b, operation: op.to_string() })
}

fn text(key: &str, value: &str) -> MetaEntry {
    MetaEntry { key: key.to_string(), value: MetaValue::Text(value.to_string()) }
}

#[test]
fn dispatch_fib_10() {
    let commits = run_core_dispatch("fib", CoreInput::Fib(FibInput { n: 10 })).unwrap();
    assert_eq!(commits, vec![Scalar::U32(10), Scalar::U32(55), Scalar::U32(89)]);
}

#[test]
fn dispatch_fib_0() {
    let commits = run_core_dispatch("fib", CoreInput::Fib(FibInput { n: 0 })).unwrap();
    assert_eq!(commits, vec![Scalar::U32(0), Scalar::U32(0), Scalar::U32(1)]);
}

#[test]
fn dispatch_arithmetic_overflowing_add() {
    let commits = run_core_dispatch("arithmetic", arithmetic(4294967295, 1, "add")).unwrap();
    assert_eq!(commits, vec![Scalar::U32(0), Scalar::U32(1)]);
}

#[test]
fn dispatch_io_echo_empty_and_single() {
    let empty = run_core_dispatch("io_echo", CoreInput::IoEcho(IoEchoInput { data: vec![] }));
    assert_eq!(empty.unwrap(), vec![Scalar::U32(0), Scalar::U32(0), Scalar::U32(0)]);
    let single = run_core_dispatch("io_echo", CoreInput::IoEcho(IoEchoInput { data: vec![42] }));
    assert_eq!(single.unwrap(), vec![Scalar::U32(1), Scalar::U32(43), Scalar::U32(43)]);
}

#[test]
fn dispatch_simple_struct_with_crab() {
    let input = CoreInput::SimpleStruct(SimpleStructInput {
        field1: 1,
        field2: "\u{1F980} Rust".to_string(),
        field3: true,
    });
    let commits = run_core_dispatch("simple_struct", input).unwrap();
    assert_eq!(commits, vec![Scalar::U32(1), Scalar::U32(9), Scalar::U32(6), Scalar::U32(1)]);
}

#[test]
fn dispatch_timeout_test_commits_a_wide_value() {
    let input = CoreInput::TimeoutTest(TimeoutInput { iterations: 100 });
    assert_eq!(run_core_dispatch("timeout_test", input).unwrap(), vec![Scalar::U64(100)]);
}

#[test]
fn dispatch_panic_test_without_abort() {
    let input = CoreInput::PanicTest(PanicInput { should_panic: false, panic_msg: None });
    assert_eq!(
        run_core_dispatch("panic_test", input).unwrap(),
        vec![Scalar::U32(0), Scalar::U32(0)]
    );
}

#[test]
fn dispatch_rejects_unknown_core() {
    let r = run_core_dispatch("fibb", CoreInput::Fib(FibInput { n: 1 }));
    assert_eq!(r, Err(RunnerError::UnknownCore { name: "fibb".to_string() }));
}

#[test]
fn dispatch_rejects_input_of_another_core() {
    let r = run_core_dispatch("io_echo", CoreInput::Fib(FibInput { n: 1 }));
    assert_eq!(r, Err(RunnerError::BadInput { expected: CoreId::IoEcho, found: CoreId::Fib }));
}

#[test]
fn preflight_tells_the_three_fates() {
    assert_eq!(preflight(&CoreInput::Fib(FibInput { n: 3 })), Preflight::Runs);
    assert_eq!(preflight(&arithmetic(1, 0, "add")), Preflight::Runs);
    assert_eq!(
        preflight(&arithmetic(1, 0, "div")),
        Preflight::Aborts("Division by zero".to_string())
    );
    assert_eq!(
        preflight(&arithmetic(1, 1, "modulo")),
        Preflight::Aborts("Unknown operation: modulo".to_string())
    );
    assert_eq!(
        preflight(&CoreInput::PanicTest(PanicInput { should_panic: true, panic_msg: None })),
        Preflight::Aborts("Intentional panic for testing".to_string())
    );
    assert_eq!(
        preflight(&CoreInput::TimeoutTest(TimeoutInput { iterations: 0 })),
        Preflight::NeverReturns
    );
    assert_eq!(
        preflight(&CoreInput::TimeoutTest(TimeoutInput { iterations: 1 })),
        Preflight::Runs
    );
}

#[test]
fn attempt_follows_the_fate() {
    assert_eq!(
        attempt("arithmetic", arithmetic(1, 0, "div")),
        Ok(Attempt::Abort("Division by zero".to_string()))
    );
    assert_eq!(
        attempt("timeout_test", CoreInput::TimeoutTest(TimeoutInput { iterations: 0 })),
        Ok(Attempt::NeverReturns)
    );
    assert_eq!(
        attempt("arithmetic", arithmetic(20, 10, "div")),
        Ok(Attempt::Commits(vec![Scalar::U32(2), Scalar::U32(0)]))
    );
    assert_eq!(
        attempt("nope", arithmetic(20, 10, "div")),
        Err(RunnerError::UnknownCore { name: "nope".to_string() })
    );
    assert_eq!(
        attempt("fib", arithmetic(1, 0, "div")),
        Err(RunnerError::BadInput { expected: CoreId::Fib, found: CoreId::Arithmetic })
    );
}

#[test]
fn native_runs_repeat() {
    for _ in 0..3 {
        let first = attempt("fib", CoreInput::Fib(FibInput { n: 1000 }));
        let second = attempt("fib", CoreInput::Fib(FibInput { n: 1000 }));
        assert_eq!(first, second);
    }
}

#[test]
fn panic_message_extraction() {
    assert_eq!(extract_panic_message(&PanicPayload::Message("boom".to_string())), "boom");
    assert_eq!(extract_panic_message(&PanicPayload::Opaque), "Unknown panic");
}

#[test]
fn zero_seconds_is_no_budget() {
    assert_eq!(time_budget(0), None);
    assert_eq!(time_budget(30), Some(30));
}

#[test]
fn finished_worker_gives_completed_run() {
    let run = native_result(WorkerEvent::Finished {
        commits: vec![Scalar::U32(10), Scalar::U32(55), Scalar::U32(89)],
        elapsed_ms: 7,
    })
    .unwrap();
    assert_eq!(run.status, Status::Completed);
    assert_eq!(run.elapsed_ms, 7);
    assert_eq!(run.commits, vec![Scalar::U32(10), Scalar::U32(55), Scalar::U32(89)]);
    assert_eq!(run.meta, vec![text("runner", "native")]);
}

#[test]
fn panicked_worker_gives_panic_without_commits() {
    let run = native_result(WorkerEvent::Panicked {
        payload: PanicPayload::Message("Division by zero".to_string()),
    })
    .unwrap();
    assert_eq!(run.status, Status::Panic);
    assert_eq!(run.elapsed_ms, 0);
    assert!(run.commits.is_empty());
    assert_eq!(run.meta, vec![text("runner", "native"), text("panic_msg", "Division by zero")]);
}

#[test]
fn timed_out_worker_gives_timeout_with_whole_budget() {
    let run = native_result(WorkerEvent::TimedOut { timeout_secs: 30 }).unwrap();
    assert_eq!(run.status, Status::Timeout);
    assert_eq!(run.elapsed_ms, 30000);
    assert!(run.commits.is_empty());
    assert_eq!(
        run.meta,
        vec![
            text("runner", "native"),
            MetaEntry { key: "timeout_secs".to_string(), value: MetaValue::Number(30) }
        ]
    );
}

#[test]
fn harness_faults_are_errors_not_runs() {
    let lost = native_result(WorkerEvent::Disconnected { timed: true });
    assert_eq!(lost, Err(RunnerError::Disconnected { timed: true }));
    let failed = native_result(WorkerEvent::Failed {
        error: RunnerError::Undecodable { detail: "missing field `n`".to_string() },
    });
    assert_eq!(failed, Err(RunnerError::Undecodable { detail: "missing field `n`".to_string() }));
}

#[test]
fn both_sides_aborting_compare_equal() {
    let native = native_result(WorkerEvent::Panicked {
        payload: PanicPayload::Message("Division by zero".to_string()),
    })
    .unwrap();
    let other = native_result(WorkerEvent::Panicked { payload: PanicPayload::Opaque }).unwrap();
    let diff = compare(&native, &other);
    assert!(diff.equal);
    assert_eq!(diff.reason, None);
}

#[test]
fn both_sides_timing_out_compare_equal() {
    let native = native_result(WorkerEvent::TimedOut { timeout_secs: 30 }).unwrap();
    let other = native_result(WorkerEvent::TimedOut { timeout_secs: 10 }).unwrap();
    let diff = compare(&native, &other);
    assert!(diff.equal);
    assert_eq!(diff.timing_delta_ms, Some(20000));
}

#[test]
fn runner_error_messages() {
    assert_eq!(
        RunnerError::UnknownCore { name: "sha".to_string() }.message(),
        "Unknown core: sha"
    );
    assert_eq!(
        RunnerError::BadInput { expected: CoreId::IoEcho, found: CoreId::Fib }.message(),
        "Input of core fib given to core io_echo"
    );
    assert_eq!(
        RunnerError::Undecodable { detail: "missing field `n`".to_string() }.message(),
        "Failed to decode input: missing field `n`"
    );
    assert_eq!(
        RunnerError::Harness { detail: "Failed to read input file".to_string() }.message(),
        "Failed to read input file"
    );
    assert_eq!(
        RunnerError::Disconnected { timed: true }.message(),
        "Runner thread disconnected unexpectedly"
    );
    assert_eq!(RunnerError::Disconnected { timed: false }.message(), "Runner thread disconnected");
}
