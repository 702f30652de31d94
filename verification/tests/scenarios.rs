use zk_fuzz_lab::cores::arithmetic::ArithmeticInput;
use zk_fuzz_lab::cores::fib::FibInput;
use zk_fuzz_lab::cores::io_echo::IoEchoInput;
use zk_fuzz_lab::cores::simple_struct::SimpleStructInput;
use zk_fuzz_lab::cores::timeout_test::TimeoutInput;
use zk_fuzz_lab::native::{attempt, native_result, Attempt, PanicPayload, WorkerEvent};
use zk_fuzz_lab::oracle::{compare, RunResult, Scalar, Status};
use zk_fuzz_lab::registry::{lookup, schema_of, CoreInput};
use zk_fuzz_lab::zkvm::{zkvm_result, ExecutorEvent};

/// The native side of one run, with the wall time and the budget fixed.
fn native_side(core: &str, input: CoreInput) -> RunResult {
    let event = match attempt(core, input).unwrap() {
        Attempt::Commits(commits) => WorkerEvent::Finished { commits, elapsed_ms: 2 },
        Attempt::Abort(message) => {
            WorkerEvent::Panicked { payload: PanicPayload::Message(message) }
        }
        Attempt::NeverReturns => WorkerEvent::TimedOut { timeout_secs: 30 },
    };
    native_result(event).unwrap()
}

/// The zkVM side of one run of a guest that does what its core does.
fn zkvm_side(core: &str, input: CoreInput) -> RunResult {
    let event = match attempt(core, input).unwrap() {
        Attempt::Commits(commits) => {
            let mut public_values = Vec::new();
            for commit in commits {
                match commit {
                    Scalar::U32(v) => public_values.extend_from_slice(&v.to_le_bytes()),
                    Scalar::U64(v) => public_values.extend_from_slice(&v.to_le_bytes()),
                }
            }
            ExecutorEvent::Executed { public_values, cycles: Some(1000), elapsed_ms: 90 }
        }
        Attempt::Abort(message) => ExecutorEvent::Faulted { message, elapsed_ms: 80 },
        Attempt::NeverReturns => ExecutorEvent::TimedOut { timeout_secs: 30 },
    };
    zkvm_result(event, &schema_of(lookup(core).unwrap())).unwrap()
}

fn check(core: &str, input: CoreInput, status: Status, commits: Vec<Scalar>) {
    let native = native_side(core, input.clone());
    let zkvm = zkvm_side(core, input);
    assert_eq!(native.status, status);
    assert_eq!(native.commits, commits);
    assert_eq!(zkvm.status, status);
    assert_eq!(zkvm.commits, commits);
    let diff = compare(&native, &zkvm);
    assert!(diff.equal);
    assert_eq!(diff.reason, None);
}

fn narrow(values: &[u32]) -> Vec<Scalar> {
    values.iter().map(|v| Scalar::U32(*v)).collect()
}

#[test]
fn scenario_fib_10() {
    check("fib", CoreInput::Fib(FibInput { n: 10 }), Status::Completed, narrow(&[10, 55, 89]));
}

#[test]
fn scenario_fib_0() {
    check("fib", CoreInput::Fib(FibInput { n: 0 }), Status::Completed, narrow(&[0, 0, 1]));
}

#[test]
fn scenario_add_overflow() {
    let input = CoreInput::Arithmetic(ArithmeticInput {
        a: 4294967295,
        b: 1,
        operation: "add".to_string(),
    });
    check("arithmetic", input, Status::Completed, narrow(&[0, 1]));
}

#[test]
fn scenario_division_by_zero() {
    let input =
        CoreInput::Arithmetic(ArithmeticInput { a: 1, b: 0, operation: "div".to_string() });
    check("arithmetic", input, Status::Panic, vec![]);
}

#[test]
fn scenario_empty_buffer() {
    check(
        "io_echo",
        CoreInput::IoEcho(IoEchoInput { data: vec![] }),
        Status::Completed,
        narrow(&[0, 0, 0]),
    );
}

#[test]
fn scenario_single_byte() {
    check(
        "io_echo",
        CoreInput::IoEcho(IoEchoInput { data: vec![42] }),
        Status::Completed,
        narrow(&[1, 43, 43]),
    );
}

#[test]
fn scenario_crab_record() {
    let input = CoreInput::SimpleStruct(SimpleStructInput {
        field1: 1,
        field2: "\u{1F980} Rust".to_string(),
        field3: true,
    });
    check("simple_struct", input, Status::Completed, narrow(&[1, 9, 6, 1]));
}

#[test]
fn scenario_endless_loop() {
    check(
        "timeout_test",
        CoreInput::TimeoutTest(TimeoutInput { iterations: 0 }),
        Status::Timeout,
        vec![],
    );
}

#[test]
fn scenario_wide_commit_survives_the_stream() {
    check(
        "timeout_test",
        CoreInput::TimeoutTest(TimeoutInput { iterations: 1000 }),
        Status::Completed,
        vec![Scalar::U64(1000)],
    );
}

#[test]
fn empty_commits_with_same_status_are_equal() {
    for (a, b) in [
        (RunResult::completed(1, vec![], vec![]), RunResult::completed(9, vec![], vec![])),
        (RunResult::panicked(0, vec![]), RunResult::panicked(5, vec![])),
        (RunResult::timed_out(30000, vec![]), RunResult::timed_out(30000, vec![])),
    ] {
        let diff = compare(&a, &b);
        assert!(diff.equal);
        assert_eq!(diff.reason, None);
    }
}

#[test]
fn timing_delta_is_the_distance() {
    let a = RunResult::completed(10, vec![], vec![]);
    let b = RunResult::completed(150, vec![], vec![]);
    assert_eq!(compare(&a, &b).timing_delta_ms, Some(140));
    assert_eq!(compare(&b, &a).timing_delta_ms, Some(140));
    assert_eq!(compare(&a, &a).timing_delta_ms, Some(0));
    let far = RunResult::completed(u128::MAX, vec![], vec![]);
    let near = RunResult::completed(0, vec![], vec![]);
    assert_eq!(compare(&near, &far).timing_delta_ms, Some(u128::MAX));
}

#[test]
fn equal_means_same_status_and_commits() {
    let runs = vec![
        RunResult::completed(1, vec![], vec![]),
        RunResult::completed(1, vec![Scalar::U32(1)], vec![]),
        RunResult::completed(1, vec![Scalar::U64(1)], vec![]),
        RunResult::completed(1, vec![Scalar::U32(1), Scalar::U32(2)], vec![]),
        RunResult::panicked(1, vec![]),
        RunResult::timed_out(1, vec![]),
    ];
    for a in &runs {
        for b in &runs {
            let diff = compare(a, b);
            let same = a.status == b.status
                && (a.status != Status::Completed || a.commits == b.commits);
            assert_eq!(diff.equal, same);
            assert_eq!(diff.reason.is_some(), !diff.equal);
        }
    }
}
