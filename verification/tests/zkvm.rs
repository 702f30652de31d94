use zk_fuzz_lab::native::RunnerError;
use zk_fuzz_lab::oracle::{compare, MetaEntry, MetaValue, RunResult, Scalar, Status};
use zk_fuzz_lab::registry::{schema_of, CoreId, ScalarKind};
use zk_fuzz_lab::zkvm::{decode_commits, zkvm_result, DecodeError, ExecutorEvent};

fn note(key: &str, value: &str) -> MetaEntry {
    MetaEntry { key: key.to_string(), value: MetaValue::Text(value.to_string()) }
}

fn count(key: &str, value: u64) -> MetaEntry {
    MetaEntry { key: key.to_string(), value: MetaValue::Number(value) }
}

fn stream(values: &[Scalar]) -> Vec<u8> {
    let mut bytes = Vec::new();
    for v in values {
        match v {
            Scalar::U32(x) => bytes.extend_from_slice(&x.to_le_bytes()),
            Scalar::U64(x) => bytes.extend_from_slice(&x.to_le_bytes()),
        }
    }
    bytes
}

#[test]
fn decode_three_narrow_values() {
    let bytes = vec![10, 0, 0, 0, 55, 0, 0, 0, 89, 0, 0, 0];
    let commits = decode_commits(&bytes, &schema_of(CoreId::Fib)).unwrap();
    assert_eq!(commits, vec![Scalar::U32(10), Scalar::U32(55), Scalar::U32(89)]);
}

#[test]
fn decode_is_little_endian() {
    let bytes = vec![0x78, 0x56, 0x34, 0x12];
    assert_eq!(
        decode_commits(&bytes, &[ScalarKind::U32]).unwrap(),
        vec![Scalar::U32(0x12345678)]
    );
    let wide = vec![0xEF, 0xCD, 0xAB, 0x89, 0x67, 0x45, 0x23, 0x01];
    assert_eq!(
        decode_commits(&wide, &[ScalarKind::U64]).unwrap(),
        vec![Scalar::U64(0x0123456789ABCDEF)]
    );
}

#[test]
fn decode_largest_values() {
    let bytes = vec![0xFF; 12];
    assert_eq!(
        decode_commits(&bytes, &[ScalarKind::U32, ScalarKind::U64]).unwrap(),
        vec![Scalar::U32(u32::MAX), Scalar::U64(u64::MAX)]
    );
}

#[test]
fn decode_ignores_what_follows_the_last_slot() {
    let bytes = vec![1, 0, 0, 0, 2, 0, 0, 0, 9, 9, 9];
    assert_eq!(
        decode_commits(&bytes, &[ScalarKind::U32, ScalarKind::U32]).unwrap(),
        vec![Scalar::U32(1), Scalar::U32(2)]
    );
}

#[test]
fn decode_of_no_slots_reads_nothing() {
    assert_eq!(decode_commits(&[1, 2, 3], &[]).unwrap(), vec![]);
    assert_eq!(decode_commits(&[], &[]).unwrap(), vec![]);
}

#[test]
fn decode_names_the_slot_that_ran_short() {
    let bytes = vec![1, 0, 0, 0, 2, 0];
    assert_eq!(
        decode_commits(&bytes, &[ScalarKind::U32, ScalarKind::U32, ScalarKind::U32]),
        Err(DecodeError { slot: 1, needed: 4, available: 2 })
    );
    assert_eq!(
        decode_commits(&[], &[ScalarKind::U64]),
        Err(DecodeError { slot: 0, needed: 8, available: 0 })
    );
    assert_eq!(
        decode_commits(&[0; 7], &[ScalarKind::U32, ScalarKind::U64]),
        Err(DecodeError { slot: 1, needed: 8, available: 3 })
    );
}

#[test]
fn decode_error_message() {
    let e = DecodeError { slot: 2, needed: 4, available: 1 };
    assert_eq!(e.message(), "failed to decode commit 2: 4 bytes needed, 1 left");
}

#[test]
fn committed_values_read_back() {
    let cases: Vec<Vec<Scalar>> = vec![
        vec![],
        vec![Scalar::U32(0)],
        vec![Scalar::U64(u64::MAX), Scalar::U32(7), Scalar::U64(1 << 40)],
        vec![Scalar::U32(4294967295), Scalar::U32(256), Scalar::U32(65536)],
    ];
    for commits in cases {
        let schema: Vec<ScalarKind> = commits
            .iter()
            .map(|s| match s {
                Scalar::U32(_) => ScalarKind::U32,
                Scalar::U64(_) => ScalarKind::U64,
            })
            .collect();
        assert_eq!(decode_commits(&stream(&commits), &schema), Ok(commits));
    }
}

#[test]
fn executed_guest_gives_completed_run() {
    let event = ExecutorEvent::Executed {
        public_values: stream(&[Scalar::U32(10), Scalar::U32(55), Scalar::U32(89)]),
        cycles: Some(12345),
        elapsed_ms: 150,
    };
    let run = zkvm_result(event, &schema_of(CoreId::Fib)).unwrap();
    assert_eq!(run.status, Status::Completed);
    assert_eq!(run.elapsed_ms, 150);
    assert_eq!(run.commits, vec![Scalar::U32(10), Scalar::U32(55), Scalar::U32(89)]);
    assert_eq!(
        run.meta,
        vec![note("runner", "zkvm"), note("mode", "execute"), count("cycles", 12345)]
    );
}

#[test]
fn executed_guest_without_cycle_count() {
    let event = ExecutorEvent::Executed {
        public_values: stream(&[Scalar::U64(100)]),
        cycles: None,
        elapsed_ms: 1,
    };
    let run = zkvm_result(event, &schema_of(CoreId::TimeoutTest)).unwrap();
    assert_eq!(run.commits, vec![Scalar::U64(100)]);
    assert_eq!(run.meta, vec![note("runner", "zkvm"), note("mode", "execute")]);
}

#[test]
fn short_public_values_are_a_panic() {
    let event = ExecutorEvent::Executed {
        public_values: vec![10, 0, 0, 0],
        cycles: Some(1),
        elapsed_ms: 150,
    };
    let run = zkvm_result(event, &schema_of(CoreId::Fib)).unwrap();
    assert_eq!(run.status, Status::Panic);
    assert_eq!(run.elapsed_ms, 150);
    assert!(run.commits.is_empty());
    assert_eq!(
        run.meta,
        vec![
            note("runner", "zkvm"),
            note("mode", "execute"),
            note("panic_msg", "failed to decode commit 1: 4 bytes needed, 0 left")
        ]
    );
}

#[test]
fn executor_error_is_a_panic_with_time_kept() {
    let event = ExecutorEvent::Faulted { message: "guest aborted".to_string(), elapsed_ms: 42 };
    let run = zkvm_result(event, &schema_of(CoreId::Arithmetic)).unwrap();
    assert_eq!(run.status, Status::Panic);
    assert_eq!(run.elapsed_ms, 42);
    assert!(run.commits.is_empty());
    assert_eq!(
        run.meta,
        vec![note("runner", "zkvm"), note("mode", "execute"), note("panic_msg", "guest aborted")]
    );
}

#[test]
fn executor_overrun_is_a_timeout() {
    let run = zkvm_result(ExecutorEvent::TimedOut { timeout_secs: 30 }, &[]).unwrap();
    assert_eq!(run.status, Status::Timeout);
    assert_eq!(run.elapsed_ms, 30000);
    assert!(run.commits.is_empty());
    assert_eq!(
        run.meta,
        vec![note("runner", "zkvm"), note("mode", "execute"), count("timeout_secs", 30)]
    );
}

#[test]
fn lost_executor_is_an_error() {
    assert_eq!(
        zkvm_result(ExecutorEvent::Disconnected { timed: false }, &[]),
        Err(RunnerError::Disconnected { timed: false })
    );
    assert_eq!(
        zkvm_result(
            ExecutorEvent::Failed { error: RunnerError::UnknownCore { name: "x".to_string() } },
            &[]
        ),
        Err(RunnerError::UnknownCore { name: "x".to_string() })
    );
}

#[test]
fn flipped_commit_is_a_divergence_with_a_reason() {
    let native = RunResult::completed(
        3,
        vec![Scalar::U32(10), Scalar::U32(55), Scalar::U32(89)],
        vec![],
    );
    let event = ExecutorEvent::Executed {
        public_values: stream(&[Scalar::U32(10), Scalar::U32(55), Scalar::U32(88)]),
        cycles: None,
        elapsed_ms: 9,
    };
    let zkvm = zkvm_result(event, &schema_of(CoreId::Fib)).unwrap();
    let diff = compare(&native, &zkvm);
    assert!(!diff.equal);
    assert_eq!(
        diff.reason,
        Some(
            "commit stream mismatch: native=[U32(10), U32(55), U32(89)] vs zkvm=[U32(10), U32(55), U32(88)]"
                .to_string()
        )
    );
}

#[test]
fn decode_failure_against_completed_native_is_a_divergence() {
    let native = RunResult::completed(3, vec![Scalar::U32(1), Scalar::U32(0)], vec![]);
    let event = ExecutorEvent::Executed { public_values: vec![], cycles: None, elapsed_ms: 9 };
    let zkvm = zkvm_result(event, &schema_of(CoreId::Arithmetic)).unwrap();
    let diff = compare(&native, &zkvm);
    assert!(!diff.equal);
    assert_eq!(diff.reason, Some("status mismatch: native=Ok, zkvm=Panic".to_string()));
}
