use zk_fuzz_lab::mutator::generate_fib_mutations;
use zk_fuzz_lab::native::RunnerError;
use zk_fuzz_lab::oracle::{compare, RunResult, Scalar};
use zk_fuzz_lab::orchestrator::{
    available_cores, core_name_of_path, core_path, elf_path, fuzz_plan, get_base_input_for_core,
    guest_dir, next_action, parse_core_list, step, timing_stats, Action, Comparison, Event,
    FuzzResult, HarnessError, PlanEntry, TimingStats,
};
use zk_fuzz_lab::registry::CoreId;

#[test]
fn core_name_is_the_last_segment() {
    assert_eq!(core_name_of_path("guest/cores/fib"), Ok("fib".to_string()));
    assert_eq!(core_name_of_path("guest/cores/io_echo/"), Ok("io_echo".to_string()));
    assert_eq!(core_name_of_path("fib"), Ok("fib".to_string()));
    assert_eq!(core_name_of_path("/abs/simple_struct//"), Ok("simple_struct".to_string()));
}

#[test]
fn paths_without_a_name_are_refused() {
    for path in ["", "/", "//", "guest/cores/..", "..", ".", "a/."] {
        assert_eq!(
            core_name_of_path(path),
            Err(HarnessError::InvalidCorePath { path: path.to_string() })
        );
    }
}

#[test]
fn guest_places() {
    assert_eq!(core_path("fib"), "guest/cores/fib");
    assert_eq!(guest_dir("fib"), "adapters/sp1_guest/fib_guest");
    assert_eq!(
        elf_path("fib"),
        "adapters/sp1_guest/fib_guest/target/elf-compilation/riscv32im-succinct-zkvm-elf/release/fib-guest"
    );
    assert_eq!(
        elf_path("simple_struct"),
        "adapters/sp1_guest/simple_struct_guest/target/elf-compilation/riscv32im-succinct-zkvm-elf/release/simple-struct-guest"
    );
}

#[test]
fn base_inputs() {
    assert_eq!(get_base_input_for_core("fib"), Ok("inputs/fib_24.json".to_string()));
    assert_eq!(get_base_input_for_core("panic_test"), Ok("inputs/panic_no.json".to_string()));
    assert_eq!(
        get_base_input_for_core("timeout_test"),
        Ok("inputs/timeout_finite.json".to_string())
    );
    assert_eq!(get_base_input_for_core("io_echo"), Ok("inputs/io_echo_1kb.json".to_string()));
    assert_eq!(
        get_base_input_for_core("arithmetic"),
        Ok("inputs/arithmetic_add_normal.json".to_string())
    );
    assert_eq!(
        get_base_input_for_core("simple_struct"),
        Ok("inputs/simple_struct_normal.json".to_string())
    );
    assert_eq!(
        get_base_input_for_core("sha"),
        Err(HarnessError::UnknownCore { name: "sha".to_string() })
    );
}

#[test]
fn error_messages() {
    assert_eq!(
        HarnessError::UnknownCore { name: "sha".to_string() }.message(),
        "Unknown core: sha"
    );
    assert_eq!(
        HarnessError::UnknownCoreInList { name: "sha".to_string() }.message(),
        "Unknown core: 'sha'\n\nAvailable cores: fib, panic_test, timeout_test, io_echo, arithmetic, simple_struct"
    );
    assert_eq!(
        HarnessError::InvalidCorePath { path: "..".to_string() }.message(),
        "Invalid core path: .."
    );
    assert_eq!(
        available_cores(),
        "fib, panic_test, timeout_test, io_echo, arithmetic, simple_struct"
    );
}

#[test]
fn all_stands_for_every_core() {
    assert_eq!(
        parse_core_list("all"),
        Ok(vec![
            CoreId::Fib,
            CoreId::PanicTest,
            CoreId::TimeoutTest,
            CoreId::IoEcho,
            CoreId::Arithmetic,
            CoreId::SimpleStruct
        ])
    );
}

#[test]
fn lists_keep_their_order_and_lose_white_space() {
    assert_eq!(parse_core_list("io_echo"), Ok(vec![CoreId::IoEcho]));
    assert_eq!(
        parse_core_list("io_echo, arithmetic ,fib"),
        Ok(vec![CoreId::IoEcho, CoreId::Arithmetic, CoreId::Fib])
    );
    assert_eq!(parse_core_list("fib,fib"), Ok(vec![CoreId::Fib, CoreId::Fib]));
}

#[test]
fn first_unknown_name_is_the_error() {
    assert_eq!(
        parse_core_list("fib,sha, keccak"),
        Err(HarnessError::UnknownCoreInList { name: "sha".to_string() })
    );
    assert_eq!(
        parse_core_list(""),
        Err(HarnessError::UnknownCoreInList { name: String::new() })
    );
    assert_eq!(
        parse_core_list("fib,"),
        Err(HarnessError::UnknownCoreInList { name: String::new() })
    );
    assert_eq!(
        parse_core_list("all,fib"),
        Err(HarnessError::UnknownCoreInList { name: "all".to_string() })
    );
}

fn ok_run(commits: Vec<Scalar>) -> RunResult {
    RunResult::completed(1, commits, vec![])
}

#[test]
fn equal_comparison_walks_to_persisted() {
    let native = ok_run(vec![Scalar::U32(1)]);
    let zkvm = ok_run(vec![Scalar::U32(1)]);
    let mut state = Comparison::Prepared;
    assert_eq!(next_action(&state), Action::RunNative);
    state = step(state, Event::NativeFinished(Ok(native.clone())));
    assert_eq!(state, Comparison::NativeRun { native: native.clone() });
    assert_eq!(next_action(&state), Action::RunZkvm);
    state = step(state, Event::ZkvmFinished(Ok(zkvm.clone())));
    assert_eq!(state, Comparison::ZkvmRun { native: native.clone(), zkvm: zkvm.clone() });
    assert_eq!(next_action(&state), Action::Compare);
    state = step(state, Event::Judge);
    assert_eq!(
        state,
        Comparison::Compared {
            native: native.clone(),
            zkvm: zkvm.clone(),
            diff: compare(&native, &zkvm)
        }
    );
    assert_eq!(next_action(&state), Action::Persist);
    state = step(state, Event::Persisted);
    assert_eq!(state, Comparison::Persisted { diverged: false });
    assert_eq!(next_action(&state), Action::Finish);
    state = step(state, Event::Reproduced);
    assert_eq!(state, Comparison::Persisted { diverged: false });
}

#[test]
fn diverging_comparison_asks_for_a_repro() {
    let native = ok_run(vec![Scalar::U32(1)]);
    let zkvm = ok_run(vec![Scalar::U32(2)]);
    let mut state = Comparison::Prepared;
    state = step(state, Event::NativeFinished(Ok(native)));
    state = step(state, Event::ZkvmFinished(Ok(zkvm)));
    state = step(state, Event::Judge);
    state = step(state, Event::Persisted);
    assert_eq!(state, Comparison::Persisted { diverged: true });
    assert_eq!(next_action(&state), Action::Reproduce);
    state = step(state, Event::Reproduced);
    assert_eq!(state, Comparison::Reproduced);
    assert_eq!(next_action(&state), Action::Finish);
}

#[test]
fn failing_runner_ends_the_comparison() {
    let error = RunnerError::UnknownCore { name: "sha".to_string() };
    let state = step(Comparison::Prepared, Event::NativeFinished(Err(error.clone())));
    assert_eq!(state, Comparison::Failed { error: error.clone() });
    assert_eq!(next_action(&state), Action::Abort);

    let native = ok_run(vec![]);
    let state = step(Comparison::Prepared, Event::NativeFinished(Ok(native)));
    let state = step(state, Event::ZkvmFinished(Err(RunnerError::Disconnected { timed: true })));
    assert_eq!(state, Comparison::Failed { error: RunnerError::Disconnected { timed: true } });
    let state = step(state, Event::Judge);
    assert_eq!(state, Comparison::Failed { error: RunnerError::Disconnected { timed: true } });
}

#[test]
fn events_out_of_turn_change_nothing() {
    assert_eq!(step(Comparison::Prepared, Event::Judge), Comparison::Prepared);
    assert_eq!(step(Comparison::Prepared, Event::Persisted), Comparison::Prepared);
    assert_eq!(
        step(Comparison::Prepared, Event::ZkvmFinished(Ok(ok_run(vec![])))),
        Comparison::Prepared
    );
    assert_eq!(step(Comparison::Reproduced, Event::Reproduced), Comparison::Reproduced);
}

#[test]
fn plan_lists_tags_and_bases() {
    let list = generate_fib_mutations("inputs/fib_24.json");
    let plan = fuzz_plan(&list);
    assert_eq!(plan.len(), 11);
    assert_eq!(
        plan[0],
        PlanEntry {
            mutation_op: "fib_value:n=0".to_string(),
            base: "inputs/fib_24.json".to_string()
        }
    );
    assert_eq!(plan[10].mutation_op, "fib_value:n=1000");
    assert_eq!(fuzz_plan(&[]), vec![]);
}

#[test]
fn counting_comparisons() {
    let mut result = FuzzResult::new();
    result.record(true);
    result.record(false);
    result.record(true);
    assert_eq!(result, FuzzResult { total: 3, passed: 2, divergences: 1 });
    let mut totals = FuzzResult::new();
    totals.absorb(&result);
    totals.absorb(&result);
    assert_eq!(totals, FuzzResult { total: 6, passed: 4, divergences: 2 });
}

#[test]
fn timing_of_a_batch() {
    assert_eq!(
        timing_stats(&[10, 150, 7]),
        Some(TimingStats { count: 3, total_ms: 167, max_ms: 150 })
    );
    assert_eq!(timing_stats(&[]), Some(TimingStats { count: 0, total_ms: 0, max_ms: 0 }));
    assert_eq!(timing_stats(&[u128::MAX, 1]), None);
    assert_eq!(
        timing_stats(&[u128::MAX, 0]),
        Some(TimingStats { count: 2, total_ms: u128::MAX, max_ms: u128::MAX })
    );
}
