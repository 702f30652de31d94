use zk_fuzz_lab::artifacts::{
    fuzz_run_id, fuzz_run_id_from, generate_repro_script, input_file, log_path, log_timestamp,
    mutations_dir, plan_file, plan_log_mutation_result, plan_log_results, plan_repro,
    repro_column, repro_dir, run_id, run_id_from, summary_append, summary_header, summary_path,
    summary_row, version_label, FileAction, Provenance, RunIds, RunLog, Toolchain,
};
use zk_fuzz_lab::oracle::{compare, RunResult, Scalar};

fn tools() -> Toolchain {
    Toolchain {
        zkvm_target: "sp1".to_string(),
        zkvm_version: "cargo-prove 4.2.1".to_string(),
        toolchain_version: "rustc 1.85.0".to_string(),
    }
}

#[test]
fn run_id_of_the_epoch() {
    assert_eq!(run_id(0, "fib"), "19700101_000000_fib");
    assert_eq!(fuzz_run_id(0, "io_echo"), "19700101_000000_fuzz_io_echo");
}

#[test]
fn run_id_of_a_later_instant() {
    let secs: i64 = 1431648000 + 13 * 3600 + 5 * 60 + 9;
    assert_eq!(run_id(secs * 1_000_000_000 + 999_999_999, "arithmetic"), "20150515_130509_arithmetic");
}

#[test]
fn run_id_before_the_epoch() {
    assert_eq!(run_id(-1, "fib"), "19691231_235959_fib");
    assert_eq!(run_id(i64::MAX, "fib"), "22620411_234716_fib");
    assert_eq!(run_id(i64::MIN, "fib"), "16770921_001243_fib");
}

#[test]
fn run_id_from_a_given_stamp() {
    assert_eq!(run_id_from("20240101_120000".to_string(), "fib"), "20240101_120000_fib");
    assert_eq!(
        fuzz_run_id_from("20240101_120000".to_string(), "fib"),
        "20240101_120000_fuzz_fib"
    );
}

#[test]
fn log_timestamp_is_rfc3339() {
    assert_eq!(log_timestamp(0), "1970-01-01T00:00:00+00:00");
    assert_eq!(
        log_timestamp(1431648000 * 1_000_000_000 + 500_000_000),
        "2015-05-15T00:00:00.500+00:00"
    );
}

#[test]
fn ties_get_a_counter_from_two() {
    let mut ids = RunIds::new();
    assert!(ids.has_room());
    assert_eq!(ids.assign("20240101_120000_fib".to_string()), "20240101_120000_fib");
    assert_eq!(ids.assign("20240101_120000_fib".to_string()), "20240101_120000_fib_2");
    assert_eq!(ids.assign("20240101_120000_fib".to_string()), "20240101_120000_fib_3");
    assert_eq!(ids.assign("20240101_120001_fib".to_string()), "20240101_120001_fib");
    assert_eq!(ids.assign("20240101_120001_fib".to_string()), "20240101_120001_fib_2");
    assert_eq!(ids.assign("20240101_120001_io_echo".to_string()), "20240101_120001_io_echo");
}

#[test]
fn first_name_may_be_empty() {
    let mut ids = RunIds::new();
    assert_eq!(ids.assign(String::new()), "");
    assert_eq!(ids.assign(String::new()), "_2");
}

#[test]
fn places() {
    assert_eq!(summary_path(), "artifacts/summary.csv");
    assert_eq!(log_path("r1"), "artifacts/r1.json");
    assert_eq!(repro_dir("r1"), "artifacts/r1");
    assert_eq!(repro_column("r1", false), "artifacts/r1/");
    assert_eq!(repro_column("r1", true), "");
    assert_eq!(mutations_dir("f1"), "artifacts/mutations/f1");
    assert_eq!(input_file("artifacts/mutations/f1", 1), "artifacts/mutations/f1/input_1.json");
    assert_eq!(input_file("d", 32), "d/input_32.json");
    assert_eq!(plan_file("artifacts/mutations/f1"), "artifacts/mutations/f1/plan.json");
}

#[test]
fn repro_script() {
    let script = generate_repro_script("guest/cores/fib", "inputs/fib_24.json");
    let expected = "#!/usr/bin/env bash\n\
# Repro script generated by zk-fuzz-lab harness\n\
# Run this script from the repository root\n\
\n\
set -e\n\
\n\
echo \"\u{1F501} Reproducing differential test...\"\n\
echo \"   Core: guest/cores/fib\"\n\
echo \"   Input: inputs/fib_24.json\"\n\
echo \"\"\n\
\n\
# Run the differential test\n\
make run CORE=guest/cores/fib INPUT=inputs/fib_24.json\n";
    assert_eq!(script, expected);
}

#[test]
fn version_labels() {
    assert_eq!(version_label(Some("rustc 1.85.0 (abc 2025-01-01)\n")), "rustc 1.85.0 (abc 2025-01-01)");
    assert_eq!(version_label(Some("  cargo-prove sp1 (1234)  ")), "cargo-prove sp1 (1234)");
    assert_eq!(version_label(Some("")), "");
    assert_eq!(version_label(None), "unknown");
}

#[test]
fn header_has_eighteen_columns() {
    let header = summary_header();
    assert_eq!(
        header,
        vec![
            "run_id",
            "core",
            "input",
            "native_status",
            "zkvm_status",
            "equal",
            "reason",
            "elapsed_native_ms",
            "elapsed_zkvm_ms",
            "timing_delta_ms",
            "repro_path",
            "generator",
            "base_seed",
            "mutation_ops",
            "rng_seed",
            "zkvm_target",
            "zkvm_version",
            "toolchain_version"
        ]
    );
}

#[test]
fn row_of_equal_hand_written_runs() {
    let native = RunResult::completed(10, vec![Scalar::U32(24)], vec![]);
    let zkvm = RunResult::completed(150, vec![Scalar::U32(24)], vec![]);
    let diff = compare(&native, &zkvm);
    let row = summary_row(
        "20240101_120000_fib",
        "fib",
        "inputs/fib_24.json",
        &native,
        &zkvm,
        &diff,
        &Provenance::HandWritten,
        &tools(),
    );
    assert_eq!(
        row,
        vec![
            "20240101_120000_fib",
            "fib",
            "inputs/fib_24.json",
            "Ok",
            "Ok",
            "true",
            "",
            "10",
            "150",
            "140",
            "",
            "hand_written",
            "",
            "",
            "",
            "sp1",
            "cargo-prove 4.2.1",
            "rustc 1.85.0"
        ]
    );
}

#[test]
fn row_of_diverging_generated_runs() {
    let native = RunResult::completed(10, vec![Scalar::U32(24)], vec![]);
    let zkvm = RunResult::panicked(5, vec![]);
    let diff = compare(&native, &zkvm);
    let provenance = Provenance::Mutated {
        base_seed: "inputs/io_echo_1kb.json".to_string(),
        mutation_ops: "length_bias:4kb".to_string(),
    };
    let row = summary_row("r9", "io_echo", "in.json", &native, &zkvm, &diff, &provenance, &tools());
    assert_eq!(row.len(), summary_header().len());
    assert_eq!(row[3], "Ok");
    assert_eq!(row[4], "Panic");
    assert_eq!(row[5], "false");
    assert_eq!(row[6], "status mismatch: native=Ok, zkvm=Panic");
    assert_eq!(row[9], "5");
    assert_eq!(row[10], "artifacts/r9/");
    assert_eq!(row[11], "mutated");
    assert_eq!(row[12], "inputs/io_echo_1kb.json");
    assert_eq!(row[13], "length_bias:4kb");
    assert_eq!(row[14], "");
}

#[test]
fn summary_starts_with_the_header() {
    let row: Vec<String> = (0..18).map(|k| format!("v{}", k)).collect();
    let fresh = String::from_utf8(summary_append(false, &row).unwrap()).unwrap();
    assert_eq!(
        fresh,
        "run_id,core,input,native_status,zkvm_status,equal,reason,elapsed_native_ms,\
elapsed_zkvm_ms,timing_delta_ms,repro_path,generator,base_seed,mutation_ops,rng_seed,\
zkvm_target,zkvm_version,toolchain_version\n\
v0,v1,v2,v3,v4,v5,v6,v7,v8,v9,v10,v11,v12,v13,v14,v15,v16,v17\n"
    );
    let later = String::from_utf8(summary_append(true, &row).unwrap()).unwrap();
    assert_eq!(later, "v0,v1,v2,v3,v4,v5,v6,v7,v8,v9,v10,v11,v12,v13,v14,v15,v16,v17\n");
}

#[test]
fn summary_quotes_what_needs_quoting() {
    let row = vec![
        "plain".to_string(),
        "with, comma".to_string(),
        "with \"quotes\"".to_string(),
        "two\nlines".to_string(),
        String::new(),
    ];
    let bytes = summary_append(true, &row).unwrap();
    assert_eq!(
        String::from_utf8(bytes).unwrap(),
        "plain,\"with, comma\",\"with \"\"quotes\"\"\",\"two\nlines\",\n"
    );
}

#[test]
fn run_log_keeps_its_parts() {
    let native = RunResult::completed(10, vec![Scalar::U32(24)], vec![]);
    let zkvm = RunResult::completed(150, vec![Scalar::U32(24)], vec![]);
    let diff = compare(&native, &zkvm);
    let log = RunLog::new(
        "r1".to_string(),
        "1970-01-01T00:00:00+00:00".to_string(),
        "guest/cores/fib".to_string(),
        "inputs/fib_24.json".to_string(),
        native.clone(),
        zkvm.clone(),
        diff.clone(),
    );
    assert_eq!(log.run_id, "r1");
    assert_eq!(log.timestamp, "1970-01-01T00:00:00+00:00");
    assert_eq!(log.core, "guest/cores/fib");
    assert_eq!(log.input_ref, "inputs/fib_24.json");
    assert_eq!(log.native, native);
    assert_eq!(log.zkvm, zkvm);
    assert_eq!(log.diff, diff);
}

#[test]
fn plan_of_a_single_comparison() {
    let plan = plan_log_results("r1", vec![1, 2]);
    assert_eq!(
        plan,
        vec![
            FileAction::CreateDir { path: "artifacts".to_string() },
            FileAction::WriteRunLog { path: "artifacts/r1.json".to_string() },
            FileAction::AppendSummary {
                path: "artifacts/summary.csv".to_string(),
                bytes: vec![1, 2]
            },
        ]
    );
}

#[test]
fn plan_of_a_generated_comparison() {
    let plan = plan_log_mutation_result(vec![3]);
    assert_eq!(
        plan,
        vec![FileAction::AppendSummary {
            path: "artifacts/summary.csv".to_string(),
            bytes: vec![3]
        }]
    );
}

#[test]
fn plan_after_a_divergence() {
    let plan = plan_repro("r1", "guest/cores/fib", "inputs/fib_24.json");
    assert_eq!(
        plan,
        vec![
            FileAction::CreateDir { path: "artifacts/r1".to_string() },
            FileAction::WriteScript {
                path: "artifacts/r1/repro.sh".to_string(),
                text: generate_repro_script("guest/cores/fib", "inputs/fib_24.json"),
            },
            FileAction::CopyInput {
                from: "inputs/fib_24.json".to_string(),
                to: "artifacts/r1/input.json".to_string()
            },
            FileAction::WriteRunLog { path: "artifacts/r1/run_log.json".to_string() },
        ]
    );
}
