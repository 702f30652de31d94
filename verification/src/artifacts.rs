//! What a comparison leaves behind: the name of the run, the line of the
//! summary, the script that repeats a divergence, and the list of files to
//! write. The writing itself is the caller's.

use vstd::prelude::*;
use vstd::string::*;
use crate::oracle::{status_label, status_name, Diff, DiffView, RunResult, RunResultView};
use crate::text::{
    decimal,
    decimal_string,
    lemma_decimal,
    lemma_decimal_injective,
    lemma_same_prefix,
    push_decimal,
    trim,
    trimmed,
};

verus! {

/// The view of an optional text.
pub open spec fn opt_text(o: Option<String>) -> Option<Seq<char>> {
    match o {
        Some(s) => Some(s@),
        None => None,
    }
}

/// The views of a list of texts.
pub open spec fn texts(list: Seq<String>) -> Seq<Seq<char>> {
    list.map_values(|s: String| s@)
}

// ------------------------------------------------------------------ time
/// What `chrono` writes for the instant `nanos` nanoseconds after the Unix
/// epoch, in UTC and in the form `YYYYMMDD_HHMMSS`.
pub uninterp spec fn utc_compact(nanos: i64) -> Seq<char>;

/// What `chrono` writes for the same instant in the form of RFC 3339.
pub uninterp spec fn utc_rfc3339(nanos: i64) -> Seq<char>;

/// `chrono::DateTime::format` with `%Y%m%d_%H%M%S`, on the instant that
/// `chrono::DateTime::from_timestamp_nanos` makes of the number. The
/// contract gives the text a name and says no more of it.
#[verifier::external_body]
fn compact_stamp(nanos: i64) -> (stamp: String)
    ensures
        stamp@ == utc_compact(nanos),
{
    chrono::DateTime::from_timestamp_nanos(nanos).format("%Y%m%d_%H%M%S").to_string()
}

/// `chrono::DateTime::to_rfc3339`, on the instant that
/// `chrono::DateTime::from_timestamp_nanos` makes of the number. The
/// contract gives the text a name and says no more of it.
#[verifier::external_body]
fn rfc3339_stamp(nanos: i64) -> (stamp: String)
    ensures
        stamp@ == utc_rfc3339(nanos),
{
    chrono::DateTime::from_timestamp_nanos(nanos).to_rfc3339()
}

/// The name of a run before ties are broken: the instant, an underscore,
/// the core.
pub open spec fn run_id_text(stamp: Seq<char>, core: Seq<char>) -> Seq<char> {
    stamp + "_"@ + core
}

/// The name of a batch of generated inputs: the instant, `_fuzz_`, the core.
pub open spec fn fuzz_run_id_text(stamp: Seq<char>, core: Seq<char>) -> Seq<char> {
    stamp + "_fuzz_"@ + core
}

/// Names a run on the named core that started `at_nanos` nanoseconds after
/// the Unix epoch.
pub fn run_id(at_nanos: i64, core: &str) -> (id: String)
    ensures
        id@ == run_id_text(utc_compact(at_nanos), core@),
{
    run_id_from(compact_stamp(at_nanos), core)
}

/// Names a run from the text of its instant.
pub fn run_id_from(stamp: String, core: &str) -> (id: String)
    ensures
        id@ == run_id_text(stamp@, core@),
{
    let mut id = stamp;
    id.append("_");
    id.append(core);
    id
}

/// Names a batch on the named core that started `at_nanos` nanoseconds
/// after the Unix epoch.
pub fn fuzz_run_id(at_nanos: i64, core: &str) -> (id: String)
    ensures
        id@ == fuzz_run_id_text(utc_compact(at_nanos), core@),
{
    fuzz_run_id_from(compact_stamp(at_nanos), core)
}

/// Names a batch from the text of its instant.
pub fn fuzz_run_id_from(stamp: String, core: &str) -> (id: String)
    ensures
        id@ == fuzz_run_id_text(stamp@, core@),
{
    let mut id = stamp;
    id.append("_fuzz_");
    id.append(core);
    id
}

/// The instant `at_nanos` nanoseconds after the Unix epoch as it is written
/// into a run log.
pub fn log_timestamp(at_nanos: i64) -> (text: String)
    ensures
        text@ == utc_rfc3339(at_nanos),
{
    rfc3339_stamp(at_nanos)
}

/// Hands out names so that no two comparisons in a row share one: the first
/// run of a name keeps it, the next ones get `_2`, `_3` and so on.
#[derive(Clone, Debug, PartialEq, Eq)]
pub struct RunIds {
    last: String,
    count: u64,
}

impl RunIds {
    /// The name handed out last, without its counter.
    pub closed spec fn last(&self) -> Seq<char> {
        self.last@
    }

    /// How many runs in a row have asked for that name; 0 at the start.
    pub closed spec fn count(&self) -> nat {
        self.count as nat
    }

    /// The state before any name is handed out.
    pub fn new() -> (ids: RunIds)
        ensures
            ids.count() == 0,
    {
        RunIds { last: String::new(), count: 0 }
    }

    /// Whether another tie can still be counted.
    pub fn has_room(&self) -> (r: bool)
        ensures
            r == (self.count() < u64::MAX),
    {
        self.count < u64::MAX
    }

    /// Hands out the name for the next run, which asks for `base`.
    pub fn assign(&mut self, base: String) -> (id: String)
        requires
            old(self).count() < u64::MAX,
        ensures
            final(self).last() == base@,
            final(self).count() == if old(self).count() > 0 && old(self).last() == base@ {
                old(self).count() + 1
            } else {
                1
            },
            id@ == tie_broken(base@, final(self).count()),
    {
        if self.count > 0 && self.last == base {
            self.count = self.count + 1;
            let mut id = base;
            id.append("_");
            push_decimal(&mut id, self.count as u128);
            id
        } else {
            self.last = base.clone();
            self.count = 1;
            base
        }
    }
}

/// The name that the `k`-th run in a row gets: the name asked for the
/// first time, with `_k` behind it from the second time on.
pub open spec fn tie_broken(base: Seq<char>, k: nat) -> Seq<char> {
    if k <= 1 {
        base
    } else {
        base + "_"@ + decimal(k)
    }
}

/// Runs in a row that ask for one name get different names.
pub proof fn lemma_ties_are_broken(base: Seq<char>, j: nat, k: nat)
    requires
        1 <= j < k,
    ensures
        tie_broken(base, j) != tie_broken(base, k),
{
    reveal_strlit("_");
    lemma_decimal(k);
    if j > 1 {
        lemma_decimal(j);
        if tie_broken(base, j) == tie_broken(base, k) {
            lemma_same_prefix(base + "_"@, decimal(j), decimal(k));
            lemma_decimal_injective(j, k);
        }
    }
}

// ----------------------------------------------------------------- places
/// The file of the summary.
pub open spec fn summary_path_text() -> Seq<char> {
    "artifacts/summary.csv"@
}

/// The file of a run's log.
pub open spec fn log_path_text(run_id: Seq<char>) -> Seq<char> {
    "artifacts/"@ + run_id + ".json"@
}

/// The folder that holds what repeats a divergence.
pub open spec fn repro_dir_text(run_id: Seq<char>) -> Seq<char> {
    "artifacts/"@ + run_id
}

/// What the summary says of the repro folder: its path with a slash for a
/// divergence, nothing for equal runs.
pub open spec fn repro_column_text(run_id: Seq<char>, equal: bool) -> Seq<char> {
    if equal {
        Seq::empty()
    } else {
        "artifacts/"@ + run_id + "/"@
    }
}

/// The folder of a batch of generated inputs.
pub open spec fn mutations_dir_text(fuzz_run_id: Seq<char>) -> Seq<char> {
    "artifacts/mutations/"@ + fuzz_run_id
}

/// The file of the `k`-th generated input of a batch, counted from 1.
pub open spec fn input_file_text(dir: Seq<char>, k: nat) -> Seq<char> {
    dir + "/input_"@ + decimal(k) + ".json"@
}

/// The file of a batch's plan.
pub open spec fn plan_file_text(dir: Seq<char>) -> Seq<char> {
    dir + "/plan.json"@
}

/// The file of the summary.
pub fn summary_path() -> (path: String)
    ensures
        path@ == summary_path_text(),
{
    "artifacts/summary.csv".to_owned()
}

/// The file of a run's log.
pub fn log_path(run_id: &str) -> (path: String)
    ensures
        path@ == log_path_text(run_id@),
{
    let mut path = "artifacts/".to_owned();
    path.append(run_id);
    path.append(".json");
    path
}

/// The folder that holds what repeats a divergence.
pub fn repro_dir(run_id: &str) -> (path: String)
    ensures
        path@ == repro_dir_text(run_id@),
{
    let mut path = "artifacts/".to_owned();
    path.append(run_id);
    path
}

/// What the summary says of the repro folder.
pub fn repro_column(run_id: &str, equal: bool) -> (path: String)
    ensures
        path@ == repro_column_text(run_id@, equal),
{
    if equal {
        String::new()
    } else {
        let mut path = "artifacts/".to_owned();
        path.append(run_id);
        path.append("/");
        path
    }
}

/// The folder of a batch of generated inputs.
pub fn mutations_dir(fuzz_run_id: &str) -> (path: String)
    ensures
        path@ == mutations_dir_text(fuzz_run_id@),
{
    let mut path = "artifacts/mutations/".to_owned();
    path.append(fuzz_run_id);
    path
}

/// The file of the `k`-th generated input of a batch, counted from 1.
pub fn input_file(dir: &str, k: usize) -> (path: String)
    ensures
        path@ == input_file_text(dir@, k as nat),
{
    let mut path = dir.to_owned();
    path.append("/input_");
    push_decimal(&mut path, k as u128);
    path.append(".json");
    path
}

/// The file of a batch's plan.
pub fn plan_file(dir: &str) -> (path: String)
    ensures
        path@ == plan_file_text(dir@),
{
    let mut path = dir.to_owned();
    path.append("/plan.json");
    path
}

// ----------------------------------------------------------------- script
/// How the script begins, up to the core.
pub const SCRIPT_HEAD: &'static str = "#!/usr/bin/env bash\n\
# Repro script generated by zk-fuzz-lab harness\n\
# Run this script from the repository root\n\
\n\
set -e\n\
\n\
echo \"\u{1F501} Reproducing differential test...\"\n\
echo \"   Core: ";

/// What stands between the core and the input in the script's greeting.
pub const SCRIPT_INPUT: &'static str = "\"\necho \"   Input: ";

/// What stands between the greeting and the command.
pub const SCRIPT_RUN: &'static str = "\"\n\
echo \"\"\n\
\n\
# Run the differential test\n\
make run CORE=";

/// The script that repeats one comparison: a greeting that names the core
/// and the input, and the command that runs the two again.
pub open spec fn repro_script_text(core: Seq<char>, input: Seq<char>) -> Seq<char> {
    SCRIPT_HEAD@ + core + SCRIPT_INPUT@ + input + SCRIPT_RUN@ + core + " INPUT="@ + input + "\n"@
}

/// Writes the script that repeats the comparison of one core on one input.
pub fn generate_repro_script(core_path: &str, input_path: &str) -> (script: String)
    ensures
        script@ == repro_script_text(core_path@, input_path@),
{
    let mut script = SCRIPT_HEAD.to_owned();
    script.append(core_path);
    script.append(SCRIPT_INPUT);
    script.append(input_path);
    script.append(SCRIPT_RUN);
    script.append(core_path);
    script.append(" INPUT=");
    script.append(input_path);
    script.append("\n");
    script
}

// ---------------------------------------------------------------- summary
/// The label of a tool's version: what the tool printed, without the white
/// space around it, or `unknown` where it printed nothing usable.
pub open spec fn version_text(printed: Option<Seq<char>>) -> Seq<char> {
    match printed {
        Some(p) => trim(p),
        None => "unknown"@,
    }
}

/// Makes the label of a tool's version from what the tool printed, if it ran
/// and printed text.
pub fn version_label(printed: Option<&str>) -> (label: String)
    ensures
        label@ == version_text(
            match printed {
                Some(p) => Some(p@),
                None => None,
            },
        ),
{
    match printed {
        Some(p) => trimmed(p),
        None => "unknown".to_owned(),
    }
}

/// Where an input came from.
#[derive(Clone, Debug, PartialEq, Eq)]
pub enum Provenance {
    /// Written by hand.
    HandWritten,
    /// Generated: from which base input, and how.
    Mutated { base_seed: String, mutation_ops: String },
}

/// The tools behind a run.
#[derive(Clone, Debug, PartialEq, Eq)]
pub struct Toolchain {
    pub zkvm_target: String,
    pub zkvm_version: String,
    pub toolchain_version: String,
}

/// How many columns the summary has.
pub const SUMMARY_COLUMNS: usize = 18;

/// The names of the summary's columns.
pub open spec fn summary_header_text() -> Seq<Seq<char>> {
    seq![
        "run_id"@,
        "core"@,
        "input"@,
        "native_status"@,
        "zkvm_status"@,
        "equal"@,
        "reason"@,
        "elapsed_native_ms"@,
        "elapsed_zkvm_ms"@,
        "timing_delta_ms"@,
        "repro_path"@,
        "generator"@,
        "base_seed"@,
        "mutation_ops"@,
        "rng_seed"@,
        "zkvm_target"@,
        "zkvm_version"@,
        "toolchain_version"@,
    ]
}

/// A flag as the summary writes it.
pub open spec fn bool_text(b: bool) -> Seq<char> {
    if b {
        "true"@
    } else {
        "false"@
    }
}

/// What the summary says of where an input came from.
pub open spec fn generator_text(p: Provenance) -> Seq<char> {
    match p {
        Provenance::HandWritten => "hand_written"@,
        Provenance::Mutated { .. } => "mutated"@,
    }
}

/// The base input of a generated input; nothing for one written by hand.
pub open spec fn base_seed_text(p: Provenance) -> Seq<char> {
    match p {
        Provenance::HandWritten => Seq::empty(),
        Provenance::Mutated { base_seed, .. } => base_seed@,
    }
}

/// The tag of a generated input; nothing for one written by hand.
pub open spec fn mutation_ops_text(p: Provenance) -> Seq<char> {
    match p {
        Provenance::HandWritten => Seq::empty(),
        Provenance::Mutated { mutation_ops, .. } => mutation_ops@,
    }
}

/// The summary's line for one comparison, column by column.
pub open spec fn summary_row_text(
    run_id: Seq<char>,
    core: Seq<char>,
    input: Seq<char>,
    native: RunResultView,
    zkvm: RunResultView,
    diff: DiffView,
    provenance: Provenance,
    tools: Toolchain,
) -> Seq<Seq<char>> {
    seq![
        run_id,
        core,
        input,
        status_name(native.status),
        status_name(zkvm.status),
        bool_text(diff.equal),
        match diff.reason {
            Some(r) => r,
            None => Seq::empty(),
        },
        decimal(native.elapsed_ms),
        decimal(zkvm.elapsed_ms),
        match diff.timing_delta_ms {
            Some(d) => decimal(d),
            None => Seq::empty(),
        },
        repro_column_text(run_id, diff.equal),
        generator_text(provenance),
        base_seed_text(provenance),
        mutation_ops_text(provenance),
        Seq::empty(),
        tools.zkvm_target@,
        tools.zkvm_version@,
        tools.toolchain_version@,
    ]
}

/// The names of the summary's columns.
pub fn summary_header() -> (header: Vec<String>)
    ensures
        texts(header@) == summary_header_text(),
        header@.len() == SUMMARY_COLUMNS,
{
    let mut header: Vec<String> = Vec::new();
    header.push("run_id".to_owned());
    header.push("core".to_owned());
    header.push("input".to_owned());
    header.push("native_status".to_owned());
    header.push("zkvm_status".to_owned());
    header.push("equal".to_owned());
    header.push("reason".to_owned());
    header.push("elapsed_native_ms".to_owned());
    header.push("elapsed_zkvm_ms".to_owned());
    header.push("timing_delta_ms".to_owned());
    header.push("repro_path".to_owned());
    header.push("generator".to_owned());
    header.push("base_seed".to_owned());
    header.push("mutation_ops".to_owned());
    header.push("rng_seed".to_owned());
    header.push("zkvm_target".to_owned());
    header.push("zkvm_version".to_owned());
    header.push("toolchain_version".to_owned());
    header
}

/// The summary's line for one comparison: as many fields as the header has
/// columns.
pub fn summary_row(
    run_id: &str,
    core: &str,
    input: &str,
    native: &RunResult,
    zkvm: &RunResult,
    diff: &Diff,
    provenance: &Provenance,
    tools: &Toolchain,
) -> (row: Vec<String>)
    ensures
        texts(row@) == summary_row_text(
            run_id@,
            core@,
            input@,
            native@,
            zkvm@,
            diff@,
            *provenance,
            *tools,
        ),
        row@.len() == SUMMARY_COLUMNS,
{
    let mut row: Vec<String> = Vec::new();
    row.push(run_id.to_owned());
    row.push(core.to_owned());
    row.push(input.to_owned());
    row.push(status_label(native.status).to_owned());
    row.push(status_label(zkvm.status).to_owned());
    row.push(if diff.equal { "true".to_owned() } else { "false".to_owned() });
    row.push(
        match &diff.reason {
            Some(r) => r.clone(),
            None => String::new(),
        },
    );
    row.push(decimal_string(native.elapsed_ms));
    row.push(decimal_string(zkvm.elapsed_ms));
    row.push(
        match diff.timing_delta_ms {
            Some(d) => decimal_string(d),
            None => String::new(),
        },
    );
    row.push(repro_column(run_id, diff.equal));
    match provenance {
        Provenance::HandWritten => {
            row.push("hand_written".to_owned());
            row.push(String::new());
            row.push(String::new());
        },
        Provenance::Mutated { base_seed, mutation_ops } => {
            row.push("mutated".to_owned());
            row.push(base_seed.clone());
            row.push(mutation_ops.clone());
        },
    }
    row.push(String::new());
    row.push(tools.zkvm_target.clone());
    row.push(tools.zkvm_version.clone());
    row.push(tools.toolchain_version.clone());
    row
}

/// The bytes that `csv` writes for one record with its default settings:
/// the fields with commas between them, quoted where needed, and the end of
/// the line; `None` where the writer reports an error.
pub uninterp spec fn csv_record(fields: Seq<Seq<char>>) -> Option<Seq<u8>>;

/// `csv::Writer::write_record` on a fresh writer into memory, followed by
/// `into_inner`. The contract gives the bytes a name and says no more of
/// them.
#[verifier::external_body]
fn csv_encode(fields: &Vec<String>) -> (bytes: Option<Vec<u8>>)
    ensures
        match bytes {
            Some(b) => csv_record(texts(fields@)) == Some(b@),
            None => csv_record(texts(fields@)) is None,
        },
{
    let mut writer = csv::Writer::from_writer(Vec::new());
    match writer.write_record(fields) {
        Ok(()) => match writer.into_inner() {
            Ok(bytes) => Some(bytes),
            Err(_) => None,
        },
        Err(_) => None,
    }
}

/// What to append to the summary for one line, given the encoded header and
/// the encoded line: the header goes first into a summary that does not
/// exist yet.
pub open spec fn summary_bytes(
    exists: bool,
    header: Option<Seq<u8>>,
    row: Option<Seq<u8>>,
) -> Option<Seq<u8>> {
    match row {
        None => None,
        Some(r) => if exists {
            Some(r)
        } else {
            match header {
                Some(h) => Some(h + r),
                None => None,
            }
        },
    }
}

/// Joins the encoded header and the encoded line into what is appended.
pub fn summary_chunk(exists: bool, header: Option<Vec<u8>>, row: Option<Vec<u8>>) -> (chunk:
    Option<Vec<u8>>)
    ensures
        match chunk {
            Some(c) => summary_bytes(
                exists,
                match header {
                    Some(h) => Some(h@),
                    None => None,
                },
                match row {
                    Some(r) => Some(r@),
                    None => None,
                },
            ) == Some(c@),
            None => summary_bytes(
                exists,
                match header {
                    Some(h) => Some(h@),
                    None => None,
                },
                match row {
                    Some(r) => Some(r@),
                    None => None,
                },
            ) is None,
        },
{
    match row {
        None => None,
        Some(r) => {
            if exists {
                Some(r)
            } else {
                match header {
                    Some(h) => {
                        let mut chunk = h;
                        let mut rest = r;
                        chunk.append(&mut rest);
                        Some(chunk)
                    },
                    None => None,
                }
            }
        },
    }
}

/// Encodes what is appended to the summary for one line.
///
/// `exists` says whether the summary is there already; if not, the header
/// goes first. `None` exactly where the encoder reports an error.
pub fn summary_append(exists: bool, row: &Vec<String>) -> (chunk: Option<Vec<u8>>)
    ensures
        match chunk {
            Some(c) => summary_bytes(
                exists,
                csv_record(summary_header_text()),
                csv_record(texts(row@)),
            ) == Some(c@),
            None => summary_bytes(
                exists,
                csv_record(summary_header_text()),
                csv_record(texts(row@)),
            ) is None,
        },
{
    let header = if exists {
        None
    } else {
        csv_encode(&summary_header())
    };
    let line = csv_encode(row);
    summary_chunk(exists, header, line)
}

// ---------------------------------------------------------------- run log
/// The full record of one comparison.
#[derive(Clone, Debug, PartialEq, Eq)]
pub struct RunLog {
    pub run_id: String,
    pub timestamp: String,
    pub core: String,
    pub input_ref: String,
    pub native: RunResult,
    pub zkvm: RunResult,
    pub diff: Diff,
}

impl RunLog {
    /// Puts the record of one comparison together.
    pub fn new(
        run_id: String,
        timestamp: String,
        core: String,
        input_ref: String,
        native: RunResult,
        zkvm: RunResult,
        diff: Diff,
    ) -> (log: RunLog)
        ensures
            log.run_id == run_id,
            log.timestamp == timestamp,
            log.core == core,
            log.input_ref == input_ref,
            log.native == native,
            log.zkvm == zkvm,
            log.diff == diff,
    {
        RunLog { run_id, timestamp, core, input_ref, native, zkvm, diff }
    }
}

// ------------------------------------------------------------------ files
/// One thing to do to the file system.
#[derive(Clone, Debug, PartialEq, Eq)]
pub enum FileAction {
    /// Make the folder, and those above it, unless they are there.
    CreateDir { path: String },
    /// Write the run log, pretty-printed, in one piece.
    WriteRunLog { path: String },
    /// Write the script and mark it executable.
    WriteScript { path: String, text: String },
    /// Copy the input.
    CopyInput { from: String, to: String },
    /// Append the bytes to the summary.
    AppendSummary { path: String, bytes: Vec<u8> },
}

/// A file action over texts and bytes.
pub enum FileActionView {
    CreateDir { path: Seq<char> },
    WriteRunLog { path: Seq<char> },
    WriteScript { path: Seq<char>, text: Seq<char> },
    CopyInput { from: Seq<char>, to: Seq<char> },
    AppendSummary { path: Seq<char>, bytes: Seq<u8> },
}

impl View for FileAction {
    type V = FileActionView;

    open spec fn view(&self) -> FileActionView {
        match self {
            FileAction::CreateDir { path } => FileActionView::CreateDir { path: path@ },
            FileAction::WriteRunLog { path } => FileActionView::WriteRunLog { path: path@ },
            FileAction::WriteScript { path, text } => FileActionView::WriteScript {
                path: path@,
                text: text@,
            },
            FileAction::CopyInput { from, to } => FileActionView::CopyInput {
                from: from@,
                to: to@,
            },
            FileAction::AppendSummary { path, bytes } => FileActionView::AppendSummary {
                path: path@,
                bytes: bytes@,
            },
        }
    }
}

/// The views of a list of actions.
pub open spec fn actions(list: Seq<FileAction>) -> Seq<FileActionView> {
    list.map_values(|a: FileAction| a@)
}

/// Making the folder that repeats a divergence.
pub open spec fn make_repro_dir(run_id: Seq<char>) -> FileActionView {
    FileActionView::CreateDir { path: repro_dir_text(run_id) }
}

/// Writing the script into that folder.
pub open spec fn write_repro_script(run_id: Seq<char>, core_path: Seq<char>, input_path: Seq<char>)
    -> FileActionView {
    FileActionView::WriteScript {
        path: repro_dir_text(run_id) + "/repro.sh"@,
        text: repro_script_text(core_path, input_path),
    }
}

/// Copying the input into that folder.
pub open spec fn copy_repro_input(run_id: Seq<char>, input_path: Seq<char>) -> FileActionView {
    FileActionView::CopyInput { from: input_path, to: repro_dir_text(run_id) + "/input.json"@ }
}

/// Writing the run log into that folder.
pub open spec fn write_repro_log(run_id: Seq<char>) -> FileActionView {
    FileActionView::WriteRunLog { path: repro_dir_text(run_id) + "/run_log.json"@ }
}

/// Appending to the summary.
pub open spec fn append_summary(bytes: Seq<u8>) -> FileActionView {
    FileActionView::AppendSummary { path: summary_path_text(), bytes }
}

/// What every single comparison writes, in order: the folder of the
/// artifacts, the run log, and the summary line.
pub open spec fn single_shot_files(run_id: Seq<char>, summary: Seq<u8>) -> Seq<FileActionView> {
    seq![
        FileActionView::CreateDir { path: "artifacts"@ },
        FileActionView::WriteRunLog { path: log_path_text(run_id) },
        append_summary(summary),
    ]
}

/// What the comparison of every generated input writes: the summary line.
pub open spec fn mutation_files(summary: Seq<u8>) -> Seq<FileActionView> {
    seq![append_summary(summary)]
}

/// What is written after a divergence, in order: the folder that repeats
/// the run, the script, the input, and the run log once more.
pub open spec fn repro_files(run_id: Seq<char>, core_path: Seq<char>, input_path: Seq<char>)
    -> Seq<FileActionView> {
    seq![
        make_repro_dir(run_id),
        write_repro_script(run_id, core_path, input_path),
        copy_repro_input(run_id, input_path),
        write_repro_log(run_id),
    ]
}

fn repro_file(run_id: &str, name: &str) -> (path: String)
    ensures
        path@ == repro_dir_text(run_id@) + "/"@ + name@,
{
    let mut path = repro_dir(run_id);
    path.append("/");
    path.append(name);
    path
}

fn script_action(run_id: &str, core_path: &str, input_path: &str) -> (a: FileAction)
    ensures
        a@ == write_repro_script(run_id@, core_path@, input_path@),
{
    proof {
        reveal_strlit("/");
        reveal_strlit("repro.sh");
        reveal_strlit("/repro.sh");
    }
    let path = repro_file(run_id, "repro.sh");
    assert(path@ =~= repro_dir_text(run_id@) + "/repro.sh"@);
    FileAction::WriteScript { path, text: generate_repro_script(core_path, input_path) }
}

fn copy_action(run_id: &str, input_path: &str) -> (a: FileAction)
    ensures
        a@ == copy_repro_input(run_id@, input_path@),
{
    proof {
        reveal_strlit("/");
        reveal_strlit("input.json");
        reveal_strlit("/input.json");
    }
    let to = repro_file(run_id, "input.json");
    assert(to@ =~= repro_dir_text(run_id@) + "/input.json"@);
    FileAction::CopyInput { from: input_path.to_owned(), to }
}

fn log_copy_action(run_id: &str) -> (a: FileAction)
    ensures
        a@ == write_repro_log(run_id@),
{
    proof {
        reveal_strlit("/");
        reveal_strlit("run_log.json");
        reveal_strlit("/run_log.json");
    }
    let path = repro_file(run_id, "run_log.json");
    assert(path@ =~= repro_dir_text(run_id@) + "/run_log.json"@);
    FileAction::WriteRunLog { path }
}

/// Lists what a single comparison writes, whatever its outcome.
///
/// `summary` is what `summary_append` encoded for the comparison.
pub fn plan_log_results(run_id: &str, summary: Vec<u8>) -> (plan: Vec<FileAction>)
    ensures
        actions(plan@) == single_shot_files(run_id@, summary@),
{
    let mut plan: Vec<FileAction> = Vec::new();
    plan.push(FileAction::CreateDir { path: "artifacts".to_owned() });
    plan.push(FileAction::WriteRunLog { path: log_path(run_id) });
    plan.push(FileAction::AppendSummary { path: summary_path(), bytes: summary });
    plan
}

/// Lists what the comparison of a generated input writes, whatever its
/// outcome.
///
/// `summary` is what `summary_append` encoded for the comparison.
pub fn plan_log_mutation_result(summary: Vec<u8>) -> (plan: Vec<FileAction>)
    ensures
        actions(plan@) == mutation_files(summary@),
{
    let mut plan: Vec<FileAction> = Vec::new();
    plan.push(FileAction::AppendSummary { path: summary_path(), bytes: summary });
    plan
}

/// Lists what is written after a divergence, so that the run can be
/// repeated.
pub fn plan_repro(run_id: &str, core_path: &str, input_path: &str) -> (plan: Vec<FileAction>)
    ensures
        actions(plan@) == repro_files(run_id@, core_path@, input_path@),
{
    let mut plan: Vec<FileAction> = Vec::new();
    plan.push(FileAction::CreateDir { path: repro_dir(run_id) });
    plan.push(script_action(run_id, core_path, input_path));
    plan.push(copy_action(run_id, input_path));
    plan.push(log_copy_action(run_id));
    plan
}

} // verus!
