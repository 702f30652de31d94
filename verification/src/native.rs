//! The native runner's decisions: whether a core returns on an input, what
//! it commits, and what run result each event of the worker amounts to.
//!
//! The worker thread, the clock and the catching of aborts are the caller's;
//! they reach this module as a `WorkerEvent`.

use vstd::prelude::*;
use vstd::string::*;
use crate::cores::arithmetic;
use crate::cores::arithmetic::{arithmetic_abort, arithmetic_output};
use crate::cores::fib;
use crate::cores::fib::fib_output;
use crate::cores::io_echo;
use crate::cores::io_echo::io_echo_output;
use crate::cores::panic_test;
use crate::cores::panic_test::{panic_abort, PanicOutput};
use crate::cores::simple_struct;
use crate::cores::simple_struct::simple_struct_output;
use crate::cores::timeout_test;
use crate::cores::timeout_test::TimeoutOutput;
use crate::oracle::{
    MetaEntry,
    MetaEntryView,
    MetaValue,
    MetaValueView,
    RunResult,
    RunResultView,
    Scalar,
    Status,
};
use crate::registry::{
    commit_stream,
    commits_of,
    core_name,
    core_of_name,
    input_core,
    lookup,
    name_of,
    CoreId,
    CoreInput,
    CoreInputView,
    CoreOutput,
};

verus! {

/// What becomes of a core on one input.
pub enum Fate {
    /// The core returns an output.
    Returns,
    /// The core aborts with this message.
    Aborts(Seq<char>),
    /// The core spins forever.
    NeverReturns,
}

/// What becomes of the input's core on the input.
pub open spec fn fate(input: CoreInputView) -> Fate {
    match input {
        CoreInputView::Fib(_) => Fate::Returns,
        CoreInputView::IoEcho(_) => Fate::Returns,
        CoreInputView::SimpleStruct(_) => Fate::Returns,
        CoreInputView::PanicTest(i) => match panic_abort(i) {
            Some(m) => Fate::Aborts(m),
            None => Fate::Returns,
        },
        CoreInputView::Arithmetic(i) => match arithmetic_abort(i) {
            Some(m) => Fate::Aborts(m),
            None => Fate::Returns,
        },
        CoreInputView::TimeoutTest(i) => if timeout_test::never_returns(i) {
            Fate::NeverReturns
        } else {
            Fate::Returns
        },
    }
}

/// The output of the input's core, where the core returns.
pub open spec fn core_output(input: CoreInputView) -> CoreOutput {
    match input {
        CoreInputView::Fib(i) => CoreOutput::Fib(fib_output(i)),
        CoreInputView::IoEcho(data) => CoreOutput::IoEcho(io_echo_output(data)),
        CoreInputView::SimpleStruct(i) => CoreOutput::SimpleStruct(simple_struct_output(i)),
        CoreInputView::PanicTest(_) => CoreOutput::PanicTest(
            PanicOutput { should_panic_u32: 0, status_code: 0 },
        ),
        CoreInputView::Arithmetic(i) => CoreOutput::Arithmetic(arithmetic_output(i)),
        CoreInputView::TimeoutTest(i) => CoreOutput::TimeoutTest(
            TimeoutOutput { completed: i.iterations },
        ),
    }
}

/// The commits of a native run that returns: a function of the input alone.
pub open spec fn native_commits(input: CoreInputView) -> Seq<Scalar> {
    commit_stream(core_output(input))
}

/// The answer of `preflight`.
#[derive(Clone, Debug, PartialEq, Eq)]
pub enum Preflight {
    Runs,
    Aborts(String),
    NeverReturns,
}

impl View for Preflight {
    type V = Fate;

    open spec fn view(&self) -> Fate {
        match self {
            Preflight::Runs => Fate::Returns,
            Preflight::Aborts(m) => Fate::Aborts(m@),
            Preflight::NeverReturns => Fate::NeverReturns,
        }
    }
}

/// Why a runner could not produce a run result at all. These are faults of
/// the harness, never candidates for a divergence.
#[derive(Clone, Debug, PartialEq, Eq)]
pub enum RunnerError {
    /// No core is registered under this name.
    UnknownCore { name: String },
    /// The input is not an input of the named core.
    BadInput { expected: CoreId, found: CoreId },
    /// The input could not be decoded; the decoder's words.
    Undecodable { detail: String },
    /// Something around the run failed, such as reading a file; its words.
    Harness { detail: String },
    /// The worker went away without an answer.
    Disconnected { timed: bool },
}

/// The words in which a runner's fault is reported.
pub open spec fn runner_error_text(e: RunnerError) -> Seq<char> {
    match e {
        RunnerError::UnknownCore { name } => "Unknown core: "@ + name@,
        RunnerError::BadInput { expected, found } => "Input of core "@ + core_name(found)
            + " given to core "@ + core_name(expected),
        RunnerError::Undecodable { detail } => "Failed to decode input: "@ + detail@,
        RunnerError::Harness { detail } => detail@,
        RunnerError::Disconnected { timed } => if timed {
            "Runner thread disconnected unexpectedly"@
        } else {
            "Runner thread disconnected"@
        },
    }
}

impl RunnerError {
    /// The words in which the fault is reported.
    pub fn message(&self) -> (text: String)
        ensures
            text@ == runner_error_text(*self),
    {
        match self {
            RunnerError::UnknownCore { name } => {
                let mut text = "Unknown core: ".to_owned();
                text.append(name.as_str());
                text
            },
            RunnerError::BadInput { expected, found } => {
                let mut text = "Input of core ".to_owned();
                text.append(name_of(*found));
                text.append(" given to core ");
                text.append(name_of(*expected));
                text
            },
            RunnerError::Undecodable { detail } => {
                let mut text = "Failed to decode input: ".to_owned();
                text.append(detail.as_str());
                text
            },
            RunnerError::Harness { detail } => detail.clone(),
            RunnerError::Disconnected { timed } => {
                if *timed {
                    "Runner thread disconnected unexpectedly".to_owned()
                } else {
                    "Runner thread disconnected".to_owned()
                }
            },
        }
    }
}

/// Says what becomes of the input's core on the input, without running it.
pub fn preflight(input: &CoreInput) -> (p: Preflight)
    ensures
        p@ == fate(input@),
{
    match input {
        CoreInput::Fib(_) => Preflight::Runs,
        CoreInput::IoEcho(_) => Preflight::Runs,
        CoreInput::SimpleStruct(_) => Preflight::Runs,
        CoreInput::PanicTest(i) => match panic_test::abort_message(i) {
            Some(m) => Preflight::Aborts(m),
            None => Preflight::Runs,
        },
        CoreInput::Arithmetic(i) => match arithmetic::abort_message(i) {
            Some(m) => Preflight::Aborts(m),
            None => Preflight::Runs,
        },
        CoreInput::TimeoutTest(i) => if timeout_test::never_returns(*i) {
            Preflight::NeverReturns
        } else {
            Preflight::Runs
        },
    }
}

/// Runs the input's core on an input on which it returns.
pub fn run_core(input: CoreInput) -> (output: CoreOutput)
    requires
        fate(input@) is Returns,
    ensures
        output == core_output(input@),
{
    match input {
        CoreInput::Fib(i) => CoreOutput::Fib(fib::run(i)),
        CoreInput::IoEcho(i) => CoreOutput::IoEcho(io_echo::run(i)),
        CoreInput::SimpleStruct(i) => CoreOutput::SimpleStruct(simple_struct::run(i)),
        CoreInput::PanicTest(i) => CoreOutput::PanicTest(panic_test::run(i)),
        CoreInput::Arithmetic(i) => CoreOutput::Arithmetic(arithmetic::run(i)),
        CoreInput::TimeoutTest(i) => CoreOutput::TimeoutTest(timeout_test::run(i)),
    }
}

/// Whether the named core is registered and the input is one of its inputs.
pub open spec fn accepts(name: Seq<char>, input: CoreInputView) -> bool {
    core_of_name(name) == Some(input_core(input))
}

/// Runs the named core on the input and returns what it commits.
///
/// Fails for a name that is not registered and for an input of another core.
/// The core must return on the input: ask `preflight` first, or call
/// `attempt`.
pub fn run_core_dispatch(core_name: &str, input: CoreInput) -> (r: Result<
    Vec<Scalar>,
    RunnerError,
>)
    requires
        accepts(core_name@, input@) ==> fate(input@) is Returns,
    ensures
        match r {
            Ok(commits) => accepts(core_name@, input@) && commits@ == native_commits(input@),
            Err(RunnerError::UnknownCore { name }) => core_of_name(core_name@) is None && name@
                == core_name@,
            Err(RunnerError::BadInput { expected, found }) => core_of_name(core_name@) == Some(
                expected,
            ) && found == input_core(input@) && expected != found,
            Err(_) => false,
        },
{
    let found = core_of(&input);
    match lookup(core_name) {
        None => Err(RunnerError::UnknownCore { name: core_name.to_owned() }),
        Some(expected) => {
            if expected != found {
                Err(RunnerError::BadInput { expected, found })
            } else {
                let output = run_core(input);
                Ok(commits_of(&output))
            }
        },
    }
}

/// The core that an input is meant for.
pub fn core_of(input: &CoreInput) -> (core: CoreId)
    ensures
        core == input_core(input@),
{
    match input {
        CoreInput::Fib(_) => CoreId::Fib,
        CoreInput::PanicTest(_) => CoreId::PanicTest,
        CoreInput::TimeoutTest(_) => CoreId::TimeoutTest,
        CoreInput::IoEcho(_) => CoreId::IoEcho,
        CoreInput::Arithmetic(_) => CoreId::Arithmetic,
        CoreInput::SimpleStruct(_) => CoreId::SimpleStruct,
    }
}

/// What a native execution of a core on an input comes to, timing aside.
#[derive(Clone, Debug, PartialEq, Eq)]
pub enum Attempt {
    Commits(Vec<Scalar>),
    Abort(String),
    NeverReturns,
}

/// What `attempt` owes on a core name and an input.
pub open spec fn attempted(name: Seq<char>, input: CoreInputView, r: Result<Attempt, RunnerError>)
    -> bool {
    match r {
        Ok(Attempt::Commits(commits)) => accepts(name, input) && fate(input) is Returns
            && commits@ == native_commits(input),
        Ok(Attempt::Abort(m)) => accepts(name, input) && fate(input) == Fate::Aborts(m@),
        Ok(Attempt::NeverReturns) => accepts(name, input) && fate(input) is NeverReturns,
        Err(RunnerError::UnknownCore { name: n }) => core_of_name(name) is None && n@ == name,
        Err(RunnerError::BadInput { expected, found }) => core_of_name(name) == Some(expected)
            && found == input_core(input) && expected != found,
        Err(_) => false,
    }
}

/// Decides what the named core does on the input, and runs it where it
/// returns.
///
/// Fails exactly as `run_core_dispatch` does. Otherwise the answer follows
/// the fate of the input: the commits where the core returns, the message
/// where it aborts, and `NeverReturns` where it would spin forever.
pub fn attempt(core_name: &str, input: CoreInput) -> (r: Result<Attempt, RunnerError>)
    ensures
        attempted(core_name@, input@, r),
{
    let found = core_of(&input);
    match lookup(core_name) {
        None => Err(RunnerError::UnknownCore { name: core_name.to_owned() }),
        Some(expected) => {
            if expected != found {
                Err(RunnerError::BadInput { expected, found })
            } else {
                match preflight(&input) {
                    Preflight::Aborts(m) => Ok(Attempt::Abort(m)),
                    Preflight::NeverReturns => Ok(Attempt::NeverReturns),
                    Preflight::Runs => {
                        let output = run_core(input);
                        Ok(Attempt::Commits(commits_of(&output)))
                    },
                }
            }
        },
    }
}

/// A native run is repeatable: two attempts on one core and one input end
/// alike, and where they return they commit the same values.
pub proof fn lemma_attempts_agree(
    name: Seq<char>,
    input: CoreInputView,
    first: Result<Attempt, RunnerError>,
    second: Result<Attempt, RunnerError>,
)
    requires
        attempted(name, input, first),
        attempted(name, input, second),
    ensures
        first is Ok <==> second is Ok,
        first matches Ok(Attempt::Commits(a)) ==> second matches Ok(Attempt::Commits(b)) && a@
            == b@,
        first matches Ok(Attempt::Abort(a)) ==> second matches Ok(Attempt::Abort(b)) && a@ == b@,
        first matches Ok(Attempt::NeverReturns) ==> second matches Ok(Attempt::NeverReturns),
{
}

/// What a caught abort carried.
#[derive(Clone, Debug, PartialEq, Eq)]
pub enum PanicPayload {
    /// A text, whether borrowed or owned.
    Message(String),
    /// Anything else.
    Opaque,
}

/// The message of an abort, where it carried none.
pub open spec fn unknown_panic() -> Seq<char> {
    "Unknown panic"@
}

/// The message of a caught abort: its text, or the stand-in.
pub open spec fn panic_message(payload: PanicPayload) -> Seq<char> {
    match payload {
        PanicPayload::Message(m) => m@,
        PanicPayload::Opaque => unknown_panic(),
    }
}

/// The message of a caught abort: its text, or "Unknown panic".
pub fn extract_panic_message(payload: &PanicPayload) -> (msg: String)
    ensures
        msg@ == panic_message(*payload),
{
    match payload {
        PanicPayload::Message(m) => m.clone(),
        PanicPayload::Opaque => "Unknown panic".to_owned(),
    }
}

/// The time budget of a run: none for 0 seconds.
pub fn time_budget(timeout_secs: u64) -> (budget: Option<u64>)
    ensures
        budget == if timeout_secs > 0 {
            Some(timeout_secs)
        } else {
            None::<u64>
        },
{
    if timeout_secs > 0 {
        Some(timeout_secs)
    } else {
        None
    }
}

/// What the waiting side of a runner saw.
#[derive(Clone, Debug, PartialEq, Eq)]
pub enum WorkerEvent {
    /// The core returned; the wall time is that of the core call alone.
    Finished { commits: Vec<Scalar>, elapsed_ms: u128 },
    /// The core aborted and the abort was caught.
    Panicked { payload: PanicPayload },
    /// The worker reported a fault of the harness.
    Failed { error: RunnerError },
    /// No answer came within the budget.
    TimedOut { timeout_secs: u64 },
    /// The worker went away without an answer.
    Disconnected { timed: bool },
}

/// An annotation that holds a text.
pub open spec fn text_entry(key: Seq<char>, value: Seq<char>) -> MetaEntryView {
    MetaEntryView { key, value: MetaValueView::Text(value) }
}

/// An annotation that holds a number.
pub open spec fn number_entry(key: Seq<char>, value: u64) -> MetaEntryView {
    MetaEntryView { key, value: MetaValueView::Number(value) }
}

/// An annotation that holds a text.
pub fn meta_text(key: &str, value: String) -> (e: MetaEntry)
    ensures
        e@ == text_entry(key@, value@),
{
    MetaEntry { key: key.to_owned(), value: MetaValue::Text(value) }
}

/// An annotation that holds a number.
pub fn meta_number(key: &str, value: u64) -> (e: MetaEntry)
    ensures
        e@ == number_entry(key@, value),
{
    MetaEntry { key: key.to_owned(), value: MetaValue::Number(value) }
}

/// The run result that a native run ends in, for each event but a fault.
pub open spec fn native_run(event: WorkerEvent) -> RunResultView {
    match event {
        WorkerEvent::Finished { commits, elapsed_ms } => RunResultView {
            status: Status::Completed,
            elapsed_ms: elapsed_ms as nat,
            commits: commits@,
            meta: seq![text_entry("runner"@, "native"@)],
        },
        WorkerEvent::Panicked { payload } => RunResultView {
            status: Status::Panic,
            elapsed_ms: 0,
            commits: Seq::empty(),
            meta: seq![
                text_entry("runner"@, "native"@),
                text_entry("panic_msg"@, panic_message(payload)),
            ],
        },
        WorkerEvent::TimedOut { timeout_secs } => RunResultView {
            status: Status::Timeout,
            elapsed_ms: (timeout_secs * 1000) as nat,
            commits: Seq::empty(),
            meta: seq![
                text_entry("runner"@, "native"@),
                number_entry("timeout_secs"@, timeout_secs),
            ],
        },
        _ => arbitrary(),
    }
}

/// Turns what the waiting side saw into the result of the native run.
///
/// A return, a caught abort and an overrun become run results with status
/// `Completed`, `Panic` and `Timeout`; the last two carry no commits. An abort
/// is reported with wall time 0, an overrun with the whole budget. A fault
/// of the harness and a lost worker are errors, never run results.
pub fn native_result(event: WorkerEvent) -> (r: Result<RunResult, RunnerError>)
    ensures
        match event {
            WorkerEvent::Failed { error } => r == Err::<RunResult, RunnerError>(error),
            WorkerEvent::Disconnected { timed } => r == Err::<RunResult, RunnerError>(
                RunnerError::Disconnected { timed },
            ),
            _ => r matches Ok(run) && run@ == native_run(event) && run.wf(),
        },
{
    match event {
        WorkerEvent::Finished { commits, elapsed_ms } => {
            let mut meta: Vec<MetaEntry> = Vec::new();
            meta.push(meta_text("runner", "native".to_owned()));
            let run = RunResult::completed(elapsed_ms, commits, meta);
            assert(run@.meta =~= seq![text_entry("runner"@, "native"@)]);
            Ok(run)
        },
        WorkerEvent::Panicked { payload } => {
            let mut meta: Vec<MetaEntry> = Vec::new();
            meta.push(meta_text("runner", "native".to_owned()));
            meta.push(meta_text("panic_msg", extract_panic_message(&payload)));
            let run = RunResult::panicked(0, meta);
            assert(run@.meta =~= seq![
                text_entry("runner"@, "native"@),
                text_entry("panic_msg"@, panic_message(payload)),
            ]);
            Ok(run)
        },
        WorkerEvent::TimedOut { timeout_secs } => {
            let mut meta: Vec<MetaEntry> = Vec::new();
            meta.push(meta_text("runner", "native".to_owned()));
            meta.push(meta_number("timeout_secs", timeout_secs));
            let run = RunResult::timed_out(timeout_secs as u128 * 1000, meta);
            assert(run@.meta =~= seq![
                text_entry("runner"@, "native"@),
                number_entry("timeout_secs"@, timeout_secs),
            ]);
            Ok(run)
        },
        WorkerEvent::Failed { error } => Err(error),
        WorkerEvent::Disconnected { timed } => Err(RunnerError::Disconnected { timed }),
    }
}

} // verus!
