//! The orchestrator's decisions: where the guest of a core lives, which
//! cores a batch visits, the steps of one comparison, and the counts of a
//! batch. Building, running and writing are the caller's.

use vstd::prelude::*;
use vstd::string::*;
use crate::mutator::{views, MutatedInput, MutatedInputView};
use crate::native::RunnerError;
use crate::oracle::{compare, verdict, Diff, RunResult};
use crate::registry::{
    all_cores,
    core_name,
    core_of_name,
    lemma_names_are_distinct,
    lookup,
    name_of,
    registered_cores,
    CoreId,
};
use crate::text::{
    chars_of,
    join,
    replace_char,
    replaced,
    same_text,
    split,
    split_on,
    string_of,
    trim,
    trimmed,
};

verus! {

/// Why the orchestrator cannot go on. These end the program; they are never
/// written down as the result of a comparison.
#[derive(Clone, Debug, PartialEq, Eq)]
pub enum HarnessError {
    /// No core is registered under this name.
    UnknownCore { name: String },
    /// A batch was asked for a core that is not registered.
    UnknownCoreInList { name: String },
    /// The path of the core has no last segment to take the name from.
    InvalidCorePath { path: String },
}

/// The names of the registered cores with `, ` between them.
pub open spec fn available_cores_text() -> Seq<char> {
    join(registered_cores().map_values(|c: CoreId| core_name(c)), ", "@)
}

/// The words in which an error is reported.
pub open spec fn harness_error_text(e: HarnessError) -> Seq<char> {
    match e {
        HarnessError::UnknownCore { name } => "Unknown core: "@ + name@,
        HarnessError::UnknownCoreInList { name } => "Unknown core: '"@ + name@
            + "'\n\nAvailable cores: "@ + available_cores_text(),
        HarnessError::InvalidCorePath { path } => "Invalid core path: "@ + path@,
    }
}

/// The names of the registered cores with `, ` between them.
pub fn available_cores() -> (list: String)
    ensures
        list@ == available_cores_text(),
{
    let cores = all_cores();
    let ghost names = registered_cores().map_values(|c: CoreId| core_name(c));
    let mut list = String::new();
    let mut i: usize = 0;
    while i < cores.len()
        invariant
            i <= cores.len(),
            cores@ == registered_cores(),
            names == registered_cores().map_values(|c: CoreId| core_name(c)),
            list@ == join(names.take(i as int), ", "@),
        decreases cores.len() - i,
    {
        if i > 0 {
            list.append(", ");
        }
        list.append(name_of(cores[i]));
        proof {
            let next = names.take(i as int + 1);
            assert(next.drop_last() =~= names.take(i as int));
        }
        i += 1;
    }
    assert(names.take(cores.len() as int) =~= names);
    list
}

impl HarnessError {
    /// The words in which the error is reported.
    pub fn message(&self) -> (text: String)
        ensures
            text@ == harness_error_text(*self),
    {
        match self {
            HarnessError::UnknownCore { name } => {
                let mut text = "Unknown core: ".to_owned();
                text.append(name.as_str());
                text
            },
            HarnessError::UnknownCoreInList { name } => {
                let mut text = "Unknown core: '".to_owned();
                text.append(name.as_str());
                text.append("'\n\nAvailable cores: ");
                text.append(available_cores().as_str());
                text
            },
            HarnessError::InvalidCorePath { path } => {
                let mut text = "Invalid core path: ".to_owned();
                text.append(path.as_str());
                text
            },
        }
    }
}

// ----------------------------------------------------------------- places
/// A text without the slashes at its end.
pub open spec fn without_trailing_slashes(s: Seq<char>) -> Seq<char>
    decreases s.len(),
{
    if s.len() > 0 && s.last() == '/' {
        without_trailing_slashes(s.drop_last())
    } else {
        s
    }
}

/// What stands behind the last slash of a text; the whole text where it has
/// no slash.
pub open spec fn after_last_slash(s: Seq<char>) -> Seq<char>
    decreases s.len(),
{
    if s.len() == 0 || s.last() == '/' {
        Seq::empty()
    } else {
        after_last_slash(s.drop_last()).push(s.last())
    }
}

/// The last segment of a path, slashes at the end aside. A path that ends in
/// `.` or `..`, or that has no segment at all, has none.
pub open spec fn last_segment(path: Seq<char>) -> Option<Seq<char>> {
    let segment = after_last_slash(without_trailing_slashes(path));
    if segment.len() == 0 || segment == "."@ || segment == ".."@ {
        None
    } else {
        Some(segment)
    }
}

/// Takes the name of a core from the path of its folder: the last segment.
pub fn core_name_of_path(core_path: &str) -> (r: Result<String, HarnessError>)
    ensures
        match r {
            Ok(name) => last_segment(core_path@) == Some(name@),
            Err(HarnessError::InvalidCorePath { path }) => last_segment(core_path@) is None
                && path@ == core_path@,
            Err(_) => false,
        },
{
    let chars = chars_of(core_path);
    let mut end: usize = chars.len();
    assert(chars@.take(end as int) =~= chars@);
    while end > 0 && chars[end - 1] == '/'
        invariant
            end <= chars.len(),
            without_trailing_slashes(chars@) == without_trailing_slashes(chars@.take(end as int)),
        decreases end,
    {
        assert(chars@.take(end as int).drop_last() =~= chars@.take(end - 1));
        end -= 1;
    }
    let ghost stem = chars@.take(end as int);
    let mut start: usize = end;
    assert(stem.take(end as int) =~= stem);
    while start > 0 && chars[start - 1] != '/'
        invariant
            start <= end <= chars.len(),
            stem == chars@.take(end as int),
            after_last_slash(stem) == after_last_slash(stem.take(start as int)) + stem.subrange(
                start as int,
                end as int,
            ),
        decreases start,
    {
        assert(stem.take(start as int).drop_last() =~= stem.take(start - 1));
        start -= 1;
    }
    assert(stem.subrange(start as int, end as int) =~= chars@.subrange(start as int, end as int));
    let name = string_of(chars.as_slice(), start, end);
    if start == end || same_text(name.as_str(), ".") || same_text(name.as_str(), "..") {
        Err(HarnessError::InvalidCorePath { path: core_path.to_owned() })
    } else {
        Ok(name)
    }
}

/// The folder of a core.
pub open spec fn core_path_text(core: Seq<char>) -> Seq<char> {
    "guest/cores/"@ + core
}

/// The folder of the guest program of a core.
pub open spec fn guest_dir_text(core: Seq<char>) -> Seq<char> {
    "adapters/sp1_guest/"@ + core + "_guest"@
}

/// The file of the guest program of a core, once built: in the guest's
/// folder, under the target's release folder, named after the core with
/// hyphens for underscores.
pub open spec fn elf_path_text(core: Seq<char>) -> Seq<char> {
    guest_dir_text(core) + "/target/elf-compilation/riscv32im-succinct-zkvm-elf/release/"@
        + replaced(core, '_', '-') + "-guest"@
}

/// The folder of a core.
pub fn core_path(core: &str) -> (path: String)
    ensures
        path@ == core_path_text(core@),
{
    let mut path = "guest/cores/".to_owned();
    path.append(core);
    path
}

/// The folder of the guest program of a core.
pub fn guest_dir(core: &str) -> (path: String)
    ensures
        path@ == guest_dir_text(core@),
{
    let mut path = "adapters/sp1_guest/".to_owned();
    path.append(core);
    path.append("_guest");
    path
}

/// The file of the guest program of a core, once built.
pub fn elf_path(core: &str) -> (path: String)
    ensures
        path@ == elf_path_text(core@),
{
    let mut path = guest_dir(core);
    path.append("/target/elf-compilation/riscv32im-succinct-zkvm-elf/release/");
    path.append(replace_char(core, '_', '-').as_str());
    path.append("-guest");
    path
}

/// The hand-written input that a batch on a core starts from.
pub open spec fn base_input_text(core: CoreId) -> Seq<char> {
    match core {
        CoreId::Fib => "inputs/fib_24.json"@,
        CoreId::PanicTest => "inputs/panic_no.json"@,
        CoreId::TimeoutTest => "inputs/timeout_finite.json"@,
        CoreId::IoEcho => "inputs/io_echo_1kb.json"@,
        CoreId::Arithmetic => "inputs/arithmetic_add_normal.json"@,
        CoreId::SimpleStruct => "inputs/simple_struct_normal.json"@,
    }
}

/// Finds the hand-written input that a batch on the named core starts from.
pub fn get_base_input_for_core(core_name: &str) -> (r: Result<String, HarnessError>)
    ensures
        match r {
            Ok(path) => core_of_name(core_name@) matches Some(core) && path@ == base_input_text(
                core,
            ),
            Err(HarnessError::UnknownCore { name }) => core_of_name(core_name@) is None && name@
                == core_name@,
            Err(_) => false,
        },
{
    match lookup(core_name) {
        Some(CoreId::Fib) => Ok("inputs/fib_24.json".to_owned()),
        Some(CoreId::PanicTest) => Ok("inputs/panic_no.json".to_owned()),
        Some(CoreId::TimeoutTest) => Ok("inputs/timeout_finite.json".to_owned()),
        Some(CoreId::IoEcho) => Ok("inputs/io_echo_1kb.json".to_owned()),
        Some(CoreId::Arithmetic) => Ok("inputs/arithmetic_add_normal.json".to_owned()),
        Some(CoreId::SimpleStruct) => Ok("inputs/simple_struct_normal.json".to_owned()),
        None => Err(HarnessError::UnknownCore { name: core_name.to_owned() }),
    }
}

// ------------------------------------------------------------ batch cores
/// The names that a batch asks for: every registered core for `all`, else
/// the pieces between the commas, without the white space around them.
pub open spec fn requested_names(arg: Seq<char>) -> Seq<Seq<char>> {
    if arg == "all"@ {
        registered_cores().map_values(|c: CoreId| core_name(c))
    } else {
        split(arg, ',').map_values(|piece: Seq<char>| trim(piece))
    }
}

/// Reads the list of cores that a batch is to visit.
///
/// `all` stands for every registered core; otherwise the names stand between
/// commas. The cores come back in the order asked for. The first name that
/// is not registered is the error.
pub fn parse_core_list(cores_arg: &str) -> (r: Result<Vec<CoreId>, HarnessError>)
    ensures
        match r {
            Ok(cores) => cores@.len() == requested_names(cores_arg@).len() && forall|i: int|
                0 <= i < cores@.len() ==> core_of_name(#[trigger] requested_names(cores_arg@)[i])
                    == Some(cores@[i]),
            Err(HarnessError::UnknownCoreInList { name }) => exists|i: int|
                0 <= i < requested_names(cores_arg@).len() && #[trigger] requested_names(
                    cores_arg@,
                )[i] == name@ && core_of_name(name@) is None && forall|j: int|
                    0 <= j < i ==> core_of_name(#[trigger] requested_names(cores_arg@)[j])
                        is Some,
            Err(_) => false,
        },
{
    if same_text(cores_arg, "all") {
        let cores = all_cores();
        proof {
            lemma_names_are_distinct();
        }
        return Ok(cores);
    }
    let pieces = split_on(cores_arg, ',');
    let ghost names = requested_names(cores_arg@);
    let mut cores: Vec<CoreId> = Vec::new();
    let mut i: usize = 0;
    while i < pieces.len()
        invariant
            i <= pieces.len(),
            names == requested_names(cores_arg@),
            cores_arg@ != "all"@,
            pieces@.map_values(|p: String| p@) == split(cores_arg@, ','),
            cores@.len() == i,
            forall|k: int| 0 <= k < i ==> core_of_name(#[trigger] names[k]) == Some(cores@[k]),
        decreases pieces.len() - i,
    {
        let name = trimmed(pieces[i].as_str());
        proof {
            assert(names[i as int] == name@);
        }
        match lookup(name.as_str()) {
            Some(core) => {
                cores.push(core);
            },
            None => {
                return Err(HarnessError::UnknownCoreInList { name });
            },
        }
        i += 1;
    }
    Ok(cores)
}

// ------------------------------------------------------------- comparison
/// How far one comparison has come.
#[derive(Clone, Debug, PartialEq, Eq)]
pub enum Comparison {
    /// The guest is in place; nothing has run.
    Prepared,
    /// The native run is in.
    NativeRun { native: RunResult },
    /// Both runs are in.
    ZkvmRun { native: RunResult, zkvm: RunResult },
    /// The oracle has spoken.
    Compared { native: RunResult, zkvm: RunResult, diff: Diff },
    /// The log and the summary line are written.
    Persisted { diverged: bool },
    /// The folder that repeats the divergence is written.
    Reproduced,
    /// A runner failed as a part of the harness; nothing is recorded.
    Failed { error: RunnerError },
}

/// What the caller is to do next.
#[derive(Clone, Copy, Debug, PartialEq, Eq, Structural)]
pub enum Action {
    RunNative,
    RunZkvm,
    Compare,
    Persist,
    Reproduce,
    Finish,
    Abort,
}

/// What the caller reports back.
#[derive(Debug, PartialEq, Eq)]
pub enum Event {
    NativeFinished(Result<RunResult, RunnerError>),
    ZkvmFinished(Result<RunResult, RunnerError>),
    Judge,
    Persisted,
    Reproduced,
}

/// The action that a state asks for.
pub open spec fn action_of(state: Comparison) -> Action {
    match state {
        Comparison::Prepared => Action::RunNative,
        Comparison::NativeRun { .. } => Action::RunZkvm,
        Comparison::ZkvmRun { .. } => Action::Compare,
        Comparison::Compared { .. } => Action::Persist,
        Comparison::Persisted { diverged } => if diverged {
            Action::Reproduce
        } else {
            Action::Finish
        },
        Comparison::Reproduced => Action::Finish,
        Comparison::Failed { .. } => Action::Abort,
    }
}

/// How many steps a state is away from the end at most.
pub open spec fn steps_left(state: Comparison) -> nat {
    match state {
        Comparison::Prepared => 5,
        Comparison::NativeRun { .. } => 4,
        Comparison::ZkvmRun { .. } => 3,
        Comparison::Compared { .. } => 2,
        Comparison::Persisted { diverged } => if diverged {
            1
        } else {
            0
        },
        Comparison::Reproduced => 0,
        Comparison::Failed { .. } => 0,
    }
}

/// The action that a state asks for.
pub fn next_action(state: &Comparison) -> (action: Action)
    ensures
        action == action_of(*state),
        (action == Action::Finish || action == Action::Abort) <==> steps_left(*state) == 0,
{
    match state {
        Comparison::Prepared => Action::RunNative,
        Comparison::NativeRun { .. } => Action::RunZkvm,
        Comparison::ZkvmRun { .. } => Action::Compare,
        Comparison::Compared { .. } => Action::Persist,
        Comparison::Persisted { diverged } => if *diverged {
            Action::Reproduce
        } else {
            Action::Finish
        },
        Comparison::Reproduced => Action::Finish,
        Comparison::Failed { .. } => Action::Abort,
    }
}

/// Moves a comparison on by one event.
///
/// The native run comes first, the zkVM run second, then the oracle, then
/// the writing; a folder that repeats the run is asked for exactly after a
/// divergence. The oracle's answer is the oracle's verdict on the two runs
/// that came in. A runner that fails as a part of the harness ends the
/// comparison. An event that the state does not wait for changes nothing.
/// Every change brings the comparison nearer to its end, and at the end
/// nothing changes any more.
pub fn step(state: Comparison, event: Event) -> (next: Comparison)
    ensures
        match (state, event) {
            (Comparison::Prepared, Event::NativeFinished(Ok(native))) => next
                == (Comparison::NativeRun { native }),
            (Comparison::Prepared, Event::NativeFinished(Err(error))) => next
                == (Comparison::Failed { error }),
            (Comparison::NativeRun { native }, Event::ZkvmFinished(Ok(zkvm))) => next
                == (Comparison::ZkvmRun { native, zkvm }),
            (Comparison::NativeRun { native }, Event::ZkvmFinished(Err(error))) => next
                == (Comparison::Failed { error }),
            (Comparison::ZkvmRun { native, zkvm }, Event::Judge) => {
                &&& next matches Comparison::Compared { native: n, zkvm: z, diff }
                &&& n == native
                &&& z == zkvm
                &&& diff@ == verdict(native@, zkvm@)
            },
            (Comparison::Compared { native, zkvm, diff }, Event::Persisted) => next
                == (Comparison::Persisted { diverged: !diff.equal }),
            (Comparison::Persisted { diverged }, Event::Reproduced) => if diverged {
                next == Comparison::Reproduced
            } else {
                next == state
            },
            _ => next == state,
        },
        next == state || steps_left(next) < steps_left(state),
        steps_left(state) == 0 ==> next == state,
{
    match (state, event) {
        (Comparison::Prepared, Event::NativeFinished(Ok(native))) => Comparison::NativeRun {
            native,
        },
        (Comparison::Prepared, Event::NativeFinished(Err(error))) => Comparison::Failed { error },
        (Comparison::NativeRun { native }, Event::ZkvmFinished(Ok(zkvm))) => Comparison::ZkvmRun {
            native,
            zkvm,
        },
        (Comparison::NativeRun { native }, Event::ZkvmFinished(Err(error))) => Comparison::Failed {
            error,
        },
        (Comparison::ZkvmRun { native, zkvm }, Event::Judge) => {
            let diff = compare(&native, &zkvm);
            Comparison::Compared { native, zkvm, diff }
        },
        (Comparison::Compared { native, zkvm, diff }, Event::Persisted) => Comparison::Persisted {
            diverged: !diff.equal,
        },
        (Comparison::Persisted { diverged: true }, Event::Reproduced) => Comparison::Reproduced,
        (state, _) => state,
    }
}

// ------------------------------------------------------------------ batch
/// One line of a batch's plan.
#[derive(Clone, Debug, PartialEq, Eq)]
pub struct PlanEntry {
    pub mutation_op: String,
    pub base: String,
}

/// One line of a batch's plan over sequences of characters.
pub struct PlanEntryView {
    pub mutation_op: Seq<char>,
    pub base: Seq<char>,
}

impl View for PlanEntry {
    type V = PlanEntryView;

    open spec fn view(&self) -> PlanEntryView {
        PlanEntryView { mutation_op: self.mutation_op@, base: self.base@ }
    }
}

/// The plan of a batch: for each generated input its tag and its base.
pub open spec fn plan_of(mutations: Seq<MutatedInputView>) -> Seq<PlanEntryView> {
    mutations.map_values(
        |m: MutatedInputView| PlanEntryView { mutation_op: m.mutation_op, base: m.base_input_path },
    )
}

/// Lists the tag and the base of each generated input, in order.
pub fn fuzz_plan(mutations: &[MutatedInput]) -> (plan: Vec<PlanEntry>)
    ensures
        plan@.map_values(|e: PlanEntry| e@) == plan_of(views(mutations@)),
{
    let mut plan: Vec<PlanEntry> = Vec::new();
    let mut i: usize = 0;
    while i < mutations.len()
        invariant
            i <= mutations.len(),
            plan@.len() == i,
            forall|k: int|
                0 <= k < i ==> (#[trigger] plan@[k])@ == (PlanEntryView {
                    mutation_op: mutations@[k].mutation_op@,
                    base: mutations@[k].base_input_path@,
                }),
        decreases mutations.len() - i,
    {
        plan.push(
            PlanEntry {
                mutation_op: mutations[i].mutation_op.clone(),
                base: mutations[i].base_input_path.clone(),
            },
        );
        i += 1;
    }
    plan
}

/// The count of a batch: how many comparisons, how many equal, how many not.
#[derive(Clone, Copy, Debug, PartialEq, Eq)]
pub struct FuzzResult {
    pub total: usize,
    pub passed: usize,
    pub divergences: usize,
}

impl FuzzResult {
    /// Every comparison is counted once, as passed or as a divergence.
    pub open spec fn wf(&self) -> bool {
        self.passed + self.divergences == self.total
    }

    /// The count before any comparison.
    pub fn new() -> (r: FuzzResult)
        ensures
            r.wf(),
            r.total == 0,
    {
        FuzzResult { total: 0, passed: 0, divergences: 0 }
    }

    /// Counts one comparison.
    pub fn record(&mut self, equal: bool)
        requires
            old(self).wf(),
            old(self).total < usize::MAX,
        ensures
            final(self).wf(),
            final(self).total == old(self).total + 1,
            final(self).passed == old(self).passed + if equal {
                1int
            } else {
                0int
            },
    {
        self.total = self.total + 1;
        if equal {
            self.passed = self.passed + 1;
        } else {
            self.divergences = self.divergences + 1;
        }
    }

    /// Adds the count of another batch.
    pub fn absorb(&mut self, other: &FuzzResult)
        requires
            old(self).wf(),
            other.wf(),
            old(self).total + other.total <= usize::MAX,
        ensures
            final(self).wf(),
            final(self).total == old(self).total + other.total,
            final(self).passed == old(self).passed + other.passed,
            final(self).divergences == old(self).divergences + other.divergences,
    {
        self.total = self.total + other.total;
        self.passed = self.passed + other.passed;
        self.divergences = self.divergences + other.divergences;
    }
}

/// The wall times of one runner over a batch.
#[derive(Clone, Copy, Debug, PartialEq, Eq)]
pub struct TimingStats {
    pub count: usize,
    pub total_ms: u128,
    pub max_ms: u128,
}

/// The sum of a list of wall times.
pub open spec fn sum_of(times: Seq<u128>) -> nat
    decreases times.len(),
{
    if times.len() == 0 {
        0
    } else {
        sum_of(times.drop_last()) + times.last() as nat
    }
}

/// The largest of a list of wall times; 0 for an empty list.
pub open spec fn max_of(times: Seq<u128>) -> nat
    decreases times.len(),
{
    if times.len() == 0 {
        0
    } else {
        let rest = max_of(times.drop_last());
        if times.last() as nat > rest {
            times.last() as nat
        } else {
            rest
        }
    }
}

/// Sums up the wall times of a batch and finds the largest.
///
/// `None` where the sum does not fit into 128 bits.
pub fn timing_stats(times: &[u128]) -> (stats: Option<TimingStats>)
    ensures
        match stats {
            Some(s) => s.count == times@.len() && s.total_ms == sum_of(times@) && s.max_ms
                == max_of(times@),
            None => sum_of(times@) > u128::MAX,
        },
{
    let mut total: u128 = 0;
    let mut max: u128 = 0;
    let mut i: usize = 0;
    while i < times.len()
        invariant
            i <= times.len(),
            total == sum_of(times@.take(i as int)),
            max == max_of(times@.take(i as int)),
        decreases times.len() - i,
    {
        proof {
            assert(times@.take(i + 1).drop_last() =~= times@.take(i as int));
            lemma_sum_grows(times@, i as int + 1);
        }
        match total.checked_add(times[i]) {
            Some(t) => {
                total = t;
            },
            None => {
                return None;
            },
        }
        if times[i] > max {
            max = times[i];
        }
        i += 1;
    }
    assert(times@.take(times.len() as int) =~= times@);
    Some(TimingStats { count: times.len(), total_ms: total, max_ms: max })
}

/// The sum of a part of a list is at most the sum of the list.
pub proof fn lemma_sum_grows(times: Seq<u128>, k: int)
    requires
        0 <= k <= times.len(),
    ensures
        sum_of(times.take(k)) <= sum_of(times),
    decreases times.len() - k,
{
    if k == times.len() {
        assert(times.take(k) =~= times);
    } else {
        lemma_sum_grows(times, k + 1);
        assert(times.take(k + 1).drop_last() =~= times.take(k));
    }
}

} // verus!
