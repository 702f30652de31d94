//! The equivalence oracle: what a run yields, and when two runs agree.

use vstd::prelude::*;
use vstd::string::*;
use crate::text::{decimal, join, push_decimal};

verus! {

/// How an execution ended.
#[derive(Clone, Copy, Debug, PartialEq, Eq, Structural)]
pub enum Status {
    /// The program ran to its end.
    Completed,
    /// The program aborted.
    Panic,
    /// The program did not finish within its time budget.
    Timeout,
}

/// One committed value, tagged with its width.
#[derive(Clone, Copy, Debug, PartialEq, Eq, Structural)]
pub enum Scalar {
    U32(u32),
    U64(u64),
}

/// The value of one annotation.
#[derive(Clone, Debug, PartialEq, Eq)]
pub enum MetaValue {
    Text(String),
    Number(u64),
}

/// The value of an annotation over sequences of characters.
pub enum MetaValueView {
    Text(Seq<char>),
    Number(u64),
}

impl View for MetaValue {
    type V = MetaValueView;

    open spec fn view(&self) -> MetaValueView {
        match self {
            MetaValue::Text(t) => MetaValueView::Text(t@),
            MetaValue::Number(n) => MetaValueView::Number(*n),
        }
    }
}

/// One annotation of a run: who ran it, why it failed, what it cost.
#[derive(Clone, Debug, PartialEq, Eq)]
pub struct MetaEntry {
    pub key: String,
    pub value: MetaValue,
}

/// An annotation over sequences of characters.
pub struct MetaEntryView {
    pub key: Seq<char>,
    pub value: MetaValueView,
}

impl View for MetaEntry {
    type V = MetaEntryView;

    open spec fn view(&self) -> MetaEntryView {
        MetaEntryView { key: self.key@, value: self.value@ }
    }
}

/// What one runner observed of one execution.
#[derive(Clone, Debug, PartialEq, Eq)]
pub struct RunResult {
    pub status: Status,
    /// Wall time in milliseconds.
    pub elapsed_ms: u128,
    /// The committed values, in commit order.
    pub commits: Vec<Scalar>,
    /// Annotations; the oracle never reads them.
    pub meta: Vec<MetaEntry>,
}

/// A run result over mathematical numbers and sequences.
pub struct RunResultView {
    pub status: Status,
    pub elapsed_ms: nat,
    pub commits: Seq<Scalar>,
    pub meta: Seq<MetaEntryView>,
}

impl View for RunResult {
    type V = RunResultView;

    open spec fn view(&self) -> RunResultView {
        RunResultView {
            status: self.status,
            elapsed_ms: self.elapsed_ms as nat,
            commits: self.commits@,
            meta: self.meta@.map_values(|e: MetaEntry| e@),
        }
    }
}

impl RunResultView {
    /// A run that did not complete has committed nothing.
    pub open spec fn wf(self) -> bool {
        self.status != Status::Completed ==> self.commits.len() == 0
    }
}

impl RunResult {
    /// A run that did not complete has committed nothing.
    pub open spec fn wf(&self) -> bool {
        self@.wf()
    }

    /// Whether a run that did not complete has committed nothing.
    pub fn is_well_formed(&self) -> (r: bool)
        ensures
            r == self.wf(),
    {
        match self.status {
            Status::Completed => true,
            _ => self.commits.len() == 0,
        }
    }

    /// The result of a run that reached its end.
    pub fn completed(elapsed_ms: u128, commits: Vec<Scalar>, meta: Vec<MetaEntry>) -> (r: RunResult)
        ensures
            r.wf(),
            r.status == Status::Completed,
            r.elapsed_ms == elapsed_ms,
            r.commits == commits,
            r.meta == meta,
    {
        RunResult { status: Status::Completed, elapsed_ms, commits, meta }
    }

    /// The result of a run that aborted: no commits.
    pub fn panicked(elapsed_ms: u128, meta: Vec<MetaEntry>) -> (r: RunResult)
        ensures
            r.wf(),
            r.status == Status::Panic,
            r.elapsed_ms == elapsed_ms,
            r.commits@ == Seq::<Scalar>::empty(),
            r.meta == meta,
    {
        RunResult { status: Status::Panic, elapsed_ms, commits: Vec::new(), meta }
    }

    /// The result of a run that overran its budget: no commits.
    pub fn timed_out(elapsed_ms: u128, meta: Vec<MetaEntry>) -> (r: RunResult)
        ensures
            r.wf(),
            r.status == Status::Timeout,
            r.elapsed_ms == elapsed_ms,
            r.commits@ == Seq::<Scalar>::empty(),
            r.meta == meta,
    {
        RunResult { status: Status::Timeout, elapsed_ms, commits: Vec::new(), meta }
    }
}

/// The outcome of comparing two runs.
#[derive(Clone, Debug, PartialEq, Eq)]
pub struct Diff {
    pub equal: bool,
    /// Why the runs differ; present exactly when they do.
    pub reason: Option<String>,
    /// Informational; never decides `equal`.
    pub timing_delta_ms: Option<u128>,
}

/// The outcome of a comparison over mathematical numbers and sequences.
pub struct DiffView {
    pub equal: bool,
    pub reason: Option<Seq<char>>,
    pub timing_delta_ms: Option<nat>,
}

impl View for Diff {
    type V = DiffView;

    open spec fn view(&self) -> DiffView {
        DiffView {
            equal: self.equal,
            reason: match self.reason {
                Some(r) => Some(r@),
                None => None,
            },
            timing_delta_ms: match self.timing_delta_ms {
                Some(d) => Some(d as nat),
                None => None,
            },
        }
    }
}

/// The name under which a status appears in reasons and summaries.
pub open spec fn status_name(s: Status) -> Seq<char> {
    match s {
        Status::Completed => "Ok"@,
        Status::Panic => "Panic"@,
        Status::Timeout => "Timeout"@,
    }
}

/// A committed value as text: its width tag and its decimal numeral.
pub open spec fn scalar_text(s: Scalar) -> Seq<char> {
    match s {
        Scalar::U32(v) => "U32("@ + decimal(v as nat) + ")"@,
        Scalar::U64(v) => "U64("@ + decimal(v as nat) + ")"@,
    }
}

/// A commit stream as text: its values in order, in brackets.
pub open spec fn commits_text(cs: Seq<Scalar>) -> Seq<char> {
    "["@ + join(cs.map_values(|s: Scalar| scalar_text(s)), ", "@) + "]"@
}

/// The reason given for runs that ended differently.
pub open spec fn status_mismatch_reason(native: Status, zkvm: Status) -> Seq<char> {
    "status mismatch: native="@ + status_name(native) + ", zkvm="@ + status_name(zkvm)
}

/// The reason given for completed runs with different commits.
pub open spec fn commit_mismatch_reason(native: Seq<Scalar>, zkvm: Seq<Scalar>) -> Seq<char> {
    "commit stream mismatch: native="@ + commits_text(native) + " vs zkvm="@ + commits_text(zkvm)
}

/// The distance between two numbers.
pub open spec fn abs_diff(a: nat, b: nat) -> nat {
    if a >= b {
        (a - b) as nat
    } else {
        (b - a) as nat
    }
}

/// Whether two runs agree: the same status and, where both completed, the
/// same commits in the same order. Annotations and timing play no part.
pub open spec fn agree(native: RunResultView, zkvm: RunResultView) -> bool {
    native.status == zkvm.status && (native.status == Status::Completed ==> native.commits
        == zkvm.commits)
}

/// What the oracle says of two runs.
pub open spec fn verdict(native: RunResultView, zkvm: RunResultView) -> DiffView {
    DiffView {
        equal: agree(native, zkvm),
        reason: if native.status != zkvm.status {
            Some(status_mismatch_reason(native.status, zkvm.status))
        } else if native.status == Status::Completed && native.commits != zkvm.commits {
            Some(commit_mismatch_reason(native.commits, zkvm.commits))
        } else {
            None
        },
        timing_delta_ms: Some(abs_diff(native.elapsed_ms, zkvm.elapsed_ms)),
    }
}

/// The status name as a string.
pub fn status_label(s: Status) -> (r: &'static str)
    ensures
        r@ == status_name(s),
{
    match s {
        Status::Completed => "Ok",
        Status::Panic => "Panic",
        Status::Timeout => "Timeout",
    }
}

/// Whether two commit streams hold the same values in the same order.
pub fn commits_equal(a: &Vec<Scalar>, b: &Vec<Scalar>) -> (r: bool)
    ensures
        r == (a@ == b@),
{
    if a.len() != b.len() {
        return false;
    }
    let mut i: usize = 0;
    while i < a.len()
        invariant
            a.len() == b.len(),
            i <= a.len(),
            forall|k: int| 0 <= k < i ==> a@[k] == b@[k],
        decreases a.len() - i,
    {
        if a[i] != b[i] {
            return false;
        }
        i += 1;
    }
    assert(a@ =~= b@);
    true
}

fn push_scalar_text(out: &mut String, s: Scalar)
    ensures
        final(out)@ == old(out)@ + scalar_text(s),
{
    match s {
        Scalar::U32(v) => {
            out.append("U32(");
            push_decimal(out, v as u128);
        },
        Scalar::U64(v) => {
            out.append("U64(");
            push_decimal(out, v as u128);
        },
    }
    out.append(")");
}

/// Appends a commit stream as text.
pub fn push_commits_text(out: &mut String, cs: &Vec<Scalar>)
    ensures
        final(out)@ == old(out)@ + commits_text(cs@),
{
    let ghost parts = cs@.map_values(|s: Scalar| scalar_text(s));
    let ghost before = out@;
    out.append("[");
    let mut i: usize = 0;
    while i < cs.len()
        invariant
            i <= cs.len(),
            parts == cs@.map_values(|s: Scalar| scalar_text(s)),
            out@ == before + "["@ + join(parts.take(i as int), ", "@),
        decreases cs.len() - i,
    {
        if i > 0 {
            out.append(", ");
        }
        push_scalar_text(out, cs[i]);
        proof {
            let next = parts.take(i as int + 1);
            assert(next.drop_last() == parts.take(i as int));
        }
        i += 1;
    }
    assert(parts.take(cs.len() as int) == parts);
    out.append("]");
}

/// Compares the two runs of one input.
///
/// The runs are equal when their statuses match and, if both completed, their
/// commit streams match value by value. The reason names the first rule that
/// failed. The timing difference is always attached.
pub fn compare(native: &RunResult, zkvm: &RunResult) -> (diff: Diff)
    ensures
        diff@ == verdict(native@, zkvm@),
{
    let delta = if native.elapsed_ms >= zkvm.elapsed_ms {
        native.elapsed_ms - zkvm.elapsed_ms
    } else {
        zkvm.elapsed_ms - native.elapsed_ms
    };
    if native.status != zkvm.status {
        let mut reason = "status mismatch: native=".to_owned();
        reason.append(status_label(native.status));
        reason.append(", zkvm=");
        reason.append(status_label(zkvm.status));
        return Diff { equal: false, reason: Some(reason), timing_delta_ms: Some(delta) };
    }
    if native.status == Status::Completed && !commits_equal(&native.commits, &zkvm.commits) {
        let mut reason = "commit stream mismatch: native=".to_owned();
        push_commits_text(&mut reason, &native.commits);
        reason.append(" vs zkvm=");
        push_commits_text(&mut reason, &zkvm.commits);
        return Diff { equal: false, reason: Some(reason), timing_delta_ms: Some(delta) };
    }
    Diff { equal: true, reason: None, timing_delta_ms: Some(delta) }
}

/// The timing difference is the distance between the two wall times.
pub proof fn lemma_timing_delta(native: RunResultView, zkvm: RunResultView)
    ensures
        verdict(native, zkvm).timing_delta_ms == Some(abs_diff(native.elapsed_ms, zkvm.elapsed_ms)),
        native.elapsed_ms >= zkvm.elapsed_ms ==> verdict(native, zkvm).timing_delta_ms == Some(
            (native.elapsed_ms - zkvm.elapsed_ms) as nat,
        ),
        native.elapsed_ms <= zkvm.elapsed_ms ==> verdict(native, zkvm).timing_delta_ms == Some(
            (zkvm.elapsed_ms - native.elapsed_ms) as nat,
        ),
{
}

/// Equal runs have the same status and, unless that status rules commits out,
/// the same commits.
pub proof fn lemma_equal_means_same_outcome(native: RunResultView, zkvm: RunResultView)
    requires
        verdict(native, zkvm).equal,
    ensures
        native.status == zkvm.status,
        native.status != Status::Completed || native.commits == zkvm.commits,
{
}

/// A reason is given exactly when the runs differ.
pub proof fn lemma_reason_iff_unequal(native: RunResultView, zkvm: RunResultView)
    ensures
        verdict(native, zkvm).reason is Some <==> !verdict(native, zkvm).equal,
{
}

/// Two runs of one status that both committed nothing are equal.
pub proof fn lemma_empty_commits_equal(native: RunResultView, zkvm: RunResultView)
    requires
        native.status == zkvm.status,
        native.commits.len() == 0,
        zkvm.commits.len() == 0,
    ensures
        verdict(native, zkvm).equal,
{
    assert(native.commits =~= zkvm.commits);
}

/// Neither annotations nor timing decide equality.
pub proof fn lemma_meta_and_timing_ignored(
    native: RunResultView,
    zkvm: RunResultView,
    other_native: RunResultView,
    other_zkvm: RunResultView,
)
    requires
        other_native.status == native.status,
        other_native.commits == native.commits,
        other_zkvm.status == zkvm.status,
        other_zkvm.commits == zkvm.commits,
    ensures
        verdict(other_native, other_zkvm).equal == verdict(native, zkvm).equal,
        verdict(other_native, other_zkvm).reason == verdict(native, zkvm).reason,
{
}

/// Well-formed runs that both failed in the same way are equal.
pub proof fn lemma_same_failure_is_equal(native: RunResultView, zkvm: RunResultView)
    requires
        native.wf(),
        zkvm.wf(),
        native.status == zkvm.status,
        native.status != Status::Completed,
    ensures
        verdict(native, zkvm).equal,
{
}

/// The oracle fails closed: completed runs of which one committed more
/// values than the other differ, and the reason shows both streams.
pub proof fn lemma_missing_commits_diverge(native: RunResultView, zkvm: RunResultView)
    requires
        native.status == Status::Completed,
        zkvm.status == Status::Completed,
        native.commits.len() != zkvm.commits.len(),
    ensures
        !verdict(native, zkvm).equal,
        verdict(native, zkvm).reason == Some(commit_mismatch_reason(native.commits, zkvm.commits)),
{
}

/// A completed run never equals one that did not complete.
pub proof fn lemma_failure_against_success_diverges(native: RunResultView, zkvm: RunResultView)
    requires
        (native.status == Status::Completed) != (zkvm.status == Status::Completed),
    ensures
        !verdict(native, zkvm).equal,
        verdict(native, zkvm).reason == Some(status_mismatch_reason(native.status, zkvm.status)),
{
}

} // verus!
