//! The zkVM runner's decisions: reading the committed values out of the
//! public-values stream, and what run result each event of the executor
//! amounts to.
//!
//! The stream is a run of little-endian numbers, four bytes for a `u32` slot
//! and eight for a `u64` slot, in commit order. The executor itself is the
//! caller's; it reaches this module as an `ExecutorEvent`.

use vstd::prelude::*;
use vstd::string::*;
use crate::native::{
    core_output,
    fate,
    meta_number,
    meta_text,
    native_commits,
    number_entry,
    text_entry,
    RunnerError,
};
use crate::oracle::{verdict, MetaEntry, MetaEntryView, RunResult, RunResultView, Scalar, Status};
use crate::registry::{
    commit_schema,
    input_core,
    kind_of,
    lemma_commit_stream_fits_schema,
    CoreInputView,
    ScalarKind,
};
use crate::text::{decimal, push_decimal};

verus! {

/// The number of bytes that a slot takes in the stream.
pub open spec fn width(kind: ScalarKind) -> nat {
    match kind {
        ScalarKind::U32 => 4,
        ScalarKind::U64 => 8,
    }
}

/// The number that `n` little-endian bytes at the start of `bytes` stand for.
pub open spec fn le_value(bytes: Seq<u8>, n: nat) -> nat
    decreases n,
{
    if n == 0 {
        0
    } else {
        bytes[0] as nat + 256 * le_value(bytes.skip(1), (n - 1) as nat)
    }
}

/// The `n` little-endian bytes of `v`.
pub open spec fn le_bytes(v: nat, n: nat) -> Seq<u8>
    decreases n,
{
    if n == 0 {
        Seq::empty()
    } else {
        seq![(v % 256) as u8] + le_bytes(v / 256, (n - 1) as nat)
    }
}

/// The value of a slot of the given width at the start of `bytes`.
pub open spec fn read_slot(bytes: Seq<u8>, kind: ScalarKind) -> Scalar {
    match kind {
        ScalarKind::U32 => Scalar::U32(le_value(bytes, 4) as u32),
        ScalarKind::U64 => Scalar::U64(le_value(bytes, 8) as u64),
    }
}

/// The bytes that committing a value appends to the stream.
pub open spec fn scalar_bytes(s: Scalar) -> Seq<u8> {
    match s {
        Scalar::U32(v) => le_bytes(v as nat, 4),
        Scalar::U64(v) => le_bytes(v as nat, 8),
    }
}

/// The stream that committing the values in order leaves behind.
pub open spec fn commit_bytes(commits: Seq<Scalar>) -> Seq<u8>
    decreases commits.len(),
{
    if commits.len() == 0 {
        Seq::empty()
    } else {
        scalar_bytes(commits[0]) + commit_bytes(commits.skip(1))
    }
}

/// The widths of the values of a stream of commits.
pub open spec fn kinds_of(commits: Seq<Scalar>) -> Seq<ScalarKind> {
    commits.map_values(|s: Scalar| kind_of(s))
}

/// Why the public values could not be read.
#[derive(Clone, Copy, Debug, PartialEq, Eq)]
pub struct DecodeError {
    /// The slot, counted from 0, at which the stream ran out.
    pub slot: usize,
    /// The bytes that the slot takes.
    pub needed: usize,
    /// The bytes that were left.
    pub available: usize,
}

/// The same, with the slot as a mathematical number.
pub struct ShortRead {
    pub slot: nat,
    pub needed: nat,
    pub available: nat,
}

impl View for DecodeError {
    type V = ShortRead;

    open spec fn view(&self) -> ShortRead {
        ShortRead {
            slot: self.slot as nat,
            needed: self.needed as nat,
            available: self.available as nat,
        }
    }
}

/// Reading one value per slot from the start of the stream: the values, or
/// the first slot for which too few bytes are left. Bytes behind the last
/// slot are not looked at.
pub open spec fn decoded(stream: Seq<u8>, schema: Seq<ScalarKind>) -> Result<Seq<Scalar>, ShortRead>
    decreases schema.len(),
{
    if schema.len() == 0 {
        Ok(Seq::empty())
    } else if stream.len() < width(schema[0]) {
        Err(ShortRead { slot: 0, needed: width(schema[0]), available: stream.len() })
    } else {
        match decoded(stream.skip(width(schema[0]) as int), schema.skip(1)) {
            Ok(rest) => Ok(seq![read_slot(stream, schema[0])] + rest),
            Err(e) => Err(
                ShortRead { slot: e.slot + 1, needed: e.needed, available: e.available },
            ),
        }
    }
}

/// The number of bytes that the slots of a schema take together.
pub open spec fn total_width(schema: Seq<ScalarKind>) -> nat
    decreases schema.len(),
{
    if schema.len() == 0 {
        0
    } else {
        width(schema[0]) + total_width(schema.skip(1))
    }
}

/// Reading succeeds exactly when the stream holds the bytes of every slot,
/// and then yields one value per slot, of the slot's width.
pub proof fn lemma_decoded_when(stream: Seq<u8>, schema: Seq<ScalarKind>)
    ensures
        decoded(stream, schema) is Ok <==> stream.len() >= total_width(schema),
        decoded(stream, schema) matches Ok(commits) ==> kinds_of(commits) == schema,
    decreases schema.len(),
{
    if schema.len() > 0 && stream.len() >= width(schema[0]) {
        let rest_stream = stream.skip(width(schema[0]) as int);
        let rest_schema = schema.skip(1);
        lemma_decoded_when(rest_stream, rest_schema);
        match decoded(rest_stream, rest_schema) {
            Ok(rest) => {
                let first = read_slot(stream, schema[0]);
                assert(kinds_of(seq![first] + rest) =~= seq![schema[0]] + kinds_of(rest));
            },
            Err(_) => {},
        }
    }
}

/// The words in which a failed read is reported.
pub open spec fn decode_error_text(e: ShortRead) -> Seq<char> {
    "failed to decode commit "@ + decimal(e.slot) + ": "@ + decimal(e.needed)
        + " bytes needed, "@ + decimal(e.available) + " left"@
}

impl DecodeError {
    /// The words in which the failed read is reported.
    pub fn message(&self) -> (text: String)
        ensures
            text@ == decode_error_text(self@),
    {
        let mut text = "failed to decode commit ".to_owned();
        push_decimal(&mut text, self.slot as u128);
        text.append(": ");
        push_decimal(&mut text, self.needed as u128);
        text.append(" bytes needed, ");
        push_decimal(&mut text, self.available as u128);
        text.append(" left");
        text
    }
}

/// Reads a little-endian `u32` at `at`.
fn read_u32(stream: &[u8], at: usize) -> (v: u32)
    requires
        at + 4 <= stream@.len(),
    ensures
        v == le_value(stream@.skip(at as int), 4),
{
    proof {
        reveal_with_fuel(le_value, 5);
    }
    let b0: u32 = stream[at] as u32;
    let b1: u32 = stream[at + 1] as u32;
    let b2: u32 = stream[at + 2] as u32;
    let b3: u32 = stream[at + 3] as u32;
    b0 + 256 * (b1 + 256 * (b2 + 256 * b3))
}

/// Reads a little-endian `u64` at `at`.
fn read_u64(stream: &[u8], at: usize) -> (v: u64)
    requires
        at + 8 <= stream@.len(),
        at + 8 <= usize::MAX,
    ensures
        v == le_value(stream@.skip(at as int), 8),
{
    let low = read_u32(stream, at);
    let high = read_u32(stream, at + 4);
    proof {
        let s = stream@.skip(at as int);
        lemma_le_value_split(s, 4, 4);
        assert(s.skip(4) =~= stream@.skip(at + 4));
        reveal_with_fuel(radix, 5);
        lemma_le_value_bounded(s, 4);
        lemma_le_value_bounded(s.skip(4), 4);
    }
    low as u64 + 0x1_0000_0000u64 * (high as u64)
}

/// 256 to the power `n`.
pub open spec fn radix(n: nat) -> nat
    decreases n,
{
    if n == 0 {
        1
    } else {
        256 * radix((n - 1) as nat)
    }
}

/// The first `n + m` bytes stand for the first `n` plus the next `m`,
/// shifted by `n` bytes.
pub proof fn lemma_le_value_split(bytes: Seq<u8>, n: nat, m: nat)
    requires
        n <= bytes.len(),
    ensures
        le_value(bytes, n + m) == le_value(bytes, n) + radix(n) * le_value(bytes.skip(n as int), m),
    decreases n,
{
    if n == 0 {
        assert(bytes.skip(0) =~= bytes);
        assert(radix(0) == 1);
    } else {
        let rest = bytes.skip(1);
        let head = le_value(rest, (n - 1) as nat);
        let tail = le_value(bytes.skip(n as int), m);
        let r = radix((n - 1) as nat);
        lemma_le_value_split(rest, (n - 1) as nat, m);
        assert(rest.skip(n - 1) =~= bytes.skip(n as int));
        assert(256 * (head + r * tail) == 256 * head + (256 * r) * tail) by (nonlinear_arith);
    }
}


/// Reads one value per slot from the start of the stream.
///
/// Succeeds exactly when the stream holds the bytes of every slot; bytes
/// behind the last slot are ignored. Otherwise the error names the first
/// slot that could not be read.
pub fn decode_commits(stream: &[u8], schema: &[ScalarKind]) -> (r: Result<Vec<Scalar>, DecodeError>)
    ensures
        match r {
            Ok(commits) => decoded(stream@, schema@) == Ok::<Seq<Scalar>, ShortRead>(commits@),
            Err(e) => decoded(stream@, schema@) == Err::<Seq<Scalar>, ShortRead>(e@),
        },
{
    let mut commits: Vec<Scalar> = Vec::new();
    let mut at: usize = 0;
    let mut k: usize = 0;
    proof {
        assert(stream@.skip(0) =~= stream@);
        assert(schema@.skip(0) =~= schema@);
    }
    while k < schema.len()
        invariant
            k <= schema.len(),
            at <= stream@.len(),
            commits@.len() == k,
            decoded(stream@, schema@) == match decoded(
                stream@.skip(at as int),
                schema@.skip(k as int),
            ) {
                Ok(rest) => Ok::<Seq<Scalar>, ShortRead>(commits@ + rest),
                Err(e) => Err(
                    ShortRead { slot: e.slot + k as nat, needed: e.needed, available: e.available },
                ),
            },
        decreases schema.len() - k,
    {
        let kind = schema[k];
        let ghost rest_stream = stream@.skip(at as int);
        let ghost rest_schema = schema@.skip(k as int);
        let needed: usize = match kind {
            ScalarKind::U32 => 4,
            ScalarKind::U64 => 8,
        };
        let available = stream.len() - at;
        if available < needed {
            return Err(DecodeError { slot: k, needed, available });
        }
        let value = match kind {
            ScalarKind::U32 => Scalar::U32(read_u32(stream, at)),
            ScalarKind::U64 => Scalar::U64(read_u64(stream, at)),
        };
        proof {
            lemma_le_value_bounded(rest_stream, 4);
            lemma_le_value_bounded(rest_stream, 8);
            assert(rest_stream.skip(needed as int) =~= stream@.skip(at + needed));
            assert(rest_schema.skip(1) =~= schema@.skip(k + 1));
            let ghost tail = decoded(stream@.skip(at + needed), schema@.skip(k + 1));
            match tail {
                Ok(rest) => {
                    assert(commits@ + (seq![value] + rest) =~= commits@.push(value) + rest);
                },
                Err(e) => {},
            }
        }
        commits.push(value);
        at += needed;
        k += 1;
    }
    Ok(commits)
}

/// `n` bytes stand for a number below 256 to the power `n`.
pub proof fn lemma_le_value_bounded(bytes: Seq<u8>, n: nat)
    ensures
        le_value(bytes, n) < radix(n),
    decreases n,
{
    if n > 0 {
        lemma_le_value_bounded(bytes.skip(1), (n - 1) as nat);
    }
}

/// The `n` bytes of a number below 256 to the power `n` stand for it.
pub proof fn lemma_le_round_trip(v: nat, n: nat, after: Seq<u8>)
    requires
        v < radix(n),
    ensures
        le_bytes(v, n).len() == n,
        le_value(le_bytes(v, n) + after, n) == v,
        (le_bytes(v, n) + after).skip(n as int) == after,
    decreases n,
{
    if n > 0 {
        let rest = le_bytes(v / 256, (n - 1) as nat);
        lemma_le_round_trip(v / 256, (n - 1) as nat, after);
        assert((le_bytes(v, n) + after).skip(1) =~= rest + after);
    }
}

/// Reading back what was committed yields the commits: a stream that holds
/// the committed values, and anything behind them, decodes under the widths
/// of those values to exactly those values.
pub proof fn lemma_decode_committed(commits: Seq<Scalar>, after: Seq<u8>)
    ensures
        decoded(commit_bytes(commits) + after, kinds_of(commits)) == Ok::<Seq<Scalar>, ShortRead>(
            commits,
        ),
    decreases commits.len(),
{
    let schema = kinds_of(commits);
    let stream = commit_bytes(commits) + after;
    if commits.len() == 0 {
        assert(commits =~= Seq::<Scalar>::empty());
    } else {
        let first = commits[0];
        let rest = commits.skip(1);
        let tail = commit_bytes(rest) + after;
        assert(stream =~= scalar_bytes(first) + tail);
        assert(schema.skip(1) =~= kinds_of(rest));
        reveal_with_fuel(radix, 9);
        match first {
            Scalar::U32(v) => {
                lemma_le_round_trip(v as nat, 4, tail);
            },
            Scalar::U64(v) => {
                lemma_le_round_trip(v as nat, 8, tail);
            },
        }
        lemma_decode_committed(rest, after);
        assert(seq![first] + rest =~= commits);
    }
}

/// What the waiting side of the zkVM runner saw.
#[derive(Clone, Debug, PartialEq, Eq)]
pub enum ExecutorEvent {
    /// The executor ran the guest to its end.
    Executed { public_values: Vec<u8>, cycles: Option<u64>, elapsed_ms: u128 },
    /// The executor reported an error, such as an abort of the guest.
    Faulted { message: String, elapsed_ms: u128 },
    /// The worker reported a fault of the harness.
    Failed { error: RunnerError },
    /// No answer came within the budget.
    TimedOut { timeout_secs: u64 },
    /// The worker went away without an answer.
    Disconnected { timed: bool },
}

/// The annotations that every zkVM run carries.
pub open spec fn zkvm_head() -> Seq<MetaEntryView> {
    seq![text_entry("runner"@, "zkvm"@), text_entry("mode"@, "execute"@)]
}

/// The run result that a zkVM run ends in, for each event but a fault of
/// the harness.
pub open spec fn zkvm_run(event: ExecutorEvent, schema: Seq<ScalarKind>) -> RunResultView {
    match event {
        ExecutorEvent::Executed { public_values, cycles, elapsed_ms } => match decoded(
            public_values@,
            schema,
        ) {
            Ok(commits) => RunResultView {
                status: Status::Completed,
                elapsed_ms: elapsed_ms as nat,
                commits,
                meta: match cycles {
                    Some(c) => zkvm_head().push(number_entry("cycles"@, c)),
                    None => zkvm_head(),
                },
            },
            Err(e) => RunResultView {
                status: Status::Panic,
                elapsed_ms: elapsed_ms as nat,
                commits: Seq::empty(),
                meta: zkvm_head().push(text_entry("panic_msg"@, decode_error_text(e))),
            },
        },
        ExecutorEvent::Faulted { message, elapsed_ms } => RunResultView {
            status: Status::Panic,
            elapsed_ms: elapsed_ms as nat,
            commits: Seq::empty(),
            meta: zkvm_head().push(text_entry("panic_msg"@, message@)),
        },
        ExecutorEvent::TimedOut { timeout_secs } => RunResultView {
            status: Status::Timeout,
            elapsed_ms: (timeout_secs * 1000) as nat,
            commits: Seq::empty(),
            meta: zkvm_head().push(number_entry("timeout_secs"@, timeout_secs)),
        },
        _ => arbitrary(),
    }
}

/// A guest that commits what its core returns agrees with the native run:
/// where the executor hands over public values that begin with the commits
/// of the native run on the same input, the zkVM run completes with exactly
/// those commits, and the oracle finds the two runs equal.
pub proof fn lemma_faithful_guest_agrees(
    input: CoreInputView,
    event: ExecutorEvent,
    after: Seq<u8>,
    native: RunResultView,
)
    requires
        fate(input) is Returns,
        native.status == Status::Completed,
        native.commits == native_commits(input),
        event matches ExecutorEvent::Executed { public_values, .. } && public_values@
            == commit_bytes(native_commits(input)) + after,
    ensures
        zkvm_run(event, commit_schema(input_core(input))).status == Status::Completed,
        zkvm_run(event, commit_schema(input_core(input))).commits == native.commits,
        verdict(native, zkvm_run(event, commit_schema(input_core(input)))).equal,
{
    lemma_commit_stream_fits_schema(core_output(input));
    lemma_decode_committed(native_commits(input), after);
}

fn zkvm_meta() -> (meta: Vec<MetaEntry>)
    ensures
        meta@.map_values(|e: MetaEntry| e@) == zkvm_head(),
{
    let mut meta: Vec<MetaEntry> = Vec::new();
    meta.push(meta_text("runner", "zkvm".to_owned()));
    meta.push(meta_text("mode", "execute".to_owned()));
    meta
}

/// Turns what the waiting side saw into the result of the zkVM run.
///
/// An execution whose public values hold one value per slot of `schema`
/// completes with those values. One whose public values run out, and one
/// that the executor reports as failed, is a `Panic` with the message kept;
/// an overrun is a `Timeout` with the whole budget as wall time. A fault of
/// the harness and a lost worker are errors, never run results.
pub fn zkvm_result(event: ExecutorEvent, schema: &[ScalarKind]) -> (r: Result<
    RunResult,
    RunnerError,
>)
    ensures
        match event {
            ExecutorEvent::Failed { error } => r == Err::<RunResult, RunnerError>(error),
            ExecutorEvent::Disconnected { timed } => r == Err::<RunResult, RunnerError>(
                RunnerError::Disconnected { timed },
            ),
            _ => r matches Ok(run) && run@ == zkvm_run(event, schema@) && run.wf(),
        },
{
    match event {
        ExecutorEvent::Executed { public_values, cycles, elapsed_ms } => {
            let mut meta = zkvm_meta();
            match decode_commits(public_values.as_slice(), schema) {
                Ok(commits) => {
                    match cycles {
                        Some(c) => {
                            meta.push(meta_number("cycles", c));
                            assert(meta@.map_values(|e: MetaEntry| e@) =~= zkvm_head().push(
                                number_entry("cycles"@, c),
                            ));
                        },
                        None => {},
                    }
                    Ok(RunResult::completed(elapsed_ms, commits, meta))
                },
                Err(e) => {
                    meta.push(meta_text("panic_msg", e.message()));
                    assert(meta@.map_values(|e: MetaEntry| e@) =~= zkvm_head().push(
                        text_entry("panic_msg"@, decode_error_text(e@)),
                    ));
                    Ok(RunResult::panicked(elapsed_ms, meta))
                },
            }
        },
        ExecutorEvent::Faulted { message, elapsed_ms } => {
            let mut meta = zkvm_meta();
            let ghost text = message@;
            meta.push(meta_text("panic_msg", message));
            assert(meta@.map_values(|e: MetaEntry| e@) =~= zkvm_head().push(
                text_entry("panic_msg"@, text),
            ));
            Ok(RunResult::panicked(elapsed_ms, meta))
        },
        ExecutorEvent::TimedOut { timeout_secs } => {
            let mut meta = zkvm_meta();
            meta.push(meta_number("timeout_secs", timeout_secs));
            assert(meta@.map_values(|e: MetaEntry| e@) =~= zkvm_head().push(
                number_entry("timeout_secs"@, timeout_secs),
            ));
            Ok(RunResult::timed_out(timeout_secs as u128 * 1000, meta))
        },
        ExecutorEvent::Failed { error } => Err(error),
        ExecutorEvent::Disconnected { timed } => Err(RunnerError::Disconnected { timed }),
    }
}

} // verus!
