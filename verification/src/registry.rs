//! The registry of cores: their names, their inputs and outputs, and the
//! commit stream that each output turns into.
//!
//! The encoding rules live here and nowhere else, so that both sides of a
//! comparison share them.

use vstd::prelude::*;
use vstd::string::*;
use crate::cores::arithmetic::{ArithmeticInput, ArithmeticInputView, ArithmeticOutput};
use crate::cores::fib::{FibInput, FibOutput};
use crate::cores::io_echo::{IoEchoInput, IoEchoOutput};
use crate::cores::panic_test::{PanicInput, PanicInputView, PanicOutput};
use crate::cores::simple_struct::{SimpleStructInput, SimpleStructInputView, SimpleStructOutput};
use crate::cores::timeout_test::{TimeoutInput, TimeoutOutput};
use crate::oracle::Scalar;
use crate::text::same_text;

verus! {

/// The registered cores.
#[derive(Clone, Copy, Debug, PartialEq, Eq, Structural)]
pub enum CoreId {
    Fib,
    PanicTest,
    TimeoutTest,
    IoEcho,
    Arithmetic,
    SimpleStruct,
}

/// The width of one commit slot.
#[derive(Clone, Copy, Debug, PartialEq, Eq, Structural)]
pub enum ScalarKind {
    U32,
    U64,
}

/// The name of a core.
pub open spec fn core_name(core: CoreId) -> Seq<char> {
    match core {
        CoreId::Fib => "fib"@,
        CoreId::PanicTest => "panic_test"@,
        CoreId::TimeoutTest => "timeout_test"@,
        CoreId::IoEcho => "io_echo"@,
        CoreId::Arithmetic => "arithmetic"@,
        CoreId::SimpleStruct => "simple_struct"@,
    }
}

/// The core of a name, if the name is registered.
pub open spec fn core_of_name(name: Seq<char>) -> Option<CoreId> {
    if name == "fib"@ {
        Some(CoreId::Fib)
    } else if name == "panic_test"@ {
        Some(CoreId::PanicTest)
    } else if name == "timeout_test"@ {
        Some(CoreId::TimeoutTest)
    } else if name == "io_echo"@ {
        Some(CoreId::IoEcho)
    } else if name == "arithmetic"@ {
        Some(CoreId::Arithmetic)
    } else if name == "simple_struct"@ {
        Some(CoreId::SimpleStruct)
    } else {
        None
    }
}

/// The registered cores in the order in which a batch visits them.
pub open spec fn registered_cores() -> Seq<CoreId> {
    seq![
        CoreId::Fib,
        CoreId::PanicTest,
        CoreId::TimeoutTest,
        CoreId::IoEcho,
        CoreId::Arithmetic,
        CoreId::SimpleStruct,
    ]
}

/// How a field of an output becomes a committed value.
#[derive(Clone, Copy, Debug, PartialEq, Eq, Structural)]
pub enum Encoding {
    /// A 32-bit number, as it is.
    U32,
    /// A 64-bit number, as it is.
    U64,
    /// A flag as a 32-bit number: 0 for false, 1 for true.
    Bool,
    /// An optional byte as a 32-bit number: 0 for none, one more than the
    /// byte otherwise.
    OptionalByte,
}

/// One commit slot: the field of the output that fills it, and how.
#[derive(Clone, Copy, Debug, PartialEq, Eq)]
pub struct CommitSlot {
    pub field: &'static str,
    pub encoding: Encoding,
}

/// A commit slot with its field name as a sequence of characters.
pub struct CommitSlotView {
    pub field: Seq<char>,
    pub encoding: Encoding,
}

impl View for CommitSlot {
    type V = CommitSlotView;

    open spec fn view(&self) -> CommitSlotView {
        CommitSlotView { field: self.field@, encoding: self.encoding }
    }
}

/// The width of the value that an encoding yields.
pub open spec fn encoded_kind(encoding: Encoding) -> ScalarKind {
    match encoding {
        Encoding::U64 => ScalarKind::U64,
        _ => ScalarKind::U32,
    }
}

/// The slot that a field fills under an encoding.
pub open spec fn slot(field: Seq<char>, encoding: Encoding) -> CommitSlotView {
    CommitSlotView { field, encoding }
}

/// The commit slots of a core, in commit order.
pub open spec fn commit_slots(core: CoreId) -> Seq<CommitSlotView> {
    match core {
        CoreId::Fib => seq![
            slot("n"@, Encoding::U32),
            slot("a"@, Encoding::U32),
            slot("b"@, Encoding::U32),
        ],
        CoreId::PanicTest => seq![
            slot("should_panic_u32"@, Encoding::U32),
            slot("status_code"@, Encoding::U32),
        ],
        CoreId::TimeoutTest => seq![slot("completed"@, Encoding::U64)],
        CoreId::IoEcho => seq![
            slot("length"@, Encoding::U32),
            slot("first_byte"@, Encoding::OptionalByte),
            slot("last_byte"@, Encoding::OptionalByte),
        ],
        CoreId::Arithmetic => seq![
            slot("result"@, Encoding::U32),
            slot("overflowed"@, Encoding::Bool),
        ],
        CoreId::SimpleStruct => seq![
            slot("field1_echo"@, Encoding::U32),
            slot("field2_len"@, Encoding::U32),
            slot("field2_chars"@, Encoding::U32),
            slot("field3_echo"@, Encoding::Bool),
        ],
    }
}

/// The widths of the commit slots of a core, in commit order.
pub open spec fn commit_schema(core: CoreId) -> Seq<ScalarKind> {
    commit_slots(core).map_values(|s: CommitSlotView| encoded_kind(s.encoding))
}

/// The number of values that a run of the named core commits; 0 for a name
/// that is not registered.
pub open spec fn commit_count(name: Seq<char>) -> nat {
    match core_of_name(name) {
        Some(core) => commit_schema(core).len(),
        None => 0,
    }
}

/// The width of a committed value.
pub open spec fn kind_of(s: Scalar) -> ScalarKind {
    match s {
        Scalar::U32(_) => ScalarKind::U32,
        Scalar::U64(_) => ScalarKind::U64,
    }
}

/// A flag as a committed number: 0 for false, 1 for true.
pub open spec fn bool_code(b: bool) -> u32 {
    if b {
        1
    } else {
        0
    }
}

/// An optional byte as a committed number: 0 for none, one more than the
/// byte otherwise.
pub open spec fn opt_byte_code(o: Option<u8>) -> u32 {
    match o {
        None => 0,
        Some(b) => (1 + b) as u32,
    }
}

/// The input of one run, for whichever core it is meant.
#[derive(Clone, Debug, PartialEq, Eq)]
pub enum CoreInput {
    Fib(FibInput),
    PanicTest(PanicInput),
    TimeoutTest(TimeoutInput),
    IoEcho(IoEchoInput),
    Arithmetic(ArithmeticInput),
    SimpleStruct(SimpleStructInput),
}

/// An input over sequences.
pub enum CoreInputView {
    Fib(FibInput),
    PanicTest(PanicInputView),
    TimeoutTest(TimeoutInput),
    IoEcho(Seq<u8>),
    Arithmetic(ArithmeticInputView),
    SimpleStruct(SimpleStructInputView),
}

impl View for CoreInput {
    type V = CoreInputView;

    open spec fn view(&self) -> CoreInputView {
        match self {
            CoreInput::Fib(i) => CoreInputView::Fib(*i),
            CoreInput::PanicTest(i) => CoreInputView::PanicTest(i@),
            CoreInput::TimeoutTest(i) => CoreInputView::TimeoutTest(*i),
            CoreInput::IoEcho(i) => CoreInputView::IoEcho(i.data@),
            CoreInput::Arithmetic(i) => CoreInputView::Arithmetic(i@),
            CoreInput::SimpleStruct(i) => CoreInputView::SimpleStruct(i@),
        }
    }
}

/// The output of one run.
#[derive(Clone, Copy, Debug, PartialEq, Eq)]
pub enum CoreOutput {
    Fib(FibOutput),
    PanicTest(PanicOutput),
    TimeoutTest(TimeoutOutput),
    IoEcho(IoEchoOutput),
    Arithmetic(ArithmeticOutput),
    SimpleStruct(SimpleStructOutput),
}

/// The core that an input is meant for.
pub open spec fn input_core(input: CoreInputView) -> CoreId {
    match input {
        CoreInputView::Fib(_) => CoreId::Fib,
        CoreInputView::PanicTest(_) => CoreId::PanicTest,
        CoreInputView::TimeoutTest(_) => CoreId::TimeoutTest,
        CoreInputView::IoEcho(_) => CoreId::IoEcho,
        CoreInputView::Arithmetic(_) => CoreId::Arithmetic,
        CoreInputView::SimpleStruct(_) => CoreId::SimpleStruct,
    }
}

/// The core that produced an output.
pub open spec fn output_core(output: CoreOutput) -> CoreId {
    match output {
        CoreOutput::Fib(_) => CoreId::Fib,
        CoreOutput::PanicTest(_) => CoreId::PanicTest,
        CoreOutput::TimeoutTest(_) => CoreId::TimeoutTest,
        CoreOutput::IoEcho(_) => CoreId::IoEcho,
        CoreOutput::Arithmetic(_) => CoreId::Arithmetic,
        CoreOutput::SimpleStruct(_) => CoreId::SimpleStruct,
    }
}

/// The commit stream of an output: one value per slot of its core.
pub open spec fn commit_stream(output: CoreOutput) -> Seq<Scalar> {
    match output {
        CoreOutput::Fib(o) => seq![Scalar::U32(o.n), Scalar::U32(o.a), Scalar::U32(o.b)],
        CoreOutput::PanicTest(o) => seq![
            Scalar::U32(o.should_panic_u32),
            Scalar::U32(o.status_code),
        ],
        CoreOutput::TimeoutTest(o) => seq![Scalar::U64(o.completed)],
        CoreOutput::IoEcho(o) => seq![
            Scalar::U32(o.length),
            Scalar::U32(opt_byte_code(o.first_byte)),
            Scalar::U32(opt_byte_code(o.last_byte)),
        ],
        CoreOutput::Arithmetic(o) => seq![
            Scalar::U32(o.result),
            Scalar::U32(bool_code(o.overflowed)),
        ],
        CoreOutput::SimpleStruct(o) => seq![
            Scalar::U32(o.field1_echo),
            Scalar::U32(o.field2_len),
            Scalar::U32(o.field2_chars),
            Scalar::U32(bool_code(o.field3_echo)),
        ],
    }
}

/// The name of a core as a string.
pub fn name_of(core: CoreId) -> (name: &'static str)
    ensures
        name@ == core_name(core),
{
    match core {
        CoreId::Fib => "fib",
        CoreId::PanicTest => "panic_test",
        CoreId::TimeoutTest => "timeout_test",
        CoreId::IoEcho => "io_echo",
        CoreId::Arithmetic => "arithmetic",
        CoreId::SimpleStruct => "simple_struct",
    }
}

/// Finds the core of a name; `None` for a name that is not registered.
pub fn lookup(name: &str) -> (core: Option<CoreId>)
    ensures
        core == core_of_name(name@),
{
    if same_text(name, "fib") {
        Some(CoreId::Fib)
    } else if same_text(name, "panic_test") {
        Some(CoreId::PanicTest)
    } else if same_text(name, "timeout_test") {
        Some(CoreId::TimeoutTest)
    } else if same_text(name, "io_echo") {
        Some(CoreId::IoEcho)
    } else if same_text(name, "arithmetic") {
        Some(CoreId::Arithmetic)
    } else if same_text(name, "simple_struct") {
        Some(CoreId::SimpleStruct)
    } else {
        None
    }
}

/// All registered cores, in the order in which a batch visits them.
pub fn all_cores() -> (cores: Vec<CoreId>)
    ensures
        cores@ == registered_cores(),
{
    let mut cores: Vec<CoreId> = Vec::new();
    cores.push(CoreId::Fib);
    cores.push(CoreId::PanicTest);
    cores.push(CoreId::TimeoutTest);
    cores.push(CoreId::IoEcho);
    cores.push(CoreId::Arithmetic);
    cores.push(CoreId::SimpleStruct);
    cores
}

/// The width of the value that an encoding yields.
pub fn kind_of_encoding(encoding: Encoding) -> (kind: ScalarKind)
    ensures
        kind == encoded_kind(encoding),
{
    match encoding {
        Encoding::U64 => ScalarKind::U64,
        _ => ScalarKind::U32,
    }
}

/// The commit slots of a core, in commit order.
pub fn slots_of(core: CoreId) -> (slots: Vec<CommitSlot>)
    ensures
        slots@.map_values(|s: CommitSlot| s@) == commit_slots(core),
{
    let mut slots: Vec<CommitSlot> = Vec::new();
    match core {
        CoreId::Fib => {
            slots.push(CommitSlot { field: "n", encoding: Encoding::U32 });
            slots.push(CommitSlot { field: "a", encoding: Encoding::U32 });
            slots.push(CommitSlot { field: "b", encoding: Encoding::U32 });
        },
        CoreId::PanicTest => {
            slots.push(CommitSlot { field: "should_panic_u32", encoding: Encoding::U32 });
            slots.push(CommitSlot { field: "status_code", encoding: Encoding::U32 });
        },
        CoreId::TimeoutTest => {
            slots.push(CommitSlot { field: "completed", encoding: Encoding::U64 });
        },
        CoreId::IoEcho => {
            slots.push(CommitSlot { field: "length", encoding: Encoding::U32 });
            slots.push(CommitSlot { field: "first_byte", encoding: Encoding::OptionalByte });
            slots.push(CommitSlot { field: "last_byte", encoding: Encoding::OptionalByte });
        },
        CoreId::Arithmetic => {
            slots.push(CommitSlot { field: "result", encoding: Encoding::U32 });
            slots.push(CommitSlot { field: "overflowed", encoding: Encoding::Bool });
        },
        CoreId::SimpleStruct => {
            slots.push(CommitSlot { field: "field1_echo", encoding: Encoding::U32 });
            slots.push(CommitSlot { field: "field2_len", encoding: Encoding::U32 });
            slots.push(CommitSlot { field: "field2_chars", encoding: Encoding::U32 });
            slots.push(CommitSlot { field: "field3_echo", encoding: Encoding::Bool });
        },
    }
    slots
}

/// The widths of the commit slots of a core, in commit order.
pub fn schema_of(core: CoreId) -> (schema: Vec<ScalarKind>)
    ensures
        schema@ == commit_schema(core),
{
    let slots = slots_of(core);
    let mut schema: Vec<ScalarKind> = Vec::new();
    let mut i: usize = 0;
    while i < slots.len()
        invariant
            i <= slots.len(),
            slots@.map_values(|s: CommitSlot| s@) == commit_slots(core),
            schema@.len() == i,
            forall|k: int|
                0 <= k < i ==> schema@[k] == encoded_kind(commit_slots(core)[k].encoding),
        decreases slots.len() - i,
    {
        schema.push(kind_of_encoding(slots[i].encoding));
        i += 1;
    }
    schema
}

/// The number of values that a run of the named core commits; 0 for a name
/// that is not registered.
pub fn expected_commit_count(name: &str) -> (count: usize)
    ensures
        count == commit_count(name@),
{
    match lookup(name) {
        Some(core) => schema_of(core).len(),
        None => 0,
    }
}

/// Encodes a flag for the commit stream.
pub fn encode_bool(b: bool) -> (code: u32)
    ensures
        code == bool_code(b),
{
    if b {
        1
    } else {
        0
    }
}

/// Encodes an optional byte for the commit stream.
pub fn encode_opt_byte(o: Option<u8>) -> (code: u32)
    ensures
        code == opt_byte_code(o),
        code <= 256,
{
    match o {
        None => 0,
        Some(b) => 1u32 + b as u32,
    }
}

/// Emits the commit stream of an output.
pub fn commits_of(output: &CoreOutput) -> (commits: Vec<Scalar>)
    ensures
        commits@ == commit_stream(*output),
{
    let mut commits: Vec<Scalar> = Vec::new();
    match output {
        CoreOutput::Fib(o) => {
            commits.push(Scalar::U32(o.n));
            commits.push(Scalar::U32(o.a));
            commits.push(Scalar::U32(o.b));
        },
        CoreOutput::PanicTest(o) => {
            commits.push(Scalar::U32(o.should_panic_u32));
            commits.push(Scalar::U32(o.status_code));
        },
        CoreOutput::TimeoutTest(o) => {
            commits.push(Scalar::U64(o.completed));
        },
        CoreOutput::IoEcho(o) => {
            commits.push(Scalar::U32(o.length));
            commits.push(Scalar::U32(encode_opt_byte(o.first_byte)));
            commits.push(Scalar::U32(encode_opt_byte(o.last_byte)));
        },
        CoreOutput::Arithmetic(o) => {
            commits.push(Scalar::U32(o.result));
            commits.push(Scalar::U32(encode_bool(o.overflowed)));
        },
        CoreOutput::SimpleStruct(o) => {
            commits.push(Scalar::U32(o.field1_echo));
            commits.push(Scalar::U32(o.field2_len));
            commits.push(Scalar::U32(o.field2_chars));
            commits.push(Scalar::U32(encode_bool(o.field3_echo)));
        },
    }
    commits
}

/// Every output fills the slots of its core: as many values as the schema
/// has slots, each of its slot's width.
pub proof fn lemma_commit_stream_fits_schema(output: CoreOutput)
    ensures
        commit_stream(output).map_values(|s: Scalar| kind_of(s)) == commit_schema(
            output_core(output),
        ),
        commit_stream(output).len() == commit_count(core_name(output_core(output))),
{
    lemma_names_are_distinct();
}

/// The names of the registered cores are pairwise different, so a name
/// finds the core it belongs to.
pub proof fn lemma_names_are_distinct()
    ensures
        forall|core: CoreId| core_of_name(#[trigger] core_name(core)) == Some(core),
{
    reveal_strlit("fib");
    reveal_strlit("panic_test");
    reveal_strlit("timeout_test");
    reveal_strlit("io_echo");
    reveal_strlit("arithmetic");
    reveal_strlit("simple_struct");
    assert forall|core: CoreId| core_of_name(#[trigger] core_name(core)) == Some(core) by {
        let n = core_name(core);
        match core {
            CoreId::Fib => {},
            CoreId::PanicTest => {
                assert(n.len() != "fib"@.len());
            },
            CoreId::TimeoutTest => {
                assert(n.len() != "fib"@.len());
                assert(n.len() != "panic_test"@.len());
            },
            CoreId::IoEcho => {
                assert(n.len() != "fib"@.len());
                assert(n.len() != "panic_test"@.len());
                assert(n.len() != "timeout_test"@.len());
            },
            CoreId::Arithmetic => {
                assert(n.len() != "fib"@.len());
                assert(n[0] != "panic_test"@[0]);
                assert(n.len() != "timeout_test"@.len());
                assert(n.len() != "io_echo"@.len());
            },
            CoreId::SimpleStruct => {
                assert(n.len() != "fib"@.len());
                assert(n.len() != "panic_test"@.len());
                assert(n.len() != "timeout_test"@.len());
                assert(n.len() != "io_echo"@.len());
                assert(n.len() != "arithmetic"@.len());
            },
        }
    }
}

} // verus!
