//! The input mutator: for each core a fixed, finite list of structured
//! inputs, each with a tag that says how it was chosen.
//!
//! The lists depend on the core's name alone, so a batch can be replayed.

use vstd::prelude::*;
use vstd::string::*;
use crate::cores::arithmetic::{ArithmeticInput, ArithmeticInputView};
use crate::cores::fib::FibInput;
use crate::cores::io_echo::IoEchoInput;
use crate::cores::panic_test::{PanicInput, PanicInputView};
use crate::cores::simple_struct::{SimpleStructInput, SimpleStructInputView};
use crate::cores::timeout_test::TimeoutInput;
use crate::ordered::{is_sorted_union, lemma_sorted_union_unique, sorted_union};
use crate::registry::{core_of_name, lookup, CoreId, CoreInput, CoreInputView};
use crate::text::{decimal, push_decimal, repeat_char, repeated};

pub mod laws;

verus! {

/// One generated input.
#[derive(Clone, Debug, PartialEq, Eq)]
pub struct MutatedInput {
    /// The input to run.
    pub input: CoreInput,
    /// How the input was chosen, such as `length_bias:4kb`.
    pub mutation_op: String,
    /// The hand-written input that the batch started from.
    pub base_input_path: String,
}

/// A generated input over texts and sequences.
pub struct MutatedInputView {
    pub input: CoreInputView,
    pub mutation_op: Seq<char>,
    pub base_input_path: Seq<char>,
}

impl View for MutatedInput {
    type V = MutatedInputView;

    open spec fn view(&self) -> MutatedInputView {
        MutatedInputView {
            input: self.input@,
            mutation_op: self.mutation_op@,
            base_input_path: self.base_input_path@,
        }
    }
}

/// The views of a list of generated inputs.
pub open spec fn views(list: Seq<MutatedInput>) -> Seq<MutatedInputView> {
    list.map_values(|m: MutatedInput| m@)
}

/// The ways of choosing inputs, one per core.
#[derive(Clone, Copy, Debug, PartialEq, Eq, Structural)]
pub enum MutationStrategy {
    /// Buffers of many lengths.
    LengthBias,
    /// Operands at the edges of their range.
    BoundaryValues,
    /// Texts of many shapes.
    StringVariations,
    /// Chosen step counts.
    FibonacciValues,
    /// Aborting and returning cases.
    BooleanVariations,
    /// Chosen loop lengths.
    IterationVariations,
}

/// Why no inputs could be generated.
#[derive(Clone, Debug, PartialEq, Eq)]
pub enum MutatorError {
    /// No core is registered under this name.
    UnknownCore { name: String },
}

/// The strategy that serves a core.
pub open spec fn strategy_of(core: CoreId) -> MutationStrategy {
    match core {
        CoreId::IoEcho => MutationStrategy::LengthBias,
        CoreId::Arithmetic => MutationStrategy::BoundaryValues,
        CoreId::SimpleStruct => MutationStrategy::StringVariations,
        CoreId::Fib => MutationStrategy::FibonacciValues,
        CoreId::PanicTest => MutationStrategy::BooleanVariations,
        CoreId::TimeoutTest => MutationStrategy::IterationVariations,
    }
}

/// The word with which the tags of a strategy begin.
pub open spec fn strategy_word(strategy: MutationStrategy) -> Seq<char> {
    match strategy {
        MutationStrategy::LengthBias => "length_bias"@,
        MutationStrategy::BoundaryValues => "boundary_values"@,
        MutationStrategy::StringVariations => "string_variation"@,
        MutationStrategy::FibonacciValues => "fib_value"@,
        MutationStrategy::BooleanVariations => "bool_variation"@,
        MutationStrategy::IterationVariations => "iteration_variation"@,
    }
}

/// A tag: the strategy's word, a colon, and what tells this input from the
/// others of the list.
pub open spec fn tag(strategy: MutationStrategy, detail: Seq<char>) -> Seq<char> {
    strategy_word(strategy) + ":"@ + detail
}

/// The strategy that serves a core.
pub fn strategy_for(core: CoreId) -> (strategy: MutationStrategy)
    ensures
        strategy == strategy_of(core),
{
    match core {
        CoreId::IoEcho => MutationStrategy::LengthBias,
        CoreId::Arithmetic => MutationStrategy::BoundaryValues,
        CoreId::SimpleStruct => MutationStrategy::StringVariations,
        CoreId::Fib => MutationStrategy::FibonacciValues,
        CoreId::PanicTest => MutationStrategy::BooleanVariations,
        CoreId::TimeoutTest => MutationStrategy::IterationVariations,
    }
}

/// The word with which the tags of a strategy begin.
pub fn strategy_name(strategy: MutationStrategy) -> (word: &'static str)
    ensures
        word@ == strategy_word(strategy),
{
    match strategy {
        MutationStrategy::LengthBias => "length_bias",
        MutationStrategy::BoundaryValues => "boundary_values",
        MutationStrategy::StringVariations => "string_variation",
        MutationStrategy::FibonacciValues => "fib_value",
        MutationStrategy::BooleanVariations => "bool_variation",
        MutationStrategy::IterationVariations => "iteration_variation",
    }
}

/// Starts a tag: the strategy's word and the colon.
fn begin_tag(strategy: MutationStrategy) -> (t: String)
    ensures
        t@ == tag(strategy, Seq::empty()),
{
    let mut t = strategy_name(strategy).to_owned();
    t.append(":");
    t
}

// ---------------------------------------------------------------- io_echo
/// Powers of two up to one mebibyte, and zero.
pub open spec fn power_sizes() -> Seq<u32> {
    seq![
        0,
        1,
        2,
        4,
        8,
        16,
        32,
        64,
        128,
        256,
        512,
        1024,
        2048,
        4096,
        8192,
        16384,
        32768,
        65536,
        131072,
        262144,
        524288,
        1048576,
    ]
}

/// Lengths just below a change of representation.
pub open spec fn boundary_sizes() -> Seq<u32> {
    seq![127, 255, 1023, 4095, 65535]
}

/// Small lengths just below a power of two.
pub open spec fn edge_sizes() -> Seq<u32> {
    seq![3, 7, 15, 31, 63]
}

/// The three families of lengths, one after another.
pub open spec fn size_candidates() -> Seq<u32> {
    power_sizes() + boundary_sizes() + edge_sizes()
}

/// The lengths tried on `io_echo`: the three families together, sorted,
/// each length once.
pub open spec fn io_echo_sizes() -> Seq<u32> {
    choose|s: Seq<u32>| is_sorted_union(s, size_candidates())
}

/// The payload of length `n`: byte `i` is `i mod 256`.
pub open spec fn pattern(n: nat) -> Seq<u8> {
    Seq::new(n, |i: int| (i % 256) as u8)
}

/// A length for people: bytes below 1024, whole kibibytes below 1048576,
/// whole mebibytes from there on.
pub open spec fn human_size(n: nat) -> Seq<char> {
    if n < 1024 {
        decimal(n) + "b"@
    } else if n < 1048576 {
        decimal(n / 1024) + "kb"@
    } else {
        decimal(n / 1048576) + "mb"@
    }
}

/// The input generated for one length.
pub open spec fn io_echo_entry(n: u32, base: Seq<char>) -> MutatedInputView {
    MutatedInputView {
        input: CoreInputView::IoEcho(pattern(n as nat)),
        mutation_op: tag(MutationStrategy::LengthBias, human_size(n as nat)),
        base_input_path: base,
    }
}

/// The inputs generated for `io_echo`.
pub open spec fn io_echo_catalogue(base: Seq<char>) -> Seq<MutatedInputView> {
    Seq::new(io_echo_sizes().len(), |k: int| io_echo_entry(io_echo_sizes()[k], base))
}

/// The payload of length `n`.
pub fn pattern_bytes(n: u32) -> (data: Vec<u8>)
    ensures
        data@ == pattern(n as nat),
{
    let mut data: Vec<u8> = Vec::new();
    let mut i: u32 = 0;
    while i < n
        invariant
            i <= n,
            data@ == pattern(i as nat),
        decreases n - i,
    {
        data.push((i % 256) as u8);
        i += 1;
    }
    data
}

/// Appends a length for people.
pub fn push_human_size(out: &mut String, n: u32)
    ensures
        final(out)@ == old(out)@ + human_size(n as nat),
{
    if n < 1024 {
        push_decimal(out, n as u128);
        out.append("b");
    } else if n < 1048576 {
        push_decimal(out, (n / 1024) as u128);
        out.append("kb");
    } else {
        push_decimal(out, (n / 1048576) as u128);
        out.append("mb");
    }
}

/// Generates the `io_echo` inputs: one buffer per length.
pub fn generate_io_echo_mutations(base_input_path: &str) -> (out: Vec<MutatedInput>)
    ensures
        views(out@) == io_echo_catalogue(base_input_path@),
{
    let mut all_sizes: Vec<u32> = vec![
        0, 1, 2, 4, 8, 16, 32, 64, 128, 256, 512, 1024, 2048, 4096, 8192, 16384, 32768, 65536,
        131072, 262144, 524288, 1048576,
    ];
    let mut boundaries: Vec<u32> = vec![127, 255, 1023, 4095, 65535];
    let mut edge_cases: Vec<u32> = vec![3, 7, 15, 31, 63];
    all_sizes.append(&mut boundaries);
    all_sizes.append(&mut edge_cases);
    let sizes = sorted_union(&all_sizes);
    proof {
        lemma_sorted_union_unique(sizes@, io_echo_sizes());
    }
    let mut out: Vec<MutatedInput> = Vec::new();
    let mut i: usize = 0;
    while i < sizes.len()
        invariant
            i <= sizes.len(),
            sizes@ == io_echo_sizes(),
            out@.len() == i,
            forall|k: int| 0 <= k < i ==> (#[trigger] out@[k])@ == io_echo_entry(
                sizes@[k],
                base_input_path@,
            ),
        decreases sizes.len() - i,
    {
        let size = sizes[i];
        let data = pattern_bytes(size);
        let mut mutation_op = begin_tag(MutationStrategy::LengthBias);
        push_human_size(&mut mutation_op, size);
        out.push(
            MutatedInput {
                input: CoreInput::IoEcho(IoEchoInput { data }),
                mutation_op,
                base_input_path: base_input_path.to_owned(),
            },
        );
        i += 1;
    }
    out
}

// ------------------------------------------------------------- arithmetic
/// How many operand pairs are tried per operation.
pub const PAIRS_PER_OPERATION: usize = 6;

/// The operands at the edges of the 32-bit range.
pub open spec fn boundary_values() -> Seq<u32> {
    seq![0, 1, 2, 2147483647, 4294967294, 4294967295]
}

/// The operations, in the order in which they are tried.
pub open spec fn operation_names() -> Seq<Seq<char>> {
    seq!["add"@, "sub"@, "mul"@, "div"@]
}

/// The `k`-th pair of boundary operands, the first operand changing slowest.
pub open spec fn candidate_pair(k: int) -> (u32, u32) {
    (boundary_values()[k / 6], boundary_values()[k % 6])
}

/// Every pair is tried but the one of two zeros.
pub open spec fn pair_is_tried(p: (u32, u32)) -> bool {
    !(p.0 == 0 && p.1 == 0)
}

/// The pairs that are tried among the first `k` candidates, in order.
pub open spec fn tried_before(k: nat) -> Seq<(u32, u32)>
    decreases k,
{
    if k == 0 {
        Seq::empty()
    } else {
        let rest = tried_before((k - 1) as nat);
        if pair_is_tried(candidate_pair(k - 1)) {
            rest.push(candidate_pair(k - 1))
        } else {
            rest
        }
    }
}

/// The operand pairs of one operation: the pairs that are tried among all
/// 36 candidates, cut after the sixth.
pub open spec fn operand_pairs() -> Seq<(u32, u32)> {
    tried_before(36).take(PAIRS_PER_OPERATION as int)
}

/// The input generated for one operation and one pair of operands.
pub open spec fn arithmetic_entry(op: Seq<char>, pair: (u32, u32), base: Seq<char>)
    -> MutatedInputView {
    MutatedInputView {
        input: CoreInputView::Arithmetic(
            ArithmeticInputView { a: pair.0, b: pair.1, operation: op },
        ),
        mutation_op: tag(
            MutationStrategy::BoundaryValues,
            decimal(pair.0 as nat) + "_"@ + decimal(pair.1 as nat) + "_op_"@ + op,
        ),
        base_input_path: base,
    }
}

/// The inputs generated for `arithmetic`: each operation with each of its
/// operand pairs, operation by operation.
pub open spec fn arithmetic_catalogue(base: Seq<char>) -> Seq<MutatedInputView> {
    Seq::new(
        4 * PAIRS_PER_OPERATION as nat,
        |i: int|
            arithmetic_entry(
                operation_names()[i / PAIRS_PER_OPERATION as int],
                operand_pairs()[i % PAIRS_PER_OPERATION as int],
                base,
            ),
    )
}

/// The pairs tried among fewer candidates begin the pairs tried among more.
pub proof fn lemma_tried_before_grows(k: nat, m: nat)
    requires
        k <= m,
    ensures
        tried_before(k).len() <= tried_before(m).len(),
        tried_before(m).take(tried_before(k).len() as int) == tried_before(k),
    decreases m,
{
    if k < m {
        lemma_tried_before_grows(k, (m - 1) as nat);
    }
}

/// The six operand pairs, written out.
pub proof fn lemma_operand_pairs()
    ensures
        operand_pairs() == seq![
            (0u32, 1u32),
            (0u32, 2u32),
            (0u32, 2147483647u32),
            (0u32, 4294967294u32),
            (0u32, 4294967295u32),
            (1u32, 0u32),
        ],
        tried_before(36).len() >= PAIRS_PER_OPERATION,
{
    reveal_with_fuel(tried_before, 8);
    lemma_tried_before_grows(7, 36);
}

/// The operand pairs of one operation.
pub fn boundary_pairs() -> (pairs: Vec<(u32, u32)>)
    ensures
        pairs@ == operand_pairs(),
        pairs@.len() == PAIRS_PER_OPERATION,
{
    let values: Vec<u32> = vec![0, 1, 2, u32::MAX / 2, u32::MAX - 1, u32::MAX];
    let mut pairs: Vec<(u32, u32)> = Vec::new();
    let mut k: usize = 0;
    while k < 36 && pairs.len() < PAIRS_PER_OPERATION
        invariant
            k <= 36,
            values@ == boundary_values(),
            pairs@ == tried_before(k as nat),
            pairs@.len() <= PAIRS_PER_OPERATION,
        decreases 36 - k,
    {
        let a = values[k / 6];
        let b = values[k % 6];
        if !(a == 0 && b == 0) {
            pairs.push((a, b));
        }
        k += 1;
    }
    proof {
        lemma_tried_before_grows(k as nat, 36);
        lemma_operand_pairs();
    }
    pairs
}

/// The name of the `i`-th operation.
fn operation_name(i: usize) -> (name: &'static str)
    requires
        i < 4,
    ensures
        name@ == operation_names()[i as int],
{
    if i == 0 {
        "add"
    } else if i == 1 {
        "sub"
    } else if i == 2 {
        "mul"
    } else {
        "div"
    }
}

/// Generates the `arithmetic` inputs: boundary operands under each operation.
pub fn generate_arithmetic_mutations(base_input_path: &str) -> (out: Vec<MutatedInput>)
    ensures
        views(out@) == arithmetic_catalogue(base_input_path@),
{
    let pairs = boundary_pairs();
    let mut out: Vec<MutatedInput> = Vec::new();
    let mut o: usize = 0;
    while o < 4
        invariant
            o <= 4,
            pairs@ == operand_pairs(),
            pairs@.len() == PAIRS_PER_OPERATION,
            out@.len() == o * PAIRS_PER_OPERATION,
            forall|i: int| 0 <= i < out@.len() ==> (#[trigger] out@[i])@ == arithmetic_entry(
                operation_names()[i / PAIRS_PER_OPERATION as int],
                operand_pairs()[i % PAIRS_PER_OPERATION as int],
                base_input_path@,
            ),
        decreases 4 - o,
    {
        let op = operation_name(o);
        let mut p: usize = 0;
        while p < pairs.len()
            invariant
                o < 4,
                p <= pairs.len(),
                op@ == operation_names()[o as int],
                pairs@ == operand_pairs(),
                pairs@.len() == PAIRS_PER_OPERATION,
                out@.len() == o * PAIRS_PER_OPERATION + p,
                forall|i: int| 0 <= i < out@.len() ==> (#[trigger] out@[i])@ == arithmetic_entry(
                    operation_names()[i / PAIRS_PER_OPERATION as int],
                    operand_pairs()[i % PAIRS_PER_OPERATION as int],
                    base_input_path@,
                ),
            decreases pairs.len() - p,
        {
            let (a, b) = pairs[p];
            let mut mutation_op = begin_tag(MutationStrategy::BoundaryValues);
            push_decimal(&mut mutation_op, a as u128);
            mutation_op.append("_");
            push_decimal(&mut mutation_op, b as u128);
            mutation_op.append("_op_");
            mutation_op.append(op);
            assert(mutation_op@ =~= tag(
                MutationStrategy::BoundaryValues,
                decimal(a as nat) + "_"@ + decimal(b as nat) + "_op_"@ + op@,
            ));
            out.push(
                MutatedInput {
                    input: CoreInput::Arithmetic(
                        ArithmeticInput { a, b, operation: op.to_owned() },
                    ),
                    mutation_op,
                    base_input_path: base_input_path.to_owned(),
                },
            );
            p += 1;
        }
        o += 1;
    }
    out
}

// ---------------------------------------------------------- simple_struct
/// The texts tried on `simple_struct`, each with its name.
pub open spec fn text_cases() -> Seq<(Seq<char>, Seq<char>)> {
    seq![
        (Seq::empty(), "empty"@),
        ("a"@, "single"@),
        ("hello"@, "short"@),
        (repeated('a', 100), "100chars"@),
        (repeated('a', 1000), "1000chars"@),
        (repeated('a', 10000), "10kchars"@),
        ("\u{1F980}"@, "emoji"@),
        ("\u{1F980} Rust zkVM"@, "unicode_mixed"@),
        ("Hello\nWorld"@, "newline"@),
        ("Tab\tSeparated"@, "tab"@),
    ]
}

/// The numbers that the cases take in turn.
pub open spec fn rotating_numbers() -> Seq<u32> {
    seq![0, 1, 42, 4294967295]
}

/// The flags that the cases take in turn.
pub open spec fn rotating_flags() -> Seq<bool> {
    seq![true, false]
}

/// The input generated for the `k`-th text.
pub open spec fn simple_struct_entry(k: int, base: Seq<char>) -> MutatedInputView {
    MutatedInputView {
        input: CoreInputView::SimpleStruct(
            SimpleStructInputView {
                field1: rotating_numbers()[k % 4],
                field2: text_cases()[k].0,
                field3: rotating_flags()[k % 2],
            },
        ),
        mutation_op: tag(MutationStrategy::StringVariations, text_cases()[k].1),
        base_input_path: base,
    }
}

/// The inputs generated for `simple_struct`: one per text, with the number
/// and the flag rotating.
pub open spec fn simple_struct_catalogue(base: Seq<char>) -> Seq<MutatedInputView> {
    Seq::new(text_cases().len(), |k: int| simple_struct_entry(k, base))
}

/// The `k`-th text.
fn text_case(k: usize) -> (text: String)
    requires
        k < 10,
    ensures
        text@ == text_cases()[k as int].0,
{
    if k == 0 {
        String::new()
    } else if k == 1 {
        "a".to_owned()
    } else if k == 2 {
        "hello".to_owned()
    } else if k == 3 {
        repeat_char('a', 100)
    } else if k == 4 {
        repeat_char('a', 1000)
    } else if k == 5 {
        repeat_char('a', 10000)
    } else if k == 6 {
        "\u{1F980}".to_owned()
    } else if k == 7 {
        "\u{1F980} Rust zkVM".to_owned()
    } else if k == 8 {
        "Hello\nWorld".to_owned()
    } else {
        "Tab\tSeparated".to_owned()
    }
}

/// The name of the `k`-th text.
fn text_case_name(k: usize) -> (name: &'static str)
    requires
        k < 10,
    ensures
        name@ == text_cases()[k as int].1,
{
    if k == 0 {
        "empty"
    } else if k == 1 {
        "single"
    } else if k == 2 {
        "short"
    } else if k == 3 {
        "100chars"
    } else if k == 4 {
        "1000chars"
    } else if k == 5 {
        "10kchars"
    } else if k == 6 {
        "emoji"
    } else if k == 7 {
        "unicode_mixed"
    } else if k == 8 {
        "newline"
    } else {
        "tab"
    }
}

/// Generates the `simple_struct` inputs: texts of many shapes.
pub fn generate_simple_struct_mutations(base_input_path: &str) -> (out: Vec<MutatedInput>)
    ensures
        views(out@) == simple_struct_catalogue(base_input_path@),
{
    let field1_values: Vec<u32> = vec![0, 1, 42, u32::MAX];
    let field3_values: Vec<bool> = vec![true, false];
    let mut out: Vec<MutatedInput> = Vec::new();
    let mut k: usize = 0;
    while k < 10
        invariant
            k <= 10,
            field1_values@ == rotating_numbers(),
            field3_values@ == rotating_flags(),
            out@.len() == k,
            forall|i: int| 0 <= i < k ==> (#[trigger] out@[i])@ == simple_struct_entry(
                i,
                base_input_path@,
            ),
        decreases 10 - k,
    {
        let field1 = field1_values[k % 4];
        let field3 = field3_values[k % 2];
        let mut mutation_op = begin_tag(MutationStrategy::StringVariations);
        mutation_op.append(text_case_name(k));
        out.push(
            MutatedInput {
                input: CoreInput::SimpleStruct(
                    SimpleStructInput { field1, field2: text_case(k), field3 },
                ),
                mutation_op,
                base_input_path: base_input_path.to_owned(),
            },
        );
        k += 1;
    }
    out
}

// -------------------------------------------------------------------- fib
/// The step counts tried on `fib`.
pub open spec fn fib_steps() -> Seq<u32> {
    seq![0, 1, 2, 5, 10, 20, 30, 40, 50, 100, 1000]
}

/// The input generated for one step count.
pub open spec fn fib_entry(n: u32, base: Seq<char>) -> MutatedInputView {
    MutatedInputView {
        input: CoreInputView::Fib(FibInput { n }),
        mutation_op: tag(MutationStrategy::FibonacciValues, "n="@ + decimal(n as nat)),
        base_input_path: base,
    }
}

/// The inputs generated for `fib`.
pub open spec fn fib_catalogue(base: Seq<char>) -> Seq<MutatedInputView> {
    Seq::new(fib_steps().len(), |k: int| fib_entry(fib_steps()[k], base))
}

/// Generates the `fib` inputs: one per step count.
pub fn generate_fib_mutations(base_input_path: &str) -> (out: Vec<MutatedInput>)
    ensures
        views(out@) == fib_catalogue(base_input_path@),
{
    let n_values: Vec<u32> = vec![0, 1, 2, 5, 10, 20, 30, 40, 50, 100, 1000];
    let mut out: Vec<MutatedInput> = Vec::new();
    let mut k: usize = 0;
    while k < n_values.len()
        invariant
            k <= n_values.len(),
            n_values@ == fib_steps(),
            out@.len() == k,
            forall|i: int| 0 <= i < k ==> (#[trigger] out@[i])@ == fib_entry(
                fib_steps()[i],
                base_input_path@,
            ),
        decreases n_values.len() - k,
    {
        let n = n_values[k];
        let mut mutation_op = begin_tag(MutationStrategy::FibonacciValues);
        mutation_op.append("n=");
        push_decimal(&mut mutation_op, n as u128);
        assert(mutation_op@ =~= tag(
            MutationStrategy::FibonacciValues,
            "n="@ + decimal(n as nat),
        ));
        out.push(
            MutatedInput {
                input: CoreInput::Fib(FibInput { n }),
                mutation_op,
                base_input_path: base_input_path.to_owned(),
            },
        );
        k += 1;
    }
    out
}

// ------------------------------------------------------------- panic_test
/// The cases tried on `panic_test`: whether to abort, and the case's name.
pub open spec fn panic_cases() -> Seq<(bool, Seq<char>)> {
    seq![
        (false, "no_panic"@),
        (true, "panic_simple"@),
        (true, "panic_with_long_message"@),
        (false, "no_panic_alternate"@),
    ]
}

/// The message that an aborting case aborts with.
pub open spec fn case_message(name: Seq<char>) -> Seq<char> {
    "Test panic: "@ + name
}

/// The input generated for one case.
pub open spec fn panic_entry(case: (bool, Seq<char>), base: Seq<char>) -> MutatedInputView {
    MutatedInputView {
        input: CoreInputView::PanicTest(
            PanicInputView {
                should_panic: case.0,
                panic_msg: if case.0 {
                    Some(case_message(case.1))
                } else {
                    None
                },
            },
        ),
        mutation_op: tag(MutationStrategy::BooleanVariations, case.1),
        base_input_path: base,
    }
}

/// The inputs generated for `panic_test`.
pub open spec fn panic_catalogue(base: Seq<char>) -> Seq<MutatedInputView> {
    Seq::new(panic_cases().len(), |k: int| panic_entry(panic_cases()[k], base))
}

/// Whether the `k`-th case aborts.
fn panic_case_aborts(k: usize) -> (aborts: bool)
    requires
        k < 4,
    ensures
        aborts == panic_cases()[k as int].0,
{
    k == 1 || k == 2
}

/// The name of the `k`-th case.
fn panic_case_name(k: usize) -> (name: &'static str)
    requires
        k < 4,
    ensures
        name@ == panic_cases()[k as int].1,
{
    if k == 0 {
        "no_panic"
    } else if k == 1 {
        "panic_simple"
    } else if k == 2 {
        "panic_with_long_message"
    } else {
        "no_panic_alternate"
    }
}

/// Generates the `panic_test` inputs: aborting and returning cases.
pub fn generate_panic_test_mutations(base_input_path: &str) -> (out: Vec<MutatedInput>)
    ensures
        views(out@) == panic_catalogue(base_input_path@),
{
    let mut out: Vec<MutatedInput> = Vec::new();
    let mut k: usize = 0;
    while k < 4
        invariant
            k <= 4,
            out@.len() == k,
            forall|i: int| 0 <= i < k ==> (#[trigger] out@[i])@ == panic_entry(
                panic_cases()[i],
                base_input_path@,
            ),
        decreases 4 - k,
    {
        let should_panic = panic_case_aborts(k);
        let desc = panic_case_name(k);
        let panic_msg = if should_panic {
            let mut message = "Test panic: ".to_owned();
            message.append(desc);
            Some(message)
        } else {
            None
        };
        let mut mutation_op = begin_tag(MutationStrategy::BooleanVariations);
        mutation_op.append(desc);
        out.push(
            MutatedInput {
                input: CoreInput::PanicTest(PanicInput { should_panic, panic_msg }),
                mutation_op,
                base_input_path: base_input_path.to_owned(),
            },
        );
        k += 1;
    }
    out
}

// ----------------------------------------------------------- timeout_test
/// The loop lengths tried on `timeout_test`; the first asks for a loop
/// without end.
pub open spec fn iteration_counts() -> Seq<u64> {
    seq![0, 1, 10, 100, 1000, 10000, 100000, 1000000, 10000000]
}

/// The input generated for one loop length.
pub open spec fn timeout_entry(iterations: u64, base: Seq<char>) -> MutatedInputView {
    MutatedInputView {
        input: CoreInputView::TimeoutTest(TimeoutInput { iterations }),
        mutation_op: tag(MutationStrategy::IterationVariations, decimal(iterations as nat)),
        base_input_path: base,
    }
}

/// The inputs generated for `timeout_test`.
pub open spec fn timeout_catalogue(base: Seq<char>) -> Seq<MutatedInputView> {
    Seq::new(iteration_counts().len(), |k: int| timeout_entry(iteration_counts()[k], base))
}

/// Generates the `timeout_test` inputs: one per loop length.
pub fn generate_timeout_test_mutations(base_input_path: &str) -> (out: Vec<MutatedInput>)
    ensures
        views(out@) == timeout_catalogue(base_input_path@),
{
    let counts: Vec<u64> = vec![0, 1, 10, 100, 1_000, 10_000, 100_000, 1_000_000, 10_000_000];
    let mut out: Vec<MutatedInput> = Vec::new();
    let mut k: usize = 0;
    while k < counts.len()
        invariant
            k <= counts.len(),
            counts@ == iteration_counts(),
            out@.len() == k,
            forall|i: int| 0 <= i < k ==> (#[trigger] out@[i])@ == timeout_entry(
                iteration_counts()[i],
                base_input_path@,
            ),
        decreases counts.len() - k,
    {
        let iterations = counts[k];
        let mut mutation_op = begin_tag(MutationStrategy::IterationVariations);
        push_decimal(&mut mutation_op, iterations as u128);
        out.push(
            MutatedInput {
                input: CoreInput::TimeoutTest(TimeoutInput { iterations }),
                mutation_op,
                base_input_path: base_input_path.to_owned(),
            },
        );
        k += 1;
    }
    out
}

// --------------------------------------------------------------- dispatch
/// The inputs generated for a core.
pub open spec fn catalogue(core: CoreId, base: Seq<char>) -> Seq<MutatedInputView> {
    match core {
        CoreId::IoEcho => io_echo_catalogue(base),
        CoreId::Arithmetic => arithmetic_catalogue(base),
        CoreId::SimpleStruct => simple_struct_catalogue(base),
        CoreId::Fib => fib_catalogue(base),
        CoreId::PanicTest => panic_catalogue(base),
        CoreId::TimeoutTest => timeout_catalogue(base),
    }
}

/// What `generate_mutations` owes on a core name and a base path.
pub open spec fn generated(
    name: Seq<char>,
    base_path: Seq<char>,
    r: Result<Vec<MutatedInput>, MutatorError>,
) -> bool {
    match r {
        Ok(list) => core_of_name(name) matches Some(core) && views(list@) == catalogue(
            core,
            base_path,
        ),
        Err(MutatorError::UnknownCore { name: n }) => core_of_name(name) is None && n@ == name,
    }
}

/// Generates the inputs for the named core.
///
/// The list is the core's catalogue, whatever the base input holds; only the
/// base input's path is carried along. A name that is not registered is an
/// error.
pub fn generate_mutations(core_name: &str, _base_input: &CoreInput, base_input_path: &str) -> (r:
    Result<Vec<MutatedInput>, MutatorError>)
    ensures
        generated(core_name@, base_input_path@, r),
{
    match lookup(core_name) {
        Some(CoreId::IoEcho) => Ok(generate_io_echo_mutations(base_input_path)),
        Some(CoreId::Arithmetic) => Ok(generate_arithmetic_mutations(base_input_path)),
        Some(CoreId::SimpleStruct) => Ok(generate_simple_struct_mutations(base_input_path)),
        Some(CoreId::Fib) => Ok(generate_fib_mutations(base_input_path)),
        Some(CoreId::PanicTest) => Ok(generate_panic_test_mutations(base_input_path)),
        Some(CoreId::TimeoutTest) => Ok(generate_timeout_test_mutations(base_input_path)),
        None => Err(MutatorError::UnknownCore { name: core_name.to_owned() }),
    }
}

// ------------------------------------------------------------------ stats
/// Counts and payload sizes of a list of generated inputs.
#[derive(Clone, Debug, PartialEq, Eq)]
pub struct MutationStats {
    pub total_count: usize,
    pub min_size: Option<usize>,
    pub max_size: Option<usize>,
    pub strategy: String,
}

/// The size of an input's payload: the length of its byte buffer, if it has
/// one.
pub open spec fn payload_size(m: MutatedInputView) -> Option<nat> {
    match m.input {
        CoreInputView::IoEcho(data) => Some(data.len()),
        _ => None,
    }
}

/// The smallest payload size of a list; none where no input has a payload.
pub open spec fn smallest_payload(list: Seq<MutatedInputView>) -> Option<nat>
    decreases list.len(),
{
    if list.len() == 0 {
        None
    } else {
        let rest = smallest_payload(list.drop_last());
        match (rest, payload_size(list.last())) {
            (Some(r), Some(s)) => Some(if s < r {
                s
            } else {
                r
            }),
            (None, Some(s)) => Some(s),
            (_, None) => rest,
        }
    }
}

/// The largest payload size of a list; none where no input has a payload.
pub open spec fn largest_payload(list: Seq<MutatedInputView>) -> Option<nat>
    decreases list.len(),
{
    if list.len() == 0 {
        None
    } else {
        let rest = largest_payload(list.drop_last());
        match (rest, payload_size(list.last())) {
            (Some(r), Some(s)) => Some(if s > r {
                s
            } else {
                r
            }),
            (None, Some(s)) => Some(s),
            (_, None) => rest,
        }
    }
}

/// An optional size as a mathematical number.
pub open spec fn as_size(o: Option<usize>) -> Option<nat> {
    match o {
        Some(n) => Some(n as nat),
        None => None,
    }
}

/// Reports how many inputs a list holds and the range of their payload
/// sizes.
pub fn calculate_size_stats(mutations: &[MutatedInput]) -> (stats: MutationStats)
    ensures
        stats.total_count == mutations@.len(),
        as_size(stats.min_size) == smallest_payload(views(mutations@)),
        as_size(stats.max_size) == largest_payload(views(mutations@)),
        stats.strategy@ == strategy_word(MutationStrategy::LengthBias),
{
    let mut min_size: Option<usize> = None;
    let mut max_size: Option<usize> = None;
    let ghost all = views(mutations@);
    let mut i: usize = 0;
    while i < mutations.len()
        invariant
            i <= mutations.len(),
            all == views(mutations@),
            as_size(min_size) == smallest_payload(all.take(i as int)),
            as_size(max_size) == largest_payload(all.take(i as int)),
        decreases mutations.len() - i,
    {
        proof {
            let next = all.take(i as int + 1);
            assert(next.drop_last() =~= all.take(i as int));
        }
        match &mutations[i].input {
            CoreInput::IoEcho(payload) => {
                let size = payload.data.len();
                min_size = match min_size {
                    Some(m) => Some(if size < m {
                        size
                    } else {
                        m
                    }),
                    None => Some(size),
                };
                max_size = match max_size {
                    Some(m) => Some(if size > m {
                        size
                    } else {
                        m
                    }),
                    None => Some(size),
                };
            },
            _ => {},
        }
        i += 1;
    }
    assert(all.take(mutations.len() as int) =~= all);
    MutationStats {
        total_count: mutations.len(),
        min_size,
        max_size,
        strategy: strategy_name(MutationStrategy::LengthBias).to_owned(),
    }
}

/// The smallest payload size is the size of some input of the list and no
/// input's payload is smaller; there is none exactly when no input has a
/// payload. The largest likewise.
pub proof fn lemma_payload_range(list: Seq<MutatedInputView>)
    ensures
        smallest_payload(list) is None <==> forall|k: int|
            0 <= k < list.len() ==> payload_size(#[trigger] list[k]) is None,
        largest_payload(list) is None <==> smallest_payload(list) is None,
        smallest_payload(list) matches Some(low) ==> {
            &&& exists|k: int| 0 <= k < list.len() && payload_size(#[trigger] list[k]) == Some(low)
            &&& forall|k: int|
                0 <= k < list.len() ==> (payload_size(#[trigger] list[k]) matches Some(s) ==> low
                    <= s)
        },
        largest_payload(list) matches Some(high) ==> {
            &&& exists|k: int|
                0 <= k < list.len() && payload_size(#[trigger] list[k]) == Some(high)
            &&& forall|k: int|
                0 <= k < list.len() ==> (payload_size(#[trigger] list[k]) matches Some(s) ==> s
                    <= high)
        },
    decreases list.len(),
{
    if list.len() > 0 {
        let head = list.drop_last();
        lemma_payload_range(head);
        assert forall|k: int| 0 <= k < head.len() implies head[k] == list[k] by {}
    }
}

} // verus!
