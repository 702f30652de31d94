//! What holds of every catalogue: it is not empty, its tags tell its inputs
//! apart, its inputs are inputs of its core, and it depends on nothing but
//! the core.

use vstd::prelude::*;
use crate::mutator::{
    arithmetic_catalogue,
    arithmetic_entry,
    boundary_sizes,
    catalogue,
    edge_sizes,
    fib_catalogue,
    fib_steps,
    generated,
    human_size,
    io_echo_catalogue,
    io_echo_sizes,
    iteration_counts,
    lemma_operand_pairs,
    operand_pairs,
    operation_names,
    panic_cases,
    panic_catalogue,
    power_sizes,
    simple_struct_catalogue,
    size_candidates,
    strategy_word,
    tag,
    text_cases,
    timeout_catalogue,
    views,
    MutatedInput,
    MutatedInputView,
    MutationStrategy,
    MutatorError,
};
use crate::ordered::{is_sorted_union, lemma_sorted_union_unique, strictly_increasing};
use crate::registry::{input_core, CoreId};
use crate::text::{
    decimal,
    is_digit,
    lemma_decimal,
    lemma_decimal_injective,
    lemma_digits_then_rest,
    lemma_same_prefix,
    lemma_same_suffix,
};

verus! {

/// The lengths tried on `io_echo`, written out.
pub open spec fn io_echo_sizes_listed() -> Seq<u32> {
    seq![
        0,
        1,
        2,
        3,
        4,
        7,
        8,
        15,
        16,
        31,
        32,
        63,
        64,
        127,
        128,
        255,
        256,
        512,
        1023,
        1024,
        2048,
        4095,
        4096,
        8192,
        16384,
        32768,
        65535,
        65536,
        131072,
        262144,
        524288,
        1048576,
    ]
}

/// The elements of the list written out.
proof fn lemma_listed_elements()
    ensures
        io_echo_sizes_listed().len() == 32,
        io_echo_sizes_listed()[0] == 0u32,
        io_echo_sizes_listed()[1] == 1u32,
        io_echo_sizes_listed()[2] == 2u32,
        io_echo_sizes_listed()[3] == 3u32,
        io_echo_sizes_listed()[4] == 4u32,
        io_echo_sizes_listed()[5] == 7u32,
        io_echo_sizes_listed()[6] == 8u32,
        io_echo_sizes_listed()[7] == 15u32,
        io_echo_sizes_listed()[8] == 16u32,
        io_echo_sizes_listed()[9] == 31u32,
        io_echo_sizes_listed()[10] == 32u32,
        io_echo_sizes_listed()[11] == 63u32,
        io_echo_sizes_listed()[12] == 64u32,
        io_echo_sizes_listed()[13] == 127u32,
        io_echo_sizes_listed()[14] == 128u32,
        io_echo_sizes_listed()[15] == 255u32,
        io_echo_sizes_listed()[16] == 256u32,
        io_echo_sizes_listed()[17] == 512u32,
        io_echo_sizes_listed()[18] == 1023u32,
        io_echo_sizes_listed()[19] == 1024u32,
        io_echo_sizes_listed()[20] == 2048u32,
        io_echo_sizes_listed()[21] == 4095u32,
        io_echo_sizes_listed()[22] == 4096u32,
        io_echo_sizes_listed()[23] == 8192u32,
        io_echo_sizes_listed()[24] == 16384u32,
        io_echo_sizes_listed()[25] == 32768u32,
        io_echo_sizes_listed()[26] == 65535u32,
        io_echo_sizes_listed()[27] == 65536u32,
        io_echo_sizes_listed()[28] == 131072u32,
        io_echo_sizes_listed()[29] == 262144u32,
        io_echo_sizes_listed()[30] == 524288u32,
        io_echo_sizes_listed()[31] == 1048576u32,
{
}

/// The elements of the three families, one family after another.
proof fn lemma_candidate_elements()
    ensures
        size_candidates().len() == 32,
        size_candidates()[0] == 0u32,
        size_candidates()[1] == 1u32,
        size_candidates()[2] == 2u32,
        size_candidates()[3] == 4u32,
        size_candidates()[4] == 8u32,
        size_candidates()[5] == 16u32,
        size_candidates()[6] == 32u32,
        size_candidates()[7] == 64u32,
        size_candidates()[8] == 128u32,
        size_candidates()[9] == 256u32,
        size_candidates()[10] == 512u32,
        size_candidates()[11] == 1024u32,
        size_candidates()[12] == 2048u32,
        size_candidates()[13] == 4096u32,
        size_candidates()[14] == 8192u32,
        size_candidates()[15] == 16384u32,
        size_candidates()[16] == 32768u32,
        size_candidates()[17] == 65536u32,
        size_candidates()[18] == 131072u32,
        size_candidates()[19] == 262144u32,
        size_candidates()[20] == 524288u32,
        size_candidates()[21] == 1048576u32,
        size_candidates()[22] == 127u32,
        size_candidates()[23] == 255u32,
        size_candidates()[24] == 1023u32,
        size_candidates()[25] == 4095u32,
        size_candidates()[26] == 65535u32,
        size_candidates()[27] == 3u32,
        size_candidates()[28] == 7u32,
        size_candidates()[29] == 15u32,
        size_candidates()[30] == 31u32,
        size_candidates()[31] == 63u32,
{
    assert(power_sizes().len() == 22);
    assert(boundary_sizes().len() == 5);
    assert(edge_sizes().len() == 5);
}

/// Every length written out stands in one of the families.
proof fn lemma_listed_are_candidates()
    ensures
        forall|i: int|
            0 <= i < io_echo_sizes_listed().len() ==> size_candidates().contains(
                #[trigger] io_echo_sizes_listed()[i],
            ),
{
    lemma_listed_elements();
    lemma_candidate_elements();
    let sorted = io_echo_sizes_listed();
    let candidates = size_candidates();
    assert forall|i: int| 0 <= i < sorted.len() implies candidates.contains(
        #[trigger] sorted[i],
    ) by {
        if i == 0 {
            assert(candidates[0] == sorted[i]);
        }
        if i == 1 {
            assert(candidates[1] == sorted[i]);
        }
        if i == 2 {
            assert(candidates[2] == sorted[i]);
        }
        if i == 3 {
            assert(candidates[27] == sorted[i]);
        }
        if i == 4 {
            assert(candidates[3] == sorted[i]);
        }
        if i == 5 {
            assert(candidates[28] == sorted[i]);
        }
        if i == 6 {
            assert(candidates[4] == sorted[i]);
        }
        if i == 7 {
            assert(candidates[29] == sorted[i]);
        }
        if i == 8 {
            assert(candidates[5] == sorted[i]);
        }
        if i == 9 {
            assert(candidates[30] == sorted[i]);
        }
        if i == 10 {
            assert(candidates[6] == sorted[i]);
        }
        if i == 11 {
            assert(candidates[31] == sorted[i]);
        }
        if i == 12 {
            assert(candidates[7] == sorted[i]);
        }
        if i == 13 {
            assert(candidates[22] == sorted[i]);
        }
        if i == 14 {
            assert(candidates[8] == sorted[i]);
        }
        if i == 15 {
            assert(candidates[23] == sorted[i]);
        }
        if i == 16 {
            assert(candidates[9] == sorted[i]);
        }
        if i == 17 {
            assert(candidates[10] == sorted[i]);
        }
        if i == 18 {
            assert(candidates[24] == sorted[i]);
        }
        if i == 19 {
            assert(candidates[11] == sorted[i]);
        }
        if i == 20 {
            assert(candidates[12] == sorted[i]);
        }
        if i == 21 {
            assert(candidates[25] == sorted[i]);
        }
        if i == 22 {
            assert(candidates[13] == sorted[i]);
        }
        if i == 23 {
            assert(candidates[14] == sorted[i]);
        }
        if i == 24 {
            assert(candidates[15] == sorted[i]);
        }
        if i == 25 {
            assert(candidates[16] == sorted[i]);
        }
        if i == 26 {
            assert(candidates[26] == sorted[i]);
        }
        if i == 27 {
            assert(candidates[17] == sorted[i]);
        }
        if i == 28 {
            assert(candidates[18] == sorted[i]);
        }
        if i == 29 {
            assert(candidates[19] == sorted[i]);
        }
        if i == 30 {
            assert(candidates[20] == sorted[i]);
        }
        if i == 31 {
            assert(candidates[21] == sorted[i]);
        }
    }
}

/// Every length of a family is written out.
proof fn lemma_candidates_are_listed()
    ensures
        forall|i: int|
            0 <= i < size_candidates().len() ==> io_echo_sizes_listed().contains(
                #[trigger] size_candidates()[i],
            ),
{
    lemma_listed_elements();
    lemma_candidate_elements();
    let sorted = io_echo_sizes_listed();
    let candidates = size_candidates();
    assert forall|i: int| 0 <= i < candidates.len() implies sorted.contains(
        #[trigger] candidates[i],
    ) by {
        if i == 0 {
            assert(sorted[0] == candidates[i]);
        }
        if i == 1 {
            assert(sorted[1] == candidates[i]);
        }
        if i == 2 {
            assert(sorted[2] == candidates[i]);
        }
        if i == 3 {
            assert(sorted[4] == candidates[i]);
        }
        if i == 4 {
            assert(sorted[6] == candidates[i]);
        }
        if i == 5 {
            assert(sorted[8] == candidates[i]);
        }
        if i == 6 {
            assert(sorted[10] == candidates[i]);
        }
        if i == 7 {
            assert(sorted[12] == candidates[i]);
        }
        if i == 8 {
            assert(sorted[14] == candidates[i]);
        }
        if i == 9 {
            assert(sorted[16] == candidates[i]);
        }
        if i == 10 {
            assert(sorted[17] == candidates[i]);
        }
        if i == 11 {
            assert(sorted[19] == candidates[i]);
        }
        if i == 12 {
            assert(sorted[20] == candidates[i]);
        }
        if i == 13 {
            assert(sorted[22] == candidates[i]);
        }
        if i == 14 {
            assert(sorted[23] == candidates[i]);
        }
        if i == 15 {
            assert(sorted[24] == candidates[i]);
        }
        if i == 16 {
            assert(sorted[25] == candidates[i]);
        }
        if i == 17 {
            assert(sorted[27] == candidates[i]);
        }
        if i == 18 {
            assert(sorted[28] == candidates[i]);
        }
        if i == 19 {
            assert(sorted[29] == candidates[i]);
        }
        if i == 20 {
            assert(sorted[30] == candidates[i]);
        }
        if i == 21 {
            assert(sorted[31] == candidates[i]);
        }
        if i == 22 {
            assert(sorted[13] == candidates[i]);
        }
        if i == 23 {
            assert(sorted[15] == candidates[i]);
        }
        if i == 24 {
            assert(sorted[18] == candidates[i]);
        }
        if i == 25 {
            assert(sorted[21] == candidates[i]);
        }
        if i == 26 {
            assert(sorted[26] == candidates[i]);
        }
        if i == 27 {
            assert(sorted[3] == candidates[i]);
        }
        if i == 28 {
            assert(sorted[5] == candidates[i]);
        }
        if i == 29 {
            assert(sorted[7] == candidates[i]);
        }
        if i == 30 {
            assert(sorted[9] == candidates[i]);
        }
        if i == 31 {
            assert(sorted[11] == candidates[i]);
        }
    }
}

/// The list written out is strictly increasing.
proof fn lemma_listed_increasing()
    ensures
        strictly_increasing(io_echo_sizes_listed()),
{
    lemma_listed_elements();
    let sorted = io_echo_sizes_listed();
    assert forall|i: int| 0 < i < sorted.len() implies sorted[i - 1] < #[trigger] sorted[i] by {}
    lemma_adjacent_to_pairwise(sorted);
}

/// The list written out is the three families together, sorted, each length
/// once; so it is the list of lengths that are tried.
pub proof fn lemma_io_echo_sizes()
    ensures
        is_sorted_union(io_echo_sizes_listed(), size_candidates()),
        io_echo_sizes() == io_echo_sizes_listed(),
        io_echo_sizes().len() == 32,
{
    let sorted = io_echo_sizes_listed();
    let candidates = size_candidates();
    lemma_listed_increasing();
    lemma_listed_are_candidates();
    lemma_candidates_are_listed();
    lemma_listed_elements();
    assert forall|x: u32| sorted.contains(x) <==> candidates.contains(x) by {
        if sorted.contains(x) {
            let i = choose|i: int| 0 <= i < sorted.len() && sorted[i] == x;
            assert(candidates.contains(sorted[i]));
        }
        if candidates.contains(x) {
            let i = choose|i: int| 0 <= i < candidates.len() && candidates[i] == x;
            assert(sorted.contains(candidates[i]));
        }
    }
    assert(is_sorted_union(sorted, candidates));
    lemma_sorted_union_unique(io_echo_sizes(), sorted);
}

/// A sequence whose every element is larger than the one before it is
/// strictly increasing.
pub proof fn lemma_adjacent_to_pairwise(s: Seq<u32>)
    requires
        forall|i: int| 0 < i < s.len() ==> s[i - 1] < #[trigger] s[i],
    ensures
        strictly_increasing(s),
{
    assert forall|i: int, j: int| 0 <= i < j < s.len() implies s[i] < s[j] by {
        lemma_adjacent_step(s, i, j);
    }
}

proof fn lemma_adjacent_step(s: Seq<u32>, i: int, j: int)
    requires
        forall|k: int| 0 < k < s.len() ==> s[k - 1] < #[trigger] s[k],
        0 <= i < j < s.len(),
    ensures
        s[i] < s[j],
    decreases j - i,
{
    if j - 1 > i {
        lemma_adjacent_step(s, i, j - 1);
    }
    assert(s[j - 1] < s[j]);
}

/// No two inputs of the list carry the same tag.
pub open spec fn tags_distinct(list: Seq<MutatedInputView>) -> bool {
    forall|i: int, j: int|
        0 <= i < j < list.len() ==> (#[trigger] list[i]).mutation_op != (
        #[trigger] list[j]).mutation_op
}

/// Two tags of one strategy are equal only if their details are.
pub proof fn lemma_tag_detail(strategy: MutationStrategy, d1: Seq<char>, d2: Seq<char>)
    requires
        tag(strategy, d1) == tag(strategy, d2),
    ensures
        d1 == d2,
{
    lemma_same_prefix(strategy_word(strategy) + ":"@, d1, d2);
}

/// Two texts with endings of one length are equal only if both parts are.
pub proof fn lemma_same_length_endings(x: Seq<char>, e1: Seq<char>, y: Seq<char>, e2: Seq<char>)
    requires
        x + e1 == y + e2,
        e1.len() == e2.len(),
    ensures
        x == y,
        e1 == e2,
{
    assert((x + e1).len() == x.len() + e1.len());
    assert((y + e2).len() == y.len() + e2.len());
    assert((x + e1).take(x.len() as int) =~= x);
    assert((y + e2).take(y.len() as int) =~= y);
    assert((x + e1).skip(x.len() as int) =~= e1);
    assert((y + e2).skip(y.len() as int) =~= e2);
}

// ---------------------------------------------------------------- io_echo
/// The unit in which a length is written: 0 for bytes, 1 for kibibytes, 2
/// for mebibytes.
pub open spec fn size_unit(n: nat) -> nat {
    if n < 1024 {
        0
    } else if n < 1048576 {
        1
    } else {
        2
    }
}

/// The number that is written in front of the unit.
pub open spec fn size_amount(n: nat) -> nat {
    if n < 1024 {
        n
    } else if n < 1048576 {
        n / 1024
    } else {
        n / 1048576
    }
}

/// A length for people tells its unit and its amount.
pub proof fn lemma_human_size_tells(x: nat, y: nat)
    requires
        human_size(x) == human_size(y),
    ensures
        size_unit(x) == size_unit(y),
        size_amount(x) == size_amount(y),
{
    reveal_strlit("b");
    reveal_strlit("kb");
    reveal_strlit("mb");
    let dx = decimal(size_amount(x));
    let dy = decimal(size_amount(y));
    lemma_decimal(size_amount(x));
    lemma_decimal(size_amount(y));
    let ux = if size_unit(x) == 0 {
        "b"@
    } else if size_unit(x) == 1 {
        "kb"@
    } else {
        "mb"@
    };
    let uy = if size_unit(y) == 0 {
        "b"@
    } else if size_unit(y) == 1 {
        "kb"@
    } else {
        "mb"@
    };
    let s = human_size(x);
    assert(s == dx + ux);
    assert(s == dy + uy);
    let n = s.len() as int;
    assert(n == dx.len() + ux.len());
    assert(n == dy.len() + uy.len());
    assert(s[n - 2] == (dx + ux)[n - 2]);
    assert(s[n - 2] == (dy + uy)[n - 2]);
    if size_unit(x) == 0 {
        assert((dx + ux)[n - 2] == dx[dx.len() - 1]);
        assert(is_digit(dx[dx.len() - 1]));
    } else {
        assert((dx + ux)[n - 2] == ux[0]);
    }
    if size_unit(y) == 0 {
        assert((dy + uy)[n - 2] == dy[dy.len() - 1]);
        assert(is_digit(dy[dy.len() - 1]));
    } else {
        assert((dy + uy)[n - 2] == uy[0]);
    }
    assert(size_unit(x) == size_unit(y));
    lemma_same_suffix(dx, dy, ux);
    lemma_decimal_injective(size_amount(x), size_amount(y));
}

/// A number that orders lengths as their unit and amount do.
pub open spec fn size_rank(n: u32) -> u32 {
    (size_unit(n as nat) * 4096 + size_amount(n as nat)) as u32
}

/// No two of the lengths that are tried are written alike.
pub proof fn lemma_sizes_written_apart()
    ensures
        forall|i: int, j: int|
            0 <= i < j < io_echo_sizes().len() ==> human_size(
                #[trigger] io_echo_sizes()[i] as nat,
            ) != human_size(#[trigger] io_echo_sizes()[j] as nat),
{
    lemma_io_echo_sizes();
    lemma_listed_elements();
    let sizes = io_echo_sizes();
    let ranks = sizes.map_values(|n: u32| size_rank(n));
    assert forall|i: int| 0 < i < ranks.len() implies ranks[i - 1] < #[trigger] ranks[i] by {
        assert(ranks[i] == size_rank(sizes[i]));
        assert(ranks[i - 1] == size_rank(sizes[i - 1]));
    }
    lemma_adjacent_to_pairwise(ranks);
    assert forall|i: int, j: int| 0 <= i < j < sizes.len() implies human_size(
        #[trigger] sizes[i] as nat,
    ) != human_size(#[trigger] sizes[j] as nat) by {
        assert(ranks[i] < ranks[j]);
        if human_size(sizes[i] as nat) == human_size(sizes[j] as nat) {
            lemma_human_size_tells(sizes[i] as nat, sizes[j] as nat);
        }
    }
}

/// The `io_echo` list has 32 inputs, and their tags are pairwise different.
pub proof fn lemma_io_echo_tags(base: Seq<char>)
    ensures
        io_echo_catalogue(base).len() == 32,
        tags_distinct(io_echo_catalogue(base)),
{
    lemma_io_echo_sizes();
    lemma_sizes_written_apart();
    let list = io_echo_catalogue(base);
    let sizes = io_echo_sizes();
    assert forall|i: int, j: int| 0 <= i < j < list.len() implies (#[trigger] list[i]).mutation_op
        != (#[trigger] list[j]).mutation_op by {
        if list[i].mutation_op == list[j].mutation_op {
            lemma_tag_detail(
                MutationStrategy::LengthBias,
                human_size(sizes[i] as nat),
                human_size(sizes[j] as nat),
            );
        }
    }
}

// -------------------------------------------------------------------- fib
/// The `fib` list has 11 inputs, and their tags are pairwise different.
pub proof fn lemma_fib_tags(base: Seq<char>)
    ensures
        fib_catalogue(base).len() == 11,
        tags_distinct(fib_catalogue(base)),
{
    let list = fib_catalogue(base);
    let steps = fib_steps();
    assert(steps.len() == 11);
    assert forall|i: int| 0 < i < steps.len() implies steps[i - 1] < #[trigger] steps[i] by {}
    lemma_adjacent_to_pairwise(steps);
    assert forall|i: int, j: int| 0 <= i < j < list.len() implies (#[trigger] list[i]).mutation_op
        != (#[trigger] list[j]).mutation_op by {
        if list[i].mutation_op == list[j].mutation_op {
            lemma_tag_detail(
                MutationStrategy::FibonacciValues,
                "n="@ + decimal(steps[i] as nat),
                "n="@ + decimal(steps[j] as nat),
            );
            lemma_same_prefix("n="@, decimal(steps[i] as nat), decimal(steps[j] as nat));
            lemma_decimal_injective(steps[i] as nat, steps[j] as nat);
            assert(steps[i] < steps[j]);
        }
    }
}

// ----------------------------------------------------------- timeout_test
/// The `timeout_test` list has 9 inputs, and their tags are pairwise
/// different.
pub proof fn lemma_timeout_tags(base: Seq<char>)
    ensures
        timeout_catalogue(base).len() == 9,
        tags_distinct(timeout_catalogue(base)),
{
    let list = timeout_catalogue(base);
    let counts = iteration_counts();
    assert(counts.len() == 9);
    assert forall|i: int, j: int| 0 <= i < j < counts.len() implies counts[i] < counts[j] by {}
    assert forall|i: int, j: int| 0 <= i < j < list.len() implies (#[trigger] list[i]).mutation_op
        != (#[trigger] list[j]).mutation_op by {
        if list[i].mutation_op == list[j].mutation_op {
            lemma_tag_detail(
                MutationStrategy::IterationVariations,
                decimal(counts[i] as nat),
                decimal(counts[j] as nat),
            );
            lemma_decimal_injective(counts[i] as nat, counts[j] as nat);
            assert(counts[i] < counts[j]);
        }
    }
}

// ------------------------------------------------------------- panic_test
/// The names of the cases are pairwise different.
pub proof fn lemma_panic_case_names()
    ensures
        panic_cases().len() == 4,
        forall|i: int, j: int|
            0 <= i < j < 4 ==> (#[trigger] panic_cases()[i]).1 != (#[trigger] panic_cases()[j]).1,
{
    reveal_strlit("no_panic");
    reveal_strlit("panic_simple");
    reveal_strlit("panic_with_long_message");
    reveal_strlit("no_panic_alternate");
    assert forall|i: int, j: int| 0 <= i < j < 4 implies (#[trigger] panic_cases()[i]).1 != (
    #[trigger] panic_cases()[j]).1 by {
        if i == 0 && j == 1 {
            assert("no_panic"@.len() != "panic_simple"@.len());
        }
        if i == 0 && j == 2 {
            assert("no_panic"@.len() != "panic_with_long_message"@.len());
        }
        if i == 0 && j == 3 {
            assert("no_panic"@.len() != "no_panic_alternate"@.len());
        }
        if i == 1 && j == 2 {
            assert("panic_simple"@.len() != "panic_with_long_message"@.len());
        }
        if i == 1 && j == 3 {
            assert("panic_simple"@.len() != "no_panic_alternate"@.len());
        }
        if i == 2 && j == 3 {
            assert("panic_with_long_message"@.len() != "no_panic_alternate"@.len());
        }
    }
}

/// The `panic_test` list has 4 inputs, and their tags are pairwise
/// different.
pub proof fn lemma_panic_tags(base: Seq<char>)
    ensures
        panic_catalogue(base).len() == 4,
        tags_distinct(panic_catalogue(base)),
{
    lemma_panic_case_names();
    let list = panic_catalogue(base);
    assert forall|i: int, j: int| 0 <= i < j < list.len() implies (#[trigger] list[i]).mutation_op
        != (#[trigger] list[j]).mutation_op by {
        if list[i].mutation_op == list[j].mutation_op {
            lemma_tag_detail(
                MutationStrategy::BooleanVariations,
                panic_cases()[i].1,
                panic_cases()[j].1,
            );
        }
    }
}

// ---------------------------------------------------------- simple_struct
/// The names of the texts are pairwise different.
pub proof fn lemma_text_case_names()
    ensures
        text_cases().len() == 10,
        forall|i: int, j: int|
            0 <= i < j < 10 ==> (#[trigger] text_cases()[i]).1 != (#[trigger] text_cases()[j]).1,
{
    reveal_strlit("empty");
    reveal_strlit("single");
    reveal_strlit("short");
    reveal_strlit("100chars");
    reveal_strlit("1000chars");
    reveal_strlit("10kchars");
    reveal_strlit("emoji");
    reveal_strlit("unicode_mixed");
    reveal_strlit("newline");
    reveal_strlit("tab");
    assert(text_cases().len() == 10);
    assert forall|i: int, j: int| 0 <= i < j < 10 implies (#[trigger] text_cases()[i]).1 != (
    #[trigger] text_cases()[j]).1 by {
        if i == 0 && j == 1 {
            assert("empty"@.len() != "single"@.len());
        }
        if i == 0 && j == 2 {
            assert("empty"@[0] != "short"@[0]);
        }
        if i == 0 && j == 3 {
            assert("empty"@.len() != "100chars"@.len());
        }
        if i == 0 && j == 4 {
            assert("empty"@.len() != "1000chars"@.len());
        }
        if i == 0 && j == 5 {
            assert("empty"@.len() != "10kchars"@.len());
        }
        if i == 0 && j == 6 {
            assert("empty"@[2] != "emoji"@[2]);
        }
        if i == 0 && j == 7 {
            assert("empty"@.len() != "unicode_mixed"@.len());
        }
        if i == 0 && j == 8 {
            assert("empty"@.len() != "newline"@.len());
        }
        if i == 0 && j == 9 {
            assert("empty"@.len() != "tab"@.len());
        }
        if i == 1 && j == 2 {
            assert("single"@.len() != "short"@.len());
        }
        if i == 1 && j == 3 {
            assert("single"@.len() != "100chars"@.len());
        }
        if i == 1 && j == 4 {
            assert("single"@.len() != "1000chars"@.len());
        }
        if i == 1 && j == 5 {
            assert("single"@.len() != "10kchars"@.len());
        }
        if i == 1 && j == 6 {
            assert("single"@.len() != "emoji"@.len());
        }
        if i == 1 && j == 7 {
            assert("single"@.len() != "unicode_mixed"@.len());
        }
        if i == 1 && j == 8 {
            assert("single"@.len() != "newline"@.len());
        }
        if i == 1 && j == 9 {
            assert("single"@.len() != "tab"@.len());
        }
        if i == 2 && j == 3 {
            assert("short"@.len() != "100chars"@.len());
        }
        if i == 2 && j == 4 {
            assert("short"@.len() != "1000chars"@.len());
        }
        if i == 2 && j == 5 {
            assert("short"@.len() != "10kchars"@.len());
        }
        if i == 2 && j == 6 {
            assert("short"@[0] != "emoji"@[0]);
        }
        if i == 2 && j == 7 {
            assert("short"@.len() != "unicode_mixed"@.len());
        }
        if i == 2 && j == 8 {
            assert("short"@.len() != "newline"@.len());
        }
        if i == 2 && j == 9 {
            assert("short"@.len() != "tab"@.len());
        }
        if i == 3 && j == 4 {
            assert("100chars"@.len() != "1000chars"@.len());
        }
        if i == 3 && j == 5 {
            assert("100chars"@[2] != "10kchars"@[2]);
        }
        if i == 3 && j == 6 {
            assert("100chars"@.len() != "emoji"@.len());
        }
        if i == 3 && j == 7 {
            assert("100chars"@.len() != "unicode_mixed"@.len());
        }
        if i == 3 && j == 8 {
            assert("100chars"@.len() != "newline"@.len());
        }
        if i == 3 && j == 9 {
            assert("100chars"@.len() != "tab"@.len());
        }
        if i == 4 && j == 5 {
            assert("1000chars"@.len() != "10kchars"@.len());
        }
        if i == 4 && j == 6 {
            assert("1000chars"@.len() != "emoji"@.len());
        }
        if i == 4 && j == 7 {
            assert("1000chars"@.len() != "unicode_mixed"@.len());
        }
        if i == 4 && j == 8 {
            assert("1000chars"@.len() != "newline"@.len());
        }
        if i == 4 && j == 9 {
            assert("1000chars"@.len() != "tab"@.len());
        }
        if i == 5 && j == 6 {
            assert("10kchars"@.len() != "emoji"@.len());
        }
        if i == 5 && j == 7 {
            assert("10kchars"@.len() != "unicode_mixed"@.len());
        }
        if i == 5 && j == 8 {
            assert("10kchars"@.len() != "newline"@.len());
        }
        if i == 5 && j == 9 {
            assert("10kchars"@.len() != "tab"@.len());
        }
        if i == 6 && j == 7 {
            assert("emoji"@.len() != "unicode_mixed"@.len());
        }
        if i == 6 && j == 8 {
            assert("emoji"@.len() != "newline"@.len());
        }
        if i == 6 && j == 9 {
            assert("emoji"@.len() != "tab"@.len());
        }
        if i == 7 && j == 8 {
            assert("unicode_mixed"@.len() != "newline"@.len());
        }
        if i == 7 && j == 9 {
            assert("unicode_mixed"@.len() != "tab"@.len());
        }
        if i == 8 && j == 9 {
            assert("newline"@.len() != "tab"@.len());
        }
    }
}

/// The `simple_struct` list has 10 inputs, and their tags are pairwise
/// different.
pub proof fn lemma_simple_struct_tags(base: Seq<char>)
    ensures
        simple_struct_catalogue(base).len() == 10,
        tags_distinct(simple_struct_catalogue(base)),
{
    lemma_text_case_names();
    let list = simple_struct_catalogue(base);
    assert forall|i: int, j: int| 0 <= i < j < list.len() implies (#[trigger] list[i]).mutation_op
        != (#[trigger] list[j]).mutation_op by {
        if list[i].mutation_op == list[j].mutation_op {
            lemma_tag_detail(
                MutationStrategy::StringVariations,
                text_cases()[i].1,
                text_cases()[j].1,
            );
        }
    }
}

// ------------------------------------------------------------- arithmetic
/// The names of the operations have three letters each and are pairwise
/// different.
pub proof fn lemma_operation_names()
    ensures
        operation_names().len() == 4,
        forall|i: int| 0 <= i < 4 ==> (#[trigger] operation_names()[i]).len() == 3,
        forall|i: int, j: int|
            0 <= i < j < 4 ==> #[trigger] operation_names()[i] != #[trigger] operation_names()[j],
{
    reveal_strlit("add");
    reveal_strlit("sub");
    reveal_strlit("mul");
    reveal_strlit("div");
    assert forall|i: int, j: int| 0 <= i < j < 4 implies #[trigger] operation_names()[i]
        != #[trigger] operation_names()[j] by {
        if i == 0 && j == 1 {
            assert("add"@[0] != "sub"@[0]);
        }
        if i == 0 && j == 2 {
            assert("add"@[0] != "mul"@[0]);
        }
        if i == 0 && j == 3 {
            assert("add"@[0] != "div"@[0]);
        }
        if i == 1 && j == 2 {
            assert("sub"@[0] != "mul"@[0]);
        }
        if i == 1 && j == 3 {
            assert("sub"@[0] != "div"@[0]);
        }
        if i == 2 && j == 3 {
            assert("mul"@[0] != "div"@[0]);
        }
    }
}

/// The detail of an `arithmetic` tag.
pub open spec fn arithmetic_detail(op: Seq<char>, pair: (u32, u32)) -> Seq<char> {
    decimal(pair.0 as nat) + "_"@ + decimal(pair.1 as nat) + "_op_"@ + op
}

/// The detail of an `arithmetic` tag tells the operation and both operands.
pub proof fn lemma_arithmetic_detail_tells(
    op1: Seq<char>,
    pair1: (u32, u32),
    op2: Seq<char>,
    pair2: (u32, u32),
)
    requires
        op1.len() == op2.len(),
        arithmetic_detail(op1, pair1) == arithmetic_detail(op2, pair2),
    ensures
        op1 == op2,
        pair1 == pair2,
{
    reveal_strlit("_");
    reveal_strlit("_op_");
    let a1 = decimal(pair1.0 as nat);
    let b1 = decimal(pair1.1 as nat);
    let a2 = decimal(pair2.0 as nat);
    let b2 = decimal(pair2.1 as nat);
    lemma_decimal(pair1.0 as nat);
    lemma_decimal(pair1.1 as nat);
    lemma_decimal(pair2.0 as nat);
    lemma_decimal(pair2.1 as nat);
    lemma_same_length_endings(a1 + "_"@ + b1 + "_op_"@, op1, a2 + "_"@ + b2 + "_op_"@, op2);
    lemma_same_suffix(a1 + "_"@ + b1, a2 + "_"@ + b2, "_op_"@);
    assert(a1 + "_"@ + b1 =~= a1 + ("_"@ + b1));
    assert(a2 + "_"@ + b2 =~= a2 + ("_"@ + b2));
    assert(("_"@ + b1)[0] == '_');
    assert(("_"@ + b2)[0] == '_');
    lemma_digits_then_rest(a1, "_"@ + b1, a2, "_"@ + b2);
    lemma_same_prefix("_"@, b1, b2);
    lemma_decimal_injective(pair1.0 as nat, pair2.0 as nat);
    lemma_decimal_injective(pair1.1 as nat, pair2.1 as nat);
}

/// The `arithmetic` list has 24 inputs, and their tags are pairwise
/// different.
pub proof fn lemma_arithmetic_tags(base: Seq<char>)
    ensures
        arithmetic_catalogue(base).len() == 24,
        tags_distinct(arithmetic_catalogue(base)),
{
    lemma_operation_names();
    lemma_operand_pairs();
    let list = arithmetic_catalogue(base);
    let ops = operation_names();
    let pairs = operand_pairs();
    assert forall|i: int, j: int| 0 <= i < j < list.len() implies (#[trigger] list[i]).mutation_op
        != (#[trigger] list[j]).mutation_op by {
        if list[i].mutation_op == list[j].mutation_op {
            let oi = ops[i / 6];
            let oj = ops[j / 6];
            let pi = pairs[i % 6];
            let pj = pairs[j % 6];
            assert(list[i] == arithmetic_entry(oi, pi, base));
            assert(list[j] == arithmetic_entry(oj, pj, base));
            lemma_tag_detail(
                MutationStrategy::BoundaryValues,
                arithmetic_detail(oi, pi),
                arithmetic_detail(oj, pj),
            );
            lemma_arithmetic_detail_tells(oi, pi, oj, pj);
            if i / 6 != j / 6 {
                assert(ops[i / 6] != ops[j / 6]);
            } else {
                assert(i % 6 != j % 6);
                assert(pairs[i % 6] != pairs[j % 6]);
            }
        }
    }
}

// ------------------------------------------------------------------ every
/// Every registered core has at least one generated input, and within the
/// list of a core no two inputs carry the same tag.
pub proof fn lemma_catalogue_tags(core: CoreId, base: Seq<char>)
    ensures
        catalogue(core, base).len() >= 1,
        tags_distinct(catalogue(core, base)),
{
    match core {
        CoreId::IoEcho => lemma_io_echo_tags(base),
        CoreId::Arithmetic => lemma_arithmetic_tags(base),
        CoreId::SimpleStruct => lemma_simple_struct_tags(base),
        CoreId::Fib => lemma_fib_tags(base),
        CoreId::PanicTest => lemma_panic_tags(base),
        CoreId::TimeoutTest => lemma_timeout_tags(base),
    }
}

/// The list of a core does not depend on the base input: with another base
/// path it has the same length, the same inputs and the same tags, in the
/// same order. Generating twice gives the same list.
pub proof fn lemma_catalogue_depends_on_core_alone(
    core: CoreId,
    base_a: Seq<char>,
    base_b: Seq<char>,
)
    ensures
        catalogue(core, base_a).len() == catalogue(core, base_b).len(),
        forall|i: int|
            0 <= i < catalogue(core, base_a).len() ==> (#[trigger] catalogue(
                core,
                base_a,
            )[i]).input == catalogue(core, base_b)[i].input && catalogue(
                core,
                base_a,
            )[i].mutation_op == catalogue(core, base_b)[i].mutation_op,
        base_a == base_b ==> catalogue(core, base_a) == catalogue(core, base_b),
{
}

/// Every input of a core's list is an input of that core, and carries the
/// base path that the list was generated with.
pub proof fn lemma_catalogue_inputs_fit(core: CoreId, base: Seq<char>)
    ensures
        forall|i: int|
            0 <= i < catalogue(core, base).len() ==> input_core(
                (#[trigger] catalogue(core, base)[i]).input,
            ) == core && catalogue(core, base)[i].base_input_path == base,
{
}

/// Generating twice for one core gives the same list, element by element,
/// whatever the base inputs were.
pub proof fn lemma_generation_repeats(
    name: Seq<char>,
    base_path: Seq<char>,
    first: Result<Vec<MutatedInput>, MutatorError>,
    second: Result<Vec<MutatedInput>, MutatorError>,
)
    requires
        generated(name, base_path, first),
        generated(name, base_path, second),
    ensures
        first is Ok <==> second is Ok,
        first matches Ok(a) ==> second matches Ok(b) && views(a@) == views(b@),
{
}

} // verus!
