//! A busy loop of a chosen length; length zero stands for "forever".

use vstd::prelude::*;

verus! {

/// Assumed of `std::hint::black_box`: it hands its argument back unchanged.
pub assume_specification<T>[ std::hint::black_box::<T> ](dummy: T) -> (r: T)
    ensures
        r == dummy,
;

/// The length of the loop.
#[derive(Clone, Copy, Debug, PartialEq, Eq)]
pub struct TimeoutInput {
    /// How many rounds to spin; 0 asks for a loop without end.
    pub iterations: u64,
}

/// The number of rounds that were run.
#[derive(Clone, Copy, Debug, PartialEq, Eq)]
pub struct TimeoutOutput {
    /// The number of rounds that were run.
    pub completed: u64,
}

/// Whether the core would spin forever on this input.
pub open spec fn spec_never_returns(input: TimeoutInput) -> bool {
    input.iterations == 0
}

/// Whether the core would spin forever on this input.
#[verifier::when_used_as_spec(spec_never_returns)]
pub fn never_returns(input: TimeoutInput) -> (r: bool)
    ensures
        r == spec_never_returns(input),
{
    input.iterations == 0
}

/// Spins for `input.iterations` rounds and reports their number.
///
/// An input of zero rounds is the request to spin forever and is not accepted
/// here: ask `never_returns` first.
pub fn run(input: TimeoutInput) -> (out: TimeoutOutput)
    requires
        !never_returns(input),
    ensures
        out.completed == input.iterations,
{
    let mut sum: u64 = 0;
    let mut i: u64 = 0;
    while i < input.iterations
        invariant
            i <= input.iterations,
        decreases input.iterations - i,
    {
        sum = std::hint::black_box(sum.wrapping_add(i));
        i += 1;
    }
    TimeoutOutput { completed: input.iterations }
}

} // verus!
