//! Fibonacci with a modulus that keeps the numbers small.

use vstd::prelude::*;

verus! {

/// The modulus applied after every addition.
pub const FIB_MODULUS: u32 = 7919;

/// The number of steps to run.
#[derive(Clone, Copy, Debug, PartialEq, Eq)]
pub struct FibInput {
    pub n: u32,
}

/// The pair reached after the steps, with the number of steps echoed.
#[derive(Clone, Copy, Debug, PartialEq, Eq)]
pub struct FibOutput {
    /// The input, echoed.
    pub n: u32,
    /// The value before the last one computed.
    pub a: u32,
    /// The last value computed.
    pub b: u32,
}

/// The pair held after `n` steps: start from `(0, 1)`; each step moves
/// `(a, b)` to `(b, (a + b) mod 7919)`.
pub open spec fn fib_pair(n: nat) -> (nat, nat)
    decreases n,
{
    if n == 0 {
        (0, 1)
    } else {
        let prev = fib_pair((n - 1) as nat);
        (prev.1, (prev.0 + prev.1) % (FIB_MODULUS as nat))
    }
}

/// What the core returns on an input.
pub open spec fn fib_output(input: FibInput) -> FibOutput {
    FibOutput {
        n: input.n,
        a: fib_pair(input.n as nat).0 as u32,
        b: fib_pair(input.n as nat).1 as u32,
    }
}

/// Both members of the pair stay below the modulus.
pub proof fn lemma_fib_pair_bounded(n: nat)
    ensures
        fib_pair(n).0 < FIB_MODULUS,
        fib_pair(n).1 < FIB_MODULUS,
    decreases n,
{
    if n > 0 {
        lemma_fib_pair_bounded((n - 1) as nat);
    }
}

/// Runs `input.n` steps and returns the pair reached, with `n` echoed.
pub fn run(input: FibInput) -> (out: FibOutput)
    ensures
        out == fib_output(input),
        out.a < FIB_MODULUS,
        out.b < FIB_MODULUS,
{
    let n = input.n;
    let mut a: u32 = 0;
    let mut b: u32 = 1;
    let mut i: u32 = 0;
    while i < n
        invariant
            i <= n,
            a == fib_pair(i as nat).0,
            b == fib_pair(i as nat).1,
            a < FIB_MODULUS,
            b < FIB_MODULUS,
        decreases n - i,
    {
        let c: u32 = (a + b) % FIB_MODULUS;
        a = b;
        b = c;
        i += 1;
    }
    FibOutput { n, a, b }
}

} // verus!
