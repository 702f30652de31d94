//! The four basic operations on 32-bit unsigned numbers, with overflow reported.

use vstd::prelude::*;
use vstd::string::*;
use crate::text::same_text;

verus! {

/// Two operands and the name of the operation to apply to them.
#[derive(Clone, Debug, PartialEq, Eq)]
pub struct ArithmeticInput {
    pub a: u32,
    pub b: u32,
    /// One of "add", "sub", "mul", "div".
    pub operation: String,
}

/// The result of the operation and whether it overflowed.
#[derive(Clone, Copy, Debug, PartialEq, Eq)]
pub struct ArithmeticOutput {
    /// The result, wrapped to 32 bits.
    pub result: u32,
    /// Whether the exact result did not fit.
    pub overflowed: bool,
}

/// An input with its operation as a sequence of characters.
pub struct ArithmeticInputView {
    pub a: u32,
    pub b: u32,
    pub operation: Seq<char>,
}

impl View for ArithmeticInput {
    type V = ArithmeticInputView;

    open spec fn view(&self) -> ArithmeticInputView {
        ArithmeticInputView { a: self.a, b: self.b, operation: self.operation@ }
    }
}

/// An integer reduced to the range of `u32`.
pub open spec fn wrap32(v: int) -> u32 {
    (v % 0x1_0000_0000) as u32
}

/// The message the core aborts with on this input, if it aborts: a division
/// by zero, or an operation it does not know.
pub open spec fn arithmetic_abort(input: ArithmeticInputView) -> Option<Seq<char>> {
    if input.operation == "add"@ || input.operation == "sub"@ || input.operation == "mul"@ {
        None
    } else if input.operation == "div"@ {
        if input.b == 0 {
            Some("Division by zero"@)
        } else {
            None
        }
    } else {
        Some("Unknown operation: "@ + input.operation)
    }
}

/// What the core returns where it does not abort.
pub open spec fn arithmetic_output(input: ArithmeticInputView) -> ArithmeticOutput {
    if input.operation == "add"@ {
        ArithmeticOutput {
            result: wrap32(input.a + input.b),
            overflowed: input.a + input.b > u32::MAX,
        }
    } else if input.operation == "sub"@ {
        ArithmeticOutput { result: wrap32(input.a - input.b), overflowed: input.a < input.b }
    } else if input.operation == "mul"@ {
        ArithmeticOutput {
            result: wrap32(input.a * input.b),
            overflowed: input.a * input.b > u32::MAX,
        }
    } else {
        ArithmeticOutput { result: (input.a as int / input.b as int) as u32, overflowed: false }
    }
}

/// The message the core aborts with on this input, or `None` where it returns.
pub fn abort_message(input: &ArithmeticInput) -> (msg: Option<String>)
    ensures
        match msg {
            Some(m) => arithmetic_abort(input@) == Some(m@),
            None => arithmetic_abort(input@) is None,
        },
{
    let op = input.operation.as_str();
    if same_text(op, "add") || same_text(op, "sub") || same_text(op, "mul") {
        None
    } else if same_text(op, "div") {
        if input.b == 0 {
            Some("Division by zero".to_owned())
        } else {
            None
        }
    } else {
        let mut m = "Unknown operation: ".to_owned();
        m.append(op);
        Some(m)
    }
}

/// Applies the named operation to `a` and `b`.
///
/// Addition, subtraction and multiplication wrap and say whether they did;
/// division never overflows. An unknown operation and a division by zero are
/// aborts and are not accepted here: ask `abort_message` first.
pub fn run(input: ArithmeticInput) -> (out: ArithmeticOutput)
    requires
        arithmetic_abort(input@) is None,
    ensures
        out == arithmetic_output(input@),
{
    let op = input.operation.as_str();
    if same_text(op, "add") {
        ArithmeticOutput {
            result: input.a.wrapping_add(input.b),
            overflowed: input.a.checked_add(input.b).is_none(),
        }
    } else if same_text(op, "sub") {
        ArithmeticOutput {
            result: input.a.wrapping_sub(input.b),
            overflowed: input.a.checked_sub(input.b).is_none(),
        }
    } else if same_text(op, "mul") {
        ArithmeticOutput {
            result: input.a.wrapping_mul(input.b),
            overflowed: input.a.checked_mul(input.b).is_none(),
        }
    } else {
        ArithmeticOutput { result: input.a / input.b, overflowed: false }
    }
}

} // verus!
