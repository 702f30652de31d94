//! Echoes a small record and measures its text field in bytes and in characters.

use vstd::prelude::*;
use vstd::string::*;
use vstd::utf8::encode_utf8;

verus! {

/// A small record: a number, a text and a flag.
#[derive(Clone, Debug, PartialEq, Eq)]
pub struct SimpleStructInput {
    pub field1: u32,
    pub field2: String,
    pub field3: bool,
}

/// The number and the flag echoed, and the two lengths of the text.
#[derive(Clone, Copy, Debug, PartialEq, Eq)]
pub struct SimpleStructOutput {
    pub field1_echo: u32,
    /// The length of `field2` in bytes of UTF-8, reduced to 32 bits.
    pub field2_len: u32,
    /// The number of characters of `field2`, reduced to 32 bits.
    pub field2_chars: u32,
    pub field3_echo: bool,
}

/// An input with its text as a sequence of characters.
pub struct SimpleStructInputView {
    pub field1: u32,
    pub field2: Seq<char>,
    pub field3: bool,
}

impl View for SimpleStructInput {
    type V = SimpleStructInputView;

    open spec fn view(&self) -> SimpleStructInputView {
        SimpleStructInputView { field1: self.field1, field2: self.field2@, field3: self.field3 }
    }
}

/// What the core returns on an input.
pub open spec fn simple_struct_output(input: SimpleStructInputView) -> SimpleStructOutput {
    SimpleStructOutput {
        field1_echo: input.field1,
        field2_len: (encode_utf8(input.field2).len() % 0x1_0000_0000) as u32,
        field2_chars: (input.field2.len() % 0x1_0000_0000) as u32,
        field3_echo: input.field3,
    }
}

/// Echoes the number and the flag, and reports the two lengths of the text.
pub fn run(input: SimpleStructInput) -> (out: SimpleStructOutput)
    ensures
        out == simple_struct_output(input@),
{
    let text = input.field2.as_str();
    let bytes = text.as_bytes().len();
    let chars = text.unicode_len();
    SimpleStructOutput {
        field1_echo: input.field1,
        field2_len: ((bytes as u64) % 0x1_0000_0000u64) as u32,
        field2_chars: ((chars as u64) % 0x1_0000_0000u64) as u32,
        field3_echo: input.field3,
    }
}

} // verus!
