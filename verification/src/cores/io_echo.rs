//! Echoes the shape of a byte buffer: its length and its two ends.

use vstd::prelude::*;

verus! {

/// A buffer of bytes.
#[derive(Clone, Debug, PartialEq, Eq)]
pub struct IoEchoInput {
    /// Any bytes: none, a few, or very many.
    pub data: Vec<u8>,
}

/// The shape of a buffer: its length and its two ends.
#[derive(Clone, Copy, Debug, PartialEq, Eq)]
pub struct IoEchoOutput {
    /// The number of bytes, reduced to 32 bits.
    pub length: u32,
    pub first_byte: Option<u8>,
    pub last_byte: Option<u8>,
}

/// What the core returns on a buffer.
pub open spec fn io_echo_output(data: Seq<u8>) -> IoEchoOutput {
    IoEchoOutput {
        length: (data.len() % 0x1_0000_0000) as u32,
        first_byte: if data.len() == 0 {
            None
        } else {
            Some(data.first())
        },
        last_byte: if data.len() == 0 {
            None
        } else {
            Some(data.last())
        },
    }
}

/// Reports the length of the data and its first and last byte, if any.
pub fn run(input: IoEchoInput) -> (out: IoEchoOutput)
    ensures
        out == io_echo_output(input.data@),
{
    let len = input.data.len();
    let length: u32 = ((len as u64) % 0x1_0000_0000u64) as u32;
    if len == 0 {
        IoEchoOutput { length, first_byte: None, last_byte: None }
    } else {
        IoEchoOutput {
            length,
            first_byte: Some(input.data[0]),
            last_byte: Some(input.data[len - 1]),
        }
    }
}

} // verus!
