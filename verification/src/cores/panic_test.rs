//! A core that aborts on request.

use vstd::prelude::*;
use vstd::string::*;

verus! {

/// Whether to abort, and with which message.
#[derive(Clone, Debug, PartialEq, Eq)]
pub struct PanicInput {
    /// Whether the core is to abort.
    pub should_panic: bool,
    /// The message to abort with; a default is used when absent.
    pub panic_msg: Option<String>,
}

/// What the core returns when it does not abort.
#[derive(Clone, Copy, Debug, PartialEq, Eq)]
pub struct PanicOutput {
    /// `should_panic` as a number: 0 for false, 1 for true.
    pub should_panic_u32: u32,
    /// 0 for success.
    pub status_code: u32,
}

/// An input with its message as a sequence of characters.
pub struct PanicInputView {
    pub should_panic: bool,
    pub panic_msg: Option<Seq<char>>,
}

impl View for PanicInput {
    type V = PanicInputView;

    open spec fn view(&self) -> PanicInputView {
        PanicInputView {
            should_panic: self.should_panic,
            panic_msg: match self.panic_msg {
                Some(m) => Some(m@),
                None => None,
            },
        }
    }
}

/// The message the core aborts with on this input, if it aborts.
pub open spec fn panic_abort(input: PanicInputView) -> Option<Seq<char>> {
    if input.should_panic {
        match input.panic_msg {
            Some(m) => Some(m),
            None => Some("Intentional panic for testing"@),
        }
    } else {
        None
    }
}

/// The message the core aborts with on this input, or `None` where it returns.
pub fn abort_message(input: &PanicInput) -> (msg: Option<String>)
    ensures
        match msg {
            Some(m) => panic_abort(input@) == Some(m@),
            None => panic_abort(input@) is None,
        },
{
    if input.should_panic {
        match &input.panic_msg {
            Some(m) => Some(m.clone()),
            None => Some("Intentional panic for testing".to_owned()),
        }
    } else {
        None
    }
}

/// Returns success for an input that does not ask for an abort.
pub fn run(input: PanicInput) -> (out: PanicOutput)
    requires
        panic_abort(input@) is None,
    ensures
        out.should_panic_u32 == 0,
        out.status_code == 0,
{
    PanicOutput { should_panic_u32: if input.should_panic { 1 } else { 0 }, status_code: 0 }
}

} // verus!
