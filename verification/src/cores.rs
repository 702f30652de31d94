//! The cores: small pure programs that are run natively and inside the zkVM.
//!
//! Each core maps a typed input to a typed output. A core may abort on some
//! inputs, and one of them never returns on one input; those inputs are named
//! by a function beside `run`, and `run` itself is total on the rest.

pub mod arithmetic;
pub mod fib;
pub mod io_echo;
pub mod panic_test;
pub mod simple_struct;
pub mod timeout_test;
