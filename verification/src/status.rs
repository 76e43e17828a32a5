//! How a compilation or a protected call ended.

use vstd::prelude::*;

verus! {

/// The status of a compilation or of a protected call.
#[derive(Clone, Copy, PartialEq, Eq, Debug)]
pub enum Status {
    /// It went through.
    Success,
    /// The source has a syntax error.
    CompileError,
    /// An error was raised while the unit ran: by the script, by an
    /// interrupt, or by the engine itself.
    RuntimeError,
    /// The engine ran out of memory.
    OutOfMemory,
    /// A script file or the input could not be read.
    IoFailure,
}

impl Status {
    /// Whether the status is success.
    pub open spec fn ok(self) -> bool {
        self == Status::Success
    }

    /// Tells whether the status is success.
    pub fn is_ok(self) -> (b: bool)
        ensures
            b == self.ok(),
    {
        match self {
            Status::Success => true,
            _ => false,
        }
    }
}

} // verus!
