//! The errors that the adapter reports to its caller.

use vstd::prelude::*;

verus! {

/// Why a non-blocking read or write moved no byte.
#[derive(Clone, Copy, Debug, PartialEq, Eq, Structural)]
pub enum StdioError {
    /// Nothing can be moved right now; the caller retries once the stream is
    /// ready again.
    WouldBlock,
    /// The other end of this direction is gone for good.
    BrokenPipe,
}

impl StdioError {
    /// The text that accompanies the error.
    pub open spec fn spec_message(self) -> Seq<char> {
        match self {
            StdioError::WouldBlock => "WouldBlock"@,
            StdioError::BrokenPipe => "Broken pipe."@,
        }
    }

    /// The text that accompanies the error.
    pub fn message(&self) -> (text: &'static str)
        ensures
            text@ == self.spec_message(),
    {
        match self {
            StdioError::WouldBlock => "WouldBlock",
            StdioError::BrokenPipe => "Broken pipe.",
        }
    }
}

/// The error of an operation that found its stream not ready.
pub fn new_would_block_error() -> (error: StdioError)
    ensures
        error == StdioError::WouldBlock,
{
    StdioError::WouldBlock
}

/// The error of an operation whose counterpart has been dropped.
pub fn new_pipe_broken_error() -> (error: StdioError)
    ensures
        error == StdioError::BrokenPipe,
{
    StdioError::BrokenPipe
}

} // verus!
