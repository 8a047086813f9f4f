//! Errors of the protocol core.

use vstd::prelude::*;

verus! {

/// Why an operation of the protocol failed.
#[derive(Clone, Debug, PartialEq, Eq)]
pub enum ProtocolError {
    /// A bus exchange failed.
    Transport,
    /// A response lacked its leading empty line, its payload line or its
    /// status line.
    ResponseMalformed,
    /// A response did not fit its buffer.
    ResponseTooLong,
    /// The device kept the ready line up longer than any response takes.
    ResponseTimeout,
    /// The device answered with a status other than `OK`; the status
    /// token is carried.
    CommandFailed(Vec<u8>),
    /// A command did not fit its buffer.
    CommandTooLong,
    /// The ready line did not rise within the allowed time.
    InitTimeout,
    /// The post-reset greeting did not fit its buffer and was truncated.
    PromptTooLong,
    /// The device reported that joining the network failed.
    ConnectionFailed,
    /// Status polling ended without an outcome.
    ConnectionTimeout,
}

} // verus!
