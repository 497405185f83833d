//! The ways in which a call on the builder can fail.

use vstd::prelude::*;

verus! {

/// Why the builder could not serve a request.
#[derive(Clone, Copy, Debug, PartialEq, Eq, Structural)]
pub enum BuildError {
    /// The caller's signature does not validate.
    InvalidSignature,
    /// The requested view lies below the last collected view.
    ViewAlreadyDecided,
    /// No builder state is registered at all.
    NoBuilderState,
    /// The full waiting time passed without a block to offer.
    NoBlocksAvailable,
    /// The reply channel was closed before an answer came.
    ChannelClosed,
    /// No block is stored under the claimed commitment and view.
    BlockNotFound,
    /// The builder key could not sign the answer.
    SigningFailed,
    /// The bid could not be signed.
    BidSigningFailed,
    /// The solver could not be reached.
    SolverUnreachable,
    /// The solver did not take the bid.
    BidSubmissionFailed,
    /// The stream of consensus events ended and could not be taken up again.
    EventStreamLost,
}

impl BuildError {
    /// The status code under which the error is reported to a client:
    /// 400 for a bad signature, 404 for what is not (or no longer) there,
    /// 504 when waiting ran out, and 500 for the builder's own failures.
    pub open spec fn spec_status_code(self) -> u16 {
        match self {
            BuildError::InvalidSignature => 400,
            BuildError::ViewAlreadyDecided => 404,
            BuildError::BlockNotFound => 404,
            BuildError::NoBlocksAvailable => 504,
            _ => 500,
        }
    }

    #[verifier::when_used_as_spec(spec_status_code)]
    pub fn status_code(self) -> (code: u16)
        ensures
            code == self.spec_status_code(),
    {
        match self {
            BuildError::InvalidSignature => 400,
            BuildError::ViewAlreadyDecided => 404,
            BuildError::BlockNotFound => 404,
            BuildError::NoBlocksAvailable => 504,
            _ => 500,
        }
    }

    /// A sentence for logs and for the body of an error reply.
    pub fn message(self) -> (text: &'static str)
        ensures
            text@ == match self {
                BuildError::InvalidSignature => "Signature validation failed"@,
                BuildError::ViewAlreadyDecided =>
                    "Request for available blocks for a view that has already been decided."@,
                BuildError::NoBuilderState => "No builder state found"@,
                BuildError::NoBlocksAvailable => "No blocks available"@,
                BuildError::ChannelClosed => "channel unexpectedly closed"@,
                BuildError::BlockNotFound => "Block data not found"@,
                BuildError::SigningFailed => "Signing over the response failed"@,
                BuildError::BidSigningFailed => "Failed to sign the bid"@,
                BuildError::SolverUnreachable => "Failed to connect to the solver service."@,
                BuildError::BidSubmissionFailed => "Failed to submit the bid"@,
                BuildError::EventStreamLost => "failed to reconnect to the events service"@,
            },
    {
        match self {
            BuildError::InvalidSignature => "Signature validation failed",
            BuildError::ViewAlreadyDecided =>
                "Request for available blocks for a view that has already been decided.",
            BuildError::NoBuilderState => "No builder state found",
            BuildError::NoBlocksAvailable => "No blocks available",
            BuildError::ChannelClosed => "channel unexpectedly closed",
            BuildError::BlockNotFound => "Block data not found",
            BuildError::SigningFailed => "Signing over the response failed",
            BuildError::BidSigningFailed => "Failed to sign the bid",
            BuildError::SolverUnreachable => "Failed to connect to the solver service.",
            BuildError::BidSubmissionFailed => "Failed to submit the bid",
            BuildError::EventStreamLost => "failed to reconnect to the events service",
        }
    }
}

} // verus!
