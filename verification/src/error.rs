//! The failures that the detector and its transports report.

use vstd::prelude::*;
use vstd::string::StringExecFns;

verus! {

/// A failure, with what is known about it in words.
#[derive(Clone, Debug, PartialEq, Eq)]
pub enum Error {
    /// Sending or receiving failed, or a message could not be encoded or
    /// decoded.
    Network(String),
    /// A text is not the address of a peer.
    InvalidAddress(String),
    /// A setting is not acceptable.
    Config(String),
    /// The state machine found itself in a state that its rules exclude.
    StateMachine(String),
    /// Anything else.
    Unknown,
}

impl Error {
    /// The failure in one line.
    pub open spec fn spec_message(&self) -> Seq<char> {
        match *self {
            Error::Network(detail) => "Network error: "@ + detail@,
            Error::InvalidAddress(detail) => "Invalid address: "@ + detail@,
            Error::Config(detail) => "Configuration error: "@ + detail@,
            Error::StateMachine(detail) => "State machine error: "@ + detail@,
            Error::Unknown => "Unknown error occurred"@,
        }
    }

    /// The failure in one line.
    pub fn message(&self) -> (text: String)
        ensures
            text@ == self.spec_message(),
    {
        match self {
            Error::Network(detail) => String::from_str("Network error: ").concat(detail.as_str()),
            Error::InvalidAddress(detail) => String::from_str("Invalid address: ").concat(
                detail.as_str(),
            ),
            Error::Config(detail) => String::from_str("Configuration error: ").concat(
                detail.as_str(),
            ),
            Error::StateMachine(detail) => String::from_str("State machine error: ").concat(
                detail.as_str(),
            ),
            Error::Unknown => String::from_str("Unknown error occurred"),
        }
    }
}

} // verus!
