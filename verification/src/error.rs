//! Errors of message handling.
use vstd::prelude::*;

verus! {

/// Errors that may occur during message handling.
#[derive(Copy, Clone, Debug, PartialEq, Eq, Structural)]
pub enum Error {
    /// Encountered when no function selector matched the given input bytes
    /// representing the function selector.
    InvalidFunctionSelector,
    /// Encountered when wrong parameters have been given to a selected
    /// function.
    InvalidArguments,
}

impl Error {
    /// The text that describes `self`.
    pub open spec fn spec_description(&self) -> Seq<char> {
        match self {
            Error::InvalidFunctionSelector => "encountered invalid message selector"@,
            Error::InvalidArguments => "encountered invalid arguments for selected message"@,
        }
    }

    /// Returns a short description of the error.
    pub fn description(&self) -> (text: &'static str)
        ensures
            text@ == self.spec_description(),
    {
        match self {
            Error::InvalidFunctionSelector => "encountered invalid message selector",
            Error::InvalidArguments => "encountered invalid arguments for selected message",
        }
    }
}

/// Results of message handling operations.
pub type Result<T> = core::result::Result<T, Error>;

} // verus!
