//! Errors of the subsystems.
use crate::text::concat;
use vstd::prelude::*;
use vstd::string::*;

verus! {

/// Any error of a subsystem, with its cause in words.
#[derive(Debug, PartialEq)]
pub enum FlowError {
    /// Configuration cannot be read or is not valid.
    Config(String),
    /// The layout cannot be computed.
    Layout(String),
    /// Reading or writing failed.
    Io(String),
    /// The window registry failed.
    Registry(String),
}

impl FlowError {
    /// The text of an error.
    pub open spec fn text(&self) -> Seq<char> {
        match self {
            FlowError::Config(cause) => "config error: "@ + cause@,
            FlowError::Layout(cause) => "layout error: "@ + cause@,
            FlowError::Io(cause) => "I/O error: "@ + cause@,
            FlowError::Registry(cause) => "registry error: "@ + cause@,
        }
    }

    /// The text of an error.
    pub fn to_string(&self) -> (res: String)
        ensures
            res@ == self.text(),
    {
        match self {
            FlowError::Config(cause) => concat("config error: ", cause.as_str()),
            FlowError::Layout(cause) => concat("layout error: ", cause.as_str()),
            FlowError::Io(cause) => concat("I/O error: ", cause.as_str()),
            FlowError::Registry(cause) => concat("registry error: ", cause.as_str()),
        }
    }
}

/// Result of a fallible operation.
pub type FlowResult<T> = Result<T, FlowError>;

/// An error names its subsystem and ends with its cause.
pub proof fn errors_name_their_subsystem(cause: String)
    ensures
        FlowError::Config(cause).text() == "config error: "@ + cause@,
        FlowError::Layout(cause).text() == "layout error: "@ + cause@,
        FlowError::Io(cause).text() == "I/O error: "@ + cause@,
        FlowError::Registry(cause).text() == "registry error: "@ + cause@,
{
}

} // verus!
