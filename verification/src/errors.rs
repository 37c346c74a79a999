//! Error taxonomy of the protocol engine.  Every failure of a command run is
//! reported as one of these kinds; the engine never substitutes a default
//! value and never retries beyond the single retry of a write or read.

use vstd::prelude::*;

verus! {

/// Everything that can go wrong while one command runs.
#[derive(Clone, Copy, Debug, PartialEq, Eq, Structural)]
pub enum ErrorKind {
    /// The bus write failed twice.
    CommandWriteFailed,
    /// The bus read failed twice.
    ResponseReadFailed,
    /// The response payload is not a valid nul-terminated text.
    MalformedResponse,
    /// A command string did not parse as any command.
    CommandParse,
    /// A payload did not match the expected response grammar.
    ResponseParse,
    /// Status byte 0xFE: the response was not yet available.
    PendingResponse,
    /// Status byte 0x02: the device responded with an error.
    DeviceErrorResponse,
    /// Status byte 0xFF: the device has no data to respond.
    NoDataExpectedResponse,
    /// A status byte outside the defined set.
    UnknownStatusResponse,
}

/// The short report text of each error kind.
pub open spec fn spec_description(e: ErrorKind) -> Seq<char> {
    match e {
        ErrorKind::CommandWriteFailed => "could not write command to the device"@,
        ErrorKind::ResponseReadFailed => "response was not obtainable"@,
        ErrorKind::MalformedResponse => "response is not a valid nul-terminated UTF-8 string"@,
        ErrorKind::CommandParse => "could not parse command"@,
        ErrorKind::ResponseParse => "could not parse response"@,
        ErrorKind::PendingResponse => "response was not yet available"@,
        ErrorKind::DeviceErrorResponse => "the device responded with an error"@,
        ErrorKind::NoDataExpectedResponse => "the device has no data to respond"@,
        ErrorKind::UnknownStatusResponse => "the device responded with an unknown status"@,
    }
}

impl ErrorKind {
    /// A short description of the error, for reports.
    pub fn description(&self) -> (r: &'static str)
        ensures
            r@ == spec_description(*self),
    {
        match self {
            ErrorKind::CommandWriteFailed => "could not write command to the device",
            ErrorKind::ResponseReadFailed => "response was not obtainable",
            ErrorKind::MalformedResponse => "response is not a valid nul-terminated UTF-8 string",
            ErrorKind::CommandParse => "could not parse command",
            ErrorKind::ResponseParse => "could not parse response",
            ErrorKind::PendingResponse => "response was not yet available",
            ErrorKind::DeviceErrorResponse => "the device responded with an error",
            ErrorKind::NoDataExpectedResponse => "the device has no data to respond",
            ErrorKind::UnknownStatusResponse => "the device responded with an unknown status",
        }
    }
}

} // verus!
