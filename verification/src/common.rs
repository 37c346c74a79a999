//! Builder-style command options: the ASCII command text, the settle delay,
//! the kind of response to expect, and the raw buffer a read brought back.
//!
//! These options describe one write/read exchange with the device.  The
//! parts that touch the bus — writing, sleeping, reading — live outside the
//! verified crate; here stand the setters, and the decoding of a buffer a
//! read has filled.

use vstd::prelude::*;
use crate::engine::{decode_response, spec_decode};
use crate::errors::ErrorKind;

verus! {

/// Size of a raw response buffer: one status byte and up to 15 payload
/// bytes, nul terminator included.
pub const MAX_RESPONSE_LENGTH: usize = 16;

/// The kinds of typed response a command can expect, besides a bare
/// acknowledgement.
#[derive(Clone, Copy, Debug, PartialEq, Eq, Structural)]
pub enum CommandResponse {
    Ack,
    CalibrationState,
    DataloggerInterval,
    DeviceInformation,
    ExportInfo,
    Export,
    LedState,
    MemoryRecall,
    MemoryRecallLastLocation,
    ProtocolLockState,
    Reading,
    ScaleState,
    Status,
}

/// Command-related parameters used to build one write/read exchange.
#[derive(Clone, Debug, Default, PartialEq, Eq)]
pub struct CommandOptions {
    pub command: String,
    pub delay: Option<u64>,
    pub response: Option<CommandResponse>,
    pub data: Option<Vec<u8>>,
}

impl CommandOptions {
    /// Sets the ASCII text of the command to be sent.
    pub fn set_command(&mut self, command_str: String)
        ensures
            final(self).command == command_str,
            final(self).delay == old(self).delay,
            final(self).response == old(self).response,
            final(self).data == old(self).data,
    {
        self.command = command_str;
    }

    /// Sets the settle delay, in milliseconds.
    pub fn set_delay(&mut self, delay: u64)
        ensures
            final(self).command == old(self).command,
            final(self).delay == Some(delay),
            final(self).response == old(self).response,
            final(self).data == old(self).data,
    {
        self.delay = Some(delay);
    }

    /// Sets the kind of response to expect.
    pub fn set_response(&mut self, response: CommandResponse)
        ensures
            final(self).command == old(self).command,
            final(self).delay == old(self).delay,
            final(self).response == Some(response),
            final(self).data == old(self).data,
    {
        self.response = Some(response);
    }

    /// A copy of these options.
    pub fn finish(&self) -> (r: CommandOptions)
        ensures
            r.command@ == self.command@,
            r.delay == self.delay,
            r.response == self.response,
            match (r.data, self.data) {
                (Some(a), Some(b)) => a@ == b@,
                (None, None) => true,
                _ => false,
            },
    {
        let data: Option<Vec<u8>> = match &self.data {
            Some(d) => Some(clone_bytes(d)),
            None => None,
        };
        CommandOptions {
            command: self.command.clone(),
            delay: self.delay,
            response: self.response,
            data,
        }
    }

    /// Decodes the buffer a read brought back, if any: the nul-terminated
    /// payload text of a successful buffer, or the named error of any other
    /// status byte — a failure is never collapsed into a default value.
    /// With no buffer (no read was performed) there is nothing to report,
    /// and the text is empty.
    pub fn parse_response(&self) -> (r: Result<String, ErrorKind>)
        requires
            self.data matches Some(d) ==> d@.len() > 0,
        ensures
            match self.data {
                Some(d) => match (r, spec_decode(d@)) {
                    (Ok(s), Ok(p)) => s@ == p,
                    (Err(e1), Err(e2)) => e1 == e2,
                    _ => false,
                },
                None => r matches Ok(s) && s@.len() == 0,
            },
    {
        match &self.data {
            Some(d) => decode_response(d),
            None => Ok(String::new()),
        }
    }
}

/// A copy of a byte vector.
pub fn clone_bytes(v: &Vec<u8>) -> (out: Vec<u8>)
    ensures
        out@ == v@,
{
    let mut out: Vec<u8> = Vec::new();
    let mut i: usize = 0;
    while i < v.len()
        invariant
            i <= v@.len(),
            out@ == v@.subrange(0, i as int),
        decreases v@.len() - i,
    {
        out.push(v[i]);
        assert(out@ =~= v@.subrange(0, i + 1 as int));
        i += 1;
    }
    assert(out@ =~= v@);
    out
}

/// Anything that can describe itself as command options.
pub trait I2cCommand {
    /// Whether the value is one the table can encode.
    spec fn encodable(&self) -> bool;

    /// The options for one exchange running this command.
    fn build(&self) -> CommandOptions
        requires
            self.encodable(),
    ;
}

} // verus!
