//! The command table of the EZO RTD chip: every issuable command, its ASCII
//! wire text, its settle delay, and the kind of response it expects.
//!
//! Commands form a closed set; `encode` is total over well-formed commands
//! and the table is exhaustive, so no command falls back to a default.
//! `parse` reads a command back from its text, ignoring ASCII case.

use vstd::prelude::*;
use vstd::string::{StringExecFns, StrSliceExecFns};
use vstd::utf8::encode_utf8;
use crate::common::{CommandOptions, CommandResponse, I2cCommand};
use crate::decimal::{spec_parse_decimal, spec_render_fixed, Decimal};
use crate::errors::ErrorKind;
use crate::text::{
    ascii_seq, chars_of, eq_lit, eq_lit_ci, find_char, find_from, has_prefix_ci, is_ascii_vec,
    matches_ci, prefix_ci, push_digits_u64, spec_digits_of, spec_parse_u32, string_from_chars,
    sub_vec, parse_u32_all,
};

verus! {

/// Fixed baud rates of the chip's serial mode.
#[derive(Clone, Copy, Debug, PartialEq, Eq, Structural)]
pub enum BpsRate {
    Bps300,
    Bps1200,
    Bps2400,
    Bps9600,
    Bps19200,
    Bps38400,
    Bps57600,
    Bps115200,
}

/// The numeric rate of a baud setting.
pub open spec fn spec_bps(r: BpsRate) -> u32 {
    match r {
        BpsRate::Bps300 => 300,
        BpsRate::Bps1200 => 1200,
        BpsRate::Bps2400 => 2400,
        BpsRate::Bps9600 => 9600,
        BpsRate::Bps19200 => 19200,
        BpsRate::Bps38400 => 38400,
        BpsRate::Bps57600 => 57600,
        BpsRate::Bps115200 => 115200,
    }
}

/// The baud setting of a numeric rate, if it is one of the eight.
pub open spec fn spec_bps_of(n: u32) -> Option<BpsRate> {
    if n == 300 {
        Some(BpsRate::Bps300)
    } else if n == 1200 {
        Some(BpsRate::Bps1200)
    } else if n == 2400 {
        Some(BpsRate::Bps2400)
    } else if n == 9600 {
        Some(BpsRate::Bps9600)
    } else if n == 19200 {
        Some(BpsRate::Bps19200)
    } else if n == 38400 {
        Some(BpsRate::Bps38400)
    } else if n == 57600 {
        Some(BpsRate::Bps57600)
    } else if n == 115200 {
        Some(BpsRate::Bps115200)
    } else {
        None
    }
}

impl BpsRate {
    /// The numeric rate of this setting.
    pub fn to_u32(&self) -> (r: u32)
        ensures
            r == spec_bps(*self),
    {
        match self {
            BpsRate::Bps300 => 300,
            BpsRate::Bps1200 => 1200,
            BpsRate::Bps2400 => 2400,
            BpsRate::Bps9600 => 9600,
            BpsRate::Bps19200 => 19200,
            BpsRate::Bps38400 => 38400,
            BpsRate::Bps57600 => 57600,
            BpsRate::Bps115200 => 115200,
        }
    }

    /// The setting of a numeric rate.
    pub fn parse(n: u32) -> (r: Option<BpsRate>)
        ensures
            r == spec_bps_of(n),
    {
        if n == 300 {
            Some(BpsRate::Bps300)
        } else if n == 1200 {
            Some(BpsRate::Bps1200)
        } else if n == 2400 {
            Some(BpsRate::Bps2400)
        } else if n == 9600 {
            Some(BpsRate::Bps9600)
        } else if n == 19200 {
            Some(BpsRate::Bps19200)
        } else if n == 38400 {
            Some(BpsRate::Bps38400)
        } else if n == 57600 {
            Some(BpsRate::Bps57600)
        } else if n == 115200 {
            Some(BpsRate::Bps115200)
        } else {
            None
        }
    }
}

/// Every command the chip takes.  Each variant carries its parameter, if it
/// has one; the table below gives its wire text, delay and response kind.
#[derive(Clone, Debug, PartialEq, Eq)]
pub enum Command {
    /// `BAUD,n`: switch to serial mode at one of the eight fixed rates.
    Baud(BpsRate),
    /// `CAL,t`: calibrate at temperature `t`, written with two fraction digits.
    CalibrationTemperature(Decimal),
    /// `CAL,?`: query the calibration status.
    CalibrationState,
    /// `D,n`: set the data logger period, in seconds.
    DataloggerPeriod(u32),
    /// `D,0`: switch the data logger off.
    DataloggerDisable,
    /// `D,?`: query the data logger interval.
    DataloggerInterval,
    /// `I2C,n`: move the device to another bus address.
    DeviceAddress(u16),
    /// `I`: query device name and firmware version.
    DeviceInformation,
    /// `EXPORT`: read the next calibration export string.
    Export,
    /// `EXPORT,?`: query how much there is to export.
    ExportInfo,
    /// `IMPORT,s`: import one calibration string.
    Import(String),
    /// `FACTORY`: reset to factory settings.
    Factory,
    /// `FIND`: blink the LED to find the device.
    Find,
    /// `L,1`: switch the LED on.
    LedOn,
    /// `L,0`: switch the LED off.
    LedOff,
    /// `L,?`: query the LED state.
    LedState,
    /// `M,CLEAR`: clear the recalled-reading memory.
    MemoryClear,
    /// `M`: recall the next reading from memory.
    MemoryRecall,
    /// `M,?`: query the last memory location.
    MemoryRecallLast,
    /// `PLOCK,1`: lock the device to the current protocol.
    ProtocolLockEnable,
    /// `PLOCK,0`: unlock the protocol.
    ProtocolLockDisable,
    /// `PLOCK,?`: query the protocol lock.
    ProtocolLockState,
    /// `R`: take one temperature reading.
    Reading,
    /// `S,C`: report in Celsius.
    ScaleCelsius,
    /// `S,K`: report in Kelvin.
    ScaleKelvin,
    /// `S,F`: report in Fahrenheit.
    ScaleFahrenheit,
    /// `S,?`: query the scale.
    ScaleState,
    /// `SLEEP`: enter sleep mode.
    Sleep,
    /// `STATUS`: query restart reason and supply voltage.
    Status,
}

/// What the command table yields for one command: the wire bytes (the ASCII
/// command text closed by a single nul byte), the settle delay in
/// milliseconds, and the kind of response to expect — `None` for no read at
/// all, `Ack` for a bare status byte, or a typed kind.
pub struct CommandSpec {
    pub wire: Vec<u8>,
    pub delay_ms: u64,
    pub expected: Option<CommandResponse>,
}

impl Command {
    /// The parameters the command carries fit the wire format: a
    /// calibration temperature is a well-formed decimal, an import string
    /// is 1 to 12 ASCII characters.
    pub open spec fn wf(self) -> bool {
        match self {
            Command::CalibrationTemperature(d) => d.wf(),
            Command::Import(s) => 1 <= s@.len() <= 12 && ascii_seq(s@),
            _ => true,
        }
    }
}

/// The ASCII text of a command, without the closing nul byte.
pub open spec fn spec_command_string(c: Command) -> Seq<char> {
    match c {
        Command::Baud(r) => "BAUD,"@ + spec_digits_of(spec_bps(r) as nat),
        Command::CalibrationTemperature(d) => "CAL,"@ + spec_render_fixed(d, 2),
        Command::CalibrationState => "CAL,?"@,
        Command::DataloggerPeriod(n) => "D,"@ + spec_digits_of(n as nat),
        Command::DataloggerDisable => "D,0"@,
        Command::DataloggerInterval => "D,?"@,
        Command::DeviceAddress(a) => "I2C,"@ + spec_digits_of(a as nat),
        Command::DeviceInformation => "I"@,
        Command::Export => "EXPORT"@,
        Command::ExportInfo => "EXPORT,?"@,
        Command::Import(s) => "IMPORT,"@ + s@,
        Command::Factory => "FACTORY"@,
        Command::Find => "FIND"@,
        Command::LedOn => "L,1"@,
        Command::LedOff => "L,0"@,
        Command::LedState => "L,?"@,
        Command::MemoryClear => "M,CLEAR"@,
        Command::MemoryRecall => "M"@,
        Command::MemoryRecallLast => "M,?"@,
        Command::ProtocolLockEnable => "PLOCK,1"@,
        Command::ProtocolLockDisable => "PLOCK,0"@,
        Command::ProtocolLockState => "PLOCK,?"@,
        Command::Reading => "R"@,
        Command::ScaleCelsius => "S,C"@,
        Command::ScaleKelvin => "S,K"@,
        Command::ScaleFahrenheit => "S,F"@,
        Command::ScaleState => "S,?"@,
        Command::Sleep => "SLEEP"@,
        Command::Status => "STATUS"@,
    }
}

/// The wire bytes of a command: its text as bytes, closed by one nul byte.
pub open spec fn spec_wire_bytes(c: Command) -> Seq<u8> {
    encode_utf8(spec_command_string(c)).push(0u8)
}

/// The settle delay of a command, in milliseconds: 0 where the device
/// answers nothing (sleep, factory reset, a mode or address switch), 1000
/// for a calibration write, 600 for a reading, 300 for everything else.
pub open spec fn spec_delay_ms(c: Command) -> u64 {
    match c {
        Command::Baud(_) => 0,
        Command::Factory => 0,
        Command::Sleep => 0,
        Command::CalibrationTemperature(_) => 1000,
        Command::Reading => 600,
        _ => 300,
    }
}

/// The kind of response a command expects.
pub open spec fn spec_expected(c: Command) -> Option<CommandResponse> {
    match c {
        Command::Baud(_) => None,
        Command::DeviceAddress(_) => None,
        Command::Factory => None,
        Command::Sleep => None,
        Command::CalibrationState => Some(CommandResponse::CalibrationState),
        Command::DataloggerInterval => Some(CommandResponse::DataloggerInterval),
        Command::DeviceInformation => Some(CommandResponse::DeviceInformation),
        Command::Export => Some(CommandResponse::Export),
        Command::ExportInfo => Some(CommandResponse::ExportInfo),
        Command::LedState => Some(CommandResponse::LedState),
        Command::MemoryRecall => Some(CommandResponse::MemoryRecall),
        Command::MemoryRecallLast => Some(CommandResponse::MemoryRecallLastLocation),
        Command::ProtocolLockState => Some(CommandResponse::ProtocolLockState),
        Command::Reading => Some(CommandResponse::Reading),
        Command::ScaleState => Some(CommandResponse::ScaleState),
        Command::Status => Some(CommandResponse::Status),
        _ => Some(CommandResponse::Ack),
    }
}

impl Command {
    /// The ASCII text of this command, without the closing nul byte.
    pub fn get_command_string(&self) -> (r: String)
        requires
            self.wf(),
        ensures
            r@ == spec_command_string(*self),
    {
        match self {
            Command::Baud(rate) => concat_number("BAUD,", rate.to_u32() as u64),
            Command::CalibrationTemperature(d) => {
                let fixed = d.render_fixed(2);
                String::from_str("CAL,").concat(fixed.as_str())
            },
            Command::CalibrationState => String::from_str("CAL,?"),
            Command::DataloggerPeriod(n) => concat_number("D,", *n as u64),
            Command::DataloggerDisable => String::from_str("D,0"),
            Command::DataloggerInterval => String::from_str("D,?"),
            Command::DeviceAddress(a) => concat_number("I2C,", *a as u64),
            Command::DeviceInformation => String::from_str("I"),
            Command::Export => String::from_str("EXPORT"),
            Command::ExportInfo => String::from_str("EXPORT,?"),
            Command::Import(s) => String::from_str("IMPORT,").concat(s.as_str()),
            Command::Factory => String::from_str("FACTORY"),
            Command::Find => String::from_str("FIND"),
            Command::LedOn => String::from_str("L,1"),
            Command::LedOff => String::from_str("L,0"),
            Command::LedState => String::from_str("L,?"),
            Command::MemoryClear => String::from_str("M,CLEAR"),
            Command::MemoryRecall => String::from_str("M"),
            Command::MemoryRecallLast => String::from_str("M,?"),
            Command::ProtocolLockEnable => String::from_str("PLOCK,1"),
            Command::ProtocolLockDisable => String::from_str("PLOCK,0"),
            Command::ProtocolLockState => String::from_str("PLOCK,?"),
            Command::Reading => String::from_str("R"),
            Command::ScaleCelsius => String::from_str("S,C"),
            Command::ScaleKelvin => String::from_str("S,K"),
            Command::ScaleFahrenheit => String::from_str("S,F"),
            Command::ScaleState => String::from_str("S,?"),
            Command::Sleep => String::from_str("SLEEP"),
            Command::Status => String::from_str("STATUS"),
        }
    }

    /// The settle delay of this command, in milliseconds.
    pub fn get_delay(&self) -> (r: u64)
        ensures
            r == spec_delay_ms(*self),
    {
        match self {
            Command::Baud(_) => 0,
            Command::Factory => 0,
            Command::Sleep => 0,
            Command::CalibrationTemperature(_) => 1000,
            Command::Reading => 600,
            _ => 300,
        }
    }

    /// The kind of response this command expects.
    pub fn expected_response(&self) -> (r: Option<CommandResponse>)
        ensures
            r == spec_expected(*self),
    {
        match self {
            Command::Baud(_) => None,
            Command::DeviceAddress(_) => None,
            Command::Factory => None,
            Command::Sleep => None,
            Command::CalibrationState => Some(CommandResponse::CalibrationState),
            Command::DataloggerInterval => Some(CommandResponse::DataloggerInterval),
            Command::DeviceInformation => Some(CommandResponse::DeviceInformation),
            Command::Export => Some(CommandResponse::Export),
            Command::ExportInfo => Some(CommandResponse::ExportInfo),
            Command::LedState => Some(CommandResponse::LedState),
            Command::MemoryRecall => Some(CommandResponse::MemoryRecall),
            Command::MemoryRecallLast => Some(CommandResponse::MemoryRecallLastLocation),
            Command::ProtocolLockState => Some(CommandResponse::ProtocolLockState),
            Command::Reading => Some(CommandResponse::Reading),
            Command::ScaleState => Some(CommandResponse::ScaleState),
            Command::Status => Some(CommandResponse::Status),
            _ => Some(CommandResponse::Ack),
        }
    }

    /// The table entry of this command: wire bytes, delay, response kind.
    pub fn encode(&self) -> (r: CommandSpec)
        requires
            self.wf(),
        ensures
            r.wire@ == spec_wire_bytes(*self),
            r.delay_ms == spec_delay_ms(*self),
            r.expected == spec_expected(*self),
    {
        let s = self.get_command_string();
        let mut wire = s.as_str().as_bytes_vec();
        wire.push(0u8);
        CommandSpec { wire, delay_ms: self.get_delay(), expected: self.expected_response() }
    }
}

/// `prefix` followed by the numeral of `n`.
fn concat_number(prefix: &str, n: u64) -> (r: String)
    ensures
        r@ == prefix@ + spec_digits_of(n as nat),
{
    let mut out: Vec<char> = Vec::new();
    crate::text::push_str_chars(&mut out, prefix);
    push_digits_u64(&mut out, n);
    string_from_chars(&out)
}

/// Encoding is a function of the command alone: equal commands yield
/// byte-identical wire strings, equal delays and equal response kinds.
pub proof fn lemma_encode_deterministic(c1: Command, c2: Command)
    requires
        c1 == c2,
    ensures
        spec_wire_bytes(c1) == spec_wire_bytes(c2),
        spec_delay_ms(c1) == spec_delay_ms(c2),
        spec_expected(c1) == spec_expected(c2),
{
}

// ---------------------------------------------------------------------------
// Reading a command back from its text
// ---------------------------------------------------------------------------

/// `c` is what the command text `s` parses to, ignoring ASCII case in the
/// fixed parts.
pub open spec fn spec_command_of(s: Seq<char>, c: Command) -> bool {
    match c {
        Command::Baud(r) => prefix_ci(s, "BAUD,"@) && spec_parse_u32(
            s.subrange(5, s.len() as int),
        ) == Some(spec_bps(r)),
        Command::CalibrationTemperature(d) => prefix_ci(s, "CAL,"@) && spec_parse_decimal(
            s.subrange(4, s.len() as int),
        ) == Some(d),
        Command::CalibrationState => matches_ci(s, "CAL,?"@),
        Command::DataloggerPeriod(n) => prefix_ci(s, "D,"@) && {
            let rest = s.subrange(2, s.len() as int);
            rest != "0"@ && find_from(rest, 0, ',') == -1 && spec_parse_u32(rest) == Some(n)
        },
        Command::DataloggerDisable => matches_ci(s, "D,0"@),
        Command::DataloggerInterval => matches_ci(s, "D,?"@),
        Command::DeviceAddress(a) => prefix_ci(s, "I2C,"@) && spec_parse_u32(
            s.subrange(4, s.len() as int),
        ) == Some(a as u32),
        Command::DeviceInformation => matches_ci(s, "I"@),
        Command::Export => matches_ci(s, "EXPORT"@),
        Command::ExportInfo => matches_ci(s, "EXPORT,?"@),
        Command::Import(t) => prefix_ci(s, "IMPORT,"@) && {
            let rest = s.subrange(7, s.len() as int);
            t@ == rest && 1 <= rest.len() <= 12 && ascii_seq(rest)
        },
        Command::Factory => matches_ci(s, "FACTORY"@),
        Command::Find => matches_ci(s, "FIND"@),
        Command::LedOn => matches_ci(s, "L,1"@),
        Command::LedOff => matches_ci(s, "L,0"@),
        Command::LedState => matches_ci(s, "L,?"@),
        Command::MemoryClear => matches_ci(s, "M,CLEAR"@),
        Command::MemoryRecall => matches_ci(s, "M"@),
        Command::MemoryRecallLast => matches_ci(s, "M,?"@),
        Command::ProtocolLockEnable => matches_ci(s, "PLOCK,1"@),
        Command::ProtocolLockDisable => matches_ci(s, "PLOCK,0"@),
        Command::ProtocolLockState => matches_ci(s, "PLOCK,?"@),
        Command::Reading => matches_ci(s, "R"@),
        Command::ScaleCelsius => matches_ci(s, "S,C"@),
        Command::ScaleKelvin => matches_ci(s, "S,K"@),
        Command::ScaleFahrenheit => matches_ci(s, "S,F"@),
        Command::ScaleState => matches_ci(s, "S,?"@),
        Command::Sleep => matches_ci(s, "SLEEP"@),
        Command::Status => matches_ci(s, "STATUS"@),
    }
}

/// `s` is the text of some command.
pub open spec fn spec_command_parseable(s: Seq<char>) -> bool {
    ||| matches_ci(s, "CAL,?"@)
    ||| matches_ci(s, "D,0"@)
    ||| matches_ci(s, "D,?"@)
    ||| matches_ci(s, "I"@)
    ||| matches_ci(s, "EXPORT"@)
    ||| matches_ci(s, "EXPORT,?"@)
    ||| matches_ci(s, "FACTORY"@)
    ||| matches_ci(s, "FIND"@)
    ||| matches_ci(s, "L,1"@)
    ||| matches_ci(s, "L,0"@)
    ||| matches_ci(s, "L,?"@)
    ||| matches_ci(s, "M,CLEAR"@)
    ||| matches_ci(s, "M"@)
    ||| matches_ci(s, "M,?"@)
    ||| matches_ci(s, "PLOCK,1"@)
    ||| matches_ci(s, "PLOCK,0"@)
    ||| matches_ci(s, "PLOCK,?"@)
    ||| matches_ci(s, "R"@)
    ||| matches_ci(s, "S,C"@)
    ||| matches_ci(s, "S,K"@)
    ||| matches_ci(s, "S,F"@)
    ||| matches_ci(s, "S,?"@)
    ||| matches_ci(s, "SLEEP"@)
    ||| matches_ci(s, "STATUS"@)
    ||| (prefix_ci(s, "CAL,"@) && spec_parse_decimal(s.subrange(4, s.len() as int)) is Some)
    ||| (prefix_ci(s, "D,"@) && {
        let rest = s.subrange(2, s.len() as int);
        rest != "0"@ && find_from(rest, 0, ',') == -1 && spec_parse_u32(rest) is Some
    })
    ||| (prefix_ci(s, "BAUD,"@) && (match spec_parse_u32(s.subrange(5, s.len() as int)) {
        Some(n) => spec_bps_of(n) is Some,
        None => false,
    }))
    ||| (prefix_ci(s, "I2C,"@) && (match spec_parse_u32(s.subrange(4, s.len() as int)) {
        Some(n) => n <= 65535,
        None => false,
    }))
    ||| (prefix_ci(s, "IMPORT,"@) && {
        let rest = s.subrange(7, s.len() as int);
        1 <= rest.len() <= 12 && ascii_seq(rest)
    })
}

impl Command {
    /// Parses a command from its text, ignoring ASCII case in the fixed
    /// parts.  The parsed command is always well-formed.
    pub fn parse(s: &str) -> (r: Result<Command, ErrorKind>)
        ensures
            match r {
                Ok(c) => spec_command_of(s@, c) && c.wf(),
                Err(e) => !spec_command_parseable(s@) && e == ErrorKind::CommandParse,
            },
    {
        let v = chars_of(s);
        if eq_lit_ci(&v, "CAL,?") {
            return Ok(Command::CalibrationState);
        }
        if eq_lit_ci(&v, "D,0") {
            return Ok(Command::DataloggerDisable);
        }
        if eq_lit_ci(&v, "D,?") {
            return Ok(Command::DataloggerInterval);
        }
        if eq_lit_ci(&v, "I") {
            return Ok(Command::DeviceInformation);
        }
        if eq_lit_ci(&v, "EXPORT") {
            return Ok(Command::Export);
        }
        if eq_lit_ci(&v, "EXPORT,?") {
            return Ok(Command::ExportInfo);
        }
        if eq_lit_ci(&v, "FACTORY") {
            return Ok(Command::Factory);
        }
        if eq_lit_ci(&v, "FIND") {
            return Ok(Command::Find);
        }
        if eq_lit_ci(&v, "L,1") {
            return Ok(Command::LedOn);
        }
        if eq_lit_ci(&v, "L,0") {
            return Ok(Command::LedOff);
        }
        if eq_lit_ci(&v, "L,?") {
            return Ok(Command::LedState);
        }
        if eq_lit_ci(&v, "M,CLEAR") {
            return Ok(Command::MemoryClear);
        }
        if eq_lit_ci(&v, "M") {
            return Ok(Command::MemoryRecall);
        }
        if eq_lit_ci(&v, "M,?") {
            return Ok(Command::MemoryRecallLast);
        }
        if eq_lit_ci(&v, "PLOCK,1") {
            return Ok(Command::ProtocolLockEnable);
        }
        if eq_lit_ci(&v, "PLOCK,0") {
            return Ok(Command::ProtocolLockDisable);
        }
        if eq_lit_ci(&v, "PLOCK,?") {
            return Ok(Command::ProtocolLockState);
        }
        if eq_lit_ci(&v, "R") {
            return Ok(Command::Reading);
        }
        if eq_lit_ci(&v, "S,C") {
            return Ok(Command::ScaleCelsius);
        }
        if eq_lit_ci(&v, "S,K") {
            return Ok(Command::ScaleKelvin);
        }
        if eq_lit_ci(&v, "S,F") {
            return Ok(Command::ScaleFahrenheit);
        }
        if eq_lit_ci(&v, "S,?") {
            return Ok(Command::ScaleState);
        }
        if eq_lit_ci(&v, "SLEEP") {
            return Ok(Command::Sleep);
        }
        if eq_lit_ci(&v, "STATUS") {
            return Ok(Command::Status);
        }
        proof {
            reveal_strlit("CAL,");
            reveal_strlit("D,");
            reveal_strlit("BAUD,");
            reveal_strlit("I2C,");
            reveal_strlit("IMPORT,");
        }
        if has_prefix_ci(&v, "CAL,") {
            let rest = sub_vec(&v, 4, v.len());
            if let Some(d) = Decimal::parse_chars(&rest) {
                return Ok(Command::CalibrationTemperature(d));
            }
        }
        if has_prefix_ci(&v, "D,") {
            let rest = sub_vec(&v, 2, v.len());
            if !eq_lit(&rest, "0") {
                if let None = find_char(&rest, 0, ',') {
                    if let Some(n) = parse_u32_all(&rest) {
                        return Ok(Command::DataloggerPeriod(n));
                    }
                }
            }
        }
        if has_prefix_ci(&v, "BAUD,") {
            let rest = sub_vec(&v, 5, v.len());
            if let Some(n) = parse_u32_all(&rest) {
                if let Some(rate) = BpsRate::parse(n) {
                    return Ok(Command::Baud(rate));
                }
            }
        }
        if has_prefix_ci(&v, "I2C,") {
            let rest = sub_vec(&v, 4, v.len());
            if let Some(n) = parse_u32_all(&rest) {
                if n <= 65535 {
                    return Ok(Command::DeviceAddress(n as u16));
                }
            }
        }
        if has_prefix_ci(&v, "IMPORT,") {
            let rest = sub_vec(&v, 7, v.len());
            if 1 <= rest.len() && rest.len() <= 12 && is_ascii_vec(&rest) {
                return Ok(Command::Import(string_from_chars(&rest)));
            }
        }
        Err(ErrorKind::CommandParse)
    }
}

impl I2cCommand for Command {
    open spec fn encodable(&self) -> bool {
        self.wf()
    }

    fn build(&self) -> CommandOptions {
        CommandOptions {
            command: self.get_command_string(),
            delay: Some(self.get_delay()),
            response: self.expected_response(),
            data: None,
        }
    }
}

} // verus!
