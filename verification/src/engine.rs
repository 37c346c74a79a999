//! The protocol engine: decoding a raw response buffer, parsing its payload
//! into the typed response a command expects, and the state machine of one
//! command run — write, settle, read, decode — with a single fixed-backoff
//! retry for the write and for the read.
//!
//! The engine owns no transport.  It hands its caller one `Action` at a
//! time — write these bytes, sleep this long, read a buffer — and the
//! caller reports each outcome as an `Event`.  Every decision is made here;
//! only the bus work itself happens outside.

use vstd::prelude::*;
use vstd::utf8::{decode_utf8, valid_utf8};
use crate::command::{
    spec_command_string, spec_delay_ms, spec_expected, spec_wire_bytes, Command,
};
use crate::common::{clone_bytes, CommandResponse};
use crate::decimal::spec_parse_decimal;
use crate::errors::ErrorKind;
use crate::response::{
    spec_classify, spec_device_info_of, spec_device_info_valid, spec_exported_of,
    spec_exported_valid, spec_parse_calibration, spec_parse_device_status,
    spec_parse_exported_info, spec_parse_interval, spec_parse_led, spec_parse_memory,
    spec_parse_plock, spec_parse_scale, spec_temperature, CalibrationStatus,
    DataLoggerStorageIntervalSeconds, DeviceInfo, DeviceStatus, Exported, ExportedInfo,
    LedStatus, MemoryReading, ProtocolLockStatus, ResponseStatus, SensorReading, Temperature,
    TemperatureScale,
};
use crate::text::{find_byte, find_from, sub_bytes};

verus! {

/// Milliseconds to wait before the one retry of a failed write or read.
pub const BACKOFF_MS: u64 = 300;

// ---------------------------------------------------------------------------
// Decoding a response buffer
// ---------------------------------------------------------------------------

/// The payload text of the bytes after the status byte: everything up to
/// the first nul byte, or — when no nul arrived within the buffer — the
/// whole remainder, decoded as UTF-8; `None` when that is not valid text.
pub open spec fn spec_decode_payload(tail: Seq<u8>) -> Option<Seq<char>> {
    let n = find_from(tail, 0, 0u8);
    let payload = if n == -1 {
        tail
    } else {
        tail.subrange(0, n)
    };
    if valid_utf8(payload) {
        Some(decode_utf8(payload))
    } else {
        None
    }
}

/// What a whole response buffer decodes to: the payload text on success,
/// or the error its status byte stands for.
pub open spec fn spec_decode(buf: Seq<u8>) -> Result<Seq<char>, ErrorKind>
    recommends
        buf.len() >= 1,
{
    match spec_classify(buf[0]) {
        ResponseStatus::Success => match spec_decode_payload(buf.subrange(1, buf.len() as int)) {
            Some(p) => Ok(p),
            None => Err(ErrorKind::MalformedResponse),
        },
        ResponseStatus::Pending => Err(ErrorKind::PendingResponse),
        ResponseStatus::DeviceError => Err(ErrorKind::DeviceErrorResponse),
        ResponseStatus::NoDataExpected => Err(ErrorKind::NoDataExpectedResponse),
        ResponseStatus::UnknownError => Err(ErrorKind::UnknownStatusResponse),
    }
}

/// Relies on `String::from_utf8`: it succeeds exactly on valid UTF-8 input
/// and yields the string of its decoding.
#[verifier::external_body]
fn bytes_to_string(v: Vec<u8>) -> (r: Option<String>)
    ensures
        match r {
            Some(s) => valid_utf8(v@) && s@ == decode_utf8(v@),
            None => !valid_utf8(v@),
        },
{
    match String::from_utf8(v) {
        Ok(s) => Some(s),
        Err(_) => None,
    }
}

impl ErrorKind {
    /// The error a non-success status stands for.
    fn of_status(status: ResponseStatus) -> (e: ErrorKind)
        requires
            !(status is Success),
        ensures
            e == match status {
                ResponseStatus::Pending => ErrorKind::PendingResponse,
                ResponseStatus::DeviceError => ErrorKind::DeviceErrorResponse,
                ResponseStatus::NoDataExpected => ErrorKind::NoDataExpectedResponse,
                _ => ErrorKind::UnknownStatusResponse,
            },
    {
        match status {
            ResponseStatus::Pending => ErrorKind::PendingResponse,
            ResponseStatus::DeviceError => ErrorKind::DeviceErrorResponse,
            ResponseStatus::NoDataExpected => ErrorKind::NoDataExpectedResponse,
            _ => ErrorKind::UnknownStatusResponse,
        }
    }
}

/// Decodes a raw response buffer: classify the first byte; on success take
/// the payload up to the first nul — or, when the terminator is missing at
/// the buffer boundary, the whole remainder — as UTF-8 text; on any other
/// status fail with that status's error, without touching the payload.
pub fn decode_response(buf: &Vec<u8>) -> (r: Result<String, ErrorKind>)
    requires
        buf@.len() >= 1,
    ensures
        match (r, spec_decode(buf@)) {
            (Ok(s), Ok(p)) => s@ == p,
            (Err(e1), Err(e2)) => e1 == e2,
            _ => false,
        },
{
    let status = ResponseStatus::classify(buf[0]);
    if let ResponseStatus::Success = status {
        let tail = sub_bytes(buf, 1, buf.len());
        let end = match find_byte(&tail, 0, 0u8) {
            Some(i) => i,
            None => tail.len(),
        };
        let payload = sub_bytes(&tail, 0, end);
        proof {
            if find_from(tail@, 0, 0u8) == -1 {
                assert(payload@ =~= tail@);
            }
        }
        match bytes_to_string(payload) {
            Some(s) => Ok(s),
            None => Err(ErrorKind::MalformedResponse),
        }
    } else {
        Err(ErrorKind::of_status(status))
    }
}

// ---------------------------------------------------------------------------
// Typed responses
// ---------------------------------------------------------------------------

/// One typed response of the chip, whichever kind the command expected.
#[derive(Clone, Debug, PartialEq)]
pub enum Response {
    /// The bare acknowledgement of a command without payload.
    Ack,
    Calibration(CalibrationStatus),
    DataloggerInterval(DataLoggerStorageIntervalSeconds),
    DeviceInformation(DeviceInfo),
    ExportInfo(ExportedInfo),
    Export(Exported),
    Led(LedStatus),
    Memory(MemoryReading),
    ProtocolLock(ProtocolLockStatus),
    Reading(SensorReading),
    Scale(TemperatureScale),
    Status(DeviceStatus),
}

/// `r` is what the payload `s` parses to under the expected kind.
pub open spec fn spec_response_matches(kind: CommandResponse, s: Seq<char>, r: Response) -> bool {
    match kind {
        CommandResponse::Ack => r is Ack,
        CommandResponse::CalibrationState => (match r {
            Response::Calibration(v) => spec_parse_calibration(s) == Some(v),
            _ => false,
        }),
        CommandResponse::DataloggerInterval => (match r {
            Response::DataloggerInterval(v) => spec_parse_interval(s) == Some(v),
            _ => false,
        }),
        CommandResponse::DeviceInformation => (match r {
            Response::DeviceInformation(d) => spec_device_info_of(s, d),
            _ => false,
        }),
        CommandResponse::ExportInfo => (match r {
            Response::ExportInfo(v) => spec_parse_exported_info(s) == Some(v),
            _ => false,
        }),
        CommandResponse::Export => (match r {
            Response::Export(e) => spec_exported_of(s, e),
            _ => false,
        }),
        CommandResponse::LedState => (match r {
            Response::Led(v) => spec_parse_led(s) == Some(v),
            _ => false,
        }),
        CommandResponse::MemoryRecall => (match r {
            Response::Memory(m) => spec_parse_memory(s) == Some(m),
            _ => false,
        }),
        CommandResponse::MemoryRecallLastLocation => (match r {
            Response::Memory(m) => spec_parse_memory(s) == Some(m),
            _ => false,
        }),
        CommandResponse::ProtocolLockState => (match r {
            Response::ProtocolLock(v) => spec_parse_plock(s) == Some(v),
            _ => false,
        }),
        CommandResponse::Reading => (match r {
            Response::Reading(v) => spec_parse_decimal(s) == Some(v.0),
            _ => false,
        }),
        CommandResponse::ScaleState => (match r {
            Response::Scale(v) => spec_parse_scale(s) == Some(v),
            _ => false,
        }),
        CommandResponse::Status => (match r {
            Response::Status(v) => spec_parse_device_status(s) == Some(v),
            _ => false,
        }),
    }
}

/// The payload `s` parses under the expected kind.
pub open spec fn spec_response_parseable(kind: CommandResponse, s: Seq<char>) -> bool {
    match kind {
        CommandResponse::Ack => true,
        CommandResponse::CalibrationState => spec_parse_calibration(s) is Some,
        CommandResponse::DataloggerInterval => spec_parse_interval(s) is Some,
        CommandResponse::DeviceInformation => spec_device_info_valid(s),
        CommandResponse::ExportInfo => spec_parse_exported_info(s) is Some,
        CommandResponse::Export => spec_exported_valid(s),
        CommandResponse::LedState => spec_parse_led(s) is Some,
        CommandResponse::MemoryRecall => spec_parse_memory(s) is Some,
        CommandResponse::MemoryRecallLastLocation => spec_parse_memory(s) is Some,
        CommandResponse::ProtocolLockState => spec_parse_plock(s) is Some,
        CommandResponse::Reading => spec_parse_decimal(s) is Some,
        CommandResponse::ScaleState => spec_parse_scale(s) is Some,
        CommandResponse::Status => spec_parse_device_status(s) is Some,
    }
}

/// Hands the decoded payload to the parser of the expected response kind.
/// A format mismatch is a `ResponseParse` error, terminal for the run.
pub fn parse_typed(kind: &CommandResponse, payload: &str) -> (r: Result<Response, ErrorKind>)
    ensures
        match r {
            Ok(resp) => spec_response_matches(*kind, payload@, resp),
            Err(e) => !spec_response_parseable(*kind, payload@) && e == ErrorKind::ResponseParse,
        },
{
    match kind {
        CommandResponse::Ack => Ok(Response::Ack),
        CommandResponse::CalibrationState => match CalibrationStatus::parse(payload) {
            Ok(v) => Ok(Response::Calibration(v)),
            Err(e) => Err(e),
        },
        CommandResponse::DataloggerInterval => match DataLoggerStorageIntervalSeconds::parse(
            payload,
        ) {
            Ok(v) => Ok(Response::DataloggerInterval(v)),
            Err(e) => Err(e),
        },
        CommandResponse::DeviceInformation => match DeviceInfo::parse(payload) {
            Ok(v) => Ok(Response::DeviceInformation(v)),
            Err(e) => Err(e),
        },
        CommandResponse::ExportInfo => match ExportedInfo::parse(payload) {
            Ok(v) => Ok(Response::ExportInfo(v)),
            Err(e) => Err(e),
        },
        CommandResponse::Export => match Exported::parse(payload) {
            Ok(v) => Ok(Response::Export(v)),
            Err(e) => Err(e),
        },
        CommandResponse::LedState => match LedStatus::parse(payload) {
            Ok(v) => Ok(Response::Led(v)),
            Err(e) => Err(e),
        },
        CommandResponse::MemoryRecall => match MemoryReading::parse(payload) {
            Ok(v) => Ok(Response::Memory(v)),
            Err(e) => Err(e),
        },
        CommandResponse::MemoryRecallLastLocation => match MemoryReading::parse(payload) {
            Ok(v) => Ok(Response::Memory(v)),
            Err(e) => Err(e),
        },
        CommandResponse::ProtocolLockState => match ProtocolLockStatus::parse(payload) {
            Ok(v) => Ok(Response::ProtocolLock(v)),
            Err(e) => Err(e),
        },
        CommandResponse::Reading => match SensorReading::parse(payload) {
            Ok(v) => Ok(Response::Reading(v)),
            Err(e) => Err(e),
        },
        CommandResponse::ScaleState => match TemperatureScale::parse(payload) {
            Ok(v) => Ok(Response::Scale(v)),
            Err(e) => Err(e),
        },
        CommandResponse::Status => match DeviceStatus::parse(payload) {
            Ok(v) => Ok(Response::Status(v)),
            Err(e) => Err(e),
        },
    }
}

// ---------------------------------------------------------------------------
// The state machine of one command run
// ---------------------------------------------------------------------------

/// Where one command run stands.
#[derive(Clone, Copy, Debug, PartialEq, Eq, Structural)]
pub enum Phase {
    /// The wire bytes were handed out for writing.
    AwaitWrite { retried: bool },
    /// The first write failed; the backoff sleep is under way.
    BackoffWrite,
    /// The settle sleep is under way.
    AwaitSettle,
    /// A read was handed out.
    AwaitRead { retried: bool },
    /// The first read failed; the backoff sleep is under way.
    BackoffRead,
    /// The run is over.
    Complete,
}

/// What the engine asks its caller to do next.
pub enum Action {
    /// Write these bytes to the device, then report `WriteOk` or `WriteFailed`.
    Write(Vec<u8>),
    /// Block for this many milliseconds, then report `Slept`.
    Sleep(u64),
    /// Read one fixed-size response buffer, then report `ReadOk` or `ReadFailed`.
    Read,
    /// The run is over with this outcome; `None` where no response was expected.
    Finish(Result<Option<Response>, ErrorKind>),
}

/// The outcome of the outside work the last action asked for.
pub enum Event {
    WriteOk,
    WriteFailed,
    Slept,
    ReadOk(Vec<u8>),
    ReadFailed,
}

/// The events that can answer the action handed out in each phase.
pub open spec fn spec_event_fits(phase: Phase, e: Event) -> bool {
    match phase {
        Phase::AwaitWrite { .. } => e is WriteOk || e is WriteFailed,
        Phase::BackoffWrite => e is Slept,
        Phase::AwaitSettle => e is Slept,
        Phase::AwaitRead { .. } => e is ReadOk || e is ReadFailed,
        Phase::BackoffRead => e is Slept,
        Phase::Complete => false,
    }
}

/// The phase a fitting event moves a run to, given its settle delay and
/// its expected response kind.
pub open spec fn spec_phase_after(
    phase: Phase,
    e: Event,
    delay_ms: u64,
    expected: Option<CommandResponse>,
) -> Phase
    recommends
        spec_event_fits(phase, e),
{
    match (phase, e) {
        (Phase::AwaitWrite { retried }, Event::WriteOk) => if delay_ms > 0 {
            Phase::AwaitSettle
        } else {
            spec_post_settle_phase(expected)
        },
        (Phase::AwaitWrite { retried }, Event::WriteFailed) => if retried {
            Phase::Complete
        } else {
            Phase::BackoffWrite
        },
        (Phase::BackoffWrite, Event::Slept) => Phase::AwaitWrite { retried: true },
        (Phase::AwaitSettle, Event::Slept) => spec_post_settle_phase(expected),
        (Phase::AwaitRead { retried }, Event::ReadFailed) => if retried {
            Phase::Complete
        } else {
            Phase::BackoffRead
        },
        (Phase::BackoffRead, Event::Slept) => Phase::AwaitRead { retried: true },
        (Phase::AwaitRead { retried }, Event::ReadOk(_)) => Phase::Complete,
        _ => phase,
    }
}

/// How far along a run each phase is.  Every fitting event moves a run to
/// a strictly later phase (see `lemma_run_advances`).
pub open spec fn spec_phase_rank(p: Phase) -> int {
    match p {
        Phase::AwaitWrite { retried } => if retried {
            2
        } else {
            0
        },
        Phase::BackoffWrite => 1,
        Phase::AwaitSettle => 3,
        Phase::AwaitRead { retried } => if retried {
            6
        } else {
            4
        },
        Phase::BackoffRead => 5,
        Phase::Complete => 7,
    }
}

/// A run only moves forward: no phase is ever revisited.  In particular
/// the write is handed out at most twice and the read at most twice per
/// run — the single-retry policy is structural, not a counter.
pub proof fn lemma_run_advances(
    phase: Phase,
    e: Event,
    delay_ms: u64,
    expected: Option<CommandResponse>,
)
    requires
        spec_event_fits(phase, e),
    ensures
        spec_phase_rank(spec_phase_after(phase, e, delay_ms, expected)) > spec_phase_rank(phase),
{
}

/// A first read is asked for only once the settle sleep has finished, or
/// right after the write when the command needs no settling: a read never
/// comes before the delay has elapsed.
pub proof fn lemma_read_follows_settle(
    phase: Phase,
    e: Event,
    delay_ms: u64,
    expected: Option<CommandResponse>,
)
    requires
        spec_event_fits(phase, e),
        spec_phase_after(phase, e, delay_ms, expected) == (Phase::AwaitRead { retried: false }),
    ensures
        phase is AwaitSettle || (phase is AwaitWrite && delay_ms == 0),
{
}

/// The phase after the settle delay has passed (or was zero): read where a
/// response is expected, else the run is over.
pub open spec fn spec_post_settle_phase(expected: Option<CommandResponse>) -> Phase {
    if expected is Some {
        Phase::AwaitRead { retried: false }
    } else {
        Phase::Complete
    }
}

/// The action after the settle delay: a read where a response is expected,
/// else a successful finish with no payload.
pub open spec fn spec_post_settle_action(expected: Option<CommandResponse>, a: Action) -> bool {
    match expected {
        Some(_) => a is Read,
        None => a matches Action::Finish(out) && out matches Ok(o) && o is None,
    }
}

/// `out` is the outcome of decoding `buf` and parsing its payload under the
/// expected kind: the error of a non-success status or malformed text, the
/// parser's verdict on the payload, or — where no response was expected —
/// success with no payload.
pub open spec fn spec_outcome_matches(
    expected: Option<CommandResponse>,
    buf: Seq<u8>,
    out: Result<Option<Response>, ErrorKind>,
) -> bool {
    match spec_decode(buf) {
        Err(e) => out matches Err(e2) && e2 == e,
        Ok(payload) => match expected {
            None => out matches Ok(o) && o is None,
            Some(kind) => match out {
                Ok(Some(r)) => spec_response_matches(kind, payload, r),
                Err(e) => !spec_response_parseable(kind, payload) && e == ErrorKind::ResponseParse,
                Ok(None) => false,
            },
        },
    }
}

/// One command run: write, settle, read, decode.  The caller performs each
/// requested action and reports its outcome; the machine retries a failed
/// write or read exactly once, after a fixed backoff, and a second failure
/// ends the run with `CommandWriteFailed` or `ResponseReadFailed`.  No
/// state survives the run: every run starts fresh from `start`.
pub struct Transaction {
    pub wire: Vec<u8>,
    pub delay_ms: u64,
    pub expected: Option<CommandResponse>,
    pub phase: Phase,
}

impl Transaction {
    /// Begins a run of `cmd`: the first action is writing its wire bytes.
    pub fn start(cmd: &Command) -> (r: (Transaction, Action))
        requires
            cmd.wf(),
        ensures
            r.0.wire@ == spec_wire_bytes(*cmd),
            r.0.delay_ms == spec_delay_ms(*cmd),
            r.0.expected == spec_expected(*cmd),
            r.0.phase == (Phase::AwaitWrite { retried: false }),
            r.1 matches Action::Write(b) && b@ == spec_wire_bytes(*cmd),
    {
        let spec = cmd.encode();
        let first = clone_bytes(&spec.wire);
        let t = Transaction {
            wire: spec.wire,
            delay_ms: spec.delay_ms,
            expected: spec.expected,
            phase: Phase::AwaitWrite { retried: false },
        };
        (t, Action::Write(first))
    }

    /// The outcome of a read that brought `buf` back.
    fn outcome(&self, buf: &Vec<u8>) -> (out: Result<Option<Response>, ErrorKind>)
        requires
            buf@.len() >= 1,
        ensures
            spec_outcome_matches(self.expected, buf@, out),
    {
        match decode_response(buf) {
            Err(e) => Err(e),
            Ok(payload) => match &self.expected {
                None => Ok(None),
                Some(kind) => match parse_typed(kind, payload.as_str()) {
                    Ok(r) => Ok(Some(r)),
                    Err(e) => Err(e),
                },
            },
        }
    }

    /// Moves to the phase after a completed write and settle.
    fn post_settle(&mut self) -> (a: Action)
        ensures
            final(self).wire == old(self).wire,
            final(self).delay_ms == old(self).delay_ms,
            final(self).expected == old(self).expected,
            final(self).phase == spec_post_settle_phase(old(self).expected),
            spec_post_settle_action(old(self).expected, a),
    {
        match &self.expected {
            Some(_) => {
                self.phase = Phase::AwaitRead { retried: false };
                Action::Read
            },
            None => {
                self.phase = Phase::Complete;
                Action::Finish(Ok(None))
            },
        }
    }

    /// Feeds the outcome of the last action in and yields the next action.
    /// The run never retries more than once per step: a write or read that
    /// failed once is retried after the backoff sleep, and a second failure
    /// is fatal.  A read never comes before the settle delay has elapsed.
    pub fn step(&mut self, event: Event) -> (a: Action)
        requires
            spec_event_fits(old(self).phase, event),
            event matches Event::ReadOk(b) ==> b@.len() >= 1,
        ensures
            final(self).wire == old(self).wire,
            final(self).delay_ms == old(self).delay_ms,
            final(self).expected == old(self).expected,
            final(self).phase == spec_phase_after(
                old(self).phase,
                event,
                old(self).delay_ms,
                old(self).expected,
            ),
            match (old(self).phase, event) {
                (Phase::AwaitWrite { retried }, Event::WriteOk) => {
                    if old(self).delay_ms > 0 {
                        &&& final(self).phase == Phase::AwaitSettle
                        &&& a matches Action::Sleep(ms) && ms == old(self).delay_ms
                    } else {
                        &&& final(self).phase == spec_post_settle_phase(old(self).expected)
                        &&& spec_post_settle_action(old(self).expected, a)
                    }
                },
                (Phase::AwaitWrite { retried }, Event::WriteFailed) => {
                    if retried {
                        &&& final(self).phase == Phase::Complete
                        &&& a matches Action::Finish(out) && out matches Err(e) && e
                            == ErrorKind::CommandWriteFailed
                    } else {
                        &&& final(self).phase == Phase::BackoffWrite
                        &&& a matches Action::Sleep(ms) && ms == BACKOFF_MS
                    }
                },
                (Phase::BackoffWrite, Event::Slept) => {
                    &&& final(self).phase == (Phase::AwaitWrite { retried: true })
                    &&& a matches Action::Write(b) && b@ == old(self).wire@
                },
                (Phase::AwaitSettle, Event::Slept) => {
                    &&& final(self).phase == spec_post_settle_phase(old(self).expected)
                    &&& spec_post_settle_action(old(self).expected, a)
                },
                (Phase::AwaitRead { retried }, Event::ReadFailed) => {
                    if retried {
                        &&& final(self).phase == Phase::Complete
                        &&& a matches Action::Finish(out) && out matches Err(e) && e
                            == ErrorKind::ResponseReadFailed
                    } else {
                        &&& final(self).phase == Phase::BackoffRead
                        &&& a matches Action::Sleep(ms) && ms == BACKOFF_MS
                    }
                },
                (Phase::BackoffRead, Event::Slept) => {
                    &&& final(self).phase == (Phase::AwaitRead { retried: true })
                    &&& a is Read
                },
                (Phase::AwaitRead { retried }, Event::ReadOk(buf)) => {
                    &&& final(self).phase == Phase::Complete
                    &&& a matches Action::Finish(out) && spec_outcome_matches(
                        old(self).expected,
                        buf@,
                        out,
                    )
                },
                _ => false,
            },
    {
        let phase = self.phase;
        match phase {
            Phase::AwaitWrite { retried } => match event {
                Event::WriteOk => {
                    if self.delay_ms > 0 {
                        self.phase = Phase::AwaitSettle;
                        Action::Sleep(self.delay_ms)
                    } else {
                        self.post_settle()
                    }
                },
                Event::WriteFailed => {
                    if retried {
                        self.phase = Phase::Complete;
                        Action::Finish(Err(ErrorKind::CommandWriteFailed))
                    } else {
                        self.phase = Phase::BackoffWrite;
                        Action::Sleep(BACKOFF_MS)
                    }
                },
                _ => {
                    proof {
                        assert(false);
                    }
                    Action::Read
                },
            },
            Phase::BackoffWrite => match event {
                Event::Slept => {
                    self.phase = Phase::AwaitWrite { retried: true };
                    Action::Write(clone_bytes(&self.wire))
                },
                _ => {
                    proof {
                        assert(false);
                    }
                    Action::Read
                },
            },
            Phase::AwaitSettle => match event {
                Event::Slept => self.post_settle(),
                _ => {
                    proof {
                        assert(false);
                    }
                    Action::Read
                },
            },
            Phase::AwaitRead { retried } => match event {
                Event::ReadOk(buf) => {
                    self.phase = Phase::Complete;
                    Action::Finish(self.outcome(&buf))
                },
                Event::ReadFailed => {
                    if retried {
                        self.phase = Phase::Complete;
                        Action::Finish(Err(ErrorKind::ResponseReadFailed))
                    } else {
                        self.phase = Phase::BackoffRead;
                        Action::Sleep(BACKOFF_MS)
                    }
                },
                _ => {
                    proof {
                        assert(false);
                    }
                    Action::Read
                },
            },
            Phase::BackoffRead => match event {
                Event::Slept => {
                    self.phase = Phase::AwaitRead { retried: true };
                    Action::Read
                },
                _ => {
                    proof {
                        assert(false);
                    }
                    Action::Read
                },
            },
            Phase::Complete => {
                proof {
                    assert(false);
                }
                Action::Read
            },
        }
    }
}

// ---------------------------------------------------------------------------
// The composite scale-then-read command
// ---------------------------------------------------------------------------

/// Reads the temperature in whatever scale the device is set to: first the
/// scale query runs, then the bare reading, and the value is tagged with
/// the scale that the first step reported.  A failure of either step ends
/// the whole run with that failure; no partial result is kept.
pub struct ReadingWithScale;

impl ReadingWithScale {
    /// The wire text of the reading this composite ends with.
    pub fn get_command_string(&self) -> (r: String)
        ensures
            r@ == spec_command_string(Command::Reading),
    {
        Command::Reading.get_command_string()
    }

    /// The combined settle delay: the two steps run one after the other,
    /// so their delays add.
    pub fn get_delay(&self) -> (r: u64)
        ensures
            r == spec_delay_ms(Command::ScaleState) + spec_delay_ms(Command::Reading),
    {
        let a = Command::ScaleState.get_delay();
        let b = Command::Reading.get_delay();
        a + b
    }

    /// The first step: query the active scale.
    pub fn first_step(&self) -> (c: Command)
        ensures
            c == Command::ScaleState,
    {
        Command::ScaleState
    }

    /// The second step: take the bare reading.
    pub fn second_step(&self) -> (c: Command)
        ensures
            c == Command::Reading,
    {
        Command::Reading
    }

    /// Tags the reading of the second step with the scale of the first.
    pub fn combine(&self, scale: TemperatureScale, reading: SensorReading) -> (t: Temperature)
        ensures
            t == spec_temperature(scale, reading.0),
    {
        Temperature::new(scale, reading.0)
    }

    /// The scale the first step's outcome holds.  Any other outcome — no
    /// payload, or a response of another kind — is a response-parse error.
    pub fn expect_scale(&self, outcome: Option<Response>) -> (r: Result<TemperatureScale, ErrorKind>)
        ensures
            match outcome {
                Some(Response::Scale(s)) => r matches Ok(v) && v == s,
                _ => r matches Err(e) && e == ErrorKind::ResponseParse,
            },
    {
        match outcome {
            Some(Response::Scale(s)) => Ok(s),
            _ => Err(ErrorKind::ResponseParse),
        }
    }

    /// The reading the second step's outcome holds.  Any other outcome is a
    /// response-parse error.
    pub fn expect_reading(&self, outcome: Option<Response>) -> (r: Result<SensorReading, ErrorKind>)
        ensures
            match outcome {
                Some(Response::Reading(v)) => r matches Ok(out) && out == v,
                _ => r matches Err(e) && e == ErrorKind::ResponseParse,
            },
    {
        match outcome {
            Some(Response::Reading(v)) => Ok(v),
            _ => Err(ErrorKind::ResponseParse),
        }
    }
}

} // verus!
