//! Typed responses of the EZO RTD chip, and the parsers that read them out
//! of the ASCII payload of a response buffer.
//!
//! Each parser accepts exactly the wire grammar of its response and refuses
//! everything else; each response renders back to that grammar, and parsing
//! a rendered response gives the value back (see the round-trip lemmas).

use vstd::prelude::*;
use vstd::string::StringExecFns;
use crate::decimal::{
    lemma_decimal_roundtrip, lemma_render_decimal_no_comma, spec_parse_decimal,
    spec_render_decimal, spec_render_fixed, Decimal,
};
use crate::errors::ErrorKind;
use crate::text::{
    chars_of, eq_lit, find_char, find_from, has_prefix, is_digit,
    lemma_digits_of_val, lemma_find_from, lemma_find_from_is, parse_u32_all, push_digits_u64,
    push_str_chars, spec_digits_of, spec_parse_u32, string_from_chars, sub_vec,
};

verus! {

// ---------------------------------------------------------------------------
// Status classifier
// ---------------------------------------------------------------------------

/// Category of a response, read from the first byte of every response buffer.
#[derive(Clone, Copy, Debug, PartialEq, Eq, Structural)]
pub enum ResponseStatus {
    /// 0x01: the command succeeded and the payload follows.
    Success,
    /// 0xFE: the response is not yet available.
    Pending,
    /// 0x02: the device reports an error.
    DeviceError,
    /// 0xFF: the device has no data to respond with.
    NoDataExpected,
    /// Any other byte: garbled or unknown status.
    UnknownError,
}

/// The status that a raw status byte stands for.
pub open spec fn spec_classify(byte: u8) -> ResponseStatus {
    if byte == 0x01 {
        ResponseStatus::Success
    } else if byte == 0xFE {
        ResponseStatus::Pending
    } else if byte == 0x02 {
        ResponseStatus::DeviceError
    } else if byte == 0xFF {
        ResponseStatus::NoDataExpected
    } else {
        ResponseStatus::UnknownError
    }
}

impl ResponseStatus {
    /// Classifies the first byte of a response buffer.  Total: a byte
    /// outside the four defined codes is `UnknownError`, never a failure.
    pub fn classify(byte: u8) -> (status: ResponseStatus)
        ensures
            status == spec_classify(byte),
    {
        if byte == 0x01 {
            ResponseStatus::Success
        } else if byte == 0xFE {
            ResponseStatus::Pending
        } else if byte == 0x02 {
            ResponseStatus::DeviceError
        } else if byte == 0xFF {
            ResponseStatus::NoDataExpected
        } else {
            ResponseStatus::UnknownError
        }
    }
}

// ---------------------------------------------------------------------------
// Calibration status
// ---------------------------------------------------------------------------

/// Calibration status of the RTD EZO chip.
#[derive(Clone, Copy, Debug, PartialEq, Eq, Structural)]
pub enum CalibrationStatus {
    Calibrated,
    NotCalibrated,
}

/// The reply to the calibration query: exactly `?CAL,1` or `?CAL,0`.
pub open spec fn spec_parse_calibration(s: Seq<char>) -> Option<CalibrationStatus> {
    if s == "?CAL,1"@ {
        Some(CalibrationStatus::Calibrated)
    } else if s == "?CAL,0"@ {
        Some(CalibrationStatus::NotCalibrated)
    } else {
        None
    }
}

/// The wire text of a calibration status.
pub open spec fn spec_render_calibration(c: CalibrationStatus) -> Seq<char> {
    match c {
        CalibrationStatus::Calibrated => "?CAL,1"@,
        CalibrationStatus::NotCalibrated => "?CAL,0"@,
    }
}

impl CalibrationStatus {
    /// Parses the reply to the `CAL,?` command.
    pub fn parse(response: &str) -> (r: Result<CalibrationStatus, ErrorKind>)
        ensures
            match r {
                Ok(v) => spec_parse_calibration(response@) == Some(v),
                Err(e) => spec_parse_calibration(response@) is None && e
                    == ErrorKind::ResponseParse,
            },
    {
        let v = chars_of(response);
        if eq_lit(&v, "?CAL,1") {
            Ok(CalibrationStatus::Calibrated)
        } else if eq_lit(&v, "?CAL,0") {
            Ok(CalibrationStatus::NotCalibrated)
        } else {
            Err(ErrorKind::ResponseParse)
        }
    }

    /// The wire text of this status.
    pub fn render(&self) -> (r: String)
        ensures
            r@ == spec_render_calibration(*self),
    {
        match self {
            CalibrationStatus::Calibrated => String::from_str("?CAL,1"),
            CalibrationStatus::NotCalibrated => String::from_str("?CAL,0"),
        }
    }

    /// A human-readable word for this status.
    pub fn to_text(&self) -> (r: String)
        ensures
            self is Calibrated ==> r@ == "calibrated"@,
            self is NotCalibrated ==> r@ == "not-calibrated"@,
    {
        match self {
            CalibrationStatus::Calibrated => String::from_str("calibrated"),
            CalibrationStatus::NotCalibrated => String::from_str("not-calibrated"),
        }
    }
}

/// Rendering a calibration status and parsing it back gives the value back.
pub proof fn lemma_calibration_roundtrip(c: CalibrationStatus)
    ensures
        spec_parse_calibration(spec_render_calibration(c)) == Some(c),
{
    reveal_strlit("?CAL,1");
    reveal_strlit("?CAL,0");
    assert("?CAL,1"@[5] != "?CAL,0"@[5]);
}

// ---------------------------------------------------------------------------
// Data logger interval
// ---------------------------------------------------------------------------

/// Seconds between automatic readings of the data logger: 0 for off, or a
/// period between 10 and 320000 seconds.
#[derive(Clone, Copy, Debug, PartialEq, Eq, Structural)]
pub struct DataLoggerStorageIntervalSeconds(pub u32);

impl DataLoggerStorageIntervalSeconds {
    /// The value is one the device itself can report.
    pub open spec fn wf(self) -> bool {
        self.0 == 0 || 10 <= self.0 <= 320000
    }
}

/// The reply to the interval query: `?D,` and then the seconds, which are 0
/// or between 10 and 320000.
pub open spec fn spec_parse_interval(s: Seq<char>) -> Option<DataLoggerStorageIntervalSeconds> {
    if s.len() >= 3 && s.subrange(0, 3) == "?D,"@ {
        match spec_parse_u32(s.subrange(3, s.len() as int)) {
            Some(n) => if n == 0 || (10 <= n && n <= 320000) {
                Some(DataLoggerStorageIntervalSeconds(n))
            } else {
                None
            },
            None => None,
        }
    } else {
        None
    }
}

/// The wire text of an interval.
pub open spec fn spec_render_interval(d: DataLoggerStorageIntervalSeconds) -> Seq<char> {
    "?D,"@ + spec_digits_of(d.0 as nat)
}

impl DataLoggerStorageIntervalSeconds {
    /// Parses the reply to the `D,?` command.  Values 1 to 9 and values
    /// above 320000 are refused even though they read as numbers, mirroring
    /// the range the device itself accepts.
    pub fn parse(response: &str) -> (r: Result<DataLoggerStorageIntervalSeconds, ErrorKind>)
        ensures
            match r {
                Ok(v) => spec_parse_interval(response@) == Some(v) && v.wf(),
                Err(e) => spec_parse_interval(response@) is None && e == ErrorKind::ResponseParse,
            },
    {
        proof {
            reveal_strlit("?D,");
        }
        let v = chars_of(response);
        if !has_prefix(&v, "?D,") {
            return Err(ErrorKind::ResponseParse);
        }
        let num = sub_vec(&v, 3, v.len());
        match parse_u32_all(&num) {
            Some(n) => {
                if n == 0 || (10 <= n && n <= 320000) {
                    Ok(DataLoggerStorageIntervalSeconds(n))
                } else {
                    Err(ErrorKind::ResponseParse)
                }
            },
            None => Err(ErrorKind::ResponseParse),
        }
    }

    /// The wire text of this interval.
    pub fn render(&self) -> (r: String)
        ensures
            r@ == spec_render_interval(*self),
    {
        let mut out: Vec<char> = Vec::new();
        push_str_chars(&mut out, "?D,");
        push_digits_u64(&mut out, self.0 as u64);
        assert(out@ =~= spec_render_interval(*self));
        string_from_chars(&out)
    }

    /// The seconds alone, as text.
    pub fn to_text(&self) -> (r: String)
        ensures
            r@ == spec_digits_of(self.0 as nat),
    {
        let mut out: Vec<char> = Vec::new();
        push_digits_u64(&mut out, self.0 as u64);
        assert(out@ =~= spec_digits_of(self.0 as nat));
        string_from_chars(&out)
    }
}

/// Rendering an interval the device can report and parsing it back gives the
/// value back.
pub proof fn lemma_interval_roundtrip(d: DataLoggerStorageIntervalSeconds)
    requires
        d.wf(),
    ensures
        spec_parse_interval(spec_render_interval(d)) == Some(d),
{
    reveal_strlit("?D,");
    let s = spec_render_interval(d);
    let digits = spec_digits_of(d.0 as nat);
    lemma_digits_of_val(d.0 as nat);
    assert(s.subrange(0, 3) =~= "?D,"@);
    assert(s.subrange(3, s.len() as int) =~= digits);
    assert(is_digit(digits[0]));
    assert(digits[0] != '+');
    assert(spec_parse_u32(digits) == Some(d.0));
}

// ---------------------------------------------------------------------------
// Temperature scale
// ---------------------------------------------------------------------------

/// Temperature scales the RTD EZO chip can report in.
#[derive(Clone, Copy, Debug, PartialEq, Eq, Structural)]
pub enum TemperatureScale {
    Celsius,
    Kelvin,
    Fahrenheit,
}

/// The reply to the scale query: exactly `?S,C`, `?S,K` or `?S,F`.
pub open spec fn spec_parse_scale(s: Seq<char>) -> Option<TemperatureScale> {
    if s == "?S,C"@ {
        Some(TemperatureScale::Celsius)
    } else if s == "?S,K"@ {
        Some(TemperatureScale::Kelvin)
    } else if s == "?S,F"@ {
        Some(TemperatureScale::Fahrenheit)
    } else {
        None
    }
}

/// The wire text of a scale.
pub open spec fn spec_render_scale(t: TemperatureScale) -> Seq<char> {
    match t {
        TemperatureScale::Celsius => "?S,C"@,
        TemperatureScale::Kelvin => "?S,K"@,
        TemperatureScale::Fahrenheit => "?S,F"@,
    }
}

/// The name of a scale.
pub open spec fn spec_scale_name(t: TemperatureScale) -> Seq<char> {
    match t {
        TemperatureScale::Celsius => "celsius"@,
        TemperatureScale::Kelvin => "kelvin"@,
        TemperatureScale::Fahrenheit => "fahrenheit"@,
    }
}

impl TemperatureScale {
    /// Parses the reply to the `S,?` command.  The match is exact: no
    /// partial or case-insensitive matching at this layer.
    pub fn parse(response: &str) -> (r: Result<TemperatureScale, ErrorKind>)
        ensures
            match r {
                Ok(v) => spec_parse_scale(response@) == Some(v),
                Err(e) => spec_parse_scale(response@) is None && e == ErrorKind::ResponseParse,
            },
    {
        let v = chars_of(response);
        if eq_lit(&v, "?S,C") {
            Ok(TemperatureScale::Celsius)
        } else if eq_lit(&v, "?S,K") {
            Ok(TemperatureScale::Kelvin)
        } else if eq_lit(&v, "?S,F") {
            Ok(TemperatureScale::Fahrenheit)
        } else {
            Err(ErrorKind::ResponseParse)
        }
    }

    /// The wire text of this scale.
    pub fn render(&self) -> (r: String)
        ensures
            r@ == spec_render_scale(*self),
    {
        match self {
            TemperatureScale::Celsius => String::from_str("?S,C"),
            TemperatureScale::Kelvin => String::from_str("?S,K"),
            TemperatureScale::Fahrenheit => String::from_str("?S,F"),
        }
    }

    /// The name of this scale.
    pub fn to_text(&self) -> (r: String)
        ensures
            r@ == spec_scale_name(*self),
    {
        match self {
            TemperatureScale::Celsius => String::from_str("celsius"),
            TemperatureScale::Kelvin => String::from_str("kelvin"),
            TemperatureScale::Fahrenheit => String::from_str("fahrenheit"),
        }
    }
}

/// Rendering a scale and parsing it back gives the value back.
pub proof fn lemma_scale_roundtrip(t: TemperatureScale)
    ensures
        spec_parse_scale(spec_render_scale(t)) == Some(t),
{
    reveal_strlit("?S,C");
    reveal_strlit("?S,K");
    reveal_strlit("?S,F");
    assert("?S,C"@[3] != "?S,K"@[3]);
    assert("?S,C"@[3] != "?S,F"@[3]);
    assert("?S,K"@[3] != "?S,F"@[3]);
}

// ---------------------------------------------------------------------------
// LED and protocol lock
// ---------------------------------------------------------------------------

/// State of the indicator LED.
#[derive(Clone, Copy, Debug, PartialEq, Eq, Structural)]
pub enum LedStatus {
    On,
    Off,
}

/// The reply to the LED query: exactly `?L,1` or `?L,0`.
pub open spec fn spec_parse_led(s: Seq<char>) -> Option<LedStatus> {
    if s == "?L,1"@ {
        Some(LedStatus::On)
    } else if s == "?L,0"@ {
        Some(LedStatus::Off)
    } else {
        None
    }
}

/// The wire text of an LED state.
pub open spec fn spec_render_led(l: LedStatus) -> Seq<char> {
    match l {
        LedStatus::On => "?L,1"@,
        LedStatus::Off => "?L,0"@,
    }
}

impl LedStatus {
    /// Parses the reply to the `L,?` command.
    pub fn parse(response: &str) -> (r: Result<LedStatus, ErrorKind>)
        ensures
            match r {
                Ok(v) => spec_parse_led(response@) == Some(v),
                Err(e) => spec_parse_led(response@) is None && e == ErrorKind::ResponseParse,
            },
    {
        let v = chars_of(response);
        if eq_lit(&v, "?L,1") {
            Ok(LedStatus::On)
        } else if eq_lit(&v, "?L,0") {
            Ok(LedStatus::Off)
        } else {
            Err(ErrorKind::ResponseParse)
        }
    }

    /// The wire text of this LED state.
    pub fn render(&self) -> (r: String)
        ensures
            r@ == spec_render_led(*self),
    {
        match self {
            LedStatus::On => String::from_str("?L,1"),
            LedStatus::Off => String::from_str("?L,0"),
        }
    }
}

/// Rendering an LED state and parsing it back gives the value back.
pub proof fn lemma_led_roundtrip(l: LedStatus)
    ensures
        spec_parse_led(spec_render_led(l)) == Some(l),
{
    reveal_strlit("?L,1");
    reveal_strlit("?L,0");
    assert("?L,1"@[3] != "?L,0"@[3]);
}

/// State of the protocol lock.
#[derive(Clone, Copy, Debug, PartialEq, Eq, Structural)]
pub enum ProtocolLockStatus {
    On,
    Off,
}

/// The reply to the protocol lock query: exactly `?PLOCK,1` or `?PLOCK,0`.
pub open spec fn spec_parse_plock(s: Seq<char>) -> Option<ProtocolLockStatus> {
    if s == "?PLOCK,1"@ {
        Some(ProtocolLockStatus::On)
    } else if s == "?PLOCK,0"@ {
        Some(ProtocolLockStatus::Off)
    } else {
        None
    }
}

/// The wire text of a protocol lock state.
pub open spec fn spec_render_plock(l: ProtocolLockStatus) -> Seq<char> {
    match l {
        ProtocolLockStatus::On => "?PLOCK,1"@,
        ProtocolLockStatus::Off => "?PLOCK,0"@,
    }
}

impl ProtocolLockStatus {
    /// Parses the reply to the `PLOCK,?` command.
    pub fn parse(response: &str) -> (r: Result<ProtocolLockStatus, ErrorKind>)
        ensures
            match r {
                Ok(v) => spec_parse_plock(response@) == Some(v),
                Err(e) => spec_parse_plock(response@) is None && e == ErrorKind::ResponseParse,
            },
    {
        let v = chars_of(response);
        if eq_lit(&v, "?PLOCK,1") {
            Ok(ProtocolLockStatus::On)
        } else if eq_lit(&v, "?PLOCK,0") {
            Ok(ProtocolLockStatus::Off)
        } else {
            Err(ErrorKind::ResponseParse)
        }
    }

    /// The wire text of this protocol lock state.
    pub fn render(&self) -> (r: String)
        ensures
            r@ == spec_render_plock(*self),
    {
        match self {
            ProtocolLockStatus::On => String::from_str("?PLOCK,1"),
            ProtocolLockStatus::Off => String::from_str("?PLOCK,0"),
        }
    }
}

/// Rendering a protocol lock state and parsing it back gives the value back.
pub proof fn lemma_plock_roundtrip(l: ProtocolLockStatus)
    ensures
        spec_parse_plock(spec_render_plock(l)) == Some(l),
{
    reveal_strlit("?PLOCK,1");
    reveal_strlit("?PLOCK,0");
    assert("?PLOCK,1"@[7] != "?PLOCK,0"@[7]);
}

// ---------------------------------------------------------------------------
// Memory reading
// ---------------------------------------------------------------------------

/// A reading recalled from the device memory: its location and its value.
#[derive(Clone, Copy, Debug, PartialEq, Eq, Structural)]
pub struct MemoryReading {
    pub location: u32,
    pub reading: Decimal,
}

/// The memory recall reply: an unsigned location, one comma, and a decimal
/// value — no more fields, no fewer.
pub open spec fn spec_parse_memory(s: Seq<char>) -> Option<MemoryReading> {
    let c1 = find_from(s, 0, ',');
    if c1 == -1 {
        None
    } else if find_from(s, c1 + 1, ',') != -1 {
        None
    } else {
        match (
            spec_parse_u32(s.subrange(0, c1)),
            spec_parse_decimal(s.subrange(c1 + 1, s.len() as int)),
        ) {
            (Some(l), Some(d)) => Some(MemoryReading { location: l, reading: d }),
            _ => None,
        }
    }
}

/// The wire text of a memory reading.
pub open spec fn spec_render_memory(m: MemoryReading) -> Seq<char> {
    spec_digits_of(m.location as nat) + seq![','] + spec_render_decimal(m.reading)
}

impl MemoryReading {
    /// Parses the reply to a memory recall command.
    pub fn parse(response: &str) -> (r: Result<MemoryReading, ErrorKind>)
        ensures
            match r {
                Ok(v) => spec_parse_memory(response@) == Some(v) && v.reading.wf(),
                Err(e) => spec_parse_memory(response@) is None && e == ErrorKind::ResponseParse,
            },
    {
        let v = chars_of(response);
        let n = v.len();
        let c1 = match find_char(&v, 0, ',') {
            Some(i) => i,
            None => {
                return Err(ErrorKind::ResponseParse);
            },
        };
        assert(c1 < n);
        if let Some(_) = find_char(&v, c1 + 1, ',') {
            return Err(ErrorKind::ResponseParse);
        }
        let loc_v = sub_vec(&v, 0, c1);
        let val_v = sub_vec(&v, c1 + 1, v.len());
        let loc = parse_u32_all(&loc_v);
        let val = Decimal::parse_chars(&val_v);
        match (loc, val) {
            (Some(l), Some(d)) => Ok(MemoryReading { location: l, reading: d }),
            _ => Err(ErrorKind::ResponseParse),
        }
    }

    /// The wire text of this memory reading.
    pub fn render(&self) -> (r: String)
        ensures
            r@ == spec_render_memory(*self),
    {
        let mut out: Vec<char> = Vec::new();
        push_digits_u64(&mut out, self.location as u64);
        out.push(',');
        self.reading.push_render(&mut out);
        assert(out@ =~= spec_render_memory(*self));
        string_from_chars(&out)
    }
}

/// Rendering a memory reading and parsing it back gives the value back.
pub proof fn lemma_memory_roundtrip(m: MemoryReading)
    requires
        m.reading.wf(),
    ensures
        spec_parse_memory(spec_render_memory(m)) == Some(m),
{
    let s = spec_render_memory(m);
    let ld = spec_digits_of(m.location as nat);
    let rd = spec_render_decimal(m.reading);
    lemma_digits_of_val(m.location as nat);
    lemma_render_decimal_no_comma(m.reading);
    assert(s =~= ld + seq![','] + rd);
    let n = ld.len() as int;
    assert(s[n] == ',');
    assert forall|j: int| 0 <= j < n implies s[j] != ',' by {
        assert(is_digit(ld[j]));
    }
    lemma_find_from_is(s, 0, ',', n);
    let c2 = find_from(s, n + 1, ',');
    lemma_find_from(s, n + 1, ',');
    if c2 != -1 {
        assert(s[c2] == rd[c2 - n - 1]);
        assert(false);
    }
    assert(s.subrange(0, n) =~= ld);
    assert(s.subrange(n + 1, s.len() as int) =~= rd);
    assert(ld[0] != '+');
    assert(spec_parse_u32(ld) == Some(m.location));
    lemma_decimal_roundtrip(m.reading);
}

// ---------------------------------------------------------------------------
// Sensor reading and temperature
// ---------------------------------------------------------------------------

/// A bare temperature reading, in whatever scale the device is set to.
#[derive(Clone, Copy, Debug, PartialEq, Eq, Structural)]
pub struct SensorReading(pub Decimal);

impl SensorReading {
    /// Parses the reply to the `R` command: the whole payload is one decimal
    /// number.  The value carries no unit; knowing the current scale is the
    /// caller's business.
    pub fn parse(response: &str) -> (r: Result<SensorReading, ErrorKind>)
        ensures
            match r {
                Ok(v) => spec_parse_decimal(response@) == Some(v.0) && v.0.wf(),
                Err(e) => spec_parse_decimal(response@) is None && e == ErrorKind::ResponseParse,
            },
    {
        match Decimal::parse(response) {
            Some(d) => Ok(SensorReading(d)),
            None => Err(ErrorKind::ResponseParse),
        }
    }

    /// The wire text of this reading.
    pub fn render(&self) -> (r: String)
        ensures
            r@ == spec_render_decimal(self.0),
    {
        self.0.render()
    }

    /// The reading with exactly three fraction digits, for display.
    pub fn to_text(&self) -> (r: String)
        requires
            self.0.wf(),
        ensures
            r@ == spec_render_fixed(self.0, 3),
    {
        self.0.render_fixed(3)
    }
}

/// Rendering a reading and parsing it back gives the value back.
pub proof fn lemma_sensor_reading_roundtrip(v: SensorReading)
    requires
        v.0.wf(),
    ensures
        spec_parse_decimal(spec_render_decimal(v.0)) == Some(v.0),
{
    lemma_decimal_roundtrip(v.0);
}

/// A temperature tagged with the scale it was read in.  The tag is the
/// scale the caller knew to be active; the parser takes it as given.
#[derive(Clone, Copy, Debug, PartialEq, Eq, Structural)]
pub enum Temperature {
    Celsius(Decimal),
    Kelvin(Decimal),
    Fahrenheit(Decimal),
}

/// The temperature whose value is `d`, tagged with `scale`.
pub open spec fn spec_temperature(scale: TemperatureScale, d: Decimal) -> Temperature {
    match scale {
        TemperatureScale::Celsius => Temperature::Celsius(d),
        TemperatureScale::Kelvin => Temperature::Kelvin(d),
        TemperatureScale::Fahrenheit => Temperature::Fahrenheit(d),
    }
}

/// The scale a temperature is tagged with.
pub open spec fn spec_temperature_scale(t: Temperature) -> TemperatureScale {
    match t {
        Temperature::Celsius(_) => TemperatureScale::Celsius,
        Temperature::Kelvin(_) => TemperatureScale::Kelvin,
        Temperature::Fahrenheit(_) => TemperatureScale::Fahrenheit,
    }
}

/// The value of a temperature, without its tag.
pub open spec fn spec_temperature_value(t: Temperature) -> Decimal {
    match t {
        Temperature::Celsius(d) => d,
        Temperature::Kelvin(d) => d,
        Temperature::Fahrenheit(d) => d,
    }
}

impl Temperature {
    /// Tags `value` with `scale`.  The value is copied as it is; nothing
    /// checks, say, that a Kelvin value is not negative.
    pub fn new(scale: TemperatureScale, value: Decimal) -> (t: Temperature)
        ensures
            t == spec_temperature(scale, value),
    {
        match scale {
            TemperatureScale::Celsius => Temperature::Celsius(value),
            TemperatureScale::Kelvin => Temperature::Kelvin(value),
            TemperatureScale::Fahrenheit => Temperature::Fahrenheit(value),
        }
    }

    /// Parses the reply to the `R` command and tags it with the scale the
    /// caller knows to be active on the device.
    pub fn parse(response: &str, scale: TemperatureScale) -> (r: Result<Temperature, ErrorKind>)
        ensures
            match r {
                Ok(t) => spec_parse_decimal(response@) matches Some(d) && t == spec_temperature(
                    scale,
                    d,
                ) && d.wf(),
                Err(e) => spec_parse_decimal(response@) is None && e == ErrorKind::ResponseParse,
            },
    {
        match Decimal::parse(response) {
            Some(d) => Ok(Temperature::new(scale, d)),
            None => Err(ErrorKind::ResponseParse),
        }
    }

    /// The wire text of this temperature: the bare value.
    pub fn render(&self) -> (r: String)
        ensures
            r@ == spec_render_decimal(spec_temperature_value(*self)),
    {
        match self {
            Temperature::Celsius(d) => d.render(),
            Temperature::Kelvin(d) => d.render(),
            Temperature::Fahrenheit(d) => d.render(),
        }
    }

    /// The value and the scale name, comma-separated, for display.
    pub fn to_text(&self) -> (r: String)
        ensures
            r@ == spec_render_decimal(spec_temperature_value(*self)) + seq![','] + spec_scale_name(
                spec_temperature_scale(*self),
            ),
    {
        let mut out: Vec<char> = Vec::new();
        let (d, name): (Decimal, &'static str) = match self {
            Temperature::Celsius(d) => (*d, "celsius"),
            Temperature::Kelvin(d) => (*d, "kelvin"),
            Temperature::Fahrenheit(d) => (*d, "fahrenheit"),
        };
        d.push_render(&mut out);
        out.push(',');
        push_str_chars(&mut out, name);
        assert(out@ =~= spec_render_decimal(spec_temperature_value(*self)) + seq![',']
            + spec_scale_name(spec_temperature_scale(*self)));
        string_from_chars(&out)
    }
}

/// Rendering a temperature and parsing it back under the same scale gives
/// the value back.
pub proof fn lemma_temperature_roundtrip(t: Temperature)
    requires
        spec_temperature_value(t).wf(),
    ensures
        spec_parse_decimal(spec_render_decimal(spec_temperature_value(t))) == Some(
            spec_temperature_value(t),
        ),
        spec_temperature(spec_temperature_scale(t), spec_temperature_value(t)) == t,
{
    lemma_decimal_roundtrip(spec_temperature_value(t));
}

// ---------------------------------------------------------------------------
// Export info
// ---------------------------------------------------------------------------

/// Size of a pending calibration export: how many strings and how many bytes.
#[derive(Clone, Copy, Debug, PartialEq, Eq, Structural)]
pub struct ExportedInfo {
    pub lines: u32,
    pub total_bytes: u32,
}

/// The export info reply: two unsigned integer fields, one comma between
/// them — no more fields, no fewer.
pub open spec fn spec_parse_exported_info(s: Seq<char>) -> Option<ExportedInfo> {
    let c1 = find_from(s, 0, ',');
    if c1 == -1 {
        None
    } else if find_from(s, c1 + 1, ',') != -1 {
        None
    } else {
        match (
            spec_parse_u32(s.subrange(0, c1)),
            spec_parse_u32(s.subrange(c1 + 1, s.len() as int)),
        ) {
            (Some(l), Some(b)) => Some(ExportedInfo { lines: l, total_bytes: b }),
            _ => None,
        }
    }
}

/// The wire text of an export info reply.
pub open spec fn spec_render_exported_info(i: ExportedInfo) -> Seq<char> {
    spec_digits_of(i.lines as nat) + seq![','] + spec_digits_of(i.total_bytes as nat)
}

impl ExportedInfo {
    /// Parses the reply to the export info query.
    pub fn parse(response: &str) -> (r: Result<ExportedInfo, ErrorKind>)
        ensures
            match r {
                Ok(v) => spec_parse_exported_info(response@) == Some(v),
                Err(e) => spec_parse_exported_info(response@) is None && e
                    == ErrorKind::ResponseParse,
            },
    {
        let v = chars_of(response);
        let n = v.len();
        let c1 = match find_char(&v, 0, ',') {
            Some(i) => i,
            None => {
                return Err(ErrorKind::ResponseParse);
            },
        };
        assert(c1 < n);
        if let Some(_) = find_char(&v, c1 + 1, ',') {
            return Err(ErrorKind::ResponseParse);
        }
        let lines_v = sub_vec(&v, 0, c1);
        let bytes_v = sub_vec(&v, c1 + 1, v.len());
        let lines = parse_u32_all(&lines_v);
        let bytes = parse_u32_all(&bytes_v);
        match (lines, bytes) {
            (Some(l), Some(b)) => Ok(ExportedInfo { lines: l, total_bytes: b }),
            _ => Err(ErrorKind::ResponseParse),
        }
    }

    /// The wire text of this export info.
    pub fn render(&self) -> (r: String)
        ensures
            r@ == spec_render_exported_info(*self),
    {
        let mut out: Vec<char> = Vec::new();
        push_digits_u64(&mut out, self.lines as u64);
        out.push(',');
        push_digits_u64(&mut out, self.total_bytes as u64);
        assert(out@ =~= spec_render_exported_info(*self));
        string_from_chars(&out)
    }
}

/// Rendering an export info and parsing it back gives the value back.
pub proof fn lemma_exported_info_roundtrip(i: ExportedInfo)
    ensures
        spec_parse_exported_info(spec_render_exported_info(i)) == Some(i),
{
    let s = spec_render_exported_info(i);
    let ld = spec_digits_of(i.lines as nat);
    let bd = spec_digits_of(i.total_bytes as nat);
    lemma_digits_of_val(i.lines as nat);
    lemma_digits_of_val(i.total_bytes as nat);
    assert(s =~= ld + seq![','] + bd);
    let n = ld.len() as int;
    assert(s[n] == ',');
    assert forall|j: int| 0 <= j < n implies s[j] != ',' by {
        assert(is_digit(ld[j]));
    }
    lemma_find_from_is(s, 0, ',', n);
    let c2 = find_from(s, n + 1, ',');
    lemma_find_from(s, n + 1, ',');
    if c2 != -1 {
        assert(s[c2] == bd[c2 - n - 1]);
        assert(is_digit(bd[c2 - n - 1]));
        assert(false);
    }
    assert(s.subrange(0, n) =~= ld);
    assert(s.subrange(n + 1, s.len() as int) =~= bd);
    assert(ld[0] != '+');
    assert(bd[0] != '+');
    assert(spec_parse_u32(ld) == Some(i.lines));
    assert(spec_parse_u32(bd) == Some(i.total_bytes));
}

// ---------------------------------------------------------------------------
// Device status
// ---------------------------------------------------------------------------

/// Why the device last restarted, from the one-letter code it reports.
#[derive(Clone, Copy, Debug, PartialEq, Eq, Structural)]
pub enum RestartReason {
    /// `P`: the device was powered off.
    PoweredOff,
    /// `S`: a software reset.
    SoftwareReset,
    /// `B`: a brown-out.
    BrownOut,
    /// `W`: the watchdog fired.
    Watchdog,
    /// `U`: the device does not know.
    Unknown,
}

/// The restart reason a letter stands for; letters outside the set are a
/// parse error, never a default.
pub open spec fn spec_reason_of(c: char) -> Option<RestartReason> {
    if c == 'P' {
        Some(RestartReason::PoweredOff)
    } else if c == 'S' {
        Some(RestartReason::SoftwareReset)
    } else if c == 'B' {
        Some(RestartReason::BrownOut)
    } else if c == 'W' {
        Some(RestartReason::Watchdog)
    } else if c == 'U' {
        Some(RestartReason::Unknown)
    } else {
        None
    }
}

/// The letter of a restart reason.
pub open spec fn spec_reason_letter(r: RestartReason) -> char {
    match r {
        RestartReason::PoweredOff => 'P',
        RestartReason::SoftwareReset => 'S',
        RestartReason::BrownOut => 'B',
        RestartReason::Watchdog => 'W',
        RestartReason::Unknown => 'U',
    }
}

impl RestartReason {
    /// The reason a letter stands for.
    pub fn from_letter(c: char) -> (r: Option<RestartReason>)
        ensures
            r == spec_reason_of(c),
    {
        if c == 'P' {
            Some(RestartReason::PoweredOff)
        } else if c == 'S' {
            Some(RestartReason::SoftwareReset)
        } else if c == 'B' {
            Some(RestartReason::BrownOut)
        } else if c == 'W' {
            Some(RestartReason::Watchdog)
        } else if c == 'U' {
            Some(RestartReason::Unknown)
        } else {
            None
        }
    }

    /// The letter of this reason.
    pub fn letter(&self) -> (c: char)
        ensures
            c == spec_reason_letter(*self),
    {
        match self {
            RestartReason::PoweredOff => 'P',
            RestartReason::SoftwareReset => 'S',
            RestartReason::BrownOut => 'B',
            RestartReason::Watchdog => 'W',
            RestartReason::Unknown => 'U',
        }
    }
}

/// The letter of a reason reads back as that reason.
pub proof fn lemma_reason_roundtrip(r: RestartReason)
    ensures
        spec_reason_of(spec_reason_letter(r)) == Some(r),
{
}

/// The device status: why it last restarted and its supply voltage.
#[derive(Clone, Copy, Debug, PartialEq, Eq, Structural)]
pub struct DeviceStatus {
    pub restart_reason: RestartReason,
    pub vcc_voltage: Decimal,
}

/// The status reply: `?STATUS,`, a one-letter restart reason, one comma,
/// and a decimal voltage — exactly two fields.
pub open spec fn spec_parse_device_status(s: Seq<char>) -> Option<DeviceStatus> {
    if s.len() >= 8 && s.subrange(0, 8) == "?STATUS,"@ {
        let rest = s.subrange(8, s.len() as int);
        let c1 = find_from(rest, 0, ',');
        if c1 == 1 && find_from(rest, 2, ',') == -1 {
            match (spec_reason_of(rest[0]), spec_parse_decimal(rest.subrange(2, rest.len() as int))) {
                (Some(rr), Some(d)) => Some(DeviceStatus { restart_reason: rr, vcc_voltage: d }),
                _ => None,
            }
        } else {
            None
        }
    } else {
        None
    }
}

/// The wire text of a device status.
pub open spec fn spec_render_device_status(d: DeviceStatus) -> Seq<char> {
    "?STATUS,"@ + seq![spec_reason_letter(d.restart_reason)] + seq![','] + spec_render_decimal(
        d.vcc_voltage,
    )
}

impl DeviceStatus {
    /// Parses the reply to the `STATUS` command.
    pub fn parse(response: &str) -> (r: Result<DeviceStatus, ErrorKind>)
        ensures
            match r {
                Ok(v) => spec_parse_device_status(response@) == Some(v) && v.vcc_voltage.wf(),
                Err(e) => spec_parse_device_status(response@) is None && e
                    == ErrorKind::ResponseParse,
            },
    {
        proof {
            reveal_strlit("?STATUS,");
        }
        let v = chars_of(response);
        if !has_prefix(&v, "?STATUS,") {
            return Err(ErrorKind::ResponseParse);
        }
        let rest = sub_vec(&v, 8, v.len());
        let c1 = match find_char(&rest, 0, ',') {
            Some(i) => i,
            None => {
                return Err(ErrorKind::ResponseParse);
            },
        };
        if c1 != 1 {
            return Err(ErrorKind::ResponseParse);
        }
        if let Some(_) = find_char(&rest, 2, ',') {
            return Err(ErrorKind::ResponseParse);
        }
        let reason = match RestartReason::from_letter(rest[0]) {
            Some(rr) => rr,
            None => {
                return Err(ErrorKind::ResponseParse);
            },
        };
        let val_v = sub_vec(&rest, 2, rest.len());
        match Decimal::parse_chars(&val_v) {
            Some(d) => Ok(DeviceStatus { restart_reason: reason, vcc_voltage: d }),
            None => Err(ErrorKind::ResponseParse),
        }
    }

    /// The wire text of this status.
    pub fn render(&self) -> (r: String)
        ensures
            r@ == spec_render_device_status(*self),
    {
        let mut out: Vec<char> = Vec::new();
        push_str_chars(&mut out, "?STATUS,");
        out.push(self.restart_reason.letter());
        out.push(',');
        self.vcc_voltage.push_render(&mut out);
        assert(out@ =~= spec_render_device_status(*self));
        string_from_chars(&out)
    }
}

/// Rendering a device status and parsing it back gives the value back.
pub proof fn lemma_device_status_roundtrip(d: DeviceStatus)
    requires
        d.vcc_voltage.wf(),
    ensures
        spec_parse_device_status(spec_render_device_status(d)) == Some(d),
{
    reveal_strlit("?STATUS,");
    let s = spec_render_device_status(d);
    let letter = spec_reason_letter(d.restart_reason);
    let rd = spec_render_decimal(d.vcc_voltage);
    lemma_render_decimal_no_comma(d.vcc_voltage);
    assert(s.subrange(0, 8) =~= "?STATUS,"@);
    let rest = s.subrange(8, s.len() as int);
    assert(rest =~= seq![letter] + seq![','] + rd);
    assert(rest[0] == letter);
    assert(letter != ',');
    assert(rest[1] == ',');
    lemma_find_from_is(rest, 0, ',', 1);
    let c2 = find_from(rest, 2, ',');
    lemma_find_from(rest, 2, ',');
    if c2 != -1 {
        assert(rest[c2] == rd[c2 - 2]);
        assert(false);
    }
    assert(rest.subrange(2, rest.len() as int) =~= rd);
    lemma_reason_roundtrip(d.restart_reason);
    lemma_decimal_roundtrip(d.vcc_voltage);
}

// ---------------------------------------------------------------------------
// Export
// ---------------------------------------------------------------------------

/// One step of a calibration export: a fragment of the calibration string,
/// or the marker that the export is done.
#[derive(Clone, Debug, PartialEq, Eq)]
pub enum Exported {
    ExportString(String),
    Done,
}

/// An export reply is valid when it is the exact end marker `*DONE`, or a
/// plain text of 1 to 12 characters that does not begin with `*`.
pub open spec fn spec_exported_valid(s: Seq<char>) -> bool {
    if s.len() > 0 && s[0] == '*' {
        s == "*DONE"@
    } else {
        1 <= s.len() <= 12
    }
}

/// `e` is what the export reply `s` parses to.
pub open spec fn spec_exported_of(s: Seq<char>, e: Exported) -> bool {
    match e {
        Exported::Done => s == "*DONE"@,
        Exported::ExportString(t) => t@ == s && 1 <= s.len() <= 12 && !(s.len() > 0 && s[0]
            == '*'),
    }
}

/// An export value the device could have sent.
pub open spec fn spec_exported_wf(e: Exported) -> bool {
    match e {
        Exported::Done => true,
        Exported::ExportString(t) => 1 <= t@.len() <= 12 && t@[0] != '*',
    }
}

/// The wire text of an export step.
pub open spec fn spec_render_exported(e: Exported) -> Seq<char> {
    match e {
        Exported::Done => "*DONE"@,
        Exported::ExportString(t) => t@,
    }
}

impl Exported {
    /// Parses one reply of the export sequence.  A reply that begins with
    /// `*` must be exactly `*DONE`; anything else must be 1 to 12
    /// characters long.
    pub fn parse(response: &str) -> (r: Result<Exported, ErrorKind>)
        ensures
            match r {
                Ok(e) => spec_exported_of(response@, e),
                Err(err) => !spec_exported_valid(response@) && err == ErrorKind::ResponseParse,
            },
    {
        let v = chars_of(response);
        if v.len() > 0 && v[0] == '*' {
            if eq_lit(&v, "*DONE") {
                Ok(Exported::Done)
            } else {
                Err(ErrorKind::ResponseParse)
            }
        } else if 1 <= v.len() && v.len() <= 12 {
            Ok(Exported::ExportString(string_from_chars(&v)))
        } else {
            Err(ErrorKind::ResponseParse)
        }
    }

    /// The wire text of this export step.
    pub fn render(&self) -> (r: String)
        ensures
            r@ == spec_render_exported(*self),
    {
        match self {
            Exported::Done => String::from_str("*DONE"),
            Exported::ExportString(t) => t.clone(),
        }
    }
}

/// Rendering an export step the device could have sent and parsing it back
/// gives the value back.
pub proof fn lemma_exported_roundtrip(e: Exported)
    requires
        spec_exported_wf(e),
    ensures
        spec_exported_of(spec_render_exported(e), e),
{
}

/// Two parses of one export reply agree up to the text they hold.
pub proof fn lemma_exported_of_functional(s: Seq<char>, e1: Exported, e2: Exported)
    requires
        spec_exported_of(s, e1),
        spec_exported_of(s, e2),
    ensures
        e1 is Done <==> e2 is Done,
        match (e1, e2) {
            (Exported::ExportString(t1), Exported::ExportString(t2)) => t1@ == t2@,
            _ => true,
        },
{
    reveal_strlit("*DONE");
}

// ---------------------------------------------------------------------------
// Device info
// ---------------------------------------------------------------------------

/// What the device says it is: its name and its firmware version.
#[derive(Clone, Debug, PartialEq, Eq)]
pub struct DeviceInfo {
    pub device_name: String,
    pub firmware_version: String,
}

/// A device info reply is valid when it is `?I,`, a non-empty name, one
/// comma, and a non-empty version — exactly two fields.
pub open spec fn spec_device_info_valid(s: Seq<char>) -> bool {
    &&& s.len() > 3
    &&& s.subrange(0, 3) == "?I,"@
    &&& {
        let rest = s.subrange(3, s.len() as int);
        let c = find_from(rest, 0, ',');
        &&& c >= 1
        &&& c + 1 < rest.len()
        &&& find_from(rest, c + 1, ',') == -1
    }
}

/// `d` is what the device info reply `s` parses to.
pub open spec fn spec_device_info_of(s: Seq<char>, d: DeviceInfo) -> bool {
    &&& spec_device_info_valid(s)
    &&& {
        let rest = s.subrange(3, s.len() as int);
        let c = find_from(rest, 0, ',');
        &&& d.device_name@ == rest.subrange(0, c)
        &&& d.firmware_version@ == rest.subrange(c + 1, rest.len() as int)
    }
}

/// A device info the device could have sent: both fields non-empty, neither
/// holding a comma.
pub open spec fn spec_device_info_wf(d: DeviceInfo) -> bool {
    &&& 1 <= d.device_name@.len()
    &&& 1 <= d.firmware_version@.len()
    &&& forall|i: int| 0 <= i < d.device_name@.len() ==> #[trigger] d.device_name@[i] != ','
    &&& forall|i: int|
        0 <= i < d.firmware_version@.len() ==> #[trigger] d.firmware_version@[i] != ','
}

/// The wire text of a device info.
pub open spec fn spec_render_device_info(d: DeviceInfo) -> Seq<char> {
    "?I,"@ + d.device_name@ + seq![','] + d.firmware_version@
}

impl DeviceInfo {
    /// Parses the reply to the `I` command.
    pub fn parse(response: &str) -> (r: Result<DeviceInfo, ErrorKind>)
        ensures
            match r {
                Ok(d) => spec_device_info_of(response@, d),
                Err(e) => !spec_device_info_valid(response@) && e == ErrorKind::ResponseParse,
            },
    {
        proof {
            reveal_strlit("?I,");
        }
        let v = chars_of(response);
        if !has_prefix(&v, "?I,") {
            return Err(ErrorKind::ResponseParse);
        }
        let rest = sub_vec(&v, 3, v.len());
        let m = rest.len();
        let c = match find_char(&rest, 0, ',') {
            Some(i) => i,
            None => {
                return Err(ErrorKind::ResponseParse);
            },
        };
        if c == 0 {
            return Err(ErrorKind::ResponseParse);
        }
        assert(c < m);
        if let Some(_) = find_char(&rest, c + 1, ',') {
            return Err(ErrorKind::ResponseParse);
        }
        if c + 1 == rest.len() {
            return Err(ErrorKind::ResponseParse);
        }
        let name_v = sub_vec(&rest, 0, c);
        let fw_v = sub_vec(&rest, c + 1, rest.len());
        let name = string_from_chars(&name_v);
        let fw = string_from_chars(&fw_v);
        Ok(DeviceInfo { device_name: name, firmware_version: fw })
    }

    /// The wire text of this device info.
    pub fn render(&self) -> (r: String)
        ensures
            r@ == spec_render_device_info(*self),
    {
        let mut out: Vec<char> = Vec::new();
        push_str_chars(&mut out, "?I,");
        push_str_chars(&mut out, self.device_name.as_str());
        out.push(',');
        push_str_chars(&mut out, self.firmware_version.as_str());
        assert(out@ =~= spec_render_device_info(*self));
        string_from_chars(&out)
    }
}

/// Rendering a device info the device could have sent and parsing it back
/// gives both fields back.
pub proof fn lemma_device_info_roundtrip(d: DeviceInfo)
    requires
        spec_device_info_wf(d),
    ensures
        spec_device_info_of(spec_render_device_info(d), d),
{
    reveal_strlit("?I,");
    let s = spec_render_device_info(d);
    let name = d.device_name@;
    let fw = d.firmware_version@;
    assert(s.subrange(0, 3) =~= "?I,"@);
    let rest = s.subrange(3, s.len() as int);
    assert(rest =~= name + seq![','] + fw);
    let n = name.len() as int;
    assert(rest[n] == ',');
    assert forall|j: int| 0 <= j < n implies rest[j] != ',' by {
        assert(rest[j] == name[j]);
    }
    lemma_find_from_is(rest, 0, ',', n);
    let c2 = find_from(rest, n + 1, ',');
    lemma_find_from(rest, n + 1, ',');
    if c2 != -1 {
        assert(rest[c2] == fw[c2 - n - 1]);
        assert(false);
    }
    assert(rest.subrange(0, n) =~= name);
    assert(rest.subrange(n + 1, rest.len() as int) =~= fw);
}

/// Two parses of one device info reply agree on both fields.
pub proof fn lemma_device_info_of_functional(s: Seq<char>, d1: DeviceInfo, d2: DeviceInfo)
    requires
        spec_device_info_of(s, d1),
        spec_device_info_of(s, d2),
    ensures
        d1.device_name@ == d2.device_name@,
        d1.firmware_version@ == d2.firmware_version@,
{
}

} // verus!
