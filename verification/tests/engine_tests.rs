use ezo_rtd::command::Command;
use ezo_rtd::common::{CommandOptions, CommandResponse};
use ezo_rtd::decimal::Decimal;
use ezo_rtd::engine::{
    decode_response, parse_typed, Action, Event, ReadingWithScale, Response, Transaction,
};
use ezo_rtd::errors::ErrorKind;
use ezo_rtd::response::{ResponseStatus, SensorReading, Temperature, TemperatureScale};

fn dec(s: &str) -> Decimal {
    Decimal::parse(s).unwrap()
}

/// A 16-byte response buffer: the status byte, then the payload bytes,
/// padded with nul bytes.
fn buffer(status: u8, payload: &[u8]) -> Vec<u8> {
    let mut buf = vec![status];
    buf.extend_from_slice(payload);
    while buf.len() < 16 {
        buf.push(0);
    }
    buf
}

#[test]
fn classifies_every_status_byte() {
    assert_eq!(ResponseStatus::classify(0x01), ResponseStatus::Success);
    assert_eq!(ResponseStatus::classify(0xFE), ResponseStatus::Pending);
    assert_eq!(ResponseStatus::classify(0x02), ResponseStatus::DeviceError);
    assert_eq!(ResponseStatus::classify(0xFF), ResponseStatus::NoDataExpected);
    assert_eq!(ResponseStatus::classify(0x00), ResponseStatus::UnknownError);
    assert_eq!(ResponseStatus::classify(0x42), ResponseStatus::UnknownError);
}

#[test]
fn successful_read_decodes_scale_payload() {
    let buf = buffer(0x01, b"?S,C");
    assert_eq!(ResponseStatus::classify(buf[0]), ResponseStatus::Success);
    let payload = decode_response(&buf).unwrap();
    assert_eq!(payload, "?S,C");
    assert_eq!(TemperatureScale::parse(&payload).unwrap(), TemperatureScale::Celsius);
}

#[test]
fn pending_read_fails_before_any_parsing() {
    let buf = vec![0xFE; 16];
    assert_eq!(decode_response(&buf), Err(ErrorKind::PendingResponse));
}

#[test]
fn non_success_statuses_map_to_their_errors() {
    assert_eq!(decode_response(&vec![0x02; 16]), Err(ErrorKind::DeviceErrorResponse));
    assert_eq!(decode_response(&vec![0xFF; 16]), Err(ErrorKind::NoDataExpectedResponse));
    assert_eq!(decode_response(&buffer(0x42, b"?S,C")), Err(ErrorKind::UnknownStatusResponse));
}

#[test]
fn invalid_utf8_payload_is_malformed() {
    let buf = buffer(0x01, &[0xC3, 0x28]);
    assert_eq!(decode_response(&buf), Err(ErrorKind::MalformedResponse));
}

#[test]
fn missing_nul_terminator_falls_back_to_whole_remainder() {
    let mut buf = vec![0x01];
    buf.extend_from_slice(b"123456789012345");
    assert_eq!(buf.len(), 16);
    assert_eq!(decode_response(&buf).unwrap(), "123456789012345");
}

#[test]
fn parse_typed_dispatches_to_the_expected_parser() {
    assert_eq!(parse_typed(&CommandResponse::Ack, "").unwrap(), Response::Ack);
    assert_eq!(
        parse_typed(&CommandResponse::Reading, "25.104").unwrap(),
        Response::Reading(SensorReading(dec("25.104")))
    );
    assert_eq!(
        parse_typed(&CommandResponse::ScaleState, "?S,K").unwrap(),
        Response::Scale(TemperatureScale::Kelvin)
    );
    assert_eq!(
        parse_typed(&CommandResponse::ScaleState, "25.104"),
        Err(ErrorKind::ResponseParse)
    );
}

#[test]
fn reading_runs_write_settle_read_decode() {
    let (mut t, action) = Transaction::start(&Command::Reading);
    match action {
        Action::Write(bytes) => assert_eq!(bytes, b"R\0".to_vec()),
        _ => panic!("expected a write first"),
    }
    match t.step(Event::WriteOk) {
        Action::Sleep(ms) => assert_eq!(ms, 600),
        _ => panic!("expected the settle sleep"),
    }
    assert!(matches!(t.step(Event::Slept), Action::Read));
    match t.step(Event::ReadOk(buffer(0x01, b"25.104"))) {
        Action::Finish(out) => {
            assert_eq!(out.unwrap(), Some(Response::Reading(SensorReading(dec("25.104")))));
        },
        _ => panic!("expected the run to finish"),
    }
}

#[test]
fn command_without_response_skips_the_read() {
    let (mut t, action) = Transaction::start(&Command::Sleep);
    match action {
        Action::Write(bytes) => assert_eq!(bytes, b"SLEEP\0".to_vec()),
        _ => panic!("expected a write first"),
    }
    match t.step(Event::WriteOk) {
        Action::Finish(out) => assert_eq!(out.unwrap(), None),
        _ => panic!("expected the run to finish with no read"),
    }
}

#[test]
fn write_is_retried_once_after_backoff() {
    let (mut t, _) = Transaction::start(&Command::Sleep);
    match t.step(Event::WriteFailed) {
        Action::Sleep(ms) => assert_eq!(ms, 300),
        _ => panic!("expected the backoff sleep"),
    }
    match t.step(Event::Slept) {
        Action::Write(bytes) => assert_eq!(bytes, b"SLEEP\0".to_vec()),
        _ => panic!("expected the retried write"),
    }
    match t.step(Event::WriteOk) {
        Action::Finish(out) => assert_eq!(out.unwrap(), None),
        _ => panic!("expected the run to finish"),
    }
}

#[test]
fn second_write_failure_is_fatal() {
    let (mut t, _) = Transaction::start(&Command::Reading);
    assert!(matches!(t.step(Event::WriteFailed), Action::Sleep(300)));
    assert!(matches!(t.step(Event::Slept), Action::Write(_)));
    match t.step(Event::WriteFailed) {
        Action::Finish(out) => assert_eq!(out, Err(ErrorKind::CommandWriteFailed)),
        _ => panic!("expected the run to fail"),
    }
}

#[test]
fn second_read_failure_is_fatal() {
    let (mut t, _) = Transaction::start(&Command::Status);
    assert!(matches!(t.step(Event::WriteOk), Action::Sleep(300)));
    assert!(matches!(t.step(Event::Slept), Action::Read));
    assert!(matches!(t.step(Event::ReadFailed), Action::Sleep(300)));
    assert!(matches!(t.step(Event::Slept), Action::Read));
    match t.step(Event::ReadFailed) {
        Action::Finish(out) => assert_eq!(out, Err(ErrorKind::ResponseReadFailed)),
        _ => panic!("expected the run to fail"),
    }
}

#[test]
fn pending_status_ends_a_scale_query() {
    let (mut t, _) = Transaction::start(&Command::ScaleState);
    assert!(matches!(t.step(Event::WriteOk), Action::Sleep(300)));
    assert!(matches!(t.step(Event::Slept), Action::Read));
    match t.step(Event::ReadOk(vec![0xFE; 16])) {
        Action::Finish(out) => assert_eq!(out, Err(ErrorKind::PendingResponse)),
        _ => panic!("expected the run to fail"),
    }
}

#[test]
fn garbled_payload_is_a_parse_error() {
    let (mut t, _) = Transaction::start(&Command::ScaleState);
    assert!(matches!(t.step(Event::WriteOk), Action::Sleep(300)));
    assert!(matches!(t.step(Event::Slept), Action::Read));
    match t.step(Event::ReadOk(buffer(0x01, b"?S,X"))) {
        Action::Finish(out) => assert_eq!(out, Err(ErrorKind::ResponseParse)),
        _ => panic!("expected the run to fail"),
    }
}

#[test]
fn reading_with_scale_combines_both_steps() {
    let composite = ReadingWithScale;
    assert_eq!(composite.first_step(), Command::ScaleState);
    assert_eq!(composite.second_step(), Command::Reading);
    let t = composite.combine(TemperatureScale::Celsius, SensorReading(dec("22.123")));
    assert_eq!(t, Temperature::Celsius(dec("22.123")));
}

#[test]
fn reading_with_scale_takes_only_the_expected_step_outcomes() {
    let composite = ReadingWithScale;
    assert_eq!(
        composite.expect_scale(Some(Response::Scale(TemperatureScale::Kelvin))),
        Ok(TemperatureScale::Kelvin)
    );
    assert_eq!(composite.expect_scale(None), Err(ErrorKind::ResponseParse));
    assert_eq!(
        composite.expect_scale(Some(Response::Ack)),
        Err(ErrorKind::ResponseParse)
    );
    assert_eq!(
        composite.expect_reading(Some(Response::Reading(SensorReading(dec("22.123"))))),
        Ok(SensorReading(dec("22.123")))
    );
    assert_eq!(
        composite.expect_reading(Some(Response::Scale(TemperatureScale::Kelvin))),
        Err(ErrorKind::ResponseParse)
    );
}

#[test]
fn command_options_build_one_exchange() {
    let mut opts = CommandOptions::default();
    opts.set_command(String::from("R"));
    opts.set_delay(600);
    opts.set_response(CommandResponse::Reading);
    let copy = opts.finish();
    assert_eq!(copy, opts);
    assert_eq!(copy.command, "R");
    assert_eq!(copy.delay, Some(600));
    assert_eq!(copy.response, Some(CommandResponse::Reading));
    assert_eq!(copy.data, None);
}

#[test]
fn command_options_parse_response_reads_the_buffer() {
    let mut opts = CommandOptions::default();
    assert_eq!(opts.parse_response().unwrap(), "");

    opts.data = Some(buffer(0x01, b"?S,C"));
    assert_eq!(opts.parse_response().unwrap(), "?S,C");

    opts.data = Some(buffer(0x01, &[0xC3, 0x28]));
    assert_eq!(opts.parse_response(), Err(ErrorKind::MalformedResponse));
}

#[test]
fn command_options_parse_response_names_every_failed_status() {
    let mut opts = CommandOptions::default();

    opts.data = Some(vec![0xFE; 16]);
    assert_eq!(opts.parse_response(), Err(ErrorKind::PendingResponse));

    opts.data = Some(vec![0x02; 16]);
    assert_eq!(opts.parse_response(), Err(ErrorKind::DeviceErrorResponse));

    opts.data = Some(vec![0xFF; 16]);
    assert_eq!(opts.parse_response(), Err(ErrorKind::NoDataExpectedResponse));

    opts.data = Some(buffer(0x42, b"?S,C"));
    assert_eq!(opts.parse_response(), Err(ErrorKind::UnknownStatusResponse));
}

#[test]
fn error_kinds_describe_themselves() {
    assert_eq!(ErrorKind::ResponseParse.description(), "could not parse response");
    assert_eq!(ErrorKind::CommandParse.description(), "could not parse command");
    assert_eq!(
        ErrorKind::PendingResponse.description(),
        "response was not yet available"
    );
}
