use ezo_rtd::command::{BpsRate, Command};
use ezo_rtd::common::{CommandResponse, I2cCommand};
use ezo_rtd::decimal::Decimal;
use ezo_rtd::engine::ReadingWithScale;

fn dec(s: &str) -> Decimal {
    Decimal::parse(s).unwrap()
}

#[test]
fn build_command_calibration_temperature() {
    let cmd = Command::CalibrationTemperature(dec("35.2459"));
    assert_eq!(cmd.get_command_string(), "CAL,35.25");
    assert_eq!(cmd.get_delay(), 1000);
}

#[test]
fn parse_case_insensitive_command_calibration_temperature() {
    let cmd = Command::parse("cal,0").unwrap();
    assert_eq!(cmd, Command::CalibrationTemperature(dec("0")));

    let cmd = Command::parse("CAL,121.43").unwrap();
    assert_eq!(cmd, Command::CalibrationTemperature(dec("121.43")));
}

#[test]
fn parse_invalid_command_calibration_temperature_yields_err() {
    let cmd = Command::parse("cal,");
    assert!(cmd.is_err());

    let cmd = Command::parse("CAL,1a21.43");
    assert!(cmd.is_err());
}

#[test]
fn build_command_calibration_state() {
    let cmd = Command::CalibrationState;
    assert_eq!(cmd.get_command_string(), "CAL,?");
    assert_eq!(cmd.get_delay(), 300);
}

#[test]
fn parse_case_insensitive_command_calibration_state() {
    let cmd = Command::parse("cal,?").unwrap();
    assert_eq!(cmd, Command::CalibrationState);

    let cmd = Command::parse("Cal,?").unwrap();
    assert_eq!(cmd, Command::CalibrationState);
}

#[test]
fn build_command_data_logger_period() {
    let cmd = Command::DataloggerPeriod(10);
    assert_eq!(cmd.get_command_string(), "D,10");
    assert_eq!(cmd.get_delay(), 300);
}

#[test]
fn parse_case_insensitive_command_data_logger_period() {
    let cmd = Command::parse("d,10").unwrap();
    assert_eq!(cmd, Command::DataloggerPeriod(10));

    let cmd = Command::parse("D,200").unwrap();
    assert_eq!(cmd, Command::DataloggerPeriod(200));
}

#[test]
fn parse_invalid_command_data_logger_period_yields_error() {
    let cmd = Command::parse("d,");
    assert!(cmd.is_err());

    let cmd = Command::parse("D,2a0");
    assert!(cmd.is_err());
}

#[test]
fn build_command_data_logger_disable() {
    let cmd = Command::DataloggerDisable;
    assert_eq!(cmd.get_command_string(), "D,0");
    assert_eq!(cmd.get_delay(), 300);
}

#[test]
fn parse_case_insensitive_command_data_logger_disable() {
    let cmd = Command::parse("d,0").unwrap();
    assert_eq!(cmd, Command::DataloggerDisable);

    let cmd = Command::parse("D,0").unwrap();
    assert_eq!(cmd, Command::DataloggerDisable);
}

#[test]
fn build_command_data_logger_interval() {
    let cmd = Command::DataloggerInterval;
    assert_eq!(cmd.get_command_string(), "D,?");
    assert_eq!(cmd.get_delay(), 300);
}

#[test]
fn parse_case_insensitive_command_data_logger_interval() {
    let cmd = Command::parse("d,?").unwrap();
    assert_eq!(cmd, Command::DataloggerInterval);

    let cmd = Command::parse("D,?").unwrap();
    assert_eq!(cmd, Command::DataloggerInterval);
}

#[test]
fn build_command_memory_clear() {
    let cmd = Command::MemoryClear;
    assert_eq!(cmd.get_command_string(), "M,CLEAR");
    assert_eq!(cmd.get_delay(), 300);
}

#[test]
fn parse_case_insensitive_command_memory_clear() {
    let cmd = Command::parse("M,clear").unwrap();
    assert_eq!(cmd, Command::MemoryClear);

    let cmd = Command::parse("M,CLEAR").unwrap();
    assert_eq!(cmd, Command::MemoryClear);
}

#[test]
fn build_command_memory_recall() {
    let cmd = Command::MemoryRecall;
    assert_eq!(cmd.get_command_string(), "M");
    assert_eq!(cmd.get_delay(), 300);
}

#[test]
fn parse_case_insensitive_command_memory_recall() {
    let cmd = Command::parse("m").unwrap();
    assert_eq!(cmd, Command::MemoryRecall);

    let cmd = Command::parse("M").unwrap();
    assert_eq!(cmd, Command::MemoryRecall);
}

#[test]
fn build_command_memory_recall_location() {
    let cmd = Command::MemoryRecallLast;
    assert_eq!(cmd.get_command_string(), "M,?");
    assert_eq!(cmd.get_delay(), 300);
}

#[test]
fn parse_case_insensitive_command_memory_recall_location() {
    let cmd = Command::parse("m,?").unwrap();
    assert_eq!(cmd, Command::MemoryRecallLast);

    let cmd = Command::parse("M,?").unwrap();
    assert_eq!(cmd, Command::MemoryRecallLast);
}

#[test]
fn build_command_reading() {
    let cmd = Command::Reading;
    assert_eq!(cmd.get_command_string(), "R");
    assert_eq!(cmd.get_delay(), 600);
}

#[test]
fn parse_case_insensitive_command_reading() {
    let cmd = Command::parse("r").unwrap();
    assert_eq!(cmd, Command::Reading);

    let cmd = Command::parse("R").unwrap();
    assert_eq!(cmd, Command::Reading);
}

#[test]
fn build_command_reading_with_scale() {
    let cmd = ReadingWithScale;
    assert_eq!(cmd.get_command_string(), "R");
    assert_eq!(cmd.get_delay(), 900);
}

#[test]
fn build_command_scale_celsius() {
    let cmd = Command::ScaleCelsius;
    assert_eq!(cmd.get_command_string(), "S,C");
    assert_eq!(cmd.get_delay(), 300);
}

#[test]
fn parse_case_insensitive_command_scale_celsius() {
    let cmd = Command::parse("s,c").unwrap();
    assert_eq!(cmd, Command::ScaleCelsius);

    let cmd = Command::parse("S,C").unwrap();
    assert_eq!(cmd, Command::ScaleCelsius);
}

#[test]
fn build_command_scale_kelvin() {
    let cmd = Command::ScaleKelvin;
    assert_eq!(cmd.get_command_string(), "S,K");
    assert_eq!(cmd.get_delay(), 300);
}

#[test]
fn parse_case_insensitive_command_scale_kelvin() {
    let cmd = Command::parse("s,k").unwrap();
    assert_eq!(cmd, Command::ScaleKelvin);

    let cmd = Command::parse("S,K").unwrap();
    assert_eq!(cmd, Command::ScaleKelvin);
}

#[test]
fn build_command_scale_fahrenheit() {
    let cmd = Command::ScaleFahrenheit;
    assert_eq!(cmd.get_command_string(), "S,F");
    assert_eq!(cmd.get_delay(), 300);
}

#[test]
fn parse_case_insensitive_command_scale_fahrenheit() {
    let cmd = Command::parse("s,f").unwrap();
    assert_eq!(cmd, Command::ScaleFahrenheit);

    let cmd = Command::parse("S,F").unwrap();
    assert_eq!(cmd, Command::ScaleFahrenheit);
}

#[test]
fn build_command_scale_status() {
    let cmd = Command::ScaleState;
    assert_eq!(cmd.get_command_string(), "S,?");
    assert_eq!(cmd.get_delay(), 300);
}

#[test]
fn parse_case_insensitive_command_scale_status() {
    let cmd = Command::parse("s,?").unwrap();
    assert_eq!(cmd, Command::ScaleState);

    let cmd = Command::parse("S,?").unwrap();
    assert_eq!(cmd, Command::ScaleState);
}

#[test]
fn build_commands_without_rtd_specific_parsers() {
    assert_eq!(Command::Status.get_command_string(), "STATUS");
    assert_eq!(Command::Status.get_delay(), 300);
    assert_eq!(Command::Sleep.get_command_string(), "SLEEP");
    assert_eq!(Command::Sleep.get_delay(), 0);
    assert_eq!(Command::Factory.get_command_string(), "FACTORY");
    assert_eq!(Command::Factory.get_delay(), 0);
    assert_eq!(Command::Find.get_command_string(), "FIND");
    assert_eq!(Command::LedOn.get_command_string(), "L,1");
    assert_eq!(Command::LedOff.get_command_string(), "L,0");
    assert_eq!(Command::LedState.get_command_string(), "L,?");
    assert_eq!(Command::ProtocolLockEnable.get_command_string(), "PLOCK,1");
    assert_eq!(Command::ProtocolLockDisable.get_command_string(), "PLOCK,0");
    assert_eq!(Command::ProtocolLockState.get_command_string(), "PLOCK,?");
    assert_eq!(Command::DeviceInformation.get_command_string(), "I");
    assert_eq!(Command::Export.get_command_string(), "EXPORT");
    assert_eq!(Command::ExportInfo.get_command_string(), "EXPORT,?");
    assert_eq!(Command::Baud(BpsRate::Bps9600).get_command_string(), "BAUD,9600");
    assert_eq!(Command::Baud(BpsRate::Bps9600).get_delay(), 0);
    assert_eq!(Command::DeviceAddress(100).get_command_string(), "I2C,100");
    assert_eq!(
        Command::Import(String::from("3.14,2,420")).get_command_string(),
        "IMPORT,3.14,2,420"
    );
}

#[test]
fn parse_commands_without_rtd_specific_parsers() {
    assert_eq!(Command::parse("status").unwrap(), Command::Status);
    assert_eq!(Command::parse("sleep").unwrap(), Command::Sleep);
    assert_eq!(Command::parse("factory").unwrap(), Command::Factory);
    assert_eq!(Command::parse("find").unwrap(), Command::Find);
    assert_eq!(Command::parse("l,1").unwrap(), Command::LedOn);
    assert_eq!(Command::parse("l,0").unwrap(), Command::LedOff);
    assert_eq!(Command::parse("l,?").unwrap(), Command::LedState);
    assert_eq!(Command::parse("plock,1").unwrap(), Command::ProtocolLockEnable);
    assert_eq!(Command::parse("plock,0").unwrap(), Command::ProtocolLockDisable);
    assert_eq!(Command::parse("plock,?").unwrap(), Command::ProtocolLockState);
    assert_eq!(Command::parse("i").unwrap(), Command::DeviceInformation);
    assert_eq!(Command::parse("export").unwrap(), Command::Export);
    assert_eq!(Command::parse("export,?").unwrap(), Command::ExportInfo);
    assert_eq!(Command::parse("baud,115200").unwrap(), Command::Baud(BpsRate::Bps115200));
    assert_eq!(Command::parse("i2c,100").unwrap(), Command::DeviceAddress(100));
    assert_eq!(
        Command::parse("import,ABC").unwrap(),
        Command::Import(String::from("ABC"))
    );
    assert!(Command::parse("baud,110").is_err());
    assert!(Command::parse("i2c,65536").is_err());
    assert!(Command::parse("import,").is_err());
    assert!(Command::parse("import,ABCDEFGHIJKLM").is_err());
    assert!(Command::parse("bogus").is_err());
    assert!(Command::parse("").is_err());
}

#[test]
fn encode_is_deterministic() {
    let a = Command::CalibrationTemperature(dec("35.2459")).encode();
    let b = Command::CalibrationTemperature(dec("35.2459")).encode();
    assert_eq!(a.wire, b.wire);
    assert_eq!(a.delay_ms, b.delay_ms);
    assert_eq!(a.expected, b.expected);

    let a = Command::Status.encode();
    let b = Command::Status.encode();
    assert_eq!(a.wire, b.wire);
    assert_eq!(a.delay_ms, b.delay_ms);
    assert_eq!(a.expected, b.expected);
}

#[test]
fn encode_calibration_temperature_wire_string() {
    let spec = Command::CalibrationTemperature(dec("35.2459")).encode();
    assert_eq!(spec.wire, b"CAL,35.25\0".to_vec());
    assert_eq!(spec.delay_ms, 1000);
    assert_eq!(spec.expected, Some(CommandResponse::Ack));
}

#[test]
fn encode_closes_every_wire_string_with_nul() {
    for cmd in [
        Command::CalibrationState,
        Command::DataloggerInterval,
        Command::MemoryRecall,
        Command::Reading,
        Command::ScaleState,
        Command::Sleep,
        Command::Status,
    ] {
        let spec = cmd.encode();
        assert_eq!(spec.wire.last(), Some(&0u8));
    }
}

#[test]
fn expected_response_kinds_follow_the_table() {
    assert_eq!(Command::Reading.expected_response(), Some(CommandResponse::Reading));
    assert_eq!(Command::ScaleState.expected_response(), Some(CommandResponse::ScaleState));
    assert_eq!(Command::Status.expected_response(), Some(CommandResponse::Status));
    assert_eq!(
        Command::MemoryRecallLast.expected_response(),
        Some(CommandResponse::MemoryRecallLastLocation)
    );
    assert_eq!(Command::ScaleCelsius.expected_response(), Some(CommandResponse::Ack));
    assert_eq!(Command::Sleep.expected_response(), None);
    assert_eq!(Command::Factory.expected_response(), None);
}

#[test]
fn builds_command_options() {
    let opts = Command::Reading.build();
    assert_eq!(opts.command, "R");
    assert_eq!(opts.delay, Some(600));
    assert_eq!(opts.response, Some(CommandResponse::Reading));
    assert_eq!(opts.data, None);
}
