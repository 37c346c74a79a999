use ezo_rtd::decimal::Decimal;
use ezo_rtd::response::{
    CalibrationStatus, DataLoggerStorageIntervalSeconds, DeviceInfo, DeviceStatus, Exported,
    ExportedInfo, LedStatus, MemoryReading, ProtocolLockStatus, RestartReason, SensorReading,
    Temperature, TemperatureScale,
};

fn dec(s: &str) -> Decimal {
    Decimal::parse(s).unwrap()
}

#[test]
fn parses_response_to_calibration_status() {
    let response = "?CAL,1";
    assert_eq!(CalibrationStatus::parse(&response).unwrap(), CalibrationStatus::Calibrated);

    let response = "?CAL,0";
    assert_eq!(CalibrationStatus::parse(&response).unwrap(), CalibrationStatus::NotCalibrated);
}

#[test]
fn parses_calibration_status_to_response() {
    let calibration_status = CalibrationStatus::Calibrated;
    assert_eq!(calibration_status.to_text(), "calibrated");

    let calibration_status = CalibrationStatus::NotCalibrated;
    assert_eq!(calibration_status.to_text(), "not-calibrated");
}

#[test]
fn parsing_invalid_calibration_status_yields_error() {
    let response = "";
    assert!(CalibrationStatus::parse(&response).is_err());

    let response = "?CAL,";
    assert!(CalibrationStatus::parse(&response).is_err());

    let response = "?CAL,b";
    assert!(CalibrationStatus::parse(&response).is_err());

    let response = "?CAL,1,";
    assert!(CalibrationStatus::parse(&response).is_err());
}

#[test]
fn parses_response_to_data_logger_storage_interval() {
    let response = "?D,0";
    assert_eq!(
        DataLoggerStorageIntervalSeconds::parse(response).unwrap(),
        DataLoggerStorageIntervalSeconds(0)
    );

    let response = "?D,10";
    assert_eq!(
        DataLoggerStorageIntervalSeconds::parse(response).unwrap(),
        DataLoggerStorageIntervalSeconds(10)
    );

    let response = "?D,42";
    assert_eq!(
        DataLoggerStorageIntervalSeconds::parse(response).unwrap(),
        DataLoggerStorageIntervalSeconds(42)
    );

    let response = "?D,320000";
    assert_eq!(
        DataLoggerStorageIntervalSeconds::parse(response).unwrap(),
        DataLoggerStorageIntervalSeconds(320000)
    );
}

#[test]
fn parses_data_logger_storage_interval_to_response() {
    let interval = DataLoggerStorageIntervalSeconds(0);
    assert_eq!(interval.to_text(), "0");

    let interval = DataLoggerStorageIntervalSeconds(10);
    assert_eq!(interval.to_text(), "10");

    let interval = DataLoggerStorageIntervalSeconds(42);
    assert_eq!(interval.to_text(), "42");

    let interval = DataLoggerStorageIntervalSeconds(320000);
    assert_eq!(interval.to_text(), "320000");
}

#[test]
fn parsing_invalid_data_logger_storage_interval_yields_error() {
    let response = "?D,";
    assert!(DataLoggerStorageIntervalSeconds::parse(response).is_err());

    let response = "?D,-1";
    assert!(DataLoggerStorageIntervalSeconds::parse(response).is_err());

    let response = "?D,9";
    assert!(DataLoggerStorageIntervalSeconds::parse(response).is_err());

    let response = "?D,320001";
    assert!(DataLoggerStorageIntervalSeconds::parse(response).is_err());

    let response = "?D,foo";
    assert!(DataLoggerStorageIntervalSeconds::parse(response).is_err());
}

#[test]
fn parses_response_to_memory_reading() {
    let response = "0,0";
    assert_eq!(
        MemoryReading::parse(response).unwrap(),
        MemoryReading { location: 0, reading: dec("0") }
    );

    let response = "50,1234.5";
    assert_eq!(
        MemoryReading::parse(response).unwrap(),
        MemoryReading { location: 50, reading: dec("1234.5") }
    );

    let response = "17,-10.5";
    assert_eq!(
        MemoryReading::parse(response).unwrap(),
        MemoryReading { location: 17, reading: dec("-10.5") }
    );
}

#[test]
fn parses_memory_reading_to_response() {
    let memory = MemoryReading { location: 0, reading: dec("0") };
    assert_eq!(memory.render(), "0,0");

    let memory = MemoryReading { location: 50, reading: dec("1234.5") };
    assert_eq!(memory.render(), "50,1234.5");

    let memory = MemoryReading { location: 17, reading: dec("-10.5") };
    assert_eq!(memory.render(), "17,-10.5");
}

#[test]
fn parsing_invalid_memory_reading_yields_error() {
    let response = "";
    assert!(MemoryReading::parse(response).is_err());

    let response = "-x";
    assert!(MemoryReading::parse(response).is_err());

    let response = "-1,-1";
    assert!(MemoryReading::parse(response).is_err());

    let response = "1,1,1";
    assert!(MemoryReading::parse(response).is_err());
}

#[test]
fn memory_reading_with_extra_field_fails() {
    assert_eq!(
        MemoryReading::parse("17,-10.5").unwrap(),
        MemoryReading { location: 17, reading: dec("-10.5") }
    );
    assert!(MemoryReading::parse("17,-10.5,1").is_err());
}

#[test]
fn parses_response_to_sensor_reading() {
    let response = "0";
    assert_eq!(SensorReading::parse(response).unwrap(), SensorReading(dec("0")));

    let response = "1234.5";
    assert_eq!(SensorReading::parse(response).unwrap(), SensorReading(dec("1234.5")));

    let response = "-10.5";
    assert_eq!(SensorReading::parse(response).unwrap(), SensorReading(dec("-10.5")));
}

#[test]
fn parses_sensor_reading_to_response() {
    let reading = SensorReading(dec("0"));
    assert_eq!(reading.to_text(), "0.000");

    let reading = SensorReading(dec("1234.5"));
    assert_eq!(reading.to_text(), "1234.500");

    let reading = SensorReading(dec("-10.035"));
    assert_eq!(reading.to_text(), "-10.035");
}

#[test]
fn parsing_invalid_sensor_reading_yields_error() {
    let response = "";
    assert!(SensorReading::parse(response).is_err());

    let response = "-x";
    assert!(SensorReading::parse(response).is_err());
}

#[test]
fn parses_response_to_temperature_scale() {
    let response = "?S,C";
    assert_eq!(TemperatureScale::parse(&response).unwrap(), TemperatureScale::Celsius);

    let response = "?S,K";
    assert_eq!(TemperatureScale::parse(&response).unwrap(), TemperatureScale::Kelvin);

    let response = "?S,F";
    assert_eq!(TemperatureScale::parse(&response).unwrap(), TemperatureScale::Fahrenheit);
}

#[test]
fn parses_temperature_scale_to_response() {
    let scale = TemperatureScale::Celsius;
    assert_eq!(scale.to_text(), "celsius");

    let scale = TemperatureScale::Kelvin;
    assert_eq!(scale.to_text(), "kelvin");

    let scale = TemperatureScale::Fahrenheit;
    assert_eq!(scale.to_text(), "fahrenheit");
}

#[test]
fn parsing_invalid_temperature_scale_yields_error() {
    let response = "";
    assert!(TemperatureScale::parse(&response).is_err());

    let response = "?S,";
    assert!(TemperatureScale::parse(&response).is_err());
}

#[test]
fn parses_response_to_temperature_with_scale() {
    let response = "0";
    assert_eq!(
        Temperature::parse(response, TemperatureScale::Celsius).unwrap(),
        Temperature::Celsius(dec("0"))
    );

    let response = "1234.5";
    assert_eq!(
        Temperature::parse(response, TemperatureScale::Kelvin).unwrap(),
        Temperature::Kelvin(dec("1234.5"))
    );

    let response = "-10.5";
    assert_eq!(
        Temperature::parse(response, TemperatureScale::Fahrenheit).unwrap(),
        Temperature::Fahrenheit(dec("-10.5"))
    );
}

#[test]
fn parses_temperature_with_scale_to_response() {
    let temperature = Temperature::Celsius(dec("0"));
    assert_eq!(temperature.to_text(), "0,celsius");

    let temperature = Temperature::Kelvin(dec("1234.5"));
    assert_eq!(temperature.to_text(), "1234.5,kelvin");

    let temperature = Temperature::Fahrenheit(dec("-10.5"));
    assert_eq!(temperature.to_text(), "-10.5,fahrenheit");
}

#[test]
fn parsing_invalid_temperature_yields_error() {
    let response = "";
    assert!(Temperature::parse(response, TemperatureScale::Celsius).is_err());

    let response = "-x";
    assert!(Temperature::parse(response, TemperatureScale::Celsius).is_err());
}

#[test]
fn parses_response_to_device_status() {
    let status = DeviceStatus::parse("?STATUS,P,1.5").unwrap();
    assert_eq!(
        status,
        DeviceStatus { restart_reason: RestartReason::PoweredOff, vcc_voltage: dec("1.5") }
    );

    let status = DeviceStatus::parse("?STATUS,W,3.328").unwrap();
    assert_eq!(
        status,
        DeviceStatus { restart_reason: RestartReason::Watchdog, vcc_voltage: dec("3.328") }
    );
}

#[test]
fn parsing_invalid_device_status_yields_error() {
    assert!(DeviceStatus::parse("").is_err());
    assert!(DeviceStatus::parse("?STATUS,").is_err());
    assert!(DeviceStatus::parse("?STATUS,X,1.5").is_err());
    assert!(DeviceStatus::parse("?STATUS,Px,1.5").is_err());
    assert!(DeviceStatus::parse("?STATUS,P").is_err());
    assert!(DeviceStatus::parse("?STATUS,P,1.5,2").is_err());
}

#[test]
fn device_status_renders_to_wire_text_and_back() {
    let status =
        DeviceStatus { restart_reason: RestartReason::PoweredOff, vcc_voltage: dec("1.5") };
    assert_eq!(status.render(), "?STATUS,P,1.5");
    assert_eq!(DeviceStatus::parse(&status.render()).unwrap(), status);
}

#[test]
fn parses_response_to_exported() {
    assert_eq!(Exported::parse("*DONE").unwrap(), Exported::Done);
    assert_eq!(
        Exported::parse("123456789012").unwrap(),
        Exported::ExportString(String::from("123456789012"))
    );
}

#[test]
fn parsing_invalid_exported_yields_error() {
    assert!(Exported::parse("*DNE").is_err());
    assert!(Exported::parse("*done").is_err());
    assert!(Exported::parse("").is_err());
    assert!(Exported::parse("1234567890123").is_err());
}

#[test]
fn exported_renders_to_wire_text_and_back() {
    let done = Exported::Done;
    assert_eq!(done.render(), "*DONE");
    assert_eq!(Exported::parse(&done.render()).unwrap(), done);

    let fragment = Exported::ExportString(String::from("3.14"));
    assert_eq!(fragment.render(), "3.14");
    assert_eq!(Exported::parse(&fragment.render()).unwrap(), fragment);
}

#[test]
fn parses_response_to_exported_info() {
    assert_eq!(
        ExportedInfo::parse("10,120").unwrap(),
        ExportedInfo { lines: 10, total_bytes: 120 }
    );
}

#[test]
fn parsing_invalid_exported_info_yields_error() {
    assert!(ExportedInfo::parse("").is_err());
    assert!(ExportedInfo::parse("10").is_err());
    assert!(ExportedInfo::parse("10,").is_err());
    assert!(ExportedInfo::parse("10,120,3").is_err());
    assert!(ExportedInfo::parse("10,1.5").is_err());
}

#[test]
fn exported_info_renders_to_wire_text_and_back() {
    let info = ExportedInfo { lines: 10, total_bytes: 120 };
    assert_eq!(info.render(), "10,120");
    assert_eq!(ExportedInfo::parse(&info.render()).unwrap(), info);
}

#[test]
fn parses_response_to_device_info() {
    let info = DeviceInfo::parse("?I,RTD,2.01").unwrap();
    assert_eq!(info.device_name, "RTD");
    assert_eq!(info.firmware_version, "2.01");
}

#[test]
fn parsing_invalid_device_info_yields_error() {
    assert!(DeviceInfo::parse("").is_err());
    assert!(DeviceInfo::parse("?I,").is_err());
    assert!(DeviceInfo::parse("?I,RTD").is_err());
    assert!(DeviceInfo::parse("?I,,2.01").is_err());
    assert!(DeviceInfo::parse("?I,RTD,").is_err());
    assert!(DeviceInfo::parse("?I,RTD,2.01,X").is_err());
}

#[test]
fn device_info_renders_to_wire_text_and_back() {
    let info =
        DeviceInfo { device_name: String::from("RTD"), firmware_version: String::from("2.01") };
    assert_eq!(info.render(), "?I,RTD,2.01");
    assert_eq!(DeviceInfo::parse(&info.render()).unwrap(), info);
}

#[test]
fn parses_response_to_led_status() {
    assert_eq!(LedStatus::parse("?L,1").unwrap(), LedStatus::On);
    assert_eq!(LedStatus::parse("?L,0").unwrap(), LedStatus::Off);
    assert!(LedStatus::parse("?L,2").is_err());
    assert!(LedStatus::parse("").is_err());
}

#[test]
fn parses_response_to_protocol_lock_status() {
    assert_eq!(ProtocolLockStatus::parse("?PLOCK,1").unwrap(), ProtocolLockStatus::On);
    assert_eq!(ProtocolLockStatus::parse("?PLOCK,0").unwrap(), ProtocolLockStatus::Off);
    assert!(ProtocolLockStatus::parse("?PLOCK,").is_err());
    assert!(ProtocolLockStatus::parse("").is_err());
}

#[test]
fn scalar_responses_render_to_wire_text_and_back() {
    let c = CalibrationStatus::Calibrated;
    assert_eq!(c.render(), "?CAL,1");
    assert_eq!(CalibrationStatus::parse(&c.render()).unwrap(), c);

    let d = DataLoggerStorageIntervalSeconds(320000);
    assert_eq!(d.render(), "?D,320000");
    assert_eq!(DataLoggerStorageIntervalSeconds::parse(&d.render()).unwrap(), d);

    let s = TemperatureScale::Kelvin;
    assert_eq!(s.render(), "?S,K");
    assert_eq!(TemperatureScale::parse(&s.render()).unwrap(), s);

    let l = LedStatus::Off;
    assert_eq!(l.render(), "?L,0");
    assert_eq!(LedStatus::parse(&l.render()).unwrap(), l);

    let p = ProtocolLockStatus::On;
    assert_eq!(p.render(), "?PLOCK,1");
    assert_eq!(ProtocolLockStatus::parse(&p.render()).unwrap(), p);

    let m = MemoryReading { location: 17, reading: dec("-10.5") };
    assert_eq!(MemoryReading::parse(&m.render()).unwrap(), m);

    let r = SensorReading(dec("-10.035"));
    assert_eq!(r.render(), "-10.035");
    assert_eq!(SensorReading::parse(&r.render()).unwrap(), r);

    let t = Temperature::Fahrenheit(dec("-10.5"));
    assert_eq!(t.render(), "-10.5");
    assert_eq!(
        Temperature::parse(&t.render(), TemperatureScale::Fahrenheit).unwrap(),
        t
    );
}
