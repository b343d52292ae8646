use hardware_temp::reading::{
    classify, display_rpm_value, display_temp_value, Reading, DEPENDENCY_SENTINEL,
    PRIVILEGE_SENTINEL,
};
use hardware_temp::sensor::{report_line, sensors, Quantity, Sensor};
use hardware_temp::EntryPoint;

const PRIVILEGE_TEXT: &str = ": ERROR - Make sure the program is running as Administrator. If already running as Admin, this sensor is not supported on your system.";
const DEPENDENCY_TEXT: &str = ": ERROR - Make sure these DLLs are present next to the application:\n  - HardwareWrapper.dll\n  - HardwareTemp.dll\n  - LibreHardwareMonitorlib.dll";

fn one_decimal(value: f64) -> String {
    format!("{:.1}", value)
}

fn no_decimals(value: f64) -> String {
    format!("{:.0}", value)
}

#[test]
fn sentinel_constants_are_the_bits_of_the_reserved_doubles() {
    assert_eq!((-1.0f64).to_bits(), PRIVILEGE_SENTINEL);
    assert_eq!((-99.0f64).to_bits(), DEPENDENCY_SENTINEL);
    assert_eq!(f64::from_bits(PRIVILEGE_SENTINEL), -1.0);
    assert_eq!(f64::from_bits(DEPENDENCY_SENTINEL), -99.0);
}

#[test]
fn minus_one_is_a_privilege_error() {
    assert_eq!(classify((-1.0f64).to_bits()), Reading::PrivilegeError);
}

#[test]
fn minus_ninety_nine_is_a_dependency_error() {
    assert_eq!(classify((-99.0f64).to_bits()), Reading::DependencyError);
}

#[test]
fn any_other_value_is_a_measurement_of_that_value() {
    for value in [0.0f64, 45.0, 1200.0, 99.0, 1.0, -0.5, 1e300, 36.6] {
        match classify(value.to_bits()) {
            Reading::Measurement(bits) => assert_eq!(f64::from_bits(bits), value),
            other => panic!("{} was decoded as {:?}", value, other),
        }
    }
}

#[test]
fn values_next_to_a_sentinel_are_measurements() {
    for bits in [
        PRIVILEGE_SENTINEL - 1,
        PRIVILEGE_SENTINEL + 1,
        DEPENDENCY_SENTINEL - 1,
        DEPENDENCY_SENTINEL + 1,
    ] {
        assert_eq!(classify(bits), Reading::Measurement(bits));
    }
    assert!(matches!(classify((-1.0000001f64).to_bits()), Reading::Measurement(_)));
    assert!(matches!(classify((-98.999f64).to_bits()), Reading::Measurement(_)));
}

#[test]
fn values_that_are_not_finite_are_measurements() {
    for value in [f64::NAN, f64::INFINITY, f64::NEG_INFINITY] {
        assert_eq!(classify(value.to_bits()), Reading::Measurement(value.to_bits()));
    }
}

#[test]
fn negative_zero_keeps_its_bits() {
    let bits = (-0.0f64).to_bits();
    assert_eq!(classify(bits), Reading::Measurement(0x8000_0000_0000_0000));
}

#[test]
fn a_temperature_is_shown_with_its_unit() {
    let line = display_temp_value("CPU Temp", 45.0f64.to_bits(), &one_decimal(45.0), "°C");
    assert_eq!(line, "CPU Temp: 45.0 °C");
}

#[test]
fn a_temperature_is_rounded_to_one_decimal_by_the_caller() {
    let value = 61.26f64;
    let line = display_temp_value("GPU Temp", value.to_bits(), &one_decimal(value), "°C");
    assert_eq!(line, "GPU Temp: 61.3 °C");
}

#[test]
fn a_fan_speed_is_shown_in_rpm() {
    let value = 1234.4f64;
    let line = display_rpm_value("GPU Fan", value.to_bits(), &no_decimals(value));
    assert_eq!(line, "GPU Fan: 1234 RPM");
}

#[test]
fn a_fan_without_privilege_shows_the_diagnostic_and_no_number() {
    let value = -1.0f64;
    let line = display_rpm_value("CPU Fan", value.to_bits(), &no_decimals(value));
    assert_eq!(line, format!("CPU Fan{}", PRIVILEGE_TEXT));
    assert!(!line.contains("-1"));
    assert!(!line.contains("RPM"));
    assert!(!line.chars().any(|c| c.is_ascii_digit()));
}

#[test]
fn a_temperature_without_privilege_shows_the_diagnostic() {
    let line = display_temp_value("Storage Temp", PRIVILEGE_SENTINEL, "-1.0", "°C");
    assert_eq!(line, format!("Storage Temp{}", PRIVILEGE_TEXT));
}

#[test]
fn a_missing_dependency_shows_the_list_of_libraries() {
    let temp = display_temp_value("CPU Temp", DEPENDENCY_SENTINEL, "-99.0", "°C");
    assert_eq!(temp, format!("CPU Temp{}", DEPENDENCY_TEXT));
    let fan = display_rpm_value("CPU Fan", DEPENDENCY_SENTINEL, "-99");
    assert_eq!(fan, format!("CPU Fan{}", DEPENDENCY_TEXT));
}

#[test]
fn the_diagnostic_does_not_depend_on_the_number_handed_in() {
    let a = display_temp_value("CPU Temp", PRIVILEGE_SENTINEL, "-1.0", "°C");
    let b = display_temp_value("CPU Temp", PRIVILEGE_SENTINEL, "anything", "K");
    assert_eq!(a, b);
}

#[test]
fn equal_raw_values_give_equal_lines() {
    let first = report_line(Sensor::CpuTemp, 52.5f64.to_bits(), &one_decimal(52.5));
    let second = report_line(Sensor::CpuTemp, 52.5f64.to_bits(), &one_decimal(52.5));
    assert_eq!(first, second);
    assert_eq!(first, "CPU Temp: 52.5 °C");
}

#[test]
fn each_sensor_has_its_label_unit_and_accessor() {
    let expected = [
        (Sensor::CpuTemp, "CPU Temp", Quantity::Temperature, EntryPoint::CpuTemp),
        (Sensor::GpuTemp, "GPU Temp", Quantity::Temperature, EntryPoint::GpuTemp),
        (
            Sensor::MotherboardTemp,
            "Motherboard Temp",
            Quantity::Temperature,
            EntryPoint::MotherboardTemp,
        ),
        (Sensor::StorageTemp, "Storage Temp", Quantity::Temperature, EntryPoint::StorageTemp),
        (
            Sensor::AvgCpuCoreTemp,
            "Average CPU Core Temp",
            Quantity::Temperature,
            EntryPoint::AvgCpuCoreTemp,
        ),
        (
            Sensor::MaxCpuCoreTemp,
            "Max CPU Core Temp",
            Quantity::Temperature,
            EntryPoint::MaxCpuCoreTemp,
        ),
        (Sensor::CpuFan, "CPU Fan", Quantity::FanSpeed, EntryPoint::CpuFanRpm),
        (Sensor::GpuFan, "GPU Fan", Quantity::FanSpeed, EntryPoint::GpuFanRpm),
    ];
    let order = sensors();
    assert_eq!(order.len(), expected.len());
    for (i, (sensor, label, quantity, entry)) in expected.iter().enumerate() {
        assert_eq!(order[i], *sensor);
        assert_eq!(sensor.label(), *label);
        assert_eq!(sensor.quantity(), *quantity);
        assert_eq!(sensor.entry_point(), *entry);
    }
}

#[test]
fn each_sensor_is_followed_by_the_next_in_the_report() {
    let order = sensors();
    for i in 0..order.len() {
        let next = if i + 1 < order.len() { Some(order[i + 1]) } else { None };
        assert_eq!(order[i].successor(), next);
    }
}

#[test]
fn temperatures_have_one_decimal_and_fan_speeds_none() {
    assert_eq!(Quantity::Temperature.decimals(), 1);
    assert_eq!(Quantity::FanSpeed.decimals(), 0);
    assert_eq!(Quantity::Temperature.unit(), "°C");
    assert_eq!(Quantity::FanSpeed.unit(), "RPM");
}

#[test]
fn a_report_line_uses_the_unit_of_the_quantity() {
    let value = 38.04f64;
    let number = format!("{:.*}", Sensor::MotherboardTemp.quantity().decimals(), value);
    assert_eq!(
        report_line(Sensor::MotherboardTemp, value.to_bits(), &number),
        "Motherboard Temp: 38.0 °C"
    );
    let speed = 899.6f64;
    let number = format!("{:.*}", Sensor::CpuFan.quantity().decimals(), speed);
    assert_eq!(report_line(Sensor::CpuFan, speed.to_bits(), &number), "CPU Fan: 900 RPM");
}
