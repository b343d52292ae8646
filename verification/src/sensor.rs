//! The sensors that are reported, and how each is shown.

use vstd::prelude::*;
use crate::entry_point::EntryPoint;
use crate::loader::HardwareTemp;
use crate::reading::{display_rpm_value, display_temp_value, value_line};

verus! {

/// What a sensor measures.
#[derive(Clone, Copy, Debug, PartialEq, Eq, Structural)]
pub enum Quantity {
    /// A temperature, in degrees Celsius.
    Temperature,
    /// A rotational speed, in revolutions per minute.
    FanSpeed,
}

impl Quantity {
    /// Number of decimal places with which a measurement is written.
    pub open spec fn spec_decimals(self) -> nat {
        match self {
            Quantity::Temperature => 1,
            Quantity::FanSpeed => 0,
        }
    }

    /// The unit that follows a measurement.
    pub open spec fn spec_unit(self) -> Seq<char> {
        match self {
            Quantity::Temperature => "\u{b0}C"@,
            Quantity::FanSpeed => "RPM"@,
        }
    }

    /// Number of decimal places with which a measurement is written: one for
    /// a temperature, none for a rotational speed.
    pub fn decimals(&self) -> (r: usize)
        ensures
            r == self.spec_decimals(),
    {
        match self {
            Quantity::Temperature => 1,
            Quantity::FanSpeed => 0,
        }
    }

    /// The unit that follows a measurement.
    pub fn unit(&self) -> (r: &'static str)
        ensures
            r@ == self.spec_unit(),
    {
        match self {
            Quantity::Temperature => "\u{b0}C",
            Quantity::FanSpeed => "RPM",
        }
    }
}

/// A sensor of the machine. The variants are declared in the order in which
/// the sensors are reported: the temperatures first, then the fans.
#[derive(Clone, Copy, Debug, PartialEq, Eq, Structural)]
pub enum Sensor {
    CpuTemp,
    GpuTemp,
    MotherboardTemp,
    StorageTemp,
    AvgCpuCoreTemp,
    MaxCpuCoreTemp,
    CpuFan,
    GpuFan,
}

/// The sensors in the order in which they are reported.
pub open spec fn report_order() -> Seq<Sensor> {
    seq![
        Sensor::CpuTemp,
        Sensor::GpuTemp,
        Sensor::MotherboardTemp,
        Sensor::StorageTemp,
        Sensor::AvgCpuCoreTemp,
        Sensor::MaxCpuCoreTemp,
        Sensor::CpuFan,
        Sensor::GpuFan,
    ]
}

impl Sensor {
    /// Position of the sensor in the report.
    pub open spec fn spec_position(self) -> nat {
        match self {
            Sensor::CpuTemp => 0,
            Sensor::GpuTemp => 1,
            Sensor::MotherboardTemp => 2,
            Sensor::StorageTemp => 3,
            Sensor::AvgCpuCoreTemp => 4,
            Sensor::MaxCpuCoreTemp => 5,
            Sensor::CpuFan => 6,
            Sensor::GpuFan => 7,
        }
    }

    /// The name under which the sensor is reported.
    pub open spec fn spec_label(self) -> Seq<char> {
        match self {
            Sensor::CpuTemp => "CPU Temp"@,
            Sensor::GpuTemp => "GPU Temp"@,
            Sensor::MotherboardTemp => "Motherboard Temp"@,
            Sensor::StorageTemp => "Storage Temp"@,
            Sensor::AvgCpuCoreTemp => "Average CPU Core Temp"@,
            Sensor::MaxCpuCoreTemp => "Max CPU Core Temp"@,
            Sensor::CpuFan => "CPU Fan"@,
            Sensor::GpuFan => "GPU Fan"@,
        }
    }

    /// What the sensor measures.
    pub open spec fn spec_quantity(self) -> Quantity {
        match self {
            Sensor::CpuFan | Sensor::GpuFan => Quantity::FanSpeed,
            _ => Quantity::Temperature,
        }
    }

    /// The entry point that reads the sensor.
    pub open spec fn spec_entry_point(self) -> EntryPoint {
        match self {
            Sensor::CpuTemp => EntryPoint::CpuTemp,
            Sensor::GpuTemp => EntryPoint::GpuTemp,
            Sensor::MotherboardTemp => EntryPoint::MotherboardTemp,
            Sensor::StorageTemp => EntryPoint::StorageTemp,
            Sensor::AvgCpuCoreTemp => EntryPoint::AvgCpuCoreTemp,
            Sensor::MaxCpuCoreTemp => EntryPoint::MaxCpuCoreTemp,
            Sensor::CpuFan => EntryPoint::CpuFanRpm,
            Sensor::GpuFan => EntryPoint::GpuFanRpm,
        }
    }

    /// The sensor that is reported after this one, if there is one.
    pub open spec fn spec_successor(self) -> Option<Sensor> {
        match self {
            Sensor::CpuTemp => Some(Sensor::GpuTemp),
            Sensor::GpuTemp => Some(Sensor::MotherboardTemp),
            Sensor::MotherboardTemp => Some(Sensor::StorageTemp),
            Sensor::StorageTemp => Some(Sensor::AvgCpuCoreTemp),
            Sensor::AvgCpuCoreTemp => Some(Sensor::MaxCpuCoreTemp),
            Sensor::MaxCpuCoreTemp => Some(Sensor::CpuFan),
            Sensor::CpuFan => Some(Sensor::GpuFan),
            Sensor::GpuFan => None,
        }
    }

    /// The name under which the sensor is reported.
    pub fn label(&self) -> (r: &'static str)
        ensures
            r@ == self.spec_label(),
    {
        match self {
            Sensor::CpuTemp => "CPU Temp",
            Sensor::GpuTemp => "GPU Temp",
            Sensor::MotherboardTemp => "Motherboard Temp",
            Sensor::StorageTemp => "Storage Temp",
            Sensor::AvgCpuCoreTemp => "Average CPU Core Temp",
            Sensor::MaxCpuCoreTemp => "Max CPU Core Temp",
            Sensor::CpuFan => "CPU Fan",
            Sensor::GpuFan => "GPU Fan",
        }
    }

    /// What the sensor measures.
    pub fn quantity(&self) -> (r: Quantity)
        ensures
            r == self.spec_quantity(),
    {
        match self {
            Sensor::CpuFan | Sensor::GpuFan => Quantity::FanSpeed,
            _ => Quantity::Temperature,
        }
    }

    /// The entry point that reads the sensor.
    pub fn entry_point(&self) -> (r: EntryPoint)
        ensures
            r == self.spec_entry_point(),
    {
        match self {
            Sensor::CpuTemp => EntryPoint::CpuTemp,
            Sensor::GpuTemp => EntryPoint::GpuTemp,
            Sensor::MotherboardTemp => EntryPoint::MotherboardTemp,
            Sensor::StorageTemp => EntryPoint::StorageTemp,
            Sensor::AvgCpuCoreTemp => EntryPoint::AvgCpuCoreTemp,
            Sensor::MaxCpuCoreTemp => EntryPoint::MaxCpuCoreTemp,
            Sensor::CpuFan => EntryPoint::CpuFanRpm,
            Sensor::GpuFan => EntryPoint::GpuFanRpm,
        }
    }

    /// The sensor that is reported after this one, if there is one.
    pub fn successor(&self) -> (r: Option<Sensor>)
        ensures
            r == self.spec_successor(),
    {
        match self {
            Sensor::CpuTemp => Some(Sensor::GpuTemp),
            Sensor::GpuTemp => Some(Sensor::MotherboardTemp),
            Sensor::MotherboardTemp => Some(Sensor::StorageTemp),
            Sensor::StorageTemp => Some(Sensor::AvgCpuCoreTemp),
            Sensor::AvgCpuCoreTemp => Some(Sensor::MaxCpuCoreTemp),
            Sensor::MaxCpuCoreTemp => Some(Sensor::CpuFan),
            Sensor::CpuFan => Some(Sensor::GpuFan),
            Sensor::GpuFan => None,
        }
    }
}

/// The line that reports the raw value `raw` of `sensor`, where `number` is
/// how the value is written.
pub open spec fn sensor_line(sensor: Sensor, raw: u64, number: Seq<char>) -> Seq<char> {
    value_line(sensor.spec_label(), raw, number, sensor.spec_quantity().spec_unit())
}

/// Lays out the line that reports a sensor.
///
/// `raw` is the bit pattern that the sensor's accessor returned, and `number`
/// is that value written with as many decimal places as the sensor's quantity
/// asks for. The same decoding is applied to every sensor.
pub fn report_line(sensor: Sensor, raw: u64, number: &str) -> (r: String)
    ensures
        r@ == sensor_line(sensor, raw, number@),
{
    match sensor.quantity() {
        Quantity::Temperature => display_temp_value(
            sensor.label(),
            raw,
            number,
            Quantity::Temperature.unit(),
        ),
        Quantity::FanSpeed => display_rpm_value(sensor.label(), raw, number),
    }
}

/// The sensors in the order in which they are reported.
pub fn sensors() -> (r: Vec<Sensor>)
    ensures
        r@ == report_order(),
{
    let r = vec![
        Sensor::CpuTemp,
        Sensor::GpuTemp,
        Sensor::MotherboardTemp,
        Sensor::StorageTemp,
        Sensor::AvgCpuCoreTemp,
        Sensor::MaxCpuCoreTemp,
        Sensor::CpuFan,
        Sensor::GpuFan,
    ];
    assert(r@ =~= report_order());
    r
}

impl<I, U, G> HardwareTemp<I, U, G> {
    /// The bound accessor that reads `sensor`.
    pub fn accessor(&self, sensor: Sensor) -> (r: &G)
        ensures
            *r == match sensor {
                Sensor::CpuTemp => self@.get_cpu_temp,
                Sensor::GpuTemp => self@.get_gpu_temp,
                Sensor::MotherboardTemp => self@.get_mobo_temp,
                Sensor::StorageTemp => self@.get_storage_temp,
                Sensor::AvgCpuCoreTemp => self@.get_avg_cpu_temp,
                Sensor::MaxCpuCoreTemp => self@.get_max_cpu_temp,
                Sensor::CpuFan => self@.get_cpu_fan_rpm,
                Sensor::GpuFan => self@.get_gpu_fan_rpm,
            },
    {
        match sensor {
            Sensor::CpuTemp => self.cpu_temp(),
            Sensor::GpuTemp => self.gpu_temp(),
            Sensor::MotherboardTemp => self.motherboard_temp(),
            Sensor::StorageTemp => self.storage_temp(),
            Sensor::AvgCpuCoreTemp => self.avg_cpu_core_temp(),
            Sensor::MaxCpuCoreTemp => self.max_cpu_core_temp(),
            Sensor::CpuFan => self.cpu_fan_rpm(),
            Sensor::GpuFan => self.gpu_fan_rpm(),
        }
    }
}

/// The report visits every sensor once: each sensor stands at its own
/// position, the first has no predecessor, and the successor of a sensor is
/// the one at the next position.
pub proof fn lemma_report_order_is_complete()
    ensures
        report_order().len() == 8,
        forall|s: Sensor| #[trigger] report_order()[s.spec_position() as int] == s,
        forall|s: Sensor|
            (#[trigger] s.spec_successor()) == (if s.spec_position() + 1 < 8 {
                Some(report_order()[s.spec_position() as int + 1])
            } else {
                None
            }),
        forall|s: Sensor| (#[trigger] s.spec_entry_point()).spec_signature()
            == crate::entry_point::Signature::Reading,
{
}

} // verus!
