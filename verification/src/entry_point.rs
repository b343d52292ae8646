//! The entry points that the native module must export.

use vstd::prelude::*;

verus! {

/// Shape of an entry point as seen by the caller. None of them takes arguments.
#[derive(Clone, Copy, Debug, PartialEq, Eq, Structural)]
pub enum Signature {
    /// Returns a 32-bit status code: zero on success, a failure code otherwise.
    Status,
    /// Returns nothing.
    Unit,
    /// Returns a 64-bit floating-point reading, or a sentinel.
    Reading,
}

/// One of the named functions that the native module exports.
///
/// The variants are declared in the order in which they are bound.
#[derive(Clone, Copy, Debug, PartialEq, Eq, Structural)]
pub enum EntryPoint {
    Init,
    Shutdown,
    CpuTemp,
    GpuTemp,
    MotherboardTemp,
    StorageTemp,
    AvgCpuCoreTemp,
    MaxCpuCoreTemp,
    CpuFanRpm,
    GpuFanRpm,
    Update,
}

/// Number of entry points that must resolve for a module to be usable.
pub const ENTRY_POINT_COUNT: usize = 11;

/// The required entry points, in the order in which they are bound.
pub open spec fn binding_order() -> Seq<EntryPoint> {
    seq![
        EntryPoint::Init,
        EntryPoint::Shutdown,
        EntryPoint::CpuTemp,
        EntryPoint::GpuTemp,
        EntryPoint::MotherboardTemp,
        EntryPoint::StorageTemp,
        EntryPoint::AvgCpuCoreTemp,
        EntryPoint::MaxCpuCoreTemp,
        EntryPoint::CpuFanRpm,
        EntryPoint::GpuFanRpm,
        EntryPoint::Update,
    ]
}

impl EntryPoint {
    /// Position of the entry point in the binding order.
    pub open spec fn spec_ordinal(self) -> nat {
        match self {
            EntryPoint::Init => 0,
            EntryPoint::Shutdown => 1,
            EntryPoint::CpuTemp => 2,
            EntryPoint::GpuTemp => 3,
            EntryPoint::MotherboardTemp => 4,
            EntryPoint::StorageTemp => 5,
            EntryPoint::AvgCpuCoreTemp => 6,
            EntryPoint::MaxCpuCoreTemp => 7,
            EntryPoint::CpuFanRpm => 8,
            EntryPoint::GpuFanRpm => 9,
            EntryPoint::Update => 10,
        }
    }

    /// The symbol under which the native module exports the entry point.
    pub open spec fn spec_name(self) -> Seq<char> {
        match self {
            EntryPoint::Init => "InitHardwareTempMonitor"@,
            EntryPoint::Shutdown => "ShutdownHardwareTempMonitor"@,
            EntryPoint::CpuTemp => "GetCpuTemperatureTemp"@,
            EntryPoint::GpuTemp => "GetGpuTemperatureTemp"@,
            EntryPoint::MotherboardTemp => "GetMotherboardTemperatureTemp"@,
            EntryPoint::StorageTemp => "GetStorageTemperatureTemp"@,
            EntryPoint::AvgCpuCoreTemp => "GetAverageCpuCoreTemperatureTemp"@,
            EntryPoint::MaxCpuCoreTemp => "GetMaxCpuCoreTemperatureTemp"@,
            EntryPoint::CpuFanRpm => "GetCpuFanRpmTemp"@,
            EntryPoint::GpuFanRpm => "GetGpuFanRpmTemp"@,
            EntryPoint::Update => "UpdateHardwareMonitorTemp"@,
        }
    }

    /// The shape that the entry point has.
    pub open spec fn spec_signature(self) -> Signature {
        match self {
            EntryPoint::Init => Signature::Status,
            EntryPoint::Shutdown | EntryPoint::Update => Signature::Unit,
            _ => Signature::Reading,
        }
    }

    /// Position of the entry point in the binding order.
    pub fn ordinal(&self) -> (r: usize)
        ensures
            r == self.spec_ordinal(),
            r < ENTRY_POINT_COUNT,
            binding_order()[r as int] == *self,
    {
        match self {
            EntryPoint::Init => 0,
            EntryPoint::Shutdown => 1,
            EntryPoint::CpuTemp => 2,
            EntryPoint::GpuTemp => 3,
            EntryPoint::MotherboardTemp => 4,
            EntryPoint::StorageTemp => 5,
            EntryPoint::AvgCpuCoreTemp => 6,
            EntryPoint::MaxCpuCoreTemp => 7,
            EntryPoint::CpuFanRpm => 8,
            EntryPoint::GpuFanRpm => 9,
            EntryPoint::Update => 10,
        }
    }

    /// The symbol under which the native module exports the entry point.
    pub fn name(&self) -> (r: &'static str)
        ensures
            r@ == self.spec_name(),
    {
        match self {
            EntryPoint::Init => "InitHardwareTempMonitor",
            EntryPoint::Shutdown => "ShutdownHardwareTempMonitor",
            EntryPoint::CpuTemp => "GetCpuTemperatureTemp",
            EntryPoint::GpuTemp => "GetGpuTemperatureTemp",
            EntryPoint::MotherboardTemp => "GetMotherboardTemperatureTemp",
            EntryPoint::StorageTemp => "GetStorageTemperatureTemp",
            EntryPoint::AvgCpuCoreTemp => "GetAverageCpuCoreTemperatureTemp",
            EntryPoint::MaxCpuCoreTemp => "GetMaxCpuCoreTemperatureTemp",
            EntryPoint::CpuFanRpm => "GetCpuFanRpmTemp",
            EntryPoint::GpuFanRpm => "GetGpuFanRpmTemp",
            EntryPoint::Update => "UpdateHardwareMonitorTemp",
        }
    }

    /// The shape that the entry point has.
    pub fn signature(&self) -> (r: Signature)
        ensures
            r == self.spec_signature(),
    {
        match self {
            EntryPoint::Init => Signature::Status,
            EntryPoint::Shutdown | EntryPoint::Update => Signature::Unit,
            _ => Signature::Reading,
        }
    }
}

/// The required entry points, in the order in which they are bound.
pub fn required_entry_points() -> (r: Vec<EntryPoint>)
    ensures
        r@ == binding_order(),
{
    let r = vec![
        EntryPoint::Init,
        EntryPoint::Shutdown,
        EntryPoint::CpuTemp,
        EntryPoint::GpuTemp,
        EntryPoint::MotherboardTemp,
        EntryPoint::StorageTemp,
        EntryPoint::AvgCpuCoreTemp,
        EntryPoint::MaxCpuCoreTemp,
        EntryPoint::CpuFanRpm,
        EntryPoint::GpuFanRpm,
        EntryPoint::Update,
    ];
    assert(r@ =~= binding_order());
    r
}

/// The binding order lists every entry point exactly once: each stands at its
/// own ordinal, and each position holds the entry point with that ordinal.
pub proof fn lemma_binding_order_is_complete()
    ensures
        binding_order().len() == ENTRY_POINT_COUNT,
        forall|e: EntryPoint| #[trigger]
            binding_order()[e.spec_ordinal() as int] == e,
        forall|i: int|
            0 <= i < binding_order().len() ==> (#[trigger] binding_order()[i]).spec_ordinal() == i,
{
}

/// No two entry points share a symbol: the name of a missing symbol tells
/// which entry point is missing.
pub proof fn lemma_names_identify_entry_points(a: EntryPoint, b: EntryPoint)
    requires
        a.spec_name() == b.spec_name(),
    ensures
        a == b,
{
    reveal_strlit("InitHardwareTempMonitor");
    reveal_strlit("ShutdownHardwareTempMonitor");
    reveal_strlit("GetCpuTemperatureTemp");
    reveal_strlit("GetGpuTemperatureTemp");
    reveal_strlit("GetMotherboardTemperatureTemp");
    reveal_strlit("GetStorageTemperatureTemp");
    reveal_strlit("GetAverageCpuCoreTemperatureTemp");
    reveal_strlit("GetMaxCpuCoreTemperatureTemp");
    reveal_strlit("GetCpuFanRpmTemp");
    reveal_strlit("GetGpuFanRpmTemp");
    reveal_strlit("UpdateHardwareMonitorTemp");
    let name = a.spec_name();
    assert(name.len() == b.spec_name().len());
    assert(name[0] == b.spec_name()[0]);
    assert(name[3] == b.spec_name()[3]);
}

} // verus!
