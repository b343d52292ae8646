use hardware_temp::entry_point::{required_entry_points, ENTRY_POINT_COUNT};
use hardware_temp::loader::missing_symbol_message;
use hardware_temp::sensor::Sensor;
use hardware_temp::{EntryPoint, HardwareTemp, LoadError, Resolved, Signature};
use libloading::Error;

type Table = HardwareTemp<&'static str, &'static str, &'static str>;
type Lookups = Resolved<&'static str, &'static str, &'static str>;

const NAMES: [&str; 11] = [
    "InitHardwareTempMonitor",
    "ShutdownHardwareTempMonitor",
    "GetCpuTemperatureTemp",
    "GetGpuTemperatureTemp",
    "GetMotherboardTemperatureTemp",
    "GetStorageTemperatureTemp",
    "GetAverageCpuCoreTemperatureTemp",
    "GetMaxCpuCoreTemperatureTemp",
    "GetCpuFanRpmTemp",
    "GetGpuFanRpmTemp",
    "UpdateHardwareMonitorTemp",
];

fn all_found() -> Lookups {
    Resolved {
        init: Ok("init"),
        shutdown: Ok("shutdown"),
        get_cpu_temp: Ok("cpu"),
        get_gpu_temp: Ok("gpu"),
        get_mobo_temp: Ok("mobo"),
        get_storage_temp: Ok("storage"),
        get_avg_cpu_temp: Ok("avg"),
        get_max_cpu_temp: Ok("max"),
        get_cpu_fan_rpm: Ok("cpu fan"),
        get_gpu_fan_rpm: Ok("gpu fan"),
        update_monitor: Ok("update"),
    }
}

fn without(missing: &[EntryPoint]) -> Lookups {
    let mut lookups = all_found();
    for entry in missing {
        match entry {
            EntryPoint::Init => lookups.init = Err(Error::DlSymUnknown),
            EntryPoint::Shutdown => lookups.shutdown = Err(Error::DlSymUnknown),
            EntryPoint::CpuTemp => lookups.get_cpu_temp = Err(Error::DlSymUnknown),
            EntryPoint::GpuTemp => lookups.get_gpu_temp = Err(Error::DlSymUnknown),
            EntryPoint::MotherboardTemp => lookups.get_mobo_temp = Err(Error::DlSymUnknown),
            EntryPoint::StorageTemp => lookups.get_storage_temp = Err(Error::DlSymUnknown),
            EntryPoint::AvgCpuCoreTemp => lookups.get_avg_cpu_temp = Err(Error::DlSymUnknown),
            EntryPoint::MaxCpuCoreTemp => lookups.get_max_cpu_temp = Err(Error::DlSymUnknown),
            EntryPoint::CpuFanRpm => lookups.get_cpu_fan_rpm = Err(Error::DlSymUnknown),
            EntryPoint::GpuFanRpm => lookups.get_gpu_fan_rpm = Err(Error::DlSymUnknown),
            EntryPoint::Update => lookups.update_monitor = Err(Error::DlSymUnknown),
        }
    }
    lookups
}

#[test]
fn eleven_entry_points_are_required_in_binding_order() {
    let order = required_entry_points();
    assert_eq!(order.len(), ENTRY_POINT_COUNT);
    assert_eq!(order.len(), 11);
    for (i, entry) in order.iter().enumerate() {
        assert_eq!(entry.ordinal(), i);
        assert_eq!(entry.name(), NAMES[i]);
    }
}

#[test]
fn entry_point_names_are_all_different() {
    let order = required_entry_points();
    for a in 0..order.len() {
        for b in 0..order.len() {
            assert_eq!(order[a].name() == order[b].name(), a == b);
        }
    }
}

#[test]
fn entry_points_have_the_signature_of_their_role() {
    assert_eq!(EntryPoint::Init.signature(), Signature::Status);
    assert_eq!(EntryPoint::Shutdown.signature(), Signature::Unit);
    assert_eq!(EntryPoint::Update.signature(), Signature::Unit);
    for entry in [
        EntryPoint::CpuTemp,
        EntryPoint::GpuTemp,
        EntryPoint::MotherboardTemp,
        EntryPoint::StorageTemp,
        EntryPoint::AvgCpuCoreTemp,
        EntryPoint::MaxCpuCoreTemp,
        EntryPoint::CpuFanRpm,
        EntryPoint::GpuFanRpm,
    ] {
        assert_eq!(entry.signature(), Signature::Reading);
    }
}

#[test]
fn a_complete_module_gives_a_table_with_each_entry_in_its_place() {
    let table: Table = HardwareTemp::new(Ok(all_found())).unwrap();
    assert_eq!(*table.init(), "init");
    assert_eq!(*table.shutdown(), "shutdown");
    assert_eq!(*table.update(), "update");
    assert_eq!(*table.cpu_temp(), "cpu");
    assert_eq!(*table.gpu_temp(), "gpu");
    assert_eq!(*table.motherboard_temp(), "mobo");
    assert_eq!(*table.storage_temp(), "storage");
    assert_eq!(*table.avg_cpu_core_temp(), "avg");
    assert_eq!(*table.max_cpu_core_temp(), "max");
    assert_eq!(*table.cpu_fan_rpm(), "cpu fan");
    assert_eq!(*table.gpu_fan_rpm(), "gpu fan");
}

#[test]
fn the_accessor_of_a_sensor_is_the_one_bound_for_it() {
    let table: Table = HardwareTemp::new(Ok(all_found())).unwrap();
    assert_eq!(*table.accessor(Sensor::CpuTemp), "cpu");
    assert_eq!(*table.accessor(Sensor::GpuTemp), "gpu");
    assert_eq!(*table.accessor(Sensor::MotherboardTemp), "mobo");
    assert_eq!(*table.accessor(Sensor::StorageTemp), "storage");
    assert_eq!(*table.accessor(Sensor::AvgCpuCoreTemp), "avg");
    assert_eq!(*table.accessor(Sensor::MaxCpuCoreTemp), "max");
    assert_eq!(*table.accessor(Sensor::CpuFan), "cpu fan");
    assert_eq!(*table.accessor(Sensor::GpuFan), "gpu fan");
}

#[test]
fn a_module_that_does_not_open_gives_no_table() {
    let result: Result<Table, LoadError> = HardwareTemp::new(Err(Error::DlOpenUnknown));
    let error = result.unwrap_err();
    assert!(matches!(error, LoadError::ModuleNotFound { source: Error::DlOpenUnknown }));
    assert_eq!(error.missing_symbol(), None);
    assert_eq!(error.message(), "dlopen failed, but system did not report the error");
}

#[test]
fn each_missing_entry_point_fails_construction_and_is_named() {
    for (i, entry) in required_entry_points().into_iter().enumerate() {
        let result: Result<Table, LoadError> = HardwareTemp::new(Ok(without(&[entry])));
        let error = result.unwrap_err();
        match &error {
            LoadError::SymbolNotFound { entry: named, source } => {
                assert_eq!(*named, entry);
                assert!(matches!(source, Error::DlSymUnknown));
            }
            other => panic!("unexpected error {:?}", other),
        }
        assert_eq!(error.missing_symbol(), Some(NAMES[i]));
        assert_eq!(
            error.message(),
            format!(
                "Failed to find {}: dlsym failed, but system did not report the error",
                NAMES[i]
            )
        );
    }
}

#[test]
fn the_first_missing_entry_point_in_binding_order_is_reported() {
    let lookups = without(&[EntryPoint::Update, EntryPoint::GpuFanRpm, EntryPoint::StorageTemp]);
    let result: Result<Table, LoadError> = HardwareTemp::new(Ok(lookups));
    let error = result.unwrap_err();
    assert!(matches!(
        error,
        LoadError::SymbolNotFound { entry: EntryPoint::StorageTemp, .. }
    ));
    assert_eq!(error.missing_symbol(), Some("GetStorageTemperatureTemp"));
}

#[test]
fn the_error_carries_the_loaders_error_of_the_missing_entry() {
    let mut lookups = all_found();
    lookups.get_cpu_fan_rpm = Err(Error::IncompatibleSize);
    lookups.update_monitor = Err(Error::DlSymUnknown);
    let result: Result<Table, LoadError> = HardwareTemp::new(Ok(lookups));
    let error = result.unwrap_err();
    assert!(matches!(
        error,
        LoadError::SymbolNotFound { entry: EntryPoint::CpuFanRpm, source: Error::IncompatibleSize }
    ));
    assert_eq!(
        error.message(),
        "Failed to find GetCpuFanRpmTemp: requested type cannot possibly work"
    );
}

#[test]
fn nothing_is_bound_when_every_entry_point_is_missing() {
    let lookups = without(&required_entry_points());
    let result: Result<Table, LoadError> = HardwareTemp::new(Ok(lookups));
    assert!(matches!(
        result.unwrap_err(),
        LoadError::SymbolNotFound { entry: EntryPoint::Init, .. }
    ));
}

#[test]
fn the_message_for_a_missing_symbol_names_it_before_the_detail() {
    assert_eq!(
        missing_symbol_message("GetGpuFanRpmTemp", "undefined symbol"),
        "Failed to find GetGpuFanRpmTemp: undefined symbol"
    );
    assert_eq!(missing_symbol_message("", ""), "Failed to find : ");
}
