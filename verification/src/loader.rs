//! Construction of the entry-point table from the outcome of loading.
//!
//! Opening the module and looking up its symbols are foreign calls that the
//! caller makes. What they returned is handed to [`HardwareTemp::new`], which
//! decides whether a table is built: either every required entry point is
//! bound, or construction fails and names the first one that is missing.

use vstd::prelude::*;
use vstd::string::*;
use crate::entry_point::EntryPoint;

verus! {

/// The error type of the dynamic loader, `libloading::Error`. A value of it
/// is carried as it came: its contents are not inspected here.
#[verifier::external_type_specification]
#[verifier::external_body]
pub struct ExLoaderError(libloading::Error);

/// Why no entry-point table could be built.
#[derive(Debug)]
pub enum LoadError {
    /// The module could not be opened: the file is absent, or the loader
    /// rejected it.
    ModuleNotFound { source: libloading::Error },
    /// The module was opened, but it does not export `entry`.
    SymbolNotFound { entry: EntryPoint, source: libloading::Error },
}

/// Writes out the loader's description of an error, by the `Display` impl of
/// `libloading::Error`. The text comes from the loader and from the platform:
/// nothing is claimed of it.
#[verifier::external_body]
fn describe(error: &libloading::Error) -> (text: String) {
    error.to_string()
}

/// The message for a symbol `name` that the module does not export, where
/// `detail` is the loader's description of the failure.
pub open spec fn missing_symbol_text(name: Seq<char>, detail: Seq<char>) -> Seq<char> {
    "Failed to find "@ + name + ": "@ + detail
}

/// Builds the message for a symbol `name` that the module does not export,
/// where `detail` is the loader's description of the failure.
pub fn missing_symbol_message(name: &str, detail: &str) -> (r: String)
    ensures
        r@ == missing_symbol_text(name@, detail@),
{
    let mut text = String::from_str("Failed to find ");
    text.append(name);
    text.append(": ");
    text.append(detail);
    text
}

impl LoadError {
    /// The symbol that the module does not export, if that is what went wrong.
    pub fn missing_symbol(&self) -> (r: Option<&'static str>)
        ensures
            match *self {
                LoadError::ModuleNotFound { .. } => r is None,
                LoadError::SymbolNotFound { entry, .. } => r is Some && r->Some_0@
                    == entry.spec_name(),
            },
    {
        match self {
            LoadError::ModuleNotFound { .. } => None,
            LoadError::SymbolNotFound { entry, .. } => Some(entry.name()),
        }
    }

    /// A description of the error for the operator.
    ///
    /// For a missing symbol it names the symbol and then gives the loader's
    /// description. For a module that could not be opened it is the loader's
    /// description alone.
    pub fn message(&self) -> (r: String)
        ensures
            self is SymbolNotFound ==> exists|detail: Seq<char>|
                r@ == #[trigger] missing_symbol_text(
                    self->SymbolNotFound_entry.spec_name(),
                    detail,
                ),
    {
        match self {
            LoadError::ModuleNotFound { source } => describe(source),
            LoadError::SymbolNotFound { entry, source } => {
                let detail = describe(source);
                let text = missing_symbol_message(entry.name(), detail.as_str());
                assert(text@ == missing_symbol_text(entry.spec_name(), detail@));
                text
            },
        }
    }
}

/// What the lookup of each required symbol returned, by role.
///
/// `I` is the type of a bound status-returning entry point, `U` that of one
/// returning nothing, and `G` that of a sensor accessor.
pub struct Resolved<I, U, G> {
    pub init: Result<I, libloading::Error>,
    pub shutdown: Result<U, libloading::Error>,
    pub get_cpu_temp: Result<G, libloading::Error>,
    pub get_gpu_temp: Result<G, libloading::Error>,
    pub get_mobo_temp: Result<G, libloading::Error>,
    pub get_storage_temp: Result<G, libloading::Error>,
    pub get_avg_cpu_temp: Result<G, libloading::Error>,
    pub get_max_cpu_temp: Result<G, libloading::Error>,
    pub get_cpu_fan_rpm: Result<G, libloading::Error>,
    pub get_gpu_fan_rpm: Result<G, libloading::Error>,
    pub update_monitor: Result<U, libloading::Error>,
}

/// The error of a failed lookup, if it failed.
pub open spec fn failure_of<T>(outcome: Result<T, libloading::Error>) -> Option<libloading::Error> {
    match outcome {
        Ok(_) => None,
        Err(e) => Some(e),
    }
}

impl<I, U, G> Resolved<I, U, G> {
    /// The error with which the lookup of `entry` failed, if it failed.
    pub open spec fn failure(self, entry: EntryPoint) -> Option<libloading::Error> {
        match entry {
            EntryPoint::Init => failure_of(self.init),
            EntryPoint::Shutdown => failure_of(self.shutdown),
            EntryPoint::CpuTemp => failure_of(self.get_cpu_temp),
            EntryPoint::GpuTemp => failure_of(self.get_gpu_temp),
            EntryPoint::MotherboardTemp => failure_of(self.get_mobo_temp),
            EntryPoint::StorageTemp => failure_of(self.get_storage_temp),
            EntryPoint::AvgCpuCoreTemp => failure_of(self.get_avg_cpu_temp),
            EntryPoint::MaxCpuCoreTemp => failure_of(self.get_max_cpu_temp),
            EntryPoint::CpuFanRpm => failure_of(self.get_cpu_fan_rpm),
            EntryPoint::GpuFanRpm => failure_of(self.get_gpu_fan_rpm),
            EntryPoint::Update => failure_of(self.update_monitor),
        }
    }

    /// Every required symbol was found.
    pub open spec fn complete(self) -> bool {
        forall|entry: EntryPoint| (#[trigger] self.failure(entry)) is None
    }

    /// `entry` is missing, and every entry point bound before it was found.
    pub open spec fn first_missing(self, entry: EntryPoint) -> bool {
        &&& self.failure(entry) is Some
        &&& forall|earlier: EntryPoint|
            earlier.spec_ordinal() < entry.spec_ordinal() ==> (#[trigger] self.failure(earlier)) is None
    }

    /// The table that holds what each lookup found. Meaningful when `complete`.
    pub open spec fn table(self) -> EntryTable<I, U, G> {
        EntryTable {
            init: self.init->Ok_0,
            shutdown: self.shutdown->Ok_0,
            get_cpu_temp: self.get_cpu_temp->Ok_0,
            get_gpu_temp: self.get_gpu_temp->Ok_0,
            get_mobo_temp: self.get_mobo_temp->Ok_0,
            get_storage_temp: self.get_storage_temp->Ok_0,
            get_avg_cpu_temp: self.get_avg_cpu_temp->Ok_0,
            get_max_cpu_temp: self.get_max_cpu_temp->Ok_0,
            get_cpu_fan_rpm: self.get_cpu_fan_rpm->Ok_0,
            get_gpu_fan_rpm: self.get_gpu_fan_rpm->Ok_0,
            update_monitor: self.update_monitor->Ok_0,
        }
    }
}

/// The contents of a fully bound table: one callable for each entry point.
pub ghost struct EntryTable<I, U, G> {
    pub init: I,
    pub shutdown: U,
    pub get_cpu_temp: G,
    pub get_gpu_temp: G,
    pub get_mobo_temp: G,
    pub get_storage_temp: G,
    pub get_avg_cpu_temp: G,
    pub get_max_cpu_temp: G,
    pub get_cpu_fan_rpm: G,
    pub get_gpu_fan_rpm: G,
    pub update_monitor: U,
}

/// A native hardware-monitoring module with all of its entry points bound.
///
/// A value of this type exists only if every required entry point resolved,
/// so each operation below hands out a callable that is known to be bound.
#[derive(Debug)]
pub struct HardwareTemp<I, U, G> {
    init: I,
    shutdown: U,
    get_cpu_temp: G,
    get_gpu_temp: G,
    get_mobo_temp: G,
    get_storage_temp: G,
    get_avg_cpu_temp: G,
    get_max_cpu_temp: G,
    get_cpu_fan_rpm: G,
    get_gpu_fan_rpm: G,
    update_monitor: U,
}

impl<I, U, G> View for HardwareTemp<I, U, G> {
    type V = EntryTable<I, U, G>;

    closed spec fn view(&self) -> EntryTable<I, U, G> {
        EntryTable {
            init: self.init,
            shutdown: self.shutdown,
            get_cpu_temp: self.get_cpu_temp,
            get_gpu_temp: self.get_gpu_temp,
            get_mobo_temp: self.get_mobo_temp,
            get_storage_temp: self.get_storage_temp,
            get_avg_cpu_temp: self.get_avg_cpu_temp,
            get_max_cpu_temp: self.get_max_cpu_temp,
            get_cpu_fan_rpm: self.get_cpu_fan_rpm,
            get_gpu_fan_rpm: self.get_gpu_fan_rpm,
            update_monitor: self.update_monitor,
        }
    }
}

impl<I, U, G> HardwareTemp<I, U, G> {
    /// Builds the entry-point table from the outcome of loading the module.
    ///
    /// `opened` is the loader's error if the module could not be opened, and
    /// otherwise what the lookup of each required symbol returned. The table
    /// is built only if every lookup succeeded. Otherwise the error names the
    /// first entry point, in binding order, whose lookup failed, and carries
    /// the loader's error for it.
    pub fn new(opened: Result<Resolved<I, U, G>, libloading::Error>) -> (r: Result<Self, LoadError>)
        ensures
            r is Ok <==> opened is Ok && opened->Ok_0.complete(),
            r is Ok ==> r->Ok_0@ == opened->Ok_0.table(),
            opened is Err ==> r == Err::<Self, LoadError>(
                LoadError::ModuleNotFound { source: opened->Err_0 },
            ),
            opened is Ok && r is Err ==> {
                &&& r->Err_0 is SymbolNotFound
                &&& opened->Ok_0.first_missing(r->Err_0->SymbolNotFound_entry)
                &&& opened->Ok_0.failure(r->Err_0->SymbolNotFound_entry) == Some(
                    r->Err_0->SymbolNotFound_source,
                )
            },
    {
        let resolved = match opened {
            Ok(resolved) => resolved,
            Err(source) => {
                return Err(LoadError::ModuleNotFound { source });
            },
        };
        let ghost given = resolved;
        let Resolved {
            init,
            shutdown,
            get_cpu_temp,
            get_gpu_temp,
            get_mobo_temp,
            get_storage_temp,
            get_avg_cpu_temp,
            get_max_cpu_temp,
            get_cpu_fan_rpm,
            get_gpu_fan_rpm,
            update_monitor,
        } = resolved;
        let init = match init {
            Ok(bound) => bound,
            Err(source) => {
                return Err(LoadError::SymbolNotFound { entry: EntryPoint::Init, source });
            },
        };
        let shutdown = match shutdown {
            Ok(bound) => bound,
            Err(source) => {
                return Err(LoadError::SymbolNotFound { entry: EntryPoint::Shutdown, source });
            },
        };
        let get_cpu_temp = match get_cpu_temp {
            Ok(bound) => bound,
            Err(source) => {
                return Err(LoadError::SymbolNotFound { entry: EntryPoint::CpuTemp, source });
            },
        };
        let get_gpu_temp = match get_gpu_temp {
            Ok(bound) => bound,
            Err(source) => {
                return Err(LoadError::SymbolNotFound { entry: EntryPoint::GpuTemp, source });
            },
        };
        let get_mobo_temp = match get_mobo_temp {
            Ok(bound) => bound,
            Err(source) => {
                return Err(
                    LoadError::SymbolNotFound { entry: EntryPoint::MotherboardTemp, source },
                );
            },
        };
        let get_storage_temp = match get_storage_temp {
            Ok(bound) => bound,
            Err(source) => {
                return Err(LoadError::SymbolNotFound { entry: EntryPoint::StorageTemp, source });
            },
        };
        let get_avg_cpu_temp = match get_avg_cpu_temp {
            Ok(bound) => bound,
            Err(source) => {
                return Err(
                    LoadError::SymbolNotFound { entry: EntryPoint::AvgCpuCoreTemp, source },
                );
            },
        };
        let get_max_cpu_temp = match get_max_cpu_temp {
            Ok(bound) => bound,
            Err(source) => {
                return Err(
                    LoadError::SymbolNotFound { entry: EntryPoint::MaxCpuCoreTemp, source },
                );
            },
        };
        let get_cpu_fan_rpm = match get_cpu_fan_rpm {
            Ok(bound) => bound,
            Err(source) => {
                return Err(LoadError::SymbolNotFound { entry: EntryPoint::CpuFanRpm, source });
            },
        };
        let get_gpu_fan_rpm = match get_gpu_fan_rpm {
            Ok(bound) => bound,
            Err(source) => {
                return Err(LoadError::SymbolNotFound { entry: EntryPoint::GpuFanRpm, source });
            },
        };
        let update_monitor = match update_monitor {
            Ok(bound) => bound,
            Err(source) => {
                return Err(LoadError::SymbolNotFound { entry: EntryPoint::Update, source });
            },
        };
        Ok(
            HardwareTemp {
                init,
                shutdown,
                get_cpu_temp,
                get_gpu_temp,
                get_mobo_temp,
                get_storage_temp,
                get_avg_cpu_temp,
                get_max_cpu_temp,
                get_cpu_fan_rpm,
                get_gpu_fan_rpm,
                update_monitor,
            },
        )
    }
}

impl<I, U, G> HardwareTemp<I, U, G> {
    /// The entry point that initializes the monitor. It returns a status
    /// code, zero on success, and is to be called once before any read.
    pub fn init(&self) -> (r: &I)
        ensures
            *r == self@.init,
    {
        &self.init
    }

    /// The entry point that releases the monitor's resources.
    pub fn shutdown(&self) -> (r: &U)
        ensures
            *r == self@.shutdown,
    {
        &self.shutdown
    }

    /// The entry point that refreshes all sensor values. It is to be called
    /// before reading, so that the accessors return current data.
    pub fn update(&self) -> (r: &U)
        ensures
            *r == self@.update_monitor,
    {
        &self.update_monitor
    }

    /// The accessor of the processor's temperature.
    pub fn cpu_temp(&self) -> (r: &G)
        ensures
            *r == self@.get_cpu_temp,
    {
        &self.get_cpu_temp
    }

    /// The accessor of the graphics processor's temperature.
    pub fn gpu_temp(&self) -> (r: &G)
        ensures
            *r == self@.get_gpu_temp,
    {
        &self.get_gpu_temp
    }

    /// The accessor of the mainboard's temperature.
    pub fn motherboard_temp(&self) -> (r: &G)
        ensures
            *r == self@.get_mobo_temp,
    {
        &self.get_mobo_temp
    }

    /// The accessor of the storage device's temperature.
    pub fn storage_temp(&self) -> (r: &G)
        ensures
            *r == self@.get_storage_temp,
    {
        &self.get_storage_temp
    }

    /// The accessor of the average temperature of the processor's cores.
    pub fn avg_cpu_core_temp(&self) -> (r: &G)
        ensures
            *r == self@.get_avg_cpu_temp,
    {
        &self.get_avg_cpu_temp
    }

    /// The accessor of the highest temperature among the processor's cores.
    pub fn max_cpu_core_temp(&self) -> (r: &G)
        ensures
            *r == self@.get_max_cpu_temp,
    {
        &self.get_max_cpu_temp
    }

    /// The accessor of the speed of the processor's fan.
    pub fn cpu_fan_rpm(&self) -> (r: &G)
        ensures
            *r == self@.get_cpu_fan_rpm,
    {
        &self.get_cpu_fan_rpm
    }

    /// The accessor of the speed of the graphics processor's fan.
    pub fn gpu_fan_rpm(&self) -> (r: &G)
        ensures
            *r == self@.get_gpu_fan_rpm,
    {
        &self.get_gpu_fan_rpm
    }
}

/// Construction has one outcome for each outcome of loading: when a lookup
/// failed, exactly one entry point is the first that is missing.
pub proof fn lemma_first_missing_is_determined<I, U, G>(
    resolved: Resolved<I, U, G>,
    a: EntryPoint,
    b: EntryPoint,
)
    ensures
        !resolved.complete() <==> exists|entry: EntryPoint| resolved.first_missing(entry),
        resolved.first_missing(a) && resolved.first_missing(b) ==> a == b,
{
    if !resolved.complete() {
        let missing = choose|entry: EntryPoint| (#[trigger] resolved.failure(entry)) is Some;
        lemma_first_missing_exists(resolved, missing);
    }
    if resolved.first_missing(a) && resolved.first_missing(b) {
        assert(!(a.spec_ordinal() < b.spec_ordinal()));
        assert(!(b.spec_ordinal() < a.spec_ordinal()));
    }
}

/// If the lookup of `missing` failed, some entry point is the first missing.
proof fn lemma_first_missing_exists<I, U, G>(resolved: Resolved<I, U, G>, missing: EntryPoint)
    requires
        resolved.failure(missing) is Some,
    ensures
        exists|entry: EntryPoint| resolved.first_missing(entry),
    decreases missing.spec_ordinal(),
{
    if resolved.first_missing(missing) {
    } else {
        let earlier = choose|earlier: EntryPoint|
            earlier.spec_ordinal() < missing.spec_ordinal() && (#[trigger] resolved.failure(
                earlier,
            )) is Some;
        lemma_first_missing_exists(resolved, earlier);
    }
}

} // verus!
