//! The course of one monitoring run, as a state machine.
//!
//! A run checks the companion files, loads the module, initializes the
//! monitor, refreshes the sensor values, reports each sensor in turn and
//! shuts the monitor down. The machine decides what comes next and what is
//! printed; the caller does the work of each phase and hands back what came
//! of it. A failure before the first read ends the run. A sensor that
//! reports an error does not: its line says so, and the run goes on.

use vstd::prelude::*;
use vstd::string::*;
use crate::decimal::{decimal, status_text};
use crate::preflight::{
    absent,
    all_found,
    check_required_dlls,
    missing_report,
    required_dll_names,
    REQUIRED_DLL_COUNT,
};
use crate::reading::{dependency_line, privilege_line, DEPENDENCY_SENTINEL, PRIVILEGE_SENTINEL};
use crate::sensor::{
    lemma_report_order_is_complete,
    report_line,
    report_order,
    sensor_line,
    Sensor,
};

verus! {

/// What is printed once all companion files were found.
pub const FOUND_BANNER: &'static str =
    "All required DLL files found. Initializing hardware monitor...";

/// What is printed once the monitor is initialized.
pub const INITIALIZED_BANNER: &'static str = "Hardware monitor initialized successfully!";

/// The heading of the temperatures.
pub const TEMPERATURE_HEADING: &'static str = "=== Temperature Readings ===";

/// The heading of the fan speeds, set off by an empty line.
pub const FAN_HEADING: &'static str = "\n=== Fan Speed Readings ===";

/// What is printed once the monitor is shut down, set off by an empty line.
pub const SHUTDOWN_BANNER: &'static str = "\nHardware monitor shutdown successfully!";

/// The exit status of a run that ends at the check of the companion files.
pub const PREFLIGHT_FAILURE_STATUS: i32 = 1;

/// The module to load, by its path relative to the executable's directory.
pub const MODULE_PATH: &'static str = "HardwareTemp.dll";

/// Where a run stands: what the caller is to do next.
#[derive(Clone, Copy, Debug, PartialEq, Eq, Structural)]
pub enum Phase {
    /// Probe the executable's directory for the companion files.
    Preflight,
    /// Load the module and bind its entry points.
    Loading,
    /// Call the entry point that initializes the monitor.
    Initializing,
    /// Call the entry point that refreshes the sensor values.
    Refreshing,
    /// Call the accessor of this sensor.
    Reading(Sensor),
    /// Call the entry point that shuts the monitor down.
    ShuttingDown,
    /// The run is complete.
    Finished,
    /// The run was ended by a failure.
    Stopped,
}

/// What the caller is to do with the outcome of a phase.
#[derive(Debug)]
pub enum Progress {
    /// Print the lines to the standard output and go on with the next phase.
    Continue { lines: Vec<String> },
    /// Print the message to the error stream and leave with the status.
    Exit { message: String, status: i32 },
    /// End the run with an unrecoverable fault that carries the message.
    Fault { message: String },
}

/// The contents of a [`Progress`].
pub ghost enum Report {
    Continue { lines: Seq<Seq<char>> },
    Exit { message: Seq<char>, status: i32 },
    Fault { message: Seq<char> },
}

/// The contents of a list of lines.
pub open spec fn texts(lines: Seq<String>) -> Seq<Seq<char>> {
    lines.map_values(|line: String| line@)
}

impl View for Progress {
    type V = Report;

    open spec fn view(&self) -> Report {
        match *self {
            Progress::Continue { lines } => Report::Continue { lines: texts(lines@) },
            Progress::Exit { message, status } => Report::Exit { message: message@, status },
            Progress::Fault { message } => Report::Fault { message: message@ },
        }
    }
}

/// What came of the work of a phase.
#[derive(Debug)]
pub enum Event {
    /// The executable's directory could not be probed; `message` tells why.
    ProbeFailed { message: String },
    /// The executable's directory `exe_dir` was probed: `present[i]` tells
    /// whether the required file `i` exists in it.
    CompanionsChecked { present: [bool; REQUIRED_DLL_COUNT], exe_dir: String },
    /// Loading was tried: `failure` is how the error is written, if the
    /// module could not be opened or an entry point is missing.
    ModuleLoaded { failure: Option<String> },
    /// The initialization entry point returned `status`.
    Initialized { status: i32 },
    /// The sensor values were refreshed.
    Refreshed,
    /// The accessor of the sensor in turn returned the bit pattern `raw`,
    /// which is written as `number`.
    SensorRead { raw: u64, number: String },
    /// The monitor was shut down.
    ShutDown,
}

/// The initialization entry point reported a failure. The code is the
/// native module's own and is not interpreted.
#[derive(Clone, Copy, Debug, PartialEq, Eq, Structural)]
pub struct InitializationFailure {
    pub code: i32,
}

/// The message of the fault that ends a run whose module did not load, where
/// `detail` is how the error is written.
pub open spec fn load_fault_text(detail: Seq<char>) -> Seq<char> {
    "Failed to load DLL: "@ + detail
}

/// The message of the fault that ends a run whose monitor did not initialize.
pub open spec fn init_fault_text(code: i32) -> Seq<char> {
    "Failed to init hardware monitor. Error code: "@ + decimal(code as int)
}

/// The heading that is printed before the line of `sensor`, if it opens a
/// part of the report.
pub open spec fn heading_before(sensor: Sensor) -> Option<Seq<char>> {
    match sensor {
        Sensor::CpuTemp => Some(TEMPERATURE_HEADING@),
        Sensor::CpuFan => Some(FAN_HEADING@),
        _ => None,
    }
}

/// The phase in which `sensor` has been reported.
pub open spec fn phase_after(sensor: Sensor) -> Phase {
    match sensor.spec_successor() {
        Some(next) => Phase::Reading(next),
        None => Phase::ShuttingDown,
    }
}

/// Whether one step of a run can lead from `phase` to `next`.
pub open spec fn can_follow(phase: Phase, next: Phase) -> bool {
    match phase {
        Phase::Preflight => next == Phase::Loading || next == Phase::Stopped,
        Phase::Loading => next == Phase::Initializing || next == Phase::Stopped,
        Phase::Initializing => next == Phase::Refreshing || next == Phase::Stopped,
        Phase::Refreshing => next == Phase::Reading(Sensor::CpuTemp),
        Phase::Reading(sensor) => next == phase_after(sensor),
        Phase::ShuttingDown => next == Phase::Finished,
        Phase::Finished | Phase::Stopped => false,
    }
}

/// How far a run has come: a number that grows with every step.
pub open spec fn rank(phase: Phase) -> nat {
    match phase {
        Phase::Preflight => 0,
        Phase::Loading => 1,
        Phase::Initializing => 2,
        Phase::Refreshing => 3,
        Phase::Reading(sensor) => 4 + sensor.spec_position(),
        Phase::ShuttingDown => 12,
        Phase::Finished => 13,
        Phase::Stopped => 14,
    }
}

/// Where a run stands once the companion files were probed, and what is
/// printed: `present[i]` tells whether the required file `i` was found in
/// the directory `exe_dir`.
pub open spec fn after_preflight(present: Seq<bool>, exe_dir: Seq<char>) -> (Phase, Report) {
    if all_found(present) {
        (Phase::Loading, Report::Continue { lines: seq![FOUND_BANNER@] })
    } else {
        (
            Phase::Stopped,
            Report::Exit {
                message: missing_report(absent(required_dll_names(), present), exe_dir),
                status: PREFLIGHT_FAILURE_STATUS,
            },
        )
    }
}

/// Where a run stands when the executable's directory could not be probed,
/// of which `message` tells the reason.
pub open spec fn after_failed_probe(message: Seq<char>) -> (Phase, Report) {
    (Phase::Stopped, Report::Exit { message, status: PREFLIGHT_FAILURE_STATUS })
}

/// Where a run stands once loading was tried: `failure` is how the error is
/// written, if there was one.
pub open spec fn after_load(failure: Option<Seq<char>>) -> (Phase, Report) {
    match failure {
        None => (Phase::Initializing, Report::Continue { lines: Seq::empty() }),
        Some(detail) => (Phase::Stopped, Report::Fault { message: load_fault_text(detail) }),
    }
}

/// Where a run stands once the initialization entry point returned `status`.
pub open spec fn after_init(status: i32) -> (Phase, Report) {
    if status == 0 {
        (Phase::Refreshing, Report::Continue { lines: seq![INITIALIZED_BANNER@] })
    } else {
        (Phase::Stopped, Report::Fault { message: init_fault_text(status) })
    }
}

/// Where a run stands once the sensor values were refreshed.
pub open spec fn after_update() -> (Phase, Report) {
    (Phase::Reading(Sensor::CpuTemp), Report::Continue { lines: seq![TEMPERATURE_HEADING@] })
}

/// The phase of a run in which nothing failed and `count` sensors have been
/// reported since the values were refreshed.
pub open spec fn phase_after_reads(count: nat) -> Phase {
    if count < report_order().len() {
        Phase::Reading(report_order()[count as int])
    } else {
        Phase::ShuttingDown
    }
}

/// Where a run stands once the accessor of `sensor` returned `raw`, which
/// is written as `number`.
pub open spec fn after_read(sensor: Sensor, raw: u64, number: Seq<char>) -> (Phase, Report) {
    let line = sensor_line(sensor, raw, number);
    let lines = match sensor.spec_successor() {
        Some(next) => match heading_before(next) {
            Some(heading) => seq![line, heading],
            None => seq![line],
        },
        None => seq![line],
    };
    (phase_after(sensor), Report::Continue { lines })
}

/// Where a run stands once the monitor was shut down.
pub open spec fn after_shutdown() -> (Phase, Report) {
    (Phase::Finished, Report::Continue { lines: seq![SHUTDOWN_BANNER@] })
}

/// The contents of a text, if there is one.
pub open spec fn text_of(text: Option<String>) -> Option<Seq<char>> {
    match text {
        Some(text) => Some(text@),
        None => None,
    }
}

impl Event {
    /// Whether the event is what the work of `phase` can come to.
    pub open spec fn answers(self, phase: Phase) -> bool {
        match self {
            Event::ProbeFailed { .. } | Event::CompanionsChecked { .. } => phase
                == Phase::Preflight,
            Event::ModuleLoaded { .. } => phase == Phase::Loading,
            Event::Initialized { .. } => phase == Phase::Initializing,
            Event::Refreshed => phase == Phase::Refreshing,
            Event::SensorRead { .. } => phase is Reading,
            Event::ShutDown => phase == Phase::ShuttingDown,
        }
    }
}

/// Where a run that stood in `phase` stands after `event`, and what is
/// printed. Meaningful when the event answers the phase.
pub open spec fn step(phase: Phase, event: Event) -> (Phase, Report) {
    match event {
        Event::ProbeFailed { message } => after_failed_probe(message@),
        Event::CompanionsChecked { present, exe_dir } => after_preflight(present@, exe_dir@),
        Event::ModuleLoaded { failure } => after_load(text_of(failure)),
        Event::Initialized { status } => after_init(status),
        Event::Refreshed => after_update(),
        Event::SensorRead { raw, number } => after_read(phase->Reading_0, raw, number@),
        Event::ShutDown => after_shutdown(),
    }
}

/// The heading that is printed before the line of `sensor`, if it opens a
/// part of the report.
pub fn heading(sensor: Sensor) -> (r: Option<&'static str>)
    ensures
        match r {
            Some(text) => heading_before(sensor) == Some(text@),
            None => heading_before(sensor) is None,
        },
{
    match sensor {
        Sensor::CpuTemp => Some(TEMPERATURE_HEADING),
        Sensor::CpuFan => Some(FAN_HEADING),
        _ => None,
    }
}

/// Tells a status code of the initialization entry point apart: zero is
/// success, and any other value is a failure that carries the code.
pub fn check_init_status(status: i32) -> (r: Result<(), InitializationFailure>)
    ensures
        r is Ok <==> status == 0,
        r is Err ==> r->Err_0.code == status,
{
    if status == 0 {
        Ok(())
    } else {
        Err(InitializationFailure { code: status })
    }
}

impl InitializationFailure {
    /// The message of the fault that the failure ends the run with.
    pub fn message(&self) -> (r: String)
        ensures
            r@ == init_fault_text(self.code),
    {
        let mut text = String::from_str("Failed to init hardware monitor. Error code: ");
        let code = status_text(self.code);
        text.append(code.as_str());
        text
    }
}

/// One monitoring run.
#[derive(Debug)]
pub struct Session {
    phase: Phase,
}

impl View for Session {
    type V = Phase;

    closed spec fn view(&self) -> Phase {
        self.phase
    }
}

impl Session {
    /// A run of which nothing has been done yet.
    pub fn new() -> (r: Session)
        ensures
            r@ == Phase::Preflight,
    {
        Session { phase: Phase::Preflight }
    }

    /// Where the run stands.
    pub fn phase(&self) -> (r: Phase)
        ensures
            r == self@,
    {
        self.phase
    }

    /// Takes in what came of the work of the current phase.
    ///
    /// An event that answers the phase moves the run on, and the result
    /// tells what to print and whether to go on. Any other event is out of
    /// turn: the run stays where it stands and nothing is returned.
    pub fn advance(&mut self, event: Event) -> (r: Option<Progress>)
        ensures
            event.answers(old(self)@) ==> r is Some && (final(self)@, r->Some_0@) == step(
                old(self)@,
                event,
            ),
            !event.answers(old(self)@) ==> r is None && final(self)@ == old(self)@,
    {
        match (self.phase, event) {
            (Phase::Preflight, Event::ProbeFailed { message }) => Some(self.probe_failed(message)),
            (Phase::Preflight, Event::CompanionsChecked { present, exe_dir }) => Some(
                self.companions_checked(&present, exe_dir.as_str()),
            ),
            (Phase::Loading, Event::ModuleLoaded { failure }) => match failure {
                Some(detail) => Some(self.module_loaded(Some(detail.as_str()))),
                None => Some(self.module_loaded(None)),
            },
            (Phase::Initializing, Event::Initialized { status }) => Some(self.initialized(status)),
            (Phase::Refreshing, Event::Refreshed) => Some(self.refreshed()),
            (Phase::Reading(_), Event::SensorRead { raw, number }) => Some(
                self.sensor_read(raw, number.as_str()),
            ),
            (Phase::ShuttingDown, Event::ShutDown) => Some(self.shut_down()),
            _ => None,
        }
    }

    /// Takes in what the probe of the executable's directory found:
    /// `present[i]` tells whether the required file `i` exists in `exe_dir`.
    ///
    /// If a file is absent, the run ends with status 1 and one message for
    /// the error stream that lists every absent file; the module is not
    /// loaded.
    pub fn companions_checked(
        &mut self,
        present: &[bool; REQUIRED_DLL_COUNT],
        exe_dir: &str,
    ) -> (r: Progress)
        requires
            old(self)@ == Phase::Preflight,
        ensures
            (final(self)@, r@) == after_preflight(present@, exe_dir@),
    {
        match check_required_dlls(present, exe_dir) {
            Ok(()) => {
                self.phase = Phase::Loading;
                let lines = vec![String::from_str(FOUND_BANNER)];
                assert(texts(lines@) =~= seq![FOUND_BANNER@]);
                Progress::Continue { lines }
            },
            Err(message) => {
                self.phase = Phase::Stopped;
                Progress::Exit { message, status: PREFLIGHT_FAILURE_STATUS }
            },
        }
    }

    /// Takes in that the executable's directory could not be probed, of
    /// which `message` tells the reason. The run ends with status 1 and the
    /// message for the error stream.
    pub fn probe_failed(&mut self, message: String) -> (r: Progress)
        requires
            old(self)@ == Phase::Preflight,
        ensures
            (final(self)@, r@) == after_failed_probe(message@),
    {
        self.phase = Phase::Stopped;
        Progress::Exit { message, status: PREFLIGHT_FAILURE_STATUS }
    }

    /// Takes in what came of loading the module: `failure` is how the error
    /// is written, if the module could not be opened or an entry point is
    /// missing. A failure ends the run with a fault.
    pub fn module_loaded(&mut self, failure: Option<&str>) -> (r: Progress)
        requires
            old(self)@ == Phase::Loading,
        ensures
            (final(self)@, r@) == after_load(
                match failure {
                    Some(detail) => Some(detail@),
                    None => None,
                },
            ),
    {
        match failure {
            None => {
                self.phase = Phase::Initializing;
                let lines: Vec<String> = Vec::new();
                assert(texts(lines@) =~= Seq::<Seq<char>>::empty());
                Progress::Continue { lines }
            },
            Some(detail) => {
                self.phase = Phase::Stopped;
                let mut message = String::from_str("Failed to load DLL: ");
                message.append(detail);
                Progress::Fault { message }
            },
        }
    }

    /// Takes in the status code that the initialization entry point
    /// returned. Any code but zero ends the run with a fault whose message
    /// holds the code.
    pub fn initialized(&mut self, status: i32) -> (r: Progress)
        requires
            old(self)@ == Phase::Initializing,
        ensures
            (final(self)@, r@) == after_init(status),
    {
        match check_init_status(status) {
            Ok(()) => {
                self.phase = Phase::Refreshing;
                let lines = vec![String::from_str(INITIALIZED_BANNER)];
                assert(texts(lines@) =~= seq![INITIALIZED_BANNER@]);
                Progress::Continue { lines }
            },
            Err(failure) => {
                self.phase = Phase::Stopped;
                Progress::Fault { message: failure.message() }
            },
        }
    }

    /// Records that the sensor values were refreshed. The report begins.
    pub fn refreshed(&mut self) -> (r: Progress)
        requires
            old(self)@ == Phase::Refreshing,
        ensures
            (final(self)@, r@) == after_update(),
    {
        self.phase = Phase::Reading(Sensor::CpuTemp);
        let lines = vec![String::from_str(TEMPERATURE_HEADING)];
        assert(texts(lines@) =~= seq![TEMPERATURE_HEADING@]);
        Progress::Continue { lines }
    }

    /// Takes in the bit pattern `raw` that the accessor of the sensor in
    /// turn returned, and `number`, which is that value written with the
    /// decimal places of the sensor's quantity. The sensor's line is printed,
    /// whatever the value stands for, and the run goes on with the sensor
    /// that follows, or with the shutdown after the last.
    pub fn sensor_read(&mut self, raw: u64, number: &str) -> (r: Progress)
        requires
            old(self)@ is Reading,
        ensures
            (final(self)@, r@) == after_read(old(self)@->Reading_0, raw, number@),
    {
        let sensor = match self.phase {
            Phase::Reading(sensor) => sensor,
            _ => unreached(),
        };
        let line = report_line(sensor, raw, number);
        let mut lines = vec![line];
        assert(texts(lines@) =~= seq![sensor_line(sensor, raw, number@)]);
        match sensor.successor() {
            Some(next) => {
                self.phase = Phase::Reading(next);
                match heading(next) {
                    Some(text) => {
                        lines.push(String::from_str(text));
                        assert(texts(lines@) =~= seq![sensor_line(sensor, raw, number@), text@]);
                    },
                    None => {},
                }
            },
            None => {
                self.phase = Phase::ShuttingDown;
            },
        }
        Progress::Continue { lines }
    }

    /// Records that the monitor was shut down. The run is complete.
    pub fn shut_down(&mut self) -> (r: Progress)
        requires
            old(self)@ == Phase::ShuttingDown,
        ensures
            (final(self)@, r@) == after_shutdown(),
    {
        self.phase = Phase::Finished;
        let lines = vec![String::from_str(SHUTDOWN_BANNER)];
        assert(texts(lines@) =~= seq![SHUTDOWN_BANNER@]);
        Progress::Continue { lines }
    }
}

/// Every step of a run leads to a phase that can follow the one it began
/// in. A run only moves forward, so it ends after a bounded number of steps,
/// and no step leaves a run that is finished or was stopped.
pub proof fn lemma_steps_follow_the_course(
    present: Seq<bool>,
    exe_dir: Seq<char>,
    failure: Option<Seq<char>>,
    status: i32,
    sensor: Sensor,
    raw: u64,
    number: Seq<char>,
)
    ensures
        can_follow(Phase::Preflight, after_preflight(present, exe_dir).0),
        can_follow(Phase::Preflight, after_failed_probe(exe_dir).0),
        can_follow(Phase::Loading, after_load(failure).0),
        can_follow(Phase::Initializing, after_init(status).0),
        can_follow(Phase::Refreshing, after_update().0),
        can_follow(Phase::Reading(sensor), after_read(sensor, raw, number).0),
        can_follow(Phase::ShuttingDown, after_shutdown().0),
        forall|phase: Phase, next: Phase| #[trigger]
            can_follow(phase, next) ==> rank(phase) < rank(next),
        forall|next: Phase|
            !(#[trigger] can_follow(Phase::Finished, next)) && !(#[trigger] can_follow(
                Phase::Stopped,
                next,
            )),
{
}

/// The module is loaded only when every companion file was found. With one
/// or more files absent the run ends at once, with status 1 and the message
/// that lists the absent files: it is stopped, the phase of loading is not
/// entered, and no step leads on from there.
pub proof fn lemma_preflight_gates_loading(present: Seq<bool>, exe_dir: Seq<char>)
    ensures
        after_preflight(present, exe_dir).0 == Phase::Loading <==> all_found(present),
        !all_found(present) ==> after_preflight(present, exe_dir) == (
            Phase::Stopped,
            Report::Exit {
                message: missing_report(absent(required_dll_names(), present), exe_dir),
                status: 1,
            },
        ),
        forall|phase: Phase| #[trigger]
            can_follow(phase, Phase::Loading) ==> phase == Phase::Preflight,
        forall|next: Phase| !(#[trigger] can_follow(Phase::Stopped, next)),
{
}

/// A sensor that reports an error does not end the run. Whatever its
/// accessor returned, its line is printed and the run goes on as after a
/// measurement; for a sentinel the line is the fixed diagnostic, in which no
/// number appears.
pub proof fn lemma_sensor_errors_do_not_end_the_run(sensor: Sensor, raw: u64, number: Seq<char>)
    ensures
        after_read(sensor, raw, number).0 == phase_after(sensor),
        after_read(sensor, raw, number).0 != Phase::Stopped,
        after_read(sensor, raw, number).1 is Continue,
        after_read(sensor, raw, number).1->Continue_lines[0] == sensor_line(sensor, raw, number),
        raw == PRIVILEGE_SENTINEL ==> sensor_line(sensor, raw, number) == privilege_line(
            sensor.spec_label(),
        ),
        raw == DEPENDENCY_SENTINEL ==> sensor_line(sensor, raw, number) == dependency_line(
            sensor.spec_label(),
        ),
{
}

/// A run in which nothing fails reports the sensors in the order of the
/// report, each once, and then shuts the monitor down.
pub proof fn lemma_reads_follow_the_report_order(count: nat)
    requires
        count < report_order().len(),
    ensures
        after_update().0 == phase_after_reads(0),
        phase_after(report_order()[count as int]) == phase_after_reads(count + 1),
        phase_after_reads(report_order().len()) == Phase::ShuttingDown,
{
    lemma_report_order_is_complete();
    assert(report_order()[count as int].spec_position() == count);
}

} // verus!
