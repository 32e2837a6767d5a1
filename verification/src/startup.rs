//! Start-up: finding the device, the first reads, and the hand-over to the
//! background worker.

use crate::device::{all_perf_modes, perf_mode_universe, FanMode, PerfMode};
use crate::link::{got, told, Link, Op, Wire};
use crate::messaging::MessageManager;
use crate::reads::{fan_status, get_fan_status_from_mode};
use crate::specs::SystemSpecs;
use crate::state::{Core, Model, Scheduler};
use crate::text::{failure, failure_text, lines};
use vstd::prelude::*;
use vstd::string::*;

verus! {

/// Text of the diagnostic for a read that failed.
pub open spec fn read_failed_text(operation_name: Seq<char>, cause: Seq<char>) -> Seq<char> {
    "Failed to read "@ + operation_name + ": "@ + cause
}

/// The diagnostics with that of one more read: unchanged where the read
/// succeeded, one longer where it failed.
pub open spec fn logged<T>(
    log: Seq<Seq<char>>,
    outcome: Result<T, Seq<char>>,
    operation_name: Seq<char>,
) -> Seq<Seq<char>> {
    match outcome {
        Ok(_) => log,
        Err(e) => log.push(read_failed_text(operation_name, e)),
    }
}

/// Collects the diagnostics of a batch of reads, so that one read that fails
/// does not end the batch.
#[derive(Debug)]
pub struct DeviceStateReader {
    errors: Vec<String>,
}

impl View for DeviceStateReader {
    type V = Seq<Seq<char>>;

    closed spec fn view(&self) -> Seq<Seq<char>> {
        self.errors@.map_values(|e: String| e@)
    }
}

impl DeviceStateReader {
    /// A reader without diagnostics.
    pub fn new() -> (reader: Self)
        ensures
            reader@ == Seq::<Seq<char>>::empty(),
    {
        let reader = DeviceStateReader { errors: Vec::new() };
        assert(reader@ =~= Seq::<Seq<char>>::empty());
        reader
    }

    /// Takes the outcome of one read: the value if there is one; otherwise
    /// nothing, and a diagnostic with the operation's name and the cause.
    pub fn read<T>(&mut self, outcome: Result<T, String>, operation_name: &str) -> (value: Option<T>)
        ensures
            value == got(told(outcome)),
            final(self)@ == logged(old(self)@, told(outcome), operation_name@),
    {
        match outcome {
            Ok(value) => Some(value),
            Err(e) => {
                let mut text = String::from_str("Failed to read ");
                text.append(operation_name);
                text.append(": ");
                text.append(e.as_str());
                self.errors.push(text);
                assert(self@ =~= old(self)@.push(read_failed_text(operation_name@, e@)));
                None
            },
        }
    }

    /// The diagnostics collected, in the order of the reads.
    pub fn finish(self) -> (errors: Vec<String>)
        ensures
            lines(errors@) == self@,
    {
        self.errors
    }
}

/// One read of a batch: its name, and the cause if it failed.
pub struct Attempt {
    pub operation_name: Seq<char>,
    pub failure: Option<Seq<char>>,
}

/// The diagnostics that a reader holds after a batch of reads.
pub open spec fn diagnostics(batch: Seq<Attempt>) -> Seq<Seq<char>>
    decreases batch.len(),
{
    if batch.len() == 0 {
        Seq::empty()
    } else {
        let before = diagnostics(batch.drop_last());
        match batch.last().failure {
            Some(e) => before.push(read_failed_text(batch.last().operation_name, e)),
            None => before,
        }
    }
}

/// Number of reads of a batch that failed.
pub open spec fn failures(batch: Seq<Attempt>) -> nat
    decreases batch.len(),
{
    if batch.len() == 0 {
        0
    } else {
        failures(batch.drop_last()) + if batch.last().failure.is_some() {
            1nat
        } else {
            0nat
        }
    }
}

/// A batch of reads of which some fail leaves exactly one diagnostic for each
/// failure, and none for a read that succeeded.
pub proof fn one_diagnostic_per_failure(batch: Seq<Attempt>)
    ensures
        diagnostics(batch).len() == failures(batch),
        failures(batch) <= batch.len(),
    decreases batch.len(),
{
    if batch.len() > 0 {
        one_diagnostic_per_failure(batch.drop_last());
    }
}

/// One more read extends the diagnostics of a batch as `logged` says.
pub proof fn diagnostics_grow_by_read<T>(
    batch: Seq<Attempt>,
    outcome: Result<T, Seq<char>>,
    operation_name: Seq<char>,
)
    ensures
        logged(diagnostics(batch), outcome, operation_name) == diagnostics(
            batch.push(
                Attempt {
                    operation_name,
                    failure: match outcome {
                        Ok(_) => None,
                        Err(e) => Some(e),
                    },
                },
            ),
        ),
{
    let attempt = Attempt {
        operation_name,
        failure: match outcome {
            Ok(_) => None,
            Err(e) => Some(e),
        },
    };
    assert(batch.push(attempt).drop_last() =~= batch);
}

/// Text of the error shown where no device is found.
pub open spec fn connect_failed_text(cause: Seq<char>) -> Seq<char> {
    failure_text("Failed to connect to Razer device"@, cause)
}

/// Text that announces the start.
pub open spec fn initializing_text() -> Seq<char> {
    "Initializing..."@
}

impl Core {
    /// The state after the device was found; `lists_modes` tells whether its
    /// descriptor lists the supported performance modes.
    pub open spec fn attached(self, lists_modes: bool) -> Core {
        Core { device_present: true, descriptor_lists_modes: lists_modes, ..self }
    }

    pub(crate) fn attach(&mut self, lists_modes: bool)
        ensures
            *final(self) == old(self).attached(lists_modes),
    {
        self.device_present = true;
        self.descriptor_lists_modes = lists_modes;
    }

    /// The state after loading has ended.
    pub open spec fn loaded(self) -> Core {
        Core { loading: false, ..self }
    }

    pub(crate) fn finish_loading(&mut self)
        ensures
            *final(self) == old(self).loaded(),
    {
        self.loading = false;
    }

    /// What start-up does with the modes it read, if it read them: they are
    /// shown with the fan state that goes with them; and if the fan mode is
    /// still unknown after that, the modes are read once more for it.
    #[verifier::opaque]
    pub open spec fn modes_seen(self, modes: Option<(PerfMode, FanMode)>, w: Wire) -> (Core, Wire) {
        let seen = match modes {
            Some(pair) => {
                let fan = fan_status(w, pair.1);
                (self.with_mode(pair.0).with_fan(pair.1, fan.1, true), fan.0)
            },
            None => (self, w),
        };
        if seen.0.status.fan_speed.is_none() {
            seen.0.fan_retried(seen.1)
        } else {
            seen
        }
    }

    /// What `read_initial_device_state` does to the state and the link: four
    /// reads whose failures are collected, each of which updates its fields
    /// only if it succeeds, and one more read of the modes if the fan mode is
    /// still unknown after them.
    #[verifier::opaque]
    pub open spec fn initial_state_read(self, w: Wire) -> (Core, Wire, Seq<Seq<char>>) {
        if !self.device_present {
            (self, w, Seq::empty())
        } else {
            let w1 = w.after(Op::GetKeyboardBrightness);
            let c1 = self.with_brightness(w.brightness());
            let log1 = logged(Seq::empty(), w.brightness(), "keyboard brightness"@);
            let log2 = logged(log1, w1.modes(), "performance mode"@);
            let seen = c1.modes_seen(got(w1.modes()), w1.after(Op::GetPerfMode));
            let w5 = seen.1.after(Op::GetLightsAlwaysOn);
            let log3 = logged(log2, seen.1.lights(), "lights always on"@);
            let log4 = logged(log3, w5.care(), "battery care"@);
            (
                seen.0.with_lights(seen.1.lights()).with_care(w5.care()),
                w5.after(Op::GetBatteryCare),
                log4,
            )
        }
    }

    /// The second try for the fan mode: the modes are read again, and a
    /// success shows the fan state.
    pub open spec fn fan_retried(self, w: Wire) -> (Core, Wire) {
        let w1 = w.after(Op::GetPerfMode);
        match w.modes() {
            Ok(modes) => {
                let fan = fan_status(w1, modes.1);
                (self.with_fan(modes.1, fan.1, true), fan.0)
            },
            Err(_) => (self, w1),
        }
    }

    fn retry_fan(&mut self, link: &mut Link)
        ensures
            (*final(self), final(link)@) == old(self).fan_retried(old(link)@),
    {
        if let Ok((_, fan_mode)) = link.get_perf_mode() {
            let fan_rpm = get_fan_status_from_mode(fan_mode, link);
            self.take_fan(fan_mode, fan_rpm, true);
        }
    }

    fn see_modes(&mut self, modes: Option<(PerfMode, FanMode)>, link: &mut Link)
        ensures
            (*final(self), final(link)@) == old(self).modes_seen(modes, old(link)@),
    {
        reveal(Core::modes_seen);
        if let Some((perf_mode, fan_mode)) = modes {
            self.take_mode(perf_mode);
            let fan_rpm = get_fan_status_from_mode(fan_mode, link);
            self.take_fan(fan_mode, fan_rpm, true);
        }
        if self.status.fan_speed.is_none() {
            self.retry_fan(link);
        }
    }

    /// Reads what the interface shows first. Reads that fail leave their
    /// fields as they are; their diagnostics are returned.
    pub fn read_initial_device_state(&mut self, link: &mut Link) -> (errors: Vec<String>)
        ensures
            (*final(self), final(link)@, lines(errors@)) == old(self).initial_state_read(
                old(link)@,
            ),
    {
        reveal(Core::initial_state_read);
        let mut reader = DeviceStateReader::new();
        if self.device_present {
            let brightness = link.get_keyboard_brightness();
            self.take_brightness(
                match reader.read(brightness, "keyboard brightness") {
                    Some(level) => Ok(level),
                    None => Err(String::new()),
                },
            );
            let modes = link.get_perf_mode();
            let seen = reader.read(modes, "performance mode");
            self.see_modes(seen, link);
            let lights = link.get_lights_always_on();
            self.take_lights(
                match reader.read(lights, "lights always on") {
                    Some(flag) => Ok(flag),
                    None => Err(String::new()),
                },
            );
            let care = link.get_battery_care();
            self.take_care(
                match reader.read(care, "battery care") {
                    Some(flag) => Ok(flag),
                    None => Err(String::new()),
                },
            );
        }
        reader.finish()
    }
}

/// Showing the modes at start-up touches the fan fields and the mode label
/// only: the label is that of the mode read, or stays if none was read.
pub proof fn modes_seen_touches_fan_and_label(
    c: Core,
    modes: Option<(PerfMode, FanMode)>,
    w: Wire,
)
    ensures
        c.modes_seen(modes, w).0.status.keyboard_brightness == c.status.keyboard_brightness,
        c.modes_seen(modes, w).0.status.lights_always_on == c.status.lights_always_on,
        c.modes_seen(modes, w).0.status.battery_care == c.status.battery_care,
        c.modes_seen(modes, w).0.device_present == c.device_present,
        c.modes_seen(modes, w).0.status.performance_mode == match modes {
            Some(pair) => Some(pair.0),
            None => c.status.performance_mode,
        },
{
    reveal(Core::modes_seen);
}

/// The performance modes to offer: the descriptor's list where it has one,
/// every mode otherwise.
pub open spec fn offered_modes(listed: Option<Vec<PerfMode>>) -> Seq<PerfMode> {
    match listed {
        Some(list) => list@,
        None => perf_mode_universe(),
    }
}

/// A copy of a list of modes.
pub fn copy_modes(list: &Vec<PerfMode>) -> (copy: Vec<PerfMode>)
    ensures
        copy@ == list@,
{
    let mut copy: Vec<PerfMode> = Vec::new();
    let mut i: usize = 0;
    while i < list.len()
        invariant
            0 <= i <= list.len(),
            copy@ == list@.take(i as int),
        decreases list.len() - i,
    {
        copy.push(list[i]);
        i = i + 1;
        assert(copy@ =~= list@.take(i as int));
    }
    assert(list@.take(list.len() as int) =~= list@);
    copy
}

impl Model {
    /// What `init_device` does: a device that is found is remembered with
    /// its name; one that is not is told as an error. Then the modes on offer
    /// are set.
    #[verifier::opaque]
    pub open spec fn device_initialized(self, w: Wire, now: u64) -> (Model, Wire) {
        (
            match w.device() {
                Ok(info) => Model {
                    core: self.core.attached(info.perf_modes.is_some()),
                    device_name: Some(info.name),
                    modes: offered_modes(info.perf_modes),
                    ..self
                },
                Err(e) => Model {
                    modes: perf_mode_universe(),
                    ..self.alarmed(connect_failed_text(e), now)
                },
            },
            w.after(Op::Detect),
        )
    }

    /// What start-up does: the device is looked for, the first reads are
    /// made, loading ends and the start is announced.
    #[verifier::opaque]
    pub open spec fn started(self, w: Wire, now: u64) -> (Model, Wire, Seq<Seq<char>>) {
        let found = self.device_initialized(w, now);
        let read = found.0.core.initial_state_read(found.1);
        (found.0.with_core(read.0.loaded()).noted(initializing_text(), now), read.1, read.2)
    }
}

impl Scheduler {
    /// A scheduler that has seen nothing yet, at clock reading `now`.
    pub fn new(now: u64) -> (s: Self)
        ensures
            s@.core == Core::initial(now),
            s@.board == crate::messaging::Board::empty(),
            s@.modes == Seq::<PerfMode>::empty(),
            s@.device_name.is_none(),
            s@.specs.device_model@ == crate::specs::unknown(),
            s@.specs.cpu_model@ == crate::specs::unknown(),
            lines(s@.specs.gpu_models@) == seq![crate::specs::unknown()],
            s@.specs.total_ram_gb == 0,
    {
        Scheduler {
            core: Core::new(now),
            message_manager: MessageManager::new(),
            system_specs: SystemSpecs::default(),
            available_performance_modes: Vec::new(),
            device_name: None,
        }
    }

    /// Sets the performance modes on offer from the descriptor of the device.
    pub fn detect_available_performance_modes(&mut self, listed: &Option<Vec<PerfMode>>)
        ensures
            final(self)@ == (Model { modes: offered_modes(*listed), ..old(self)@ }),
    {
        match listed {
            Some(list) => {
                self.available_performance_modes = copy_modes(list);
            },
            None => {
                self.available_performance_modes = all_perf_modes();
            },
        }
    }

    /// Looks for the device and sets the modes on offer.
    pub fn init_device(&mut self, link: &mut Link, now: u64)
        ensures
            (final(self)@, final(link)@) == old(self)@.device_initialized(old(link)@, now),
    {
        reveal(Model::device_initialized);
        match link.detect() {
            Ok(info) => {
                self.core.attach(info.perf_modes.is_some());
                self.device_name = Some(info.name.clone());
                self.detect_available_performance_modes(&info.perf_modes);
            },
            Err(e) => {
                self.set_error_message(failure("Failed to connect to Razer device", e.as_str()), now);
                self.detect_available_performance_modes(&None);
            },
        }
    }

    /// Ends the loading state and announces the start. The host starts the
    /// background worker after this.
    pub fn start_background_initialization(&mut self, now: u64)
        ensures
            final(self)@ == old(self)@.with_core(old(self).core.loaded()).noted(
                initializing_text(),
                now,
            ),
    {
        self.core.finish_loading();
        self.set_status_message(String::from_str("Initializing..."), now);
    }

    /// Start-up in one piece; returns the diagnostics of the first reads.
    pub fn startup(&mut self, link: &mut Link, now: u64) -> (errors: Vec<String>)
        ensures
            (final(self)@, final(link)@, lines(errors@)) == old(self)@.started(old(link)@, now),
    {
        reveal(Model::started);
        self.init_device(link, now);
        let errors = self.core.read_initial_device_state(link);
        self.start_background_initialization(now);
        errors
    }
}

/// The outcomes of the four reads of start-up whose failures are collected:
/// brightness, modes, lights-always-on, battery care.
pub struct FirstReads {
    pub brightness: Result<u8, Seq<char>>,
    pub modes: Result<(PerfMode, FanMode), Seq<char>>,
    pub lights: Result<crate::device::LightsAlwaysOn, Seq<char>>,
    pub care: Result<crate::device::BatteryCare, Seq<char>>,
}

/// The cause of a failure, if the outcome is one.
pub open spec fn cause<T>(outcome: Result<T, Seq<char>>) -> Option<Seq<char>> {
    match outcome {
        Ok(_) => None,
        Err(e) => Some(e),
    }
}

impl FirstReads {
    /// The four reads as a batch, with their names.
    pub open spec fn batch(self) -> Seq<Attempt> {
        seq![
            Attempt { operation_name: "keyboard brightness"@, failure: cause(self.brightness) },
            Attempt { operation_name: "performance mode"@, failure: cause(self.modes) },
            Attempt { operation_name: "lights always on"@, failure: cause(self.lights) },
            Attempt { operation_name: "battery care"@, failure: cause(self.care) },
        ]
    }
}

/// Of the four reads of start-up, those that fail leave the default in
/// their field of the status and one diagnostic each; those that succeed put
/// the device's value there and leave no diagnostic.
pub proof fn first_reads_keep_defaults_for_failures(c: Core, w: Wire) -> (reads: FirstReads)
    requires
        c.device_present,
    ensures
        c.initial_state_read(w).2 == diagnostics(reads.batch()),
        c.initial_state_read(w).2.len() == failures(reads.batch()),
        reads.brightness == w.brightness(),
        reads.modes == w.after(Op::GetKeyboardBrightness).modes(),
        c.initial_state_read(w).0.status.keyboard_brightness == match reads.brightness {
            Ok(level) => level,
            Err(_) => c.status.keyboard_brightness,
        },
        c.initial_state_read(w).0.status.performance_mode == match reads.modes {
            Ok(modes) => Some(modes.0),
            Err(_) => c.status.performance_mode,
        },
        c.initial_state_read(w).0.status.lights_always_on == match reads.lights {
            Ok(flag) => flag == crate::device::LightsAlwaysOn::Enable,
            Err(_) => c.status.lights_always_on,
        },
        c.initial_state_read(w).0.status.battery_care == match reads.care {
            Ok(flag) => flag == crate::device::BatteryCare::Enable,
            Err(_) => c.status.battery_care,
        },
{
    reveal(Core::initial_state_read);
    let w1 = w.after(Op::GetKeyboardBrightness);
    let c1 = c.with_brightness(w.brightness());
    let seen = c1.modes_seen(got(w1.modes()), w1.after(Op::GetPerfMode));
    modes_seen_touches_fan_and_label(c1, got(w1.modes()), w1.after(Op::GetPerfMode));
    let w5 = seen.1.after(Op::GetLightsAlwaysOn);
    let reads = FirstReads {
        brightness: w.brightness(),
        modes: w1.modes(),
        lights: seen.1.lights(),
        care: w5.care(),
    };
    let batch = reads.batch();
    let none = Seq::<Attempt>::empty();
    diagnostics_grow_by_read(none, reads.brightness, "keyboard brightness"@);
    diagnostics_grow_by_read(none.push(batch[0]), reads.modes, "performance mode"@);
    diagnostics_grow_by_read(
        none.push(batch[0]).push(batch[1]),
        reads.lights,
        "lights always on"@,
    );
    diagnostics_grow_by_read(
        none.push(batch[0]).push(batch[1]).push(batch[2]),
        reads.care,
        "battery care"@,
    );
    assert(none.push(batch[0]).push(batch[1]).push(batch[2]).push(batch[3]) =~= batch);
    assert(diagnostics(none) =~= Seq::<Seq<char>>::empty());
    one_diagnostic_per_failure(batch);
    reads
}

} // verus!
