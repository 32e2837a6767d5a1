//! The scheduler's cycle: what the background workers report is taken in,
//! the passes that are due are run, and the notification centre moves on.

use crate::device::{DeviceStatus, PerfMode};
use crate::link::{got, Link, Op, Wire};
use crate::reads::{
    current_fan_state, fan_status, get_fan_rpm_actual, get_fan_status_from_mode,
    read_current_fan_state,
};
use crate::specs::SystemSpecs;
use crate::state::{Core, Model, Scheduler};
use crate::text::{failure, failure_text};
use vstd::prelude::*;
use vstd::string::*;

verus! {

/// Time between two polls while the window is minimized, in milliseconds.
pub const PERF_POLL_INTERVAL_MS: u64 = 2500;

/// Time between two refresh passes, in milliseconds.
pub const AUTO_REFRESH_INTERVAL_MS: u64 = 500;

/// Time between two writes that keep the manual fan speed, in milliseconds.
pub const FAN_ENFORCE_INTERVAL_MS: u64 = 1000;

/// Time between two comparisons with the baseline, in milliseconds.
pub const STATE_CHECK_INTERVAL_MS: u64 = 3000;

/// A milestone of start-up, reported by the background worker.
#[derive(Debug, Clone)]
pub enum InitMessage {
    SystemSpecsComplete(SystemSpecs),
    /// `true` on mains power.
    PowerStateRead(bool),
    InitializationComplete,
}

/// The result of a capability probe.
#[derive(Debug, Clone)]
pub struct ProbeReport {
    /// Number of the probe, as the scheduler gave it out.
    pub generation: u64,
    /// The modes found to be supported; empty if the device could not be
    /// opened.
    pub modes: Vec<PerfMode>,
}

/// What the host hands to a cycle.
#[derive(Debug, Clone)]
pub struct FrameInput {
    /// The milestones that arrived since the last cycle, in order.
    pub init_messages: Vec<InitMessage>,
    /// The probe result that arrived since the last cycle, if any.
    pub probe_report: Option<ProbeReport>,
    pub minimized: bool,
    pub close_requested: bool,
}

/// Milliseconds from `since` to `now`; zero if `now` lies before.
pub open spec fn elapsed(since: u64, now: u64) -> int {
    if now >= since {
        now - since
    } else {
        0
    }
}

/// Whether at least `interval` milliseconds have passed from `since` to `now`.
pub fn due(since: u64, now: u64, interval: u64) -> (b: bool)
    ensures
        b == (elapsed(since, now) >= interval),
{
    now.saturating_sub(since) >= interval
}

/// Text of the error shown where the first full read fails.
pub open spec fn status_read_failed_text(cause: Seq<char>) -> Seq<char> {
    failure_text("Failed to read device status"@, cause)
}

/// Text that announces the end of start-up.
pub open spec fn init_complete_text() -> Seq<char> {
    "Initialization complete"@
}

/// Text that announces the arrival of the inventory.
pub open spec fn specs_loaded_text() -> Seq<char> {
    "System specifications loaded"@
}

/// Text that announces the result of a probe.
pub open spec fn modes_detected_text() -> Seq<char> {
    "Detected supported performance modes"@
}

/// The number that follows `n`; after the largest comes zero.
pub open spec fn next_generation(n: u64) -> u64 {
    if n == u64::MAX {
        0
    } else {
        (n + 1) as u64
    }
}

impl Core {
    /// What `start_probe_perf_modes` does. A probe needs a device; unless it
    /// is forced, it needs a descriptor that does not list the modes; and it
    /// is never started while the device reports the custom mode. A probe
    /// that starts gets the next number.
    #[verifier::opaque]
    pub open spec fn probe_started(self, force: bool, w: Wire) -> (Core, Wire) {
        if !self.device_present {
            (self, w)
        } else if !force && self.descriptor_lists_modes {
            (self, w)
        } else {
            (
                match w.modes() {
                    Ok(modes) => if modes.0 == PerfMode::Custom {
                        self
                    } else {
                        self.probing()
                    },
                    Err(_) => self.probing(),
                },
                w.after(Op::GetPerfMode),
            )
        }
    }

    /// The state that awaits the result of a new probe.
    pub open spec fn probing(self) -> Core {
        Core {
            probe_pending: true,
            probe_requested: true,
            probe_generation: next_generation(self.probe_generation),
            ..self
        }
    }

    /// Asks for a capability probe where one may run.
    pub fn start_probe_perf_modes(&mut self, force: bool, link: &mut Link)
        ensures
            (*final(self), final(link)@) == old(self).probe_started(force, old(link)@),
    {
        reveal(Core::probe_started);
        if !self.device_present {
            return ;
        }
        if !force && self.descriptor_lists_modes {
            return ;
        }
        if let Ok((perf_mode, _)) = link.get_perf_mode() {
            if perf_mode == PerfMode::Custom {
                return ;
            }
        }
        self.probe_pending = true;
        self.probe_requested = true;
        self.probe_generation = if self.probe_generation == u64::MAX {
            0
        } else {
            self.probe_generation + 1
        };
    }

    /// Asks for a probe unless the descriptor lists the modes.
    pub fn maybe_probe_perf_modes_async(&mut self, link: &mut Link)
        ensures
            (*final(self), final(link)@) == old(self).probe_started(false, old(link)@),
    {
        self.start_probe_perf_modes(false, link);
    }

    /// Hands the request for a probe to the host: tells whether a probe is
    /// to be started, and under which number.
    pub fn take_probe_request(&mut self) -> (request: Option<u64>)
        ensures
            request == if old(self).probe_requested {
                Some(old(self).probe_generation)
            } else {
                None
            },
            *final(self) == (Core { probe_requested: false, ..*old(self) }),
    {
        if self.probe_requested {
            self.probe_requested = false;
            Some(self.probe_generation)
        } else {
            None
        }
    }

    /// What the first full read after start-up does, given that the status
    /// read succeeded: baseline, interface state, fan slider, and the probe
    /// if one is needed.
    #[verifier::opaque]
    pub open spec fn first_read_completed(self, w: Wire) -> (Core, Wire) {
        let based = self.baseline_refreshed(w);
        let synced = based.0.ui_synced(based.1);
        let slid = synced.0.fan_slider_set(synced.1);
        slid.0.probe_started(false, slid.1)
    }

    /// What follows the first full read of the status: baseline, interface
    /// state, fan slider, and the probe if one is needed.
    pub fn complete_first_read(&mut self, link: &mut Link)
        ensures
            (*final(self), final(link)@) == old(self).first_read_completed(old(link)@),
    {
        reveal(Core::first_read_completed);
        self.update_stored_device_state(link);
        self.sync_ui_with_device_state(link);
        self.init_fan_slider_from_device(link);
        self.maybe_probe_perf_modes_async(link);
    }

    /// The state after start-up is complete.
    pub open spec fn initialized(self) -> Core {
        Core { fully_initialized: true, ..self }
    }

    pub(crate) fn mark_initialized(&mut self)
        ensures
            *final(self) == old(self).initialized(),
    {
        self.fully_initialized = true;
    }

    /// The state with another power source.
    pub open spec fn with_power(self, ac_power: bool) -> Core {
        Core { ac_power, ..self }
    }

    pub(crate) fn set_power(&mut self, ac_power: bool)
        ensures
            *final(self) == old(self).with_power(ac_power),
    {
        self.ac_power = ac_power;
    }

    /// The state after the power source was reported at start-up.
    pub open spec fn power_known(self, ac_power: bool) -> Core {
        Core { ac_power, init_power_read: true, ..self }
    }

    pub(crate) fn note_power(&mut self, ac_power: bool)
        ensures
            *final(self) == old(self).power_known(ac_power),
    {
        self.ac_power = ac_power;
        self.init_power_read = true;
    }

    /// The state after the inventory was reported.
    pub open spec fn specs_known(self) -> Core {
        Core { init_specs_complete: true, ..self }
    }

    pub(crate) fn note_specs(&mut self)
        ensures
            *final(self) == old(self).specs_known(),
    {
        self.init_specs_complete = true;
    }

    /// The state that awaits no probe result.
    pub open spec fn probe_answered(self) -> Core {
        Core { probe_pending: false, ..self }
    }

    pub(crate) fn close_probe(&mut self)
        ensures
            *final(self) == old(self).probe_answered(),
    {
        self.probe_pending = false;
    }

    /// What reading the modes for the poll of a minimized window does: only
    /// a performance mode other than the one shown changes the status: the
    /// label, and the fan state that goes with it.
    #[verifier::opaque]
    pub open spec fn modes_polled(self, w: Wire) -> (Core, Wire) {
        let w1 = w.after(Op::GetPerfMode);
        match w.modes() {
            Err(_) => (self, w1),
            Ok(modes) => if self.status.performance_mode == Some(modes.0) {
                (self, w1)
            } else {
                let fan = fan_status(w1, modes.1);
                (self.with_mode(modes.0).with_fan(modes.1, fan.1, false), fan.0)
            },
        }
    }

    /// Reads the modes for the poll of a minimized window.
    pub fn poll_modes(&mut self, link: &mut Link)
        ensures
            (*final(self), final(link)@) == old(self).modes_polled(old(link)@),
    {
        reveal(Core::modes_polled);
        if let Ok((perf_mode, fan_mode)) = link.get_perf_mode() {
            if self.status.performance_mode != Some(perf_mode) {
                self.take_mode(perf_mode);
                let fan_rpm = get_fan_status_from_mode(fan_mode, link);
                self.take_fan(fan_mode, fan_rpm, false);
            }
        }
    }

    /// The state with `now` as the time of the last poll.
    pub open spec fn polled_at(self, now: u64) -> Core {
        Core { last_perf_poll_time: now, ..self }
    }

    pub(crate) fn mark_polled(&mut self, now: u64)
        ensures
            *final(self) == old(self).polled_at(now),
    {
        self.last_perf_poll_time = now;
    }

    /// What the poll of a minimized window does: nothing before it is due;
    /// when due, the modes are read if there is a device, and the time of the
    /// last poll is set either way.
    #[verifier::opaque]
    pub open spec fn polled_minimized(self, w: Wire, now: u64) -> (Core, Wire) {
        if !due_at(self.last_perf_poll_time, now, PERF_POLL_INTERVAL_MS) {
            (self, w)
        } else {
            let polled = if !self.device_present {
                (self, w)
            } else {
                self.modes_polled(w)
            };
            (polled.0.polled_at(now), polled.1)
        }
    }

    /// The cheap poll that runs while the window is minimized.
    pub fn poll_while_minimized(&mut self, link: &mut Link, now: u64)
        ensures
            (*final(self), final(link)@) == old(self).polled_minimized(old(link)@, now),
    {
        reveal(Core::polled_minimized);
        if due(self.last_perf_poll_time, now, PERF_POLL_INTERVAL_MS) {
            if self.device_present {
                self.poll_modes(link);
            }
            self.mark_polled(now);
        }
    }

    /// What the fan part of a refresh pass does: the measured speed is read,
    /// then the fan state, and the fan label follows the device.
    #[verifier::opaque]
    pub open spec fn fan_readout_refreshed(self, w: Wire) -> (Core, Wire) {
        let w1 = w.after(Op::GetFanActualRpm);
        let state = current_fan_state(w1);
        let fan = fan_status(state.0, state.1);
        (
            Core {
                status: DeviceStatus {
                    fan_actual_rpm: got(w.rpm(Op::GetFanActualRpm)),
                    fan_speed: Some(state.1),
                    ..self.status
                },
                ..self
            },
            fan.0,
        )
    }

    /// Brings the measured fan speed and the fan label up to date.
    pub fn refresh_fan_readout(&mut self, link: &mut Link)
        ensures
            (*final(self), final(link)@) == old(self).fan_readout_refreshed(old(link)@),
    {
        reveal(Core::fan_readout_refreshed);
        self.status.fan_actual_rpm = get_fan_rpm_actual(link);
        let (current_fan_mode, _) = read_current_fan_state(link);
        let _ = get_fan_status_from_mode(current_fan_mode, link);
        self.status.fan_speed = Some(current_fan_mode);
    }

    /// What the middle of a refresh pass does: the fan readout, the write
    /// that keeps the manual speed if it is due, and the brightness unless
    /// the user is moving its slider.
    #[verifier::opaque]
    pub open spec fn gauges_refreshed(self, w: Wire, now: u64) -> (Core, Wire) {
        let fan = self.fan_readout_refreshed(w);
        let kept = if due_at(fan.0.last_fan_enforce_time, now, FAN_ENFORCE_INTERVAL_MS) {
            fan.0.fan_rpm_enforced(fan.1, now)
        } else {
            fan
        };
        if kept.0.brightness_slider_active || !kept.0.device_present {
            kept
        } else {
            (kept.0.with_brightness(kept.1.brightness()), kept.1.after(Op::GetKeyboardBrightness))
        }
    }

    /// The middle of a refresh pass: fan readout, manual fan speed,
    /// brightness.
    pub fn refresh_gauges(&mut self, link: &mut Link, now: u64)
        ensures
            (*final(self), final(link)@) == old(self).gauges_refreshed(old(link)@, now),
    {
        reveal(Core::gauges_refreshed);
        self.refresh_fan_readout(link);
        if due(self.last_fan_enforce_time, now, FAN_ENFORCE_INTERVAL_MS) {
            self.enforce_manual_fan_rpm(link, now);
        }
        if self.device_present {
            if !self.brightness_slider_active {
                self.take_brightness(link.get_keyboard_brightness());
            }
        }
    }

    /// The state with `now` as the time of the last comparison.
    pub open spec fn checked_at(self, now: u64) -> Core {
        Core { last_state_check_time: now, ..self }
    }

    pub(crate) fn mark_checked(&mut self, now: u64)
        ensures
            *final(self) == old(self).checked_at(now),
    {
        self.last_state_check_time = now;
    }

    /// The state with `now` as the time of the last refresh pass.
    pub open spec fn refreshed_at(self, now: u64) -> Core {
        Core { last_refresh_time: now, ..self }
    }

    pub(crate) fn mark_refreshed(&mut self, now: u64)
        ensures
            *final(self) == old(self).refreshed_at(now),
    {
        self.last_refresh_time = now;
    }

    /// The state of a window that is closing.
    pub open spec fn quitting(self) -> Core {
        Core { should_quit: true, ..self }
    }

    pub(crate) fn mark_quitting(&mut self)
        ensures
            *final(self) == old(self).quitting(),
    {
        self.should_quit = true;
    }
}

/// Whether at least `interval` milliseconds have passed from `since` to `now`.
pub open spec fn due_at(since: u64, now: u64, interval: u64) -> bool {
    elapsed(since, now) >= interval
}

impl Model {
    /// What the milestone "initialization complete" does: from now on the
    /// passes run; with a device the status is read in full, and a failure of
    /// that read is shown as an error and ends the step.
    #[verifier::opaque]
    pub open spec fn initialization_completed(self, w: Wire, now: u64) -> (Model, Wire) {
        let ready = self.with_core(self.core.initialized());
        if !self.core.device_present {
            (ready, w)
        } else {
            let read = ready.core.device_status_read(w);
            match read.2 {
                Err(e) => (ready.with_core(read.0).alarmed(status_read_failed_text(e), now), read.1),
                Ok(_) => {
                    let done = read.0.first_read_completed(read.1);
                    (ready.with_core(done.0), done.1)
                },
            }
        }
    }

    /// What the milestone "inventory complete" does: the inventory is kept;
    /// the end of start-up is announced if the other milestones have come,
    /// otherwise the arrival is an optional message.
    #[verifier::opaque]
    pub open spec fn specs_completed(self, specs: SystemSpecs, now: u64) -> Model {
        let kept = Model { specs, core: self.core.specs_known(), ..self };
        if self.core.fully_initialized && self.core.init_power_read {
            kept.noted(init_complete_text(), now)
        } else {
            kept.remarked(specs_loaded_text(), now)
        }
    }

    /// What one milestone does.
    pub open spec fn milestone_handled(self, message: InitMessage, w: Wire, now: u64) -> (
        Model,
        Wire,
    ) {
        match message {
            InitMessage::SystemSpecsComplete(specs) => (self.specs_completed(specs, now), w),
            InitMessage::PowerStateRead(ac_power) => (
                self.with_core(self.core.power_known(ac_power)),
                w,
            ),
            InitMessage::InitializationComplete => self.initialization_completed(w, now),
        }
    }

    /// What `process_background_initialization` does: the milestones are
    /// handled one after the other, in the order of their arrival.
    pub open spec fn milestones_processed(self, messages: Seq<InitMessage>, w: Wire, now: u64) -> (
        Model,
        Wire,
    )
        decreases messages.len(),
    {
        if messages.len() == 0 {
            (self, w)
        } else {
            let first = self.milestone_handled(messages[0], w, now);
            first.0.milestones_processed(messages.skip(1), first.1, now)
        }
    }

    /// What a probe result does. It counts only if a probe is awaited and
    /// the result bears its number. A result that counts ends the wait; its
    /// modes replace the modes on offer unless it is empty.
    #[verifier::opaque]
    pub open spec fn probe_reported(self, report: Option<ProbeReport>, now: u64) -> Model {
        match report {
            None => self,
            Some(found) => if !self.core.probe_pending || found.generation
                != self.core.probe_generation {
                self
            } else if found.modes@.len() == 0 {
                self.with_core(self.core.probe_answered())
            } else {
                Model {
                    modes: found.modes@,
                    core: self.core.probe_answered(),
                    ..self
                }.remarked(modes_detected_text(), now)
            },
        }
    }

    /// What the check of the power source does: a source other than the one
    /// known switches the profile.
    #[verifier::opaque]
    pub open spec fn power_checked(self, w: Wire, now: u64) -> (Model, Wire) {
        let w1 = w.after(Op::PowerSource);
        match w.power() {
            Err(_) => (self, w1),
            Ok(ac_power) => if ac_power == self.core.ac_power {
                (self, w1)
            } else {
                self.with_core(self.core.with_power(ac_power)).profile_switched(w1, now)
            },
        }
    }

    /// What the last part of a refresh pass does, which runs only while the
    /// lights are set to stay on: the toggles are read, and if a comparison
    /// with the baseline is due it is made; if its read fails, the settings
    /// that change often are read instead.
    #[verifier::opaque]
    pub open spec fn lighting_watched(self, w: Wire, now: u64) -> (Model, Wire) {
        if !self.core.status.lights_always_on {
            (self, w)
        } else {
            let synced = self.core.toggles_synced(w);
            let seen = self.with_core(synced.0);
            if !due_at(seen.core.last_state_check_time, now, STATE_CHECK_INTERVAL_MS) {
                (seen, synced.1)
            } else {
                let checked = seen.changes_checked(synced.1, now);
                let settled = match checked.2 {
                    Ok(_) => (checked.0, checked.1),
                    Err(_) => {
                        let read = checked.0.core.essentials_read(checked.1);
                        (checked.0.with_core(read.0), read.1)
                    },
                };
                (settled.0.with_core(settled.0.core.checked_at(now)), settled.1)
            }
        }
    }

    /// What a refresh pass does, in this order: power source, fan readout,
    /// manual fan speed, brightness, and the watch over the lighting.
    #[verifier::opaque]
    pub open spec fn refreshed(self, w: Wire, now: u64) -> (Model, Wire) {
        let powered = self.power_checked(w, now);
        let gauged = powered.0.core.gauges_refreshed(powered.1, now);
        powered.0.with_core(gauged.0).lighting_watched(gauged.1, now)
    }

    /// What the tiered passes of a cycle do for a window that is shown:
    /// nothing before start-up is complete or before a pass is due; a pass
    /// that is due runs only with a device and after loading, and sets the
    /// time of the last pass either way.
    #[verifier::opaque]
    pub open spec fn passes_run(self, w: Wire, now: u64) -> (Model, Wire) {
        if !self.core.fully_initialized || !due_at(
            self.core.last_refresh_time,
            now,
            AUTO_REFRESH_INTERVAL_MS,
        ) {
            (self, w)
        } else {
            let passed = if self.core.device_present && !self.core.loading {
                self.refreshed(w, now)
            } else {
                (self, w)
            };
            (passed.0.with_core(passed.0.core.refreshed_at(now)), passed.1)
        }
    }

    /// The state after the notification centre moved on by one cycle.
    #[verifier::opaque]
    pub open spec fn cycled(self, now: u64) -> Model {
        Model { board: self.board.tick(now), ..self }
    }

    /// What the polling part of a cycle does: the cheap poll for a minimized
    /// window once start-up is complete; then, unless the window is closing,
    /// the tiered passes for a window that is shown.
    #[verifier::opaque]
    pub open spec fn polled(self, minimized: bool, close_requested: bool, w: Wire, now: u64) -> (
        Model,
        Wire,
    ) {
        let idle = if minimized && self.core.fully_initialized {
            let polled = self.core.polled_minimized(w, now);
            (self.with_core(polled.0), polled.1)
        } else {
            (self, w)
        };
        let closing = if close_requested {
            idle.0.with_core(idle.0.core.quitting())
        } else {
            idle.0
        };
        if closing.core.should_quit || minimized {
            (closing, idle.1)
        } else {
            closing.passes_run(idle.1, now)
        }
    }

    /// What a cycle does, in this order: the milestones of start-up, the
    /// probe result, the polling, the notification centre.
    #[verifier::opaque]
    pub open spec fn updated(self, frame: FrameInput, w: Wire, now: u64) -> (Model, Wire) {
        let begun = self.milestones_processed(frame.init_messages@, w, now);
        let probed = begun.0.probe_reported(frame.probe_report, now);
        let polled = probed.polled(frame.minimized, frame.close_requested, begun.1, now);
        (polled.0.cycled(now), polled.1)
    }
}

impl Scheduler {
    /// Handles the milestone "initialization complete".
    pub fn complete_initialization(&mut self, link: &mut Link, now: u64)
        ensures
            (final(self)@, final(link)@) == old(self)@.initialization_completed(old(link)@, now),
    {
        reveal(Model::initialization_completed);
        self.core.mark_initialized();
        if self.core.device_present {
            match self.core.read_device_status(link) {
                Err(e) => {
                    self.set_error_message(failure("Failed to read device status", e.as_str()), now);
                },
                Ok(_) => {
                    self.core.complete_first_read(link);
                },
            }
        }
    }

    /// Handles the milestone "inventory complete".
    pub fn complete_specs(&mut self, specs: SystemSpecs, now: u64)
        ensures
            final(self)@ == old(self)@.specs_completed(specs, now),
    {
        reveal(Model::specs_completed);
        let all_done = self.core.fully_initialized && self.core.init_power_read;
        self.system_specs = specs;
        self.core.note_specs();
        if all_done {
            self.set_status_message(String::from_str("Initialization complete"), now);
        } else {
            self.set_optional_status_message(String::from_str("System specifications loaded"), now);
        }
    }

    /// Handles one milestone of start-up.
    pub fn handle_init_message(&mut self, message: InitMessage, link: &mut Link, now: u64)
        ensures
            (final(self)@, final(link)@) == old(self)@.milestone_handled(message, old(link)@, now),
    {
        match message {
            InitMessage::SystemSpecsComplete(specs) => {
                self.complete_specs(specs, now);
            },
            InitMessage::PowerStateRead(ac_power) => {
                self.core.note_power(ac_power);
            },
            InitMessage::InitializationComplete => {
                self.complete_initialization(link, now);
            },
        }
    }

    /// Handles the milestones that the background worker has reported, in
    /// the order of their arrival.
    pub fn process_background_initialization(
        &mut self,
        messages: Vec<InitMessage>,
        link: &mut Link,
        now: u64,
    )
        ensures
            (final(self)@, final(link)@) == old(self)@.milestones_processed(
                messages@,
                old(link)@,
                now,
            ),
    {
        let mut rest = messages;
        while rest.len() > 0
            invariant
                self@.milestones_processed(rest@, link@, now) == old(self)@.milestones_processed(
                    messages@,
                    old(link)@,
                    now,
                ),
            decreases rest.len(),
        {
            let ghost before = rest@;
            let message = rest.remove(0);
            assert(rest@ =~= before.skip(1));
            self.handle_init_message(message, link, now);
        }
    }

    /// Takes in the result of a capability probe.
    pub fn take_probe_report(&mut self, report: Option<ProbeReport>, now: u64)
        ensures
            final(self)@ == old(self)@.probe_reported(report, now),
    {
        reveal(Model::probe_reported);
        if let Some(found) = report {
            if self.core.probe_pending && found.generation == self.core.probe_generation {
                self.core.close_probe();
                if found.modes.len() > 0 {
                    self.available_performance_modes = found.modes;
                    self.set_optional_status_message(
                        String::from_str("Detected supported performance modes"),
                        now,
                    );
                }
            }
        }
    }

    /// Compares the power source with the one known and switches the
    /// profile if it has changed.
    pub fn check_power_source(&mut self, link: &mut Link, now: u64)
        requires
            old(self).core.device_present,
        ensures
            (final(self)@, final(link)@) == old(self)@.power_checked(old(link)@, now),
    {
        reveal(Model::power_checked);
        if let Ok(current_ac_power) = link.power_source() {
            if current_ac_power != self.core.ac_power {
                self.core.set_power(current_ac_power);
                self.auto_switch_profile(link, now);
            }
        }
    }

    /// Watches for changes from outside while the lights are set to stay on.
    pub fn watch_lighting(&mut self, link: &mut Link, now: u64)
        requires
            old(self).core.device_present,
        ensures
            (final(self)@, final(link)@) == old(self)@.lighting_watched(old(link)@, now),
    {
        reveal(Model::lighting_watched);
        if self.core.status.lights_always_on {
            self.core.sync_other_dynamic_state(link);
            if due(self.core.last_state_check_time, now, STATE_CHECK_INTERVAL_MS) {
                proof {
                    reveal(Core::toggles_synced);
                }
                if let Err(_) = self.check_device_state_changes(link, now) {
                    proof {
                        reveal(Model::changes_checked);
                    }
                    let _ = self.core.read_essential_device_state(link);
                }
                self.core.mark_checked(now);
            }
        }
    }

    /// One refresh pass.
    pub fn refresh(&mut self, link: &mut Link, now: u64)
        requires
            old(self).core.device_present,
        ensures
            (final(self)@, final(link)@) == old(self)@.refreshed(old(link)@, now),
    {
        reveal(Model::refreshed);
        self.check_power_source(link, now);
        proof {
            power_check_keeps_device(old(self)@, old(link)@, now);
        }
        self.core.refresh_gauges(link, now);
        proof {
            gauges_keep_device(old(self)@.power_checked(old(link)@, now).0.core, old(self)@.power_checked(old(link)@, now).1, now);
        }
        self.watch_lighting(link, now);
    }

    /// The tiered passes of a cycle for a window that is shown.
    pub fn run_passes(&mut self, link: &mut Link, now: u64)
        ensures
            (final(self)@, final(link)@) == old(self)@.passes_run(old(link)@, now),
    {
        reveal(Model::passes_run);
        if self.core.fully_initialized {
            if due(self.core.last_refresh_time, now, AUTO_REFRESH_INTERVAL_MS) {
                if self.core.device_present && !self.core.loading {
                    self.refresh(link, now);
                }
                self.core.mark_refreshed(now);
            }
        }
    }

    /// The polling part of a cycle.
    pub fn poll(&mut self, minimized: bool, close_requested: bool, link: &mut Link, now: u64)
        ensures
            (final(self)@, final(link)@) == old(self)@.polled(
                minimized,
                close_requested,
                old(link)@,
                now,
            ),
    {
        reveal(Model::polled);
        if minimized && self.core.fully_initialized {
            self.core.poll_while_minimized(link, now);
        }
        if close_requested {
            self.core.mark_quitting();
        }
        if self.core.should_quit {
            return ;
        }
        if !minimized {
            self.run_passes(link, now);
        }
    }

    /// One cycle of the scheduler.
    pub fn update(&mut self, frame: FrameInput, link: &mut Link, now: u64)
        ensures
            (final(self)@, final(link)@) == old(self)@.updated(frame, old(link)@, now),
    {
        reveal(Model::updated);
        reveal(Model::cycled);
        let FrameInput { init_messages, probe_report, minimized, close_requested } = frame;
        self.process_background_initialization(init_messages, link, now);
        self.take_probe_report(probe_report, now);
        self.poll(minimized, close_requested, link, now);
        self.message_manager.update(now);
    }
}

/// The check of the power source never loses the device.
pub proof fn power_check_keeps_device(m: Model, w: Wire, now: u64)
    requires
        m.core.device_present,
    ensures
        m.power_checked(w, now).0.core.device_present,
{
    reveal(Model::power_checked);
    reveal(Model::profile_switched);
    reveal(Model::mode_switched);
    reveal(Model::profile_settled);
    reveal(Core::device_status_read);
    reveal(Core::baseline_refreshed);
    reveal(Core::ui_synced);
    reveal(Core::fan_slider_set);
    reveal(crate::reads::fan_status);
    reveal(crate::reads::current_fan_state);
}

/// The middle of a refresh pass never loses the device.
pub proof fn gauges_keep_device(c: Core, w: Wire, now: u64)
    requires
        c.device_present,
    ensures
        c.gauges_refreshed(w, now).0.device_present,
{
    reveal(Core::gauges_refreshed);
    reveal(Core::fan_readout_refreshed);
    reveal(Core::fan_rpm_enforced);
}

/// A device in custom mode is never probed, forced or not: the request reads
/// the mode and changes nothing.
pub proof fn custom_mode_is_never_probed(c: Core, force: bool, w: Wire)
    requires
        w.modes() matches Ok(modes) && modes.0 == PerfMode::Custom,
    ensures
        c.probe_started(force, w).0 == c,
{
    reveal(Core::probe_started);
}

/// A probe starts exactly when there is a device that is not in custom
/// mode, and either the probe is forced or the descriptor lists no modes.
pub proof fn probe_starts_when_allowed(c: Core, force: bool, w: Wire)
    ensures
        c.probe_started(force, w).0.probe_requested == (c.probe_requested || (c.device_present
            && (force || !c.descriptor_lists_modes) && !(w.modes() matches Ok(modes) && modes.0
            == PerfMode::Custom))),
{
    reveal(Core::probe_started);
}

/// While the window is minimized a cycle asks the device for the modes at
/// most, and for the configured fan speed after them: no other read and no
/// write is made.
pub proof fn minimized_cycle_reads_little(m: Model, close_requested: bool, w: Wire, now: u64)
    ensures
        ({
            let asked = m.polled(true, close_requested, w, now).1.asked;
            ||| asked == w.asked
            ||| asked == w.asked.push(Op::GetPerfMode)
            ||| asked == w.asked.push(Op::GetPerfMode).push(Op::GetFanRpm)
        }),
        m.polled(true, close_requested, w, now).0.board == m.board,
{
    reveal(Model::polled);
    reveal(Core::polled_minimized);
    reveal(Core::modes_polled);
    reveal(fan_status);
}

/// The middle of a refresh pass touches the fan fields and the brightness
/// only: the lighting flag, the baseline and the time of the last
/// comparison stay.
pub proof fn gauges_leave_the_watch_alone(c: Core, w: Wire, now: u64)
    ensures
        c.gauges_refreshed(w, now).0.status.lights_always_on == c.status.lights_always_on,
        c.gauges_refreshed(w, now).0.last_state_check_time == c.last_state_check_time,
        c.gauges_refreshed(w, now).0.last_refresh_time == c.last_refresh_time,
        c.gauges_refreshed(w, now).0.device_state == c.device_state,
        c.gauges_refreshed(w, now).0.device_present == c.device_present,
{
    reveal(Core::gauges_refreshed);
    reveal(Core::fan_readout_refreshed);
    reveal(Core::fan_rpm_enforced);
}

/// Reading the two toggles leaves the baseline and the times alone.
pub proof fn toggles_leave_the_watch_alone(c: Core, w: Wire)
    ensures
        c.toggles_synced(w).0.last_state_check_time == c.last_state_check_time,
        c.toggles_synced(w).0.device_state == c.device_state,
        c.toggles_synced(w).0.device_present == c.device_present,
{
    reveal(Core::toggles_synced);
}

/// Whether the power source, as the link reports it, is the one that the
/// state knows; a source that cannot be read counts as unchanged.
pub open spec fn power_unchanged(c: Core, w: Wire) -> bool {
    match w.power() {
        Ok(ac_power) => ac_power == c.ac_power,
        Err(_) => true,
    }
}

/// Whether a frame brings nothing but the cycle itself: no milestone, no
/// probe result, a window that is shown and not closing.
pub open spec fn plain_frame(frame: FrameInput) -> bool {
    &&& frame.init_messages@.len() == 0
    &&& frame.probe_report.is_none()
    &&& !frame.minimized
    &&& !frame.close_requested
}

/// Whether the state is one in which a refresh pass that is due runs.
pub open spec fn pass_due(c: Core, now: u64) -> bool {
    &&& c.fully_initialized
    &&& c.device_present
    &&& !c.loading
    &&& !c.should_quit
    &&& due_at(c.last_refresh_time, now, AUTO_REFRESH_INTERVAL_MS)
}

/// The watch over the lighting, when a comparison is due: the toggles are
/// read, then the device is compared with the baseline once, and the time of
/// the last comparison is `now` afterwards, whether or not the comparison's
/// read succeeded. Where it succeeded, nothing more is read.
pub proof fn due_watch_compares_once(m: Model, w: Wire, now: u64)
    requires
        m.core.status.lights_always_on,
        due_at(m.core.last_state_check_time, now, STATE_CHECK_INTERVAL_MS),
    ensures
        ({
            let synced = m.core.toggles_synced(w);
            let checked = m.with_core(synced.0).changes_checked(synced.1, now);
            let out = m.lighting_watched(w, now);
            &&& out.0.core.last_state_check_time == now
            &&& checked.2.is_ok() ==> out == (
                checked.0.with_core(checked.0.core.checked_at(now)),
                checked.1,
            )
            &&& checked.2.is_err() ==> out.1 == checked.0.core.essentials_read(checked.1).1
        }),
{
    reveal(Model::lighting_watched);
    toggles_leave_the_watch_alone(m.core, w);
}

/// The watch over the lighting, when no comparison is due or the lights are
/// not set to stay on: the device is not compared with the baseline. The
/// baseline, the time of the last comparison and the messages stay; at most
/// the two toggles are read.
pub proof fn idle_watch_compares_nothing(m: Model, w: Wire, now: u64)
    requires
        !m.core.status.lights_always_on || !due_at(
            m.core.last_state_check_time,
            now,
            STATE_CHECK_INTERVAL_MS,
        ),
    ensures
        m.lighting_watched(w, now) == if m.core.status.lights_always_on {
            (m.with_core(m.core.toggles_synced(w).0), m.core.toggles_synced(w).1)
        } else {
            (m, w)
        },
        m.lighting_watched(w, now).0.core.device_state == m.core.device_state,
        m.lighting_watched(w, now).0.core.last_state_check_time == m.core.last_state_check_time,
        m.lighting_watched(w, now).0.board == m.board,
{
    reveal(Model::lighting_watched);
    toggles_leave_the_watch_alone(m.core, w);
}

/// A cycle in which a refresh pass is due and the power source has not
/// changed runs the pass once: power source, gauges, then the watch over the
/// lighting, and sets the time of the last pass to `now`; in the end the
/// notification centre moves on.
pub proof fn due_cycle_runs_one_pass(m: Model, frame: FrameInput, w: Wire, now: u64)
    requires
        plain_frame(frame),
        pass_due(m.core, now),
        power_unchanged(m.core, w),
    ensures
        ({
            let gauged = m.core.gauges_refreshed(w.after(Op::PowerSource), now);
            let watched = m.with_core(gauged.0).lighting_watched(gauged.1, now);
            let out = m.updated(frame, w, now);
            &&& out.1 == watched.1
            &&& out.0.core == watched.0.core.refreshed_at(now)
            &&& out.0.board == watched.0.board.tick(now)
            &&& out.0.core.last_refresh_time == now
        }),
{
    reveal(Model::updated);
    reveal(Model::cycled);
    reveal(Model::polled);
    reveal(Model::passes_run);
    reveal(Model::refreshed);
    reveal(Model::power_checked);
    reveal(Model::probe_reported);
    assert(m.milestones_processed(frame.init_messages@, w, now) == (m, w));
}

/// With the lights set to stay on, a cycle whose refresh pass is due and
/// whose comparison is due compares the device with the baseline exactly
/// once, after the power source, the gauges and the toggles were read, and
/// sets both the time of the last comparison and the time of the last pass
/// to `now`. Where the comparison's read succeeds, the baseline and the
/// messages after the cycle are those that the comparison left.
pub proof fn due_cycle_compares_once(m: Model, frame: FrameInput, w: Wire, now: u64)
    requires
        plain_frame(frame),
        pass_due(m.core, now),
        power_unchanged(m.core, w),
        m.core.status.lights_always_on,
        due_at(m.core.last_state_check_time, now, STATE_CHECK_INTERVAL_MS),
    ensures
        ({
            let gauged = m.core.gauges_refreshed(w.after(Op::PowerSource), now);
            let synced = gauged.0.toggles_synced(gauged.1);
            let checked = m.with_core(synced.0).changes_checked(synced.1, now);
            let out = m.updated(frame, w, now);
            &&& out.0.core.last_state_check_time == now
            &&& out.0.core.last_refresh_time == now
            &&& checked.2.is_ok() ==> {
                &&& out.1 == checked.1
                &&& out.0.core == checked.0.core.checked_at(now).refreshed_at(now)
                &&& out.0.board == checked.0.board.tick(now)
            }
            &&& checked.2.is_err() ==> out.1 == checked.0.core.essentials_read(checked.1).1
        }),
{
    let gauged = m.core.gauges_refreshed(w.after(Op::PowerSource), now);
    due_cycle_runs_one_pass(m, frame, w, now);
    gauges_leave_the_watch_alone(m.core, w.after(Op::PowerSource), now);
    due_watch_compares_once(m.with_core(gauged.0), gauged.1, now);
}

/// A cycle whose refresh pass is due, but in which the lights are not set to
/// stay on or the last comparison is less than three seconds ago, does not
/// compare the device with the baseline: the baseline and the time of the
/// last comparison stay, no message is posted, and after the gauges at most
/// the two toggles are read.
pub proof fn idle_cycle_compares_nothing(m: Model, frame: FrameInput, w: Wire, now: u64)
    requires
        plain_frame(frame),
        pass_due(m.core, now),
        power_unchanged(m.core, w),
        !m.core.status.lights_always_on || !due_at(
            m.core.last_state_check_time,
            now,
            STATE_CHECK_INTERVAL_MS,
        ),
    ensures
        ({
            let gauged = m.core.gauges_refreshed(w.after(Op::PowerSource), now);
            let out = m.updated(frame, w, now);
            &&& out.0.core.device_state == m.core.device_state
            &&& out.0.core.last_state_check_time == m.core.last_state_check_time
            &&& out.0.core.last_refresh_time == now
            &&& out.0.board == m.board.tick(now)
            &&& out.1 == if m.core.status.lights_always_on {
                gauged.0.toggles_synced(gauged.1).1
            } else {
                gauged.1
            }
        }),
{
    let gauged = m.core.gauges_refreshed(w.after(Op::PowerSource), now);
    due_cycle_runs_one_pass(m, frame, w, now);
    gauges_leave_the_watch_alone(m.core, w.after(Op::PowerSource), now);
    idle_watch_compares_nothing(m.with_core(gauged.0), gauged.1, now);
}

/// A cycle before a refresh pass is due asks the device for nothing and
/// changes nothing but the notification centre.
pub proof fn early_cycle_does_nothing(m: Model, frame: FrameInput, w: Wire, now: u64)
    requires
        plain_frame(frame),
        !due_at(m.core.last_refresh_time, now, AUTO_REFRESH_INTERVAL_MS),
    ensures
        m.updated(frame, w, now).1 == w,
        m.updated(frame, w, now).0.core == m.core,
        m.updated(frame, w, now).0.board == m.board.tick(now),
{
    reveal(Model::updated);
    reveal(Model::cycled);
    reveal(Model::polled);
    reveal(Model::passes_run);
    reveal(Model::probe_reported);
    assert(m.milestones_processed(frame.init_messages@, w, now) == (m, w));
}

} // verus!
