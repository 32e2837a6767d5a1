//! Running the scheduler against a transcript.
//!
//! The host keeps the exchanges that it has carried out for the command at
//! hand. It runs the command on the state from before the command; where the
//! run needs one more exchange, the host carries the operation out, appends
//! the exchange and runs the command again on the same state. The state
//! changes only when a run asked exactly what the transcript records.

use crate::link::{Exchange, Link, Op, Standing, Wire};
use crate::text::lines;
use crate::state::{Model, Scheduler};
use crate::tick::FrameInput;
use vstd::prelude::*;
use vstd::string::*;

verus! {

/// What the host can ask of the scheduler.
#[derive(Debug, Clone)]
pub enum Command {
    /// Find the device and make the first reads.
    Startup,
    /// Run one cycle.
    Update(FrameInput),
    /// Switch to the performance mode with this label.
    SetPerformanceMode(String),
    /// Set the fan mode, `"auto"` or `"manual"`, the latter with a speed.
    SetFanMode(String, Option<u16>),
    /// Set the fan speed.
    SetFanRpm(u16),
    /// Switch to the logo mode with this label.
    SetLogoMode(String),
    /// Set the raw keyboard brightness.
    SetBrightness(u8),
    /// Write the lights-always-on flag of the status to the device.
    ToggleLightsAlwaysOn,
    /// Write the battery-care flag of the status to the device.
    ToggleBatteryCare,
    /// Probe the supported performance modes again.
    ForceReprobe,
}

/// How the run of a command over a transcript ended.
#[derive(Debug)]
pub enum Progress {
    /// The command is complete. `state` is the scheduler after it;
    /// `diagnostics` are the failed reads of start-up.
    Finished { state: Scheduler, diagnostics: Vec<String> },
    /// The host has to carry out this operation and run the command again.
    Ask(Op),
    /// The transcript is not one of this command on this state.
    Diverged,
}

impl Model {
    /// What a command does.
    pub open spec fn executed(self, command: Command, w: Wire, now: u64) -> (
        Model,
        Wire,
        Seq<Seq<char>>,
    ) {
        match command {
            Command::Startup => self.started(w, now),
            Command::Update(frame) => {
                let done = self.updated(frame, w, now);
                (done.0, done.1, Seq::empty())
            },
            Command::SetPerformanceMode(label) => {
                let done = self.performance_mode_set(label@, w, now);
                (done.0, done.1, Seq::empty())
            },
            Command::SetFanMode(mode, rpm) => {
                let done = self.fan_mode_set(mode@, rpm, w, now);
                (done.0, done.1, Seq::empty())
            },
            Command::SetFanRpm(rpm) => {
                let done = self.fan_rpm_set(rpm, w, now);
                (done.0, done.1, Seq::empty())
            },
            Command::SetLogoMode(label) => {
                let done = self.logo_mode_set(label@, w, now);
                (done.0, done.1, Seq::empty())
            },
            Command::SetBrightness(level) => {
                let done = self.brightness_set(level, w, now);
                (done.0, done.1, Seq::empty())
            },
            Command::ToggleLightsAlwaysOn => {
                let done = self.lights_toggled(w, now);
                (done.0, done.1, Seq::empty())
            },
            Command::ToggleBatteryCare => {
                let done = self.care_toggled(w, now);
                (done.0, done.1, Seq::empty())
            },
            Command::ForceReprobe => {
                let done = self.core.probe_started(true, w);
                (self.with_core(done.0), done.1, Seq::empty())
            },
        }
    }
}

impl Scheduler {
    /// Carries out a command through `link`; returns the diagnostics of
    /// start-up, and nothing for any other command.
    pub fn execute(&mut self, command: Command, link: &mut Link, now: u64) -> (diagnostics: Vec<
        String,
    >)
        ensures
            (final(self)@, final(link)@, lines(diagnostics@)) == old(self)@.executed(
                command,
                old(link)@,
                now,
            ),
    {
        let quiet: Vec<String> = Vec::new();
        assert(lines(quiet@) =~= Seq::<Seq<char>>::empty());
        match command {
            Command::Startup => {
                return self.startup(link, now);
            },
            Command::Update(frame) => {
                self.update(frame, link, now);
            },
            Command::SetPerformanceMode(label) => {
                self.set_performance_mode(label.as_str(), link, now);
            },
            Command::SetFanMode(mode, rpm) => {
                self.set_fan_mode(mode.as_str(), rpm, link, now);
            },
            Command::SetFanRpm(rpm) => {
                self.set_fan_rpm_only(rpm, link, now);
            },
            Command::SetLogoMode(label) => {
                self.set_logo_mode(label.as_str(), link, now);
            },
            Command::SetBrightness(level) => {
                self.set_brightness(level, link, now);
            },
            Command::ToggleLightsAlwaysOn => {
                self.toggle_lights_always_on(link, now);
            },
            Command::ToggleBatteryCare => {
                self.toggle_battery_care(link, now);
            },
            Command::ForceReprobe => {
                self.core.start_probe_perf_modes(true, link);
            },
        }
        quiet
    }

    /// Runs a command on this state over the exchanges carried out so far.
    pub fn run(self, command: Command, transcript: &Vec<Exchange>, now: u64) -> (progress: Progress)
        ensures
            match progress {
                Progress::Finished { state, diagnostics } => {
                    &&& self@.executed(command, Wire::fresh(transcript@), now).1.standing()
                        == Standing::Settled
                    &&& state@ == self@.executed(command, Wire::fresh(transcript@), now).0
                    &&& lines(diagnostics@) == self@.executed(
                        command,
                        Wire::fresh(transcript@),
                        now,
                    ).2
                },
                Progress::Ask(op) => self@.executed(
                    command,
                    Wire::fresh(transcript@),
                    now,
                ).1.standing() == Standing::Waiting(op),
                Progress::Diverged => self@.executed(
                    command,
                    Wire::fresh(transcript@),
                    now,
                ).1.standing() == Standing::Diverged,
            },
    {
        let mut state = self;
        let mut link = Link::new(transcript);
        let diagnostics = state.execute(command, &mut link, now);
        match link.standing() {
            Standing::Settled => Progress::Finished { state, diagnostics },
            Standing::Waiting(op) => Progress::Ask(op),
            Standing::Diverged => Progress::Diverged,
        }
    }
}

} // verus!
