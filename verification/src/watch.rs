//! Finding changes that something else made to the device: a full read is
//! compared with the baseline, and a difference replaces the baseline,
//! updates the status and is announced.

use crate::device::{
    perf_mode_label, perf_mode_name, BatteryCare, CompleteDeviceState, DeviceStatus,
    LightsAlwaysOn, PerfMode,
};
use crate::link::{told, Link, Wire};
use crate::reads::{fan_status, full_state, get_fan_status_from_mode};
use crate::messaging::{made, Board, MessagePriority, MessageType};
use crate::state::{Core, Model, Scheduler};
use crate::ui::{closest_step, raw_brightness_to_step_index};
use vstd::prelude::*;
use vstd::string::*;

verus! {

/// Text that announces a change of the performance mode from outside.
pub open spec fn mode_changed_text(from: PerfMode, to: PerfMode) -> Seq<char> {
    "Performance mode changed externally: "@ + perf_mode_label(from) + " → "@ + perf_mode_label(to)
}

/// Text that announces any other change from outside.
pub open spec fn state_updated_text() -> Seq<char> {
    "Device state updated externally"@
}

impl Core {
    /// The state with `current` as baseline and every status field taken
    /// from it; `rpm` is the configured fan speed read for its fan mode.
    pub open spec fn adopting(self, current: CompleteDeviceState, rpm: Option<u16>) -> Core {
        let based = Core {
            device_state: Some(current),
            status: DeviceStatus {
                performance_mode: Some(current.perf_mode),
                logo_mode: Some(current.logo_mode),
                keyboard_brightness: current.keyboard_brightness,
                lights_always_on: current.lights_always_on == LightsAlwaysOn::Enable,
                battery_care: current.battery_care == BatteryCare::Enable,
                ..self.status
            },
            temp_brightness_step: closest_step(current.keyboard_brightness) as usize,
            ..self
        };
        based.with_fan(current.fan_mode, rpm, true)
    }

    /// Takes `current` as baseline and shows it in every status field.
    pub(crate) fn adopt(&mut self, current: CompleteDeviceState, rpm: Option<u16>)
        ensures
            *final(self) == old(self).adopting(current, rpm),
    {
        self.device_state = Some(current);
        self.status.performance_mode = Some(current.perf_mode);
        self.status.logo_mode = Some(current.logo_mode);
        self.status.keyboard_brightness = current.keyboard_brightness;
        self.temp_brightness_step = raw_brightness_to_step_index(current.keyboard_brightness);
        self.status.lights_always_on = current.lights_always_on == LightsAlwaysOn::Enable;
        self.status.battery_care = current.battery_care == BatteryCare::Enable;
        self.take_fan(current.fan_mode, rpm, true);
    }

    /// The state with `current` as baseline and nothing else changed.
    pub open spec fn based_on(self, current: CompleteDeviceState) -> Core {
        Core { device_state: Some(current), ..self }
    }

    pub(crate) fn set_baseline(&mut self, current: CompleteDeviceState)
        ensures
            *final(self) == old(self).based_on(current),
    {
        self.device_state = Some(current);
    }
}

impl Model {
    /// What `check_device_state_changes` does. A full read that fails ends
    /// the check with its message. The first snapshot becomes the baseline
    /// and nothing more. A snapshot that differs from the baseline replaces
    /// it and is announced: a change of the performance mode always, with
    /// both labels; any other change only where optional messages are on.
    #[verifier::opaque]
    pub open spec fn changes_checked(self, w: Wire, now: u64) -> (
        Model,
        Wire,
        Result<(), Seq<char>>,
    ) {
        if !self.core.device_present {
            (self, w, Ok(()))
        } else {
            let read = full_state(w);
            match read.1 {
                Err(e) => (self, read.0, Err(e)),
                Ok(current) => match self.core.device_state {
                    None => (self.with_core(self.core.based_on(current)), read.0, Ok(())),
                    Some(stored) => if current == stored {
                        (self, read.0, Ok(()))
                    } else {
                        let fan = fan_status(read.0, current.fan_mode);
                        let shown = self.with_core(self.core.adopting(current, fan.1));
                        (
                            if stored.perf_mode != current.perf_mode {
                                shown.noted(
                                    mode_changed_text(stored.perf_mode, current.perf_mode),
                                    now,
                                )
                            } else {
                                shown.remarked(state_updated_text(), now)
                            },
                            fan.0,
                            Ok(()),
                        )
                    },
                },
            }
        }
    }
}

impl Scheduler {
    /// Compares the device with the baseline and reacts to a difference.
    pub fn check_device_state_changes(&mut self, link: &mut Link, now: u64) -> (r: Result<
        (),
        String,
    >)
        ensures
            (final(self)@, final(link)@, told(r)) == old(self)@.changes_checked(old(link)@, now),
    {
        reveal(Model::changes_checked);
        if self.core.device_present {
            let current_state = match CompleteDeviceState::read_from_device(link) {
                Ok(state) => state,
                Err(e) => return Err(e),
            };
            match self.core.device_state {
                Some(stored_state) => {
                    if current_state != stored_state {
                        let fan_rpm = get_fan_status_from_mode(current_state.fan_mode, link);
                        self.core.adopt(current_state, fan_rpm);
                        if stored_state.perf_mode != current_state.perf_mode {
                            let mut text = String::from_str("Performance mode changed externally: ");
                            text.append(perf_mode_name(stored_state.perf_mode));
                            text.append(" → ");
                            text.append(perf_mode_name(current_state.perf_mode));
                            self.set_status_message(text, now);
                        } else {
                            self.set_optional_status_message(
                                String::from_str("Device state updated externally"),
                                now,
                            );
                        }
                    }
                },
                None => {
                    self.core.set_baseline(current_state);
                },
            }
        }
        Ok(())
    }
}

/// A performance mode that was changed from outside is always announced:
/// when the full read succeeds and its mode differs from the baseline's, the
/// snapshot read becomes the baseline, the status shows its mode, and the
/// message on display names the old and the new mode.
pub proof fn outside_mode_change_is_announced(
    m: Model,
    w: Wire,
    now: u64,
    stored: CompleteDeviceState,
    current: CompleteDeviceState,
)
    requires
        m.core.device_present,
        m.core.device_state == Some(stored),
        full_state(w).1 == Ok::<CompleteDeviceState, Seq<char>>(current),
        current.perf_mode != stored.perf_mode,
    ensures
        m.changes_checked(w, now).2.is_ok(),
        m.changes_checked(w, now).0.core.device_state == Some(current),
        m.changes_checked(w, now).0.core.status.performance_mode == Some(current.perf_mode),
        m.changes_checked(w, now).0.board.visible(now) == Some(
            made(
                mode_changed_text(stored.perf_mode, current.perf_mode),
                MessageType::Info,
                MessagePriority::Normal,
                now,
            ),
        ),
{
    reveal(Model::changes_checked);
    reveal(Board::informed);
}

/// A snapshot that equals the baseline changes nothing and shows nothing.
pub proof fn unchanged_device_is_left_alone(m: Model, w: Wire, now: u64, stored: CompleteDeviceState)
    requires
        m.core.device_present,
        m.core.device_state == Some(stored),
        full_state(w).1 == Ok::<CompleteDeviceState, Seq<char>>(stored),
    ensures
        m.changes_checked(w, now).0 == m,
{
    reveal(Model::changes_checked);
}

/// The first snapshot only becomes the baseline: nothing is compared, the
/// status stays, and nothing is shown.
pub proof fn first_snapshot_is_silent(m: Model, w: Wire, now: u64, current: CompleteDeviceState)
    requires
        m.core.device_present,
        m.core.device_state.is_none(),
        full_state(w).1 == Ok::<CompleteDeviceState, Seq<char>>(current),
    ensures
        m.changes_checked(w, now).0 == m.with_core(m.core.based_on(current)),
        m.changes_checked(w, now).0.board == m.board,
        m.changes_checked(w, now).0.core.status == m.core.status,
{
    reveal(Model::changes_checked);
}

} // verus!
