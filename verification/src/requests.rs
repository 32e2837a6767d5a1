//! What the user asks for: each request writes to the device, shows the
//! outcome, and keeps the status in step with what was written.

use crate::device::{
    logo_mode_named, perf_mode_named, string_to_logo_mode, string_to_perf_mode, BatteryCare,
    DeviceStatus, FanMode, LightsAlwaysOn,
};
use crate::link::{told, Link, Op, Wire};
use crate::reads::{current_fan_state, read_current_fan_state};
use crate::state::{no_device_text, Core, Model, Scheduler, DEFAULT_MANUAL_RPM};
use crate::text::{decimal, failure, failure_text, joined, number_text, same_text};
use crate::ui::{closest_step, raw_brightness_to_step_index};
use vstd::prelude::*;
use vstd::string::*;

verus! {

/// Time given to the hardware between the steps that restore the fan after
/// a change of the performance mode, in milliseconds.
pub const SETTLE_MS: u64 = 50;

/// An outcome with both texts as sequences of characters.
pub open spec fn texts(r: Result<String, String>) -> Result<Seq<char>, Seq<char>> {
    match r {
        Ok(s) => Ok(s@),
        Err(e) => Err(e@),
    }
}

/// What `execute_device_command_simple` does: without a device nothing is
/// asked; with one the operation is carried out, and its failure is told
/// with the given prefix.
pub open spec fn command_outcome(
    device_present: bool,
    w: Wire,
    op: Op,
    success: Seq<char>,
    error_prefix: Seq<char>,
) -> (Wire, Result<Seq<char>, Seq<char>>) {
    if device_present {
        (
            w.after(op),
            match w.done(op) {
                Ok(_) => Ok(success),
                Err(e) => Err(failure_text(error_prefix, e)),
            },
        )
    } else {
        (w, Err(no_device_text()))
    }
}

/// Carries out one operation on the device and words the outcome: the
/// success message, or the error prefix with the cause.
pub fn execute_device_command_simple(
    device_present: bool,
    link: &mut Link,
    op: Op,
    success_msg: &str,
    error_prefix: &str,
) -> (r: Result<String, String>)
    ensures
        (final(link)@, texts(r)) == command_outcome(
            device_present,
            old(link)@,
            op,
            success_msg@,
            error_prefix@,
        ),
{
    if device_present {
        match link.order(op) {
            Ok(_) => Ok(String::from_str(success_msg)),
            Err(e) => Err(failure(error_prefix, e.as_str())),
        }
    } else {
        Err(String::from_str("No device connected"))
    }
}

impl Core {
    /// The state that shows a fan mode and speed written by the user.
    pub open spec fn with_fan_setting(self, mode: FanMode, rpm: Option<u16>) -> Core {
        Core { status: DeviceStatus { fan_speed: Some(mode), fan_rpm: rpm, ..self.status }, ..self }
    }

    pub(crate) fn show_fan_setting(&mut self, mode: FanMode, rpm: Option<u16>)
        ensures
            *final(self) == old(self).with_fan_setting(mode, rpm),
    {
        self.status.fan_speed = Some(mode);
        self.status.fan_rpm = rpm;
    }

    /// The state after manual mode was restored at `rpm`.
    pub open spec fn with_manual_fan(self, rpm: u16) -> Core {
        Core { manual_fan_rpm: rpm, ..self.with_fan_setting(FanMode::Manual, Some(rpm)) }
    }

    pub(crate) fn show_manual_fan(&mut self, rpm: u16)
        ensures
            *final(self) == old(self).with_manual_fan(rpm),
    {
        self.status.fan_speed = Some(FanMode::Manual);
        self.status.fan_rpm = Some(rpm);
        self.manual_fan_rpm = rpm;
    }

    /// The state that shows a configured fan speed.
    pub open spec fn with_fan_rpm(self, rpm: u16) -> Core {
        Core { status: DeviceStatus { fan_rpm: Some(rpm), ..self.status }, ..self }
    }

    pub(crate) fn show_fan_rpm(&mut self, rpm: u16)
        ensures
            *final(self) == old(self).with_fan_rpm(rpm),
    {
        self.status.fan_rpm = Some(rpm);
    }

    /// What writing automatic fan mode does.
    pub open spec fn fan_auto_written(self, w: Wire) -> (Core, Wire, Result<(), Seq<char>>) {
        (
            match w.done(Op::SetFanMode(FanMode::Auto)) {
                Ok(_) => self.with_fan_setting(FanMode::Auto, None),
                Err(_) => self,
            },
            w.after(Op::SetFanMode(FanMode::Auto)),
            w.done(Op::SetFanMode(FanMode::Auto)),
        )
    }

    /// Writes automatic fan mode; the status follows a success.
    pub fn write_fan_auto(&mut self, link: &mut Link) -> (r: Result<(), String>)
        ensures
            (*final(self), final(link)@, told(r)) == old(self).fan_auto_written(old(link)@),
    {
        match link.set_fan_mode(FanMode::Auto) {
            Ok(_) => {
                self.show_fan_setting(FanMode::Auto, None);
                Ok(())
            },
            Err(e) => Err(e),
        }
    }

    /// What writing manual fan mode does: the mode, then the speed, which is
    /// `2000` where none is given.
    pub open spec fn fan_manual_written(self, rpm: Option<u16>, w: Wire) -> (
        Core,
        Wire,
        Result<(), Seq<char>>,
    ) {
        let speed = match rpm {
            Some(value) => value,
            None => DEFAULT_MANUAL_RPM,
        };
        let w1 = w.after(Op::SetFanMode(FanMode::Manual));
        match w.done(Op::SetFanMode(FanMode::Manual)) {
            Err(e) => (self, w1, Err(e)),
            Ok(_) => (
                match w1.done(Op::SetFanRpm(speed)) {
                    Ok(_) => self.with_fan_setting(FanMode::Manual, Some(speed)),
                    Err(_) => self,
                },
                w1.after(Op::SetFanRpm(speed)),
                w1.done(Op::SetFanRpm(speed)),
            ),
        }
    }

    /// Writes manual fan mode and the speed; the status follows a success of
    /// both.
    pub fn write_fan_manual(&mut self, rpm: Option<u16>, link: &mut Link) -> (r: Result<
        (),
        String,
    >)
        ensures
            (*final(self), final(link)@, told(r)) == old(self).fan_manual_written(rpm, old(link)@),
    {
        if let Err(e) = link.set_fan_mode(FanMode::Manual) {
            return Err(e);
        }
        let rpm_val = match rpm {
            Some(value) => value,
            None => DEFAULT_MANUAL_RPM,
        };
        match link.set_fan_rpm(rpm_val) {
            Ok(_) => {
                self.show_fan_setting(FanMode::Manual, Some(rpm_val));
                Ok(())
            },
            Err(e) => Err(e),
        }
    }

    /// The state that shows a lights-always-on flag.
    pub open spec fn with_lights_flag(self, on: bool) -> Core {
        Core { status: DeviceStatus { lights_always_on: on, ..self.status }, ..self }
    }

    pub(crate) fn show_lights_flag(&mut self, on: bool)
        ensures
            *final(self) == old(self).with_lights_flag(on),
    {
        self.status.lights_always_on = on;
    }

    /// The state that shows a battery-care flag.
    pub open spec fn with_care_flag(self, on: bool) -> Core {
        Core { status: DeviceStatus { battery_care: on, ..self.status }, ..self }
    }

    pub(crate) fn show_care_flag(&mut self, on: bool)
        ensures
            *final(self) == old(self).with_care_flag(on),
    {
        self.status.battery_care = on;
    }
}

/// Text of the error shown where the fan speed cannot be restored.
pub open spec fn restore_rpm_failed_text() -> Seq<char> {
    "Failed to restore fan RPM after performance mode change"@
}

/// Text of the error shown where manual fan mode cannot be restored.
pub open spec fn restore_mode_failed_text() -> Seq<char> {
    "Failed to restore manual fan mode after performance mode change"@
}

/// Text that confirms a switch of the performance mode.
pub open spec fn mode_set_text(label: Seq<char>) -> Seq<char> {
    "Performance mode set to "@ + label
}

/// Text that confirms a switch of the fan mode.
pub open spec fn fan_set_text(mode: Seq<char>) -> Seq<char> {
    "Fan set to "@ + mode + " mode"@
}

/// Text that confirms a new fan speed.
pub open spec fn fan_rpm_set_text(rpm: u16) -> Seq<char> {
    "Fans RPM set to: "@ + decimal(rpm as nat)
}

/// Text that confirms a switch of the logo mode.
pub open spec fn logo_set_text(label: Seq<char>) -> Seq<char> {
    "Logo mode set to "@ + label
}

/// Text that confirms a new brightness, by its step.
pub open spec fn brightness_set_text(level: u8) -> Seq<char> {
    "Brightness set to step "@ + decimal(closest_step(level) as nat)
}

/// The word for a flag's value.
pub open spec fn enabled_text(on: bool) -> Seq<char> {
    if on {
        "enabled"@
    } else {
        "disabled"@
    }
}

/// Text that confirms the lights-always-on flag.
pub open spec fn lights_set_text(on: bool) -> Seq<char> {
    "Keyboard Backlight Always On "@ + enabled_text(on)
}

/// Text that confirms the battery-care flag.
pub open spec fn care_set_text(on: bool) -> Seq<char> {
    "Battery care "@ + enabled_text(on)
}

fn enabled_word(on: bool) -> (word: &'static str)
    ensures
        word@ == enabled_text(on),
{
    if on {
        "enabled"
    } else {
        "disabled"
    }
}

impl Model {
    /// What restoring the fan after a change of the performance mode does:
    /// a pause, manual mode, a pause, the speed. The failure of either write
    /// has an error message of its own; after the first failure nothing more
    /// is written.
    #[verifier::opaque]
    pub open spec fn fan_restored(self, w: Wire, rpm: u16, now: u64) -> (Model, Wire) {
        let w1 = w.after(Op::Settle(SETTLE_MS));
        let w2 = w1.after(Op::SetFanMode(FanMode::Manual));
        match w1.done(Op::SetFanMode(FanMode::Manual)) {
            Err(_) => (self.alarmed(restore_mode_failed_text(), now), w2),
            Ok(_) => {
                let w3 = w2.after(Op::Settle(SETTLE_MS));
                (
                    match w3.done(Op::SetFanRpm(rpm)) {
                        Ok(_) => self.with_core(self.core.with_manual_fan(rpm)),
                        Err(_) => self.alarmed(restore_rpm_failed_text(), now),
                    },
                    w3.after(Op::SetFanRpm(rpm)),
                )
            },
        }
    }

    /// What `set_performance_mode` does. A label that names no mode is
    /// ignored. The fan state is read first, because the switch puts the fan
    /// back to automatic: if it was manual with a known speed, both are
    /// restored after a successful switch. Whatever the outcome, the
    /// baseline is refreshed in the end.
    #[verifier::opaque]
    pub open spec fn performance_mode_set(self, label: Seq<char>, w: Wire, now: u64) -> (
        Model,
        Wire,
    ) {
        match perf_mode_named(label) {
            None => (self, w),
            Some(mode) => if !self.core.device_present {
                (self.noted(no_device_text(), now), w)
            } else {
                let fan = current_fan_state(w);
                let w1 = fan.0.after(Op::SetPerfMode(mode));
                let written = match fan.0.done(Op::SetPerfMode(mode)) {
                    Err(e) => (
                        self.alarmed(failure_text("Failed to set performance mode"@, e), now),
                        w1,
                    ),
                    Ok(_) => {
                        let labelled = self.with_core(self.core.with_mode(mode));
                        let restored = match fan.2 {
                            Some(rpm) => if fan.1 == FanMode::Manual {
                                labelled.fan_restored(w1, rpm, now)
                            } else {
                                (labelled, w1)
                            },
                            None => (labelled, w1),
                        };
                        (restored.0.remarked(mode_set_text(label), now), restored.1)
                    },
                };
                let refreshed = written.0.core.baseline_refreshed(written.1);
                (written.0.with_core(refreshed.0), refreshed.1)
            },
        }
    }

    /// The state after the outcome of a fan request was shown.
    pub open spec fn fan_reported(self, outcome: Result<(), Seq<char>>, mode: Seq<char>, now: u64)
        -> Model {
        match outcome {
            Ok(_) => self.remarked(fan_set_text(mode), now),
            Err(e) => self.alarmed(failure_text("Failed to set fan"@, e), now),
        }
    }

    /// What `set_fan_mode` does. `"auto"` writes automatic mode; `"manual"`
    /// writes manual mode and then the speed, `2000` where none is given; any
    /// other word is ignored. The status follows only a complete success.
    #[verifier::opaque]
    pub open spec fn fan_mode_set(self, mode: Seq<char>, rpm: Option<u16>, w: Wire, now: u64) -> (
        Model,
        Wire,
    ) {
        if !self.core.device_present {
            (self.noted(no_device_text(), now), w)
        } else if mode == "auto"@ {
            let written = self.core.fan_auto_written(w);
            (self.with_core(written.0).fan_reported(written.2, mode, now), written.1)
        } else if mode == "manual"@ {
            let written = self.core.fan_manual_written(rpm, w);
            (self.with_core(written.0).fan_reported(written.2, mode, now), written.1)
        } else {
            (self, w)
        }
    }

    /// The state after a command's outcome was shown: the success message
    /// where optional messages are on, the failure as an error.
    pub open spec fn reported(self, outcome: Result<Seq<char>, Seq<char>>, shown: Core, now: u64)
        -> Model {
        match outcome {
            Ok(text) => self.with_core(shown).remarked(text, now),
            Err(text) => self.alarmed(text, now),
        }
    }

    /// What `set_fan_rpm_only` does.
    #[verifier::opaque]
    pub open spec fn fan_rpm_set(self, rpm: u16, w: Wire, now: u64) -> (Model, Wire) {
        let done = command_outcome(
            self.core.device_present,
            w,
            Op::SetFanRpm(rpm),
            fan_rpm_set_text(rpm),
            "Failed to set fan RPM"@,
        );
        (self.reported(done.1, self.core.with_fan_rpm(rpm), now), done.0)
    }

    /// What `set_logo_mode` does. A label that names no mode is ignored.
    #[verifier::opaque]
    pub open spec fn logo_mode_set(self, label: Seq<char>, w: Wire, now: u64) -> (Model, Wire) {
        match logo_mode_named(label) {
            None => (self, w),
            Some(mode) => {
                let done = command_outcome(
                    self.core.device_present,
                    w,
                    Op::SetLogoMode(mode),
                    logo_set_text(label),
                    "Failed to set logo mode"@,
                );
                (self.reported(done.1, self.core.with_logo(Ok(mode)), now), done.0)
            },
        }
    }

    /// What `set_brightness` does.
    #[verifier::opaque]
    pub open spec fn brightness_set(self, level: u8, w: Wire, now: u64) -> (Model, Wire) {
        let done = command_outcome(
            self.core.device_present,
            w,
            Op::SetKeyboardBrightness(level),
            brightness_set_text(level),
            "Failed to set brightness"@,
        );
        (self.reported(done.1, self.core.with_brightness(Ok(level)), now), done.0)
    }

    /// What `toggle_lights_always_on` does: the flag as the status shows it
    /// is written to the device. A success refreshes the baseline; a failure
    /// is shown as an error and the flag in the status is put back.
    #[verifier::opaque]
    pub open spec fn lights_toggled(self, w: Wire, now: u64) -> (Model, Wire) {
        let on = self.core.status.lights_always_on;
        let op = Op::SetLightsAlwaysOn(
            if on {
                LightsAlwaysOn::Enable
            } else {
                LightsAlwaysOn::Disable
            },
        );
        if !self.core.device_present {
            (self.noted(no_device_text(), now), w)
        } else {
            match w.done(op) {
                Ok(_) => {
                    let told = self.remarked(lights_set_text(on), now);
                    let refreshed = told.core.baseline_refreshed(w.after(op));
                    (told.with_core(refreshed.0), refreshed.1)
                },
                Err(e) => (
                    self.alarmed(failure_text("Failed to set lights always on"@, e), now).with_core(
                        self.core.with_lights_flag(!on),
                    ),
                    w.after(op),
                ),
            }
        }
    }

    /// What `toggle_battery_care` does: the flag as the status shows it is
    /// written to the device; a failure is shown as an error and the flag in
    /// the status is put back.
    #[verifier::opaque]
    pub open spec fn care_toggled(self, w: Wire, now: u64) -> (Model, Wire) {
        let on = self.core.status.battery_care;
        let op = Op::SetBatteryCare(
            if on {
                BatteryCare::Enable
            } else {
                BatteryCare::Disable
            },
        );
        if !self.core.device_present {
            (self.noted(no_device_text(), now), w)
        } else {
            (
                match w.done(op) {
                    Ok(_) => self.remarked(care_set_text(on), now),
                    Err(e) => self.alarmed(
                        failure_text("Failed to set battery care"@, e),
                        now,
                    ).with_core(self.core.with_care_flag(!on)),
                },
                w.after(op),
            )
        }
    }
}

impl Scheduler {
    /// Puts the fan back to manual mode at `rpm` after the performance mode
    /// was switched.
    pub fn restore_manual_fan(&mut self, rpm: u16, link: &mut Link, now: u64)
        ensures
            (final(self)@, final(link)@) == old(self)@.fan_restored(old(link)@, rpm, now),
    {
        reveal(Model::fan_restored);
        link.settle(SETTLE_MS);
        if let Ok(_) = link.set_fan_mode(FanMode::Manual) {
            link.settle(SETTLE_MS);
            if let Ok(_) = link.set_fan_rpm(rpm) {
                self.core.show_manual_fan(rpm);
            } else {
                self.set_error_message(
                    String::from_str("Failed to restore fan RPM after performance mode change"),
                    now,
                );
            }
        } else {
            self.set_error_message(
                String::from_str("Failed to restore manual fan mode after performance mode change"),
                now,
            );
        }
    }

    /// Switches the performance mode to the one that `mode` names.
    pub fn set_performance_mode(&mut self, mode: &str, link: &mut Link, now: u64)
        ensures
            (final(self)@, final(link)@) == old(self)@.performance_mode_set(
                mode@,
                old(link)@,
                now,
            ),
    {
        reveal(Model::performance_mode_set);
        let perf_mode = match string_to_perf_mode(mode) {
            Some(found) => found,
            None => return ,
        };
        if self.core.device_present {
            let (current_fan_mode, set_rpm) = read_current_fan_state(link);
            match link.set_perf_mode(perf_mode) {
                Ok(_) => {
                    self.core.take_mode(perf_mode);
                    if current_fan_mode == FanMode::Manual {
                        if let Some(rpm) = set_rpm {
                            self.restore_manual_fan(rpm, link, now);
                        }
                    }
                    self.set_optional_status_message(joined("Performance mode set to ", mode), now);
                },
                Err(e) => {
                    self.set_error_message(
                        failure("Failed to set performance mode", e.as_str()),
                        now,
                    );
                },
            }
            self.core.update_stored_device_state(link);
        } else {
            self.set_no_device_message(now);
        }
    }

    /// Shows the outcome of a fan request.
    pub fn report_fan(&mut self, outcome: Result<(), String>, mode: &str, now: u64)
        ensures
            final(self)@ == old(self)@.fan_reported(told(outcome), mode@, now),
    {
        match outcome {
            Ok(_) => {
                let mut text = String::from_str("Fan set to ");
                text.append(mode);
                text.append(" mode");
                self.set_optional_status_message(text, now);
            },
            Err(e) => {
                self.set_error_message(failure("Failed to set fan", e.as_str()), now);
            },
        }
    }

    /// Sets the fan mode: `"auto"`, or `"manual"` with a speed.
    pub fn set_fan_mode(&mut self, mode: &str, rpm: Option<u16>, link: &mut Link, now: u64)
        ensures
            (final(self)@, final(link)@) == old(self)@.fan_mode_set(mode@, rpm, old(link)@, now),
    {
        reveal(Model::fan_mode_set);
        if self.core.device_present {
            if same_text(mode, "auto") {
                let result = self.core.write_fan_auto(link);
                self.report_fan(result, mode, now);
            } else if same_text(mode, "manual") {
                let result = self.core.write_fan_manual(rpm, link);
                self.report_fan(result, mode, now);
            }
        } else {
            self.set_no_device_message(now);
        }
    }

    /// Writes a new fan speed; the fan mode stays as it is.
    pub fn set_fan_rpm_only(&mut self, rpm: u16, link: &mut Link, now: u64)
        ensures
            (final(self)@, final(link)@) == old(self)@.fan_rpm_set(rpm, old(link)@, now),
    {
        reveal(Model::fan_rpm_set);
        let number = number_text(rpm as u64);
        let success = joined("Fans RPM set to: ", number.as_str());
        match execute_device_command_simple(
            self.core.device_present,
            link,
            Op::SetFanRpm(rpm),
            success.as_str(),
            "Failed to set fan RPM",
        ) {
            Ok(message) => {
                self.core.show_fan_rpm(rpm);
                self.set_optional_status_message(message, now);
            },
            Err(message) => {
                self.set_error_message(message, now);
            },
        }
    }

    /// Sets the logo mode to the one that `mode` names.
    pub fn set_logo_mode(&mut self, mode: &str, link: &mut Link, now: u64)
        ensures
            (final(self)@, final(link)@) == old(self)@.logo_mode_set(mode@, old(link)@, now),
    {
        reveal(Model::logo_mode_set);
        let logo_mode = match string_to_logo_mode(mode) {
            Some(found) => found,
            None => return ,
        };
        let success = joined("Logo mode set to ", mode);
        match execute_device_command_simple(
            self.core.device_present,
            link,
            Op::SetLogoMode(logo_mode),
            success.as_str(),
            "Failed to set logo mode",
        ) {
            Ok(message) => {
                self.core.take_logo(Ok(logo_mode));
                self.set_optional_status_message(message, now);
            },
            Err(message) => {
                self.set_error_message(message, now);
            },
        }
    }

    /// Sets the keyboard brightness to a raw value.
    pub fn set_brightness(&mut self, brightness: u8, link: &mut Link, now: u64)
        ensures
            (final(self)@, final(link)@) == old(self)@.brightness_set(brightness, old(link)@, now),
    {
        reveal(Model::brightness_set);
        let step = number_text(raw_brightness_to_step_index(brightness) as u64);
        let success = joined("Brightness set to step ", step.as_str());
        match execute_device_command_simple(
            self.core.device_present,
            link,
            Op::SetKeyboardBrightness(brightness),
            success.as_str(),
            "Failed to set brightness",
        ) {
            Ok(message) => {
                self.core.take_brightness(Ok(brightness));
                self.set_optional_status_message(message, now);
            },
            Err(message) => {
                self.set_error_message(message, now);
            },
        }
    }

    /// Writes the lights-always-on flag of the status to the device.
    pub fn toggle_lights_always_on(&mut self, link: &mut Link, now: u64)
        ensures
            (final(self)@, final(link)@) == old(self)@.lights_toggled(old(link)@, now),
    {
        reveal(Model::lights_toggled);
        let on = self.core.status.lights_always_on;
        let lights_always_on = if on {
            LightsAlwaysOn::Enable
        } else {
            LightsAlwaysOn::Disable
        };
        if self.core.device_present {
            match link.set_lights_always_on(lights_always_on) {
                Ok(_) => {
                    self.set_optional_status_message(
                        joined("Keyboard Backlight Always On ", enabled_word(on)),
                        now,
                    );
                    self.core.update_stored_device_state(link);
                },
                Err(e) => {
                    self.set_error_message(
                        failure("Failed to set lights always on", e.as_str()),
                        now,
                    );
                    self.core.show_lights_flag(!on);
                },
            }
        } else {
            self.set_no_device_message(now);
        }
    }

    /// Writes the battery-care flag of the status to the device.
    pub fn toggle_battery_care(&mut self, link: &mut Link, now: u64)
        ensures
            (final(self)@, final(link)@) == old(self)@.care_toggled(old(link)@, now),
    {
        reveal(Model::care_toggled);
        let on = self.core.status.battery_care;
        let battery_care = if on {
            BatteryCare::Enable
        } else {
            BatteryCare::Disable
        };
        if self.core.device_present {
            match link.set_battery_care(battery_care) {
                Ok(_) => {
                    self.set_optional_status_message(
                        joined("Battery care ", enabled_word(on)),
                        now,
                    );
                },
                Err(e) => {
                    self.set_error_message(failure("Failed to set battery care", e.as_str()), now);
                    self.core.show_care_flag(!on);
                },
            }
        } else {
            self.set_no_device_message(now);
        }
    }
}

/// Restoring the fan after a change of the performance mode, where both
/// writes succeed, asks for a pause, manual mode, a pause and the speed, in
/// this order, and leaves the status in manual mode at that speed.
pub proof fn fan_is_restored_in_order(m: Model, w: Wire, rpm: u16, now: u64)
    requires
        w.after(Op::Settle(SETTLE_MS)).done(Op::SetFanMode(FanMode::Manual)).is_ok(),
        w.after(Op::Settle(SETTLE_MS)).after(Op::SetFanMode(FanMode::Manual)).after(
            Op::Settle(SETTLE_MS),
        ).done(Op::SetFanRpm(rpm)).is_ok(),
    ensures
        m.fan_restored(w, rpm, now).1.asked == w.asked + seq![
            Op::Settle(SETTLE_MS),
            Op::SetFanMode(FanMode::Manual),
            Op::Settle(SETTLE_MS),
            Op::SetFanRpm(rpm),
        ],
        m.fan_restored(w, rpm, now).0.core.status.fan_speed == Some(FanMode::Manual),
        m.fan_restored(w, rpm, now).0.core.status.fan_rpm == Some(rpm),
        m.fan_restored(w, rpm, now).0.core.manual_fan_rpm == rpm,
        m.fan_restored(w, rpm, now).0.board == m.board,
{
    reveal(Model::fan_restored);
    assert(m.fan_restored(w, rpm, now).1.asked =~= w.asked + seq![
        Op::Settle(SETTLE_MS),
        Op::SetFanMode(FanMode::Manual),
        Op::Settle(SETTLE_MS),
        Op::SetFanRpm(rpm),
    ]);
}

} // verus!
