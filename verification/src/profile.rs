//! Profiles for mains and battery power, and the switch between them when
//! the power source changes.

use crate::device::CompleteDeviceState;
use crate::link::{told, Link, Op, Wire};
use crate::state::{Core, Model, Scheduler};
use crate::text::{failure, failure_text};
use vstd::prelude::*;
use vstd::string::*;

verus! {

/// What `apply_profile` does: the five settings in their fixed order, given
/// up at the first write that fails. The brightness is written only if the
/// device does not report that value already.
#[verifier::opaque]
pub open spec fn profile_applied(w: Wire, profile: CompleteDeviceState) -> (
    Wire,
    Result<(), Seq<char>>,
) {
    let set_mode = Op::SetPerfMode(profile.perf_mode);
    let set_logo = Op::SetLogoMode(profile.logo_mode);
    let set_level = Op::SetKeyboardBrightness(profile.keyboard_brightness);
    let set_lights = Op::SetLightsAlwaysOn(profile.lights_always_on);
    let set_care = Op::SetBatteryCare(profile.battery_care);
    let w1 = w.after(set_mode);
    match w.done(set_mode) {
        Err(e) => (w1, Err(e)),
        Ok(_) => {
            let w2 = w1.after(set_logo);
            match w1.done(set_logo) {
                Err(e) => (w2, Err(e)),
                Ok(_) => {
                    let w3 = w2.after(Op::GetKeyboardBrightness);
                    let level = if w2.brightness() == Ok::<u8, Seq<char>>(
                        profile.keyboard_brightness,
                    ) {
                        (w3, Ok(()))
                    } else {
                        (w3.after(set_level), w3.done(set_level))
                    };
                    let w4 = level.0;
                    match level.1 {
                        Err(e) => (w4, Err(e)),
                        Ok(_) => {
                            let w5 = w4.after(set_lights);
                            match w4.done(set_lights) {
                                Err(e) => (w5, Err(e)),
                                Ok(_) => (w5.after(set_care), w5.done(set_care)),
                            }
                        },
                    }
                },
            }
        },
    }
}

/// Writes every setting of a profile to the device, in the order performance
/// mode, logo mode, brightness, lights-always-on, battery care.
pub fn apply_profile(link: &mut Link, profile: &CompleteDeviceState) -> (r: Result<(), String>)
    ensures
        (final(link)@, told(r)) == profile_applied(old(link)@, *profile),
{
    reveal(profile_applied);
    if let Err(e) = link.set_perf_mode(profile.perf_mode) {
        return Err(e);
    }
    if let Err(e) = link.set_logo_mode(profile.logo_mode) {
        return Err(e);
    }
    let unchanged = match link.get_keyboard_brightness() {
        Ok(current_brightness) => current_brightness == profile.keyboard_brightness,
        Err(_) => false,
    };
    if !unchanged {
        if let Err(e) = link.set_keyboard_brightness(profile.keyboard_brightness) {
            return Err(e);
        }
    }
    if let Err(e) = link.set_lights_always_on(profile.lights_always_on) {
        return Err(e);
    }
    link.set_battery_care(profile.battery_care)
}

/// Where every operation succeeds, applying a profile asks for exactly these
/// operations, in this order: performance mode, logo mode, the brightness
/// read, the brightness write unless the value is already there,
/// lights-always-on, battery care.
pub proof fn profile_is_applied_in_order(w: Wire, profile: CompleteDeviceState)
    requires
        profile_applied(w, profile).1.is_ok(),
    ensures
        profile_applied(w, profile).0.script == w.script,
        profile_applied(w, profile).0.asked == w.asked + if w.after(
            Op::SetPerfMode(profile.perf_mode),
        ).after(Op::SetLogoMode(profile.logo_mode)).brightness() == Ok::<u8, Seq<char>>(
            profile.keyboard_brightness,
        ) {
            seq![
                Op::SetPerfMode(profile.perf_mode),
                Op::SetLogoMode(profile.logo_mode),
                Op::GetKeyboardBrightness,
                Op::SetLightsAlwaysOn(profile.lights_always_on),
                Op::SetBatteryCare(profile.battery_care),
            ]
        } else {
            seq![
                Op::SetPerfMode(profile.perf_mode),
                Op::SetLogoMode(profile.logo_mode),
                Op::GetKeyboardBrightness,
                Op::SetKeyboardBrightness(profile.keyboard_brightness),
                Op::SetLightsAlwaysOn(profile.lights_always_on),
                Op::SetBatteryCare(profile.battery_care),
            ]
        },
{
    reveal(profile_applied);
    assert(profile_applied(w, profile).0.asked =~= w.asked + if w.after(
        Op::SetPerfMode(profile.perf_mode),
    ).after(Op::SetLogoMode(profile.logo_mode)).brightness() == Ok::<u8, Seq<char>>(
        profile.keyboard_brightness,
    ) {
        seq![
            Op::SetPerfMode(profile.perf_mode),
            Op::SetLogoMode(profile.logo_mode),
            Op::GetKeyboardBrightness,
            Op::SetLightsAlwaysOn(profile.lights_always_on),
            Op::SetBatteryCare(profile.battery_care),
        ]
    } else {
        seq![
            Op::SetPerfMode(profile.perf_mode),
            Op::SetLogoMode(profile.logo_mode),
            Op::GetKeyboardBrightness,
            Op::SetKeyboardBrightness(profile.keyboard_brightness),
            Op::SetLightsAlwaysOn(profile.lights_always_on),
            Op::SetBatteryCare(profile.battery_care),
        ]
    });
}

/// Name of the profile for a power source.
pub open spec fn profile_name(ac_power: bool) -> Seq<char> {
    if ac_power {
        "AC"@
    } else {
        "Battery"@
    }
}

/// Text of the error shown where the switch to a profile fails.
pub open spec fn switch_failed_text(ac_power: bool, cause: Seq<char>) -> Seq<char> {
    "Failed to switch to "@ + profile_name(ac_power) + " profile: "@ + cause
}

/// Text that announces the switch to a profile.
pub open spec fn switched_text(ac_power: bool) -> Seq<char> {
    "⚡ Auto-switched to "@ + profile_name(ac_power) + " profile"@
}

/// Text of the error shown where applying the whole profile fails.
pub open spec fn fallback_failed_text(cause: Seq<char>) -> Seq<char> {
    failure_text("Failed to apply fallback profile"@, cause)
}

fn name_of_profile(ac_power: bool) -> (name: &'static str)
    ensures
        name@ == profile_name(ac_power),
{
    if ac_power {
        "AC"
    } else {
        "Battery"
    }
}

impl Core {
    /// The profile for the current power source.
    pub fn current_target(&self) -> (target: CompleteDeviceState)
        ensures
            target == self.target_profile(),
    {
        if self.ac_power {
            self.ac_profile
        } else {
            self.battery_profile
        }
    }
}

impl Model {
    /// The first step of a profile switch: the profile's performance mode is
    /// written. A failure is shown as an error; a success changes the label
    /// and is announced. The flag tells whether the write succeeded.
    #[verifier::opaque]
    pub open spec fn mode_switched(self, w: Wire, now: u64) -> (Model, Wire, bool) {
        let target = self.core.target_profile();
        let ac = self.core.ac_power;
        let set_mode = Op::SetPerfMode(target.perf_mode);
        match w.done(set_mode) {
            Err(e) => (self.alarmed(switch_failed_text(ac, e), now), w.after(set_mode), false),
            Ok(_) => (
                self.with_core(self.core.with_mode(target.perf_mode)).noted(switched_text(ac), now),
                w.after(set_mode),
                true,
            ),
        }
    }

    /// The second step of a profile switch: the status is read back, which
    /// keeps what the user had set; only if that read fails is the whole
    /// profile applied, and a failure of that is shown as an error.
    #[verifier::opaque]
    pub open spec fn profile_settled(self, w: Wire, now: u64) -> (Model, Wire) {
        let read = self.core.device_status_read(w);
        let seen = self.with_core(read.0);
        match read.2 {
            Ok(_) => (seen, read.1),
            Err(_) => {
                let applied = profile_applied(read.1, self.core.target_profile());
                (
                    match applied.1 {
                        Ok(_) => seen,
                        Err(e) => seen.alarmed(fallback_failed_text(e), now),
                    },
                    applied.0,
                )
            },
        }
    }

    /// What `auto_switch_profile` does. The profile's performance mode is
    /// written first; if that fails, an error is shown and nothing else is
    /// done. Otherwise the status is read back, or failing that the whole
    /// profile applied, and in the end the baseline and the interface state
    /// are refreshed from the device.
    #[verifier::opaque]
    pub open spec fn profile_switched(self, w: Wire, now: u64) -> (Model, Wire) {
        let first = self.mode_switched(w, now);
        if !first.2 {
            (first.0, first.1)
        } else {
            let settled = first.0.profile_settled(first.1, now);
            let refreshed = settled.0.core.baseline_refreshed(settled.1);
            let synced = refreshed.0.ui_synced(refreshed.1);
            (settled.0.with_core(synced.0), synced.1)
        }
    }
}

impl Scheduler {
    /// Writes the performance mode of the current profile and shows the
    /// outcome.
    pub fn switch_mode(&mut self, link: &mut Link, now: u64) -> (written: bool)
        ensures
            (final(self)@, final(link)@, written) == old(self)@.mode_switched(old(link)@, now),
    {
        reveal(Model::mode_switched);
        let target_profile = self.core.current_target();
        let profile_name = name_of_profile(self.core.ac_power);
        match link.set_perf_mode(target_profile.perf_mode) {
            Err(e) => {
                let mut text = String::from_str("Failed to switch to ");
                text.append(profile_name);
                text.append(" profile: ");
                text.append(e.as_str());
                self.set_error_message(text, now);
                false
            },
            Ok(_) => {
                self.core.take_mode(target_profile.perf_mode);
                let mut text = String::from_str("⚡ Auto-switched to ");
                text.append(profile_name);
                text.append(" profile");
                self.set_status_message(text, now);
                true
            },
        }
    }

    /// Reads the status back after the mode was switched, or applies the
    /// whole profile if the status cannot be read.
    pub fn settle_profile(&mut self, link: &mut Link, now: u64)
        requires
            old(self).core.device_present,
        ensures
            (final(self)@, final(link)@) == old(self)@.profile_settled(old(link)@, now),
    {
        reveal(Model::profile_settled);
        let target_profile = self.core.current_target();
        if let Err(_) = self.core.read_device_status(link) {
            if let Err(e) = apply_profile(link, &target_profile) {
                self.set_error_message(failure("Failed to apply fallback profile", e.as_str()), now);
            }
        }
    }

    /// Applies the profile of the current power source after the source has
    /// changed.
    pub fn auto_switch_profile(&mut self, link: &mut Link, now: u64)
        requires
            old(self).core.device_present,
        ensures
            (final(self)@, final(link)@) == old(self)@.profile_switched(old(link)@, now),
    {
        reveal(Model::profile_switched);
        if !self.switch_mode(link, now) {
            return ;
        }
        proof {
            reveal(Model::mode_switched);
        }
        self.settle_profile(link, now);
        self.core.update_stored_device_state(link);
        self.core.sync_ui_with_device_state(link);
    }
}

} // verus!
