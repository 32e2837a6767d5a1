//! The read passes: procedures that bring the status snapshot and the
//! baseline up to date from the device. A failed read leaves the field as it
//! was, except where a pass is given up at its first failure.

use crate::device::{
    BatteryCare, CompleteDeviceState, DeviceStatus, FanMode, LightsAlwaysOn, LogoMode, PerfMode,
};
use crate::link::{got, told, Link, Op, Wire};
use crate::state::Core;
use crate::ui::{closest_step, raw_brightness_to_step_index};
use vstd::prelude::*;
use vstd::string::*;

verus! {

/// The value of an outcome, if it has one.
pub fn value_of<T>(r: Result<T, String>) -> (v: Option<T>)
    ensures
        v == got(told(r)),
{
    match r {
        Ok(value) => Some(value),
        Err(_) => None,
    }
}

/// The measured fan speed, or nothing if it cannot be read.
pub fn get_fan_rpm_actual(link: &mut Link) -> (rpm: Option<u16>)
    ensures
        final(link)@ == old(link)@.after(Op::GetFanActualRpm),
        rpm == got(old(link)@.rpm(Op::GetFanActualRpm)),
{
    value_of(link.get_fan_actual_rpm())
}

/// The configured fan speed, or nothing if it cannot be read.
pub fn get_fan_rpm_set(link: &mut Link) -> (rpm: Option<u16>)
    ensures
        final(link)@ == old(link)@.after(Op::GetFanRpm),
        rpm == got(old(link)@.rpm(Op::GetFanRpm)),
{
    value_of(link.get_fan_rpm())
}

/// What `get_fan_status_from_mode` does: in manual mode it reads the
/// configured speed, in automatic mode it reads nothing.
#[verifier::opaque]
pub open spec fn fan_status(w: Wire, fan_mode: FanMode) -> (Wire, Option<u16>) {
    match fan_mode {
        FanMode::Auto => (w, None),
        FanMode::Manual => (w.after(Op::GetFanRpm), got(w.rpm(Op::GetFanRpm))),
    }
}

/// The configured fan speed that goes with a fan mode.
pub fn get_fan_status_from_mode(fan_mode: FanMode, link: &mut Link) -> (rpm: Option<u16>)
    ensures
        (final(link)@, rpm) == fan_status(old(link)@, fan_mode),
{
    reveal(fan_status);
    match fan_mode {
        FanMode::Auto => None,
        FanMode::Manual => get_fan_rpm_set(link),
    }
}

/// What `read_current_fan_state` does: it reads the modes, once more if the
/// first read fails, takes automatic mode if both fail, and then reads the
/// configured speed.
#[verifier::opaque]
pub open spec fn current_fan_state(w: Wire) -> (Wire, FanMode, Option<u16>) {
    let w1 = w.after(Op::GetPerfMode);
    let (w2, fan_mode) = match w.modes() {
        Ok(modes) => (w1, modes.1),
        Err(_) => match w1.modes() {
            Ok(modes) => (w1.after(Op::GetPerfMode), modes.1),
            Err(_) => (w1.after(Op::GetPerfMode), FanMode::Auto),
        },
    };
    (w2.after(Op::GetFanRpm), fan_mode, got(w2.rpm(Op::GetFanRpm)))
}

/// The fan mode and the configured speed as the device reports them now.
pub fn read_current_fan_state(link: &mut Link) -> (state: (FanMode, Option<u16>))
    ensures
        (final(link)@, state.0, state.1) == current_fan_state(old(link)@),
{
    reveal(current_fan_state);
    let fan_mode = match link.get_perf_mode() {
        Ok(modes) => modes.1,
        Err(_) => match link.get_perf_mode() {
            Ok(modes) => modes.1,
            Err(_) => FanMode::Auto,
        },
    };
    let set_rpm = get_fan_rpm_set(link);
    (fan_mode, set_rpm)
}

/// What `CompleteDeviceState::read_from_device` does: the reads in their
/// order, given up at the first that fails.
#[verifier::opaque]
pub open spec fn full_state(w: Wire) -> (Wire, Result<CompleteDeviceState, Seq<char>>) {
    let w1 = w.after(Op::GetPerfMode);
    match w.modes() {
        Err(e) => (w1, Err(e)),
        Ok(modes) => {
            let rpm_read = match modes.1 {
                FanMode::Manual => (w1.after(Op::GetFanRpm), match w1.rpm(Op::GetFanRpm) {
                    Ok(rpm) => Ok(Some(rpm)),
                    Err(e) => Err(e),
                }),
                FanMode::Auto => (w1, Ok(None)),
            };
            let w2 = rpm_read.0;
            match rpm_read.1 {
                Err(e) => (w2, Err(e)),
                Ok(fan_rpm) => {
                    let w3 = w2.after(Op::GetLogoMode);
                    match w2.logo() {
                        Err(e) => (w3, Err(e)),
                        Ok(logo_mode) => {
                            let w4 = w3.after(Op::GetKeyboardBrightness);
                            match w3.brightness() {
                                Err(e) => (w4, Err(e)),
                                Ok(keyboard_brightness) => {
                                    let w5 = w4.after(Op::GetLightsAlwaysOn);
                                    match w4.lights() {
                                        Err(e) => (w5, Err(e)),
                                        Ok(lights_always_on) => {
                                            let w6 = w5.after(Op::GetBatteryCare);
                                            match w5.care() {
                                                Err(e) => (w6, Err(e)),
                                                Ok(battery_care) => (
                                                    w6,
                                                    Ok(
                                                        CompleteDeviceState {
                                                            perf_mode: modes.0,
                                                            fan_mode: modes.1,
                                                            fan_rpm,
                                                            logo_mode,
                                                            keyboard_brightness,
                                                            lights_always_on,
                                                            battery_care,
                                                        },
                                                    ),
                                                ),
                                            }
                                        },
                                    }
                                },
                            }
                        },
                    }
                },
            }
        },
    }
}

impl CompleteDeviceState {
    /// Reads every setting of the snapshot. The first read that fails ends
    /// the pass with its message.
    pub fn read_from_device(link: &mut Link) -> (r: Result<CompleteDeviceState, String>)
        ensures
            (final(link)@, told(r)) == full_state(old(link)@),
    {
        reveal(full_state);
        let (perf_mode, fan_mode) = match link.get_perf_mode() {
            Ok(modes) => modes,
            Err(e) => return Err(e),
        };
        let fan_rpm = match fan_mode {
            FanMode::Manual => match link.get_fan_rpm() {
                Ok(rpm) => Some(rpm),
                Err(e) => return Err(e),
            },
            FanMode::Auto => None,
        };
        let logo_mode = match link.get_logo_mode() {
            Ok(mode) => mode,
            Err(e) => return Err(e),
        };
        let keyboard_brightness = match link.get_keyboard_brightness() {
            Ok(level) => level,
            Err(e) => return Err(e),
        };
        let lights_always_on = match link.get_lights_always_on() {
            Ok(flag) => flag,
            Err(e) => return Err(e),
        };
        let battery_care = match link.get_battery_care() {
            Ok(flag) => flag,
            Err(e) => return Err(e),
        };
        Ok(
            CompleteDeviceState {
                perf_mode,
                fan_mode,
                fan_rpm,
                logo_mode,
                keyboard_brightness,
                lights_always_on,
                battery_care,
            },
        )
    }
}

impl Core {
    /// The state with the fan mode and the configured speed that were read;
    /// a speed that was read also moves the slider if `slider` is set.
    pub open spec fn with_fan(self, fan_mode: FanMode, rpm: Option<u16>, slider: bool) -> Core {
        Core {
            status: DeviceStatus { fan_speed: Some(fan_mode), fan_rpm: rpm, ..self.status },
            manual_fan_rpm: match rpm {
                Some(value) => if slider {
                    value
                } else {
                    self.manual_fan_rpm
                },
                None => self.manual_fan_rpm,
            },
            ..self
        }
    }

    /// The state with the keyboard brightness that was read, if it was.
    pub open spec fn with_brightness(self, level: Result<u8, Seq<char>>) -> Core {
        match level {
            Ok(value) => Core {
                status: DeviceStatus { keyboard_brightness: value, ..self.status },
                temp_brightness_step: closest_step(value) as usize,
                ..self
            },
            Err(_) => self,
        }
    }

    /// The state with the logo mode that was read, if it was.
    pub open spec fn with_logo(self, mode: Result<LogoMode, Seq<char>>) -> Core {
        match mode {
            Ok(value) => Core {
                status: DeviceStatus { logo_mode: Some(value), ..self.status },
                ..self
            },
            Err(_) => self,
        }
    }

    /// The state with the lights-always-on flag that was read, if it was.
    pub open spec fn with_lights(self, flag: Result<LightsAlwaysOn, Seq<char>>) -> Core {
        match flag {
            Ok(value) => Core {
                status: DeviceStatus {
                    lights_always_on: value == LightsAlwaysOn::Enable,
                    ..self.status
                },
                ..self
            },
            Err(_) => self,
        }
    }

    /// The state with the battery-care flag that was read, if it was.
    pub open spec fn with_care(self, flag: Result<BatteryCare, Seq<char>>) -> Core {
        match flag {
            Ok(value) => Core {
                status: DeviceStatus { battery_care: value == BatteryCare::Enable, ..self.status },
                ..self
            },
            Err(_) => self,
        }
    }

    /// The state that shows a performance mode.
    pub open spec fn with_mode(self, mode: PerfMode) -> Core {
        Core { status: DeviceStatus { performance_mode: Some(mode), ..self.status }, ..self }
    }

    pub(crate) fn take_mode(&mut self, mode: PerfMode)
        ensures
            *final(self) == old(self).with_mode(mode),
    {
        self.status.performance_mode = Some(mode);
    }

    pub(crate) fn take_fan(&mut self, fan_mode: FanMode, rpm: Option<u16>, slider: bool)
        ensures
            *final(self) == old(self).with_fan(fan_mode, rpm, slider),
    {
        self.status.fan_speed = Some(fan_mode);
        self.status.fan_rpm = rpm;
        if slider {
            if let Some(value) = rpm {
                self.manual_fan_rpm = value;
            }
        }
    }

    pub(crate) fn take_brightness(&mut self, level: Result<u8, String>)
        ensures
            *final(self) == old(self).with_brightness(told(level)),
    {
        if let Ok(value) = level {
            self.status.keyboard_brightness = value;
            self.temp_brightness_step = raw_brightness_to_step_index(value);
        }
    }

    pub(crate) fn take_logo(&mut self, mode: Result<LogoMode, String>)
        ensures
            *final(self) == old(self).with_logo(told(mode)),
    {
        if let Ok(value) = mode {
            self.status.logo_mode = Some(value);
        }
    }

    pub(crate) fn take_lights(&mut self, flag: Result<LightsAlwaysOn, String>)
        ensures
            *final(self) == old(self).with_lights(told(flag)),
    {
        if let Ok(value) = flag {
            self.status.lights_always_on = value == LightsAlwaysOn::Enable;
        }
    }

    pub(crate) fn take_care(&mut self, flag: Result<BatteryCare, String>)
        ensures
            *final(self) == old(self).with_care(told(flag)),
    {
        if let Ok(value) = flag {
            self.status.battery_care = value == BatteryCare::Enable;
        }
    }

    /// What `read_device_status` does. Without the modes nothing else is
    /// read and nothing changes; with them every further read is made, and
    /// each that succeeds updates its field.
    #[verifier::opaque]
    pub open spec fn device_status_read(self, w: Wire) -> (Core, Wire, Result<(), Seq<char>>) {
        let w1 = w.after(Op::GetPerfMode);
        match w.modes() {
            Err(e) => (self, w1, Err(e)),
            Ok(modes) => {
                let fan = fan_status(w1, modes.1);
                let w2 = fan.0;
                let w3 = w2.after(Op::GetFanActualRpm);
                let w4 = w3.after(Op::GetLogoMode);
                let w5 = w4.after(Op::GetKeyboardBrightness);
                let w6 = w5.after(Op::GetLightsAlwaysOn);
                let w7 = w6.after(Op::GetBatteryCare);
                let c1 = self.with_mode(modes.0).with_fan(modes.1, fan.1, true);
                let c2 = Core {
                    status: DeviceStatus {
                        fan_actual_rpm: got(w2.rpm(Op::GetFanActualRpm)),
                        ..c1.status
                    },
                    ..c1
                };
                (
                    c2.with_logo(w3.logo()).with_brightness(w4.brightness()).with_lights(
                        w5.lights(),
                    ).with_care(w6.care()),
                    w7,
                    Ok(()),
                )
            },
        }
    }

    /// Reads the whole status from the device. Fails, with nothing changed,
    /// only if the performance mode cannot be read.
    pub fn read_device_status(&mut self, link: &mut Link) -> (r: Result<(), String>)
        requires
            old(self).device_present,
        ensures
            (*final(self), final(link)@, told(r)) == old(self).device_status_read(old(link)@),
    {
        reveal(Core::device_status_read);
        let (perf_mode, fan_mode) = match link.get_perf_mode() {
            Ok(modes) => modes,
            Err(e) => return Err(e),
        };
        self.status.performance_mode = Some(perf_mode);
        let fan_rpm = get_fan_status_from_mode(fan_mode, link);
        self.take_fan(fan_mode, fan_rpm, true);
        self.status.fan_actual_rpm = get_fan_rpm_actual(link);
        self.take_logo(link.get_logo_mode());
        self.take_brightness(link.get_keyboard_brightness());
        self.take_lights(link.get_lights_always_on());
        self.take_care(link.get_battery_care());
        Ok(())
    }

    /// What `sync_ui_with_device_state` does.
    #[verifier::opaque]
    pub open spec fn ui_synced(self, w: Wire) -> (Core, Wire) {
        if !self.device_present {
            (self, w)
        } else {
            let lit = if self.brightness_slider_active {
                (self, w)
            } else {
                (self.with_brightness(w.brightness()), w.after(Op::GetKeyboardBrightness))
            };
            let fan = lit.0.fan_slider_set(lit.1);
            let w3 = fan.1.after(Op::GetLightsAlwaysOn);
            (fan.0.with_lights(fan.1.lights()).with_care(w3.care()), w3.after(Op::GetBatteryCare))
        }
    }

    /// Brings brightness, fan settings and the two toggles up to date. The
    /// brightness is left alone while the user moves its slider.
    pub fn sync_ui_with_device_state(&mut self, link: &mut Link)
        ensures
            (*final(self), final(link)@) == old(self).ui_synced(old(link)@),
    {
        reveal(Core::ui_synced);
        if self.device_present {
            if !self.brightness_slider_active {
                self.take_brightness(link.get_keyboard_brightness());
            }
            self.init_fan_slider_from_device(link);
            self.take_lights(link.get_lights_always_on());
            self.take_care(link.get_battery_care());
        }
    }

    /// What `sync_other_dynamic_state` does.
    #[verifier::opaque]
    pub open spec fn toggles_synced(self, w: Wire) -> (Core, Wire) {
        if !self.device_present {
            (self, w)
        } else {
            let w1 = w.after(Op::GetLightsAlwaysOn);
            (self.with_lights(w.lights()).with_care(w1.care()), w1.after(Op::GetBatteryCare))
        }
    }

    /// Brings the two toggles up to date.
    pub fn sync_other_dynamic_state(&mut self, link: &mut Link)
        ensures
            (*final(self), final(link)@) == old(self).toggles_synced(old(link)@),
    {
        reveal(Core::toggles_synced);
        if self.device_present {
            self.take_lights(link.get_lights_always_on());
            self.take_care(link.get_battery_care());
        }
    }

    /// What `read_essential_device_state` does.
    #[verifier::opaque]
    pub open spec fn essentials_read(self, w: Wire) -> (Core, Wire, Result<(), Seq<char>>) {
        let w1 = w.after(Op::GetPerfMode);
        match w.modes() {
            Err(e) => (self, w1, Err(e)),
            Ok(modes) => {
                let fan = fan_status(w1, modes.1);
                (
                    self.with_mode(modes.0).with_fan(modes.1, fan.1, true).with_logo(fan.0.logo()),
                    fan.0.after(Op::GetLogoMode),
                    Ok(()),
                )
            },
        }
    }

    /// Reads only what changes often: performance mode, fan state, logo mode.
    pub fn read_essential_device_state(&mut self, link: &mut Link) -> (r: Result<(), String>)
        requires
            old(self).device_present,
        ensures
            (*final(self), final(link)@, told(r)) == old(self).essentials_read(old(link)@),
    {
        reveal(Core::essentials_read);
        let (perf_mode, fan_mode) = match link.get_perf_mode() {
            Ok(modes) => modes,
            Err(e) => return Err(e),
        };
        self.status.performance_mode = Some(perf_mode);
        let fan_rpm = get_fan_status_from_mode(fan_mode, link);
        self.take_fan(fan_mode, fan_rpm, true);
        self.take_logo(link.get_logo_mode());
        Ok(())
    }

    /// What `init_fan_slider_from_device` does: the fan mode and the
    /// configured speed are read, and a speed that was read moves the slider.
    #[verifier::opaque]
    pub open spec fn fan_slider_set(self, w: Wire) -> (Core, Wire) {
        if !self.device_present {
            (self, w)
        } else {
            let now_fan = current_fan_state(w);
            let fan = fan_status(now_fan.0, now_fan.1);
            let c1 = self.with_fan(now_fan.1, fan.1, false);
            (
                Core {
                    manual_fan_rpm: match now_fan.2 {
                        Some(rpm) => rpm,
                        None => c1.manual_fan_rpm,
                    },
                    ..c1
                },
                fan.0,
            )
        }
    }

    /// Sets the fan slider to the speed configured on the device.
    pub fn init_fan_slider_from_device(&mut self, link: &mut Link)
        ensures
            (*final(self), final(link)@) == old(self).fan_slider_set(old(link)@),
    {
        reveal(Core::fan_slider_set);
        if self.device_present {
            let (fan_mode, set_rpm) = read_current_fan_state(link);
            let fan_rpm = get_fan_status_from_mode(fan_mode, link);
            self.take_fan(fan_mode, fan_rpm, false);
            if let Some(rpm) = set_rpm {
                self.manual_fan_rpm = rpm;
            }
        }
    }

    /// What `update_stored_device_state` does: a full read that succeeds
    /// replaces the baseline.
    #[verifier::opaque]
    pub open spec fn baseline_refreshed(self, w: Wire) -> (Core, Wire) {
        if !self.device_present {
            (self, w)
        } else {
            let read = full_state(w);
            (
                match read.1 {
                    Ok(state) => Core { device_state: Some(state), ..self },
                    Err(_) => self,
                },
                read.0,
            )
        }
    }

    /// Takes a new baseline from the device.
    pub fn update_stored_device_state(&mut self, link: &mut Link)
        ensures
            (*final(self), final(link)@) == old(self).baseline_refreshed(old(link)@),
    {
        reveal(Core::baseline_refreshed);
        if self.device_present {
            if let Ok(current_state) = CompleteDeviceState::read_from_device(link) {
                self.device_state = Some(current_state);
            }
        }
    }

    /// What `enforce_manual_fan_rpm` does: in manual mode the configured
    /// speed is read and written back as it is; only where both succeed does
    /// anything change.
    #[verifier::opaque]
    pub open spec fn fan_rpm_enforced(self, w: Wire, now: u64) -> (Core, Wire) {
        if self.status.fan_speed != Some(FanMode::Manual) || !self.device_present {
            (self, w)
        } else {
            let w1 = w.after(Op::GetFanRpm);
            match w.rpm(Op::GetFanRpm) {
                Err(_) => (self, w1),
                Ok(rpm) => (
                    match w1.done(Op::SetFanRpm(rpm)) {
                        Ok(_) => Core {
                            manual_fan_rpm: rpm,
                            status: DeviceStatus { fan_rpm: Some(rpm), ..self.status },
                            last_fan_enforce_time: now,
                            ..self
                        },
                        Err(_) => self,
                    },
                    w1.after(Op::SetFanRpm(rpm)),
                ),
            }
        }
    }

    /// Writes the configured fan speed back to the device, so that a drift of
    /// the setting does not last. Failures pass in silence.
    pub fn enforce_manual_fan_rpm(&mut self, link: &mut Link, now: u64)
        ensures
            (*final(self), final(link)@) == old(self).fan_rpm_enforced(old(link)@, now),
    {
        reveal(Core::fan_rpm_enforced);
        if self.status.fan_speed == Some(FanMode::Manual) {
            if self.device_present {
                if let Some(current_set_rpm) = get_fan_rpm_set(link) {
                    if let Ok(_) = link.set_fan_rpm(current_set_rpm) {
                        self.manual_fan_rpm = current_set_rpm;
                        self.status.fan_rpm = Some(current_set_rpm);
                        self.last_fan_enforce_time = now;
                    }
                }
            }
        }
    }
}

} // verus!
