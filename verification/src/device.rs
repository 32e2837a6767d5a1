//! Device domain types: operating modes, their display labels, and the two
//! snapshots of device state.

use crate::text::same_text;
use vstd::prelude::*;
use vstd::string::*;

verus! {

/// Coarse operating profile of the machine.
#[derive(Debug, Clone, Copy, PartialEq, Eq, Structural)]
pub enum PerfMode {
    Battery,
    Silent,
    Balanced,
    Performance,
    Hyperboost,
    Custom,
}

/// Who controls the fans.
#[derive(Debug, Clone, Copy, PartialEq, Eq, Structural)]
pub enum FanMode {
    Auto,
    Manual,
}

/// Lighting of the lid logo.
#[derive(Debug, Clone, Copy, PartialEq, Eq, Structural)]
pub enum LogoMode {
    Off,
    Breathing,
    Static,
}

/// Whether the lights stay on while the machine sleeps.
#[derive(Debug, Clone, Copy, PartialEq, Eq, Structural)]
pub enum LightsAlwaysOn {
    Enable,
    Disable,
}

/// Whether charging stops early to spare the battery.
#[derive(Debug, Clone, Copy, PartialEq, Eq, Structural)]
pub enum BatteryCare {
    Disable,
    Enable,
}

/// Every performance mode, in the order in which they are tried and listed.
pub open spec fn perf_mode_universe() -> Seq<PerfMode> {
    seq![
        PerfMode::Battery,
        PerfMode::Silent,
        PerfMode::Balanced,
        PerfMode::Performance,
        PerfMode::Hyperboost,
        PerfMode::Custom,
    ]
}

/// Every performance mode occurs in the universe.
pub proof fn universe_is_complete(mode: PerfMode)
    ensures
        perf_mode_universe().contains(mode),
{
    let u = perf_mode_universe();
    match mode {
        PerfMode::Battery => assert(u[0] == mode),
        PerfMode::Silent => assert(u[1] == mode),
        PerfMode::Balanced => assert(u[2] == mode),
        PerfMode::Performance => assert(u[3] == mode),
        PerfMode::Hyperboost => assert(u[4] == mode),
        PerfMode::Custom => assert(u[5] == mode),
    }
}

/// Every performance mode, in the order of the universe.
pub fn all_perf_modes() -> (modes: Vec<PerfMode>)
    ensures
        modes@ == perf_mode_universe(),
{
    let mut modes: Vec<PerfMode> = Vec::new();
    modes.push(PerfMode::Battery);
    modes.push(PerfMode::Silent);
    modes.push(PerfMode::Balanced);
    modes.push(PerfMode::Performance);
    modes.push(PerfMode::Hyperboost);
    modes.push(PerfMode::Custom);
    assert(modes@ =~= perf_mode_universe());
    modes
}

/// Canonical label of a performance mode.
pub open spec fn perf_mode_label(mode: PerfMode) -> Seq<char> {
    match mode {
        PerfMode::Battery => "Battery"@,
        PerfMode::Silent => "Silent"@,
        PerfMode::Balanced => "Balanced"@,
        PerfMode::Performance => "Performance"@,
        PerfMode::Hyperboost => "Hyperboost"@,
        PerfMode::Custom => "Custom"@,
    }
}

/// Canonical label of a fan mode.
pub open spec fn fan_mode_label(mode: FanMode) -> Seq<char> {
    match mode {
        FanMode::Auto => "Auto"@,
        FanMode::Manual => "Manual"@,
    }
}

/// Canonical label of a logo mode.
pub open spec fn logo_mode_label(mode: LogoMode) -> Seq<char> {
    match mode {
        LogoMode::Static => "Static"@,
        LogoMode::Breathing => "Breathing"@,
        LogoMode::Off => "Off"@,
    }
}

/// Label shown for a setting that has not been read yet.
pub open spec fn reading_label() -> Seq<char> {
    "Reading..."@
}

/// The mode that a label names, if any.
pub open spec fn perf_mode_named(label: Seq<char>) -> Option<PerfMode> {
    if label == perf_mode_label(PerfMode::Battery) {
        Some(PerfMode::Battery)
    } else if label == perf_mode_label(PerfMode::Silent) {
        Some(PerfMode::Silent)
    } else if label == perf_mode_label(PerfMode::Balanced) {
        Some(PerfMode::Balanced)
    } else if label == perf_mode_label(PerfMode::Performance) {
        Some(PerfMode::Performance)
    } else if label == perf_mode_label(PerfMode::Hyperboost) {
        Some(PerfMode::Hyperboost)
    } else if label == perf_mode_label(PerfMode::Custom) {
        Some(PerfMode::Custom)
    } else {
        None
    }
}

/// The logo mode that a label names, if any.
pub open spec fn logo_mode_named(label: Seq<char>) -> Option<LogoMode> {
    if label == logo_mode_label(LogoMode::Static) {
        Some(LogoMode::Static)
    } else if label == logo_mode_label(LogoMode::Breathing) {
        Some(LogoMode::Breathing)
    } else if label == logo_mode_label(LogoMode::Off) {
        Some(LogoMode::Off)
    } else {
        None
    }
}

/// Canonical label of a performance mode.
pub fn perf_mode_name(mode: PerfMode) -> (label: &'static str)
    ensures
        label@ == perf_mode_label(mode),
{
    match mode {
        PerfMode::Battery => "Battery",
        PerfMode::Silent => "Silent",
        PerfMode::Balanced => "Balanced",
        PerfMode::Performance => "Performance",
        PerfMode::Hyperboost => "Hyperboost",
        PerfMode::Custom => "Custom",
    }
}

/// Display string of a performance mode.
pub fn perf_mode_to_string(mode: PerfMode) -> (label: String)
    ensures
        label@ == perf_mode_label(mode),
{
    String::from_str(perf_mode_name(mode))
}

/// The performance mode with the given display string.
pub fn string_to_perf_mode(mode: &str) -> (found: Option<PerfMode>)
    ensures
        found == perf_mode_named(mode@),
{
    if same_text(mode, "Battery") {
        Some(PerfMode::Battery)
    } else if same_text(mode, "Silent") {
        Some(PerfMode::Silent)
    } else if same_text(mode, "Balanced") {
        Some(PerfMode::Balanced)
    } else if same_text(mode, "Performance") {
        Some(PerfMode::Performance)
    } else if same_text(mode, "Hyperboost") {
        Some(PerfMode::Hyperboost)
    } else if same_text(mode, "Custom") {
        Some(PerfMode::Custom)
    } else {
        None
    }
}

/// Display string of a fan mode.
pub fn fan_mode_name(mode: FanMode) -> (label: &'static str)
    ensures
        label@ == fan_mode_label(mode),
{
    match mode {
        FanMode::Auto => "Auto",
        FanMode::Manual => "Manual",
    }
}

/// Display string of a logo mode.
pub fn logo_mode_to_string(mode: LogoMode) -> (label: &'static str)
    ensures
        label@ == logo_mode_label(mode),
{
    match mode {
        LogoMode::Static => "Static",
        LogoMode::Breathing => "Breathing",
        LogoMode::Off => "Off",
    }
}

/// The logo mode with the given display string.
pub fn string_to_logo_mode(mode: &str) -> (found: Option<LogoMode>)
    ensures
        found == logo_mode_named(mode@),
{
    if same_text(mode, "Static") {
        Some(LogoMode::Static)
    } else if same_text(mode, "Breathing") {
        Some(LogoMode::Breathing)
    } else if same_text(mode, "Off") {
        Some(LogoMode::Off)
    } else {
        None
    }
}

/// The labels of the performance modes are distinct: turning a mode into its
/// label and back gives the mode.
pub proof fn perf_mode_label_round_trip(mode: PerfMode)
    ensures
        perf_mode_named(perf_mode_label(mode)) == Some(mode),
{
    reveal_strlit("Battery");
    reveal_strlit("Silent");
    reveal_strlit("Balanced");
    reveal_strlit("Performance");
    reveal_strlit("Hyperboost");
    reveal_strlit("Custom");
    let b = "Battery"@;
    let s = "Silent"@;
    let l = "Balanced"@;
    let p = "Performance"@;
    let h = "Hyperboost"@;
    let c = "Custom"@;
    assert(b.len() == 7 && s.len() == 6 && l.len() == 8 && p.len() == 11 && h.len() == 10
        && c.len() == 6);
    assert(s[0] == 'S' && c[0] == 'C');
}

/// The labels of the logo modes are distinct.
pub proof fn logo_mode_label_round_trip(mode: LogoMode)
    ensures
        logo_mode_named(logo_mode_label(mode)) == Some(mode),
{
    reveal_strlit("Static");
    reveal_strlit("Breathing");
    reveal_strlit("Off");
    assert("Static"@.len() == 6 && "Breathing"@.len() == 9 && "Off"@.len() == 3);
}

/// A full snapshot of the settings, compared field by field to find changes
/// made from outside.
#[derive(Debug, Clone, Copy, PartialEq, Eq, Structural)]
pub struct CompleteDeviceState {
    pub perf_mode: PerfMode,
    pub fan_mode: FanMode,
    /// Configured fan speed; present only in manual mode.
    pub fan_rpm: Option<u16>,
    pub logo_mode: LogoMode,
    pub keyboard_brightness: u8,
    pub lights_always_on: LightsAlwaysOn,
    pub battery_care: BatteryCare,
}

impl CompleteDeviceState {
    /// The settings of the mains profile.
    pub open spec fn standard() -> CompleteDeviceState {
        CompleteDeviceState {
            perf_mode: PerfMode::Performance,
            fan_mode: FanMode::Auto,
            fan_rpm: None,
            logo_mode: LogoMode::Off,
            keyboard_brightness: 50,
            lights_always_on: LightsAlwaysOn::Disable,
            battery_care: BatteryCare::Enable,
        }
    }

    /// Whether this snapshot differs from `other` in any field.
    pub fn differs_from(&self, other: &CompleteDeviceState) -> (changed: bool)
        ensures
            changed == (*self != *other),
            changed == (self.perf_mode != other.perf_mode || self.fan_mode != other.fan_mode
                || self.fan_rpm != other.fan_rpm || self.logo_mode != other.logo_mode
                || self.keyboard_brightness != other.keyboard_brightness || self.lights_always_on
                != other.lights_always_on || self.battery_care != other.battery_care),
    {
        *self != *other
    }
}

impl Default for CompleteDeviceState {
    fn default() -> (state: Self)
        ensures
            state == CompleteDeviceState::standard(),
    {
        CompleteDeviceState {
            perf_mode: PerfMode::Performance,
            fan_mode: FanMode::Auto,
            fan_rpm: None,
            logo_mode: LogoMode::Off,
            keyboard_brightness: 50,
            lights_always_on: LightsAlwaysOn::Disable,
            battery_care: BatteryCare::Enable,
        }
    }
}

/// A snapshot equals itself, and two snapshots are equal exactly when every
/// field is: a change of one field alone makes them differ.
pub proof fn snapshot_equality_is_fieldwise(a: CompleteDeviceState, b: CompleteDeviceState)
    ensures
        a == a,
        (a == b) <==> (a.perf_mode == b.perf_mode && a.fan_mode == b.fan_mode && a.fan_rpm
            == b.fan_rpm && a.logo_mode == b.logo_mode && a.keyboard_brightness
            == b.keyboard_brightness && a.lights_always_on == b.lights_always_on && a.battery_care
            == b.battery_care),
        forall|level: u8|
            level != a.keyboard_brightness ==> (CompleteDeviceState {
                keyboard_brightness: level,
                ..a
            }) != a,
        forall|mode: PerfMode| mode != a.perf_mode ==> (CompleteDeviceState { perf_mode: mode, ..a }) != a,
        forall|mode: FanMode| mode != a.fan_mode ==> (CompleteDeviceState { fan_mode: mode, ..a }) != a,
        forall|rpm: Option<u16>| rpm != a.fan_rpm ==> (CompleteDeviceState { fan_rpm: rpm, ..a }) != a,
        forall|mode: LogoMode| mode != a.logo_mode ==> (CompleteDeviceState { logo_mode: mode, ..a }) != a,
        forall|flag: LightsAlwaysOn|
            flag != a.lights_always_on ==> (CompleteDeviceState { lights_always_on: flag, ..a })
                != a,
        forall|flag: BatteryCare|
            flag != a.battery_care ==> (CompleteDeviceState { battery_care: flag, ..a }) != a,
{
}

/// The settings as the interface shows them. A label that is `None` has not
/// been read yet.
#[derive(Debug, Clone, Copy, PartialEq, Eq, Structural)]
pub struct DeviceStatus {
    pub performance_mode: Option<PerfMode>,
    pub fan_speed: Option<FanMode>,
    /// Configured fan speed.
    pub fan_rpm: Option<u16>,
    /// Measured fan speed.
    pub fan_actual_rpm: Option<u16>,
    pub logo_mode: Option<LogoMode>,
    pub keyboard_brightness: u8,
    pub lights_always_on: bool,
    pub battery_care: bool,
}

impl DeviceStatus {
    /// The status before anything has been read.
    pub open spec fn unread() -> DeviceStatus {
        DeviceStatus {
            performance_mode: None,
            fan_speed: None,
            fan_rpm: None,
            fan_actual_rpm: None,
            logo_mode: None,
            keyboard_brightness: 0,
            lights_always_on: false,
            battery_care: true,
        }
    }

    /// Label of the performance mode.
    pub open spec fn performance_label(self) -> Seq<char> {
        match self.performance_mode {
            Some(mode) => perf_mode_label(mode),
            None => reading_label(),
        }
    }

    /// Label of the fan mode.
    pub open spec fn fan_label(self) -> Seq<char> {
        match self.fan_speed {
            Some(mode) => fan_mode_label(mode),
            None => reading_label(),
        }
    }

    /// Label of the logo mode.
    pub open spec fn logo_label(self) -> Seq<char> {
        match self.logo_mode {
            Some(mode) => logo_mode_label(mode),
            None => reading_label(),
        }
    }

    /// Label of the performance mode.
    pub fn performance_mode_text(&self) -> (label: &'static str)
        ensures
            label@ == self.performance_label(),
    {
        match self.performance_mode {
            Some(mode) => perf_mode_name(mode),
            None => "Reading...",
        }
    }

    /// Label of the fan mode.
    pub fn fan_speed_text(&self) -> (label: &'static str)
        ensures
            label@ == self.fan_label(),
    {
        match self.fan_speed {
            Some(mode) => fan_mode_name(mode),
            None => "Reading...",
        }
    }

    /// Label of the logo mode.
    pub fn logo_mode_text(&self) -> (label: &'static str)
        ensures
            label@ == self.logo_label(),
    {
        match self.logo_mode {
            Some(mode) => logo_mode_to_string(mode),
            None => "Reading...",
        }
    }
}

impl Default for DeviceStatus {
    fn default() -> (status: Self)
        ensures
            status == DeviceStatus::unread(),
    {
        DeviceStatus {
            performance_mode: None,
            fan_speed: None,
            fan_rpm: None,
            fan_actual_rpm: None,
            logo_mode: None,
            keyboard_brightness: 0,
            lights_always_on: false,
            battery_care: true,
        }
    }
}

} // verus!
