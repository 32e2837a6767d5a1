//! What the interface hands to the scheduler: the actions of each section,
//! and the brightness steps of the keyboard.

use crate::device::PerfMode;
use crate::messaging::MessageType;
use vstd::prelude::*;
use vstd::string::*;

verus! {

/// Action of the battery section.
#[derive(Debug, Clone, Copy, PartialEq, Eq, Structural)]
pub enum BatteryAction {
    NoAction,
    ToggleBatteryCare,
}

/// Action of the fan section.
#[derive(Debug, Clone, Copy, PartialEq, Eq, Structural)]
pub enum FanAction {
    NoAction,
    SetAutoMode,
    SetManualMode(u16),
    SetManualRpm(u16),
    SliderDragging(u16),
}

/// Action of the performance section.
#[derive(Debug, Clone, PartialEq)]
pub enum PerformanceAction {
    NoAction,
    /// Switch to the mode with this label.
    SetPerformanceMode(String),
    /// Find out again which modes the unit supports.
    RefreshProbe,
}

/// Actions of the lighting section; several can come in one frame.
#[derive(Debug, Clone, PartialEq)]
pub struct LightingAction {
    /// Logo lighting mode to set.
    pub logo_mode: Option<String>,
    /// Raw brightness to set.
    pub brightness: Option<u8>,
    /// Whether the lights-always-on setting was toggled.
    pub lights_always_on: bool,
    /// Whether the brightness slider is in use.
    pub slider_active: Option<bool>,
}

impl Default for LightingAction {
    fn default() -> (action: Self)
        ensures
            action.logo_mode.is_none(),
            action.brightness.is_none(),
            !action.lights_always_on,
            action.slider_active.is_none(),
    {
        LightingAction { logo_mode: None, brightness: None, lights_always_on: false, slider_active: None }
    }
}

/// Lowest fan speed that can be set by hand.
pub const MIN_MANUAL_RPM: u16 = 2000;

/// Highest fan speed that can be set by hand.
pub const MAX_MANUAL_RPM: u16 = 5500;

/// Number of brightness steps.
pub const BRIGHTNESS_STEPS: usize = 16;

/// The raw brightness of each step that the keyboard supports.
pub open spec fn brightness_levels() -> Seq<u8> {
    seq![0u8, 13, 28, 43, 59, 74, 89, 105, 120, 133, 148, 163, 179, 194, 209, 225]
}

/// Distance between the level of `step` and a raw brightness.
pub open spec fn level_distance(step: int, brightness: u8) -> int {
    let level = brightness_levels()[step] as int;
    if level >= brightness {
        level - brightness
    } else {
        brightness - level
    }
}

/// Whether `step` is the closest step to `brightness`: no step is closer,
/// and every lower step is farther.
pub open spec fn first_closest(step: int, brightness: u8) -> bool {
    &&& 0 <= step < BRIGHTNESS_STEPS
    &&& forall|j: int|
        0 <= j < BRIGHTNESS_STEPS ==> level_distance(step, brightness) <= #[trigger] level_distance(
            j,
            brightness,
        )
    &&& forall|j: int|
        0 <= j < step ==> level_distance(step, brightness) < #[trigger] level_distance(j, brightness)
}

/// The step whose level is closest to `brightness`; of two equally close
/// steps the lower one.
pub open spec fn closest_step(brightness: u8) -> int {
    choose|step: int| first_closest(step, brightness)
}

/// The raw brightness of a step.
pub fn brightness_level(step: usize) -> (level: u8)
    requires
        step < BRIGHTNESS_STEPS,
    ensures
        level == brightness_levels()[step as int],
{
    if step == 0 {
        0
    } else if step == 1 {
        13
    } else if step == 2 {
        28
    } else if step == 3 {
        43
    } else if step == 4 {
        59
    } else if step == 5 {
        74
    } else if step == 6 {
        89
    } else if step == 7 {
        105
    } else if step == 8 {
        120
    } else if step == 9 {
        133
    } else if step == 10 {
        148
    } else if step == 11 {
        163
    } else if step == 12 {
        179
    } else if step == 13 {
        194
    } else if step == 14 {
        209
    } else {
        225
    }
}

fn distance_to(step: usize, brightness: u8) -> (d: u8)
    requires
        step < BRIGHTNESS_STEPS,
    ensures
        d == level_distance(step as int, brightness),
{
    let level = brightness_level(step);
    if level >= brightness {
        level - brightness
    } else {
        brightness - level
    }
}

/// Converts a raw brightness to the index of the closest supported step.
pub fn raw_brightness_to_step_index(brightness: u8) -> (step: usize)
    ensures
        first_closest(step as int, brightness),
        step == closest_step(brightness),
{
    let mut best: usize = 0;
    let mut best_distance: u8 = distance_to(0, brightness);
    let mut i: usize = 1;
    while i < BRIGHTNESS_STEPS
        invariant
            1 <= i <= BRIGHTNESS_STEPS,
            best < i,
            best_distance == level_distance(best as int, brightness),
            forall|j: int| 0 <= j < i ==> best_distance <= #[trigger] level_distance(j, brightness),
            forall|j: int| 0 <= j < best ==> best_distance < #[trigger] level_distance(j, brightness),
        decreases BRIGHTNESS_STEPS - i,
    {
        let d = distance_to(i, brightness);
        if d < best_distance {
            best = i;
            best_distance = d;
        }
        i = i + 1;
    }
    proof {
        closest_step_is_unique(best as int, brightness);
    }
    best
}

/// Only one step is the closest: the one that `closest_step` names.
pub proof fn closest_step_is_unique(step: int, brightness: u8)
    requires
        first_closest(step, brightness),
    ensures
        step == closest_step(brightness),
{
    let other = closest_step(brightness);
    assert(first_closest(other, brightness));
    if step < other {
        assert(level_distance(other, brightness) < level_distance(step, brightness));
        assert(level_distance(step, brightness) <= level_distance(other, brightness));
    } else if other < step {
        assert(level_distance(step, brightness) < level_distance(other, brightness));
        assert(level_distance(other, brightness) <= level_distance(step, brightness));
    }
}

/// What the brightness slider yields in one frame. The slider counts as in
/// use while it is dragged or has the focus, and as let go in the frame in
/// which either ends; a change of the step sets the brightness of the new
/// step, however it came about.
pub open spec fn slider_outcome(before: int, after: int, engaged: bool, released: bool) -> (
    Option<bool>,
    Option<u8>,
) {
    (
        if engaged {
            Some(true)
        } else if released {
            Some(false)
        } else {
            None
        },
        if after != before {
            Some(brightness_levels()[after])
        } else {
            None
        },
    )
}

impl LightingAction {
    /// Records what the brightness slider did in this frame.
    pub fn record_slider(&mut self, before: usize, after: usize, engaged: bool, released: bool)
        requires
            after < BRIGHTNESS_STEPS,
        ensures
            (final(self).slider_active, final(self).brightness) == slider_outcome(
                before as int,
                after as int,
                engaged,
                released,
            ),
            final(self).logo_mode == old(self).logo_mode,
            final(self).lights_always_on == old(self).lights_always_on,
    {
        self.slider_active = if engaged {
            Some(true)
        } else if released {
            Some(false)
        } else {
            None
        };
        self.brightness = if after != before {
            Some(brightness_level(after))
        } else {
            None
        };
    }
}

/// The step that the slider shows for a stored step: the stored one, or the
/// highest if the stored one lies beyond.
pub fn clamp_step(step: usize) -> (shown: usize)
    ensures
        shown < BRIGHTNESS_STEPS,
        shown == if step < BRIGHTNESS_STEPS {
            step
        } else {
            (BRIGHTNESS_STEPS - 1) as usize
        },
{
    if step < BRIGHTNESS_STEPS {
        step
    } else {
        BRIGHTNESS_STEPS - 1
    }
}

/// What the fan speed slider yields in one frame: a speed in the making
/// while the slider is in use, the speed to set when it is let go.
pub fn manual_fan_action(rpm: u16, engaged: bool, released: bool) -> (action: Option<FanAction>)
    ensures
        action == if engaged {
            Some(FanAction::SliderDragging(rpm))
        } else if released {
            Some(FanAction::SetManualRpm(rpm))
        } else {
            None::<FanAction>
        },
{
    if engaged {
        Some(FanAction::SliderDragging(rpm))
    } else if released {
        Some(FanAction::SetManualRpm(rpm))
    } else {
        None
    }
}

/// The title of the window's header.
pub open spec fn device_title_text(device_present: bool, model: Seq<char>) -> Seq<char> {
    if model != "Unknown"@ {
        "💻 "@ + model
    } else if device_present {
        "💻 Connected Device"@
    } else {
        "💻 No Razer Device"@
    }
}

/// The title of the header: the model if it is known, otherwise whether a
/// device is connected.
pub fn device_title(device_present: bool, model: &str) -> (title: String)
    ensures
        title@ == device_title_text(device_present, model@),
{
    if !crate::text::same_text(model, "Unknown") {
        crate::text::joined("💻 ", model)
    } else if device_present {
        String::from_str("💻 Connected Device")
    } else {
        String::from_str("💻 No Razer Device")
    }
}

/// The line under the battery switch.
pub fn battery_status_text(battery_care_enabled: bool) -> (text: &'static str)
    ensures
        text@ == if battery_care_enabled {
            "Active (Hardware default: 80%)"@
        } else {
            "Disabled"@
        },
{
    if battery_care_enabled {
        "Active (Hardware default: 80%)"
    } else {
        "Disabled"
    }
}

/// The sign shown before a message of the given type.
pub fn message_icon(message_type: MessageType) -> (icon: &'static str)
    ensures
        icon@ == match message_type {
            MessageType::Info => "ℹ"@,
            MessageType::Error => "⚠"@,
        },
{
    match message_type {
        MessageType::Info => "ℹ",
        MessageType::Error => "⚠",
    }
}

/// Red, green and blue of a mode button, by power source and selection.
pub fn button_color(ac_power: bool, selected: bool) -> (rgb: (u8, u8, u8))
    ensures
        rgb == if ac_power {
            if selected {
                (0u8, 120u8, 60u8)
            } else {
                (60u8, 80u8, 40u8)
            }
        } else {
            if selected {
                (140u8, 70u8, 0u8)
            } else {
                (80u8, 60u8, 40u8)
            }
        },
{
    match (ac_power, selected) {
        (true, true) => (0, 120, 60),
        (true, false) => (60, 80, 40),
        (false, true) => (140, 70, 0),
        (false, false) => (80, 60, 40),
    }
}

/// The order in which the buttons of the standard modes stand.
pub open spec fn button_order() -> Seq<PerfMode> {
    seq![
        PerfMode::Battery,
        PerfMode::Silent,
        PerfMode::Balanced,
        PerfMode::Performance,
        PerfMode::Hyperboost,
    ]
}

/// The first `n` modes of the button order that are on offer.
pub open spec fn offered_buttons(available: Seq<PerfMode>, n: nat) -> Seq<PerfMode>
    decreases n,
{
    if n == 0 {
        Seq::empty()
    } else if available.contains(button_order()[n - 1]) {
        offered_buttons(available, (n - 1) as nat).push(button_order()[n - 1])
    } else {
        offered_buttons(available, (n - 1) as nat)
    }
}

/// Whether a mode is in a list.
pub fn has_mode(list: &Vec<PerfMode>, mode: PerfMode) -> (found: bool)
    ensures
        found == list@.contains(mode),
{
    let mut i: usize = 0;
    while i < list.len()
        invariant
            0 <= i <= list.len(),
            forall|j: int| 0 <= j < i ==> list@[j] != mode,
        decreases list.len() - i,
    {
        if list[i] == mode {
            return true;
        }
        i = i + 1;
    }
    false
}

/// The standard modes to show as buttons, left to right: those on offer, in
/// the fixed order from the most frugal to the most powerful. The custom
/// mode has its button apart from them.
pub fn performance_buttons(available: &Vec<PerfMode>) -> (buttons: Vec<PerfMode>)
    ensures
        buttons@ == offered_buttons(available@, button_order().len()),
{
    let mut order: Vec<PerfMode> = Vec::new();
    order.push(PerfMode::Battery);
    order.push(PerfMode::Silent);
    order.push(PerfMode::Balanced);
    order.push(PerfMode::Performance);
    order.push(PerfMode::Hyperboost);
    assert(order@ =~= button_order());
    let mut buttons: Vec<PerfMode> = Vec::new();
    let mut i: usize = 0;
    while i < order.len()
        invariant
            0 <= i <= order.len(),
            order@ == button_order(),
            buttons@ == offered_buttons(available@, i as nat),
        decreases order.len() - i,
    {
        if has_mode(available, order[i]) {
            buttons.push(order[i]);
        }
        i = i + 1;
    }
    buttons
}

} // verus!
