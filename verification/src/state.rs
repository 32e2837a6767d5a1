//! The scheduler's state: the part made of plain values, which the device
//! procedures read and write, and the parts that hold text.

use crate::device::{CompleteDeviceState, DeviceStatus, PerfMode};
use crate::messaging::{
    error_message, made, status_message, Board, MessageManager, MessagePriority, MessageType,
};
use crate::specs::SystemSpecs;
use vstd::prelude::*;
use vstd::string::*;

verus! {

/// Fan speed that the slider shows before the device has been read.
pub const DEFAULT_MANUAL_RPM: u16 = 2000;

/// Everything the scheduler keeps apart from text: the status snapshot, the
/// baseline, the profiles, flags and the times of the last passes.
#[derive(Debug, Clone, Copy, PartialEq, Eq, Structural)]
pub struct Core {
    pub status: DeviceStatus,
    /// Whether a device was found at start-up.
    pub device_present: bool,
    /// Whether the device's descriptor lists the supported performance modes.
    pub descriptor_lists_modes: bool,
    /// Baseline for finding changes made from outside.
    pub device_state: Option<CompleteDeviceState>,
    pub ac_power: bool,
    pub ac_profile: CompleteDeviceState,
    pub battery_profile: CompleteDeviceState,
    pub loading: bool,
    pub fully_initialized: bool,
    pub last_refresh_time: u64,
    pub last_state_check_time: u64,
    pub last_fan_enforce_time: u64,
    pub last_perf_poll_time: u64,
    /// Whether optional messages are shown.
    pub status_messages: bool,
    pub manual_fan_rpm: u16,
    pub temp_brightness_step: usize,
    /// Whether the user is moving the brightness slider.
    pub brightness_slider_active: bool,
    pub should_quit: bool,
    pub init_power_read: bool,
    pub init_specs_complete: bool,
    /// Whether the result of a capability probe is awaited.
    pub probe_pending: bool,
    /// Number of the probe that was asked for last; an older probe's result
    /// is out of date.
    pub probe_generation: u64,
    /// Whether the host has yet to start the probe that was asked for.
    pub probe_requested: bool,
}

impl Core {
    /// The state at start-up, at clock reading `now`.
    pub open spec fn initial(now: u64) -> Core {
        Core {
            status: DeviceStatus::unread(),
            device_present: false,
            descriptor_lists_modes: false,
            device_state: None,
            ac_power: true,
            ac_profile: CompleteDeviceState::standard(),
            battery_profile: CompleteDeviceState {
                perf_mode: PerfMode::Battery,
                ..CompleteDeviceState::standard()
            },
            loading: true,
            fully_initialized: false,
            last_refresh_time: now,
            last_state_check_time: now,
            last_fan_enforce_time: now,
            last_perf_poll_time: now,
            status_messages: false,
            manual_fan_rpm: DEFAULT_MANUAL_RPM,
            temp_brightness_step: 0,
            brightness_slider_active: false,
            should_quit: false,
            init_power_read: false,
            init_specs_complete: false,
            probe_pending: false,
            probe_generation: 0,
            probe_requested: false,
        }
    }

    /// The state at start-up, at clock reading `now`.
    pub fn new(now: u64) -> (core: Core)
        ensures
            core == Core::initial(now),
    {
        let standard = CompleteDeviceState::default();
        Core {
            status: DeviceStatus::default(),
            device_present: false,
            descriptor_lists_modes: false,
            device_state: None,
            ac_power: true,
            ac_profile: standard,
            battery_profile: CompleteDeviceState { perf_mode: PerfMode::Battery, ..standard },
            loading: true,
            fully_initialized: false,
            last_refresh_time: now,
            last_state_check_time: now,
            last_fan_enforce_time: now,
            last_perf_poll_time: now,
            status_messages: false,
            manual_fan_rpm: DEFAULT_MANUAL_RPM,
            temp_brightness_step: 0,
            brightness_slider_active: false,
            should_quit: false,
            init_power_read: false,
            init_specs_complete: false,
            probe_pending: false,
            probe_generation: 0,
            probe_requested: false,
        }
    }

    /// The profile for the current power source.
    pub open spec fn target_profile(self) -> CompleteDeviceState {
        if self.ac_power {
            self.ac_profile
        } else {
            self.battery_profile
        }
    }
}

/// The scheduler: it owns the status snapshot and the notification centre,
/// and every change of either goes through its procedures.
#[derive(Debug, Clone)]
pub struct Scheduler {
    pub core: Core,
    pub message_manager: MessageManager,
    pub system_specs: SystemSpecs,
    /// The performance modes offered to the user.
    pub available_performance_modes: Vec<PerfMode>,
    /// Name of the device from its descriptor.
    pub device_name: Option<String>,
}

/// Mathematical value of the scheduler.
pub struct Model {
    pub core: Core,
    pub board: Board,
    pub modes: Seq<PerfMode>,
    pub specs: SystemSpecs,
    pub device_name: Option<String>,
}

impl View for Scheduler {
    type V = Model;

    open spec fn view(&self) -> Model {
        Model {
            core: self.core,
            board: self.message_manager@,
            modes: self.available_performance_modes@,
            specs: self.system_specs,
            device_name: self.device_name,
        }
    }
}

impl Board {
    /// The board after a status message with this text.
    #[verifier::opaque]
    pub open spec fn informed(self, text: Seq<char>, now: u64) -> Board {
        self.post(made(text, MessageType::Info, MessagePriority::Normal, now), now)
    }

    /// The board after an error message with this text.
    #[verifier::opaque]
    pub open spec fn warned(self, text: Seq<char>, now: u64) -> Board {
        self.post(made(text, MessageType::Error, MessagePriority::Critical, now), now)
    }
}

impl Model {
    /// The state after a message that is always shown.
    pub open spec fn noted(self, text: Seq<char>, now: u64) -> Model {
        Model { board: self.board.informed(text, now), ..self }
    }

    /// The state after a message that is shown only where optional messages
    /// are switched on.
    pub open spec fn remarked(self, text: Seq<char>, now: u64) -> Model {
        if self.core.status_messages {
            self.noted(text, now)
        } else {
            self
        }
    }

    /// The state after an error message.
    pub open spec fn alarmed(self, text: Seq<char>, now: u64) -> Model {
        Model { board: self.board.warned(text, now), ..self }
    }

    /// The state with another plain part.
    pub open spec fn with_core(self, core: Core) -> Model {
        Model { core, ..self }
    }
}

/// Text of the message shown where a request finds no device.
pub open spec fn no_device_text() -> Seq<char> {
    "No device connected"@
}

impl Scheduler {
    /// Posts a message that is always shown.
    pub fn set_status_message(&mut self, message: String, now: u64)
        ensures
            final(self)@ == old(self)@.noted(message@, now),
    {
        reveal(Board::informed);
        self.message_manager.add_message(status_message(message, now), now);
    }

    /// Posts a message only where optional messages are switched on.
    pub fn set_optional_status_message(&mut self, message: String, now: u64)
        ensures
            final(self)@ == old(self)@.remarked(message@, now),
    {
        reveal(Board::informed);
        if self.core.status_messages {
            self.message_manager.add_message(status_message(message, now), now);
        }
    }

    /// Posts an error message.
    pub fn set_error_message(&mut self, message: String, now: u64)
        ensures
            final(self)@ == old(self)@.alarmed(message@, now),
    {
        reveal(Board::warned);
        self.message_manager.add_message(error_message(message, now), now);
    }

    /// Posts the message for a request that finds no device.
    pub fn set_no_device_message(&mut self, now: u64)
        ensures
            final(self)@ == old(self)@.noted(no_device_text(), now),
    {
        self.set_status_message(String::from_str("No device connected"), now);
    }
}

} // verus!
