use rhelper::device::{
    BatteryCare, CompleteDeviceState, FanMode, LightsAlwaysOn, LogoMode, PerfMode,
};
use rhelper::link::{DeviceInfo, Exchange, Link, Op, Standing, Value};
use rhelper::messaging::MessageType;
use rhelper::profile::apply_profile;
use rhelper::reads::{get_fan_rpm_actual, get_fan_rpm_set, read_current_fan_state};
use rhelper::requests::execute_device_command_simple;
use rhelper::run::{Command, Progress};
use rhelper::specs::SystemSpecs;
use rhelper::startup::DeviceStateReader;
use rhelper::state::{Core, Scheduler};
use rhelper::tick::{due, FrameInput, InitMessage, ProbeReport};

/// A device that lives in memory and behaves like the hardware: switching the
/// performance mode puts the fan back to automatic.
struct FakeDevice {
    attached: bool,
    descriptor_modes: Option<Vec<PerfMode>>,
    perf: PerfMode,
    fan: FanMode,
    set_rpm: u16,
    actual_rpm: u16,
    logo: LogoMode,
    brightness: u8,
    lights: LightsAlwaysOn,
    care: BatteryCare,
    ac: bool,
    failing: Vec<Op>,
    log: Vec<Op>,
    fan_after: Vec<FanMode>,
}

impl FakeDevice {
    fn new() -> Self {
        FakeDevice {
            attached: true,
            descriptor_modes: None,
            perf: PerfMode::Balanced,
            fan: FanMode::Auto,
            set_rpm: 2500,
            actual_rpm: 2400,
            logo: LogoMode::Static,
            brightness: 120,
            lights: LightsAlwaysOn::Enable,
            care: BatteryCare::Enable,
            ac: true,
            failing: Vec::new(),
            log: Vec::new(),
            fan_after: Vec::new(),
        }
    }

    fn perform(&mut self, op: &Op) -> Result<Value, String> {
        self.log.push(*op);
        let reply = self.answer(op);
        self.fan_after.push(self.fan);
        reply
    }

    fn answer(&mut self, op: &Op) -> Result<Value, String> {
        if self.failing.contains(op) {
            return Err("offline".to_string());
        }
        match *op {
            Op::Detect => {
                if self.attached {
                    Ok(Value::Attached(DeviceInfo {
                        name: "Razer Blade 16 (2025) 5090".to_string(),
                        perf_modes: self.descriptor_modes.clone(),
                    }))
                } else {
                    Err("No Razer devices found".to_string())
                }
            }
            Op::PowerSource => Ok(Value::Power(self.ac)),
            Op::GetPerfMode => Ok(Value::Modes(self.perf, self.fan)),
            Op::SetPerfMode(mode) => {
                self.perf = mode;
                self.fan = FanMode::Auto;
                Ok(Value::Done)
            }
            Op::GetFanRpm => Ok(Value::Rpm(self.set_rpm)),
            Op::GetFanActualRpm => Ok(Value::Rpm(self.actual_rpm)),
            Op::SetFanMode(mode) => {
                self.fan = mode;
                Ok(Value::Done)
            }
            Op::SetFanRpm(rpm) => {
                self.set_rpm = rpm;
                Ok(Value::Done)
            }
            Op::GetLogoMode => Ok(Value::Logo(self.logo)),
            Op::SetLogoMode(mode) => {
                self.logo = mode;
                Ok(Value::Done)
            }
            Op::GetKeyboardBrightness => Ok(Value::Brightness(self.brightness)),
            Op::SetKeyboardBrightness(level) => {
                self.brightness = level;
                Ok(Value::Done)
            }
            Op::GetLightsAlwaysOn => Ok(Value::Lights(self.lights)),
            Op::SetLightsAlwaysOn(flag) => {
                self.lights = flag;
                Ok(Value::Done)
            }
            Op::GetBatteryCare => Ok(Value::Care(self.care)),
            Op::SetBatteryCare(flag) => {
                self.care = flag;
                Ok(Value::Done)
            }
            Op::Settle(_) => Ok(Value::Done),
        }
    }
}

/// The host's loop: run, carry out what is asked for, run again.
fn drive(state: &mut Scheduler, command: Command, device: &mut FakeDevice, now: u64) -> Vec<String> {
    let mut transcript: Vec<Exchange> = Vec::new();
    loop {
        match state.clone().run(command.clone(), &transcript, now) {
            Progress::Finished { state: next, diagnostics } => {
                *state = next;
                return diagnostics;
            }
            Progress::Ask(op) => {
                let reply = device.perform(&op);
                transcript.push(Exchange { op, reply });
            }
            Progress::Diverged => panic!("the run left its transcript"),
        }
    }
}

fn frame(messages: Vec<InitMessage>) -> FrameInput {
    FrameInput { init_messages: messages, probe_report: None, minimized: false, close_requested: false }
}

fn shown(state: &Scheduler, now: u64) -> Option<String> {
    state.message_manager.get_current_message(now).map(|m| m.content.clone())
}

/// A scheduler after start-up and the first full read, at time 10.
fn initialized(device: &mut FakeDevice) -> Scheduler {
    let mut s = Scheduler::new(0);
    drive(&mut s, Command::Startup, device, 0);
    drive(
        &mut s,
        Command::Update(frame(vec![InitMessage::PowerStateRead(device.ac), InitMessage::InitializationComplete])),
        device,
        10,
    );
    device.log.clear();
    device.fan_after.clear();
    s
}

#[test]
fn new_scheduler_is_in_its_initial_state() {
    let s = Scheduler::new(42);
    assert_eq!(s.core, Core::new(42));
    assert!(s.core.loading);
    assert!(!s.core.fully_initialized);
    assert!(s.core.ac_power);
    assert_eq!(s.core.manual_fan_rpm, 2000);
    assert_eq!(s.core.ac_profile, CompleteDeviceState::default());
    assert_eq!(s.core.battery_profile.perf_mode, PerfMode::Battery);
    assert_eq!(s.core.last_refresh_time, 42);
    assert!(s.available_performance_modes.is_empty());
    assert!(s.device_name.is_none());
    assert!(shown(&s, 42).is_none());
}

#[test]
fn startup_reads_the_device() {
    let mut device = FakeDevice::new();
    device.fan = FanMode::Manual;
    device.set_rpm = 3100;
    let mut s = Scheduler::new(0);
    let diagnostics = drive(&mut s, Command::Startup, &mut device, 0);
    assert!(diagnostics.is_empty());
    assert!(s.core.device_present);
    assert!(!s.core.loading);
    assert_eq!(s.device_name.as_deref(), Some("Razer Blade 16 (2025) 5090"));
    assert_eq!(s.available_performance_modes.len(), 6);
    assert_eq!(s.core.status.keyboard_brightness, 120);
    assert_eq!(s.core.temp_brightness_step, 8);
    assert_eq!(s.core.status.performance_mode, Some(PerfMode::Balanced));
    assert_eq!(s.core.status.fan_speed, Some(FanMode::Manual));
    assert_eq!(s.core.status.fan_rpm, Some(3100));
    assert_eq!(s.core.manual_fan_rpm, 3100);
    assert!(s.core.status.lights_always_on);
    assert!(s.core.status.battery_care);
    assert_eq!(shown(&s, 0).as_deref(), Some("Initializing..."));
    assert_eq!(
        device.log,
        vec![
            Op::Detect,
            Op::GetKeyboardBrightness,
            Op::GetPerfMode,
            Op::GetFanRpm,
            Op::GetLightsAlwaysOn,
            Op::GetBatteryCare
        ]
    );
}

#[test]
fn startup_uses_the_modes_of_the_descriptor() {
    let mut device = FakeDevice::new();
    device.descriptor_modes = Some(vec![PerfMode::Silent, PerfMode::Balanced]);
    let mut s = Scheduler::new(0);
    drive(&mut s, Command::Startup, &mut device, 0);
    assert_eq!(s.available_performance_modes, vec![PerfMode::Silent, PerfMode::Balanced]);
    assert!(s.core.descriptor_lists_modes);
}

#[test]
fn startup_without_device_tells_so() {
    let mut device = FakeDevice::new();
    device.attached = false;
    let mut s = Scheduler::new(0);
    let diagnostics = drive(&mut s, Command::Startup, &mut device, 0);
    assert!(diagnostics.is_empty());
    assert!(!s.core.device_present);
    assert_eq!(device.log, vec![Op::Detect]);
    assert_eq!(s.available_performance_modes.len(), 6);
    // The start message replaces the error at once; the error waits behind it.
    assert_eq!(shown(&s, 0).as_deref(), Some("Initializing..."));
    s.message_manager.update(5101);
    let current = s.message_manager.get_current_message(5101).unwrap();
    assert_eq!(current.content, "Failed to connect to Razer device: No Razer devices found");
    assert_eq!(current.message_type, MessageType::Error);
}

#[test]
fn failed_first_reads_keep_defaults_and_leave_diagnostics() {
    let mut device = FakeDevice::new();
    device.failing = vec![Op::GetKeyboardBrightness, Op::GetBatteryCare];
    device.care = BatteryCare::Disable;
    device.lights = LightsAlwaysOn::Enable;
    let mut s = Scheduler::new(0);
    let diagnostics = drive(&mut s, Command::Startup, &mut device, 0);
    assert_eq!(
        diagnostics,
        vec![
            "Failed to read keyboard brightness: offline".to_string(),
            "Failed to read battery care: offline".to_string()
        ]
    );
    // Defaults for the two that failed, device values for the two that did not.
    assert_eq!(s.core.status.keyboard_brightness, 0);
    assert!(s.core.status.battery_care);
    assert_eq!(s.core.status.performance_mode, Some(PerfMode::Balanced));
    assert!(s.core.status.lights_always_on);
}

#[test]
fn failed_mode_read_is_tried_once_more_at_startup() {
    let mut device = FakeDevice::new();
    device.failing = vec![Op::GetPerfMode];
    let mut s = Scheduler::new(0);
    let diagnostics = drive(&mut s, Command::Startup, &mut device, 0);
    assert_eq!(diagnostics, vec!["Failed to read performance mode: offline".to_string()]);
    assert_eq!(s.core.status.performance_mode, None);
    assert_eq!(s.core.status.fan_speed, None);
    assert_eq!(device.log.iter().filter(|op| **op == Op::GetPerfMode).count(), 2);
}

#[test]
fn reader_collects_one_diagnostic_per_failure() {
    let mut reader = DeviceStateReader::new();
    assert_eq!(reader.read(Ok::<u8, String>(5), "a"), Some(5));
    assert_eq!(reader.read(Err::<u8, String>("x".to_string()), "b"), None);
    assert_eq!(reader.read(Ok::<u16, String>(9), "c"), Some(9));
    assert_eq!(reader.read(Err::<bool, String>("y".to_string()), "d"), None);
    assert_eq!(
        reader.finish(),
        vec!["Failed to read b: x".to_string(), "Failed to read d: y".to_string()]
    );
    assert!(DeviceStateReader::new().finish().is_empty());
}

#[test]
fn first_full_read_stores_the_baseline_and_asks_for_a_probe() {
    let mut device = FakeDevice::new();
    let mut s = Scheduler::new(0);
    drive(&mut s, Command::Startup, &mut device, 0);
    assert!(s.core.device_state.is_none());
    drive(
        &mut s,
        Command::Update(frame(vec![InitMessage::PowerStateRead(true), InitMessage::InitializationComplete])),
        &mut device,
        10,
    );
    assert!(s.core.fully_initialized);
    assert!(s.core.init_power_read);
    let baseline = s.core.device_state.unwrap();
    assert_eq!(baseline.perf_mode, PerfMode::Balanced);
    assert_eq!(baseline.fan_mode, FanMode::Auto);
    assert_eq!(baseline.fan_rpm, None);
    assert_eq!(baseline.logo_mode, LogoMode::Static);
    assert_eq!(baseline.keyboard_brightness, 120);
    assert_eq!(s.core.status.fan_actual_rpm, Some(2400));
    assert_eq!(s.core.status.logo_mode, Some(LogoMode::Static));
    assert!(s.core.probe_pending);
    assert_eq!(s.core.take_probe_request(), Some(1));
    assert_eq!(s.core.take_probe_request(), None);
}

#[test]
fn no_probe_when_the_descriptor_lists_modes_or_the_mode_is_custom() {
    let mut listed = FakeDevice::new();
    listed.descriptor_modes = Some(vec![PerfMode::Balanced]);
    let s = initialized(&mut listed);
    assert!(!s.core.probe_pending);
    assert!(!s.core.probe_requested);

    let mut custom = FakeDevice::new();
    custom.perf = PerfMode::Custom;
    let mut t = initialized(&mut custom);
    assert!(!t.core.probe_pending);
    // Forcing does not help against the custom mode.
    drive(&mut t, Command::ForceReprobe, &mut custom, 20);
    assert!(!t.core.probe_pending);
    assert_eq!(custom.log, vec![Op::GetPerfMode]);

    // Forcing does help against the descriptor.
    let mut u = initialized(&mut listed);
    drive(&mut u, Command::ForceReprobe, &mut listed, 20);
    assert!(u.core.probe_pending);
    assert_eq!(u.core.take_probe_request(), Some(1));
}

#[test]
fn failed_status_read_at_initialization_is_an_error() {
    let mut device = FakeDevice::new();
    let mut s = Scheduler::new(0);
    drive(&mut s, Command::Startup, &mut device, 0);
    device.failing = vec![Op::GetPerfMode];
    drive(&mut s, Command::Update(frame(vec![InitMessage::InitializationComplete])), &mut device, 10);
    assert!(s.core.fully_initialized);
    assert!(s.core.device_state.is_none());
    assert!(!s.core.probe_pending);
    assert_eq!(shown(&s, 10).as_deref(), Some("Failed to read device status: offline"));
}

#[test]
fn milestones_set_their_flags_and_messages() {
    let mut device = FakeDevice::new();
    device.attached = false;
    let mut s = Scheduler::new(0);
    drive(&mut s, Command::Startup, &mut device, 0);
    s.core.status_messages = true;
    let specs = SystemSpecs { cpu_model: "CPU".to_string(), ..SystemSpecs::default() };
    drive(&mut s, Command::Update(frame(vec![InitMessage::SystemSpecsComplete(specs.clone())])), &mut device, 5);
    assert!(s.core.init_specs_complete);
    assert_eq!(s.system_specs.cpu_model, "CPU");
    assert_eq!(shown(&s, 5).as_deref(), Some("System specifications loaded"));
    drive(&mut s, Command::Update(frame(vec![InitMessage::PowerStateRead(false)])), &mut device, 6);
    assert!(!s.core.ac_power);
    assert!(s.core.init_power_read);

    let mut t = Scheduler::new(0);
    drive(&mut t, Command::Startup, &mut device, 0);
    drive(
        &mut t,
        Command::Update(frame(vec![
            InitMessage::PowerStateRead(true),
            InitMessage::InitializationComplete,
            InitMessage::SystemSpecsComplete(specs),
        ])),
        &mut device,
        7,
    );
    assert_eq!(shown(&t, 7).as_deref(), Some("Initialization complete"));
}

#[test]
fn external_mode_change_is_announced_and_becomes_the_baseline() {
    let mut device = FakeDevice::new();
    let mut s = initialized(&mut device);
    assert_eq!(s.core.device_state.unwrap().perf_mode, PerfMode::Balanced);
    // Another tool switches the mode.
    device.perf = PerfMode::Performance;
    drive(&mut s, Command::Update(frame(vec![])), &mut device, 3000);
    assert_eq!(
        shown(&s, 3000).as_deref(),
        Some("Performance mode changed externally: Balanced → Performance")
    );
    assert_eq!(s.core.device_state.unwrap().perf_mode, PerfMode::Performance);
    assert_eq!(s.core.status.performance_mode, Some(PerfMode::Performance));
    assert_eq!(s.core.last_state_check_time, 3000);
    assert_eq!(s.core.last_refresh_time, 3000);
}

#[test]
fn other_external_change_is_announced_only_when_verbose() {
    let mut device = FakeDevice::new();
    let mut quiet = initialized(&mut device);
    let before = shown(&quiet, 10);
    device.brightness = 121;
    drive(&mut quiet, Command::Update(frame(vec![])), &mut device, 3000);
    assert_eq!(quiet.core.device_state.unwrap().keyboard_brightness, 121);
    assert_eq!(quiet.core.status.keyboard_brightness, 121);
    assert_eq!(shown(&quiet, 3000), before);

    let mut device = FakeDevice::new();
    let mut verbose = initialized(&mut device);
    verbose.core.status_messages = true;
    device.logo = LogoMode::Breathing;
    drive(&mut verbose, Command::Update(frame(vec![])), &mut device, 3000);
    assert_eq!(shown(&verbose, 3000).as_deref(), Some("Device state updated externally"));
    assert_eq!(verbose.core.status.logo_mode, Some(LogoMode::Breathing));
}

#[test]
fn no_baseline_comparison_before_three_seconds_or_without_lights() {
    let mut device = FakeDevice::new();
    let mut s = initialized(&mut device);
    device.perf = PerfMode::Silent;
    drive(&mut s, Command::Update(frame(vec![])), &mut device, 2999);
    assert_eq!(s.core.device_state.unwrap().perf_mode, PerfMode::Balanced);
    assert_eq!(s.core.last_state_check_time, 0);

    let mut dark = FakeDevice::new();
    dark.lights = LightsAlwaysOn::Disable;
    let mut t = initialized(&mut dark);
    dark.perf = PerfMode::Silent;
    drive(&mut t, Command::Update(frame(vec![])), &mut dark, 5000);
    assert_eq!(t.core.device_state.unwrap().perf_mode, PerfMode::Balanced);
    assert!(!dark.log.contains(&Op::GetLightsAlwaysOn));
    assert!(!dark.log.contains(&Op::GetLogoMode));
}

#[test]
fn failed_comparison_falls_back_to_the_essential_reads() {
    let mut device = FakeDevice::new();
    let mut s = initialized(&mut device);
    device.failing = vec![Op::GetBatteryCare];
    device.perf = PerfMode::Silent;
    drive(&mut s, Command::Update(frame(vec![])), &mut device, 3000);
    // The full read failed at its last step, so the baseline stays.
    assert_eq!(s.core.device_state.unwrap().perf_mode, PerfMode::Balanced);
    // The essential reads followed and show the new mode.
    assert_eq!(s.core.status.performance_mode, Some(PerfMode::Silent));
    assert_eq!(s.core.last_state_check_time, 3000);
}

#[test]
fn mode_switch_restores_the_manual_fan() {
    let mut device = FakeDevice::new();
    let mut s = initialized(&mut device);
    drive(&mut s, Command::SetFanMode("manual".to_string(), Some(3000)), &mut device, 20);
    assert_eq!(device.fan, FanMode::Manual);
    assert_eq!(device.set_rpm, 3000);
    device.log.clear();
    device.fan_after.clear();
    drive(&mut s, Command::SetPerformanceMode("Performance".to_string()), &mut device, 30);
    assert_eq!(
        device.log[..7],
        [
            Op::GetPerfMode,
            Op::GetFanRpm,
            Op::SetPerfMode(PerfMode::Performance),
            Op::Settle(50),
            Op::SetFanMode(FanMode::Manual),
            Op::Settle(50),
            Op::SetFanRpm(3000)
        ]
    );
    // The switch itself put the fan to automatic.
    assert_eq!(device.fan_after[2], FanMode::Auto);
    assert_eq!(device.fan, FanMode::Manual);
    assert_eq!(device.set_rpm, 3000);
    assert_eq!(device.perf, PerfMode::Performance);
    assert_eq!(s.core.status.performance_mode, Some(PerfMode::Performance));
    assert_eq!(s.core.status.fan_speed, Some(FanMode::Manual));
    assert_eq!(s.core.status.fan_rpm, Some(3000));
    assert_eq!(s.core.manual_fan_rpm, 3000);
    let baseline = s.core.device_state.unwrap();
    assert_eq!(baseline.perf_mode, PerfMode::Performance);
    assert_eq!(baseline.fan_mode, FanMode::Manual);
    assert_eq!(baseline.fan_rpm, Some(3000));
}

#[test]
fn mode_switch_in_automatic_fan_mode_restores_nothing() {
    let mut device = FakeDevice::new();
    let mut s = initialized(&mut device);
    s.core.status_messages = true;
    drive(&mut s, Command::SetPerformanceMode("Silent".to_string()), &mut device, 30);
    assert!(!device.log.contains(&Op::Settle(50)));
    assert!(!device.log.contains(&Op::SetFanMode(FanMode::Manual)));
    assert_eq!(device.perf, PerfMode::Silent);
    assert_eq!(shown(&s, 30).as_deref(), Some("Performance mode set to Silent"));
}

#[test]
fn each_failed_restore_step_has_its_own_message() {
    let mut device = FakeDevice::new();
    device.fan = FanMode::Manual;
    device.set_rpm = 3000;
    let mut s = initialized(&mut device);
    device.failing = vec![Op::SetFanMode(FanMode::Manual)];
    drive(&mut s, Command::SetPerformanceMode("Silent".to_string()), &mut device, 30);
    assert_eq!(
        shown(&s, 30).as_deref(),
        Some("Failed to restore manual fan mode after performance mode change")
    );
    assert!(!device.log.contains(&Op::SetFanRpm(3000)));

    let mut device = FakeDevice::new();
    device.fan = FanMode::Manual;
    device.set_rpm = 3000;
    let mut t = initialized(&mut device);
    device.failing = vec![Op::SetFanRpm(3000)];
    drive(&mut t, Command::SetPerformanceMode("Silent".to_string()), &mut device, 30);
    let current = t.message_manager.get_current_message(30).unwrap();
    assert_eq!(current.content, "Failed to restore fan RPM after performance mode change");
    assert_eq!(current.message_type, MessageType::Error);
}

#[test]
fn failed_mode_switch_is_a_critical_message() {
    let mut device = FakeDevice::new();
    let mut s = initialized(&mut device);
    device.failing = vec![Op::SetPerfMode(PerfMode::Hyperboost)];
    drive(&mut s, Command::SetPerformanceMode("Hyperboost".to_string()), &mut device, 30);
    let current = s.message_manager.get_current_message(30).unwrap();
    assert_eq!(current.content, "Failed to set performance mode: offline");
    assert_eq!(current.message_type, MessageType::Error);
    assert_eq!(current.duration, 8000);
    assert_eq!(s.core.status.performance_mode, Some(PerfMode::Balanced));
}

#[test]
fn unknown_labels_are_ignored() {
    let mut device = FakeDevice::new();
    let mut s = initialized(&mut device);
    let before = s.core;
    drive(&mut s, Command::SetPerformanceMode("Turbo".to_string()), &mut device, 30);
    drive(&mut s, Command::SetLogoMode("Blink".to_string()), &mut device, 30);
    drive(&mut s, Command::SetFanMode("Manual".to_string(), Some(3000)), &mut device, 30);
    assert!(device.log.is_empty());
    assert_eq!(s.core, before);
}

#[test]
fn power_change_switches_the_profile_and_keeps_user_settings() {
    let mut device = FakeDevice::new();
    device.brightness = 200;
    let mut s = initialized(&mut device);
    device.ac = false;
    drive(&mut s, Command::Update(frame(vec![])), &mut device, 600);
    assert!(!s.core.ac_power);
    assert_eq!(device.log[0], Op::PowerSource);
    assert_eq!(device.log[1], Op::SetPerfMode(PerfMode::Battery));
    assert_eq!(device.perf, PerfMode::Battery);
    // The status could be read, so nothing else of the profile was written.
    assert!(!device.log.contains(&Op::SetLogoMode(LogoMode::Off)));
    assert_eq!(device.brightness, 200);
    assert_eq!(s.core.status.performance_mode, Some(PerfMode::Battery));
    assert_eq!(s.core.device_state.unwrap().perf_mode, PerfMode::Battery);
    assert_eq!(shown(&s, 600).as_deref(), Some("⚡ Auto-switched to Battery profile"));
    // Back on mains power the other profile comes.
    device.ac = true;
    drive(&mut s, Command::Update(frame(vec![])), &mut device, 1200);
    assert_eq!(device.perf, PerfMode::Performance);
    assert_eq!(shown(&s, 1200).as_deref(), Some("⚡ Auto-switched to AC profile"));
}

#[test]
fn power_change_falls_back_to_the_whole_profile() {
    let mut device = FakeDevice::new();
    device.brightness = 200;
    let mut s = initialized(&mut device);
    device.ac = false;
    device.failing = vec![Op::GetPerfMode];
    drive(&mut s, Command::Update(frame(vec![])), &mut device, 600);
    assert_eq!(
        device.log[..9],
        [
            Op::PowerSource,
            Op::SetPerfMode(PerfMode::Battery),
            Op::GetPerfMode,
            Op::SetPerfMode(PerfMode::Battery),
            Op::SetLogoMode(LogoMode::Off),
            Op::GetKeyboardBrightness,
            Op::SetKeyboardBrightness(50),
            Op::SetLightsAlwaysOn(LightsAlwaysOn::Disable),
            Op::SetBatteryCare(BatteryCare::Enable)
        ]
    );
    assert_eq!(device.perf, PerfMode::Battery);
    assert_eq!(device.logo, LogoMode::Off);
    assert_eq!(device.brightness, 50);
    assert_eq!(device.lights, LightsAlwaysOn::Disable);
    assert_eq!(device.care, BatteryCare::Enable);
    assert_eq!(s.core.status.performance_mode, Some(PerfMode::Battery));
}

#[test]
fn failed_profile_switch_changes_nothing_else() {
    let mut device = FakeDevice::new();
    let mut s = initialized(&mut device);
    device.ac = false;
    device.failing = vec![Op::SetPerfMode(PerfMode::Battery)];
    drive(&mut s, Command::Update(frame(vec![])), &mut device, 600);
    assert!(!s.core.ac_power);
    assert_eq!(s.core.status.performance_mode, Some(PerfMode::Balanced));
    assert_eq!(shown(&s, 600).as_deref(), Some("Failed to switch to Battery profile: offline"));
    assert_eq!(device.log[..3], [Op::PowerSource, Op::SetPerfMode(PerfMode::Battery), Op::GetFanActualRpm]);
}

#[test]
fn fallback_failure_is_told() {
    let mut device = FakeDevice::new();
    let mut s = initialized(&mut device);
    device.ac = false;
    device.failing = vec![Op::GetPerfMode, Op::SetLogoMode(LogoMode::Off)];
    drive(&mut s, Command::Update(frame(vec![])), &mut device, 600);
    assert_eq!(shown(&s, 600).as_deref(), Some("Failed to apply fallback profile: offline"));
    assert!(!device.log.contains(&Op::SetBatteryCare(BatteryCare::Enable)));
}

#[test]
fn profile_is_applied_in_fixed_order() {
    let mut device = FakeDevice::new();
    let profile = CompleteDeviceState::default();
    let mut transcript: Vec<Exchange> = Vec::new();
    loop {
        let mut link = Link::new(&transcript);
        let outcome = apply_profile(&mut link, &profile);
        match link.standing() {
            Standing::Settled => {
                assert_eq!(outcome, Ok(()));
                break;
            }
            Standing::Waiting(op) => {
                let reply = device.perform(&op);
                transcript.push(Exchange { op, reply });
            }
            Standing::Diverged => panic!("diverged"),
        }
    }
    assert_eq!(
        device.log,
        vec![
            Op::SetPerfMode(PerfMode::Performance),
            Op::SetLogoMode(LogoMode::Off),
            Op::GetKeyboardBrightness,
            Op::SetKeyboardBrightness(50),
            Op::SetLightsAlwaysOn(LightsAlwaysOn::Disable),
            Op::SetBatteryCare(BatteryCare::Enable)
        ]
    );
}

#[test]
fn profile_skips_the_brightness_that_is_already_set() {
    let mut device = FakeDevice::new();
    device.brightness = 50;
    let profile = CompleteDeviceState::default();
    let mut transcript: Vec<Exchange> = Vec::new();
    loop {
        let mut link = Link::new(&transcript);
        let _ = apply_profile(&mut link, &profile);
        match link.standing() {
            Standing::Settled => break,
            Standing::Waiting(op) => {
                let reply = device.perform(&op);
                transcript.push(Exchange { op, reply });
            }
            Standing::Diverged => panic!("diverged"),
        }
    }
    assert!(!device.log.contains(&Op::SetKeyboardBrightness(50)));
    assert_eq!(device.log.len(), 5);
}

#[test]
fn manual_fan_speed_is_written_back_every_second() {
    let mut device = FakeDevice::new();
    device.fan = FanMode::Manual;
    device.set_rpm = 3200;
    let mut s = initialized(&mut device);
    drive(&mut s, Command::Update(frame(vec![])), &mut device, 600);
    assert!(!device.log.contains(&Op::SetFanRpm(3200)));
    device.log.clear();
    // An outside tool changes the configured speed; the scheduler adopts it.
    device.set_rpm = 3600;
    drive(&mut s, Command::Update(frame(vec![])), &mut device, 1100);
    assert!(device.log.contains(&Op::SetFanRpm(3600)));
    assert_eq!(s.core.status.fan_rpm, Some(3600));
    assert_eq!(s.core.manual_fan_rpm, 3600);
    assert_eq!(s.core.last_fan_enforce_time, 1100);
}

#[test]
fn failed_enforcement_is_silent() {
    let mut device = FakeDevice::new();
    device.fan = FanMode::Manual;
    device.set_rpm = 3200;
    device.lights = LightsAlwaysOn::Disable;
    let mut s = initialized(&mut device);
    let before = shown(&s, 10);
    device.failing = vec![Op::SetFanRpm(3200)];
    drive(&mut s, Command::Update(frame(vec![])), &mut device, 1100);
    assert!(device.log.contains(&Op::SetFanRpm(3200)));
    assert_eq!(shown(&s, 1100), before);
    assert_eq!(s.core.last_fan_enforce_time, 0);
}

#[test]
fn refresh_pass_runs_every_half_second() {
    let mut device = FakeDevice::new();
    device.lights = LightsAlwaysOn::Disable;
    let mut s = initialized(&mut device);
    drive(&mut s, Command::Update(frame(vec![])), &mut device, 499);
    assert!(device.log.is_empty());
    device.actual_rpm = 4100;
    drive(&mut s, Command::Update(frame(vec![])), &mut device, 500);
    assert_eq!(
        device.log,
        vec![Op::PowerSource, Op::GetFanActualRpm, Op::GetPerfMode, Op::GetFanRpm, Op::GetKeyboardBrightness]
    );
    assert_eq!(s.core.status.fan_actual_rpm, Some(4100));
    assert_eq!(s.core.last_refresh_time, 500);
}

#[test]
fn brightness_is_left_alone_while_the_slider_moves() {
    let mut device = FakeDevice::new();
    device.lights = LightsAlwaysOn::Disable;
    let mut s = initialized(&mut device);
    s.core.brightness_slider_active = true;
    device.brightness = 13;
    drive(&mut s, Command::Update(frame(vec![])), &mut device, 500);
    assert!(!device.log.contains(&Op::GetKeyboardBrightness));
    assert_eq!(s.core.status.keyboard_brightness, 120);
    s.core.brightness_slider_active = false;
    drive(&mut s, Command::Update(frame(vec![])), &mut device, 1000);
    assert_eq!(s.core.status.keyboard_brightness, 13);
    assert_eq!(s.core.temp_brightness_step, 1);
}

#[test]
fn minimized_window_polls_only_the_modes() {
    let mut device = FakeDevice::new();
    let mut s = initialized(&mut device);
    let mut minimized = frame(vec![]);
    minimized.minimized = true;
    drive(&mut s, Command::Update(minimized.clone()), &mut device, 2499);
    assert!(device.log.is_empty());
    device.perf = PerfMode::Silent;
    device.fan = FanMode::Manual;
    device.set_rpm = 2800;
    drive(&mut s, Command::Update(minimized.clone()), &mut device, 2500);
    assert_eq!(device.log, vec![Op::GetPerfMode, Op::GetFanRpm]);
    assert_eq!(s.core.status.performance_mode, Some(PerfMode::Silent));
    assert_eq!(s.core.status.fan_speed, Some(FanMode::Manual));
    assert_eq!(s.core.status.fan_rpm, Some(2800));
    assert_eq!(s.core.last_perf_poll_time, 2500);
    // The refresh pass did not run.
    assert_eq!(s.core.last_refresh_time, 0);
    device.log.clear();
    // An unchanged mode changes nothing, whatever the fan does.
    device.fan = FanMode::Auto;
    drive(&mut s, Command::Update(minimized), &mut device, 5000);
    assert_eq!(device.log, vec![Op::GetPerfMode]);
    assert_eq!(s.core.status.fan_speed, Some(FanMode::Manual));
}

#[test]
fn nothing_is_polled_before_initialization_is_complete() {
    let mut device = FakeDevice::new();
    let mut s = Scheduler::new(0);
    drive(&mut s, Command::Startup, &mut device, 0);
    device.log.clear();
    drive(&mut s, Command::Update(frame(vec![])), &mut device, 10_000);
    let mut minimized = frame(vec![]);
    minimized.minimized = true;
    drive(&mut s, Command::Update(minimized), &mut device, 20_000);
    assert!(device.log.is_empty());
}

#[test]
fn close_request_stops_the_passes() {
    let mut device = FakeDevice::new();
    let mut s = initialized(&mut device);
    let mut closing = frame(vec![]);
    closing.close_requested = true;
    drive(&mut s, Command::Update(closing), &mut device, 5000);
    assert!(s.core.should_quit);
    assert!(device.log.is_empty());
}

#[test]
fn cycle_moves_the_notification_centre_on() {
    let mut device = FakeDevice::new();
    device.attached = false;
    let mut s = Scheduler::new(0);
    drive(&mut s, Command::Startup, &mut device, 0);
    drive(&mut s, Command::Update(frame(vec![])), &mut device, 5101);
    // "Initializing..." has expired; the error behind it came up.
    assert_eq!(
        shown(&s, 5101).as_deref(),
        Some("Failed to connect to Razer device: No Razer devices found")
    );
    drive(&mut s, Command::Update(frame(vec![])), &mut device, 10_101);
    assert!(shown(&s, 10_101).is_none());
}

#[test]
fn probe_report_replaces_the_modes_unless_empty_or_stale() {
    let mut device = FakeDevice::new();
    let mut s = initialized(&mut device);
    s.core.status_messages = true;
    let generation = s.core.take_probe_request().unwrap();
    let mut stale = frame(vec![]);
    stale.probe_report = Some(ProbeReport { generation: generation + 1, modes: vec![PerfMode::Silent] });
    drive(&mut s, Command::Update(stale), &mut device, 20);
    assert_eq!(s.available_performance_modes.len(), 6);
    assert!(s.core.probe_pending);

    let mut found = frame(vec![]);
    found.probe_report =
        Some(ProbeReport { generation, modes: vec![PerfMode::Silent, PerfMode::Balanced] });
    drive(&mut s, Command::Update(found.clone()), &mut device, 30);
    assert_eq!(s.available_performance_modes, vec![PerfMode::Silent, PerfMode::Balanced]);
    assert!(!s.core.probe_pending);
    assert_eq!(shown(&s, 30).as_deref(), Some("Detected supported performance modes"));
    // A second delivery finds nobody waiting.
    found.probe_report = Some(ProbeReport { generation, modes: vec![PerfMode::Custom] });
    drive(&mut s, Command::Update(found), &mut device, 40);
    assert_eq!(s.available_performance_modes, vec![PerfMode::Silent, PerfMode::Balanced]);

    let mut device = FakeDevice::new();
    let mut t = initialized(&mut device);
    let generation = t.core.take_probe_request().unwrap();
    let mut empty = frame(vec![]);
    empty.probe_report = Some(ProbeReport { generation, modes: Vec::new() });
    drive(&mut t, Command::Update(empty), &mut device, 20);
    assert_eq!(t.available_performance_modes.len(), 6);
    assert!(!t.core.probe_pending);
}

#[test]
fn fan_requests_write_and_report() {
    let mut device = FakeDevice::new();
    let mut s = initialized(&mut device);
    s.core.status_messages = true;
    drive(&mut s, Command::SetFanMode("manual".to_string(), None), &mut device, 20);
    assert_eq!(device.log, vec![Op::SetFanMode(FanMode::Manual), Op::SetFanRpm(2000)]);
    assert_eq!(s.core.status.fan_speed, Some(FanMode::Manual));
    assert_eq!(s.core.status.fan_rpm, Some(2000));
    assert_eq!(shown(&s, 20).as_deref(), Some("Fan set to manual mode"));
    drive(&mut s, Command::SetFanRpm(4400), &mut device, 21);
    assert_eq!(device.set_rpm, 4400);
    assert_eq!(s.core.status.fan_rpm, Some(4400));
    assert_eq!(shown(&s, 21).as_deref(), Some("Fans RPM set to: 4400"));
    drive(&mut s, Command::SetFanMode("auto".to_string(), Some(1)), &mut device, 22);
    assert_eq!(device.fan, FanMode::Auto);
    assert_eq!(s.core.status.fan_speed, Some(FanMode::Auto));
    assert_eq!(s.core.status.fan_rpm, None);
    assert_eq!(shown(&s, 22).as_deref(), Some("Fan set to auto mode"));
}

#[test]
fn failed_fan_requests_are_critical_and_change_nothing() {
    let mut device = FakeDevice::new();
    let mut s = initialized(&mut device);
    device.failing = vec![Op::SetFanRpm(3000), Op::SetFanMode(FanMode::Auto)];
    drive(&mut s, Command::SetFanMode("manual".to_string(), Some(3000)), &mut device, 20);
    let current = s.message_manager.get_current_message(20).unwrap();
    assert_eq!(current.content, "Failed to set fan: offline");
    assert_eq!(current.message_type, MessageType::Error);
    assert_eq!(s.core.status.fan_speed, Some(FanMode::Auto));
    drive(&mut s, Command::SetFanMode("auto".to_string(), None), &mut device, 21);
    assert_eq!(shown(&s, 21).as_deref(), Some("Failed to set fan: offline"));
    drive(&mut s, Command::SetFanRpm(3000), &mut device, 22);
    assert_eq!(shown(&s, 22).as_deref(), Some("Failed to set fan RPM: offline"));
    assert_eq!(s.core.status.fan_rpm, None);
}

#[test]
fn lighting_requests_write_and_report() {
    let mut device = FakeDevice::new();
    let mut s = initialized(&mut device);
    s.core.status_messages = true;
    drive(&mut s, Command::SetLogoMode("Breathing".to_string()), &mut device, 20);
    assert_eq!(device.logo, LogoMode::Breathing);
    assert_eq!(s.core.status.logo_mode, Some(LogoMode::Breathing));
    assert_eq!(shown(&s, 20).as_deref(), Some("Logo mode set to Breathing"));
    drive(&mut s, Command::SetBrightness(225), &mut device, 21);
    assert_eq!(device.brightness, 225);
    assert_eq!(s.core.status.keyboard_brightness, 225);
    assert_eq!(s.core.temp_brightness_step, 15);
    assert_eq!(shown(&s, 21).as_deref(), Some("Brightness set to step 15"));
    device.failing = vec![Op::SetKeyboardBrightness(13), Op::SetLogoMode(LogoMode::Off)];
    drive(&mut s, Command::SetBrightness(13), &mut device, 22);
    assert_eq!(shown(&s, 22).as_deref(), Some("Failed to set brightness: offline"));
    assert_eq!(s.core.status.keyboard_brightness, 225);
    drive(&mut s, Command::SetLogoMode("Off".to_string()), &mut device, 23);
    assert_eq!(shown(&s, 23).as_deref(), Some("Failed to set logo mode: offline"));
    assert_eq!(s.core.status.logo_mode, Some(LogoMode::Breathing));
}

#[test]
fn toggles_write_the_flag_of_the_status() {
    let mut device = FakeDevice::new();
    let mut s = initialized(&mut device);
    s.core.status_messages = true;
    // The interface has flipped the flag; the request writes it.
    s.core.status.lights_always_on = false;
    drive(&mut s, Command::ToggleLightsAlwaysOn, &mut device, 20);
    assert_eq!(device.lights, LightsAlwaysOn::Disable);
    assert_eq!(shown(&s, 20).as_deref(), Some("Keyboard Backlight Always On disabled"));
    assert_eq!(s.core.device_state.unwrap().lights_always_on, LightsAlwaysOn::Disable);
    s.core.status.battery_care = false;
    drive(&mut s, Command::ToggleBatteryCare, &mut device, 21);
    assert_eq!(device.care, BatteryCare::Disable);
    assert_eq!(shown(&s, 21).as_deref(), Some("Battery care disabled"));
    s.core.status.battery_care = true;
    drive(&mut s, Command::ToggleBatteryCare, &mut device, 22);
    assert_eq!(device.care, BatteryCare::Enable);
    assert_eq!(shown(&s, 22).as_deref(), Some("Battery care enabled"));
}

#[test]
fn failed_toggles_put_the_flag_back() {
    let mut device = FakeDevice::new();
    let mut s = initialized(&mut device);
    device.failing =
        vec![Op::SetLightsAlwaysOn(LightsAlwaysOn::Disable), Op::SetBatteryCare(BatteryCare::Disable)];
    s.core.status.lights_always_on = false;
    drive(&mut s, Command::ToggleLightsAlwaysOn, &mut device, 20);
    assert!(s.core.status.lights_always_on);
    let current = s.message_manager.get_current_message(20).unwrap();
    assert_eq!(current.content, "Failed to set lights always on: offline");
    assert_eq!(current.message_type, MessageType::Error);
    s.core.status.battery_care = false;
    drive(&mut s, Command::ToggleBatteryCare, &mut device, 21);
    assert!(s.core.status.battery_care);
    assert_eq!(shown(&s, 21).as_deref(), Some("Failed to set battery care: offline"));
}

#[test]
fn requests_without_device_tell_so_and_ask_nothing() {
    let mut device = FakeDevice::new();
    device.attached = false;
    let mut s = Scheduler::new(0);
    drive(&mut s, Command::Startup, &mut device, 0);
    device.log.clear();
    for command in [
        Command::SetPerformanceMode("Silent".to_string()),
        Command::SetFanMode("auto".to_string(), None),
        Command::SetFanRpm(3000),
        Command::SetLogoMode("Off".to_string()),
        Command::SetBrightness(5),
        Command::ToggleLightsAlwaysOn,
        Command::ToggleBatteryCare,
    ] {
        s.message_manager = rhelper::messaging::MessageManager::new();
        drive(&mut s, command, &mut device, 50);
        assert_eq!(shown(&s, 50).as_deref(), Some("No device connected"));
    }
    drive(&mut s, Command::ForceReprobe, &mut device, 60);
    assert!(!s.core.probe_pending);
    assert!(device.log.is_empty());
}

#[test]
fn optional_messages_are_hidden_unless_switched_on() {
    let mut device = FakeDevice::new();
    let mut s = initialized(&mut device);
    let before = shown(&s, 20);
    drive(&mut s, Command::SetBrightness(59), &mut device, 20);
    assert_eq!(device.brightness, 59);
    assert_eq!(shown(&s, 20), before);
    s.set_optional_status_message("hidden".to_string(), 21);
    assert_eq!(shown(&s, 21), before);
    s.set_status_message("always".to_string(), 22);
    assert_eq!(shown(&s, 22).as_deref(), Some("always"));
    s.core.status_messages = true;
    s.set_optional_status_message("now shown".to_string(), 23);
    assert_eq!(shown(&s, 23).as_deref(), Some("now shown"));
    s.set_error_message("bad".to_string(), 24);
    assert_eq!(s.message_manager.get_current_message(24).unwrap().message_type, MessageType::Error);
    s.set_no_device_message(25);
    assert_eq!(shown(&s, 25).as_deref(), Some("No device connected"));
}

#[test]
fn run_asks_for_one_operation_at_a_time() {
    let s = Scheduler::new(0);
    let transcript: Vec<Exchange> = Vec::new();
    match s.clone().run(Command::Startup, &transcript, 0) {
        Progress::Ask(op) => assert_eq!(op, Op::Detect),
        other => panic!("unexpected {:?}", other),
    }
    let transcript = vec![Exchange { op: Op::Detect, reply: Err("none".to_string()) }];
    match s.clone().run(Command::Startup, &transcript, 0) {
        Progress::Finished { state, diagnostics } => {
            assert!(!state.core.device_present);
            assert!(diagnostics.is_empty());
        }
        other => panic!("unexpected {:?}", other),
    }
}

#[test]
fn run_rejects_a_transcript_of_another_command() {
    let s = Scheduler::new(0);
    let wrong = vec![Exchange { op: Op::GetPerfMode, reply: Err("x".to_string()) }];
    assert!(matches!(s.clone().run(Command::Startup, &wrong, 0), Progress::Diverged));
    let too_long = vec![
        Exchange { op: Op::Detect, reply: Err("none".to_string()) },
        Exchange { op: Op::GetPerfMode, reply: Err("x".to_string()) },
    ];
    assert!(matches!(s.run(Command::Startup, &too_long, 0), Progress::Diverged));
}

#[test]
fn link_answers_from_the_transcript_and_records_questions() {
    let transcript = vec![
        Exchange { op: Op::GetFanRpm, reply: Ok(Value::Rpm(3000)) },
        Exchange { op: Op::GetFanActualRpm, reply: Err("busy".to_string()) },
        Exchange { op: Op::GetFanRpm, reply: Ok(Value::Brightness(1)) },
    ];
    let mut link = Link::new(&transcript);
    assert_eq!(link.standing(), Standing::Diverged);
    assert_eq!(get_fan_rpm_set(&mut link), Some(3000));
    assert_eq!(get_fan_rpm_actual(&mut link), None);
    // A value of the wrong kind is no answer.
    assert_eq!(link.get_fan_rpm(), Err("no answer".to_string()));
    assert_eq!(link.standing(), Standing::Settled);
    assert_eq!(link.get_logo_mode(), Err("no answer".to_string()));
    assert_eq!(link.standing(), Standing::Waiting(Op::GetLogoMode));
    assert_eq!(
        link.asked(),
        &vec![Op::GetFanRpm, Op::GetFanActualRpm, Op::GetFanRpm, Op::GetLogoMode]
    );
    assert!(Op::SetFanRpm(1).is_write());
    assert!(!Op::GetFanRpm.is_write());
    assert!(!Op::Settle(50).is_write());
}

#[test]
fn fan_state_read_retries_once_and_defaults_to_automatic() {
    let transcript = vec![
        Exchange { op: Op::GetPerfMode, reply: Err("busy".to_string()) },
        Exchange { op: Op::GetPerfMode, reply: Ok(Value::Modes(PerfMode::Silent, FanMode::Manual)) },
        Exchange { op: Op::GetFanRpm, reply: Ok(Value::Rpm(2700)) },
    ];
    let mut link = Link::new(&transcript);
    assert_eq!(read_current_fan_state(&mut link), (FanMode::Manual, Some(2700)));
    assert_eq!(link.standing(), Standing::Settled);
    let transcript = vec![
        Exchange { op: Op::GetPerfMode, reply: Err("busy".to_string()) },
        Exchange { op: Op::GetPerfMode, reply: Err("busy".to_string()) },
        Exchange { op: Op::GetFanRpm, reply: Err("busy".to_string()) },
    ];
    let mut link = Link::new(&transcript);
    assert_eq!(read_current_fan_state(&mut link), (FanMode::Auto, None));
    assert_eq!(link.standing(), Standing::Settled);
}

#[test]
fn full_read_stops_at_the_first_failure() {
    let transcript = vec![
        Exchange { op: Op::GetPerfMode, reply: Ok(Value::Modes(PerfMode::Silent, FanMode::Auto)) },
        Exchange { op: Op::GetLogoMode, reply: Err("busy".to_string()) },
    ];
    let mut link = Link::new(&transcript);
    assert_eq!(CompleteDeviceState::read_from_device(&mut link), Err("busy".to_string()));
    assert_eq!(link.standing(), Standing::Settled);
    let transcript = vec![
        Exchange { op: Op::GetPerfMode, reply: Ok(Value::Modes(PerfMode::Silent, FanMode::Manual)) },
        Exchange { op: Op::GetFanRpm, reply: Ok(Value::Rpm(2100)) },
        Exchange { op: Op::GetLogoMode, reply: Ok(Value::Logo(LogoMode::Off)) },
        Exchange { op: Op::GetKeyboardBrightness, reply: Ok(Value::Brightness(9)) },
        Exchange { op: Op::GetLightsAlwaysOn, reply: Ok(Value::Lights(LightsAlwaysOn::Disable)) },
        Exchange { op: Op::GetBatteryCare, reply: Ok(Value::Care(BatteryCare::Disable)) },
    ];
    let mut link = Link::new(&transcript);
    assert_eq!(
        CompleteDeviceState::read_from_device(&mut link),
        Ok(CompleteDeviceState {
            perf_mode: PerfMode::Silent,
            fan_mode: FanMode::Manual,
            fan_rpm: Some(2100),
            logo_mode: LogoMode::Off,
            keyboard_brightness: 9,
            lights_always_on: LightsAlwaysOn::Disable,
            battery_care: BatteryCare::Disable,
        })
    );
    assert_eq!(link.standing(), Standing::Settled);
}

#[test]
fn device_command_words_its_outcome() {
    let transcript = vec![Exchange { op: Op::SetFanRpm(3000), reply: Ok(Value::Done) }];
    let mut link = Link::new(&transcript);
    assert_eq!(
        execute_device_command_simple(true, &mut link, Op::SetFanRpm(3000), "done", "Failed"),
        Ok("done".to_string())
    );
    let transcript = vec![Exchange { op: Op::SetFanRpm(3000), reply: Err("busy".to_string()) }];
    let mut link = Link::new(&transcript);
    assert_eq!(
        execute_device_command_simple(true, &mut link, Op::SetFanRpm(3000), "done", "Failed"),
        Err("Failed: busy".to_string())
    );
    let transcript: Vec<Exchange> = Vec::new();
    let mut link = Link::new(&transcript);
    assert_eq!(
        execute_device_command_simple(false, &mut link, Op::SetFanRpm(3000), "done", "Failed"),
        Err("No device connected".to_string())
    );
    assert!(link.asked().is_empty());
}

#[test]
fn due_compares_elapsed_time() {
    assert!(due(0, 500, 500));
    assert!(!due(0, 499, 500));
    assert!(!due(1000, 0, 1));
    assert!(due(1000, 0, 0));
    assert!(due(0, u64::MAX, 3000));
}

#[test]
fn probe_numbers_wrap_around() {
    let mut device = FakeDevice::new();
    let mut s = initialized(&mut device);
    assert_eq!(s.core.take_probe_request(), Some(1));
    drive(&mut s, Command::ForceReprobe, &mut device, 20);
    assert_eq!(s.core.take_probe_request(), Some(2));
    s.core.probe_generation = u64::MAX;
    drive(&mut s, Command::ForceReprobe, &mut device, 30);
    assert_eq!(s.core.take_probe_request(), Some(0));
}

#[test]
fn every_scenario_run_follows_its_transcript() {
    // A command run again over its complete transcript is complete at once
    // and gives the same state.
    let mut device = FakeDevice::new();
    let s = initialized(&mut device);
    let mut transcript: Vec<Exchange> = Vec::new();
    let command = Command::SetPerformanceMode("Silent".to_string());
    let first = loop {
        match s.clone().run(command.clone(), &transcript, 50) {
            Progress::Finished { state, .. } => break state,
            Progress::Ask(op) => {
                let reply = device.perform(&op);
                transcript.push(Exchange { op, reply });
            }
            Progress::Diverged => panic!("diverged"),
        }
    };
    match s.clone().run(command, &transcript, 50) {
        Progress::Finished { state, .. } => assert_eq!(state.core, first.core),
        other => panic!("unexpected {:?}", other),
    }
    // Every prefix of the transcript asks for the operation that follows it.
    for k in 0..transcript.len() {
        let prefix: Vec<Exchange> = transcript[..k].to_vec();
        match s.clone().run(Command::SetPerformanceMode("Silent".to_string()), &prefix, 50) {
            Progress::Ask(op) => assert_eq!(op, transcript[k].op),
            other => panic!("unexpected {:?}", other),
        }
    }
}

#[test]
fn due_cycle_compares_with_the_baseline_once() {
    let mut device = FakeDevice::new();
    let mut s = initialized(&mut device);
    drive(&mut s, Command::Update(frame(vec![])), &mut device, 3000);
    // The logo mode is read by the full read only.
    assert_eq!(device.log.iter().filter(|op| **op == Op::GetLogoMode).count(), 1);
    assert_eq!(s.core.last_state_check_time, 3000);
    assert_eq!(s.core.last_refresh_time, 3000);
    device.log.clear();
    // Half a second later a pass is due, a comparison is not.
    drive(&mut s, Command::Update(frame(vec![])), &mut device, 3500);
    assert_eq!(device.log.iter().filter(|op| **op == Op::GetLogoMode).count(), 0);
    assert!(device.log.contains(&Op::GetLightsAlwaysOn));
    assert_eq!(s.core.last_state_check_time, 3000);
    assert_eq!(s.core.last_refresh_time, 3500);
    device.log.clear();
    // Three seconds after the last comparison the next one is made.
    drive(&mut s, Command::Update(frame(vec![])), &mut device, 6000);
    assert_eq!(device.log.iter().filter(|op| **op == Op::GetLogoMode).count(), 1);
    assert_eq!(s.core.last_state_check_time, 6000);
}
