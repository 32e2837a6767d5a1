use rhelper::device::{
    all_perf_modes, logo_mode_to_string, perf_mode_to_string, string_to_logo_mode,
    string_to_perf_mode, CompleteDeviceState, DeviceStatus, FanMode, LogoMode, PerfMode,
};
use rhelper::specs::{
    device_model_name, get_cpu_info, get_gpu_info, get_ram_info, get_system_specs, SystemSpecs,
};
use rhelper::system::{
    execute_powershell_command, fallback_icon, get_power_state, ShellRun,
};
use rhelper::text::{clean_display_string, failure, joined, number_text, same_text};
use rhelper::messaging::MessageType;
use rhelper::ui::{
    battery_status_text, brightness_level, button_color, clamp_step, device_title, has_mode,
    manual_fan_action, message_icon, performance_buttons, raw_brightness_to_step_index,
    BatteryAction, FanAction, LightingAction, PerformanceAction,
};

#[test]
fn clean_display_string_squeezes_white_space() {
    assert_eq!(clean_display_string("  Intel(R)   Core(TM)\r\n i9  "), "Intel(R) Core(TM) i9");
    assert_eq!(clean_display_string(""), "");
    assert_eq!(clean_display_string(" \t\r\n "), "");
    assert_eq!(clean_display_string("a\rb"), "ab");
    assert_eq!(clean_display_string("a\nb"), "a b");
    assert_eq!(clean_display_string("a\u{00a0}\u{3000}b"), "a b");
    assert_eq!(clean_display_string("single"), "single");
}

#[test]
fn clean_display_string_matches_the_std_pipeline() {
    let samples = [
        "x", "  x", "x  ", " a  b   c ", "\r\n", "a\r\nb", "\ra", "a\r", "a \r b", "tab\tbed",
        "é  ü", "a\u{2003}b", "",
    ];
    for s in samples {
        let expected = s
            .trim()
            .replace('\r', "")
            .replace('\n', " ")
            .split_whitespace()
            .collect::<Vec<_>>()
            .join(" ");
        assert_eq!(clean_display_string(s), expected, "input {:?}", s);
    }
}

#[test]
fn number_text_is_decimal() {
    assert_eq!(number_text(0), "0");
    assert_eq!(number_text(7), "7");
    assert_eq!(number_text(10), "10");
    assert_eq!(number_text(3000), "3000");
    assert_eq!(number_text(u64::MAX), "18446744073709551615");
}

#[test]
fn text_helpers_build_and_compare() {
    assert_eq!(joined("ab", "cd"), "abcd");
    assert_eq!(failure("Failed to set fan", "busy"), "Failed to set fan: busy");
    assert!(same_text("auto", "auto"));
    assert!(!same_text("auto", "Auto"));
    assert!(!same_text("auto", "autos"));
    assert!(same_text("", ""));
}

#[test]
fn perf_mode_labels_round_trip() {
    for mode in all_perf_modes() {
        let label = perf_mode_to_string(mode);
        assert_eq!(string_to_perf_mode(&label), Some(mode));
    }
    assert_eq!(perf_mode_to_string(PerfMode::Balanced), "Balanced");
    assert_eq!(perf_mode_to_string(PerfMode::Performance), "Performance");
    assert_eq!(string_to_perf_mode("balanced"), None);
    assert_eq!(string_to_perf_mode(""), None);
    assert_eq!(all_perf_modes().len(), 6);
}

#[test]
fn logo_mode_labels_round_trip() {
    for mode in [LogoMode::Off, LogoMode::Breathing, LogoMode::Static] {
        assert_eq!(string_to_logo_mode(logo_mode_to_string(mode)), Some(mode));
    }
    assert_eq!(logo_mode_to_string(LogoMode::Breathing), "Breathing");
    assert_eq!(string_to_logo_mode("static"), None);
}

#[test]
fn default_snapshot_is_the_mains_profile() {
    let d = CompleteDeviceState::default();
    assert_eq!(d.perf_mode, PerfMode::Performance);
    assert_eq!(d.fan_mode, FanMode::Auto);
    assert_eq!(d.fan_rpm, None);
    assert_eq!(d.logo_mode, LogoMode::Off);
    assert_eq!(d.keyboard_brightness, 50);
}

#[test]
fn snapshot_equality_is_reflexive_and_fieldwise() {
    let a = CompleteDeviceState::default();
    assert!(a == a);
    assert!(!a.differs_from(&a));
    let b = CompleteDeviceState { keyboard_brightness: 51, ..a };
    assert!(a != b);
    assert!(a.differs_from(&b));
    let c = CompleteDeviceState { fan_rpm: Some(3000), ..a };
    assert!(a.differs_from(&c));
    let d = CompleteDeviceState { perf_mode: PerfMode::Silent, ..a };
    assert!(a.differs_from(&d));
}

#[test]
fn unread_status_shows_placeholders() {
    let s = DeviceStatus::default();
    assert_eq!(s.performance_mode_text(), "Reading...");
    assert_eq!(s.fan_speed_text(), "Reading...");
    assert_eq!(s.logo_mode_text(), "Reading...");
    assert_eq!(s.keyboard_brightness, 0);
    assert!(!s.lights_always_on);
    assert!(s.battery_care);
    let t = DeviceStatus {
        performance_mode: Some(PerfMode::Silent),
        fan_speed: Some(FanMode::Manual),
        logo_mode: Some(LogoMode::Static),
        ..s
    };
    assert_eq!(t.performance_mode_text(), "Silent");
    assert_eq!(t.fan_speed_text(), "Manual");
    assert_eq!(t.logo_mode_text(), "Static");
}

#[test]
fn brightness_maps_to_the_closest_step() {
    assert_eq!(raw_brightness_to_step_index(0), 0);
    assert_eq!(raw_brightness_to_step_index(6), 0);
    assert_eq!(raw_brightness_to_step_index(7), 1);
    assert_eq!(raw_brightness_to_step_index(13), 1);
    assert_eq!(raw_brightness_to_step_index(225), 15);
    assert_eq!(raw_brightness_to_step_index(255), 15);
    assert_eq!(raw_brightness_to_step_index(50), 3);
    // 51 is as far from 43 as from 59: the lower step wins.
    assert_eq!(raw_brightness_to_step_index(51), 3);
    assert_eq!(raw_brightness_to_step_index(52), 4);
}

#[test]
fn brightness_steps_agree_with_min_by_key() {
    let levels: [u8; 16] = [0, 13, 28, 43, 59, 74, 89, 105, 120, 133, 148, 163, 179, 194, 209, 225];
    for (i, level) in levels.iter().enumerate() {
        assert_eq!(brightness_level(i), *level);
    }
    for b in 0..=255u8 {
        let expected = levels
            .iter()
            .enumerate()
            .min_by_key(|(_, &level)| (level as i16 - b as i16).abs())
            .map(|(idx, _)| idx)
            .unwrap_or(0);
        assert_eq!(raw_brightness_to_step_index(b), expected);
    }
}

#[test]
fn action_types_compare() {
    assert_eq!(BatteryAction::NoAction, BatteryAction::NoAction);
    assert_ne!(BatteryAction::NoAction, BatteryAction::ToggleBatteryCare);
    assert_eq!(FanAction::SetManualMode(3000), FanAction::SetManualMode(3000));
    assert_ne!(FanAction::SetManualRpm(3000), FanAction::SliderDragging(3000));
    let l = LightingAction::default();
    assert!(l.logo_mode.is_none() && l.brightness.is_none() && l.slider_active.is_none());
    assert!(!l.lights_always_on);
    assert!(matches!(PerformanceAction::RefreshProbe, PerformanceAction::RefreshProbe));
}

#[test]
fn device_model_drops_the_gpu_number() {
    assert_eq!(device_model_name("Razer Blade 16\" (2025) 5090"), "Razer Blade 16\" (2025)");
    assert_eq!(device_model_name("Razer Blade 15 (2024) 4070"), "Razer Blade 15 (2024)");
    assert_eq!(device_model_name("Razer Blade 15 (2024) 4070  "), "Razer Blade 15 (2024)");
    assert_eq!(device_model_name("Razer Blade 14"), "Razer Blade 14");
    assert_eq!(device_model_name("  Razer Blade 14  "), "Razer Blade 14");
    assert_eq!(device_model_name("Blade4060"), "Blade");
    assert_eq!(device_model_name("Blade 4060 Pro"), "Blade 4060 Pro");
    assert_eq!(device_model_name("Blade 4070 4060"), "Blade 4070");
    assert_eq!(device_model_name("Blade 4060 4070"), "Blade 4060");
    assert_eq!(device_model_name(""), "");
}

#[test]
fn inventory_is_assembled_with_placeholders() {
    let d = SystemSpecs::default();
    assert_eq!(d.device_model, "Unknown");
    assert_eq!(d.cpu_model, "Unknown");
    assert_eq!(d.gpu_models, vec!["Unknown".to_string()]);
    assert_eq!(d.total_ram_gb, 0);
    let s = get_system_specs(
        Some("Razer Blade 16 (2025) 5090"),
        Some("CPU".to_string()),
        Some(vec!["GPU A".to_string(), "GPU B".to_string()]),
        Some(32),
    );
    assert_eq!(s.device_model, "Razer Blade 16 (2025)");
    assert_eq!(s.cpu_model, "CPU");
    assert_eq!(s.gpu_models.len(), 2);
    assert_eq!(s.total_ram_gb, 32);
    let t = get_system_specs(None, None, Some(Vec::new()), None);
    assert_eq!(t.device_model, "Unknown");
    assert_eq!(t.gpu_models, vec!["Unknown".to_string()]);
}

#[test]
fn query_output_is_parsed() {
    assert_eq!(get_cpu_info(" Intel  Core \r\n"), "Intel Core");
    assert_eq!(
        get_gpu_info("NVIDIA  GeForce RTX 4070\r\n\r\nIntel(R) UHD\r\n"),
        vec!["NVIDIA GeForce RTX 4070".to_string(), "Intel(R) UHD".to_string()]
    );
    assert_eq!(get_gpu_info(""), vec!["No discrete GPU detected".to_string()]);
    assert_eq!(get_gpu_info(" \r\n \n"), vec!["No discrete GPU detected".to_string()]);
    assert_eq!(get_gpu_info("one"), vec!["one".to_string()]);
    assert_eq!(get_ram_info("34359738368\r\n"), Ok(32));
    assert_eq!(get_ram_info("1073741823"), Ok(0));
    assert_eq!(get_ram_info("+1073741824"), Ok(1));
    assert_eq!(get_ram_info("18446744073709551615"), Ok(((u64::MAX / 1073741824) as u32)));
    assert_eq!(get_ram_info("18446744073709551616"), Err("Failed to parse RAM size".to_string()));
    assert_eq!(get_ram_info("12 34"), Err("Failed to parse RAM size".to_string()));
    assert_eq!(get_ram_info(""), Err("Failed to parse RAM size".to_string()));
    assert_eq!(get_ram_info("+"), Err("Failed to parse RAM size".to_string()));
    assert_eq!(get_ram_info("-1"), Err("Failed to parse RAM size".to_string()));
}

#[test]
fn power_state_defaults_to_mains() {
    assert!(get_power_state(None));
    assert!(get_power_state(Some(1)));
    assert!(!get_power_state(Some(0)));
    assert!(!get_power_state(Some(255)));
}

#[test]
fn script_outcome_is_worded() {
    assert_eq!(
        execute_powershell_command(&ShellRun::Unavailable),
        Err("PowerShell is only available on Windows".to_string())
    );
    assert_eq!(
        execute_powershell_command(&ShellRun::NotStarted("no such file".to_string())),
        Err("Failed to execute PowerShell: no such file".to_string())
    );
    let ok = ShellRun::Exited {
        stdout: "  value \r\n".to_string(),
        stderr: String::new(),
        code: Some(0),
    };
    assert_eq!(execute_powershell_command(&ok), Ok("value".to_string()));
    let warned = ShellRun::Exited {
        stdout: "value".to_string(),
        stderr: "warning".to_string(),
        code: Some(0),
    };
    assert_eq!(execute_powershell_command(&warned), Ok("value".to_string()));
    let failed = ShellRun::Exited {
        stdout: "value".to_string(),
        stderr: " boom \n".to_string(),
        code: Some(1),
    };
    assert_eq!(execute_powershell_command(&failed), Err("PowerShell error: boom".to_string()));
    let killed = ShellRun::Exited {
        stdout: "v".to_string(),
        stderr: "x".to_string(),
        code: None,
    };
    assert_eq!(execute_powershell_command(&killed), Err("PowerShell error: x".to_string()));
    let silent_failure = ShellRun::Exited {
        stdout: "v".to_string(),
        stderr: "  ".to_string(),
        code: Some(3),
    };
    assert_eq!(execute_powershell_command(&silent_failure), Ok("v".to_string()));
}

#[test]
fn fallback_icon_is_one_colour() {
    let rgba = fallback_icon();
    assert_eq!(rgba.len(), 32 * 32 * 4);
    for pixel in rgba.chunks(4) {
        assert_eq!(pixel, [0, 150, 255, 255]);
    }
}

#[test]
fn mode_buttons_stand_in_fixed_order() {
    let available = vec![PerfMode::Custom, PerfMode::Performance, PerfMode::Silent, PerfMode::Battery];
    assert_eq!(
        performance_buttons(&available),
        vec![PerfMode::Battery, PerfMode::Silent, PerfMode::Performance]
    );
    assert_eq!(performance_buttons(&all_perf_modes()).len(), 5);
    assert!(performance_buttons(&Vec::new()).is_empty());
    assert!(performance_buttons(&vec![PerfMode::Custom]).is_empty());
    assert!(has_mode(&available, PerfMode::Custom));
    assert!(!has_mode(&available, PerfMode::Balanced));
}

#[test]
fn button_colours_follow_power_and_selection() {
    assert_eq!(button_color(true, true), (0, 120, 60));
    assert_eq!(button_color(true, false), (60, 80, 40));
    assert_eq!(button_color(false, true), (140, 70, 0));
    assert_eq!(button_color(false, false), (80, 60, 40));
}

#[test]
fn header_and_status_texts() {
    assert_eq!(device_title(true, "Razer Blade 16"), "💻 Razer Blade 16");
    assert_eq!(device_title(false, "Razer Blade 16"), "💻 Razer Blade 16");
    assert_eq!(device_title(true, "Unknown"), "💻 Connected Device");
    assert_eq!(device_title(false, "Unknown"), "💻 No Razer Device");
    assert_eq!(battery_status_text(true), "Active (Hardware default: 80%)");
    assert_eq!(battery_status_text(false), "Disabled");
    assert_eq!(message_icon(MessageType::Info), "ℹ");
    assert_eq!(message_icon(MessageType::Error), "⚠");
}

#[test]
fn sliders_yield_their_actions() {
    assert_eq!(manual_fan_action(3000, true, false), Some(FanAction::SliderDragging(3000)));
    assert_eq!(manual_fan_action(3000, true, true), Some(FanAction::SliderDragging(3000)));
    assert_eq!(manual_fan_action(3000, false, true), Some(FanAction::SetManualRpm(3000)));
    assert_eq!(manual_fan_action(3000, false, false), None);
    assert_eq!(clamp_step(0), 0);
    assert_eq!(clamp_step(15), 15);
    assert_eq!(clamp_step(16), 15);
    assert_eq!(clamp_step(usize::MAX), 15);

    let mut action = LightingAction::default();
    action.record_slider(3, 4, true, false);
    assert_eq!(action.slider_active, Some(true));
    assert_eq!(action.brightness, Some(59));
    let mut action = LightingAction::default();
    action.record_slider(4, 4, false, true);
    assert_eq!(action.slider_active, Some(false));
    assert_eq!(action.brightness, None);
    let mut action = LightingAction::default();
    action.record_slider(0, 15, false, false);
    assert_eq!(action.slider_active, None);
    assert_eq!(action.brightness, Some(225));
}
