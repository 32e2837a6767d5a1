use rhelper::coordinator::{InitializationCoordinator, WorkerEvent, WorkerTask};
use rhelper::device::{FanMode, PerfMode};
use rhelper::link::{DeviceInfo, Exchange, Op, Value};
use rhelper::probe::{run_probe, ProbeProgress};
use rhelper::specs::SystemSpecs;
use rhelper::tick::InitMessage;

/// Runs the probe against a device in `current` mode on which the modes in
/// `refused` cannot be set; returns what was found and what was asked.
fn probe(current: Option<PerfMode>, refused: &[PerfMode], opens: bool) -> (Vec<PerfMode>, Vec<Op>) {
    let mut mode = current;
    let mut log: Vec<Op> = Vec::new();
    let mut transcript: Vec<Exchange> = Vec::new();
    loop {
        match run_probe(&transcript) {
            ProbeProgress::Finished(modes) => return (modes, log),
            ProbeProgress::Ask(op) => {
                log.push(op);
                let reply = match op {
                    Op::Detect => {
                        if opens {
                            Ok(Value::Attached(DeviceInfo { name: "d".to_string(), perf_modes: None }))
                        } else {
                            Err("cannot open".to_string())
                        }
                    }
                    Op::GetPerfMode => match mode {
                        Some(m) => Ok(Value::Modes(m, FanMode::Auto)),
                        None => Err("busy".to_string()),
                    },
                    Op::SetPerfMode(m) => {
                        if refused.contains(&m) {
                            Err("Command not supported by device".to_string())
                        } else {
                            mode = Some(m);
                            Ok(Value::Done)
                        }
                    }
                    _ => Err("unexpected".to_string()),
                };
                transcript.push(Exchange { op, reply });
            }
            ProbeProgress::Diverged => panic!("diverged"),
        }
    }
}

#[test]
fn probe_in_custom_mode_writes_nothing() {
    let (modes, log) = probe(Some(PerfMode::Custom), &[], true);
    assert_eq!(modes, vec![PerfMode::Custom]);
    assert_eq!(log, vec![Op::Detect, Op::GetPerfMode]);
    assert!(log.iter().all(|op| !op.is_write()));
}

#[test]
fn probe_tries_every_other_mode_and_restores_the_first() {
    let (modes, log) = probe(Some(PerfMode::Balanced), &[PerfMode::Hyperboost, PerfMode::Battery], true);
    assert_eq!(
        modes,
        vec![PerfMode::Silent, PerfMode::Balanced, PerfMode::Performance, PerfMode::Custom]
    );
    assert_eq!(
        log,
        vec![
            Op::Detect,
            Op::GetPerfMode,
            Op::SetPerfMode(PerfMode::Battery),
            Op::SetPerfMode(PerfMode::Silent),
            Op::SetPerfMode(PerfMode::Performance),
            Op::SetPerfMode(PerfMode::Hyperboost),
            Op::SetPerfMode(PerfMode::Custom),
            Op::SetPerfMode(PerfMode::Balanced),
        ]
    );
}

#[test]
fn probe_reports_the_current_mode_even_if_nothing_else_works() {
    let refused = [
        PerfMode::Battery,
        PerfMode::Balanced,
        PerfMode::Performance,
        PerfMode::Hyperboost,
        PerfMode::Custom,
    ];
    let (modes, log) = probe(Some(PerfMode::Silent), &refused, true);
    assert_eq!(modes, vec![PerfMode::Silent]);
    // The restore is attempted whatever happened before.
    assert_eq!(log.last(), Some(&Op::SetPerfMode(PerfMode::Silent)));
}

#[test]
fn probe_finds_nothing_without_device_or_mode() {
    let (modes, log) = probe(Some(PerfMode::Balanced), &[], false);
    assert!(modes.is_empty());
    assert_eq!(log, vec![Op::Detect]);
    let (modes, log) = probe(None, &[], true);
    assert!(modes.is_empty());
    assert_eq!(log, vec![Op::Detect, Op::GetPerfMode]);
}

#[test]
fn probe_rejects_a_foreign_transcript() {
    let transcript = vec![Exchange { op: Op::GetFanRpm, reply: Ok(Value::Rpm(1)) }];
    assert!(matches!(run_probe(&transcript), ProbeProgress::Diverged));
}

fn names(messages: &[InitMessage]) -> Vec<&'static str> {
    messages
        .iter()
        .map(|m| match m {
            InitMessage::PowerStateRead(true) => "power:ac",
            InitMessage::PowerStateRead(false) => "power:battery",
            InitMessage::InitializationComplete => "complete",
            InitMessage::SystemSpecsComplete(_) => "specs",
        })
        .collect()
}

#[test]
fn coordinator_reports_milestones_in_order() {
    let mut c = InitializationCoordinator::new();
    assert!(!c.is_done());
    let step = c.advance(WorkerEvent::Launched);
    assert!(step.emit.is_empty());
    assert_eq!(step.next, Some(WorkerTask::ReadPowerSource));
    let step = c.advance(WorkerEvent::PowerSource(Some(false)));
    assert_eq!(names(&step.emit), vec!["power:battery", "complete"]);
    assert_eq!(step.next, Some(WorkerTask::FetchInventory));
    let step = c.advance(WorkerEvent::Inventory(SystemSpecs::default()));
    assert_eq!(names(&step.emit), vec!["specs"]);
    assert_eq!(step.next, None);
    assert!(c.is_done());
}

#[test]
fn coordinator_goes_on_without_the_power_source() {
    let mut c = InitializationCoordinator::new();
    c.advance(WorkerEvent::Launched);
    let step = c.advance(WorkerEvent::PowerSource(None));
    assert_eq!(names(&step.emit), vec!["complete"]);
    assert_eq!(step.next, Some(WorkerTask::FetchInventory));
}

#[test]
fn coordinator_reports_no_milestone_twice() {
    let mut c = InitializationCoordinator::new();
    // Out of turn: nothing happens.
    let step = c.advance(WorkerEvent::PowerSource(Some(true)));
    assert!(step.emit.is_empty() && step.next.is_none());
    let step = c.advance(WorkerEvent::Inventory(SystemSpecs::default()));
    assert!(step.emit.is_empty() && step.next.is_none());
    c.advance(WorkerEvent::Launched);
    let step = c.advance(WorkerEvent::Launched);
    assert!(step.emit.is_empty() && step.next.is_none());
    c.advance(WorkerEvent::PowerSource(Some(true)));
    let step = c.advance(WorkerEvent::PowerSource(Some(true)));
    assert!(step.emit.is_empty() && step.next.is_none());
    c.advance(WorkerEvent::Inventory(SystemSpecs::default()));
    let step = c.advance(WorkerEvent::Inventory(SystemSpecs::default()));
    assert!(step.emit.is_empty() && step.next.is_none());
    assert!(c.is_done());
}
