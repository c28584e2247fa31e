use plant_waterer::control::{ControlLoop, TickReport, PUMP_ROW, READING_ROW};
use plant_waterer::fakes::{RecordingDisplay, RecordingPump, ScriptedMoisture};
use plant_waterer::fault::Fault;
use plant_waterer::plant::Plant;
use plant_waterer::policy::{PumpCommand, PumpState, Threshold};

type Rig = ControlLoop<ScriptedMoisture, RecordingPump, RecordingDisplay>;

fn rig(samples: &[u16], display: RecordingDisplay) -> Rig {
    let plant = Plant::new(ScriptedMoisture::new(samples.to_vec()), RecordingPump::new());
    let mut rig = ControlLoop::new(plant, display);
    rig.start().unwrap();
    rig
}

/// Runs ticks until the source is spent or a fault halts the loop.
fn run(rig: &mut Rig) -> Vec<Result<TickReport, Fault>> {
    let mut out = Vec::new();
    loop {
        let r = rig.tick();
        let stop = r.is_err();
        out.push(r);
        if stop {
            return out;
        }
    }
}

/// Commands issued after the boot-time stop.
fn commands_after_boot(rig: &Rig) -> Vec<PumpCommand> {
    let all = rig.plant().pump().commands();
    assert_eq!(all[0], PumpCommand::Stop);
    all[1..].to_vec()
}

/// Commands issued by the ticks that completed, excluding a final fail-safe stop.
fn decided_commands(rig: &Rig, ticks: &[Result<TickReport, Fault>]) -> Vec<PumpCommand> {
    let decided: Vec<PumpCommand> = ticks
        .iter()
        .filter_map(|r| r.as_ref().ok().and_then(|t| t.command))
        .collect();
    let mut expected = decided.clone();
    expected.push(PumpCommand::Stop);
    assert_eq!(commands_after_boot(rig), expected);
    decided
}

fn row(rig: &Rig, line: u32) -> String {
    rig.display().row(line as usize).unwrap()
}

#[test]
fn samples_between_bounds_issue_nothing() {
    let mut r = rig(&[1800, 1900, 2100, 2300], RecordingDisplay::new(4));
    assert_eq!(row(&r, PUMP_ROW), "Pump off");
    let ticks = run(&mut r);
    assert_eq!(ticks.len(), 5);
    assert_eq!(decided_commands(&r, &ticks), vec![]);
    assert_eq!(row(&r, PUMP_ROW), "Pump off");
    assert_eq!(r.plant().state(), PumpState::Off);
}

#[test]
fn dry_sample_turns_pump_on() {
    let plant = Plant::new(ScriptedMoisture::new(vec![2500]), RecordingPump::new());
    let mut r = ControlLoop::new(plant, RecordingDisplay::new(4));
    r.start().unwrap();
    let t = r.tick().unwrap();
    assert_eq!(t, TickReport { sample: 2500, command: Some(PumpCommand::Start) });
    assert_eq!(commands_after_boot(&r), vec![PumpCommand::Start]);
    assert_eq!(row(&r, PUMP_ROW), "Pump on");
    assert_eq!(row(&r, READING_ROW), "2500");
}

#[test]
fn wet_bound_is_inclusive() {
    let mut r = rig(&[2500, 2200, 2100, 2050, 2000], RecordingDisplay::new(4));
    let ticks = run(&mut r);
    assert_eq!(decided_commands(&r, &ticks), vec![PumpCommand::Start, PumpCommand::Stop]);
    assert_eq!(ticks[4].as_ref().unwrap().command, Some(PumpCommand::Stop));
    assert_eq!(ticks[4].as_ref().unwrap().sample, 2000);
}

#[test]
fn straddling_dry_bound_while_on_does_not_reissue() {
    let mut r = rig(&[2500, 2399, 2401, 2500], RecordingDisplay::new(4));
    let ticks = run(&mut r);
    assert_eq!(decided_commands(&r, &ticks), vec![PumpCommand::Start]);
    assert_eq!(ticks[0].as_ref().unwrap().command, Some(PumpCommand::Start));
    for t in &ticks[1..4] {
        assert_eq!(t.as_ref().unwrap().command, None);
    }
}

#[test]
fn dry_bound_is_inclusive() {
    let mut r = rig(&[2000, 2001, 2399, 2400], RecordingDisplay::new(4));
    let ticks = run(&mut r);
    assert_eq!(decided_commands(&r, &ticks), vec![PumpCommand::Start]);
    assert_eq!(ticks[3].as_ref().unwrap().command, Some(PumpCommand::Start));
    assert_eq!(ticks[3].as_ref().unwrap().sample, 2400);
}

#[test]
fn bus_fault_on_third_tick_stops_pump_once() {
    // Three labels at start, then two writes per tick: the third tick's
    // first write is the tenth.
    let display = RecordingDisplay::failing_after(4, 7);
    let mut r = rig(&[2300, 2500, 2500, 2500], display);
    let t1 = r.tick().unwrap();
    assert_eq!(t1.command, None);
    let t2 = r.tick().unwrap();
    assert_eq!(t2.command, Some(PumpCommand::Start));
    assert_eq!(r.tick(), Err(Fault::Display));
    assert_eq!(commands_after_boot(&r), vec![PumpCommand::Start, PumpCommand::Stop]);
    assert_eq!(r.plant().state(), PumpState::Off);
}

#[test]
fn sensor_fault_stops_pump_once() {
    let mut r = rig(&[2500], RecordingDisplay::new(4));
    r.tick().unwrap();
    assert_eq!(r.tick(), Err(Fault::Sensor));
    assert_eq!(commands_after_boot(&r), vec![PumpCommand::Start, PumpCommand::Stop]);
}

#[test]
fn fault_on_pump_row_after_command_stops_once_more() {
    // Start writes three rows; the first tick's reading write succeeds and
    // its pump-row write fails after the start command has gone out.
    let display = RecordingDisplay::failing_after(4, 4);
    let mut r = rig(&[2500], display);
    assert_eq!(r.tick(), Err(Fault::Display));
    assert_eq!(commands_after_boot(&r), vec![PumpCommand::Start, PumpCommand::Stop]);
    assert_eq!(r.plant().state(), PumpState::Off);
}

#[test]
fn fault_during_start_stops_pump() {
    let plant = Plant::new(ScriptedMoisture::new(vec![2500]), RecordingPump::new());
    let mut r = ControlLoop::new(plant, RecordingDisplay::failing_after(4, 1));
    assert_eq!(r.start(), Err(Fault::Display));
    assert_eq!(commands_after_boot(&r), vec![PumpCommand::Stop]);
}

#[test]
fn reading_row_matches_decided_sample() {
    let mut r = rig(&[7, 4095, 0, 2399], RecordingDisplay::new(4));
    for expected in ["7", "4095", "0", "2399"] {
        let t = r.tick().unwrap();
        assert_eq!(row(&r, READING_ROW), expected);
        assert_eq!(t.sample.to_string(), expected);
        assert_eq!(r.plant().last_sample(), Some(t.sample));
    }
}

#[test]
fn start_writes_labels() {
    let r = rig(&[], RecordingDisplay::new(4));
    assert_eq!(row(&r, 0), "Moisture Meter");
    assert_eq!(row(&r, 1), "Current moisture:");
    assert_eq!(row(&r, 2), "");
    assert_eq!(row(&r, 3), "Pump off");
}

#[test]
fn pump_row_follows_state_each_tick() {
    let mut r = rig(&[2400, 2100, 2000, 2100], RecordingDisplay::new(4));
    for expected in ["Pump on", "Pump on", "Pump off", "Pump off"] {
        r.tick().unwrap();
        assert_eq!(row(&r, PUMP_ROW), expected);
    }
}

#[test]
fn custom_threshold_is_used() {
    let t = Threshold::new(100, 50).unwrap();
    let plant =
        Plant::with_threshold(ScriptedMoisture::new(vec![100, 51, 50]), RecordingPump::new(), t);
    let mut r = ControlLoop::new(plant, RecordingDisplay::new(4));
    r.start().unwrap();
    let ticks = run(&mut r);
    assert_eq!(decided_commands(&r, &ticks), vec![PumpCommand::Start, PumpCommand::Stop]);
}
