use hf_amp::data::{Bands, PwrBtns};
use hf_amp::motion::Direction;
use hf_amp::web::{Encoder, Mcp, McpPin, MoveStep, Stepper, MANUAL_SPEED_MICROS};

#[test]
fn encoder_counts_rising_edges_by_channel_b() {
    let mut e = Encoder::new(24, 23);
    assert_eq!((e.pin_a, e.pin_b, e.stop, e.enc()), (24, 23, false, 0));
    e.on_rising_edge(false);
    e.on_rising_edge(false);
    assert_eq!(e.enc(), 2);
    e.on_rising_edge(true);
    assert_eq!(e.enc(), 1);
    e.set_count(i32::MAX);
    e.on_rising_edge(false);
    assert_eq!(e.enc(), i32::MIN);
    e.request_stop();
    assert!(e.stop);
}

#[test]
fn encoder_default_is_zeroed() {
    let e = Encoder::default();
    assert_eq!((e.pin_a, e.pin_b, e.stop, e.count), (0, 0, false, 0));
}

#[test]
fn polled_encoder_counts_only_rising_edges() {
    let mut e = hf_amp::encoder::Encoder::new(5, 6);
    let mut last = true;
    last = e.poll(last, true, false);
    assert_eq!(e.enc(), 0);
    last = e.poll(last, false, false);
    assert!(!last);
    last = e.poll(last, true, false);
    assert_eq!(e.enc(), 1);
    last = e.poll(last, true, true);
    assert_eq!(e.enc(), 1);
    last = e.poll(last, false, true);
    let _ = e.poll(last, true, true);
    assert_eq!(e.enc(), 0);
}

#[test]
fn new_stepper_defaults() {
    let s = Stepper::new("tune");
    assert_eq!(s.name, "tune");
    assert_eq!((s.pin_a, s.pin_b, s.ena), (None, None, None));
    assert_eq!((s.ratio, s.pos, s.max, s.speed, s.operate), (1, 0, 100000, 100, false));
    assert_eq!(s.mem, [0; 5]);
    let l = hf_amp::stepper::Stepper::new("load");
    assert_eq!((l.name.as_str(), l.pos, l.max), ("load", 0, 100000));
}

#[test]
fn acceleration_profile_values() {
    assert_eq!(Stepper::delay_for_window(0), 5000);
    assert_eq!(Stepper::delay_for_window(19), 5000);
    assert_eq!(Stepper::delay_for_window(20), 3500);
    assert_eq!(Stepper::delay_for_window(99), 2500);
    assert_eq!(Stepper::delay_for_window(179), 1600);
    assert_eq!(Stepper::delay_for_window(299), 1100);
    assert_eq!(Stepper::delay_for_window(449), 800);
    assert_eq!(Stepper::delay_for_window(649), 600);
    assert_eq!(Stepper::delay_for_window(899), 400);
    assert_eq!(Stepper::delay_for_window(1199), 300);
    assert_eq!(Stepper::delay_for_window(1200), 200);
    assert_eq!(Stepper::delay_for_window(u32::MAX), 200);
}

#[test]
fn the_slower_ramp_wins() {
    assert_eq!(Stepper::calc_speed(0, 0), 5000);
    assert_eq!(Stepper::calc_speed(5000, 5000), 200);
    assert_eq!(Stepper::calc_speed(10, 5000), 5000);
    assert_eq!(Stepper::calc_speed(5000, 30), 3500);
    assert_eq!(Stepper::calc_speed(5000, -4), 5000);
    for r in [0u32, 25, 150, 700, 2000] {
        for t in [-1i32, 0, 60, 400, 1500] {
            let v = Stepper::calc_speed(r, t);
            assert!(v >= Stepper::delay_for_window(r));
            assert!(v >= Stepper::delay_for_window(if t <= 0 { 0 } else { t as u32 }));
        }
    }
}

#[test]
fn worker_drives_a_move_to_its_target() {
    let mut s = Stepper::new("tune");
    s.pos = 3;
    let mut mv = s.begin_move(8, false).unwrap();
    assert!(s.operate);
    assert_eq!(mv.dir, Direction::Cw);
    let mut pulses = 0;
    while s.move_continues(&mv) {
        let delay = s.prepare_pulse(&mut mv, s.speed);
        assert_eq!(delay, 100);
        s.finish_pulse(&mv);
        pulses += 1;
    }
    s.end_move();
    assert_eq!((s.pos, pulses, s.operate), (8, 10, false));
    assert!(s.begin_move(8, false).is_none());
}

#[test]
fn inductor_follows_the_profile_unless_manual() {
    let mut s = Stepper::new("ind");
    let mut mv = s.begin_move(1000, false).unwrap();
    assert_eq!(s.prepare_pulse(&mut mv, 400), Stepper::calc_speed(1000, 0));
    assert_eq!(mv.steps_taken, 1);
    let mut manual = s.begin_move(1000, true).unwrap();
    assert_eq!(s.prepare_pulse(&mut manual, 400), MANUAL_SPEED_MICROS);
    let mut t = Stepper::new("tune");
    let mut other = t.begin_move(10, false).unwrap();
    assert_eq!(t.prepare_pulse(&mut other, 123), 123);
}

#[test]
fn retarget_reports_a_reversal() {
    let mut s = Stepper::new("load");
    s.pos = 50;
    let mut mv = s.begin_move(100, true).unwrap();
    assert_eq!(s.retarget(&mut mv, 40, false), Some(Direction::Ccw));
    assert_eq!((mv.target, mv.manual), (40, false));
    assert!(!s.move_continues(&mv));
    assert_eq!(s.retarget(&mut mv, 120, true), None);
    assert!(s.move_continues(&mv));
}

#[test]
fn queued_commands_coalesce_and_stop_wins() {
    assert_eq!(Stepper::take_commands((5, false, true), &vec![]), Some((5, true)));
    assert_eq!(Stepper::take_commands((5, false, true), &vec![(6, false, false), (9, false, true)]), Some((9, true)));
    assert_eq!(Stepper::take_commands((5, true, false), &vec![(6, false, false)]), None);
    assert_eq!(Stepper::take_commands((5, false, false), &vec![(6, true, false), (7, false, false)]), None);
}

#[test]
fn band_memory_store_and_recall() {
    let mut s = Stepper::new("tune");
    s.pos = 1234;
    s.store_band(Bands::M20);
    s.pos = 9;
    assert_eq!(s.recall_band(Bands::M20), 1234);
    assert_eq!(s.recall_band(Bands::M10), 0);
    assert_eq!(Bands::M80.index(), 4);
}

#[test]
fn legacy_stepper_runs_to_its_target() {
    let mut s = hf_amp::stepper::Stepper::new("tune");
    s.pos = 10;
    let dir = s.begin_move(7).unwrap();
    assert_eq!(dir, Direction::Ccw);
    let mut count = 0;
    while s.keep_running(dir, 7) {
        s.pulse(dir, &mut count);
    }
    s.end_move();
    assert_eq!((s.pos, count, s.operate), (7, 6, false));
    assert_eq!(s.run_direction(7), None);
}

#[test]
fn port_expander_pins_by_name_and_number() {
    assert_eq!(McpPin::from_name("A0"), Some(McpPin::A0));
    assert_eq!(McpPin::from_name("B7"), Some(McpPin::B7));
    assert_eq!(McpPin::from_name("C1"), None);
    assert_eq!(McpPin::from_number(12), Some(McpPin::B4));
    assert_eq!(McpPin::from_number(16), None);
    assert_eq!(McpPin::B3.number(), 11);
    assert_eq!(McpPin::A5.name(), "A5");
}

#[test]
fn expander_presence_decides_devices_and_message() {
    let present = Mcp::new(true);
    assert_eq!(present.device_list, vec![0x20]);
    assert_eq!(present.message, "MCP Intioalized ! ! !");
    assert_eq!(present.init_pins().len(), 16);
    assert_eq!(present.all_pins[9], McpPin::B1);
    let absent = Mcp::new(false);
    assert!(absent.device_list.is_empty());
    assert_eq!(absent.message, "MCP not detected");
    assert!(absent.init_pins().is_empty());
    let legacy = hf_amp::mcp::Mcp::new();
    assert_eq!(legacy.init_pins()[15], McpPin::B7);
    assert_eq!(legacy.message, "MCP Intioalized ! ! !");
}

#[test]
fn opening_the_bus_is_retried_eleven_times() {
    assert!(Mcp::retry_open(1));
    assert!(Mcp::retry_open(11));
    assert!(!Mcp::retry_open(12));
}

#[test]
fn relay_assignment() {
    let b = PwrBtns::new(Mcp::new(true));
    assert_eq!(b.Blwr, [McpPin::A0]);
    assert_eq!(b.Fil, [McpPin::A1, McpPin::A2]);
    assert_eq!(b.HV, [McpPin::A3, McpPin::A4]);
    assert_eq!(b.Oper, [McpPin::A5]);
    assert_eq!(b.bands, [McpPin::B0, McpPin::B1, McpPin::B2, McpPin::B3, McpPin::B4]);
}

#[test]
fn pin_access_is_refused_without_the_expander() {
    assert_eq!(Mcp::new(true).pin_access(McpPin::A3, false), Ok(()));
    assert_eq!(
        Mcp::new(false).pin_access(McpPin::B2, true),
        Err("MCP23017 is not present; cannot set B2".to_string())
    );
    assert_eq!(
        Mcp::new(false).pin_access(McpPin::A0, false),
        Err("MCP23017 is not present; cannot read A0".to_string())
    );
}

#[test]
fn a_stop_during_a_move_ends_it() {
    let mut s = Stepper::new("tune");
    s.pos = 50;
    let mut mv = s.begin_move(100, false).unwrap();
    assert!(s.operate);
    assert_eq!(s.command_during_move(&mut mv, (70, false, true)), MoveStep::Go(None));
    assert_eq!((mv.target, mv.manual), (70, true));
    assert_eq!(s.command_during_move(&mut mv, (20, false, false)), MoveStep::Go(Some(Direction::Ccw)));
    assert_eq!(s.command_during_move(&mut mv, (90, true, false)), MoveStep::Stop);
    assert!(!s.operate);
    assert_eq!(s.pos, 50);
    assert_eq!(mv.target, 20);
}
