use hf_amp::control::{
    config_action, config_page, config_post, encoder_tick, handle_stepper, load_profile, power_request,
    process_pins, profile_action, recall, save_as, save_written, selector, sleep_save, sleep_tick, step_start,
    store, ConfigAction, ConfigError, Effect, EncoderOutcome, FormData, Panel, PowerCommand, PowerStates,
    ProfileAction,
};
use hf_amp::data::{load_stepper, snapshot, Bands, Select, StoredData, PwrBtns};
use hf_amp::web::{Encoder, Mcp, McpPin, Stepper};

fn form(fields: &[(&str, &str)]) -> FormData {
    let mut f = FormData::new();
    for (k, v) in fields {
        f.insert(k.to_string(), v.to_string());
    }
    f
}

fn motors() -> (Stepper, Stepper, Stepper) {
    (Stepper::new("tune"), Stepper::new("ind"), Stepper::new("load"))
}

#[test]
fn process_pins_takes_the_first_occurrence_and_gives_back_at_the_end() {
    let mut pins = vec![17u8, 27, 22, 27];
    process_pins(&mut pins, 27, true);
    assert_eq!(pins, vec![17, 22, 27]);
    process_pins(&mut pins, 99, true);
    assert_eq!(pins, vec![17, 22, 27]);
    process_pins(&mut pins, 5, false);
    assert_eq!(pins, vec![17, 22, 27, 5]);
    process_pins(&mut pins, 5, true);
    assert_eq!(pins, vec![17, 22, 27]);
}

#[test]
fn panel_starts_with_the_documented_defaults() {
    let p = Panel::new();
    assert_eq!(p.gpio_pins, vec![17, 27, 22, 5, 6, 13, 19, 26, 14, 15, 18, 23, 24, 25, 12, 20, 21]);
    assert_eq!(p.file, "amplifier.json");
    assert_eq!(p.band, Bands::M10);
    assert_eq!((p.gauges.plate_v, p.gauges.plate_a, p.gauges.screen_a, p.gauges.grid_a), (0, 1, 50, 10));
    assert_eq!(p.sw_pos, None);
    assert!(!p.sleep);
    assert_eq!(p.pwr_btns_state.oper, Some((false, false)));
}

#[test]
fn form_lookup_takes_the_last_field() {
    let f = form(&[("a", "1"), ("b", "2"), ("a", "3")]);
    assert_eq!(f.get("a"), Some("3".to_string()));
    assert_eq!(f.get("c"), None);
    assert!(f.contains_key("b"));
}

#[test]
fn band_paths_and_keys() {
    assert_eq!(Bands::from_path("M40"), Some(Bands::M40));
    assert_eq!(Bands::from_path("40M"), None);
    assert_eq!(Bands::M11.mem_key(), "11M");
    assert_eq!(Bands::from_index(2), Bands::M20);
    assert_eq!(Select::from_key("ind"), Some(Select::Ind));
    assert_eq!(Select::from_key("Ind"), None);
    assert_eq!(Select::Load.title(), "Load");
}

#[test]
fn adding_a_stepper_takes_its_pins() {
    let mut p = Panel::new();
    let mut s = Stepper::new("ind");
    p.sw_pos = Some(Select::Tune);
    let fx = handle_stepper(&mut p, &form(&[("PinA", "17"), ("PinB", "27"), ("ratio", "4")]), Select::Ind, true, &mut s).unwrap();
    assert_eq!(fx, vec![Effect::StartMotor(Select::Ind)]);
    assert_eq!((s.pin_a, s.pin_b, s.ratio, s.speed), (Some(17), Some(27), 4, 400));
    assert_eq!(p.sw_pos, None);
    assert!(!p.gpio_pins.contains(&17) && !p.gpio_pins.contains(&27));
    assert_eq!(p.status, "ind Added on Pins: 17, 27, ratio of 4");
}

#[test]
fn adding_a_stepper_with_a_bad_ratio_uses_one() {
    let mut p = Panel::new();
    let mut s = Stepper::new("tune");
    handle_stepper(&mut p, &form(&[("PinA", "5"), ("PinB", "6"), ("ratio", "x")]), Select::Tune, true, &mut s).unwrap();
    assert_eq!((s.ratio, s.speed), (1, 100));
    assert_eq!(p.status, "tune Added on Pins: 5, 6, ratio of 1");
}

#[test]
fn adding_a_stepper_without_pins_only_reports() {
    let mut p = Panel::new();
    let mut s = Stepper::new("load");
    let fx = handle_stepper(&mut p, &form(&[("PinA", ""), ("PinB", "6")]), Select::Load, true, &mut s).unwrap();
    assert!(fx.is_empty());
    assert_eq!(s.pin_a, None);
    assert_eq!(p.status, "load Added on Pins: 0, 0, ratio of 1");
}

#[test]
fn adding_a_stepper_reports_form_errors() {
    let mut p = Panel::new();
    let mut s = Stepper::new("tune");
    assert_eq!(handle_stepper(&mut p, &form(&[("PinB", "6")]), Select::Tune, true, &mut s), Err(ConfigError::MissingField));
    assert_eq!(handle_stepper(&mut p, &form(&[("PinA", "5"), ("PinB", "x"), ("ratio", "1")]), Select::Tune, true, &mut s), Err(ConfigError::InvalidNumber));
    assert_eq!(handle_stepper(&mut p, &form(&[("PinA", "5"), ("PinB", "6")]), Select::Tune, true, &mut s), Err(ConfigError::MissingField));
    assert_eq!(s.pin_a, None);
}

#[test]
fn deleting_a_stepper_gives_its_pins_back() {
    let mut p = Panel::new();
    let mut s = Stepper::new("tune");
    s.pin_a = Some(40);
    s.pin_b = Some(41);
    s.ratio = 3;
    s.pos = -2;
    let fx = handle_stepper(&mut p, &FormData::new(), Select::Tune, false, &mut s).unwrap();
    assert_eq!(fx, vec![Effect::StopMotor(Select::Tune, u32::MAX - 1)]);
    assert_eq!((s.pin_a, s.pin_b, s.ratio), (None, None, 1));
    assert_eq!(&p.gpio_pins[p.gpio_pins.len() - 2..], &[40, 41]);
    assert_eq!(p.status, "tune Deleted...");
    s.pin_a = Some(1);
    assert_eq!(handle_stepper(&mut p, &FormData::new(), Select::Tune, false, &mut s), Err(ConfigError::UnpairedPin));
}

#[test]
fn config_action_precedence() {
    assert_eq!(config_action(&form(&[("max", "ind"), ("del_enc", "")]), true), ConfigAction::DeleteEncoder);
    assert_eq!(config_action(&form(&[("start", "load"), ("add_ind", "")]), true), ConfigAction::AddStepper(Select::Ind));
    assert_eq!(config_action(&form(&[("start", "load")]), true), ConfigAction::Start(Some(Select::Load)));
    assert_eq!(config_action(&form(&[("reset", "nope")]), true), ConfigAction::Reset(None));
    assert_eq!(config_action(&form(&[("PinA", "1"), ("PinB", "2")]), true), ConfigAction::Nothing);
    assert_eq!(config_action(&form(&[("PinA", "1"), ("PinB", "2")]), false), ConfigAction::AddEncoder);
    assert_eq!(config_action(&form(&[("del_enc", "")]), false), ConfigAction::Nothing);
}

#[test]
fn config_adds_and_deletes_the_encoder() {
    let mut p = Panel::new();
    let (mut t, mut i, mut l) = motors();
    let fx = config_post(&mut p, &form(&[("PinA", "24"), ("PinB", "23"), ("call_sign", "K1ABC")]), None, &mut t, &mut i, &mut l).unwrap();
    assert_eq!(fx, vec![Effect::StartEncoder(24, 23)]);
    assert_eq!(p.status, "Encoder Added on pins: \"24\", \"23\"");
    assert_eq!(p.call_sign, "K1ABC");
    assert!(!p.gpio_pins.contains(&24) && !p.gpio_pins.contains(&23));
    let fx = config_post(&mut p, &form(&[("del_enc", "")]), Some((24, 23)), &mut t, &mut i, &mut l).unwrap();
    assert_eq!(fx, vec![Effect::StopEncoder]);
    assert_eq!(p.status, "Encoder has benn deleted!");
    assert!(p.gpio_pins.ends_with(&[24, 23]));
    assert_eq!(config_post(&mut p, &form(&[("PinA", "x"), ("PinB", "2")]), None, &mut t, &mut i, &mut l), Err(ConfigError::InvalidNumber));
}

#[test]
fn config_start_max_and_reset() {
    let mut p = Panel::new();
    let (mut t, mut i, mut l) = motors();
    i.pos = 777;
    p.sw_pos = Some(Select::Ind);
    config_post(&mut p, &form(&[("max", "ind")]), Some((1, 2)), &mut t, &mut i, &mut l).unwrap();
    assert_eq!(i.max, 777);
    config_post(&mut p, &form(&[("start", "ind")]), Some((1, 2)), &mut t, &mut i, &mut l).unwrap();
    assert_eq!((i.pos, p.sw_pos), (0, None));
    config_post(&mut p, &form(&[("reset", "ind")]), Some((1, 2)), &mut t, &mut i, &mut l).unwrap();
    assert_eq!(i.max, 100000);
    assert_eq!((t.max, l.max, t.pos, l.pos), (100000, 100000, 0, 0));
}

#[test]
fn config_does_not_set_up_a_motor_twice() {
    let mut p = Panel::new();
    let (mut t, mut i, mut l) = motors();
    t.pin_a = Some(9);
    t.pin_b = Some(10);
    let fx = config_post(&mut p, &form(&[("add_tune", ""), ("PinA", "1"), ("PinB", "2"), ("ratio", "1")]), Some((3, 4)), &mut t, &mut i, &mut l).unwrap();
    assert!(fx.is_empty());
    assert_eq!(t.pin_a, Some(9));
}

#[test]
fn selector_selects_and_hands_the_position_to_the_encoder() {
    let mut p = Panel::new();
    let (t, mut i, l) = motors();
    i.pos = 321;
    let fx = selector(&mut p, &vec!["ind".to_string(), "other".to_string()], true, &t, &i, &l);
    assert_eq!(fx, vec![Effect::EnablePin(false), Effect::Meter(false), Effect::SetEncoderCount(321)]);
    assert_eq!(p.sw_pos, Some(Select::Ind));
    assert_eq!(p.status, "Ind is selected");
}

#[test]
fn selector_without_encoder_or_while_moving() {
    let mut p = Panel::new();
    let (t, i, mut l) = motors();
    let fx = selector(&mut p, &vec!["tune".to_string()], false, &t, &i, &l);
    assert_eq!(fx, vec![Effect::EnablePin(false), Effect::Meter(false)]);
    assert_eq!(p.sw_pos, None);
    assert_eq!(p.status, "No Encoder present! ! !");
    l.operate = true;
    let fx = selector(&mut p, &vec!["tune".to_string()], true, &t, &i, &l);
    assert_eq!(fx, vec![Effect::EnablePin(false)]);
    assert_eq!(p.status, "Cannot select a tuner while tune is in progress ! ! !");
}

#[test]
fn store_then_recall_returns_each_motor_to_its_stored_position() {
    let mut p = Panel::new();
    let btns = PwrBtns::new(Mcp::new(true));
    let (mut t, mut i, mut l) = motors();
    t.pin_a = Some(5);
    t.pin_b = Some(6);
    t.pos = 1500;
    i.pos = 250;
    store(&mut p, "M20", &mut t, &mut i, &mut l);
    assert_eq!(p.status, "Stored 20M Band");
    t.pos = 3;
    i.pos = 4;
    p.sw_pos = Some(Select::Tune);
    let fx = recall(&mut p, "M20", true, &btns, &mut t, &mut i, &mut l);
    assert_eq!(
        fx,
        vec![
            Effect::Meter(false),
            Effect::SetRelay(McpPin::B0, false),
            Effect::SetRelay(McpPin::B1, false),
            Effect::SetRelay(McpPin::B2, false),
            Effect::SetRelay(McpPin::B3, false),
            Effect::SetRelay(McpPin::B4, false),
            Effect::SetRelay(McpPin::B2, true),
            Effect::EnablePin(false),
            Effect::MoveMotor(Select::Tune, 1500, false),
        ]
    );
    assert_eq!(i.pos, 250);
    assert_eq!(l.pos, 0);
    assert_eq!(p.band, Bands::M20);
    assert_eq!(p.sw_pos, None);
    assert!(p.sleep);
    assert_eq!(p.status, "Recalled 20M Band ! ! !");
}

#[test]
fn recall_refusals() {
    let mut p = Panel::new();
    let btns = PwrBtns::new(Mcp::new(true));
    let (mut t, mut i, mut l) = motors();
    assert!(recall(&mut p, "M10", false, &btns, &mut t, &mut i, &mut l).is_empty());
    assert_eq!(p.status, "No Encoder Present");
    assert!(p.sleep);
    t.operate = true;
    let mut q = Panel::new();
    assert!(recall(&mut q, "M10", true, &btns, &mut t, &mut i, &mut l).is_empty());
    assert_eq!(q.status, "Attempted to recall while motors still in motion!!");
    assert!(!q.sleep);
    let mut r = Panel::new();
    t.operate = false;
    assert!(recall(&mut r, "bogus", true, &btns, &mut t, &mut i, &mut l).is_empty());
    assert!(r.sleep);
    assert_eq!(r.status, "");
}

#[test]
fn idle_counter_saves_on_the_tenth_quiet_tick() {
    let mut c = 0;
    for _ in 0..9 {
        let (n, save) = sleep_tick(c, false, true);
        assert!(!save);
        c = n;
    }
    assert_eq!(c, 9);
    assert_eq!(sleep_tick(c, false, true), (0, true));
    assert_eq!(sleep_tick(5, true, true), (0, false));
    assert_eq!(sleep_tick(5, false, false), (0, false));
}

#[test]
fn encoder_drives_only_inside_the_range() {
    let (mut t, mut i, mut l) = motors();
    t.max = 10;
    assert_eq!(encoder_tick(-3, Some(Select::Tune), &mut t, &mut i, &mut l), EncoderOutcome::ResetEncoder);
    assert_eq!(encoder_tick(5, None, &mut t, &mut i, &mut l), EncoderOutcome::Idle);
    assert_eq!(encoder_tick(9, Some(Select::Tune), &mut t, &mut i, &mut l), EncoderOutcome::Idle);
    assert_eq!(encoder_tick(0, Some(Select::Tune), &mut t, &mut i, &mut l), EncoderOutcome::Idle);
    assert_eq!(encoder_tick(8, Some(Select::Tune), &mut t, &mut i, &mut l), EncoderOutcome::Moved(Select::Tune));
    assert_eq!(t.pos, 8);
    l.pin_a = Some(1);
    assert_eq!(encoder_tick(77, Some(Select::Load), &mut t, &mut i, &mut l), EncoderOutcome::Send(Select::Load, 77));
    assert_eq!(l.pos, 0);
}

#[test]
fn power_switch_requests() {
    let b = PwrBtns::new(Mcp::new(true));
    assert_eq!(power_request(&form(&[("ID", "Blwr"), ("value", "ON")]), &b), Ok(PowerCommand::Relay(McpPin::A0, true, true)));
    assert_eq!(power_request(&form(&[("ID", "Oper"), ("value", "OFF")]), &b), Ok(PowerCommand::Relay(McpPin::A5, false, false)));
    assert_eq!(power_request(&form(&[("ID", "Fil"), ("value", "ON")]), &b), Ok(PowerCommand::StepStart(McpPin::A1, McpPin::A2, true)));
    assert_eq!(power_request(&form(&[("ID", "HV"), ("value", "ON")]), &b), Ok(PowerCommand::StepStart(McpPin::A3, McpPin::A4, false)));
    assert_eq!(power_request(&form(&[("ID", "HV")]), &b), Err(ConfigError::MissingField));
    assert_eq!(power_request(&form(&[("value", "ON")]), &b), Ok(PowerCommand::Nothing));
    assert_eq!(power_request(&form(&[("ID", "Fan"), ("value", "ON")]), &b), Ok(PowerCommand::Nothing));
}

#[test]
fn step_start_statuses() {
    let st = "before".to_string();
    let p = step_start(&form(&[("value", "ON"), ("delay", "OFF")]), true, false, &st).unwrap();
    assert_eq!((p.first_high, p.second_high, p.status.as_str()), (true, Some(false), "Filament Step Start !!!"));
    let p = step_start(&form(&[("value", "ON"), ("delay", "ON")]), false, true, &st).unwrap();
    assert_eq!((p.first_high, p.second_high, p.status.as_str()), (true, Some(true), "HV  ON ! ! !"));
    let p = step_start(&form(&[("value", "OFF"), ("delay", "ON")]), false, false, &st).unwrap();
    assert_eq!((p.first_high, p.second_high, p.status.as_str()), (false, Some(false), "HV Shutting Down..."));
    let p = step_start(&form(&[("value", "ON")]), true, false, &st).unwrap();
    assert_eq!((p.second_high, p.status.as_str()), (None, "before"));
    assert!(step_start(&form(&[("delay", "ON")]), true, false, &st).is_err());
    assert_eq!(hf_amp::control::step_start_error(true), "Error is Fil Step start");
}

#[test]
fn button_readings_update_the_switch_states() {
    let mut s = PowerStates::unknown();
    s.record_reading(0, true);
    s.record_reading(1, true);
    s.record_reading(2, false);
    s.record_reading(3, true);
    assert_eq!(s.blwr, Some((true, false)));
    assert_eq!(s.fil, Some((false, false)));
    assert_eq!(s.hv, Some((true, true)));
    assert_eq!(s.oper, None);
}

#[test]
fn config_page_rows_and_profile_files() {
    let (mut t, i, l) = motors();
    t.pin_a = Some(17);
    t.pin_b = Some(27);
    t.ratio = 2;
    let files = vec!["amplifier.json".to_string(), "style.css".to_string(), "b.json".to_string()];
    let page = config_page(Some((24, 23)), &t, &i, &l, &files, &vec![5, 6]);
    assert!(page.enc);
    assert_eq!(page.enc_val, vec!["24", "23"]);
    assert_eq!(page.tune, vec!["17", "27", "2"]);
    assert_eq!(page.ind, vec!["None", "None", "1"]);
    assert_eq!(page.files, vec!["amplifier.json", "b.json"]);
    assert_eq!(page.pins, vec![5, 6]);
    let empty = config_page(None, &i, &i, &l, &vec![], &vec![]);
    assert_eq!(empty.enc_val, vec!["None", "None"]);
}

#[test]
fn profile_form_actions() {
    match profile_action(&form(&[("files", "a.json"), ("load", "")])) {
        ProfileAction::Load(f) => assert_eq!(f, "a.json"),
        _ => panic!("expected a load"),
    }
    match profile_action(&form(&[("file_name", "night")])) {
        ProfileAction::SaveAs(f) => assert_eq!(f, "night.json"),
        _ => panic!("expected a save"),
    }
    assert!(matches!(profile_action(&form(&[("files", "a.json")])), ProfileAction::Nothing));
    let mut p = Panel::new();
    save_as(&mut p, "night.json".to_string());
    assert_eq!((p.file.as_str(), p.status.as_str()), ("night.json", "Saved data to: night.json"));
}

#[test]
fn saving_then_loading_restores_the_setup() {
    let mut p = Panel::new();
    p.band = Bands::M40;
    p.call_sign = "W1AW".to_string();
    p.sleep = true;
    let (mut t, mut i, mut l) = motors();
    t.pin_a = Some(17);
    t.pin_b = Some(27);
    t.ratio = 3;
    t.pos = -12;
    t.max = 5000;
    t.mem = [1, -2, 3, 4, 5];
    i.ena = Some(8);
    i.pos = 42;
    let enc = Encoder::new(24, 23);
    let (fx, data) = sleep_save(&mut p, &enc, &t, &i, &l);
    assert_eq!(fx, vec![Effect::EnablePin(true)]);
    assert!(!p.sleep);
    assert_eq!(data.band, Bands::M40);
    assert_eq!(data.tune.pos, Some((-12i32) as u32));
    assert_eq!(save_written(&mut p), vec![Effect::Meter(true)]);
    assert_eq!(p.status, "All data successfully saved !");

    let mut q = Panel::new();
    let (mut t2, mut i2, mut l2) = motors();
    let fx = load_profile(&mut q, &FormData::new(), &"saved.json".to_string(), &data, Some((1, 2)), &mut t2, &mut i2, &mut l2).unwrap();
    assert_eq!(fx, vec![Effect::StartMotor(Select::Tune), Effect::StopEncoder, Effect::StartEncoder(24, 23)]);
    assert_eq!((t2.pin_a, t2.pin_b, t2.ratio, t2.pos, t2.max, t2.mem), (t.pin_a, t.pin_b, t.ratio, t.pos, t.max, t.mem));
    assert_eq!((i2.ena, i2.pos, i2.speed), (Some(8), 42, 400));
    assert_eq!(q.band, Bands::M40);
    assert_eq!(q.call_sign, "W1AW");
    assert_eq!(q.file, "saved.json");
    assert_eq!(q.status, "Sucessfully loaded: saved.json as a profile");
}

#[test]
fn loading_an_incomplete_profile_fails() {
    let mut q = Panel::new();
    let (mut t, mut i, mut l) = motors();
    let empty = StoredData::new();
    assert_eq!(empty.call_sign, "-----");
    assert_eq!(empty.band, Bands::M10);
    assert_eq!(load_profile(&mut q, &FormData::new(), &"x.json".to_string(), &empty, None, &mut t, &mut i, &mut l), Err(ConfigError::MissingField));
    let enc = Encoder::new(1, 2);
    let mut data = snapshot(&enc, &t, &i, &l, Bands::M10, &"-".to_string());
    data.mem.load = None;
    let (mut t, mut i, mut l) = motors();
    assert_eq!(load_profile(&mut q, &FormData::new(), &"x.json".to_string(), &data, None, &mut t, &mut i, &mut l), Err(ConfigError::MissingMemory));
}

#[test]
fn loading_a_record_truncates_as_the_profile_format_does() {
    let mut s = Stepper::new("tune");
    let enc = Encoder::new(1, 2);
    let mut data = snapshot(&enc, &s, &s, &s, Bands::M10, &"-".to_string());
    data.tune.pin_a = Some(300);
    data.tune.max = Some(u32::MAX);
    let mem = [Some(7), None, None, None, Some(u32::MAX)];
    load_stepper(&mut s, &data.tune, &mem);
    assert_eq!(s.pin_a, Some(44));
    assert_eq!(s.max, -1);
    assert_eq!(s.mem, [7, 0, 0, 0, -1]);
}

#[test]
fn idle_counter_saves_on_every_tenth_quiet_tick_in_a_row() {
    let mut c = 0;
    let mut saves = Vec::new();
    for tick in 1..=25u32 {
        let moving = tick == 13;
        let (n, save) = sleep_tick(c, moving, true);
        c = n;
        if save {
            saves.push(tick);
        }
    }
    assert_eq!(saves, vec![10, 23]);
    assert_eq!(c, 2);
}

#[test]
fn a_failed_load_leaves_earlier_motors_loaded() {
    let (mut t, mut i, mut l) = motors();
    t.pos = 77;
    i.pos = 88;
    let enc = Encoder::new(1, 2);
    let mut data = snapshot(&enc, &t, &i, &l, Bands::M20, &"K1ABC".to_string());
    data.ind.max = None;
    let mut q = Panel::new();
    q.status = "before".to_string();
    let (mut t2, mut i2, mut l2) = motors();
    l2.pos = 5;
    let r = load_profile(&mut q, &FormData::new(), &"half.json".to_string(), &data, None, &mut t2, &mut i2, &mut l2);
    assert_eq!(r, Err(ConfigError::MissingField));
    assert_eq!(t2.pos, 77);
    assert_eq!(i2.pos, 0);
    assert_eq!(l2.pos, 5);
    assert_eq!(q.file, "half.json");
    assert_eq!(q.band, Bands::M10);
    assert_eq!(q.status, "ind Deleted...");
}

#[test]
fn requests_keep_the_meters() {
    let mut p = Panel::new();
    hf_amp::control::set_gauges(&mut p, 2, 30, 40, 5);
    p.call_sign = "W1AW".to_string();
    let pins = p.gpio_pins.clone();
    let (mut t, mut i, mut l) = motors();
    store(&mut p, "M20", &mut t, &mut i, &mut l);
    assert_eq!((p.gauges.plate_a, p.gauges.plate_v, p.gauges.screen_a, p.gauges.grid_a), (2, 3000, 40, 5));
    hf_amp::control::set_gauges(&mut p, 1, 1, 1, 1);
    assert_eq!(p.call_sign, "W1AW");
    assert_eq!(p.gpio_pins, pins);
}
