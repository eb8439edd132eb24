use hf_amp::motion::{direction_to, position_after_pulse, position_reading, step_position, still_moving, Direction};
use hf_amp::text::{decimal_string, ends_with, parse_u8, str_eq};

#[test]
fn parse_u8_accepts_plain_and_signed_digits() {
    assert_eq!(parse_u8("17"), Some(17));
    assert_eq!(parse_u8("+5"), Some(5));
    assert_eq!(parse_u8("0"), Some(0));
    assert_eq!(parse_u8("255"), Some(255));
    assert_eq!(parse_u8("007"), Some(7));
}

#[test]
fn parse_u8_rejects_what_std_rejects() {
    for bad in ["", "+", "256", "1a", "-1", " 1", "1000", "++1"] {
        assert_eq!(parse_u8(bad), None, "input {:?}", bad);
        assert_eq!(parse_u8(bad), bad.parse::<u8>().ok(), "input {:?}", bad);
    }
}

#[test]
fn parse_u8_agrees_with_std_on_all_small_numbers() {
    for n in 0u32..400 {
        let t = n.to_string();
        assert_eq!(parse_u8(&t), t.parse::<u8>().ok());
        let plus = format!("+{}", n);
        assert_eq!(parse_u8(&plus), plus.parse::<u8>().ok());
    }
}

#[test]
fn decimal_rendering_matches_to_string() {
    for n in [0u32, 7, 10, 99, 100, 255, 4096, u32::MAX] {
        assert_eq!(decimal_string(n), n.to_string());
    }
}

#[test]
fn rendered_numbers_parse_back() {
    for n in 0u8..=255 {
        assert_eq!(parse_u8(&decimal_string(n as u32)), Some(n));
    }
}

#[test]
fn string_comparisons() {
    assert!(str_eq("ind", "ind"));
    assert!(!str_eq("ind", "Ind"));
    assert!(!str_eq("ind", "inductor"));
    assert!(ends_with("amplifier.json", "json"));
    assert!(!ends_with("notes.txt", "json"));
    assert!(ends_with("json", "json"));
    assert!(!ends_with("son", "json"));
}

#[test]
fn reading_reinterprets_negative_positions() {
    assert_eq!(position_reading(0), 0);
    assert_eq!(position_reading(1234), 1234);
    assert_eq!(position_reading(-1), u32::MAX);
    assert_eq!(position_reading(i32::MIN), 0x8000_0000);
}

#[test]
fn direction_follows_the_reading() {
    assert_eq!(direction_to(10, 5), Some(Direction::Cw));
    assert_eq!(direction_to(3, 5), Some(Direction::Ccw));
    assert_eq!(direction_to(5, 5), None);
    // a negative position reads as a huge number, so any ordinary target lies below it
    assert_eq!(direction_to(100, -1), Some(Direction::Ccw));
}

#[test]
fn steps_wrap_like_a_32_bit_counter() {
    assert_eq!(step_position(Direction::Cw, 41), 42);
    assert_eq!(step_position(Direction::Ccw, 41), 40);
    assert_eq!(step_position(Direction::Cw, i32::MAX), i32::MIN);
    assert_eq!(step_position(Direction::Ccw, i32::MIN), i32::MAX);
    assert_eq!(position_reading(step_position(Direction::Cw, i32::MAX)), position_reading(i32::MAX) + 1);
}

#[test]
fn only_even_pulses_move() {
    assert_eq!(position_after_pulse(Direction::Cw, 10, 1), 10);
    assert_eq!(position_after_pulse(Direction::Cw, 10, 2), 11);
    assert_eq!(position_after_pulse(Direction::Ccw, 10, 4), 9);
}

#[test]
fn a_move_reaches_its_target_after_twice_the_distance_in_pulses() {
    for (start, target) in [(0i32, 7u32), (20, 3), (-5, 4294967200u32)] {
        let dir = direction_to(target, start).unwrap();
        let distance = (position_reading(start) as i64 - target as i64).unsigned_abs();
        let mut pos = start;
        let mut count = 0i32;
        let mut pulses = 0u64;
        while still_moving(dir, target, pos) {
            count += 1;
            pos = position_after_pulse(dir, pos, count);
            pulses += 1;
        }
        assert_eq!(position_reading(pos), target);
        assert_eq!(pulses, 2 * distance);
    }
}
