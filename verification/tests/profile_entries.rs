use hf_amp::data::{EncoderRecord, StepperRecord};
use hf_amp::entries::{
    band_entries, bands_from_entries, encoder_entries, encoder_from_entries, lookup_entry, record_entries,
    record_from_entries,
};

#[test]
fn record_entries_use_the_profile_key_names() {
    let r = StepperRecord { pin_a: Some(17), pin_b: Some(27), ena: None, ratio: Some(3), max: Some(5000), pos: Some(12) };
    let es = record_entries(&r);
    assert_eq!(
        es,
        vec![
            ("PinA".to_string(), 17),
            ("PinB".to_string(), 27),
            ("ratio".to_string(), 3),
            ("max".to_string(), 5000),
            ("pos".to_string(), 12),
        ]
    );
    assert_eq!(record_from_entries(&es), r);
}

#[test]
fn records_read_back_in_any_entry_order() {
    let es = vec![("pos".to_string(), 9), ("ena".to_string(), 4), ("PinB".to_string(), 2)];
    let r = record_from_entries(&es);
    assert_eq!(r, StepperRecord { pin_a: None, pin_b: Some(2), ena: Some(4), ratio: None, max: None, pos: Some(9) });
    assert_eq!(lookup_entry(&es, "ena"), Some(4));
    assert_eq!(lookup_entry(&es, "max"), None);
}

#[test]
fn encoder_and_band_entries_round_trip() {
    let e = EncoderRecord { pin_a: Some(24), pin_b: None };
    assert_eq!(encoder_entries(&e), vec![("PinA".to_string(), 24)]);
    assert_eq!(encoder_from_entries(&encoder_entries(&e)), e);
    let m = [Some(1), None, Some(3), Some(4), Some(5)];
    let es = band_entries(&m);
    assert_eq!(es[0], ("10M".to_string(), 1));
    assert_eq!(es[1], ("20M".to_string(), 3));
    assert_eq!(bands_from_entries(&es), m);
}
