//! The controller's decisions: what each request of the web interface and
//! each tick of the background tasks does to the panel state and the motors,
//! and which hardware actions follow.

use vstd::prelude::*;
use vstd::string::*;
use crate::data::{snapshot, record_of, memories_of, StoredData, ConfigTemplate, load_stepper, loaded_from, StepperRecord, Bands, Select, Gauges, band_index, band_key, band_from_path, select_key, select_title, select_from_key, PwrBtns};
use crate::motion::{reading, position_reading};
use crate::text::{str_eq, decimal, push_decimal, parse_u8, parse_u8_spec, ends_with, ends_with_spec, decimal_string};
use crate::web::{Encoder, Stepper, McpPin};

verus! {

/// The GPIO pins that are free when the controller starts.
pub open spec fn initial_pins() -> Seq<u8> {
    seq![17u8, 27, 22, 5, 6, 13, 19, 26, 14, 15, 18, 23, 24, 25, 12, 20, 21]
}

/// The list `s` with the first occurrence of `v` taken out (unchanged when `v` does not occur).
pub open spec fn remove_first(s: Seq<u8>, v: u8) -> Seq<u8>
    decreases s.len(),
{
    if s.len() == 0 {
        s
    } else if s[0] == v {
        s.drop_first()
    } else {
        seq![s[0]] + remove_first(s.drop_first(), v)
    }
}

/// The free-pin list after a pin is taken into use (`remove`) or given back.
pub open spec fn pins_after(s: Seq<u8>, val: u8, remove: bool) -> Seq<u8> {
    if remove {
        remove_first(s, val)
    } else {
        s.push(val)
    }
}

proof fn lemma_remove_first_at(s: Seq<u8>, v: u8, i: int)
    requires
        0 <= i < s.len(),
        s[i] == v,
        forall|j: int| 0 <= j < i ==> s[j] != v,
    ensures
        remove_first(s, v) == s.remove(i),
    decreases s.len(),
{
    if i == 0 {
        assert(s.drop_first() =~= s.remove(0));
    } else {
        lemma_remove_first_at(s.drop_first(), v, i - 1);
        assert(seq![s[0]] + s.drop_first().remove(i - 1) =~= s.remove(i));
    }
}

proof fn lemma_remove_first_absent(s: Seq<u8>, v: u8)
    requires
        forall|j: int| 0 <= j < s.len() ==> s[j] != v,
    ensures
        remove_first(s, v) == s,
    decreases s.len(),
{
    if s.len() > 0 {
        lemma_remove_first_absent(s.drop_first(), v);
        assert(seq![s[0]] + s.drop_first() =~= s);
    }
}

/// Updates the list of free GPIO pins: with `remove`, the first occurrence of
/// `val` is taken out (nothing changes when it is not there); without it,
/// `val` is appended.
pub fn process_pins(pin_list: &mut Vec<u8>, val: u8, remove: bool)
    ensures
        final(pin_list)@ == pins_after(old(pin_list)@, val, remove),
{
    if remove {
        let mut i: usize = 0;
        while i < pin_list.len()
            invariant
                remove,
                i <= pin_list@.len(),
                pin_list@ == old(pin_list)@,
                forall|j: int| 0 <= j < i ==> pin_list@[j] != val,
            decreases pin_list@.len() - i,
        {
            if pin_list[i] == val {
                proof {
                    lemma_remove_first_at(pin_list@, val, i as int);
                }
                pin_list.remove(i);
                return;
            }
            i = i + 1;
        }
        proof {
            lemma_remove_first_absent(pin_list@, val);
        }
    } else {
        pin_list.push(val);
    }
}

/// Giving a pin back and taking it again restores the free-pin list, provided
/// the pin was not free before.
pub proof fn take_back_restores(s: Seq<u8>, val: u8)
    requires
        !s.contains(val),
    ensures
        pins_after(pins_after(s, val, false), val, true) == s,
    decreases s.len(),
{
    if s.len() == 0 {
        assert(s.push(val).drop_first() =~= s);
    } else {
        assert(s[0] != val);
        assert(!s.drop_first().contains(val)) by {
            if s.drop_first().contains(val) {
                let j = choose|j: int| 0 <= j < s.drop_first().len() && s.drop_first()[j] == val;
                assert(s[j + 1] == val);
            }
        }
        take_back_restores(s.drop_first(), val);
        assert(s.push(val).drop_first() =~= s.drop_first().push(val));
        assert(seq![s[0]] + s.drop_first() =~= s);
    }
}

/// Taking a pin into use removes exactly one occurrence of it when it is free,
/// and keeps every other pin.
pub proof fn take_removes_one(s: Seq<u8>, val: u8, other: u8)
    requires
        other != val,
    ensures
        s.contains(val) ==> pins_after(s, val, true).len() + 1 == s.len(),
        !s.contains(val) ==> pins_after(s, val, true) == s,
        s.contains(other) <==> pins_after(s, val, true).contains(other),
    decreases s.len(),
{
    if s.len() == 0 {
    } else if s[0] == val {
        let t = s.drop_first();
        assert(s.contains(other) <==> t.contains(other)) by {
            if s.contains(other) {
                let j = choose|j: int| 0 <= j < s.len() && s[j] == other;
                assert(t[j - 1] == other);
            }
            if t.contains(other) {
                let j = choose|j: int| 0 <= j < t.len() && t[j] == other;
                assert(s[j + 1] == other);
            }
        }
    } else {
        let t = s.drop_first();
        take_removes_one(t, val, other);
        let r = remove_first(t, val);
        assert(s.contains(val) <==> t.contains(val)) by {
            if s.contains(val) {
                let j = choose|j: int| 0 <= j < s.len() && s[j] == val;
                assert(t[j - 1] == val);
            }
            if t.contains(val) {
                let j = choose|j: int| 0 <= j < t.len() && t[j] == val;
                assert(s[j + 1] == val);
            }
        }
        assert(s.contains(other) <==> (s[0] == other || t.contains(other))) by {
            if s.contains(other) && s[0] != other {
                let j = choose|j: int| 0 <= j < s.len() && s[j] == other;
                assert(t[j - 1] == other);
            }
            if t.contains(other) {
                let j = choose|j: int| 0 <= j < t.len() && t[j] == other;
                assert(s[j + 1] == other);
            }
        }
        let w = seq![s[0]] + r;
        assert(w.contains(other) <==> (s[0] == other || r.contains(other))) by {
            if w.contains(other) && s[0] != other {
                let j = choose|j: int| 0 <= j < w.len() && w[j] == other;
                assert(r[j - 1] == other);
            }
            if r.contains(other) {
                let j = choose|j: int| 0 <= j < r.len() && r[j] == other;
                assert(w[j + 1] == other);
            }
            if s[0] == other {
                assert(w[0] == other);
            }
        }
        if !s.contains(val) {
            assert(seq![s[0]] + t =~= s);
        }
    }
}


/// A hardware action that follows a decision of the controller.
#[derive(Clone, Copy, Debug, PartialEq, Eq, Structural)]
pub enum Effect {
    /// Start the worker that drives this motor.
    StartMotor(Select),
    /// Ask this motor's worker to stop, sending the motor's current position.
    StopMotor(Select, u32),
    /// Send this motor's worker a new target, with the manual flag.
    MoveMotor(Select, u32, bool),
    /// Start an encoder worker on these pins (channel A, channel B).
    StartEncoder(u8, u8),
    /// Ask the encoder's worker to stop, and drop the encoder.
    StopEncoder,
    /// Drop the encoder without asking its worker to stop.
    ForgetEncoder,
    /// Overwrite the encoder's count.
    SetEncoderCount(i32),
    /// Drive a port expander relay high (`true`) or low.
    SetRelay(McpPin, bool),
    /// Drive the motor enable pin high (`true`, motors off) or low (motors on).
    EnablePin(bool),
    /// Tell the meter task whether to keep reading the current sensors.
    Meter(bool),
}

/// Why a request could not be carried out.
#[derive(Clone, Copy, Debug, PartialEq, Eq, Structural)]
pub enum ConfigError {
    /// A form field that the request needs is absent.
    MissingField,
    /// A pin number in the form is not a number from 0 to 255.
    InvalidNumber,
    /// A motor has its first pin set but not its second.
    UnpairedPin,
    /// The profile holds no band memories for a motor.
    MissingMemory,
}

/// The ON/OFF state shown for each power switch; `None` where nothing is known.
#[derive(Clone, Copy, Debug)]
pub struct PowerStates {
    pub blwr: Option<(bool, bool)>,
    pub fil: Option<(bool, bool)>,
    pub hv: Option<(bool, bool)>,
    pub oper: Option<(bool, bool)>,
}

impl PowerStates {
    /// Every switch shown as OFF.
    pub fn all_off() -> (r: Self)
        ensures
            r.blwr == Some((false, false)),
            r.fil == Some((false, false)),
            r.hv == Some((false, false)),
            r.oper == Some((false, false)),
    {
        PowerStates {
            blwr: Some((false, false)),
            fil: Some((false, false)),
            hv: Some((false, false)),
            oper: Some((false, false)),
        }
    }

    /// No switch state known yet.
    pub fn unknown() -> (r: Self)
        ensures
            r.blwr is None && r.fil is None && r.hv is None && r.oper is None,
    {
        PowerStates { blwr: None, fil: None, hv: None, oper: None }
    }

    /// Records the level read from relay number `index` of the polled relays
    /// (blower, filament 1 and 2, high voltage 1 and 2): the blower shows its
    /// level and OFF, the filament and high voltage show the level read twice.
    pub fn record_reading(&mut self, index: usize, high: bool)
        ensures
            final(self).blwr == (if index == 0 { Some((high, false)) } else { old(self).blwr }),
            final(self).fil == (if index == 1 || index == 2 { Some((high, high)) } else { old(self).fil }),
            final(self).hv == (if index == 3 || index == 4 { Some((high, high)) } else { old(self).hv }),
            final(self).oper == old(self).oper,
    {
        if index == 0 {
            self.blwr = Some((high, false));
        } else if index == 1 || index == 2 {
            self.fil = Some((high, high));
        } else if index == 3 || index == 4 {
            self.hv = Some((high, high));
        }
    }
}

/// The parts of the controller's state that the web interface shows and changes.
#[derive(Clone, Debug)]
pub struct Panel {
    pub sw_pos: Option<Select>,
    pub band: Bands,
    pub gauges: Gauges,
    /// The profile file that saves go to.
    pub file: String,
    /// Set after a recall: the setup is saved once the motors have come to rest.
    pub sleep: bool,
    pub pwr_btns_state: PowerStates,
    /// The GPIO pins that are still free.
    pub gpio_pins: Vec<u8>,
    pub call_sign: String,
    pub status: String,
}

/// Whether a request left the gauges and the power switch states as they were.
pub open spec fn keeps_meters(p0: Panel, p1: Panel) -> bool {
    p1.gauges == p0.gauges && p1.pwr_btns_state == p0.pwr_btns_state
}

impl Panel {
    /// The panel at start-up.
    pub fn new() -> (r: Self)
        ensures
            r.sw_pos is None,
            r.band == Bands::M10,
            r.gauges.plate_v == 0 && r.gauges.plate_a == 1 && r.gauges.screen_a == 50 && r.gauges.grid_a == 10,
            r.file@ == "amplifier.json"@,
            !r.sleep,
            r.pwr_btns_state.blwr == Some((false, false)) && r.pwr_btns_state.fil == Some((false, false)),
            r.pwr_btns_state.hv == Some((false, false)) && r.pwr_btns_state.oper == Some((false, false)),
            r.gpio_pins@ == initial_pins(),
            r.call_sign@ == Seq::<char>::empty(),
            r.status@ == Seq::<char>::empty(),
    {
        let pins = vec![17u8, 27, 22, 5, 6, 13, 19, 26, 14, 15, 18, 23, 24, 25, 12, 20, 21];
        assert(pins@ =~= initial_pins());
        Panel {
            sw_pos: None,
            band: Bands::M10,
            gauges: Gauges { plate_v: 0, plate_a: 1, screen_a: 50, grid_a: 10 },
            file: String::from_str("amplifier.json"),
            sleep: false,
            pwr_btns_state: PowerStates::all_off(),
            gpio_pins: pins,
            call_sign: String::new(),
            status: String::new(),
        }
    }
}

/// The value that the last field called `key` holds, if any field is called so.
pub open spec fn form_lookup(fields: Seq<(String, String)>, key: Seq<char>) -> Option<Seq<char>>
    decreases fields.len(),
{
    if fields.len() == 0 {
        None
    } else if fields.last().0@ == key {
        Some(fields.last().1@)
    } else {
        form_lookup(fields.drop_last(), key)
    }
}

/// The fields of a submitted form, in the order they arrived; a later field
/// overrides an earlier one of the same name.
#[derive(Clone, Debug)]
pub struct FormData {
    pub fields: Vec<(String, String)>,
}

impl FormData {
    /// The value of field `key`, if the form has one.
    pub open spec fn lookup(&self, key: Seq<char>) -> Option<Seq<char>> {
        form_lookup(self.fields@, key)
    }

    /// A form with no fields.
    pub fn new() -> (r: Self)
        ensures
            r.fields@.len() == 0,
    {
        FormData { fields: Vec::new() }
    }

    /// Adds a field that arrived after all the others.
    pub fn insert(&mut self, key: String, value: String)
        ensures
            final(self).fields@ == old(self).fields@.push((key, value)),
    {
        self.fields.push((key, value));
    }

    /// The value of field `key`, if the form has one.
    pub fn get(&self, key: &str) -> (r: Option<String>)
        ensures
            r is None <==> self.lookup(key@) is None,
            r matches Some(v) ==> self.lookup(key@) == Some(v@),
    {
        let mut i = self.fields.len();
        proof {
            lemma_full_subrange(self.fields@);
        }
        while i > 0
            invariant
                i <= self.fields@.len(),
                form_lookup(self.fields@, key@) == form_lookup(self.fields@.subrange(0, i as int), key@),
            decreases i,
        {
            let ghost prefix = self.fields@.subrange(0, i as int);
            assert(prefix.drop_last() =~= self.fields@.subrange(0, i - 1));
            let entry = &self.fields[i - 1];
            if str_eq(entry.0.as_str(), key) {
                return Some(entry.1.clone());
            }
            i = i - 1;
        }
        None
    }

    /// Whether the form has a field called `key`.
    pub fn contains_key(&self, key: &str) -> (r: bool)
        ensures
            r == self.lookup(key@) is Some,
    {
        self.get(key).is_some()
    }
}

proof fn lemma_full_subrange<T>(s: Seq<T>)
    ensures
        s.subrange(0, s.len() as int) == s,
{
    assert(s.subrange(0, s.len() as int) =~= s);
}


/// The status after a motor was set up: "<name> Added on Pins: <a>, <b>, ratio of <r>".
pub open spec fn added_status(name: Seq<char>, a: u8, b: u8, ratio: u8) -> Seq<char> {
    name + " Added on Pins: "@ + decimal(a as nat) + ", "@ + decimal(b as nat) + ", ratio of "@
        + decimal(ratio as nat)
}

/// The status after a motor was released: "<name> Deleted...".
pub open spec fn deleted_status(name: Seq<char>) -> Seq<char> {
    name + " Deleted..."@
}

fn added_text(name: &String, a: u8, b: u8, ratio: u8) -> (r: String)
    ensures
        r@ == added_status(name@, a, b, ratio),
{
    let mut t = name.clone();
    t.append(" Added on Pins: ");
    push_decimal(&mut t, a as u32);
    t.append(", ");
    push_decimal(&mut t, b as u32);
    t.append(", ratio of ");
    push_decimal(&mut t, ratio as u32);
    t
}

fn deleted_text(name: &String) -> (r: String)
    ensures
        r@ == deleted_status(name@),
{
    let mut t = name.clone();
    t.append(" Deleted...");
    t
}

/// What a request to set up a motor asks for: an error where a field the
/// request needs is absent or a pin is not a number, `None` where a pin field
/// is left empty, and otherwise both pins and the ratio (1 when the ratio is
/// not a number).
pub open spec fn add_request(form: FormData) -> Result<Option<(u8, u8, u8)>, ConfigError> {
    match form.lookup("PinA"@) {
        None => Err(ConfigError::MissingField),
        Some(a) => if a.len() == 0 {
            Ok(None)
        } else {
            match form.lookup("PinB"@) {
                None => Err(ConfigError::MissingField),
                Some(b) => if b.len() == 0 {
                    Ok(None)
                } else {
                    match (parse_u8_spec(a), parse_u8_spec(b)) {
                        (Some(pa), Some(pb)) => match form.lookup("ratio"@) {
                            None => Err(ConfigError::MissingField),
                            Some(rt) => Ok(
                                Some(
                                    (
                                        pa,
                                        pb,
                                        match parse_u8_spec(rt) {
                                            Some(x) => x,
                                            None => 1u8,
                                        },
                                    ),
                                ),
                            ),
                        },
                        _ => Err(ConfigError::InvalidNumber),
                    }
                },
            }
        },
    }
}

fn read_add_request(form: &FormData) -> (r: Result<Option<(u8, u8, u8)>, ConfigError>)
    ensures
        r == add_request(*form),
{
    let a = match form.get("PinA") {
        Some(a) => a,
        None => return Err(ConfigError::MissingField),
    };
    if a.unicode_len() == 0 {
        return Ok(None);
    }
    let b = match form.get("PinB") {
        Some(b) => b,
        None => return Err(ConfigError::MissingField),
    };
    if b.unicode_len() == 0 {
        return Ok(None);
    }
    let pa = match parse_u8(a.as_str()) {
        Some(p) => p,
        None => return Err(ConfigError::InvalidNumber),
    };
    let pb = match parse_u8(b.as_str()) {
        Some(p) => p,
        None => return Err(ConfigError::InvalidNumber),
    };
    let rt = match form.get("ratio") {
        Some(t) => t,
        None => return Err(ConfigError::MissingField),
    };
    let ratio = match parse_u8(rt.as_str()) {
        Some(x) => x,
        None => 1u8,
    };
    Ok(Some((pa, pb, ratio)))
}

/// The pulse delay the inductor runs at once it is set up.
pub const INDUCTOR_SPEED_MICROS: u64 = 400;

/// Two motors that are equal but for the pins and the ratio.
pub open spec fn same_but_pins(a: Stepper, b: Stepper) -> bool {
    &&& a.name == b.name
    &&& a.ena == b.ena
    &&& a.pos == b.pos
    &&& a.mem == b.mem
    &&& a.max == b.max
    &&& a.speed == b.speed
    &&& a.operate == b.operate
}


/// What setting up (`add`) or releasing the motor `which` does: `before` and
/// `p0` are the motor and the panel before, `after` and `p1` after, `r` the result.
pub open spec fn handled(p0: Panel, p1: Panel, form: FormData, which: Select, add: bool, before: Stepper, after: Stepper, r: Result<Vec<Effect>, ConfigError>) -> bool {
    &&& add ==> match add_request(form) {
            Err(e) => r == Err::<Vec<Effect>, ConfigError>(e) && after == before
                && p1.gpio_pins@ == p0.gpio_pins@ && p1.status == p0.status,
            Ok(None) => r matches Ok(fx) && fx@.len() == 0 && after == before
                && p1.gpio_pins@ == p0.gpio_pins@
                && p1.status@ == added_status(
                    select_key(which),
                    match before.pin_a { Some(p) => p, None => 0u8 },
                    match before.pin_b { Some(p) => p, None => 0u8 },
                    before.ratio,
                ),
            Ok(Some((pa, pb, ratio))) => r matches Ok(fx) && fx@ == seq![Effect::StartMotor(which)]
                && after.pin_a == Some(pa) && after.pin_b == Some(pb)
                && after.ratio == ratio
                && after.ena == before.ena && after.pos == before.pos
                && after.mem == before.mem && after.max == before.max
                && after.operate == before.operate
                && after.speed == (if which == Select::Ind {
                    INDUCTOR_SPEED_MICROS
                } else {
                    before.speed
                })
                && p1.gpio_pins@ == pins_after(pins_after(p0.gpio_pins@, pa, true), pb, true)
                && p1.status@ == added_status(select_key(which), pa, pb, ratio),
        }
    &&& !add ==> match before.pin_a {
            None => r matches Ok(fx) && fx@.len() == 0 && after == before
                && p1.gpio_pins@ == p0.gpio_pins@
                && p1.status@ == deleted_status(select_key(which)),
            Some(pa) => match before.pin_b {
                None => r == Err::<Vec<Effect>, ConfigError>(ConfigError::UnpairedPin)
                    && after == before
                    && p1.gpio_pins@ == p0.gpio_pins@
                    && p1.status == p0.status,
                Some(pb) => r matches Ok(fx)
                    && fx@ == seq![Effect::StopMotor(which, reading(before.pos) as u32)]
                    && after.pin_a is None && after.pin_b is None
                    && after.ratio == 1 && same_but_pins(after, before)
                    && p1.gpio_pins@ == pins_after(pins_after(p0.gpio_pins@, pa, false), pb, false)
                    && p1.status@ == deleted_status(select_key(which)),
            },
        }
}

/// Sets up (`add`) or releases one motor from the configuration form.
///
/// Setting up clears the selection; when both pin fields are filled it takes
/// both pins from the free list, stores the pins and the ratio, slows the
/// inductor to its set-up speed and starts the motor's worker. Releasing a
/// motor that has pins gives them back, stops its worker and resets its ratio.
/// The status reports what the motor now has.
pub fn handle_stepper(panel: &mut Panel, form: &FormData, which: Select, add: bool, stepper: &mut Stepper) -> (r: Result<Vec<Effect>, ConfigError>)
    requires
        old(stepper).name@ == select_key(which),
    ensures
        keeps_meters(*old(panel), *final(panel)),
        final(stepper).name@ == select_key(which),
        final(panel).band == old(panel).band,
        final(panel).file == old(panel).file,
        final(panel).sleep == old(panel).sleep,
        final(panel).call_sign == old(panel).call_sign,
        add ==> final(panel).sw_pos is None,
        !add ==> final(panel).sw_pos == old(panel).sw_pos,
        handled(*old(panel), *final(panel), *form, which, add, *old(stepper), *final(stepper), r),
{
    let mut effects: Vec<Effect> = Vec::new();
    if add {
        panel.sw_pos = None;
        let request = read_add_request(form);
        match request {
            Err(e) => {
                return Err(e);
            },
            Ok(None) => {},
            Ok(Some((pa, pb, ratio))) => {
                stepper.name = String::from_str(which.key());
                stepper.pin_a = Some(pa);
                stepper.pin_b = Some(pb);
                stepper.ratio = ratio;
                process_pins(&mut panel.gpio_pins, pa, true);
                process_pins(&mut panel.gpio_pins, pb, true);
                if which == Select::Ind {
                    stepper.speed = INDUCTOR_SPEED_MICROS;
                }
                effects.push(Effect::StartMotor(which));
            },
        }
        let pina = match stepper.pin_a {
            Some(p) => p,
            None => 0u8,
        };
        let pinb = match stepper.pin_b {
            Some(p) => p,
            None => 0u8,
        };
        panel.status = added_text(&stepper.name, pina, pinb, stepper.ratio);
    } else {
        if let Some(pa) = stepper.pin_a {
            let pb = match stepper.pin_b {
                Some(p) => p,
                None => return Err(ConfigError::UnpairedPin),
            };
            process_pins(&mut panel.gpio_pins, pa, false);
            process_pins(&mut panel.gpio_pins, pb, false);
            effects.push(Effect::StopMotor(which, position_reading(stepper.pos)));
            stepper.pin_a = None;
            stepper.pin_b = None;
            stepper.ratio = 1;
        }
        panel.status = deleted_text(&stepper.name);
    }
    Ok(effects)
}


/// What a submission of the configuration form asks for.
#[derive(Clone, Copy, Debug, PartialEq, Eq, Structural)]
pub enum ConfigAction {
    DeleteEncoder,
    AddStepper(Select),
    DeleteStepper(Select),
    /// Zero a motor's position (the motor named by the field, if any).
    Start(Option<Select>),
    /// Make a motor's current position its maximum.
    Max(Option<Select>),
    /// Restore a motor's default maximum.
    Reset(Option<Select>),
    AddEncoder,
    Nothing,
}

/// The action a submission of the configuration form asks for. With an
/// encoder configured, the first of these fields that is present decides:
/// "del_enc", "add_tune", "del_tune", "add_ind", "del_ind", "add_load",
/// "del_load", "start", "max", "reset". Without one, a form with both
/// "PinA" and "PinB" adds the encoder.
pub open spec fn config_action_spec(form: FormData, encoder_present: bool) -> ConfigAction {
    if encoder_present {
        if form.lookup("del_enc"@) is Some {
            ConfigAction::DeleteEncoder
        } else if form.lookup("add_tune"@) is Some {
            ConfigAction::AddStepper(Select::Tune)
        } else if form.lookup("del_tune"@) is Some {
            ConfigAction::DeleteStepper(Select::Tune)
        } else if form.lookup("add_ind"@) is Some {
            ConfigAction::AddStepper(Select::Ind)
        } else if form.lookup("del_ind"@) is Some {
            ConfigAction::DeleteStepper(Select::Ind)
        } else if form.lookup("add_load"@) is Some {
            ConfigAction::AddStepper(Select::Load)
        } else if form.lookup("del_load"@) is Some {
            ConfigAction::DeleteStepper(Select::Load)
        } else if form.lookup("start"@) is Some {
            ConfigAction::Start(select_from_key(form.lookup("start"@)->0))
        } else if form.lookup("max"@) is Some {
            ConfigAction::Max(select_from_key(form.lookup("max"@)->0))
        } else if form.lookup("reset"@) is Some {
            ConfigAction::Reset(select_from_key(form.lookup("reset"@)->0))
        } else {
            ConfigAction::Nothing
        }
    } else if form.lookup("PinA"@) is Some && form.lookup("PinB"@) is Some {
        ConfigAction::AddEncoder
    } else {
        ConfigAction::Nothing
    }
}

/// The fields of the configuration form that ask for an action.
pub open spec fn config_fields() -> Seq<Seq<char>> {
    seq!["del_enc"@, "add_tune"@, "del_tune"@, "add_ind"@, "del_ind"@, "add_load"@, "del_load"@, "start"@, "max"@, "reset"@]
}

/// Whether `name` is the only action field that the form holds.
pub open spec fn only_action_field(form: FormData, name: Seq<char>) -> bool {
    &&& form.lookup(name) is Some
    &&& forall|i: int| 0 <= i < config_fields().len() && config_fields()[i] != name
        ==> (#[trigger] form.lookup(config_fields()[i])) is None
}

/// With an encoder configured, a form whose only action field is
/// "add_<motor>" sets up that motor, and one whose only action field is
/// "del_<motor>" releases it, for each of the three motors; "del_enc" deletes
/// the encoder, and "start", "max" and "reset" zero the position, take the
/// maximum and reset the maximum of the motor their value names.
pub proof fn config_fields_name_their_motor(form: FormData, w: Select)
    ensures
        only_action_field(form, "add_"@ + select_key(w)) ==> config_action_spec(form, true) == ConfigAction::AddStepper(w),
        only_action_field(form, "del_"@ + select_key(w)) ==> config_action_spec(form, true) == ConfigAction::DeleteStepper(w),
        only_action_field(form, "del_enc"@) ==> config_action_spec(form, true) == ConfigAction::DeleteEncoder,
        only_action_field(form, "start"@) ==> config_action_spec(form, true) == ConfigAction::Start(select_from_key(form.lookup("start"@)->0)),
        only_action_field(form, "max"@) ==> config_action_spec(form, true) == ConfigAction::Max(select_from_key(form.lookup("max"@)->0)),
        only_action_field(form, "reset"@) ==> config_action_spec(form, true) == ConfigAction::Reset(select_from_key(form.lookup("reset"@)->0)),
{
    reveal_strlit("add_");
    reveal_strlit("del_");
    reveal_strlit("tune");
    reveal_strlit("ind");
    reveal_strlit("load");
    reveal_strlit("del_enc");
    reveal_strlit("add_tune");
    reveal_strlit("del_tune");
    reveal_strlit("add_ind");
    reveal_strlit("del_ind");
    reveal_strlit("add_load");
    reveal_strlit("del_load");
    reveal_strlit("start");
    reveal_strlit("max");
    reveal_strlit("reset");
    assert("add_"@ + "tune"@ =~= "add_tune"@);
    assert("del_"@ + "tune"@ =~= "del_tune"@);
    assert("add_"@ + "ind"@ =~= "add_ind"@);
    assert("del_"@ + "ind"@ =~= "del_ind"@);
    assert("add_"@ + "load"@ =~= "add_load"@);
    assert("del_"@ + "load"@ =~= "del_load"@);
    let f = config_fields();
    assert forall|i: int, j: int| 0 <= i < 10 && 0 <= j < 10 && i != j implies f[i] != f[j] by {
        assert(i == 0 || i == 1 || i == 2 || i == 3 || i == 4 || i == 5 || i == 6 || i == 7 || i == 8 || i == 9);
        assert(j == 0 || j == 1 || j == 2 || j == 3 || j == 4 || j == 5 || j == 6 || j == 7 || j == 8 || j == 9);
        assert(f[i].len() != f[j].len() || f[i][0] != f[j][0] || f[i][4] != f[j][4]);
    }
    let add = "add_"@ + select_key(w);
    let del = "del_"@ + select_key(w);
    if only_action_field(form, add) {
        let k: int = match w { Select::Tune => 1, Select::Ind => 3, Select::Load => 5 };
        assert(f[k] == add);
        assert(form.lookup(f[0]) is None);
        assert(form.lookup(f[1]) is None || k == 1);
        assert(form.lookup(f[2]) is None);
        assert(form.lookup(f[3]) is None || k == 3);
        assert(form.lookup(f[4]) is None);
    }
    if only_action_field(form, "start"@) || only_action_field(form, "max"@) || only_action_field(form, "reset"@) {
        assert(f[7] == "start"@ && f[8] == "max"@ && f[9] == "reset"@);
        assert(form.lookup(f[0]) is None || f[0] == "start"@);
        assert(form.lookup(f[1]) is None);
        assert(form.lookup(f[2]) is None);
        assert(form.lookup(f[3]) is None);
        assert(form.lookup(f[4]) is None);
        assert(form.lookup(f[5]) is None);
        assert(form.lookup(f[6]) is None);
    }
    if only_action_field(form, "max"@) {
        assert(form.lookup(f[7]) is None);
    }
    if only_action_field(form, "reset"@) {
        assert(form.lookup(f[7]) is None);
        assert(form.lookup(f[8]) is None);
    }
    if only_action_field(form, del) {
        let k: int = match w { Select::Tune => 2, Select::Ind => 4, Select::Load => 6 };
        assert(f[k] == del);
        assert(form.lookup(f[0]) is None);
        assert(form.lookup(f[1]) is None);
        assert(form.lookup(f[2]) is None || k == 2);
        assert(form.lookup(f[3]) is None);
        assert(form.lookup(f[4]) is None || k == 4);
        assert(form.lookup(f[5]) is None);
    }
}

fn selected_field(form: &FormData, key: &str) -> (r: Option<Select>)
    requires
        form.lookup(key@) is Some,
    ensures
        r == select_from_key(form.lookup(key@)->0),
{
    let v = form.get(key).unwrap();
    Select::from_key(v.as_str())
}

/// The action a submission of the configuration form asks for.
pub fn config_action(form: &FormData, encoder_present: bool) -> (r: ConfigAction)
    ensures
        r == config_action_spec(*form, encoder_present),
{
    if encoder_present {
        if form.contains_key("del_enc") {
            ConfigAction::DeleteEncoder
        } else if form.contains_key("add_tune") {
            ConfigAction::AddStepper(Select::Tune)
        } else if form.contains_key("del_tune") {
            ConfigAction::DeleteStepper(Select::Tune)
        } else if form.contains_key("add_ind") {
            ConfigAction::AddStepper(Select::Ind)
        } else if form.contains_key("del_ind") {
            ConfigAction::DeleteStepper(Select::Ind)
        } else if form.contains_key("add_load") {
            ConfigAction::AddStepper(Select::Load)
        } else if form.contains_key("del_load") {
            ConfigAction::DeleteStepper(Select::Load)
        } else if form.contains_key("start") {
            ConfigAction::Start(selected_field(form, "start"))
        } else if form.contains_key("max") {
            ConfigAction::Max(selected_field(form, "max"))
        } else if form.contains_key("reset") {
            ConfigAction::Reset(selected_field(form, "reset"))
        } else {
            ConfigAction::Nothing
        }
    } else if form.contains_key("PinA") && form.contains_key("PinB") {
        ConfigAction::AddEncoder
    } else {
        ConfigAction::Nothing
    }
}

/// The default maximum position of a motor.
pub const DEFAULT_MAX: i32 = 100000;

/// A motor's text quoted as it is shown in a status ("\"<text>\"").
pub open spec fn quoted(t: Seq<char>) -> Seq<char> {
    "\""@ + t + "\""@
}

/// The status after an encoder was added from the texts of its two pin fields.
pub open spec fn encoder_added_status(a: Seq<char>, b: Seq<char>) -> Seq<char> {
    "Encoder Added on pins: "@ + quoted(a) + ", "@ + quoted(b)
}

/// What adding the encoder from the form asks for: `None` when a pin field
/// is empty, an error when a pin is not a number, and otherwise both pins.
pub open spec fn encoder_request(form: FormData) -> Result<Option<(u8, u8)>, ConfigError> {
    let a = form.lookup("PinA"@)->0;
    let b = form.lookup("PinB"@)->0;
    if a.len() == 0 || b.len() == 0 {
        Ok(None)
    } else {
        match (parse_u8_spec(a), parse_u8_spec(b)) {
            (Some(pa), Some(pb)) => Ok(Some((pa, pb))),
            _ => Err(ConfigError::InvalidNumber),
        }
    }
}

/// Whether the three motors carry their own names.
pub open spec fn named_motors(tune: Stepper, ind: Stepper, load: Stepper) -> bool {
    &&& tune.name@ == select_key(Select::Tune)
    &&& ind.name@ == select_key(Select::Ind)
    &&& load.name@ == select_key(Select::Load)
}

/// The motor that `which` names among the three.
pub open spec fn motor(which: Select, tune: Stepper, ind: Stepper, load: Stepper) -> Stepper {
    match which {
        Select::Tune => tune,
        Select::Ind => ind,
        Select::Load => load,
    }
}

/// The call sign after a submission that may carry a "call_sign" field.
pub open spec fn call_sign_after(form: FormData, before: Seq<char>) -> Seq<char> {
    match form.lookup("call_sign"@) {
        Some(v) => v,
        None => before,
    }
}

/// What a submission of the configuration form does when it asks for `action`,
/// apart from the call sign: `p0`, `t0`, `i0`, `l0` before, `p1`, `t1`, `i1`,
/// `l1` after, `r` the result.
pub open spec fn config_done(
    action: ConfigAction,
    form: FormData,
    encoder: Option<(u8, u8)>,
    p0: Panel,
    p1: Panel,
    t0: Stepper,
    i0: Stepper,
    l0: Stepper,
    t1: Stepper,
    i1: Stepper,
    l1: Stepper,
    r: Result<Vec<Effect>, ConfigError>,
) -> bool {
    match action {
        ConfigAction::DeleteEncoder => {
            &&& r matches Ok(fx) && fx@ == seq![Effect::StopEncoder]
            &&& p1.gpio_pins@ == pins_after(
                pins_after(p0.gpio_pins@, encoder.unwrap().0, false),
                encoder.unwrap().1,
                false,
            )
            &&& p1.status@ == "Encoder has benn deleted!"@
            &&& t1 == t0 && i1 == i0 && l1 == l0
            &&& p1.sw_pos == p0.sw_pos
        },
        ConfigAction::AddStepper(w) => if motor(w, t0, i0, l0).pin_a is Some {
            &&& r matches Ok(fx) && fx@.len() == 0
            &&& t1 == t0 && i1 == i0 && l1 == l0
            &&& p1.gpio_pins@ == p0.gpio_pins@ && p1.status == p0.status && p1.sw_pos == p0.sw_pos
        } else {
            &&& handled(p0, p1, form, w, true, motor(w, t0, i0, l0), motor(w, t1, i1, l1), r)
            &&& w != Select::Tune ==> t1 == t0
            &&& w != Select::Ind ==> i1 == i0
            &&& w != Select::Load ==> l1 == l0
            &&& p1.sw_pos is None
        },
        ConfigAction::DeleteStepper(w) => {
            &&& handled(p0, p1, form, w, false, motor(w, t0, i0, l0), motor(w, t1, i1, l1), r)
            &&& w != Select::Tune ==> t1 == t0
            &&& w != Select::Ind ==> i1 == i0
            &&& w != Select::Load ==> l1 == l0
            &&& p1.sw_pos == p0.sw_pos
        },
        ConfigAction::Start(w) => {
            &&& r matches Ok(fx) && fx@.len() == 0
            &&& p1.sw_pos is None
            &&& p1.gpio_pins@ == p0.gpio_pins@ && p1.status == p0.status
            &&& (w == Some(Select::Tune) ==> t1 == adjusted(t0, 0)) && (w != Some(Select::Tune) ==> t1 == t0)
            &&& (w == Some(Select::Ind) ==> i1 == adjusted(i0, 0)) && (w != Some(Select::Ind) ==> i1 == i0)
            &&& (w == Some(Select::Load) ==> l1 == adjusted(l0, 0)) && (w != Some(Select::Load) ==> l1 == l0)
        },
        ConfigAction::Max(w) => {
            &&& r matches Ok(fx) && fx@.len() == 0
            &&& p1.sw_pos == p0.sw_pos
            &&& p1.gpio_pins@ == p0.gpio_pins@ && p1.status == p0.status
            &&& (w == Some(Select::Tune) ==> t1 == adjusted(t0, 1)) && (w != Some(Select::Tune) ==> t1 == t0)
            &&& (w == Some(Select::Ind) ==> i1 == adjusted(i0, 1)) && (w != Some(Select::Ind) ==> i1 == i0)
            &&& (w == Some(Select::Load) ==> l1 == adjusted(l0, 1)) && (w != Some(Select::Load) ==> l1 == l0)
        },
        ConfigAction::Reset(w) => {
            &&& r matches Ok(fx) && fx@.len() == 0
            &&& p1.sw_pos == p0.sw_pos
            &&& p1.gpio_pins@ == p0.gpio_pins@ && p1.status == p0.status
            &&& (w == Some(Select::Tune) ==> t1 == adjusted(t0, 2)) && (w != Some(Select::Tune) ==> t1 == t0)
            &&& (w == Some(Select::Ind) ==> i1 == adjusted(i0, 2)) && (w != Some(Select::Ind) ==> i1 == i0)
            &&& (w == Some(Select::Load) ==> l1 == adjusted(l0, 2)) && (w != Some(Select::Load) ==> l1 == l0)
        },
        ConfigAction::AddEncoder => {
            &&& t1 == t0 && i1 == i0 && l1 == l0
            &&& p1.sw_pos == p0.sw_pos
            &&& match encoder_request(form) {
                Err(e) => r == Err::<Vec<Effect>, ConfigError>(e) && p1.gpio_pins@ == p0.gpio_pins@ && p1.status == p0.status,
                Ok(None) => r matches Ok(fx) && fx@.len() == 0 && p1.gpio_pins@ == p0.gpio_pins@ && p1.status == p0.status,
                Ok(Some((pa, pb))) => r matches Ok(fx) && fx@ == seq![Effect::StartEncoder(pa, pb)]
                    && p1.gpio_pins@ == pins_after(pins_after(p0.gpio_pins@, pa, true), pb, true)
                    && p1.status@ == encoder_added_status(form.lookup("PinA"@)->0, form.lookup("PinB"@)->0),
            }
        },
        ConfigAction::Nothing => {
            &&& r matches Ok(fx) && fx@.len() == 0
            &&& t1 == t0 && i1 == i0 && l1 == l0
            &&& p1.sw_pos == p0.sw_pos && p1.gpio_pins@ == p0.gpio_pins@ && p1.status == p0.status
        },
    }
}

/// A motor with its position zeroed (`kind` 0), its maximum set to its
/// position (`kind` 1), or its maximum restored (any other `kind`).
pub open spec fn adjusted(s: Stepper, kind: u8) -> Stepper {
    if kind == 0 {
        Stepper { pos: 0, ..s }
    } else if kind == 1 {
        Stepper { max: s.pos, ..s }
    } else {
        Stepper { max: DEFAULT_MAX, ..s }
    }
}

fn apply_kind(s: &mut Stepper, kind: u8)
    ensures
        *final(s) == adjusted(*old(s), kind),
{
    if kind == 0 {
        s.pos = 0;
    } else if kind == 1 {
        s.max = s.pos;
    } else {
        s.max = DEFAULT_MAX;
    }
}

fn set_for(which: Option<Select>, tune: &mut Stepper, ind: &mut Stepper, load: &mut Stepper, kind: u8)
    ensures
        *final(tune) == (if which == Some(Select::Tune) { adjusted(*old(tune), kind) } else { *old(tune) }),
        *final(ind) == (if which == Some(Select::Ind) { adjusted(*old(ind), kind) } else { *old(ind) }),
        *final(load) == (if which == Some(Select::Load) { adjusted(*old(load), kind) } else { *old(load) }),
{
    match which {
        Some(Select::Tune) => apply_kind(tune, kind),
        Some(Select::Ind) => apply_kind(ind, kind),
        Some(Select::Load) => apply_kind(load, kind),
        None => {},
    }
}


fn encoder_added_text(a: &String, b: &String) -> (r: String)
    ensures
        r@ == encoder_added_status(a@, b@),
{
    let mut t = String::from_str("Encoder Added on pins: \"");
    t.append(a.as_str());
    t.append("\", \"");
    t.append(b.as_str());
    t.append("\"");
    proof {
        reveal_strlit("Encoder Added on pins: \"");
        reveal_strlit("Encoder Added on pins: ");
        reveal_strlit("\", \"");
        reveal_strlit(", ");
        reveal_strlit("\"");
    }
    assert(t@ =~= encoder_added_status(a@, b@));
    t
}

/// Handles a submission of the configuration form.
///
/// The action is chosen as `config_action_spec` says. Releasing the encoder
/// gives its pins back and stops it; setting up a motor that already has pins
/// does nothing; setting up or releasing a motor is `handle_stepper`; "start"
/// clears the selection and zeroes the named motor's position; "max" makes the
/// named motor's position its maximum; "reset" restores its default maximum;
/// adding the encoder takes both pins from the free list and starts it. A
/// "call_sign" field then becomes the call sign.
pub fn config_post(panel: &mut Panel, form: &FormData, encoder: Option<(u8, u8)>, tune: &mut Stepper, ind: &mut Stepper, load: &mut Stepper) -> (r: Result<Vec<Effect>, ConfigError>)
    requires
        named_motors(*old(tune), *old(ind), *old(load)),
    ensures
        keeps_meters(*old(panel), *final(panel)),
        named_motors(*final(tune), *final(ind), *final(load)),
        final(panel).band == old(panel).band,
        final(panel).file == old(panel).file,
        final(panel).sleep == old(panel).sleep,
        config_done(
            config_action_spec(*form, encoder is Some),
            *form,
            encoder,
            *old(panel),
            *final(panel),
            *old(tune),
            *old(ind),
            *old(load),
            *final(tune),
            *final(ind),
            *final(load),
            r,
        ),
        r is Ok ==> final(panel).call_sign@ == call_sign_after(*form, old(panel).call_sign@),
        r is Err ==> final(panel).call_sign == old(panel).call_sign,
{
    let action = config_action(form, encoder.is_some());
    let mut effects: Vec<Effect> = Vec::new();
    match action {
        ConfigAction::DeleteEncoder => {
            let (pa, pb) = encoder.unwrap();
            process_pins(&mut panel.gpio_pins, pa, false);
            process_pins(&mut panel.gpio_pins, pb, false);
            effects.push(Effect::StopEncoder);
            panel.status = String::from_str("Encoder has benn deleted!");
        },
        ConfigAction::AddStepper(w) => {
            match w {
                Select::Tune => if tune.pin_a.is_none() {
                    match handle_stepper(panel, form, Select::Tune, true, tune) {
                        Ok(fx) => { effects = fx; },
                        Err(e) => { return Err(e); },
                    }
                },
                Select::Ind => if ind.pin_a.is_none() {
                    match handle_stepper(panel, form, Select::Ind, true, ind) {
                        Ok(fx) => { effects = fx; },
                        Err(e) => { return Err(e); },
                    }
                },
                Select::Load => if load.pin_a.is_none() {
                    match handle_stepper(panel, form, Select::Load, true, load) {
                        Ok(fx) => { effects = fx; },
                        Err(e) => { return Err(e); },
                    }
                },
            }
        },
        ConfigAction::DeleteStepper(w) => {
            let res = match w {
                Select::Tune => handle_stepper(panel, form, Select::Tune, false, tune),
                Select::Ind => handle_stepper(panel, form, Select::Ind, false, ind),
                Select::Load => handle_stepper(panel, form, Select::Load, false, load),
            };
            match res {
                Ok(fx) => { effects = fx; },
                Err(e) => { return Err(e); },
            }
        },
        ConfigAction::Start(w) => {
            panel.sw_pos = None;
            set_for(w, tune, ind, load, 0);
        },
        ConfigAction::Max(w) => {
            set_for(w, tune, ind, load, 1);
        },
        ConfigAction::Reset(w) => {
            set_for(w, tune, ind, load, 2);
        },
        ConfigAction::AddEncoder => {
            let a = form.get("PinA").unwrap();
            let b = form.get("PinB").unwrap();
            if a.unicode_len() != 0 && b.unicode_len() != 0 {
                let pa = match parse_u8(a.as_str()) {
                    Some(p) => p,
                    None => return Err(ConfigError::InvalidNumber),
                };
                let pb = match parse_u8(b.as_str()) {
                    Some(p) => p,
                    None => return Err(ConfigError::InvalidNumber),
                };
                effects.push(Effect::StartEncoder(pa, pb));
                process_pins(&mut panel.gpio_pins, pa, true);
                process_pins(&mut panel.gpio_pins, pb, true);
                panel.status = encoder_added_text(&a, &b);
            }
        },
        ConfigAction::Nothing => {},
    }
    if let Some(cs) = form.get("call_sign") {
        panel.call_sign = cs;
    }
    Ok(effects)
}


/// Whether any of the three motors is moving.
pub open spec fn any_operating(tune: Stepper, ind: Stepper, load: Stepper) -> bool {
    tune.operate || ind.operate || load.operate
}

/// The selection and status after one field of the selector form.
pub open spec fn select_step(state: (Option<Select>, Seq<char>), name: Seq<char>, encoder_present: bool) -> (Option<Select>, Seq<char>) {
    match select_from_key(name) {
        None => state,
        Some(w) => if encoder_present {
            (Some(w), select_title(w) + " is selected"@)
        } else {
            (state.0, "No Encoder present! ! !"@)
        },
    }
}

/// The selection and status after the fields `names` of the selector form, in order.
pub open spec fn select_fold(names: Seq<String>, encoder_present: bool, init: (Option<Select>, Seq<char>)) -> (Option<Select>, Seq<char>)
    decreases names.len(),
{
    if names.len() == 0 {
        init
    } else {
        select_step(select_fold(names.drop_last(), encoder_present, init), names.last()@, encoder_present)
    }
}

/// The hardware actions for the fields `names` of the selector form, in order:
/// each field that names a motor stops the meter reading and, with an encoder,
/// sets the encoder's count to that motor's position.
pub open spec fn select_effects(names: Seq<String>, encoder_present: bool, tune: Stepper, ind: Stepper, load: Stepper) -> Seq<Effect>
    decreases names.len(),
{
    if names.len() == 0 {
        Seq::<Effect>::empty()
    } else {
        select_effects(names.drop_last(), encoder_present, tune, ind, load) + match select_from_key(names.last()@) {
            None => Seq::<Effect>::empty(),
            Some(w) => if encoder_present {
                seq![Effect::Meter(false), Effect::SetEncoderCount(motor(w, tune, ind, load).pos)]
            } else {
                seq![Effect::Meter(false)]
            },
        }
    }
}

/// The status when a tuner is selected while a motor is moving.
pub open spec fn busy_select_status() -> Seq<char> {
    "Cannot select a tuner while tune is in progress ! ! !"@
}

fn selected_text(w: Select) -> (r: String)
    ensures
        r@ == select_title(w) + " is selected"@,
{
    let mut t = String::from_str(w.title());
    t.append(" is selected");
    t
}

/// Handles the selector form, whose field names name the motor to couple to
/// the encoder. The motors are enabled first. While a motor is moving nothing
/// is selected; otherwise each field that names a motor is taken in turn:
/// with an encoder the encoder takes over that motor's position and the motor
/// becomes the selected one; without one the status says so.
pub fn selector(panel: &mut Panel, fields: &Vec<String>, encoder_present: bool, tune: &Stepper, ind: &Stepper, load: &Stepper) -> (r: Vec<Effect>)
    ensures
        keeps_meters(*old(panel), *final(panel)),
        final(panel).band == old(panel).band,
        final(panel).file == old(panel).file,
        final(panel).sleep == old(panel).sleep,
        final(panel).gpio_pins == old(panel).gpio_pins,
        final(panel).call_sign == old(panel).call_sign,
        any_operating(*tune, *ind, *load) ==> final(panel).sw_pos == old(panel).sw_pos
            && final(panel).status@ == busy_select_status()
            && r@ == seq![Effect::EnablePin(false)],
        !any_operating(*tune, *ind, *load) ==> (final(panel).sw_pos, final(panel).status@) == select_fold(
            fields@,
            encoder_present,
            (old(panel).sw_pos, old(panel).status@),
        ) && r@ == seq![Effect::EnablePin(false)] + select_effects(fields@, encoder_present, *tune, *ind, *load),
{
    let mut effects: Vec<Effect> = Vec::new();
    effects.push(Effect::EnablePin(false));
    if tune.operate || ind.operate || load.operate {
        panel.status = String::from_str("Cannot select a tuner while tune is in progress ! ! !");
        return effects;
    }
    let ghost init = (old(panel).sw_pos, old(panel).status@);
    let mut i: usize = 0;
    while i < fields.len()
        invariant
            i <= fields@.len(),
            (panel.sw_pos, panel.status@) == select_fold(fields@.subrange(0, i as int), encoder_present, init),
            effects@ == seq![Effect::EnablePin(false)] + select_effects(fields@.subrange(0, i as int), encoder_present, *tune, *ind, *load),
            panel.band == old(panel).band,
            panel.file == old(panel).file,
            panel.sleep == old(panel).sleep,
            panel.gpio_pins == old(panel).gpio_pins,
            panel.call_sign == old(panel).call_sign,
            keeps_meters(*old(panel), *panel),
        decreases fields@.len() - i,
    {
        let ghost prefix = fields@.subrange(0, i + 1);
        assert(prefix.drop_last() =~= fields@.subrange(0, i as int));
        match Select::from_key(fields[i].as_str()) {
            Some(w) => {
                effects.push(Effect::Meter(false));
                if encoder_present {
                    let pos = match w {
                        Select::Tune => tune.pos,
                        Select::Ind => ind.pos,
                        Select::Load => load.pos,
                    };
                    effects.push(Effect::SetEncoderCount(pos));
                    panel.status = selected_text(w);
                    panel.sw_pos = Some(w);
                } else {
                    panel.status = String::from_str("No Encoder present! ! !");
                }
            },
            None => {},
        }
        proof {
            assert(effects@ =~= seq![Effect::EnablePin(false)] + select_effects(prefix, encoder_present, *tune, *ind, *load));
        }
        i = i + 1;
    }
    proof {
        lemma_full_subrange(fields@);
    }
    effects
}

/// The status after a band was recalled: "Recalled <band> Band ! ! !".
pub open spec fn recalled_status(b: Bands) -> Seq<char> {
    "Recalled "@ + band_key(b) + " Band ! ! !"@
}

/// The status after the motors' positions were stored for a band: "Stored <band> Band".
pub open spec fn stored_status(b: Bands) -> Seq<char> {
    "Stored "@ + band_key(b) + " Band"@
}

/// What recalling band `b` does to a motor: a motor with pins is sent to the
/// stored position (through the effect `fx`), a motor without pins takes the
/// stored position at once.
pub open spec fn recalled_motor(w: Select, b: Bands, before: Stepper, after: Stepper, fx: Option<Effect>) -> bool {
    let stored = before.mem@[band_index(b)];
    if before.pin_a is Some {
        after == before && fx == Some(Effect::MoveMotor(w, reading(stored) as u32, false))
    } else {
        after == Stepper { pos: stored, ..before } && fx is None
    }
}

/// The actions an optional action stands for.
pub open spec fn opt_effects(fx: Option<Effect>) -> Seq<Effect> {
    match fx {
        Some(e) => seq![e],
        None => Seq::<Effect>::empty(),
    }
}

fn recall_motor(w: Select, b: Bands, stepper: &mut Stepper) -> (fx: Option<Effect>)
    ensures
        recalled_motor(w, b, *old(stepper), *final(stepper), fx),
{
    let stored = stepper.recall_band(b);
    if stepper.pin_a.is_some() {
        Some(Effect::MoveMotor(w, position_reading(stored), false))
    } else {
        stepper.pos = stored;
        None
    }
}

fn push_opt(effects: &mut Vec<Effect>, fx: Option<Effect>)
    ensures
        final(effects)@ == old(effects)@ + opt_effects(fx),
{
    match fx {
        Some(e) => {
            effects.push(e);
            assert(final(effects)@ =~= old(effects)@ + opt_effects(fx));
        },
        None => {
            assert(old(effects)@ + opt_effects(fx) =~= old(effects)@);
        },
    }
}

/// The relay actions that select band `b`: every band relay off, then the one of `b` on.
pub open spec fn band_relays(btns: PwrBtns, b: Bands) -> Seq<Effect> {
    seq![
        Effect::SetRelay(btns.bands[0], false),
        Effect::SetRelay(btns.bands[1], false),
        Effect::SetRelay(btns.bands[2], false),
        Effect::SetRelay(btns.bands[3], false),
        Effect::SetRelay(btns.bands[4], false),
        Effect::SetRelay(btns.bands[band_index(b)], true),
    ]
}

/// What handling a recall request does: from panel `p0` and motors `t0`, `i0`,
/// `l0` to panel `p1` and motors `t1`, `i1`, `l1`, with the actions `r`.
pub open spec fn recall_done(p0: Panel, p1: Panel, path: Seq<char>, encoder_present: bool, btns: PwrBtns, t0: Stepper, i0: Stepper, l0: Stepper, t1: Stepper, i1: Stepper, l1: Stepper, r: Seq<Effect>) -> bool {
    &&& p1.file == p0.file
    &&& p1.gpio_pins == p0.gpio_pins
    &&& p1.call_sign == p0.call_sign
    &&& any_operating(t0, i0, l0) ==> r.len() == 0
        && p1.status@ == "Attempted to recall while motors still in motion!!"@
        && p1.sleep == p0.sleep && p1.band == p0.band
        && p1.sw_pos == p0.sw_pos
        && t1 == t0 && i1 == i0 && l1 == l0
    &&& !any_operating(t0, i0, l0) ==> p1.sleep && match band_from_path(path) {
        None => r.len() == 0 && p1.status == p0.status
            && p1.band == p0.band && p1.sw_pos == p0.sw_pos
            && t1 == t0 && i1 == i0 && l1 == l0,
        Some(b) => if !encoder_present {
            r.len() == 0 && p1.status@ == "No Encoder Present"@
                && p1.band == p0.band && p1.sw_pos == p0.sw_pos
                && t1 == t0 && i1 == i0 && l1 == l0
        } else {
            &&& exists|ft: Option<Effect>, fi: Option<Effect>, fl: Option<Effect>| {
                &&& recalled_motor(Select::Tune, b, t0, t1, ft)
                &&& recalled_motor(Select::Ind, b, i0, i1, fi)
                &&& recalled_motor(Select::Load, b, l0, l1, fl)
                &&& r == seq![Effect::Meter(false)] + band_relays(btns, b) + seq![Effect::EnablePin(false)]
                    + opt_effects(ft) + opt_effects(fi) + opt_effects(fl)
            }
            &&& p1.band == b
            &&& p1.sw_pos is None
            &&& p1.status@ == recalled_status(b)
        },
    }
}

/// Handles a request to recall the band named by `path`.
///
/// While a motor is moving nothing is recalled. Otherwise the setup is marked
/// to be saved once the motors rest; for a known band, with an encoder, the
/// meter reading stops, the band relays switch to the band, the selection is
/// cleared, the motors are enabled and each motor goes to (or, without pins,
/// takes) the position stored for the band. Without an encoder only the
/// status changes.
pub fn recall(panel: &mut Panel, path: &str, encoder_present: bool, btns: &PwrBtns, tune: &mut Stepper, ind: &mut Stepper, load: &mut Stepper) -> (r: Vec<Effect>)
    ensures
        keeps_meters(*old(panel), *final(panel)),
        recall_done(*old(panel), *final(panel), path@, encoder_present, *btns, *old(tune), *old(ind), *old(load), *final(tune), *final(ind), *final(load), r@),
{
    let mut effects: Vec<Effect> = Vec::new();
    if tune.operate || ind.operate || load.operate {
        panel.status = String::from_str("Attempted to recall while motors still in motion!!");
        return effects;
    }
    panel.sleep = true;
    let b = match Bands::from_path(path) {
        Some(b) => b,
        None => return effects,
    };
    if !encoder_present {
        panel.status = String::from_str("No Encoder Present");
        return effects;
    }
    effects.push(Effect::Meter(false));
    let mut k: usize = 0;
    while k < 5
        invariant
            k <= 5,
            effects@ == seq![Effect::Meter(false)] + band_relays(*btns, b).subrange(0, k as int),
        decreases 5 - k,
    {
        effects.push(Effect::SetRelay(btns.bands[k], false));
        proof {
            assert(band_relays(*btns, b).subrange(0, k + 1) =~= band_relays(*btns, b).subrange(0, k as int).push(Effect::SetRelay(btns.bands[k as int], false)));
        }
        k = k + 1;
    }
    effects.push(Effect::SetRelay(btns.bands[b.index()], true));
    panel.band = b;
    panel.sw_pos = None;
    panel.sleep = true;
    effects.push(Effect::EnablePin(false));
    let ghost head = effects@;
    assert(head =~= seq![Effect::Meter(false)] + band_relays(*btns, b) + seq![Effect::EnablePin(false)]);
    let ft = recall_motor(Select::Tune, b, tune);
    push_opt(&mut effects, ft);
    let fi = recall_motor(Select::Ind, b, ind);
    push_opt(&mut effects, fi);
    let fl = recall_motor(Select::Load, b, load);
    push_opt(&mut effects, fl);
    let mut t = String::from_str("Recalled ");
    t.append(b.mem_key());
    t.append(" Band ! ! !");
    panel.status = t;
    effects
}

/// What handling a store request does: from panel `p0` and motors `t0`, `i0`,
/// `l0` to panel `p1` and motors `t1`, `i1`, `l1`.
pub open spec fn store_done(p0: Panel, p1: Panel, path: Seq<char>, t0: Stepper, i0: Stepper, l0: Stepper, t1: Stepper, i1: Stepper, l1: Stepper) -> bool {
    &&& p1.sw_pos == p0.sw_pos
    &&& p1.band == p0.band
    &&& p1.sleep == p0.sleep
    &&& p1.file == p0.file
    &&& p1.gpio_pins == p0.gpio_pins
    &&& p1.call_sign == p0.call_sign
    &&& match band_from_path(path) {
        None => p1.status == p0.status && t1 == t0 && i1 == i0 && l1 == l0,
        Some(b) => p1.status@ == stored_status(b)
            && stored_into(b, t0, t1)
            && stored_into(b, i0, i1)
            && stored_into(b, l0, l1),
    }
}

/// Handles a request to store the motors' positions for the band named by
/// `path`: for a known band each motor's position goes into its memory for
/// that band and the status says so; otherwise nothing changes.
pub fn store(panel: &mut Panel, path: &str, tune: &mut Stepper, ind: &mut Stepper, load: &mut Stepper)
    ensures
        keeps_meters(*old(panel), *final(panel)),
        store_done(*old(panel), *final(panel), path@, *old(tune), *old(ind), *old(load), *final(tune), *final(ind), *final(load)),
{
    match Bands::from_path(path) {
        Some(b) => {
            tune.store_band(b);
            ind.store_band(b);
            load.store_band(b);
            let mut t = String::from_str("Stored ");
            t.append(b.mem_key());
            t.append(" Band");
            panel.status = t;
        },
        None => {},
    }
}

/// A motor after its position was stored into its memory for band `b`.
pub open spec fn stored_into(b: Bands, before: Stepper, after: Stepper) -> bool {
    after == Stepper { mem: after.mem, ..before } && after.mem@ == before.mem@.update(band_index(b), before.pos)
}



/// Storing a band and later recalling it brings every motor back to the position
/// it had when the band was stored. `path` names the band in the store request
/// and `recall_path` names the same band in the recall request; in between,
/// anything may have happened to the motors except a change of their memory for
/// that band. When the recall comes with an encoder present and no motor moving,
/// every motor without pins takes its stored position at once, and every motor
/// with pins is sent there. A recall that comes while a motor moves is refused:
/// no motor changes and nothing is sent.
pub proof fn store_then_recall(
    sp0: Panel, sp1: Panel, path: Seq<char>,
    t0: Stepper, i0: Stepper, l0: Stepper, t1: Stepper, i1: Stepper, l1: Stepper,
    rp0: Panel, rp1: Panel, recall_path: Seq<char>, btns: PwrBtns,
    rt: Stepper, ri: Stepper, rl: Stepper, ft: Stepper, fi: Stepper, fl: Stepper, fx: Seq<Effect>,
)
    requires
        store_done(sp0, sp1, path, t0, i0, l0, t1, i1, l1),
        band_from_path(path) is Some,
        band_from_path(recall_path) == band_from_path(path),
        rt.mem@[band_index(band_from_path(path)->0)] == t1.mem@[band_index(band_from_path(path)->0)],
        ri.mem@[band_index(band_from_path(path)->0)] == i1.mem@[band_index(band_from_path(path)->0)],
        rl.mem@[band_index(band_from_path(path)->0)] == l1.mem@[band_index(band_from_path(path)->0)],
        recall_done(rp0, rp1, recall_path, true, btns, rt, ri, rl, ft, fi, fl, fx),
    ensures
        any_operating(rt, ri, rl) ==> ft == rt && fi == ri && fl == rl && fx.len() == 0,
        !any_operating(rt, ri, rl) && rt.pin_a is None ==> ft.pos == t0.pos,
        !any_operating(rt, ri, rl) && ri.pin_a is None ==> fi.pos == i0.pos,
        !any_operating(rt, ri, rl) && rl.pin_a is None ==> fl.pos == l0.pos,
        !any_operating(rt, ri, rl) && rt.pin_a is Some ==> ft == rt && fx.contains(Effect::MoveMotor(Select::Tune, reading(t0.pos) as u32, false)),
        !any_operating(rt, ri, rl) && ri.pin_a is Some ==> fi == ri && fx.contains(Effect::MoveMotor(Select::Ind, reading(i0.pos) as u32, false)),
        !any_operating(rt, ri, rl) && rl.pin_a is Some ==> fl == rl && fx.contains(Effect::MoveMotor(Select::Load, reading(l0.pos) as u32, false)),
{
    if !any_operating(rt, ri, rl) {
        let b = band_from_path(path)->0;
        let k = band_index(b);
        assert(t1.mem@[k] == t0.pos && i1.mem@[k] == i0.pos && l1.mem@[k] == l0.pos);
        let (et, ei, el) = choose|et: Option<Effect>, ei: Option<Effect>, el: Option<Effect>| {
            &&& recalled_motor(Select::Tune, b, rt, ft, et)
            &&& recalled_motor(Select::Ind, b, ri, fi, ei)
            &&& recalled_motor(Select::Load, b, rl, fl, el)
            &&& fx == seq![Effect::Meter(false)] + band_relays(btns, b) + seq![Effect::EnablePin(false)]
                + opt_effects(et) + opt_effects(ei) + opt_effects(el)
        };
        let head = seq![Effect::Meter(false)] + band_relays(btns, b) + seq![Effect::EnablePin(false)];
        assert(head.len() == 8);
        let n0: int = opt_effects(et).len() as int;
        let n1: int = opt_effects(ei).len() as int;
        if rt.pin_a is Some {
            assert(fx[8] == Effect::MoveMotor(Select::Tune, reading(t0.pos) as u32, false));
        }
        if ri.pin_a is Some {
            assert(fx[8 + n0] == Effect::MoveMotor(Select::Ind, reading(i0.pos) as u32, false));
        }
        if rl.pin_a is Some {
            assert(fx[8 + n0 + n1] == Effect::MoveMotor(Select::Load, reading(l0.pos) as u32, false));
        }
    }
}

/// The profile `data` that saving writes for the encoder `enc`, the motors
/// `tune`, `ind` and `load`, the band `band` and the call sign `call_sign`.
pub open spec fn saved_profile(data: StoredData, enc: Encoder, tune: Stepper, ind: Stepper, load: Stepper, band: Bands, call_sign: Seq<char>) -> bool {
    &&& data.enc.pin_a == Some(enc.pin_a as u32) && data.enc.pin_b == Some(enc.pin_b as u32)
    &&& data.tune == record_of(tune) && data.ind == record_of(ind) && data.load == record_of(load)
    &&& data.mem.tune matches Some(m) && m@ == memories_of(tune)@
    &&& data.mem.ind matches Some(m) && m@ == memories_of(ind)@
    &&& data.mem.load matches Some(m) && m@ == memories_of(load)@
    &&& data.band == band
    &&& data.call_sign@ == call_sign
}

/// Starts saving the setup: the save mark and the selection are cleared, the
/// motors are disabled, and the profile to write is returned.
pub fn sleep_save(panel: &mut Panel, enc: &Encoder, tune: &Stepper, ind: &Stepper, load: &Stepper) -> (r: (Vec<Effect>, StoredData))
    ensures
        keeps_meters(*old(panel), *final(panel)),
        !final(panel).sleep,
        final(panel).sw_pos is None,
        final(panel).band == old(panel).band,
        final(panel).file == old(panel).file,
        final(panel).status == old(panel).status,
        final(panel).gpio_pins == old(panel).gpio_pins,
        final(panel).call_sign == old(panel).call_sign,
        r.0@ == seq![Effect::EnablePin(true)],
        saved_profile(r.1, *enc, *tune, *ind, *load, old(panel).band, old(panel).call_sign@),
{
    panel.sleep = false;
    panel.sw_pos = None;
    let mut effects: Vec<Effect> = Vec::new();
    effects.push(Effect::EnablePin(true));
    let data = snapshot(enc, tune, ind, load, panel.band, &panel.call_sign);
    (effects, data)
}

/// Finishes a save once the profile was written: the status says so and the
/// meter reading resumes.
pub fn save_written(panel: &mut Panel) -> (r: Vec<Effect>)
    ensures
        keeps_meters(*old(panel), *final(panel)),
        final(panel).status@ == "All data successfully saved !"@,
        final(panel).sw_pos == old(panel).sw_pos,
        final(panel).band == old(panel).band,
        final(panel).sleep == old(panel).sleep,
        final(panel).file == old(panel).file,
        final(panel).gpio_pins == old(panel).gpio_pins,
        final(panel).call_sign == old(panel).call_sign,
        r@ == seq![Effect::Meter(true)],
{
    panel.status = String::from_str("All data successfully saved !");
    let mut effects: Vec<Effect> = Vec::new();
    effects.push(Effect::Meter(true));
    effects
}

/// How many quiet ticks in a row are waited for before a marked setup is saved.
pub const SAVE_AFTER_TICKS: u32 = 10;

/// Whether a tick, given as (some motor moving, setup marked to be saved), is a
/// quiet tick that counts towards a save.
pub open spec fn quiet_tick(t: (bool, bool)) -> bool {
    !t.0 && t.1
}

/// The idle counter and the save decision after one tick from counter `count`.
pub open spec fn tick_step(count: int, t: (bool, bool)) -> (int, bool) {
    if quiet_tick(t) {
        if count + 1 >= SAVE_AFTER_TICKS {
            (0, true)
        } else {
            (count + 1, false)
        }
    } else {
        (0, false)
    }
}

/// The idle counter after a run of ticks, counted from zero.
pub open spec fn count_after_ticks(ticks: Seq<(bool, bool)>) -> int
    decreases ticks.len(),
{
    if ticks.len() == 0 {
        0
    } else {
        tick_step(count_after_ticks(ticks.drop_last()), ticks.last()).0
    }
}

/// Whether the last tick of a run asks for a save.
pub open spec fn saves_on_last_tick(ticks: Seq<(bool, bool)>) -> bool {
    ticks.len() > 0 && tick_step(count_after_ticks(ticks.drop_last()), ticks.last()).1
}

/// The number of quiet ticks in a row at the end of a run.
pub open spec fn quiet_streak(ticks: Seq<(bool, bool)>) -> nat
    decreases ticks.len(),
{
    if ticks.len() == 0 {
        0
    } else if quiet_tick(ticks.last()) {
        quiet_streak(ticks.drop_last()) + 1
    } else {
        0
    }
}

/// Over any run of ticks from a fresh counter, the counter holds the number of
/// quiet ticks in a row at the end of the run since the last save, and a tick
/// asks for a save exactly when it is quiet and ends a streak of quiet ticks
/// whose length is a multiple of `SAVE_AFTER_TICKS`: the tenth, twentieth, ...
/// quiet tick in a row. A moving or unmarked tick resets the count.
pub proof fn idle_ticks_save_every_tenth(ticks: Seq<(bool, bool)>)
    ensures
        count_after_ticks(ticks) == (quiet_streak(ticks) as int) % (SAVE_AFTER_TICKS as int),
        saves_on_last_tick(ticks) <==> (quiet_streak(ticks) > 0 && (quiet_streak(ticks) as int) % (SAVE_AFTER_TICKS as int) == 0),
    decreases ticks.len(),
{
    if ticks.len() > 0 {
        let prev = ticks.drop_last();
        idle_ticks_save_every_tenth(prev);
        let s = quiet_streak(prev);
        assert(count_after_ticks(prev) == s % 10);
        if quiet_tick(ticks.last()) {
            assert(quiet_streak(ticks) == s + 1);
            if s % 10 == 9 {
                assert((s + 1) % 10 == 0);
            } else {
                assert((s + 1) % 10 == s % 10 + 1);
            }
        }
    }
}

/// One tick of the idle counter: while the setup is marked to be saved and no
/// motor moves, the counter counts up, and on reaching `SAVE_AFTER_TICKS` it
/// asks for a save and starts again; any other tick resets it. Returns the new
/// counter and whether to save.
pub fn sleep_tick(count: u32, any_moving: bool, sleep: bool) -> (r: (u32, bool))
    requires
        count < SAVE_AFTER_TICKS,
    ensures
        r.0 < SAVE_AFTER_TICKS,
        (!any_moving && sleep && count + 1 >= SAVE_AFTER_TICKS) ==> r == (0u32, true),
        (!any_moving && sleep && count + 1 < SAVE_AFTER_TICKS) ==> r == ((count + 1) as u32, false),
        (any_moving || !sleep) ==> r == (0u32, false),
        (r.0 as int, r.1) == tick_step(count as int, (any_moving, sleep)),
{
    if !any_moving && sleep {
        let c = count + 1;
        if c >= SAVE_AFTER_TICKS {
            (0, true)
        } else {
            (c, false)
        }
    } else {
        (0, false)
    }
}

/// What the encoder's count does on a tick of the display task.
#[derive(Clone, Copy, Debug, PartialEq, Eq, Structural)]
pub enum EncoderOutcome {
    /// Nothing to do.
    Idle,
    /// The count fell below zero: set it back to zero.
    ResetEncoder,
    /// Send the selected motor's worker this target under manual control.
    Send(Select, u32),
    /// The selected motor has no pins: it took the count as its position.
    Moved(Select),
}

/// What the count `value` does to the selected motor: a non-negative count
/// strictly between zero and the motor's maximum less one drives it (through
/// its worker, or directly when it has no pins); a negative count is reset.
pub open spec fn encoder_outcome(value: i32, sw_pos: Option<Select>, tune: Stepper, ind: Stepper, load: Stepper) -> EncoderOutcome {
    if value < 0 {
        EncoderOutcome::ResetEncoder
    } else {
        match sw_pos {
            None => EncoderOutcome::Idle,
            Some(w) => {
                let m = motor(w, tune, ind, load);
                if value < m.max - 1 && value > 0 {
                    if m.pin_a is Some {
                        EncoderOutcome::Send(w, value as u32)
                    } else {
                        EncoderOutcome::Moved(w)
                    }
                } else {
                    EncoderOutcome::Idle
                }
            },
        }
    }
}

/// Applies the encoder's count to the selected motor on a tick of the display task.
pub fn encoder_tick(value: i32, sw_pos: Option<Select>, tune: &mut Stepper, ind: &mut Stepper, load: &mut Stepper) -> (r: EncoderOutcome)
    requires
        sw_pos matches Some(w) ==> motor(w, *old(tune), *old(ind), *old(load)).max > i32::MIN,
    ensures
        r == encoder_outcome(value, sw_pos, *old(tune), *old(ind), *old(load)),
        *final(tune) == (if r == EncoderOutcome::Moved(Select::Tune) { Stepper { pos: value, ..*old(tune) } } else { *old(tune) }),
        *final(ind) == (if r == EncoderOutcome::Moved(Select::Ind) { Stepper { pos: value, ..*old(ind) } } else { *old(ind) }),
        *final(load) == (if r == EncoderOutcome::Moved(Select::Load) { Stepper { pos: value, ..*old(load) } } else { *old(load) }),
{
    if value < 0 {
        return EncoderOutcome::ResetEncoder;
    }
    match sw_pos {
        None => EncoderOutcome::Idle,
        Some(w) => {
            let m: &mut Stepper = match w {
                Select::Tune => tune,
                Select::Ind => ind,
                Select::Load => load,
            };
            if value < m.max - 1 && value > 0 {
                if m.pin_a.is_some() {
                    EncoderOutcome::Send(w, value as u32)
                } else {
                    m.pos = value;
                    EncoderOutcome::Moved(w)
                }
            } else {
                EncoderOutcome::Idle
            }
        },
    }
}

/// The encoder only ever drives the selected motor to a position strictly
/// inside its range: above zero and below its maximum less one.
pub proof fn encoder_stays_in_range(value: i32, sw_pos: Option<Select>, tune: Stepper, ind: Stepper, load: Stepper)
    ensures
        encoder_outcome(value, sw_pos, tune, ind, load) matches EncoderOutcome::Send(w, t) ==> 0 < t
            && t < motor(w, tune, ind, load).max - 1 && sw_pos == Some(w),
        encoder_outcome(value, sw_pos, tune, ind, load) matches EncoderOutcome::Moved(w) ==> 0 < value
            && value < motor(w, tune, ind, load).max - 1 && sw_pos == Some(w),
{
}


/// What a press of a power switch asks for.
#[derive(Clone, Copy, Debug, PartialEq, Eq, Structural)]
pub enum PowerCommand {
    /// Nothing: no switch named, or an unknown switch.
    Nothing,
    /// Drive a relay and show a status: the blower (`true`) or the operate relay.
    Relay(McpPin, bool, bool),
    /// Step-start a supply through its two relays: the filament (`true`) or the high voltage.
    StepStart(McpPin, McpPin, bool),
}

/// The power command a switch form asks for: the "ID" field names the switch
/// ("Blwr", "Fil", "HV", "Oper"); an "ID" without a "value" is an error.
pub open spec fn power_command(form: FormData, btns: PwrBtns) -> Result<PowerCommand, ConfigError> {
    match form.lookup("ID"@) {
        None => Ok(PowerCommand::Nothing),
        Some(id) => match form.lookup("value"@) {
            None => Err(ConfigError::MissingField),
            Some(v) => if id == "Blwr"@ {
                Ok(PowerCommand::Relay(btns.Blwr[0], v == "ON"@, true))
            } else if id == "Fil"@ {
                Ok(PowerCommand::StepStart(btns.Fil[0], btns.Fil[1], true))
            } else if id == "HV"@ {
                Ok(PowerCommand::StepStart(btns.HV[0], btns.HV[1], false))
            } else if id == "Oper"@ {
                Ok(PowerCommand::Relay(btns.Oper[0], v == "ON"@, false))
            } else {
                Ok(PowerCommand::Nothing)
            },
        },
    }
}

/// A press of the blower or the operate switch drives that switch's relay, high
/// exactly when the pressed value is "ON" and low for any other value (such as
/// "OFF").
pub proof fn relay_level_follows_value(form: FormData, btns: PwrBtns)
    requires
        form.lookup("ID"@) == Some("Blwr"@) || form.lookup("ID"@) == Some("Oper"@),
        form.lookup("value"@) is Some,
    ensures
        power_command(form, btns) matches Ok(PowerCommand::Relay(pin, level, blower)) && {
            &&& level == (form.lookup("value"@)->0 == "ON"@)
            &&& blower == (form.lookup("ID"@) == Some("Blwr"@))
            &&& pin == (if blower { btns.Blwr[0] } else { btns.Oper[0] })
        },
{
    reveal_strlit("Blwr");
    reveal_strlit("Fil");
    reveal_strlit("HV");
    reveal_strlit("Oper");
    assert("Oper"@ != "Blwr"@ && "Oper"@ != "Fil"@ && "Oper"@ != "HV"@) by {
        assert("Oper"@[0] != "Blwr"@[0]);
        assert("Oper"@.len() != "Fil"@.len() && "Oper"@.len() != "HV"@.len());
    }
}

/// A press of the filament or the high-voltage switch starts that switch's
/// step start on its own two relays, whatever the pressed value; only the
/// filament's is marked as the filament's.
pub proof fn step_start_uses_the_pressed_switch(form: FormData, btns: PwrBtns)
    requires
        form.lookup("ID"@) == Some("Fil"@) || form.lookup("ID"@) == Some("HV"@),
        form.lookup("value"@) is Some,
    ensures
        power_command(form, btns) matches Ok(PowerCommand::StepStart(first, second, filament)) && {
            &&& filament == (form.lookup("ID"@) == Some("Fil"@))
            &&& first == (if filament { btns.Fil[0] } else { btns.HV[0] })
            &&& second == (if filament { btns.Fil[1] } else { btns.HV[1] })
        },
{
    reveal_strlit("Blwr");
    reveal_strlit("Fil");
    reveal_strlit("HV");
    assert("Fil"@ != "Blwr"@ && "HV"@ != "Blwr"@ && "HV"@ != "Fil"@) by {
        assert("Fil"@.len() != "Blwr"@.len() && "HV"@.len() != "Blwr"@.len() && "HV"@.len() != "Fil"@.len());
    }
}

/// Decides what a press of a power switch asks for.
pub fn power_request(form: &FormData, btns: &PwrBtns) -> (r: Result<PowerCommand, ConfigError>)
    ensures
        r == power_command(*form, *btns),
{
    let id = match form.get("ID") {
        Some(id) => id,
        None => return Ok(PowerCommand::Nothing),
    };
    let v = match form.get("value") {
        Some(v) => v,
        None => return Err(ConfigError::MissingField),
    };
    let on = str_eq(v.as_str(), "ON");
    if str_eq(id.as_str(), "Blwr") {
        Ok(PowerCommand::Relay(btns.Blwr[0], on, true))
    } else if str_eq(id.as_str(), "Fil") {
        Ok(PowerCommand::StepStart(btns.Fil[0], btns.Fil[1], true))
    } else if str_eq(id.as_str(), "HV") {
        Ok(PowerCommand::StepStart(btns.HV[0], btns.HV[1], false))
    } else if str_eq(id.as_str(), "Oper") {
        Ok(PowerCommand::Relay(btns.Oper[0], on, false))
    } else {
        Ok(PowerCommand::Nothing)
    }
}

/// The status after the blower or the operate relay was switched.
pub open spec fn relay_status(blower: bool, on: bool) -> Seq<char> {
    if blower {
        if on { "Blower ON"@ } else { "Blower OFF"@ }
    } else {
        if on { "Operate"@ } else { "Standby"@ }
    }
}

/// Sets the status after the blower (`blower`) or the operate relay was switched on or off.
pub fn relay_switched(panel: &mut Panel, blower: bool, on: bool)
    ensures
        keeps_meters(*old(panel), *final(panel)),
        final(panel).status@ == relay_status(blower, on),
        final(panel).sw_pos == old(panel).sw_pos,
        final(panel).band == old(panel).band,
        final(panel).sleep == old(panel).sleep,
        final(panel).file == old(panel).file,
        final(panel).gpio_pins == old(panel).gpio_pins,
        final(panel).call_sign == old(panel).call_sign,
{
    panel.status = if blower {
        if on { String::from_str("Blower ON") } else { String::from_str("Blower OFF") }
    } else {
        if on { String::from_str("Operate") } else { String::from_str("Standby") }
    };
}

/// The name a supply is reported under in a step start ("Filament" or "HV").
pub open spec fn supply_name(filament: bool) -> Seq<char> {
    if filament { "Filament"@ } else { "HV"@ }
}

/// The status when the first relay of a supply could not be read.
pub open spec fn step_start_error_status(filament: bool) -> Seq<char> {
    if filament { "Error is Fil Step start"@ } else { "Error is HV Step start"@ }
}

/// The status shown when the first relay of a supply could not be read.
pub fn step_start_error(filament: bool) -> (r: String)
    ensures
        r@ == step_start_error_status(filament),
{
    if filament {
        String::from_str("Error is Fil Step start")
    } else {
        String::from_str("Error is HV Step start")
    }
}

/// The levels a step start drives and the status it leaves.
#[derive(Clone, Debug)]
pub struct StepStartPlan {
    /// The level of the first relay.
    pub first_high: bool,
    /// The level of the second (delayed) relay, when the form says how to set it.
    pub second_high: Option<bool>,
    pub status: String,
}

/// The status of a step start of the supply `name` with the action `action`
/// and the delay switch `delay`, when the first relay read `was_high`.
pub open spec fn step_start_status(name: Seq<char>, action: Seq<char>, delay: Seq<char>, was_high: bool) -> Seq<char> {
    if action == "ON"@ && delay == "OFF"@ {
        name + " Step Start !!!"@
    } else if was_high && delay == "ON"@ {
        name + "  ON ! ! !"@
    } else {
        name + " Shutting Down..."@
    }
}

/// Plans a step start of a supply from its switch form, given the level its
/// first relay read before: the first relay follows the action ("ON" or not);
/// with a "delay" field, the second relay goes on only when the delay is "ON"
/// and the first relay was already on, and the status reports a step start, a
/// supply fully on, or a shutdown. Without a "delay" field the status stays.
pub fn step_start(form: &FormData, filament: bool, was_high: bool, status: &String) -> (r: Result<StepStartPlan, ConfigError>)
    ensures
        form.lookup("value"@) is None ==> r == Err::<StepStartPlan, ConfigError>(ConfigError::MissingField),
        form.lookup("value"@) matches Some(action) ==> r matches Ok(plan) && plan.first_high == (action == "ON"@)
            && match form.lookup("delay"@) {
                None => plan.second_high is None && plan.status@ == status@,
                Some(d) => plan.second_high == Some(d == "ON"@ && was_high)
                    && plan.status@ == step_start_status(supply_name(filament), action, d, was_high),
            },
{
    let action = match form.get("value") {
        Some(a) => a,
        None => return Err(ConfigError::MissingField),
    };
    let on = str_eq(action.as_str(), "ON");
    let name = if filament { "Filament" } else { "HV" };
    match form.get("delay") {
        None => Ok(StepStartPlan { first_high: on, second_high: None, status: status.clone() }),
        Some(d) => {
            let delay_on = str_eq(d.as_str(), "ON");
            let mut t = String::from_str(name);
            if on && str_eq(d.as_str(), "OFF") {
                t.append(" Step Start !!!");
            } else if was_high && delay_on {
                t.append("  ON ! ! !");
            } else {
                t.append(" Shutting Down...");
            }
            Ok(StepStartPlan { first_high: on, second_high: Some(delay_on && was_high), status: t })
        },
    }
}

/// Sets the meter readings; the plate voltage is kept multiplied by 100.
pub fn set_gauges(panel: &mut Panel, plate_a: u32, plate_v: u32, screen_a: u32, grid_a: u32)
    requires
        plate_v * 100 <= u32::MAX,
    ensures
        final(panel).gauges.plate_a == plate_a,
        final(panel).gauges.plate_v == plate_v * 100,
        final(panel).gauges.screen_a == screen_a,
        final(panel).gauges.grid_a == grid_a,
        final(panel).sw_pos == old(panel).sw_pos,
        final(panel).band == old(panel).band,
        final(panel).sleep == old(panel).sleep,
        final(panel).status == old(panel).status,
        final(panel).file == old(panel).file,
        final(panel).gpio_pins == old(panel).gpio_pins,
        final(panel).call_sign == old(panel).call_sign,
        final(panel).pwr_btns_state == old(panel).pwr_btns_state,
{
    panel.gauges.plate_a = plate_a;
    panel.gauges.plate_v = plate_v * 100;
    panel.gauges.screen_a = screen_a;
    panel.gauges.grid_a = grid_a;
}


/// The row the configuration page shows for a motor: its pins and ratio, or
/// "None", "None", "1" when it has no pins.
pub open spec fn motor_row(s: Stepper) -> Seq<Seq<char>> {
    match s.pin_a {
        Some(a) => seq![decimal(a as nat), decimal(s.pin_b->0 as nat), decimal(s.ratio as nat)],
        None => seq!["None"@, "None"@, "1"@],
    }
}

/// The row the configuration page shows for the encoder.
pub open spec fn encoder_row(encoder: Option<(u8, u8)>) -> Seq<Seq<char>> {
    match encoder {
        Some((a, b)) => seq![decimal(a as nat), decimal(b as nat)],
        None => seq!["None"@, "None"@],
    }
}

/// The names among `names` that end in "json", in order.
pub open spec fn json_names(names: Seq<String>) -> Seq<Seq<char>>
    decreases names.len(),
{
    if names.len() == 0 {
        Seq::<Seq<char>>::empty()
    } else if ends_with_spec(names.last()@, "json"@) {
        json_names(names.drop_last()).push(names.last()@)
    } else {
        json_names(names.drop_last())
    }
}

/// The texts of a list of strings.
pub open spec fn texts(v: Seq<String>) -> Seq<Seq<char>> {
    v.map_values(|t: String| t@)
}

fn motor_row_texts(s: &Stepper) -> (r: Vec<String>)
    requires
        s.pin_a is Some ==> s.pin_b is Some,
    ensures
        texts(r@) == motor_row(*s),
{
    let mut v: Vec<String> = Vec::new();
    match s.pin_a {
        Some(a) => {
            v.push(decimal_string(a as u32));
            v.push(decimal_string(s.pin_b.unwrap() as u32));
            v.push(decimal_string(s.ratio as u32));
        },
        None => {
            v.push(String::from_str("None"));
            v.push(String::from_str("None"));
            v.push(String::from_str("1"));
        },
    }
    assert(texts(v@) =~= motor_row(*s));
    v
}

/// Builds the configuration page: whether an encoder is configured and on
/// which pins, each motor's pins and ratio, the profile files (the names that
/// end in "json") and the free GPIO pins.
pub fn config_page(encoder: Option<(u8, u8)>, tune: &Stepper, ind: &Stepper, load: &Stepper, file_names: &Vec<String>, pins: &Vec<u8>) -> (r: ConfigTemplate)
    requires
        tune.pin_a is Some ==> tune.pin_b is Some,
        ind.pin_a is Some ==> ind.pin_b is Some,
        load.pin_a is Some ==> load.pin_b is Some,
    ensures
        r.enc == encoder is Some,
        texts(r.enc_val@) == encoder_row(encoder),
        texts(r.tune@) == motor_row(*tune),
        texts(r.ind@) == motor_row(*ind),
        texts(r.load@) == motor_row(*load),
        texts(r.files@) == json_names(file_names@),
        r.pins@ == pins@,
{
    let mut enc_val: Vec<String> = Vec::new();
    match encoder {
        Some((a, b)) => {
            enc_val.push(decimal_string(a as u32));
            enc_val.push(decimal_string(b as u32));
        },
        None => {
            enc_val.push(String::from_str("None"));
            enc_val.push(String::from_str("None"));
        },
    }
    assert(texts(enc_val@) =~= encoder_row(encoder));
    let mut files: Vec<String> = Vec::new();
    let mut i: usize = 0;
    while i < file_names.len()
        invariant
            i <= file_names@.len(),
            texts(files@) == json_names(file_names@.subrange(0, i as int)),
        decreases file_names@.len() - i,
    {
        let ghost prefix = file_names@.subrange(0, i + 1);
        assert(prefix.drop_last() =~= file_names@.subrange(0, i as int));
        let name = &file_names[i];
        if ends_with(name.as_str(), "json") {
            files.push(name.clone());
            assert(texts(files@) =~= json_names(prefix));
        }
        i = i + 1;
    }
    proof {
        lemma_full_subrange(file_names@);
    }
    let pins_copy = pins.clone();
    assert(pins_copy@ =~= pins@);
    ConfigTemplate {
        enc: encoder.is_some(),
        enc_val,
        tune: motor_row_texts(tune),
        ind: motor_row_texts(ind),
        load: motor_row_texts(load),
        pins: pins_copy,
        files,
    }
}

/// What the profile form asks for.
#[derive(Clone, Debug)]
pub enum ProfileAction {
    /// Load the profile file of this name.
    Load(String),
    /// Save the setup to the profile file of this name.
    SaveAs(String),
    Nothing,
}

/// Decides what the profile form asks for: a "files" field together with a
/// "load" field loads the named file; otherwise a "file_name" field saves to
/// that name with ".json" appended.
pub fn profile_action(form: &FormData) -> (r: ProfileAction)
    ensures
        (form.lookup("files"@) is Some && form.lookup("load"@) is Some) ==> (r matches ProfileAction::Load(f)
            && f@ == form.lookup("files"@)->0),
        !(form.lookup("files"@) is Some && form.lookup("load"@) is Some) && form.lookup("file_name"@) is Some
            ==> (r matches ProfileAction::SaveAs(f) && f@ == form.lookup("file_name"@)->0 + ".json"@),
        !(form.lookup("files"@) is Some && form.lookup("load"@) is Some) && form.lookup("file_name"@) is None
            ==> r matches ProfileAction::Nothing,
{
    if form.contains_key("files") && form.contains_key("load") {
        ProfileAction::Load(form.get("files").unwrap())
    } else if let Some(name) = form.get("file_name") {
        let mut f = name;
        f.append(".json");
        ProfileAction::SaveAs(f)
    } else {
        ProfileAction::Nothing
    }
}

/// Makes `file` the profile that saves go to and says so.
pub fn save_as(panel: &mut Panel, file: String)
    ensures
        keeps_meters(*old(panel), *final(panel)),
        final(panel).file@ == file@,
        final(panel).status@ == "Saved data to: "@ + file@,
        final(panel).sw_pos == old(panel).sw_pos,
        final(panel).band == old(panel).band,
        final(panel).sleep == old(panel).sleep,
        final(panel).gpio_pins == old(panel).gpio_pins,
        final(panel).call_sign == old(panel).call_sign,
{
    let mut t = String::from_str("Saved data to: ");
    t.append(file.as_str());
    panel.status = t;
    panel.file = file;
}

/// The actions that release a motor: its worker is stopped when it has pins.
pub open spec fn release_effects(w: Select, before: Stepper) -> Seq<Effect> {
    if before.pin_a is Some {
        seq![Effect::StopMotor(w, reading(before.pos) as u32)]
    } else {
        Seq::<Effect>::empty()
    }
}

/// The free-pin list after a motor was released: its pins are given back.
pub open spec fn released_pins(s: Seq<u8>, before: Stepper) -> Seq<u8> {
    match (before.pin_a, before.pin_b) {
        (Some(a), Some(b)) => pins_after(pins_after(s, a, false), b, false),
        _ => s,
    }
}

/// The band memories a profile holds for the motor `w` (kept under the motor's name).
pub open spec fn memories_for(mem: crate::data::MemRecord, w: Select) -> Option<[Option<u32>; 5]> {
    match w {
        Select::Tune => mem.tune,
        Select::Ind => mem.ind,
        Select::Load => mem.load,
    }
}

/// Whether a motor record has every key that loading needs.
pub open spec fn complete_record(rec: StepperRecord) -> bool {
    rec.ratio is Some && rec.max is Some && rec.pos is Some
}

/// A motor that was released before its record turned out to be unusable: its
/// pins are given back and it keeps everything else but its ratio.
pub open spec fn motor_released(p0: Panel, p1: Panel, w: Select, before: Stepper, after: Stepper) -> bool {
    &&& p1.gpio_pins@ == released_pins(p0.gpio_pins@, before)
    &&& p1.status@ == deleted_status(select_key(w))
    &&& before.pin_a is None ==> after == before
    &&& before.pin_a is Some ==> after.pin_a is None && after.pin_b is None && after.ratio == 1 && same_but_pins(after, before)
}

/// What loading one motor from a profile does: it is released, then takes the
/// record and band memories, and its worker starts when it now has pins.
pub open spec fn motor_loaded(p0: Panel, p1: Panel, w: Select, before: Stepper, after: Stepper, rec: StepperRecord, mem: crate::data::MemRecord, r: Result<Vec<Effect>, ConfigError>) -> bool {
    if before.pin_a is Some && before.pin_b is None {
        &&& r == Err::<Vec<Effect>, ConfigError>(ConfigError::UnpairedPin)
        &&& after == before
        &&& p1.gpio_pins@ == p0.gpio_pins@
        &&& p1.status == p0.status
    } else if !complete_record(rec) {
        &&& r == Err::<Vec<Effect>, ConfigError>(ConfigError::MissingField)
        &&& motor_released(p0, p1, w, before, after)
    } else if memories_for(mem, w) is None {
        &&& r == Err::<Vec<Effect>, ConfigError>(ConfigError::MissingMemory)
        &&& motor_released(p0, p1, w, before, after)
    } else {
        &&& r matches Ok(fx) && fx@ == release_effects(w, before) + (if rec.pin_a is Some {
            seq![Effect::StartMotor(w)]
        } else {
            Seq::<Effect>::empty()
        })
        &&& loaded_from(after, before, rec, memories_for(mem, w)->0)
        &&& p1.gpio_pins@ == released_pins(p0.gpio_pins@, before)
        &&& p1.status@ == deleted_status(select_key(w))
    }
}

fn memories_of_motor(mem: &crate::data::MemRecord, w: Select) -> (r: Option<[Option<u32>; 5]>)
    ensures
        r == memories_for(*mem, w),
{
    match w {
        Select::Tune => mem.tune,
        Select::Ind => mem.ind,
        Select::Load => mem.load,
    }
}

fn load_motor(panel: &mut Panel, form: &FormData, w: Select, stepper: &mut Stepper, rec: &StepperRecord, mem: &crate::data::MemRecord) -> (r: Result<Vec<Effect>, ConfigError>)
    requires
        old(stepper).name@ == select_key(w),
    ensures
        keeps_meters(*old(panel), *final(panel)),
        final(stepper).name@ == select_key(w),
        motor_loaded(*old(panel), *final(panel), w, *old(stepper), *final(stepper), *rec, *mem, r),
        final(panel).sw_pos == old(panel).sw_pos,
        final(panel).band == old(panel).band,
        final(panel).file == old(panel).file,
        final(panel).sleep == old(panel).sleep,
        final(panel).call_sign == old(panel).call_sign,
{
    let mut effects = match handle_stepper(panel, form, w, false, stepper) {
        Ok(fx) => fx,
        Err(e) => return Err(e),
    };
    if rec.ratio.is_none() || rec.max.is_none() || rec.pos.is_none() {
        return Err(ConfigError::MissingField);
    }
    let m = match memories_of_motor(mem, w) {
        Some(m) => m,
        None => return Err(ConfigError::MissingMemory),
    };
    let ghost released = effects@;
    assert(released =~= release_effects(w, *old(stepper)));
    load_stepper(stepper, rec, &m);
    if stepper.pin_a.is_some() {
        effects.push(Effect::StartMotor(w));
    }
    assert(effects@ =~= released + (if rec.pin_a is Some {
        seq![Effect::StartMotor(w)]
    } else {
        Seq::<Effect>::empty()
    }));
    proof {
        if old(stepper).pin_a is None {
            assert(released_pins(old(panel).gpio_pins@, *old(stepper)) == old(panel).gpio_pins@);
        }
    }
    Ok(effects)
}

/// The actions that set up the encoder a profile names, given whether one is configured now.
pub open spec fn profile_encoder_effects(profile: StoredData, encoder_present: bool) -> Seq<Effect> {
    match (profile.enc.pin_a, profile.enc.pin_b) {
        (Some(a), Some(b)) => (if encoder_present {
            seq![Effect::StopEncoder]
        } else {
            Seq::<Effect>::empty()
        }) + seq![Effect::StartEncoder(a as u8, b as u8)],
        _ => if encoder_present {
            seq![Effect::ForgetEncoder]
        } else {
            Seq::<Effect>::empty()
        },
    }
}

/// Why loading `rec` into a motor that stands as `before` fails, if it does.
pub open spec fn motor_load_error(before: Stepper, rec: StepperRecord, mem: crate::data::MemRecord, w: Select) -> Option<ConfigError> {
    if before.pin_a is Some && before.pin_b is None {
        Some(ConfigError::UnpairedPin)
    } else if !complete_record(rec) {
        Some(ConfigError::MissingField)
    } else if memories_for(mem, w) is None {
        Some(ConfigError::MissingMemory)
    } else {
        None
    }
}

/// Why loading `profile` fails, if it does: the error of the first motor, in the
/// order tune, inductor, load, that cannot take its record.
pub open spec fn profile_load_error(tune: Stepper, ind: Stepper, load: Stepper, profile: StoredData) -> Option<ConfigError> {
    match motor_load_error(tune, profile.tune, profile.mem, Select::Tune) {
        Some(e) => Some(e),
        None => match motor_load_error(ind, profile.ind, profile.mem, Select::Ind) {
            Some(e) => Some(e),
            None => motor_load_error(load, profile.load, profile.mem, Select::Load),
        },
    }
}

/// The status after a profile was loaded: "Sucessfully loaded: <file> as a profile".
pub open spec fn loaded_status(file: Seq<char>) -> Seq<char> {
    "Sucessfully loaded: "@ + file + " as a profile"@
}

/// What loading `profile` from the file `file` does: from panel `q0` and motors
/// `t0`, `i0`, `l0` to panel `q1` and motors `t1`, `i1`, `l1`, with the result `r`.
pub open spec fn profile_loaded(q0: Panel, q1: Panel, file: Seq<char>, profile: StoredData, encoder_present: bool, t0: Stepper, i0: Stepper, l0: Stepper, t1: Stepper, i1: Stepper, l1: Stepper, r: Result<Vec<Effect>, ConfigError>) -> bool {
    &&& r is Ok ==> exists|p0: Panel, p1: Panel, p2: Panel, p3: Panel, ft: Vec<Effect>, fi: Vec<Effect>, fl: Vec<Effect>| {
        &&& p0.gpio_pins@ == q0.gpio_pins@
        &&& motor_loaded(p0, p1, Select::Tune, t0, t1, profile.tune, profile.mem, Ok::<Vec<Effect>, ConfigError>(ft))
        &&& motor_loaded(p1, p2, Select::Ind, i0, i1, profile.ind, profile.mem, Ok::<Vec<Effect>, ConfigError>(fi))
        &&& motor_loaded(p2, p3, Select::Load, l0, l1, profile.load, profile.mem, Ok::<Vec<Effect>, ConfigError>(fl))
        &&& q1.gpio_pins@ == p3.gpio_pins@
        &&& r->Ok_0@ == ft@ + fi@ + fl@ + profile_encoder_effects(profile, encoder_present)
    }
    &&& r is Ok ==> q1.file@ == file && q1.band == profile.band
        && q1.call_sign@ == profile.call_sign@
        && q1.status@ == loaded_status(file)
        && q1.sw_pos == q0.sw_pos && q1.sleep == q0.sleep
    &&& r is Err <==> profile_load_error(t0, i0, l0, profile) is Some
    &&& r is Err ==> r == Err::<Vec<Effect>, ConfigError>(profile_load_error(t0, i0, l0, profile)->0)
    &&& r is Err ==> q1.file@ == file && q1.band == q0.band && q1.call_sign == q0.call_sign
        && q1.sw_pos == q0.sw_pos && q1.sleep == q0.sleep
        && load_stopped(q0, q1, profile, t0, i0, l0, t1, i1, l1)
}

/// A motor that loading from a profile has loaded: it had no error, took the
/// record and band memories, and its pins went back to the free list first.
pub open spec fn motor_took_record(p0: Panel, p1: Panel, w: Select, before: Stepper, after: Stepper, rec: StepperRecord, mem: crate::data::MemRecord) -> bool {
    &&& motor_load_error(before, rec, mem, w) is None
    &&& loaded_from(after, before, rec, memories_for(mem, w)->0)
    &&& p1.gpio_pins@ == released_pins(p0.gpio_pins@, before)
    &&& p1.status@ == deleted_status(select_key(w))
}

/// Where a failed profile load leaves panel `q1` and the motors: the motors
/// before the one that failed are loaded, the failing one is as loading it left
/// it (released, unless its pins were unpaired), and the motors after it are
/// untouched.
pub open spec fn load_stopped(q0: Panel, q1: Panel, profile: StoredData, t0: Stepper, i0: Stepper, l0: Stepper, t1: Stepper, i1: Stepper, l1: Stepper) -> bool {
    match motor_load_error(t0, profile.tune, profile.mem, Select::Tune) {
        Some(e) => exists|p0: Panel| #![trigger motor_loaded(p0, q1, Select::Tune, t0, t1, profile.tune, profile.mem, Err::<Vec<Effect>, ConfigError>(e))]
            p0.gpio_pins@ == q0.gpio_pins@ && p0.status == q0.status
            && motor_loaded(p0, q1, Select::Tune, t0, t1, profile.tune, profile.mem, Err::<Vec<Effect>, ConfigError>(e))
            && i1 == i0 && l1 == l0,
        None => match motor_load_error(i0, profile.ind, profile.mem, Select::Ind) {
            Some(e) => exists|p0: Panel, p1: Panel| #![trigger motor_took_record(p0, p1, Select::Tune, t0, t1, profile.tune, profile.mem)]
                p0.gpio_pins@ == q0.gpio_pins@ && p0.status == q0.status
                && motor_took_record(p0, p1, Select::Tune, t0, t1, profile.tune, profile.mem)
                && motor_loaded(p1, q1, Select::Ind, i0, i1, profile.ind, profile.mem, Err::<Vec<Effect>, ConfigError>(e))
                && l1 == l0,
            None => exists|p0: Panel, p1: Panel, p2: Panel| #![trigger motor_took_record(p0, p1, Select::Tune, t0, t1, profile.tune, profile.mem), motor_took_record(p1, p2, Select::Ind, i0, i1, profile.ind, profile.mem)]
                p0.gpio_pins@ == q0.gpio_pins@ && p0.status == q0.status
                && motor_took_record(p0, p1, Select::Tune, t0, t1, profile.tune, profile.mem)
                && motor_took_record(p1, p2, Select::Ind, i0, i1, profile.ind, profile.mem)
                && motor_loaded(p2, q1, Select::Load, l0, l1, profile.load, profile.mem, Err::<Vec<Effect>, ConfigError>(
                motor_load_error(l0, profile.load, profile.mem, Select::Load)->0,
            )),
        },
    }
}

/// Loads the profile `profile` read from the file `file_name`.
///
/// The file becomes the one saves go to. Each motor in turn is released, then
/// takes its pins, ratio, maximum, position and band memories from the profile,
/// and its worker starts when it has pins. When the profile names both encoder
/// pins the current encoder is stopped and one on those pins starts; otherwise
/// the current encoder is dropped. The band and the call sign come from the
/// profile. It fails with the error of the first motor that cannot take its
/// record; the motors before it have then already been loaded.
pub fn load_profile(panel: &mut Panel, form: &FormData, file_name: &String, profile: &StoredData, encoder: Option<(u8, u8)>, tune: &mut Stepper, ind: &mut Stepper, load: &mut Stepper) -> (r: Result<Vec<Effect>, ConfigError>)
    requires
        named_motors(*old(tune), *old(ind), *old(load)),
    ensures
        keeps_meters(*old(panel), *final(panel)),
        named_motors(*final(tune), *final(ind), *final(load)),
        profile_loaded(*old(panel), *final(panel), file_name@, *profile, encoder is Some, *old(tune), *old(ind), *old(load), *final(tune), *final(ind), *final(load), r),
{
    panel.file = file_name.clone();
    let ghost p0 = *panel;
    let ft = match load_motor(panel, form, Select::Tune, tune, &profile.tune, &profile.mem) {
        Ok(fx) => fx,
        Err(e) => {
            assert(load_stopped(*old(panel), *panel, *profile, *old(tune), *old(ind), *old(load), *tune, *ind, *load)) by {
                assert(motor_load_error(*old(tune), profile.tune, profile.mem, Select::Tune) == Some(e));
                assert(motor_loaded(p0, *panel, Select::Tune, *old(tune), *tune, profile.tune, profile.mem, Err::<Vec<Effect>, ConfigError>(e)));
            }
            return Err(e);
        },
    };
    let ghost p1 = *panel;
    let fi = match load_motor(panel, form, Select::Ind, ind, &profile.ind, &profile.mem) {
        Ok(fx) => fx,
        Err(e) => {
            assert(load_stopped(*old(panel), *panel, *profile, *old(tune), *old(ind), *old(load), *tune, *ind, *load)) by {
                assert(motor_load_error(*old(tune), profile.tune, profile.mem, Select::Tune) is None);
                assert(motor_load_error(*old(ind), profile.ind, profile.mem, Select::Ind) == Some(e));
                assert(motor_took_record(p0, p1, Select::Tune, *old(tune), *tune, profile.tune, profile.mem));
            }
            return Err(e);
        },
    };
    let ghost p2 = *panel;
    let fl = match load_motor(panel, form, Select::Load, load, &profile.load, &profile.mem) {
        Ok(fx) => fx,
        Err(e) => {
            assert(load_stopped(*old(panel), *panel, *profile, *old(tune), *old(ind), *old(load), *tune, *ind, *load)) by {
                assert(motor_load_error(*old(tune), profile.tune, profile.mem, Select::Tune) is None);
                assert(motor_load_error(*old(ind), profile.ind, profile.mem, Select::Ind) is None);
                assert(motor_took_record(p0, p1, Select::Tune, *old(tune), *tune, profile.tune, profile.mem));
                assert(motor_took_record(p1, p2, Select::Ind, *old(ind), *ind, profile.ind, profile.mem));
            }
            return Err(e);
        },
    };
    let ghost p3 = *panel;
    let mut effects: Vec<Effect> = Vec::new();
    let mut k: usize = 0;
    while k < ft.len()
        invariant
            k <= ft@.len(),
            effects@ == ft@.subrange(0, k as int),
        decreases ft@.len() - k,
    {
        effects.push(ft[k]);
        assert(effects@ =~= ft@.subrange(0, k + 1));
        k = k + 1;
    }
    assert(ft@.subrange(0, ft@.len() as int) =~= ft@);
    append_effects(&mut effects, &fi);
    append_effects(&mut effects, &fl);
    let ghost before_enc = effects@;
    match (profile.enc.pin_a, profile.enc.pin_b) {
        (Some(a), Some(b)) => {
            if encoder.is_some() {
                effects.push(Effect::StopEncoder);
            }
            effects.push(Effect::StartEncoder(a as u8, b as u8));
        },
        _ => {
            if encoder.is_some() {
                effects.push(Effect::ForgetEncoder);
            }
        },
    }
    assert(effects@ =~= before_enc + profile_encoder_effects(*profile, encoder is Some));
    panel.band = profile.band;
    panel.call_sign = profile.call_sign.clone();
    let mut t = String::from_str("Sucessfully loaded: ");
    t.append(file_name.as_str());
    t.append(" as a profile");
    panel.status = t;
    Ok(effects)
}

fn append_effects(effects: &mut Vec<Effect>, more: &Vec<Effect>)
    ensures
        final(effects)@ == old(effects)@ + more@,
{
    let mut k: usize = 0;
    while k < more.len()
        invariant
            k <= more@.len(),
            effects@ == old(effects)@ + more@.subrange(0, k as int),
        decreases more@.len() - k,
    {
        effects.push(more[k]);
        assert(effects@ =~= old(effects)@ + more@.subrange(0, k + 1));
        k = k + 1;
    }
    assert(more@.subrange(0, more@.len() as int) =~= more@);
}

/// Whether a motor has the pins, ratio, maximum, position and band memories of `saved`.
pub open spec fn restored_from(after: Stepper, saved: Stepper) -> bool {
    &&& after.pin_a == saved.pin_a
    &&& after.pin_b == saved.pin_b
    &&& after.ena == saved.ena
    &&& after.ratio == saved.ratio
    &&& after.max == saved.max
    &&& after.pos == saved.pos
    &&& after.mem@ == saved.mem@
}

/// Saving the setup and later loading the written profile back restores it.
/// The profile `data` is what a save wrote for the encoder `enc`, the motors
/// `st`, `si`, `sl`, the band `band` and the call sign `call_sign`; it is loaded
/// from the file `file` into motors `t0`, `i0`, `l0` that carry their names and
/// have no first pin without a second (a motor in that state cannot be
/// released). The load then succeeds; every motor gets back its saved pins,
/// ratio, maximum, position and band memories; the inductor runs at its fixed
/// 400 µs pulse delay and the other motors keep theirs; a new encoder starts on
/// the saved pins (after the current one, if any, is stopped); the band and call
/// sign are restored, the file becomes the one saves go to, and the status says
/// the profile was loaded.
pub proof fn save_then_load_profile(
    enc: Encoder, st: Stepper, si: Stepper, sl: Stepper, band: Bands, call_sign: Seq<char>, data: StoredData,
    p0: Panel, p1: Panel, file: Seq<char>, encoder_present: bool,
    t0: Stepper, i0: Stepper, l0: Stepper, t1: Stepper, i1: Stepper, l1: Stepper,
    r: Result<Vec<Effect>, ConfigError>,
)
    requires
        saved_profile(data, enc, st, si, sl, band, call_sign),
        named_motors(t0, i0, l0),
        t0.pin_a is Some ==> t0.pin_b is Some,
        i0.pin_a is Some ==> i0.pin_b is Some,
        l0.pin_a is Some ==> l0.pin_b is Some,
        profile_loaded(p0, p1, file, data, encoder_present, t0, i0, l0, t1, i1, l1, r),
    ensures
        r is Ok,
        restored_from(t1, st),
        restored_from(i1, si),
        restored_from(l1, sl),
        t1.speed == t0.speed && i1.speed == 400 && l1.speed == l0.speed,
        r->Ok_0@.last() == Effect::StartEncoder(enc.pin_a, enc.pin_b),
        encoder_present ==> r->Ok_0@[r->Ok_0@.len() - 2] == Effect::StopEncoder,
        p1.band == band,
        p1.call_sign@ == call_sign,
        p1.file@ == file,
        p1.status@ == loaded_status(file),
{
    assert(profile_load_error(t0, i0, l0, data) is None);
    let (q0, q1, q2, q3, ft, fi, fl) = choose|q0: Panel, q1: Panel, q2: Panel, q3: Panel, ft: Vec<Effect>, fi: Vec<Effect>, fl: Vec<Effect>| {
        &&& q0.gpio_pins@ == p0.gpio_pins@
        &&& motor_loaded(q0, q1, Select::Tune, t0, t1, data.tune, data.mem, Ok::<Vec<Effect>, ConfigError>(ft))
        &&& motor_loaded(q1, q2, Select::Ind, i0, i1, data.ind, data.mem, Ok::<Vec<Effect>, ConfigError>(fi))
        &&& motor_loaded(q2, q3, Select::Load, l0, l1, data.load, data.mem, Ok::<Vec<Effect>, ConfigError>(fl))
        &&& p1.gpio_pins@ == q3.gpio_pins@
        &&& r->Ok_0@ == ft@ + fi@ + fl@ + profile_encoder_effects(data, encoder_present)
    };
    assert(loaded_from(t1, t0, record_of(st), memories_of(st)));
    assert(loaded_from(i1, i0, record_of(si), memories_of(si)));
    assert(loaded_from(l1, l0, record_of(sl), memories_of(sl)));
    crate::data::save_then_load_restores(st, t0, t1);
    crate::data::save_then_load_restores(si, i0, i1);
    crate::data::save_then_load_restores(sl, l0, l1);
    reveal_strlit("ind");
    reveal_strlit("tune");
    reveal_strlit("load");
    assert(!crate::web::is_inductor(t0.name@));
    assert(!crate::web::is_inductor(l0.name@));
    assert(enc.pin_a as u32 as u8 == enc.pin_a);
    assert(enc.pin_b as u32 as u8 == enc.pin_b);
}

} // verus!
