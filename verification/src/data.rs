//! The data model shared by the controller: tuner selection, bands, gauges,
//! the stored profile and the page models.

use vstd::prelude::*;
use vstd::string::*;
use crate::text::str_eq;
use crate::web::{Encoder, Stepper, Mcp, McpPin, pin_name};

verus! {

/// Which of the three tuning motors is coupled to the encoder.
#[derive(Clone, Copy, Debug, PartialEq, Eq, Structural)]
pub enum Select {
    Tune,
    Ind,
    Load,
}

/// The amplifier's bands, each with its own memory slot.
#[derive(Clone, Copy, Debug, PartialEq, Eq, Structural)]
pub enum Bands {
    M10,
    M11,
    M20,
    M40,
    M80,
}

/// The slot of a band in the band memories and in the band relay outputs.
pub open spec fn band_index(b: Bands) -> int {
    match b {
        Bands::M10 => 0,
        Bands::M11 => 1,
        Bands::M20 => 2,
        Bands::M40 => 3,
        Bands::M80 => 4,
    }
}

/// The wavelength of a band in metres: the number its memory key starts with.
pub open spec fn band_metres(b: Bands) -> nat {
    crate::text::digits_value(band_key(b).take(band_key(b).len() - 1))
}

/// The bands are numbered from 0 to 4 in order of their wavelength, which is the
/// order of the band relays and of each motor's band memories.
pub proof fn bands_are_numbered_by_wavelength(a: Bands, b: Bands)
    ensures
        0 <= band_index(a) < 5,
        band_index(a) < band_index(b) <==> band_metres(a) < band_metres(b),
        band_index(a) == band_index(b) <==> a == b,
{
    reveal_strlit("10M");
    reveal_strlit("11M");
    reveal_strlit("20M");
    reveal_strlit("40M");
    reveal_strlit("80M");
    reveal_with_fuel(crate::text::digits_value, 3);
    assert("10M"@.take(2) =~= seq!['1', '0']);
    assert("11M"@.take(2) =~= seq!['1', '1']);
    assert("20M"@.take(2) =~= seq!['2', '0']);
    assert("40M"@.take(2) =~= seq!['4', '0']);
    assert("80M"@.take(2) =~= seq!['8', '0']);
    assert(seq!['1', '0'].drop_last() =~= seq!['1']);
    assert(seq!['1', '1'].drop_last() =~= seq!['1']);
    assert(seq!['2', '0'].drop_last() =~= seq!['2']);
    assert(seq!['4', '0'].drop_last() =~= seq!['4']);
    assert(seq!['8', '0'].drop_last() =~= seq!['8']);
    assert(seq!['1'].drop_last() =~= Seq::<char>::empty());
    assert(seq!['2'].drop_last() =~= Seq::<char>::empty());
    assert(seq!['4'].drop_last() =~= Seq::<char>::empty());
    assert(seq!['8'].drop_last() =~= Seq::<char>::empty());
    assert(band_metres(Bands::M10) == 10);
    assert(band_metres(Bands::M11) == 11);
    assert(band_metres(Bands::M20) == 20);
    assert(band_metres(Bands::M40) == 40);
    assert(band_metres(Bands::M80) == 80);
}

/// The name under which a band's memory is kept ("10M", "11M", ...).
pub open spec fn band_key(b: Bands) -> Seq<char> {
    match b {
        Bands::M10 => "10M"@,
        Bands::M11 => "11M"@,
        Bands::M20 => "20M"@,
        Bands::M40 => "40M"@,
        Bands::M80 => "80M"@,
    }
}

/// The request path of a band: "M" followed by the band's number in metres,
/// the number that its memory key ("10M", ...) starts with.
pub open spec fn band_path(b: Bands) -> Seq<char> {
    "M"@ + band_key(b).take(band_key(b).len() - 1)
}

/// A request path names exactly one band: the path of each band names that band,
/// and a path that names a band is that band's path.
pub proof fn band_paths_name_their_band(b: Bands, p: Seq<char>)
    ensures
        band_from_path(band_path(b)) == Some(b),
        band_from_path(p) == Some(b) ==> p == band_path(b),
{
    reveal_strlit("M");
    reveal_strlit("10M");
    reveal_strlit("11M");
    reveal_strlit("20M");
    reveal_strlit("40M");
    reveal_strlit("80M");
    reveal_strlit("M10");
    reveal_strlit("M11");
    reveal_strlit("M20");
    reveal_strlit("M40");
    reveal_strlit("M80");
    assert(band_path(Bands::M10) =~= "M10"@);
    assert(band_path(Bands::M11) =~= "M11"@);
    assert(band_path(Bands::M20) =~= "M20"@);
    assert(band_path(Bands::M40) =~= "M40"@);
    assert(band_path(Bands::M80) =~= "M80"@);
    assert("M10"@ != "M11"@ && "M10"@ != "M20"@ && "M10"@ != "M40"@ && "M10"@ != "M80"@) by {
        assert("M10"@[2] != "M11"@[2]);
        assert("M10"@[1] != "M20"@[1] && "M10"@[1] != "M40"@[1] && "M10"@[1] != "M80"@[1]);
    }
    assert("M11"@ != "M20"@ && "M11"@ != "M40"@ && "M11"@ != "M80"@) by {
        assert("M11"@[1] != "M20"@[1] && "M11"@[1] != "M40"@[1] && "M11"@[1] != "M80"@[1]);
    }
    assert("M20"@ != "M40"@ && "M20"@ != "M80"@ && "M40"@ != "M80"@) by {
        assert("M20"@[1] != "M40"@[1] && "M20"@[1] != "M80"@[1] && "M40"@[1] != "M80"@[1]);
    }
}

/// The band named by a request path ("M10", "M11", ...).
pub open spec fn band_from_path(path: Seq<char>) -> Option<Bands> {
    if path == "M10"@ {
        Some(Bands::M10)
    } else if path == "M11"@ {
        Some(Bands::M11)
    } else if path == "M20"@ {
        Some(Bands::M20)
    } else if path == "M40"@ {
        Some(Bands::M40)
    } else if path == "M80"@ {
        Some(Bands::M80)
    } else {
        None
    }
}

/// The band stored in memory slot `i`.
pub open spec fn band_at(i: int) -> Bands {
    if i == 0 {
        Bands::M10
    } else if i == 1 {
        Bands::M11
    } else if i == 2 {
        Bands::M20
    } else if i == 3 {
        Bands::M40
    } else {
        Bands::M80
    }
}

impl Bands {
    /// The slot of this band in the band memories and the band relays.
    pub fn index(&self) -> (r: usize)
        ensures
            r == band_index(*self),
            r < 5,
    {
        match self {
            Bands::M10 => 0,
            Bands::M11 => 1,
            Bands::M20 => 2,
            Bands::M40 => 3,
            Bands::M80 => 4,
        }
    }

    /// The band in memory slot `i`.
    pub fn from_index(i: usize) -> (r: Bands)
        requires
            i < 5,
        ensures
            r == band_at(i as int),
            band_index(r) == i,
    {
        if i == 0 {
            Bands::M10
        } else if i == 1 {
            Bands::M11
        } else if i == 2 {
            Bands::M20
        } else if i == 3 {
            Bands::M40
        } else {
            Bands::M80
        }
    }

    /// The name of this band's memory ("10M", "11M", ...).
    pub fn mem_key(&self) -> (r: &'static str)
        ensures
            r@ == band_key(*self),
    {
        match self {
            Bands::M10 => "10M",
            Bands::M11 => "11M",
            Bands::M20 => "20M",
            Bands::M40 => "40M",
            Bands::M80 => "80M",
        }
    }

    /// The band that a request path names, if any.
    pub fn from_path(path: &str) -> (r: Option<Bands>)
        ensures
            r == band_from_path(path@),
    {
        if str_eq(path, "M10") {
            Some(Bands::M10)
        } else if str_eq(path, "M11") {
            Some(Bands::M11)
        } else if str_eq(path, "M20") {
            Some(Bands::M20)
        } else if str_eq(path, "M40") {
            Some(Bands::M40)
        } else if str_eq(path, "M80") {
            Some(Bands::M80)
        } else {
            None
        }
    }
}

/// The lower-case name of a tuning motor ("tune", "ind", "load").
pub open spec fn select_key(s: Select) -> Seq<char> {
    match s {
        Select::Tune => "tune"@,
        Select::Ind => "ind"@,
        Select::Load => "load"@,
    }
}

/// The capitalised name of a tuning motor ("Tune", "Ind", "Load").
pub open spec fn select_title(s: Select) -> Seq<char> {
    match s {
        Select::Tune => "Tune"@,
        Select::Ind => "Ind"@,
        Select::Load => "Load"@,
    }
}

/// A motor's title is its name with the first letter in upper case.
pub proof fn motor_titles_capitalise_names(w: Select)
    ensures
        select_title(w).len() == select_key(w).len(),
        select_title(w).drop_first() == select_key(w).drop_first(),
        select_title(w)[0] as int == select_key(w)[0] as int - 32,
{
    reveal_strlit("tune");
    reveal_strlit("ind");
    reveal_strlit("load");
    reveal_strlit("Tune");
    reveal_strlit("Ind");
    reveal_strlit("Load");
    assert(select_title(w).drop_first() =~= select_key(w).drop_first());
}

/// The motor that a form value or field name ("tune", "ind", "load") names.
pub open spec fn select_from_key(k: Seq<char>) -> Option<Select> {
    if k == "tune"@ {
        Some(Select::Tune)
    } else if k == "ind"@ {
        Some(Select::Ind)
    } else if k == "load"@ {
        Some(Select::Load)
    } else {
        None
    }
}

/// A form value selects exactly the motor it names: the name of each motor
/// selects that motor, and any value that selects a motor is that motor's name.
pub proof fn motor_names_select_their_motor(w: Select, k: Seq<char>)
    ensures
        select_from_key(select_key(w)) == Some(w),
        select_from_key(k) == Some(w) ==> k == select_key(w),
{
    reveal_strlit("tune");
    reveal_strlit("ind");
    reveal_strlit("load");
    assert("tune"@ != "ind"@ && "tune"@ != "load"@ && "ind"@ != "load"@) by {
        assert("tune"@.len() != "ind"@.len());
        assert("ind"@.len() != "load"@.len());
        assert("tune"@[0] != "load"@[0]);
    }
}

impl Select {
    /// The lower-case name of this motor.
    pub fn key(&self) -> (r: &'static str)
        ensures
            r@ == select_key(*self),
    {
        match self {
            Select::Tune => "tune",
            Select::Ind => "ind",
            Select::Load => "load",
        }
    }

    /// The capitalised name of this motor.
    pub fn title(&self) -> (r: &'static str)
        ensures
            r@ == select_title(*self),
    {
        match self {
            Select::Tune => "Tune",
            Select::Ind => "Ind",
            Select::Load => "Load",
        }
    }

    /// The motor that `k` names, if any.
    pub fn from_key(k: &str) -> (r: Option<Select>)
        ensures
            r == select_from_key(k@),
    {
        if str_eq(k, "tune") {
            Some(Select::Tune)
        } else if str_eq(k, "ind") {
            Some(Select::Ind)
        } else if str_eq(k, "load") {
            Some(Select::Load)
        } else {
            None
        }
    }
}

/// The tube meter readings shown on the front page.
#[derive(Clone, Copy, Debug, PartialEq, Eq, Structural)]
pub struct Gauges {
    pub plate_v: u32,
    pub plate_a: u32,
    pub screen_a: u32,
    pub grid_a: u32,
}


/// The front page: the name it greets.
pub struct IndexTemplate<'a> {
    pub name: &'a str,
}

/// The configuration page: what is configured on which pins, the stored
/// profiles to choose from, and the GPIO pins still free.
#[derive(Clone, Debug)]
pub struct ConfigTemplate {
    pub enc: bool,
    pub enc_val: Vec<String>,
    pub tune: Vec<String>,
    pub ind: Vec<String>,
    pub load: Vec<String>,
    pub pins: Vec<u8>,
    pub files: Vec<String>,
}

/// A stored motor setup, one entry per key of the profile file
/// ("PinA", "PinB", "ena", "ratio", "max", "pos"); `None` where the key is absent.
#[derive(Clone, Copy, Debug, PartialEq, Eq, Structural)]
pub struct StepperRecord {
    pub pin_a: Option<u32>,
    pub pin_b: Option<u32>,
    pub ena: Option<u32>,
    pub ratio: Option<u32>,
    pub max: Option<u32>,
    pub pos: Option<u32>,
}

/// The stored encoder pins ("PinA", "PinB"); `None` where the key is absent.
#[derive(Clone, Copy, Debug, PartialEq, Eq, Structural)]
pub struct EncoderRecord {
    pub pin_a: Option<u32>,
    pub pin_b: Option<u32>,
}

/// The stored band memories of each motor, keyed by the motor's name; each
/// holds one entry per band in the order of `Bands::index`, `None` where absent.
#[derive(Clone, Copy, Debug)]
pub struct MemRecord {
    pub tune: Option<[Option<u32>; 5]>,
    pub ind: Option<[Option<u32>; 5]>,
    pub load: Option<[Option<u32>; 5]>,
}

/// A saved profile: the setup of the three motors and the encoder, the band
/// memories, the current band and the call sign.
#[derive(Clone, Debug)]
pub struct StoredData {
    pub tune: StepperRecord,
    pub ind: StepperRecord,
    pub load: StepperRecord,
    pub enc: EncoderRecord,
    pub mem: MemRecord,
    pub band: Bands,
    pub call_sign: String,
}

/// A motor record with no keys.
pub open spec fn empty_record(r: StepperRecord) -> bool {
    &&& r.pin_a is None
    &&& r.pin_b is None
    &&& r.ena is None
    &&& r.ratio is None
    &&& r.max is None
    &&& r.pos is None
}

/// The unsigned 32-bit value a signed position is saved as.
pub open spec fn saved_i32(x: i32) -> u32 {
    x as u32
}

/// The record saved for a motor.
pub open spec fn record_of(s: Stepper) -> StepperRecord {
    StepperRecord {
        pin_a: match s.pin_a {
            Some(p) => Some(p as u32),
            None => None,
        },
        pin_b: match s.pin_b {
            Some(p) => Some(p as u32),
            None => None,
        },
        ena: match s.ena {
            Some(p) => Some(p as u32),
            None => None,
        },
        ratio: Some(s.ratio as u32),
        max: Some(saved_i32(s.max)),
        pos: Some(saved_i32(s.pos)),
    }
}

/// The band memories saved for a motor.
pub open spec fn memories_of(s: Stepper) -> [Option<u32>; 5] {
    [
        Some(saved_i32(s.mem@[0])),
        Some(saved_i32(s.mem@[1])),
        Some(saved_i32(s.mem@[2])),
        Some(saved_i32(s.mem@[3])),
        Some(saved_i32(s.mem@[4])),
    ]
}

impl StoredData {
    /// An empty profile on the 10 m band with the placeholder call sign.
    pub fn new() -> (r: Self)
        ensures
            empty_record(r.tune),
            empty_record(r.ind),
            empty_record(r.load),
            r.enc.pin_a is None && r.enc.pin_b is None,
            r.mem.tune is None && r.mem.ind is None && r.mem.load is None,
            r.band == Bands::M10,
            r.call_sign@ == "-----"@,
    {
        StoredData {
            tune: StoredData::empty_stepper_record(),
            ind: StoredData::empty_stepper_record(),
            load: StoredData::empty_stepper_record(),
            enc: EncoderRecord { pin_a: None, pin_b: None },
            mem: MemRecord { tune: None, ind: None, load: None },
            band: Bands::M10,
            call_sign: String::from_str("-----"),
        }
    }

    fn empty_stepper_record() -> (r: StepperRecord)
        ensures
            empty_record(r),
    {
        StepperRecord { pin_a: None, pin_b: None, ena: None, ratio: None, max: None, pos: None }
    }
}

/// The power and band relays on the port expander.
#[allow(non_snake_case)]
#[derive(Clone, Debug)]
pub struct PwrBtns {
    pub Blwr: [McpPin; 1],
    pub Fil: [McpPin; 2],
    pub HV: [McpPin; 2],
    pub Oper: [McpPin; 1],
    pub mcp: Mcp,
    pub bands: [McpPin; 5],
}

impl PwrBtns {
    /// The relay assignment: blower on A0, filament on A1 and A2, high voltage on
    /// A3 and A4, operate on A5, and the band relays on B0 to B4, all looked up by name.
    pub fn new(mcp: Mcp) -> (r: Self)
        ensures
            pin_name(r.Blwr[0]) == "A0"@,
            pin_name(r.Fil[0]) == "A1"@,
            pin_name(r.Fil[1]) == "A2"@,
            pin_name(r.HV[0]) == "A3"@,
            pin_name(r.HV[1]) == "A4"@,
            pin_name(r.Oper[0]) == "A5"@,
            pin_name(r.bands[0]) == "B0"@,
            pin_name(r.bands[1]) == "B1"@,
            pin_name(r.bands[2]) == "B2"@,
            pin_name(r.bands[3]) == "B3"@,
            pin_name(r.bands[4]) == "B4"@,
            r.mcp == mcp,
    {
        assert(pin_name(McpPin::A0) == "A0"@);
        assert(pin_name(McpPin::A1) == "A1"@);
        assert(pin_name(McpPin::A2) == "A2"@);
        assert(pin_name(McpPin::A3) == "A3"@);
        assert(pin_name(McpPin::A4) == "A4"@);
        assert(pin_name(McpPin::A5) == "A5"@);
        assert(pin_name(McpPin::B0) == "B0"@);
        assert(pin_name(McpPin::B1) == "B1"@);
        assert(pin_name(McpPin::B2) == "B2"@);
        assert(pin_name(McpPin::B3) == "B3"@);
        assert(pin_name(McpPin::B4) == "B4"@);
        PwrBtns {
            Blwr: [PwrBtns::pin("A0")],
            Fil: [PwrBtns::pin("A1"), PwrBtns::pin("A2")],
            HV: [PwrBtns::pin("A3"), PwrBtns::pin("A4")],
            Oper: [PwrBtns::pin("A5")],
            bands: [
                PwrBtns::pin("B0"),
                PwrBtns::pin("B1"),
                PwrBtns::pin("B2"),
                PwrBtns::pin("B3"),
                PwrBtns::pin("B4"),
            ],
            mcp,
        }
    }

    fn pin(name: &str) -> (r: McpPin)
        requires
            exists|p: McpPin| pin_name(p) == name@,
        ensures
            pin_name(r) == name@,
    {
        match McpPin::from_name(name) {
            Some(p) => p,
            None => {
                assert(false);
                McpPin::A0
            },
        }
    }
}


/// The position a saved unsigned value is loaded back as.
pub open spec fn loaded_i32(x: u32) -> i32 {
    x as i32
}

/// A saved pin number loaded back as a pin.
pub open spec fn loaded_pin(x: Option<u32>) -> Option<u8> {
    match x {
        Some(v) => Some(v as u8),
        None => None,
    }
}

/// What loading a motor record and its band memories does to a motor: the
/// pins, ratio, maximum and position come from the record, each band memory
/// from its entry (zero where the entry is absent), and the inductor slows to
/// its loading speed.
pub open spec fn loaded_from(after: Stepper, before: Stepper, rec: StepperRecord, mem: [Option<u32>; 5]) -> bool {
    &&& after.name == before.name
    &&& after.pin_a == loaded_pin(rec.pin_a)
    &&& after.pin_b == loaded_pin(rec.pin_b)
    &&& after.ena == loaded_pin(rec.ena)
    &&& after.max == loaded_i32(rec.max->0)
    &&& after.pos == loaded_i32(rec.pos->0)
    &&& after.ratio == rec.ratio->0 as u8
    &&& after.speed == (if crate::web::is_inductor(before.name@) { 400 } else { before.speed })
    &&& after.operate == before.operate
    &&& forall|i: int| 0 <= i < 5 ==> #[trigger] after.mem@[i] == loaded_i32(
        match mem@[i] {
            Some(v) => v,
            None => 0,
        },
    )
}

/// Fills the record of a motor's setup: its pins where it has them, its
/// ratio, maximum and position; returns its band memories.
pub fn store_data_creator(stepper: &Stepper, data: &mut StepperRecord) -> (r: [Option<u32>; 5])
    ensures
        final(data).pin_a == (if stepper.pin_a is Some { record_of(*stepper).pin_a } else { old(data).pin_a }),
        final(data).pin_b == (if stepper.pin_b is Some { record_of(*stepper).pin_b } else { old(data).pin_b }),
        final(data).ena == (if stepper.ena is Some { record_of(*stepper).ena } else { old(data).ena }),
        final(data).ratio == record_of(*stepper).ratio,
        final(data).max == record_of(*stepper).max,
        final(data).pos == record_of(*stepper).pos,
        r@ == memories_of(*stepper)@,
{
    if let Some(pin_a) = stepper.pin_a {
        data.pin_a = Some(pin_a as u32);
    }
    if let Some(pin_b) = stepper.pin_b {
        data.pin_b = Some(pin_b as u32);
    }
    if let Some(ena) = stepper.ena {
        data.ena = Some(ena as u32);
    }
    data.ratio = Some(stepper.ratio as u32);
    data.max = Some(stepper.max as u32);
    data.pos = Some(stepper.pos as u32);
    let r = [
        Some(stepper.mem[0] as u32),
        Some(stepper.mem[1] as u32),
        Some(stepper.mem[2] as u32),
        Some(stepper.mem[3] as u32),
        Some(stepper.mem[4] as u32),
    ];
    assert(r@ =~= memories_of(*stepper)@);
    r
}

/// The profile saved from the current setup: the encoder's pins, each motor's
/// record and band memories, the band and the call sign.
pub fn snapshot(enc: &Encoder, tune: &Stepper, ind: &Stepper, load: &Stepper, band: Bands, call_sign: &String) -> (r: StoredData)
    ensures
        r.enc.pin_a == Some(enc.pin_a as u32),
        r.enc.pin_b == Some(enc.pin_b as u32),
        r.tune == record_of(*tune),
        r.ind == record_of(*ind),
        r.load == record_of(*load),
        r.mem.tune matches Some(m) && m@ == memories_of(*tune)@,
        r.mem.ind matches Some(m) && m@ == memories_of(*ind)@,
        r.mem.load matches Some(m) && m@ == memories_of(*load)@,
        r.band == band,
        r.call_sign@ == call_sign@,
{
    let mut saved = StoredData::new();
    saved.enc.pin_a = Some(enc.pin_a as u32);
    saved.enc.pin_b = Some(enc.pin_b as u32);
    let m = store_data_creator(tune, &mut saved.tune);
    saved.mem.tune = Some(m);
    let m = store_data_creator(ind, &mut saved.ind);
    saved.mem.ind = Some(m);
    let m = store_data_creator(load, &mut saved.load);
    saved.mem.load = Some(m);
    saved.band = band;
    saved.call_sign = call_sign.clone();
    saved
}

/// Applies a loaded motor record and band memories to a motor.
pub fn load_stepper(stepper: &mut Stepper, rec: &StepperRecord, mem: &[Option<u32>; 5])
    requires
        rec.ratio is Some,
        rec.max is Some,
        rec.pos is Some,
    ensures
        loaded_from(*final(stepper), *old(stepper), *rec, *mem),
{
    stepper.pin_a = match rec.pin_a {
        Some(v) => Some(v as u8),
        None => None,
    };
    stepper.pin_b = match rec.pin_b {
        Some(v) => Some(v as u8),
        None => None,
    };
    stepper.ena = match rec.ena {
        Some(v) => Some(v as u8),
        None => None,
    };
    stepper.max = rec.max.unwrap() as i32;
    stepper.pos = rec.pos.unwrap() as i32;
    stepper.ratio = rec.ratio.unwrap() as u8;
    if str_eq(stepper.name.as_str(), "ind") {
        stepper.speed = 400;
    }
    let mut values: [i32; 5] = [0i32, 0i32, 0i32, 0i32, 0i32];
    let mut i: usize = 0;
    while i < 5
        invariant
            i <= 5,
            forall|j: int| 0 <= j < i ==> #[trigger] values@[j] == loaded_i32(
                match mem@[j] {
                    Some(v) => v,
                    None => 0,
                },
            ),
        decreases 5 - i,
    {
        let v: u32 = match mem[i] {
            Some(v) => v,
            None => 0,
        };
        values[i] = v as i32;
        i = i + 1;
    }
    stepper.mem = values;
}

proof fn lemma_i32_round_trip(x: i32)
    ensures
        loaded_i32(saved_i32(x)) == x,
{
    assert((x as u32) as i32 == x) by (bit_vector);
}

/// Saving a motor and loading the saved record back restores its pins, ratio,
/// maximum, position and every band memory.
pub proof fn save_then_load_restores(saved: Stepper, before: Stepper, after: Stepper)
    requires
        loaded_from(after, before, record_of(saved), memories_of(saved)),
    ensures
        after.pin_a == saved.pin_a,
        after.pin_b == saved.pin_b,
        after.ena == saved.ena,
        after.ratio == saved.ratio,
        after.max == saved.max,
        after.pos == saved.pos,
        after.mem@ == saved.mem@,
{
    lemma_i32_round_trip(saved.max);
    lemma_i32_round_trip(saved.pos);
    assert forall|i: int| 0 <= i < 5 implies after.mem@[i] == saved.mem@[i] by {
        lemma_i32_round_trip(saved.mem@[i]);
        assert(memories_of(saved)@[i] == Some(saved_i32(saved.mem@[i])));
    }
    assert(after.mem@ =~= saved.mem@);
}

} // verus!
