//! The key/value form of a saved profile: each record is written as a list of
//! (key, value) entries under fixed key names, and read back by looking the
//! keys up. Reading back what was written gives the record back.

use vstd::prelude::*;
use vstd::string::*;
use crate::data::{StepperRecord, EncoderRecord, Bands, band_key};
use crate::text::str_eq;

verus! {

/// The entries as keys and values.
pub open spec fn entries_view(es: Seq<(String, u32)>) -> Seq<(Seq<char>, u32)> {
    es.map_values(|e: (String, u32)| (e.0@, e.1))
}

/// The entry written for `key` when it has the value `v`: one entry, or none.
pub open spec fn entry(key: Seq<char>, v: Option<u32>) -> Seq<(Seq<char>, u32)> {
    match v {
        Some(x) => seq![(key, x)],
        None => Seq::empty(),
    }
}

/// The value of the first entry for `key`, if there is one.
pub open spec fn lookup(es: Seq<(Seq<char>, u32)>, key: Seq<char>) -> Option<u32>
    decreases es.len(),
{
    if es.len() == 0 {
        None
    } else if es[0].0 == key {
        Some(es[0].1)
    } else {
        lookup(es.drop_first(), key)
    }
}

/// The entries of a motor record: "PinA", "PinB", "ena", "ratio", "max", "pos",
/// each where the record has it.
pub open spec fn record_entries_spec(r: StepperRecord) -> Seq<(Seq<char>, u32)> {
    entry("PinA"@, r.pin_a) + entry("PinB"@, r.pin_b) + entry("ena"@, r.ena) + entry("ratio"@, r.ratio)
        + entry("max"@, r.max) + entry("pos"@, r.pos)
}

/// The motor record that a list of entries holds.
pub open spec fn record_from_spec(es: Seq<(Seq<char>, u32)>) -> StepperRecord {
    StepperRecord {
        pin_a: lookup(es, "PinA"@),
        pin_b: lookup(es, "PinB"@),
        ena: lookup(es, "ena"@),
        ratio: lookup(es, "ratio"@),
        max: lookup(es, "max"@),
        pos: lookup(es, "pos"@),
    }
}

/// The entries of the encoder record: "PinA" and "PinB", each where present.
pub open spec fn encoder_entries_spec(e: EncoderRecord) -> Seq<(Seq<char>, u32)> {
    entry("PinA"@, e.pin_a) + entry("PinB"@, e.pin_b)
}

/// The encoder record that a list of entries holds.
pub open spec fn encoder_from_spec(es: Seq<(Seq<char>, u32)>) -> EncoderRecord {
    EncoderRecord { pin_a: lookup(es, "PinA"@), pin_b: lookup(es, "PinB"@) }
}

/// The entries of a motor's band memories, keyed by the band ("10M" ... "80M").
pub open spec fn band_entries_spec(m: [Option<u32>; 5]) -> Seq<(Seq<char>, u32)> {
    entry(band_key(Bands::M10), m@[0]) + entry(band_key(Bands::M11), m@[1]) + entry(band_key(Bands::M20), m@[2])
        + entry(band_key(Bands::M40), m@[3]) + entry(band_key(Bands::M80), m@[4])
}

/// The band memories that a list of entries holds, in the order of `Bands::index`.
pub open spec fn bands_from_spec(es: Seq<(Seq<char>, u32)>) -> Seq<Option<u32>> {
    seq![
        lookup(es, band_key(Bands::M10)),
        lookup(es, band_key(Bands::M11)),
        lookup(es, band_key(Bands::M20)),
        lookup(es, band_key(Bands::M40)),
        lookup(es, band_key(Bands::M80)),
    ]
}

proof fn lemma_lookup_append(a: Seq<(Seq<char>, u32)>, b: Seq<(Seq<char>, u32)>, key: Seq<char>)
    ensures
        lookup(a + b, key) == (match lookup(a, key) {
            Some(v) => Some(v),
            None => lookup(b, key),
        }),
    decreases a.len(),
{
    if a.len() > 0 {
        assert((a + b).drop_first() =~= a.drop_first() + b);
        lemma_lookup_append(a.drop_first(), b, key);
    } else {
        assert(a + b =~= b);
    }
}

proof fn lemma_lookup_entry(k: Seq<char>, v: Option<u32>, key: Seq<char>)
    ensures
        lookup(entry(k, v), key) == (if k == key { v } else { None }),
{
    if v is Some {
        assert(entry(k, v).drop_first() =~= Seq::<(Seq<char>, u32)>::empty());
        assert(lookup(Seq::<(Seq<char>, u32)>::empty(), key) is None);
    } else {
        assert(entry(k, v) =~= Seq::<(Seq<char>, u32)>::empty());
    }
}

proof fn lemma_lookup_six(
    k: Seq<Seq<char>>, v: Seq<Option<u32>>, j: int,
)
    requires
        k.len() == 6,
        v.len() == 6,
        0 <= j < 6,
        forall|a: int, b: int| 0 <= a < 6 && 0 <= b < 6 && a != b ==> k[a] != k[b],
    ensures
        lookup(entry(k[0], v[0]) + entry(k[1], v[1]) + entry(k[2], v[2]) + entry(k[3], v[3]) + entry(k[4], v[4])
            + entry(k[5], v[5]), k[j]) == v[j],
{
    let key = k[j];
    let e0 = entry(k[0], v[0]);
    let e1 = entry(k[1], v[1]);
    let e2 = entry(k[2], v[2]);
    let e3 = entry(k[3], v[3]);
    let e4 = entry(k[4], v[4]);
    let e5 = entry(k[5], v[5]);
    lemma_lookup_entry(k[0], v[0], key);
    lemma_lookup_entry(k[1], v[1], key);
    lemma_lookup_entry(k[2], v[2], key);
    lemma_lookup_entry(k[3], v[3], key);
    lemma_lookup_entry(k[4], v[4], key);
    lemma_lookup_entry(k[5], v[5], key);
    lemma_lookup_append(e0 + e1 + e2 + e3 + e4, e5, key);
    lemma_lookup_append(e0 + e1 + e2 + e3, e4, key);
    lemma_lookup_append(e0 + e1 + e2, e3, key);
    lemma_lookup_append(e0 + e1, e2, key);
    lemma_lookup_append(e0, e1, key);
}

/// Reading back the entries written for a motor record gives the record back.
pub proof fn record_entries_round_trip(r: StepperRecord)
    ensures
        record_from_spec(record_entries_spec(r)) == r,
{
    reveal_strlit("PinA");
    reveal_strlit("PinB");
    reveal_strlit("ena");
    reveal_strlit("ratio");
    reveal_strlit("max");
    reveal_strlit("pos");
    let k = seq!["PinA"@, "PinB"@, "ena"@, "ratio"@, "max"@, "pos"@];
    let v = seq![r.pin_a, r.pin_b, r.ena, r.ratio, r.max, r.pos];
    assert forall|a: int, b: int| 0 <= a < 6 && 0 <= b < 6 && a != b implies k[a] != k[b] by {
        assert(a == 0 || a == 1 || a == 2 || a == 3 || a == 4 || a == 5);
        assert(b == 0 || b == 1 || b == 2 || b == 3 || b == 4 || b == 5);
        assert(k[a].len() != k[b].len() || k[a][0] != k[b][0] || k[a][3] != k[b][3]);
    }
    let es = record_entries_spec(r);
    assert(es == entry(k[0], v[0]) + entry(k[1], v[1]) + entry(k[2], v[2]) + entry(k[3], v[3]) + entry(k[4], v[4])
        + entry(k[5], v[5]));
    lemma_lookup_six(k, v, 0);
    lemma_lookup_six(k, v, 1);
    lemma_lookup_six(k, v, 2);
    lemma_lookup_six(k, v, 3);
    lemma_lookup_six(k, v, 4);
    lemma_lookup_six(k, v, 5);
}

/// Reading back the entries written for the encoder record gives the record back.
pub proof fn encoder_entries_round_trip(e: EncoderRecord)
    ensures
        encoder_from_spec(encoder_entries_spec(e)) == e,
{
    reveal_strlit("PinA");
    reveal_strlit("PinB");
    assert("PinA"@ != "PinB"@) by {
        assert("PinA"@[3] != "PinB"@[3]);
    }
    let a = entry("PinA"@, e.pin_a);
    let b = entry("PinB"@, e.pin_b);
    lemma_lookup_entry("PinA"@, e.pin_a, "PinA"@);
    lemma_lookup_entry("PinA"@, e.pin_a, "PinB"@);
    lemma_lookup_entry("PinB"@, e.pin_b, "PinA"@);
    lemma_lookup_entry("PinB"@, e.pin_b, "PinB"@);
    lemma_lookup_append(a, b, "PinA"@);
    lemma_lookup_append(a, b, "PinB"@);
}

/// Reading back the entries written for a motor's band memories gives them back.
pub proof fn band_entries_round_trip(m: [Option<u32>; 5])
    ensures
        bands_from_spec(band_entries_spec(m)) == m@,
{
    reveal_strlit("10M");
    reveal_strlit("11M");
    reveal_strlit("20M");
    reveal_strlit("40M");
    reveal_strlit("80M");
    reveal_strlit("-");
    let k = seq![
        band_key(Bands::M10),
        band_key(Bands::M11),
        band_key(Bands::M20),
        band_key(Bands::M40),
        band_key(Bands::M80),
        "-"@,
    ];
    let v = seq![m@[0], m@[1], m@[2], m@[3], m@[4], None];
    assert forall|a: int, b: int| 0 <= a < 6 && 0 <= b < 6 && a != b implies k[a] != k[b] by {
        assert(a == 0 || a == 1 || a == 2 || a == 3 || a == 4 || a == 5);
        assert(b == 0 || b == 1 || b == 2 || b == 3 || b == 4 || b == 5);
        assert(k[a].len() != k[b].len() || k[a][0] != k[b][0] || k[a][1] != k[b][1]);
    }
    let es = band_entries_spec(m);
    assert(entry("-"@, None) =~= Seq::<(Seq<char>, u32)>::empty());
    assert(es =~= entry(k[0], v[0]) + entry(k[1], v[1]) + entry(k[2], v[2]) + entry(k[3], v[3]) + entry(k[4], v[4])
        + entry(k[5], v[5]));
    lemma_lookup_six(k, v, 0);
    lemma_lookup_six(k, v, 1);
    lemma_lookup_six(k, v, 2);
    lemma_lookup_six(k, v, 3);
    lemma_lookup_six(k, v, 4);
    assert(bands_from_spec(es) =~= m@);
}

fn push_entry(out: &mut Vec<(String, u32)>, key: &str, v: Option<u32>)
    ensures
        entries_view(final(out)@) == entries_view(old(out)@) + entry(key@, v),
{
    match v {
        Some(x) => {
            out.push((String::from_str(key), x));
            assert(entries_view(final(out)@) =~= entries_view(old(out)@) + entry(key@, v));
        },
        None => {
            assert(entries_view(old(out)@) + entry(key@, v) =~= entries_view(old(out)@));
        },
    }
}

/// The value of the first entry for `key`, if there is one.
pub fn lookup_entry(es: &Vec<(String, u32)>, key: &str) -> (r: Option<u32>)
    ensures
        r == lookup(entries_view(es@), key@),
{
    let ghost view = entries_view(es@);
    assert(view.subrange(0, view.len() as int) =~= view);
    let mut i: usize = 0;
    while i < es.len()
        invariant
            i <= es@.len(),
            view == entries_view(es@),
            lookup(view, key@) == lookup(view.subrange(i as int, view.len() as int), key@),
        decreases es@.len() - i,
    {
        let ghost rest = view.subrange(i as int, view.len() as int);
        assert(rest.drop_first() =~= view.subrange(i + 1, view.len() as int));
        assert(rest[0] == (es@[i as int].0@, es@[i as int].1));
        if str_eq(es[i].0.as_str(), key) {
            return Some(es[i].1);
        }
        i = i + 1;
    }
    None
}

/// The entries written for a motor record.
pub fn record_entries(r: &StepperRecord) -> (es: Vec<(String, u32)>)
    ensures
        entries_view(es@) == record_entries_spec(*r),
{
    let mut es: Vec<(String, u32)> = Vec::new();
    assert(entries_view(es@) =~= Seq::<(Seq<char>, u32)>::empty());
    push_entry(&mut es, "PinA", r.pin_a);
    push_entry(&mut es, "PinB", r.pin_b);
    push_entry(&mut es, "ena", r.ena);
    push_entry(&mut es, "ratio", r.ratio);
    push_entry(&mut es, "max", r.max);
    push_entry(&mut es, "pos", r.pos);
    assert(entries_view(es@) =~= record_entries_spec(*r));
    es
}

/// The motor record that a list of entries holds.
pub fn record_from_entries(es: &Vec<(String, u32)>) -> (r: StepperRecord)
    ensures
        r == record_from_spec(entries_view(es@)),
{
    StepperRecord {
        pin_a: lookup_entry(es, "PinA"),
        pin_b: lookup_entry(es, "PinB"),
        ena: lookup_entry(es, "ena"),
        ratio: lookup_entry(es, "ratio"),
        max: lookup_entry(es, "max"),
        pos: lookup_entry(es, "pos"),
    }
}

/// The entries written for the encoder record.
pub fn encoder_entries(e: &EncoderRecord) -> (es: Vec<(String, u32)>)
    ensures
        entries_view(es@) == encoder_entries_spec(*e),
{
    let mut es: Vec<(String, u32)> = Vec::new();
    assert(entries_view(es@) =~= Seq::<(Seq<char>, u32)>::empty());
    push_entry(&mut es, "PinA", e.pin_a);
    push_entry(&mut es, "PinB", e.pin_b);
    assert(entries_view(es@) =~= encoder_entries_spec(*e));
    es
}

/// The encoder record that a list of entries holds.
pub fn encoder_from_entries(es: &Vec<(String, u32)>) -> (r: EncoderRecord)
    ensures
        r == encoder_from_spec(entries_view(es@)),
{
    EncoderRecord { pin_a: lookup_entry(es, "PinA"), pin_b: lookup_entry(es, "PinB") }
}

/// The entries written for a motor's band memories.
pub fn band_entries(m: &[Option<u32>; 5]) -> (es: Vec<(String, u32)>)
    ensures
        entries_view(es@) == band_entries_spec(*m),
{
    let mut es: Vec<(String, u32)> = Vec::new();
    assert(entries_view(es@) =~= Seq::<(Seq<char>, u32)>::empty());
    push_entry(&mut es, Bands::M10.mem_key(), m[0]);
    push_entry(&mut es, Bands::M11.mem_key(), m[1]);
    push_entry(&mut es, Bands::M20.mem_key(), m[2]);
    push_entry(&mut es, Bands::M40.mem_key(), m[3]);
    push_entry(&mut es, Bands::M80.mem_key(), m[4]);
    assert(entries_view(es@) =~= band_entries_spec(*m));
    es
}

/// The band memories that a list of entries holds, in the order of `Bands::index`.
pub fn bands_from_entries(es: &Vec<(String, u32)>) -> (r: [Option<u32>; 5])
    ensures
        r@ == bands_from_spec(entries_view(es@)),
{
    let r = [
        lookup_entry(es, Bands::M10.mem_key()),
        lookup_entry(es, Bands::M11.mem_key()),
        lookup_entry(es, Bands::M20.mem_key()),
        lookup_entry(es, Bands::M40.mem_key()),
        lookup_entry(es, Bands::M80.mem_key()),
    ];
    assert(r@ =~= bands_from_spec(entries_view(es@)));
    r
}

} // verus!
