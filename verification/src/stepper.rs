//! The stepper motor driven one command at a time.

use vstd::prelude::*;
use vstd::string::*;
use crate::motion::{Direction, direction_spec, moving_spec, pulse_spec, direction_to, still_moving, position_after_pulse};

verus! {

/// A stepper motor driving one of the tuning elements, with its band memories.
#[derive(Clone, Debug)]
pub struct Stepper {
    pub name: String,
    pub pin_a: Option<u8>,
    pub pin_b: Option<u8>,
    pub ena: Option<u8>,
    pub ratio: u8,
    pub pos: i32,
    /// The stored position for each band, in the order of `Bands::index`.
    pub mem: [i32; 5],
    pub max: i32,
    /// The pulse delay, in microseconds.
    pub speed: u64,
    /// True while the motor is moving.
    pub operate: bool,
}

/// Two first-generation motors that differ at most in the position and the
/// moving flag (their pulse delay is fixed, unlike that of `web::Stepper`).
pub open spec fn same_fixed_setup(a: Stepper, b: Stepper) -> bool {
    &&& a.name == b.name
    &&& a.pin_a == b.pin_a
    &&& a.pin_b == b.pin_b
    &&& a.ena == b.ena
    &&& a.ratio == b.ratio
    &&& a.mem == b.mem
    &&& a.max == b.max
    &&& a.speed == b.speed
}

impl Stepper {
    /// A motor called `name`, with no pins, at position zero, with all band memories at zero.
    pub fn new(name: &str) -> (r: Self)
        ensures
            r.name@ == name@,
            r.pin_a is None && r.pin_b is None && r.ena is None,
            r.ratio == 1,
            r.pos == 0,
            forall|i: int| 0 <= i < 5 ==> r.mem@[i] == 0,
            r.max == 100000,
            r.speed == 100,
            !r.operate,
    {
        Stepper {
            name: String::from_str(name),
            pin_a: None,
            pin_b: None,
            ena: None,
            ratio: 1,
            pos: 0,
            mem: [0i32, 0i32, 0i32, 0i32, 0i32],
            max: 100000,
            speed: 100,
            operate: false,
        }
    }

    /// The direction a run towards `val` goes in, or `None` when the motor is there.
    pub fn run_direction(&self, val: u32) -> (r: Option<Direction>)
        ensures
            r == direction_spec(val, self.pos),
    {
        direction_to(val, self.pos)
    }

    /// Starts a move towards `val` on the motor's worker: when the motor has to
    /// move it is marked as moving, and the direction is returned.
    pub fn begin_move(&mut self, val: u32) -> (r: Option<Direction>)
        ensures
            r == direction_spec(val, old(self).pos),
            final(self).operate == (r is Some || old(self).operate),
            final(self).pos == old(self).pos,
            same_fixed_setup(*final(self), *old(self)),
    {
        let d = direction_to(val, self.pos);
        if d.is_some() {
            self.operate = true;
        }
        d
    }

    /// Whether a run in `dir` still has to go on to reach `val`.
    pub fn keep_running(&self, dir: Direction, val: u32) -> (r: bool)
        ensures
            r == moving_spec(dir, val, self.pos),
    {
        still_moving(dir, val, self.pos)
    }

    /// Counts one driver pulse of a run in `dir`; every second pulse moves the
    /// position one count.
    pub fn pulse(&mut self, dir: Direction, count: &mut i32)
        requires
            *old(count) < i32::MAX,
        ensures
            *final(count) == *old(count) + 1,
            final(self).pos == pulse_spec(dir, old(self).pos, *final(count) as int),
            final(self).operate == old(self).operate,
            same_fixed_setup(*final(self), *old(self)),
    {
        *count = *count + 1;
        self.pos = position_after_pulse(dir, self.pos, *count);
    }

    /// Marks the motor as standing still.
    pub fn end_move(&mut self)
        ensures
            !final(self).operate,
            final(self).pos == old(self).pos,
            same_fixed_setup(*final(self), *old(self)),
    {
        self.operate = false;
    }
}

} // verus!
