//! The hardware layer in use: the interrupt-driven rotary encoder, the
//! stepper motors with their acceleration profile, and the MCP23017 port
//! expander that drives the power and band relays.

use vstd::prelude::*;
use vstd::string::*;
use crate::data::{Bands, band_index};
use crate::motion::{
    Direction, direction_spec, moving_spec, pulse_spec, reading, direction_to, still_moving,
    position_after_pulse, position_reading, run_pulses, distance,
};
use crate::text::str_eq;

verus! {

/// The I2C address of the MCP23017 port expander.
pub const MCP23017_ADDRESS: u8 = 0x20;

/// How many times opening the I2C bus is attempted at start-up.
pub const I2C_RETRY_COUNT: u8 = 12;

/// Seconds to wait between two attempts at opening the I2C bus.
pub const I2C_RETRY_DELAY_SECS: u64 = 5;

/// The encoder count after `count` moves by `delta` (wrapping as a 32-bit counter).
pub open spec fn count_after(count: i32, delta: i32) -> i32 {
    count.wrapping_add(delta)
}

/// The quadrature decision taken on a rising edge of channel A: one count up
/// when channel B is low, one count down when it is high.
pub open spec fn edge_delta(b_high: bool) -> i32 {
    if b_high {
        -1i32
    } else {
        1i32
    }
}

/// A rotary encoder on two GPIO pins and the count it has accumulated.
#[derive(Clone, Debug)]
pub struct Encoder {
    pub pin_a: u8,
    pub pin_b: u8,
    /// Set to ask the encoder's worker to stop.
    pub stop: bool,
    pub count: i32,
}

impl Default for Encoder {
    fn default() -> (r: Self)
        ensures
            r.pin_a == 0,
            r.pin_b == 0,
            !r.stop,
            r.count == 0,
    {
        Encoder { pin_a: 0, pin_b: 0, stop: false, count: 0 }
    }
}

impl Encoder {
    /// An encoder on pins `pina` (channel A) and `pinb` (channel B), at count zero.
    pub fn new(pina: u8, pinb: u8) -> (r: Self)
        ensures
            r.pin_a == pina,
            r.pin_b == pinb,
            !r.stop,
            r.count == 0,
    {
        Encoder { pin_a: pina, pin_b: pinb, stop: false, count: 0 }
    }

    /// The current count.
    pub fn enc(&self) -> (r: i32)
        ensures
            r == self.count,
    {
        self.count
    }

    /// Handles a rising edge on channel A, given the level of channel B.
    pub fn on_rising_edge(&mut self, b_high: bool)
        ensures
            final(self).count == count_after(old(self).count, edge_delta(b_high)),
            final(self).pin_a == old(self).pin_a,
            final(self).pin_b == old(self).pin_b,
            final(self).stop == old(self).stop,
    {
        if b_high {
            self.count = self.count.wrapping_add(-1i32);
        } else {
            self.count = self.count.wrapping_add(1i32);
        }
    }

    /// Overwrites the count.
    pub fn set_count(&mut self, value: i32)
        ensures
            final(self).count == value,
            final(self).pin_a == old(self).pin_a,
            final(self).pin_b == old(self).pin_b,
            final(self).stop == old(self).stop,
    {
        self.count = value;
    }

    /// Asks the encoder's worker to stop.
    pub fn request_stop(&mut self)
        ensures
            final(self).stop,
            final(self).count == old(self).count,
            final(self).pin_a == old(self).pin_a,
            final(self).pin_b == old(self).pin_b,
    {
        self.stop = true;
    }
}

/// The pulse delay, in microseconds, for a window of `steps` steps: the
/// further from the start (or from the end) of a move, the faster the pulses.
pub open spec fn window_delay(steps: int) -> u64 {
    if steps < 20 {
        5000
    } else if steps < 50 {
        3500
    } else if steps < 100 {
        2500
    } else if steps < 180 {
        1600
    } else if steps < 300 {
        1100
    } else if steps < 450 {
        800
    } else if steps < 650 {
        600
    } else if steps < 900 {
        400
    } else if steps < 1200 {
        300
    } else {
        200
    }
}

/// The pulse delay for a move that has `remaining` steps to go after `taken`
/// pulses: the slower of the acceleration and the deceleration delays.
pub open spec fn speed_spec(remaining: u32, taken: i32) -> u64 {
    let accel = if taken <= 0 { 0 } else { taken as int };
    let a = window_delay(accel);
    let d = window_delay(remaining as int);
    if a >= d {
        a
    } else {
        d
    }
}

/// The stored name of the inductor motor, whose pulses follow the acceleration profile.
pub open spec fn is_inductor(name: Seq<char>) -> bool {
    name == "ind"@
}

/// The fixed pulse delay of the inductor motor under manual (encoder) control.
pub const MANUAL_SPEED_MICROS: u64 = 200;

/// What happens to a motor's worker after it has taken a command and those that
/// queued behind it: `None` when any of them asks it to stop, otherwise the
/// target and manual flag of the last one.
pub open spec fn command_outcome(first: (u32, bool, bool), queued: Seq<(u32, bool, bool)>) -> Option<
    (u32, bool),
>
    decreases queued.len(),
{
    if first.1 || exists|i: int| 0 <= i < queued.len() && (#[trigger] queued[i]).1 {
        None
    } else if queued.len() == 0 {
        Some((first.0, first.2))
    } else {
        Some((queued.last().0, queued.last().2))
    }
}

/// A move of a motor towards a target, as its worker runs it.
#[derive(Clone, Copy, Debug)]
pub struct Move {
    pub target: u32,
    pub manual: bool,
    /// The direction the move started in; the move goes on while the target lies that way.
    pub dir: Direction,
    /// Pulses given since the move started.
    pub steps_taken: i32,
}

/// The direction the direction pin has to be switched to when a move running in
/// `dir` is given the new target `target` at position `pos`: the other way when
/// the target now lies behind the motor, otherwise `None`.
pub open spec fn turn_for(dir: Direction, target: u32, pos: i32) -> Option<Direction> {
    match dir {
        Direction::Cw => if (target as int) < reading(pos) {
            Some(Direction::Ccw)
        } else {
            None
        },
        Direction::Ccw => if (target as int) > reading(pos) {
            Some(Direction::Cw)
        } else {
            None
        },
    }
}

/// What a motor's worker does with a command that arrives while it moves.
#[derive(Clone, Copy, Debug, PartialEq, Eq, Structural)]
pub enum MoveStep {
    /// The command asked the worker to stop: the move ends and the worker with it.
    Stop,
    /// The move goes on towards the command's target; the direction pin is
    /// switched when the payload says so.
    Go(Option<Direction>),
}

/// A stepper motor driving one of the tuning elements, with its band memories.
#[derive(Clone, Debug)]
pub struct Stepper {
    pub name: String,
    pub pin_a: Option<u8>,
    pub pin_b: Option<u8>,
    pub ena: Option<u8>,
    pub ratio: u8,
    pub pos: i32,
    /// The stored position for each band, in the order of `Bands::index`.
    pub mem: [i32; 5],
    pub max: i32,
    /// The pulse delay, in microseconds, that the motor's worker starts with.
    pub speed: u64,
    /// True while the motor is moving.
    pub operate: bool,
}

/// The state of a motor right after it was created.
pub open spec fn fresh_stepper(s: Stepper, name: Seq<char>) -> bool {
    &&& s.name@ == name
    &&& s.pin_a is None
    &&& s.pin_b is None
    &&& s.ena is None
    &&& s.ratio == 1
    &&& s.pos == 0
    &&& forall|i: int| 0 <= i < 5 ==> s.mem@[i] == 0
    &&& s.max == 100000
    &&& s.speed == 100
    &&& !s.operate
}

/// Two motors that differ at most in the position, the pulse delay and the moving flag.
pub open spec fn same_setup(a: Stepper, b: Stepper) -> bool {
    &&& a.name == b.name
    &&& a.pin_a == b.pin_a
    &&& a.pin_b == b.pin_b
    &&& a.ena == b.ena
    &&& a.ratio == b.ratio
    &&& a.mem == b.mem
    &&& a.max == b.max
}

/// The delay with which the next pulse of a move is given, and the motor's new pulse delay.
pub open spec fn next_speed(name: Seq<char>, speed: u64, mv: Move, pos: i32) -> u64 {
    if is_inductor(name) && !mv.manual {
        speed_spec(
            (match mv.dir {
                Direction::Cw => mv.target - reading(pos),
                Direction::Ccw => reading(pos) - mv.target,
            }) as u32,
            mv.steps_taken,
        )
    } else if is_inductor(name) && mv.manual {
        MANUAL_SPEED_MICROS
    } else {
        speed
    }
}

impl Stepper {
    /// A motor called `name`, with no pins, at position zero, with all band memories at zero.
    pub fn new(name: &str) -> (r: Self)
        ensures
            fresh_stepper(r, name@),
    {
        Stepper {
            name: String::from_str(name),
            pin_a: None,
            pin_b: None,
            ena: None,
            ratio: 1,
            pos: 0,
            mem: [0i32, 0i32, 0i32, 0i32, 0i32],
            max: 100000,
            speed: 100,
            operate: false,
        }
    }

    /// The pulse delay for the step window `steps`.
    pub fn delay_for_window(steps: u32) -> (r: u64)
        ensures
            r == window_delay(steps as int),
    {
        if steps < 20 {
            5000
        } else if steps < 50 {
            3500
        } else if steps < 100 {
            2500
        } else if steps < 180 {
            1600
        } else if steps < 300 {
            1100
        } else if steps < 450 {
            800
        } else if steps < 650 {
            600
        } else if steps < 900 {
            400
        } else if steps < 1200 {
            300
        } else {
            200
        }
    }

    /// The pulse delay, in microseconds, for a move with `remaining_steps` to go
    /// after `steps_taken` pulses. The slower side wins, so the motor never runs
    /// faster than its remaining stopping distance allows.
    pub fn calc_speed(remaining_steps: u32, steps_taken: i32) -> (r: u64)
        ensures
            r == speed_spec(remaining_steps, steps_taken),
    {
        let accel_window: u32 = if steps_taken <= 0 {
            0
        } else {
            steps_taken as u32
        };
        let accel_delay = Self::delay_for_window(accel_window);
        let decel_delay = Self::delay_for_window(remaining_steps);
        if accel_delay >= decel_delay {
            accel_delay
        } else {
            decel_delay
        }
    }

    /// Starts a move towards `target`: when the motor is not already there, it
    /// is marked as moving and the move is returned with its direction.
    pub fn begin_move(&mut self, target: u32, manual: bool) -> (r: Option<Move>)
        ensures
            same_setup(*final(self), *old(self)),
            final(self).pos == old(self).pos,
            final(self).speed == old(self).speed,
            match direction_spec(target, old(self).pos) {
                Some(d) => r == Some(
                    Move { target, manual, dir: d, steps_taken: 0 },
                ) && final(self).operate,
                None => r is None && final(self).operate == old(self).operate,
            },
    {
        match direction_to(target, self.pos) {
            Some(d) => {
                self.operate = true;
                Some(Move { target, manual, dir: d, steps_taken: 0 })
            },
            None => None,
        }
    }

    /// Whether the move still has to go on.
    pub fn move_continues(&self, mv: &Move) -> (r: bool)
        ensures
            r == moving_spec(mv.dir, mv.target, self.pos),
    {
        still_moving(mv.dir, mv.target, self.pos)
    }

    /// Prepares the next pulse of a move that still has to go on, given the
    /// pulse delay the worker has been running at: counts the pulse and returns
    /// the delay to hold each half of it for, which the worker keeps for the
    /// next pulse. The inductor follows the acceleration profile, or a fixed
    /// fast delay under manual control; other motors keep their delay.
    pub fn prepare_pulse(&self, mv: &mut Move, speed: u64) -> (r: u64)
        requires
            moving_spec(old(mv).dir, old(mv).target, self.pos),
            old(mv).steps_taken < i32::MAX,
        ensures
            r == next_speed(self.name@, speed, *old(mv), self.pos),
            self.name@ == "ind"@ && !old(mv).manual ==> r == speed_spec(distance(old(mv).target, self.pos) as u32, old(mv).steps_taken),
            final(mv).steps_taken == old(mv).steps_taken + 1,
            final(mv).target == old(mv).target,
            final(mv).manual == old(mv).manual,
            final(mv).dir == old(mv).dir,
    {
        let inductor = str_eq(self.name.as_str(), "ind");
        let mut delay = speed;
        if inductor && !mv.manual {
            let here = position_reading(self.pos);
            let remaining = match mv.dir {
                Direction::Cw => mv.target - here,
                Direction::Ccw => here - mv.target,
            };
            delay = Self::calc_speed(remaining, mv.steps_taken);
        } else if inductor && mv.manual {
            delay = MANUAL_SPEED_MICROS;
        }
        mv.steps_taken = mv.steps_taken + 1;
        delay
    }

    /// Completes the pulse that `prepare_pulse` counted: every second pulse
    /// moves the position one count in the move's direction.
    pub fn finish_pulse(&mut self, mv: &Move)
        ensures
            same_setup(*final(self), *old(self)),
            final(self).pos == pulse_spec(mv.dir, old(self).pos, mv.steps_taken as int),
            final(self).speed == old(self).speed,
            final(self).operate == old(self).operate,
    {
        self.pos = position_after_pulse(mv.dir, self.pos, mv.steps_taken);
    }

    /// Takes a new target that arrived while moving. Returns the direction the
    /// direction pin has to be switched to when the new target lies behind the
    /// motor, and `None` when the pin stays as it is.
    pub fn retarget(&self, mv: &mut Move, target: u32, manual: bool) -> (r: Option<Direction>)
        ensures
            final(mv).target == target,
            final(mv).manual == manual,
            final(mv).dir == old(mv).dir,
            final(mv).steps_taken == old(mv).steps_taken,
            r == turn_for(old(mv).dir, target, self.pos),
    {
        mv.target = target;
        mv.manual = manual;
        let here = position_reading(self.pos);
        match mv.dir {
            Direction::Cw => if target < here {
                Some(Direction::Ccw)
            } else {
                None
            },
            Direction::Ccw => if target > here {
                Some(Direction::Cw)
            } else {
                None
            },
        }
    }

    /// Decides a command `cmd` (target, stop, manual) that arrived while the move
    /// `mv` runs. A stop ends the move: the motor is marked as standing still
    /// where it is and the worker is to give no further pulse and end. Any other
    /// command retargets the move, as `retarget` does, and the move goes on.
    pub fn command_during_move(&mut self, mv: &mut Move, cmd: (u32, bool, bool)) -> (r: MoveStep)
        ensures
            cmd.1 ==> r == MoveStep::Stop && !final(self).operate && same_setup(*final(self), *old(self))
                && final(self).pos == old(self).pos && final(self).speed == old(self).speed
                && *final(mv) == *old(mv),
            !cmd.1 ==> *final(self) == *old(self) && final(mv).target == cmd.0 && final(mv).manual == cmd.2
                && final(mv).dir == old(mv).dir && final(mv).steps_taken == old(mv).steps_taken
                && r == MoveStep::Go(turn_for(old(mv).dir, cmd.0, old(self).pos)),
    {
        if cmd.1 {
            self.end_move();
            MoveStep::Stop
        } else {
            MoveStep::Go(self.retarget(mv, cmd.0, cmd.2))
        }
    }

    /// Marks the motor as standing still, when a move ends or is stopped.
    pub fn end_move(&mut self)
        ensures
            same_setup(*final(self), *old(self)),
            final(self).pos == old(self).pos,
            final(self).speed == old(self).speed,
            !final(self).operate,
    {
        self.operate = false;
    }

    /// Decides what a motor's worker does after it has taken the command
    /// `first` and the commands `queued` behind it: stop (`None`), or move
    /// towards the target of the last one under its manual flag.
    pub fn take_commands(first: (u32, bool, bool), queued: &Vec<(u32, bool, bool)>) -> (r: Option<
        (u32, bool),
    >)
        ensures
            r == command_outcome(first, queued@),
    {
        let mut target = first.0;
        let mut manual = first.2;
        let mut i: usize = 0;
        while i < queued.len()
            invariant
                i <= queued@.len(),
                forall|j: int| 0 <= j < i ==> !(#[trigger] queued@[j]).1,
                i == 0 ==> target == first.0 && manual == first.2,
                i > 0 ==> target == queued@[i - 1].0 && manual == queued@[i - 1].2,
            decreases queued.len() - i,
        {
            let c = queued[i];
            if c.1 {
                return None;
            }
            target = c.0;
            manual = c.2;
            i = i + 1;
        }
        if first.1 {
            return None;
        }
        Some((target, manual))
    }

    /// Stores the current position in the memory of `band`.
    pub fn store_band(&mut self, band: Bands)
        ensures
            final(self).mem@ == old(self).mem@.update(band_index(band), old(self).pos),
            final(self).pos == old(self).pos,
            final(self).name == old(self).name,
            final(self).pin_a == old(self).pin_a,
            final(self).pin_b == old(self).pin_b,
            final(self).ena == old(self).ena,
            final(self).ratio == old(self).ratio,
            final(self).max == old(self).max,
            final(self).speed == old(self).speed,
            final(self).operate == old(self).operate,
    {
        let i = band.index();
        let p = self.pos;
        self.mem[i] = p;
    }

    /// The position stored in the memory of `band`.
    pub fn recall_band(&self, band: Bands) -> (r: i32)
        ensures
            r == self.mem@[band_index(band)],
    {
        self.mem[band.index()]
    }
}

/// A driver pulse moves the position by at most one count, in the direction of the move.
pub proof fn pulse_moves_one_count(dir: Direction, target: u32, pos: i32, count: int)
    requires
        moving_spec(dir, target, pos),
    ensures
        reading(pulse_spec(dir, pos, count)) == reading(pos) || reading(pulse_spec(dir, pos, count))
            == match dir {
            Direction::Cw => reading(pos) + 1,
            Direction::Ccw => reading(pos) - 1,
        },
{
    crate::motion::lemma_step_approaches(dir, target, pos);
}

/// For the inductor under automatic control, the delay of each pulse of a move
/// that still has to go on is the one `calc_speed` gives for the distance that
/// remains between the position and the target and the pulses already given,
/// whichever way the move runs: the motor slows down as it nears the target in
/// both directions.
pub proof fn inductor_delay_follows_remaining_distance(speed: u64, mv: Move, pos: i32)
    requires
        !mv.manual,
        moving_spec(mv.dir, mv.target, pos),
    ensures
        next_speed("ind"@, speed, mv, pos) == speed_spec(distance(mv.target, pos) as u32, mv.steps_taken),
{
}

/// Under manual control the inductor runs at the fixed fast delay, and every
/// other motor keeps the delay it runs at.
pub proof fn manual_and_other_motor_delays(name: Seq<char>, speed: u64, mv: Move, pos: i32)
    ensures
        name == "ind"@ && mv.manual ==> next_speed(name, speed, mv, pos) == MANUAL_SPEED_MICROS,
        name != "ind"@ ==> next_speed(name, speed, mv, pos) == speed,
{
}

/// The pulse delay never undercuts the deceleration delay for the remaining
/// distance, nor the acceleration delay for the pulses given so far, and it is
/// one of the two.
pub proof fn speed_respects_both_ramps(remaining: u32, taken: i32)
    ensures
        speed_spec(remaining, taken) >= window_delay(remaining as int),
        speed_spec(remaining, taken) >= window_delay(if taken <= 0 { 0 } else { taken as int }),
        speed_spec(remaining, taken) == window_delay(remaining as int) || speed_spec(remaining, taken)
            == window_delay(if taken <= 0 { 0 } else { taken as int }),
{
}

/// The window delay never grows as the window widens: the motor only speeds up
/// as it gets further from the ends of a move.
pub proof fn window_delay_non_increasing(a: int, b: int)
    requires
        a <= b,
    ensures
        window_delay(b) <= window_delay(a),
{
}

/// A pin of the MCP23017 port expander.
#[derive(Clone, Copy, Debug, PartialEq, Eq, Structural)]
pub enum McpPin {
    A0,
    A1,
    A2,
    A3,
    A4,
    A5,
    A6,
    A7,
    B0,
    B1,
    B2,
    B3,
    B4,
    B5,
    B6,
    B7,
}

/// The number of a port expander pin (A0 is 0, B7 is 15).
pub open spec fn pin_number(p: McpPin) -> int {
    match p {
        McpPin::A0 => 0,
        McpPin::A1 => 1,
        McpPin::A2 => 2,
        McpPin::A3 => 3,
        McpPin::A4 => 4,
        McpPin::A5 => 5,
        McpPin::A6 => 6,
        McpPin::A7 => 7,
        McpPin::B0 => 8,
        McpPin::B1 => 9,
        McpPin::B2 => 10,
        McpPin::B3 => 11,
        McpPin::B4 => 12,
        McpPin::B5 => 13,
        McpPin::B6 => 14,
        McpPin::B7 => 15,
    }
}

/// The name of a port expander pin ("A0" ... "B7").
pub open spec fn pin_name(p: McpPin) -> Seq<char> {
    match p {
        McpPin::A0 => "A0"@,
        McpPin::A1 => "A1"@,
        McpPin::A2 => "A2"@,
        McpPin::A3 => "A3"@,
        McpPin::A4 => "A4"@,
        McpPin::A5 => "A5"@,
        McpPin::A6 => "A6"@,
        McpPin::A7 => "A7"@,
        McpPin::B0 => "B0"@,
        McpPin::B1 => "B1"@,
        McpPin::B2 => "B2"@,
        McpPin::B3 => "B3"@,
        McpPin::B4 => "B4"@,
        McpPin::B5 => "B5"@,
        McpPin::B6 => "B6"@,
        McpPin::B7 => "B7"@,
    }
}

/// A pin's name is its bank ("A" for pins 0 to 7, "B" for 8 to 15) followed by
/// its place within the bank, and distinct pins have distinct numbers.
pub proof fn pin_names_follow_numbers(p: McpPin, q: McpPin)
    ensures
        0 <= pin_number(p) < 16,
        pin_name(p) == seq![if pin_number(p) < 8 { 'A' } else { 'B' }, crate::text::digit_char((pin_number(p) % 8) as nat)],
        pin_number(p) == pin_number(q) ==> p == q,
{
    reveal_strlit("A0");
    reveal_strlit("A1");
    reveal_strlit("A2");
    reveal_strlit("A3");
    reveal_strlit("A4");
    reveal_strlit("A5");
    reveal_strlit("A6");
    reveal_strlit("A7");
    reveal_strlit("B0");
    reveal_strlit("B1");
    reveal_strlit("B2");
    reveal_strlit("B3");
    reveal_strlit("B4");
    reveal_strlit("B5");
    reveal_strlit("B6");
    reveal_strlit("B7");
    assert(pin_name(p) =~= seq![if pin_number(p) < 8 { 'A' } else { 'B' }, crate::text::digit_char((pin_number(p) % 8) as nat)]);
}

impl McpPin {
    /// The number of this pin (A0 is 0, B7 is 15).
    pub fn number(&self) -> (r: usize)
        ensures
            r == pin_number(*self),
            r < 16,
    {
        match self {
            McpPin::A0 => 0,
            McpPin::A1 => 1,
            McpPin::A2 => 2,
            McpPin::A3 => 3,
            McpPin::A4 => 4,
            McpPin::A5 => 5,
            McpPin::A6 => 6,
            McpPin::A7 => 7,
            McpPin::B0 => 8,
            McpPin::B1 => 9,
            McpPin::B2 => 10,
            McpPin::B3 => 11,
            McpPin::B4 => 12,
            McpPin::B5 => 13,
            McpPin::B6 => 14,
            McpPin::B7 => 15,
        }
    }

    /// The pin with number `i`, if there is one.
    pub fn from_number(i: usize) -> (r: Option<McpPin>)
        ensures
            i < 16 <==> r is Some,
            r matches Some(p) ==> pin_number(p) == i,
    {
        if i == 0 {
            Some(McpPin::A0)
        } else if i == 1 {
            Some(McpPin::A1)
        } else if i == 2 {
            Some(McpPin::A2)
        } else if i == 3 {
            Some(McpPin::A3)
        } else if i == 4 {
            Some(McpPin::A4)
        } else if i == 5 {
            Some(McpPin::A5)
        } else if i == 6 {
            Some(McpPin::A6)
        } else if i == 7 {
            Some(McpPin::A7)
        } else if i == 8 {
            Some(McpPin::B0)
        } else if i == 9 {
            Some(McpPin::B1)
        } else if i == 10 {
            Some(McpPin::B2)
        } else if i == 11 {
            Some(McpPin::B3)
        } else if i == 12 {
            Some(McpPin::B4)
        } else if i == 13 {
            Some(McpPin::B5)
        } else if i == 14 {
            Some(McpPin::B6)
        } else if i == 15 {
            Some(McpPin::B7)
        } else {
            None
        }
    }

    /// The pin called `name` ("A0" ... "B7"), if there is one.
    pub fn from_name(name: &str) -> (r: Option<McpPin>)
        ensures
            r matches Some(p) ==> pin_name(p) == name@,
            r is None ==> forall|p: McpPin| pin_name(p) != name@,
    {
        let mut i: usize = 0;
        while i < 16
            invariant
                i <= 16,
                forall|p: McpPin| pin_number(p) < i ==> pin_name(p) != name@,
            decreases 16 - i,
        {
            let p = McpPin::from_number(i).unwrap();
            if str_eq(p.name(), name) {
                return Some(p);
            }
            i = i + 1;
        }
        None
    }

    /// The name of this pin.
    pub fn name(&self) -> (r: &'static str)
        ensures
            r@ == pin_name(*self),
    {
        match self {
            McpPin::A0 => "A0",
            McpPin::A1 => "A1",
            McpPin::A2 => "A2",
            McpPin::A3 => "A3",
            McpPin::A4 => "A4",
            McpPin::A5 => "A5",
            McpPin::A6 => "A6",
            McpPin::A7 => "A7",
            McpPin::B0 => "B0",
            McpPin::B1 => "B1",
            McpPin::B2 => "B2",
            McpPin::B3 => "B3",
            McpPin::B4 => "B4",
            McpPin::B5 => "B5",
            McpPin::B6 => "B6",
            McpPin::B7 => "B7",
        }
    }
}

/// The message shown once the port expander has been probed.
pub open spec fn mcp_message(present: bool) -> Seq<char> {
    if present {
        "MCP Intioalized ! ! !"@
    } else {
        "MCP not detected"@
    }
}

/// The message refusing a read (`write` false) or a write of `pin` while the
/// expander is not present.
pub open spec fn absent_message(pin: McpPin, write: bool) -> Seq<char> {
    "MCP23017 is not present; cannot "@ + (if write {
        "set "@
    } else {
        "read "@
    }) + pin_name(pin)
}

/// What the controller knows of the MCP23017 port expander.
#[derive(Clone, Debug)]
pub struct Mcp {
    /// Every pin, in order of its number.
    pub all_pins: [McpPin; 16],
    /// The I2C addresses found on the bus.
    pub device_list: Vec<u16>,
    pub mcp_present: bool,
    pub message: String,
}

impl Mcp {
    /// The expander after the bus was probed for it; `mcp_present` tells whether it answered.
    pub fn new(mcp_present: bool) -> (r: Self)
        ensures
            forall|i: int| 0 <= i < 16 ==> pin_number(#[trigger] r.all_pins@[i]) == i,
            r.mcp_present == mcp_present,
            r.device_list@ == (if mcp_present {
                seq![MCP23017_ADDRESS as u16]
            } else {
                Seq::<u16>::empty()
            }),
            r.message@ == mcp_message(mcp_present),
    {
        let all_pins = [
            McpPin::A0,
            McpPin::A1,
            McpPin::A2,
            McpPin::A3,
            McpPin::A4,
            McpPin::A5,
            McpPin::A6,
            McpPin::A7,
            McpPin::B0,
            McpPin::B1,
            McpPin::B2,
            McpPin::B3,
            McpPin::B4,
            McpPin::B5,
            McpPin::B6,
            McpPin::B7,
        ];
        let mut devices: Vec<u16> = Vec::new();
        if mcp_present {
            devices.push(MCP23017_ADDRESS as u16);
        }
        let message = if mcp_present {
            String::from_str("MCP Intioalized ! ! !")
        } else {
            String::from_str("MCP not detected")
        };
        Mcp { all_pins, device_list: devices, mcp_present, message }
    }

    /// Whether a read (`write` false) or a write of `pin` may go to the
    /// expander: it may when the expander is present; otherwise the access is
    /// refused with a message that names the pin.
    pub fn pin_access(&self, pin: McpPin, write: bool) -> (r: Result<(), String>)
        ensures
            self.mcp_present ==> r is Ok,
            !self.mcp_present ==> (r matches Err(m) && m@ == absent_message(pin, write)),
    {
        if self.mcp_present {
            Ok(())
        } else {
            let mut m = String::from_str("MCP23017 is not present; cannot ");
            if write {
                m.append("set ");
            } else {
                m.append("read ");
            }
            m.append(pin.name());
            Err(m)
        }
    }

    /// The pins to configure as outputs, driven low, when the expander is
    /// initialised: every pin in order of its number, or none when the
    /// expander is not present.
    pub fn init_pins(&self) -> (r: Vec<McpPin>)
        ensures
            !self.mcp_present ==> r@.len() == 0,
            self.mcp_present ==> r@.len() == 16 && forall|i: int|
                0 <= i < 16 ==> pin_number(#[trigger] r@[i]) == i,
    {
        let mut out: Vec<McpPin> = Vec::new();
        if !self.mcp_present {
            return out;
        }
        let mut i: usize = 0;
        while i <= 15
            invariant
                i <= 16,
                out@.len() == i,
                forall|j: int| 0 <= j < i ==> pin_number(#[trigger] out@[j]) == j,
            decreases 16 - i,
        {
            out.push(McpPin::from_number(i).unwrap());
            i = i + 1;
        }
        out
    }

    /// Whether another attempt at opening the I2C bus follows a failed attempt
    /// number `attempt` (counted from one); after the last one start-up fails.
    pub fn retry_open(attempt: u8) -> (r: bool)
        ensures
            r == (attempt < I2C_RETRY_COUNT),
    {
        attempt < I2C_RETRY_COUNT
    }
}

/// The delay source that the current sensors are driven with.
#[derive(Clone, Copy, Debug, Default)]
pub struct StdDelay;


/// A motor worker follows the pulse model of a move: when the position after
/// `k` pulses of a move from `start` is what `run_pulses` gives, the position
/// after the next pulse (`prepare_pulse` counts it as pulse `k + 1`,
/// `finish_pulse` applies it) is what `run_pulses` gives for `k + 1` pulses.
pub proof fn worker_follows_pulse_model(dir: Direction, start: i32, k: nat, before: i32, after: i32)
    requires
        before == run_pulses(dir, start, 0, k),
        after == pulse_spec(dir, before, (k + 1) as int),
    ensures
        after == run_pulses(dir, start, 0, k + 1),
{
    crate::motion::run_pulses_snoc(dir, start, 0, k);
}

} // verus!
