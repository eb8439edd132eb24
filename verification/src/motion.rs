//! The position arithmetic of a stepper move.
//!
//! A motor's position is stored as a signed 32-bit count, and the motion loop
//! reads it back as an unsigned number when it compares it with a target.
//! Every driver pulse is counted, and the position moves by one count on
//! every second pulse, towards the target.

use vstd::prelude::*;

verus! {

/// Which way a motor turns. `Cw` drives the direction pin high and counts the
/// position up; `Ccw` drives it low and counts the position down.
#[derive(Clone, Copy, Debug, PartialEq, Eq, Structural)]
pub enum Direction {
    Cw,
    Ccw,
}

/// The unsigned value that the motion loop reads from a stored position.
pub open spec fn reading(pos: i32) -> int {
    if pos >= 0 {
        pos as int
    } else {
        pos + 0x1_0000_0000
    }
}

proof fn lemma_cast_reading(pos: i32)
    ensures
        pos as u32 == reading(pos),
{
    assert(pos >= 0 ==> pos as u32 == pos) by (bit_vector);
    assert(pos < 0 ==> pos as u32 == pos + 0x1_0000_0000) by (bit_vector);
}

/// Reads a stored position as the unsigned value the motion loop compares.
pub fn position_reading(pos: i32) -> (r: u32)
    ensures
        r == reading(pos),
{
    proof {
        lemma_cast_reading(pos);
    }
    pos as u32
}

/// The direction a move towards `target` starts in, if the motor has to move at all.
pub open spec fn direction_spec(target: u32, pos: i32) -> Option<Direction> {
    if target > reading(pos) {
        Some(Direction::Cw)
    } else if target < reading(pos) {
        Some(Direction::Ccw)
    } else {
        None
    }
}

/// Whether a move that runs in `dir` still has to go on to reach `target`.
pub open spec fn moving_spec(dir: Direction, target: u32, pos: i32) -> bool {
    match dir {
        Direction::Cw => target > reading(pos),
        Direction::Ccw => target < reading(pos),
    }
}

/// The position one count further in `dir`, wrapping as a 32-bit counter does.
pub open spec fn step_spec(dir: Direction, pos: i32) -> i32 {
    match dir {
        Direction::Cw => pos.wrapping_add(1i32),
        Direction::Ccw => pos.wrapping_add(-1i32),
    }
}

/// The position after a pulse whose number (counted from the start of the move) is `count`.
pub open spec fn pulse_spec(dir: Direction, pos: i32, count: int) -> i32 {
    if count % 2 == 0 {
        step_spec(dir, pos)
    } else {
        pos
    }
}

/// The distance, in counts, between the reading of `pos` and `target`.
pub open spec fn distance(target: u32, pos: i32) -> nat {
    if target >= reading(pos) {
        (target - reading(pos)) as nat
    } else {
        (reading(pos) - target) as nat
    }
}

/// The direction in which a move towards `target` starts, or `None` when the
/// motor already stands there.
pub fn direction_to(target: u32, pos: i32) -> (r: Option<Direction>)
    ensures
        r == direction_spec(target, pos),
{
    let reading = position_reading(pos);
    if target > reading {
        Some(Direction::Cw)
    } else if target < reading {
        Some(Direction::Ccw)
    } else {
        None
    }
}

/// Whether a move in `dir` still has to go on to reach `target`.
pub fn still_moving(dir: Direction, target: u32, pos: i32) -> (r: bool)
    ensures
        r == moving_spec(dir, target, pos),
{
    let reading = position_reading(pos);
    match dir {
        Direction::Cw => target > reading,
        Direction::Ccw => target < reading,
    }
}

/// The position one count further in `dir`.
pub fn step_position(dir: Direction, pos: i32) -> (r: i32)
    ensures
        r == step_spec(dir, pos),
{
    match dir {
        Direction::Cw => pos.wrapping_add(1),
        Direction::Ccw => pos.wrapping_add(-1),
    }
}

/// The position after pulse number `count` of a move in `dir`.
pub fn position_after_pulse(dir: Direction, pos: i32, count: i32) -> (r: i32)
    ensures
        r == pulse_spec(dir, pos, count as int),
{
    if count % 2 == 0 {
        step_position(dir, pos)
    } else {
        pos
    }
}

/// A count in the direction of the move brings the reading one closer to the target.
pub proof fn lemma_step_approaches(dir: Direction, target: u32, pos: i32)
    requires
        moving_spec(dir, target, pos),
    ensures
        reading(step_spec(dir, pos)) == match dir {
            Direction::Cw => reading(pos) + 1,
            Direction::Ccw => reading(pos) - 1,
        },
        distance(target, step_spec(dir, pos)) + 1 == distance(target, pos),
{
}

/// The position and pulse count after `n` more pulses of a move in `dir`, starting
/// at position `pos` with `count` pulses already given.
pub open spec fn run_pulses(dir: Direction, pos: i32, count: int, n: nat) -> i32
    decreases n,
{
    if n == 0 {
        pos
    } else {
        run_pulses(dir, pulse_spec(dir, pos, count + 1), count + 1, (n - 1) as nat)
    }
}

proof fn lemma_run_two_more(dir: Direction, pos: i32, count: int, n: nat)
    requires
        count % 2 == 0,
    ensures
        run_pulses(dir, pos, count, n + 2) == run_pulses(
            dir,
            step_spec(dir, pos),
            count + 2,
            n,
        ),
        run_pulses(dir, pos, count, 1) == pos,
{
    assert(run_pulses(dir, pos, count, n + 2) == run_pulses(
        dir,
        pulse_spec(dir, pos, count + 1),
        count + 1,
        (n + 1) as nat,
    ));
    assert(pulse_spec(dir, pos, count + 1) == pos);
    assert(run_pulses(dir, pos, count + 1, (n + 1) as nat) == run_pulses(
        dir,
        pulse_spec(dir, pos, count + 2),
        count + 2,
        n,
    ));
    assert(run_pulses(dir, pos, count, 1) == run_pulses(
        dir,
        pulse_spec(dir, pos, count + 1),
        count + 1,
        0,
    ));
}

/// A move that runs uninterrupted from an even pulse count keeps going for
/// exactly twice its distance in pulses: after `2k` pulses (`k` no more than the
/// distance) the reading has come `k` counts closer, the move goes on while `k`
/// is short of the distance, and it ends on the target.
pub proof fn lemma_move_progress(dir: Direction, target: u32, pos: i32, count: int, k: nat)
    requires
        moving_spec(dir, target, pos),
        count % 2 == 0,
        k <= distance(target, pos),
    ensures
        distance(target, run_pulses(dir, pos, count, 2 * k)) + k == distance(target, pos),
        k < distance(target, pos) ==> moving_spec(
            dir,
            target,
            run_pulses(dir, pos, count, 2 * k),
        ),
        k < distance(target, pos) ==> moving_spec(
            dir,
            target,
            run_pulses(dir, pos, count, 2 * k + 1),
        ),
        k == distance(target, pos) ==> reading(run_pulses(dir, pos, count, 2 * k)) == target,
    decreases k,
{
    if k == 0 {
        assert(run_pulses(dir, pos, count, 0) == pos);
        lemma_run_two_more(dir, pos, count, 0);
    } else {
        lemma_step_approaches(dir, target, pos);
        let next = step_spec(dir, pos);
        lemma_run_two_more(dir, pos, count, (2 * (k - 1)) as nat);
        lemma_run_two_more(dir, pos, count, (2 * (k - 1) + 1) as nat);
        assert(2 * k == 2 * (k - 1) + 2);
        if distance(target, next) > 0 {
            assert(moving_spec(dir, target, next));
            lemma_move_progress(dir, target, next, count + 2, (k - 1) as nat);
        } else {
            assert(k == 1);
            assert(run_pulses(dir, next, count + 2, 0) == next);
        }
    }
}

/// A move towards `target` from `pos`, started with no pulses given, reaches the
/// target after exactly twice the distance in pulses: before that the motor is
/// still moving after every pulse, and after it the reading equals the target.
pub proof fn move_reaches_target(target: u32, pos: i32, n: nat)
    requires
        direction_spec(target, pos) is Some,
        n <= 2 * distance(target, pos),
    ensures
        n < 2 * distance(target, pos) ==> moving_spec(
            direction_spec(target, pos)->0,
            target,
            run_pulses(direction_spec(target, pos)->0, pos, 0, n),
        ),
        n == 2 * distance(target, pos) ==> reading(
            run_pulses(direction_spec(target, pos)->0, pos, 0, n),
        ) == target,
        n == 2 * distance(target, pos) ==> !moving_spec(
            direction_spec(target, pos)->0,
            target,
            run_pulses(direction_spec(target, pos)->0, pos, 0, n),
        ),
{
    let dir = direction_spec(target, pos)->0;
    assert(moving_spec(dir, target, pos));
    let k = n / 2;
    assert(k <= distance(target, pos));
    lemma_move_progress(dir, target, pos, 0, k);
    if n % 2 == 0 {
        assert(n == 2 * k);
    } else {
        assert(n == 2 * k + 1);
    }
}


/// Running `n + 1` pulses is running `n` pulses and then one more.
pub proof fn run_pulses_snoc(dir: Direction, pos: i32, count: int, n: nat)
    ensures
        run_pulses(dir, pos, count, n + 1) == pulse_spec(dir, run_pulses(dir, pos, count, n), count + n + 1),
    decreases n,
{
    if n == 0 {
        assert(run_pulses(dir, pulse_spec(dir, pos, count + 1), count + 1, 0) == pulse_spec(dir, pos, count + 1));
    } else {
        run_pulses_snoc(dir, pulse_spec(dir, pos, count + 1), count + 1, (n - 1) as nat);
        assert((n - 1) as nat + 1 == n);
    }
}

} // verus!
