//! The polled rotary encoder.

use vstd::prelude::*;
use crate::web::{count_after, edge_delta};

verus! {

/// A rotary encoder on two GPIO pins and the count it has accumulated; its
/// worker samples channel A and counts on every rising edge.
#[derive(Clone, Debug)]
pub struct Encoder {
    pub pin_a: u8,
    pub pin_b: u8,
    /// Set to ask the encoder's worker to stop.
    pub stop: bool,
    pub count: i32,
}

impl Encoder {
    /// An encoder on pins `pina` (channel A) and `pinb` (channel B), at count zero.
    pub fn new(pina: u8, pinb: u8) -> (r: Self)
        ensures
            r.pin_a == pina,
            r.pin_b == pinb,
            !r.stop,
            r.count == 0,
    {
        Encoder { pin_a: pina, pin_b: pinb, stop: false, count: 0 }
    }

    /// The current count.
    pub fn enc(&self) -> (r: i32)
        ensures
            r == self.count,
    {
        self.count
    }

    /// Takes one sample of both channels, given whether channel A was high at
    /// the last sample that changed the clock state, and returns that state for
    /// the next sample. A rising edge of channel A counts one up when channel B
    /// is low and one down when it is high.
    pub fn poll(&mut self, last_clk_high: bool, a_high: bool, b_high: bool) -> (r: bool)
        ensures
            r == a_high,
            (a_high && !last_clk_high) ==> final(self).count == count_after(old(self).count, edge_delta(b_high)),
            !(a_high && !last_clk_high) ==> final(self).count == old(self).count,
            final(self).pin_a == old(self).pin_a,
            final(self).pin_b == old(self).pin_b,
            final(self).stop == old(self).stop,
    {
        if a_high {
            if !last_clk_high {
                if b_high {
                    self.count = self.count.wrapping_add(-1i32);
                } else {
                    self.count = self.count.wrapping_add(1i32);
                }
            }
            true
        } else {
            false
        }
    }
}

} // verus!
