//! The MCP23017 port expander, driven without a presence check.

use vstd::prelude::*;
use vstd::string::*;
use crate::web::{McpPin, pin_number};

verus! {

/// What the controller knows of the MCP23017 port expander.
#[derive(Clone, Debug)]
pub struct Mcp {
    /// Every pin, in order of its number.
    pub all_pins: [McpPin; 16],
    pub message: String,
}

impl Mcp {
    /// The expander once its bus is open.
    pub fn new() -> (r: Self)
        ensures
            forall|i: int| 0 <= i < 16 ==> pin_number(#[trigger] r.all_pins@[i]) == i,
            r.message@ == "MCP Intioalized ! ! !"@,
    {
        Mcp {
            all_pins: [
                McpPin::A0,
                McpPin::A1,
                McpPin::A2,
                McpPin::A3,
                McpPin::A4,
                McpPin::A5,
                McpPin::A6,
                McpPin::A7,
                McpPin::B0,
                McpPin::B1,
                McpPin::B2,
                McpPin::B3,
                McpPin::B4,
                McpPin::B5,
                McpPin::B6,
                McpPin::B7,
            ],
            message: String::from_str("MCP Intioalized ! ! !"),
        }
    }

    /// The pins to configure as outputs, driven low, when the expander is
    /// initialised: every pin in order of its number.
    pub fn init_pins(&self) -> (r: Vec<McpPin>)
        ensures
            r@.len() == 16,
            forall|i: int| 0 <= i < 16 ==> pin_number(#[trigger] r@[i]) == i,
    {
        let mut out: Vec<McpPin> = Vec::new();
        let mut i: usize = 0;
        while i <= 15
            invariant
                i <= 16,
                out@.len() == i,
                forall|j: int| 0 <= j < i ==> pin_number(#[trigger] out@[j]) == j,
            decreases 16 - i,
        {
            out.push(McpPin::from_number(i).unwrap());
            i = i + 1;
        }
        out
    }
}

/// The delay source that the current sensor is driven with.
#[derive(Clone, Copy, Debug, Default)]
pub struct StdDelay;

} // verus!
