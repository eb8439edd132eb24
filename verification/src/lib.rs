//! Control logic for an HF amplifier/tuner controller: stepper motion,
//! rotary encoder decoding, band memories, power sequencing and the
//! decisions behind the web interface.

pub mod control;
pub mod data;
pub mod encoder;
pub mod entries;
pub mod mcp;
pub mod motion;
pub mod stepper;
pub mod text;
pub mod web;
