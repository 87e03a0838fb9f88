//! A small GPIO pin registry: claim pins as inputs or outputs, drive output
//! levels, read input levels, and reset every claim, with the mode-consistency
//! rules stated as contracts and proved.
//!
//! The registry can sit on top of a real board, reached through `rppal`, or on
//! top of a simulated board whose line levels are plain values; the claim
//! bookkeeping is the same either way.

pub mod controller;
pub mod hardware;
pub mod laws;
pub mod protocol;
pub mod text;
