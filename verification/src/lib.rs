//! Bidirectional ADSR envelope conversion between console sound-engine
//! register values and physical units.
//!
//! The core works entirely over integers: forward simulation of each
//! envelope phase yields a step count (time = steps / tick rate) or an
//! amplitude level, and the inverse direction searches the register range
//! for the first candidate whose simulated behaviour crosses an integer
//! threshold supplied by the caller.  Division by the tick rate and the
//! decibel logarithm are left to the (unverified) user interface.

pub mod tables;
pub mod sim;
pub mod search;
pub mod parse;
pub mod state;
pub mod clipboard;
pub mod convert;
