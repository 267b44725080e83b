//! Bring-up of ILI934x-family TFT display controllers.
//!
//! The crate turns panel options into the register encodings of the Display
//! Command Set and plays the controller's power-on script, write by write and
//! wait by wait, against a bus and a delay that the caller supplies.

pub mod dcs;
pub mod interface;
pub mod models;
pub mod options;
pub mod sequence;
