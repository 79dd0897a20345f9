//! Integration layer for a 4-bit microcontroller emulator front-end.
//!
//! The crate decodes program images into 12-bit words, mirrors the
//! execution core's register file for save/restore, models the
//! peripheral bridge (display matrix, icons, audio flags), and carries
//! the fixed-timestep pacing and key-matching decisions of the
//! real-time loop.

pub mod rom;
pub mod state;
pub mod hal;
pub mod engine;
pub mod sched;
pub mod render;
