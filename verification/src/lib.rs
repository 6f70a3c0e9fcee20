//! Core of a keyboard-driven window switcher: a modifier-key chord cycles
//! focus among top-level application windows.
//!
//! The library holds the verified logic only: candidate enumeration and
//! filtering over plain window attributes, the chord-driven switching state
//! machine, and the coordinator that fuses the two OS input sources into one
//! command stream.  All operating-system calls (hooks, hot-keys, window
//! queries, activation, drawing) live outside, in the surrounding binary,
//! which hands this library plain values and carries its decisions out.

pub mod indicator;
pub mod keyboard;
pub mod mode;
pub mod window;
