//! A minimal façade for launching and supervising an external
//! virtual-machine emulator process.
//!
//! The library translates a launch configuration into the exact ordered
//! command-line argument list the emulator expects, and interprets the
//! outcome of a bounded wait on the spawned process.  Spawning, waiting
//! and killing touch the operating system and live outside the library;
//! everything the library computes is specified and verified.

pub mod decimal;
pub mod qemu;
pub mod supervise;
