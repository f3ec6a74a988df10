//! A verified CHIP-8 execution engine.
//!
//! The library owns the whole machine state (memory, registers, call
//! stack, timers, index register, program counter and the monochrome
//! framebuffer) and executes one instruction per `tick` call.  The
//! behaviour of `tick` is pinned down by a mathematical single-step
//! relation over a ghost view of the machine, so every opcode's effect
//! (including the XOR sprite draw with its collision flag) is proved,
//! not just tested.
//!
//! Peripherals stay outside: the host scans its keypad and hands the
//! engine a key snapshot, reads the framebuffer back to refresh its
//! display, and drives the two countdown timers at its own rate.  Only
//! the random-number source lives inside the engine, behind a narrow
//! trusted boundary.

pub mod state;
pub mod decode;
pub mod step;
pub mod chip8;
pub mod laws;
mod rng_port;

pub use chip8::Chip8;

pub use state::Fault;
pub use state::VmState;
