//! A verified core of a MOS 6502 emulator.
//!
//! The executable CPU is specified against a ghost machine model: every
//! instruction step is proven equal to a purely mathematical interpreter over
//! that model, so register updates, flag computation, addressing-mode
//! resolution and program-counter advance are all pinned down exactly.

pub mod cpu;
pub mod flags;
pub mod laws;
pub mod model;
pub mod opcode;
