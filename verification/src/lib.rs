//! Cycle-accurate execution core for an 8-bit processor in the 6502 family.
//!
//! The crate models the processor at the granularity of single bus cycles:
//! every instruction is an ordered sequence of micro-operations, each of
//! which performs one bus transaction plus register effects and then reports
//! a step-control directive (advance, complete, or jump within the
//! sequence).  [`emulator::Emulator::tick`] advances the machine exactly one
//! cycle; [`emulator::Emulator::reset_cpu`] runs the nine-cycle RESET
//! microcode to completion.

pub mod bus;
pub mod cpu;
pub mod emulator;
pub mod operations;
pub mod shared;
pub mod status;
