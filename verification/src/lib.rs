//! Cycle-accurate execution core for a CMOS 6502-family microprocessor.
//!
//! The crate models the register file, the status-flag register,
//! addressing-mode resolution (including wrap-around and page-crossing
//! cycle penalties), and per-instruction execution semantics against a
//! pluggable byte-addressable memory.

pub mod memory;
pub mod processor;
