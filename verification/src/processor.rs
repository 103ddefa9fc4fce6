//! The instruction execution engine: cost metadata, the status register,
//! the instruction set and the processor itself.

pub mod cmos;
pub mod instructions;
pub mod status;

use vstd::prelude::*;
use crate::memory::address::AddressMode;

pub use instructions::Instruction;

verus! {

/// Whether the given bit of a 16-bit value is set.
pub open spec fn spec_bit16(value: u16, bit: u16) -> bool {
    (value >> bit) & 1 == 1
}

/// Reads one bit of a 16-bit value.
pub fn get_bit(value: u16, bit: u16) -> (r: bool)
    requires
        bit < 16,
    ensures
        r == spec_bit16(value, bit),
{
    (value >> bit) & 1 == 1
}

/// Per-(mnemonic, addressing-mode) execution metadata: the opcode byte,
/// the instruction length in bytes, and the base cycle count. Looked up at
/// dispatch time, never mutated.
#[derive(Debug, Clone, Copy)]
pub struct ExecutionMetrics {
    pub op_code: u8,
    pub bytes: u8,
    pub cycles: u8,
}

impl ExecutionMetrics {
    /// Packs the three metadata fields.
    pub fn new(op_code: u8, bytes: u8, cycles: u8) -> (r: Self)
        ensures
            r.op_code == op_code,
            r.bytes == bytes,
            r.cycles == cycles,
    {
        Self { op_code, bytes, cycles }
    }
}

/// The ways an execution request can be refused. Both are caller/decoder
/// bugs, never data-dependent conditions, and both are signalled before any
/// register, flag or memory mutation.
#[derive(Debug, Clone, Copy)]
pub enum ErrorKind {
    /// The cost table holds no definition for the requested
    /// (mnemonic, addressing-mode) combination.
    UnsupportedAddressingMode(Instruction, AddressMode),
    /// The mnemonic is recognized, but no semantic function exists for it
    /// in this build.
    NotYetImplemented(Instruction),
}

} // verus!
