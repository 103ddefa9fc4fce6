//! The CMOS-variant processor: register file, status register, dispatch.

pub mod addressing;
pub mod instructions;

use vstd::prelude::*;
use crate::memory::address::{
    compose_address, page_of, wrap_add8, wrap_add16, Address, AddressMode,
};
use crate::memory::Memory;
use crate::processor::status::Status;
use crate::processor::{ErrorKind, Instruction};

verus! {

/// A 64-bit sum, wrapped modulo 2^64.
pub open spec fn wrap_add64(a: u64, d: u64) -> u64 {
    ((a + d) % 0x1_0000_0000_0000_0000) as u64
}

/// Whether an addressing mode has a defined resolution rule: every mode
/// except the not-yet-defined ZeroPageY and Relative.
pub open spec fn resolvable(mode: AddressMode) -> bool {
    match mode {
        AddressMode::ZeroPageY(_) => false,
        AddressMode::Relative(_) => false,
        _ => true,
    }
}

/// Whether an addressing mode resolves to a memory address (rather than to
/// an operand embedded in the mode itself).
pub open spec fn is_memory_mode(mode: AddressMode) -> bool {
    match mode {
        AddressMode::Implied => false,
        AddressMode::Immediate(_) => false,
        AddressMode::ZeroPageY(_) => false,
        AddressMode::Relative(_) => false,
        _ => true,
    }
}

/// The execution engine: owns its register file and status register and
/// the memory backend it drives.
pub struct CmosProcessor<M: Memory> {
    pub program_counter: u16,
    pub accumulator: u8,
    pub x: u8,
    pub y: u8,
    pub status: Status,
    pub stack_pointer: u8,
    pub memory: M,
    pub cycles: u64,
}

impl<M: Memory> CmosProcessor<M> {
    /// Well-formedness: the memory backend is well-formed.
    pub open spec fn inv(self) -> bool {
        self.memory.inv()
    }

    /// The 16-bit pointer stored little-endian at the given address: the
    /// low byte there, the high byte at the next address (wrapping within
    /// the 16-bit space).
    pub open spec fn pointer_at(self, lookup: u16) -> u16 {
        compose_address(self.memory.mem_at(lookup), self.memory.mem_at(wrap_add16(lookup, 1)))
    }

    /// Addressing-mode resolution: the effective address and the
    /// page-crossing cycle penalty for memory modes, `None` for the modes
    /// whose operand is embedded in the mode itself. Unspecified for the
    /// not-yet-defined ZeroPageY and Relative modes.
    pub open spec fn spec_translate(self, mode: AddressMode) -> Option<(Address, u8)> {
        match mode {
            AddressMode::ZeroPage(zp) => Some((Address(zp.0 as u16), 0u8)),
            AddressMode::ZeroPageX(zp) => Some((Address(wrap_add8(zp.0, self.x) as u16), 0u8)),
            AddressMode::Absolute(a) => Some((a, 0u8)),
            AddressMode::AbsoluteX(a) => Some(
                (
                    Address(wrap_add16(a.0, self.x as u16)),
                    if page_of(wrap_add16(a.0, self.x as u16)) != page_of(a.0) {
                        1u8
                    } else {
                        0u8
                    },
                ),
            ),
            AddressMode::AbsoluteY(a) => Some(
                (
                    Address(wrap_add16(a.0, self.y as u16)),
                    if page_of(wrap_add16(a.0, self.y as u16)) != page_of(a.0) {
                        1u8
                    } else {
                        0u8
                    },
                ),
            ),
            AddressMode::Indirect(a) => Some((a, 0u8)),
            AddressMode::PreIndexedIndirectX(zp) => Some(
                (Address(self.pointer_at(wrap_add8(zp.0, self.x) as u16)), 0u8),
            ),
            AddressMode::PostIndexedIndirectY(zp) => Some(
                (
                    Address(wrap_add16(self.pointer_at(zp.0 as u16), self.y as u16)),
                    if page_of(wrap_add16(self.pointer_at(zp.0 as u16), self.y as u16)) != page_of(
                        self.pointer_at(zp.0 as u16),
                    ) {
                        1u8
                    } else {
                        0u8
                    },
                ),
            ),
            _ => None,
        }
    }

    /// Read-only resolution: the operand value an instruction consumes and
    /// the page-crossing cycle penalty. The implied mode reads zero, the
    /// immediate mode reads the embedded operand, every memory mode reads
    /// the byte at its effective address.
    pub open spec fn spec_operand(self, mode: AddressMode) -> (u8, u8) {
        match mode {
            AddressMode::Implied => (0u8, 0u8),
            AddressMode::Immediate(value) => (value, 0u8),
            _ => {
                let (effective, extra) = self.spec_translate(mode)->0;
                (self.memory.mem_at(effective.0), extra)
            },
        }
    }

    /// Builds a processor in its initial state: every register, flag and
    /// the cycle counter at zero, driving the given memory.
    pub fn with_memory(memory: M) -> (r: Self)
        ensures
            r.program_counter == 0,
            r.accumulator == 0,
            r.x == 0,
            r.y == 0,
            r.status.0 == 0,
            r.stack_pointer == 0,
            r.memory == memory,
            r.cycles == 0,
    {
        Self {
            program_counter: 0,
            memory,
            x: 0,
            y: 0,
            status: Status::default(),
            accumulator: 0,
            stack_pointer: 0,
            cycles: 0,
        }
    }

    /// The page-crossing cycle penalty that executing the given
    /// instruction under the given addressing mode incurs.
    pub open spec fn spec_extra_cycles(self, instruction: Instruction, mode: AddressMode) -> u8 {
        match instruction {
            Instruction::ASL => match mode {
                AddressMode::Implied => 0u8,
                _ => {
                    let (effective, extra) = self.spec_translate(mode)->0;
                    extra
                },
            },
            _ => self.spec_operand(mode).1,
        }
    }

    /// The cycle count one execution of the given (mnemonic, mode) pair
    /// adds: the base cost from the cost table plus the page-crossing
    /// penalty. Zero where the table holds no entry, since a refused
    /// request adds no cycles.
    pub open spec fn spec_cycle_delta(self, instruction: Instruction, mode: AddressMode) -> u64 {
        match instruction.spec_execution_metrics(mode) {
            Some(metrics) => (metrics.cycles + self.spec_extra_cycles(instruction, mode)) as u64,
            None => 0u64,
        }
    }

    /// Executes one instruction: looks up the cost table (failing fast,
    /// before any mutation, when the (mnemonic, mode) pair has no entry),
    /// resolves the operand, applies the mnemonic's semantics, advances
    /// the program counter by the instruction length, and accumulates the
    /// base cycle cost plus any page-crossing penalty.
    pub fn execute(&mut self, instruction: &Instruction, address_mode: &AddressMode) -> (r: Result<
        (),
        ErrorKind,
    >)
        requires
            old(self).inv(),
        ensures
            final(self).inv(),
            match instruction.spec_execution_metrics(*address_mode) {
                None => {
                    &&& *final(self) == *old(self)
                    &&& r == Err::<(), ErrorKind>(
                        if instruction.has_semantics() {
                            ErrorKind::UnsupportedAddressingMode(*instruction, *address_mode)
                        } else {
                            ErrorKind::NotYetImplemented(*instruction)
                        },
                    )
                },
                Some(metrics) => {
                    &&& r == Ok::<(), ErrorKind>(())
                    &&& final(self).program_counter == wrap_add16(
                        old(self).program_counter,
                        metrics.bytes as u16,
                    )
                    &&& final(self).cycles == wrap_add64(
                        old(self).cycles,
                        old(self).spec_cycle_delta(*instruction, *address_mode),
                    )
                    &&& (*instruction is ADC ==> old(self).adc_applied(
                        *final(self),
                        *address_mode,
                    ))
                    &&& (*instruction is AND ==> old(self).and_applied(
                        *final(self),
                        *address_mode,
                    ))
                    &&& (*instruction is ASL ==> old(self).asl_applied(
                        *final(self),
                        *address_mode,
                    ))
                },
            },
    {
        let metrics = match instruction.execution_metrics(address_mode) {
            Some(metrics) => metrics,
            None => {
                return Err(
                    match instruction {
                        Instruction::ADC | Instruction::AND | Instruction::ASL => self
                            .address_mode_not_defined(instruction, address_mode),
                        _ => ErrorKind::NotYetImplemented(*instruction),
                    },
                );
            },
        };

        let additional_cycles: u8 = match instruction {
            Instruction::ADC => self.execute_adc(address_mode),
            Instruction::AND => self.execute_and(address_mode),
            Instruction::ASL => self.execute_asl(address_mode),
            _ => unreached(),
        };

        let delta: u64 = (metrics.cycles as u64) + (additional_cycles as u64);
        proof {
            crate::memory::address::lemma_wrapping_add_is_wrap_add16(
                self.program_counter,
                metrics.bytes as u16,
            );
            lemma_wrapping_add_is_wrap_add64(self.cycles, delta);
        }
        self.program_counter = self.program_counter.wrapping_add(metrics.bytes as u16);
        self.cycles = self.cycles.wrapping_add(delta);
        Ok(())
    }

    /// The error signalled when an instruction is asked to execute under
    /// an addressing mode the cost table holds no definition for.
    pub fn address_mode_not_defined(
        &self,
        instruction: &Instruction,
        address_mode: &AddressMode,
    ) -> (r: ErrorKind)
        ensures
            r == ErrorKind::UnsupportedAddressingMode(*instruction, *address_mode),
    {
        ErrorKind::UnsupportedAddressingMode(*instruction, *address_mode)
    }
}

/// The standard library's wrapping 64-bit addition computes the sum
/// modulo 2^64.
proof fn lemma_wrapping_add_is_wrap_add64(a: u64, d: u64)
    ensures
        vstd::wrapping::u64_specs::wrapping_add(a, d) == wrap_add64(a, d),
{
    if a + d > u64::MAX {
        assert((a + d) % 0x1_0000_0000_0000_0000 == a + d - 0x1_0000_0000_0000_0000);
    } else {
        assert((a + d) % 0x1_0000_0000_0000_0000 == a + d);
    }
}

/// Cycle accounting is deterministic: executing a given (mnemonic,
/// addressing-mode) pair from identical starting states always yields
/// identical cycle deltas.
pub proof fn lemma_cycle_delta_deterministic<M: Memory>(
    first: CmosProcessor<M>,
    second: CmosProcessor<M>,
    instruction: Instruction,
    address_mode: AddressMode,
)
    requires
        first == second,
    ensures
        first.spec_cycle_delta(instruction, address_mode) == second.spec_cycle_delta(
            instruction,
            address_mode,
        ),
{
}

} // verus!
