//! The instruction set and its cost table.

use vstd::prelude::*;
use crate::memory::address::AddressMode;
use crate::processor::ExecutionMetrics;

verus! {

/// The 56 mnemonics of the instruction set. The cost table and the
/// semantic functions currently cover ADC, AND and ASL; every other
/// mnemonic is recognized but not yet implemented.
#[derive(Debug, Clone, Copy)]
pub enum Instruction {
    /// add with carry
    ADC,
    /// and (with accumulator)
    AND,
    /// arithmetic shift left
    ASL,
    /// branch on carry clear
    BCC,
    /// branch on carry set
    BCS,
    /// branch on equal (zero set)
    BEQ,
    /// bit test
    BIT,
    /// branch on minus (negative set)
    BMI,
    /// branch on not equal (zero clear)
    BNE,
    /// branch on plus (negative clear)
    BPL,
    /// break / interrupt
    BRK,
    /// branch on overflow clear
    BVC,
    /// branch on overflow set
    BVS,
    /// clear carry
    CLC,
    /// clear decimal
    CLD,
    /// clear interrupt disable
    CLI,
    /// clear overflow
    CLV,
    /// compare (with accumulator)
    CMP,
    /// compare with X
    CPX,
    /// compare with Y
    CPY,
    /// decrement
    DEC,
    /// decrement X
    DEX,
    /// decrement Y
    DEY,
    /// exclusive or (with accumulator)
    EOR,
    /// increment
    INC,
    /// increment X
    INX,
    /// increment Y
    INY,
    /// jump
    JMP,
    /// jump subroutine
    JSR,
    /// load accumulator
    LDA,
    /// load X
    LDX,
    /// load Y
    LDY,
    /// logical shift right
    LSR,
    /// no operation
    NOP,
    /// or with accumulator
    ORA,
    /// push accumulator
    PHA,
    /// push processor status (SR)
    PHP,
    /// pull accumulator
    PLA,
    /// pull processor status (SR)
    PLP,
    /// rotate left
    ROL,
    /// rotate right
    ROR,
    /// return from interrupt
    RTI,
    /// return from subroutine
    RTS,
    /// subtract with carry
    SBC,
    /// set carry
    SEC,
    /// set decimal
    SED,
    /// set interrupt disable
    SEI,
    /// store accumulator
    STA,
    /// store X
    STX,
    /// store Y
    STY,
    /// transfer accumulator to X
    TAX,
    /// transfer accumulator to Y
    TAY,
    /// transfer stack pointer to X
    TSX,
    /// transfer X to accumulator
    TXA,
    /// transfer X to stack pointer
    TXS,
    /// transfer Y to accumulator
    TYA,
}

impl Instruction {
    /// Whether a semantic function exists for this mnemonic in this build.
    pub open spec fn has_semantics(self) -> bool {
        match self {
            Instruction::ADC => true,
            Instruction::AND => true,
            Instruction::ASL => true,
            _ => false,
        }
    }

    /// The cost table: the metadata recorded for each supported
    /// (mnemonic, addressing-mode) combination, and `None` where the
    /// combination has no definition.
    pub open spec fn spec_execution_metrics(self, address_mode: AddressMode) -> Option<
        ExecutionMetrics,
    > {
        match self {
            Instruction::ADC | Instruction::AND => match address_mode {
                AddressMode::Immediate(_) => Some(
                    ExecutionMetrics { op_code: 0x69, bytes: 2, cycles: 2 },
                ),
                AddressMode::ZeroPage(_) => Some(
                    ExecutionMetrics { op_code: 0x65, bytes: 2, cycles: 3 },
                ),
                AddressMode::ZeroPageX(_) => Some(
                    ExecutionMetrics { op_code: 0x75, bytes: 2, cycles: 4 },
                ),
                AddressMode::Absolute(_) => Some(
                    ExecutionMetrics { op_code: 0x6d, bytes: 3, cycles: 4 },
                ),
                AddressMode::AbsoluteX(_) => Some(
                    ExecutionMetrics { op_code: 0x7d, bytes: 3, cycles: 4 },
                ),
                AddressMode::AbsoluteY(_) => Some(
                    ExecutionMetrics { op_code: 0x79, bytes: 3, cycles: 4 },
                ),
                AddressMode::PreIndexedIndirectX(_) => Some(
                    ExecutionMetrics { op_code: 0x61, bytes: 2, cycles: 6 },
                ),
                AddressMode::PostIndexedIndirectY(_) => Some(
                    ExecutionMetrics { op_code: 0x71, bytes: 2, cycles: 5 },
                ),
                _ => None,
            },
            Instruction::ASL => match address_mode {
                AddressMode::Implied => Some(
                    ExecutionMetrics { op_code: 0x0a, bytes: 1, cycles: 2 },
                ),
                AddressMode::ZeroPage(_) => Some(
                    ExecutionMetrics { op_code: 0x06, bytes: 2, cycles: 5 },
                ),
                AddressMode::ZeroPageX(_) => Some(
                    ExecutionMetrics { op_code: 0x16, bytes: 2, cycles: 6 },
                ),
                AddressMode::Absolute(_) => Some(
                    ExecutionMetrics { op_code: 0x0e, bytes: 3, cycles: 6 },
                ),
                _ => None,
            },
            _ => None,
        }
    }

    /// Looks up the cost-table entry for this mnemonic under the given
    /// addressing mode; `None` when the combination has no definition.
    pub fn execution_metrics(&self, address_mode: &AddressMode) -> (r: Option<ExecutionMetrics>)
        ensures
            r == self.spec_execution_metrics(*address_mode),
    {
        match self {
            Instruction::ADC | Instruction::AND => match address_mode {
                AddressMode::Immediate(_) => Some(ExecutionMetrics::new(0x69, 2, 2)),
                AddressMode::ZeroPage(_) => Some(ExecutionMetrics::new(0x65, 2, 3)),
                AddressMode::ZeroPageX(_) => Some(ExecutionMetrics::new(0x75, 2, 4)),
                AddressMode::Absolute(_) => Some(ExecutionMetrics::new(0x6d, 3, 4)),
                AddressMode::AbsoluteX(_) => Some(ExecutionMetrics::new(0x7d, 3, 4)),
                AddressMode::AbsoluteY(_) => Some(ExecutionMetrics::new(0x79, 3, 4)),
                AddressMode::PreIndexedIndirectX(_) => Some(ExecutionMetrics::new(0x61, 2, 6)),
                AddressMode::PostIndexedIndirectY(_) => Some(ExecutionMetrics::new(0x71, 2, 5)),
                _ => None,
            },
            Instruction::ASL => match address_mode {
                AddressMode::Implied => Some(ExecutionMetrics::new(0x0a, 1, 2)),
                AddressMode::ZeroPage(_) => Some(ExecutionMetrics::new(0x06, 2, 5)),
                AddressMode::ZeroPageX(_) => Some(ExecutionMetrics::new(0x16, 2, 6)),
                AddressMode::Absolute(_) => Some(ExecutionMetrics::new(0x0e, 3, 6)),
                _ => None,
            },
            _ => None,
        }
    }
}

} // verus!
