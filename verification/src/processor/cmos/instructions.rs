//! Per-mnemonic semantic functions: each consumes a resolved operand or
//! effective address and mutates the accumulator, status flags and memory
//! deterministically, declaring which flags it touches.

use vstd::prelude::*;
use crate::memory::address::{Address, AddressMode};
use crate::memory::Memory;
use crate::processor::cmos::{is_memory_mode, resolvable, CmosProcessor};
use crate::processor::get_bit;
use crate::processor::status::{
    flag_set, FLAG_CARRY, FLAG_NEGATIVE, FLAG_OVERFLOW, FLAG_ZERO,
};

verus! {

/// The full add-with-carry sum, in a width wider than 8 bits.
pub open spec fn adc_sum(acc: u8, value: u8, carry: bool) -> int {
    acc + value + if carry {
        1int
    } else {
        0int
    }
}

/// The new accumulator after add-with-carry: the sum truncated to 8 bits.
pub open spec fn adc_result(acc: u8, value: u8, carry: bool) -> u8 {
    (adc_sum(acc, value, carry) % 0x100) as u8
}

/// The carry flag after add-with-carry: bit 8 of the sum.
pub open spec fn adc_carry_out(acc: u8, value: u8, carry: bool) -> bool {
    adc_sum(acc, value, carry) >= 0x100
}

/// The overflow flag after add-with-carry (binary mode): the signed-7-bit
/// sum `(acc & 0x7f) + (value & 0x7f) + carry`, xor-ed with the carry-out
/// bit, equals exactly one.
///
/// Recorded deviation: this rule keeps the flag behavior the core's flag
/// sequences fix (adding 64 twice to a fresh accumulator leaves the flag
/// clear). Canonical 6502 hardware instead sets the flag whenever the
/// carry out of bit 6 differs from the carry out of bit 7, so it disagrees
/// on some inputs those sequences leave untested: adding 1 to 0x7f leaves
/// the flag clear here, where the hardware rule sets it.
pub open spec fn adc_overflow(acc: u8, value: u8, carry: bool) -> bool {
    let low7 = ((acc & 0x7f) + (value & 0x7f) + if carry {
        1int
    } else {
        0int
    }) as u8;
    let carry_bit: u8 = if adc_carry_out(acc, value, carry) {
        1u8
    } else {
        0u8
    };
    (low7 ^ carry_bit) == 1
}

/// The shifted byte after an arithmetic shift left: doubled, truncated to
/// 8 bits.
pub open spec fn asl_result(value: u8) -> u8 {
    ((2 * value) % 0x100) as u8
}

/// The addressing modes the ASL semantics accept: the accumulator form
/// (implied) and every defined memory mode.
pub open spec fn asl_mode(mode: AddressMode) -> bool {
    match mode {
        AddressMode::Implied => true,
        _ => is_memory_mode(mode),
    }
}

/// Masking a byte to its low seven bits keeps it at most 0x7f.
proof fn lemma_mask7(value: u8)
    by (bit_vector)
    ensures
        value & 0x7f <= 0x7f,
{
}

/// Masking a 9-bit-bounded sum with 0xff is reduction modulo 256.
proof fn lemma_low_byte(sum: u16)
    by (bit_vector)
    ensures
        (0xff as u16 & sum) == sum % 0x100,
{
}

/// For a 9-bit-bounded sum, bit 8 says whether the sum reached 256.
proof fn lemma_bit8_is_carry(sum: u16)
    by (bit_vector)
    requires
        sum < 0x200,
    ensures
        (((sum >> 8) & 1) == 1) == (sum >= 0x100),
{
}

/// Bit 7 of a byte says whether it is negative in two's complement.
proof fn lemma_bit7_is_negative(value: u8)
    by (bit_vector)
    ensures
        ((((value as u16) >> 7) & 1) == 1) == (value >= 0x80),
{
}

/// Shifting a byte left by one doubles it modulo 256.
proof fn lemma_shl1_doubles(value: u8)
    by (bit_vector)
    ensures
        (value << 1) == ((2 * value) % 0x100) as u8,
{
}

impl<M: Memory> CmosProcessor<M> {
    /// What the ADC semantics do to the registers, flags and memory (the
    /// program counter and cycle counter belong to the dispatcher): the
    /// accumulator takes the truncated sum; the carry, overflow, zero and
    /// negative flags are recomputed; everything else is untouched.
    pub open spec fn adc_applied(self, post: Self, mode: AddressMode) -> bool {
        let value = self.spec_operand(mode).0;
        let carry = flag_set(self.status.0, FLAG_CARRY);
        let result = adc_result(self.accumulator, value, carry);
        &&& post.accumulator == result
        &&& flag_set(post.status.0, FLAG_CARRY) == adc_carry_out(self.accumulator, value, carry)
        &&& flag_set(post.status.0, FLAG_OVERFLOW) == adc_overflow(self.accumulator, value, carry)
        &&& flag_set(post.status.0, FLAG_ZERO) == (result == 0)
        &&& flag_set(post.status.0, FLAG_NEGATIVE) == (result >= 0x80)
        &&& forall|m: u8|
            m < 8 && m != FLAG_CARRY && m != FLAG_OVERFLOW && m != FLAG_ZERO && m != FLAG_NEGATIVE
                ==> flag_set(post.status.0, m) == flag_set(self.status.0, m)
        &&& post.x == self.x
        &&& post.y == self.y
        &&& post.stack_pointer == self.stack_pointer
        &&& post.memory == self.memory
    }

    /// What the AND semantics do: the accumulator takes the bitwise
    /// conjunction; the zero and negative flags are recomputed; carry and
    /// overflow are untouched, as is everything else.
    pub open spec fn and_applied(self, post: Self, mode: AddressMode) -> bool {
        let value = self.spec_operand(mode).0;
        let result = self.accumulator & value;
        &&& post.accumulator == result
        &&& flag_set(post.status.0, FLAG_ZERO) == (result == 0)
        &&& flag_set(post.status.0, FLAG_NEGATIVE) == (result >= 0x80)
        &&& forall|m: u8|
            m < 8 && m != FLAG_ZERO && m != FLAG_NEGATIVE ==> flag_set(post.status.0, m)
                == flag_set(self.status.0, m)
        &&& post.x == self.x
        &&& post.y == self.y
        &&& post.stack_pointer == self.stack_pointer
        &&& post.memory == self.memory
    }

    /// What the ASL semantics do: in the implied mode the accumulator is
    /// shifted left; in a memory mode the byte at the effective address is
    /// shifted in place (read, shift, write back). The zero and negative
    /// flags are recomputed from the shifted result; the carry flag is
    /// left untouched, as is everything else.
    pub open spec fn asl_applied(self, post: Self, mode: AddressMode) -> bool {
        let result = match mode {
            AddressMode::Implied => asl_result(self.accumulator),
            _ => {
                let (effective, extra) = self.spec_translate(mode)->0;
                asl_result(self.memory.mem_at(effective.0))
            },
        };
        &&& match mode {
            AddressMode::Implied => {
                &&& post.accumulator == result
                &&& post.memory == self.memory
            },
            _ => {
                let (effective, extra) = self.spec_translate(mode)->0;
                &&& post.accumulator == self.accumulator
                &&& post.memory.mem_at(effective.0) == result
                &&& forall|other: u16|
                    other != effective.0 ==> post.memory.mem_at(other) == self.memory.mem_at(
                        other,
                    )
            },
        }
        &&& flag_set(post.status.0, FLAG_ZERO) == (result == 0)
        &&& flag_set(post.status.0, FLAG_NEGATIVE) == (result >= 0x80)
        &&& forall|m: u8|
            m < 8 && m != FLAG_ZERO && m != FLAG_NEGATIVE ==> flag_set(post.status.0, m)
                == flag_set(self.status.0, m)
        &&& post.x == self.x
        &&& post.y == self.y
        &&& post.stack_pointer == self.stack_pointer
    }

    /// Recomputes the zero flag from a result byte, touching nothing else.
    fn set_zero_flag(&mut self, value: u8)
        ensures
            flag_set(final(self).status.0, FLAG_ZERO) == (value == 0),
            forall|m: u8|
                m < 8 && m != FLAG_ZERO ==> flag_set(final(self).status.0, m) == flag_set(
                    old(self).status.0,
                    m,
                ),
            final(self).accumulator == old(self).accumulator,
            final(self).x == old(self).x,
            final(self).y == old(self).y,
            final(self).stack_pointer == old(self).stack_pointer,
            final(self).memory == old(self).memory,
            final(self).program_counter == old(self).program_counter,
            final(self).cycles == old(self).cycles,
    {
        self.status.clear_bit(FLAG_ZERO);
        self.status.set_bit(FLAG_ZERO, value == 0);
    }

    /// Recomputes the negative flag (bit 7) from a result byte, touching
    /// nothing else.
    fn set_negative_flag(&mut self, value: u8)
        ensures
            flag_set(final(self).status.0, FLAG_NEGATIVE) == (value >= 0x80),
            forall|m: u8|
                m < 8 && m != FLAG_NEGATIVE ==> flag_set(final(self).status.0, m) == flag_set(
                    old(self).status.0,
                    m,
                ),
            final(self).accumulator == old(self).accumulator,
            final(self).x == old(self).x,
            final(self).y == old(self).y,
            final(self).stack_pointer == old(self).stack_pointer,
            final(self).memory == old(self).memory,
            final(self).program_counter == old(self).program_counter,
            final(self).cycles == old(self).cycles,
    {
        let negative_flag = get_bit(value as u16, 7);
        proof {
            lemma_bit7_is_negative(value);
        }
        self.status.clear_bit(FLAG_NEGATIVE);
        self.status.set_bit(FLAG_NEGATIVE, negative_flag);
    }

    /// Add with carry (binary mode): adds the resolved operand and the
    /// carry flag into the accumulator, recomputing the carry, overflow,
    /// zero and negative flags. Returns the page-crossing cycle penalty
    /// incurred by resolution.
    pub fn execute_adc(&mut self, address_mode: &AddressMode) -> (additional_cycles: u8)
        requires
            old(self).inv(),
            resolvable(*address_mode),
        ensures
            final(self).inv(),
            old(self).adc_applied(*final(self), *address_mode),
            additional_cycles == old(self).spec_operand(*address_mode).1,
            final(self).program_counter == old(self).program_counter,
            final(self).cycles == old(self).cycles,
    {
        let (value, additional_cycles) = self.read_address(address_mode);

        let carry = self.status.get_bit(FLAG_CARRY);

        let overflow_value = value & 0x7f;
        let overflow_acc = self.accumulator & 0x7f;
        proof {
            lemma_mask7(value);
            lemma_mask7(self.accumulator);
        }
        let overflow_carry_in = overflow_acc + overflow_value + (if carry {
            1u8
        } else {
            0u8
        });

        let sum: u16 = (self.accumulator as u16) + (value as u16) + (if carry {
            1u16
        } else {
            0u16
        });

        self.accumulator = (0xff & sum) as u8;
        proof {
            lemma_low_byte(sum);
        }

        self.status.clear_bit(FLAG_CARRY);

        let carry_flag = get_bit(sum, 8);
        proof {
            lemma_bit8_is_carry(sum);
        }
        self.status.set_bit(FLAG_CARRY, carry_flag);

        let overflow_carry_out = if carry_flag {
            1u8
        } else {
            0u8
        };
        let overflow = overflow_carry_in ^ overflow_carry_out;
        self.status.clear_bit(FLAG_OVERFLOW);
        self.status.set_bit(FLAG_OVERFLOW, overflow == 1);

        let result = self.accumulator;
        self.set_zero_flag(result);
        self.set_negative_flag(result);

        additional_cycles
    }

    /// Bitwise AND with the accumulator: conjoins the resolved operand
    /// into the accumulator, recomputing the zero and negative flags;
    /// carry and overflow are untouched. Returns the page-crossing cycle
    /// penalty incurred by resolution.
    pub fn execute_and(&mut self, address_mode: &AddressMode) -> (additional_cycles: u8)
        requires
            old(self).inv(),
            resolvable(*address_mode),
        ensures
            final(self).inv(),
            old(self).and_applied(*final(self), *address_mode),
            additional_cycles == old(self).spec_operand(*address_mode).1,
            final(self).program_counter == old(self).program_counter,
            final(self).cycles == old(self).cycles,
    {
        let (value, additional_cycles) = self.read_address(address_mode);

        self.accumulator = self.accumulator & value;

        let result = self.accumulator;
        self.set_zero_flag(result);
        self.set_negative_flag(result);

        additional_cycles
    }

    /// Arithmetic shift left: shifts the accumulator in the implied mode,
    /// otherwise shifts the memory byte at the resolved effective address
    /// in place, recomputing the zero and negative flags from the shifted
    /// result. The carry flag is left untouched. Returns the page-crossing
    /// cycle penalty incurred by resolution.
    pub fn execute_asl(&mut self, address_mode: &AddressMode) -> (additional_cycles: u8)
        requires
            old(self).inv(),
            asl_mode(*address_mode),
        ensures
            final(self).inv(),
            old(self).asl_applied(*final(self), *address_mode),
            additional_cycles == (match *address_mode {
                AddressMode::Implied => 0u8,
                _ => ({
                    let (effective, extra) = old(self).spec_translate(*address_mode)->0;
                    extra
                }),
            }),
            final(self).program_counter == old(self).program_counter,
            final(self).cycles == old(self).cycles,
    {
        match address_mode {
            AddressMode::Implied => {
                proof {
                    lemma_shl1_doubles(self.accumulator);
                }
                self.accumulator = self.accumulator << 1;

                let result = self.accumulator;
                self.set_zero_flag(result);
                self.set_negative_flag(result);

                0
            },
            _ => {
                let translated = self.translate_address(address_mode);
                let (address, additional_cycles) = match translated {
                    Some(pair) => pair,
                    None => unreached(),
                };

                let mut value = self.memory.read(&address);
                proof {
                    lemma_shl1_doubles(value);
                }
                value = value << 1;

                self.memory.write(&address, &value);

                self.set_zero_flag(value);
                self.set_negative_flag(value);

                additional_cycles
            },
        }
    }
}

} // verus!
