use cmos_core::memory::address::AddressMode;
use cmos_core::memory::address::ZeroPageAddress;
use cmos_core::memory::{Memory, VecMemory};
use cmos_core::processor::cmos::CmosProcessor;
use cmos_core::processor::status::{FLAG_CARRY, FLAG_NEGATIVE, FLAG_OVERFLOW, FLAG_ZERO};
use cmos_core::processor::Instruction;

#[test]
fn test_adc() {
    let memory = VecMemory::default();
    let mut processor = CmosProcessor::with_memory(memory);

    // add small value
    processor.execute(&Instruction::ADC, &AddressMode::Immediate(5)).unwrap();
    assert_eq!(processor.accumulator, 5);
    assert_eq!(processor.status.get_bit(FLAG_CARRY), false);
    assert_eq!(processor.status.get_bit(FLAG_ZERO), false);

    // bring right to the edge of overflowing
    processor.execute(&Instruction::ADC, &AddressMode::Immediate(250)).unwrap();
    assert_eq!(processor.accumulator, 255);
    assert_eq!(processor.status.get_bit(FLAG_CARRY), false);
    assert_eq!(processor.status.get_bit(FLAG_OVERFLOW), false);
    assert_eq!(processor.status.get_bit(FLAG_ZERO), false);

    // make sure carry is set after overflow, and acc is modulo 256
    processor.execute(&Instruction::ADC, &AddressMode::Immediate(1)).unwrap();
    assert_eq!(processor.accumulator, 0);
    assert_eq!(processor.status.get_bit(FLAG_CARRY), true);
    assert_eq!(processor.status.get_bit(FLAG_ZERO), true);

    // make sure carry is added when set
    processor.execute(&Instruction::ADC, &AddressMode::Immediate(1)).unwrap();
    assert_eq!(processor.accumulator, 2);
    assert_eq!(processor.status.get_bit(FLAG_CARRY), false);
    assert_eq!(processor.status.get_bit(FLAG_ZERO), false);

    // reset processor & memory
    let memory = VecMemory::default();
    let mut processor = CmosProcessor::with_memory(memory);

    processor.execute(&Instruction::ADC, &AddressMode::Immediate(64)).unwrap();
    assert_eq!(processor.accumulator, 64);
    assert_eq!(processor.status.get_bit(FLAG_CARRY), false);
    assert_eq!(processor.status.get_bit(FLAG_ZERO), false);
    assert_eq!(processor.status.get_bit(FLAG_OVERFLOW), false);
    assert_eq!(processor.status.get_bit(FLAG_NEGATIVE), false);

    // test negative value (when thinking in twos compliment signed way)
    processor.execute(&Instruction::ADC, &AddressMode::Immediate(64)).unwrap();
    assert_eq!(processor.accumulator, 128);
    assert_eq!(processor.status.get_bit(FLAG_CARRY), false);
    assert_eq!(processor.status.get_bit(FLAG_ZERO), false);
    assert_eq!(processor.status.get_bit(FLAG_OVERFLOW), false);
    assert_eq!(processor.status.get_bit(FLAG_NEGATIVE), true);

    // overflow back to zero
    processor.execute(&Instruction::ADC, &AddressMode::Immediate(128)).unwrap();
    assert_eq!(processor.accumulator, 0);
    assert_eq!(processor.status.get_bit(FLAG_CARRY), true);
    assert_eq!(processor.status.get_bit(FLAG_ZERO), true);
    assert_eq!(processor.status.get_bit(FLAG_OVERFLOW), true);
    assert_eq!(processor.status.get_bit(FLAG_NEGATIVE), false);
}

#[test]
fn test_and() {
    let memory = VecMemory::default();
    let mut processor = CmosProcessor::with_memory(memory);
    processor.accumulator = 0b1100;

    processor.execute(&Instruction::AND, &AddressMode::Immediate(0b1010)).unwrap();
    assert_eq!(processor.accumulator, 0b1000);
    assert_eq!(processor.status.get_bit(FLAG_ZERO), false);
    assert_eq!(processor.status.get_bit(FLAG_NEGATIVE), false);
}

#[test]
fn test_asl() {
    let memory = VecMemory::default();
    let mut processor = CmosProcessor::with_memory(memory);
    processor.accumulator = 0b00110000;

    processor.execute(&Instruction::ASL, &AddressMode::Implied).unwrap();
    assert_eq!(processor.accumulator, 0b01100000);
    assert_eq!(processor.status.get_bit(FLAG_ZERO), false);
    assert_eq!(processor.status.get_bit(FLAG_NEGATIVE), false);

    processor.execute(&Instruction::ASL, &AddressMode::Implied).unwrap();
    assert_eq!(processor.accumulator, 0b11000000);

    assert_eq!(processor.status.get_bit(FLAG_ZERO), false);
    assert_eq!(processor.status.get_bit(FLAG_NEGATIVE), true);

    processor.execute(&Instruction::ASL, &AddressMode::Implied).unwrap();
    processor.execute(&Instruction::ASL, &AddressMode::Implied).unwrap();

    assert_eq!(processor.accumulator, 0b00000000);
    assert_eq!(processor.status.get_bit(FLAG_ZERO), true);
    assert_eq!(processor.status.get_bit(FLAG_NEGATIVE), false);
}

#[test]
fn test_and_to_zero_sets_zero_flag() {
    let memory = VecMemory::default();
    let mut processor = CmosProcessor::with_memory(memory);
    processor.accumulator = 0b0101;

    processor.execute(&Instruction::AND, &AddressMode::Immediate(0b1010)).unwrap();
    assert_eq!(processor.accumulator, 0);
    assert_eq!(processor.status.get_bit(FLAG_ZERO), true);
    assert_eq!(processor.status.get_bit(FLAG_NEGATIVE), false);
}

#[test]
fn test_and_negative_result_sets_negative_flag() {
    let memory = VecMemory::default();
    let mut processor = CmosProcessor::with_memory(memory);
    processor.accumulator = 0xf0;

    processor.execute(&Instruction::AND, &AddressMode::Immediate(0x81)).unwrap();
    assert_eq!(processor.accumulator, 0x80);
    assert_eq!(processor.status.get_bit(FLAG_NEGATIVE), true);
    assert_eq!(processor.status.get_bit(FLAG_ZERO), false);
}

#[test]
fn test_asl_leaves_carry_untouched() {
    let memory = VecMemory::default();
    let mut processor = CmosProcessor::with_memory(memory);
    processor.status.enable_bit(FLAG_CARRY);
    processor.accumulator = 0b10000000;

    // the shift discards bit 7 without recording it in the carry flag
    processor.execute(&Instruction::ASL, &AddressMode::Implied).unwrap();
    assert_eq!(processor.accumulator, 0);
    assert_eq!(processor.status.get_bit(FLAG_CARRY), true);
    assert_eq!(processor.status.get_bit(FLAG_ZERO), true);
}

#[test]
fn test_asl_zeropage_shifts_memory_in_place() {
    let zp_address = ZeroPageAddress(0x20);
    let address = zp_address.upgrade();
    let mut memory = VecMemory::default();
    memory.write(&address, &0b01000001);

    let mut processor = CmosProcessor::with_memory(memory);
    processor.accumulator = 9;

    processor.execute(&Instruction::ASL, &AddressMode::ZeroPage(zp_address)).unwrap();

    assert_eq!(processor.memory.read(&address), 0b10000010);
    assert_eq!(processor.accumulator, 9);
    assert_eq!(processor.status.get_bit(FLAG_NEGATIVE), true);
    assert_eq!(processor.status.get_bit(FLAG_ZERO), false);
    assert_eq!(processor.cycles, 5);
}
