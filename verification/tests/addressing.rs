use cmos_core::memory::address::{Address, AddressMode, ZeroPageAddress};
use cmos_core::memory::{Memory, VecMemory};
use cmos_core::processor::cmos::CmosProcessor;
use cmos_core::processor::Instruction;

#[test]
fn test_address_immediate() {
    let memory = VecMemory::default();
    let mut processor = CmosProcessor::with_memory(memory);

    processor.execute(&Instruction::ADC, &AddressMode::Immediate(5)).unwrap();
    assert_eq!(processor.accumulator, 5);
}

#[test]
fn test_address_zeropage() {
    let zp_address = ZeroPageAddress(32);
    let address = zp_address.upgrade();
    let mut memory = VecMemory::default();
    memory.write(&address, &5);
    let mut processor = CmosProcessor::with_memory(memory);

    processor.execute(&Instruction::ADC, &AddressMode::ZeroPage(zp_address)).unwrap();

    assert_eq!(processor.accumulator, 5);
}

#[test]
fn test_address_zeropage_x() {
    let zp_address = ZeroPageAddress(32);
    let address = zp_address.upgrade();

    let mut memory = VecMemory::default();
    memory.write(&address, &5);

    let mut processor = CmosProcessor::with_memory(memory);

    // 30 + 2 = 32 so we should read 5 at address 32
    processor.x = 2;
    let zp_address = ZeroPageAddress(30);

    processor.execute(&Instruction::ADC, &AddressMode::ZeroPageX(zp_address)).unwrap();

    assert_eq!(processor.accumulator, 5);
}

#[test]
fn test_address_absolute() {
    let address = Address(0xcabd);

    let mut memory = VecMemory::default();
    memory.write(&address, &5);

    let mut processor = CmosProcessor::with_memory(memory);
    processor.execute(&Instruction::ADC, &AddressMode::Absolute(address)).unwrap();

    assert_eq!(processor.accumulator, 5);
}

#[test]
fn test_address_absolute_x() {
    let address = Address(0xcabd);

    let mut memory = VecMemory::default();
    memory.write(&address, &5);

    let mut processor = CmosProcessor::with_memory(memory);

    // cabb + 2 = cabd so we should read 5 at address 32
    processor.x = 2;
    let address = Address(0xcabb);

    processor.execute(&Instruction::ADC, &AddressMode::AbsoluteX(address)).unwrap();

    assert_eq!(processor.accumulator, 5);
}

#[test]
fn test_address_absolute_y() {
    let address = Address(0xcabd);

    let mut memory = VecMemory::default();
    memory.write(&address, &5);

    let mut processor = CmosProcessor::with_memory(memory);

    // cabb + 2 = cabd so we should read 5 at address 32
    processor.y = 2;
    let address = Address(0xcabb);

    processor.execute(&Instruction::ADC, &AddressMode::AbsoluteY(address)).unwrap();

    assert_eq!(processor.accumulator, 5);
}

#[test]
fn test_address_preindexed_indirect_x() {
    let mut memory = VecMemory::default();
    memory.write(&Address(0x0010), &0xbb);
    memory.write(&Address(0x0011), &0xca);
    memory.write(&Address(0xcabb), &0x32);

    let mut processor = CmosProcessor::with_memory(memory);
    processor.x = 0x08;

    // 0x00 = 8, x = 8, 8+8=0x10, 0x10,11 -> 0xbb,0xca -- 0xcabb -> 0x32
    processor
        .execute(
            &Instruction::ADC,
            &AddressMode::PreIndexedIndirectX(ZeroPageAddress(0x08)),
        )
        .unwrap();

    assert_eq!(processor.accumulator, 0x32);
}

#[test]
fn test_address_postindexed_indirect_y() {
    let mut memory = VecMemory::default();

    memory.write(&Address(0x0010), &(0xbb - 0x20));
    memory.write(&Address(0x0011), &0xca);
    memory.write(&Address(0xcabb), &0x32);

    let mut processor = CmosProcessor::with_memory(memory);
    processor.y = 0x20;

    processor
        .execute(
            &Instruction::ADC,
            &AddressMode::PostIndexedIndirectY(ZeroPageAddress(0x10)),
        )
        .unwrap();

    assert_eq!(processor.accumulator, 0x32);
}

#[test]
fn test_address_zeropage_x_wraps_within_page_zero() {
    let mut memory = VecMemory::default();
    memory.write(&Address(0x0001), &5);

    let mut processor = CmosProcessor::with_memory(memory);
    processor.x = 0x02;

    // 0xff + 2 wraps to 0x01 within page zero
    processor
        .execute(&Instruction::ADC, &AddressMode::ZeroPageX(ZeroPageAddress(0xff)))
        .unwrap();

    assert_eq!(processor.accumulator, 5);
}

#[test]
fn test_address_pointer_high_byte_read_wraps() {
    let mut memory = VecMemory::default();

    // pointer at 0x00ff: low byte there, high byte at 0x0100
    memory.write(&Address(0x00ff), &0x34);
    memory.write(&Address(0x0100), &0x12);
    memory.write(&Address(0x1234), &7);

    let mut processor = CmosProcessor::with_memory(memory);

    processor
        .execute(
            &Instruction::ADC,
            &AddressMode::PostIndexedIndirectY(ZeroPageAddress(0xff)),
        )
        .unwrap();

    assert_eq!(processor.accumulator, 7);
}
