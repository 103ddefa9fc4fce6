use cmos_core::memory::address::AddressMode;
use cmos_core::memory::VecMemory;
use cmos_core::processor::cmos::CmosProcessor;
use cmos_core::processor::Instruction;

#[test]
fn test_and_immediate() {
    let memory = VecMemory::default();
    let mut processor = CmosProcessor::with_memory(memory);
    processor.accumulator = 0b1100;

    processor.execute(&Instruction::AND, &AddressMode::Immediate(0b1010)).unwrap();

    assert_eq!(processor.accumulator, 0b1000u8);
}
