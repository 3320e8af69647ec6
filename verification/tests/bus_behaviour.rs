//! Bus-level behaviour: block transfers and DMA cycle accounting.

use ull65::access::AccessType;
use ull65::bus::{read_block, write_block, Bus, DmaRequest};
use ull65::cpu::Cpu;
use ull65::mos6502::Mos6502;
use ull65::testing_bus::TestingBus;

#[test]
fn dma_cycles_are_accounted() {
    let mut bus = TestingBus::default();
    let mut cpu = Cpu::with_instruction_set::<Mos6502>();

    write_block(&mut bus, 0x8000, &[0xEA, 0xEA, 0xEA], AccessType::DataWrite);
    ull65::bus::set_reset_vector(&mut bus, 0x8000);
    cpu.reset(&mut bus);

    let mut instr_ticks: u64 = 0;
    for step in 0..3 {
        let cycles = cpu.step(&mut bus);
        instr_ticks += cycles as u64;
        bus.on_tick(cycles);

        if step == 1 {
            let _ = bus.request_dma(DmaRequest { source: 0, destination: 0, length: 4 });
        }

        while let Some(dma_cycles) = bus.poll_dma_cycle() {
            bus.on_tick(dma_cycles);
        }
    }

    assert_eq!(bus.ticks, instr_ticks + bus.dma_ticks);
    assert_eq!(bus.dma_ticks, 4);
}

#[test]
fn read_block_fetches_consecutive_bytes() {
    let mut bus = TestingBus::default();
    write_block(&mut bus, 0x8000, &[1, 2, 3, 4], AccessType::DataWrite);
    let buf = read_block(&mut bus, 0x8000, 4, AccessType::DataRead);
    assert_eq!(buf, [1, 2, 3, 4]);
}

#[test]
fn write_block_stores_consecutive_bytes() {
    let mut bus = TestingBus::default();
    write_block(&mut bus, 0x9000, &[0xAA, 0xBB, 0xCC], AccessType::DataWrite);
    assert_eq!(bus.read(0x9000, AccessType::DataRead), 0xAA);
    assert_eq!(bus.read(0x9001, AccessType::DataRead), 0xBB);
    assert_eq!(bus.read(0x9002, AccessType::DataRead), 0xCC);
}
