//! The execution loop: construction, reset, tick, DMA drain, and the
//! run-until stop conditions.

use ull65::access::AccessType;
use ull65::bus::Bus;
use ull65::cpu::{Cpu, RESET_VECTOR_HI, RESET_VECTOR_LO};
use ull65::mos6502::Mos6502;
use ull65::run::{RunConfig, RunPredicate};
use ull65::testing_bus::TestingBus;

fn prepare_cpu(bus: &mut TestingBus) -> Cpu {
    bus.write(RESET_VECTOR_LO, 0x00, AccessType::DataWrite);
    bus.write(RESET_VECTOR_HI, 0x80, AccessType::DataWrite);
    let mut cpu = Cpu::with_instruction_set::<Mos6502>();
    cpu.reset(bus);
    cpu
}

#[test]
fn with_reset_vector_sets_pc_and_vector_bytes() {
    let mut bus = TestingBus::default();
    let reset: u16 = 0x9000;

    let cpu = Cpu::with_reset_vector::<Mos6502, TestingBus>(&mut bus, reset);

    assert_eq!(cpu.pc, reset);
    assert_eq!(bus.read(RESET_VECTOR_LO, AccessType::DataRead), 0x00);
    assert_eq!(bus.read(RESET_VECTOR_HI, AccessType::DataRead), 0x90);
}

#[test]
fn with_program_loads_bytes_and_sets_pc() {
    let mut bus = TestingBus::default();
    let program = [0xEA, 0x00];
    let start: u16 = 0x8000;

    let cpu = Cpu::with_program::<Mos6502, TestingBus>(&mut bus, start, &program, start);

    assert_eq!(cpu.pc, start);
    assert_eq!(bus.read(start, AccessType::OpcodeFetch), program[0]);
    assert_eq!(bus.read(start + 1, AccessType::OpcodeFetch), program[1]);
}

#[test]
fn tick_advances_bus_and_drains_dma() {
    let mut bus = TestingBus::default();
    ull65::bus::write_block(&mut bus, 0x8000, &[0xEA, 0xEA], AccessType::DataWrite);
    bus.queue_dma(3);
    bus.queue_dma(2);

    let mut cpu = prepare_cpu(&mut bus);
    let cycles = cpu.tick(&mut bus);

    assert_eq!(cycles, 2);
    assert_eq!(cpu.last_opcode, 0xEA);
    assert_eq!(bus.ticks, 2 + 3 + 2);
    assert_eq!(bus.dma_ticks, 5);
}

#[test]
fn run_until_stops_on_brk() {
    let mut bus = TestingBus::default();
    ull65::bus::write_block(&mut bus, 0x8000, &[0xA9, 0x01, 0x00], AccessType::DataWrite);
    let mut cpu = prepare_cpu(&mut bus);

    let summary = cpu.run_until(
        &mut bus,
        RunConfig { stop_on_brk: true, ..RunConfig::default() },
    );

    assert!(summary.hit_brk());
    assert_eq!(summary.instructions_executed, 2);
    assert!(!summary.hit_instruction_limit());
    assert!(!summary.hit_predicate());
}

struct StopWhenXIsTwo;

impl RunPredicate for StopWhenXIsTwo {
    fn should_stop(&mut self, cpu: &Cpu) -> bool {
        cpu.x == 0x02
    }
}

#[test]
fn run_until_stops_on_predicate() {
    let mut bus = TestingBus::default();
    ull65::bus::write_block(&mut bus, 0x8000, &[0xE8, 0xE8, 0x00], AccessType::DataWrite);
    let mut cpu = prepare_cpu(&mut bus);

    let summary = cpu.run_until(
        &mut bus,
        RunConfig {
            instruction_limit: None,
            stop_on_brk: false,
            predicate: Some(StopWhenXIsTwo),
        },
    );

    assert!(summary.hit_predicate());
    assert_eq!(summary.instructions_executed, 2);
    assert!(!summary.hit_brk());
}

#[test]
fn run_until_enforces_instruction_limit() {
    let mut bus = TestingBus::default();
    ull65::bus::write_block(&mut bus, 0x8000, &[0xA9, 0x01, 0xE8, 0x00], AccessType::DataWrite);
    let mut cpu = prepare_cpu(&mut bus);

    let summary = cpu.run_until(
        &mut bus,
        RunConfig { instruction_limit: Some(1), stop_on_brk: true, ..RunConfig::default() },
    );

    assert!(summary.hit_instruction_limit());
    assert_eq!(summary.instructions_executed, 1);
    assert!(!summary.hit_brk());
}

#[test]
fn sixteen_bit_multiply_program() {
    const FACTOR1_ADDR: u8 = 0x10;
    const FACTOR2_ADDR: u8 = 0x11;
    const FACTOR1_INIT: u8 = 0xB6;
    const FACTOR2_INIT: u8 = 0x4D;
    const EXPECTED_LOW: u8 = 0xBE;
    const EXPECTED_HIGH: u8 = 0x36;
    const PROGRAM: &[u8] = &[
        0xA9, 0x00, // LDA #$00: zero the result area
        0xA2, 0x08, // LDX #$08: one pass per bit
        0x46, FACTOR1_ADDR, // LSR factor1: examine the current bit
        0x90, 0x03, // BCC no_add: skip the add when the bit is clear
        0x18, // CLC
        0x65, FACTOR2_ADDR, // ADC factor2: add at the correct place
        0x6A, // ROR A: shift the partial product
        0x66, FACTOR1_ADDR, // ROR factor1: advance to the next bit
        0xCA, // DEX: count the passes
        0xD0, 0xF5, // BNE loop
        0x85, FACTOR2_ADDR, // STA factor2: final high byte
        0x00, // BRK: halt for the assertions below
    ];

    let mut bus = TestingBus::default();
    ull65::bus::write_block(&mut bus, 0x8000, PROGRAM, AccessType::DataWrite);
    bus.write(FACTOR1_ADDR as u16, FACTOR1_INIT, AccessType::DataWrite);
    bus.write(FACTOR2_ADDR as u16, FACTOR2_INIT, AccessType::DataWrite);

    let mut cpu = prepare_cpu(&mut bus);
    let summary = cpu.run_until(
        &mut bus,
        RunConfig { stop_on_brk: true, instruction_limit: Some(0x200), ..RunConfig::default() },
    );

    assert!(summary.hit_brk());
    assert!(!summary.hit_instruction_limit());

    let low = bus.read(FACTOR1_ADDR as u16, AccessType::DataRead);
    let high = bus.read(FACTOR2_ADDR as u16, AccessType::DataRead);

    assert_eq!(low, EXPECTED_LOW);
    assert_eq!(high, EXPECTED_HIGH);
    assert_eq!(cpu.a, EXPECTED_HIGH);
    assert_eq!(cpu.last_opcode, 0x00);
}
