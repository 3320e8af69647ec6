//! End-to-end scenarios: timing, interrupts, BCD, and the documented
//! boundary behaviours.

use ull65::access::AccessType;
use ull65::alu::{add_with_carry, sub_with_borrow};
use ull65::bus::{write_block, Bus};
use ull65::cpu::{Cpu, Interrupt, RunState, IRQ_VECTOR_HI, IRQ_VECTOR_LO, NMI_VECTOR_HI,
    NMI_VECTOR_LO};
use ull65::flags::Flag;
use ull65::mode::AddressingMode;
use ull65::mos6502::{jmp, lda, rol_a};
use ull65::run::{RunConfig, RunPredicate};
use ull65::simple_bus::SimpleBus;
use ull65::testing_bus::TestingBus;
use ull65::wdc65c02s::Wdc65c02s;

#[test]
fn nop_timing_reports_two_cycles_once() {
    let mut bus = TestingBus::default();
    let mut cpu = Cpu::with_program::<ull65::mos6502::Mos6502, TestingBus>(
        &mut bus,
        0x8000,
        &[0xEA],
        0x8000,
    );

    let cycles = cpu.tick(&mut bus);

    assert_eq!(cycles, 2);
    assert_eq!(bus.ticks, 2);
    assert_eq!(bus.dma_ticks, 0);
}

#[test]
fn lda_immediate_then_brk_stops_with_flags_pushed() {
    let mut bus = TestingBus::default();
    bus.write(IRQ_VECTOR_LO, 0x00, AccessType::DataWrite);
    bus.write(IRQ_VECTOR_HI, 0x90, AccessType::DataWrite);
    let mut cpu = Cpu::with_program::<ull65::mos6502::Mos6502, TestingBus>(
        &mut bus,
        0x8000,
        &[0xA9, 0x42, 0x00],
        0x8000,
    );

    let summary = cpu.run_until(
        &mut bus,
        RunConfig { stop_on_brk: true, ..RunConfig::default() },
    );

    assert!(summary.hit_brk());
    assert_eq!(summary.instructions_executed, 2);
    assert_eq!(cpu.a, 0x42);
    assert_eq!(cpu.pc, 0x9000);
    // BRK pushed P at $01FB (SP started at $FD) with B and E set.
    let pushed = bus.read(0x01FB, AccessType::DataRead);
    assert_eq!(pushed & 0x10, 0x10);
    assert_eq!(pushed & 0x20, 0x20);
}

#[test]
fn dma_drain_accounts_for_queued_cycles() {
    let mut bus = TestingBus::default();
    let mut cpu = Cpu::with_program::<ull65::mos6502::Mos6502, TestingBus>(
        &mut bus,
        0x8000,
        &[0xEA, 0xEA, 0xEA],
        0x8000,
    );

    let mut instruction_ticks: u64 = 0;
    for step in 0..3 {
        let cycles = cpu.tick(&mut bus);
        instruction_ticks += cycles as u64;
        if step == 1 {
            bus.queue_dma(4);
        }
    }
    // The chunk queued after the second NOP drains during the third.
    assert_eq!(bus.dma_ticks, 4);
    assert_eq!(bus.ticks, instruction_ticks + 4);
}

struct XReachedTwo;

impl RunPredicate for XReachedTwo {
    fn should_stop(&mut self, cpu: &Cpu) -> bool {
        cpu.x == 2
    }
}

#[test]
fn predicate_stop_leaves_accumulator_untouched() {
    let mut bus = TestingBus::default();
    let mut cpu = Cpu::with_program::<ull65::mos6502::Mos6502, TestingBus>(
        &mut bus,
        0x8000,
        &[0xE8, 0xE8, 0x00],
        0x8000,
    );

    let summary = cpu.run_until(
        &mut bus,
        RunConfig { instruction_limit: None, stop_on_brk: false, predicate: Some(XReachedTwo) },
    );

    assert!(summary.hit_predicate());
    assert_eq!(summary.instructions_executed, 2);
    assert_eq!(cpu.a, 0x00);
}

#[test]
fn bra_forward_costs_base_plus_one() {
    let mut bus = SimpleBus::default();
    let mut cpu = Cpu::with_instruction_set::<Wdc65c02s>();
    cpu.pc = 0x4000;
    write_block(&mut bus, 0x4000, &[0x80, 0x04], AccessType::DataWrite);

    let consumed = cpu.step(&mut bus);

    assert_eq!(cpu.pc, 0x4006);
    assert_eq!(consumed, 3);
}

#[test]
fn bra_across_a_page_costs_base_plus_two() {
    let mut bus = SimpleBus::default();
    let mut cpu = Cpu::with_instruction_set::<Wdc65c02s>();
    cpu.pc = 0x40FD;
    write_block(&mut bus, 0x40FD, &[0x80, 0x04], AccessType::DataWrite);

    let consumed = cpu.step(&mut bus);

    assert_eq!(cpu.pc, 0x4103);
    assert_eq!(consumed, 4);
}

#[test]
fn bcd_add_ninety_nine_plus_one_carries() {
    let mut cpu = Cpu::default();
    cpu.p.decimal_mode = true;
    cpu.p.carry = false;
    cpu.a = 0x99;

    add_with_carry(&mut cpu, 0x01);

    assert_eq!(cpu.a, 0x00);
    assert!(cpu.p.contains(Flag::Carry));
}

#[test]
fn bcd_subtract_one_from_zero_borrows() {
    let mut cpu = Cpu::default();
    cpu.p.decimal_mode = true;
    // Carry set: no borrow pending on the way in.
    cpu.p.carry = true;
    cpu.a = 0x00;

    sub_with_borrow(&mut cpu, 0x01);

    assert_eq!(cpu.a, 0x99);
    assert!(!cpu.p.contains(Flag::Carry));
}

#[test]
fn stack_wraps_from_page_bottom_to_top() {
    let mut bus = SimpleBus::default();
    let mut cpu = Cpu::default();
    cpu.sp = 0x00;

    cpu.push(&mut bus, 0xAA);
    assert_eq!(cpu.sp, 0xFF);
    assert_eq!(bus.read(0x0100, AccessType::DataRead), 0xAA);

    cpu.push(&mut bus, 0xBB);
    assert_eq!(cpu.sp, 0xFE);
    assert_eq!(bus.read(0x01FF, AccessType::DataRead), 0xBB);

    cpu.sp = 0xFF;
    bus.write(0x0100, 0xCC, AccessType::DataWrite);
    let pulled = cpu.pop(&mut bus);
    assert_eq!(pulled, 0xCC);
    assert_eq!(cpu.sp, 0x00);
}

#[test]
fn nmos_indirect_jmp_wraps_within_the_page() {
    let mut bus = SimpleBus::default();
    let mut cpu = Cpu::default();
    cpu.pc = 0x1000;

    bus.write(0x1001, 0xFF, AccessType::DataWrite);
    bus.write(0x1002, 0x02, AccessType::DataWrite);
    bus.write(0x02FF, 0x78, AccessType::DataWrite);
    bus.write(0x0200, 0x56, AccessType::DataWrite);
    bus.write(0x0300, 0x99, AccessType::DataWrite);

    jmp(&mut cpu, &mut bus, AddressingMode::AbsoluteIndirect);

    assert_eq!(cpu.pc, 0x5678);
}

#[test]
fn corrected_indirect_jmp_crosses_the_page() {
    let mut bus = SimpleBus::default();
    let mut cpu = Cpu::default();
    cpu.pc = 0x1000;

    bus.write(0x1001, 0xFF, AccessType::DataWrite);
    bus.write(0x1002, 0x02, AccessType::DataWrite);
    bus.write(0x02FF, 0x78, AccessType::DataWrite);
    bus.write(0x0200, 0x56, AccessType::DataWrite);
    bus.write(0x0300, 0x99, AccessType::DataWrite);

    jmp(&mut cpu, &mut bus, AddressingMode::AbsoluteIndirectCorrect);

    assert_eq!(cpu.pc, 0x9978);
}

#[test]
fn zero_page_pointer_wraps_at_ff() {
    let mut bus = SimpleBus::default();
    let mut cpu = Cpu::default();
    cpu.pc = 0x1000;

    bus.write(0x1001, 0xFF, AccessType::DataWrite);
    bus.write(0x00FF, 0x34, AccessType::DataWrite);
    bus.write(0x0000, 0x12, AccessType::DataWrite);
    bus.write(0x1234, 0x42, AccessType::DataWrite);

    lda(&mut cpu, &mut bus, AddressingMode::ZeroPageIndirect);

    assert_eq!(cpu.a, 0x42);
}

#[test]
fn reset_restores_power_on_state_and_loads_vector() {
    let mut bus = SimpleBus::default();
    let mut cpu = Cpu::default();
    cpu.a = 0x12;
    cpu.x = 0x34;
    cpu.y = 0x56;
    cpu.sp = 0x10;
    cpu.cycles = 99;
    cpu.p.decimal_mode = true;
    cpu.run_state = RunState::Halted;
    ull65::bus::set_reset_vector(&mut bus, 0xC000);

    cpu.reset(&mut bus);

    assert_eq!(cpu.a, 0);
    assert_eq!(cpu.x, 0);
    assert_eq!(cpu.y, 0);
    assert_eq!(cpu.sp, 0xFD);
    assert_eq!(cpu.cycles, 0);
    assert_eq!(cpu.pc, 0xC000);
    assert_eq!(cpu.run_state, RunState::Running);
    assert!(cpu.p.contains(Flag::InterruptDisabled));
    assert!(cpu.p.contains(Flag::Expansion));
    assert!(!cpu.p.contains(Flag::DecimalMode));
    assert!(!cpu.p.contains(Flag::Carry));
}

#[test]
fn interrupt_priority_serves_reset_then_nmi_then_irq() {
    let mut bus = SimpleBus::default();
    ull65::bus::set_reset_vector(&mut bus, 0x8000);
    bus.write(NMI_VECTOR_LO, 0x00, AccessType::DataWrite);
    bus.write(NMI_VECTOR_HI, 0xA0, AccessType::DataWrite);
    bus.write(IRQ_VECTOR_LO, 0x00, AccessType::DataWrite);
    bus.write(IRQ_VECTOR_HI, 0xB0, AccessType::DataWrite);

    let mut cpu = Cpu::default();
    cpu.p.interrupt_disabled = false;
    cpu.request_interrupt(Interrupt::Reset);
    cpu.request_interrupt(Interrupt::Nmi);
    cpu.request_interrupt(Interrupt::Irq);

    // Reset wins, and clears nothing but its own latch.
    assert_eq!(cpu.step(&mut bus), 0);
    assert_eq!(cpu.pc, 0x8000);

    // The NMI is served next; reset re-masked IRQs.
    assert_eq!(cpu.step(&mut bus), 0);
    assert_eq!(cpu.pc, 0xA000);

    // Unmask and the latched IRQ is served.
    cpu.p.interrupt_disabled = false;
    assert_eq!(cpu.step(&mut bus), 0);
    assert_eq!(cpu.pc, 0xB000);
}

#[test]
fn halted_processor_ignores_pending_interrupts() {
    let mut bus = SimpleBus::default();
    let mut cpu = Cpu::default();
    cpu.run_state = RunState::Halted;
    cpu.request_interrupt(Interrupt::Nmi);

    assert_eq!(cpu.step(&mut bus), 0);
    assert_eq!(cpu.run_state, RunState::Halted);
    assert_eq!(cpu.pc, 0);
}

#[test]
fn wai_idles_until_an_interrupt_arrives() {
    let mut bus = SimpleBus::default();
    bus.write(IRQ_VECTOR_LO, 0x00, AccessType::DataWrite);
    bus.write(IRQ_VECTOR_HI, 0xB0, AccessType::DataWrite);
    // WAI at the reset target, IRQs unmasked.
    ull65::bus::set_reset_vector(&mut bus, 0x8000);
    bus.write(0x8000, 0xCB, AccessType::DataWrite);

    let mut cpu = Cpu::with_instruction_set::<Wdc65c02s>();
    cpu.reset(&mut bus);
    cpu.p.interrupt_disabled = false;

    assert!(cpu.step(&mut bus) > 0);
    assert_eq!(cpu.run_state, RunState::Waiting);
    assert_eq!(cpu.step(&mut bus), 0);

    cpu.request_interrupt(Interrupt::Irq);
    assert_eq!(cpu.step(&mut bus), 0);
    assert_eq!(cpu.run_state, RunState::Running);
    assert_eq!(cpu.pc, 0xB000);
}

#[test]
fn interrupt_pushes_status_with_break_clear() {
    let mut bus = SimpleBus::default();
    bus.write(NMI_VECTOR_LO, 0x00, AccessType::DataWrite);
    bus.write(NMI_VECTOR_HI, 0xA0, AccessType::DataWrite);

    let mut cpu = Cpu::default();
    cpu.request_interrupt(Interrupt::Nmi);
    assert_eq!(cpu.step(&mut bus), 0);

    // SP started at $FD: P landed at $01FB with B clear and E set.
    let pushed = bus.read(0x01FB, AccessType::DataRead);
    assert_eq!(pushed & 0x10, 0x00);
    assert_eq!(pushed & 0x20, 0x20);
}

#[test]
fn nine_rotations_restore_accumulator_and_carry() {
    let mut bus = SimpleBus::default();
    let mut cpu = Cpu::default();
    cpu.a = 0xB7;
    cpu.p.carry = true;

    for _ in 0..9 {
        rol_a(&mut cpu, &mut bus);
    }

    assert_eq!(cpu.a, 0xB7);
    assert!(cpu.p.contains(Flag::Carry));

    // Eight rotations alone leave the nine-bit word rotated by one.
    let mut cpu = Cpu::default();
    cpu.a = 0x01;
    cpu.p.carry = false;
    for _ in 0..8 {
        rol_a(&mut cpu, &mut bus);
    }
    assert_eq!(cpu.a, 0x00);
    assert!(cpu.p.contains(Flag::Carry));
}

#[test]
fn step_charges_at_least_the_base_cycles() {
    let mut bus = SimpleBus::default();
    // LDA #$01 (2 cycles), BNE taken (2 + 1), across a page (2 + 2).
    let mut cpu = Cpu::with_program::<ull65::mos6502::Mos6502, SimpleBus>(
        &mut bus,
        0x80F0,
        &[0xA9, 0x01, 0xD0, 0x20],
        0x80F0,
    );

    assert_eq!(cpu.step(&mut bus), 2);
    let consumed = cpu.step(&mut bus);
    assert_eq!(cpu.pc, 0x8114);
    assert_eq!(consumed, 4);
    assert_eq!(cpu.cycles, 6);
}
