//! Per-operation behaviour of the MOS 6502 handlers against a flat bus.

use ull65::access::AccessType;
use ull65::bus::Bus;
use ull65::cpu::{Cpu, IRQ_VECTOR_HI, IRQ_VECTOR_LO};
use ull65::flags::Flag;
use ull65::mode::AddressingMode;
use ull65::mos6502::{adc, and, asl, asl_a, bcc, bcs, beq, bit, bmi, bne, bpl, brk, bvc, bvs, cmp,
    cpx, cpy, dec, dex, dey, eor, inc, inx, iny, jmp, jsr, lda, ldx, ldy, lsr, lsr_a, ora, pha,
    php, pla, plp, rol, rol_a, ror, ror_a, rti, rts, sbc, sta, stx, sty, tax, tay, tsx, txa, txs,
    tya};
use ull65::simple_bus::SimpleBus;

#[test]
fn test_lda_immediate() {
    let mut bus = SimpleBus::default();
    let mut cpu = Cpu::default();

    const VALUE: u8 = 0x42;

    bus.write(cpu.pc + 1, VALUE, AccessType::DataWrite);

    lda(&mut cpu, &mut bus, AddressingMode::Immediate);

    assert_eq!(cpu.a, VALUE);
    assert_eq!(cpu.pc, 2);
    assert_eq!(cpu.p.contains(Flag::Zero), VALUE == 0);
    assert_eq!(cpu.p.contains(Flag::Sign), VALUE >= 0x80);
}

#[test]
fn test_lda_absolute() {
    let mut bus = SimpleBus::default();
    let mut cpu = Cpu::default();

    const VALUE: u8 = 0x42;
    const TARGET_ADDRESS: u16 = 0x1234;

    bus.write(cpu.pc + 1, 0x34, AccessType::DataWrite);
    bus.write(cpu.pc + 2, 0x12, AccessType::DataWrite);
    bus.write(TARGET_ADDRESS, VALUE, AccessType::DataWrite);

    lda(&mut cpu, &mut bus, AddressingMode::Absolute);

    assert_eq!(cpu.a, VALUE);
    assert_eq!(cpu.pc, 3);
    assert_eq!(cpu.p.contains(Flag::Zero), VALUE == 0);
    assert_eq!(cpu.p.contains(Flag::Sign), VALUE >= 0x80);
}

#[test]
fn test_lda_absolute_x() {
    let mut bus = SimpleBus::default();
    let mut cpu = Cpu::default();

    const VALUE: u8 = 0x42;
    const OFFSET: u8 = 0x00;
    const TARGET_ADDRESS: u16 = 0x1234 + OFFSET as u16;

    cpu.x = OFFSET;

    bus.write(cpu.pc + 1, 0x34, AccessType::DataWrite);
    bus.write(cpu.pc + 2, 0x12, AccessType::DataWrite);
    bus.write(TARGET_ADDRESS, VALUE, AccessType::DataWrite);

    lda(&mut cpu, &mut bus, AddressingMode::AbsoluteX);

    assert_eq!(cpu.a, VALUE);
    assert_eq!(cpu.pc, 3);
    assert_eq!(cpu.p.contains(Flag::Zero), VALUE == 0);
    assert_eq!(cpu.p.contains(Flag::Sign), VALUE >= 0x80);
}

#[test]
fn test_ldx_immediate() {
    let mut bus = SimpleBus::default();
    let mut cpu = Cpu::default();

    const VALUE: u8 = 0x42;

    cpu.pc = 0x0200;
    bus.write(0x0201, VALUE, AccessType::DataWrite);

    ldx(&mut cpu, &mut bus, AddressingMode::Immediate);

    assert_eq!(cpu.x, VALUE);
    assert!(!cpu.p.contains(Flag::Zero));
    assert!(!cpu.p.contains(Flag::Sign));
    assert_eq!(cpu.pc, 0x0202);
}

#[test]
fn test_ldx_zero_sets_flag() {
    let mut bus = SimpleBus::default();
    let mut cpu = Cpu::default();

    const VALUE: u8 = 0x00;

    cpu.pc = 0x0200;
    bus.write(0x0201, VALUE, AccessType::DataWrite);

    ldx(&mut cpu, &mut bus, AddressingMode::Immediate);

    assert_eq!(cpu.x, VALUE);
    assert!(cpu.p.contains(Flag::Zero));
    assert!(!cpu.p.contains(Flag::Sign));
}

#[test]
fn test_ldx_negative_sets_sign() {
    let mut bus = SimpleBus::default();
    let mut cpu = Cpu::default();

    const VALUE: u8 = 0xFF;

    cpu.pc = 0x0200;
    bus.write(0x0201, VALUE, AccessType::DataWrite);

    ldx(&mut cpu, &mut bus, AddressingMode::Immediate);

    assert_eq!(cpu.x, VALUE);
    assert!(!cpu.p.contains(Flag::Zero));
    assert!(cpu.p.contains(Flag::Sign));
}

#[test]
fn test_ldy_immediate() {
    let mut bus = SimpleBus::default();
    let mut cpu = Cpu::default();

    const VALUE: u8 = 0x42;

    cpu.pc = 0x0200;
    bus.write(0x0201, VALUE, AccessType::DataWrite);

    ldy(&mut cpu, &mut bus, AddressingMode::Immediate);

    assert_eq!(cpu.y, VALUE);
    assert!(!cpu.p.contains(Flag::Zero));
    assert!(!cpu.p.contains(Flag::Sign));
    assert_eq!(cpu.pc, 0x0202);
}

#[test]
fn test_ldy_zero_sets_flag() {
    let mut bus = SimpleBus::default();
    let mut cpu = Cpu::default();

    const VALUE: u8 = 0x00;

    cpu.pc = 0x0200;
    bus.write(0x0201, VALUE, AccessType::DataWrite);

    ldy(&mut cpu, &mut bus, AddressingMode::Immediate);

    assert_eq!(cpu.y, VALUE);
    assert!(cpu.p.contains(Flag::Zero));
    assert!(!cpu.p.contains(Flag::Sign));
}

#[test]
fn test_ldy_negative_sets_sign() {
    let mut bus = SimpleBus::default();
    let mut cpu = Cpu::default();

    const VALUE: u8 = 0x80;

    cpu.pc = 0x0200;
    bus.write(0x0201, VALUE, AccessType::DataWrite);

    ldy(&mut cpu, &mut bus, AddressingMode::Immediate);

    assert_eq!(cpu.y, VALUE);
    assert!(!cpu.p.contains(Flag::Zero));
    assert!(cpu.p.contains(Flag::Sign));
}

#[test]
fn test_sta_absolute() {
    let mut bus = SimpleBus::default();
    let mut cpu = Cpu::default();

    const VALUE: u8 = 0x42;
    const TARGET_ADDRESS: u16 = 0x1234;

    cpu.a = VALUE;
    bus.write(cpu.pc + 1, 0x34, AccessType::DataWrite);
    bus.write(cpu.pc + 2, 0x12, AccessType::DataWrite);

    sta(&mut cpu, &mut bus, AddressingMode::Absolute);

    assert_eq!(bus.read(TARGET_ADDRESS, AccessType::DataRead), VALUE);
    assert_eq!(cpu.pc, 3);
}

#[test]
fn test_sta_absolute_x() {
    let mut bus = SimpleBus::default();
    let mut cpu = Cpu::default();

    const VALUE: u8 = 0x42;
    const OFFSET: u8 = 0x00;
    const TARGET_ADDRESS: u16 = 0x1234 + OFFSET as u16;

    cpu.a = VALUE;
    cpu.x = OFFSET;
    bus.write(cpu.pc + 1, 0x34, AccessType::DataWrite);
    bus.write(cpu.pc + 2, 0x12, AccessType::DataWrite);

    sta(&mut cpu, &mut bus, AddressingMode::AbsoluteX);

    assert_eq!(bus.read(TARGET_ADDRESS, AccessType::DataRead), VALUE);
    assert_eq!(cpu.pc, 3);
}

#[test]
fn test_sta_absolute_y() {
    let mut bus = SimpleBus::default();
    let mut cpu = Cpu::default();

    const VALUE: u8 = 0x42;
    const OFFSET: u8 = 0x00;
    const TARGET_ADDRESS: u16 = 0x1234 + OFFSET as u16;

    cpu.a = VALUE;
    cpu.y = OFFSET;
    bus.write(cpu.pc + 1, 0x34, AccessType::DataWrite);
    bus.write(cpu.pc + 2, 0x12, AccessType::DataWrite);

    sta(&mut cpu, &mut bus, AddressingMode::AbsoluteY);

    assert_eq!(bus.read(TARGET_ADDRESS, AccessType::DataRead), VALUE);
    assert_eq!(cpu.pc, 3);
}

#[test]
fn test_sta_zero_page() {
    let mut bus = SimpleBus::default();
    let mut cpu = Cpu::default();

    const VALUE: u8 = 0x42;
    const TARGET_ADDRESS: u8 = 0x12;

    cpu.a = VALUE;
    bus.write(cpu.pc + 1, TARGET_ADDRESS, AccessType::DataWrite);

    sta(&mut cpu, &mut bus, AddressingMode::ZeroPage);

    assert_eq!(bus.read(TARGET_ADDRESS as u16, AccessType::DataRead), VALUE);
    assert_eq!(cpu.pc, 2);
}

#[test]
fn test_sta_zero_page_x() {
    let mut bus = SimpleBus::default();
    let mut cpu = Cpu::default();

    const VALUE: u8 = 0x42;
    const OFFSET: u8 = 0x00;
    const BASE_ADDRESS: u8 = 0x12;
    let target_address = BASE_ADDRESS.wrapping_add(OFFSET);

    cpu.a = VALUE;
    cpu.x = OFFSET;
    bus.write(cpu.pc + 1, BASE_ADDRESS, AccessType::DataWrite);

    sta(&mut cpu, &mut bus, AddressingMode::ZeroPageX);

    assert_eq!(bus.read(target_address as u16, AccessType::DataRead), VALUE);
    assert_eq!(cpu.pc, 2);
}

#[test]
fn test_sta_zero_page_y() {
    let mut bus = SimpleBus::default();
    let mut cpu = Cpu::default();

    const VALUE: u8 = 0x42;
    const OFFSET: u8 = 0x00;
    const BASE_ADDRESS: u8 = 0x12;
    let target_address = BASE_ADDRESS.wrapping_add(OFFSET);

    cpu.a = VALUE;
    cpu.y = OFFSET;
    bus.write(cpu.pc + 1, BASE_ADDRESS, AccessType::DataWrite);

    sta(&mut cpu, &mut bus, AddressingMode::ZeroPageY);

    assert_eq!(bus.read(target_address as u16, AccessType::DataRead), VALUE);
    assert_eq!(cpu.pc, 2);
}

#[test]
fn test_sta_zero_page_indirect_y() {
    let mut bus = SimpleBus::default();
    let mut cpu = Cpu::default();

    const OFFSET: u8 = 0x05;
    const POINTER_LOCATION: u8 = 0x10;
    const TARGET_ADDRESS: u16 = 0x1200 + OFFSET as u16;
    const VALUE: u8 = 0x42;

    cpu.a = VALUE;
    cpu.y = OFFSET;

    bus.write(cpu.pc + 1, POINTER_LOCATION, AccessType::DataWrite);
    bus.write(POINTER_LOCATION as u16, 0x00, AccessType::DataWrite);
    bus.write(POINTER_LOCATION as u16 + 1, 0x12, AccessType::DataWrite);

    sta(&mut cpu, &mut bus, AddressingMode::ZeroPageIndirectY);

    assert_eq!(bus.read(TARGET_ADDRESS, AccessType::DataRead), VALUE);
    assert_eq!(cpu.pc, 2);
}

#[test]
fn test_stx_absolute() {
    let mut bus = SimpleBus::default();
    let mut cpu = Cpu::default();

    const VALUE: u8 = 0x42;
    const TARGET_ADDRESS: u16 = 0x1234;

    cpu.x = VALUE;
    bus.write(cpu.pc + 1, 0x34, AccessType::DataWrite);
    bus.write(cpu.pc + 2, 0x12, AccessType::DataWrite);

    stx(&mut cpu, &mut bus, AddressingMode::Absolute);

    assert_eq!(bus.read(TARGET_ADDRESS, AccessType::DataRead), VALUE);
    assert_eq!(cpu.pc, 3);
}

#[test]
fn test_stx_zero_page() {
    let mut bus = SimpleBus::default();
    let mut cpu = Cpu::default();

    const VALUE: u8 = 0x42;
    const TARGET_ADDRESS: u8 = 0x12;

    cpu.x = VALUE;
    bus.write(cpu.pc + 1, TARGET_ADDRESS, AccessType::DataWrite);

    stx(&mut cpu, &mut bus, AddressingMode::ZeroPage);

    assert_eq!(bus.read(TARGET_ADDRESS as u16, AccessType::DataRead), VALUE);
    assert_eq!(cpu.pc, 2);
}

#[test]
fn test_stx_zero_page_y() {
    let mut bus = SimpleBus::default();
    let mut cpu = Cpu::default();

    const VALUE: u8 = 0x42;
    const OFFSET: u8 = 0x04;
    const BASE_ADDRESS: u8 = 0x12;
    let target_address = BASE_ADDRESS.wrapping_add(OFFSET);

    cpu.x = VALUE;
    cpu.y = OFFSET;
    bus.write(cpu.pc + 1, BASE_ADDRESS, AccessType::DataWrite);

    stx(&mut cpu, &mut bus, AddressingMode::ZeroPageY);

    assert_eq!(bus.read(target_address as u16, AccessType::DataRead), VALUE);
    assert_eq!(cpu.pc, 2);
}

#[test]
fn test_sty_absolute() {
    let mut bus = SimpleBus::default();
    let mut cpu = Cpu::default();

    const VALUE: u8 = 0x42;
    const TARGET_ADDRESS: u16 = 0x1234;

    cpu.y = VALUE;
    bus.write(cpu.pc + 1, 0x34, AccessType::DataWrite);
    bus.write(cpu.pc + 2, 0x12, AccessType::DataWrite);

    sty(&mut cpu, &mut bus, AddressingMode::Absolute);

    assert_eq!(bus.read(TARGET_ADDRESS, AccessType::DataRead), VALUE);
    assert_eq!(cpu.pc, 3);
}

#[test]
fn test_sty_zero_page() {
    let mut bus = SimpleBus::default();
    let mut cpu = Cpu::default();

    const VALUE: u8 = 0x42;
    const TARGET_ADDRESS: u8 = 0x12;

    cpu.y = VALUE;
    bus.write(cpu.pc + 1, TARGET_ADDRESS, AccessType::DataWrite);

    sty(&mut cpu, &mut bus, AddressingMode::ZeroPage);

    assert_eq!(bus.read(TARGET_ADDRESS as u16, AccessType::DataRead), VALUE);
    assert_eq!(cpu.pc, 2);
}

#[test]
fn test_sty_zero_page_y() {
    let mut bus = SimpleBus::default();
    let mut cpu = Cpu::default();

    const VALUE: u8 = 0x42;
    const OFFSET: u8 = 0x04;
    const BASE_ADDRESS: u8 = 0x12;
    let target_address = BASE_ADDRESS.wrapping_add(OFFSET);

    cpu.y = VALUE;
    cpu.x = OFFSET;
    bus.write(cpu.pc + 1, BASE_ADDRESS, AccessType::DataWrite);

    sty(&mut cpu, &mut bus, AddressingMode::ZeroPageX);

    assert_eq!(bus.read(target_address as u16, AccessType::DataRead), VALUE);
    assert_eq!(cpu.pc, 2);
}

#[test]
fn test_tax() {
    let mut bus = SimpleBus::default();
    let mut cpu = Cpu::default();

    const VALUE: u8 = 0x42;
    cpu.a = VALUE;

    let initial_pc = cpu.pc;
    tax(&mut cpu, &mut bus);

    assert_eq!(cpu.x, VALUE);
    assert_eq!(cpu.p.contains(Flag::Zero), VALUE == 0);
    assert_eq!(cpu.p.contains(Flag::Sign), VALUE >= 0x80);
    assert_eq!(cpu.pc, initial_pc + 1);
}

#[test]
fn test_tay() {
    let mut bus = SimpleBus::default();
    let mut cpu = Cpu::default();

    const VALUE: u8 = 0x42;
    cpu.a = VALUE;

    let initial_pc = cpu.pc;
    tay(&mut cpu, &mut bus);

    assert_eq!(cpu.y, VALUE);
    assert_eq!(cpu.p.contains(Flag::Zero), VALUE == 0);
    assert_eq!(cpu.p.contains(Flag::Sign), VALUE >= 0x80);
    assert_eq!(cpu.pc, initial_pc + 1);
}

#[test]
fn test_tsx() {
    let mut bus = SimpleBus::default();
    let mut cpu = Cpu::default();

    const VALUE: u8 = 0xFD;
    cpu.sp = VALUE;

    let initial_pc = cpu.pc;
    tsx(&mut cpu, &mut bus);

    assert_eq!(cpu.x, VALUE);
    assert_eq!(cpu.p.contains(Flag::Zero), VALUE == 0);
    assert_eq!(cpu.p.contains(Flag::Sign), VALUE >= 0x80);
    assert_eq!(cpu.pc, initial_pc + 1);
}

#[test]
fn test_txa() {
    let mut bus = SimpleBus::default();
    let mut cpu = Cpu::default();

    const VALUE: u8 = 0x42;
    cpu.x = VALUE;

    let initial_pc = cpu.pc;
    txa(&mut cpu, &mut bus);

    assert_eq!(cpu.a, VALUE);
    assert_eq!(cpu.p.contains(Flag::Zero), VALUE == 0);
    assert_eq!(cpu.p.contains(Flag::Sign), VALUE >= 0x80);
    assert_eq!(cpu.pc, initial_pc + 1);
}

#[test]
fn test_txs() {
    let mut bus = SimpleBus::default();
    let mut cpu = Cpu::default();

    const VALUE: u8 = 0xFF;
    cpu.x = VALUE;

    let initial_pc = cpu.pc;
    txs(&mut cpu, &mut bus);

    assert_eq!(cpu.sp, VALUE);
    assert_eq!(cpu.pc, initial_pc + 1);
}

#[test]
fn test_tya() {
    let mut bus = SimpleBus::default();
    let mut cpu = Cpu::default();

    const VALUE: u8 = 0x42;
    cpu.y = VALUE;

    let initial_pc = cpu.pc;
    tya(&mut cpu, &mut bus);

    assert_eq!(cpu.a, VALUE);
    assert_eq!(cpu.p.contains(Flag::Zero), VALUE == 0);
    assert_eq!(cpu.p.contains(Flag::Sign), VALUE >= 0x80);
    assert_eq!(cpu.pc, initial_pc + 1);
}

#[test]
fn test_pha() {
    let mut bus = SimpleBus::default();
    let mut cpu = Cpu::default();

    const VALUE: u8 = 0x42;
    cpu.a = VALUE;

    let initial_sp = cpu.sp;
    let initial_pc = cpu.pc;
    pha(&mut cpu, &mut bus);

    assert_eq!(bus.read(0x0100 + initial_sp as u16, AccessType::DataRead), VALUE);
    assert_eq!(cpu.sp, initial_sp - 1);
    assert_eq!(cpu.pc, initial_pc + 1);
}

#[test]
fn test_php() {
    let mut bus = SimpleBus::default();
    let mut cpu = Cpu::default();

    cpu.p.carry = true;
    cpu.p.zero = true;

    let initial_sp = cpu.sp;
    let initial_pc = cpu.pc;
    php(&mut cpu, &mut bus);

    let pushed_flags = bus.read(0x0100 + initial_sp as u16, AccessType::DataRead);
    assert_eq!(pushed_flags & 0x01, 0x01);
    assert_eq!(pushed_flags & 0x02, 0x02);
    assert_eq!(pushed_flags & 0x10, 0x10);
    assert_eq!(pushed_flags & 0x20, 0x20);
    assert_eq!(cpu.sp, initial_sp - 1);
    assert_eq!(cpu.pc, initial_pc + 1);
}

#[test]
fn test_pla() {
    let mut bus = SimpleBus::default();
    let mut cpu = Cpu::default();

    const VALUE: u8 = 0x42;
    cpu.sp = 0xFE;
    bus.write(0x0100 + 0xFF, VALUE, AccessType::DataWrite);

    let initial_pc = cpu.pc;
    pla(&mut cpu, &mut bus);

    assert_eq!(cpu.a, VALUE);
    assert_eq!(cpu.sp, 0xFF);
    assert_eq!(cpu.p.contains(Flag::Zero), VALUE == 0);
    assert_eq!(cpu.p.contains(Flag::Sign), VALUE >= 0x80);
    assert_eq!(cpu.pc, initial_pc + 1);
}

#[test]
fn test_plp() {
    let mut bus = SimpleBus::default();
    let mut cpu = Cpu::default();

    let flags_value: u8 = 0x03;
    cpu.sp = 0xFE;
    bus.write(0x0100 + 0xFF, flags_value, AccessType::DataWrite);

    let initial_pc = cpu.pc;
    plp(&mut cpu, &mut bus);

    assert!(cpu.p.contains(Flag::Carry));
    assert!(cpu.p.contains(Flag::Zero));
    assert_eq!(cpu.sp, 0xFF);
    assert_eq!(cpu.pc, initial_pc + 1);
}

#[test]
fn test_asl_a() {
    let mut bus = SimpleBus::default();
    let mut cpu = Cpu::default();

    const INPUT: u8 = 0b0101_0010;
    const EXPECTED: u8 = 0b1010_0100;
    cpu.a = INPUT;

    let initial_pc = cpu.pc;
    asl_a(&mut cpu, &mut bus);

    assert_eq!(cpu.a, EXPECTED);
    assert!(!cpu.p.contains(Flag::Carry));
    assert_eq!(cpu.p.contains(Flag::Zero), cpu.a == 0);
    assert_eq!(cpu.p.contains(Flag::Sign), cpu.a >= 0x80);
    assert_eq!(cpu.pc, initial_pc + 1);
}

#[test]
fn test_asl_a_with_carry() {
    let mut bus = SimpleBus::default();
    let mut cpu = Cpu::default();

    const INPUT: u8 = 0b1101_0010;
    const EXPECTED: u8 = 0b1010_0100;
    cpu.a = INPUT;

    let initial_pc = cpu.pc;
    asl_a(&mut cpu, &mut bus);

    assert_eq!(cpu.a, EXPECTED);
    assert!(cpu.p.contains(Flag::Carry));
    assert_eq!(cpu.p.contains(Flag::Zero), cpu.a == 0);
    assert_eq!(cpu.p.contains(Flag::Sign), cpu.a >= 0x80);
    assert_eq!(cpu.pc, initial_pc + 1);
}

#[test]
fn test_lsr_a() {
    let mut bus = SimpleBus::default();
    let mut cpu = Cpu::default();

    const INPUT: u8 = 0b0101_0010;
    const EXPECTED: u8 = 0b0010_1001;
    cpu.a = INPUT;

    let initial_pc = cpu.pc;
    lsr_a(&mut cpu, &mut bus);

    assert_eq!(cpu.a, EXPECTED);
    assert!(!cpu.p.contains(Flag::Carry));
    assert_eq!(cpu.p.contains(Flag::Zero), cpu.a == 0);
    assert_eq!(cpu.p.contains(Flag::Sign), cpu.a >= 0x80);
    assert_eq!(cpu.pc, initial_pc + 1);
}

#[test]
fn test_lsr_a_with_carry() {
    let mut bus = SimpleBus::default();
    let mut cpu = Cpu::default();

    const INPUT: u8 = 0b0101_0011;
    const EXPECTED: u8 = 0b0010_1001;
    cpu.a = INPUT;

    let initial_pc = cpu.pc;
    lsr_a(&mut cpu, &mut bus);

    assert_eq!(cpu.a, EXPECTED);
    assert!(cpu.p.contains(Flag::Carry));
    assert_eq!(cpu.p.contains(Flag::Zero), cpu.a == 0);
    assert_eq!(cpu.p.contains(Flag::Sign), cpu.a >= 0x80);
    assert_eq!(cpu.pc, initial_pc + 1);
}

#[test]
fn test_rol_a() {
    let mut bus = SimpleBus::default();
    let mut cpu = Cpu::default();

    const INPUT: u8 = 0b0101_0010;
    const EXPECTED: u8 = 0b1010_0101;
    cpu.a = INPUT;
    cpu.p.carry = true;

    let initial_pc = cpu.pc;
    rol_a(&mut cpu, &mut bus);

    assert_eq!(cpu.a, EXPECTED);
    assert!(!cpu.p.contains(Flag::Carry));
    assert_eq!(cpu.p.contains(Flag::Zero), cpu.a == 0);
    assert_eq!(cpu.p.contains(Flag::Sign), cpu.a >= 0x80);
    assert_eq!(cpu.pc, initial_pc + 1);
}

#[test]
fn test_rol_a_with_carry() {
    let mut bus = SimpleBus::default();
    let mut cpu = Cpu::default();

    const INPUT: u8 = 0b1101_0010;
    const EXPECTED: u8 = 0b1010_0100;
    cpu.a = INPUT;
    cpu.p.carry = false;

    let initial_pc = cpu.pc;
    rol_a(&mut cpu, &mut bus);

    assert_eq!(cpu.a, EXPECTED);
    assert!(cpu.p.contains(Flag::Carry));
    assert_eq!(cpu.p.contains(Flag::Zero), cpu.a == 0);
    assert_eq!(cpu.p.contains(Flag::Sign), cpu.a >= 0x80);
    assert_eq!(cpu.pc, initial_pc + 1);
}

#[test]
fn test_ror_a() {
    let mut bus = SimpleBus::default();
    let mut cpu = Cpu::default();

    const INPUT: u8 = 0b0101_0010;
    const EXPECTED: u8 = 0b1010_1001;
    cpu.a = INPUT;
    cpu.p.carry = true;

    let initial_pc = cpu.pc;
    ror_a(&mut cpu, &mut bus);

    assert_eq!(cpu.a, EXPECTED);
    assert!(!cpu.p.contains(Flag::Carry));
    assert_eq!(cpu.p.contains(Flag::Zero), cpu.a == 0);
    assert_eq!(cpu.p.contains(Flag::Sign), cpu.a >= 0x80);
    assert_eq!(cpu.pc, initial_pc + 1);
}

#[test]
fn test_ror_a_with_carry() {
    let mut bus = SimpleBus::default();
    let mut cpu = Cpu::default();

    const INPUT: u8 = 0b0101_0011;
    const EXPECTED: u8 = 0b0010_1001;
    cpu.a = INPUT;
    cpu.p.carry = false;

    let initial_pc = cpu.pc;
    ror_a(&mut cpu, &mut bus);

    assert_eq!(cpu.a, EXPECTED);
    assert!(cpu.p.contains(Flag::Carry));
    assert_eq!(cpu.p.contains(Flag::Zero), cpu.a == 0);
    assert_eq!(cpu.p.contains(Flag::Sign), cpu.a >= 0x80);
    assert_eq!(cpu.pc, initial_pc + 1);
}

#[test]
fn test_asl_zero_page() {
    let mut bus = SimpleBus::default();
    let mut cpu = Cpu::default();

    const ADDRESS: u8 = 0x42;
    const INPUT: u8 = 0b0101_0010;
    const EXPECTED: u8 = 0b1010_0100;

    bus.write(cpu.pc + 1, ADDRESS, AccessType::DataWrite);
    bus.write(ADDRESS as u16, INPUT, AccessType::DataWrite);

    asl(&mut cpu, &mut bus, AddressingMode::ZeroPage);

    assert_eq!(bus.read(ADDRESS as u16, AccessType::DataRead), EXPECTED);
    assert!(!cpu.p.contains(Flag::Carry));
    assert_eq!(cpu.pc, 2);
}

#[test]
fn test_lsr_absolute() {
    let mut bus = SimpleBus::default();
    let mut cpu = Cpu::default();

    const TARGET_ADDRESS: u16 = 0x1234;
    const INPUT: u8 = 0b0101_0010;
    const EXPECTED: u8 = 0b0010_1001;

    bus.write(cpu.pc + 1, 0x34, AccessType::DataWrite);
    bus.write(cpu.pc + 2, 0x12, AccessType::DataWrite);
    bus.write(TARGET_ADDRESS, INPUT, AccessType::DataWrite);

    lsr(&mut cpu, &mut bus, AddressingMode::Absolute);

    assert_eq!(bus.read(TARGET_ADDRESS, AccessType::DataRead), EXPECTED);
    assert!(!cpu.p.contains(Flag::Carry));
    assert_eq!(cpu.pc, 3);
}

#[test]
fn test_rol_zero_page_x() {
    let mut bus = SimpleBus::default();
    let mut cpu = Cpu::default();

    const BASE_ADDRESS: u8 = 0x40;
    const OFFSET: u8 = 0x02;
    const INPUT: u8 = 0b0101_0010;
    const EXPECTED: u8 = 0b1010_0101;
    let target_address = BASE_ADDRESS.wrapping_add(OFFSET);

    cpu.x = OFFSET;
    cpu.p.carry = true;

    bus.write(cpu.pc + 1, BASE_ADDRESS, AccessType::DataWrite);
    bus.write(target_address as u16, INPUT, AccessType::DataWrite);

    rol(&mut cpu, &mut bus, AddressingMode::ZeroPageX);

    assert_eq!(bus.read(target_address as u16, AccessType::DataRead), EXPECTED);
    assert!(!cpu.p.contains(Flag::Carry));
    assert_eq!(cpu.pc, 2);
}

#[test]
fn test_ror_absolute_x() {
    let mut bus = SimpleBus::default();
    let mut cpu = Cpu::default();

    const BASE_ADDRESS: u16 = 0x1230;
    const OFFSET: u8 = 0x04;
    const TARGET_ADDRESS: u16 = BASE_ADDRESS + OFFSET as u16;
    const INPUT: u8 = 0b0101_0010;
    const EXPECTED: u8 = 0b1010_1001;

    cpu.x = OFFSET;
    cpu.p.carry = true;

    bus.write(cpu.pc + 1, 0x30, AccessType::DataWrite);
    bus.write(cpu.pc + 2, 0x12, AccessType::DataWrite);
    bus.write(TARGET_ADDRESS, INPUT, AccessType::DataWrite);

    ror(&mut cpu, &mut bus, AddressingMode::AbsoluteX);

    assert_eq!(bus.read(TARGET_ADDRESS, AccessType::DataRead), EXPECTED);
    assert!(!cpu.p.contains(Flag::Carry));
    assert_eq!(cpu.pc, 3);
}

#[test]
fn test_and_immediate() {
    let mut bus = SimpleBus::default();
    let mut cpu = Cpu::default();

    const A_VALUE: u8 = 0x3C;
    const MASK_VALUE: u8 = 0x0F;
    const EXPECTED_RESULT: u8 = 0x0C;

    cpu.a = A_VALUE;
    bus.write(cpu.pc + 1, MASK_VALUE, AccessType::DataWrite);

    and(&mut cpu, &mut bus, AddressingMode::Immediate);

    assert_eq!(cpu.a, EXPECTED_RESULT);
    assert!(!cpu.p.contains(Flag::Zero));
    assert!(!cpu.p.contains(Flag::Sign));
    assert_eq!(cpu.pc, 2);
}

#[test]
fn test_ora_immediate() {
    let mut bus = SimpleBus::default();
    let mut cpu = Cpu::default();

    const A_VALUE: u8 = 0x01;
    const OR_VALUE: u8 = 0x80;
    const EXPECTED_RESULT: u8 = 0x81;

    cpu.a = A_VALUE;
    bus.write(cpu.pc + 1, OR_VALUE, AccessType::DataWrite);

    ora(&mut cpu, &mut bus, AddressingMode::Immediate);

    assert_eq!(cpu.a, EXPECTED_RESULT);
    assert!(cpu.p.contains(Flag::Sign));
    assert!(!cpu.p.contains(Flag::Zero));
    assert_eq!(cpu.pc, 2);
}

#[test]
fn test_eor_immediate() {
    let mut bus = SimpleBus::default();
    let mut cpu = Cpu::default();

    const A_VALUE: u8 = 0xFF;
    const XOR_VALUE: u8 = 0x0F;
    const EXPECTED_RESULT: u8 = 0xF0;

    cpu.a = A_VALUE;
    bus.write(cpu.pc + 1, XOR_VALUE, AccessType::DataWrite);

    eor(&mut cpu, &mut bus, AddressingMode::Immediate);

    assert_eq!(cpu.a, EXPECTED_RESULT);
    assert!(cpu.p.contains(Flag::Sign));
    assert!(!cpu.p.contains(Flag::Zero));
    assert_eq!(cpu.pc, 2);
}

#[test]
fn test_adc_immediate() {
    let mut bus = SimpleBus::default();
    let mut cpu = Cpu::default();

    const A_VALUE: u8 = 0x70;
    const ADD_VALUE: u8 = 0x10;
    const EXPECTED_RESULT: u8 = 0x81;

    cpu.a = A_VALUE;
    cpu.p.carry = true;
    bus.write(cpu.pc + 1, ADD_VALUE, AccessType::DataWrite);

    adc(&mut cpu, &mut bus, AddressingMode::Immediate);

    assert_eq!(cpu.a, EXPECTED_RESULT);
    assert!(cpu.p.contains(Flag::Overflow));
    assert!(cpu.p.contains(Flag::Sign));
    assert!(!cpu.p.contains(Flag::Carry));
    assert_eq!(cpu.pc, 2);
}

#[test]
fn test_sbc_immediate() {
    let mut bus = SimpleBus::default();
    let mut cpu = Cpu::default();

    const A_VALUE: u8 = 0x10;
    const SUB_VALUE: u8 = 0x10;
    const EXPECTED_RESULT: u8 = 0x00;

    cpu.a = A_VALUE;
    cpu.p.carry = true;
    bus.write(cpu.pc + 1, SUB_VALUE, AccessType::DataWrite);

    sbc(&mut cpu, &mut bus, AddressingMode::Immediate);

    assert_eq!(cpu.a, EXPECTED_RESULT);
    assert!(cpu.p.contains(Flag::Carry));
    assert!(cpu.p.contains(Flag::Zero));
    assert!(!cpu.p.contains(Flag::Sign));
    assert_eq!(cpu.pc, 2);
}

#[test]
fn test_inc_zero_page() {
    let mut bus = SimpleBus::default();
    let mut cpu = Cpu::default();

    const ADDRESS: u8 = 0x30;
    const INITIAL_VALUE: u8 = 0xFF;
    const EXPECTED_VALUE: u8 = 0x00;

    bus.write(cpu.pc + 1, ADDRESS, AccessType::DataWrite);
    bus.write(0x0030, INITIAL_VALUE, AccessType::DataWrite);

    inc(&mut cpu, &mut bus, AddressingMode::ZeroPage);

    assert_eq!(bus.read(0x0030, AccessType::DataRead), EXPECTED_VALUE);
    assert_eq!(cpu.pc, 2);
}

#[test]
fn test_dec_zero_page() {
    let mut bus = SimpleBus::default();
    let mut cpu = Cpu::default();

    const ADDRESS: u8 = 0x31;
    const INITIAL_VALUE: u8 = 0x00;
    const EXPECTED_VALUE: u8 = 0xFF;

    bus.write(cpu.pc + 1, ADDRESS, AccessType::DataWrite);
    bus.write(0x0031, INITIAL_VALUE, AccessType::DataWrite);

    dec(&mut cpu, &mut bus, AddressingMode::ZeroPage);

    assert_eq!(bus.read(0x0031, AccessType::DataRead), EXPECTED_VALUE);
    assert_eq!(cpu.pc, 2);
}

#[test]
fn test_inx_wraps_and_updates_pc() {
    let mut bus = SimpleBus::default();
    let mut cpu = Cpu::default();

    cpu.x = 0xFF;

    inx(&mut cpu, &mut bus);

    assert_eq!(cpu.x, 0x00);
    assert_eq!(cpu.pc, 1);
}

#[test]
fn test_iny_wraps_and_updates_pc() {
    let mut bus = SimpleBus::default();
    let mut cpu = Cpu::default();

    cpu.y = 0x7F;

    iny(&mut cpu, &mut bus);

    assert_eq!(cpu.y, 0x80);
    assert_eq!(cpu.pc, 1);
}

#[test]
fn test_cpx_immediate() {
    let mut bus = SimpleBus::default();
    let mut cpu = Cpu::default();

    const VALUE: u8 = 0x10;

    cpu.x = VALUE;
    bus.write(cpu.pc + 1, VALUE, AccessType::DataWrite);

    cpx(&mut cpu, &mut bus, AddressingMode::Immediate);

    assert!(cpu.p.contains(Flag::Zero));
    assert!(cpu.p.contains(Flag::Carry));
    assert!(!cpu.p.contains(Flag::Sign));
    assert_eq!(cpu.pc, 2);
}

#[test]
fn test_cpy_immediate() {
    let mut bus = SimpleBus::default();
    let mut cpu = Cpu::default();

    const VALUE: u8 = 0x10;

    cpu.y = VALUE;
    bus.write(cpu.pc + 1, VALUE, AccessType::DataWrite);

    cpy(&mut cpu, &mut bus, AddressingMode::Immediate);

    assert!(cpu.p.contains(Flag::Zero));
    assert!(cpu.p.contains(Flag::Carry));
    assert!(!cpu.p.contains(Flag::Sign));
    assert_eq!(cpu.pc, 2);
}

#[test]
fn test_bit_zero_page() {
    let mut bus = SimpleBus::default();
    let mut cpu = Cpu::default();

    const A_VALUE: u8 = 0b0100_0000;
    const ADDRESS: u8 = 0x40;
    const MEMORY_VALUE: u8 = 0b1100_0000;

    cpu.a = A_VALUE;
    bus.write(cpu.pc + 1, ADDRESS, AccessType::DataWrite);
    bus.write(0x0040, MEMORY_VALUE, AccessType::DataWrite);

    bit(&mut cpu, &mut bus, AddressingMode::ZeroPage);

    assert!(cpu.p.contains(Flag::Sign));
    assert!(cpu.p.contains(Flag::Overflow));
    assert!(!cpu.p.contains(Flag::Zero));
    assert_eq!(cpu.pc, 2);
}

#[test]
fn test_bne_branching() {
    const OFFSET: u8 = 0x02;

    {
        let mut bus = SimpleBus::default();
        let mut cpu = Cpu::default();

        bus.write(cpu.pc + 1, OFFSET, AccessType::DataWrite);
        cpu.p.zero = false;

        bne(&mut cpu, &mut bus);

        assert_eq!(cpu.pc, 0x0004);
    }
    {
        let mut bus = SimpleBus::default();
        let mut cpu = Cpu::default();

        bus.write(cpu.pc + 1, OFFSET, AccessType::DataWrite);
        cpu.p.zero = true;

        bne(&mut cpu, &mut bus);

        assert_eq!(cpu.pc, 0x0002);
    }
}

#[test]
fn test_beq_branching() {
    const OFFSET: u8 = 0x02;

    {
        let mut bus = SimpleBus::default();
        let mut cpu = Cpu::default();

        bus.write(cpu.pc + 1, OFFSET, AccessType::DataWrite);
        cpu.p.zero = true;

        beq(&mut cpu, &mut bus);

        assert_eq!(cpu.pc, 0x0004);
    }
    {
        let mut bus = SimpleBus::default();
        let mut cpu = Cpu::default();

        bus.write(cpu.pc + 1, OFFSET, AccessType::DataWrite);
        cpu.p.zero = false;

        beq(&mut cpu, &mut bus);

        assert_eq!(cpu.pc, 0x0002);
    }
}

#[test]
fn test_bmi_branching() {
    const OFFSET: u8 = 0x02;

    {
        let mut bus = SimpleBus::default();
        let mut cpu = Cpu::default();

        bus.write(cpu.pc + 1, OFFSET, AccessType::DataWrite);
        cpu.p.sign = true;

        bmi(&mut cpu, &mut bus);

        assert_eq!(cpu.pc, 0x0004);
    }
    {
        let mut bus = SimpleBus::default();
        let mut cpu = Cpu::default();

        bus.write(cpu.pc + 1, OFFSET, AccessType::DataWrite);
        cpu.p.sign = false;

        bmi(&mut cpu, &mut bus);

        assert_eq!(cpu.pc, 0x0002);
    }
}

#[test]
fn test_bpl_branching() {
    let mut bus = SimpleBus::default();
    let mut cpu = Cpu::default();

    const OFFSET: u8 = 0x02;

    bus.write(cpu.pc + 1, OFFSET, AccessType::DataWrite);
    cpu.p.sign = false;

    bpl(&mut cpu, &mut bus);

    assert_eq!(cpu.pc, 0x0004);
}

#[test]
fn test_bcc_bcs_branching() {
    const OFFSET: u8 = 0x02;

    {
        let mut bus = SimpleBus::default();
        let mut cpu = Cpu::default();

        bus.write(cpu.pc + 1, OFFSET, AccessType::DataWrite);
        cpu.p.carry = false;

        bcc(&mut cpu, &mut bus);

        assert_eq!(cpu.pc, 0x0004);
    }
    {
        let mut bus = SimpleBus::default();
        let mut cpu = Cpu::default();

        bus.write(cpu.pc + 1, OFFSET, AccessType::DataWrite);
        cpu.p.carry = true;

        bcs(&mut cpu, &mut bus);

        assert_eq!(cpu.pc, 0x0004);
    }
}

#[test]
fn test_bvc_bvs_branching() {
    const OFFSET: u8 = 0x02;

    {
        let mut bus = SimpleBus::default();
        let mut cpu = Cpu::default();

        bus.write(cpu.pc + 1, OFFSET, AccessType::DataWrite);
        cpu.p.overflow = false;

        bvc(&mut cpu, &mut bus);

        assert_eq!(cpu.pc, 0x0004);
    }
    {
        let mut bus = SimpleBus::default();
        let mut cpu = Cpu::default();

        bus.write(cpu.pc + 1, OFFSET, AccessType::DataWrite);
        cpu.p.overflow = true;

        bvs(&mut cpu, &mut bus);

        assert_eq!(cpu.pc, 0x0004);
    }
}

#[test]
fn test_jmp_absolute() {
    let mut bus = SimpleBus::default();
    let mut cpu = Cpu::default();

    const TARGET_ADDRESS: u16 = 0x1234;

    bus.write(cpu.pc + 1, 0x34, AccessType::DataWrite);
    bus.write(cpu.pc + 2, 0x12, AccessType::DataWrite);

    jmp(&mut cpu, &mut bus, AddressingMode::Absolute);

    assert_eq!(cpu.pc, TARGET_ADDRESS);
}

#[test]
fn test_jmp_indirect() {
    let mut bus = SimpleBus::default();
    let mut cpu = Cpu::default();

    const POINTER_ADDRESS: u16 = 0x2000;
    const TARGET_ADDRESS: u16 = 0x5678;

    bus.write(cpu.pc + 1, 0x00, AccessType::DataWrite);
    bus.write(cpu.pc + 2, 0x20, AccessType::DataWrite);
    bus.write(POINTER_ADDRESS, 0x78, AccessType::DataWrite);
    bus.write(POINTER_ADDRESS + 1, 0x56, AccessType::DataWrite);

    jmp(&mut cpu, &mut bus, AddressingMode::AbsoluteIndirect);

    assert_eq!(cpu.pc, TARGET_ADDRESS);
}

#[test]
fn test_jsr_and_rts() {
    const JSR_TARGET: u16 = 0x2000;
    const RTS_TARGET: u16 = 0x1235;

    let mut bus = SimpleBus::default();
    let mut cpu = Cpu::default();

    bus.write(cpu.pc + 1, 0x00, AccessType::DataWrite);
    bus.write(cpu.pc + 2, 0x20, AccessType::DataWrite);

    jsr(&mut cpu, &mut bus, AddressingMode::Absolute);

    assert_eq!(cpu.pc, JSR_TARGET);
    assert_eq!(cpu.sp, 0xFB);
    assert_eq!(bus.read(0x01FD, AccessType::DataRead), 0x00);
    assert_eq!(bus.read(0x01FC, AccessType::DataRead), 0x02);

    let mut bus = SimpleBus::default();
    let mut cpu = Cpu::default();

    cpu.sp = 0xFB;
    bus.write(0x01FC, 0x34, AccessType::DataWrite);
    bus.write(0x01FD, 0x12, AccessType::DataWrite);

    rts(&mut cpu, &mut bus);

    assert_eq!(cpu.pc, RTS_TARGET);
    assert_eq!(cpu.sp, 0xFD);
}

#[test]
fn test_brk_and_rti() {
    let mut bus = SimpleBus::default();
    let mut cpu = Cpu::default();

    cpu.pc = 0x0200;
    bus.write(IRQ_VECTOR_LO, 0x00, AccessType::DataWrite);
    bus.write(IRQ_VECTOR_HI, 0x80, AccessType::DataWrite);
    brk(&mut cpu, &mut bus);

    assert_eq!(cpu.pc, 0x8000);
    assert_eq!(cpu.sp, 0xFA);
    assert_eq!(bus.read(0x01FD, AccessType::DataRead), 0x02);
    assert_eq!(bus.read(0x01FC, AccessType::DataRead), 0x02);

    let status = bus.read(0x01FB, AccessType::DataRead);
    assert_ne!(status & 0x10, 0);
    assert!(cpu.p.contains(Flag::InterruptDisabled));

    let mut bus = SimpleBus::default();
    let mut cpu = Cpu::default();
    cpu.sp = 0xFA;
    bus.write(0x01FB, 0x81, AccessType::DataWrite);
    bus.write(0x01FC, 0x34, AccessType::DataWrite);
    bus.write(0x01FD, 0x12, AccessType::DataWrite);
    rti(&mut cpu, &mut bus);
    assert_eq!(cpu.pc, 0x1234);
    assert_eq!(cpu.sp, 0xFD);
    assert!(cpu.p.contains(Flag::Sign));
    assert!(cpu.p.contains(Flag::Carry));
}

#[test]
fn test_cmp_equal() {
    let mut bus = SimpleBus::default();
    let mut cpu = Cpu::default();

    const VALUE: u8 = 0x42;

    cpu.a = VALUE;
    cpu.pc = 0x0200;
    bus.write(0x0201, VALUE, AccessType::DataWrite);

    cmp(&mut cpu, &mut bus, AddressingMode::Immediate);

    assert!(cpu.p.contains(Flag::Zero));
    assert!(cpu.p.contains(Flag::Carry));
    assert!(!cpu.p.contains(Flag::Sign));
}

#[test]
fn test_cmp_less_than() {
    let mut bus = SimpleBus::default();
    let mut cpu = Cpu::default();

    const A_VALUE: u8 = 0x20;
    const COMPARE_VALUE: u8 = 0x42;

    cpu.a = A_VALUE;
    cpu.pc = 0x0200;
    bus.write(0x0201, COMPARE_VALUE, AccessType::DataWrite);

    cmp(&mut cpu, &mut bus, AddressingMode::Immediate);

    assert!(!cpu.p.contains(Flag::Zero));
    assert!(!cpu.p.contains(Flag::Carry));
    assert!(cpu.p.contains(Flag::Sign));
}

#[test]
fn test_cmp_greater_than() {
    let mut bus = SimpleBus::default();
    let mut cpu = Cpu::default();

    const A_VALUE: u8 = 0x50;
    const COMPARE_VALUE: u8 = 0x42;

    cpu.a = A_VALUE;
    cpu.pc = 0x0200;
    bus.write(0x0201, COMPARE_VALUE, AccessType::DataWrite);

    cmp(&mut cpu, &mut bus, AddressingMode::Immediate);

    assert!(!cpu.p.contains(Flag::Zero));
    assert!(cpu.p.contains(Flag::Carry));
    assert!(!cpu.p.contains(Flag::Sign));
}

#[test]
fn test_dex_wraps() {
    let mut bus = SimpleBus::default();
    let mut cpu = Cpu::default();

    cpu.x = 0x00;
    cpu.pc = 0x0200;

    dex(&mut cpu, &mut bus);

    assert_eq!(cpu.x, 0xFF);
    assert!(!cpu.p.contains(Flag::Zero));
    assert!(cpu.p.contains(Flag::Sign));
    assert_eq!(cpu.pc, 0x0201);
}

#[test]
fn test_dex_sets_zero() {
    let mut bus = SimpleBus::default();
    let mut cpu = Cpu::default();

    cpu.x = 0x01;
    cpu.pc = 0x0200;

    dex(&mut cpu, &mut bus);

    assert_eq!(cpu.x, 0x00);
    assert!(cpu.p.contains(Flag::Zero));
    assert!(!cpu.p.contains(Flag::Sign));
}

#[test]
fn test_dey_wraps() {
    let mut bus = SimpleBus::default();
    let mut cpu = Cpu::default();

    cpu.y = 0x00;
    cpu.pc = 0x0200;

    dey(&mut cpu, &mut bus);

    assert_eq!(cpu.y, 0xFF);
    assert!(!cpu.p.contains(Flag::Zero));
    assert!(cpu.p.contains(Flag::Sign));
    assert_eq!(cpu.pc, 0x0201);
}

#[test]
fn test_dey_sets_zero() {
    let mut bus = SimpleBus::default();
    let mut cpu = Cpu::default();

    cpu.y = 0x01;
    cpu.pc = 0x0200;

    dey(&mut cpu, &mut bus);

    assert_eq!(cpu.y, 0x00);
    assert!(cpu.p.contains(Flag::Zero));
    assert!(!cpu.p.contains(Flag::Sign));
}

#[test]
fn test_stack_push_pop_sequence() {
    let mut bus = SimpleBus::default();
    let mut cpu = Cpu::default();
    cpu.pc = 0x0200;

    cpu.a = 0x42;
    cpu.x = 0x43;
    cpu.y = 0x44;

    pha(&mut cpu, &mut bus);
    assert_eq!(cpu.sp, 0xFC);

    cpu.a = cpu.x;
    pha(&mut cpu, &mut bus);
    assert_eq!(cpu.sp, 0xFB);

    cpu.a = cpu.y;
    pha(&mut cpu, &mut bus);
    assert_eq!(cpu.sp, 0xFA);

    pla(&mut cpu, &mut bus);
    assert_eq!(cpu.a, 0x44);
    assert_eq!(cpu.sp, 0xFB);

    pla(&mut cpu, &mut bus);
    assert_eq!(cpu.a, 0x43);
    assert_eq!(cpu.sp, 0xFC);

    pla(&mut cpu, &mut bus);
    assert_eq!(cpu.a, 0x42);
    assert_eq!(cpu.sp, 0xFD);
}

#[test]
fn test_countdown_loop() {
    let mut bus = SimpleBus::default();
    let mut cpu = Cpu::default();
    cpu.pc = 0x0200;

    cpu.x = 0x05;

    for expected in (0..5u8).rev() {
        dex(&mut cpu, &mut bus);
        assert_eq!(cpu.x, expected);

        if expected == 0 {
            assert!(cpu.p.contains(Flag::Zero));
        } else {
            assert!(!cpu.p.contains(Flag::Zero));
        }
    }
}

#[test]
fn test_function_call_return_sequence() {
    let mut bus = SimpleBus::default();
    let mut cpu = Cpu::default();

    cpu.pc = 0x0800;
    bus.write(0x0800, 0x20, AccessType::DataWrite);
    bus.write(0x0801, 0x00, AccessType::DataWrite);
    bus.write(0x0802, 0x10, AccessType::DataWrite);

    let initial_sp = cpu.sp;
    jsr(&mut cpu, &mut bus, AddressingMode::Absolute);

    assert_eq!(cpu.pc, 0x1000);
    assert_eq!(cpu.sp, initial_sp - 2);

    let base = 0x0100 + initial_sp as u16;
    let return_hi = bus.read(base, AccessType::DataRead);
    let return_lo = bus.read(base - 1, AccessType::DataRead);
    assert_eq!(return_hi, 0x08);
    assert_eq!(return_lo, 0x02);

    rts(&mut cpu, &mut bus);
    assert_eq!(cpu.pc, 0x0803);
    assert_eq!(cpu.sp, initial_sp);
}

#[test]
fn test_16bit_addition() {
    let mut bus = SimpleBus::default();
    let mut cpu = Cpu::default();
    cpu.pc = 0x0200;

    const FIRST_LO: u8 = 0x34;
    const FIRST_HI: u8 = 0x12;
    const SECOND_LO: u8 = 0x56;
    const SECOND_HI: u8 = 0x00;
    const EXPECTED_RESULT_LO: u8 = 0x8A;
    const EXPECTED_RESULT_HI: u8 = 0x12;

    cpu.p.carry = false;

    cpu.a = FIRST_LO;
    bus.write(0x0201, SECOND_LO, AccessType::DataWrite);
    adc(&mut cpu, &mut bus, AddressingMode::Immediate);

    assert_eq!(cpu.a, EXPECTED_RESULT_LO);
    assert!(!cpu.p.contains(Flag::Carry));

    cpu.a = FIRST_HI;
    bus.write(0x0202, SECOND_HI, AccessType::DataWrite);
    cpu.pc = 0x0201;
    adc(&mut cpu, &mut bus, AddressingMode::Immediate);

    assert_eq!(cpu.a, EXPECTED_RESULT_HI);
}

#[test]
fn test_multi_byte_comparison() {
    let mut bus = SimpleBus::default();
    let mut cpu = Cpu::default();
    cpu.pc = 0x0200;

    const FIRST_VALUE_HI: u8 = 0x12;
    const FIRST_VALUE_LO: u8 = 0x34;
    const SECOND_VALUE_HI: u8 = 0x12;
    const SECOND_VALUE_LO: u8 = 0x56;

    cpu.a = FIRST_VALUE_HI;
    bus.write(0x0200, 0xC9, AccessType::DataWrite);
    bus.write(0x0201, SECOND_VALUE_HI, AccessType::DataWrite);
    cmp(&mut cpu, &mut bus, AddressingMode::Immediate);

    assert!(cpu.p.contains(Flag::Zero));
    assert!(cpu.p.contains(Flag::Carry));

    cpu.a = FIRST_VALUE_LO;
    bus.write(0x0202, 0xC9, AccessType::DataWrite);
    bus.write(0x0203, SECOND_VALUE_LO, AccessType::DataWrite);
    cpu.pc = 0x0202;
    cmp(&mut cpu, &mut bus, AddressingMode::Immediate);

    assert!(!cpu.p.contains(Flag::Zero));
    assert!(!cpu.p.contains(Flag::Carry));
}

#[test]
fn test_memory_copy_loop() {
    let mut bus = SimpleBus::default();
    let mut cpu = Cpu::default();

    const SOURCE_ADDR: u16 = 0x1000;
    const DEST_ADDR: u16 = 0x2000;
    let source_data = [0xAA, 0xBB, 0xCC, 0xDD, 0xEE];

    for (i, &byte) in source_data.iter().enumerate() {
        bus.write(SOURCE_ADDR + i as u16, byte, AccessType::DataWrite);
    }

    for i in 0..source_data.len() as u8 {
        cpu.x = i;
        let source_val = bus.read(SOURCE_ADDR + cpu.x as u16, AccessType::DataRead);
        cpu.a = source_val;
        bus.write(DEST_ADDR + cpu.x as u16, cpu.a, AccessType::DataWrite);
    }

    for (i, &expected) in source_data.iter().enumerate() {
        let copied = bus.read(DEST_ADDR + i as u16, AccessType::DataRead);
        assert_eq!(copied, expected);
    }
}

#[test]
fn test_bit_manipulation_sequence() {
    let mut bus = SimpleBus::default();
    let mut cpu = Cpu::default();
    cpu.pc = 0x0200;

    const INITIAL_VALUE: u8 = 0b0000_1111;
    const SET_MASK: u8 = 0b1111_0000;
    const CLEAR_MASK: u8 = 0b0000_1111;
    const TOGGLE_MASK: u8 = 0b1111_1111;

    cpu.a = INITIAL_VALUE;
    bus.write(0x0201, SET_MASK, AccessType::DataWrite);
    ora(&mut cpu, &mut bus, AddressingMode::Immediate);
    assert_eq!(cpu.a, 0b1111_1111);

    cpu.pc = 0x0202;
    bus.write(0x0203, CLEAR_MASK, AccessType::DataWrite);
    and(&mut cpu, &mut bus, AddressingMode::Immediate);
    assert_eq!(cpu.a, 0b0000_1111);

    cpu.pc = 0x0204;
    bus.write(0x0205, TOGGLE_MASK, AccessType::DataWrite);
    eor(&mut cpu, &mut bus, AddressingMode::Immediate);
    assert_eq!(cpu.a, 0b1111_0000);
}

#[test]
fn test_conditional_flag_based_logic() {
    let mut bus = SimpleBus::default();
    let mut cpu = Cpu::default();
    cpu.pc = 0x0200;

    const VALUE_ABOVE_THRESHOLD: u8 = 0x90;
    const THRESHOLD: u8 = 0x80;

    cpu.a = VALUE_ABOVE_THRESHOLD;
    bus.write(0x0201, THRESHOLD, AccessType::DataWrite);
    cmp(&mut cpu, &mut bus, AddressingMode::Immediate);

    assert!(cpu.p.contains(Flag::Carry));

    const NEGATIVE_VALUE: u8 = 0xFF;
    const POSITIVE_VALUE: u8 = 0x7F;

    cpu.a = NEGATIVE_VALUE;
    cpu.p.set_signed(cpu.a >= 0x80);
    assert!(cpu.p.contains(Flag::Sign));

    cpu.a = POSITIVE_VALUE;
    cpu.p.set_signed(cpu.a >= 0x80);
    assert!(!cpu.p.contains(Flag::Sign));
}
