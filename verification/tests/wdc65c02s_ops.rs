//! Per-operation behaviour of the WDC 65C02S additions.

use ull65::access::AccessType;
use ull65::bus::Bus;
use ull65::cpu::{Cpu, RunState, STACK_SPACE_START};
use ull65::flags::Flag;
use ull65::mode::AddressingMode;
use ull65::simple_bus::SimpleBus;
use ull65::wdc65c02s::{bbr0, bbr1, bbr2, bbr3, bbr4, bbr5, bbr6, bbr7, bbs0, bbs1, bbs2, bbs3,
    bbs4, bbs5, bbs6, bbs7, bra, dec_a, inc_a, phx, phy, plx, ply, rmb0, rmb1, rmb2, rmb3, rmb4,
    rmb5, rmb6, rmb7, smb0, smb1, smb2, smb3, smb4, smb5, smb6, smb7, stp, stz, trb, tsb, wai};

#[test]
fn test_bra_branches_forward() {
    let mut bus = SimpleBus::default();
    let mut cpu = Cpu::default();
    cpu.pc = 0x4000;
    bus.write(cpu.pc + 1, 0x04, AccessType::DataWrite);

    bra(&mut cpu, &mut bus, AddressingMode::Immediate);

    assert_eq!(cpu.pc, 0x4006);
}

#[test]
fn test_stz_zero_page_clears_memory() {
    let mut bus = SimpleBus::default();
    let mut cpu = Cpu::default();
    bus.write(cpu.pc + 1, 0x10, AccessType::DataWrite);
    bus.write(0x0010, 0xFF, AccessType::DataWrite);

    stz(&mut cpu, &mut bus, AddressingMode::ZeroPage);

    assert_eq!(bus.read(0x0010, AccessType::DataRead), 0x00);
    assert_eq!(cpu.pc, 2);
}

#[test]
fn test_stz_absolute_x_clears_offset_address() {
    let mut bus = SimpleBus::default();
    let mut cpu = Cpu::default();
    cpu.x = 0x01;
    let base: u16 = 0x1234;
    let target = base + cpu.x as u16;
    bus.write(cpu.pc + 1, 0x34, AccessType::DataWrite);
    bus.write(cpu.pc + 2, 0x12, AccessType::DataWrite);
    bus.write(target, 0x99, AccessType::DataWrite);

    stz(&mut cpu, &mut bus, AddressingMode::AbsoluteX);

    assert_eq!(bus.read(target, AccessType::DataRead), 0x00);
    assert_eq!(cpu.pc, 3);
}

#[test]
fn test_trb_zero_page_clears_bits() {
    let mut bus = SimpleBus::default();
    let mut cpu = Cpu::default();
    cpu.a = 0x0F;
    bus.write(cpu.pc + 1, 0x20, AccessType::DataWrite);
    bus.write(0x0020, 0xF0, AccessType::DataWrite);

    trb(&mut cpu, &mut bus, AddressingMode::ZeroPage);

    assert_eq!(bus.read(0x0020, AccessType::DataRead), 0xF0);
    assert!(cpu.p.contains(Flag::Zero));
    assert_eq!(cpu.pc, 2);
}

#[test]
fn test_tsb_zero_page_sets_bits() {
    let mut bus = SimpleBus::default();
    let mut cpu = Cpu::default();
    cpu.a = 0x0F;
    bus.write(cpu.pc + 1, 0x30, AccessType::DataWrite);
    bus.write(0x0030, 0xF1, AccessType::DataWrite);

    tsb(&mut cpu, &mut bus, AddressingMode::ZeroPage);

    assert_eq!(bus.read(0x0030, AccessType::DataRead), 0xFF);
    assert!(!cpu.p.contains(Flag::Zero));

    cpu.pc = 0;
    cpu.p.zero = false;
    bus.write(cpu.pc + 1, 0x30, AccessType::DataWrite);
    bus.write(0x0030, 0xF0, AccessType::DataWrite);

    tsb(&mut cpu, &mut bus, AddressingMode::ZeroPage);
    assert!(cpu.p.contains(Flag::Zero));
    assert_eq!(cpu.pc, 2);
}

#[test]
fn test_inc_dec_a_update_flags() {
    let mut bus = SimpleBus::default();
    let mut cpu = Cpu::default();
    cpu.a = 0xFF;

    inc_a(&mut cpu, &mut bus);
    assert_eq!(cpu.a, 0x00);
    assert!(cpu.p.contains(Flag::Zero));

    dec_a(&mut cpu, &mut bus);
    assert_eq!(cpu.a, 0xFF);
    assert!(cpu.p.contains(Flag::Sign));
}

#[test]
fn test_phx_phy_push_registers() {
    let mut bus = SimpleBus::default();
    let mut cpu = Cpu::default();
    cpu.x = 0xAA;
    cpu.y = 0xBB;

    phx(&mut cpu, &mut bus);
    phy(&mut cpu, &mut bus);

    let first_addr = STACK_SPACE_START + cpu.sp.wrapping_add(1) as u16;
    let second_addr = first_addr + 1;

    assert_eq!(bus.read(first_addr, AccessType::StackRead), 0xBB);
    assert_eq!(bus.read(second_addr, AccessType::StackRead), 0xAA);
}

#[test]
fn test_plx_ply_pull_registers() {
    let mut bus = SimpleBus::default();
    let mut cpu = Cpu::default();
    cpu.push(&mut bus, 0x12);
    cpu.push(&mut bus, 0x34);

    plx(&mut cpu, &mut bus);
    ply(&mut cpu, &mut bus);

    assert_eq!(cpu.x, 0x34);
    assert_eq!(cpu.y, 0x12);
}

#[test]
fn test_bbr_branches_per_bit() {
    for bit in 0u8..8 {
        let mut bus = SimpleBus::default();
        let mut cpu = Cpu::default();
        cpu.pc = 0x2000;
        let zp = 0x10 + bit;
        bus.write(cpu.pc + 1, zp, AccessType::DataWrite);
        bus.write(cpu.pc + 2, 0x02, AccessType::DataWrite);
        bus.write(zp as u16, 0xFF & !(1 << bit), AccessType::DataWrite);

        match bit {
            0 => bbr0(&mut cpu, &mut bus),
            1 => bbr1(&mut cpu, &mut bus),
            2 => bbr2(&mut cpu, &mut bus),
            3 => bbr3(&mut cpu, &mut bus),
            4 => bbr4(&mut cpu, &mut bus),
            5 => bbr5(&mut cpu, &mut bus),
            6 => bbr6(&mut cpu, &mut bus),
            7 => bbr7(&mut cpu, &mut bus),
            _ => unreachable!(),
        }

        assert_eq!(cpu.pc, 0x2005);
    }
}

#[test]
fn test_bbs_skips_when_bit_clear() {
    for bit in 0u8..8 {
        let mut bus = SimpleBus::default();
        let mut cpu = Cpu::default();
        let start = cpu.pc;
        let zp = 0x10 + bit;
        bus.write(cpu.pc + 1, zp, AccessType::DataWrite);
        bus.write(cpu.pc + 2, 0x02, AccessType::DataWrite);
        bus.write(zp as u16, 0x00, AccessType::DataWrite);

        match bit {
            0 => bbs0(&mut cpu, &mut bus),
            1 => bbs1(&mut cpu, &mut bus),
            2 => bbs2(&mut cpu, &mut bus),
            3 => bbs3(&mut cpu, &mut bus),
            4 => bbs4(&mut cpu, &mut bus),
            5 => bbs5(&mut cpu, &mut bus),
            6 => bbs6(&mut cpu, &mut bus),
            7 => bbs7(&mut cpu, &mut bus),
            _ => unreachable!(),
        }

        assert_eq!(cpu.pc, start + 3);
    }
}

#[test]
fn test_rmb_clears_all_bits() {
    for bit in 0u8..8 {
        let mut bus = SimpleBus::default();
        let mut cpu = Cpu::default();
        let zp = 0x05 + bit;
        bus.write(cpu.pc + 1, zp, AccessType::DataWrite);
        bus.write(zp as u16, 0xFF, AccessType::DataWrite);

        match bit {
            0 => rmb0(&mut cpu, &mut bus),
            1 => rmb1(&mut cpu, &mut bus),
            2 => rmb2(&mut cpu, &mut bus),
            3 => rmb3(&mut cpu, &mut bus),
            4 => rmb4(&mut cpu, &mut bus),
            5 => rmb5(&mut cpu, &mut bus),
            6 => rmb6(&mut cpu, &mut bus),
            7 => rmb7(&mut cpu, &mut bus),
            _ => unreachable!(),
        }

        assert_eq!(bus.read(zp as u16, AccessType::DataRead), 0xFF & !(1 << bit));
    }
}

#[test]
fn test_smb_sets_all_bits() {
    for bit in 0u8..8 {
        let mut bus = SimpleBus::default();
        let mut cpu = Cpu::default();
        let zp = 0x05 + bit;
        bus.write(cpu.pc + 1, zp, AccessType::DataWrite);
        bus.write(zp as u16, 0x00, AccessType::DataWrite);

        match bit {
            0 => smb0(&mut cpu, &mut bus),
            1 => smb1(&mut cpu, &mut bus),
            2 => smb2(&mut cpu, &mut bus),
            3 => smb3(&mut cpu, &mut bus),
            4 => smb4(&mut cpu, &mut bus),
            5 => smb5(&mut cpu, &mut bus),
            6 => smb6(&mut cpu, &mut bus),
            7 => smb7(&mut cpu, &mut bus),
            _ => unreachable!(),
        }

        assert_eq!(bus.read(zp as u16, AccessType::DataRead), 1 << bit);
    }
}

#[test]
fn test_stp_sets_halted_state() {
    let mut bus = SimpleBus::default();
    let mut cpu = Cpu::default();

    stp(&mut cpu, &mut bus);

    assert_eq!(cpu.run_state, RunState::Halted);
}

#[test]
fn test_wai_sets_waiting_and_advances_pc() {
    let mut bus = SimpleBus::default();
    let mut cpu = Cpu::default();
    let start = cpu.pc;

    wai(&mut cpu, &mut bus);

    assert_eq!(cpu.run_state, RunState::Waiting);
    assert_eq!(cpu.pc, start + 1);
}
