//! The WDC 65C02S instruction set: the MOS table with the CMOS
//! additions and fixes patched in.

use vstd::prelude::*;

use crate::access::AccessType;
use crate::arith::{bit_n, page, signed8, spec_pow2, test_bit, wadd16, wadd16_signed, wadd8,
    wrap16, wrap8, wsub8};
use crate::bus::Bus;
use crate::cpu::{Cpu, RunState, STACK_SPACE_START};
use crate::flags::Flags;
use crate::instruction::{Instruction, InstructionTable, Op};
use crate::mode::AddressingMode;
use crate::mos6502::{advanced, operand, with_zn, Mos6502};

verus! {

/// Branch always: like a taken conditional branch, with the same cycle
/// penalties.
pub fn bra<B: Bus>(cpu: &mut Cpu, bus: &mut B, mode: AddressingMode)
    requires
        old(bus).inv(),
        old(cpu).cycles + 2 <= u64::MAX,
        mode.spec_bytes() == 2,
    ensures
        final(bus).inv(),
        final(bus).dma() == old(bus).dma(),
        final(bus).ticks() == old(bus).ticks(),
        final(bus).mem() == old(bus).mem(),
        *final(cpu) == crate::mos6502::spec_branch(*old(cpu), old(bus).mem(), true),
{
    let base = wadd16(cpu.pc, mode.bytes());
    let offset = bus.read(wadd16(cpu.pc, 1), AccessType::DataRead);
    let target = wadd16_signed(base, offset);
    cpu.cycles = cpu.cycles + 1;
    if cpu.crosses_page(base, target) {
        cpu.cycles = cpu.cycles + 1;
    }
    cpu.pc = target;
}

/// Store zero at the effective address; no flags change.
pub fn stz<B: Bus>(cpu: &mut Cpu, bus: &mut B, mode: AddressingMode)
    requires
        old(bus).inv(),
    ensures
        final(bus).inv(),
        final(bus).dma() == old(bus).dma(),
        final(bus).ticks() == old(bus).ticks(),
        final(bus).mem() == old(bus).mem().update(
            mode.spec_addr(*old(cpu), old(bus).mem()) as int,
            0u8,
        ),
        *final(cpu) == (Cpu { pc: advanced(*old(cpu), mode), ..*old(cpu) }),
{
    let addr = mode.fetch_address(cpu, bus);
    bus.write(addr, 0, AccessType::DataWrite);
    cpu.pc = wadd16(cpu.pc, mode.bytes());
}

/// Test and reset bits: Z from `A & operand`, then the bits of A are
/// cleared in the addressed byte.
pub fn trb<B: Bus>(cpu: &mut Cpu, bus: &mut B, mode: AddressingMode)
    requires
        old(bus).inv(),
    ensures
        final(bus).inv(),
        final(bus).dma() == old(bus).dma(),
        final(bus).ticks() == old(bus).ticks(),
        ({
            let m = operand(*old(cpu), old(bus).mem(), mode);
            final(bus).mem() == old(bus).mem().update(
                mode.spec_addr(*old(cpu), old(bus).mem()) as int,
                !old(cpu).a & m,
            ) && *final(cpu) == (Cpu {
                p: Flags { zero: old(cpu).a & m == 0, ..old(cpu).p },
                pc: advanced(*old(cpu), mode),
                ..*old(cpu)
            })
        }),
{
    let addr = mode.fetch_address(cpu, bus);
    let val = bus.read(addr, AccessType::DataRead);
    cpu.p.set_zero(cpu.a & val == 0);
    bus.write(addr, !cpu.a & val, AccessType::DataWrite);
    cpu.pc = wadd16(cpu.pc, mode.bytes());
}

/// Test and set bits: Z from `A & operand`, then the bits of A are set
/// in the addressed byte.
pub fn tsb<B: Bus>(cpu: &mut Cpu, bus: &mut B, mode: AddressingMode)
    requires
        old(bus).inv(),
    ensures
        final(bus).inv(),
        final(bus).dma() == old(bus).dma(),
        final(bus).ticks() == old(bus).ticks(),
        ({
            let m = operand(*old(cpu), old(bus).mem(), mode);
            final(bus).mem() == old(bus).mem().update(
                mode.spec_addr(*old(cpu), old(bus).mem()) as int,
                m | old(cpu).a,
            ) && *final(cpu) == (Cpu {
                p: Flags { zero: old(cpu).a & m == 0, ..old(cpu).p },
                pc: advanced(*old(cpu), mode),
                ..*old(cpu)
            })
        }),
{
    let addr = mode.fetch_address(cpu, bus);
    let val = bus.read(addr, AccessType::DataRead);
    let result = val | cpu.a;
    cpu.p.set_zero(cpu.a & val == 0);
    bus.write(addr, result, AccessType::DataWrite);
    cpu.pc = wadd16(cpu.pc, mode.bytes());
}

/// Increment the accumulator, setting Z/N.
pub fn inc_a<B: Bus>(cpu: &mut Cpu, _bus: &mut B)
    ensures
        *final(_bus) == *old(_bus),
        *final(cpu) == (Cpu {
            a: wrap8(old(cpu).a + 1),
            p: with_zn(old(cpu).p, wrap8(old(cpu).a + 1)),
            pc: wrap16(old(cpu).pc + 1),
            ..*old(cpu)
        }),
{
    cpu.a = wadd8(cpu.a, 1);
    cpu.p.set_signed(cpu.a >= 0x80);
    cpu.p.set_zero(cpu.a == 0);
    cpu.pc = wadd16(cpu.pc, 1);
}

/// Decrement the accumulator, setting Z/N.
pub fn dec_a<B: Bus>(cpu: &mut Cpu, _bus: &mut B)
    ensures
        *final(_bus) == *old(_bus),
        *final(cpu) == (Cpu {
            a: wrap8(old(cpu).a - 1),
            p: with_zn(old(cpu).p, wrap8(old(cpu).a - 1)),
            pc: wrap16(old(cpu).pc + 1),
            ..*old(cpu)
        }),
{
    cpu.a = wsub8(cpu.a, 1);
    cpu.p.set_signed(cpu.a >= 0x80);
    cpu.p.set_zero(cpu.a == 0);
    cpu.pc = wadd16(cpu.pc, 1);
}

/// Push the X register.
pub fn phx<B: Bus>(cpu: &mut Cpu, bus: &mut B)
    requires
        old(bus).inv(),
    ensures
        final(bus).inv(),
        final(bus).dma() == old(bus).dma(),
        final(bus).ticks() == old(bus).ticks(),
        final(bus).mem() == old(bus).mem().update(
            STACK_SPACE_START + old(cpu).sp as int,
            old(cpu).x,
        ),
        *final(cpu) == (Cpu {
            sp: wrap8(old(cpu).sp - 1),
            pc: wrap16(old(cpu).pc + 1),
            ..*old(cpu)
        }),
{
    let val = cpu.x;
    cpu.push(bus, val);
    cpu.pc = wadd16(cpu.pc, 1);
}

/// Push the Y register.
pub fn phy<B: Bus>(cpu: &mut Cpu, bus: &mut B)
    requires
        old(bus).inv(),
    ensures
        final(bus).inv(),
        final(bus).dma() == old(bus).dma(),
        final(bus).ticks() == old(bus).ticks(),
        final(bus).mem() == old(bus).mem().update(
            STACK_SPACE_START + old(cpu).sp as int,
            old(cpu).y,
        ),
        *final(cpu) == (Cpu {
            sp: wrap8(old(cpu).sp - 1),
            pc: wrap16(old(cpu).pc + 1),
            ..*old(cpu)
        }),
{
    let val = cpu.y;
    cpu.push(bus, val);
    cpu.pc = wadd16(cpu.pc, 1);
}

/// Pull the X register, setting Z/N.
pub fn plx<B: Bus>(cpu: &mut Cpu, bus: &mut B)
    requires
        old(bus).inv(),
    ensures
        final(bus).inv(),
        final(bus).dma() == old(bus).dma(),
        final(bus).ticks() == old(bus).ticks(),
        final(bus).mem() == old(bus).mem(),
        ({
            let m = old(bus).mem()[STACK_SPACE_START + wrap8(old(cpu).sp + 1) as int];
            *final(cpu) == (Cpu {
                x: m,
                p: with_zn(old(cpu).p, m),
                sp: wrap8(old(cpu).sp + 1),
                pc: wrap16(old(cpu).pc + 1),
                ..*old(cpu)
            })
        }),
{
    let val = cpu.pop(bus);
    cpu.x = val;
    cpu.p.set_signed(val >= 0x80);
    cpu.p.set_zero(val == 0);
    cpu.pc = wadd16(cpu.pc, 1);
}

/// Pull the Y register, setting Z/N.
pub fn ply<B: Bus>(cpu: &mut Cpu, bus: &mut B)
    requires
        old(bus).inv(),
    ensures
        final(bus).inv(),
        final(bus).dma() == old(bus).dma(),
        final(bus).ticks() == old(bus).ticks(),
        final(bus).mem() == old(bus).mem(),
        ({
            let m = old(bus).mem()[STACK_SPACE_START + wrap8(old(cpu).sp + 1) as int];
            *final(cpu) == (Cpu {
                y: m,
                p: with_zn(old(cpu).p, m),
                sp: wrap8(old(cpu).sp + 1),
                pc: wrap16(old(cpu).pc + 1),
                ..*old(cpu)
            })
        }),
{
    let val = cpu.pop(bus);
    cpu.y = val;
    cpu.p.set_signed(val >= 0x80);
    cpu.p.set_zero(val == 0);
    cpu.pc = wadd16(cpu.pc, 1);
}

/// The processor after a zero-page bit branch: the zero-page byte named
/// at `PC+1` is read, PC first advances by three, and when bit `n`
/// matches the wanted sense PC moves by the displacement at `PC+2` with
/// the usual taken-branch cycle penalties.
pub open spec fn spec_branch_on_bit(cpu: Cpu, mem: Seq<u8>, n: u8, when_set: bool) -> Cpu {
    let zp = mem[wrap16(cpu.pc + 1) as int];
    let value = mem[zp as int];
    let rel = mem[wrap16(cpu.pc + 2) as int];
    let base = wrap16(cpu.pc + 3);
    if bit_n(value, n) == when_set {
        let target = wrap16(base + signed8(rel));
        let extra: int = if page(base) != page(target) {
            2
        } else {
            1
        };
        Cpu { pc: target, cycles: (cpu.cycles + extra) as u64, ..cpu }
    } else {
        Cpu { pc: base, ..cpu }
    }
}

/// Read a zero-page byte and branch on one of its bits, per
/// [`spec_branch_on_bit`].
pub(crate) fn branch_on_zero_page_bit<B: Bus>(cpu: &mut Cpu, bus: &mut B, n: u8, when_set: bool)
    requires
        old(bus).inv(),
        old(cpu).cycles + 2 <= u64::MAX,
        n < 8,
    ensures
        final(bus).inv(),
        final(bus).dma() == old(bus).dma(),
        final(bus).ticks() == old(bus).ticks(),
        final(bus).mem() == old(bus).mem(),
        *final(cpu) == spec_branch_on_bit(*old(cpu), old(bus).mem(), n, when_set),
{
    let zp = bus.read(wadd16(cpu.pc, 1), AccessType::DataRead);
    let value = bus.read(zp as u16, AccessType::DataRead);
    let rel = bus.read(wadd16(cpu.pc, 2), AccessType::DataRead);

    let base = wadd16(cpu.pc, 3);
    cpu.pc = base;

    if test_bit(value, n) == when_set {
        let target = wadd16_signed(base, rel);
        cpu.cycles = cpu.cycles + 1;
        if cpu.crosses_page(base, target) {
            cpu.cycles = cpu.cycles + 1;
        }
        cpu.pc = target;
    }
}

/// The zero-page byte with one bit forced to `set`.
pub open spec fn spec_with_bit(v: u8, n: u8, set: bool) -> u8 {
    if bit_n(v, n) == set {
        v
    } else if set {
        (v + spec_pow2(n)) as u8
    } else {
        (v - spec_pow2(n)) as u8
    }
}

/// Rewrite one bit of the zero-page byte named at `PC+1`; no flags
/// change.
pub(crate) fn modify_zero_page_bit<B: Bus>(cpu: &mut Cpu, bus: &mut B, n: u8, set: bool)
    requires
        old(bus).inv(),
        n < 8,
    ensures
        final(bus).inv(),
        final(bus).dma() == old(bus).dma(),
        final(bus).ticks() == old(bus).ticks(),
        ({
            let zp = old(bus).mem()[wrap16(old(cpu).pc + 1) as int];
            final(bus).mem() == old(bus).mem().update(
                zp as int,
                spec_with_bit(old(bus).mem()[zp as int], n, set),
            )
        }),
        *final(cpu) == (Cpu { pc: wrap16(old(cpu).pc + 2), ..*old(cpu) }),
{
    let zp = bus.read(wadd16(cpu.pc, 1), AccessType::DataRead);
    let value = bus.read(zp as u16, AccessType::DataRead);
    let mask = pow2_exec(n);
    let written: u8;
    if test_bit(value, n) == set {
        written = value;
    } else if set {
        proof {
            crate::arith::lemma_clear_bit_bound(value, n);
        }
        written = value + mask;
    } else {
        proof {
            crate::arith::lemma_clear_bit_bound(value, n);
        }
        written = value - mask;
    }
    bus.write(zp as u16, written, AccessType::DataWrite);
    cpu.pc = wadd16(cpu.pc, 2);
}

/// The power of two that weights bit `n`.
fn pow2_exec(n: u8) -> (r: u8)
    requires
        n < 8,
    ensures
        r as int == spec_pow2(n),
{
    if n == 0 {
        1
    } else if n == 1 {
        2
    } else if n == 2 {
        4
    } else if n == 3 {
        8
    } else if n == 4 {
        16
    } else if n == 5 {
        32
    } else if n == 6 {
        64
    } else {
        128
    }
}

/// Branch when bit 0 of the named zero-page byte is clear.
pub fn bbr0<B: Bus>(cpu: &mut Cpu, bus: &mut B)
    requires
        old(bus).inv(),
        old(cpu).cycles + 2 <= u64::MAX,
    ensures
        final(bus).inv(),
        final(bus).dma() == old(bus).dma(),
        final(bus).ticks() == old(bus).ticks(),
        final(bus).mem() == old(bus).mem(),
        *final(cpu) == spec_branch_on_bit(*old(cpu), old(bus).mem(), 0, false),
{
    branch_on_zero_page_bit(cpu, bus, 0, false);
}

/// Branch when bit 1 of the named zero-page byte is clear.
pub fn bbr1<B: Bus>(cpu: &mut Cpu, bus: &mut B)
    requires
        old(bus).inv(),
        old(cpu).cycles + 2 <= u64::MAX,
    ensures
        final(bus).inv(),
        final(bus).dma() == old(bus).dma(),
        final(bus).ticks() == old(bus).ticks(),
        final(bus).mem() == old(bus).mem(),
        *final(cpu) == spec_branch_on_bit(*old(cpu), old(bus).mem(), 1, false),
{
    branch_on_zero_page_bit(cpu, bus, 1, false);
}

/// Branch when bit 2 of the named zero-page byte is clear.
pub fn bbr2<B: Bus>(cpu: &mut Cpu, bus: &mut B)
    requires
        old(bus).inv(),
        old(cpu).cycles + 2 <= u64::MAX,
    ensures
        final(bus).inv(),
        final(bus).dma() == old(bus).dma(),
        final(bus).ticks() == old(bus).ticks(),
        final(bus).mem() == old(bus).mem(),
        *final(cpu) == spec_branch_on_bit(*old(cpu), old(bus).mem(), 2, false),
{
    branch_on_zero_page_bit(cpu, bus, 2, false);
}

/// Branch when bit 3 of the named zero-page byte is clear.
pub fn bbr3<B: Bus>(cpu: &mut Cpu, bus: &mut B)
    requires
        old(bus).inv(),
        old(cpu).cycles + 2 <= u64::MAX,
    ensures
        final(bus).inv(),
        final(bus).dma() == old(bus).dma(),
        final(bus).ticks() == old(bus).ticks(),
        final(bus).mem() == old(bus).mem(),
        *final(cpu) == spec_branch_on_bit(*old(cpu), old(bus).mem(), 3, false),
{
    branch_on_zero_page_bit(cpu, bus, 3, false);
}

/// Branch when bit 4 of the named zero-page byte is clear.
pub fn bbr4<B: Bus>(cpu: &mut Cpu, bus: &mut B)
    requires
        old(bus).inv(),
        old(cpu).cycles + 2 <= u64::MAX,
    ensures
        final(bus).inv(),
        final(bus).dma() == old(bus).dma(),
        final(bus).ticks() == old(bus).ticks(),
        final(bus).mem() == old(bus).mem(),
        *final(cpu) == spec_branch_on_bit(*old(cpu), old(bus).mem(), 4, false),
{
    branch_on_zero_page_bit(cpu, bus, 4, false);
}

/// Branch when bit 5 of the named zero-page byte is clear.
pub fn bbr5<B: Bus>(cpu: &mut Cpu, bus: &mut B)
    requires
        old(bus).inv(),
        old(cpu).cycles + 2 <= u64::MAX,
    ensures
        final(bus).inv(),
        final(bus).dma() == old(bus).dma(),
        final(bus).ticks() == old(bus).ticks(),
        final(bus).mem() == old(bus).mem(),
        *final(cpu) == spec_branch_on_bit(*old(cpu), old(bus).mem(), 5, false),
{
    branch_on_zero_page_bit(cpu, bus, 5, false);
}

/// Branch when bit 6 of the named zero-page byte is clear.
pub fn bbr6<B: Bus>(cpu: &mut Cpu, bus: &mut B)
    requires
        old(bus).inv(),
        old(cpu).cycles + 2 <= u64::MAX,
    ensures
        final(bus).inv(),
        final(bus).dma() == old(bus).dma(),
        final(bus).ticks() == old(bus).ticks(),
        final(bus).mem() == old(bus).mem(),
        *final(cpu) == spec_branch_on_bit(*old(cpu), old(bus).mem(), 6, false),
{
    branch_on_zero_page_bit(cpu, bus, 6, false);
}

/// Branch when bit 7 of the named zero-page byte is clear.
pub fn bbr7<B: Bus>(cpu: &mut Cpu, bus: &mut B)
    requires
        old(bus).inv(),
        old(cpu).cycles + 2 <= u64::MAX,
    ensures
        final(bus).inv(),
        final(bus).dma() == old(bus).dma(),
        final(bus).ticks() == old(bus).ticks(),
        final(bus).mem() == old(bus).mem(),
        *final(cpu) == spec_branch_on_bit(*old(cpu), old(bus).mem(), 7, false),
{
    branch_on_zero_page_bit(cpu, bus, 7, false);
}

/// Branch when bit 0 of the named zero-page byte is set.
pub fn bbs0<B: Bus>(cpu: &mut Cpu, bus: &mut B)
    requires
        old(bus).inv(),
        old(cpu).cycles + 2 <= u64::MAX,
    ensures
        final(bus).inv(),
        final(bus).dma() == old(bus).dma(),
        final(bus).ticks() == old(bus).ticks(),
        final(bus).mem() == old(bus).mem(),
        *final(cpu) == spec_branch_on_bit(*old(cpu), old(bus).mem(), 0, true),
{
    branch_on_zero_page_bit(cpu, bus, 0, true);
}

/// Branch when bit 1 of the named zero-page byte is set.
pub fn bbs1<B: Bus>(cpu: &mut Cpu, bus: &mut B)
    requires
        old(bus).inv(),
        old(cpu).cycles + 2 <= u64::MAX,
    ensures
        final(bus).inv(),
        final(bus).dma() == old(bus).dma(),
        final(bus).ticks() == old(bus).ticks(),
        final(bus).mem() == old(bus).mem(),
        *final(cpu) == spec_branch_on_bit(*old(cpu), old(bus).mem(), 1, true),
{
    branch_on_zero_page_bit(cpu, bus, 1, true);
}

/// Branch when bit 2 of the named zero-page byte is set.
pub fn bbs2<B: Bus>(cpu: &mut Cpu, bus: &mut B)
    requires
        old(bus).inv(),
        old(cpu).cycles + 2 <= u64::MAX,
    ensures
        final(bus).inv(),
        final(bus).dma() == old(bus).dma(),
        final(bus).ticks() == old(bus).ticks(),
        final(bus).mem() == old(bus).mem(),
        *final(cpu) == spec_branch_on_bit(*old(cpu), old(bus).mem(), 2, true),
{
    branch_on_zero_page_bit(cpu, bus, 2, true);
}

/// Branch when bit 3 of the named zero-page byte is set.
pub fn bbs3<B: Bus>(cpu: &mut Cpu, bus: &mut B)
    requires
        old(bus).inv(),
        old(cpu).cycles + 2 <= u64::MAX,
    ensures
        final(bus).inv(),
        final(bus).dma() == old(bus).dma(),
        final(bus).ticks() == old(bus).ticks(),
        final(bus).mem() == old(bus).mem(),
        *final(cpu) == spec_branch_on_bit(*old(cpu), old(bus).mem(), 3, true),
{
    branch_on_zero_page_bit(cpu, bus, 3, true);
}

/// Branch when bit 4 of the named zero-page byte is set.
pub fn bbs4<B: Bus>(cpu: &mut Cpu, bus: &mut B)
    requires
        old(bus).inv(),
        old(cpu).cycles + 2 <= u64::MAX,
    ensures
        final(bus).inv(),
        final(bus).dma() == old(bus).dma(),
        final(bus).ticks() == old(bus).ticks(),
        final(bus).mem() == old(bus).mem(),
        *final(cpu) == spec_branch_on_bit(*old(cpu), old(bus).mem(), 4, true),
{
    branch_on_zero_page_bit(cpu, bus, 4, true);
}

/// Branch when bit 5 of the named zero-page byte is set.
pub fn bbs5<B: Bus>(cpu: &mut Cpu, bus: &mut B)
    requires
        old(bus).inv(),
        old(cpu).cycles + 2 <= u64::MAX,
    ensures
        final(bus).inv(),
        final(bus).dma() == old(bus).dma(),
        final(bus).ticks() == old(bus).ticks(),
        final(bus).mem() == old(bus).mem(),
        *final(cpu) == spec_branch_on_bit(*old(cpu), old(bus).mem(), 5, true),
{
    branch_on_zero_page_bit(cpu, bus, 5, true);
}

/// Branch when bit 6 of the named zero-page byte is set.
pub fn bbs6<B: Bus>(cpu: &mut Cpu, bus: &mut B)
    requires
        old(bus).inv(),
        old(cpu).cycles + 2 <= u64::MAX,
    ensures
        final(bus).inv(),
        final(bus).dma() == old(bus).dma(),
        final(bus).ticks() == old(bus).ticks(),
        final(bus).mem() == old(bus).mem(),
        *final(cpu) == spec_branch_on_bit(*old(cpu), old(bus).mem(), 6, true),
{
    branch_on_zero_page_bit(cpu, bus, 6, true);
}

/// Branch when bit 7 of the named zero-page byte is set.
pub fn bbs7<B: Bus>(cpu: &mut Cpu, bus: &mut B)
    requires
        old(bus).inv(),
        old(cpu).cycles + 2 <= u64::MAX,
    ensures
        final(bus).inv(),
        final(bus).dma() == old(bus).dma(),
        final(bus).ticks() == old(bus).ticks(),
        final(bus).mem() == old(bus).mem(),
        *final(cpu) == spec_branch_on_bit(*old(cpu), old(bus).mem(), 7, true),
{
    branch_on_zero_page_bit(cpu, bus, 7, true);
}

/// Clear bit 0 of the named zero-page byte.
pub fn rmb0<B: Bus>(cpu: &mut Cpu, bus: &mut B)
    requires
        old(bus).inv(),
    ensures
        final(bus).inv(),
        final(bus).dma() == old(bus).dma(),
        final(bus).ticks() == old(bus).ticks(),
        ({
            let zp = old(bus).mem()[wrap16(old(cpu).pc + 1) as int];
            final(bus).mem() == old(bus).mem().update(
                zp as int,
                spec_with_bit(old(bus).mem()[zp as int], 0, false),
            )
        }),
        *final(cpu) == (Cpu { pc: wrap16(old(cpu).pc + 2), ..*old(cpu) }),
{
    modify_zero_page_bit(cpu, bus, 0, false);
}

/// Clear bit 1 of the named zero-page byte.
pub fn rmb1<B: Bus>(cpu: &mut Cpu, bus: &mut B)
    requires
        old(bus).inv(),
    ensures
        final(bus).inv(),
        final(bus).dma() == old(bus).dma(),
        final(bus).ticks() == old(bus).ticks(),
        ({
            let zp = old(bus).mem()[wrap16(old(cpu).pc + 1) as int];
            final(bus).mem() == old(bus).mem().update(
                zp as int,
                spec_with_bit(old(bus).mem()[zp as int], 1, false),
            )
        }),
        *final(cpu) == (Cpu { pc: wrap16(old(cpu).pc + 2), ..*old(cpu) }),
{
    modify_zero_page_bit(cpu, bus, 1, false);
}

/// Clear bit 2 of the named zero-page byte.
pub fn rmb2<B: Bus>(cpu: &mut Cpu, bus: &mut B)
    requires
        old(bus).inv(),
    ensures
        final(bus).inv(),
        final(bus).dma() == old(bus).dma(),
        final(bus).ticks() == old(bus).ticks(),
        ({
            let zp = old(bus).mem()[wrap16(old(cpu).pc + 1) as int];
            final(bus).mem() == old(bus).mem().update(
                zp as int,
                spec_with_bit(old(bus).mem()[zp as int], 2, false),
            )
        }),
        *final(cpu) == (Cpu { pc: wrap16(old(cpu).pc + 2), ..*old(cpu) }),
{
    modify_zero_page_bit(cpu, bus, 2, false);
}

/// Clear bit 3 of the named zero-page byte.
pub fn rmb3<B: Bus>(cpu: &mut Cpu, bus: &mut B)
    requires
        old(bus).inv(),
    ensures
        final(bus).inv(),
        final(bus).dma() == old(bus).dma(),
        final(bus).ticks() == old(bus).ticks(),
        ({
            let zp = old(bus).mem()[wrap16(old(cpu).pc + 1) as int];
            final(bus).mem() == old(bus).mem().update(
                zp as int,
                spec_with_bit(old(bus).mem()[zp as int], 3, false),
            )
        }),
        *final(cpu) == (Cpu { pc: wrap16(old(cpu).pc + 2), ..*old(cpu) }),
{
    modify_zero_page_bit(cpu, bus, 3, false);
}

/// Clear bit 4 of the named zero-page byte.
pub fn rmb4<B: Bus>(cpu: &mut Cpu, bus: &mut B)
    requires
        old(bus).inv(),
    ensures
        final(bus).inv(),
        final(bus).dma() == old(bus).dma(),
        final(bus).ticks() == old(bus).ticks(),
        ({
            let zp = old(bus).mem()[wrap16(old(cpu).pc + 1) as int];
            final(bus).mem() == old(bus).mem().update(
                zp as int,
                spec_with_bit(old(bus).mem()[zp as int], 4, false),
            )
        }),
        *final(cpu) == (Cpu { pc: wrap16(old(cpu).pc + 2), ..*old(cpu) }),
{
    modify_zero_page_bit(cpu, bus, 4, false);
}

/// Clear bit 5 of the named zero-page byte.
pub fn rmb5<B: Bus>(cpu: &mut Cpu, bus: &mut B)
    requires
        old(bus).inv(),
    ensures
        final(bus).inv(),
        final(bus).dma() == old(bus).dma(),
        final(bus).ticks() == old(bus).ticks(),
        ({
            let zp = old(bus).mem()[wrap16(old(cpu).pc + 1) as int];
            final(bus).mem() == old(bus).mem().update(
                zp as int,
                spec_with_bit(old(bus).mem()[zp as int], 5, false),
            )
        }),
        *final(cpu) == (Cpu { pc: wrap16(old(cpu).pc + 2), ..*old(cpu) }),
{
    modify_zero_page_bit(cpu, bus, 5, false);
}

/// Clear bit 6 of the named zero-page byte.
pub fn rmb6<B: Bus>(cpu: &mut Cpu, bus: &mut B)
    requires
        old(bus).inv(),
    ensures
        final(bus).inv(),
        final(bus).dma() == old(bus).dma(),
        final(bus).ticks() == old(bus).ticks(),
        ({
            let zp = old(bus).mem()[wrap16(old(cpu).pc + 1) as int];
            final(bus).mem() == old(bus).mem().update(
                zp as int,
                spec_with_bit(old(bus).mem()[zp as int], 6, false),
            )
        }),
        *final(cpu) == (Cpu { pc: wrap16(old(cpu).pc + 2), ..*old(cpu) }),
{
    modify_zero_page_bit(cpu, bus, 6, false);
}

/// Clear bit 7 of the named zero-page byte.
pub fn rmb7<B: Bus>(cpu: &mut Cpu, bus: &mut B)
    requires
        old(bus).inv(),
    ensures
        final(bus).inv(),
        final(bus).dma() == old(bus).dma(),
        final(bus).ticks() == old(bus).ticks(),
        ({
            let zp = old(bus).mem()[wrap16(old(cpu).pc + 1) as int];
            final(bus).mem() == old(bus).mem().update(
                zp as int,
                spec_with_bit(old(bus).mem()[zp as int], 7, false),
            )
        }),
        *final(cpu) == (Cpu { pc: wrap16(old(cpu).pc + 2), ..*old(cpu) }),
{
    modify_zero_page_bit(cpu, bus, 7, false);
}

/// Set bit 0 of the named zero-page byte.
pub fn smb0<B: Bus>(cpu: &mut Cpu, bus: &mut B)
    requires
        old(bus).inv(),
    ensures
        final(bus).inv(),
        final(bus).dma() == old(bus).dma(),
        final(bus).ticks() == old(bus).ticks(),
        ({
            let zp = old(bus).mem()[wrap16(old(cpu).pc + 1) as int];
            final(bus).mem() == old(bus).mem().update(
                zp as int,
                spec_with_bit(old(bus).mem()[zp as int], 0, true),
            )
        }),
        *final(cpu) == (Cpu { pc: wrap16(old(cpu).pc + 2), ..*old(cpu) }),
{
    modify_zero_page_bit(cpu, bus, 0, true);
}

/// Set bit 1 of the named zero-page byte.
pub fn smb1<B: Bus>(cpu: &mut Cpu, bus: &mut B)
    requires
        old(bus).inv(),
    ensures
        final(bus).inv(),
        final(bus).dma() == old(bus).dma(),
        final(bus).ticks() == old(bus).ticks(),
        ({
            let zp = old(bus).mem()[wrap16(old(cpu).pc + 1) as int];
            final(bus).mem() == old(bus).mem().update(
                zp as int,
                spec_with_bit(old(bus).mem()[zp as int], 1, true),
            )
        }),
        *final(cpu) == (Cpu { pc: wrap16(old(cpu).pc + 2), ..*old(cpu) }),
{
    modify_zero_page_bit(cpu, bus, 1, true);
}

/// Set bit 2 of the named zero-page byte.
pub fn smb2<B: Bus>(cpu: &mut Cpu, bus: &mut B)
    requires
        old(bus).inv(),
    ensures
        final(bus).inv(),
        final(bus).dma() == old(bus).dma(),
        final(bus).ticks() == old(bus).ticks(),
        ({
            let zp = old(bus).mem()[wrap16(old(cpu).pc + 1) as int];
            final(bus).mem() == old(bus).mem().update(
                zp as int,
                spec_with_bit(old(bus).mem()[zp as int], 2, true),
            )
        }),
        *final(cpu) == (Cpu { pc: wrap16(old(cpu).pc + 2), ..*old(cpu) }),
{
    modify_zero_page_bit(cpu, bus, 2, true);
}

/// Set bit 3 of the named zero-page byte.
pub fn smb3<B: Bus>(cpu: &mut Cpu, bus: &mut B)
    requires
        old(bus).inv(),
    ensures
        final(bus).inv(),
        final(bus).dma() == old(bus).dma(),
        final(bus).ticks() == old(bus).ticks(),
        ({
            let zp = old(bus).mem()[wrap16(old(cpu).pc + 1) as int];
            final(bus).mem() == old(bus).mem().update(
                zp as int,
                spec_with_bit(old(bus).mem()[zp as int], 3, true),
            )
        }),
        *final(cpu) == (Cpu { pc: wrap16(old(cpu).pc + 2), ..*old(cpu) }),
{
    modify_zero_page_bit(cpu, bus, 3, true);
}

/// Set bit 4 of the named zero-page byte.
pub fn smb4<B: Bus>(cpu: &mut Cpu, bus: &mut B)
    requires
        old(bus).inv(),
    ensures
        final(bus).inv(),
        final(bus).dma() == old(bus).dma(),
        final(bus).ticks() == old(bus).ticks(),
        ({
            let zp = old(bus).mem()[wrap16(old(cpu).pc + 1) as int];
            final(bus).mem() == old(bus).mem().update(
                zp as int,
                spec_with_bit(old(bus).mem()[zp as int], 4, true),
            )
        }),
        *final(cpu) == (Cpu { pc: wrap16(old(cpu).pc + 2), ..*old(cpu) }),
{
    modify_zero_page_bit(cpu, bus, 4, true);
}

/// Set bit 5 of the named zero-page byte.
pub fn smb5<B: Bus>(cpu: &mut Cpu, bus: &mut B)
    requires
        old(bus).inv(),
    ensures
        final(bus).inv(),
        final(bus).dma() == old(bus).dma(),
        final(bus).ticks() == old(bus).ticks(),
        ({
            let zp = old(bus).mem()[wrap16(old(cpu).pc + 1) as int];
            final(bus).mem() == old(bus).mem().update(
                zp as int,
                spec_with_bit(old(bus).mem()[zp as int], 5, true),
            )
        }),
        *final(cpu) == (Cpu { pc: wrap16(old(cpu).pc + 2), ..*old(cpu) }),
{
    modify_zero_page_bit(cpu, bus, 5, true);
}

/// Set bit 6 of the named zero-page byte.
pub fn smb6<B: Bus>(cpu: &mut Cpu, bus: &mut B)
    requires
        old(bus).inv(),
    ensures
        final(bus).inv(),
        final(bus).dma() == old(bus).dma(),
        final(bus).ticks() == old(bus).ticks(),
        ({
            let zp = old(bus).mem()[wrap16(old(cpu).pc + 1) as int];
            final(bus).mem() == old(bus).mem().update(
                zp as int,
                spec_with_bit(old(bus).mem()[zp as int], 6, true),
            )
        }),
        *final(cpu) == (Cpu { pc: wrap16(old(cpu).pc + 2), ..*old(cpu) }),
{
    modify_zero_page_bit(cpu, bus, 6, true);
}

/// Set bit 7 of the named zero-page byte.
pub fn smb7<B: Bus>(cpu: &mut Cpu, bus: &mut B)
    requires
        old(bus).inv(),
    ensures
        final(bus).inv(),
        final(bus).dma() == old(bus).dma(),
        final(bus).ticks() == old(bus).ticks(),
        ({
            let zp = old(bus).mem()[wrap16(old(cpu).pc + 1) as int];
            final(bus).mem() == old(bus).mem().update(
                zp as int,
                spec_with_bit(old(bus).mem()[zp as int], 7, true),
            )
        }),
        *final(cpu) == (Cpu { pc: wrap16(old(cpu).pc + 2), ..*old(cpu) }),
{
    modify_zero_page_bit(cpu, bus, 7, true);
}

/// Halt the processor; only a reset revives it.
pub fn stp<B: Bus>(cpu: &mut Cpu, _bus: &mut B)
    ensures
        *final(_bus) == *old(_bus),
        *final(cpu) == (Cpu { run_state: RunState::Halted, ..*old(cpu) }),
{
    cpu.run_state = RunState::Halted;
}

/// Wait for interrupt: advance PC by one and idle until an interrupt
/// is latched.
pub fn wai<B: Bus>(cpu: &mut Cpu, _bus: &mut B)
    ensures
        *final(_bus) == *old(_bus),
        *final(cpu) == (Cpu {
            run_state: RunState::Waiting,
            pc: wrap16(old(cpu).pc + 1),
            ..*old(cpu)
        }),
{
    cpu.run_state = RunState::Waiting;
    cpu.pc = wadd16(cpu.pc, 1);
}

/// Software interrupt as the 65C02 performs it: like the NMOS form,
/// and decimal mode is cleared on entry.
#[verifier::rlimit(100)]
pub fn brk<B: Bus>(cpu: &mut Cpu, bus: &mut B)
    requires
        old(bus).inv(),
    ensures
        final(bus).inv(),
        final(bus).dma() == old(bus).dma(),
        final(bus).ticks() == old(bus).ticks(),
        *final(cpu) == crate::mos6502::spec_brk(*old(cpu), old(bus).mem(), true).0,
        final(bus).mem() == crate::mos6502::spec_brk(*old(cpu), old(bus).mem(), true).1,
{
    let return_pc = wadd16(cpu.pc, 2);
    let r_hi = crate::arith::hi_byte(return_pc);
    let r_lo = crate::arith::lo_byte(return_pc);
    cpu.push(bus, r_hi);
    cpu.push(bus, r_lo);

    let mut pushed = cpu.p;
    pushed.break_flag = true;
    pushed.expansion = true;
    let bits = pushed.bits();
    cpu.push(bus, bits);

    cpu.p.set_decimal_mode(false);
    cpu.p.set_interrupt_disabled(true);

    let lo_b = bus.read(crate::cpu::IRQ_VECTOR_LO, AccessType::InterruptVectorRead);
    let hi_b = bus.read(crate::cpu::IRQ_VECTOR_HI, AccessType::InterruptVectorRead);
    cpu.pc = crate::arith::make_word(lo_b, hi_b);
}

/// BIT immediate, which updates only Z from `A & operand`.
pub fn bit<B: Bus>(cpu: &mut Cpu, bus: &mut B)
    requires
        old(bus).inv(),
    ensures
        final(bus).inv(),
        final(bus).dma() == old(bus).dma(),
        final(bus).ticks() == old(bus).ticks(),
        final(bus).mem() == old(bus).mem(),
        ({
            let m = old(bus).mem()[wrap16(old(cpu).pc + 1) as int];
            *final(cpu) == (Cpu {
                p: Flags { zero: old(cpu).a & m == 0, ..old(cpu).p },
                pc: wrap16(old(cpu).pc + 2),
                ..*old(cpu)
            })
        }),
{
    proof {
        reveal(AddressingMode::spec_addr);
    }
    let addr = AddressingMode::Immediate.fetch_address(cpu, bus);
    let operand_b = bus.read(addr, AccessType::DataRead);
    cpu.p.set_zero(cpu.a & operand_b == 0);
    cpu.pc = wadd16(cpu.pc, 2);
}

/// The slots the WDC 65C02S replaces in the MOS table: the CMOS
/// additions, the corrected indirect JMP, WAI and STP, and the NMOS
/// JAM and vacant slots promoted to defined NOPs.
pub open spec fn spec_wdc_patch(opcode: u8) -> Option<Instruction> {
    if opcode == 0x00 {
        Some(Instruction { cycles: 7, op: Op::BrkClearDecimal })
    } else if opcode == 0x02 {
        Some(Instruction { cycles: 2, op: Op::Illegal(AddressingMode::Immediate) })
    } else if opcode == 0x03 {
        Some(Instruction { cycles: 1, op: Op::IllegalA })
    } else if opcode == 0x04 {
        Some(Instruction { cycles: 5, op: Op::Tsb(AddressingMode::ZeroPage) })
    } else if opcode == 0x07 {
        Some(Instruction { cycles: 5, op: Op::Rmb(0) })
    } else if opcode == 0x0B {
        Some(Instruction { cycles: 1, op: Op::IllegalA })
    } else if opcode == 0x0C {
        Some(Instruction { cycles: 6, op: Op::Tsb(AddressingMode::Absolute) })
    } else if opcode == 0x0F {
        Some(Instruction { cycles: 5, op: Op::Bbr(0) })
    } else if opcode == 0x12 {
        Some(Instruction { cycles: 5, op: Op::Ora(AddressingMode::ZeroPageIndirect) })
    } else if opcode == 0x13 {
        Some(Instruction { cycles: 1, op: Op::IllegalA })
    } else if opcode == 0x14 {
        Some(Instruction { cycles: 5, op: Op::Trb(AddressingMode::ZeroPage) })
    } else if opcode == 0x17 {
        Some(Instruction { cycles: 5, op: Op::Rmb(1) })
    } else if opcode == 0x1A {
        Some(Instruction { cycles: 2, op: Op::IncA })
    } else if opcode == 0x1B {
        Some(Instruction { cycles: 1, op: Op::IllegalA })
    } else if opcode == 0x1C {
        Some(Instruction { cycles: 6, op: Op::Trb(AddressingMode::Absolute) })
    } else if opcode == 0x1F {
        Some(Instruction { cycles: 5, op: Op::Bbr(1) })
    } else if opcode == 0x22 {
        Some(Instruction { cycles: 2, op: Op::Illegal(AddressingMode::Immediate) })
    } else if opcode == 0x23 {
        Some(Instruction { cycles: 1, op: Op::IllegalA })
    } else if opcode == 0x27 {
        Some(Instruction { cycles: 5, op: Op::Rmb(2) })
    } else if opcode == 0x2B {
        Some(Instruction { cycles: 1, op: Op::IllegalA })
    } else if opcode == 0x2F {
        Some(Instruction { cycles: 5, op: Op::Bbr(2) })
    } else if opcode == 0x32 {
        Some(Instruction { cycles: 5, op: Op::And(AddressingMode::ZeroPageIndirect) })
    } else if opcode == 0x33 {
        Some(Instruction { cycles: 1, op: Op::IllegalA })
    } else if opcode == 0x34 {
        Some(Instruction { cycles: 4, op: Op::Bit(AddressingMode::ZeroPageX) })
    } else if opcode == 0x37 {
        Some(Instruction { cycles: 5, op: Op::Rmb(3) })
    } else if opcode == 0x3A {
        Some(Instruction { cycles: 2, op: Op::DecA })
    } else if opcode == 0x3B {
        Some(Instruction { cycles: 1, op: Op::IllegalA })
    } else if opcode == 0x3C {
        Some(Instruction { cycles: 4, op: Op::Bit(AddressingMode::AbsoluteX) })
    } else if opcode == 0x3F {
        Some(Instruction { cycles: 5, op: Op::Bbr(3) })
    } else if opcode == 0x42 {
        Some(Instruction { cycles: 2, op: Op::Illegal(AddressingMode::Immediate) })
    } else if opcode == 0x43 {
        Some(Instruction { cycles: 1, op: Op::IllegalA })
    } else if opcode == 0x44 {
        Some(Instruction { cycles: 3, op: Op::Illegal(AddressingMode::ZeroPage) })
    } else if opcode == 0x47 {
        Some(Instruction { cycles: 5, op: Op::Rmb(4) })
    } else if opcode == 0x4B {
        Some(Instruction { cycles: 1, op: Op::IllegalA })
    } else if opcode == 0x4F {
        Some(Instruction { cycles: 5, op: Op::Bbr(4) })
    } else if opcode == 0x52 {
        Some(Instruction { cycles: 5, op: Op::Eor(AddressingMode::ZeroPageIndirect) })
    } else if opcode == 0x53 {
        Some(Instruction { cycles: 1, op: Op::IllegalA })
    } else if opcode == 0x54 {
        Some(Instruction { cycles: 4, op: Op::Illegal(AddressingMode::ZeroPageX) })
    } else if opcode == 0x57 {
        Some(Instruction { cycles: 5, op: Op::Rmb(5) })
    } else if opcode == 0x5A {
        Some(Instruction { cycles: 3, op: Op::Phy })
    } else if opcode == 0x5B {
        Some(Instruction { cycles: 1, op: Op::IllegalA })
    } else if opcode == 0x5C {
        Some(Instruction { cycles: 8, op: Op::Illegal(AddressingMode::Absolute) })
    } else if opcode == 0x5F {
        Some(Instruction { cycles: 5, op: Op::Bbr(5) })
    } else if opcode == 0x62 {
        Some(Instruction { cycles: 2, op: Op::Illegal(AddressingMode::Immediate) })
    } else if opcode == 0x63 {
        Some(Instruction { cycles: 1, op: Op::IllegalA })
    } else if opcode == 0x64 {
        Some(Instruction { cycles: 3, op: Op::Stz(AddressingMode::ZeroPage) })
    } else if opcode == 0x67 {
        Some(Instruction { cycles: 5, op: Op::Rmb(6) })
    } else if opcode == 0x6B {
        Some(Instruction { cycles: 1, op: Op::IllegalA })
    } else if opcode == 0x6C {
        Some(Instruction { cycles: 5, op: Op::Jmp(AddressingMode::AbsoluteIndirectCorrect) })
    } else if opcode == 0x6F {
        Some(Instruction { cycles: 5, op: Op::Bbr(6) })
    } else if opcode == 0x72 {
        Some(Instruction { cycles: 5, op: Op::Adc(AddressingMode::ZeroPageIndirect) })
    } else if opcode == 0x73 {
        Some(Instruction { cycles: 1, op: Op::IllegalA })
    } else if opcode == 0x74 {
        Some(Instruction { cycles: 4, op: Op::Stz(AddressingMode::ZeroPageX) })
    } else if opcode == 0x77 {
        Some(Instruction { cycles: 5, op: Op::Rmb(7) })
    } else if opcode == 0x7A {
        Some(Instruction { cycles: 4, op: Op::Ply })
    } else if opcode == 0x7B {
        Some(Instruction { cycles: 1, op: Op::IllegalA })
    } else if opcode == 0x7C {
        Some(Instruction { cycles: 5, op: Op::Jmp(AddressingMode::AbsoluteIndirectX) })
    } else if opcode == 0x7F {
        Some(Instruction { cycles: 5, op: Op::Bbr(7) })
    } else if opcode == 0x80 {
        Some(Instruction { cycles: 2, op: Op::Bra })
    } else if opcode == 0x82 {
        Some(Instruction { cycles: 2, op: Op::Illegal(AddressingMode::Immediate) })
    } else if opcode == 0x83 {
        Some(Instruction { cycles: 1, op: Op::IllegalA })
    } else if opcode == 0x87 {
        Some(Instruction { cycles: 5, op: Op::Smb(0) })
    } else if opcode == 0x89 {
        Some(Instruction { cycles: 2, op: Op::BitImmediate })
    } else if opcode == 0x8B {
        Some(Instruction { cycles: 1, op: Op::IllegalA })
    } else if opcode == 0x8F {
        Some(Instruction { cycles: 5, op: Op::Bbs(0) })
    } else if opcode == 0x92 {
        Some(Instruction { cycles: 6, op: Op::Sta(AddressingMode::ZeroPageIndirect) })
    } else if opcode == 0x93 {
        Some(Instruction { cycles: 1, op: Op::IllegalA })
    } else if opcode == 0x97 {
        Some(Instruction { cycles: 5, op: Op::Smb(1) })
    } else if opcode == 0x9B {
        Some(Instruction { cycles: 1, op: Op::IllegalA })
    } else if opcode == 0x9C {
        Some(Instruction { cycles: 4, op: Op::Stz(AddressingMode::Absolute) })
    } else if opcode == 0x9E {
        Some(Instruction { cycles: 5, op: Op::Stz(AddressingMode::AbsoluteX) })
    } else if opcode == 0x9F {
        Some(Instruction { cycles: 5, op: Op::Bbs(1) })
    } else if opcode == 0xA3 {
        Some(Instruction { cycles: 1, op: Op::IllegalA })
    } else if opcode == 0xA7 {
        Some(Instruction { cycles: 5, op: Op::Smb(2) })
    } else if opcode == 0xAB {
        Some(Instruction { cycles: 1, op: Op::IllegalA })
    } else if opcode == 0xAF {
        Some(Instruction { cycles: 5, op: Op::Bbs(2) })
    } else if opcode == 0xB2 {
        Some(Instruction { cycles: 5, op: Op::Lda(AddressingMode::ZeroPageIndirect) })
    } else if opcode == 0xB3 {
        Some(Instruction { cycles: 1, op: Op::IllegalA })
    } else if opcode == 0xB7 {
        Some(Instruction { cycles: 5, op: Op::Smb(3) })
    } else if opcode == 0xBB {
        Some(Instruction { cycles: 1, op: Op::IllegalA })
    } else if opcode == 0xBF {
        Some(Instruction { cycles: 5, op: Op::Bbs(3) })
    } else if opcode == 0xC2 {
        Some(Instruction { cycles: 2, op: Op::Illegal(AddressingMode::Immediate) })
    } else if opcode == 0xC3 {
        Some(Instruction { cycles: 1, op: Op::IllegalA })
    } else if opcode == 0xC7 {
        Some(Instruction { cycles: 5, op: Op::Smb(4) })
    } else if opcode == 0xCB {
        Some(Instruction { cycles: 3, op: Op::Wai })
    } else if opcode == 0xCF {
        Some(Instruction { cycles: 5, op: Op::Bbs(4) })
    } else if opcode == 0xD2 {
        Some(Instruction { cycles: 5, op: Op::Cmp(AddressingMode::ZeroPageIndirect) })
    } else if opcode == 0xD3 {
        Some(Instruction { cycles: 1, op: Op::IllegalA })
    } else if opcode == 0xD4 {
        Some(Instruction { cycles: 4, op: Op::Illegal(AddressingMode::ZeroPageX) })
    } else if opcode == 0xD7 {
        Some(Instruction { cycles: 5, op: Op::Smb(5) })
    } else if opcode == 0xDA {
        Some(Instruction { cycles: 3, op: Op::Phx })
    } else if opcode == 0xDB {
        Some(Instruction { cycles: 3, op: Op::Stp })
    } else if opcode == 0xDC {
        Some(Instruction { cycles: 4, op: Op::Illegal(AddressingMode::AbsoluteX) })
    } else if opcode == 0xDF {
        Some(Instruction { cycles: 5, op: Op::Bbs(5) })
    } else if opcode == 0xE2 {
        Some(Instruction { cycles: 2, op: Op::Illegal(AddressingMode::Immediate) })
    } else if opcode == 0xE3 {
        Some(Instruction { cycles: 1, op: Op::IllegalA })
    } else if opcode == 0xE7 {
        Some(Instruction { cycles: 5, op: Op::Smb(6) })
    } else if opcode == 0xEB {
        Some(Instruction { cycles: 1, op: Op::IllegalA })
    } else if opcode == 0xEF {
        Some(Instruction { cycles: 5, op: Op::Bbs(6) })
    } else if opcode == 0xF2 {
        Some(Instruction { cycles: 5, op: Op::Sbc(AddressingMode::ZeroPageIndirect) })
    } else if opcode == 0xF3 {
        Some(Instruction { cycles: 1, op: Op::IllegalA })
    } else if opcode == 0xF4 {
        Some(Instruction { cycles: 4, op: Op::Illegal(AddressingMode::ZeroPageX) })
    } else if opcode == 0xF7 {
        Some(Instruction { cycles: 5, op: Op::Smb(7) })
    } else if opcode == 0xFA {
        Some(Instruction { cycles: 4, op: Op::Plx })
    } else if opcode == 0xFB {
        Some(Instruction { cycles: 1, op: Op::IllegalA })
    } else if opcode == 0xFC {
        Some(Instruction { cycles: 4, op: Op::Illegal(AddressingMode::AbsoluteX) })
    } else if opcode == 0xFF {
        Some(Instruction { cycles: 5, op: Op::Bbs(7) })
    } else {
        None
    }
}

/// The canonical WDC 65C02S slot for `opcode`: the patched slot where
/// the variant replaces one, the MOS slot everywhere else.
pub open spec fn spec_wdc_entry(opcode: u8) -> Instruction {
    match spec_wdc_patch(opcode) {
        Some(e) => e,
        None => crate::mos6502::spec_mos_entry(opcode),
    }
}

/// Build the canonical WDC 65C02S slot for `opcode`.
fn wdc_entry(opcode: u8) -> (r: Instruction)
    ensures
        r == spec_wdc_entry(opcode),
{
    match wdc_patch(opcode) {
        Some(e) => e,
        None => crate::mos6502::mos_entry(opcode),
    }
}

/// The patched slot for `opcode`, where the 65C02 replaces one.
fn wdc_patch(opcode: u8) -> (r: Option<Instruction>)
    ensures
        r == spec_wdc_patch(opcode),
{
    match opcode {
        0x00 => Some(Instruction { cycles: 7, op: Op::BrkClearDecimal }),
        0x02 => Some(Instruction { cycles: 2, op: Op::Illegal(AddressingMode::Immediate) }),
        0x03 => Some(Instruction { cycles: 1, op: Op::IllegalA }),
        0x04 => Some(Instruction { cycles: 5, op: Op::Tsb(AddressingMode::ZeroPage) }),
        0x07 => Some(Instruction { cycles: 5, op: Op::Rmb(0) }),
        0x0B => Some(Instruction { cycles: 1, op: Op::IllegalA }),
        0x0C => Some(Instruction { cycles: 6, op: Op::Tsb(AddressingMode::Absolute) }),
        0x0F => Some(Instruction { cycles: 5, op: Op::Bbr(0) }),
        0x12 => Some(Instruction { cycles: 5, op: Op::Ora(AddressingMode::ZeroPageIndirect) }),
        0x13 => Some(Instruction { cycles: 1, op: Op::IllegalA }),
        0x14 => Some(Instruction { cycles: 5, op: Op::Trb(AddressingMode::ZeroPage) }),
        0x17 => Some(Instruction { cycles: 5, op: Op::Rmb(1) }),
        0x1A => Some(Instruction { cycles: 2, op: Op::IncA }),
        0x1B => Some(Instruction { cycles: 1, op: Op::IllegalA }),
        0x1C => Some(Instruction { cycles: 6, op: Op::Trb(AddressingMode::Absolute) }),
        0x1F => Some(Instruction { cycles: 5, op: Op::Bbr(1) }),
        0x22 => Some(Instruction { cycles: 2, op: Op::Illegal(AddressingMode::Immediate) }),
        0x23 => Some(Instruction { cycles: 1, op: Op::IllegalA }),
        0x27 => Some(Instruction { cycles: 5, op: Op::Rmb(2) }),
        0x2B => Some(Instruction { cycles: 1, op: Op::IllegalA }),
        0x2F => Some(Instruction { cycles: 5, op: Op::Bbr(2) }),
        0x32 => Some(Instruction { cycles: 5, op: Op::And(AddressingMode::ZeroPageIndirect) }),
        0x33 => Some(Instruction { cycles: 1, op: Op::IllegalA }),
        0x34 => Some(Instruction { cycles: 4, op: Op::Bit(AddressingMode::ZeroPageX) }),
        0x37 => Some(Instruction { cycles: 5, op: Op::Rmb(3) }),
        0x3A => Some(Instruction { cycles: 2, op: Op::DecA }),
        0x3B => Some(Instruction { cycles: 1, op: Op::IllegalA }),
        0x3C => Some(Instruction { cycles: 4, op: Op::Bit(AddressingMode::AbsoluteX) }),
        0x3F => Some(Instruction { cycles: 5, op: Op::Bbr(3) }),
        0x42 => Some(Instruction { cycles: 2, op: Op::Illegal(AddressingMode::Immediate) }),
        0x43 => Some(Instruction { cycles: 1, op: Op::IllegalA }),
        0x44 => Some(Instruction { cycles: 3, op: Op::Illegal(AddressingMode::ZeroPage) }),
        0x47 => Some(Instruction { cycles: 5, op: Op::Rmb(4) }),
        0x4B => Some(Instruction { cycles: 1, op: Op::IllegalA }),
        0x4F => Some(Instruction { cycles: 5, op: Op::Bbr(4) }),
        0x52 => Some(Instruction { cycles: 5, op: Op::Eor(AddressingMode::ZeroPageIndirect) }),
        0x53 => Some(Instruction { cycles: 1, op: Op::IllegalA }),
        0x54 => Some(Instruction { cycles: 4, op: Op::Illegal(AddressingMode::ZeroPageX) }),
        0x57 => Some(Instruction { cycles: 5, op: Op::Rmb(5) }),
        0x5A => Some(Instruction { cycles: 3, op: Op::Phy }),
        0x5B => Some(Instruction { cycles: 1, op: Op::IllegalA }),
        0x5C => Some(Instruction { cycles: 8, op: Op::Illegal(AddressingMode::Absolute) }),
        0x5F => Some(Instruction { cycles: 5, op: Op::Bbr(5) }),
        0x62 => Some(Instruction { cycles: 2, op: Op::Illegal(AddressingMode::Immediate) }),
        0x63 => Some(Instruction { cycles: 1, op: Op::IllegalA }),
        0x64 => Some(Instruction { cycles: 3, op: Op::Stz(AddressingMode::ZeroPage) }),
        0x67 => Some(Instruction { cycles: 5, op: Op::Rmb(6) }),
        0x6B => Some(Instruction { cycles: 1, op: Op::IllegalA }),
        0x6C => Some(Instruction { cycles: 5, op: Op::Jmp(AddressingMode::AbsoluteIndirectCorrect) }),
        0x6F => Some(Instruction { cycles: 5, op: Op::Bbr(6) }),
        0x72 => Some(Instruction { cycles: 5, op: Op::Adc(AddressingMode::ZeroPageIndirect) }),
        0x73 => Some(Instruction { cycles: 1, op: Op::IllegalA }),
        0x74 => Some(Instruction { cycles: 4, op: Op::Stz(AddressingMode::ZeroPageX) }),
        0x77 => Some(Instruction { cycles: 5, op: Op::Rmb(7) }),
        0x7A => Some(Instruction { cycles: 4, op: Op::Ply }),
        0x7B => Some(Instruction { cycles: 1, op: Op::IllegalA }),
        0x7C => Some(Instruction { cycles: 5, op: Op::Jmp(AddressingMode::AbsoluteIndirectX) }),
        0x7F => Some(Instruction { cycles: 5, op: Op::Bbr(7) }),
        0x80 => Some(Instruction { cycles: 2, op: Op::Bra }),
        0x82 => Some(Instruction { cycles: 2, op: Op::Illegal(AddressingMode::Immediate) }),
        0x83 => Some(Instruction { cycles: 1, op: Op::IllegalA }),
        0x87 => Some(Instruction { cycles: 5, op: Op::Smb(0) }),
        0x89 => Some(Instruction { cycles: 2, op: Op::BitImmediate }),
        0x8B => Some(Instruction { cycles: 1, op: Op::IllegalA }),
        0x8F => Some(Instruction { cycles: 5, op: Op::Bbs(0) }),
        0x92 => Some(Instruction { cycles: 6, op: Op::Sta(AddressingMode::ZeroPageIndirect) }),
        0x93 => Some(Instruction { cycles: 1, op: Op::IllegalA }),
        0x97 => Some(Instruction { cycles: 5, op: Op::Smb(1) }),
        0x9B => Some(Instruction { cycles: 1, op: Op::IllegalA }),
        0x9C => Some(Instruction { cycles: 4, op: Op::Stz(AddressingMode::Absolute) }),
        0x9E => Some(Instruction { cycles: 5, op: Op::Stz(AddressingMode::AbsoluteX) }),
        0x9F => Some(Instruction { cycles: 5, op: Op::Bbs(1) }),
        0xA3 => Some(Instruction { cycles: 1, op: Op::IllegalA }),
        0xA7 => Some(Instruction { cycles: 5, op: Op::Smb(2) }),
        0xAB => Some(Instruction { cycles: 1, op: Op::IllegalA }),
        0xAF => Some(Instruction { cycles: 5, op: Op::Bbs(2) }),
        0xB2 => Some(Instruction { cycles: 5, op: Op::Lda(AddressingMode::ZeroPageIndirect) }),
        0xB3 => Some(Instruction { cycles: 1, op: Op::IllegalA }),
        0xB7 => Some(Instruction { cycles: 5, op: Op::Smb(3) }),
        0xBB => Some(Instruction { cycles: 1, op: Op::IllegalA }),
        0xBF => Some(Instruction { cycles: 5, op: Op::Bbs(3) }),
        0xC2 => Some(Instruction { cycles: 2, op: Op::Illegal(AddressingMode::Immediate) }),
        0xC3 => Some(Instruction { cycles: 1, op: Op::IllegalA }),
        0xC7 => Some(Instruction { cycles: 5, op: Op::Smb(4) }),
        0xCB => Some(Instruction { cycles: 3, op: Op::Wai }),
        0xCF => Some(Instruction { cycles: 5, op: Op::Bbs(4) }),
        0xD2 => Some(Instruction { cycles: 5, op: Op::Cmp(AddressingMode::ZeroPageIndirect) }),
        0xD3 => Some(Instruction { cycles: 1, op: Op::IllegalA }),
        0xD4 => Some(Instruction { cycles: 4, op: Op::Illegal(AddressingMode::ZeroPageX) }),
        0xD7 => Some(Instruction { cycles: 5, op: Op::Smb(5) }),
        0xDA => Some(Instruction { cycles: 3, op: Op::Phx }),
        0xDB => Some(Instruction { cycles: 3, op: Op::Stp }),
        0xDC => Some(Instruction { cycles: 4, op: Op::Illegal(AddressingMode::AbsoluteX) }),
        0xDF => Some(Instruction { cycles: 5, op: Op::Bbs(5) }),
        0xE2 => Some(Instruction { cycles: 2, op: Op::Illegal(AddressingMode::Immediate) }),
        0xE3 => Some(Instruction { cycles: 1, op: Op::IllegalA }),
        0xE7 => Some(Instruction { cycles: 5, op: Op::Smb(6) }),
        0xEB => Some(Instruction { cycles: 1, op: Op::IllegalA }),
        0xEF => Some(Instruction { cycles: 5, op: Op::Bbs(6) }),
        0xF2 => Some(Instruction { cycles: 5, op: Op::Sbc(AddressingMode::ZeroPageIndirect) }),
        0xF3 => Some(Instruction { cycles: 1, op: Op::IllegalA }),
        0xF4 => Some(Instruction { cycles: 4, op: Op::Illegal(AddressingMode::ZeroPageX) }),
        0xF7 => Some(Instruction { cycles: 5, op: Op::Smb(7) }),
        0xFA => Some(Instruction { cycles: 4, op: Op::Plx }),
        0xFB => Some(Instruction { cycles: 1, op: Op::IllegalA }),
        0xFC => Some(Instruction { cycles: 4, op: Op::Illegal(AddressingMode::AbsoluteX) }),
        0xFF => Some(Instruction { cycles: 5, op: Op::Bbs(7) }),
        _ => None,
    }
}

/// The WDC 65C02S variant: the MOS table with the CMOS additions, the
/// corrected indirect JMP, and decimal cleared on interrupt entry.
pub struct Wdc65c02s;

impl Wdc65c02s {
    /// Build the canonical WDC 65C02S table: each slot exactly
    /// [`spec_wdc_entry`] of its opcode, which patches the MOS slots.
    pub fn base_table() -> (r: InstructionTable)
        ensures
            r.wf(),
            r.entries@ == Seq::new(256, |i: int| spec_wdc_entry(i as u8)),
            r.decimal_enabled,
            r.interrupt_clears_decimal,
    {
        let mut t: Vec<Instruction> = Vec::new();
        let mut i: usize = 0;
        while i < 256
            invariant
                i <= 256,
                t@ =~= Seq::new(i as nat, |j: int| spec_wdc_entry(j as u8)),
            decreases 256 - i,
        {
            t.push(wdc_entry(i as u8));
            proof {
                assert(t@ =~= Seq::new((i + 1) as nat, |j: int| spec_wdc_entry(j as u8)));
            }
            i = i + 1;
        }
        InstructionTable { entries: t, decimal_enabled: true, interrupt_clears_decimal: true }
    }
}

impl crate::instruction::InstructionSet for Wdc65c02s {
    open spec fn spec_entry(opcode: u8) -> Instruction {
        spec_wdc_entry(opcode)
    }

    open spec fn spec_decimal_enabled() -> bool {
        true
    }

    open spec fn spec_interrupt_clears_decimal() -> bool {
        true
    }

    fn instruction_table() -> (r: InstructionTable) {
        Wdc65c02s::base_table()
    }
}

} // verus!
